//! A cache of one client per remote peer identity.
use vstd::prelude::*;

verus! {

#[verifier::external_type_specification]
#[verifier::external_body]
pub struct ExPublicKey(iroh::PublicKey);

#[verifier::external_type_specification]
#[verifier::external_body]
pub struct ExKeyParsingError(iroh::KeyParsingError);

/// Whether the text is the hex or base32 encoding of a valid endpoint key.
pub uninterp spec fn endpoint_id_parses(s: Seq<char>) -> bool;

/// Relies on iroh's `PublicKey::from_str` (what `EndpointId` parses with): it
/// succeeds on the same text every time, and fails on empty text, which has the
/// wrong length.
#[verifier::external_body]
fn parse_endpoint_id(s: &str) -> (r: Result<iroh::PublicKey, iroh::KeyParsingError>)
    ensures
        r is Ok <==> endpoint_id_parses(s@),
        s@.len() == 0 ==> r is Err,
{
    s.parse::<iroh::PublicKey>()
}

/// What a lookup found for an identity.
pub enum Lookup {
    /// A client for it is cached at this position.
    Cached(usize),
    /// None is cached; the identity is a valid endpoint key.
    Create(iroh::PublicKey),
    /// None is cached, and the identity is not a valid endpoint key.
    Invalid(String),
}

/// One client per peer identity. Entries are never evicted nor replaced, so every
/// lookup of an identity finds the same client once one is cached.
pub struct PeerCache<C> {
    entries: Vec<(String, C)>,
}

impl<C> PeerCache<C> {
    /// The cached identities, in order of insertion.
    pub closed spec fn keys(&self) -> Seq<Seq<char>> {
        self.entries@.map_values(|e: (String, C)| e.0@)
    }

    /// The cached clients, in the same order.
    pub closed spec fn clients(&self) -> Seq<C> {
        self.entries@.map_values(|e: (String, C)| e.1)
    }

    pub closed spec fn wf(&self) -> bool {
        self.keys().no_duplicates()
    }

    pub fn new() -> (r: Self)
        ensures
            r.wf(),
            r.keys() == Seq::<Seq<char>>::empty(),
    {
        let r = PeerCache { entries: Vec::new() };
        assert(r.keys() =~= Seq::<Seq<char>>::empty());
        r
    }

    pub fn len(&self) -> (r: usize)
        ensures
            r == self.keys().len(),
            r == self.clients().len(),
    {
        self.entries.len()
    }

    /// The position of the client cached for `endpoint_id`, if any.
    pub fn position(&self, endpoint_id: &str) -> (r: Option<usize>)
        ensures
            match r {
                Some(i) => i < self.keys().len() && self.keys()[i as int] == endpoint_id@,
                None => !self.keys().contains(endpoint_id@),
            },
    {
        let key = endpoint_id.to_string();
        let mut i: usize = 0;
        while i < self.entries.len()
            invariant
                i <= self.entries.len(),
                key@ == endpoint_id@,
                forall|j: int| 0 <= j < i ==> self.keys()[j] != key@,
            decreases self.entries.len() - i,
        {
            if self.entries[i].0 == key {
                return Some(i);
            }
            i = i + 1;
        }
        None
    }

    /// The client at position `i`.
    pub fn get(&self, i: usize) -> (r: &C)
        requires
            i < self.clients().len(),
        ensures
            *r == self.clients()[i as int],
    {
        &self.entries[i].1
    }

    /// Looks `endpoint_id` up: a cached client, or else whether a client may be
    /// created for it. A malformed identity is reported and nothing is cached.
    pub fn lookup(&self, endpoint_id: &str) -> (r: Lookup)
        ensures
            match r {
                Lookup::Cached(i) => i < self.keys().len() && self.keys()[i as int] == endpoint_id@,
                Lookup::Create(_) => !self.keys().contains(endpoint_id@) && endpoint_id_parses(
                    endpoint_id@,
                ),
                Lookup::Invalid(e) => !self.keys().contains(endpoint_id@) && !endpoint_id_parses(
                    endpoint_id@,
                ) && e@ == "Invalid endpoint_id"@,
            },
    {
        match self.position(endpoint_id) {
            Some(i) => Lookup::Cached(i),
            None => match parse_endpoint_id(endpoint_id) {
                Ok(key) => Lookup::Create(key),
                Err(_) => Lookup::Invalid("Invalid endpoint_id".to_string()),
            },
        }
    }

    /// Caches `client` for `endpoint_id` unless a client is cached for it already,
    /// in which case that one is kept. Returns the position of the client that is
    /// cached for `endpoint_id` afterwards.
    pub fn insert_if_absent(&mut self, endpoint_id: &str, client: C) -> (r: usize)
        requires
            old(self).wf(),
        ensures
            final(self).wf(),
            r < final(self).keys().len(),
            final(self).keys()[r as int] == endpoint_id@,
            old(self).keys().contains(endpoint_id@) ==> final(self).keys() == old(self).keys()
                && final(self).clients() == old(self).clients(),
            !old(self).keys().contains(endpoint_id@) ==> final(self).keys() == old(self).keys().push(
                endpoint_id@,
            ) && final(self).clients() == old(self).clients().push(client) && r == old(
                self,
            ).keys().len(),
    {
        match self.position(endpoint_id) {
            Some(i) => i,
            None => {
                let ghost old_keys = self.keys();
                let ghost old_clients = self.clients();
                let n: usize = self.entries.len();
                self.entries.push((endpoint_id.to_string(), client));
                assert(self.keys() =~= old_keys.push(endpoint_id@));
                assert(self.clients() =~= old_clients.push(client));
                n
            },
        }
    }
}

/// No identity has two clients: two cached entries for the same identity are one
/// and the same entry.
pub proof fn lemma_one_client_per_identity<C>(cache: PeerCache<C>, i: int, j: int)
    requires
        cache.wf(),
        0 <= i < cache.keys().len(),
        0 <= j < cache.keys().len(),
        cache.keys()[i] == cache.keys()[j],
    ensures
        i == j,
{
}

} // verus!
