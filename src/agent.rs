//! The agent's state: the peer registry, the subscribers, and the handling of the
//! three requests, one at a time.
use vstd::prelude::*;
use crate::protocol::{
    GetStatus, Note, Notice, SendMsg, SendMsgResponse, StatusResponse, Subscribe,
    now_rfc3339,
};

verus! {

/// A request to the agent.
pub enum AgentRequest {
    SendMsg(SendMsg),
    GetStatus(GetStatus),
    Subscribe(Subscribe),
}

/// The agent's reply to a request.
pub enum AgentReply {
    Ack(SendMsgResponse),
    Status(StatusResponse),
    /// The position of the new subscriber.
    Subscribed(usize),
}

/// A known peer, and when it was first seen.
pub struct PeerInfo {
    pub endpoint_id: String,
    pub connected_at: String,
}

/// The notes that one message from `from` produces, given the peers known before.
pub open spec fn send_notes(known: Set<Seq<char>>, from: Seq<char>) -> Seq<Note> {
    if known.contains(from) {
        seq![Note::Received(from)]
    } else {
        seq![Note::Joined(from), Note::Received(from)]
    }
}

pub open spec fn notes_of(ns: Seq<Notice>) -> Seq<Note> {
    ns.map_values(|n: Notice| n.note())
}

/// The peers known and the notes produced after messages from `froms`, in order,
/// starting from the peers `known`.
pub open spec fn sends_outcome(known: Set<Seq<char>>, froms: Seq<Seq<char>>) -> (Set<Seq<char>>, Seq<Note>)
    decreases froms.len(),
{
    if froms.len() == 0 {
        (known, Seq::empty())
    } else {
        let prev = sends_outcome(known, froms.drop_last());
        (prev.0.insert(froms.last()), prev.1 + send_notes(prev.0, froms.last()))
    }
}

/// Seconds since `start`, by a clock read at `now`.
pub open spec fn uptime_at(start: u64, now: u64) -> u64 {
    if now >= start { (now - start) as u64 } else { 0 }
}

/// How many of the notes announce that `x` joined.
pub open spec fn joined_count(ns: Seq<Note>, x: Seq<char>) -> nat
    decreases ns.len(),
{
    if ns.len() == 0 {
        0
    } else {
        joined_count(ns.drop_last(), x) + if ns.last() == Note::Joined(x) { 1nat } else { 0nat }
    }
}

/// The agent's state. Requests are handled one at a time, so the order in which the
/// peers are registered and the notices emitted is the order of the requests.
pub struct AgentState {
    endpoint_id: String,
    peers: Vec<PeerInfo>,
    subscribers: usize,
    start_secs: u64,
    /// For each notice emitted so far, how many subscribers it went to.
    audiences: Ghost<Seq<nat>>,
    /// For each subscriber, how many notices had been emitted when it subscribed.
    joined_at: Ghost<Seq<nat>>,
}

impl AgentState {
    pub closed spec fn id(&self) -> Seq<char> {
        self.endpoint_id@
    }

    /// The identities of the known peers, in order of registration.
    pub closed spec fn peer_id_seq(&self) -> Seq<Seq<char>> {
        self.peers@.map_values(|p: PeerInfo| p.endpoint_id@)
    }

    pub open spec fn peer_set(&self) -> Set<Seq<char>> {
        self.peer_id_seq().to_set()
    }

    /// When the peer at position `i` was first seen.
    pub closed spec fn connected_at(&self, i: int) -> Seq<char> {
        self.peers@[i].connected_at@
    }

    pub closed spec fn subscriber_total(&self) -> nat {
        self.subscribers as nat
    }

    pub closed spec fn start(&self) -> u64 {
        self.start_secs
    }

    pub closed spec fn audiences(&self) -> Seq<nat> {
        self.audiences@
    }

    pub closed spec fn joined_at(&self) -> Seq<nat> {
        self.joined_at@
    }

    pub closed spec fn wf(&self) -> bool {
        &&& self.peer_id_seq().no_duplicates()
        &&& self.joined_at@.len() == self.subscribers
        &&& forall|s: int, i: int|
            0 <= s < self.joined_at@.len() && 0 <= i < self.audiences@.len() ==> (s
                < #[trigger] self.audiences@[i] <==> #[trigger] self.joined_at@[s] <= i)
        &&& forall|i: int| 0 <= i < self.audiences@.len() ==> #[trigger] self.audiences@[i] <= self.subscribers
        &&& forall|s: int| 0 <= s < self.joined_at@.len() ==> #[trigger] self.joined_at@[s] <= self.audiences@.len()
    }

    /// A fresh agent with identity `endpoint_id`, started at `start_secs` of a
    /// monotonic clock.
    pub fn new(endpoint_id: String, start_secs: u64) -> (r: Self)
        ensures
            r.wf(),
            r.id() == endpoint_id@,
            r.peer_id_seq() == Seq::<Seq<char>>::empty(),
            r.subscriber_total() == 0,
            r.start() == start_secs,
            r.audiences() == Seq::<nat>::empty(),
    {
        let r = AgentState {
            endpoint_id,
            peers: Vec::new(),
            subscribers: 0,
            start_secs,
            audiences: Ghost(Seq::empty()),
            joined_at: Ghost(Seq::empty()),
        };
        assert(r.peer_id_seq() =~= Seq::<Seq<char>>::empty());
        r
    }

    pub fn endpoint_id(&self) -> (r: &String)
        ensures
            r@ == self.id(),
    {
        &self.endpoint_id
    }

    pub fn subscriber_count(&self) -> (r: usize)
        ensures
            r == self.subscriber_total(),
    {
        self.subscribers
    }

    /// Whether `endpoint_id` is a known peer.
    pub fn contains_peer(&self, endpoint_id: &str) -> (r: bool)
        ensures
            r == self.peer_set().contains(endpoint_id@),
    {
        let key = endpoint_id.to_string();
        let mut i: usize = 0;
        while i < self.peers.len()
            invariant
                i <= self.peers.len(),
                key@ == endpoint_id@,
                forall|j: int| 0 <= j < i ==> self.peer_id_seq()[j] != key@,
            decreases self.peers.len() - i,
        {
            if self.peers[i].endpoint_id == key {
                assert(self.peer_id_seq()[i as int] == key@);
                return true;
            }
            i = i + 1;
        }
        proof {
            if self.peer_set().contains(endpoint_id@) {
                let j = choose|j: int| 0 <= j < self.peer_id_seq().len() && self.peer_id_seq()[j] == endpoint_id@;
            }
        }
        false
    }

    /// The identities of the known peers.
    pub fn peer_ids(&self) -> (r: Vec<String>)
        ensures
            r@.map_values(|s: String| s@) == self.peer_id_seq(),
    {
        let mut r: Vec<String> = Vec::new();
        let mut i: usize = 0;
        while i < self.peers.len()
            invariant
                i <= self.peers.len(),
                r@.map_values(|s: String| s@) =~= self.peer_id_seq().take(i as int),
            decreases self.peers.len() - i,
        {
            let ghost before = r@;
            r.push(self.peers[i].endpoint_id.clone());
            proof {
                assert(r@.map_values(|s: String| s@) =~= before.map_values(|s: String| s@).push(
                    self.peers@[i as int].endpoint_id@,
                ));
                assert(self.peer_id_seq().take(i as int + 1) =~= self.peer_id_seq().take(i as int).push(
                    self.peer_id_seq()[i as int],
                ));
            }
            i = i + 1;
        }
        assert(self.peer_id_seq().take(self.peers.len() as int) =~= self.peer_id_seq());
        r
    }

    /// Registers `endpoint_id` as a peer first seen at `connected_at`, unless it is
    /// known already. Returns the notice that it joined, if it is new.
    pub fn record_peer(&mut self, endpoint_id: &str, connected_at: String) -> (r: Option<Notice>)
        requires
            old(self).wf(),
        ensures
            final(self).wf(),
            final(self).peer_set() == old(self).peer_set().insert(endpoint_id@),
            old(self).peer_set().contains(endpoint_id@) ==> final(self).peer_id_seq() == old(self).peer_id_seq() && r is None,
            !old(self).peer_set().contains(endpoint_id@) ==> {
                &&& final(self).peer_id_seq() == old(self).peer_id_seq().push(endpoint_id@)
                &&& final(self).connected_at(old(self).peer_id_seq().len() as int) == connected_at@
                &&& r matches Some(Notice::PeerJoined { endpoint_id: e, connected_at: c })
                    && e@ == endpoint_id@ && c == connected_at
            },
            final(self).id() == old(self).id(),
            final(self).subscriber_total() == old(self).subscriber_total(),
            final(self).joined_at() == old(self).joined_at(),
            final(self).start() == old(self).start(),
            final(self).audiences() == old(self).audiences() + Seq::new(
                if r is Some { 1nat } else { 0nat },
                |i: int| old(self).subscriber_total(),
            ),
            forall|i: int| 0 <= i < old(self).peer_id_seq().len() ==> final(self).connected_at(i) == old(self).connected_at(i),
    {
        if self.contains_peer(endpoint_id) {
            assert(self.peer_set().insert(endpoint_id@) =~= self.peer_set());
            assert(self.audiences@ + Seq::new(0nat, |i: int| self.subscribers as nat) =~= self.audiences@);
            return None;
        }
        let ghost old_ids = self.peer_id_seq();
        self.peers.push(PeerInfo { endpoint_id: endpoint_id.to_string(), connected_at: connected_at.clone() });
        let ghost subs = self.subscribers as nat;
        self.audiences = Ghost(self.audiences@.push(subs));
        proof {
            assert(self.peer_id_seq() =~= old_ids.push(endpoint_id@));
            assert(self.peer_id_seq().to_set() =~= old_ids.to_set().insert(endpoint_id@)) by {
                assert forall|x| self.peer_id_seq().to_set().contains(x) <==> old_ids.to_set().insert(endpoint_id@).contains(x) by {
                    if x == endpoint_id@ {
                        assert(self.peer_id_seq()[old_ids.len() as int] == x);
                    }
                    if old_ids.contains(x) {
                        let j = choose|j: int| 0 <= j < old_ids.len() && old_ids[j] == x;
                        assert(self.peer_id_seq()[j] == x);
                    }
                    if self.peer_id_seq().contains(x) {
                        let j = choose|j: int| 0 <= j < self.peer_id_seq().len() && self.peer_id_seq()[j] == x;
                        if j < old_ids.len() {
                            assert(old_ids[j] == x);
                        }
                    }
                }
            }
            assert(self.audiences@ =~= old(self).audiences@ + Seq::new(1nat, |i: int| subs));
        }
        Some(Notice::PeerJoined { endpoint_id: endpoint_id.to_string(), connected_at })
    }

    /// Registers `endpoint_id` as a peer first seen now, unless it is known already.
    pub fn add_peer(&mut self, endpoint_id: &str) -> (r: Option<Notice>)
        requires
            old(self).wf(),
        ensures
            final(self).wf(),
            final(self).peer_set() == old(self).peer_set().insert(endpoint_id@),
            old(self).peer_set().contains(endpoint_id@) ==> final(self).peer_id_seq() == old(self).peer_id_seq() && r is None,
            !old(self).peer_set().contains(endpoint_id@) ==> {
                &&& final(self).peer_id_seq() == old(self).peer_id_seq().push(endpoint_id@)
                &&& r matches Some(Notice::PeerJoined { endpoint_id: e, .. }) && e@ == endpoint_id@
            },
            final(self).id() == old(self).id(),
            final(self).subscriber_total() == old(self).subscriber_total(),
            final(self).joined_at() == old(self).joined_at(),
            final(self).start() == old(self).start(),
            final(self).audiences() == old(self).audiences() + Seq::new(
                if r is Some { 1nat } else { 0nat },
                |i: int| old(self).subscriber_total(),
            ),
    {
        self.record_peer(endpoint_id, now_rfc3339())
    }

    /// Handles `SendMsg`: registers the sender if it is new, and acknowledges.
    /// Returns the reply and the notices to emit, in order: that the sender joined,
    /// if it is new, then that the message was received. Each goes to every present
    /// subscriber.
    pub fn handle_send_msg(&mut self, req: SendMsg) -> (r: (SendMsgResponse, Vec<Notice>))
        requires
            old(self).wf(),
        ensures
            final(self).wf(),
            r.0.ack,
            r.0.agent_id@ == old(self).id(),
            final(self).peer_set() == old(self).peer_set().insert(req.message.from@),
            notes_of(r.1@) == send_notes(old(self).peer_set(), req.message.from@),
            r.1@.last() == (Notice::MessageReceived { message: req.message }),
            final(self).id() == old(self).id(),
            final(self).subscriber_total() == old(self).subscriber_total(),
            final(self).joined_at() == old(self).joined_at(),
            final(self).start() == old(self).start(),
            final(self).audiences() == old(self).audiences() + Seq::new(
                r.1@.len(),
                |i: int| old(self).subscriber_total(),
            ),
    {
        let from = req.message.from.clone();
        let joined = self.add_peer(from.as_str());
        let mut notices: Vec<Notice> = Vec::new();
        match joined {
            Some(n) => notices.push(n),
            None => {},
        }
        let ghost mid = self.audiences@;
        let ghost subs = self.subscribers as nat;
        notices.push(Notice::MessageReceived { message: req.message });
        self.audiences = Ghost(self.audiences@.push(subs));
        proof {
            assert(notes_of(notices@) =~= send_notes(old(self).peer_set(), from@));
            assert(self.audiences@ =~= old(self).audiences() + Seq::new(notices@.len(), |i: int| subs));
        }
        let response = SendMsgResponse { ack: true, agent_id: self.endpoint_id.clone() };
        (response, notices)
    }

    /// Handles `GetStatus` at `now_secs` of the clock the agent was started on.
    pub fn handle_get_status(&self, req: GetStatus, now_secs: u64) -> (r: StatusResponse)
        ensures
            r.agent_id@ == self.id(),
            r.peers@.map_values(|s: String| s@) == self.peer_id_seq(),
            r.uptime_secs == uptime_at(self.start(), now_secs),
    {
        let uptime_secs: u64 = if now_secs >= self.start_secs { now_secs - self.start_secs } else { 0 };
        StatusResponse { agent_id: self.endpoint_id.clone(), peers: self.peer_ids(), uptime_secs }
    }

    /// Handles `Subscribe`: returns the new subscriber's position. It receives every
    /// notice emitted from now on, and none emitted before.
    pub fn handle_subscribe(&mut self, req: Subscribe) -> (r: usize)
        requires
            old(self).wf(),
            old(self).subscriber_total() < usize::MAX,
        ensures
            final(self).wf(),
            r == old(self).subscriber_total(),
            final(self).subscriber_total() == old(self).subscriber_total() + 1,
            final(self).joined_at() == old(self).joined_at().push(old(self).audiences().len()),
            final(self).audiences() == old(self).audiences(),
            final(self).peer_id_seq() == old(self).peer_id_seq(),
            final(self).id() == old(self).id(),
            final(self).start() == old(self).start(),
    {
        let r: usize = self.subscribers;
        let ghost n = self.audiences@.len();
        self.joined_at = Ghost(self.joined_at@.push(n));
        self.subscribers = self.subscribers + 1;
        r
    }

    /// Handles one request, at `now_secs` of the agent's clock. Returns the reply and
    /// the notices to emit, in order, each to every present subscriber.
    pub fn handle_request(&mut self, req: AgentRequest, now_secs: u64) -> (r: (AgentReply, Vec<Notice>))
        requires
            old(self).wf(),
            req is Subscribe ==> old(self).subscriber_total() < usize::MAX,
        ensures
            final(self).wf(),
            final(self).id() == old(self).id(),
            final(self).start() == old(self).start(),
            match req {
                AgentRequest::SendMsg(m) => {
                    &&& r.0 matches AgentReply::Ack(a) && a.ack && a.agent_id@ == old(self).id()
                    &&& final(self).peer_set() == old(self).peer_set().insert(m.message.from@)
                    &&& notes_of(r.1@) == send_notes(old(self).peer_set(), m.message.from@)
                    &&& final(self).subscriber_total() == old(self).subscriber_total()
                    &&& final(self).audiences() == old(self).audiences() + Seq::new(
                        r.1@.len(),
                        |i: int| old(self).subscriber_total(),
                    )
                },
                AgentRequest::GetStatus(_) => {
                    &&& r.0 matches AgentReply::Status(s) && s.agent_id@ == old(self).id()
                        && s.peers@.map_values(|p: String| p@) == old(self).peer_id_seq()
                        && s.uptime_secs == uptime_at(old(self).start(), now_secs)
                    &&& r.1@.len() == 0
                    &&& final(self).peer_id_seq() == old(self).peer_id_seq()
                    &&& final(self).subscriber_total() == old(self).subscriber_total()
                    &&& final(self).audiences() == old(self).audiences()
                },
                AgentRequest::Subscribe(_) => {
                    &&& r.0 == AgentReply::Subscribed(old(self).subscriber_total() as usize)
                    &&& r.1@.len() == 0
                    &&& final(self).peer_id_seq() == old(self).peer_id_seq()
                    &&& final(self).subscriber_total() == old(self).subscriber_total() + 1
                    &&& final(self).joined_at() == old(self).joined_at().push(old(self).audiences().len())
                    &&& final(self).audiences() == old(self).audiences()
                },
            },
    {
        match req {
            AgentRequest::SendMsg(m) => {
                let (ack, notices) = self.handle_send_msg(m);
                (AgentReply::Ack(ack), notices)
            },
            AgentRequest::GetStatus(g) => {
                (AgentReply::Status(self.handle_get_status(g, now_secs)), Vec::new())
            },
            AgentRequest::Subscribe(s) => {
                (AgentReply::Subscribed(self.handle_subscribe(s)), Vec::new())
            },
        }
    }
}

} // verus!

verus! {

/// Messages from any sequence of senders leave exactly those senders registered,
/// and announce each distinct sender as joined exactly once, the first time it
/// appears, before the message of that occurrence is announced as received.
pub proof fn lemma_sends_register_each_sender_once(froms: Seq<Seq<char>>)
    ensures
        sends_outcome(Set::empty(), froms).0 == froms.to_set(),
        forall|x: Seq<char>| #[trigger] joined_count(sends_outcome(Set::empty(), froms).1, x)
            == if froms.contains(x) { 1nat } else { 0nat },
        forall|j: int|
            0 <= j < sends_outcome(Set::empty(), froms).1.len()
                && (#[trigger] sends_outcome(Set::empty(), froms).1[j]) is Received ==> exists|k: int|
                0 <= k < j && sends_outcome(Set::empty(), froms).1[k] == Note::Joined(
                    sends_outcome(Set::empty(), froms).1[j]->Received_0,
                ),
    decreases froms.len(),
{
    if froms.len() == 0 {
        assert(froms.to_set() =~= Set::empty());
    } else {
        let prev = froms.drop_last();
        let last = froms.last();
        lemma_sends_register_each_sender_once(prev);
        let (k, ns) = sends_outcome(Set::empty(), prev);
        let step = send_notes(k, last);
        assert(froms =~= prev.push(last));
        assert(froms.to_set() =~= prev.to_set().insert(last)) by {
            assert forall|x| froms.to_set().contains(x) <==> prev.to_set().insert(last).contains(x) by {
                if froms.contains(x) {
                    let j = choose|j: int| 0 <= j < froms.len() && froms[j] == x;
                    if j < prev.len() {
                        assert(prev[j] == x);
                    }
                }
                if prev.contains(x) {
                    let j = choose|j: int| 0 <= j < prev.len() && prev[j] == x;
                    assert(froms[j] == x);
                }
                if x == last {
                    assert(froms[froms.len() - 1] == x);
                }
            }
        }
        assert forall|x: Seq<char>| #[trigger] joined_count(ns + step, x)
            == if froms.contains(x) { 1nat } else { 0nat } by {
            lemma_joined_count_concat(ns, step, x);
            assert(froms.contains(x) == froms.to_set().contains(x));
            assert(prev.contains(x) == prev.to_set().contains(x));
            assert(froms.to_set().contains(x) == (prev.to_set().contains(x) || x == last));
            if k.contains(last) {
                assert(step.drop_last() =~= Seq::<Note>::empty());
                assert(joined_count(step.drop_last(), x) == 0);
                assert(joined_count(step, x) == 0);
            } else {
                let one = step.drop_last();
                assert(one.drop_last() =~= Seq::<Note>::empty());
                assert(one =~= seq![Note::Joined(last)]);
                assert(joined_count(one.drop_last(), x) == 0);
                assert(joined_count(one, x) == if x == last { 1nat } else { 0nat });
                assert(joined_count(step, x) == joined_count(one, x));
            }
        }
        let all = ns + step;
        assert forall|j: int|
            0 <= j < all.len() && (#[trigger] all[j]) is Received implies exists|i: int|
                0 <= i < j && all[i] == Note::Joined(all[j]->Received_0) by {
            let x = all[j]->Received_0;
            if j < ns.len() {
                assert(ns[j] == Note::Received(x));
                let i = choose|i: int| 0 <= i < j && ns[i] == Note::Joined(x);
                assert(all[i] == Note::Joined(x));
            } else if k.contains(last) {
                assert(x == last);
                assert(joined_count(ns, x) == 1);
                lemma_joined_count_positive(ns, x);
                let i = choose|i: int| 0 <= i < ns.len() && ns[i] == Note::Joined(x);
                assert(all[i] == Note::Joined(x));
            } else {
                assert(all[ns.len() as int] == Note::Joined(x));
            }
        }
    }
}

proof fn lemma_joined_count_concat(a: Seq<Note>, b: Seq<Note>, x: Seq<char>)
    ensures
        joined_count(a + b, x) == joined_count(a, x) + joined_count(b, x),
    decreases b.len(),
{
    if b.len() == 0 {
        assert(a + b =~= a);
    } else {
        assert((a + b).drop_last() =~= a + b.drop_last());
        lemma_joined_count_concat(a, b.drop_last(), x);
    }
}

proof fn lemma_joined_count_positive(ns: Seq<Note>, x: Seq<char>)
    requires
        joined_count(ns, x) > 0,
    ensures
        exists|i: int| 0 <= i < ns.len() && ns[i] == Note::Joined(x),
    decreases ns.len(),
{
    if ns.last() == Note::Joined(x) {
        assert(ns[ns.len() - 1] == Note::Joined(x));
    } else {
        lemma_joined_count_positive(ns.drop_last(), x);
        let i = choose|i: int| 0 <= i < ns.drop_last().len() && ns.drop_last()[i] == Note::Joined(x);
        assert(ns[i] == Note::Joined(x));
    }
}

/// Uptime never decreases: for later clock readings the agent reports at least as
/// long an uptime (the start of an agent never changes after `new`).
pub proof fn lemma_uptime_monotone(start: u64, now1: u64, now2: u64)
    requires
        now1 <= now2,
    ensures
        uptime_at(start, now1) <= uptime_at(start, now2),
{
}

/// A subscriber receives exactly the notices emitted after it subscribed: the
/// notice at position `i` of the emission order goes to subscriber `s` if and only
/// if `s` subscribed before it was emitted.
pub proof fn lemma_subscriber_receives_later_notices(st: AgentState, s: int, i: int)
    requires
        st.wf(),
        0 <= s < st.subscriber_total(),
        0 <= i < st.audiences().len(),
    ensures
        (s < st.audiences()[i]) <==> (st.joined_at()[s] <= i),
{
}

} // verus!
