//! The command bridge: external commands, what each asks of the daemon, and the
//! JSON that answers them.
use vstd::prelude::*;
use crate::json::{
    array_text, bool_text, decimal_text, json_bool, json_string, json_string_text, json_u64,
    object_text, pair_views, render_array, render_object, string_views,
};
use crate::protocol::{AgentMessage, now_rfc3339};
use crate::transfer::{base64_decoded, decode_share_bytes};

verus! {

/// A command read from the bridge. Each carries the caller's correlation id.
pub enum Command {
    Status { id: String },
    Connect { id: String, endpoint_id: String },
    Send { id: String, endpoint_id: String, message: String },
    Broadcast { id: String, message: String },
    Peers { id: String },
    /// `data` is base64 text.
    ShareBytes { id: String, data: String },
    ShareFiles { id: String, paths: Vec<String> },
    /// `ticket` is a blob ticket, as a share returned it.
    Fetch { id: String, ticket: String },
    Shutdown { id: String },
}

impl Command {
    pub open spec fn id_view(&self) -> Seq<char> {
        match self {
            Command::Status { id } => id@,
            Command::Connect { id, .. } => id@,
            Command::Send { id, .. } => id@,
            Command::Broadcast { id, .. } => id@,
            Command::Peers { id } => id@,
            Command::ShareBytes { id, .. } => id@,
            Command::ShareFiles { id, .. } => id@,
            Command::Fetch { id, .. } => id@,
            Command::Shutdown { id } => id@,
        }
    }

    /// The correlation id.
    pub fn id(&self) -> (r: &String)
        ensures
            r@ == self.id_view(),
    {
        match self {
            Command::Status { id } => id,
            Command::Connect { id, .. } => id,
            Command::Send { id, .. } => id,
            Command::Broadcast { id, .. } => id,
            Command::Peers { id } => id,
            Command::ShareBytes { id, .. } => id,
            Command::ShareFiles { id, .. } => id,
            Command::Fetch { id, .. } => id,
            Command::Shutdown { id } => id,
        }
    }

    /// Whether this command ends the command loop, after its response.
    pub fn is_shutdown(&self) -> (r: bool)
        ensures
            r == self is Shutdown,
    {
        match self {
            Command::Shutdown { .. } => true,
            _ => false,
        }
    }
}

/// A response envelope: success with data, or failure with an error message.
pub struct Response {
    pub id: String,
    pub success: bool,
    /// JSON text.
    pub data: Option<String>,
    pub error: Option<String>,
}

pub open spec fn opt_view(s: Option<String>) -> Option<Seq<char>> {
    match s {
        Some(t) => Some(t@),
        None => None,
    }
}

impl Response {
    /// The response line: `{"id":..,"type":"response","success":..}` followed by
    /// `data` and `error` where present.
    pub open spec fn line_text(&self) -> Seq<char> {
        object_text(
            seq![
                ("id"@, json_string_text(self.id@)),
                ("type"@, json_string_text("response"@)),
                ("success"@, bool_text(self.success)),
            ] + match self.data {
                Some(d) => seq![("data"@, d@)],
                None => Seq::empty(),
            } + match self.error {
                Some(e) => seq![("error"@, json_string_text(e@))],
                None => Seq::empty(),
            },
        )
    }

    /// The envelope for a handler's outcome: its data on success, its error message
    /// on failure, under the command's id.
    pub fn from_outcome(id: String, outcome: Result<String, String>) -> (r: Response)
        ensures
            r.id == id,
            r.success == outcome is Ok,
            match outcome {
                Ok(d) => r.data == Some(d) && r.error is None,
                Err(e) => r.data is None && r.error == Some(e),
            },
    {
        match outcome {
            Ok(d) => Response { id, success: true, data: Some(d), error: None },
            Err(e) => Response { id, success: false, data: None, error: Some(e) },
        }
    }

    /// The response to a line that is not a well-formed command.
    pub fn unknown(error: String) -> (r: Response)
        ensures
            r.id@ == "unknown"@,
            !r.success,
            r.data is None,
            r.error == Some(error),
    {
        Response { id: "unknown".to_string(), success: false, data: None, error: Some(error) }
    }

    pub fn line(&self) -> (r: String)
        ensures
            r@ == self.line_text(),
    {
        let mut members: Vec<(String, String)> = Vec::new();
        members.push(("id".to_string(), json_string(self.id.as_str())));
        members.push(("type".to_string(), json_string("response")));
        members.push(("success".to_string(), json_bool(self.success)));
        let ghost head = pair_views(members@);
        match &self.data {
            Some(d) => members.push(("data".to_string(), d.clone())),
            None => {},
        }
        let ghost mid = pair_views(members@);
        match &self.error {
            Some(e) => members.push(("error".to_string(), json_string(e.as_str()))),
            None => {},
        }
        let r = render_object(&members);
        assert(pair_views(members@) =~= seq![
            ("id"@, json_string_text(self.id@)),
            ("type"@, json_string_text("response"@)),
            ("success"@, bool_text(self.success)),
        ] + match self.data {
            Some(d) => seq![("data"@, d@)],
            None => Seq::empty(),
        } + match self.error {
            Some(e) => seq![("error"@, json_string_text(e@))],
            None => Seq::empty(),
        });
        r
    }
}

/// What the daemon does for a command.
pub enum Step {
    Status,
    Connect { endpoint_id: String },
    Send { endpoint_id: String, message: String },
    Broadcast { message: String },
    Peers,
    /// Store these bytes and share them.
    ShareBytes { bytes: Vec<u8> },
    ShareFiles { paths: Vec<String> },
    Fetch { ticket: String },
    /// Nothing more: this is the answer.
    Reply { response: Response },
}

/// Whether the command loop goes on after a command.
pub enum Flow {
    Continue,
    Stop,
}

/// Decides what a command asks for. Shutdown, and bytes that are not base64, are
/// answered at once; the command loop stops after shutdown and only then.
pub fn plan_command(cmd: Command) -> (r: (Step, Flow))
    ensures
        (r.1 is Stop) == (cmd is Shutdown),
        match cmd {
            Command::Status { .. } => r.0 is Status,
            Command::Connect { endpoint_id, .. } => r.0 == (Step::Connect { endpoint_id }),
            Command::Send { endpoint_id, message, .. } => r.0 == (Step::Send { endpoint_id, message }),
            Command::Broadcast { message, .. } => r.0 == (Step::Broadcast { message }),
            Command::Peers { .. } => r.0 is Peers,
            Command::ShareBytes { id, data } => match base64_decoded(data@) {
                Some(b) => r.0 matches Step::ShareBytes { bytes } && bytes@ == b,
                None => r.0 matches Step::Reply {
                    response: Response { id: rid, success: false, data: None, error: Some(e) },
                } && rid == id && e@ == "invalid base64"@,
            },
            Command::ShareFiles { paths, .. } => r.0 == (Step::ShareFiles { paths }),
            Command::Fetch { ticket, .. } => r.0 == (Step::Fetch { ticket }),
            Command::Shutdown { id } => r.0 matches Step::Reply {
                response: Response { id: rid, success: true, data: Some(d), error: None },
            } && rid == id && d@ == shutdown_data_text(),
        },
{
    match cmd {
        Command::Status { .. } => (Step::Status, Flow::Continue),
        Command::Connect { endpoint_id, .. } => (Step::Connect { endpoint_id }, Flow::Continue),
        Command::Send { endpoint_id, message, .. } => (Step::Send { endpoint_id, message }, Flow::Continue),
        Command::Broadcast { message, .. } => (Step::Broadcast { message }, Flow::Continue),
        Command::Peers { .. } => (Step::Peers, Flow::Continue),
        Command::ShareBytes { id, data } => match decode_share_bytes(data.as_str()) {
            Ok(bytes) => (Step::ShareBytes { bytes }, Flow::Continue),
            Err(e) => (Step::Reply { response: Response::from_outcome(id, Err(e)) }, Flow::Continue),
        },
        Command::ShareFiles { paths, .. } => (Step::ShareFiles { paths }, Flow::Continue),
        Command::Fetch { ticket, .. } => (Step::Fetch { ticket }, Flow::Continue),
        Command::Shutdown { id } => (
            Step::Reply { response: Response::from_outcome(id, Ok(shutdown_data())) },
            Flow::Stop,
        ),
    }
}

/// Decides what a line of input asks for: a line that did not decode as a command
/// (`Err`, with the decoder's message) is answered under the id `unknown`, and the
/// command loop goes on.
pub fn plan_line(line: Result<Command, String>) -> (r: (Step, Flow))
    ensures
        match line {
            Ok(cmd) => (r.1 is Stop) == (cmd is Shutdown),
            Err(e) => {
                &&& r.1 is Continue
                &&& r.0 matches Step::Reply {
                    response: Response { id: rid, success: false, data: None, error: Some(m) },
                }
                &&& rid@ == "unknown"@
                &&& m@ == "Invalid command: "@ + e@
            },
        },
{
    match line {
        Ok(cmd) => plan_command(cmd),
        Err(e) => {
            let mut m = "Invalid command: ".to_string();
            m.append(e.as_str());
            (Step::Reply { response: Response::unknown(m) }, Flow::Continue)
        },
    }
}

pub open spec fn shutdown_data_text() -> Seq<char> {
    object_text(seq![("shutdown"@, bool_text(true))])
}

/// `{"shutdown":true}`
pub fn shutdown_data() -> (r: String)
    ensures
        r@ == shutdown_data_text(),
{
    let mut members: Vec<(String, String)> = Vec::new();
    members.push(("shutdown".to_string(), json_bool(true)));
    let r = render_object(&members);
    assert(pair_views(members@) =~= seq![("shutdown"@, bool_text(true))]);
    r
}

pub open spec fn status_data_text(
    endpoint_id: Seq<char>,
    relay_url: Option<Seq<char>>,
    peers: nat,
    uptime_secs: nat,
) -> Seq<char> {
    object_text(
        seq![
            ("endpoint_id"@, json_string_text(endpoint_id)),
            ("peers"@, decimal_text(peers)),
            ("relay_url"@, json_string_text(
                match relay_url {
                    Some(u) => u,
                    None => "none"@,
                },
            )),
            ("uptime_secs"@, decimal_text(uptime_secs)),
        ],
    )
}

/// The data of `status`: the agent's identity, its first relay (or `none`), how
/// many peers it knows, and its uptime.
pub fn status_data(endpoint_id: &str, relay_url: Option<String>, peers: usize, uptime_secs: u64) -> (r: String)
    ensures
        r@ == status_data_text(endpoint_id@, opt_view(relay_url), peers as nat, uptime_secs as nat),
{
    let ghost rv = opt_view(relay_url);
    let relay = match relay_url {
        Some(u) => u,
        None => "none".to_string(),
    };
    assert(relay@ == match rv {
        Some(u) => u,
        None => "none"@,
    });
    let mut members: Vec<(String, String)> = Vec::new();
    members.push(("endpoint_id".to_string(), json_string(endpoint_id)));
    members.push(("peers".to_string(), json_u64(peers as u64)));
    members.push(("relay_url".to_string(), json_string(relay.as_str())));
    members.push(("uptime_secs".to_string(), json_u64(uptime_secs)));
    let r = render_object(&members);
    assert(pair_views(members@) =~= seq![
        ("endpoint_id"@, json_string_text(endpoint_id@)),
        ("peers"@, decimal_text(peers as nat)),
        ("relay_url"@, json_string_text(
            match rv {
                Some(u) => u,
                None => "none"@,
            },
        )),
        ("uptime_secs"@, decimal_text(uptime_secs as nat)),
    ]);
    r
}

pub open spec fn connect_data_text(endpoint_id: Seq<char>, ack: bool) -> Seq<char> {
    object_text(
        seq![
            ("ack"@, bool_text(ack)),
            ("connected"@, bool_text(true)),
            ("endpoint_id"@, json_string_text(endpoint_id)),
        ],
    )
}

/// The data of `connect`, given the peer's acknowledgement of the greeting.
pub fn connect_data(endpoint_id: &str, ack: bool) -> (r: String)
    ensures
        r@ == connect_data_text(endpoint_id@, ack),
{
    let mut members: Vec<(String, String)> = Vec::new();
    members.push(("ack".to_string(), json_bool(ack)));
    members.push(("connected".to_string(), json_bool(true)));
    members.push(("endpoint_id".to_string(), json_string(endpoint_id)));
    let r = render_object(&members);
    assert(pair_views(members@) =~= seq![
        ("ack"@, bool_text(ack)),
        ("connected"@, bool_text(true)),
        ("endpoint_id"@, json_string_text(endpoint_id@)),
    ]);
    r
}

pub open spec fn send_data_text(endpoint_id: Seq<char>, ack: bool) -> Seq<char> {
    object_text(
        seq![
            ("ack"@, bool_text(ack)),
            ("endpoint_id"@, json_string_text(endpoint_id)),
            ("sent"@, bool_text(true)),
        ],
    )
}

/// The data of `send`, given the peer's acknowledgement.
pub fn send_data(endpoint_id: &str, ack: bool) -> (r: String)
    ensures
        r@ == send_data_text(endpoint_id@, ack),
{
    let mut members: Vec<(String, String)> = Vec::new();
    members.push(("ack".to_string(), json_bool(ack)));
    members.push(("endpoint_id".to_string(), json_string(endpoint_id)));
    members.push(("sent".to_string(), json_bool(true)));
    let r = render_object(&members);
    assert(pair_views(members@) =~= seq![
        ("ack"@, bool_text(ack)),
        ("endpoint_id"@, json_string_text(endpoint_id@)),
        ("sent"@, bool_text(true)),
    ]);
    r
}

/// The greeting that `connect` sends, from this agent.
pub fn greeting(from: String) -> (r: AgentMessage)
    ensures
        r.from == from,
        r.content@ == "hello"@,
{
    AgentMessage { from, content: "hello".to_string(), timestamp: now_rfc3339() }
}

/// The message that `send` and `broadcast` deliver, from this agent.
pub fn outgoing(from: String, content: String) -> (r: AgentMessage)
    ensures
        r.from == from,
        r.content == content,
{
    AgentMessage { from, content, timestamp: now_rfc3339() }
}

/// How delivery to one peer of a broadcast went.
pub struct PeerOutcome {
    pub endpoint_id: String,
    /// `None` on success, else the error message.
    pub error: Option<String>,
}

pub open spec fn peer_outcome_text(o: PeerOutcome) -> Seq<char> {
    match o.error {
        None => object_text(
            seq![("endpoint_id"@, json_string_text(o.endpoint_id@)), ("success"@, bool_text(true))],
        ),
        Some(e) => object_text(
            seq![
                ("endpoint_id"@, json_string_text(o.endpoint_id@)),
                ("error"@, json_string_text(e@)),
                ("success"@, bool_text(false)),
            ],
        ),
    }
}

pub open spec fn broadcast_data_text(results: Seq<PeerOutcome>) -> Seq<char> {
    object_text(
        seq![
            ("broadcast"@, bool_text(true)),
            ("results"@, array_text(results.map_values(|o: PeerOutcome| peer_outcome_text(o)))),
        ],
    )
}

fn peer_outcome_json(o: &PeerOutcome) -> (r: String)
    ensures
        r@ == peer_outcome_text(*o),
{
    let mut members: Vec<(String, String)> = Vec::new();
    members.push(("endpoint_id".to_string(), json_string(o.endpoint_id.as_str())));
    match &o.error {
        None => {
            members.push(("success".to_string(), json_bool(true)));
        },
        Some(e) => {
            members.push(("error".to_string(), json_string(e.as_str())));
            members.push(("success".to_string(), json_bool(false)));
        },
    }
    let r = render_object(&members);
    assert(pair_views(members@) =~= match o.error {
        None => seq![("endpoint_id"@, json_string_text(o.endpoint_id@)), ("success"@, bool_text(true))],
        Some(e) => seq![
            ("endpoint_id"@, json_string_text(o.endpoint_id@)),
            ("error"@, json_string_text(e@)),
            ("success"@, bool_text(false)),
        ],
    });
    r
}

/// The data of `broadcast`: one entry per peer, in the order tried. A failure for
/// one peer is reported in its entry and does not make the command fail.
pub fn broadcast_data(results: &Vec<PeerOutcome>) -> (r: String)
    ensures
        r@ == broadcast_data_text(results@),
{
    let mut texts: Vec<String> = Vec::new();
    let mut i: usize = 0;
    while i < results.len()
        invariant
            i <= results.len(),
            string_views(texts@) =~= results@.take(i as int).map_values(|o: PeerOutcome| peer_outcome_text(o)),
        decreases results.len() - i,
    {
        let t = peer_outcome_json(&results[i]);
        let ghost before = texts@;
        texts.push(t);
        proof {
            assert(string_views(texts@) =~= string_views(before).push(t@));
            assert(results@.take(i as int + 1) =~= results@.take(i as int).push(results@[i as int]));
        }
        i = i + 1;
    }
    assert(results@.take(results.len() as int) =~= results@);
    let arr = render_array(&texts);
    let mut members: Vec<(String, String)> = Vec::new();
    members.push(("broadcast".to_string(), json_bool(true)));
    members.push(("results".to_string(), arr));
    let r = render_object(&members);
    assert(pair_views(members@) =~= seq![
        ("broadcast"@, bool_text(true)),
        ("results"@, array_text(results@.map_values(|o: PeerOutcome| peer_outcome_text(o)))),
    ]);
    r
}

/// A broadcast in progress: the peers to reach, in the order of the snapshot taken
/// when it began, and how each attempt so far went. Every peer is tried in turn,
/// whatever became of the ones before it.
pub struct BroadcastRun {
    peers: Vec<String>,
    results: Vec<PeerOutcome>,
}

impl BroadcastRun {
    pub closed spec fn targets(&self) -> Seq<Seq<char>> {
        string_views(self.peers@)
    }

    pub closed spec fn outcomes(&self) -> Seq<PeerOutcome> {
        self.results@
    }

    pub open spec fn done(&self) -> bool {
        self.outcomes().len() == self.targets().len()
    }

    pub closed spec fn wf(&self) -> bool {
        &&& self.results@.len() <= self.peers@.len()
        &&& forall|i: int| 0 <= i < self.results@.len() ==> (#[trigger] self.results@[i]).endpoint_id@ == self.peers@[i]@
    }

    pub fn new(peers: Vec<String>) -> (r: BroadcastRun)
        ensures
            r.wf(),
            r.targets() == string_views(peers@),
            r.outcomes() == Seq::<PeerOutcome>::empty(),
    {
        BroadcastRun { peers, results: Vec::new() }
    }

    /// The peer to try next, or `None` once every peer has been tried.
    pub fn next_peer(&self) -> (r: Option<String>)
        requires
            self.wf(),
        ensures
            r is None <==> self.done(),
            r matches Some(p) ==> p@ == self.targets()[self.outcomes().len() as int],
    {
        if self.results.len() < self.peers.len() {
            Some(self.peers[self.results.len()].clone())
        } else {
            None
        }
    }

    /// Records how the attempt on the next peer went: `None` for success, or the error.
    pub fn record(&mut self, error: Option<String>)
        requires
            old(self).wf(),
            !old(self).done(),
        ensures
            final(self).wf(),
            final(self).targets() == old(self).targets(),
            final(self).outcomes().len() == old(self).outcomes().len() + 1,
            final(self).outcomes().drop_last() == old(self).outcomes(),
            final(self).outcomes().last().error == error,
    {
        let peer = self.peers[self.results.len()].clone();
        let ghost before = self.results@;
        self.results.push(PeerOutcome { endpoint_id: peer, error });
        assert(self.results@.drop_last() =~= before);
    }

    /// The data of the finished broadcast.
    pub fn finish(&self) -> (r: String)
        ensures
            r@ == broadcast_data_text(self.outcomes()),
    {
        broadcast_data(&self.results)
    }
}

/// A finished broadcast reports every peer of its snapshot exactly once, in order,
/// each with the outcome recorded for it.
pub proof fn lemma_broadcast_reports_every_peer(run: BroadcastRun)
    requires
        run.wf(),
        run.done(),
    ensures
        forall|i: int| 0 <= i < run.targets().len() ==> (#[trigger] run.outcomes()[i]).endpoint_id@ == run.targets()[i],
{
}

pub open spec fn peers_data_text(peers: Seq<Seq<char>>) -> Seq<char> {
    object_text(
        seq![
            ("count"@, decimal_text(peers.len())),
            ("peers"@, array_text(peers.map_values(|p: Seq<char>| json_string_text(p)))),
        ],
    )
}

/// The data of `peers`: the known identities and how many there are.
pub fn peers_data(peers: &Vec<String>) -> (r: String)
    ensures
        r@ == peers_data_text(string_views(peers@)),
{
    let mut texts: Vec<String> = Vec::new();
    let mut i: usize = 0;
    while i < peers.len()
        invariant
            i <= peers.len(),
            string_views(texts@) =~= string_views(peers@).take(i as int).map_values(
                |p: Seq<char>| json_string_text(p),
            ),
        decreases peers.len() - i,
    {
        let t = json_string(peers[i].as_str());
        let ghost before = texts@;
        texts.push(t);
        proof {
            assert(string_views(texts@) =~= string_views(before).push(t@));
            assert(string_views(peers@).take(i as int + 1) =~= string_views(peers@).take(i as int).push(
                peers@[i as int]@,
            ));
        }
        i = i + 1;
    }
    assert(string_views(peers@).take(peers.len() as int) =~= string_views(peers@));
    let arr = render_array(&texts);
    let mut members: Vec<(String, String)> = Vec::new();
    members.push(("count".to_string(), json_u64(peers.len() as u64)));
    members.push(("peers".to_string(), arr));
    let r = render_object(&members);
    assert(pair_views(members@) =~= seq![
        ("count"@, decimal_text(string_views(peers@).len())),
        ("peers"@, array_text(string_views(peers@).map_values(|p: Seq<char>| json_string_text(p)))),
    ]);
    r
}

} // verus!
