//! The agent's wire protocol: the requests and responses of its three operations,
//! and the events it emits.
use vstd::prelude::*;
use crate::json::{json_string, json_string_text, object_text, render_object};

verus! {

/// A text message sent between agents.
pub struct AgentMessage {
    /// The sender's endpoint id.
    pub from: String,
    pub content: String,
    /// An RFC 3339 timestamp.
    pub timestamp: String,
}

/// Request: deliver a message to this agent.
pub struct SendMsg {
    pub message: AgentMessage,
}

/// Response to `SendMsg`.
pub struct SendMsgResponse {
    pub ack: bool,
    pub agent_id: String,
}

/// Request: the agent's status.
pub struct GetStatus;

/// Response to `GetStatus`.
pub struct StatusResponse {
    pub agent_id: String,
    pub peers: Vec<String>,
    pub uptime_secs: u64,
}

/// Request: stream the agent's events.
pub struct Subscribe;

/// An event as streamed to subscribers: its kind, its data as JSON text, and when
/// it was emitted.
pub struct AgentEvent {
    pub kind: String,
    pub data: String,
    pub timestamp: String,
}

/// Something that happened in the agent and is announced as an event.
pub enum Notice {
    PeerJoined { endpoint_id: String, connected_at: String },
    MessageReceived { message: AgentMessage },
}

/// What a notice is about: who joined, or from whom a message came.
pub enum Note {
    Joined(Seq<char>),
    Received(Seq<char>),
}

impl Notice {
    pub open spec fn note(&self) -> Note {
        match self {
            Notice::PeerJoined { endpoint_id, .. } => Note::Joined(endpoint_id@),
            Notice::MessageReceived { message } => Note::Received(message.from@),
        }
    }

    pub open spec fn kind_text(&self) -> Seq<char> {
        match self {
            Notice::PeerJoined { .. } => "peer_joined"@,
            Notice::MessageReceived { .. } => "message_received"@,
        }
    }

    /// The event data: the notice's fields as a JSON object, keys in sorted order.
    pub open spec fn data_text(&self) -> Seq<char> {
        match self {
            Notice::PeerJoined { endpoint_id, connected_at } => object_text(
                seq![
                    ("endpoint_id"@, json_string_text(endpoint_id@)),
                    ("timestamp"@, json_string_text(connected_at@)),
                ],
            ),
            Notice::MessageReceived { message } => object_text(
                seq![
                    ("content"@, json_string_text(message.content@)),
                    ("from"@, json_string_text(message.from@)),
                    ("timestamp"@, json_string_text(message.timestamp@)),
                ],
            ),
        }
    }

    pub fn kind(&self) -> (r: String)
        ensures
            r@ == self.kind_text(),
    {
        match self {
            Notice::PeerJoined { .. } => "peer_joined".to_string(),
            Notice::MessageReceived { .. } => "message_received".to_string(),
        }
    }

    /// The event data as JSON text.
    pub fn data(&self) -> (r: String)
        ensures
            r@ == self.data_text(),
    {
        let mut members: Vec<(String, String)> = Vec::new();
        match self {
            Notice::PeerJoined { endpoint_id, connected_at } => {
                members.push(("endpoint_id".to_string(), json_string(endpoint_id.as_str())));
                members.push(("timestamp".to_string(), json_string(connected_at.as_str())));
            },
            Notice::MessageReceived { message } => {
                members.push(("content".to_string(), json_string(message.content.as_str())));
                members.push(("from".to_string(), json_string(message.from.as_str())));
                members.push(("timestamp".to_string(), json_string(message.timestamp.as_str())));
            },
        }
        let r = render_object(&members);
        assert(crate::json::pair_views(members@) =~= match self {
            Notice::PeerJoined { endpoint_id, connected_at } => seq![
                ("endpoint_id"@, json_string_text(endpoint_id@)),
                ("timestamp"@, json_string_text(connected_at@)),
            ],
            Notice::MessageReceived { message } => seq![
                ("content"@, json_string_text(message.content@)),
                ("from"@, json_string_text(message.from@)),
                ("timestamp"@, json_string_text(message.timestamp@)),
            ],
        });
        r
    }

    /// The event announcing this notice, stamped with `timestamp`.
    pub fn to_event(&self, timestamp: String) -> (r: AgentEvent)
        ensures
            r.kind@ == self.kind_text(),
            r.data@ == self.data_text(),
            r.timestamp == timestamp,
    {
        AgentEvent { kind: self.kind(), data: self.data(), timestamp }
    }

    /// The event announcing this notice, stamped with the current time.
    pub fn emit_event(&self) -> (r: AgentEvent)
        ensures
            r.kind@ == self.kind_text(),
            r.data@ == self.data_text(),
    {
        self.to_event(now_rfc3339())
    }
}

impl AgentEvent {
    /// The line that announces the event on the command bridge:
    /// `{"data":..,"event":..,"timestamp":..,"type":"event"}`.
    pub open spec fn line_text(&self) -> Seq<char> {
        object_text(
            seq![
                ("data"@, self.data@),
                ("event"@, json_string_text(self.kind@)),
                ("timestamp"@, json_string_text(self.timestamp@)),
                ("type"@, json_string_text("event"@)),
            ],
        )
    }

    pub fn line(&self) -> (r: String)
        ensures
            r@ == self.line_text(),
    {
        let mut members: Vec<(String, String)> = Vec::new();
        members.push(("data".to_string(), self.data.clone()));
        members.push(("event".to_string(), json_string(self.kind.as_str())));
        members.push(("timestamp".to_string(), json_string(self.timestamp.as_str())));
        members.push(("type".to_string(), json_string("event")));
        let r = render_object(&members);
        assert(crate::json::pair_views(members@) =~= seq![
            ("data"@, self.data@),
            ("event"@, json_string_text(self.kind@)),
            ("timestamp"@, json_string_text(self.timestamp@)),
            ("type"@, json_string_text("event"@)),
        ]);
        r
    }
}

/// Relies on chrono's `Utc::now().to_rfc3339()`: the current time as RFC 3339 text.
/// It depends on the clock, so nothing is stated of it.
#[verifier::external_body]
pub fn now_rfc3339() -> (r: String) {
    chrono::Utc::now().to_rfc3339()
}

} // verus!
