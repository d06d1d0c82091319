//! The envelopes that travel over a relay connection, and the per-connection
//! state that orders what is written back to the remote process.
use vstd::prelude::*;

verus! {

/// The route that an inbound envelope names.
#[derive(Clone, Copy, Debug, PartialEq, Eq, Structural)]
pub enum WebsocketRoute {
    LogsRoute,
    StatsRoute,
}

impl WebsocketRoute {
    /// The route with wire number `code`: 0 for logs, 1 for stats.
    pub fn from_code(code: u64) -> (r: Option<WebsocketRoute>)
        ensures
            r == (if code == 0 {
                Some(WebsocketRoute::LogsRoute)
            } else if code == 1 {
                Some(WebsocketRoute::StatsRoute)
            } else {
                None
            }),
    {
        if code == 0 {
            Some(WebsocketRoute::LogsRoute)
        } else if code == 1 {
            Some(WebsocketRoute::StatsRoute)
        } else {
            None
        }
    }
}

/// The status that an outbound envelope carries.
#[derive(Clone, Copy, Debug, PartialEq, Eq, Structural)]
pub enum WsResponseStatus {
    Success,
    BadRequest,
    WrongAuth,
    InternalError,
}

/// The wire number of a status.
pub open spec fn status_code(s: WsResponseStatus) -> u16 {
    match s {
        WsResponseStatus::Success => 200,
        WsResponseStatus::BadRequest => 400,
        WsResponseStatus::WrongAuth => 421,
        WsResponseStatus::InternalError => 500,
    }
}

/// The status whose wire number is `c`.
pub open spec fn status_of_code(c: u16) -> Option<WsResponseStatus> {
    if c == 200 {
        Some(WsResponseStatus::Success)
    } else if c == 400 {
        Some(WsResponseStatus::BadRequest)
    } else if c == 421 {
        Some(WsResponseStatus::WrongAuth)
    } else if c == 500 {
        Some(WsResponseStatus::InternalError)
    } else {
        None
    }
}

impl WsResponseStatus {
    /// The wire number: 200, 400, 421 or 500.
    pub fn code(&self) -> (r: u16)
        ensures
            r == status_code(*self),
    {
        match self {
            WsResponseStatus::Success => 200,
            WsResponseStatus::BadRequest => 400,
            WsResponseStatus::WrongAuth => 421,
            WsResponseStatus::InternalError => 500,
        }
    }

    /// The status with wire number `c`, if there is one.
    pub fn from_code(c: u16) -> (r: Option<WsResponseStatus>)
        ensures
            r == status_of_code(c),
    {
        if c == 200 {
            Some(WsResponseStatus::Success)
        } else if c == 400 {
            Some(WsResponseStatus::BadRequest)
        } else if c == 421 {
            Some(WsResponseStatus::WrongAuth)
        } else if c == 500 {
            Some(WsResponseStatus::InternalError)
        } else {
            None
        }
    }
}

/// The kind of an outbound envelope.
#[derive(Clone, Copy, Debug, PartialEq, Eq, Structural)]
pub enum WsResponseType {
    Basic,
    Message,
    Command,
}

/// The wire number of a kind.
pub open spec fn kind_code(k: WsResponseType) -> u16 {
    match k {
        WsResponseType::Basic => 0,
        WsResponseType::Message => 1,
        WsResponseType::Command => 2,
    }
}

/// The kind whose wire number is `c`.
pub open spec fn kind_of_code(c: u16) -> Option<WsResponseType> {
    if c == 0 {
        Some(WsResponseType::Basic)
    } else if c == 1 {
        Some(WsResponseType::Message)
    } else if c == 2 {
        Some(WsResponseType::Command)
    } else {
        None
    }
}

impl WsResponseType {
    /// The wire number: 0, 1 or 2.
    pub fn code(&self) -> (r: u16)
        ensures
            r == kind_code(*self),
    {
        match self {
            WsResponseType::Basic => 0,
            WsResponseType::Message => 1,
            WsResponseType::Command => 2,
        }
    }

    /// The kind with wire number `c`, if there is one.
    pub fn from_code(c: u16) -> (r: Option<WsResponseType>)
        ensures
            r == kind_of_code(c),
    {
        if c == 0 {
            Some(WsResponseType::Basic)
        } else if c == 1 {
            Some(WsResponseType::Message)
        } else if c == 2 {
            Some(WsResponseType::Command)
        } else {
            None
        }
    }
}

/// An envelope with a status and a message only.
#[derive(Debug)]
pub struct WsBasicResponse {
    pub kind: WsResponseType,
    pub status: WsResponseStatus,
    pub message: String,
}

/// An envelope that answers an inbound one.
#[derive(Debug)]
pub struct WsMessageResponse {
    pub kind: WsResponseType,
    pub status: WsResponseStatus,
    pub message: String,
    pub response: String,
}

/// An envelope that carries a command for the remote process.
#[derive(Debug)]
pub struct WsCommandResponse {
    pub kind: WsResponseType,
    pub status: WsResponseStatus,
    pub message: String,
    pub command: String,
}

/// An outbound envelope.
#[derive(Debug)]
pub enum WsResponses {
    Basic(WsBasicResponse),
    Message(WsMessageResponse),
    Command(WsCommandResponse),
}

/// `data` as the text of a payload: empty when there is none.
pub open spec fn payload_text(data: Option<&str>) -> Seq<char> {
    match data {
        Some(d) => d@,
        None => Seq::empty(),
    }
}

impl WsBasicResponse {
    /// A basic envelope.
    pub fn create(status: WsResponseStatus, message: &str) -> (r: WsResponses)
        ensures
            r is Basic,
            r->Basic_0.kind == WsResponseType::Basic,
            r->Basic_0.status == status,
            r->Basic_0.message@ == message@,
    {
        WsResponses::Basic(
            WsBasicResponse {
                kind: WsResponseType::Basic,
                status,
                message: String::from_str(message),
            },
        )
    }
}

impl WsMessageResponse {
    /// A message envelope whose response is `data`, or empty without it.
    pub fn create(status: WsResponseStatus, message: &str, data: Option<&str>) -> (r: WsResponses)
        ensures
            r is Message,
            r->Message_0.kind == WsResponseType::Message,
            r->Message_0.status == status,
            r->Message_0.message@ == message@,
            r->Message_0.response@ == payload_text(data),
    {
        let response = match data {
            Some(d) => String::from_str(d),
            None => String::new(),
        };
        WsResponses::Message(
            WsMessageResponse {
                kind: WsResponseType::Message,
                status,
                message: String::from_str(message),
                response,
            },
        )
    }
}

impl WsCommandResponse {
    /// A command envelope whose command is `data`, or empty without it.
    pub fn create(status: WsResponseStatus, message: &str, data: Option<&str>) -> (r: WsResponses)
        ensures
            r is Command,
            r->Command_0.kind == WsResponseType::Command,
            r->Command_0.status == status,
            r->Command_0.message@ == message@,
            r->Command_0.command@ == payload_text(data),
    {
        let command = match data {
            Some(d) => String::from_str(d),
            None => String::new(),
        };
        WsResponses::Command(
            WsCommandResponse {
                kind: WsResponseType::Command,
                status,
                message: String::from_str(message),
                command,
            },
        )
    }
}

/// The fields of an outbound envelope as they stand in its JSON object:
/// `type`, `status`, `message`, and `response` or `command` where the kind
/// has one.
#[derive(Debug)]
pub struct WireEnvelope {
    pub kind: u16,
    pub status: u16,
    pub message: String,
    pub response: Option<String>,
    pub command: Option<String>,
}

/// The kind that an envelope states agrees with its variant.
pub open spec fn envelope_valid(e: WsResponses) -> bool {
    match e {
        WsResponses::Basic(b) => b.kind == WsResponseType::Basic,
        WsResponses::Message(m) => m.kind == WsResponseType::Message,
        WsResponses::Command(c) => c.kind == WsResponseType::Command,
    }
}

/// The wire fields of an envelope.
pub open spec fn encode_spec(e: WsResponses) -> WireEnvelope {
    match e {
        WsResponses::Basic(b) => WireEnvelope {
            kind: kind_code(b.kind),
            status: status_code(b.status),
            message: b.message,
            response: None,
            command: None,
        },
        WsResponses::Message(m) => WireEnvelope {
            kind: kind_code(m.kind),
            status: status_code(m.status),
            message: m.message,
            response: Some(m.response),
            command: None,
        },
        WsResponses::Command(c) => WireEnvelope {
            kind: kind_code(c.kind),
            status: status_code(c.status),
            message: c.message,
            response: None,
            command: Some(c.command),
        },
    }
}

/// The envelope that wire fields describe: the kind picks the variant, and a
/// message or command envelope needs its payload field.
pub open spec fn decode_spec(w: WireEnvelope) -> Option<WsResponses> {
    match (kind_of_code(w.kind), status_of_code(w.status)) {
        (Some(WsResponseType::Basic), Some(s)) => Some(
            WsResponses::Basic(
                WsBasicResponse { kind: WsResponseType::Basic, status: s, message: w.message },
            ),
        ),
        (Some(WsResponseType::Message), Some(s)) => match w.response {
            Some(p) => Some(
                WsResponses::Message(
                    WsMessageResponse {
                        kind: WsResponseType::Message,
                        status: s,
                        message: w.message,
                        response: p,
                    },
                ),
            ),
            None => None,
        },
        (Some(WsResponseType::Command), Some(s)) => match w.command {
            Some(p) => Some(
                WsResponses::Command(
                    WsCommandResponse {
                        kind: WsResponseType::Command,
                        status: s,
                        message: w.message,
                        command: p,
                    },
                ),
            ),
            None => None,
        },
        _ => None,
    }
}

impl WsResponses {
    /// The wire fields of this envelope.
    pub fn to_wire(&self) -> (r: WireEnvelope)
        ensures
            r == encode_spec(*self),
    {
        match self {
            WsResponses::Basic(b) => WireEnvelope {
                kind: b.kind.code(),
                status: b.status.code(),
                message: b.message.clone(),
                response: None,
                command: None,
            },
            WsResponses::Message(m) => WireEnvelope {
                kind: m.kind.code(),
                status: m.status.code(),
                message: m.message.clone(),
                response: Some(m.response.clone()),
                command: None,
            },
            WsResponses::Command(c) => WireEnvelope {
                kind: c.kind.code(),
                status: c.status.code(),
                message: c.message.clone(),
                response: None,
                command: Some(c.command.clone()),
            },
        }
    }

    /// A copy of this envelope.
    pub fn duplicate(&self) -> (r: WsResponses)
        ensures
            r == *self,
    {
        match self {
            WsResponses::Basic(b) => WsResponses::Basic(
                WsBasicResponse { kind: b.kind, status: b.status, message: b.message.clone() },
            ),
            WsResponses::Message(m) => WsResponses::Message(
                WsMessageResponse {
                    kind: m.kind,
                    status: m.status,
                    message: m.message.clone(),
                    response: m.response.clone(),
                },
            ),
            WsResponses::Command(c) => WsResponses::Command(
                WsCommandResponse {
                    kind: c.kind,
                    status: c.status,
                    message: c.message.clone(),
                    command: c.command.clone(),
                },
            ),
        }
    }
}

impl WireEnvelope {
    /// The envelope that these fields describe, if they describe one.
    pub fn decode(&self) -> (r: Option<WsResponses>)
        ensures
            r == decode_spec(*self),
    {
        let kind = WsResponseType::from_code(self.kind);
        let status = WsResponseStatus::from_code(self.status);
        match (kind, status) {
            (Some(WsResponseType::Basic), Some(s)) => Some(
                WsResponses::Basic(
                    WsBasicResponse {
                        kind: WsResponseType::Basic,
                        status: s,
                        message: self.message.clone(),
                    },
                ),
            ),
            (Some(WsResponseType::Message), Some(s)) => match &self.response {
                Some(p) => Some(
                    WsResponses::Message(
                        WsMessageResponse {
                            kind: WsResponseType::Message,
                            status: s,
                            message: self.message.clone(),
                            response: p.clone(),
                        },
                    ),
                ),
                None => None,
            },
            (Some(WsResponseType::Command), Some(s)) => match &self.command {
                Some(p) => Some(
                    WsResponses::Command(
                        WsCommandResponse {
                            kind: WsResponseType::Command,
                            status: s,
                            message: self.message.clone(),
                            command: p.clone(),
                        },
                    ),
                ),
                None => None,
            },
            _ => None,
        }
    }
}

/// Every well-formed outbound envelope comes back unchanged from its wire
/// fields: kind, status, message and payload are all kept.
pub proof fn envelope_round_trip(e: WsResponses)
    requires
        envelope_valid(e),
    ensures
        decode_spec(encode_spec(e)) == Some(e),
{
}

/// The answer to an inbound envelope that was dispatched: the collaborator's
/// result on success, the failure detail otherwise.
pub fn dispatch_response(outcome: &Result<String, String>) -> (r: WsResponses)
    ensures
        r is Message,
        r->Message_0.kind == WsResponseType::Message,
        r->Message_0.status == (if outcome is Ok {
            WsResponseStatus::Success
        } else {
            WsResponseStatus::InternalError
        }),
        r->Message_0.message@ == (if outcome is Ok {
            "Ok"@
        } else {
            "Internal Error"@
        }),
        r->Message_0.response@ == (match outcome {
            Ok(d) => d@,
            Err(e) => e@,
        }),
{
    match outcome {
        Ok(d) => WsMessageResponse::create(WsResponseStatus::Success, "Ok", Some(d.as_str())),
        Err(e) => WsMessageResponse::create(
            WsResponseStatus::InternalError,
            "Internal Error",
            Some(e.as_str()),
        ),
    }
}

/// The answer to an inbound frame that is not a well-formed envelope.
pub fn bad_request_response(detail: &str) -> (r: WsResponses)
    ensures
        r is Message,
        r->Message_0.kind == WsResponseType::Message,
        r->Message_0.status == WsResponseStatus::BadRequest,
        r->Message_0.message@ == "Bad Request"@,
        r->Message_0.response@ == detail@,
{
    WsMessageResponse::create(WsResponseStatus::BadRequest, "Bad Request", Some(detail))
}

/// The per-connection side of a relay: whether the connection is still up,
/// and the answers that the inbound side queued for the outbound side.
#[derive(Debug)]
pub struct RelayChannel {
    pub server_id: u64,
    pub connected: bool,
    pub outbox: Vec<WsResponses>,
}

impl RelayChannel {
    /// A fresh connection to the server `server_id`.
    pub fn new(server_id: u64) -> (r: RelayChannel)
        ensures
            r.server_id == server_id,
            r.connected,
            r.outbox@.len() == 0,
    {
        RelayChannel { server_id, connected: true, outbox: Vec::new() }
    }

    /// Queue the answer to a dispatched inbound envelope.
    pub fn record_outcome(&mut self, outcome: &Result<String, String>)
        ensures
            final(self).server_id == old(self).server_id,
            final(self).connected == old(self).connected,
            final(self).outbox@.len() == old(self).outbox@.len() + 1,
            final(self).outbox@.take(old(self).outbox@.len() as int) == old(self).outbox@,
            final(self).outbox@.last() is Message,
            final(self).outbox@.last()->Message_0.kind == WsResponseType::Message,
            final(self).outbox@.last()->Message_0.message@ == (if outcome is Ok {
                "Ok"@
            } else {
                "Internal Error"@
            }),
            final(self).outbox@.last()->Message_0.status == (if outcome is Ok {
                WsResponseStatus::Success
            } else {
                WsResponseStatus::InternalError
            }),
            final(self).outbox@.last()->Message_0.response@ == (match outcome {
                Ok(d) => d@,
                Err(e) => e@,
            }),
    {
        let r = dispatch_response(outcome);
        self.outbox.push(r);
        assert(self.outbox@.take(old(self).outbox@.len() as int) =~= old(self).outbox@);
    }

    /// Queue the answer to an inbound frame that could not be read as an
    /// envelope; the connection stays up.
    pub fn record_bad_request(&mut self, detail: &str)
        ensures
            final(self).server_id == old(self).server_id,
            final(self).connected == old(self).connected,
            final(self).outbox@.len() == old(self).outbox@.len() + 1,
            final(self).outbox@.take(old(self).outbox@.len() as int) == old(self).outbox@,
            final(self).outbox@.last() is Message,
            final(self).outbox@.last()->Message_0.kind == WsResponseType::Message,
            final(self).outbox@.last()->Message_0.message@ == "Bad Request"@,
            final(self).outbox@.last()->Message_0.status == WsResponseStatus::BadRequest,
            final(self).outbox@.last()->Message_0.response@ == detail@,
    {
        let r = bad_request_response(detail);
        self.outbox.push(r);
        assert(self.outbox@.take(old(self).outbox@.len() as int) =~= old(self).outbox@);
    }

    /// The transport failed to read: the outbound side stops at its next tick.
    pub fn read_failed(&mut self)
        ensures
            !final(self).connected,
            final(self).server_id == old(self).server_id,
            final(self).outbox@ == old(self).outbox@,
    {
        self.connected = false;
    }

    /// Whether the outbound side goes on ticking.
    pub fn should_continue(&self) -> (r: bool)
        ensures
            r == self.connected,
    {
        self.connected
    }

    /// What one outbound tick writes, in this order: the server's queued
    /// commands, then this connection's queued answers, each in the order it
    /// was queued. Both queues are left empty.
    pub fn drain(&mut self, commands: &mut Vec<WsResponses>) -> (r: Vec<WsResponses>)
        ensures
            r@ == old(commands)@ + old(self).outbox@,
            final(commands)@.len() == 0,
            final(self).outbox@.len() == 0,
            final(self).server_id == old(self).server_id,
            final(self).connected == old(self).connected,
    {
        let mut r: Vec<WsResponses> = Vec::new();
        r.append(commands);
        r.append(&mut self.outbox);
        r
    }
}

} // verus!
