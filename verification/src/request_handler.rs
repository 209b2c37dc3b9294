//! The control endpoint: a status view for `GET /` and a password-checked
//! switch of the write gate for `POST /`.
//!
//! Handling a request takes up to two steps. [`RequestHandler::route`] looks
//! at the request head and either settles the reply or asks for the body;
//! [`RequestHandler::command`] then takes what the body was found to hold.

use vstd::prelude::*;
use vstd::string::StringExecFns;
use crate::buffer::{appended, newest, RecencyBuffer};
use crate::gate::{after_set, set_outcome, GateState, SetOutcome, WriteGate};
use crate::reading::Payload;

verus! {

/// The largest request body, in bytes, that is read at all.
pub const MAX_BODY_BYTES: u64 = 2048;

/// The content type of the status page.
pub const PAGE_TYPE: &'static str = "text/html; charset=utf-8";

/// The status page up to the value of the write gate.
pub const PAGE_HEAD: &'static str = "<!DOCTYPE html>\n                            <html>\n                            <p>Database writes enabled: ";

/// The status page between the value of the write gate and the link, where
/// a reading follows.
pub const PAGE_LINK: &'static str = " </p>\n                            <p><a href=\"";

/// The status page between the link and the newest reading.
pub const PAGE_LAST: &'static str = "\">View graphs</a><p>\n                            <p>Last measurement: ";

/// The end of the status page after the newest reading.
pub const PAGE_TAIL: &'static str = " </p>\n                            </html>";

/// The status page between the value of the write gate and the link, where
/// no reading follows.
pub const PAGE_LINK_ALONE: &'static str = " </p\n                            <p><a href=\"";

/// The end of the status page after the link, where no reading follows.
pub const PAGE_TAIL_ALONE: &'static str = "\">View graphs</a><p>\n                            </html>";

/// The command that `POST /` carries.
pub struct DbWritesEnableCommand {
    pub writes_enabled: bool,
    pub password: String,
}

/// The request method, as far as the endpoint tells methods apart.
#[derive(Clone, Copy, Debug, PartialEq, Eq, Structural)]
pub enum Method {
    Get,
    Post,
    Other,
}

/// What is known of a request before its body is read.
#[derive(Debug)]
pub struct RequestHead {
    pub method: Method,
    /// The path of the request target, without the query.
    pub path: String,
    /// The most bytes the body can have, where the transport can tell.
    pub body_upper: Option<u64>,
}

/// The reply to a request.
#[derive(Clone, Copy, Debug, PartialEq, Eq)]
pub enum Response {
    /// The status view: the value of the write gate, and the newest reading
    /// if there is one.
    Status { writes_enabled: bool, last: Option<Payload> },
    /// The body is, or may be, larger than [`MAX_BODY_BYTES`].
    BodyTooLarge,
    /// The write gate was set to this value.
    WritesSet(bool),
    /// The command's password is not the configured secret.
    WrongPassword,
    /// The body is not a command.
    InvalidData,
    /// No such method or path.
    NotFound,
}

/// How far the request head settles the matter.
#[derive(Clone, Copy, Debug, PartialEq, Eq)]
pub enum Routed {
    /// This is the reply; the body is not to be read.
    Reply(Response),
    /// Read the body and hand it to [`RequestHandler::command`].
    ReadBody,
}

/// The size that a body is taken to have: its upper bound, and the largest
/// size there is where no bound is known.
pub open spec fn body_bound(body_upper: Option<u64>) -> u64 {
    match body_upper {
        Some(bytes) => bytes,
        None => u64::MAX,
    }
}

/// What the head of a request settles, given the write gate and the buffer.
pub open spec fn routed(
    method: Method,
    path: Seq<char>,
    body_upper: Option<u64>,
    writes_enabled: bool,
    held: Seq<Payload>,
) -> Routed {
    if path != "/"@ {
        Routed::Reply(Response::NotFound)
    } else {
        match method {
            Method::Get => Routed::Reply(Response::Status { writes_enabled, last: newest(held) }),
            Method::Post => if body_bound(body_upper) > MAX_BODY_BYTES {
                Routed::Reply(Response::BodyTooLarge)
            } else {
                Routed::ReadBody
            },
            Method::Other => Routed::Reply(Response::NotFound),
        }
    }
}

/// The reply to the body of a `POST /`.
pub open spec fn command_reply(gate: GateState, command: Option<DbWritesEnableCommand>) -> Response {
    match command {
        None => Response::InvalidData,
        Some(c) => match set_outcome(gate, c.password@) {
            SetOutcome::Applied => Response::WritesSet(c.writes_enabled),
            SetOutcome::Rejected => Response::WrongPassword,
        },
    }
}

/// The write gate after the body of a `POST /` has been dealt with.
pub open spec fn gate_after_command(
    gate: GateState,
    command: Option<DbWritesEnableCommand>,
) -> GateState {
    match command {
        None => gate,
        Some(c) => after_set(gate, c.writes_enabled, c.password@),
    }
}

/// The HTTP status code of a reply.
pub open spec fn status_of(response: Response) -> u16 {
    match response {
        Response::BodyTooLarge => 413,
        Response::NotFound => 404,
        _ => 200,
    }
}

/// `true` or `false`, written out.
pub open spec fn bool_text(value: bool) -> Seq<char> {
    if value {
        "true"@
    } else {
        "false"@
    }
}

/// The body of a reply that is plain text; the status view has a page of its
/// own, [`page_text`].
pub open spec fn plain_text(response: Response) -> Option<Seq<char>> {
    match response {
        Response::Status { .. } => None,
        Response::BodyTooLarge => Some("Body too large"@),
        Response::WritesSet(value) => Some("Writes enabled: "@ + bool_text(value)),
        Response::WrongPassword => Some("Wrong password"@),
        Response::InvalidData => Some("Invalid POST data"@),
        Response::NotFound => Some(Seq::empty()),
    }
}

/// The status page: the value of the write gate, the link to the graphs and,
/// only where there is a newest reading, the line that shows it.
pub open spec fn page_text(writes_enabled: bool, graph_url: Seq<char>, last: Option<Seq<char>>) -> Seq<
    char,
> {
    match last {
        Some(summary) => PAGE_HEAD@ + bool_text(writes_enabled) + PAGE_LINK@ + graph_url
            + PAGE_LAST@ + summary + PAGE_TAIL@,
        None => PAGE_HEAD@ + bool_text(writes_enabled) + PAGE_LINK_ALONE@ + graph_url
            + PAGE_TAIL_ALONE@,
    }
}

/// Writes out `value`.
fn bool_str(value: bool) -> (text: &'static str)
    ensures
        text@ == bool_text(value),
{
    if value {
        "true"
    } else {
        "false"
    }
}

impl Response {
    /// The content type to name in the reply: that of [`PAGE_TYPE`] for the
    /// status view, and none for the other replies.
    pub fn content_type(&self) -> (named: Option<&'static str>)
        ensures
            match named {
                Some(t) => *self is Status && t@ == PAGE_TYPE@,
                None => !(*self is Status),
            },
    {
        match self {
            Response::Status { .. } => Some(PAGE_TYPE),
            _ => None,
        }
    }

    /// The body of a reply that is plain text, and `None` for the status
    /// view, whose body is [`RequestHandler::status_page`].
    pub fn text(&self) -> (body: Option<String>)
        ensures
            match body {
                Some(t) => plain_text(*self) == Some(t@),
                None => plain_text(*self) is None,
            },
    {
        match self {
            Response::Status { .. } => None,
            Response::BodyTooLarge => Some("Body too large".to_owned()),
            Response::WritesSet(value) => {
                let mut body = "Writes enabled: ".to_owned();
                body.append(bool_str(*value));
                Some(body)
            },
            Response::WrongPassword => Some("Wrong password".to_owned()),
            Response::InvalidData => Some("Invalid POST data".to_owned()),
            Response::NotFound => Some(String::new()),
        }
    }

    /// The HTTP status code to answer with.
    pub fn status_code(&self) -> (code: u16)
        ensures
            code == status_of(*self),
    {
        match self {
            Response::BodyTooLarge => 413,
            Response::NotFound => 404,
            _ => 200,
        }
    }
}

/// The decision core of the control endpoint.
#[derive(Clone, Debug)]
pub struct RequestHandler {
    graph_url: String,
}

impl RequestHandler {
    /// Where the status page links to.
    pub closed spec fn graph_url(&self) -> Seq<char> {
        self.graph_url@
    }

    /// A handler whose status page links to `graph_url`.
    pub fn new(graph_url: String) -> (handler: RequestHandler)
        ensures
            handler.graph_url() == graph_url@,
    {
        RequestHandler { graph_url }
    }

    /// The status page for a write gate that reads `writes_enabled`, with
    /// `last` as the summary of the newest reading, if there is one.
    pub fn status_page(&self, writes_enabled: bool, last: Option<&str>) -> (page: String)
        ensures
            page@ == page_text(
                writes_enabled,
                self.graph_url(),
                match last {
                    Some(summary) => Some(summary@),
                    None => None,
                },
            ),
    {
        let mut page = PAGE_HEAD.to_owned();
        page.append(bool_str(writes_enabled));
        match last {
            Some(summary) => {
                page.append(PAGE_LINK);
                page.append(self.graph_url.as_str());
                page.append(PAGE_LAST);
                page.append(summary);
                page.append(PAGE_TAIL);
            },
            None => {
                page.append(PAGE_LINK_ALONE);
                page.append(self.graph_url.as_str());
                page.append(PAGE_TAIL_ALONE);
            },
        }
        page
    }

    /// Decides on a request from its head. `GET /` is answered with the
    /// value of the write gate and the newest reading; `POST /` is turned
    /// away if its body may exceed [`MAX_BODY_BYTES`] and otherwise waits for
    /// its body; anything else is not found. Neither the write gate nor the
    /// buffer changes.
    pub fn route(&self, head: &RequestHead, gate: &WriteGate, measurements: &RecencyBuffer) -> (r:
        Routed)
        ensures
            r == routed(head.method, head.path@, head.body_upper, gate@.enabled, measurements@),
    {
        let root = "/".to_owned();
        if head.path != root {
            return Routed::Reply(Response::NotFound);
        }
        match head.method {
            Method::Get => Routed::Reply(
                Response::Status { writes_enabled: gate.read(), last: measurements.snapshot() },
            ),
            Method::Post => {
                let bound = match head.body_upper {
                    Some(bytes) => bytes,
                    None => u64::MAX,
                };
                if bound > MAX_BODY_BYTES {
                    Routed::Reply(Response::BodyTooLarge)
                } else {
                    Routed::ReadBody
                }
            },
            Method::Other => Routed::Reply(Response::NotFound),
        }
    }

    /// Deals with the body of a `POST /`: `command` is what the body was
    /// found to hold, or `None` if it is not a command. The write gate takes
    /// the commanded value if and only if the password is the configured
    /// secret.
    pub fn command(&self, command: Option<DbWritesEnableCommand>, gate: &mut WriteGate) -> (r:
        Response)
        ensures
            r == command_reply(old(gate)@, command),
            final(gate)@ == gate_after_command(old(gate)@, command),
    {
        match command {
            None => Response::InvalidData,
            Some(c) => match gate.set(c.writes_enabled, &c.password) {
                SetOutcome::Applied => Response::WritesSet(c.writes_enabled),
                SetOutcome::Rejected => Response::WrongPassword,
            },
        }
    }
}

/// A `POST /` whose body may be larger than [`MAX_BODY_BYTES`] is answered
/// with status 413 before its body is read, whatever the write gate and the
/// buffer hold. [`RequestHandler::route`] takes both by shared reference, so
/// neither changes.
pub proof fn lemma_oversized_body_is_turned_away(
    body_upper: Option<u64>,
    writes_enabled: bool,
    held: Seq<Payload>,
)
    requires
        body_bound(body_upper) > MAX_BODY_BYTES,
    ensures
        routed(Method::Post, "/"@, body_upper, writes_enabled, held) == Routed::Reply(
            Response::BodyTooLarge,
        ),
        status_of(Response::BodyTooLarge) == 413,
{
}

/// `GET /` shows the write gate as it reads and the newest reading: none for
/// an empty buffer, and right after a reading was appended, that reading.
pub proof fn lemma_status_shows_newest(writes_enabled: bool, held: Seq<Payload>, reading: Payload)
    ensures
        routed(Method::Get, "/"@, None, writes_enabled, Seq::empty()) == Routed::Reply(
            Response::Status { writes_enabled, last: None },
        ),
        routed(Method::Get, "/"@, None, writes_enabled, appended(held, reading)) == Routed::Reply(
            Response::Status { writes_enabled, last: Some(reading) },
        ),
{
}

/// Whether `command` is a command that carries the configured secret.
pub open spec fn knows_secret(gate: GateState, command: Option<DbWritesEnableCommand>) -> bool {
    match command {
        Some(c) => c.password@ == gate.secret,
        None => false,
    }
}

/// A command changes the write gate if and only if its password is exactly
/// the configured secret; a body that is no command, or a wrong password,
/// leaves the write gate as it was. Whatever the command, the reply has
/// status 200.
pub proof fn lemma_command_needs_the_secret(gate: GateState, command: Option<DbWritesEnableCommand>)
    ensures
        command_reply(gate, command) is WritesSet <==> knows_secret(gate, command),
        knows_secret(gate, command) ==> command_reply(gate, command) == Response::WritesSet(
            command->0.writes_enabled,
        ) && gate_after_command(gate, command).enabled == command->0.writes_enabled,
        !knows_secret(gate, command) ==> gate_after_command(gate, command) == gate,
        command is Some && !knows_secret(gate, command) ==> command_reply(gate, command)
            == Response::WrongPassword,
        command is None ==> command_reply(gate, command) == Response::InvalidData,
        gate_after_command(gate, command).secret == gate.secret,
        status_of(command_reply(gate, command)) == 200,
{
}

} // verus!
