//! The requests a client sends to a kernel, and their encoding into a frame.

use vstd::prelude::*;
use vstd::utf8::encode_utf8;
use crate::json::{Field, FieldValue, members_view, object_text, pairs_view, push_object};

verus! {

/// The verbosity of an introspection request; written as the integer 0 or 1.
#[derive(Debug, Clone, Copy, PartialEq, Eq, Structural)]
pub enum DetailLevel {
    Zero,
    One,
}

/// Which records of the execution history a history request asks for.
#[derive(Debug)]
pub enum HistoryAccessType {
    Tail { n: u64 },
    Range { session: i64, start: u64, stop: u64 },
    Search { pattern: String },
}

/// One outbound request. Only the active variant's fields are written to
/// the wire, never the variant's name.
#[derive(Debug)]
pub enum Command {
    KernelInfo,
    Execute {
        code: String,
        silent: bool,
        store_history: bool,
        /// A mapping from names to expressions, in the order they are written.
        user_expressions: Vec<(String, String)>,
        allow_stdin: bool,
        stop_on_error: bool,
    },
    Inspect { code: String, cursor_pos: u64, detail_level: DetailLevel },
    Complete { code: String, cursor_pos: u64 },
    History { output: bool, raw: bool, hist_access_type: HistoryAccessType, unique: bool },
    IsComplete { code: String },
    Shutdown { restart: bool },
}

/// Why a request could not be encoded.
#[derive(Debug, Clone, Copy, PartialEq, Eq, Structural)]
pub enum EncodeError {
    /// The header could not be rendered to bytes.
    HeaderEncoding,
    /// The content could not be written as JSON.
    ContentEncoding,
}

/// A frame ready for signing and sending: four JSON buffers, in the order
/// they are signed and sent, and the authenticator that signs them.
pub struct WireMessage<M> {
    pub header: Vec<u8>,
    pub parent_header: Vec<u8>,
    pub metadata: Vec<u8>,
    pub content: Vec<u8>,
    pub auth: M,
}

pub open spec fn detail_level_value(d: DetailLevel) -> int {
    match d {
        DetailLevel::Zero => 0,
        DetailLevel::One => 1,
    }
}

impl DetailLevel {
    /// The integer this level is written as.
    pub fn serialize(&self) -> (r: i32)
        ensures
            r == detail_level_value(*self),
            *self == DetailLevel::Zero ==> r == 0,
            *self == DetailLevel::One ==> r == 1,
    {
        match *self {
            DetailLevel::Zero => 0,
            DetailLevel::One => 1,
        }
    }
}

/// The protocol's message type of each request.
pub open spec fn message_type_of(c: &Command) -> Seq<char> {
    match c {
        Command::KernelInfo => "kernel_info_request"@,
        Command::Execute { .. } => "execute_request"@,
        Command::Inspect { .. } => "inspect_request"@,
        Command::Complete { .. } => "complete_request"@,
        Command::History { .. } => "history_request"@,
        Command::IsComplete { .. } => "is_complete_request"@,
        Command::Shutdown { .. } => "shutdown_request"@,
    }
}

/// The members of a history request's content, keys in ascending order.
/// All five selector keys are present; those the access type does not use
/// are null. The access type itself is always written as "tail".
pub open spec fn history_members(output: bool, raw: bool, h: HistoryAccessType, unique: bool) -> Seq<
    (Seq<char>, Field),
> {
    let (session, start, stop, n, pattern) = match h {
        HistoryAccessType::Tail { n } => (Field::Null, Field::Null, Field::Null, Field::Int(n as int), Field::Null),
        HistoryAccessType::Range { session, start, stop } => (
            Field::Int(session as int),
            Field::Int(start as int),
            Field::Int(stop as int),
            Field::Null,
            Field::Null,
        ),
        HistoryAccessType::Search { pattern } => (Field::Null, Field::Null, Field::Null, Field::Null, Field::Text(pattern@)),
    };
    seq![
        ("hist_access_type"@, Field::Text("tail"@)),
        ("n"@, n),
        ("output"@, Field::Bool(output)),
        ("pattern"@, pattern),
        ("raw"@, Field::Bool(raw)),
        ("session"@, session),
        ("start"@, start),
        ("stop"@, stop),
        ("unique"@, Field::Bool(unique)),
    ]
}

/// The members of a request's content, in the order they are written.
pub open spec fn content_members(c: &Command) -> Seq<(Seq<char>, Field)> {
    match c {
        Command::KernelInfo => Seq::empty(),
        Command::Execute { code, silent, store_history, user_expressions, allow_stdin, stop_on_error } => seq![
            ("code"@, Field::Text(code@)),
            ("silent"@, Field::Bool(*silent)),
            ("store_history"@, Field::Bool(*store_history)),
            ("user_expressions"@, Field::TextMap(pairs_view(user_expressions@))),
            ("allow_stdin"@, Field::Bool(*allow_stdin)),
            ("stop_on_error"@, Field::Bool(*stop_on_error)),
        ],
        Command::Inspect { code, cursor_pos, detail_level } => seq![
            ("code"@, Field::Text(code@)),
            ("cursor_pos"@, Field::Int(*cursor_pos as int)),
            ("detail_level"@, Field::Int(detail_level_value(*detail_level))),
        ],
        Command::Complete { code, cursor_pos } => seq![
            ("code"@, Field::Text(code@)),
            ("cursor_pos"@, Field::Int(*cursor_pos as int)),
        ],
        Command::History { output, raw, hist_access_type, unique } => history_members(
            *output,
            *raw,
            *hist_access_type,
            *unique,
        ),
        Command::IsComplete { code } => seq![("code"@, Field::Text(code@))],
        Command::Shutdown { restart } => seq![("restart"@, Field::Bool(*restart))],
    }
}

/// The JSON text of a request's content.
pub open spec fn content_text(c: &Command) -> Seq<char> {
    object_text(content_members(c))
}

/// No two entries of a mapping share a name.
pub open spec fn unique_names(m: Seq<(String, String)>) -> bool {
    forall|i: int, j: int| 0 <= i < j < m.len() ==> m[i].0@ != m[j].0@
}

impl Command {
    /// A request is well formed when its user expressions, a mapping, name
    /// each expression once.
    pub open spec fn well_formed(&self) -> bool {
        match self {
            Command::Execute { user_expressions, .. } => unique_names(user_expressions@),
            _ => true,
        }
    }
}

/// The bytes of the empty JSON object `{}`.
pub open spec fn empty_object_bytes() -> Seq<u8> {
    seq![0x7bu8, 0x7du8]
}

fn history_fields(output: bool, raw: bool, h: HistoryAccessType, unique: bool) -> (r: Vec<
    (&'static str, FieldValue),
>)
    ensures
        members_view(r@) == history_members(output, raw, h, unique),
{
    let ghost hv = h;
    let (session, start, stop, n, pattern) = match h {
        HistoryAccessType::Tail { n } => (
            FieldValue::Null,
            FieldValue::Null,
            FieldValue::Null,
            FieldValue::UInt(n),
            FieldValue::Null,
        ),
        HistoryAccessType::Range { session, start, stop } => (
            FieldValue::Int(session),
            FieldValue::UInt(start),
            FieldValue::UInt(stop),
            FieldValue::Null,
            FieldValue::Null,
        ),
        HistoryAccessType::Search { pattern } => (
            FieldValue::Null,
            FieldValue::Null,
            FieldValue::Null,
            FieldValue::Null,
            FieldValue::Text(pattern),
        ),
    };
    let mut r: Vec<(&'static str, FieldValue)> = Vec::new();
    r.push(("hist_access_type", FieldValue::Text(String::from_str("tail"))));
    r.push(("n", n));
    r.push(("output", FieldValue::Bool(output)));
    r.push(("pattern", pattern));
    r.push(("raw", FieldValue::Bool(raw)));
    r.push(("session", session));
    r.push(("start", start));
    r.push(("stop", stop));
    r.push(("unique", FieldValue::Bool(unique)));
    assert(members_view(r@) =~= history_members(output, raw, hv, unique));
    r
}

impl Command {
    /// The protocol's message type of this request, for its header.
    pub fn message_type(&self) -> (r: &'static str)
        ensures
            r@ == message_type_of(self),
    {
        match self {
            Command::KernelInfo => "kernel_info_request",
            Command::Execute { .. } => "execute_request",
            Command::Inspect { .. } => "inspect_request",
            Command::Complete { .. } => "complete_request",
            Command::History { .. } => "history_request",
            Command::IsComplete { .. } => "is_complete_request",
            Command::Shutdown { .. } => "shutdown_request",
        }
    }

    /// Whether this request is well formed.
    pub fn is_well_formed(&self) -> (r: bool)
        ensures
            r == self.well_formed(),
    {
        match self {
            Command::Execute { user_expressions, .. } => {
                let n = user_expressions.len();
                let mut i: usize = 0;
                while i < n
                    invariant
                        n == user_expressions@.len(),
                        self.well_formed() == unique_names(user_expressions@),
                        i <= n,
                        forall|a: int, b: int|
                            0 <= a < b < n && a < i ==> user_expressions@[a].0@
                                != user_expressions@[b].0@,
                    decreases n - i,
                {
                    let mut j: usize = i + 1;
                    while j < n
                        invariant
                            n == user_expressions@.len(),
                            self.well_formed() == unique_names(user_expressions@),
                            i < n,
                            i + 1 <= j <= n,
                            forall|a: int, b: int|
                                0 <= a < b < n && a < i ==> user_expressions@[a].0@
                                    != user_expressions@[b].0@,
                            forall|b: int| i < b < j ==> user_expressions@[i as int].0@
                                != #[trigger] user_expressions@[b].0@,
                        decreases n - j,
                    {
                        if user_expressions[i].0 == user_expressions[j].0 {
                            assert(user_expressions@[i as int].0@ == user_expressions@[j as int].0@);
                            assert(!unique_names(user_expressions@));
                            return false;
                        }
                        j += 1;
                    }
                    i += 1;
                }
                true
            },
            _ => true,
        }
    }

    /// The members of this request's content, ready to be written.
    pub fn content_fields(self) -> (r: Vec<(&'static str, FieldValue)>)
        ensures
            members_view(r@) == content_members(&self),
    {
        let ghost c = self;
        let mut r: Vec<(&'static str, FieldValue)> = Vec::new();
        match self {
            Command::KernelInfo => {},
            Command::Execute {
                code,
                silent,
                store_history,
                user_expressions,
                allow_stdin,
                stop_on_error,
            } => {
                r.push(("code", FieldValue::Text(code)));
                r.push(("silent", FieldValue::Bool(silent)));
                r.push(("store_history", FieldValue::Bool(store_history)));
                r.push(("user_expressions", FieldValue::TextMap(user_expressions)));
                r.push(("allow_stdin", FieldValue::Bool(allow_stdin)));
                r.push(("stop_on_error", FieldValue::Bool(stop_on_error)));
            },
            Command::Inspect { code, cursor_pos, detail_level } => {
                r.push(("code", FieldValue::Text(code)));
                r.push(("cursor_pos", FieldValue::UInt(cursor_pos)));
                r.push(("detail_level", FieldValue::Int(detail_level.serialize() as i64)));
            },
            Command::Complete { code, cursor_pos } => {
                r.push(("code", FieldValue::Text(code)));
                r.push(("cursor_pos", FieldValue::UInt(cursor_pos)));
            },
            Command::History { output, raw, hist_access_type, unique } => {
                r = history_fields(output, raw, hist_access_type, unique);
            },
            Command::IsComplete { code } => {
                r.push(("code", FieldValue::Text(code)));
            },
            Command::Shutdown { restart } => {
                r.push(("restart", FieldValue::Bool(restart)));
            },
        }
        assert(members_view(r@) =~= content_members(&c));
        r
    }

    /// Encodes this request into a frame. `header` is the rendering of the
    /// header built for `self.message_type()`; `auth` is attached as it is.
    /// A header that failed to render fails the encoding; otherwise the
    /// encoding succeeds, the content is the request's JSON object, and the
    /// parent header and the metadata are the empty object.
    pub fn into_wire<M, E>(self, header: Result<Vec<u8>, E>, auth: M) -> (r: Result<
        WireMessage<M>,
        EncodeError,
    >)
        requires
            self.well_formed(),
        ensures
            header is Err ==> r == Err::<WireMessage<M>, EncodeError>(EncodeError::HeaderEncoding),
            r matches Ok(w) ==> {
                &&& header matches Ok(h) && w.header@ == h@
                &&& w.parent_header@ == empty_object_bytes()
                &&& w.metadata@ == empty_object_bytes()
                &&& w.content@ == encode_utf8(content_text(&self))
                &&& w.auth == auth
            },
            header is Ok ==> r is Ok,
    {
        let ghost c = self;
        let header_bytes = match header {
            Ok(h) => h,
            Err(_) => {
                return Err(EncodeError::HeaderEncoding);
            },
        };
        let fields = self.content_fields();
        let mut text = String::new();
        if push_object(&mut text, &fields).is_err() {
            return Err(EncodeError::ContentEncoding);
        }
        assert(text@ =~= content_text(&c));
        let content = text.as_str().as_bytes_vec();
        Ok(
            WireMessage {
                header: header_bytes,
                parent_header: vec![0x7bu8, 0x7du8],
                metadata: vec![0x7bu8, 0x7du8],
                content,
                auth,
            },
        )
    }
}

} // verus!
