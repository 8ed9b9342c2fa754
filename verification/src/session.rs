use vstd::prelude::*;
use crate::json::{has_trailing_text, json_parse, parse_json, JsonNumber, JsonValue};

verus! {

/// A message that arrived on the websocket, as far as the session reads it.
pub enum Incoming {
    Text(String),
    Binary(Vec<u8>),
    Continuation,
    Ping(Vec<u8>),
    Pong,
    Close,
    Nop,
    /// The websocket stream reported a protocol error.
    ProtocolError,
}

/// What the session does with an incoming message.
pub enum Reply {
    /// Nothing.
    Nothing,
    /// Answer with a pong carrying this payload.
    Pong(Vec<u8>),
    /// Send this binary message back.
    Binary(Vec<u8>),
    /// Carry out this JSON action (such as a resize).
    Action(JsonValue),
    /// Write this text to the terminal as typed input.
    Command(String),
}

/// Decide what to do with a websocket message. A text message that parses as
/// JSON is an action; any other text is input for the terminal. Pings are
/// answered with their payload, binary messages are echoed, and all else is
/// ignored.
pub fn route_message(msg: Incoming) -> (r: Reply)
    ensures
        match msg {
            Incoming::Text(text) => match json_parse(text@) {
                Some(value) => r == Reply::Action(value),
                None => r == Reply::Command(text),
            },
            Incoming::Binary(bytes) => r == Reply::Binary(bytes),
            Incoming::Ping(payload) => r == Reply::Pong(payload),
            _ => r == Reply::Nothing,
        },
        msg matches Incoming::Text(text) ==> (has_trailing_text(text@) ==> r == Reply::Command(text)),
{
    match msg {
        Incoming::Text(text) => match parse_json(text.as_str()) {
            Some(value) => Reply::Action(value),
            None => Reply::Command(text),
        },
        Incoming::Binary(bytes) => Reply::Binary(bytes),
        Incoming::Ping(payload) => Reply::Pong(payload),
        _ => Reply::Nothing,
    }
}

/// A terminal size in character cells.
#[derive(Clone, Copy, Debug, PartialEq, Eq, Structural)]
pub struct TerminalSize {
    pub rows: u16,
    pub cols: u16,
}

impl TerminalSize {
    /// The size a new session's terminal starts with: 100 rows of 200 columns.
    pub fn initial() -> (r: TerminalSize)
        ensures
            r.rows == 100,
            r.cols == 200,
    {
        TerminalSize { rows: 100, cols: 200 }
    }
}

/// Why a JSON action could not be carried out as a resize.
#[derive(Clone, Copy, Debug, PartialEq, Eq, Structural)]
pub enum ActionError {
    /// The action is not a JSON object.
    NotAnObject,
    /// The action has no `resize` member.
    MissingResize,
    /// The resize has no `cols` member.
    MissingCols,
    /// `cols` is not a non-negative integer.
    ColsNotUnsigned,
    /// The resize has no `rows` member.
    MissingRows,
    /// `rows` is not a non-negative integer.
    RowsNotUnsigned,
    /// `rows` does not fit in 16 bits.
    RowsOutOfRange,
    /// `cols` does not fit in 16 bits.
    ColsOutOfRange,
}

impl ActionError {
    pub open spec fn spec_message(self) -> Seq<char> {
        match self {
            ActionError::NotAnObject => "called `Option::unwrap()` on a `None` value"@,
            ActionError::MissingResize => "get resize error"@,
            ActionError::MissingCols => "get cols fail"@,
            ActionError::ColsNotUnsigned => "cols type err"@,
            ActionError::MissingRows => "get rows fail "@,
            ActionError::RowsNotUnsigned => "rows type err"@,
            ActionError::RowsOutOfRange => "called `Result::unwrap()` on an `Err` value: TryFromIntError(())"@,
            ActionError::ColsOutOfRange => "called `Result::unwrap()` on an `Err` value: TryFromIntError(())"@,
        }
    }

    /// What to report when the action fails this way.
    pub fn message(self) -> (r: &'static str)
        ensures
            r@ == self.spec_message(),
    {
        match self {
            ActionError::NotAnObject => "called `Option::unwrap()` on a `None` value",
            ActionError::MissingResize => "get resize error",
            ActionError::MissingCols => "get cols fail",
            ActionError::ColsNotUnsigned => "cols type err",
            ActionError::MissingRows => "get rows fail ",
            ActionError::RowsNotUnsigned => "rows type err",
            ActionError::RowsOutOfRange => "called `Result::unwrap()` on an `Err` value: TryFromIntError(())",
            ActionError::ColsOutOfRange => "called `Result::unwrap()` on an `Err` value: TryFromIntError(())",
        }
    }
}

/// The size that a JSON action of the form
/// `{"resize": {"cols": C, "rows": R}}` asks for, or the first check it fails,
/// in the order they are made.
pub open spec fn requested_size(action: JsonValue) -> Result<TerminalSize, ActionError> {
    if !action.spec_is_object() {
        Err(ActionError::NotAnObject)
    } else {
        match action.spec_get("resize"@) {
            None => Err(ActionError::MissingResize),
            Some(resize) => match resize.spec_get("cols"@) {
                None => Err(ActionError::MissingCols),
                Some(c) => match c.spec_as_u64() {
                    None => Err(ActionError::ColsNotUnsigned),
                    Some(cols) => match resize.spec_get("rows"@) {
                        None => Err(ActionError::MissingRows),
                        Some(r) => match r.spec_as_u64() {
                            None => Err(ActionError::RowsNotUnsigned),
                            Some(rows) => if rows > u16::MAX {
                                Err(ActionError::RowsOutOfRange)
                            } else if cols > u16::MAX {
                                Err(ActionError::ColsOutOfRange)
                            } else {
                                Ok(TerminalSize { rows: rows as u16, cols: cols as u16 })
                            },
                        },
                    },
                },
            },
        }
    }
}

/// Read the terminal size that a JSON action asks for.
pub fn resize_request(action: &JsonValue) -> (r: Result<TerminalSize, ActionError>)
    ensures
        r == requested_size(*action),
{
    if !action.is_object() {
        return Err(ActionError::NotAnObject);
    }
    let resize_key = String::from_str("resize");
    let resize = match action.get(&resize_key) {
        None => return Err(ActionError::MissingResize),
        Some(v) => v,
    };
    let cols_key = String::from_str("cols");
    let cols: u64 = match resize.get(&cols_key) {
        None => return Err(ActionError::MissingCols),
        Some(v) => match v.as_u64() {
            None => return Err(ActionError::ColsNotUnsigned),
            Some(n) => n,
        },
    };
    let rows_key = String::from_str("rows");
    let rows: u64 = match resize.get(&rows_key) {
        None => return Err(ActionError::MissingRows),
        Some(v) => match v.as_u64() {
            None => return Err(ActionError::RowsNotUnsigned),
            Some(n) => n,
        },
    };
    if rows > 65535u64 {
        return Err(ActionError::RowsOutOfRange);
    }
    if cols > 65535u64 {
        return Err(ActionError::ColsOutOfRange);
    }
    Ok(TerminalSize { rows: rows as u16, cols: cols as u16 })
}

/// A resize action is honoured exactly when it is an object whose `resize`
/// member names both `cols` and `rows` as non-negative integers, and then the
/// size it gives is the one named.
pub proof fn resize_request_honoured(action: JsonValue, size: TerminalSize)
    ensures
        requested_size(action) == Ok::<TerminalSize, ActionError>(size) <==> {
            &&& action.spec_is_object()
            &&& action.spec_get("resize"@) matches Some(resize)
            &&& resize.spec_get("cols"@) == Some(JsonValue::Number(JsonNumber::PosInt(size.cols as u64)))
            &&& resize.spec_get("rows"@) == Some(JsonValue::Number(JsonNumber::PosInt(size.rows as u64)))
        },
{
}

/// The environment variables a session's shell inherits: `TERM`, `TZ`, `LANG`
/// and `PATH`.
pub open spec fn is_forwarded_name(name: Seq<char>) -> bool {
    name == "TERM"@ || name == "TZ"@ || name == "LANG"@ || name == "PATH"@
}

/// The variables among `vars` that the shell inherits, in their order.
pub open spec fn forwarded_vars(vars: Seq<(String, String)>) -> Seq<(String, String)>
    decreases vars.len(),
{
    if vars.len() == 0 {
        Seq::empty()
    } else if is_forwarded_name(vars.last().0@) {
        forwarded_vars(vars.drop_last()).push(vars.last())
    } else {
        forwarded_vars(vars.drop_last())
    }
}

/// Whether the shell inherits the variable called `name`.
pub fn is_forwarded_variable(name: &String) -> (r: bool)
    ensures
        r == is_forwarded_name(name@),
        r <==> (name@ == "TERM"@ || name@ == "TZ"@ || name@ == "LANG"@ || name@ == "PATH"@),
{
    *name == String::from_str("TERM") || *name == String::from_str("TZ") || *name == String::from_str(
        "LANG",
    ) || *name == String::from_str("PATH")
}

/// The variables of `vars` that the shell inherits.
pub fn forwarded_environment(vars: &Vec<(String, String)>) -> (r: Vec<(String, String)>)
    ensures
        r@ == forwarded_vars(vars@),
        forall|i: int|
            0 <= i < r@.len() ==> (#[trigger] r@[i]).0@ == "TERM"@ || r@[i].0@ == "TZ"@ || r@[i].0@ == "LANG"@
                || r@[i].0@ == "PATH"@,
        forall|i: int|
            0 <= i < r@.len() ==> vars@.contains(#[trigger] r@[i]),
{
    let mut out: Vec<(String, String)> = Vec::new();
    let mut i: usize = 0;
    while i < vars.len()
        invariant
            i <= vars@.len(),
            out@ == forwarded_vars(vars@.take(i as int)),
        decreases vars@.len() - i,
    {
        proof {
            assert(vars@.take(i as int + 1).drop_last() =~= vars@.take(i as int));
        }
        if is_forwarded_variable(&vars[i].0) {
            let name = vars[i].0.clone();
            let value = vars[i].1.clone();
            out.push((name, value));
        }
        i = i + 1;
    }
    assert(vars@.take(vars@.len() as int) =~= vars@);
    assert forall|i: int| 0 <= i < out@.len() implies vars@.contains(#[trigger] out@[i]) && is_forwarded_name(
        out@[i].0@,
    ) by {
        assert(out@.contains(out@[i]));
        forwarded_vars_members(vars@, out@[i]);
    }
    out
}

/// The inherited names are exactly `TERM`, `TZ`, `LANG` and `PATH`: no other
/// name (such as `USER` or `HOME`) is ever passed on to the shell.
pub proof fn forwarded_names_are_exactly(name: Seq<char>)
    ensures
        is_forwarded_name(name) <==> (name == "TERM"@ || name == "TZ"@ || name == "LANG"@ || name == "PATH"@),
{
}

/// A variable is passed on to the shell exactly when it is among the given
/// variables and has one of the inherited names.
pub proof fn forwarded_vars_members(vars: Seq<(String, String)>, var: (String, String))
    ensures
        forwarded_vars(vars).contains(var) <==> vars.contains(var) && is_forwarded_name(var.0@),
    decreases vars.len(),
{
    if vars.len() > 0 {
        let init = vars.drop_last();
        forwarded_vars_members(init, var);
        assert(vars =~= init.push(vars.last()));
        if vars.contains(var) && !init.contains(var) {
            let j: int = choose|j: int| 0 <= j < vars.len() && vars[j] == var;
            if j < init.len() {
                assert(init[j] == var);
            }
        }
        if init.contains(var) {
            let j: int = choose|j: int| 0 <= j < init.len() && init[j] == var;
            assert(vars[j] == var);
        }
        let rest = forwarded_vars(init);
        if is_forwarded_name(vars.last().0@) {
            if rest.push(vars.last()).contains(var) && !rest.contains(var) {
                let j: int = choose|j: int| 0 <= j < rest.len() + 1 && rest.push(vars.last())[j] == var;
                if j < rest.len() {
                    assert(rest[j] == var);
                }
            }
            if rest.contains(var) {
                let j: int = choose|j: int| 0 <= j < rest.len() && rest[j] == var;
                assert(rest.push(vars.last())[j] == var);
            }
            assert(rest.push(vars.last())[rest.len() as int] == vars.last());
        }
    }
}

/// Calls `String::from_utf8`, keeping the string and dropping the error: std
/// documents that it succeeds exactly when the bytes are valid UTF-8, and then
/// the string holds the characters they encode.
#[verifier::external_body]
fn string_from_utf8(bytes: Vec<u8>) -> (r: Option<String>)
    ensures
        r is Some <==> vstd::utf8::valid_utf8(bytes@),
        r matches Some(text) ==> text@ == vstd::utf8::decode_utf8(bytes@),
{
    String::from_utf8(bytes).ok()
}

/// The text of a chunk read from the terminal, to be sent as a websocket text
/// message; nothing where the chunk is not valid UTF-8.
pub fn output_text(bytes: Vec<u8>) -> (r: Option<String>)
    ensures
        r is Some <==> vstd::utf8::valid_utf8(bytes@),
        r matches Some(text) ==> text@ == vstd::utf8::decode_utf8(bytes@),
{
    string_from_utf8(bytes)
}

} // verus!
