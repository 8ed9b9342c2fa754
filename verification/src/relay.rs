use vstd::prelude::*;

verus! {

/// The key (Ctrl-E) that the relay turns into an engraving.
pub const ENGRAVE_KEY: u8 = 5;

/// What an engrave key is replaced with on its way to the terminal:
/// `"E-  Elbereth\n"`.
pub open spec fn engraving() -> Seq<u8> {
    seq![69u8, 45u8, 32u8, 32u8, 69u8, 108u8, 98u8, 101u8, 114u8, 101u8, 116u8, 104u8, 10u8]
}

/// The word whose appearance in the terminal's output counts as an engraving:
/// `"Elbereth"`.
pub open spec fn engraved_word() -> Seq<u8> {
    seq![69u8, 108u8, 98u8, 101u8, 114u8, 101u8, 116u8, 104u8]
}

/// What one input byte becomes on its way to the terminal.
pub open spec fn forwarded_byte(b: u8) -> Seq<u8> {
    if b == ENGRAVE_KEY {
        engraving()
    } else {
        seq![b]
    }
}

/// What a chunk of input becomes on its way to the terminal: each byte in
/// turn, with every engrave key replaced by the engraving.
pub open spec fn forwarded(input: Seq<u8>) -> Seq<u8>
    decreases input.len(),
{
    if input.len() == 0 {
        Seq::empty()
    } else {
        forwarded(input.drop_last()) + forwarded_byte(input.last())
    }
}

/// `needle` occurs as a contiguous run of bytes in `haystack`.
pub open spec fn occurs_in(needle: Seq<u8>, haystack: Seq<u8>) -> bool {
    exists|i: int|
        0 <= i && i + needle.len() <= haystack.len() && #[trigger] haystack.subrange(i, i + needle.len())
            == needle
}

/// A pattern that the regex syntax reads as a plain literal: a short, non-empty
/// run of ASCII letters and digits.
pub open spec fn is_plain_literal(pattern: Seq<char>) -> bool {
    &&& 0 < pattern.len() <= 256
    &&& forall|i: int|
        0 <= i < pattern.len() ==> {
            let c = #[trigger] pattern[i];
            ('a' <= c <= 'z') || ('A' <= c <= 'Z') || ('0' <= c <= '9')
        }
}

/// The bytes of an ASCII text.
pub open spec fn ascii_bytes(text: Seq<char>) -> Seq<u8> {
    text.map_values(|c: char| c as u8)
}

/// Calls `regex::bytes::Regex::new` on `pattern` and then `Regex::is_match` on
/// `haystack`. A pattern of ASCII letters and digits has no metacharacters, so
/// the regex crate compiles it (far below its size limit) to a literal, and
/// `is_match` reports whether that literal occurs anywhere in the haystack.
#[verifier::external_body]
fn literal_is_match(pattern: &str, haystack: &[u8]) -> (r: bool)
    requires
        is_plain_literal(pattern@),
    ensures
        r == occurs_in(ascii_bytes(pattern@), haystack@),
{
    match regex::bytes::Regex::new(pattern) {
        Ok(re) => re.is_match(haystack),
        Err(_) => false,
    }
}

/// Whether a chunk of the terminal's output shows the engraved word.
pub fn shows_engraving(output: &[u8]) -> (r: bool)
    ensures
        r == occurs_in(engraved_word(), output@),
{
    let word = "Elbereth";
    proof {
        reveal_strlit("Elbereth");
        assert(ascii_bytes(word@) =~= engraved_word());
    }
    literal_is_match(word, output)
}

/// Whether `input` holds an engrave key.
pub fn holds_engrave_key(input: &[u8]) -> (r: bool)
    ensures
        r == input@.contains(ENGRAVE_KEY),
{
    let mut i: usize = 0;
    while i < input.len()
        invariant
            i <= input@.len(),
            forall|j: int| 0 <= j < i ==> input@[j] != ENGRAVE_KEY,
        decreases input@.len() - i,
    {
        if input[i] == ENGRAVE_KEY {
            return true;
        }
        i = i + 1;
    }
    false
}

fn engraving_bytes() -> (r: Vec<u8>)
    ensures
        r@ == engraving(),
{
    let r: Vec<u8> = vec![69u8, 45u8, 32u8, 32u8, 69u8, 108u8, 98u8, 101u8, 114u8, 101u8, 116u8, 104u8, 10u8];
    assert(r@ =~= engraving());
    r
}

/// Input without an engrave key is forwarded unchanged.
pub proof fn forwarded_without_key(input: Seq<u8>)
    requires
        !input.contains(ENGRAVE_KEY),
    ensures
        forwarded(input) == input,
    decreases input.len(),
{
    if input.len() > 0 {
        assert(!input.drop_last().contains(ENGRAVE_KEY)) by {
            if input.drop_last().contains(ENGRAVE_KEY) {
                let j: int = choose|j: int| 0 <= j < input.drop_last().len() && input.drop_last()[j] == ENGRAVE_KEY;
                assert(input[j] == ENGRAVE_KEY);
            }
        }
        forwarded_without_key(input.drop_last());
        assert(input[input.len() - 1] != ENGRAVE_KEY);
        assert(input.drop_last() + seq![input.last()] =~= input);
    }
}

/// Forwarding does not depend on how the input was split into reads: the
/// forwarded concatenation is the concatenation of the forwarded parts.
pub proof fn forwarded_concat(a: Seq<u8>, b: Seq<u8>)
    ensures
        forwarded(a + b) == forwarded(a) + forwarded(b),
    decreases b.len(),
{
    if b.len() == 0 {
        assert(a + b =~= a);
        assert(forwarded(a) + forwarded(b) =~= forwarded(a));
    } else {
        assert((a + b).drop_last() =~= a + b.drop_last());
        assert((a + b).last() == b.last());
        forwarded_concat(a, b.drop_last());
        assert(forwarded(a) + forwarded(b.drop_last()) + forwarded_byte(b.last()) =~= forwarded(a) + (
        forwarded(b.drop_last()) + forwarded_byte(b.last())));
    }
}

/// Nothing forwarded to the terminal is an engrave key: every one was replaced.
pub proof fn forwarded_has_no_engrave_key(input: Seq<u8>)
    ensures
        !forwarded(input).contains(ENGRAVE_KEY),
    decreases input.len(),
{
    if input.len() > 0 {
        forwarded_has_no_engrave_key(input.drop_last());
        let head = forwarded(input.drop_last());
        let tail = forwarded_byte(input.last());
        assert(!tail.contains(ENGRAVE_KEY));
        if (head + tail).contains(ENGRAVE_KEY) {
            let j: int = choose|j: int| 0 <= j < (head + tail).len() && (head + tail)[j] == ENGRAVE_KEY;
            if j < head.len() {
                assert(head[j] == ENGRAVE_KEY);
            } else {
                assert(tail[j - head.len()] == ENGRAVE_KEY);
            }
        }
    }
}

/// The bytes to write to the terminal for a chunk read from standard input:
/// every engrave key becomes the engraving, every other byte passes as it is.
pub fn forward_input(input: &[u8]) -> (r: Vec<u8>)
    ensures
        r@ == forwarded(input@),
{
    if holds_engrave_key(input) {
        let mut out: Vec<u8> = Vec::new();
        let mut i: usize = 0;
        while i < input.len()
            invariant
                i <= input@.len(),
                out@ == forwarded(input@.take(i as int)),
            decreases input@.len() - i,
        {
            let b: u8 = input[i];
            proof {
                assert(input@.take(i as int + 1).drop_last() =~= input@.take(i as int));
            }
            if b == ENGRAVE_KEY {
                let mut piece = engraving_bytes();
                out.append(&mut piece);
            } else {
                out.push(b);
            }
            i = i + 1;
        }
        assert(input@.take(input@.len() as int) =~= input@);
        out
    } else {
        proof {
            forwarded_without_key(input@);
        }
        vstd::slice::slice_to_vec(input)
    }
}

/// What the relay between standard I/O and the terminal was told happened.
pub enum RelayEvent {
    /// A read from standard input finished, with the bytes read or the failure.
    Input(Result<Vec<u8>, std::io::Error>),
    /// A read from the terminal finished, with the bytes read or the failure.
    Output(Result<Vec<u8>, std::io::Error>),
    /// The child process on the terminal exited.
    ChildExited,
}

/// Why the relay stops.
pub enum StopReason {
    InputFailed(std::io::Error),
    OutputFailed(std::io::Error),
    ChildExited,
}

/// What the relay does next.
pub enum RelayAction {
    /// Write these bytes to the terminal.
    WriteToTerminal(Vec<u8>),
    /// Write these bytes to standard output and flush it; `engraved` tells
    /// whether they show the engraved word.
    WriteToStdout { bytes: Vec<u8>, engraved: bool },
    /// Stop relaying.
    Stop(StopReason),
}

/// One decision of the relay: input goes to the terminal (engrave keys
/// expanded), output goes to standard output as it is, and a failed read or the
/// child's exit stops the relay.
pub fn relay_step(event: RelayEvent) -> (action: RelayAction)
    ensures
        match event {
            RelayEvent::Input(Ok(bytes)) => action matches RelayAction::WriteToTerminal(out) && out@
                == forwarded(bytes@),
            RelayEvent::Input(Err(e)) => action == RelayAction::Stop(StopReason::InputFailed(e)),
            RelayEvent::Output(Ok(bytes)) => action matches RelayAction::WriteToStdout { bytes: out, engraved }
                && out@ == bytes@ && engraved == occurs_in(engraved_word(), bytes@),
            RelayEvent::Output(Err(e)) => action == RelayAction::Stop(StopReason::OutputFailed(e)),
            RelayEvent::ChildExited => action == RelayAction::Stop(StopReason::ChildExited),
        },
{
    match event {
        RelayEvent::Input(Ok(bytes)) => RelayAction::WriteToTerminal(forward_input(bytes.as_slice())),
        RelayEvent::Input(Err(e)) => RelayAction::Stop(StopReason::InputFailed(e)),
        RelayEvent::Output(Ok(bytes)) => {
            let engraved = shows_engraving(bytes.as_slice());
            RelayAction::WriteToStdout { bytes, engraved }
        },
        RelayEvent::Output(Err(e)) => RelayAction::Stop(StopReason::OutputFailed(e)),
        RelayEvent::ChildExited => RelayAction::Stop(StopReason::ChildExited),
    }
}

} // verus!
