use vstd::prelude::*;
use vstd::string::StrSliceExecFns;
use vstd::string::StringExecFns;

use crate::transport::error::{StdioError, ValidationError};

verus! {

/// Whether the text holds an embedded line terminator.
pub open spec fn contains_newline(s: Seq<char>) -> bool {
    exists|i: int| 0 <= i < s.len() && s[i] == '\n'
}

/// The wire-level framing invariant: a message body is non-empty and
/// holds no embedded line terminator.
pub open spec fn valid_message(s: Seq<char>) -> bool {
    s.len() > 0 && !contains_newline(s)
}

/// Which rejection an invalid body earns: emptiness is reported first,
/// an embedded terminator otherwise.
pub open spec fn invalidity_of(s: Seq<char>) -> ValidationError
    recommends
        !valid_message(s),
{
    if s.len() == 0 {
        ValidationError::Empty
    } else {
        ValidationError::ContainsNewline
    }
}

/// What the validator returns for a candidate body.
pub open spec fn spec_validate(s: Seq<char>) -> Result<(), ValidationError> {
    if valid_message(s) {
        Ok(())
    } else {
        Err(invalidity_of(s))
    }
}

/// One physical line with its terminators removed: exactly one trailing
/// `\n` is stripped if present, and then one trailing `\r` if one stood
/// immediately before that `\n`. A line that never saw a terminator
/// (a truncated final line) is kept whole.
pub open spec fn stripped_line(s: Seq<char>) -> Seq<char> {
    if s.len() > 0 && s.last() == '\n' {
        let t = s.subrange(0, s.len() - 1);
        if t.len() > 0 && t.last() == '\r' {
            t.subrange(0, t.len() - 1)
        } else {
            t
        }
    } else {
        s
    }
}

/// A message body as it goes onto the wire: the body followed by one
/// bare `\n`. A `\r\n` is tolerated on read but never emitted on write.
pub open spec fn framed_line(s: Seq<char>) -> Seq<char> {
    s.push('\n')
}

/// What decoding one physical line yields: the stripped body if it is
/// valid, and the matching invalid-data rejection otherwise.
pub open spec fn spec_decode_line(raw: Seq<char>) -> Result<Seq<char>, StdioError> {
    if valid_message(stripped_line(raw)) {
        Ok(stripped_line(raw))
    } else {
        Err(StdioError::from_validation(invalidity_of(stripped_line(raw))))
    }
}

/// What encoding one message yields: the framed line if the body is
/// valid, and the matching rejection otherwise, with nothing written.
pub open spec fn spec_encode_line(message: Seq<char>) -> Result<Seq<char>, StdioError> {
    if valid_message(message) {
        Ok(framed_line(message))
    } else {
        Err(StdioError::from_validation(invalidity_of(message)))
    }
}

/// The message validator: enforces the framing invariant on a candidate
/// message body. Both the read path (after terminator stripping) and the
/// write path (before terminator appending) run it, so the same
/// invariant governs both directions.
pub fn validate(message: &str) -> (r: Result<(), ValidationError>)
    ensures
        r == spec_validate(message@),
{
    let len = message.unicode_len();
    if len == 0 {
        return Err(ValidationError::Empty);
    }
    let mut i: usize = 0;
    while i < len
        invariant
            len == message@.len(),
            0 <= i <= len,
            forall|j: int| 0 <= j < i ==> message@[j] != '\n',
        decreases len - i,
    {
        if message.get_char(i) == '\n' {
            return Err(ValidationError::ContainsNewline);
        }
        i = i + 1;
    }
    Ok(())
}

/// Removes the line terminators from one physical line, as
/// [`stripped_line`] describes.
pub fn strip_line(line: &str) -> (r: String)
    ensures
        r@ == stripped_line(line@),
{
    let len = line.unicode_len();
    if len > 0 && line.get_char(len - 1) == '\n' {
        if len > 1 && line.get_char(len - 2) == '\r' {
            line.substring_char(0, len - 2).to_owned()
        } else {
            line.substring_char(0, len - 1).to_owned()
        }
    } else {
        line.to_owned()
    }
}

/// The framed reader's per-line step: strips the terminators from one
/// physical line and validates the remaining body. A validation failure
/// is surfaced as an invalid-data classified error, never dropped.
pub fn decode_line(raw: &str) -> (r: Result<String, StdioError>)
    ensures
        r matches Ok(m) ==> spec_decode_line(raw@) matches Ok(b) && m@ == b,
        r matches Err(e) ==> spec_decode_line(raw@) matches Err(e2) && e == e2,
        r is Ok <==> spec_decode_line(raw@) is Ok,
{
    let body = strip_line(raw);
    match validate(body.as_str()) {
        Ok(()) => Ok(body),
        Err(e) => Err(StdioError::from(e)),
    }
}

/// The framed writer's per-message step: validates the body and, on
/// success, yields the full line to put on the wire — the body followed
/// by one bare `\n`. On failure nothing is produced, so a failed write
/// is atomic-or-nothing.
pub fn encode_line(message: &str) -> (r: Result<String, StdioError>)
    ensures
        r matches Ok(l) ==> spec_encode_line(message@) matches Ok(b) && l@ == b,
        r matches Err(e) ==> spec_encode_line(message@) matches Err(e2) && e == e2,
        r is Ok <==> spec_encode_line(message@) is Ok,
{
    match validate(message) {
        Ok(()) => {
            let mut line = message.to_owned();
            line.append("\n");
            proof {
                reveal_strlit("\n");
                assert(line@ =~= framed_line(message@));
            }
            Ok(line)
        },
        Err(e) => Err(StdioError::from(e)),
    }
}

/// The round-trip law: any valid message body that does not itself end
/// in `\r` is recovered exactly by the read path after the write path
/// framed it, whether the stream carried the canonical `\n` terminator
/// or a tolerated `\r\n`.
///
/// A body that ends in `\r` is excluded: the read path would fold its
/// trailing `\r` into a `\r\n` terminator and strip it.
pub proof fn lemma_write_read_round_trip(s: Seq<char>)
    requires
        valid_message(s),
        s.last() != '\r',
    ensures
        spec_encode_line(s) matches Ok(line) && spec_decode_line(line) == Ok::<
            Seq<char>,
            StdioError,
        >(s),
        spec_decode_line(s + seq!['\r', '\n']) == Ok::<Seq<char>, StdioError>(s),
{
    let line = framed_line(s);
    assert(line.last() == '\n');
    assert(line.subrange(0, line.len() - 1) =~= s);
    let crlf = s + seq!['\r', '\n'];
    assert(crlf.last() == '\n');
    let t = crlf.subrange(0, crlf.len() - 1);
    assert(t =~= s.push('\r'));
    assert(t.last() == '\r');
    assert(t.subrange(0, t.len() - 1) =~= s);
}

} // verus!
