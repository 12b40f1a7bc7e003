use vstd::prelude::*;
use vstd::string::StrSliceExecFns;

use crate::transport::error::StdioError;
use crate::transport::framing::{
    decode_line, encode_line, framed_line, invalidity_of, stripped_line, valid_message,
};

verus! {

/// The position just past the line that starts at `from`: the index of
/// the first `\n` at or after `from`, or the end of the text if the
/// final line never saw a terminator.
pub open spec fn line_break(s: Seq<char>, from: int) -> int
    recommends
        0 <= from <= s.len(),
    decreases s.len() - from
        when 0 <= from <= s.len()
{
    if from >= s.len() {
        s.len() as int
    } else if s[from] == '\n' {
        from
    } else {
        line_break(s, from + 1)
    }
}

/// Where the next line starts after the one that starts at `from`.
pub open spec fn next_line_pos(s: Seq<char>, from: int) -> int
    recommends
        0 <= from <= s.len(),
{
    if line_break(s, from) == s.len() {
        s.len() as int
    } else {
        line_break(s, from) + 1
    }
}

/// One physical line starting at `from`, terminator included if the
/// stream held one.
pub open spec fn raw_line_at(s: Seq<char>, from: int) -> Seq<char>
    recommends
        0 <= from <= s.len(),
{
    s.subrange(from, next_line_pos(s, from))
}

/// The message body carried by the line that starts at `from`.
pub open spec fn message_at(s: Seq<char>, from: int) -> Seq<char>
    recommends
        0 <= from <= s.len(),
{
    stripped_line(raw_line_at(s, from))
}

/// Basic facts about [`line_break`]: it stays within the text, it lands
/// on a terminator unless it reached the end, and no terminator stands
/// before it.
pub proof fn lemma_line_break_props(s: Seq<char>, from: int)
    requires
        0 <= from <= s.len(),
    ensures
        from <= line_break(s, from) <= s.len(),
        line_break(s, from) < s.len() ==> s[line_break(s, from)] == '\n',
        forall|j: int| from <= j < line_break(s, from) ==> s[j] != '\n',
    decreases s.len() - from,
{
    if from < s.len() && s[from] != '\n' {
        lemma_line_break_props(s, from + 1);
    }
}

/// [`line_break`] is the one index with no terminator before it that
/// either carries a terminator or is the end of the text.
pub proof fn lemma_line_break_is(s: Seq<char>, from: int, i: int)
    requires
        0 <= from <= i <= s.len(),
        forall|j: int| from <= j < i ==> s[j] != '\n',
        i == s.len() || s[i] == '\n',
    ensures
        line_break(s, from) == i,
    decreases i - from,
{
    if from < i {
        lemma_line_break_is(s, from + 1, i);
    }
}

/// An in-memory buffered input source: the whole stream contents as
/// text, and a cursor for how far the reader has come. It stands in for
/// the process's standard input wherever the verified core reads.
pub struct MemoryStream {
    /// Everything the stream will ever carry.
    pub data: String,
    /// How many characters have been consumed so far.
    pub pos: usize,
}

impl MemoryStream {
    /// The cursor never runs past the end of the contents.
    pub open spec fn wf(self) -> bool {
        self.pos <= self.data@.len()
    }

    /// A stream holding `data`, nothing consumed yet.
    pub fn new(data: String) -> (s: Self)
        ensures
            s.wf(),
            s.data == data,
            s.pos == 0,
    {
        MemoryStream { data, pos: 0 }
    }

    /// Whether the stream has reached end-of-stream.
    pub fn at_end(&self) -> (b: bool)
        ensures
            b == (self.pos >= self.data@.len()),
    {
        self.pos >= self.data.as_str().unicode_len()
    }

    /// Reads one physical line, terminator included. Returns `None` at
    /// true end-of-stream (zero characters left); a final line that the
    /// stream ended before terminating is returned whole.
    pub fn read_line(&mut self) -> (r: Option<String>)
        ensures
            old(self).wf() ==> final(self).wf(),
            final(self).data == old(self).data,
            old(self).pos >= old(self).data@.len() ==> r is None && final(self).pos == old(
                self,
            ).pos,
            old(self).pos < old(self).data@.len() ==> (r matches Some(l) && l@ == raw_line_at(
                old(self).data@,
                old(self).pos as int,
            ) && final(self).pos == next_line_pos(old(self).data@, old(self).pos as int)),
    {
        let len = self.data.as_str().unicode_len();
        if self.pos >= len {
            return None;
        }
        let start = self.pos;
        let mut i: usize = start;
        loop
            invariant
                len == self.data@.len(),
                start <= i <= len,
                forall|j: int| start <= j < i ==> self.data@[j] != '\n',
            ensures
                start <= i <= len,
                i == len || self.data@[i as int] == '\n',
                forall|j: int| start <= j < i ==> self.data@[j] != '\n',
            decreases len - i,
        {
            if i == len {
                break ;
            }
            if self.data.as_str().get_char(i) == '\n' {
                break ;
            }
            i = i + 1;
        }
        proof {
            lemma_line_break_is(self.data@, start as int, i as int);
        }
        let end = if i < len {
            i + 1
        } else {
            len
        };
        let line = self.data.as_str().substring_char(start, end).to_owned();
        self.pos = end;
        Some(line)
    }
}

/// An in-memory output sink: the text written so far, and whether
/// everything written has also been flushed. It stands in for the
/// process's standard output wherever the verified core writes.
pub struct MemorySink {
    /// Everything written so far.
    pub data: String,
    /// Whether no write is still buffered.
    pub flushed: bool,
}

impl MemorySink {
    /// An empty sink with nothing pending.
    pub fn new() -> (s: Self)
        ensures
            s.data@ == Seq::<char>::empty(),
            s.flushed,
    {
        MemorySink { data: String::new(), flushed: true }
    }

    /// Appends text to the sink; the text now counts as buffered until
    /// the next flush.
    pub fn write_all(&mut self, text: &str)
        ensures
            final(self).data@ == old(self).data@ + text@,
            !final(self).flushed,
    {
        self.data.append(text);
        self.flushed = false;
    }

    /// Makes everything written so far observable to the peer.
    pub fn flush(&mut self)
        ensures
            final(self).data == old(self).data,
            final(self).flushed,
    {
        self.flushed = true;
    }
}

/// The framed reader: reads one physical line from the source, strips
/// its terminators and validates the body.
///
/// At true end-of-stream (zero characters read) it returns no message —
/// the session-termination signal, not an error. A validation failure is
/// surfaced as an invalid-data classified error so the caller can decide
/// whether to abort or resynchronize.
pub fn read_message(source: &mut MemoryStream) -> (r: Result<Option<String>, StdioError>)
    ensures
        old(source).wf() ==> final(source).wf(),
        final(source).data == old(source).data,
        old(source).pos >= old(source).data@.len() ==> r == Ok::<Option<String>, StdioError>(None)
            && final(source).pos == old(source).pos,
        old(source).pos < old(source).data@.len() ==> final(source).pos == next_line_pos(
            old(source).data@,
            old(source).pos as int,
        ),
        old(source).pos < old(source).data@.len() && valid_message(
            message_at(old(source).data@, old(source).pos as int),
        ) ==> (r matches Ok(om) && om matches Some(msg) && msg@ == message_at(
            old(source).data@,
            old(source).pos as int,
        )),
        old(source).pos < old(source).data@.len() && !valid_message(
            message_at(old(source).data@, old(source).pos as int),
        ) ==> (r matches Err(e) && e == StdioError::from_validation(
            invalidity_of(message_at(old(source).data@, old(source).pos as int)),
        )),
{
    match source.read_line() {
        None => Ok(None),
        Some(line) => match decode_line(line.as_str()) {
            Ok(m) => Ok(Some(m)),
            Err(e) => Err(e),
        },
    }
}

/// The framed writer: validates the message and, on success, writes the
/// body followed by one bare `\n` and flushes the sink before returning.
/// On a validation failure nothing at all is written.
pub fn write_message(sink: &mut MemorySink, message: &str) -> (r: Result<(), StdioError>)
    ensures
        valid_message(message@) ==> r == Ok::<(), StdioError>(()) && final(sink).data@ == old(
            sink,
        ).data@ + framed_line(message@) && final(sink).flushed,
        !valid_message(message@) ==> (r matches Err(e) && e == StdioError::from_validation(
            invalidity_of(message@),
        ) && *final(sink) == *old(sink)),
        r is Ok <==> valid_message(message@),
{
    match encode_line(message) {
        Ok(line) => {
            sink.write_all(line.as_str());
            sink.flush();
            Ok(())
        },
        Err(e) => Err(e),
    }
}

} // verus!
