//! An answer that arrives in pieces, as a stream of server-sent events.
//!
//! The stream is text in lines. A line that begins with `data: ` carries a
//! piece of the answer or the mark `[DONE]`; other lines say nothing here.
//! Pieces of the stream arrive cut at any place, so the end of the last
//! piece is kept until its line is complete.

use crate::ai::client::{StreamChunkPayload, StreamDonePayload};
use crate::text::{
    first_index_of, has_prefix, lemma_first_index_of_bounds, split_once, str_eq, strip_prefix,
    texts, trim, trimmed,
};
use vstd::prelude::*;
use vstd::string::StringExecFns;

verus! {

/// What a line of the stream says.
pub enum StreamLine {
    /// Nothing: the line is blank or carries no data.
    Nothing,
    /// The answer is complete.
    Done,
    /// A piece of data.
    Data(Seq<char>),
}

/// What a line says: it is read without surrounding white space; what
/// follows `data: ` is the data, again without surrounding white space, and
/// the data `[DONE]` is the mark of the end.
pub open spec fn read_line(line: Seq<char>) -> StreamLine {
    let content = trimmed(line);
    if content.len() > 0 && has_prefix(content, "data: "@) {
        let data = trimmed(content.subrange("data: "@.len() as int, content.len() as int));
        if data == "[DONE]"@ {
            StreamLine::Done
        } else {
            StreamLine::Data(data)
        }
    } else {
        StreamLine::Nothing
    }
}

/// The pieces of data in the complete lines of `buffer`, up to the mark of
/// the end if there is one, and what is left of the buffer behind them.
pub open spec fn drained(buffer: Seq<char>) -> (Seq<Seq<char>>, Seq<char>)
    decreases buffer.len(),
{
    let end = first_index_of(buffer, '\n', 0);
    if 0 <= end < buffer.len() {
        let rest = buffer.subrange(end + 1, buffer.len() as int);
        match read_line(buffer.subrange(0, end)) {
            StreamLine::Done => (seq![], rest),
            StreamLine::Data(data) => (seq![data] + drained(rest).0, drained(rest).1),
            StreamLine::Nothing => drained(rest),
        }
    } else {
        (seq![], buffer)
    }
}

/// What is kept of a stream while it is read.
#[derive(Debug)]
pub struct StreamReader {
    line_buffer: String,
    full_text: String,
}

impl StreamReader {
    /// The end of the stream so far that is no complete line yet.
    pub closed spec fn pending(self) -> Seq<char> {
        self.line_buffer@
    }

    /// The answer so far.
    pub closed spec fn answer(self) -> Seq<char> {
        self.full_text@
    }

    /// A reader that has read nothing.
    pub fn new() -> (reader: Self)
        ensures
            reader.pending() == Seq::<char>::empty(),
            reader.answer() == Seq::<char>::empty(),
    {
        StreamReader { line_buffer: String::new(), full_text: String::new() }
    }

    /// Takes in a piece of the stream and hands out the data of the lines
    /// that are now complete, in order. At the mark of the end the reading
    /// stops; what follows the mark stays pending.
    pub fn take_data_lines(&mut self, chunk: &str) -> (lines: Vec<String>)
        ensures
            texts(lines@) == drained(old(self).pending() + chunk@).0,
            final(self).pending() == drained(old(self).pending() + chunk@).1,
            final(self).answer() == old(self).answer(),
    {
        self.line_buffer.append(chunk);
        let ghost whole = self.line_buffer@;
        let mut lines: Vec<String> = Vec::new();
        loop
            invariant_except_break
                texts(lines@) + drained(self.line_buffer@).0 == drained(whole).0,
                drained(self.line_buffer@).1 == drained(whole).1,
            invariant
                self.full_text@ == old(self).full_text@,
            ensures
                texts(lines@) == drained(whole).0,
                self.line_buffer@ == drained(whole).1,
                self.full_text@ == old(self).full_text@,
            decreases self.line_buffer@.len(),
        {
            let mut data: Option<String> = None;
            let mut done = false;
            let rest: String = match split_once(self.line_buffer.as_str(), '\n') {
                None => {
                    break ;
                },
                Some((head, tail)) => {
                    let line = trim(head);
                    if !line.is_empty() {
                        match strip_prefix(line, "data: ") {
                            Some(payload) => {
                                let payload = trim(payload);
                                if str_eq(payload, "[DONE]") {
                                    done = true;
                                } else {
                                    data = Some(payload.to_owned());
                                }
                            },
                            None => {},
                        }
                    }
                    proof {
                        lemma_first_index_of_bounds(self.line_buffer@, '\n', 0);
                    }
                    tail.to_owned()
                },
            };
            self.line_buffer = rest;
            if done {
                break ;
            }
            match data {
                Some(d) => {
                    lines.push(d);
                },
                None => {},
            }
        }
        lines
    }

    /// Takes in the content that a piece of data holds, if it holds any, and
    /// hands back what to announce under `stream_id`: content that is not
    /// empty, which is also added to the answer.
    pub fn accept_content(&mut self, stream_id: &str, content: Option<&str>) -> (chunk: Option<
        StreamChunkPayload,
    >)
        ensures
            final(self).pending() == old(self).pending(),
            match content {
                Some(c) => if c@.len() > 0 {
                    &&& chunk matches Some(announced) && announced.chunk@ == c@
                        && announced.stream_id@ == stream_id@
                    &&& final(self).answer() == old(self).answer() + c@
                } else {
                    chunk is None && final(self).answer() == old(self).answer()
                },
                None => chunk is None && final(self).answer() == old(self).answer(),
            },
    {
        match content {
            Some(c) => {
                if c.is_empty() {
                    None
                } else {
                    self.full_text.append(c);
                    Some(StreamChunkPayload { stream_id: stream_id.to_owned(), chunk: c.to_owned() })
                }
            },
            None => None,
        }
    }

    /// What is announced when the stream has ended: the whole answer.
    pub fn finish(self, stream_id: String, elapsed_ms: u128) -> (done: StreamDonePayload)
        ensures
            done.stream_id@ == stream_id@,
            done.full_text@ == self.answer(),
            done.elapsed_ms == elapsed_ms,
    {
        StreamDonePayload { stream_id, full_text: self.full_text, elapsed_ms }
    }
}

} // verus!
