//! Where a request's bytes come from: a file or standard input, which the
//! caller reads, text held in memory, or two sources one after the other.

use crate::report::{error, error_exit, Exit};
use crate::text::{join, joined, texts};
use vstd::prelude::*;
use vstd::slice::*;
use vstd::string::*;
use vstd::utf8::*;

verus! {

/// A stream that the caller holds and reads on the library's behalf.
#[derive(Debug, Clone, Copy, PartialEq, Eq)]
pub enum Stream {
    File,
    Stdin,
}

/// One stretch of what a source still has to give: bytes held in memory, never
/// none, or a stream of the caller's, up to its end.
pub enum Segment {
    Memory(Seq<u8>),
    Outside(Stream),
}

/// Text held in memory, read as its UTF-8 bytes from a position on.
#[derive(Debug, Clone, PartialEq, Eq)]
pub struct TextCursor {
    text: String,
    pos: usize,
}

impl TextCursor {
    /// The bytes not yet read.
    pub closed spec fn pending(self) -> Seq<u8> {
        if self.pos <= encode_utf8(self.text@).len() {
            encode_utf8(self.text@).skip(self.pos as int)
        } else {
            Seq::empty()
        }
    }

    /// A cursor at the start of `text`.
    pub fn new(text: String) -> (cursor: TextCursor)
        ensures
            cursor.pending() == encode_utf8(text@),
    {
        TextCursor { text, pos: 0 }
    }

    /// Whether every byte has been read.
    pub fn spent(&self) -> (spent: bool)
        ensures
            spent == (self.pending().len() == 0),
    {
        self.pos >= self.text.as_str().as_bytes().len()
    }

    /// Takes the next bytes, `limit` of them at most.
    pub fn read(&mut self, limit: usize) -> (out: Vec<u8>)
        ensures
            out@ == old(self).pending().take(taken(old(self).pending(), limit as nat)),
            final(self).pending() == old(self).pending().skip(
                taken(old(self).pending(), limit as nat),
            ),
    {
        let bytes = self.text.as_str().as_bytes();
        let len = bytes.len();
        let start = if self.pos <= len {
            self.pos
        } else {
            len
        };
        let rest = len - start;
        let n = if limit < rest {
            limit
        } else {
            rest
        };
        let out = slice_to_vec(slice_subrange(bytes, start, start + n));
        self.pos = start + n;
        proof {
            let all = encode_utf8(self.text@);
            assert(old(self).pending() =~= all.skip(start as int));
            assert(out@ =~= all.skip(start as int).take(n as int));
            assert(self.pending() =~= all.skip(start as int).skip(n as int));
        }
        out
    }
}

/// How many of `bytes` one read of at most `limit` takes.
pub open spec fn taken(bytes: Seq<u8>, limit: nat) -> int {
    if limit < bytes.len() {
        limit as int
    } else {
        bytes.len() as int
    }
}

/// All possible sources of a request's bytes. The flag of a stream says that
/// the stream has reached its end.
#[derive(Debug, PartialEq, Eq)]
pub enum Input {
    FileIn(bool),
    StdinIn(bool),
    TextIn(TextCursor),
    Copy(Box<Input>, Box<Input>),
}

/// What one read gives.
#[derive(Debug, Clone, PartialEq, Eq)]
pub enum Chunk {
    /// The next bytes.
    Bytes(Vec<u8>),
    /// The next bytes are in this stream: the caller reads it, and calls
    /// `end_of_stream` once a read of it gives no byte.
    Outside(Stream),
    /// Nothing is left.
    End,
}

/// A `Chunk` as plain values.
pub enum ChunkView {
    Bytes(Seq<u8>),
    Outside(Stream),
    End,
}

impl View for Chunk {
    type V = ChunkView;

    open spec fn view(&self) -> ChunkView {
        match self {
            Chunk::Bytes(bytes) => ChunkView::Bytes(bytes@),
            Chunk::Outside(stream) => ChunkView::Outside(*stream),
            Chunk::End => ChunkView::End,
        }
    }
}

/// What a read of at most `limit` bytes gives of these segments.
pub open spec fn next_chunk(segments: Seq<Segment>, limit: nat) -> ChunkView {
    if segments.len() == 0 {
        ChunkView::End
    } else {
        match segments[0] {
            Segment::Memory(bytes) => ChunkView::Bytes(bytes.take(taken(bytes, limit))),
            Segment::Outside(stream) => ChunkView::Outside(stream),
        }
    }
}

/// What is left of these segments after a read of at most `limit` bytes.
pub open spec fn after_read(segments: Seq<Segment>, limit: nat) -> Seq<Segment> {
    if segments.len() == 0 {
        segments
    } else {
        match segments[0] {
            Segment::Memory(bytes) => if limit < bytes.len() {
                seq![Segment::Memory(bytes.skip(limit as int))] + segments.skip(1)
            } else {
                segments.skip(1)
            },
            Segment::Outside(_) => segments,
        }
    }
}

/// What is left of these segments once the stream they begin with has ended.
pub open spec fn after_end_of_stream(segments: Seq<Segment>) -> Seq<Segment> {
    if segments.len() > 0 && segments[0] is Outside {
        segments.skip(1)
    } else {
        segments
    }
}

impl View for Input {
    type V = Seq<Segment>;

    /// What the source still has to give, in the order in which it gives it.
    open spec fn view(&self) -> Seq<Segment> {
        self.segments()
    }
}

/// The segments of text held in memory: one, unless the text is empty.
pub open spec fn memory(bytes: Seq<u8>) -> Seq<Segment> {
    if bytes.len() == 0 {
        Seq::empty()
    } else {
        seq![Segment::Memory(bytes)]
    }
}

impl Input {
    /// What the source still has to give, in the order in which it gives it:
    /// a stream until it has ended, text while bytes of it are unread, and of
    /// two sources all of the first before any of the second.
    pub open spec fn segments(self) -> Seq<Segment>
        decreases self,
    {
        match self {
            Input::FileIn(ended) => if ended {
                Seq::empty()
            } else {
                seq![Segment::Outside(Stream::File)]
            },
            Input::StdinIn(ended) => if ended {
                Seq::empty()
            } else {
                seq![Segment::Outside(Stream::Stdin)]
            },
            Input::TextIn(cursor) => if cursor.pending().len() == 0 {
                Seq::empty()
            } else {
                seq![Segment::Memory(cursor.pending())]
            },
            Input::Copy(first, second) => first.segments() + second.segments(),
        }
    }

    /// A source that gives the UTF-8 bytes of `text`.
    pub fn text(text: String) -> (input: Input)
        ensures
            input@ == memory(encode_utf8(text@)),
    {
        Input::TextIn(TextCursor::new(text))
    }

    /// A source that gives all of `first`, then all of `second`.
    pub fn chain(first: Input, second: Input) -> (input: Input)
        ensures
            input@ == first@ + second@,
    {
        Input::Copy(Box::new(first), Box::new(second))
    }

    /// Whether nothing is left.
    pub fn spent(&self) -> (spent: bool)
        ensures
            spent == (self@.len() == 0),
        decreases self,
    {
        match self {
            Input::FileIn(ended) => *ended,
            Input::StdinIn(ended) => *ended,
            Input::TextIn(cursor) => cursor.spent(),
            Input::Copy(first, second) => first.spent() && second.spent(),
        }
    }

    /// Produces the next chunk: bytes from memory, `limit` of them at most, or
    /// the stream that the caller is to read, or the end.
    pub fn read(&mut self, limit: usize) -> (chunk: Chunk)
        ensures
            chunk@ == next_chunk(old(self)@, limit as nat),
            final(self)@ == after_read(old(self)@, limit as nat),
        decreases *old(self),
    {
        match self {
            Input::FileIn(ended) => if *ended {
                Chunk::End
            } else {
                Chunk::Outside(Stream::File)
            },
            Input::StdinIn(ended) => if *ended {
                Chunk::End
            } else {
                Chunk::Outside(Stream::Stdin)
            },
            Input::TextIn(cursor) => if cursor.spent() {
                Chunk::End
            } else {
                let bytes = cursor.read(limit);
                proof {
                    let before = old(self)@;
                    assert(seq![Segment::Memory(cursor.pending())] + before.skip(1)
                        =~= seq![Segment::Memory(cursor.pending())]);
                    assert(before.skip(1) =~= Seq::<Segment>::empty());
                }
                Chunk::Bytes(bytes)
            },
            Input::Copy(first, second) => if first.spent() {
                let ghost head = first.segments();
                let ghost tail = second.segments();
                let chunk = second.read(limit);
                proof {
                    assert(head + tail =~= tail);
                    assert(head + second.segments() =~= second.segments());
                }
                chunk
            } else {
                let ghost head = first.segments();
                let ghost tail = second.segments();
                let chunk = first.read(limit);
                proof {
                    assert((head + tail)[0] == head[0]);
                    assert((head + tail).skip(1) =~= head.skip(1) + tail);
                    assert(after_read(head, limit as nat) + tail =~= after_read(
                        head + tail,
                        limit as nat,
                    ));
                }
                chunk
            },
        }
    }

    /// Records that the stream which `read` named has ended. Where no stream
    /// is next, nothing changes.
    pub fn end_of_stream(&mut self)
        ensures
            final(self)@ == after_end_of_stream(old(self)@),
        decreases *old(self),
    {
        match self {
            Input::FileIn(ended) => {
                *ended = true;
            },
            Input::StdinIn(ended) => {
                *ended = true;
            },
            Input::TextIn(_) => {},
            Input::Copy(first, second) => if first.spent() {
                let ghost head = first.segments();
                let ghost tail = second.segments();
                second.end_of_stream();
                proof {
                    assert(head + tail =~= tail);
                    assert(head + second.segments() =~= second.segments());
                }
            } else {
                let ghost head = first.segments();
                let ghost tail = second.segments();
                first.end_of_stream();
                proof {
                    assert((head + tail)[0] == head[0]);
                    assert((head + tail).skip(1) =~= head.skip(1) + tail);
                    assert(after_end_of_stream(head) + tail =~= after_end_of_stream(head + tail));
                }
            },
        }
    }
}

/// How much is left to read: one for each segment, and one for each byte in
/// memory.
pub open spec fn weight(input: Seq<Segment>) -> nat
    decreases input.len(),
{
    if input.len() == 0 {
        0
    } else {
        weight(input.skip(1)) + 1 + match input[0] {
            Segment::Memory(bytes) => bytes.len(),
            Segment::Outside(_) => 0,
        }
    }
}

/// A read that takes bytes from memory leaves less to read.
pub proof fn lemma_read_lightens(input: Seq<Segment>, limit: nat)
    requires
        input.len() > 0,
        input[0] is Memory,
        limit > 0,
    ensures
        weight(after_read(input, limit)) < weight(input),
{
    let left = after_read(input, limit);
    if left.len() == input.len() {
        assert(left.skip(1) =~= input.skip(1));
    }
}

/// The bytes that reading a source to its end gives, where `reads` is what the
/// reads of its streams give, one after the other: of bytes in memory all and
/// in order; of a stream each read up to the first that gives no byte, which
/// is its end. Where `reads` runs out before a stream has ended, the bytes up
/// to there.
pub open spec fn yielded(input: Seq<Segment>, reads: Seq<Seq<u8>>) -> Seq<u8>
    decreases input.len(), reads.len(),
{
    if input.len() == 0 {
        Seq::empty()
    } else {
        match input[0] {
            Segment::Memory(bytes) => bytes + yielded(input.skip(1), reads),
            Segment::Outside(_) => if reads.len() == 0 {
                Seq::empty()
            } else if reads[0].len() == 0 {
                yielded(input.skip(1), reads.skip(1))
            } else {
                reads[0] + yielded(input, reads.skip(1))
            },
        }
    }
}

/// The reads that are left over once a source has been read to its end, or
/// none where `reads` runs out first.
pub open spec fn unread(input: Seq<Segment>, reads: Seq<Seq<u8>>) -> Option<Seq<Seq<u8>>>
    decreases input.len(), reads.len(),
{
    if input.len() == 0 {
        Some(reads)
    } else {
        match input[0] {
            Segment::Memory(_) => unread(input.skip(1), reads),
            Segment::Outside(_) => if reads.len() == 0 {
                None
            } else if reads[0].len() == 0 {
                unread(input.skip(1), reads.skip(1))
            } else {
                unread(input, reads.skip(1))
            },
        }
    }
}

/// Text in memory gives its bytes, whole and in order, whatever the streams
/// give.
pub proof fn lemma_memory_yields_its_bytes(bytes: Seq<u8>, reads: Seq<Seq<u8>>)
    ensures
        yielded(memory(bytes), reads) == bytes,
        unread(memory(bytes), reads) == Some(reads),
{
    reveal_with_fuel(yielded, 2);
    reveal_with_fuel(unread, 2);
    if bytes.len() > 0 {
        assert(memory(bytes).skip(1) =~= Seq::<Segment>::empty());
        assert(bytes + Seq::<u8>::empty() =~= bytes);
    }
}

/// Two sources one after the other give all that the first gives, then all
/// that the second gives of the reads that the first has left: nothing is
/// lost, doubled or out of order. Where the reads run out within the first,
/// what the first gave is all.
pub proof fn lemma_chain_yields_both(
    first: Seq<Segment>,
    second: Seq<Segment>,
    reads: Seq<Seq<u8>>,
)
    ensures
        yielded(first + second, reads) == yielded(first, reads) + match unread(first, reads) {
            Some(left) => yielded(second, left),
            None => Seq::empty(),
        },
        unread(first + second, reads) == match unread(first, reads) {
            Some(left) => unread(second, left),
            None => None,
        },
    decreases first.len(), reads.len(),
{
    let both = first + second;
    if first.len() == 0 {
        assert(both =~= second);
        assert(Seq::<u8>::empty() + yielded(second, reads) =~= yielded(second, reads));
    } else {
        assert(both[0] == first[0]);
        assert(both.skip(1) =~= first.skip(1) + second);
        match first[0] {
            Segment::Memory(bytes) => {
                lemma_chain_yields_both(first.skip(1), second, reads);
                let rest = match unread(first, reads) {
                    Some(left) => yielded(second, left),
                    None => Seq::empty(),
                };
                assert(bytes + (yielded(first.skip(1), reads) + rest) =~= (bytes + yielded(
                    first.skip(1),
                    reads,
                )) + rest);
            },
            Segment::Outside(_) => {
                if reads.len() == 0 {
                    assert(Seq::<u8>::empty() + Seq::<u8>::empty() =~= Seq::<u8>::empty());
                } else if reads[0].len() == 0 {
                    lemma_chain_yields_both(first.skip(1), second, reads.skip(1));
                } else {
                    lemma_chain_yields_both(first, second, reads.skip(1));
                    let rest = match unread(first, reads) {
                        Some(left) => yielded(second, left),
                        None => Seq::empty(),
                    };
                    assert(reads[0] + (yielded(first, reads.skip(1)) + rest) =~= (reads[0]
                        + yielded(first, reads.skip(1))) + rest);
                }
            },
        }
    }
}

/// The source for a file that the caller has tried to open: the file where
/// that went well, else the fatal error that names the cause.
pub fn file_input(opened: Result<(), String>) -> (input: Result<Input, Exit>)
    ensures
        match opened {
            Ok(_) => input matches Ok(file) && file@ == seq![Segment::Outside(Stream::File)],
            Err(cause) => input matches Err(exit) && exit@ == error_exit(
                "unable to read file: "@ + cause@,
            ),
        },
{
    match opened {
        Ok(_) => Ok(Input::FileIn(false)),
        Err(cause) => {
            let mut message = String::from_str("unable to read file: ");
            message.append(cause.as_str());
            Err(error(message.as_str()))
        },
    }
}

/// The message that carries `args`, joined by single spaces.
pub fn create_message(args: &[String]) -> (input: Input)
    ensures
        input@ == memory(encode_utf8(joined(texts(args@), " "@))),
{
    Input::text(join(args, " "))
}

/// The message that carries `args`, joined by single spaces, between `prefix`
/// and `suffix`.
pub fn create_wrapped_message(prefix: &str, args: &[String], suffix: &str) -> (input: Input)
    ensures
        input@ == memory(encode_utf8(prefix@ + joined(texts(args@), " "@) + suffix@)),
{
    let mut text = String::from_str(prefix);
    text.append(join(args, " ").as_str());
    text.append(suffix);
    Input::text(text)
}

} // verus!
