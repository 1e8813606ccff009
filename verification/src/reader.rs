//! Chunks out of an asynchronous reader.

use vstd::prelude::*;

use crate::body::{bytes_content, bytes_from_vec};

verus! {

/// The size of a chunk unless another is chosen.
pub const CHUNK_SIZE: usize = 16384;

/// A stream of chunks read from an asynchronous reader.
///
/// This is a small adapter rather than a filesystem abstraction. Whoever drives
/// it lends the reader a [`Self::buffer`] and hands what became of the read to
/// [`Self::read`].
#[derive(Debug)]
pub struct ReaderStream<R> {
    reader: R,
    chunk_size: usize,
    done: bool,
}

/// What a [`ReaderStream`] stands for.
pub ghost struct ReaderView<R> {
    pub reader: R,
    /// The most that a chunk can hold.
    pub chunk_size: usize,
    /// Whether the stream has ended.
    pub done: bool,
}

impl<R> View for ReaderStream<R> {
    type V = ReaderView<R>;

    closed spec fn view(&self) -> ReaderView<R> {
        ReaderView { reader: self.reader, chunk_size: self.chunk_size, done: self.done }
    }
}

impl<R> ReaderView<R> {
    /// A chunk can hold something.
    pub open spec fn wf(self) -> bool {
        self.chunk_size > 0
    }
}

/// What became of a read.
#[derive(Debug)]
pub enum ReadEvent<E> {
    /// Nothing yet.
    Pending,
    /// This many bytes were put into the buffer.
    Read(usize),
    Failed(E),
}

/// What the stream gives.
#[derive(Debug)]
pub enum ReadStep<E> {
    /// Nothing yet.
    Pending,
    Chunk(bytes::Bytes),
    Failed(E),
    /// The stream is over.
    End,
}

/// The part of a buffer that a read has filled.
pub open spec fn filled(buffer: Seq<u8>, read: usize) -> Seq<u8> {
    if read <= buffer.len() {
        buffer.take(read as int)
    } else {
        buffer
    }
}

/// Whether the stream is over after a read: it is at its end, and after an error.
pub open spec fn is_over<E>(event: ReadEvent<E>) -> bool {
    match event {
        ReadEvent::Pending => false,
        ReadEvent::Read(read) => read == 0,
        ReadEvent::Failed(_) => true,
    }
}

impl<R> ReaderStream<R> {
    /// Creates a reader stream with a chunk size of 16 KiB.
    pub fn new(reader: R) -> (stream: Self)
        ensures
            stream@ == (ReaderView { reader, chunk_size: CHUNK_SIZE, done: false }),
            stream@.wf(),
    {
        ReaderStream { reader, chunk_size: CHUNK_SIZE, done: false }
    }

    /// Sets the maximum size of each emitted chunk, which is at least one byte.
    pub fn with_chunk_size(self, chunk_size: usize) -> (stream: Self)
        ensures
            stream@ == (ReaderView {
                chunk_size: if chunk_size == 0 {
                    1
                } else {
                    chunk_size
                },
                ..self@
            }),
            stream@.wf(),
    {
        ReaderStream {
            chunk_size: if chunk_size == 0 {
                1
            } else {
                chunk_size
            },
            ..self
        }
    }

    /// Returns the wrapped reader.
    pub fn into_inner(self) -> (reader: R)
        ensures
            reader == self@.reader,
    {
        self.reader
    }

    /// The wrapped reader, to be read from.
    pub fn reader_mut(&mut self) -> (reader: &mut R)
        ensures
            *reader == old(self)@.reader,
            final(self)@ == (ReaderView { reader: *final(reader), ..old(self)@ }),
    {
        &mut self.reader
    }

    /// A fresh buffer to read into; `None` once the stream is over.
    pub fn buffer(&self) -> (buffer: Option<Vec<u8>>)
        ensures
            buffer is None <==> self@.done,
            buffer matches Some(buffer) ==> buffer@ == Seq::new(
                self@.chunk_size as nat,
                |i: int| 0u8,
            ),
    {
        if self.done {
            return None;
        }
        let buffer: Vec<u8> = vec![0; self.chunk_size];
        assert(buffer@ =~= Seq::new(self@.chunk_size as nat, |i: int| 0u8));
        Some(buffer)
    }

    /// Takes what became of a read into `buffer`.
    pub fn read<E>(&mut self, buffer: Vec<u8>, event: ReadEvent<E>) -> (step: ReadStep<E>)
        ensures
            final(self)@ == (ReaderView {
                done: old(self)@.done || is_over(event),
                ..old(self)@
            }),
            if old(self)@.done {
                step is End
            } else {
                match event {
                    ReadEvent::Pending => step is Pending,
                    ReadEvent::Read(read) => if read == 0 {
                        step is End
                    } else {
                        step matches ReadStep::Chunk(chunk) && bytes_content(chunk) == filled(
                            buffer@,
                            read,
                        )
                    },
                    ReadEvent::Failed(error) => step == ReadStep::Failed(error),
                }
            },
    {
        if self.done {
            return ReadStep::End;
        }
        match event {
            ReadEvent::Pending => ReadStep::Pending,
            ReadEvent::Read(read) => {
                if read == 0 {
                    self.done = true;
                    ReadStep::End
                } else {
                    let mut chunk = buffer;
                    chunk.truncate(read);
                    assert(chunk@ =~= filled(buffer@, read));
                    ReadStep::Chunk(bytes_from_vec(chunk))
                }
            },
            ReadEvent::Failed(error) => {
                self.done = true;
                ReadStep::Failed(error)
            },
        }
    }
}

/// No chunk is empty, and none is larger than the chunk size.
pub proof fn chunks_are_bounded<R>(stream: ReaderView<R>, buffer: Seq<u8>, read: usize)
    requires
        stream.wf(),
        buffer.len() == stream.chunk_size,
        read > 0,
    ensures
        0 < filled(buffer, read).len() <= stream.chunk_size,
{
}

/// What a read has put into the buffer comes out whole and unchanged: as many
/// bytes as were read, each of them at its place. The stream goes on after it, and
/// is over after an empty read or an error.
pub proof fn chunks_hold_all_that_was_read<R, E>(
    stream: &mut ReaderStream<R>,
    buffer: Vec<u8>,
    event: ReadEvent<E>,
    step: ReadStep<E>,
)
    requires
        call_ensures(ReaderStream::<R>::read::<E>, (stream, buffer, event), step),
        !old(stream)@.done,
    ensures
        event matches ReadEvent::Read(read) ==> {
            &&& read == 0 ==> step is End && final(stream)@.done
            &&& 0 < read <= buffer@.len() ==> {
                &&& step matches ReadStep::Chunk(chunk)
                &&& bytes_content(chunk).len() == read
                &&& forall|i: int|
                    0 <= i < read ==> #[trigger] bytes_content(chunk)[i] == buffer@[i]
                &&& !final(stream)@.done
            }
        },
        event is Pending ==> step is Pending && !final(stream)@.done,
        event matches ReadEvent::Failed(error) ==> {
            &&& step == ReadStep::Failed(error)
            &&& final(stream)@.done
        },
        final(stream)@.reader == old(stream)@.reader,
        final(stream)@.chunk_size == old(stream)@.chunk_size,
{
}

/// A stream that is over stays over: it lends no buffer and gives nothing, whatever
/// a late read has brought.
pub proof fn finished_streams_give_nothing<R, E>(
    stream: &mut ReaderStream<R>,
    buffer: Vec<u8>,
    event: ReadEvent<E>,
    step: ReadStep<E>,
    finished: ReaderStream<R>,
    lent: Option<Vec<u8>>,
)
    requires
        call_ensures(ReaderStream::<R>::read::<E>, (stream, buffer, event), step),
        old(stream)@.done,
        call_ensures(ReaderStream::<R>::buffer, (&finished,), lent),
        finished@.done,
    ensures
        step is End,
        final(stream)@ == old(stream)@,
        lent is None,
{
}

/// A stream that is not over lends a buffer of zeros of the size that was chosen,
/// and of at least one byte.
pub proof fn buffers_have_the_chosen_size<R>(
    before: ReaderStream<R>,
    chunk_size: usize,
    stream: ReaderStream<R>,
    lent: Option<Vec<u8>>,
)
    requires
        call_ensures(ReaderStream::<R>::with_chunk_size, (before, chunk_size), stream),
        !before@.done,
        call_ensures(ReaderStream::<R>::buffer, (&stream,), lent),
    ensures
        lent matches Some(buffer) && buffer@.len() > 0 && (chunk_size > 0 ==> buffer@.len()
            == chunk_size) && forall|i: int| 0 <= i < buffer@.len() ==> #[trigger] buffer@[i] == 0,
        stream@.reader == before@.reader,
{
}

/// A new stream reads from its reader in chunks of 16 KiB, and gives the reader back.
pub proof fn streams_begin_with_their_reader<R>(
    reader: R,
    stream: ReaderStream<R>,
    lent: Option<Vec<u8>>,
    returned: R,
)
    requires
        call_ensures(ReaderStream::<R>::new, (reader,), stream),
        call_ensures(ReaderStream::<R>::buffer, (&stream,), lent),
        call_ensures(ReaderStream::<R>::into_inner, (stream,), returned),
    ensures
        lent matches Some(buffer) && buffer@.len() == 16384,
        returned == reader,
{
}

} // verus!
