//! The message body: a finite run of byte chunks that may end in a failure.
//!
//! A body comes from a source that yields one thing at a time: a chunk, a
//! failure, or the end. [`Reading`] takes what the source yields and says
//! when the body is complete. This module never waits for a source itself.
use crate::buffer::{
    bytes_len, bytes_slice, finish_gathering, gather, gathered, octets, start_gathering,
};
use bytes::Bytes;
use std::collections::VecDeque;
use vstd::prelude::*;

verus! {

/// A message body.
///
/// A body is read once, front to back: first its chunks, in order, and then
/// either the end or the failure that cut it short. `E` is the kind of
/// failure that whoever produced the body reports.
#[derive(Debug)]
pub struct Body<E> {
    chunks: VecDeque<Bytes>,
    failure: Option<E>,
    size: usize,
}

/// The bytes of each chunk, chunk by chunk.
pub open spec fn chunk_octets(chunks: Seq<Bytes>) -> Seq<Seq<u8>> {
    chunks.map_values(|chunk: Bytes| octets(chunk))
}

/// Whether a body that is `before` yields `yielded` when it is asked for
/// what comes next, and is `after` from then on.
///
/// A body yields its first chunk while it has one. Then it yields the
/// failure it ends in, if it ends in one, and after that it is at its end,
/// where it yields nothing.
pub open spec fn yields<E>(
    before: Body<E>,
    yielded: Option<Result<Bytes, E>>,
    after: Body<E>,
) -> bool {
    if before.chunks().len() > 0 {
        &&& yielded matches Some(Ok(chunk))
        &&& octets(chunk) == before.chunks().first()
        &&& after.chunks() == before.chunks().drop_first()
        &&& after.failure() == before.failure()
    } else {
        &&& yielded == match before.failure() {
            Some(failure) => Some(Err::<Bytes, E>(failure)),
            None => None,
        }
        &&& after.chunks() == Seq::<Seq<u8>>::empty()
        &&& after.failure() is None
    }
}

impl<E> Body<E> {
    /// The chunks of the body, each as the bytes it holds.
    pub closed spec fn chunks(&self) -> Seq<Seq<u8>> {
        chunk_octets(self.chunks@)
    }

    /// The failure that ends the body, if one does.
    pub closed spec fn failure(&self) -> Option<E> {
        self.failure
    }

    /// All the bytes of the body: its chunks, one after the other.
    pub open spec fn payload(&self) -> Seq<u8> {
        self.chunks().flatten()
    }

    #[verifier::type_invariant]
    spec fn sized(&self) -> bool {
        self.size == self.payload().len()
    }

    /// A body without any chunk.
    pub fn empty() -> (body: Self)
        ensures
            body.chunks() == Seq::<Seq<u8>>::empty(),
            body.failure() is None,
    {
        let chunks: VecDeque<Bytes> = VecDeque::new();
        proof {
            assert(chunk_octets(chunks@) =~= Seq::<Seq<u8>>::empty());
        }
        Body { chunks, failure: None, size: 0 }
    }

    /// A body that holds `data` as its only chunk, or no chunk where `data`
    /// is empty.
    pub fn full(data: Bytes) -> (body: Self)
        ensures
            body.chunks() == if octets(data).len() == 0 {
                Seq::<Seq<u8>>::empty()
            } else {
                seq![octets(data)]
            },
            body.payload() == octets(data),
            body.failure() is None,
    {
        let size = bytes_len(&data);
        let mut chunks: VecDeque<Bytes> = VecDeque::new();
        if size > 0 {
            chunks.push_back(data);
        }
        proof {
            let held = chunk_octets(chunks@);
            if size > 0 {
                assert(held =~= seq![octets(data)]);
                held.lemma_flatten_one_element();
            } else {
                assert(held =~= Seq::<Seq<u8>>::empty());
                assert(held.flatten() =~= octets(data));
            }
        }
        Body { chunks, failure: None, size }
    }

    /// The body that has the given chunks and ends as given, unless the
    /// chunks hold more bytes together than one buffer can.
    pub fn from_parts(chunks: Vec<Bytes>, failure: Option<E>) -> (out: Option<Self>)
        ensures
            out is Some <==> chunk_octets(chunks@).flatten().len() <= usize::MAX,
            out is Some ==> out->Some_0.chunks() == chunk_octets(chunks@),
            out is Some ==> out->Some_0.failure() == failure,
    {
        let ghost held = chunk_octets(chunks@);
        let mut size: usize = 0;
        let mut index: usize = 0;
        proof {
            assert(held.take(0) =~= Seq::<Seq<u8>>::empty());
        }
        while index < chunks.len()
            invariant
                index <= chunks.len(),
                held == chunk_octets(chunks@),
                size == held.take(index as int).flatten().len(),
            decreases chunks.len() - index,
        {
            proof {
                lemma_flatten_take_next(held, index as int);
                lemma_flatten_take_len(held, index as int + 1);
            }
            match size.checked_add(bytes_len(&chunks[index])) {
                Some(sum) => {
                    size = sum;
                },
                None => {
                    return None;
                },
            }
            index += 1;
        }
        proof {
            assert(held.take(index as int) =~= held);
        }
        let ghost all = chunks@;
        let mut left = chunks;
        let mut queue: VecDeque<Bytes> = VecDeque::new();
        proof {
            assert(left@ + queue@ =~= all);
        }
        while left.len() > 0
            invariant
                left@ + queue@ == all,
            decreases left.len(),
        {
            let ghost before = left@;
            let ghost queued = queue@;
            let chunk = left.pop().unwrap();
            queue.push_front(chunk);
            proof {
                assert(left@ + queue@ =~= before + queued);
            }
        }
        proof {
            assert(queue@ =~= all);
        }
        Some(Body { chunks: queue, failure, size })
    }

    /// The number of bytes in all the chunks of the body.
    pub fn len(&self) -> (len: usize)
        ensures
            len == self.payload().len(),
    {
        proof {
            use_type_invariant(self);
        }
        self.size
    }

    /// Whether the body ends in a failure.
    pub fn is_broken(&self) -> (broken: bool)
        ensures
            broken == self.failure() is Some,
    {
        self.failure.is_some()
    }

    /// The chunks of the body and the failure it ends in, if it ends in one.
    pub fn into_parts(self) -> (parts: (Vec<Bytes>, Option<E>))
        ensures
            chunk_octets(parts.0@) == self.chunks(),
            parts.1 == self.failure(),
    {
        let Body { chunks, failure, size } = self;
        let ghost all = chunks@;
        let mut queue = chunks;
        let mut taken: Vec<Bytes> = Vec::new();
        proof {
            assert(taken@ + queue@ =~= all);
        }
        while queue.len() > 0
            invariant
                taken@ + queue@ == all,
            decreases queue.len(),
        {
            let ghost before = taken@;
            let ghost queued = queue@;
            let chunk = queue.pop_front().unwrap();
            taken.push(chunk);
            proof {
                assert(taken@ + queue@ =~= before + queued);
            }
        }
        proof {
            assert(taken@ =~= all);
        }
        (taken, failure)
    }

    /// What the body yields next, and the body from then on.
    pub fn next(self) -> (out: (Option<Result<Bytes, E>>, Self))
        ensures
            yields(self, out.0, out.1),
    {
        proof {
            use_type_invariant(&self);
        }
        let Body { chunks, failure, size } = self;
        let ghost held = chunk_octets(chunks@);
        let mut chunks = chunks;
        match chunks.pop_front() {
            Some(chunk) => {
                proof {
                    assert(chunk_octets(chunks@) =~= held.drop_first());
                    assert(held.first() == octets(chunk));
                }
                let rest = Body { chunks, failure, size: size - bytes_len(&chunk) };
                (Some(Ok(chunk)), rest)
            },
            None => {
                proof {
                    assert(chunk_octets(chunks@) =~= Seq::<Seq<u8>>::empty());
                }
                let rest = Body { chunks, failure: None, size };
                match failure {
                    Some(failure) => (Some(Err(failure)), rest),
                    None => (None, rest),
                }
            },
        }
    }

    /// Reads the body to its end and joins its chunks into one buffer.
    ///
    /// A body that ends in a failure yields that failure instead, whatever
    /// chunks came before it.
    pub fn collect(self) -> (out: Result<Bytes, E>)
        ensures
            match self.failure() {
                Some(failure) => out == Err::<Bytes, E>(failure),
                None => out is Ok && octets(out->Ok_0) == self.payload(),
            },
    {
        proof {
            use_type_invariant(&self);
        }
        let Body { chunks, failure, size } = self;
        if let Some(failure) = failure {
            return Err(failure);
        }
        let ghost held = chunk_octets(chunks@);
        let mut buffer = start_gathering();
        let mut index: usize = 0;
        while index < chunks.len()
            invariant
                index <= chunks.len(),
                held == chunk_octets(chunks@),
                held.flatten().len() <= usize::MAX,
                gathered(buffer) == held.take(index as int).flatten(),
            decreases chunks.len() - index,
        {
            proof {
                lemma_flatten_take_next(held, index as int);
                lemma_flatten_take_len(held, index as int + 1);
            }
            gather(&mut buffer, bytes_slice(&chunks[index]));
            index += 1;
        }
        proof {
            assert(held.take(index as int) =~= held);
        }
        Ok(finish_gathering(buffer))
    }
}

/// A body of which only the first chunks have been read so far.
#[derive(Debug)]
pub struct Reading {
    chunks: VecDeque<Bytes>,
    size: usize,
}

/// How the reading of a body goes on.
#[derive(Debug)]
pub enum Progress<E> {
    /// The source is to be asked for more.
    More(Reading),
    /// The body is complete, and the source is not to be asked again.
    Done(Body<E>),
}

/// Whether `out` is how the reading goes on from the chunks read `before`,
/// once the source has yielded `yielded`.
///
/// A chunk is added to those read before, and the source is asked for more,
/// unless the bytes no longer fit into one buffer: then the reading
/// cannot go on. A failure completes the body, which ends in it. The end
/// completes the body.
pub open spec fn proceeds<E>(
    before: Seq<Seq<u8>>,
    yielded: Option<Result<Bytes, E>>,
    out: Option<Progress<E>>,
) -> bool {
    match yielded {
        Some(Ok(chunk)) => if before.flatten().len() + octets(chunk).len() <= usize::MAX {
            out matches Some(Progress::More(reading)) && reading.chunks() == before.push(
                octets(chunk),
            )
        } else {
            out is None
        },
        Some(Err(failure)) => {
            &&& out matches Some(Progress::Done(body))
            &&& body.chunks() == before
            &&& body.failure() == Some(failure)
        },
        None => {
            &&& out matches Some(Progress::Done(body))
            &&& body.chunks() == before
            &&& body.failure() is None
        },
    }
}

impl Reading {
    /// The chunks read so far, each as the bytes it holds.
    pub closed spec fn chunks(&self) -> Seq<Seq<u8>> {
        chunk_octets(self.chunks@)
    }

    #[verifier::type_invariant]
    spec fn sized(&self) -> bool {
        self.size == self.chunks().flatten().len()
    }

    /// The reading of a body of which nothing has been read yet.
    pub fn new() -> (reading: Self)
        ensures
            reading.chunks() == Seq::<Seq<u8>>::empty(),
    {
        let chunks: VecDeque<Bytes> = VecDeque::new();
        proof {
            assert(chunk_octets(chunks@) =~= Seq::<Seq<u8>>::empty());
        }
        Reading { chunks, size: 0 }
    }

    /// Takes what the source has yielded next: a chunk, a failure, or the
    /// end.
    pub fn take<E>(self, yielded: Option<Result<Bytes, E>>) -> (out: Option<Progress<E>>)
        ensures
            proceeds(self.chunks(), yielded, out),
    {
        proof {
            use_type_invariant(&self);
        }
        let Reading { chunks, size } = self;
        match yielded {
            Some(Ok(chunk)) => {
                match size.checked_add(bytes_len(&chunk)) {
                    Some(sum) => {
                        let ghost before = chunk_octets(chunks@);
                        let mut chunks = chunks;
                        chunks.push_back(chunk);
                        proof {
                            assert(chunk_octets(chunks@) =~= before.push(octets(chunk)));
                            before.lemma_flatten_push(octets(chunk));
                        }
                        Some(Progress::More(Reading { chunks, size: sum }))
                    },
                    None => None,
                }
            },
            Some(Err(failure)) => Some(
                Progress::Done(Body { chunks, failure: Some(failure), size }),
            ),
            None => Some(Progress::Done(Body { chunks, failure: None, size })),
        }
    }
}

/// Taking one chunk more adds exactly that chunk to the joined bytes.
pub proof fn lemma_flatten_take_next(chunks: Seq<Seq<u8>>, index: int)
    requires
        0 <= index < chunks.len(),
    ensures
        chunks.take(index + 1).flatten() == chunks.take(index).flatten() + chunks[index],
{
    assert(chunks.take(index + 1) =~= chunks.take(index).push(chunks[index]));
    chunks.take(index).lemma_flatten_push(chunks[index]);
}

/// The first chunks of a body never join to more bytes than all of them.
pub proof fn lemma_flatten_take_len(chunks: Seq<Seq<u8>>, count: int)
    requires
        0 <= count <= chunks.len(),
    ensures
        chunks.take(count).flatten().len() <= chunks.flatten().len(),
    decreases chunks.len() - count,
{
    if count == chunks.len() {
        assert(chunks.take(count) =~= chunks);
    } else {
        lemma_flatten_take_next(chunks, count);
        lemma_flatten_take_len(chunks, count + 1);
    }
}

} // verus!
