//! The bounded channel that carries the chunks of one stream.

use bytes::Bytes;
use tokio::sync::mpsc::error::{TryRecvError, TrySendError};
use tokio::sync::mpsc::{Receiver, Sender};
use vstd::prelude::*;

verus! {

/// The buffer type of the `bytes` crate. What a buffer holds is named by [`bytes_seq`].
#[verifier::external_type_specification]
#[verifier::external_body]
pub struct ExBytes(Bytes);

/// The bytes that a buffer holds.
pub uninterp spec fn bytes_seq(b: Bytes) -> Seq<u8>;

/// Calls `Bytes::from` on a vector: the buffer holds the bytes of the vector.
#[verifier::external_body]
pub(crate) fn bytes_from_vec(v: Vec<u8>) -> (r: Bytes)
    ensures
        bytes_seq(r) == v@,
{
    Bytes::from(v)
}

/// Calls `Bytes::len`: how many bytes a buffer holds.
#[verifier::external_body]
pub(crate) fn bytes_len(b: &Bytes) -> (r: usize)
    ensures
        r == bytes_seq(*b).len(),
{
    b.len()
}

/// A piece of a stream.
#[derive(Debug)]
pub enum StreamChunk {
    /// Some bytes.
    Data(Bytes),
    /// The stream has come to its end.
    Done,
    /// The stream has failed.
    Error(String),
}

/// Both ends of a bounded `tokio::sync::mpsc` channel.
///
/// The two ends share the queue of the channel, so what is queued can only be told of both
/// together. That is why one value holds them, and why its contents are opaque: they are named
/// by [`queued`], [`capacity`], [`sending_open`] and [`receiving_open`].
#[verifier::external_body]
pub struct ChunkChannel {
    sender: Option<Sender<StreamChunk>>,
    receiver: Option<Receiver<StreamChunk>>,
}

/// The chunks that were sent and not yet received, oldest first.
pub uninterp spec fn queued(c: ChunkChannel) -> Seq<StreamChunk>;

/// How many chunks the channel holds at most.
pub uninterp spec fn capacity(c: ChunkChannel) -> nat;

/// Whether the sending end still exists.
pub uninterp spec fn sending_open(c: ChunkChannel) -> bool;

/// Whether the receiving end still exists.
pub uninterp spec fn receiving_open(c: ChunkChannel) -> bool;

/// The largest capacity for which a channel can be made.
pub open spec fn max_capacity() -> nat {
    (usize::MAX / 8) as nat
}

/// How an attempt to send ended.
pub enum SendAttempt {
    /// The chunk is queued.
    Sent,
    /// There is no room; here is the chunk again.
    Full(StreamChunk),
    /// The receiving end is gone.
    Closed,
}

/// How an attempt to receive ended.
pub enum ReceiveAttempt {
    /// The oldest chunk.
    Chunk(StreamChunk),
    /// Nothing is queued yet.
    Empty,
    /// Nothing is queued and nothing can come.
    Closed,
}

/// Calls `mpsc::channel`, which panics for a capacity of zero and for one above
/// `Semaphore::MAX_PERMITS`, an eighth of the largest `usize`. The new channel is empty, with
/// both ends.
#[verifier::external_body]
pub(crate) fn channel_new(size: usize) -> (r: ChunkChannel)
    requires
        0 < size <= max_capacity(),
    ensures
        queued(r) == Seq::<StreamChunk>::empty(),
        capacity(r) == size,
        sending_open(r),
        receiving_open(r),
{
    let (sender, receiver) = tokio::sync::mpsc::channel(size);
    ChunkChannel { sender: Some(sender), receiver: Some(receiver) }
}

/// Calls `Sender::try_send`. Without the receiving end the channel is closed; with as many
/// chunks queued as it holds it is full; otherwise the chunk is queued last. The ends are
/// used by nobody else, so no other call comes in between.
#[verifier::external_body]
pub(crate) fn channel_send(c: &mut ChunkChannel, chunk: StreamChunk) -> (r: SendAttempt)
    requires
        sending_open(*old(c)),
    ensures
        r == (if !receiving_open(*old(c)) {
            SendAttempt::Closed
        } else if queued(*old(c)).len() >= capacity(*old(c)) {
            SendAttempt::Full(chunk)
        } else {
            SendAttempt::Sent
        }),
        queued(*final(c)) == (if r is Sent {
            queued(*old(c)).push(chunk)
        } else {
            queued(*old(c))
        }),
        capacity(*final(c)) == capacity(*old(c)),
        sending_open(*final(c)),
        receiving_open(*final(c)) == receiving_open(*old(c)),
{
    match c.sender.as_ref().unwrap().try_send(chunk) {
        Ok(()) => SendAttempt::Sent,
        Err(TrySendError::Full(chunk)) => SendAttempt::Full(chunk),
        Err(TrySendError::Closed(_)) => SendAttempt::Closed,
    }
}

/// Calls `Receiver::try_recv`. The oldest chunk is taken out; where none is queued the channel
/// is empty, or closed once the sending end is gone.
#[verifier::external_body]
pub(crate) fn channel_receive(c: &mut ChunkChannel) -> (r: ReceiveAttempt)
    requires
        receiving_open(*old(c)),
    ensures
        r == (if queued(*old(c)).len() > 0 {
            ReceiveAttempt::Chunk(queued(*old(c))[0])
        } else if sending_open(*old(c)) {
            ReceiveAttempt::Empty
        } else {
            ReceiveAttempt::Closed
        }),
        queued(*final(c)) == (if queued(*old(c)).len() > 0 {
            queued(*old(c)).skip(1)
        } else {
            queued(*old(c))
        }),
        capacity(*final(c)) == capacity(*old(c)),
        sending_open(*final(c)) == sending_open(*old(c)),
        receiving_open(*final(c)),
{
    match c.receiver.as_mut().unwrap().try_recv() {
        Ok(chunk) => ReceiveAttempt::Chunk(chunk),
        Err(TryRecvError::Empty) => ReceiveAttempt::Empty,
        Err(TryRecvError::Disconnected) => ReceiveAttempt::Closed,
    }
}

/// Drops the `Sender`. What is queued can still be received.
#[verifier::external_body]
pub(crate) fn channel_drop_sender(c: &mut ChunkChannel)
    ensures
        queued(*final(c)) == queued(*old(c)),
        capacity(*final(c)) == capacity(*old(c)),
        !sending_open(*final(c)),
        receiving_open(*final(c)) == receiving_open(*old(c)),
{
    c.sender = None;
}

/// Drops the `Receiver`, and with it what is queued.
#[verifier::external_body]
pub(crate) fn channel_drop_receiver(c: &mut ChunkChannel)
    ensures
        queued(*final(c)) == Seq::<StreamChunk>::empty(),
        capacity(*final(c)) == capacity(*old(c)),
        sending_open(*final(c)) == sending_open(*old(c)),
        !receiving_open(*final(c)),
{
    c.receiver = None;
}

} // verus!
