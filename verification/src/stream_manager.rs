//! The streams of a worker: who writes to them, who reads from them, and what is on its way.
//!
//! A stream is a bounded channel with a number. A writer that finds the channel full has to
//! wait until a chunk was read; that is how a slow reader slows down a fast writer. Waiting is
//! the caller's part: an operation that cannot finish at once hands back what is needed to try
//! it again.

use std::collections::HashMap;

use vstd::prelude::*;

use crate::chunk_channel::{
    capacity, channel_drop_receiver, channel_drop_sender, channel_new, channel_receive,
    channel_send, max_capacity, queued, receiving_open, sending_open, ChunkChannel,
    ReceiveAttempt, SendAttempt, StreamChunk,
};
use crate::text::{concat3, decimal, decimal_text};

verus! {

broadcast use vstd::std_specs::hash::group_hash_axioms;

/// The number of a stream.
pub type StreamId = u64;

/// How many chunks a stream holds, where nothing else is asked for.
pub const DEFAULT_HIGH_WATER_MARK: usize = 16;

/// Answer to a write whose reader is gone.
pub const CHANNEL_CLOSED: &'static str = "Stream channel closed";

/// Answer to a write that would have to wait.
pub const BUFFER_FULL: &'static str = "Stream buffer full (backpressure)";

/// Answer to a read that nothing can follow.
pub const CLOSED_UNEXPECTEDLY: &'static str = "Stream closed unexpectedly";

/// The channel of a stream and the number of its writers.
pub struct Channel {
    /// Both ends of the channel.
    pub link: ChunkChannel,
    /// The stream itself, while it accepts chunks, and every write that waits for room.
    pub writers: usize,
    /// Whether there is a reader.
    pub reader: bool,
}

/// What there is to know about a channel.
pub struct ChannelView {
    /// The chunks on their way, oldest first.
    pub queue: Seq<StreamChunk>,
    /// How many chunks there is room for.
    pub capacity: nat,
    /// How many writers there are.
    pub writers: nat,
    /// Whether there is a reader.
    pub reader: bool,
}

impl View for Channel {
    type V = ChannelView;

    open spec fn view(&self) -> ChannelView {
        ChannelView {
            queue: queued(self.link),
            capacity: capacity(self.link),
            writers: self.writers as nat,
            reader: self.reader,
        }
    }
}

impl Channel {
    /// The sending end exists as long as there is a writer, the receiving end as long as there
    /// is a reader.
    pub open spec fn wf(self) -> bool {
        &&& sending_open(self.link) == (self.writers > 0)
        &&& receiving_open(self.link) == self.reader
        &&& capacity(self.link) > 0
    }
}

/// Manages the streams of a worker.
pub struct StreamManager {
    /// The channels of the streams that accept chunks.
    pub senders: HashMap<u64, u64>,
    /// The channels of the streams that nobody is reading from at the moment.
    pub receivers: HashMap<u64, u64>,
    /// What the streams were created for.
    pub metadata: HashMap<u64, String>,
    /// The number of the next stream.
    pub next_id: StreamId,
    /// How many chunks a new stream holds.
    pub high_water_mark: usize,
    /// All channels with a writer or a reader.
    pub channels: HashMap<u64, Channel>,
    /// The number of the next channel; never used twice.
    pub next_channel: u64,
}

/// What there is to know about the streams of a worker.
pub struct StreamsView {
    pub senders: Map<u64, u64>,
    pub receivers: Map<u64, u64>,
    pub metadata: Map<u64, Seq<char>>,
    pub next_id: u64,
    pub high_water_mark: usize,
    pub channels: Map<u64, ChannelView>,
    pub next_channel: u64,
}

/// `m` without one writer of channel `k`.
pub open spec fn drop_writer(m: Map<u64, ChannelView>, k: u64) -> Map<u64, ChannelView> {
    if !m.contains_key(k) {
        m
    } else if m[k].writers > 1 {
        m.insert(k, ChannelView { writers: (m[k].writers - 1) as nat, ..m[k] })
    } else if m[k].reader {
        m.insert(k, ChannelView { writers: 0, ..m[k] })
    } else {
        m.remove(k)
    }
}

/// `m` without the reader of channel `k`; what was on its way is lost.
pub open spec fn drop_reader(m: Map<u64, ChannelView>, k: u64) -> Map<u64, ChannelView> {
    if !m.contains_key(k) {
        m
    } else if m[k].writers > 0 {
        m.insert(k, ChannelView { reader: false, queue: Seq::empty(), ..m[k] })
    } else {
        m.remove(k)
    }
}

/// `m` without one writer of channel `s`, where there is one.
pub open spec fn drop_writer_of(m: Map<u64, ChannelView>, s: Option<u64>) -> Map<u64, ChannelView> {
    match s {
        Some(k) => drop_writer(m, k),
        None => m,
    }
}

/// `m` without the reader of channel `s`, where there is one.
pub open spec fn drop_reader_of(m: Map<u64, ChannelView>, s: Option<u64>) -> Map<u64, ChannelView> {
    match s {
        Some(k) => drop_reader(m, k),
        None => m,
    }
}

/// What `m` holds at `k`.
pub open spec fn lookup(m: Map<u64, u64>, k: u64) -> Option<u64> {
    if m.contains_key(k) {
        Some(m[k])
    } else {
        None
    }
}

/// Whether no two keys of `m` share a value.
pub open spec fn one_to_one(m: Map<u64, u64>) -> bool {
    forall|a: u64, b: u64|
        m.contains_key(a) && m.contains_key(b) && a != b ==> #[trigger] m[a] != #[trigger] m[b]
}

/// How a write ended, or that it waits.
pub enum WriteView {
    Sent,
    NotFound,
    Closed,
    Full,
}

/// How a read ended, or that it waits.
pub enum ReadView {
    Chunk(StreamChunk),
    NotFound,
    Closed,
    Empty,
}

impl StreamsView {
    /// Every stream has its channel: one with a writer where it accepts chunks, one with a
    /// reader where it can be read. The next number is above those of all streams that accept
    /// chunks or are known.
    pub open spec fn wf(self) -> bool {
        &&& forall|id: u64| #[trigger] self.senders.contains_key(id) ==> id < self.next_id
        &&& forall|id: u64| #[trigger] self.metadata.contains_key(id) ==> id < self.next_id
        &&& forall|id: u64| #[trigger]
            self.senders.contains_key(id) ==> self.channels.contains_key(self.senders[id])
                && self.channels[self.senders[id]].writers > 0
        &&& forall|id: u64| #[trigger]
            self.receivers.contains_key(id) ==> self.channels.contains_key(self.receivers[id])
                && self.channels[self.receivers[id]].reader
        &&& one_to_one(self.senders)
        &&& one_to_one(self.receivers)
        &&& forall|k: u64| #[trigger]
            self.channels.contains_key(k) ==> k < self.next_channel && (self.channels[k].writers > 0
                || self.channels[k].reader) && self.channels[k].queue.len()
                <= self.channels[k].capacity
    }

    /// A worker without streams.
    pub open spec fn fresh(high_water_mark: usize) -> StreamsView {
        StreamsView {
            senders: Map::empty(),
            receivers: Map::empty(),
            metadata: Map::empty(),
            next_id: 1,
            high_water_mark,
            channels: Map::empty(),
            next_channel: 0,
        }
    }

    /// A new stream for `url` is there, with an empty channel.
    pub open spec fn create(self, url: Seq<char>) -> StreamsView {
        StreamsView {
            senders: self.senders.insert(self.next_id, self.next_channel),
            receivers: self.receivers.insert(self.next_id, self.next_channel),
            metadata: self.metadata.insert(self.next_id, url),
            next_id: (self.next_id + 1) as u64,
            channels: drop_reader_of(
                drop_writer_of(self.channels, lookup(self.senders, self.next_id)),
                lookup(self.receivers, self.next_id),
            ).insert(
                self.next_channel,
                ChannelView {
                    queue: Seq::empty(),
                    capacity: self.high_water_mark as nat,
                    writers: 1,
                    reader: true,
                },
            ),
            next_channel: (self.next_channel + 1) as u64,
            ..self
        }
    }

    /// The channel `k` after `chunk` was handed to it.
    pub open spec fn send(self, k: u64, chunk: StreamChunk) -> StreamsView {
        StreamsView {
            channels: self.channels.insert(
                k,
                ChannelView { queue: self.channels[k].queue.push(chunk), ..self.channels[k] },
            ),
            ..self
        }
    }

    /// The stream `id` accepts no more chunks.
    pub open spec fn drop_sender(self, id: u64) -> StreamsView {
        StreamsView {
            senders: self.senders.remove(id),
            channels: drop_writer_of(self.channels, lookup(self.senders, id)),
            ..self
        }
    }

    /// Writing `chunk` to the stream `id`, and how it ends. The chunk is queued last; a stream
    /// whose reader is gone stops accepting chunks; a full one is left as it is.
    pub open spec fn write(self, id: u64, chunk: StreamChunk) -> (StreamsView, WriteView) {
        match lookup(self.senders, id) {
            None => (self, WriteView::NotFound),
            Some(k) => if !self.channels[k].reader {
                (self.drop_sender(id), WriteView::Closed)
            } else if self.channels[k].queue.len() >= self.channels[k].capacity {
                (self, WriteView::Full)
            } else {
                (self.send(k, chunk), WriteView::Sent)
            },
        }
    }

    /// Nobody can read the stream `id` for now; its channel stays.
    pub open spec fn take(self, id: u64) -> StreamsView {
        StreamsView { receivers: self.receivers.remove(id), ..self }
    }

    /// What the reader of channel `k` gets.
    pub open spec fn receive(self, k: u64) -> (StreamsView, ReadView) {
        let c = self.channels[k];
        if c.queue.len() > 0 {
            (
                StreamsView {
                    channels: self.channels.insert(k, ChannelView { queue: c.queue.skip(1), ..c }),
                    ..self
                },
                ReadView::Chunk(c.queue[0]),
            )
        } else if c.writers > 0 {
            (self, ReadView::Empty)
        } else {
            (self, ReadView::Closed)
        }
    }

    /// Reading from channel `k` on behalf of the stream `id`, which nobody can read meanwhile,
    /// and how it ends. After data the stream can be read again; after anything else its
    /// reader is gone.
    pub open spec fn read_from(self, id: u64, k: u64) -> (StreamsView, ReadView) {
        let (after, got) = self.receive(k);
        match got {
            ReadView::Chunk(StreamChunk::Data(_)) => (
                StreamsView {
                    receivers: after.receivers.insert(id, k),
                    channels: drop_reader_of(after.channels, lookup(after.receivers, id)),
                    ..after
                },
                got,
            ),
            ReadView::Empty => (after, got),
            _ => (StreamsView { channels: drop_reader(after.channels, k), ..after }, got),
        }
    }

    /// Reading from the stream `id`, and how it ends. While the stream is empty the read waits
    /// and nobody else can read.
    pub open spec fn read(self, id: u64) -> (StreamsView, ReadView) {
        match lookup(self.receivers, id) {
            None => (self, ReadView::NotFound),
            Some(k) => self.take(id).read_from(id, k),
        }
    }

    /// The stream `id` is gone.
    pub open spec fn close(self, id: u64) -> StreamsView {
        StreamsView {
            senders: self.senders.remove(id),
            receivers: self.receivers.remove(id),
            metadata: self.metadata.remove(id),
            channels: drop_reader_of(
                drop_writer_of(self.channels, lookup(self.senders, id)),
                lookup(self.receivers, id),
            ),
            ..self
        }
    }
}

impl View for StreamManager {
    type V = StreamsView;

    open spec fn view(&self) -> StreamsView {
        StreamsView {
            senders: self.senders@,
            receivers: self.receivers@,
            metadata: self.metadata@.map_values(|s: String| s@),
            next_id: self.next_id,
            high_water_mark: self.high_water_mark,
            channels: self.channels@.map_values(|c: Channel| c@),
            next_channel: self.next_channel,
        }
    }
}

impl StreamManager {
    /// The invariant of the manager.
    pub open spec fn wf(self) -> bool {
        &&& self@.wf()
        &&& forall|k: u64| #[trigger] self.channels@.contains_key(k) ==> self.channels@[k].wf()
    }

    /// A manager without streams, whose streams hold as many chunks as is usual.
    pub fn new() -> (r: Self)
        ensures
            r.wf(),
            r@ == StreamsView::fresh(DEFAULT_HIGH_WATER_MARK),
    {
        StreamManager::with_high_water_mark(DEFAULT_HIGH_WATER_MARK)
    }

    /// A manager without streams, whose streams hold `high_water_mark` chunks.
    pub fn with_high_water_mark(high_water_mark: usize) -> (r: Self)
        ensures
            r.wf(),
            r@ == StreamsView::fresh(high_water_mark),
    {
        let r = StreamManager {
            senders: HashMap::new(),
            receivers: HashMap::new(),
            metadata: HashMap::new(),
            next_id: 1,
            high_water_mark,
            channels: HashMap::new(),
            next_channel: 0,
        };
        assert(r@.metadata =~= Map::empty());
        assert(r@.channels =~= Map::empty());
        r
    }

    /// One writer of channel `k` is gone.
    fn release_writer(&mut self, k: u64)
        requires
            forall|j: u64| #[trigger]
                old(self).channels@.contains_key(j) ==> old(self).channels@[j].wf(),
        ensures
            forall|j: u64| #[trigger]
                final(self).channels@.contains_key(j) ==> final(self).channels@[j].wf(),
            final(self)@ == (StreamsView {
                channels: drop_writer(old(self)@.channels, k),
                ..old(self)@
            }),
    {
        if let Some(mut c) = self.channels.remove(&k) {
            if c.writers > 1 {
                c.writers = c.writers - 1;
                self.channels.insert(k, c);
            } else {
                c.writers = 0;
                channel_drop_sender(&mut c.link);
                if c.reader {
                    self.channels.insert(k, c);
                }
            }
        }
        assert(self@.channels =~= drop_writer(old(self)@.channels, k));
    }

    /// The reader of channel `k` is gone.
    fn release_reader(&mut self, k: u64)
        requires
            forall|j: u64| #[trigger]
                old(self).channels@.contains_key(j) ==> old(self).channels@[j].wf(),
        ensures
            forall|j: u64| #[trigger]
                final(self).channels@.contains_key(j) ==> final(self).channels@[j].wf(),
            final(self)@ == (StreamsView {
                channels: drop_reader(old(self)@.channels, k),
                ..old(self)@
            }),
    {
        if let Some(mut c) = self.channels.remove(&k) {
            c.reader = false;
            channel_drop_receiver(&mut c.link);
            if c.writers > 0 {
                self.channels.insert(k, c);
            }
        }
        assert(self@.channels =~= drop_reader(old(self)@.channels, k));
    }

    /// Creates a stream and returns its number.
    pub fn create_stream(&mut self, url: String) -> (id: StreamId)
        requires
            old(self).wf(),
            0 < old(self).high_water_mark <= max_capacity(),
            old(self).next_id < u64::MAX,
            old(self).next_channel < u64::MAX,
        ensures
            final(self).wf(),
            id == old(self).next_id,
            final(self)@ == old(self)@.create(url@),
    {
        let link = channel_new(self.high_water_mark);
        let id: u64 = self.next_id;
        let k: u64 = self.next_channel;
        self.next_id = self.next_id + 1;
        self.next_channel = self.next_channel + 1;
        if let Some(gone) = self.senders.insert(id, k) {
            self.release_writer(gone);
        }
        if let Some(gone) = self.receivers.insert(id, k) {
            self.release_reader(gone);
        }
        let ghost before = self@.metadata;
        let _gone = self.metadata.insert(id, url);
        assert(self@.metadata =~= before.insert(id, url@));
        let ghost before = self@.channels;
        let _none = self.channels.insert(k, Channel { link, writers: 1, reader: true });
        proof {
            let c = self.channels@[k];
            assert(self@.channels =~= before.insert(k, c@));
            create_keeps_wf(old(self)@, url@);
        }
        id
    }
}

/// What the channels of other streams look like after one was dropped.
proof fn create_keeps_wf(s: StreamsView, url: Seq<char>)
    requires
        s.wf(),
        s.next_id < u64::MAX,
        s.next_channel < u64::MAX,
        s.high_water_mark > 0,
    ensures
        s.create(url).wf(),
{
}

impl Default for StreamManager {
    fn default() -> (r: Self)
        ensures
            r.wf(),
            r@ == StreamsView::fresh(DEFAULT_HIGH_WATER_MARK),
    {
        StreamManager::new()
    }
}

/// The message about a stream that is not there.
pub open spec fn not_found_message(id: u64) -> Seq<char> {
    "Stream "@ + decimal(id as nat) + " not found"@
}

/// The message about a stream that is not there to be read.
pub open spec fn not_readable_message(id: u64) -> Seq<char> {
    "Stream "@ + decimal(id as nat) + " not found or already being read"@
}

/// A write that waits for room. It keeps its stream open for the reader.
pub struct WaitingWrite {
    pub stream_id: StreamId,
    pub channel: u64,
    pub chunk: StreamChunk,
}

/// A read that waits for a chunk. It keeps others from reading.
pub struct WaitingRead {
    pub stream_id: StreamId,
    pub channel: u64,
}

/// The reading side of a stream, taken out of the manager.
pub struct StreamReceiver {
    pub channel: u64,
}

/// How a write ended, or how to try it again.
pub enum WriteOutcome {
    Done(Result<(), String>),
    Wait(WaitingWrite),
}

/// How a read ended, or how to try it again.
pub enum ReadOutcome {
    Done(Result<StreamChunk, String>),
    Wait(WaitingRead),
}

impl StreamsView {
    /// Whether channel `k` has a writer besides the stream that it belongs to.
    pub open spec fn write_waits(self, k: u64) -> bool {
        &&& self.channels.contains_key(k)
        &&& self.channels[k].writers > (if self.senders.contains_value(k) {
            1nat
        } else {
            0nat
        })
    }

    /// Whether channel `k` has a reader outside the manager.
    pub open spec fn read_waits(self, k: u64) -> bool {
        &&& self.channels.contains_key(k)
        &&& self.channels[k].reader
        &&& !self.receivers.contains_value(k)
    }

    /// The waiting write of `chunk` to channel `k` tries again, and how it ends.
    pub open spec fn rewrite(self, id: u64, k: u64, chunk: StreamChunk) -> (StreamsView, WriteView) {
        if !self.channels[k].reader {
            (
                StreamsView { channels: drop_writer(self.channels, k), ..self }.drop_sender(id),
                WriteView::Closed,
            )
        } else if self.channels[k].queue.len() >= self.channels[k].capacity {
            (self, WriteView::Full)
        } else {
            let sent = self.send(k, chunk);
            (StreamsView { channels: drop_writer(sent.channels, k), ..sent }, WriteView::Sent)
        }
    }
}

/// What a finished write reports.
pub open spec fn write_reports(r: Result<(), String>, w: WriteView, id: u64) -> bool {
    match w {
        WriteView::Sent => r is Ok,
        WriteView::NotFound => r matches Err(m) && m@ == not_found_message(id),
        WriteView::Closed => r matches Err(m) && m@ == CHANNEL_CLOSED@,
        WriteView::Full => false,
    }
}

/// What a finished read reports.
pub open spec fn read_reports(r: Result<StreamChunk, String>, g: ReadView, id: u64) -> bool {
    match g {
        ReadView::Chunk(c) => r matches Ok(got) && got == c,
        ReadView::NotFound => r matches Err(m) && m@ == not_readable_message(id),
        ReadView::Closed => r matches Err(m) && m@ == CLOSED_UNEXPECTEDLY@,
        ReadView::Empty => false,
    }
}

/// Other streams keep their channels when one stops accepting chunks.
proof fn drop_sender_keeps_wf(s: StreamsView, id: u64)
    requires
        s.wf(),
    ensures
        s.drop_sender(id).wf(),
{
    let t = s.drop_sender(id);
    if s.senders.contains_key(id) {
        assert forall|other: u64| #[trigger] t.senders.contains_key(other) implies t.channels.contains_key(
            t.senders[other],
        ) && t.channels[t.senders[other]].writers > 0 by {
            assert(s.senders.contains_key(other));
            assert(s.senders[other] != s.senders[id]);
        }
        assert forall|other: u64| #[trigger] t.receivers.contains_key(other) implies t.channels.contains_key(
            t.receivers[other],
        ) && t.channels[t.receivers[other]].reader by {
            assert(s.receivers.contains_key(other));
        }
    }
}

impl StreamManager {
    /// Hands `chunk` to channel `k`.
    fn send_on(&mut self, k: u64, chunk: StreamChunk) -> (r: SendAttempt)
        requires
            old(self).wf(),
            old(self).channels@.contains_key(k),
            old(self).channels@[k].writers > 0,
        ensures
            final(self).wf(),
            r == (if !old(self)@.channels[k].reader {
                SendAttempt::Closed
            } else if old(self)@.channels[k].queue.len() >= old(self)@.channels[k].capacity {
                SendAttempt::Full(chunk)
            } else {
                SendAttempt::Sent
            }),
            final(self)@ == (if r is Sent {
                old(self)@.send(k, chunk)
            } else {
                old(self)@
            }),
    {
        match self.channels.remove(&k) {
            Some(mut c) => {
                let r = channel_send(&mut c.link, chunk);
                let ghost cv = c@;
                self.channels.insert(k, c);
                assert(self@.channels =~= old(self)@.channels.insert(k, cv));
                assert(r !is Sent ==> self@.channels =~= old(self)@.channels);
                assert(self@.senders == old(self)@.senders && self@.metadata == old(
                    self,
                )@.metadata);
                r
            },
            None => SendAttempt::Closed,
        }
    }

    /// The stream `id` stops accepting chunks.
    fn remove_sender(&mut self, id: u64)
        requires
            old(self).wf(),
        ensures
            final(self).wf(),
            final(self)@ == old(self)@.drop_sender(id),
    {
        if let Some(k) = self.senders.remove(&id) {
            self.release_writer(k);
        }
        assert(self@.senders =~= old(self)@.senders.remove(id));
        proof {
            drop_sender_keeps_wf(old(self)@, id);
        }
    }

    /// Writes a chunk if there is room; reports an error otherwise.
    pub fn try_write_chunk(&mut self, stream_id: StreamId, chunk: StreamChunk) -> (r: Result<
        (),
        String,
    >)
        requires
            old(self).wf(),
        ensures
            final(self).wf(),
            final(self)@ == old(self)@.write(stream_id, chunk).0,
            match old(self)@.write(stream_id, chunk).1 {
                WriteView::Full => r matches Err(m) && m@ == BUFFER_FULL@,
                w => write_reports(r, w, stream_id),
            },
    {
        let k: u64 = match self.senders.get(&stream_id) {
            Some(k) => *k,
            None => {
                return Err(concat3("Stream ", decimal_text(stream_id).as_str(), " not found"));
            },
        };
        match self.send_on(k, chunk) {
            SendAttempt::Sent => Ok(()),
            SendAttempt::Full(_) => Err(BUFFER_FULL.to_string()),
            SendAttempt::Closed => {
                self.remove_sender(stream_id);
                Err(CHANNEL_CLOSED.to_string())
            },
        }
    }

    /// Writes a chunk, or hands back a write that waits for room.
    pub fn write_chunk(&mut self, stream_id: StreamId, chunk: StreamChunk) -> (r: WriteOutcome)
        requires
            old(self).wf(),
            old(self)@.senders.contains_key(stream_id) ==> old(
                self,
            )@.channels[old(self)@.senders[stream_id]].writers < usize::MAX,
        ensures
            final(self).wf(),
            ({
                let (after, w) = old(self)@.write(stream_id, chunk);
                match r {
                    WriteOutcome::Done(done) => {
                        &&& final(self)@ == after
                        &&& write_reports(done, w, stream_id)
                    },
                    WriteOutcome::Wait(again) => {
                        &&& w is Full
                        &&& again.stream_id == stream_id
                        &&& again.channel == old(self)@.senders[stream_id]
                        &&& again.chunk == chunk
                        &&& final(self)@.write_waits(again.channel)
                        &&& final(self)@ == (StreamsView {
                            channels: after.channels.insert(
                                again.channel,
                                ChannelView {
                                    writers: after.channels[again.channel].writers + 1,
                                    ..after.channels[again.channel]
                                },
                            ),
                            ..after
                        })
                    },
                }
            }),
    {
        let k: u64 = match self.senders.get(&stream_id) {
            Some(k) => *k,
            None => {
                return WriteOutcome::Done(
                    Err(concat3("Stream ", decimal_text(stream_id).as_str(), " not found")),
                );
            },
        };
        match self.send_on(k, chunk) {
            SendAttempt::Sent => WriteOutcome::Done(Ok(())),
            SendAttempt::Full(chunk) => {
                if let Some(mut c) = self.channels.remove(&k) {
                    c.writers = c.writers + 1;
                    let ghost cv = c@;
                    self.channels.insert(k, c);
                    assert(self@.channels =~= old(self)@.channels.insert(k, cv));
                    assert(self@.senders == old(self)@.senders && self@.metadata == old(
                        self,
                    )@.metadata);
                }
                WriteOutcome::Wait(WaitingWrite { stream_id, channel: k, chunk })
            },
            SendAttempt::Closed => {
                self.remove_sender(stream_id);
                WriteOutcome::Done(Err(CHANNEL_CLOSED.to_string()))
            },
        }
    }

    /// Tries a waiting write again.
    pub fn retry_write(&mut self, waiting: WaitingWrite) -> (r: WriteOutcome)
        requires
            old(self).wf(),
            old(self)@.write_waits(waiting.channel),
        ensures
            final(self).wf(),
            ({
                let (after, w) = old(self)@.rewrite(
                    waiting.stream_id,
                    waiting.channel,
                    waiting.chunk,
                );
                &&& final(self)@ == after
                &&& match r {
                    WriteOutcome::Done(done) => write_reports(done, w, waiting.stream_id),
                    WriteOutcome::Wait(again) => w is Full && again == waiting,
                }
            }),
    {
        let id: u64 = waiting.stream_id;
        let k: u64 = waiting.channel;
        match self.send_on(k, waiting.chunk) {
            SendAttempt::Sent => {
                self.release_writer(k);
                WriteOutcome::Done(Ok(()))
            },
            SendAttempt::Full(chunk) => {
                WriteOutcome::Wait(WaitingWrite { stream_id: id, channel: k, chunk })
            },
            SendAttempt::Closed => {
                self.release_writer(k);
                self.remove_sender(id);
                WriteOutcome::Done(Err(CHANNEL_CLOSED.to_string()))
            },
        }
    }
}

/// Whether one of the streams `ids` has channel `k` in `m`.
pub open spec fn among(m: Map<u64, u64>, ids: Set<u64>, k: u64) -> bool {
    exists|id: u64| ids.contains(id) && #[trigger] m.contains_key(id) && m[id] == k
}

/// Channel `k` without the writers of the streams `w` and the readers of the streams `r`.
pub open spec fn released(s: StreamsView, w: Set<u64>, r: Set<u64>, k: u64) -> ChannelView {
    ChannelView {
        writers: if among(s.senders, w, k) {
            (s.channels[k].writers - 1) as nat
        } else {
            s.channels[k].writers
        },
        reader: s.channels[k].reader && !among(s.receivers, r, k),
        queue: if among(s.receivers, r, k) {
            Seq::empty()
        } else {
            s.channels[k].queue
        },
        ..s.channels[k]
    }
}

/// All channels without the writers of the streams `w` and the readers of the streams `r`; a
/// channel with neither is gone.
pub open spec fn all_released(s: StreamsView, w: Set<u64>, r: Set<u64>) -> Map<u64, ChannelView> {
    Map::new(
        |k: u64|
            s.channels.contains_key(k) && (released(s, w, r, k).writers > 0 || released(
                s,
                w,
                r,
                k,
            ).reader),
        |k: u64| released(s, w, r, k),
    )
}

impl StreamsView {
    /// No stream is left; what still waits keeps its channel. Numbers start anew.
    pub open spec fn clear(self) -> StreamsView {
        StreamsView {
            senders: Map::empty(),
            receivers: Map::empty(),
            metadata: Map::empty(),
            next_id: 1,
            channels: all_released(self, self.senders.dom(), self.receivers.dom()),
            ..self
        }
    }
}

impl StreamManager {
    /// Takes the oldest chunk out of channel `k`.
    fn receive_on(&mut self, k: u64) -> (r: ReceiveAttempt)
        requires
            old(self).wf(),
            old(self).channels@.contains_key(k),
            old(self).channels@[k].reader,
        ensures
            final(self).wf(),
            final(self)@ == old(self)@.receive(k).0,
            match old(self)@.receive(k).1 {
                ReadView::Chunk(c) => r == ReceiveAttempt::Chunk(c),
                ReadView::Empty => r is Empty,
                _ => r is Closed,
            },
    {
        match self.channels.remove(&k) {
            Some(mut c) => {
                let r = channel_receive(&mut c.link);
                let ghost cv = c@;
                self.channels.insert(k, c);
                assert(self@.channels =~= old(self)@.channels.insert(k, cv));
                assert(r !is Chunk ==> self@.channels =~= old(self)@.channels);
                r
            },
            None => ReceiveAttempt::Closed,
        }
    }

    /// Reads from channel `k`, which belongs to the stream `id`.
    fn read_on(&mut self, id: StreamId, k: u64) -> (r: ReadOutcome)
        requires
            old(self).wf(),
            old(self)@.read_waits(k),
        ensures
            final(self).wf(),
            ({
                let (after, g) = old(self)@.read_from(id, k);
                &&& final(self)@ == after
                &&& match r {
                    ReadOutcome::Done(done) => read_reports(done, g, id),
                    ReadOutcome::Wait(again) => g is Empty && again.stream_id == id && again.channel
                        == k && final(self)@.read_waits(k),
                }
            }),
    {
        match self.receive_on(k) {
            ReceiveAttempt::Chunk(chunk) => {
                match &chunk {
                    StreamChunk::Data(_) => {
                        let ghost mid = self@;
                        if let Some(gone) = self.receivers.insert(id, k) {
                            self.release_reader(gone);
                        }
                        proof {
                            put_back_keeps_wf(mid, id, k);
                        }
                    },
                    _ => {
                        self.release_reader(k);
                        proof {
                            drop_reader_keeps_wf(old(self)@.receive(k).0, k);
                        }
                    },
                }
                ReadOutcome::Done(Ok(chunk))
            },
            ReceiveAttempt::Empty => ReadOutcome::Wait(WaitingRead { stream_id: id, channel: k }),
            ReceiveAttempt::Closed => {
                self.release_reader(k);
                proof {
                    drop_reader_keeps_wf(old(self)@.receive(k).0, k);
                }
                ReadOutcome::Done(Err(CLOSED_UNEXPECTEDLY.to_string()))
            },
        }
    }

    /// Reads the next chunk, or hands back a read that waits for one.
    pub fn read_chunk(&mut self, stream_id: StreamId) -> (r: ReadOutcome)
        requires
            old(self).wf(),
        ensures
            final(self).wf(),
            ({
                let (after, g) = old(self)@.read(stream_id);
                &&& final(self)@ == after
                &&& match r {
                    ReadOutcome::Done(done) => read_reports(done, g, stream_id),
                    ReadOutcome::Wait(again) => g is Empty && again.stream_id == stream_id
                        && again.channel == old(self)@.receivers[stream_id]
                        && final(self)@.read_waits(again.channel),
                }
            }),
    {
        match self.receivers.remove(&stream_id) {
            Some(k) => {
                proof {
                    take_frees_reader(old(self)@, stream_id);
                }
                self.read_on(stream_id, k)
            },
            None => {
                assert(self@.receivers =~= old(self)@.receivers);
                ReadOutcome::Done(
                    Err(
                        concat3(
                            "Stream ",
                            decimal_text(stream_id).as_str(),
                            " not found or already being read",
                        ),
                    ),
                )
            },
        }
    }

    /// Tries a waiting read again.
    pub fn retry_read(&mut self, waiting: WaitingRead) -> (r: ReadOutcome)
        requires
            old(self).wf(),
            old(self)@.read_waits(waiting.channel),
        ensures
            final(self).wf(),
            ({
                let (after, g) = old(self)@.read_from(waiting.stream_id, waiting.channel);
                &&& final(self)@ == after
                &&& match r {
                    ReadOutcome::Done(done) => read_reports(done, g, waiting.stream_id),
                    ReadOutcome::Wait(again) => g is Empty && again == waiting,
                }
            }),
    {
        self.read_on(waiting.stream_id, waiting.channel)
    }

    /// Takes the reading side out of the manager; the stream still accepts chunks.
    pub fn take_receiver(&mut self, stream_id: StreamId) -> (r: Option<StreamReceiver>)
        requires
            old(self).wf(),
        ensures
            final(self).wf(),
            final(self)@ == old(self)@.take(stream_id),
            match r {
                Some(rx) => lookup(old(self)@.receivers, stream_id) == Some(rx.channel)
                    && final(self)@.read_waits(rx.channel),
                None => !old(self)@.receivers.contains_key(stream_id),
            },
    {
        match self.receivers.remove(&stream_id) {
            Some(k) => {
                proof {
                    take_frees_reader(old(self)@, stream_id);
                }
                Some(StreamReceiver { channel: k })
            },
            None => {
                assert(self@.receivers =~= old(self)@.receivers);
                None
            },
        }
    }

    /// Takes the oldest chunk for a reading side outside the manager.
    pub fn receive(&mut self, receiver: &StreamReceiver) -> (r: ReceiveAttempt)
        requires
            old(self).wf(),
            old(self)@.read_waits(receiver.channel),
        ensures
            final(self).wf(),
            final(self)@ == old(self)@.receive(receiver.channel).0,
            final(self)@.read_waits(receiver.channel),
            match old(self)@.receive(receiver.channel).1 {
                ReadView::Chunk(c) => r == ReceiveAttempt::Chunk(c),
                ReadView::Empty => r is Empty,
                _ => r is Closed,
            },
    {
        self.receive_on(receiver.channel)
    }

    /// A reading side outside the manager is gone.
    pub fn drop_receiver(&mut self, receiver: StreamReceiver)
        requires
            old(self).wf(),
            old(self)@.read_waits(receiver.channel),
        ensures
            final(self).wf(),
            final(self)@ == (StreamsView {
                channels: drop_reader(old(self)@.channels, receiver.channel),
                ..old(self)@
            }),
    {
        self.release_reader(receiver.channel);
        proof {
            drop_reader_keeps_wf(old(self)@, receiver.channel);
        }
    }

    /// Closes a stream and forgets it.
    pub fn close_stream(&mut self, stream_id: StreamId)
        requires
            old(self).wf(),
        ensures
            final(self).wf(),
            final(self)@ == old(self)@.close(stream_id),
    {
        self.remove_sender(stream_id);
        let ghost mid = self@;
        if let Some(k) = self.receivers.remove(&stream_id) {
            self.release_reader(k);
            proof {
                take_frees_reader(mid, stream_id);
                drop_reader_keeps_wf(mid.take(stream_id), k);
            }
        }
        assert(self@.receivers =~= mid.receivers.remove(stream_id));
        let ghost before = self@;
        let _gone = self.metadata.remove(&stream_id);
        assert(self@.metadata =~= before.metadata.remove(stream_id));
    }

    /// What a stream was created for.
    pub fn get_stream_info(&self, stream_id: StreamId) -> (r: Option<String>)
        ensures
            match r {
                Some(url) => self@.metadata.contains_key(stream_id) && self@.metadata[stream_id]
                    == url@,
                None => !self@.metadata.contains_key(stream_id),
            },
    {
        match self.metadata.get(&stream_id) {
            Some(url) => Some(url.clone()),
            None => None,
        }
    }

    /// How many streams accept chunks.
    pub fn active_count(&self) -> (r: usize)
        ensures
            r == self@.senders.dom().len(),
    {
        self.senders.len()
    }

    /// Whether a stream accepts chunks.
    pub fn has_sender(&self, stream_id: StreamId) -> (r: bool)
        ensures
            r == self@.senders.contains_key(stream_id),
    {
        self.senders.contains_key(&stream_id)
    }
}

/// The channel of a stream that is taken out belongs to no other stream's reader.
proof fn take_frees_reader(s: StreamsView, id: u64)
    requires
        s.wf(),
        s.receivers.contains_key(id),
    ensures
        s.take(id).wf(),
        s.take(id).read_waits(s.receivers[id]),
{
    let k = s.receivers[id];
    let t = s.take(id);
    if t.receivers.contains_value(k) {
        let other = choose|other: u64| t.receivers.contains_key(other) && t.receivers[other] == k;
        assert(s.receivers.contains_key(other) && other != id);
        assert(s.receivers[other] != s.receivers[id]);
    }
}

/// Other streams keep their channels when a reader is gone.
proof fn drop_reader_keeps_wf(s: StreamsView, k: u64)
    requires
        s.wf(),
        s.read_waits(k),
    ensures
        (StreamsView { channels: drop_reader(s.channels, k), ..s }).wf(),
{
    let t = StreamsView { channels: drop_reader(s.channels, k), ..s };
    assert forall|other: u64| #[trigger] t.receivers.contains_key(other) implies t.channels.contains_key(
        t.receivers[other],
    ) && t.channels[t.receivers[other]].reader by {
        assert(s.receivers.contains_key(other));
        assert(s.receivers.contains_value(s.receivers[other]));
    }
    assert forall|other: u64| #[trigger] t.senders.contains_key(other) implies t.channels.contains_key(
        t.senders[other],
    ) && t.channels[t.senders[other]].writers > 0 by {
        assert(s.senders.contains_key(other));
    }
}

/// A reader that comes back replaces whoever took its place.
proof fn put_back_keeps_wf(s: StreamsView, id: u64, k: u64)
    requires
        s.wf(),
        s.read_waits(k),
    ensures
        (StreamsView {
            receivers: s.receivers.insert(id, k),
            channels: drop_reader_of(s.channels, lookup(s.receivers, id)),
            ..s
        }).wf(),
{
    let t = StreamsView {
        receivers: s.receivers.insert(id, k),
        channels: drop_reader_of(s.channels, lookup(s.receivers, id)),
        ..s
    };
    if s.receivers.contains_key(id) {
        assert(s.receivers.contains_value(s.receivers[id]));
    }
    assert forall|other: u64| #[trigger] t.receivers.contains_key(other) implies t.channels.contains_key(
        t.receivers[other],
    ) && t.channels[t.receivers[other]].reader by {
        if other != id {
            assert(s.receivers.contains_key(other));
            if s.receivers.contains_key(id) {
                assert(s.receivers[other] != s.receivers[id]);
            }
        }
    }
    assert forall|a: u64, b: u64|
        t.receivers.contains_key(a) && t.receivers.contains_key(b) && a != b implies
        #[trigger] t.receivers[a] != #[trigger] t.receivers[b] by {
        if a != id && b != id {
            assert(s.receivers[a] != s.receivers[b]);
        } else if a == id {
            assert(s.receivers.contains_value(s.receivers[b]));
        } else {
            assert(s.receivers.contains_value(s.receivers[a]));
        }
    }
    assert forall|other: u64| #[trigger] t.senders.contains_key(other) implies t.channels.contains_key(
        t.senders[other],
    ) && t.channels[t.senders[other]].writers > 0 by {
        assert(s.senders.contains_key(other));
    }
}

/// Releasing one more writer.
proof fn release_one_writer(s: StreamsView, w: Set<u64>, id: u64)
    requires
        s.wf(),
        s.senders.contains_key(id),
        !w.contains(id),
    ensures
        drop_writer(all_released(s, w, Set::empty()), s.senders[id]) == all_released(
            s,
            w.insert(id),
            Set::empty(),
        ),
{
    let none = Set::<u64>::empty();
    let k = s.senders[id];
    let a = all_released(s, w, none);
    let b = all_released(s, w.insert(id), none);
    assert(!among(s.senders, w, k)) by {
        if among(s.senders, w, k) {
            let other = choose|other: u64|
                w.contains(other) && #[trigger] s.senders.contains_key(other) && s.senders[other]
                    == k;
            assert(s.senders[other] != s.senders[id]);
        }
    }
    assert(among(s.senders, w.insert(id), k));
    assert forall|j: u64| j != k implies among(s.senders, w.insert(id), j) == among(
        s.senders,
        w,
        j,
    ) by {
        if among(s.senders, w.insert(id), j) {
            let other = choose|other: u64|
                w.insert(id).contains(other) && #[trigger] s.senders.contains_key(other)
                    && s.senders[other] == j;
            assert(w.contains(other));
        }
        if among(s.senders, w, j) {
            let other = choose|other: u64|
                w.contains(other) && #[trigger] s.senders.contains_key(other) && s.senders[other]
                    == j;
            assert(w.insert(id).contains(other));
        }
    }
    assert forall|j: u64| !among(s.receivers, none, j) by {}
    assert(drop_writer(a, k) =~= b);
}

/// Releasing one more reader.
proof fn release_one_reader(s: StreamsView, w: Set<u64>, r: Set<u64>, id: u64)
    requires
        s.wf(),
        s.receivers.contains_key(id),
        !r.contains(id),
    ensures
        drop_reader(all_released(s, w, r), s.receivers[id]) == all_released(s, w, r.insert(id)),
{
    let k = s.receivers[id];
    let a = all_released(s, w, r);
    let b = all_released(s, w, r.insert(id));
    assert(!among(s.receivers, r, k)) by {
        if among(s.receivers, r, k) {
            let other = choose|other: u64|
                r.contains(other) && #[trigger] s.receivers.contains_key(other)
                    && s.receivers[other] == k;
            assert(s.receivers[other] != s.receivers[id]);
        }
    }
    assert(among(s.receivers, r.insert(id), k));
    assert forall|j: u64| j != k implies among(s.receivers, r.insert(id), j) == among(
        s.receivers,
        r,
        j,
    ) by {
        if among(s.receivers, r.insert(id), j) {
            let other = choose|other: u64|
                r.insert(id).contains(other) && #[trigger] s.receivers.contains_key(other)
                    && s.receivers[other] == j;
            assert(r.contains(other));
        }
        if among(s.receivers, r, j) {
            let other = choose|other: u64|
                r.contains(other) && #[trigger] s.receivers.contains_key(other)
                    && s.receivers[other] == j;
            assert(r.insert(id).contains(other));
        }
    }
    assert(drop_reader(a, k) =~= b);
}

/// The keys of a map, each once.
fn keys_of(m: &HashMap<u64, u64>) -> (r: Vec<u64>)
    ensures
        r@.to_set() == m@.dom(),
        r@.no_duplicates(),
{
    let mut out: Vec<u64> = Vec::new();
    for k in it: m.keys()
        invariant
            it.seq().unref().to_set() == m@.dom(),
            it.seq().unref().no_duplicates(),
            out@ == it.seq().unref().take(it.index() as int),
            it.index() == it.seq().len() ==> out@.to_set() == m@.dom(),
    {
        out.push(*k);
        assert(out@.len() == it.seq().len() ==> out@ =~= it.seq().unref());
    }
    out
}

impl StreamManager {
    /// Closes and forgets all streams.
    pub fn clear(&mut self)
        requires
            old(self).wf(),
        ensures
            final(self).wf(),
            final(self)@ == old(self)@.clear(),
    {
        let writing = keys_of(&self.senders);
        let reading = keys_of(&self.receivers);
        let ghost start = self@;
        let mut i: usize = 0;
        assert(all_released(start, Set::empty(), Set::empty()) =~= start.channels);
        assert(writing@.take(0).to_set() =~= Set::<u64>::empty());
        while i < writing.len()
            invariant
                i <= writing.len(),
                start.wf(),
                self.wf(),
                writing@.no_duplicates(),
                writing@.to_set() == start.senders.dom(),
                self@.receivers == start.receivers,
                self@.metadata == start.metadata,
                self@.high_water_mark == start.high_water_mark,
                self@.next_channel == start.next_channel,
                self@.senders == start.senders.remove_keys(writing@.take(i as int).to_set()),
                self@.channels == all_released(
                    start,
                    writing@.take(i as int).to_set(),
                    Set::empty(),
                ),
            decreases writing.len() - i,
        {
            let id: u64 = writing[i];
            let ghost done = writing@.take(i as int).to_set();
            proof {
                assert(writing@.to_set().contains(id));
                assert(!done.contains(id)) by {
                    if writing@.take(i as int).contains(id) {
                        let j = choose|j: int| 0 <= j < i && writing@.take(i as int)[j] == id;
                        assert(writing@[j] == writing@[i as int]);
                    }
                }
                release_one_writer(start, done, id);
                assert(writing@.take(i + 1) =~= writing@.take(i as int).push(id));
                writing@.take(i as int).lemma_push_to_set_commute(id);
            }
            self.remove_sender(id);
            assert(self@.senders =~= start.senders.remove_keys(done.insert(id)));
            i += 1;
        }
        proof {
            assert(writing@.take(i as int) =~= writing@);
            assert(self@.senders =~= Map::empty());
            assert(reading@.take(0).to_set() =~= Set::<u64>::empty());
        }
        let mut j: usize = 0;
        while j < reading.len()
            invariant
                j <= reading.len(),
                start.wf(),
                self.wf(),
                reading@.no_duplicates(),
                reading@.to_set() == start.receivers.dom(),
                self@.senders == Map::<u64, u64>::empty(),
                self@.metadata == start.metadata,
                self@.high_water_mark == start.high_water_mark,
                self@.next_channel == start.next_channel,
                self@.receivers == start.receivers.remove_keys(reading@.take(j as int).to_set()),
                self@.channels == all_released(
                    start,
                    start.senders.dom(),
                    reading@.take(j as int).to_set(),
                ),
            decreases reading.len() - j,
        {
            let id: u64 = reading[j];
            let ghost done = reading@.take(j as int).to_set();
            let ghost before = self@;
            proof {
                assert(reading@.to_set().contains(id));
                assert(!done.contains(id)) by {
                    if reading@.take(j as int).contains(id) {
                        let n = choose|n: int| 0 <= n < j && reading@.take(j as int)[n] == id;
                        assert(reading@[n] == reading@[j as int]);
                    }
                }
                release_one_reader(start, start.senders.dom(), done, id);
                assert(reading@.take(j + 1) =~= reading@.take(j as int).push(id));
                reading@.take(j as int).lemma_push_to_set_commute(id);
            }
            if let Some(k) = self.receivers.remove(&id) {
                self.release_reader(k);
                proof {
                    take_frees_reader(before, id);
                    drop_reader_keeps_wf(before.take(id), k);
                }
            }
            assert(self@.receivers =~= start.receivers.remove_keys(done.insert(id)));
            j += 1;
        }
        proof {
            assert(reading@.take(j as int) =~= reading@);
            assert(self@.receivers =~= Map::empty());
        }
        self.metadata.clear();
        assert(self@.metadata =~= Map::empty());
        self.next_id = 1;
    }
}

impl StreamsView {
    /// Whether the stream `id` can be written and read.
    pub open spec fn open(self, id: u64) -> bool {
        &&& self.senders.contains_key(id)
        &&& self.receivers.contains_key(id)
        &&& self.senders[id] == self.receivers[id]
    }

    /// The chunks of the stream `id` that are on their way.
    pub open spec fn pending(self, id: u64) -> Seq<StreamChunk> {
        self.channels[self.senders[id]].queue
    }

    /// How many chunks the stream `id` holds.
    pub open spec fn room(self, id: u64) -> nat {
        self.channels[self.senders[id]].capacity
    }

    /// Writing the chunks `cs` one after the other.
    pub open spec fn write_all(self, id: u64, cs: Seq<StreamChunk>) -> StreamsView
        decreases cs.len(),
    {
        if cs.len() == 0 {
            self
        } else {
            self.write_all(id, cs.drop_last()).write(id, cs.last()).0
        }
    }

    /// The streams after `n` reads, and what the reads gave.
    pub open spec fn read_times(self, id: u64, n: nat) -> (StreamsView, Seq<ReadView>)
        decreases n,
    {
        if n == 0 {
            (self, Seq::empty())
        } else {
            let (before, got) = self.read_times(id, (n - 1) as nat);
            (before.read(id).0, got.push(before.read(id).1))
        }
    }

    /// The streams with other chunks on their way in the stream `id`.
    pub open spec fn with_pending(self, id: u64, q: Seq<StreamChunk>) -> StreamsView {
        let k = self.senders[id];
        StreamsView {
            channels: self.channels.insert(k, ChannelView { queue: q, ..self.channels[k] }),
            ..self
        }
    }
}

/// What the writes of `cs` leave on its way.
proof fn writes_append(s: StreamsView, id: u64, cs: Seq<StreamChunk>)
    requires
        s.wf(),
        s.open(id),
        s.pending(id).len() + cs.len() <= s.room(id),
    ensures
        s.write_all(id, cs) == s.with_pending(id, s.pending(id) + cs),
    decreases cs.len(),
{
    let k = s.senders[id];
    if cs.len() == 0 {
        assert(s.pending(id) + cs =~= s.pending(id));
        assert(s.with_pending(id, s.pending(id)).channels =~= s.channels);
    } else {
        let front = cs.drop_last();
        writes_append(s, id, front);
        let t = s.write_all(id, front);
        assert(t.channels[k].queue == s.pending(id) + front);
        assert((s.pending(id) + front).push(cs.last()) =~= s.pending(id) + cs);
        assert(t.send(k, cs.last()).channels =~= s.with_pending(id, s.pending(id) + cs).channels);
    }
}

/// What `n` reads take off its way.
proof fn reads_take(s: StreamsView, id: u64, n: nat)
    requires
        s.wf(),
        s.open(id),
        n <= s.pending(id).len(),
        forall|i: int| 0 <= i < n ==> #[trigger] s.pending(id)[i] is Data,
    ensures
        s.read_times(id, n).0 == s.with_pending(id, s.pending(id).skip(n as int)),
        s.read_times(id, n).1 == s.pending(id).take(n as int).map_values(
            |c: StreamChunk| ReadView::Chunk(c),
        ),
    decreases n,
{
    let k = s.senders[id];
    let f = |c: StreamChunk| ReadView::Chunk(c);
    if n == 0 {
        assert(s.pending(id).skip(0) =~= s.pending(id));
        assert(s.with_pending(id, s.pending(id)).channels =~= s.channels);
        assert(s.pending(id).take(0).map_values(f) =~= Seq::<ReadView>::empty());
    } else {
        let m = (n - 1) as nat;
        reads_take(s, id, m);
        let t = s.read_times(id, m).0;
        assert(t == s.with_pending(id, s.pending(id).skip(m as int)));
        let q = t.channels[k].queue;
        assert(q == s.pending(id).skip(m as int));
        assert(q[0] == s.pending(id)[m as int]);
        assert(q.skip(1) =~= s.pending(id).skip(n as int));
        let u = t.take(id);
        let (after, got) = u.receive(k);
        assert(got == ReadView::Chunk(q[0]));
        assert(after.receivers.insert(id, k) =~= s.receivers);
        assert(lookup(after.receivers, id) is None);
        assert(after.channels =~= s.with_pending(id, s.pending(id).skip(n as int)).channels);
        assert(s.pending(id).take(n as int) =~= s.pending(id).take(m as int).push(q[0]));
        assert(s.pending(id).take(n as int).map_values(f) =~= s.pending(id).take(
            m as int,
        ).map_values(f).push(f(q[0])));
    }
}

/// What was written to an empty stream is read in the order in which it was written, as long
/// as there is room for it; and then the stream is as it was.
pub proof fn reads_give_back_writes(s: StreamsView, id: u64, cs: Seq<StreamChunk>)
    requires
        s.wf(),
        s.open(id),
        s.pending(id).len() == 0,
        cs.len() <= s.room(id),
        forall|i: int| 0 <= i < cs.len() ==> #[trigger] cs[i] is Data,
    ensures
        s.write_all(id, cs).read_times(id, cs.len()).1 == cs.map_values(
            |c: StreamChunk| ReadView::Chunk(c),
        ),
        s.write_all(id, cs).read_times(id, cs.len()).0 == s,
{
    let k = s.senders[id];
    writes_append(s, id, cs);
    let t = s.write_all(id, cs);
    assert(s.pending(id) + cs =~= cs);
    assert(t.pending(id) == cs);
    reads_take(t, id, cs.len());
    assert(cs.take(cs.len() as int) =~= cs);
    assert(cs.skip(cs.len() as int) =~= s.pending(id));
    assert(t.with_pending(id, cs.skip(cs.len() as int)).channels =~= s.channels);
}

/// Something that is done to the streams of a worker.
pub enum StreamOp {
    Create(Seq<char>),
    /// A write that does not wait.
    TryWrite(u64, StreamChunk),
    /// A write that waits where there is no room.
    Write(u64, StreamChunk),
    /// A write to a stream that waits, on its channel.
    RetryWrite(u64, u64, StreamChunk),
    Read(u64),
    /// A read from a stream that waits, on its channel.
    RetryRead(u64, u64),
    /// The reading side of a stream is taken out.
    Take(u64),
    /// A read from a channel whose reading side was taken out.
    Receive(u64),
    /// The reading side of a channel that was taken out is gone.
    DropReceiver(u64),
    Close(u64),
}

impl StreamOp {
    /// Whether this leaves the stream `id`, with its channel `k`, to its writers and its reader:
    /// it is not closed, its reading side is not taken out, and what waits on it is its own.
    pub open spec fn spares(self, id: u64, k: u64) -> bool {
        match self {
            StreamOp::RetryWrite(i, j, _) => (i == id) == (j == k),
            StreamOp::RetryRead(i, j) => (i == id) == (j == k),
            StreamOp::Take(i) => i != id,
            StreamOp::Receive(j) => j != k,
            StreamOp::DropReceiver(j) => j != k,
            StreamOp::Close(i) => i != id,
            _ => true,
        }
    }
}

impl StreamsView {
    /// The streams after something was done to them. What does not wait is not tried again.
    pub open spec fn after(self, op: StreamOp) -> StreamsView {
        match op {
            StreamOp::Create(url) => self.create(url),
            StreamOp::TryWrite(id, chunk) => self.write(id, chunk).0,
            StreamOp::Write(id, chunk) => if self.write(id, chunk).1 is Full {
                let k = self.senders[id];
                StreamsView {
                    channels: self.channels.insert(
                        k,
                        ChannelView {
                            writers: self.channels[k].writers + 1,
                            ..self.channels[k]
                        },
                    ),
                    ..self
                }
            } else {
                self.write(id, chunk).0
            },
            StreamOp::RetryWrite(id, k, chunk) => if self.write_waits(k) {
                self.rewrite(id, k, chunk).0
            } else {
                self
            },
            StreamOp::Read(id) => self.read(id).0,
            StreamOp::RetryRead(id, k) => if self.read_waits(k) {
                self.read_from(id, k).0
            } else {
                self
            },
            StreamOp::Take(id) => self.take(id),
            StreamOp::Receive(k) => if self.read_waits(k) {
                self.receive(k).0
            } else {
                self
            },
            StreamOp::DropReceiver(k) => if self.read_waits(k) {
                StreamsView { channels: drop_reader(self.channels, k), ..self }
            } else {
                self
            },
            StreamOp::Close(id) => self.close(id),
        }
    }

    /// The chunk that the stream `id` accepts.
    pub open spec fn accepts(self, op: StreamOp, id: u64) -> Option<StreamChunk> {
        match op {
            StreamOp::TryWrite(i, chunk) if i == id && self.write(id, chunk).1 is Sent => Some(
                chunk,
            ),
            StreamOp::Write(i, chunk) if i == id && self.write(id, chunk).1 is Sent => Some(chunk),
            StreamOp::RetryWrite(i, k, chunk) if i == id && self.write_waits(k) && self.rewrite(
                id,
                k,
                chunk,
            ).1 is Sent => Some(chunk),
            _ => None,
        }
    }

    /// The chunk that a reader of the stream `id` gets.
    pub open spec fn gives(self, op: StreamOp, id: u64) -> Option<StreamChunk> {
        match op {
            StreamOp::Read(i) if i == id => match self.read(id).1 {
                ReadView::Chunk(c) => Some(c),
                _ => None,
            },
            StreamOp::RetryRead(i, k) if i == id && self.read_waits(k) => match self.read_from(
                id,
                k,
            ).1 {
                ReadView::Chunk(c) => Some(c),
                _ => None,
            },
            _ => None,
        }
    }

    /// The streams after all of `ops`, one after the other.
    pub open spec fn after_all(self, ops: Seq<StreamOp>) -> StreamsView
        decreases ops.len(),
    {
        if ops.len() == 0 {
            self
        } else {
            self.after_all(ops.drop_last()).after(ops.last())
        }
    }

    /// The chunks that the stream `id` accepts during `ops`, in their order.
    pub open spec fn all_accepted(self, ops: Seq<StreamOp>, id: u64) -> Seq<StreamChunk>
        decreases ops.len(),
    {
        if ops.len() == 0 {
            Seq::empty()
        } else {
            let before = self.all_accepted(ops.drop_last(), id);
            match self.after_all(ops.drop_last()).accepts(ops.last(), id) {
                Some(c) => before.push(c),
                None => before,
            }
        }
    }

    /// The chunks that readers of the stream `id` get during `ops`, in their order.
    pub open spec fn all_given(self, ops: Seq<StreamOp>, id: u64) -> Seq<StreamChunk>
        decreases ops.len(),
    {
        if ops.len() == 0 {
            Seq::empty()
        } else {
            let before = self.all_given(ops.drop_last(), id);
            match self.after_all(ops.drop_last()).gives(ops.last(), id) {
                Some(c) => before.push(c),
                None => before,
            }
        }
    }

    /// The numbers of the streams that are created during `ops`, in their order.
    pub open spec fn all_created(self, ops: Seq<StreamOp>) -> Seq<u64>
        decreases ops.len(),
    {
        if ops.len() == 0 {
            Seq::empty()
        } else if ops.last() is Create {
            self.all_created(ops.drop_last()).push(self.after_all(ops.drop_last()).next_id)
        } else {
            self.all_created(ops.drop_last())
        }
    }

    /// Channel `k` belongs to the stream `id` and to no other.
    spec fn owns(self, id: u64, k: u64) -> bool {
        &&& id < self.next_id
        &&& k < self.next_channel
        &&& forall|o: u64| #[trigger]
            self.senders.contains_key(o) ==> (self.senders[o] == k) == (o == id)
        &&& forall|o: u64| #[trigger]
            self.receivers.contains_key(o) ==> (self.receivers[o] == k) == (o == id)
        &&& self.senders.contains_key(id) ==> self.channels.contains_key(k)
            && self.channels[k].writers > 0
    }

    /// The stream `id` accepts chunks, and somebody reads them or will.
    spec fn flows(self, id: u64, k: u64) -> bool {
        &&& self.owns(id, k)
        &&& self.senders.contains_key(id)
        &&& self.channels[k].reader
    }

    /// Nobody reads the stream `id` any more.
    spec fn ended(self, id: u64, k: u64) -> bool {
        &&& self.owns(id, k)
        &&& !self.receivers.contains_key(id)
        &&& self.channels.contains_key(k) ==> !self.channels[k].reader
    }
}

/// Whether the stream `id`, with its channel `k`, is in `t` as it was in `s`.
spec fn same_stream(s: StreamsView, t: StreamsView, id: u64, k: u64) -> bool {
    &&& t.owns(id, k)
    &&& t.senders.contains_key(id) == s.senders.contains_key(id)
    &&& t.receivers.contains_key(id) == s.receivers.contains_key(id)
    &&& t.channels.contains_key(k) == s.channels.contains_key(k)
    &&& s.channels.contains_key(k) ==> t.channels[k] == s.channels[k]
}

/// A stream does not notice that another is created.
proof fn create_spares(s: StreamsView, url: Seq<char>, id: u64, k: u64)
    requires
        s.owns(id, k),
        s.next_id < u64::MAX,
        s.next_channel < u64::MAX,
    ensures
        same_stream(s, s.create(url), id, k),
{
    let t = s.create(url);
    assert forall|o: u64| #[trigger] t.senders.contains_key(o) implies (t.senders[o] == k) == (o
        == id) by {
        if o != s.next_id {
            assert(s.senders.contains_key(o));
        }
    }
    assert forall|o: u64| #[trigger] t.receivers.contains_key(o) implies (t.receivers[o] == k) == (o
        == id) by {
        if o != s.next_id {
            assert(s.receivers.contains_key(o));
        }
    }
}

/// A stream does not notice what another accepts, or no longer accepts.
proof fn write_spares(s: StreamsView, other: u64, j: u64, chunk: StreamChunk, id: u64, k: u64)
    requires
        s.owns(id, k),
        other != id,
        j != k,
    ensures
        same_stream(s, s.write(other, chunk).0, id, k),
        same_stream(s, s.after(StreamOp::Write(other, chunk)), id, k),
        same_stream(s, s.rewrite(other, j, chunk).0, id, k),
{
    if s.senders.contains_key(other) {
        assert(s.senders[other] != k);
    }
    let closed = s.drop_sender(other);
    assert forall|o: u64| #[trigger] closed.senders.contains_key(o) implies (closed.senders[o] == k)
        == (o == id) by {
        assert(s.senders.contains_key(o));
    }
}

/// A stream does not notice who reads another.
proof fn read_spares(s: StreamsView, other: u64, j: u64, id: u64, k: u64)
    requires
        s.owns(id, k),
        other != id,
        j != k,
    ensures
        same_stream(s, s.take(other), id, k),
        same_stream(s, s.receive(j).0, id, k),
        same_stream(s, s.read_from(other, j).0, id, k),
        same_stream(s, (StreamsView { channels: drop_reader(s.channels, j), ..s }), id, k),
{
    if s.receivers.contains_key(other) {
        assert(s.receivers[other] != k);
    }
    let taken = s.take(other);
    assert forall|o: u64| #[trigger] taken.receivers.contains_key(o) implies (taken.receivers[o]
        == k) == (o == id) by {
        assert(s.receivers.contains_key(o));
    }
    let t = s.read_from(other, j).0;
    assert forall|o: u64| #[trigger] t.receivers.contains_key(o) implies (t.receivers[o] == k) == (o
        == id) by {
        if o != other {
            assert(s.receivers.contains_key(o));
        }
    }
}

/// A stream does not notice that another is closed.
proof fn close_spares(s: StreamsView, other: u64, id: u64, k: u64)
    requires
        s.owns(id, k),
        other != id,
    ensures
        same_stream(s, s.close(other), id, k),
{
    if s.senders.contains_key(other) {
        assert(s.senders[other] != k);
    }
    if s.receivers.contains_key(other) {
        assert(s.receivers[other] != k);
    }
    let t = s.close(other);
    assert forall|o: u64| #[trigger] t.senders.contains_key(o) implies (t.senders[o] == k) == (o
        == id) by {
        assert(s.senders.contains_key(o));
    }
    assert forall|o: u64| #[trigger] t.receivers.contains_key(o) implies (t.receivers[o] == k) == (o
        == id) by {
        assert(s.receivers.contains_key(o));
    }
}

impl StreamOp {
    /// Whether this writes to the stream `id` or reads from it.
    spec fn concerns(self, id: u64) -> bool {
        match self {
            StreamOp::TryWrite(i, _) => i == id,
            StreamOp::Write(i, _) => i == id,
            StreamOp::RetryWrite(i, _, _) => i == id,
            StreamOp::Read(i) => i == id,
            StreamOp::RetryRead(i, _) => i == id,
            _ => false,
        }
    }
}

/// A stream does not notice what is done to others.
proof fn others_spare(s: StreamsView, op: StreamOp, id: u64, k: u64)
    requires
        s.owns(id, k),
        op.spares(id, k),
        !op.concerns(id),
        s.next_id < u64::MAX,
        s.next_channel < u64::MAX,
    ensures
        same_stream(s, s.after(op), id, k),
        s.gives(op, id) is None,
        s.accepts(op, id) is None,
{
    let j = s.next_channel;
    match op {
        StreamOp::Create(url) => create_spares(s, url, id, k),
        StreamOp::TryWrite(o, chunk) => write_spares(s, o, j, chunk, id, k),
        StreamOp::Write(o, chunk) => write_spares(s, o, j, chunk, id, k),
        StreamOp::RetryWrite(o, n, chunk) => write_spares(s, o, n, chunk, id, k),
        StreamOp::Read(o) => {
            read_spares(s, o, j, id, k);
            if s.receivers.contains_key(o) {
                read_spares(s.take(o), o, s.receivers[o], id, k);
            }
        },
        StreamOp::RetryRead(o, n) => read_spares(s, o, n, id, k),
        StreamOp::Take(o) => read_spares(s, o, j, id, k),
        StreamOp::Receive(n) => read_spares(s, s.next_id, n, id, k),
        StreamOp::DropReceiver(n) => read_spares(s, s.next_id, n, id, k),
        StreamOp::Close(o) => close_spares(s, o, id, k),
    }
}

/// What a write does to a stream that flows.
proof fn flowing_write(s: StreamsView, op: StreamOp, id: u64, k: u64)
    requires
        s.flows(id, k),
        op.spares(id, k),
        op.concerns(id),
        !(op is Read),
        !(op is RetryRead),
    ensures
        s.gives(op, id) is None,
        s.after(op).flows(id, k),
        s.after(op).channels[k].queue == (match s.accepts(op, id) {
            Some(c) => s.channels[k].queue.push(c),
            None => s.channels[k].queue,
        }),
{
    assert(s.senders.contains_key(id) && s.senders[id] == k);
    assert(s.senders.contains_value(k));
}

/// What a read does to a stream that flows.
proof fn flowing_read(s: StreamsView, op: StreamOp, id: u64, k: u64)
    requires
        s.flows(id, k),
        op.spares(id, k),
        op == StreamOp::Read(id) || op == StreamOp::RetryRead(id, k),
    ensures
        s.accepts(op, id) is None,
        ({
            let t = s.after(op);
            let q = s.channels[k].queue;
            match s.gives(op, id) {
                Some(c) => q.len() > 0 && c == q[0] && if c is Data {
                    t.flows(id, k) && t.channels[k].queue == q.skip(1)
                } else {
                    t.ended(id, k)
                },
                None => t.flows(id, k) && t.channels[k].queue == q,
            }
        }),
{
    let waits = s.take(id);
    assert(waits.owns(id, k)) by {
        assert forall|o: u64| #[trigger] waits.receivers.contains_key(o) implies (
        waits.receivers[o] == k) == (o == id) by {
            assert(s.receivers.contains_key(o));
        }
    }
    if s.read_waits(k) {
        assert(!s.receivers.contains_key(id)) by {
            if s.receivers.contains_key(id) {
                assert(s.receivers[id] == k);
                assert(s.receivers.contains_value(k));
            }
        }
        assert(waits.receivers =~= s.receivers);
    }
    let (after, got) = waits.receive(k);
    assert(after.receivers == waits.receivers);
    assert(lookup(after.receivers, id) is None);
}

/// What one step does to a stream that flows.
proof fn flowing_step(s: StreamsView, op: StreamOp, id: u64, k: u64)
    requires
        s.flows(id, k),
        op.spares(id, k),
        s.next_id < u64::MAX,
        s.next_channel < u64::MAX,
    ensures
        ({
            let t = s.after(op);
            let q = s.channels[k].queue;
            match s.gives(op, id) {
                Some(c) => q.len() > 0 && c == q[0] && s.accepts(op, id) is None && if c is Data {
                    t.flows(id, k) && t.channels[k].queue == q.skip(1)
                } else {
                    t.ended(id, k)
                },
                None => t.flows(id, k) && t.channels[k].queue == (match s.accepts(op, id) {
                    Some(c) => q.push(c),
                    None => q,
                }),
            }
        }),
{
    if !op.concerns(id) {
        others_spare(s, op, id, k);
    } else if op is Read || op is RetryRead {
        flowing_read(s, op, id, k);
    } else {
        flowing_write(s, op, id, k);
    }
}

/// What one step does to a stream that has ended.
proof fn ended_step(s: StreamsView, op: StreamOp, id: u64, k: u64)
    requires
        s.ended(id, k),
        op.spares(id, k),
        s.next_id < u64::MAX,
        s.next_channel < u64::MAX,
    ensures
        s.after(op).ended(id, k),
        s.gives(op, id) is None,
        s.accepts(op, id) is None,
{
    if !op.concerns(id) {
        others_spare(s, op, id, k);
    } else if op is Read || op is RetryRead {
        assert(s.after(op) == s);
    } else {
        ended_write(s, op, id, k);
    }
}

/// What a write does to a stream that has ended.
proof fn ended_write(s: StreamsView, op: StreamOp, id: u64, k: u64)
    requires
        s.ended(id, k),
        op.spares(id, k),
        op.concerns(id),
        !(op is Read),
        !(op is RetryRead),
    ensures
        s.after(op).ended(id, k),
        s.gives(op, id) is None,
        s.accepts(op, id) is None,
{
    let t = s.after(op);
    assert forall|o: u64| #[trigger] t.senders.contains_key(o) implies (t.senders[o] == k) == (o
        == id) by {
        assert(s.senders.contains_key(o));
    }
}

/// The readers of a stream get the chunks that it accepts, each once and in the order in which it
/// accepts them, however reads and writes alternate, wait and are tried again, and whatever is
/// done to other streams meanwhile; `ahead` are the chunks that were on their way before. That
/// goes on up to and including the first chunk that is no data; after it there is nothing to
/// read. Before it, what was accepted and not yet read is on its way.
pub proof fn reads_follow_accepted_writes(
    s: StreamsView,
    id: u64,
    ahead: Seq<StreamChunk>,
    ops: Seq<StreamOp>,
)
    requires
        s.wf(),
        s.open(id),
        s.pending(id) == ahead,
        forall|i: int| 0 <= i < ops.len() ==> (#[trigger] ops[i]).spares(id, s.senders[id]),
        s.next_id + ops.len() <= u64::MAX,
        s.next_channel + ops.len() <= u64::MAX,
    ensures
        ({
            let accepted = ahead + s.all_accepted(ops, id);
            let given = s.all_given(ops, id);
            let t = s.after_all(ops);
            &&& given.is_prefix_of(accepted)
            &&& forall|i: int| 0 <= i < given.len() - 1 ==> #[trigger] given[i] is Data
            &&& if given.len() > 0 && !(given.last() is Data) {
                t.read(id) == (t, ReadView::NotFound)
            } else {
                t.senders.contains_key(id) && given + t.pending(id) == accepted && (
                t.receivers.contains_key(id) && given.len() < accepted.len() ==> t.read(id).1
                    == ReadView::Chunk(accepted[given.len() as int]))
            }
        }),
{
    let k = s.senders[id];
    assert forall|o: u64| #[trigger] s.senders.contains_key(o) implies (s.senders[o] == k) == (o
        == id) by {
        if o != id {
            assert(s.senders[o] != s.senders[id]);
        }
    }
    assert forall|o: u64| #[trigger] s.receivers.contains_key(o) implies (s.receivers[o] == k) == (o
        == id) by {
        if o != id {
            assert(s.receivers[o] != s.receivers[id]);
        }
    }
    flow_is_kept(s, id, k, ops);
    let t = s.after_all(ops);
    let given = s.all_given(ops, id);
    let accepted = ahead + s.all_accepted(ops, id);
    if !(given.len() > 0 && !(given.last() is Data)) {
        let q = t.channels[k].queue;
        assert(given + q == accepted);
        assert(given =~= accepted.take(given.len() as int));
        if given.len() < accepted.len() {
            assert(q[0] == accepted[given.len() as int]);
        }
    }
}

/// A stream flows until its end was read.
proof fn flow_is_kept(s: StreamsView, id: u64, k: u64, ops: Seq<StreamOp>)
    requires
        s.flows(id, k),
        forall|i: int| 0 <= i < ops.len() ==> (#[trigger] ops[i]).spares(id, k),
        s.next_id + ops.len() <= u64::MAX,
        s.next_channel + ops.len() <= u64::MAX,
    ensures
        ({
            let accepted = s.channels[k].queue + s.all_accepted(ops, id);
            let given = s.all_given(ops, id);
            let t = s.after_all(ops);
            &&& given.is_prefix_of(accepted)
            &&& forall|i: int| 0 <= i < given.len() - 1 ==> #[trigger] given[i] is Data
            &&& if given.len() > 0 && !(given.last() is Data) {
                t.ended(id, k)
            } else {
                t.flows(id, k) && given + t.channels[k].queue == accepted
            }
            &&& t.next_id <= s.next_id + ops.len()
            &&& t.next_channel <= s.next_channel + ops.len()
        }),
    decreases ops.len(),
{
    let q0 = s.channels[k].queue;
    if ops.len() == 0 {
        assert(q0 + s.all_accepted(ops, id) =~= q0);
        assert(s.all_given(ops, id) + q0 =~= q0);
    } else {
        let front = ops.drop_last();
        let op = ops.last();
        assert forall|i: int| 0 <= i < front.len() implies (#[trigger] front[i]).spares(id, k) by {
            assert(ops[i].spares(id, k));
        }
        assert(ops[ops.len() - 1].spares(id, k));
        flow_is_kept(s, id, k, front);
        let m = s.after_all(front);
        let a = s.all_accepted(front, id);
        let g = s.all_given(front, id);
        if g.len() > 0 && !(g.last() is Data) {
            ended_step(m, op, id, k);
        } else {
            flowing_step(m, op, id, k);
            let q = m.channels[k].queue;
            match m.gives(op, id) {
                Some(c) => {
                    assert(g.push(c) + q.skip(1) =~= g + q);
                    assert(g.push(c) =~= (q0 + a).take(g.len() as int + 1));
                },
                None => {
                    match m.accepts(op, id) {
                        Some(c) => {
                            assert(g + q.push(c) =~= (g + q).push(c));
                            assert(q0 + a.push(c) =~= (q0 + a).push(c));
                        },
                        None => {},
                    }
                },
            }
        }
    }
}

/// Streams are numbered one after the other, whatever else is done, closing streams among it; so
/// no number is used twice before the streams are cleared. The first number is one, also after a
/// clear, and the number of a new stream is none that is known.
pub proof fn numbers_count_up(s: StreamsView, ops: Seq<StreamOp>, high_water_mark: usize)
    requires
        s.next_id + ops.len() <= u64::MAX,
    ensures
        forall|i: int|
            0 <= i < s.all_created(ops).len() ==> #[trigger] s.all_created(ops)[i] == s.next_id + i,
        s.all_created(ops).no_duplicates(),
        s.after_all(ops).next_id == s.next_id + s.all_created(ops).len(),
        s.all_created(ops).len() <= ops.len(),
        StreamsView::fresh(high_water_mark).next_id == 1,
        s.clear().next_id == 1,
        s.wf() ==> !s.senders.contains_key(s.next_id) && !s.metadata.contains_key(s.next_id),
    decreases ops.len(),
{
    if ops.len() > 0 {
        numbers_count_up(s, ops.drop_last(), high_water_mark);
    }
}

/// A stream that holds as much as it can refuses more, and takes more as soon as something was
/// read.
pub proof fn full_stream_pushes_back(s: StreamsView, id: u64, chunk: StreamChunk)
    requires
        s.wf(),
        s.open(id),
        s.pending(id).len() == s.room(id),
        s.room(id) > 0,
        s.pending(id)[0] is Data,
    ensures
        s.write(id, chunk) == (s, WriteView::Full),
        s.read(id).0.write(id, chunk).1 is Sent,
{
    reads_take(s, id, 1);
    assert(s.read_times(id, 0).0 == s);
    assert(s.read(id).0 == s.read_times(id, 1).0);
}

/// A new stream is empty and can be written and read, and no other stream notices.
pub proof fn created_stream_is_open(s: StreamsView, url: Seq<char>, other: u64)
    requires
        s.wf(),
        s.next_id < u64::MAX,
        s.next_channel < u64::MAX,
        s.high_water_mark > 0,
    ensures
        s.create(url).open(s.next_id),
        s.create(url).pending(s.next_id).len() == 0,
        s.create(url).room(s.next_id) == s.high_water_mark,
        s.create(url).metadata[s.next_id] == url,
        s.create(url).next_id == s.next_id + 1,
        s.create(url).senders.dom() == s.senders.dom().insert(s.next_id),
        s.senders.dom().finite() ==> s.create(url).senders.dom().len() == s.senders.dom().len() + 1,
        other != s.next_id && s.open(other) ==> s.create(url).open(other) && s.create(url).pending(
            other,
        ) == s.pending(other),
{
    if other != s.next_id && s.open(other) {
        if s.senders.contains_key(s.next_id) {
            assert(s.senders[other] != s.senders[s.next_id]);
        }
        if s.receivers.contains_key(s.next_id) {
            assert(s.receivers[other] != s.receivers[s.next_id]);
        }
    }
}

/// Writing to one stream changes nothing in another.
pub proof fn streams_do_not_mix(s: StreamsView, id: u64, chunk: StreamChunk, other: u64)
    requires
        s.wf(),
        s.open(other),
        other != id,
    ensures
        s.write(id, chunk).0.open(other),
        s.write(id, chunk).0.pending(other) == s.pending(other),
{
    if s.senders.contains_key(id) {
        assert(s.senders[other] != s.senders[id]);
    }
}

/// A closed stream takes nothing, gives nothing, and is forgotten.
pub proof fn closed_stream_is_gone(s: StreamsView, id: u64, chunk: StreamChunk)
    requires
        s.wf(),
    ensures
        s.close(id).write(id, chunk) == (s.close(id), WriteView::NotFound),
        s.close(id).read(id) == (s.close(id), ReadView::NotFound),
        !s.close(id).metadata.contains_key(id),
{
}

/// Once the end of a stream was read, the stream cannot be read again, and its writer learns
/// that nobody reads any more.
pub proof fn ended_stream_is_closed(s: StreamsView, id: u64, chunk: StreamChunk)
    requires
        s.wf(),
        s.open(id),
        s.pending(id).len() > 0,
        !(s.pending(id)[0] is Data),
    ensures
        s.read(id).1 == ReadView::Chunk(s.pending(id)[0]),
        s.read(id).0.read(id).1 is NotFound,
        s.read(id).0.write(id, chunk).1 is Closed,
        !s.read(id).0.write(id, chunk).0.senders.contains_key(id),
{
}

/// After a clear there is no stream, whatever is still on its way.
pub proof fn clear_leaves_no_stream(s: StreamsView, id: u64)
    ensures
        s.clear().senders.dom().len() == 0,
        s.clear().read(id).1 is NotFound,
        s.clear().next_id == 1,
{
    assert(Map::<u64, u64>::empty().dom() =~= Set::empty());
}

/// How the chunks of a body are told that their source has failed.
#[derive(Debug, Clone, Copy, PartialEq, Eq, Structural)]
pub enum PumpStyle {
    /// The failure ends the stream.
    Response,
    /// The end follows the failure.
    RequestBody,
}

/// What a pump does after a write.
#[derive(Debug, Clone, Copy, PartialEq, Eq, Structural)]
pub enum PumpStep {
    /// Take the next item from the source.
    ReadNext,
    /// Write the end of the stream, and stop.
    WriteDone,
    /// Stop.
    Stop,
}

/// The chunk for an item of a source; without an item the source has come to its end.
pub open spec fn chunk_for(item: Option<Result<bytes::Bytes, String>>) -> StreamChunk {
    match item {
        Some(Ok(b)) => StreamChunk::Data(b),
        Some(Err(e)) => StreamChunk::Error(e),
        None => StreamChunk::Done,
    }
}

/// What a pump does after `chunk` was written, or could not be.
pub open spec fn step_after(style: PumpStyle, chunk: StreamChunk, written: bool) -> PumpStep {
    match chunk {
        StreamChunk::Data(_) => if written {
            PumpStep::ReadNext
        } else {
            PumpStep::WriteDone
        },
        StreamChunk::Error(_) => match style {
            PumpStyle::Response => PumpStep::Stop,
            PumpStyle::RequestBody => PumpStep::WriteDone,
        },
        StreamChunk::Done => PumpStep::Stop,
    }
}

/// The chunk for an item of a source, and what the pump does once it was written, or once it
/// could not be.
pub fn pump_item(style: PumpStyle, item: Option<Result<bytes::Bytes, String>>) -> (r: (
    StreamChunk,
    PumpStep,
    PumpStep,
))
    ensures
        r.0 == chunk_for(item),
        r.1 == step_after(style, r.0, true),
        r.2 == step_after(style, r.0, false),
{
    match item {
        Some(Ok(b)) => (StreamChunk::Data(b), PumpStep::ReadNext, PumpStep::WriteDone),
        Some(Err(e)) => {
            let step = match style {
                PumpStyle::Response => PumpStep::Stop,
                PumpStyle::RequestBody => PumpStep::WriteDone,
            };
            (StreamChunk::Error(e), step, step)
        },
        None => (StreamChunk::Done, PumpStep::Stop, PumpStep::Stop),
    }
}

/// The chunks that a pump writes for a source that yields `items` and then ends, where every
/// write succeeds.
pub open spec fn pumped(style: PumpStyle, items: Seq<Result<bytes::Bytes, String>>) -> Seq<
    StreamChunk,
>
    decreases items.len(),
{
    let item = if items.len() > 0 {
        Some(items[0])
    } else {
        None
    };
    let chunk = chunk_for(item);
    match step_after(style, chunk, true) {
        PumpStep::ReadNext => if items.len() > 0 {
            seq![chunk] + pumped(style, items.skip(1))
        } else {
            seq![chunk]
        },
        PumpStep::WriteDone => seq![chunk, StreamChunk::Done],
        PumpStep::Stop => seq![chunk],
    }
}

/// A pump writes one chunk of data for each item up to the first failure, in their order, and
/// then the end: of a source without failures `Done`, after a failure the failure, behind which
/// only a request body still has a `Done`.
pub proof fn pump_writes_the_source(
    style: PumpStyle,
    items: Seq<Result<bytes::Bytes, String>>,
    n: nat,
)
    requires
        n <= items.len(),
        forall|i: int| 0 <= i < n ==> #[trigger] items[i] is Ok,
        n < items.len() ==> items[n as int] is Err,
    ensures
        ({
            let out = pumped(style, items);
            &&& forall|i: int|
                0 <= i < n ==> #[trigger] out[i] == StreamChunk::Data(items[i]->Ok_0)
            &&& n == items.len() ==> out.len() == n + 1 && out[n as int] == StreamChunk::Done
            &&& n < items.len() ==> out[n as int] == StreamChunk::Error(items[n as int]->Err_0)
            &&& n < items.len() && style is Response ==> out.len() == n + 1
            &&& n < items.len() && style is RequestBody ==> out.len() == n + 2 && out[n as int + 1]
                == StreamChunk::Done
        }),
    decreases items.len(),
{
    if n > 0 {
        let rest = items.skip(1);
        assert forall|i: int| 0 <= i < n - 1 implies #[trigger] rest[i] is Ok by {
            assert(items[i + 1] is Ok);
        }
        assert(items[0] is Ok);
        pump_writes_the_source(style, rest, (n - 1) as nat);
        let out = pumped(style, items);
        let tail = pumped(style, rest);
        assert(out == seq![StreamChunk::Data(items[0]->Ok_0)] + tail);
        assert forall|i: int| 0 <= i < n implies #[trigger] out[i] == StreamChunk::Data(
            items[i]->Ok_0,
        ) by {
            if i > 0 {
                assert(tail[i - 1] == StreamChunk::Data(rest[i - 1]->Ok_0));
            }
        }
    }
}

impl StreamManager {
    /// Opens the stream that the body of a request is pumped into, chunk by chunk.
    pub fn pump_request_body(&mut self) -> (id: StreamId)
        requires
            old(self).wf(),
            0 < old(self).high_water_mark <= max_capacity(),
            old(self).next_id < u64::MAX,
            old(self).next_channel < u64::MAX,
        ensures
            final(self).wf(),
            id == old(self).next_id,
            final(self)@ == old(self)@.create("request_body"@),
    {
        self.create_stream("request_body".to_string())
    }
}

/// How a write ends depends on its stream alone: a stream that is not there is not found; one whose
/// reader is gone is closed, and accepts no more; a full one has no room, and stays as it is; any
/// other takes the chunk, behind those that are on their way.
pub proof fn write_ends_as_its_stream_is(s: StreamsView, id: u64, chunk: StreamChunk)
    ensures
        ({
            let (after, how) = s.write(id, chunk);
            let k = s.senders[id];
            let c = s.channels[k];
            &&& how is NotFound <==> !s.senders.contains_key(id)
            &&& how is Closed <==> s.senders.contains_key(id) && !c.reader
            &&& how is Full <==> s.senders.contains_key(id) && c.reader && c.queue.len()
                >= c.capacity
            &&& how is NotFound || how is Full ==> after == s
            &&& how is Closed ==> after.senders == s.senders.remove(id) && after.receivers
                == s.receivers && after.metadata == s.metadata
            &&& how is Sent ==> {
                &&& after.channels.dom() == s.channels.dom().insert(k)
                &&& after.channels[k].queue == c.queue.push(chunk)
                &&& after.channels[k].capacity == c.capacity
                &&& after.channels[k].writers == c.writers
                &&& after.channels[k].reader
                &&& after.channels.remove(k) == s.channels.remove(k)
                &&& after == (StreamsView { channels: after.channels, ..s })
            }
        }),
{
    let k = s.senders[id];
    assert(s.send(k, chunk).channels.remove(k) =~= s.channels.remove(k));
}

/// How a read ends depends on its stream alone: one that cannot be read is not found; the oldest
/// chunk is read where there is one; else the read waits where there is a writer, and the stream is
/// closed where there is none. While a read waits, and after the end, nobody else can read.
pub proof fn read_ends_as_its_stream_is(s: StreamsView, id: u64)
    ensures
        ({
            let (after, got) = s.read(id);
            let c = s.channels[s.receivers[id]];
            &&& got is NotFound <==> !s.receivers.contains_key(id)
            &&& got is Empty <==> s.receivers.contains_key(id) && c.queue.len() == 0 && c.writers
                > 0
            &&& got is Closed <==> s.receivers.contains_key(id) && c.queue.len() == 0 && c.writers
                == 0
            &&& s.receivers.contains_key(id) && c.queue.len() > 0 ==> got == ReadView::Chunk(
                c.queue[0],
            )
            &&& after.senders == s.senders && after.metadata == s.metadata
            &&& got is Chunk && got->0 is Data ==> after.receivers == s.receivers
            &&& got is NotFound ==> after == s
            &&& !(got is Chunk && got->0 is Data) ==> after.read(id).1 is NotFound
        }),
{
    if s.receivers.contains_key(id) {
        let k = s.receivers[id];
        assert(s.take(id).receivers.insert(id, k) =~= s.receivers);
    }
}

/// A write that waits goes through as soon as there is room: its chunk is queued last, and it waits
/// no longer. It learns that the stream is closed where the reader is gone, and goes on waiting
/// where there is no room.
pub proof fn waiting_write_goes_through(s: StreamsView, id: u64, k: u64, chunk: StreamChunk)
    requires
        s.channels.contains_key(k),
    ensures
        ({
            let (after, how) = s.rewrite(id, k, chunk);
            let c = s.channels[k];
            &&& how is Closed <==> !c.reader
            &&& how is Full <==> c.reader && c.queue.len() >= c.capacity
            &&& how is Sent <==> c.reader && c.queue.len() < c.capacity
            &&& how is Full ==> after == s
            &&& how is Closed ==> !after.senders.contains_key(id)
            &&& how is Sent ==> {
                &&& after.channels[k].queue == c.queue.push(chunk)
                &&& c.writers > 0 ==> after.channels[k].writers == c.writers - 1
                &&& after.channels[k].reader
                &&& after.channels[k].capacity == c.capacity
                &&& after.channels.remove(k) == s.channels.remove(k)
                &&& after == (StreamsView { channels: after.channels, ..s })
            }
        }),
{
    let (after, how) = s.rewrite(id, k, chunk);
    if how is Sent {
        assert(after.channels.remove(k) =~= s.channels.remove(k));
    }
}

/// A write is reported as a success exactly where the chunk was accepted; of a stream that is not
/// there the message names the number, and a closed one has its own message.
pub proof fn writes_are_reported_as_they_ended(r: Result<(), String>, w: WriteView, id: u64)
    requires
        write_reports(r, w, id),
    ensures
        r is Ok <==> w is Sent,
        w is NotFound ==> r is Err && r->Err_0@ == "Stream "@ + decimal(id as nat) + " not found"@,
        w is Closed ==> r is Err && r->Err_0@ == "Stream channel closed"@,
        !(w is Full),
{
}

/// A read is reported as a success exactly where there was a chunk, and with that chunk; of a
/// stream that cannot be read the message names the number, and a closed one has its own message.
pub proof fn reads_are_reported_as_they_ended(
    r: Result<StreamChunk, String>,
    g: ReadView,
    id: u64,
)
    requires
        read_reports(r, g, id),
    ensures
        r is Ok <==> g is Chunk,
        r is Ok ==> g == ReadView::Chunk(r->Ok_0),
        g is NotFound ==> r is Err && r->Err_0@ == "Stream "@ + decimal(id as nat)
            + " not found or already being read"@,
        g is Closed ==> r is Err && r->Err_0@ == "Stream closed unexpectedly"@,
        !(g is Empty),
{
}

/// A worker starts without streams: nothing can be written or read, nothing is known, and new
/// streams hold as many chunks as was asked for.
pub proof fn worker_starts_without_streams(high_water_mark: usize, id: u64, chunk: StreamChunk)
    ensures
        ({
            let s = StreamsView::fresh(high_water_mark);
            &&& s.wf()
            &&& s.write(id, chunk).1 is NotFound
            &&& s.read(id).1 is NotFound
            &&& !s.metadata.contains_key(id)
            &&& s.high_water_mark == high_water_mark
            &&& forall|url: Seq<char>| #[trigger]
                s.create(url).room(s.next_id) == high_water_mark
        }),
{
}

/// Who has taken out the reading side of a stream reads on when the stream is closed: first what is
/// on its way, then, where no write waits, that it is closed.
pub proof fn taken_reader_reads_on_after_a_close(s: StreamsView, id: u64)
    requires
        s.wf(),
        s.open(id),
        s.channels[s.senders[id]].writers == 1,
    ensures
        ({
            let k = s.senders[id];
            let closed = s.take(id).close(id);
            &&& s.take(id).receivers == s.receivers.remove(id)
            &&& s.take(id).senders == s.senders && s.take(id).channels == s.channels
            &&& closed.receive(k).1 == (if s.pending(id).len() > 0 {
                ReadView::Chunk(s.pending(id)[0])
            } else {
                ReadView::Closed
            })
        }),
{
}

/// Who takes out chunks of a channel gets the oldest, and leaves the others on their way.
pub proof fn receiving_takes_the_oldest(s: StreamsView, k: u64)
    ensures
        ({
            let (after, got) = s.receive(k);
            let c = s.channels[k];
            &&& c.queue.len() > 0 ==> got == ReadView::Chunk(c.queue[0])
                && after.channels[k].queue == c.queue.skip(1) && after.channels.remove(k)
                == s.channels.remove(k)
            &&& c.queue.len() == 0 && c.writers > 0 ==> got is Empty && after == s
            &&& c.queue.len() == 0 && c.writers == 0 ==> got is Closed && after == s
            &&& after.senders == s.senders && after.receivers == s.receivers
        }),
{
    let after = s.receive(k).0;
    if s.channels[k].queue.len() > 0 {
        assert(after.channels.remove(k) =~= s.channels.remove(k));
    }
}

/// Once the reading side of a stream was taken out and is gone, a write learns that the stream is
/// closed.
pub proof fn writer_learns_that_the_reader_is_gone(s: StreamsView, id: u64, chunk: StreamChunk)
    requires
        s.wf(),
        s.open(id),
    ensures
        ({
            let taken = s.take(id);
            let gone = StreamsView { channels: drop_reader(taken.channels, s.senders[id]), ..taken };
            &&& gone.write(id, chunk).1 is Closed
            &&& !gone.write(id, chunk).0.senders.contains_key(id)
        }),
{
}

/// Closing a stream leaves the others as they are: what can be written, what can be read, and what
/// is on its way.
pub proof fn close_spares_other_streams(s: StreamsView, id: u64, other: u64)
    requires
        s.wf(),
        s.open(other),
        other != id,
    ensures
        s.close(id).open(other),
        s.close(id).pending(other) == s.pending(other),
        s.close(id).senders == s.senders.remove(id),
        s.close(id).receivers == s.receivers.remove(id),
        s.close(id).metadata == s.metadata.remove(id),
        s.close(id).next_id == s.next_id,
{
    if s.senders.contains_key(id) {
        assert(s.senders[other] != s.senders[id]);
    }
    if s.receivers.contains_key(id) {
        assert(s.receivers[other] != s.receivers[id]);
    }
}

/// Reading one stream changes nothing in another.
pub proof fn reads_do_not_mix(s: StreamsView, id: u64, other: u64)
    requires
        s.wf(),
        s.open(other),
        other != id,
    ensures
        s.read(id).0.open(other),
        s.read(id).0.pending(other) == s.pending(other),
{
    if s.receivers.contains_key(id) {
        assert(s.receivers[other] != s.receivers[id]);
    }
}

/// A clear forgets what the streams were for, too. Who has taken out the reading side of a stream
/// reads on: first what is on its way, then, where no write waits, that the stream is closed.
pub proof fn clear_lets_taken_readers_read_on(s: StreamsView, id: u64)
    requires
        s.wf(),
        s.senders.contains_key(id),
        s.read_waits(s.senders[id]),
        s.channels[s.senders[id]].writers == 1,
    ensures
        s.clear().metadata == Map::<u64, Seq<char>>::empty(),
        s.clear().high_water_mark == s.high_water_mark,
        s.clear().receive(s.senders[id]).1 == (if s.pending(id).len() > 0 {
            ReadView::Chunk(s.pending(id)[0])
        } else {
            ReadView::Closed
        }),
{
    let k = s.senders[id];
    assert(among(s.senders, s.senders.dom(), k));
    assert(!among(s.receivers, s.receivers.dom(), k)) by {
        if among(s.receivers, s.receivers.dom(), k) {
            let o = choose|o: u64|
                s.receivers.dom().contains(o) && #[trigger] s.receivers.contains_key(o)
                    && s.receivers[o] == k;
            assert(s.receivers.contains_value(k));
        }
    }
}

/// A pump that cannot write data any more writes the end and stops; behind a failure it stops, or
/// writes the end first where it is a request body; and behind the end it stops, whether that could
/// be written or not.
pub proof fn pump_stops(style: PumpStyle, b: bytes::Bytes, e: String, written: bool)
    ensures
        step_after(style, StreamChunk::Data(b), true) == PumpStep::ReadNext,
        step_after(style, StreamChunk::Data(b), false) == PumpStep::WriteDone,
        step_after(PumpStyle::Response, StreamChunk::Error(e), written) == PumpStep::Stop,
        step_after(PumpStyle::RequestBody, StreamChunk::Error(e), written) == PumpStep::WriteDone,
        step_after(style, StreamChunk::Done, written) == PumpStep::Stop,
        chunk_for(Some(Ok(b))) == StreamChunk::Data(b),
        chunk_for(Some(Err(e))) == StreamChunk::Error(e),
        chunk_for(None) == StreamChunk::Done,
{
}

/// A read that waits ends as any other once it is tried again: with the oldest chunk where there is
/// one, and after data the stream can be read again; it goes on waiting where there is a writer;
/// and without one it learns that the stream is closed.
pub proof fn waiting_read_gets_the_next_chunk(s: StreamsView, id: u64, k: u64)
    requires
        s.read_waits(k),
        !s.receivers.contains_key(id),
    ensures
        ({
            let (after, got) = s.read_from(id, k);
            let c = s.channels[k];
            &&& c.queue.len() > 0 ==> got == ReadView::Chunk(c.queue[0])
            &&& c.queue.len() == 0 && c.writers > 0 ==> got is Empty && after == s
            &&& c.queue.len() == 0 && c.writers == 0 ==> got is Closed
            &&& c.queue.len() > 0 && c.queue[0] is Data ==> {
                &&& after.receivers == s.receivers.insert(id, k)
                &&& after.channels[k].queue == c.queue.skip(1)
                &&& after.channels[k].reader
            }
            &&& after.senders == s.senders && after.metadata == s.metadata
        }),
{
}

/// A write that waits on a stream that nobody has taken out learns from a clear that the stream is
/// closed.
pub proof fn clear_tells_waiting_writes(s: StreamsView, id: u64, chunk: StreamChunk)
    requires
        s.wf(),
        s.open(id),
        s.channels[s.senders[id]].writers > 1,
    ensures
        s.clear().rewrite(id, s.senders[id], chunk).1 is Closed,
{
    let k = s.senders[id];
    assert(among(s.senders, s.senders.dom(), k));
    assert(among(s.receivers, s.receivers.dom(), k));
}

} // verus!
