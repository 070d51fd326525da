//! The life of an opened link, as the host's event loop sees it: a state
//! machine over the events of the loop, and what holds of every run of it.

use crate::error::TtyError;
use vstd::prelude::*;

verus! {

/// The state of a link towards the readiness multiplexer.
#[derive(Debug, Clone, Copy, PartialEq, Eq, Structural)]
pub enum LinkState {
    /// Registered for readable and writable interest; bytes flow both ways.
    Registered,
    /// Shut down by the host and deregistered; one last flush is under way.
    Draining,
    /// The handle is released. Nothing happens any more.
    Closed,
}

/// What the host is to do after it has reported an event.
#[derive(Debug, Clone, Copy, PartialEq, Eq, Structural)]
pub enum Action {
    /// Read again: more bytes may be available.
    ReadAgain,
    /// Wait for the next readiness notification.
    Wait,
    /// Deregister the handle, write the pending bytes once and report how
    /// that write ended.
    Drain,
    /// Release the handle, and surface `error` to the host where there is one.
    Release { error: Option<TtyError> },
    /// Nothing: the event came too late to matter.
    Ignored,
}

/// One event of the loop.
pub enum Event {
    /// The emulator queued these bytes for the wire.
    Queue(Seq<u8>),
    /// A read returned these bytes.
    ReadData(Seq<u8>),
    /// A read found nothing available.
    ReadWouldBlock,
    /// A read failed.
    ReadFailed { code: i32 },
    /// A write of the pending bytes was accepted for the first `count` bytes.
    Wrote { count: nat },
    /// A write found no room.
    WriteWouldBlock,
    /// A write failed.
    WriteFailed { code: i32 },
    /// The host took the received bytes to hand them to the emulator.
    TakeInbound,
    /// The host asked for shutdown.
    Shutdown,
}

/// A link: its state, the bytes received from the wire and not yet taken by
/// the host, and the bytes queued for the wire and not yet written.
pub struct TtyView {
    pub state: LinkState,
    pub inbound: Seq<u8>,
    pub outbound: Seq<u8>,
}

impl TtyView {
    /// A freshly opened link: registered, with nothing received or queued.
    pub open spec fn initial() -> TtyView {
        TtyView { state: LinkState::Registered, inbound: Seq::empty(), outbound: Seq::empty() }
    }

    /// How many of the pending bytes a write took that reports `count`: never
    /// more than were pending.
    pub open spec fn taken(self, count: nat) -> int {
        if count <= self.outbound.len() {
            count as int
        } else {
            self.outbound.len() as int
        }
    }

    /// The link after `event`.
    ///
    /// While registered, queued bytes go to the end of the outbound queue,
    /// read bytes to the end of the inbound buffer, and a write removes what
    /// it took from the front of the queue; a failed read or write closes
    /// the link and a shutdown request starts draining. While draining, the
    /// outcome of the last write closes the link, whatever it is. Taking the
    /// inbound bytes empties the buffer in every state. Every other event
    /// leaves the link as it is.
    pub open spec fn step(self, event: Event) -> TtyView {
        match (self.state, event) {
            (_, Event::TakeInbound) => TtyView { inbound: Seq::empty(), ..self },
            (LinkState::Registered, Event::Queue(bytes)) => TtyView {
                outbound: self.outbound + bytes,
                ..self
            },
            (LinkState::Registered, Event::ReadData(bytes)) => TtyView {
                inbound: self.inbound + bytes,
                ..self
            },
            (LinkState::Registered, Event::ReadFailed { .. }) => TtyView {
                state: LinkState::Closed,
                ..self
            },
            (LinkState::Registered, Event::Wrote { count }) => TtyView {
                outbound: self.outbound.skip(self.taken(count)),
                ..self
            },
            (LinkState::Registered, Event::WriteFailed { .. }) => TtyView {
                state: LinkState::Closed,
                ..self
            },
            (LinkState::Registered, Event::Shutdown) => TtyView {
                state: LinkState::Draining,
                ..self
            },
            (LinkState::Draining, Event::Wrote { count }) => TtyView {
                state: LinkState::Closed,
                outbound: self.outbound.skip(self.taken(count)),
                ..self
            },
            (LinkState::Draining, Event::WriteWouldBlock) => TtyView {
                state: LinkState::Closed,
                ..self
            },
            (LinkState::Draining, Event::WriteFailed { .. }) => TtyView {
                state: LinkState::Closed,
                ..self
            },
            _ => self,
        }
    }

    /// What the host is to do after `event`.
    ///
    /// While registered: read again after a read that returned bytes; start
    /// draining on a shutdown request; release the handle with the error
    /// after a failed read or write; otherwise wait. While draining: release
    /// the handle after the last write, with the error if it failed. An event
    /// that changes nothing is ignored, but that taking the inbound bytes is
    /// always followed by waiting.
    pub open spec fn reaction(self, event: Event) -> Action {
        match (self.state, event) {
            (_, Event::TakeInbound) => Action::Wait,
            (LinkState::Registered, Event::ReadData(bytes)) => if bytes.len() > 0 {
                Action::ReadAgain
            } else {
                Action::Wait
            },
            (LinkState::Registered, Event::ReadFailed { code }) => Action::Release {
                error: Some(TtyError::TransportIo { code }),
            },
            (LinkState::Registered, Event::WriteFailed { code }) => Action::Release {
                error: Some(TtyError::TransportIo { code }),
            },
            (LinkState::Registered, Event::Shutdown) => Action::Drain,
            (LinkState::Registered, _) => Action::Wait,
            (LinkState::Draining, Event::Wrote { .. }) => Action::Release { error: None },
            (LinkState::Draining, Event::WriteWouldBlock) => Action::Release { error: None },
            (LinkState::Draining, Event::WriteFailed { code }) => Action::Release {
                error: Some(TtyError::TransportIo { code }),
            },
            _ => Action::Ignored,
        }
    }

    /// The bytes that `event` put on the wire: what a write took from the
    /// front of the outbound queue.
    pub open spec fn wired(self, event: Event) -> Seq<u8> {
        match (self.state, event) {
            (LinkState::Registered, Event::Wrote { count }) => self.outbound.take(self.taken(count)),
            (LinkState::Draining, Event::Wrote { count }) => self.outbound.take(self.taken(count)),
            _ => Seq::empty(),
        }
    }

    /// The bytes that `event` accepted for the wire.
    pub open spec fn queued(self, event: Event) -> Seq<u8> {
        match (self.state, event) {
            (LinkState::Registered, Event::Queue(bytes)) => bytes,
            _ => Seq::empty(),
        }
    }

    /// The bytes that `event` accepted from the wire.
    pub open spec fn received(self, event: Event) -> Seq<u8> {
        match (self.state, event) {
            (LinkState::Registered, Event::ReadData(bytes)) => bytes,
            _ => Seq::empty(),
        }
    }

    /// The bytes that `event` handed to the emulator.
    pub open spec fn delivered(self, event: Event) -> Seq<u8> {
        match event {
            Event::TakeInbound => self.inbound,
            _ => Seq::empty(),
        }
    }

    /// The link after the events of `trace`, in order.
    pub open spec fn run(self, trace: Seq<Event>) -> TtyView
        decreases trace.len(),
    {
        if trace.len() == 0 {
            self
        } else {
            self.run(trace.drop_last()).step(trace.last())
        }
    }

    /// All bytes that the events of `trace` put on the wire, in order.
    pub open spec fn wire(self, trace: Seq<Event>) -> Seq<u8>
        decreases trace.len(),
    {
        if trace.len() == 0 {
            Seq::empty()
        } else {
            self.wire(trace.drop_last()) + self.run(trace.drop_last()).wired(trace.last())
        }
    }

    /// All bytes that the events of `trace` accepted for the wire, in order.
    pub open spec fn accepted(self, trace: Seq<Event>) -> Seq<u8>
        decreases trace.len(),
    {
        if trace.len() == 0 {
            Seq::empty()
        } else {
            self.accepted(trace.drop_last()) + self.run(trace.drop_last()).queued(trace.last())
        }
    }

    /// All bytes that the events of `trace` accepted from the wire, in order.
    pub open spec fn arrived(self, trace: Seq<Event>) -> Seq<u8>
        decreases trace.len(),
    {
        if trace.len() == 0 {
            Seq::empty()
        } else {
            self.arrived(trace.drop_last()) + self.run(trace.drop_last()).received(trace.last())
        }
    }

    /// All bytes that the events of `trace` handed to the emulator, in order.
    pub open spec fn handed_over(self, trace: Seq<Event>) -> Seq<u8>
        decreases trace.len(),
    {
        if trace.len() == 0 {
            Seq::empty()
        } else {
            self.handed_over(trace.drop_last()) + self.run(trace.drop_last()).delivered(
                trace.last(),
            )
        }
    }

    /// How often the events of `trace` made the host release the handle.
    pub open spec fn releases(self, trace: Seq<Event>) -> nat
        decreases trace.len(),
    {
        if trace.len() == 0 {
            0
        } else {
            let before = self.run(trace.drop_last());
            if before.reaction(trace.last()) is Release {
                self.releases(trace.drop_last()) + 1
            } else {
                self.releases(trace.drop_last())
            }
        }
    }
}

/// The events that queue each chunk of `chunks`, in order.
pub open spec fn queue_events(chunks: Seq<Seq<u8>>) -> Seq<Event> {
    Seq::new(chunks.len(), |i: int| Event::Queue(chunks[i]))
}

/// The events that report each chunk of `chunks` as read, in order.
pub open spec fn read_events(chunks: Seq<Seq<u8>>) -> Seq<Event> {
    Seq::new(chunks.len(), |i: int| Event::ReadData(chunks[i]))
}

/// The events that report writes which took `counts[0]`, `counts[1]`, ...
/// bytes.
pub open spec fn write_events(counts: Seq<nat>) -> Seq<Event> {
    Seq::new(counts.len(), |i: int| Event::Wrote { count: counts[i] })
}

/// Outbound bytes keep their order. Whatever happens, the bytes put on the
/// wire, followed by those still queued, are the bytes that were queued at
/// the start followed by those accepted since: nothing is lost, repeated or
/// reordered on the way out.
pub proof fn lemma_outbound_order(link: TtyView, trace: Seq<Event>)
    ensures
        link.wire(trace) + link.run(trace).outbound == link.outbound + link.accepted(trace),
    decreases trace.len(),
{
    if trace.len() == 0 {
        assert(link.wire(trace) + link.run(trace).outbound =~= link.outbound + link.accepted(
            trace,
        ));
    } else {
        let earlier = trace.drop_last();
        let event = trace.last();
        let before = link.run(earlier);
        lemma_outbound_order(link, earlier);
        assert(before.wired(event) + before.step(event).outbound =~= before.outbound
            + before.queued(event));
        assert(link.wire(trace) + link.run(trace).outbound =~= link.wire(earlier) + (before.wired(
            event,
        ) + before.step(event).outbound));
        assert(link.outbound + link.accepted(trace) =~= (link.outbound + link.accepted(earlier))
            + before.queued(event));
        assert((link.wire(earlier) + before.outbound) + before.queued(event) =~= link.wire(earlier)
            + (before.outbound + before.queued(event)));
    }
}

/// Inbound bytes keep their order. Whatever happens, the bytes handed to the
/// emulator, followed by those still buffered, are the bytes that were
/// buffered at the start followed by those accepted from the wire since.
pub proof fn lemma_inbound_order(link: TtyView, trace: Seq<Event>)
    ensures
        link.handed_over(trace) + link.run(trace).inbound == link.inbound + link.arrived(trace),
    decreases trace.len(),
{
    if trace.len() == 0 {
        assert(link.handed_over(trace) + link.run(trace).inbound =~= link.inbound + link.arrived(
            trace,
        ));
    } else {
        let earlier = trace.drop_last();
        let event = trace.last();
        let before = link.run(earlier);
        lemma_inbound_order(link, earlier);
        assert(before.delivered(event) + before.step(event).inbound =~= before.inbound
            + before.received(event));
        assert(link.handed_over(trace) + link.run(trace).inbound =~= link.handed_over(earlier) + (
        before.delivered(event) + before.step(event).inbound));
        assert(link.inbound + link.arrived(trace) =~= (link.inbound + link.arrived(earlier))
            + before.received(event));
        assert((link.handed_over(earlier) + before.inbound) + before.received(event)
            =~= link.handed_over(earlier) + (before.inbound + before.received(event)));
    }
}

/// Writes that are queued on a fresh link before any flush reach the wire
/// as their concatenation. After the writes the queue holds exactly that
/// concatenation; and however the operating system then splits it up, what
/// it has taken, followed by what is still queued, is that concatenation.
pub proof fn lemma_queued_writes_reach_wire_in_order(writes: Seq<Seq<u8>>, counts: Seq<nat>)
    ensures
        ({
            let queued = TtyView::initial().run(queue_events(writes));
            let flushes = write_events(counts);
            &&& queued.state == LinkState::Registered
            &&& queued.outbound == writes.flatten()
            &&& queued.wire(flushes) + queued.run(flushes).outbound == writes.flatten()
            &&& queued.run(flushes).outbound.len() == 0 ==> queued.wire(flushes)
                == writes.flatten()
        }),
{
    let queued = TtyView::initial().run(queue_events(writes));
    let flushes = write_events(counts);
    lemma_queue_run(writes);
    lemma_outbound_order(queued, flushes);
    lemma_writes_accept_nothing(queued, counts);
    assert(queued.outbound + queued.accepted(flushes) =~= queued.outbound);
    if queued.run(flushes).outbound.len() == 0 {
        assert(queued.wire(flushes) + queued.run(flushes).outbound =~= queued.wire(flushes));
    }
}

/// Bytes that arrive on a fresh link reach the emulator in the order of
/// their arrival, however the reads cut them into chunks: after the reads the
/// buffer holds the concatenation of the chunks, and that is what the host
/// is handed.
pub proof fn lemma_reads_arrive_in_order(chunks: Seq<Seq<u8>>)
    ensures
        ({
            let read = TtyView::initial().run(read_events(chunks));
            &&& read.state == LinkState::Registered
            &&& read.inbound == chunks.flatten()
            &&& read.delivered(Event::TakeInbound) == chunks.flatten()
        }),
    decreases chunks.len(),
{
    let trace = read_events(chunks);
    chunks.lemma_flatten_and_flatten_alt_are_equivalent();
    if chunks.len() == 0 {
        assert(TtyView::initial().run(trace).inbound =~= chunks.flatten_alt());
    } else {
        let earlier = chunks.drop_last();
        lemma_reads_arrive_in_order(earlier);
        earlier.lemma_flatten_and_flatten_alt_are_equivalent();
        assert(trace.drop_last() =~= read_events(earlier));
        assert(trace.last() == Event::ReadData(chunks.last()));
    }
}

/// The same bytes, cut into chunks in two ways, are buffered as the same
/// bytes.
pub proof fn lemma_chunking_is_invisible(first: Seq<Seq<u8>>, second: Seq<Seq<u8>>)
    requires
        first.flatten() == second.flatten(),
    ensures
        TtyView::initial().run(read_events(first)).inbound == TtyView::initial().run(
            read_events(second),
        ).inbound,
{
    lemma_reads_arrive_in_order(first);
    lemma_reads_arrive_in_order(second);
}

/// A closed link is final: no event reopens it, puts bytes on the wire or
/// accepts bytes in either direction, and no notification is acted upon.
/// Only the bytes received before can still be taken.
pub proof fn lemma_closed_is_final(link: TtyView, event: Event)
    requires
        link.state == LinkState::Closed,
    ensures
        link.step(event).state == LinkState::Closed,
        link.step(event).outbound == link.outbound,
        !(event is TakeInbound) ==> link.step(event) == link && link.reaction(event)
            == Action::Ignored,
        link.wired(event) == Seq::<u8>::empty(),
        link.queued(event) == Seq::<u8>::empty(),
        link.received(event) == Seq::<u8>::empty(),
        !(link.reaction(event) is Release),
{
}

/// Asking for shutdown twice is asking once: the second request changes
/// nothing and is ignored.
pub proof fn lemma_shutdown_is_idempotent(link: TtyView)
    ensures
        link.step(Event::Shutdown).step(Event::Shutdown) == link.step(Event::Shutdown),
        link.step(Event::Shutdown).reaction(Event::Shutdown) == Action::Ignored,
        link.step(Event::Shutdown).state != LinkState::Registered,
{
}

/// The handle is released at most once. The host is told to release it
/// exactly by the event that closes the link; so in any run there is one
/// release if the link was open at the start and is closed at the end, and
/// none otherwise; and a link that is closed stays closed.
pub proof fn lemma_released_at_most_once(link: TtyView, trace: Seq<Event>)
    ensures
        link.releases(trace) <= 1,
        link.releases(trace) == 1 <==> link.state != LinkState::Closed && link.run(trace).state
            == LinkState::Closed,
        link.state == LinkState::Closed ==> link.run(trace).state == LinkState::Closed,
    decreases trace.len(),
{
    if trace.len() > 0 {
        lemma_released_at_most_once(link, trace.drop_last());
    }
}

/// Queueing chunks on a fresh link leaves it registered with their
/// concatenation queued.
proof fn lemma_queue_run(writes: Seq<Seq<u8>>)
    ensures
        TtyView::initial().run(queue_events(writes)).state == LinkState::Registered,
        TtyView::initial().run(queue_events(writes)).outbound == writes.flatten(),
    decreases writes.len(),
{
    let trace = queue_events(writes);
    writes.lemma_flatten_and_flatten_alt_are_equivalent();
    if writes.len() == 0 {
        assert(TtyView::initial().run(trace).outbound =~= writes.flatten_alt());
    } else {
        let earlier = writes.drop_last();
        lemma_queue_run(earlier);
        earlier.lemma_flatten_and_flatten_alt_are_equivalent();
        assert(trace.drop_last() =~= queue_events(earlier));
        assert(trace.last() == Event::Queue(writes.last()));
    }
}

/// Reports of writes accept no bytes for the wire.
proof fn lemma_writes_accept_nothing(link: TtyView, counts: Seq<nat>)
    ensures
        link.accepted(write_events(counts)) == Seq::<u8>::empty(),
    decreases counts.len(),
{
    let trace = write_events(counts);
    if counts.len() > 0 {
        lemma_writes_accept_nothing(link, counts.drop_last());
        assert(trace.drop_last() =~= write_events(counts.drop_last()));
        assert(trace.last() == Event::Wrote { count: counts.last() });
        assert(link.accepted(trace) =~= Seq::<u8>::empty());
    }
}

} // verus!
