//! The transport handle's own state: what the event loop keeps of an opened
//! link besides the operating system's handle to it.

use crate::error::TtyError;
use crate::link::{Action, Event, LinkState, TtyView};
use alacritty_terminal::event::WindowSize;
use vstd::prelude::*;

verus! {

/// The window geometry of `alacritty_terminal`. Nothing is known of its
/// inside: the transport only receives it.
#[verifier::external_type_specification]
#[verifier::external_body]
pub struct ExWindowSize(WindowSize);

/// How a non-blocking read ended.
#[derive(Debug, Clone, Copy)]
pub enum ReadOutcome<'a> {
    /// The read returned these bytes; none at all means that nothing is
    /// available right now, not that the stream has ended.
    Data(&'a [u8]),
    /// Nothing is available right now.
    WouldBlock,
    /// The read failed with this error number.
    Failed { code: i32 },
}

/// How a non-blocking write of the pending bytes ended.
#[derive(Debug, Clone, Copy, PartialEq, Eq, Structural)]
pub enum WriteOutcome {
    /// The operating system took this many bytes from the front.
    Accepted(usize),
    /// There is no room right now.
    WouldBlock,
    /// The write failed with this error number.
    Failed { code: i32 },
}

impl<'a> ReadOutcome<'a> {
    /// The event that this outcome is.
    pub open spec fn event(self) -> Event {
        match self {
            ReadOutcome::Data(bytes) => Event::ReadData(bytes@),
            ReadOutcome::WouldBlock => Event::ReadWouldBlock,
            ReadOutcome::Failed { code } => Event::ReadFailed { code },
        }
    }
}

impl WriteOutcome {
    /// The event that this outcome is.
    pub open spec fn event(self) -> Event {
        match self {
            WriteOutcome::Accepted(count) => Event::Wrote { count: count as nat },
            WriteOutcome::WouldBlock => Event::WriteWouldBlock,
            WriteOutcome::Failed { code } => Event::WriteFailed { code },
        }
    }
}

/// The state of an opened serial link: where it stands towards the
/// multiplexer, and the bytes buffered in either direction.
///
/// A value comes from a completed open sequence and from nowhere else.
#[derive(Debug)]
pub struct SerialTty {
    state: LinkState,
    inbound: Vec<u8>,
    outbound: Vec<u8>,
}

impl View for SerialTty {
    type V = TtyView;

    closed spec fn view(&self) -> TtyView {
        TtyView { state: self.state, inbound: self.inbound@, outbound: self.outbound@ }
    }
}

impl SerialTty {
    /// A freshly opened link.
    pub(crate) fn registered() -> (tty: SerialTty)
        ensures
            tty@ == TtyView::initial(),
    {
        SerialTty { state: LinkState::Registered, inbound: Vec::new(), outbound: Vec::new() }
    }

    /// The state of the link.
    pub fn state(&self) -> (state: LinkState)
        ensures
            state == self@.state,
    {
        self.state
    }

    /// The bytes queued for the wire and not yet written, oldest first: what
    /// the next write is to offer to the operating system.
    pub fn pending(&self) -> (bytes: &[u8])
        ensures
            bytes@ == self@.outbound,
    {
        self.outbound.as_slice()
    }

    /// Takes note that the window geometry has changed. A serial link has no
    /// notion of rows and columns: nothing changes.
    pub fn on_resize(&mut self, window_size: WindowSize)
        ensures
            *final(self) == *old(self),
    {
    }

    /// Queues `bytes` for the wire, behind what is already queued. A link
    /// that is draining or closed takes no more bytes and ignores the call.
    pub fn queue(&mut self, bytes: &[u8]) -> (action: Action)
        ensures
            final(self)@ == old(self)@.step(Event::Queue(bytes@)),
            action == old(self)@.reaction(Event::Queue(bytes@)),
    {
        match self.state {
            LinkState::Registered => {
                self.outbound.extend_from_slice(bytes);
                assert(self.outbound@ =~= old(self).outbound@ + bytes@);
                Action::Wait
            },
            _ => Action::Ignored,
        }
    }

    /// Takes note of how a read ended.
    ///
    /// Bytes that were read go behind those already received, and the host
    /// is to read again; a read of no bytes, or one that would block, sends
    /// the host back to waiting. A failed read closes the link: the host is
    /// to release the handle and surface the error. A link that is draining
    /// or closed ignores the report.
    pub fn on_read(&mut self, outcome: ReadOutcome<'_>) -> (action: Action)
        ensures
            final(self)@ == old(self)@.step(outcome.event()),
            action == old(self)@.reaction(outcome.event()),
    {
        match self.state {
            LinkState::Registered => match outcome {
                ReadOutcome::Data(bytes) => {
                    self.inbound.extend_from_slice(bytes);
                    assert(self.inbound@ =~= old(self).inbound@ + bytes@);
                    if bytes.len() > 0 {
                        Action::ReadAgain
                    } else {
                        Action::Wait
                    }
                },
                ReadOutcome::WouldBlock => Action::Wait,
                ReadOutcome::Failed { code } => {
                    self.state = LinkState::Closed;
                    Action::Release { error: Some(TtyError::TransportIo { code }) }
                },
            },
            _ => Action::Ignored,
        }
    }

    /// Hands out the bytes received so far, oldest first, and forgets them.
    pub fn take_inbound(&mut self) -> (bytes: Vec<u8>)
        ensures
            bytes@ == old(self)@.delivered(Event::TakeInbound),
            final(self)@ == old(self)@.step(Event::TakeInbound),
    {
        let mut bytes: Vec<u8> = Vec::new();
        bytes.append(&mut self.inbound);
        assert(bytes@ =~= old(self).inbound@);
        bytes
    }

    /// Takes note of how a write of the pending bytes ended.
    ///
    /// What the operating system took leaves the front of the queue; the
    /// rest stays for the next writable notification. A count beyond the
    /// pending bytes counts as all of them. While registered, a failed write
    /// closes the link: the host is to release the handle and surface the
    /// error. While draining, the link closes whatever the outcome, and the
    /// host is to release the handle. A closed link ignores the report.
    pub fn on_write(&mut self, outcome: WriteOutcome) -> (action: Action)
        ensures
            final(self)@ == old(self)@.step(outcome.event()),
            action == old(self)@.reaction(outcome.event()),
    {
        match self.state {
            LinkState::Registered => match outcome {
                WriteOutcome::Accepted(count) => {
                    self.discard(count);
                    Action::Wait
                },
                WriteOutcome::WouldBlock => Action::Wait,
                WriteOutcome::Failed { code } => {
                    self.state = LinkState::Closed;
                    Action::Release { error: Some(TtyError::TransportIo { code }) }
                },
            },
            LinkState::Draining => {
                self.state = LinkState::Closed;
                match outcome {
                    WriteOutcome::Accepted(count) => {
                        self.discard(count);
                        Action::Release { error: None }
                    },
                    WriteOutcome::WouldBlock => Action::Release { error: None },
                    WriteOutcome::Failed { code } => Action::Release {
                        error: Some(TtyError::TransportIo { code }),
                    },
                }
            },
            LinkState::Closed => Action::Ignored,
        }
    }

    /// Asks for shutdown. A registered link starts draining: the host is to
    /// deregister the handle, write the pending bytes once and report the
    /// outcome. Asking again, or asking a closed link, changes nothing.
    pub fn shutdown(&mut self) -> (action: Action)
        ensures
            final(self)@ == old(self)@.step(Event::Shutdown),
            action == old(self)@.reaction(Event::Shutdown),
    {
        match self.state {
            LinkState::Registered => {
                self.state = LinkState::Draining;
                Action::Drain
            },
            _ => Action::Ignored,
        }
    }

    /// Removes the first `count` bytes of the outbound queue, or all of them
    /// where there are fewer.
    fn discard(&mut self, count: usize)
        ensures
            final(self).state == old(self).state,
            final(self).inbound == old(self).inbound,
            final(self).outbound@ == old(self).outbound@.skip(old(self)@.taken(count as nat)),
    {
        let taken = if count <= self.outbound.len() {
            count
        } else {
            self.outbound.len()
        };
        let rest = self.outbound.split_off(taken);
        self.outbound = rest;
    }
}

} // verus!
