//! Resilient channel state machine: zero-or-one live outbound connection,
//! best-effort non-blocking delivery, and first-writer-wins reconnection.
//!
//! The library never touches a socket itself. The surrounding process
//! identifies each connection it opens by a token, asks [`TelemetrySocket`]
//! where to write, performs one non-blocking write, and reports the
//! [`WriteOutcome`] back. Every transition of the connection state is
//! therefore verified for every outcome the network can produce:
//! a would-block is a silent drop, any other write failure tears the
//! connection down so a background reconnect loop can search again, and a
//! late reconnect never replaces a connection that is already installed.
//!
//! With no connection installed there is nothing to write to and the send
//! path does nothing at all, so a dead or absent peer can never block the
//! caller: the decision functions here are total and free of panics, and
//! the single write the process performs is non-blocking by configuration.

use vstd::prelude::*;

verus! {

/// What one non-blocking write attempt came back with.
#[derive(Clone, Copy, Debug, PartialEq, Eq, Structural)]
pub enum WriteOutcome {
    /// The write was accepted by the local socket (delivery remains
    /// best-effort; there is no acknowledgement).
    Written,
    /// The socket would have blocked; the frame is dropped silently in
    /// favour of fresher data.
    WouldBlock,
    /// The peer is gone or the socket failed; the connection is torn down.
    Failed,
}

/// The abstract state of a channel: which connection is installed, if any,
/// and the record of payloads accepted for delivery on it.
///
/// `delivered` models what the current connection has been handed since it
/// was installed; it is reset when a connection is installed or torn down,
/// so a consumer that connects later never sees a payload sent before it
/// was connected.
pub ghost struct ChannelView {
    /// Token of the installed connection, or `None` while absent.
    pub stream: Option<u64>,
    /// Payloads accepted for delivery on the installed connection, oldest
    /// first.
    pub delivered: Seq<Seq<u8>>,
}

/// The state right after a connection is installed: established, with
/// nothing delivered on it yet.
pub open spec fn installed_view(conn: u64) -> ChannelView {
    ChannelView { stream: Some(conn), delivered: Seq::empty() }
}

/// The state with no connection: absent, with nothing to deliver to.
pub open spec fn cleared_view() -> ChannelView {
    ChannelView { stream: None, delivered: Seq::empty() }
}

/// First-writer-wins install: a new connection is installed only while no
/// connection is present; an established channel is left untouched.
pub open spec fn try_install_view(state: ChannelView, conn: u64) -> ChannelView {
    if state.stream is Some {
        state
    } else {
        installed_view(conn)
    }
}

/// The state after one write attempt with the given outcome: an accepted
/// write is recorded, a would-block changes nothing, and any other failure
/// tears the connection down.
pub open spec fn write_view(state: ChannelView, bytes: Seq<u8>, outcome: WriteOutcome) -> ChannelView
    recommends
        state.stream is Some,
{
    match outcome {
        WriteOutcome::Written => ChannelView {
            stream: state.stream,
            delivered: state.delivered.push(bytes),
        },
        WriteOutcome::WouldBlock => state,
        WriteOutcome::Failed => cleared_view(),
    }
}

/// One outbound best-effort connection that may be absent, installed, or
/// torn down by a failed write.
pub struct TelemetrySocket {
    /// Token of the installed connection, or `None` while absent.
    pub stream: Option<u64>,
    /// Model of the payloads accepted for delivery on the installed
    /// connection.
    pub delivered: Ghost<Seq<Seq<u8>>>,
}

impl View for TelemetrySocket {
    type V = ChannelView;

    open spec fn view(&self) -> ChannelView {
        ChannelView { stream: self.stream, delivered: self.delivered@ }
    }
}

impl TelemetrySocket {
    /// A channel with no connection installed.
    pub fn new() -> (socket: Self)
        ensures
            socket@ == cleared_view(),
    {
        TelemetrySocket { stream: None, delivered: Ghost(Seq::empty()) }
    }

    /// Install a connection unconditionally, replacing whatever was there.
    /// The caller configures the underlying socket for non-blocking,
    /// low-latency writes before handing its token in.
    pub fn set_stream(&mut self, conn: u64)
        ensures
            final(self)@ == installed_view(conn),
    {
        self.stream = Some(conn);
        self.delivered = Ghost(Seq::empty());
    }

    /// Install a connection only if none is present, and report whether it
    /// was installed. A reconnect loop that completes late therefore never
    /// replaces a connection that is already established.
    pub fn try_set_stream(&mut self, conn: u64) -> (installed: bool)
        ensures
            final(self)@ == try_install_view(old(self)@, conn),
            installed == (old(self)@.stream is None),
    {
        if self.stream.is_none() {
            self.set_stream(conn);
            true
        } else {
            false
        }
    }

    /// Tear down whatever connection is installed.
    pub fn clear(&mut self)
        ensures
            final(self)@ == cleared_view(),
    {
        self.stream = None;
        self.delivered = Ghost(Seq::empty());
    }

    /// Where a send should write: the installed connection's token, or
    /// `None` when the frame is to be dropped because no connection is
    /// present. Asking never changes the state and never blocks.
    pub fn send_target(&self) -> (target: Option<u64>)
        ensures
            target == self@.stream,
    {
        self.stream
    }

    /// Record the outcome of the single non-blocking write attempt the
    /// caller made on the installed connection: keep the connection on
    /// success or would-block, tear it down on any other failure.
    pub fn on_write_outcome(&mut self, bytes: &[u8], outcome: WriteOutcome)
        requires
            old(self)@.stream is Some,
        ensures
            final(self)@ == write_view(old(self)@, bytes@, outcome),
    {
        match outcome {
            WriteOutcome::Written => {
                self.delivered = Ghost(self.delivered@.push(bytes@));
            },
            WriteOutcome::WouldBlock => {},
            WriteOutcome::Failed => {
                self.clear();
            },
        }
    }
}

/// A connection that is already installed is never replaced by a completing
/// reconnect attempt: only after the installed connection is torn down may
/// a new one be installed.
pub proof fn lemma_first_writer_wins(state: ChannelView, conn: u64)
    requires
        state.stream is Some,
    ensures
        try_install_view(state, conn) == state,
{
}

/// A payload handed to the channel while no connection is installed is
/// dropped, not queued: a connection installed later starts with an empty
/// delivery record, so a consumer that connects later never sees it.
pub proof fn lemma_late_consumer_sees_nothing_earlier(state: ChannelView, conn: u64)
    requires
        state.stream is None,
    ensures
        try_install_view(state, conn).stream == Some(conn),
        try_install_view(state, conn).delivered =~= Seq::<Seq<u8>>::empty(),
{
}

/// Recovery after a peer disconnect: once a write fails, the channel is
/// absent, so the next completed reconnect attempt installs its connection,
/// and the next accepted write is delivered to that new connection. No
/// restart of the process is needed.
pub proof fn lemma_peer_disconnect_recovery(
    state: ChannelView,
    lost: Seq<u8>,
    conn: u64,
    fresh: Seq<u8>,
)
    requires
        state.stream is Some,
    ensures
        ({
            let torn = write_view(state, lost, WriteOutcome::Failed);
            let reconnected = try_install_view(torn, conn);
            &&& torn.stream is None
            &&& reconnected.stream == Some(conn)
            &&& write_view(reconnected, fresh, WriteOutcome::Written).delivered =~= seq![fresh]
        }),
{
}

} // verus!
