use vstd::prelude::*;
use std::collections::VecDeque;
use crate::frames::{convert_frames, frame_size, mono_words};
use crate::transport::{SampleConsumer, SampleProducer};

verus! {

/// Sample rate a session reports when the capture thread did not report a
/// negotiated rate.
pub const DEFAULT_SAMPLE_RATE: u32 = 44100;

/// How long the owner waits for the initialization report, in seconds.
pub const INIT_TIMEOUT_SECS: u64 = 5;

/// How long the capture thread waits for one hardware notification, in milliseconds.
pub const EVENT_TIMEOUT_MS: u32 = 3000;

/// What the owner learned from the capture thread's one-shot report.
pub enum InitReport {
    /// The stream started at this negotiated rate.
    Ready(u32),
    /// Initialization failed, for the given reason.
    Failed(String),
    /// No report came within the bounded wait.
    TimedOut,
}

/// The rate a session exposes for a given report.
pub open spec fn rate_for(report: InitReport) -> u32 {
    match report {
        InitReport::Ready(rate) => rate,
        _ => DEFAULT_SAMPLE_RATE,
    }
}

/// The rate a session exposes: the negotiated one, or the default after a
/// failure report or a timeout. Construction never fails on that account.
pub fn session_rate(report: &InitReport) -> (rate: u32)
    ensures
        rate == rate_for(*report),
{
    match report {
        InitReport::Ready(rate) => *rate,
        _ => DEFAULT_SAMPLE_RATE,
    }
}

/// How the audio client is initialized for capture.
#[derive(Clone, Copy, PartialEq, Eq, Structural)]
pub enum ClientMode {
    /// Loopback capture of a render device.
    Loopback,
    /// Direct capture-direction initialization, with the same format and period.
    DirectCapture,
}

/// The mode to try after `failed` was rejected: loopback falls back once to
/// direct capture; after that the failure is final.
pub fn fallback_mode(failed: ClientMode) -> (next: Option<ClientMode>)
    ensures
        failed == ClientMode::Loopback ==> next == Some(ClientMode::DirectCapture),
        failed == ClientMode::DirectCapture ==> next is None,
{
    match failed {
        ClientMode::Loopback => Some(ClientMode::DirectCapture),
        ClientMode::DirectCapture => None,
    }
}

/// Where the capture loop stands.
#[derive(Clone, Copy, PartialEq, Eq, Structural)]
pub enum LoopStep {
    /// About to read the shutdown flag.
    CheckShutdown,
    /// About to wait for the hardware notification.
    AwaitPacket,
    /// About to ask for the size of the next packet.
    QueryPacket,
    /// About to read a packet of this many frames.
    ReadPacket(u32),
    /// About to convert the bytes read and push them to the transport.
    Deliver,
    /// The loop has ended; the thread returns.
    Stopped,
}

/// What the outside work of one step produced.
#[derive(PartialEq, Eq, Structural)]
pub enum LoopEvent {
    /// The shutdown flag was read with this value.
    ShutdownRead(bool),
    /// The bounded wait returned in time (`true`) or failed or timed out (`false`).
    Waited(bool),
    /// Asking for the packet size failed.
    QueryFailed,
    /// The size of the next packet, if the device gave one.
    PacketSize(Option<u32>),
    /// Reading the packet failed.
    ReadFailed,
    /// Reading queued this many bytes.
    BytesRead(usize),
    /// The bytes were converted and pushed.
    Delivered,
}

/// The capture loop's transitions. An event that does not belong to the
/// current step leaves it unchanged.
pub open spec fn next_step_spec(step: LoopStep, event: LoopEvent) -> LoopStep {
    match (step, event) {
        (LoopStep::CheckShutdown, LoopEvent::ShutdownRead(set)) => if set {
            LoopStep::Stopped
        } else {
            LoopStep::AwaitPacket
        },
        (LoopStep::AwaitPacket, LoopEvent::Waited(ok)) => if ok {
            LoopStep::QueryPacket
        } else {
            LoopStep::Stopped
        },
        (LoopStep::QueryPacket, LoopEvent::QueryFailed) => LoopStep::CheckShutdown,
        (LoopStep::QueryPacket, LoopEvent::PacketSize(size)) => match size {
            Some(n) => if n == 0 {
                LoopStep::CheckShutdown
            } else {
                LoopStep::ReadPacket(n)
            },
            None => LoopStep::CheckShutdown,
        },
        (LoopStep::ReadPacket(_), LoopEvent::ReadFailed) => LoopStep::CheckShutdown,
        (LoopStep::ReadPacket(_), LoopEvent::BytesRead(n)) => if n == 0 {
            LoopStep::CheckShutdown
        } else {
            LoopStep::Deliver
        },
        (LoopStep::Deliver, LoopEvent::Delivered) => LoopStep::CheckShutdown,
        _ => step,
    }
}

/// Teardown is never lost: a stopped loop stays stopped whatever happens, a set
/// shutdown flag stops the loop at its next check, and a failed or timed-out
/// wait stops it without further hardware work.
pub proof fn lemma_loop_stops(event: LoopEvent)
    ensures
        next_step_spec(LoopStep::Stopped, event) == LoopStep::Stopped,
        next_step_spec(LoopStep::CheckShutdown, LoopEvent::ShutdownRead(true)) == LoopStep::Stopped,
        next_step_spec(LoopStep::AwaitPacket, LoopEvent::Waited(false)) == LoopStep::Stopped,
{
}

/// Decides the capture loop's next step from the current one and what its
/// outside work produced. A set shutdown flag ends the loop; so does a failed
/// or timed-out wait. A failed or empty packet query, a failed read or an empty
/// read skip to the next iteration.
pub fn next_step(step: &LoopStep, event: &LoopEvent) -> (next: LoopStep)
    ensures
        next == next_step_spec(*step, *event),
{
    match (step, event) {
        (LoopStep::CheckShutdown, LoopEvent::ShutdownRead(set)) => {
            if *set {
                LoopStep::Stopped
            } else {
                LoopStep::AwaitPacket
            }
        },
        (LoopStep::AwaitPacket, LoopEvent::Waited(ok)) => {
            if *ok {
                LoopStep::QueryPacket
            } else {
                LoopStep::Stopped
            }
        },
        (LoopStep::QueryPacket, LoopEvent::QueryFailed) => LoopStep::CheckShutdown,
        (LoopStep::QueryPacket, LoopEvent::PacketSize(size)) => match size {
            Some(n) => {
                if *n == 0 {
                    LoopStep::CheckShutdown
                } else {
                    LoopStep::ReadPacket(*n)
                }
            },
            None => LoopStep::CheckShutdown,
        },
        (LoopStep::ReadPacket(_), LoopEvent::ReadFailed) => LoopStep::CheckShutdown,
        (LoopStep::ReadPacket(_), LoopEvent::BytesRead(n)) => {
            if *n == 0 {
                LoopStep::CheckShutdown
            } else {
                LoopStep::Deliver
            }
        },
        (LoopStep::Deliver, LoopEvent::Delivered) => LoopStep::CheckShutdown,
        _ => *step,
    }
}

/// Converts one packet of interleaved bytes to mono and offers each sample to
/// the transport without blocking. Returns the number of samples converted and
/// the number the transport accepted; an incomplete trailing frame stays queued.
pub fn deliver_packet(queue: &mut VecDeque<u8>, channels: usize, producer: &mut SampleProducer) -> (counts: (
    usize,
    usize,
))
    requires
        channels >= 1,
        4 * channels <= usize::MAX,
    ensures
        counts.0 == mono_words(old(queue)@, channels as nat).len(),
        counts.1 <= counts.0,
        final(queue)@ == old(queue)@.skip((counts.0 * frame_size(channels as nat)) as int),
{
    let samples = convert_frames(queue, channels);
    let accepted = producer.offer_all(&samples);
    (samples.len(), accepted)
}

/// The one-shot hand-off of a session's consumer half to its owner.
pub struct Handoff<T> {
    item: Option<T>,
}

impl<T> Handoff<T> {
    pub closed spec fn held(&self) -> Option<T> {
        self.item
    }

    /// A hand-off holding `item`.
    pub fn new(item: T) -> (h: Handoff<T>)
        ensures
            h.held() == Some(item),
    {
        Handoff { item: Some(item) }
    }

    /// Hands over the item on the first call, nothing afterwards.
    pub fn take(&mut self) -> (r: Option<T>)
        ensures
            r == old(self).held(),
            final(self).held() is None,
    {
        self.item.take()
    }
}

/// What a session's owner holds besides the capture thread: the rate fixed at
/// construction and, until taken, the consumer half of the transport.
pub struct StreamState {
    rate: u32,
    consumer: Handoff<SampleConsumer>,
}

impl StreamState {
    pub closed spec fn rate(&self) -> u32 {
        self.rate
    }

    pub closed spec fn consumer(&self) -> Option<SampleConsumer> {
        self.consumer.held()
    }

    /// The owner's state after the initialization handshake ended with `report`.
    pub fn new(report: &InitReport, consumer: SampleConsumer) -> (s: StreamState)
        ensures
            s.rate() == rate_for(*report),
            s.consumer() == Some(consumer),
    {
        StreamState { rate: session_rate(report), consumer: Handoff::new(consumer) }
    }

    /// The sample rate, constant for the session's lifetime.
    pub fn sample_rate(&self) -> (r: u32)
        ensures
            r == self.rate(),
    {
        self.rate
    }

    /// Transfers the consumer half to the caller: it is returned by the first
    /// call and never again.
    pub fn take_consumer(&mut self) -> (r: Option<SampleConsumer>)
        ensures
            r == old(self).consumer(),
            final(self).consumer() is None,
            final(self).rate() == old(self).rate(),
    {
        self.consumer.take()
    }
}

} // verus!
