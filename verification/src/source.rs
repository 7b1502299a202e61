//! The capture source: the state shared between the capture loop and the
//! render side.
//!
//! The capture loop itself — reading the device, sleeping out the frame
//! period — runs on a dedicated thread owned by the embedding program. Each
//! iteration it reports what the device gave it as a [`CaptureEvent`] and
//! this module decides what follows: publish the frame (newest wins), skip
//! a transient empty read, or record a fatal error and tell the loop to
//! exit. The render side polls for the newest frame once per tick and
//! checks the recorded error separately; a dead capture loop degrades to
//! "no new frames forever", never to a crash.

use vstd::prelude::*;

use crate::channel::push_spec;
use crate::channel::FrameChannel;
use crate::frame::Frame;
use crate::frame::FrameView;

verus! {

/// What one capture iteration got out of the device.
pub enum CaptureEvent {
    /// A frame was read.
    Got(Frame),
    /// The device had nothing ready. Not an error: skipped and retried.
    NotReady,
    /// The device failed for good, with its report. Fatal to the capture
    /// loop.
    Failed(String),
}

/// What the capture loop must do after handing over an event.
#[derive(Clone, Copy, PartialEq, Eq, Structural, Debug)]
pub enum CaptureStep {
    /// Sleep out the rest of the frame period and read again.
    Continue,
    /// Leave the loop; the source is stopped or failed.
    Exit,
}

/// A control message for the capture loop's inbox.
#[derive(Clone, Copy, PartialEq, Eq, Structural, Debug)]
pub enum ControlMsg {
    /// Ask the capture loop to exit cleanly.
    Stop,
    /// Change the target frame period, in milliseconds.
    SetPeriodMs(u64),
}

/// The capture source: a frame channel, the target frame period, and the
/// stop and failure state both sides consult.
pub struct FrameSource {
    channel: FrameChannel,
    stop_requested: bool,
    failed: bool,
    error: Option<String>,
    period_ms: u64,
}

impl FrameSource {
    /// The frames pending in the channel, oldest first.
    pub closed spec fn frames(self) -> Seq<FrameView> {
        self.channel.frames()
    }

    /// The channel's capacity.
    pub closed spec fn cap(self) -> nat {
        self.channel.cap()
    }

    /// Whether a stop has been requested.
    pub closed spec fn stop_requested(self) -> bool {
        self.stop_requested
    }

    /// Whether the device has failed for good.
    pub closed spec fn failed(self) -> bool {
        self.failed
    }

    /// The recorded device error, if any.
    pub closed spec fn error_message(self) -> Option<String> {
        self.error
    }

    /// The target frame period in milliseconds.
    pub closed spec fn period_ms(self) -> u64 {
        self.period_ms
    }

    /// Whether the capture loop still has work to do.
    pub open spec fn active(self) -> bool {
        !self.stop_requested() && !self.failed()
    }

    /// The underlying channel is as built: capacity two, never over it.
    pub closed spec fn wf(self) -> bool {
        self.channel.wf()
    }

    /// A fresh source: empty channel, no error, not stopped, capturing at
    /// the given frame period.
    pub fn new(period_ms: u64) -> (r: FrameSource)
        ensures
            r.wf(),
            r.frames().len() == 0,
            r.active(),
            !r.failed(),
            r.error_message() is None,
            r.period_ms() == period_ms,
    {
        FrameSource {
            channel: FrameChannel::new(),
            stop_requested: false,
            failed: false,
            error: None,
            period_ms,
        }
    }

    /// One capture iteration's outcome, decided. A frame is published
    /// newest-wins; an empty read changes nothing; a device failure is
    /// recorded once and ends the loop. After a stop or a failure nothing
    /// is ever published again.
    pub fn ingest(&mut self, event: CaptureEvent) -> (step: CaptureStep)
        requires
            old(self).wf(),
        ensures
            final(self).wf(),
            final(self).cap() == old(self).cap(),
            final(self).period_ms() == old(self).period_ms(),
            final(self).stop_requested() == old(self).stop_requested(),
            !old(self).active() ==> step is Exit && *final(self) == *old(self),
            old(self).active() ==> match event {
                CaptureEvent::Got(f) => {
                    &&& step is Continue
                    &&& final(self).frames() == push_spec(old(self).frames(), old(self).cap(), f@)
                    &&& final(self).frames().last() == f@
                    &&& !final(self).failed()
                    &&& final(self).error_message() == old(self).error_message()
                },
                CaptureEvent::NotReady => step is Continue && *final(self) == *old(self),
                CaptureEvent::Failed(msg) => {
                    &&& step is Exit
                    &&& final(self).failed()
                    &&& final(self).error_message() == Some(msg)
                    &&& final(self).frames() == old(self).frames()
                },
            },
    {
        if self.stop_requested || self.failed {
            return CaptureStep::Exit;
        }
        match event {
            CaptureEvent::Got(f) => {
                self.channel.push(f);
                CaptureStep::Continue
            },
            CaptureEvent::NotReady => CaptureStep::Continue,
            CaptureEvent::Failed(msg) => {
                self.failed = true;
                self.error = Some(msg);
                CaptureStep::Exit
            },
        }
    }

    /// Applies a control message from the inbox: a stop request, or a new
    /// frame period.
    pub fn handle_control(&mut self, msg: ControlMsg)
        requires
            old(self).wf(),
        ensures
            final(self).wf(),
            final(self).frames() == old(self).frames(),
            final(self).cap() == old(self).cap(),
            final(self).failed() == old(self).failed(),
            final(self).error_message() == old(self).error_message(),
            match msg {
                ControlMsg::Stop => final(self).stop_requested() && final(self).period_ms()
                    == old(self).period_ms(),
                ControlMsg::SetPeriodMs(p) => final(self).period_ms() == p
                    && final(self).stop_requested() == old(self).stop_requested(),
            },
    {
        match msg {
            ControlMsg::Stop => {
                self.stop_requested = true;
            },
            ControlMsg::SetPeriodMs(p) => {
                self.period_ms = p;
            },
        }
    }

    /// The newest frame published since the last call, or nothing. Older
    /// pending frames are discarded: the render side always works on the
    /// freshest data. On a failed source the channel drains and then stays
    /// empty, so this returns nothing forever after.
    pub fn poll_latest(&mut self) -> (r: Option<Frame>)
        requires
            old(self).wf(),
        ensures
            final(self).wf(),
            final(self).cap() == old(self).cap(),
            final(self).frames().len() == 0,
            final(self).failed() == old(self).failed(),
            final(self).error_message() == old(self).error_message(),
            final(self).stop_requested() == old(self).stop_requested(),
            final(self).period_ms() == old(self).period_ms(),
            (match r {
                Some(f) => old(self).frames().len() > 0 && f@ == old(self).frames().last(),
                None => old(self).frames().len() == 0,
            }),
    {
        self.channel.poll_latest()
    }

    /// Whether the device has failed for good.
    pub fn has_failed(&self) -> (r: bool)
        ensures
            r == self.failed(),
    {
        self.failed
    }

    /// The recorded device error: set exactly once, when the capture loop
    /// reported a fatal failure.
    pub fn error(&self) -> (r: &Option<String>)
        ensures
            r == self.error_message(),
    {
        &self.error
    }

    /// The target frame period in milliseconds.
    pub fn period(&self) -> (r: u64)
        ensures
            r == self.period_ms(),
    {
        self.period_ms
    }
}

/// How long the capture loop should sleep after a capture iteration that
/// took `elapsed_ms`: the remainder of the frame period, and nothing when
/// the iteration already overran it — a slow iteration never builds a
/// backlog of owed sleep.
pub fn remaining_sleep_ms(period_ms: u64, elapsed_ms: u64) -> (r: u64)
    ensures
        elapsed_ms >= period_ms ==> r == 0,
        elapsed_ms < period_ms ==> r == period_ms - elapsed_ms,
{
    if elapsed_ms >= period_ms {
        0
    } else {
        period_ms - elapsed_ms
    }
}

/// The frame period at a playback speed given in thousandths: double speed
/// (2000) halves the period. The result is rounded down and saturates at
/// the largest representable period.
pub fn period_for_speed(base_period_ms: u64, speed_milli: u32) -> (r: u64)
    requires
        speed_milli > 0,
    ensures
        base_period_ms * 1000 / (speed_milli as int) <= u64::MAX ==> r == base_period_ms * 1000 / (
        speed_milli as int),
        base_period_ms * 1000 / (speed_milli as int) > u64::MAX ==> r == u64::MAX,
{
    let scaled = (base_period_ms as u128) * 1000 / (speed_milli as u128);
    if scaled > u64::MAX as u128 {
        u64::MAX
    } else {
        scaled as u64
    }
}

} // verus!
