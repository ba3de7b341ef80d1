//! The motion/camera controller: a reusable state machine that owns the
//! lifecycle of one external capture process.
//!
//! The controller is driven from outside: a control surface calls [`MotionController::start`]
//! and [`MotionController::request_shutdown`], and the run loop feeds one
//! debounced sensor reading per poll interval into [`MotionController::record_step`]
//! (or [`MotionController::stream_step`] in streaming mode) and performs the
//! returned action — launching the capture process, or sending it its single
//! stop signal. Keeping the decisions here and the process work outside makes
//! every transition checkable: in particular, a stop signal is only ever
//! produced from a state that holds a process id, so the "signal a process
//! that was never launched" fault is structurally prevented.

use vstd::prelude::*;

use crate::decimal::dec_rep;
use crate::decimal::push_dec;

verus! {

/// Number of one-second sensor samples in one debounce window: motion is
/// declared present if at least one sample in the window reads high.
pub const DEBOUNCE_WINDOW: usize = 5;

/// Seconds between two iterations of the run loop once a recording runs.
pub const POLL_INTERVAL_SECS: u64 = 1;

/// The two mutually exclusive capture modes.
#[derive(Clone, Copy, PartialEq, Eq, Debug)]
pub enum CameraType {
    Stream,
    Record,
}

/// Why a `start` request was rejected.
#[derive(Clone, Copy, PartialEq, Eq, Debug)]
pub enum StartError {
    /// The controller already owns an active session.
    AlreadyActive,
    /// A shutdown is pending; the controller cannot be reactivated yet.
    ShuttingDown,
}

/// Why a `request_shutdown` request was rejected.
#[derive(Clone, Copy, PartialEq, Eq, Debug)]
pub enum ShutdownError {
    /// There is no active session to shut down.
    NotActive,
    /// A shutdown has already been requested.
    AlreadyShuttingDown,
}

/// What the record-mode run loop must do after one poll iteration.
#[derive(Clone, Copy, PartialEq, Eq, Debug)]
pub enum RecordAction {
    /// Leave the loop; if `stop` holds a process id, send it one stop signal.
    ShutDown { stop: Option<u32> },
    /// Motion began: spawn the capture process, then report its id with
    /// [`MotionController::note_launched`] (or [`MotionController::abort`] on
    /// spawn failure).
    Launch,
    /// Motion ended: send the recorded process one stop signal.
    StopRecording { stop: u32 },
    /// Nothing to do this iteration.
    Wait,
}

/// What the stream-mode run loop must do after one poll iteration.
#[derive(Clone, Copy, PartialEq, Eq, Debug)]
pub enum StreamAction {
    /// Leave the loop and send the streaming process one stop signal.
    ShutDown { stop: u32 },
    /// Keep streaming.
    Wait,
}

/// State of the motion/camera controller.
///
/// `active` and `shutdown_requested` are the two flags the control surface
/// observes; `recording` and `process` belong to the record-mode run loop.
/// The caller is expected to guard the whole value by one exclusive lock, so
/// every method here is one atomic transition.
pub struct MotionController {
    /// A session (run loop) currently owns this controller.
    pub active: bool,
    /// A shutdown was requested and has not been observed by the loop yet.
    pub shutdown_requested: bool,
    /// Record mode only: the capture process is currently running.
    pub recording: bool,
    /// Id of the owned external process, if one is running.
    pub process: Option<u32>,
    /// Mode of the active session, if any.
    pub mode: Option<CameraType>,
}

/// The controller state every session starts from and returns to.
pub open spec fn idle_controller() -> MotionController {
    MotionController {
        active: false,
        shutdown_requested: false,
        recording: false,
        process: None,
        mode: None,
    }
}

/// Result of [`MotionController::start`] on state `s`.
pub open spec fn start_result(s: MotionController, mode: CameraType) -> Result<(), StartError> {
    if s.active {
        Err(StartError::AlreadyActive)
    } else if s.shutdown_requested {
        Err(StartError::ShuttingDown)
    } else {
        Ok(())
    }
}

/// State after [`MotionController::start`] on state `s`.
pub open spec fn start_next(s: MotionController, mode: CameraType) -> MotionController {
    if s.active || s.shutdown_requested {
        s
    } else {
        MotionController { active: true, mode: Some(mode), ..s }
    }
}

/// Result of [`MotionController::request_shutdown`] on state `s`.
pub open spec fn request_shutdown_result(s: MotionController) -> Result<(), ShutdownError> {
    if !s.active {
        Err(ShutdownError::NotActive)
    } else if s.shutdown_requested {
        Err(ShutdownError::AlreadyShuttingDown)
    } else {
        Ok(())
    }
}

/// State after [`MotionController::request_shutdown`] on state `s`.
pub open spec fn request_shutdown_next(s: MotionController) -> MotionController {
    if !s.active || s.shutdown_requested {
        s
    } else {
        MotionController { shutdown_requested: true, ..s }
    }
}

/// Action of one record-mode poll iteration on state `s` with debounced
/// sensor reading `motion`.
pub open spec fn record_step_action(s: MotionController, motion: bool) -> RecordAction {
    if s.shutdown_requested {
        RecordAction::ShutDown { stop: s.process }
    } else if motion && !s.recording {
        RecordAction::Launch
    } else if !motion && s.recording {
        RecordAction::StopRecording { stop: s.process->0 }
    } else {
        RecordAction::Wait
    }
}

/// State after one record-mode poll iteration on state `s`.
pub open spec fn record_step_next(s: MotionController, motion: bool) -> MotionController {
    if s.shutdown_requested {
        idle_controller()
    } else if !motion && s.recording {
        MotionController { recording: false, process: None, ..s }
    } else {
        s
    }
}

/// State after the run loop reports a freshly spawned capture process.
pub open spec fn note_launched_next(s: MotionController, pid: u32) -> MotionController {
    MotionController { recording: true, process: Some(pid), ..s }
}

/// Action of one stream-mode poll iteration on state `s`.
pub open spec fn stream_step_action(s: MotionController) -> StreamAction {
    if s.shutdown_requested {
        StreamAction::ShutDown { stop: s.process->0 }
    } else {
        StreamAction::Wait
    }
}

/// State after one stream-mode poll iteration on state `s`.
pub open spec fn stream_step_next(s: MotionController) -> MotionController {
    if s.shutdown_requested {
        idle_controller()
    } else {
        s
    }
}

impl MotionController {
    /// Internal consistency of the controller.
    ///
    /// In particular `recording` implies an owned process id, so a stop
    /// signal always has a valid target, and an inactive controller owns
    /// nothing.
    pub open spec fn wf(self) -> bool {
        &&& (self.mode is Some <==> self.active)
        &&& (self.recording ==> self.mode == Some(CameraType::Record))
        &&& (self.mode == Some(CameraType::Record) ==> (self.recording <==> self.process is Some))
        &&& (self.mode is None ==> self.process is None)
    }

    /// A fresh, idle controller.
    pub fn new() -> (c: MotionController)
        ensures
            c == idle_controller(),
            c.wf(),
    {
        MotionController {
            active: false,
            shutdown_requested: false,
            recording: false,
            process: None,
            mode: None,
        }
    }

    /// Begin a session in the given mode.
    ///
    /// Fails with `AlreadyActive` while a session is active and with
    /// `ShuttingDown` while a shutdown is pending; in both cases the state —
    /// the `recording` flag included — is left exactly as it was. On success
    /// the controller becomes active in `mode` and the caller must run the
    /// poll loop for it.
    pub fn start(&mut self, mode: CameraType) -> (r: Result<(), StartError>)
        requires
            old(self).wf(),
        ensures
            final(self).wf(),
            r == start_result(*old(self), mode),
            *final(self) == start_next(*old(self), mode),
            old(self).active ==> r == Err::<(), StartError>(StartError::AlreadyActive)
                && *final(self) == *old(self),
            (!old(self).active && !old(self).shutdown_requested) ==> r == Ok::<(), StartError>(())
                && final(self).active,
    {
        if self.active {
            return Err(StartError::AlreadyActive);
        }
        if self.shutdown_requested {
            return Err(StartError::ShuttingDown);
        }
        self.active = true;
        self.mode = Some(mode);
        Ok(())
    }

    /// Ask the active session to stop.
    ///
    /// Returns immediately after setting the flag; the run loop observes it
    /// at the top of its next iteration, so teardown completes within one
    /// poll interval, not before this call returns.
    pub fn request_shutdown(&mut self) -> (r: Result<(), ShutdownError>)
        requires
            old(self).wf(),
        ensures
            final(self).wf(),
            r == request_shutdown_result(*old(self)),
            *final(self) == request_shutdown_next(*old(self)),
            r is Err ==> *final(self) == *old(self),
    {
        if !self.active {
            return Err(ShutdownError::NotActive);
        }
        if self.shutdown_requested {
            return Err(ShutdownError::AlreadyShuttingDown);
        }
        self.shutdown_requested = true;
        Ok(())
    }

    /// The two flags the control surface reports: `(active, shutdown_requested)`.
    pub fn status(&self) -> (r: (bool, bool))
        ensures
            r.0 == self.active,
            r.1 == self.shutdown_requested,
    {
        (self.active, self.shutdown_requested)
    }

    /// One record-mode poll iteration.
    ///
    /// A pending shutdown wins over everything: the session's process (if
    /// any) gets its one stop signal and the controller returns to idle.
    /// Otherwise motion starting launches, motion persisting waits, and
    /// motion ending stops the recorded process.
    pub fn record_step(&mut self, motion: bool) -> (a: RecordAction)
        requires
            old(self).wf(),
            old(self).active,
            old(self).mode == Some(CameraType::Record),
        ensures
            final(self).wf(),
            a == record_step_action(*old(self), motion),
            *final(self) == record_step_next(*old(self), motion),
            old(self).shutdown_requested ==> !final(self).active && !final(self).shutdown_requested,
    {
        if self.shutdown_requested {
            let stop = self.process;
            self.active = false;
            self.shutdown_requested = false;
            self.recording = false;
            self.process = None;
            self.mode = None;
            return RecordAction::ShutDown { stop };
        }
        if motion && !self.recording {
            return RecordAction::Launch;
        }
        if !motion && self.recording {
            // wf guarantees a recording session owns a process id, so the
            // stop signal always has a valid target
            let stop = self.process.unwrap();
            self.recording = false;
            self.process = None;
            return RecordAction::StopRecording { stop };
        }
        RecordAction::Wait
    }

    /// Record the id of the capture process the run loop just spawned,
    /// after a [`RecordAction::Launch`].
    pub fn note_launched(&mut self, pid: u32)
        requires
            old(self).wf(),
            old(self).active,
            old(self).mode == Some(CameraType::Record),
            !old(self).recording,
        ensures
            final(self).wf(),
            *final(self) == note_launched_next(*old(self), pid),
            final(self).recording,
    {
        self.recording = true;
        self.process = Some(pid);
    }

    /// Record the id of the streaming process launched at stream-loop entry.
    pub fn stream_started(&mut self, pid: u32)
        requires
            old(self).wf(),
            old(self).active,
            old(self).mode == Some(CameraType::Stream),
        ensures
            final(self).wf(),
            *final(self) == (MotionController { process: Some(pid), ..*old(self) }),
    {
        self.process = Some(pid);
    }

    /// One stream-mode poll iteration: the single streaming process runs
    /// until a shutdown is requested; motion only gets logged by the caller.
    pub fn stream_step(&mut self) -> (a: StreamAction)
        requires
            old(self).wf(),
            old(self).active,
            old(self).mode == Some(CameraType::Stream),
            old(self).process is Some,
        ensures
            final(self).wf(),
            a == stream_step_action(*old(self)),
            *final(self) == stream_step_next(*old(self)),
            old(self).shutdown_requested ==> !final(self).active && !final(self).shutdown_requested,
    {
        if self.shutdown_requested {
            let stop = self.process.unwrap();
            self.active = false;
            self.shutdown_requested = false;
            self.recording = false;
            self.process = None;
            self.mode = None;
            return StreamAction::ShutDown { stop };
        }
        StreamAction::Wait
    }

    /// Abort the session after a fatal fault (the capture process could not
    /// be spawned or signalled). The run loop exits and the status surface
    /// must no longer report the controller as active.
    pub fn abort(&mut self)
        ensures
            final(self).wf(),
            *final(self) == idle_controller(),
            !final(self).active,
    {
        self.active = false;
        self.shutdown_requested = false;
        self.recording = false;
        self.process = None;
        self.mode = None;
    }
}

/// Motion is present in a debounce window iff at least one of its first
/// [`DEBOUNCE_WINDOW`] samples reads high.
pub open spec fn spec_motion(samples: Seq<bool>) -> bool {
    exists|i: int| 0 <= i < samples.len() && i < DEBOUNCE_WINDOW && samples[i]
}

/// Debounced motion decision over the samples of one window, at most
/// [`DEBOUNCE_WINDOW`] of which are consulted (the first high sample
/// decides, as the sampling loop stops there).
pub fn motion_from_samples(samples: &Vec<bool>) -> (r: bool)
    ensures
        r == spec_motion(samples@),
{
    let mut i: usize = 0;
    while i < samples.len() && i < DEBOUNCE_WINDOW
        invariant
            0 <= i <= samples.len(),
            forall|j: int| 0 <= j < i ==> !samples@[j],
        decreases samples.len() - i,
    {
        if samples[i] {
            return true;
        }
        i += 1;
    }
    false
}

/// The output artifact path of a recording started at `secs` (seconds since
/// the epoch) under the save directory `dir`.
pub open spec fn recording_path_spec(dir: Seq<char>, secs: u64) -> Seq<char> {
    dir + "/motion_"@ + dec_rep(secs as nat) + ".mp4"@
}

/// Build the timestamped output artifact path for a recording session.
pub fn recording_output_path(dir: &str, secs: u64) -> (r: String)
    ensures
        r@ == recording_path_spec(dir@, secs),
{
    let mut s = String::from_str(dir);
    s.append("/motion_");
    push_dec(&mut s, secs);
    s.append(".mp4");
    proof {
        assert(s@ =~= recording_path_spec(dir@, secs));
    }
    s
}

/// Law: a shutdown request on an active record-mode session succeeds, and
/// the very next poll iteration — whatever the sensor shows — leaves the
/// loop with at most one stop signal (exactly the session's process, if one
/// is recording) and drives `active` back to `false`. No further iteration
/// can run, because every step demands an active controller.
pub proof fn lemma_shutdown_within_one_poll(s: MotionController, motion: bool)
    requires
        s.wf(),
        s.active,
        !s.shutdown_requested,
        s.mode == Some(CameraType::Record),
    ensures
        ({
            let s1 = request_shutdown_next(s);
            let s2 = record_step_next(s1, motion);
            &&& request_shutdown_result(s) == Ok::<(), ShutdownError>(())
            &&& record_step_action(s1, motion) == (RecordAction::ShutDown { stop: s.process })
            &&& s2 == idle_controller()
            &&& !s2.active
        }),
{
}

/// Law: a shutdown request on an active streaming session succeeds, and the
/// next poll iteration stops the one streaming process and drives `active`
/// back to `false`.
pub proof fn lemma_shutdown_within_one_poll_stream(s: MotionController, pid: u32)
    requires
        s.wf(),
        s.active,
        !s.shutdown_requested,
        s.mode == Some(CameraType::Stream),
        s.process == Some(pid),
    ensures
        ({
            let s1 = request_shutdown_next(s);
            let s2 = stream_step_next(s1);
            &&& request_shutdown_result(s) == Ok::<(), ShutdownError>(())
            &&& stream_step_action(s1) == (StreamAction::ShutDown { stop: pid })
            &&& s2 == idle_controller()
            &&& !s2.active
        }),
{
}

/// The controller state after `n` record-mode poll iterations that all
/// observe motion.
pub open spec fn iterate_motion_steps(s: MotionController, n: nat) -> MotionController
    decreases n,
{
    if n == 0 {
        s
    } else {
        record_step_next(iterate_motion_steps(s, (n - 1) as nat), true)
    }
}

/// Law: while motion keeps being detected, a recording session is a fixed
/// point: any number of further poll iterations leaves the state unchanged
/// — the recording flag stays set — and every one of those iterations only
/// waits, so no second process can be launched before the first stops.
pub proof fn lemma_no_second_launch(s: MotionController, n: nat)
    requires
        s.wf(),
        s.active,
        s.mode == Some(CameraType::Record),
        !s.shutdown_requested,
        s.recording,
    ensures
        iterate_motion_steps(s, n) == s,
        record_step_action(iterate_motion_steps(s, n), true) == RecordAction::Wait,
    decreases n,
{
    if n > 0 {
        lemma_no_second_launch(s, (n - 1) as nat);
    }
}

/// Law: a debounce window with at least one high sample declares motion, a
/// non-recording session then launches exactly once, and while motion keeps
/// being detected the recording flag stays set and no second launch is
/// possible before the first process stops.
pub proof fn lemma_motion_launches_once(s: MotionController, samples: Seq<bool>, pid: u32)
    requires
        s.wf(),
        s.active,
        s.mode == Some(CameraType::Record),
        !s.shutdown_requested,
        !s.recording,
        samples.len() == DEBOUNCE_WINDOW,
        exists|i: int| 0 <= i < samples.len() && samples[i],
    ensures
        spec_motion(samples),
        record_step_action(s, true) == RecordAction::Launch,
        record_step_next(s, true) == s,
        ({
            let launched = note_launched_next(s, pid);
            &&& launched.recording
            &&& record_step_action(launched, true) == RecordAction::Wait
            &&& record_step_next(launched, true) == launched
        }),
{
    let i = choose|i: int| 0 <= i < samples.len() && samples[i];
    assert(0 <= i < samples.len() && i < DEBOUNCE_WINDOW && samples[i]);
}

} // verus!
