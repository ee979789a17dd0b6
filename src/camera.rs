//! The capture stream manager: which sensor is active, whether the preview
//! worker runs, and the hardware operations that starting, stopping,
//! switching and capturing take, in the order they must happen.

use vstd::prelude::*;
use crate::command::{Command, SubdevFormat};
use crate::media::{
    after_link, after_unlink, link_commands, link_request, linked, other, LinkError, LinkState,
    MediaDevice, Sensor,
};

verus! {

/// Number of memory-mapped buffers on the capture device.
pub const NUM_BUFFERS: u32 = 4;

/// Frames dropped after a format change before one is kept.
pub const SETTLE_FRAMES: u32 = 6;

/// Pause before reconfiguring for a capture, in milliseconds: a format change
/// too soon after streaming stopped finds the device busy.
pub const CAPTURE_DELAY_MS: u32 = 200;

/// A sensor mode: frame size and frames per second.
#[derive(Clone, Copy, Debug, PartialEq, Eq, Structural)]
pub struct Mode {
    pub width: u32,
    pub height: u32,
    pub fps: u32,
}

/// The preview mode of each sensor.
pub open spec fn preview_mode(s: Sensor) -> Mode {
    match s {
        Sensor::Back => Mode { width: 1280, height: 720, fps: 30 },
        Sensor::Front => Mode { width: 1280, height: 960, fps: 15 },
    }
}

/// The full-resolution capture mode of each sensor.
pub open spec fn capture_mode(s: Sensor) -> Mode {
    match s {
        Sensor::Back => Mode { width: 2592, height: 1944, fps: 15 },
        Sensor::Front => Mode { width: 1600, height: 1200, fps: 15 },
    }
}

/// Returns the preview mode of a sensor.
pub fn preview_mode_of(s: Sensor) -> (r: Mode)
    ensures
        r == preview_mode(s),
{
    match s {
        Sensor::Back => Mode { width: 1280, height: 720, fps: 30 },
        Sensor::Front => Mode { width: 1280, height: 960, fps: 15 },
    }
}

/// Returns the capture mode of a sensor.
pub fn capture_mode_of(s: Sensor) -> (r: Mode)
    ensures
        r == capture_mode(s),
{
    match s {
        Sensor::Back => Mode { width: 2592, height: 1944, fps: 15 },
        Sensor::Front => Mode { width: 1600, height: 1200, fps: 15 },
    }
}

/// Why the camera refuses an operation.
#[derive(Clone, Copy, Debug, PartialEq, Eq, Structural)]
pub enum CameraError {
    /// The preview worker is running: stop it first.
    Streaming,
    /// The active sensor cannot be linked.
    Link(LinkError),
}

/// Setting the capture device to a mode's size, then the buffer pool: all
/// buffers but the first are queued before the first frame is taken.
pub open spec fn stream_setup_commands(mode: Mode) -> Seq<Command> {
    seq![
        Command::ConfigureCapture(mode.width, mode.height),
        Command::AllocateBuffers(NUM_BUFFERS),
        Command::QueueBuffer(1),
        Command::QueueBuffer(2),
        Command::QueueBuffer(3),
    ]
}

/// Sensor configuration for preview: format, frame period, and the mirror
/// that the front sensor always needs.
pub open spec fn preview_sensor_commands(s: Sensor) -> Seq<Command> {
    let mode = preview_mode(s);
    let base = seq![
        Command::SetFormat(s, SubdevFormat::spec_request(mode.width, mode.height)),
        Command::SetInterval(s, 1, mode.fps),
    ];
    if s == Sensor::Front {
        base.push(Command::HFlip(Sensor::Front, true))
    } else {
        base
    }
}

/// Everything that starting the preview of sensor `s` sends when the link
/// state is `state` and the worker is stopped.
pub open spec fn start_commands(m: &MediaDevice, state: LinkState, s: Sensor) -> Seq<Command> {
    seq![Command::SetupLink(link_request(m, other(s), false))] + link_commands(
        m,
        after_unlink(state, other(s)),
        s,
    ) + preview_sensor_commands(s) + stream_setup_commands(preview_mode(s)).push(
        Command::StartWorker,
    )
}

/// What stopping sends: the flag is cleared and its lock released first,
/// then the worker, if any, is joined.
pub open spec fn stop_commands(worker_running: bool) -> Seq<Command> {
    if worker_running {
        seq![Command::RequestStop, Command::JoinWorker]
    } else {
        seq![Command::RequestStop]
    }
}

/// The camera controller.
#[derive(Debug)]
pub struct Camera {
    pub media: MediaDevice,
    pub sensor: Sensor,
    pub worker_running: bool,
}

impl Camera {
    /// A running worker always streams from the sensor that is linked.
    pub open spec fn wf(&self) -> bool {
        self.worker_running ==> self.media.state == linked(self.sensor)
    }

    /// A camera over a freshly set-up media device, with the back sensor
    /// active and no worker.
    pub fn new(media: MediaDevice) -> (r: Camera)
        ensures
            r.wf(),
            r.media == media,
            r.sensor == Sensor::Back,
            !r.worker_running,
    {
        Camera { media, sensor: Sensor::Back, worker_running: false }
    }

    /// Starts the preview of the active sensor: unlinks the other sensor,
    /// links this one, sets its preview mode, prepares the capture device
    /// and starts the worker. Refused while a worker runs.
    pub fn start_preview(&mut self) -> (r: Result<Vec<Command>, CameraError>)
        requires
            old(self).wf(),
        ensures
            final(self).wf(),
            old(self).worker_running ==> r == Err::<Vec<Command>, CameraError>(CameraError::Streaming)
                && *final(self) == *old(self),
            !old(self).worker_running ==> r is Ok && r->Ok_0@ == start_commands(
                &old(self).media,
                old(self).media.state,
                old(self).sensor,
            ) && final(self).worker_running && final(self).sensor == old(self).sensor
                && final(self).media.state == linked(old(self).sensor) && final(self).media.back
                == old(self).media.back && final(self).media.front == old(self).media.front
                && final(self).media.capture == old(self).media.capture
                && final(self).media.back_path == old(self).media.back_path
                && final(self).media.front_path == old(self).media.front_path,
    {
        if self.worker_running {
            return Err(CameraError::Streaming);
        }
        let s = self.sensor;
        let mut cmds: Vec<Command> = Vec::new();
        let o = match s {
            Sensor::Back => Sensor::Front,
            Sensor::Front => Sensor::Back,
        };
        cmds.push(self.media.unlink_camera(o));
        let mut linking = match self.media.link_camera(s) {
            Ok(c) => c,
            Err(e) => {
                return Err(CameraError::Link(e));
            },
        };
        cmds.append(&mut linking);
        let mode = preview_mode_of(s);
        cmds.push(Command::SetFormat(s, SubdevFormat::request(mode.width, mode.height)));
        cmds.push(Command::SetInterval(s, 1, mode.fps));
        if s == Sensor::Front {
            cmds.push(Command::HFlip(Sensor::Front, true));
        }
        push_stream_setup(&mut cmds, mode);
        cmds.push(Command::StartWorker);
        self.worker_running = true;
        proof {
            assert(cmds@ =~= start_commands(&old(self).media, old(self).media.state, s));
        }
        Ok(cmds)
    }

    /// Stops the preview: clears the streaming flag, releasing its lock,
    /// then waits for the worker to exit. No frame arrives after this.
    pub fn stop_preview(&mut self) -> (r: Vec<Command>)
        ensures
            final(self).wf(),
            r@ == stop_commands(old(self).worker_running),
            !final(self).worker_running,
            final(self).sensor == old(self).sensor,
            final(self).media == old(self).media,
    {
        let mut cmds: Vec<Command> = Vec::new();
        cmds.push(Command::RequestStop);
        if self.worker_running {
            cmds.push(Command::JoinWorker);
            self.worker_running = false;
        }
        proof {
            assert(cmds@ =~= stop_commands(old(self).worker_running));
        }
        cmds
    }

    /// Switches to the other sensor: a full stop with the worker joined,
    /// then the preview of the other sensor.
    pub fn switch_sensor(&mut self) -> (r: Vec<Command>)
        ensures
            final(self).wf(),
            final(self).sensor == other(old(self).sensor),
            final(self).worker_running,
            final(self).media.state == linked(other(old(self).sensor)),
            r@ == stop_commands(old(self).worker_running) + start_commands(
                &old(self).media,
                old(self).media.state,
                other(old(self).sensor),
            ),
    {
        let mut cmds = self.stop_preview();
        self.sensor = match self.sensor {
            Sensor::Back => Sensor::Front,
            Sensor::Front => Sensor::Back,
        };
        let mut start = match self.start_preview() {
            Ok(c) => c,
            Err(_) => Vec::new(),
        };
        cmds.append(&mut start);
        cmds
    }
}

/// Everything that a capture with sensor `s` sends when the link state is
/// `state` and `s` may be linked: the pause, the link (nothing when it is
/// linked already), the capture mode, the capture device, one frame.
pub open spec fn capture_commands(m: &MediaDevice, state: LinkState, s: Sensor) -> Seq<Command> {
    let mode = capture_mode(s);
    seq![Command::Sleep(CAPTURE_DELAY_MS)] + link_commands(m, state, s) + seq![
        Command::SetInterval(s, 1, mode.fps),
        Command::SetFormat(s, SubdevFormat::spec_request(mode.width, mode.height)),
    ] + stream_setup_commands(mode).push(Command::CaptureFrame)
}

impl Camera {
    /// Captures one full-resolution frame with the active sensor. Refused
    /// while the preview worker runs, and while the other sensor is linked.
    pub fn capture(&mut self) -> (r: Result<Vec<Command>, CameraError>)
        requires
            old(self).wf(),
        ensures
            final(self).wf(),
            final(self).sensor == old(self).sensor,
            !final(self).worker_running == !old(self).worker_running,
            old(self).worker_running ==> r == Err::<Vec<Command>, CameraError>(CameraError::Streaming)
                && *final(self) == *old(self),
            !old(self).worker_running ==> match after_link(old(self).media.state, old(self).sensor) {
                Ok(next) => r is Ok && r->Ok_0@ == capture_commands(
                    &old(self).media,
                    old(self).media.state,
                    old(self).sensor,
                ) && final(self).media.state == next,
                Err(e) => r == Err::<Vec<Command>, CameraError>(CameraError::Link(e)),
            },
    {
        if self.worker_running {
            return Err(CameraError::Streaming);
        }
        let s = self.sensor;
        let mut cmds: Vec<Command> = Vec::new();
        cmds.push(Command::Sleep(CAPTURE_DELAY_MS));
        let mut linking = match self.media.link_camera(s) {
            Ok(c) => c,
            Err(e) => {
                return Err(CameraError::Link(e));
            },
        };
        cmds.append(&mut linking);
        let mode = capture_mode_of(s);
        cmds.push(Command::SetInterval(s, 1, mode.fps));
        cmds.push(Command::SetFormat(s, SubdevFormat::request(mode.width, mode.height)));
        push_stream_setup(&mut cmds, mode);
        cmds.push(Command::CaptureFrame);
        proof {
            assert(cmds@ =~= capture_commands(&old(self).media, old(self).media.state, s));
        }
        Ok(cmds)
    }
}

/// Whether a command list stops and joins the worker before anything else,
/// and starts a worker only at its very end.
pub open spec fn joins_before_restart(cmds: Seq<Command>) -> bool {
    &&& cmds.len() >= 3
    &&& cmds[0] == Command::RequestStop
    &&& cmds[1] == Command::JoinWorker
    &&& cmds[cmds.len() - 1] == Command::StartWorker
    &&& forall|i: int| 2 <= i < cmds.len() - 1 ==> #[trigger] cmds[i] != Command::StartWorker
        && cmds[i] != Command::JoinWorker && cmds[i] != Command::RequestStop
}

/// Switching sensors while previewing first stops the worker and waits for
/// it, then reconfigures links and formats, and only then starts the new
/// worker: no worker ever runs against a sensor it did not configure.
pub proof fn lemma_switch_joins_before_restart(m: &MediaDevice, state: LinkState, s: Sensor)
    ensures
        joins_before_restart(stop_commands(true) + start_commands(m, state, other(s))),
{
    let t = other(s);
    let cmds = stop_commands(true) + start_commands(m, state, t);
    let middle = seq![Command::SetupLink(link_request(m, other(t), false))] + link_commands(
        m,
        after_unlink(state, other(t)),
        t,
    ) + preview_sensor_commands(t) + stream_setup_commands(preview_mode(t));
    assert(start_commands(m, state, t) == middle.push(Command::StartWorker));
    assert forall|i: int| 0 <= i < middle.len() implies #[trigger] middle[i] != Command::StartWorker
        && middle[i] != Command::JoinWorker && middle[i] != Command::RequestStop by {
        let a = seq![Command::SetupLink(link_request(m, other(t), false))];
        let b = link_commands(m, after_unlink(state, other(t)), t);
        let c = preview_sensor_commands(t);
        let d = stream_setup_commands(preview_mode(t));
        assert(middle == a + b + c + d);
        if i < a.len() {
        } else if i < a.len() + b.len() {
            assert(middle[i] == b[i - a.len()]);
        } else if i < a.len() + b.len() + c.len() {
            assert(middle[i] == c[i - a.len() - b.len()]);
        } else {
            assert(middle[i] == d[i - a.len() - b.len() - c.len()]);
        }
    }
    assert forall|i: int| 2 <= i < cmds.len() - 1 implies #[trigger] cmds[i] != Command::StartWorker
        && cmds[i] != Command::JoinWorker && cmds[i] != Command::RequestStop by {
        assert(cmds[i] == middle[i - 2]);
    }
}

/// Counts the frames of a capture: the first `SETTLE_FRAMES` after the
/// format change are dropped while the sensor settles, the next is kept.
#[derive(Clone, Copy, Debug, PartialEq, Eq, Structural)]
pub struct CaptureSelector {
    pub dropped: u32,
}

impl CaptureSelector {
    pub fn new() -> (r: CaptureSelector)
        ensures
            r.dropped == 0,
    {
        CaptureSelector { dropped: 0 }
    }

    /// Decides on the next frame: `true` keeps it, `false` drops it.
    pub fn on_frame(&mut self) -> (keep: bool)
        requires
            old(self).dropped <= SETTLE_FRAMES,
        ensures
            keep == (old(self).dropped == SETTLE_FRAMES),
            final(self).dropped == if keep { old(self).dropped as int } else { old(self).dropped + 1 },
            final(self).dropped <= SETTLE_FRAMES,
    {
        if self.dropped < SETTLE_FRAMES {
            self.dropped = self.dropped + 1;
            false
        } else {
            true
        }
    }
}

/// Dequeue failures in a row that the streaming loop retries before it
/// reports the stream as broken.
pub const MAX_DEQUEUE_RETRIES: u32 = 3;

/// What the streaming loop does after one attempt to dequeue a frame.
#[derive(Clone, Copy, Debug, PartialEq, Eq, Structural)]
pub enum DequeueOutcome {
    /// A frame came: process it.
    Frame,
    /// The attempt failed: try again.
    Retry,
    /// Too many attempts failed in a row: the stream is broken.
    Broken,
}

/// Counts dequeue failures in a row.
#[derive(Clone, Copy, Debug, PartialEq, Eq, Structural)]
pub struct DequeueRetry {
    pub failures: u32,
}

impl DequeueRetry {
    pub fn new() -> (r: DequeueRetry)
        ensures
            r.failures == 0,
    {
        DequeueRetry { failures: 0 }
    }

    /// Records the result of one attempt. A success resets the count; a
    /// failure is retried until `MAX_DEQUEUE_RETRIES` retries have failed.
    pub fn on_attempt(&mut self, ok: bool) -> (r: DequeueOutcome)
        requires
            old(self).failures <= MAX_DEQUEUE_RETRIES,
        ensures
            ok ==> r == DequeueOutcome::Frame && final(self).failures == 0,
            !ok && old(self).failures < MAX_DEQUEUE_RETRIES ==> r == DequeueOutcome::Retry
                && final(self).failures == old(self).failures + 1,
            !ok && old(self).failures == MAX_DEQUEUE_RETRIES ==> r == DequeueOutcome::Broken
                && final(self).failures == old(self).failures,
            final(self).failures <= MAX_DEQUEUE_RETRIES,
    {
        if ok {
            self.failures = 0;
            DequeueOutcome::Frame
        } else if self.failures < MAX_DEQUEUE_RETRIES {
            self.failures = self.failures + 1;
            DequeueOutcome::Retry
        } else {
            DequeueOutcome::Broken
        }
    }
}

/// Appends the capture-device setup for `mode`.
fn push_stream_setup(cmds: &mut Vec<Command>, mode: Mode)
    ensures
        final(cmds)@ == old(cmds)@ + stream_setup_commands(mode),
{
    cmds.push(Command::ConfigureCapture(mode.width, mode.height));
    cmds.push(Command::AllocateBuffers(NUM_BUFFERS));
    let mut i: u32 = 1;
    while i < NUM_BUFFERS
        invariant
            1 <= i <= NUM_BUFFERS,
            cmds@ == old(cmds)@ + seq![
                Command::ConfigureCapture(mode.width, mode.height),
                Command::AllocateBuffers(NUM_BUFFERS),
            ] + Seq::new((i - 1) as nat, |k: int| Command::QueueBuffer((k + 1) as u32)),
        decreases NUM_BUFFERS - i,
    {
        cmds.push(Command::QueueBuffer(i));
        proof {
            assert(Seq::new((i - 1) as nat, |k: int| Command::QueueBuffer((k + 1) as u32)).push(Command::QueueBuffer(i))
                =~= Seq::new(i as nat, |k: int| Command::QueueBuffer((k + 1) as u32)));
        }
        i = i + 1;
    }
    proof {
        assert(Seq::new(3, |k: int| Command::QueueBuffer((k + 1) as u32)) =~= seq![
            Command::QueueBuffer(1),
            Command::QueueBuffer(2),
            Command::QueueBuffer(3),
        ]);
        assert(cmds@ =~= old(cmds)@ + stream_setup_commands(mode));
    }
}

} // verus!
