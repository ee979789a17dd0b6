use camcam::camera::{DequeueOutcome, DequeueRetry};
use camcam::camera::{Camera, CameraError, CaptureSelector};
use camcam::command::{Command, SubdevFormat};
use camcam::media::{LinkRequest, LinkState, MediaDevice, Sensor};
use camcam::picture::preview_picture;
use camcam::topology::{Entity, Interface, Link, Pad, Topology};

fn camera() -> Camera {
    let e = |id: u32, name: &str| Entity { id, name: name.to_string(), function: 0, flags: 0 };
    let setup = Topology {
        version: 1,
        entities: vec![e(1, "sun6i-csi"), e(16, "gc2145 3-003c"), e(20, "ov5640 3-004c")],
        interfaces: vec![
            Interface { id: 3, interface_type: 0, flags: 0, major: 81, minor: 0 },
            Interface { id: 18, interface_type: 0, flags: 0, major: 81, minor: 1 },
            Interface { id: 22, interface_type: 0, flags: 0, major: 81, minor: 2 },
        ],
        pads: vec![
            Pad { id: 2, entity_id: 1, flags: 1, index: 0 },
            Pad { id: 17, entity_id: 16, flags: 2, index: 0 },
            Pad { id: 21, entity_id: 20, flags: 2, index: 0 },
        ],
        links: vec![
            Link { id: 4, source_id: 3, sink_id: 1, flags: 0 },
            Link { id: 19, source_id: 18, sink_id: 16, flags: 0 },
            Link { id: 23, source_id: 22, sink_id: 20, flags: 0 },
        ],
    }
    .resolve_setup()
    .unwrap();
    let (m, _) = MediaDevice::setup(setup, "DEVNAME=v4l-subdev1", "DEVNAME=v4l-subdev0").unwrap();
    Camera::new(m)
}

fn buffers() -> Vec<Command> {
    vec![Command::AllocateBuffers(4), Command::QueueBuffer(1), Command::QueueBuffer(2), Command::QueueBuffer(3)]
}

#[test]
fn back_preview_sequence() {
    let mut cam = camera();
    let cmds = cam.start_preview().unwrap();
    let mut expected = vec![
        Command::SetupLink(LinkRequest { source: 16, sink: 1, enable: false }),
        Command::SetupLink(LinkRequest { source: 20, sink: 1, enable: true }),
        Command::SetFormat(Sensor::Back, SubdevFormat::request(1280, 720)),
        Command::SetInterval(Sensor::Back, 1, 30),
        Command::ConfigureCapture(1280, 720),
    ];
    expected.extend(buffers());
    expected.push(Command::StartWorker);
    assert_eq!(cmds, expected);
    assert!(cam.worker_running);
    assert_eq!(cam.media.state, LinkState::BackLinked);
    assert_eq!(cam.start_preview(), Err(CameraError::Streaming));
}

/// Simulates the worker: frames are delivered only while a worker runs,
/// which starts at `StartWorker` and is gone once `JoinWorker` returns.
fn run(cmds: &[Command], running: &mut bool, delivered: &mut Vec<Sensor>, sensor: Sensor) {
    for c in cmds {
        match c {
            Command::StartWorker => *running = true,
            Command::JoinWorker => *running = false,
            _ => {
                if *running {
                    delivered.push(sensor);
                }
            }
        }
    }
}

#[test]
fn switch_joins_worker_before_restart() {
    let mut cam = camera();
    let mut running = false;
    let mut delivered = Vec::new();
    let cmds = cam.start_preview().unwrap();
    run(&cmds, &mut running, &mut delivered, Sensor::Back);
    let stop = cam.stop_preview();
    assert_eq!(stop, vec![Command::RequestStop, Command::JoinWorker]);
    run(&stop, &mut running, &mut delivered, Sensor::Back);
    assert!(!running);
    assert!(!cam.worker_running);
    let before = delivered.len();
    let cmds = cam.start_preview().unwrap();
    run(&cmds[..cmds.len() - 1], &mut running, &mut delivered, Sensor::Back);
    assert_eq!(delivered.len(), before);

    let mut cam = camera();
    cam.start_preview().unwrap();
    let cmds = cam.switch_sensor();
    assert_eq!(cmds[0], Command::RequestStop);
    assert_eq!(cmds[1], Command::JoinWorker);
    assert_eq!(cmds[cmds.len() - 1], Command::StartWorker);
    assert!(cmds[2..cmds.len() - 1].iter().all(|c| *c != Command::StartWorker));
    assert_eq!(cam.sensor, Sensor::Front);
    assert_eq!(cam.media.state, LinkState::FrontLinked);
    assert!(cmds.contains(&Command::HFlip(Sensor::Front, true)));
    assert!(cmds.contains(&Command::SetFormat(Sensor::Front, SubdevFormat::request(1280, 960))));
}

#[test]
fn capture_sequence_after_stop() {
    let mut cam = camera();
    cam.start_preview().unwrap();
    assert_eq!(cam.capture(), Err(CameraError::Streaming));
    cam.stop_preview();
    let cmds = cam.capture().unwrap();
    let mut expected = vec![
        Command::Sleep(200),
        Command::SetInterval(Sensor::Back, 1, 15),
        Command::SetFormat(Sensor::Back, SubdevFormat::request(2592, 1944)),
        Command::ConfigureCapture(2592, 1944),
    ];
    expected.extend(buffers());
    expected.push(Command::CaptureFrame);
    assert_eq!(cmds, expected);
}

#[test]
fn capture_keeps_frame_six_of_ten() {
    let frames: Vec<Vec<u8>> = (0..10u8).map(|i| vec![i; 4]).collect();
    let mut selector = CaptureSelector::new();
    let mut kept = Vec::new();
    for (index, frame) in frames.iter().enumerate() {
        if selector.on_frame() {
            kept.push((index, frame.clone()));
            break;
        }
    }
    assert_eq!(kept.len(), 1);
    assert_eq!(kept[0].0, 6);
    assert_eq!(kept[0].1, vec![6u8; 4]);
    assert_eq!(selector.dropped, 6);
}

#[test]
fn preview_picture_is_half_size() {
    let frame: Vec<u8> = (0..16u8).collect();
    let p = preview_picture(&frame, 4, 4).unwrap();
    assert_eq!((p.width(), p.height(), p.rowstride()), (2, 2, 6));
    assert_eq!(p.data().len(), 12);
    assert_eq!(&p.data()[0..3], &[5, 2, 0]);
    assert!(preview_picture(&[], 4, 4).is_none());
    assert!(preview_picture(&frame, 4, 3).is_none());
}

#[test]
fn dequeue_failures_are_retried_then_broken() {
    let mut r = DequeueRetry::new();
    assert_eq!(r.on_attempt(false), DequeueOutcome::Retry);
    assert_eq!(r.on_attempt(true), DequeueOutcome::Frame);
    assert_eq!(r.failures, 0);
    assert_eq!(r.on_attempt(false), DequeueOutcome::Retry);
    assert_eq!(r.on_attempt(false), DequeueOutcome::Retry);
    assert_eq!(r.on_attempt(false), DequeueOutcome::Retry);
    assert_eq!(r.on_attempt(false), DequeueOutcome::Broken);
}

#[test]
fn front_capture_relinks_nothing_when_linked() {
    let mut cam = camera();
    cam.switch_sensor();
    cam.stop_preview();
    let cmds = cam.capture().unwrap();
    assert_eq!(cmds[1], Command::SetInterval(Sensor::Front, 1, 15));
    assert_eq!(cmds[2], Command::SetFormat(Sensor::Front, SubdevFormat::request(1600, 1200)));
    assert_eq!(*cmds.last().unwrap(), Command::CaptureFrame);
}
