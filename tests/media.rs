use camcam::media::media_node_from_entries;
use camcam::command::{Command, SubdevFormat};
use camcam::media::{device_node_path, LinkError, LinkRequest, LinkState, MediaDevice, Sensor};
use camcam::topology::{Entity, Interface, Link, Pad, Role, Setup, SetupError, Topology};

fn setup() -> Setup {
    let e = |id: u32, name: &str| Entity { id, name: name.to_string(), function: 0, flags: 0 };
    Topology {
        version: 1,
        entities: vec![e(1, "sun6i-csi"), e(16, "gc2145 3-003c"), e(20, "ov5640 3-004c")],
        interfaces: vec![
            Interface { id: 3, interface_type: 0, flags: 0, major: 81, minor: 0 },
            Interface { id: 18, interface_type: 0, flags: 0, major: 81, minor: 1 },
            Interface { id: 22, interface_type: 0, flags: 0, major: 81, minor: 2 },
        ],
        pads: vec![
            Pad { id: 2, entity_id: 1, flags: 1, index: 0 },
            Pad { id: 17, entity_id: 16, flags: 2, index: 0 },
            Pad { id: 21, entity_id: 20, flags: 2, index: 0 },
        ],
        links: vec![
            Link { id: 4, source_id: 3, sink_id: 1, flags: 0 },
            Link { id: 19, source_id: 18, sink_id: 16, flags: 0 },
            Link { id: 23, source_id: 22, sink_id: 20, flags: 0 },
        ],
    }
    .resolve_setup()
    .unwrap()
}

const BACK_UEVENT: &str = "MAJOR=81\nMINOR=2\nDEVNAME=v4l-subdev1\n";
const FRONT_UEVENT: &str = "MAJOR=81\nMINOR=1\nDEVNAME=v4l-subdev0";

fn device() -> MediaDevice {
    MediaDevice::setup(setup(), BACK_UEVENT, FRONT_UEVENT).unwrap().0
}

#[test]
fn device_path_from_uevent() {
    assert_eq!(device_node_path(Sensor::Back, BACK_UEVENT).unwrap(), "/dev/v4l-subdev1");
    assert_eq!(
        device_node_path(Sensor::Front, "DEVNAME=\nDEVNAME=video0\r\nX=1").unwrap(),
        "/dev/video0\r"
    );
    assert_eq!(
        device_node_path(Sensor::Front, "XDEVNAME=a\nMAJOR=1"),
        Err(SetupError::DeviceNodeUnresolved(Role::FrontSensor))
    );
}

#[test]
fn unresolvable_back_node_fails_setup() {
    let r = MediaDevice::setup(setup(), "MAJOR=81\nMINOR=2\n", FRONT_UEVENT);
    assert_eq!(r.unwrap_err(), SetupError::DeviceNodeUnresolved(Role::BackSensor));
    let r = MediaDevice::setup(setup(), BACK_UEVENT, "");
    assert_eq!(r.unwrap_err(), SetupError::DeviceNodeUnresolved(Role::FrontSensor));
}

#[test]
fn setup_links_front_only() {
    let (m, cmds) = MediaDevice::setup(setup(), BACK_UEVENT, FRONT_UEVENT).unwrap();
    assert_eq!(m.back_path, "/dev/v4l-subdev1");
    assert_eq!(m.front_path, "/dev/v4l-subdev0");
    assert_eq!(m.state, LinkState::FrontLinked);
    assert_eq!(
        cmds,
        vec![
            Command::SetupLink(LinkRequest { source: 16, sink: 1, enable: false }),
            Command::SetupLink(LinkRequest { source: 20, sink: 1, enable: false }),
            Command::SetupLink(LinkRequest { source: 16, sink: 1, enable: true }),
            Command::SetFormat(Sensor::Front, SubdevFormat::request(1280, 960)),
            Command::SetInterval(Sensor::Front, 1, 15),
        ]
    );
}

#[test]
fn linking_back_twice_is_a_noop() {
    let mut m = device();
    m.unlink_front_camera();
    let first = m.link_back_camera().unwrap();
    assert_eq!(first, vec![Command::SetupLink(LinkRequest { source: 20, sink: 1, enable: true })]);
    assert_eq!(m.state, LinkState::BackLinked);
    let second = m.link_back_camera().unwrap();
    assert!(second.is_empty());
    assert_eq!(m.state, LinkState::BackLinked);
}

#[test]
fn second_source_is_refused() {
    let mut m = device();
    assert_eq!(m.link_back_camera(), Err(LinkError::OtherSensorLinked(Sensor::Front)));
    assert_eq!(m.state, LinkState::FrontLinked);
    let c = m.unlink_back_camera();
    assert_eq!(c, Command::SetupLink(LinkRequest { source: 20, sink: 1, enable: false }));
    assert_eq!(m.state, LinkState::FrontLinked);
}

#[test]
fn format_request_values() {
    let f = SubdevFormat::request(2592, 1944);
    assert_eq!(f.which, 1);
    assert_eq!(f.pad, 0);
    assert_eq!(f.format.width, 2592);
    assert_eq!(f.format.height, 1944);
    assert_eq!(f.format.code, 0x3001);
    assert_eq!(f.format.colorspace, 11);
    let m = device();
    assert_eq!(m.set_back_format(2592, 1944), Command::SetFormat(Sensor::Back, f));
    assert_eq!(m.set_front_interval(1, 15), Command::SetInterval(Sensor::Front, 1, 15));
    assert_eq!(m.hflip_front(true), Command::HFlip(Sensor::Front, true));
    assert_eq!(m.auto_focus(false), Command::AutoFocus(Sensor::Back, false));
}

#[test]
fn media_node_is_first_media_entry() {
    let names = vec!["power".to_string(), "media1".to_string(), "media0".to_string()];
    assert_eq!(media_node_from_entries(&names), Some("/dev/media1".to_string()));
    assert_eq!(media_node_from_entries(&vec!["med".to_string(), "video4linux".to_string()]), None);
    assert_eq!(media_node_from_entries(&vec![]), None);
}
