use camcam::topology::Info;
use camcam::topology::{
    c_char_array_to_string, parse_kernel_version, role_of, Entity, Interface, Link, Pad, Role,
    SetupError, Topology,
};

fn entity(id: u32, name: &str) -> Entity {
    Entity { id, name: name.to_string(), function: 0, flags: 0 }
}

fn graph() -> Topology {
    Topology {
        version: 7,
        entities: vec![
            entity(1, "sun6i-csi"),
            entity(16, "gc2145 3-003c"),
            entity(20, "ov5640 3-004c"),
            entity(30, "other"),
        ],
        interfaces: vec![
            Interface { id: 3, interface_type: 0x200, flags: 0, major: 81, minor: 0 },
            Interface { id: 18, interface_type: 0x203, flags: 0, major: 81, minor: 1 },
            Interface { id: 22, interface_type: 0x203, flags: 0, major: 81, minor: 2 },
        ],
        pads: vec![
            Pad { id: 2, entity_id: 1, flags: 1, index: 0 },
            Pad { id: 17, entity_id: 16, flags: 2, index: 0 },
            Pad { id: 21, entity_id: 20, flags: 2, index: 0 },
        ],
        links: vec![
            Link { id: 4, source_id: 3, sink_id: 1, flags: 3 },
            Link { id: 19, source_id: 18, sink_id: 16, flags: 3 },
            Link { id: 23, source_id: 22, sink_id: 20, flags: 3 },
            Link { id: 24, source_id: 17, sink_id: 2, flags: 0 },
        ],
    }
}

#[test]
fn resolves_all_three_endpoints() {
    let setup = graph().resolve_setup().unwrap();
    assert_eq!(setup.back.entity.id, 20);
    assert_eq!(setup.back.entity.name, "ov5640 3-004c");
    assert_eq!(setup.back.interface.minor, 2);
    assert_eq!(setup.back.pad.id, 21);
    assert_eq!(setup.front.entity.id, 16);
    assert_eq!(setup.front.interface.id, 18);
    assert_eq!(setup.capture.entity.id, 1);
    assert_eq!(setup.capture.interface.major, 81);
}

#[test]
fn missing_back_sensor_is_a_setup_error() {
    let mut t = graph();
    t.entities.remove(2);
    assert_eq!(t.resolve_setup().unwrap_err(), SetupError::EntityMissing(Role::BackSensor));
}

#[test]
fn missing_pieces_are_named() {
    let mut t = graph();
    t.pads.remove(1);
    assert_eq!(t.resolve_setup().unwrap_err(), SetupError::PadMissing(Role::FrontSensor));
    let mut t = graph();
    t.links.remove(0);
    assert_eq!(t.resolve_setup().unwrap_err(), SetupError::LinkMissing(Role::Capture));
    let mut t = graph();
    t.interfaces.remove(2);
    assert_eq!(t.resolve_setup().unwrap_err(), SetupError::InterfaceMissing(Role::BackSensor));
}

#[test]
fn last_matching_entity_wins() {
    let mut t = graph();
    t.entities.push(entity(40, "ov5640 other"));
    assert_eq!(t.find_entity(Role::BackSensor), Some(4));
    assert_eq!(t.find_entity_by_id(16), Some(1));
    assert_eq!(t.find_entity_by_id(99), None);
    assert_eq!(t.find_pad(20), Some(2));
    assert_eq!(t.find_link_to(16), Some(1));
    assert_eq!(t.find_interface(22), Some(2));
    assert_eq!(t.find_interface(5), None);
}

#[test]
fn roles_by_name_prefix() {
    assert_eq!(role_of("ov5640 3-004c"), Some(Role::BackSensor));
    assert_eq!(role_of("gc2145 3-003c"), Some(Role::FrontSensor));
    assert_eq!(role_of("sun6i-csi"), Some(Role::Capture));
    assert_eq!(role_of("ov564"), None);
    assert_eq!(role_of(""), None);
}

#[test]
fn kernel_version_fields() {
    assert_eq!(parse_kernel_version(0x00050a03), (5, 10, 3));
    assert_eq!(parse_kernel_version(0xff01_02_03), (1, 2, 3));
    assert_eq!(parse_kernel_version(0), (0, 0, 0));
}

#[test]
fn c_strings_stop_at_nul() {
    assert_eq!(c_char_array_to_string(b"sun6i-csi\0\0\0xyz"), Some("sun6i-csi".to_string()));
    assert_eq!(c_char_array_to_string(b"abc"), Some("abc".to_string()));
    assert_eq!(c_char_array_to_string(b"\0abc"), Some(String::new()));
    assert_eq!(c_char_array_to_string(&[0xff, 0xfe, 0]), None);
}

#[test]
fn device_info_from_raw_fields() {
    let info = Info::from_raw(b"sun6i-csi\0", b"Allwinner\0\0", b"\0", b"platform:csi\0", 0x050a03, 7, 0x050a00)
        .unwrap();
    assert_eq!(info.driver, "sun6i-csi");
    assert_eq!(info.model, "Allwinner");
    assert_eq!(info.serial, "");
    assert_eq!(info.bus_info, "platform:csi");
    assert_eq!(info.media_version, (5, 10, 3));
    assert_eq!(info.hw_revision, 7);
    assert_eq!(info.driver_version, (5, 10, 0));
    assert!(Info::from_raw(b"a\0", &[0xc3, 0x28, 0], b"\0", b"\0", 0, 0, 0).is_none());
}
