//! The media link controller: device-node resolution for the two sensors and
//! the link state between each sensor and the capture block.

use vstd::prelude::*;
use vstd::string::*;
use crate::text::{has_prefix, starts_with};
use crate::topology::{Endpoint, Role, Setup, SetupError};
use crate::command::{Command, SubdevFormat};

verus! {

/// The two image sensors.
#[derive(Clone, Copy, Debug, PartialEq, Eq, Structural)]
pub enum Sensor {
    Back,
    Front,
}

/// Which sensor, if any, feeds the capture block.
#[derive(Clone, Copy, Debug, PartialEq, Eq, Structural)]
pub enum LinkState {
    Unlinked,
    FrontLinked,
    BackLinked,
}

/// A request to enable or disable the link from a source entity to a sink
/// entity.
#[derive(Clone, Copy, Debug, PartialEq, Eq, Structural)]
pub struct LinkRequest {
    pub source: u32,
    pub sink: u32,
    pub enable: bool,
}

/// A link that cannot be made.
#[derive(Clone, Copy, Debug, PartialEq, Eq, Structural)]
pub enum LinkError {
    /// The other sensor still feeds the capture block: enabling a second
    /// source is refused.
    OtherSensorLinked(Sensor),
}

/// The other sensor.
pub open spec fn other(s: Sensor) -> Sensor {
    match s {
        Sensor::Back => Sensor::Front,
        Sensor::Front => Sensor::Back,
    }
}

/// The link state in which `s` feeds the capture block.
pub open spec fn linked(s: Sensor) -> LinkState {
    match s {
        Sensor::Back => LinkState::BackLinked,
        Sensor::Front => LinkState::FrontLinked,
    }
}

/// Link state after a link request for `s`, and whether it is refused: a
/// sensor that is already linked stays so and nothing is sent; the other
/// sensor's link blocks it.
pub open spec fn after_link(state: LinkState, s: Sensor) -> Result<LinkState, LinkError> {
    if state == linked(other(s)) {
        Err(LinkError::OtherSensorLinked(other(s)))
    } else {
        Ok(linked(s))
    }
}

/// Link state after `s` is unlinked.
pub open spec fn after_unlink(state: LinkState, s: Sensor) -> LinkState {
    if state == linked(s) {
        LinkState::Unlinked
    } else {
        state
    }
}

/// The role that a sensor's entity has in the graph.
pub open spec fn sensor_role(s: Sensor) -> Role {
    match s {
        Sensor::Back => Role::BackSensor,
        Sensor::Front => Role::FrontSensor,
    }
}

/// The pattern of the line of a `uevent` record that names the device node.
pub const DEVNAME_PATTERN: &'static str = "(?m)^DEVNAME=(.+)$";

/// The key that starts that line.
pub open spec fn devname_key() -> Seq<char> {
    "DEVNAME="@
}

/// The characters of `s` before its first line break.
pub open spec fn first_line(s: Seq<char>) -> Seq<char>
    decreases s.len(),
{
    if s.len() == 0 || s[0] == '\n' {
        Seq::empty()
    } else {
        seq![s[0]] + first_line(s.drop_first())
    }
}

/// The value of the first line of a `uevent` record that is `DEVNAME=`
/// followed by at least one character, as the multi-line pattern
/// `^DEVNAME=(.+)$` captures it.
pub open spec fn devname_field(s: Seq<char>) -> Option<Seq<char>>
    decreases s.len(),
{
    let line = first_line(s);
    if starts_with(line, devname_key()) && line.len() > devname_key().len() {
        Some(line.subrange(devname_key().len() as int, line.len() as int))
    } else if line.len() < s.len() {
        devname_field(s.subrange(line.len() as int + 1, s.len() as int))
    } else {
        None
    }
}

/// Relies on `regex::Regex::new` and `regex::Regex::captures`: with the
/// multi-line pattern `^DEVNAME=(.+)$` the leftmost match starts at the first
/// line that begins with `DEVNAME=` and has more on it, and its group runs to
/// the end of that line, as `.` matches anything but a line feed.
#[verifier::external_body]
fn capture_devname(pattern: &str, uevent: &str) -> (r: Option<String>)
    requires
        pattern@ == DEVNAME_PATTERN@,
    ensures
        match r {
            Some(v) => devname_field(uevent@) == Some(v@),
            None => devname_field(uevent@) is None,
        },
{
    regex::Regex::new(pattern).unwrap().captures(uevent).map(|c| c[1].to_string())
}

/// The device node that a sensor's `uevent` record names: `/dev/` followed
/// by the value of its `DEVNAME` line.
pub fn device_node_path(sensor: Sensor, uevent: &str) -> (r: Result<String, SetupError>)
    ensures
        match devname_field(uevent@) {
            Some(name) => r is Ok && r->Ok_0@ == "/dev/"@ + name,
            None => r == Err::<String, SetupError>(SetupError::DeviceNodeUnresolved(sensor_role(sensor))),
        },
{
    match capture_devname(DEVNAME_PATTERN, uevent) {
        Some(name) => {
            let mut path = String::from_str("/dev/");
            path.append(name.as_str());
            Ok(path)
        },
        None => Err(
            SetupError::DeviceNodeUnresolved(
                match sensor {
                    Sensor::Back => Role::BackSensor,
                    Sensor::Front => Role::FrontSensor,
                },
            ),
        ),
    }
}

/// Index of the first entry name that starts with `media`.
pub open spec fn is_first_media_entry(names: Seq<String>, i: int) -> bool {
    &&& 0 <= i < names.len()
    &&& starts_with(names[i]@, "media"@)
    &&& forall|j: int| 0 <= j < i ==> !starts_with(#[trigger] names[j]@, "media"@)
}

/// The media node of a capture device, given the names of the directories
/// in its sysfs device directory: `/dev/` and the first name that starts
/// with `media`.
pub fn media_node_from_entries(names: &Vec<String>) -> (r: Option<String>)
    ensures
        match r {
            Some(p) => exists|i: int| is_first_media_entry(names@, i) && p@ == "/dev/"@ + names@[i]@,
            None => forall|j: int| 0 <= j < names@.len() ==> !starts_with(#[trigger] names@[j]@, "media"@),
        },
{
    let mut i: usize = 0;
    while i < names.len()
        invariant
            i <= names@.len(),
            forall|j: int| 0 <= j < i ==> !starts_with(#[trigger] names@[j]@, "media"@),
        decreases names@.len() - i,
    {
        if has_prefix(names[i].as_str(), "media") {
            let mut path = String::from_str("/dev/");
            path.append(names[i].as_str());
            assert(is_first_media_entry(names@, i as int));
            return Some(path);
        }
        i = i + 1;
    }
    None
}

/// Size of the format the front sensor gets whenever its link is enabled.
pub const FRONT_DEFAULT_WIDTH: u32 = 1280;
pub const FRONT_DEFAULT_HEIGHT: u32 = 960;
/// Frame rate the front sensor gets whenever its link is enabled.
pub const FRONT_DEFAULT_FPS: u32 = 15;

/// The media link controller: the three endpoints of the graph, the device
/// nodes of the two sensors, and which sensor feeds the capture block.
#[derive(Debug)]
pub struct MediaDevice {
    pub back: Endpoint,
    pub front: Endpoint,
    pub capture: Endpoint,
    pub back_path: String,
    pub front_path: String,
    pub state: LinkState,
}

/// Entity identifier of a sensor.
pub open spec fn sensor_entity_id(m: &MediaDevice, s: Sensor) -> u32 {
    match s {
        Sensor::Back => m.back.entity.id,
        Sensor::Front => m.front.entity.id,
    }
}

/// The request for the link from sensor `s` to the capture block.
pub open spec fn link_request(m: &MediaDevice, s: Sensor, enable: bool) -> LinkRequest {
    LinkRequest { source: sensor_entity_id(m, s), sink: m.capture.entity.id, enable }
}

/// What enabling the link of `s` sends in state `state` (when the other
/// sensor is not linked): nothing when `s` is linked already; else the link
/// request, and for the front sensor its default format and frame rate.
pub open spec fn link_commands(m: &MediaDevice, state: LinkState, s: Sensor) -> Seq<Command> {
    if state == linked(s) {
        Seq::empty()
    } else if s == Sensor::Front {
        seq![
            Command::SetupLink(link_request(m, s, true)),
            Command::SetFormat(Sensor::Front, SubdevFormat::spec_request(FRONT_DEFAULT_WIDTH, FRONT_DEFAULT_HEIGHT)),
            Command::SetInterval(Sensor::Front, 1, FRONT_DEFAULT_FPS),
        ]
    } else {
        seq![Command::SetupLink(link_request(m, s, true))]
    }
}

impl MediaDevice {
    /// Builds the controller from the resolved graph and the `uevent`
    /// records of the back and the front sensor's device numbers. Both links
    /// start disabled, then the front sensor is linked.
    pub fn setup(setup: Setup, back_uevent: &str, front_uevent: &str) -> (r: Result<(MediaDevice, Vec<Command>), SetupError>)
        ensures
            match (devname_field(back_uevent@), devname_field(front_uevent@)) {
                (None, _) => r == Err::<(MediaDevice, Vec<Command>), SetupError>(SetupError::DeviceNodeUnresolved(Role::BackSensor)),
                (Some(_), None) => r == Err::<(MediaDevice, Vec<Command>), SetupError>(SetupError::DeviceNodeUnresolved(Role::FrontSensor)),
                (Some(b), Some(f)) => r is Ok && {
                    let (m, cmds) = r->Ok_0;
                    &&& m.back == setup.back
                    &&& m.front == setup.front
                    &&& m.capture == setup.capture
                    &&& m.back_path@ == "/dev/"@ + b
                    &&& m.front_path@ == "/dev/"@ + f
                    &&& m.state == LinkState::FrontLinked
                    &&& cmds@ == seq![
                        Command::SetupLink(link_request(&m, Sensor::Front, false)),
                        Command::SetupLink(link_request(&m, Sensor::Back, false)),
                    ] + link_commands(&m, LinkState::Unlinked, Sensor::Front)
                },
            },
    {
        let back_path = match device_node_path(Sensor::Back, back_uevent) {
            Ok(p) => p,
            Err(e) => {
                return Err(e);
            },
        };
        let front_path = match device_node_path(Sensor::Front, front_uevent) {
            Ok(p) => p,
            Err(e) => {
                return Err(e);
            },
        };
        let mut m = MediaDevice {
            back: setup.back,
            front: setup.front,
            capture: setup.capture,
            back_path,
            front_path,
            state: LinkState::Unlinked,
        };
        let mut cmds: Vec<Command> = Vec::new();
        cmds.push(m.unlink_front_camera());
        cmds.push(m.unlink_back_camera());
        let mut linking = m.link_front_camera();
        cmds.append(&mut linking);
        Ok((m, cmds))
    }

    /// Enables the link from sensor `s` to the capture block. Linking a
    /// sensor that is linked already sends nothing; while the other sensor is
    /// linked the request is refused and nothing changes.
    pub fn link_camera(&mut self, s: Sensor) -> (r: Result<Vec<Command>, LinkError>)
        ensures
            final(self).back == old(self).back,
            final(self).front == old(self).front,
            final(self).capture == old(self).capture,
            final(self).back_path == old(self).back_path,
            final(self).front_path == old(self).front_path,
            match after_link(old(self).state, s) {
                Ok(next) => r is Ok && final(self).state == next && r->Ok_0@ == link_commands(
                    old(self),
                    old(self).state,
                    s,
                ),
                Err(e) => r == Err::<Vec<Command>, LinkError>(e) && final(self).state == old(self).state,
            },
    {
        let mut cmds: Vec<Command> = Vec::new();
        let (mine, theirs, sensor_id) = match s {
            Sensor::Back => (LinkState::BackLinked, LinkState::FrontLinked, self.back.entity.id),
            Sensor::Front => (LinkState::FrontLinked, LinkState::BackLinked, self.front.entity.id),
        };
        if self.state == theirs {
            return Err(LinkError::OtherSensorLinked(match s {
                Sensor::Back => Sensor::Front,
                Sensor::Front => Sensor::Back,
            }));
        }
        if self.state == mine {
            return Ok(cmds);
        }
        cmds.push(Command::SetupLink(LinkRequest { source: sensor_id, sink: self.capture.entity.id, enable: true }));
        if s == Sensor::Front {
            cmds.push(Command::SetFormat(Sensor::Front, SubdevFormat::request(FRONT_DEFAULT_WIDTH, FRONT_DEFAULT_HEIGHT)));
            cmds.push(Command::SetInterval(Sensor::Front, 1, FRONT_DEFAULT_FPS));
        }
        self.state = mine;
        proof {
            assert(cmds@ =~= link_commands(old(self), old(self).state, s));
        }
        Ok(cmds)
    }

    /// Disables the link from sensor `s` to the capture block. The request
    /// is always sent, as the hardware state may be unknown.
    pub fn unlink_camera(&mut self, s: Sensor) -> (r: Command)
        ensures
            final(self).back == old(self).back,
            final(self).front == old(self).front,
            final(self).capture == old(self).capture,
            final(self).back_path == old(self).back_path,
            final(self).front_path == old(self).front_path,
            final(self).state == after_unlink(old(self).state, s),
            r == Command::SetupLink(link_request(old(self), s, false)),
    {
        let (mine, sensor_id) = match s {
            Sensor::Back => (LinkState::BackLinked, self.back.entity.id),
            Sensor::Front => (LinkState::FrontLinked, self.front.entity.id),
        };
        if self.state == mine {
            self.state = LinkState::Unlinked;
        }
        Command::SetupLink(LinkRequest { source: sensor_id, sink: self.capture.entity.id, enable: false })
    }

    /// Enables the back sensor's link; see `link_camera`.
    pub fn link_back_camera(&mut self) -> (r: Result<Vec<Command>, LinkError>)
        ensures
            final(self).back == old(self).back,
            final(self).front == old(self).front,
            final(self).capture == old(self).capture,
            final(self).back_path == old(self).back_path,
            final(self).front_path == old(self).front_path,
            match after_link(old(self).state, Sensor::Back) {
                Ok(next) => r is Ok && final(self).state == next && r->Ok_0@ == link_commands(
                    old(self),
                    old(self).state,
                    Sensor::Back,
                ),
                Err(e) => r == Err::<Vec<Command>, LinkError>(e) && final(self).state == old(self).state,
            },
    {
        self.link_camera(Sensor::Back)
    }

    /// Disables the back sensor's link; see `unlink_camera`.
    pub fn unlink_back_camera(&mut self) -> (r: Command)
        ensures
            final(self).back == old(self).back,
            final(self).front == old(self).front,
            final(self).capture == old(self).capture,
            final(self).back_path == old(self).back_path,
            final(self).front_path == old(self).front_path,
            final(self).state == after_unlink(old(self).state, Sensor::Back),
            r == Command::SetupLink(link_request(old(self), Sensor::Back, false)),
    {
        self.unlink_camera(Sensor::Back)
    }

    /// Enables the front sensor's link and, when it was not linked, gives it
    /// its default format and frame rate. Fails only while the back sensor
    /// is linked.
    pub fn link_front_camera(&mut self) -> (r: Vec<Command>)
        requires
            old(self).state != LinkState::BackLinked,
        ensures
            final(self).back == old(self).back,
            final(self).front == old(self).front,
            final(self).capture == old(self).capture,
            final(self).back_path == old(self).back_path,
            final(self).front_path == old(self).front_path,
            final(self).state == LinkState::FrontLinked,
            r@ == link_commands(old(self), old(self).state, Sensor::Front),
    {
        match self.link_camera(Sensor::Front) {
            Ok(cmds) => cmds,
            Err(_) => Vec::new(),
        }
    }

    /// Disables the front sensor's link; see `unlink_camera`.
    pub fn unlink_front_camera(&mut self) -> (r: Command)
        ensures
            final(self).back == old(self).back,
            final(self).front == old(self).front,
            final(self).capture == old(self).capture,
            final(self).back_path == old(self).back_path,
            final(self).front_path == old(self).front_path,
            final(self).state == after_unlink(old(self).state, Sensor::Front),
            r == Command::SetupLink(link_request(old(self), Sensor::Front, false)),
    {
        self.unlink_camera(Sensor::Front)
    }

    /// Sets the back sensor's format.
    pub fn set_back_format(&self, width: u32, height: u32) -> (r: Command)
        ensures
            r == Command::SetFormat(Sensor::Back, SubdevFormat::spec_request(width, height)),
    {
        Command::SetFormat(Sensor::Back, SubdevFormat::request(width, height))
    }

    /// Sets the back sensor's frame period.
    pub fn set_back_interval(&self, numerator: u32, denominator: u32) -> (r: Command)
        ensures
            r == Command::SetInterval(Sensor::Back, numerator, denominator),
    {
        Command::SetInterval(Sensor::Back, numerator, denominator)
    }

    /// Sets the front sensor's format.
    pub fn set_front_format(&self, width: u32, height: u32) -> (r: Command)
        ensures
            r == Command::SetFormat(Sensor::Front, SubdevFormat::spec_request(width, height)),
    {
        Command::SetFormat(Sensor::Front, SubdevFormat::request(width, height))
    }

    /// Sets the front sensor's frame period.
    pub fn set_front_interval(&self, numerator: u32, denominator: u32) -> (r: Command)
        ensures
            r == Command::SetInterval(Sensor::Front, numerator, denominator),
    {
        Command::SetInterval(Sensor::Front, numerator, denominator)
    }

    /// Turns the back sensor's autofocus on or off.
    pub fn auto_focus(&self, enable: bool) -> (r: Command)
        ensures
            r == Command::AutoFocus(Sensor::Back, enable),
    {
        Command::AutoFocus(Sensor::Back, enable)
    }

    /// Mirrors the front sensor's image horizontally, or stops doing so.
    pub fn hflip_front(&self, enable: bool) -> (r: Command)
        ensures
            r == Command::HFlip(Sensor::Front, enable),
    {
        Command::HFlip(Sensor::Front, enable)
    }

    /// Flips the front sensor's image vertically, or stops doing so.
    pub fn vflip_front(&self, enable: bool) -> (r: Command)
        ensures
            r == Command::VFlip(Sensor::Front, enable),
    {
        Command::VFlip(Sensor::Front, enable)
    }
}

/// Linking a sensor twice in a row sends nothing the second time and leaves
/// the state as the first call left it, so no second source is ever enabled.
pub proof fn lemma_link_twice_is_noop(m: &MediaDevice, state: LinkState, s: Sensor)
    requires
        after_link(state, s) is Ok,
    ensures
        after_link(after_link(state, s)->Ok_0, s) == after_link(state, s),
        link_commands(m, after_link(state, s)->Ok_0, s) == Seq::<Command>::empty(),
{
}

} // verus!
