//! The media-controller graph as read once from the hardware, the lookups on
//! it, and the resolution of the three endpoints that the camera drives.

use vstd::prelude::*;
use crate::text::{has_prefix, starts_with};
use vstd::utf8::{decode_utf8, valid_utf8};

verus! {

/// One functional block of the graph.
#[derive(Debug)]
pub struct Entity {
    pub id: u32,
    pub name: String,
    pub function: u32,
    pub flags: u32,
}

/// A device node of the graph.
#[derive(Clone, Copy, Debug, PartialEq, Eq, Structural)]
pub struct Interface {
    pub id: u32,
    pub interface_type: u32,
    pub flags: u32,
    pub major: u32,
    pub minor: u32,
}

/// A port of an entity.
#[derive(Clone, Copy, Debug, PartialEq, Eq, Structural)]
pub struct Pad {
    pub id: u32,
    pub entity_id: u32,
    pub flags: u32,
    pub index: u32,
}

/// A directed edge of the graph.
#[derive(Clone, Copy, Debug, PartialEq, Eq, Structural)]
pub struct Link {
    pub id: u32,
    pub source_id: u32,
    pub sink_id: u32,
    pub flags: u32,
}

/// A snapshot of the whole graph.
#[derive(Debug)]
pub struct Topology {
    pub version: u64,
    pub entities: Vec<Entity>,
    pub interfaces: Vec<Interface>,
    pub pads: Vec<Pad>,
    pub links: Vec<Link>,
}

/// The three entities that the camera stack drives.
#[derive(Clone, Copy, Debug, PartialEq, Eq, Structural)]
pub enum Role {
    BackSensor,
    FrontSensor,
    Capture,
}

/// Why the graph does not describe the expected hardware.
#[derive(Clone, Copy, Debug, PartialEq, Eq, Structural)]
pub enum SetupError {
    /// No entity carries the role's name prefix.
    EntityMissing(Role),
    /// The role's entity has no pad.
    PadMissing(Role),
    /// No link ends at the role's entity.
    LinkMissing(Role),
    /// The link into the role's entity starts at no known interface.
    InterfaceMissing(Role),
    /// The device node of the role's interface could not be named.
    DeviceNodeUnresolved(Role),
}

/// The name prefix that marks the entity of each role.
pub open spec fn role_prefix(role: Role) -> Seq<char> {
    match role {
        Role::BackSensor => "ov5640"@,
        Role::FrontSensor => "gc2145"@,
        Role::Capture => "sun6i-"@,
    }
}

/// Whether an entity name marks the entity of `role`.
pub open spec fn has_role(name: Seq<char>, role: Role) -> bool {
    starts_with(name, role_prefix(role))
}

/// Index `i` is the last entity whose name marks `role`.
pub open spec fn is_last_with_role(es: Seq<Entity>, role: Role, i: int) -> bool {
    &&& 0 <= i < es.len()
    &&& has_role(es[i].name@, role)
    &&& forall|j: int| i < j < es.len() ==> !has_role(#[trigger] es[j].name@, role)
}

/// Index `i` is the first pad of entity `entity_id`.
pub open spec fn is_first_pad(pads: Seq<Pad>, entity_id: u32, i: int) -> bool {
    &&& 0 <= i < pads.len()
    &&& pads[i].entity_id == entity_id
    &&& forall|j: int| 0 <= j < i ==> (#[trigger] pads[j]).entity_id != entity_id
}

/// Index `i` is the first link that ends at entity `sink_id`.
pub open spec fn is_first_link_to(links: Seq<Link>, sink_id: u32, i: int) -> bool {
    &&& 0 <= i < links.len()
    &&& links[i].sink_id == sink_id
    &&& forall|j: int| 0 <= j < i ==> (#[trigger] links[j]).sink_id != sink_id
}

/// Index `i` is the first interface with identifier `id`.
pub open spec fn is_first_interface(ifs: Seq<Interface>, id: u32, i: int) -> bool {
    &&& 0 <= i < ifs.len()
    &&& ifs[i].id == id
    &&& forall|j: int| 0 <= j < i ==> (#[trigger] ifs[j]).id != id
}

/// Index `i` is the first entity with identifier `id`.
pub open spec fn is_first_entity(es: Seq<Entity>, id: u32, i: int) -> bool {
    &&& 0 <= i < es.len()
    &&& es[i].id == id
    &&& forall|j: int| 0 <= j < i ==> (#[trigger] es[j]).id != id
}

/// Classifies an entity name by its prefix.
pub fn role_of(name: &str) -> (r: Option<Role>)
    ensures
        match r {
            Some(role) => has_role(name@, role),
            None => forall|role: Role| !has_role(name@, role),
        },
{
    if has_prefix(name, "ov5640") {
        Some(Role::BackSensor)
    } else if has_prefix(name, "gc2145") {
        Some(Role::FrontSensor)
    } else if has_prefix(name, "sun6i-") {
        Some(Role::Capture)
    } else {
        proof {
            assert forall|role: Role| !has_role(name@, role) by {
                match role {
                    Role::BackSensor => {},
                    Role::FrontSensor => {},
                    Role::Capture => {},
                }
            }
        }
        None
    }
}

/// Splits a packed kernel version `0x00MMmmpp` into major, minor and patch.
pub fn parse_kernel_version(v: u32) -> (r: (u8, u8, u8))
    ensures
        r.0 as int == (v as int / 0x10000) % 0x100,
        r.1 as int == (v as int / 0x100) % 0x100,
        r.2 as int == v as int % 0x100,
{
    let major = ((v >> 16) & 0xff) as u8;
    let minor = ((v >> 8) & 0xff) as u8;
    let patch = (v & 0xff) as u8;
    assert(((v >> 16) & 0xff) == (v / 0x10000) % 0x100) by (bit_vector);
    assert(((v >> 8) & 0xff) == (v / 0x100) % 0x100) by (bit_vector);
    assert((v & 0xff) == v % 0x100) by (bit_vector);
    (major, minor, patch)
}

impl Entity {
    /// A field-by-field copy.
    pub fn duplicate(&self) -> (r: Entity)
        ensures
            r.id == self.id,
            r.name@ == self.name@,
            r.function == self.function,
            r.flags == self.flags,
    {
        Entity { id: self.id, name: self.name.clone(), function: self.function, flags: self.flags }
    }
}

impl Topology {
    /// The last entity whose name marks `role`.
    pub fn find_entity(&self, role: Role) -> (r: Option<usize>)
        ensures
            match r {
                Some(i) => is_last_with_role(self.entities@, role, i as int),
                None => forall|j: int|
                    0 <= j < self.entities@.len() ==> !has_role(
                        #[trigger] self.entities@[j].name@,
                        role,
                    ),
            },
    {
        let prefix = match role {
            Role::BackSensor => "ov5640",
            Role::FrontSensor => "gc2145",
            Role::Capture => "sun6i-",
        };
        let n = self.entities.len();
        let mut i: usize = n;
        while i > 0
            invariant
                n == self.entities@.len(),
                i <= n,
                prefix@ == role_prefix(role),
                forall|j: int| i <= j < n ==> !has_role(#[trigger] self.entities@[j].name@, role),
            decreases i,
        {
            i = i - 1;
            if has_prefix(self.entities[i].name.as_str(), prefix) {
                return Some(i);
            }
        }
        None
    }

    /// The first entity with identifier `id`.
    pub fn find_entity_by_id(&self, id: u32) -> (r: Option<usize>)
        ensures
            match r {
                Some(i) => is_first_entity(self.entities@, id, i as int),
                None => forall|j: int|
                    0 <= j < self.entities@.len() ==> (#[trigger] self.entities@[j]).id != id,
            },
    {
        let mut i: usize = 0;
        while i < self.entities.len()
            invariant
                i <= self.entities@.len(),
                forall|j: int| 0 <= j < i ==> (#[trigger] self.entities@[j]).id != id,
            decreases self.entities@.len() - i,
        {
            if self.entities[i].id == id {
                return Some(i);
            }
            i = i + 1;
        }
        None
    }

    /// The first pad of entity `entity_id`.
    pub fn find_pad(&self, entity_id: u32) -> (r: Option<usize>)
        ensures
            match r {
                Some(i) => is_first_pad(self.pads@, entity_id, i as int),
                None => forall|j: int|
                    0 <= j < self.pads@.len() ==> (#[trigger] self.pads@[j]).entity_id != entity_id,
            },
    {
        let mut i: usize = 0;
        while i < self.pads.len()
            invariant
                i <= self.pads@.len(),
                forall|j: int| 0 <= j < i ==> (#[trigger] self.pads@[j]).entity_id != entity_id,
            decreases self.pads@.len() - i,
        {
            if self.pads[i].entity_id == entity_id {
                return Some(i);
            }
            i = i + 1;
        }
        None
    }

    /// The first link that ends at entity `sink_id`.
    pub fn find_link_to(&self, sink_id: u32) -> (r: Option<usize>)
        ensures
            match r {
                Some(i) => is_first_link_to(self.links@, sink_id, i as int),
                None => forall|j: int|
                    0 <= j < self.links@.len() ==> (#[trigger] self.links@[j]).sink_id != sink_id,
            },
    {
        let mut i: usize = 0;
        while i < self.links.len()
            invariant
                i <= self.links@.len(),
                forall|j: int| 0 <= j < i ==> (#[trigger] self.links@[j]).sink_id != sink_id,
            decreases self.links@.len() - i,
        {
            if self.links[i].sink_id == sink_id {
                return Some(i);
            }
            i = i + 1;
        }
        None
    }

    /// The first interface with identifier `id`.
    pub fn find_interface(&self, id: u32) -> (r: Option<usize>)
        ensures
            match r {
                Some(i) => is_first_interface(self.interfaces@, id, i as int),
                None => forall|j: int|
                    0 <= j < self.interfaces@.len() ==> (#[trigger] self.interfaces@[j]).id != id,
            },
    {
        let mut i: usize = 0;
        while i < self.interfaces.len()
            invariant
                i <= self.interfaces@.len(),
                forall|j: int| 0 <= j < i ==> (#[trigger] self.interfaces@[j]).id != id,
            decreases self.interfaces@.len() - i,
        {
            if self.interfaces[i].id == id {
                return Some(i);
            }
            i = i + 1;
        }
        None
    }
}

/// An entity of the graph together with its first pad and the interface
/// that the first link into it starts from.
#[derive(Debug)]
pub struct Endpoint {
    pub entity: Entity,
    pub interface: Interface,
    pub pad: Pad,
}

/// The endpoints of the back sensor, the front sensor and the capture block.
#[derive(Debug)]
pub struct Setup {
    pub back: Endpoint,
    pub front: Endpoint,
    pub capture: Endpoint,
}

/// Indices `(entity, interface, pad)` of the endpoint of `role`, or the first
/// thing that is missing on the way to it.
pub open spec fn endpoint_indices(
    es: Seq<Entity>,
    ifs: Seq<Interface>,
    pads: Seq<Pad>,
    links: Seq<Link>,
    role: Role,
) -> Result<(int, int, int), SetupError> {
    if !(exists|e: int| is_last_with_role(es, role, e)) {
        Err(SetupError::EntityMissing(role))
    } else {
        let e = choose|e: int| is_last_with_role(es, role, e);
        let id = es[e].id;
        if !(exists|p: int| is_first_pad(pads, id, p)) {
            Err(SetupError::PadMissing(role))
        } else if !(exists|l: int| is_first_link_to(links, id, l)) {
            Err(SetupError::LinkMissing(role))
        } else {
            let l = choose|l: int| is_first_link_to(links, id, l);
            let src = links[l].source_id;
            if !(exists|k: int| is_first_interface(ifs, src, k)) {
                Err(SetupError::InterfaceMissing(role))
            } else {
                Ok(
                    (
                        e,
                        choose|k: int| is_first_interface(ifs, src, k),
                        choose|p: int| is_first_pad(pads, id, p),
                    ),
                )
            }
        }
    }
}

/// Whether `ep` holds the entity, interface and pad at the given indices.
pub open spec fn endpoint_at(t: &Topology, ep: &Endpoint, idx: (int, int, int)) -> bool {
    &&& ep.entity.id == t.entities@[idx.0].id
    &&& ep.entity.name@ == t.entities@[idx.0].name@
    &&& ep.entity.function == t.entities@[idx.0].function
    &&& ep.entity.flags == t.entities@[idx.0].flags
    &&& ep.interface == t.interfaces@[idx.1]
    &&& ep.pad == t.pads@[idx.2]
}

/// What resolving `role` in `t` gives: the endpoint at the indices that
/// `endpoint_indices` names, or its error.
pub open spec fn resolves_to(t: &Topology, role: Role, r: Result<Endpoint, SetupError>) -> bool {
    match endpoint_indices(t.entities@, t.interfaces@, t.pads@, t.links@, role) {
        Ok(idx) => r is Ok && endpoint_at(t, &r->Ok_0, idx),
        Err(e) => r == Err::<Endpoint, SetupError>(e),
    }
}

proof fn lemma_last_with_role_unique(es: Seq<Entity>, role: Role, i: int, j: int)
    requires
        is_last_with_role(es, role, i),
        is_last_with_role(es, role, j),
    ensures
        i == j,
{
    if i < j {
        assert(!has_role(es[j].name@, role));
    } else if j < i {
        assert(!has_role(es[i].name@, role));
    }
}

proof fn lemma_first_pad_unique(pads: Seq<Pad>, id: u32, i: int, j: int)
    requires
        is_first_pad(pads, id, i),
        is_first_pad(pads, id, j),
    ensures
        i == j,
{
    if i < j {
        assert(pads[i].entity_id != id);
    } else if j < i {
        assert(pads[j].entity_id != id);
    }
}

proof fn lemma_first_link_unique(links: Seq<Link>, id: u32, i: int, j: int)
    requires
        is_first_link_to(links, id, i),
        is_first_link_to(links, id, j),
    ensures
        i == j,
{
    if i < j {
        assert(links[i].sink_id != id);
    } else if j < i {
        assert(links[j].sink_id != id);
    }
}

proof fn lemma_first_interface_unique(ifs: Seq<Interface>, id: u32, i: int, j: int)
    requires
        is_first_interface(ifs, id, i),
        is_first_interface(ifs, id, j),
    ensures
        i == j,
{
    if i < j {
        assert(ifs[i].id != id);
    } else if j < i {
        assert(ifs[j].id != id);
    }
}

impl Topology {
    /// Resolves the endpoint of `role`: the last entity whose name marks the
    /// role, its first pad, and the interface that the first link into it
    /// starts from. Fails with the first of these that is missing.
    pub fn resolve_endpoint(&self, role: Role) -> (r: Result<Endpoint, SetupError>)
        ensures
            resolves_to(self, role, r),
    {
        let es = Ghost(self.entities@);
        let e = match self.find_entity(role) {
            Some(e) => e,
            None => {
                return Err(SetupError::EntityMissing(role));
            },
        };
        proof {
            let c = choose|x: int| is_last_with_role(es@, role, x);
            lemma_last_with_role_unique(es@, role, c, e as int);
        }
        let id = self.entities[e].id;
        let p = match self.find_pad(id) {
            Some(p) => p,
            None => {
                return Err(SetupError::PadMissing(role));
            },
        };
        let l = match self.find_link_to(id) {
            Some(l) => l,
            None => {
                return Err(SetupError::LinkMissing(role));
            },
        };
        let src = self.links[l].source_id;
        let k = match self.find_interface(src) {
            Some(k) => k,
            None => {
                proof {
                    let c = choose|x: int| is_first_link_to(self.links@, id, x);
                    lemma_first_link_unique(self.links@, id, c, l as int);
                }
                return Err(SetupError::InterfaceMissing(role));
            },
        };
        proof {
            let cp = choose|x: int| is_first_pad(self.pads@, id, x);
            lemma_first_pad_unique(self.pads@, id, cp, p as int);
            let cl = choose|x: int| is_first_link_to(self.links@, id, x);
            lemma_first_link_unique(self.links@, id, cl, l as int);
            let ck = choose|x: int| is_first_interface(self.interfaces@, src, x);
            lemma_first_interface_unique(self.interfaces@, src, ck, k as int);
        }
        Ok(Endpoint { entity: self.entities[e].duplicate(), interface: self.interfaces[k], pad: self.pads[p] })
    }

    /// Resolves the back sensor, then the front sensor, then the capture
    /// block, and fails with the first error met.
    pub fn resolve_setup(&self) -> (r: Result<Setup, SetupError>)
        ensures
            match r {
                Ok(s) => resolves_to(self, Role::BackSensor, Ok(s.back)) && resolves_to(
                    self,
                    Role::FrontSensor,
                    Ok(s.front),
                ) && resolves_to(self, Role::Capture, Ok(s.capture)),
                Err(e) => {
                    ||| resolves_to(self, Role::BackSensor, Err(e))
                    ||| (endpoint_indices(self.entities@, self.interfaces@, self.pads@, self.links@, Role::BackSensor) is Ok
                        && resolves_to(self, Role::FrontSensor, Err(e)))
                    ||| (endpoint_indices(self.entities@, self.interfaces@, self.pads@, self.links@, Role::BackSensor) is Ok
                        && endpoint_indices(self.entities@, self.interfaces@, self.pads@, self.links@, Role::FrontSensor) is Ok
                        && resolves_to(self, Role::Capture, Err(e)))
                },
            },
    {
        let back = match self.resolve_endpoint(Role::BackSensor) {
            Ok(b) => b,
            Err(e) => {
                return Err(e);
            },
        };
        let front = match self.resolve_endpoint(Role::FrontSensor) {
            Ok(f) => f,
            Err(e) => {
                return Err(e);
            },
        };
        let capture = match self.resolve_endpoint(Role::Capture) {
            Ok(c) => c,
            Err(e) => {
                return Err(e);
            },
        };
        Ok(Setup { back, front, capture })
    }
}

/// The bytes of a fixed-size C character array before its first NUL byte
/// (all of them when it holds none).
pub open spec fn c_prefix(data: Seq<u8>) -> Seq<u8>
    decreases data.len(),
{
    if data.len() == 0 || data[0] == 0 {
        Seq::empty()
    } else {
        seq![data[0]] + c_prefix(data.drop_first())
    }
}

/// Relies on `String::from_utf8`: it succeeds exactly on valid UTF-8, and
/// the string then holds the characters that the bytes encode.
#[verifier::external_body]
fn utf8_to_string(bytes: Vec<u8>) -> (r: Option<String>)
    ensures
        match r {
            Some(s) => valid_utf8(bytes@) && s@ == decode_utf8(bytes@),
            None => !valid_utf8(bytes@),
        },
{
    String::from_utf8(bytes).ok()
}

/// The text of a NUL-terminated C character array, as the kernel fills the
/// name fields of the graph; `None` where those bytes are not UTF-8.
pub fn c_char_array_to_string(data: &[u8]) -> (r: Option<String>)
    ensures
        match r {
            Some(s) => valid_utf8(c_prefix(data@)) && s@ == decode_utf8(c_prefix(data@)),
            None => !valid_utf8(c_prefix(data@)),
        },
{
    let mut bytes: Vec<u8> = Vec::new();
    let mut i: usize = 0;
    while i < data.len() && data[i] != 0
        invariant
            i <= data@.len(),
            forall|j: int| 0 <= j < i ==> data@[j] != 0,
            bytes@ == data@.subrange(0, i as int),
        decreases data@.len() - i,
    {
        bytes.push(data[i]);
        i = i + 1;
    }
    proof {
        lemma_c_prefix(data@, i as int);
    }
    utf8_to_string(bytes)
}

/// The C prefix is everything before the first NUL byte.
proof fn lemma_c_prefix(data: Seq<u8>, i: int)
    requires
        0 <= i <= data.len(),
        forall|j: int| 0 <= j < i ==> data[j] != 0,
        i == data.len() || data[i] == 0,
    ensures
        c_prefix(data) == data.subrange(0, i),
    decreases i,
{
    if i == 0 {
        assert(data.subrange(0, 0) =~= Seq::<u8>::empty());
    } else {
        let rest = data.drop_first();
        assert forall|j: int| 0 <= j < i - 1 implies rest[j] != 0 by {
            assert(rest[j] == data[j + 1]);
        }
        lemma_c_prefix(rest, i - 1);
        assert(seq![data[0]] + rest.subrange(0, i - 1) =~= data.subrange(0, i));
    }
}

/// What the media device says about itself.
#[derive(Debug)]
pub struct Info {
    pub driver: String,
    pub model: String,
    pub serial: String,
    pub bus_info: String,
    pub media_version: (u8, u8, u8),
    pub hw_revision: u32,
    pub driver_version: (u8, u8, u8),
}

/// The text of a C character array, when its bytes before the first NUL
/// are UTF-8.
pub open spec fn c_text(data: Seq<u8>) -> Option<Seq<char>> {
    if valid_utf8(c_prefix(data)) {
        Some(decode_utf8(c_prefix(data)))
    } else {
        None
    }
}

impl Info {
    /// Builds the device information from the raw fields the kernel fills:
    /// four NUL-terminated names and two packed versions. `None` when a name
    /// is not UTF-8.
    pub fn from_raw(
        driver: &[u8],
        model: &[u8],
        serial: &[u8],
        bus_info: &[u8],
        media_version: u32,
        hw_revision: u32,
        driver_version: u32,
    ) -> (r: Option<Info>)
        ensures
            match r {
                Some(info) => {
                    &&& c_text(driver@) == Some(info.driver@)
                    &&& c_text(model@) == Some(info.model@)
                    &&& c_text(serial@) == Some(info.serial@)
                    &&& c_text(bus_info@) == Some(info.bus_info@)
                    &&& info.media_version.0 as int == (media_version as int / 0x10000) % 0x100
                    &&& info.media_version.1 as int == (media_version as int / 0x100) % 0x100
                    &&& info.media_version.2 as int == media_version as int % 0x100
                    &&& info.hw_revision == hw_revision
                    &&& info.driver_version.0 as int == (driver_version as int / 0x10000) % 0x100
                    &&& info.driver_version.1 as int == (driver_version as int / 0x100) % 0x100
                    &&& info.driver_version.2 as int == driver_version as int % 0x100
                },
                None => c_text(driver@) is None || c_text(model@) is None || c_text(serial@) is None
                    || c_text(bus_info@) is None,
            },
    {
        let driver = match c_char_array_to_string(driver) {
            Some(t) => t,
            None => {
                return None;
            },
        };
        let model = match c_char_array_to_string(model) {
            Some(t) => t,
            None => {
                return None;
            },
        };
        let serial = match c_char_array_to_string(serial) {
            Some(t) => t,
            None => {
                return None;
            },
        };
        let bus_info = match c_char_array_to_string(bus_info) {
            Some(t) => t,
            None => {
                return None;
            },
        };
        Some(
            Info {
                driver,
                model,
                serial,
                bus_info,
                media_version: parse_kernel_version(media_version),
                hw_revision,
                driver_version: parse_kernel_version(driver_version),
            },
        )
    }
}

} // verus!
