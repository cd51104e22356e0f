use vstd::prelude::*;
use vstd::string::StringExecFns;
use crate::error::Error;
use crate::host::{Host, Level};

verus! {

/// USB interface classes.
#[derive(Debug, Clone, Copy, PartialEq, Eq, Structural)]
pub enum IfClass {
    Hid,
}

/// USB interface subclasses.
#[derive(Debug, Clone, Copy, PartialEq, Eq, Structural)]
pub enum IfSubClass {
    HidNone,
    HidBoot,
}

/// USB interface protocols.
#[derive(Debug, Clone, Copy, PartialEq, Eq, Structural)]
pub enum IfProto {
    HidNone,
    HidKeyboard,
    HidMouse,
}

impl IfClass {
    pub open spec fn spec_code(self) -> u8 {
        match self {
            IfClass::Hid => 3,
        }
    }

    /// The class code of the USB specification.
    pub fn code(self) -> (r: u8)
        ensures
            r == self.spec_code(),
    {
        match self {
            IfClass::Hid => 3,
        }
    }
}

impl IfSubClass {
    pub open spec fn spec_code(self) -> u8 {
        match self {
            IfSubClass::HidNone => 0,
            IfSubClass::HidBoot => 1,
        }
    }

    /// The subclass code of the USB specification.
    pub fn code(self) -> (r: u8)
        ensures
            r == self.spec_code(),
    {
        match self {
            IfSubClass::HidNone => 0,
            IfSubClass::HidBoot => 1,
        }
    }
}

impl IfProto {
    pub open spec fn spec_code(self) -> u8 {
        match self {
            IfProto::HidNone => 0,
            IfProto::HidKeyboard => 1,
            IfProto::HidMouse => 2,
        }
    }

    /// The protocol code of the USB specification.
    pub fn code(self) -> (r: u8)
        ensures
            r == self.spec_code(),
    {
        match self {
            IfProto::HidNone => 0,
            IfProto::HidKeyboard => 1,
            IfProto::HidMouse => 2,
        }
    }
}

/// A USB interface as the core describes it on plug-in.
#[derive(Debug, Clone, Copy, PartialEq, Eq, Structural)]
pub struct Interface {
    pub class: u8,
    pub subclass: u8,
    pub protocol: u8,
    pub vendor: u16,
    pub product: u16,
}

/// A match criterion on interface class, subclass and protocol; vendor and
/// product are left open.
#[derive(Debug, Clone, Copy, PartialEq, Eq, Structural)]
pub struct DeviceId {
    pub class: u8,
    pub subclass: u8,
    pub protocol: u8,
}

impl DeviceId {
    /// Whether `iface` meets this criterion.
    pub open spec fn spec_matches(self, iface: Interface) -> bool {
        iface.class == self.class && iface.subclass == self.subclass && iface.protocol
            == self.protocol
    }

    /// Matches interfaces of the given class, subclass and protocol.
    pub fn interface_info(class: IfClass, subclass: IfSubClass, proto: IfProto) -> (r: DeviceId)
        ensures
            r.class == class.spec_code(),
            r.subclass == subclass.spec_code(),
            r.protocol == proto.spec_code(),
    {
        DeviceId { class: class.code(), subclass: subclass.code(), protocol: proto.code() }
    }

    /// Whether `iface` meets this criterion.
    pub fn matches(&self, iface: &Interface) -> (r: bool)
        ensures
            r == self.spec_matches(*iface),
    {
        iface.class == self.class && iface.subclass == self.subclass && iface.protocol
            == self.protocol
    }
}

/// One entry of a driver's match table, with an optional cookie handed to
/// probe.
#[derive(Debug, Clone, Copy)]
pub struct IdEntry {
    pub id: DeviceId,
    pub data: Option<()>,
}

/// The first entry of `table` that `iface` meets, if any.
pub open spec fn first_match(table: Seq<IdEntry>, iface: Interface) -> Option<int>
    decreases table.len(),
{
    if table.len() == 0 {
        None
    } else if table[0].id.spec_matches(iface) {
        Some(0)
    } else {
        match first_match(table.drop_first(), iface) {
            Some(i) => Some(i + 1),
            None => None,
        }
    }
}

/// The index of the first entry of `table` that `iface` meets, or `None`.
pub fn match_id(table: &Vec<IdEntry>, iface: &Interface) -> (r: Option<usize>)
    ensures
        match r {
            Some(i) => first_match(table@, *iface) == Some(i as int),
            None => first_match(table@, *iface) == Option::<int>::None,
        },
{
    let mut i: usize = 0;
    assert(table@.skip(0) =~= table@);
    while i < table.len()
        invariant
            i <= table@.len(),
            first_match(table@, *iface) == match first_match(table@.skip(i as int), *iface) {
                Some(j) => Some(j + i),
                None => Option::<int>::None,
            },
        decreases table@.len() - i,
    {
        assert(table@.skip(i as int).drop_first() =~= table@.skip(i + 1));
        if table[i].id.matches(iface) {
            return Some(i);
        }
        i = i + 1;
    }
    assert(table@.skip(i as int).len() == 0);
    None
}

/// The line logged when the driver binds to an interface.
pub open spec fn probe_line() -> Seq<char> {
    "Loaded USB driver."@
}

/// The line logged when the interface goes away.
pub open spec fn disconnect_line() -> Seq<char> {
    "Unloaded USB driver."@
}

/// The USB interface-driver stub. It keeps no state per device.
pub struct Task05;

impl Task05 {
    /// The match table: HID boot keyboards, whatever their vendor and
    /// product.
    pub fn id_table() -> (r: Vec<IdEntry>)
        ensures
            r@.len() == 1,
            r@[0].id.class == 3,
            r@[0].id.subclass == 1,
            r@[0].id.protocol == 1,
            r@[0].data == Option::<()>::None,
    {
        let id = DeviceId::interface_info(IfClass::Hid, IfSubClass::HidBoot, IfProto::HidKeyboard);
        vec![IdEntry { id, data: None }]
    }

    /// Whether the driver's table selects `iface`: a HID boot keyboard.
    pub fn binds(iface: &Interface) -> (r: bool)
        ensures
            r == (iface.class == 3 && iface.subclass == 1 && iface.protocol == 1),
    {
        let table = Task05::id_table();
        let m = match_id(&table, iface);
        proof {
            let t = table@;
            assert(t.drop_first().len() == 0);
            reveal_with_fuel(first_match, 2);
        }
        m.is_some()
    }

    /// Binding logs `Loaded USB driver.` at info level and claims the
    /// interface; it keeps no data.
    pub fn probe(_iface: &mut Interface, _device_id: &DeviceId, host: &mut Host) -> (r: Result<
        (),
        Error,
    >)
        ensures
            r == Ok::<(), Error>(()),
            *final(_iface) == *old(_iface),
            final(host).log() == old(host).log().push((Level::Info, probe_line())),
            final(host).slept() == old(host).slept(),
    {
        host.printk(Level::Info, String::from_str("Loaded USB driver."));
        Ok(())
    }

    /// Unbinding logs `Unloaded USB driver.` at info level.
    pub fn disconnect(_data: &(), host: &mut Host)
        ensures
            final(host).log() == old(host).log().push((Level::Info, disconnect_line())),
            final(host).slept() == old(host).slept(),
    {
        host.printk(Level::Info, String::from_str("Unloaded USB driver."));
    }
}

/// Binding to an interface and then losing it logs exactly
/// `Loaded USB driver.` and then `Unloaded USB driver.`, both at info level,
/// after what the log held before.
pub proof fn lemma_usb_cycle(h0: Host, h1: Host, h2: Host)
    requires
        h1.log() == h0.log().push((Level::Info, probe_line())),
        h2.log() == h1.log().push((Level::Info, disconnect_line())),
    ensures
        h2.log() == h0.log() + seq![
            (Level::Info, probe_line()),
            (Level::Info, disconnect_line()),
        ],
{
    assert(h2.log() =~= h0.log() + seq![
        (Level::Info, probe_line()),
        (Level::Info, disconnect_line()),
    ]);
}

} // verus!
