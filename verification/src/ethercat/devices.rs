//! Which device a subdevice on the bus is, and the names its signals and
//! slots are published under.
use crate::text::{decimal, spec_decimal};
use vstd::prelude::*;
use vstd::string::*;

verus! {

/// Vendor id, product id and name of a device type.
pub trait DeviceInfo {
    spec fn spec_vendor_id() -> u32;

    spec fn spec_product_id() -> u32;

    spec fn spec_name() -> Seq<char>;

    fn vendor_id() -> (r: u32)
        ensures
            r == Self::spec_vendor_id(),
    ;

    fn product_id() -> (r: u32)
        ensures
            r == Self::spec_product_id(),
    ;

    fn name() -> (r: &'static str)
        ensures
            r@ == Self::spec_name(),
    ;
}

/// A CoE object: its index and subindex.
pub trait Index {
    spec fn spec_index() -> u16;

    spec fn spec_subindex() -> u8;

    fn index() -> (r: u16)
        ensures
            r == Self::spec_index(),
    ;

    fn subindex() -> (r: u8)
        ensures
            r == Self::spec_subindex(),
    ;
}

/// The device types the framework drives.
#[derive(Clone, Copy, Debug, PartialEq, Eq, Structural)]
pub enum DeviceKind {
    /// EtherCAT coupler.
    Ek1100,
    /// Four digital outputs.
    El2794,
    /// Four digital outputs.
    El2004,
    /// Eight digital outputs.
    El2008,
    /// Sixteen digital outputs.
    El2809,
    /// Lenze i550 frequency inverter.
    I550,
    /// Load-cell terminal.
    El3356,
    /// Any other device: set up and run as doing nothing.
    Unimplemented,
}

/// The vendor id of a device type.
pub open spec fn spec_kind_vendor(k: DeviceKind) -> u32 {
    match k {
        DeviceKind::I550 => 0x0000003b,
        DeviceKind::Unimplemented => 0,
        _ => 0x2,
    }
}

/// The product id of a device type.
pub open spec fn spec_kind_product(k: DeviceKind) -> u32 {
    match k {
        DeviceKind::Ek1100 => 0x44c2c52,
        DeviceKind::El2794 => 0xaea3052,
        DeviceKind::El2004 => 0x7d43052,
        DeviceKind::El2008 => 0x7d83052,
        DeviceKind::El2809 => 0xaf93052,
        DeviceKind::I550 => 0x69055000,
        DeviceKind::El3356 => 0x0d1c3052,
        DeviceKind::Unimplemented => 0,
    }
}

/// The device type a subdevice reporting `vendor_id` and `product_id` is.
pub open spec fn spec_identify(vendor_id: u32, product_id: u32) -> DeviceKind {
    if vendor_id == 0x2 && product_id == 0x44c2c52 {
        DeviceKind::Ek1100
    } else if vendor_id == 0x2 && product_id == 0xaea3052 {
        DeviceKind::El2794
    } else if vendor_id == 0x2 && product_id == 0x7d43052 {
        DeviceKind::El2004
    } else if vendor_id == 0x2 && product_id == 0x7d83052 {
        DeviceKind::El2008
    } else if vendor_id == 0x2 && product_id == 0xaf93052 {
        DeviceKind::El2809
    } else if vendor_id == 0x3b && product_id == 0x69055000 {
        DeviceKind::I550
    } else if vendor_id == 0x2 && product_id == 0x0d1c3052 {
        DeviceKind::El3356
    } else {
        DeviceKind::Unimplemented
    }
}

impl DeviceKind {
    /// The vendor id of the device type (0 for an unimplemented device).
    pub fn vendor_id(&self) -> (r: u32)
        ensures
            r == spec_kind_vendor(*self),
    {
        match self {
            DeviceKind::I550 => 0x0000003b,
            DeviceKind::Unimplemented => 0,
            _ => 0x2,
        }
    }

    /// The product id of the device type (0 for an unimplemented device).
    pub fn product_id(&self) -> (r: u32)
        ensures
            r == spec_kind_product(*self),
    {
        match self {
            DeviceKind::Ek1100 => 0x44c2c52,
            DeviceKind::El2794 => 0xaea3052,
            DeviceKind::El2004 => 0x7d43052,
            DeviceKind::El2008 => 0x7d83052,
            DeviceKind::El2809 => 0xaf93052,
            DeviceKind::I550 => 0x69055000,
            DeviceKind::El3356 => 0x0d1c3052,
            DeviceKind::Unimplemented => 0,
        }
    }
}

/// The device type of a subdevice, by the identity it reports.
pub fn identify(vendor_id: u32, product_id: u32) -> (k: DeviceKind)
    ensures
        k == spec_identify(vendor_id, product_id),
{
    if vendor_id == 0x2 && product_id == 0x44c2c52 {
        DeviceKind::Ek1100
    } else if vendor_id == 0x2 && product_id == 0xaea3052 {
        DeviceKind::El2794
    } else if vendor_id == 0x2 && product_id == 0x7d43052 {
        DeviceKind::El2004
    } else if vendor_id == 0x2 && product_id == 0x7d83052 {
        DeviceKind::El2008
    } else if vendor_id == 0x2 && product_id == 0xaf93052 {
        DeviceKind::El2809
    } else if vendor_id == 0x3b && product_id == 0x69055000 {
        DeviceKind::I550
    } else if vendor_id == 0x2 && product_id == 0x0d1c3052 {
        DeviceKind::El3356
    } else {
        DeviceKind::Unimplemented
    }
}

/// A known device is recognized by its own identity.
pub proof fn lemma_identify_own_identity(k: DeviceKind)
    requires
        k != DeviceKind::Unimplemented,
    ensures
        spec_identify(spec_kind_vendor(k), spec_kind_product(k)) == k,
{
}

/// A subdevice is taken for a known device type exactly when it reports
/// that type's vendor and product id; any other identity is unimplemented.
pub proof fn lemma_identify_exact(vendor_id: u32, product_id: u32, k: DeviceKind)
    requires
        k != DeviceKind::Unimplemented,
    ensures
        spec_identify(vendor_id, product_id) == k <==> (vendor_id == spec_kind_vendor(k)
            && product_id == spec_kind_product(k)),
{
}

/// Whether the device in a bus position must be replaced: the device there
/// reports another identity than the one the subdevice has.
pub fn needs_new_device(current: DeviceKind, vendor_id: u32, product_id: u32) -> (r: bool)
    ensures
        r == (spec_kind_vendor(current) != vendor_id || spec_kind_product(current) != product_id),
{
    current.vendor_id() != vendor_id || current.product_id() != product_id
}

/// The EK1100 coupler.
pub struct Ek1100;

impl DeviceInfo for Ek1100 {
    open spec fn spec_vendor_id() -> u32 {
        0x2
    }

    open spec fn spec_product_id() -> u32 {
        0x44c2c52
    }

    open spec fn spec_name() -> Seq<char> {
        "Ek1100"@
    }

    fn vendor_id() -> (r: u32) {
        0x2
    }

    fn product_id() -> (r: u32) {
        0x44c2c52
    }

    fn name() -> (r: &'static str) {
        "Ek1100"
    }
}

/// A device with nothing to set up and no process data.
pub struct UnimplementedDevice;

/// `<head><number>` for a subdevice without an alias address, `<head
/// with alias><alias>` for one with.
pub open spec fn spec_prefix(
    head: Seq<char>,
    alias_head: Seq<char>,
    number: u16,
    alias: u16,
) -> Seq<char> {
    if alias != 0 {
        alias_head + spec_decimal(alias as nat)
    } else {
        head + spec_decimal(number as nat)
    }
}

/// The prefix of a subdevice's names: `head` followed by its position on the
/// bus, or `alias_head` followed by its alias address when it has one.
pub fn prefix(head: &str, alias_head: &str, number: u16, alias: u16) -> (s: String)
    ensures
        s@ == spec_prefix(head@, alias_head@, number, alias),
{
    if alias != 0 {
        let d = decimal(alias as u64);
        let s = String::from_str(alias_head);
        s.concat(d.as_str())
    } else {
        let d = decimal(number as u64);
        let s = String::from_str(head);
        s.concat(d.as_str())
    }
}

/// `<prefix><tag><n>`, the name of channel `n` of a device.
pub fn channel_name(prefix: &str, tag: &str, n: u64) -> (s: String)
    ensures
        s@ == prefix@ + tag@ + spec_decimal(n as nat),
{
    let d = decimal(n);
    let s = String::from_str(prefix);
    let s = s.concat(tag);
    s.concat(d.as_str())
}

} // verus!
