//! Locating the device node among the entries of the device directory.

use crate::outside::{ends_with, starts_with};
use vstd::prelude::*;

verus! {

/// Directory that lists the input devices by their identity.
pub const KDIR: &'static str = "/dev/input/by-id/";

/// What the name of every node of the mouse starts with.
pub const KPREFIX: &'static str = "usb-Logitech_Gaming_Mouse_G600_";

/// What the name of the node of its keyboard interface ends with.
pub const KSUFFIX: &'static str = "-if01-event-kbd";

/// No entry of the device directory names the device.
#[derive(Debug, Clone, Copy, PartialEq, Eq)]
pub struct DeviceNotFound;

/// Whether `name` is the name of the device's node.
pub open spec fn is_device_name(name: Seq<char>) -> bool {
    KPREFIX@.is_prefix_of(name) && KSUFFIX@.is_suffix_of(name)
}

/// Whether entry `i` is the first of `names` that names the device.
pub open spec fn is_first_device(names: Seq<String>, i: int) -> bool {
    &&& 0 <= i < names.len()
    &&& is_device_name(names[i]@)
    &&& forall|j: int| 0 <= j < i ==> !is_device_name(#[trigger] names[j]@)
}

/// Tells whether `name` is the name of the device's node.
pub fn names_device(name: &str) -> (b: bool)
    ensures
        b == is_device_name(name@),
{
    starts_with(name, KPREFIX) && ends_with(name, KSUFFIX)
}

/// Picks the device's node among the names of the entries of the device
/// directory: the first that starts and ends as the node's name does.
pub fn get_device_path(names: &Vec<String>) -> (r: Result<String, DeviceNotFound>)
    ensures
        match r {
            Ok(name) => exists|i: int| is_first_device(names@, i) && names[i]@ == name@,
            Err(_) => forall|i: int| 0 <= i < names.len() ==> !is_device_name(#[trigger] names[i]@),
        },
{
    let mut i: usize = 0;
    while i < names.len()
        invariant
            i <= names.len(),
            forall|j: int| 0 <= j < i ==> !is_device_name(#[trigger] names[j]@),
        decreases names.len() - i,
    {
        if names_device(names[i].as_str()) {
            assert(is_first_device(names@, i as int));
            return Ok(names[i].clone());
        }
        i += 1;
    }
    Err(DeviceNotFound)
}

/// The path of the node called `name` in the device directory.
pub fn device_node(name: &str) -> (path: String)
    ensures
        path@ == KDIR@ + name@,
{
    KDIR.to_owned().concat(name)
}

} // verus!
