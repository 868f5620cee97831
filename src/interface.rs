//! Records as the driver reports them.
use vstd::prelude::*;

verus! {

/// One HID event as the driver delivers it: a state value and a usage (page, code).
#[derive(Clone, Copy, Debug, PartialEq, Eq, Structural)]
pub struct DKEvent {
    pub value: u64,
    pub page: u32,
    pub code: u32,
}

/// The 16-bit key code of a usage: the page shifted above the code, low 16 bits kept.
pub open spec fn keycode_of(page: u32, code: u32) -> u32 {
    ((page << 8u32) | code) & 0xFFFFu32
}

impl DKEvent {
    /// The 16-bit key code of this event's usage.
    pub fn keycode(&self) -> (r: u32)
        ensures
            r == keycode_of(self.page, self.code),
    {
        ((self.page << 8u32) | self.code) & 0xFFFFu32
    }
}

/// A candidate device as the driver lists it: product string and HID ids.
#[derive(Debug)]
pub struct DeviceData {
    pub product_key: String,
    pub vendor_id: u32,
    pub product_id: u32,
}

} // verus!
