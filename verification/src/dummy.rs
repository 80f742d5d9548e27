//! The Dummy oscillator (a square wave for checking a setup), control side.
use vstd::prelude::*;
use crate::unit::{RuntimeDesc, K_UNIT_ERR_NONE, K_UNIT_TARGET_NTS1_MKII_OSC, desc_status, check_runtime_desc};

verus! {

/// The Dummy oscillator, control side: it only keeps its runtime.
pub struct Dummy {
    runtime_desc: Option<RuntimeDesc>,
}

impl View for Dummy {
    type V = Option<RuntimeDesc>;

    closed spec fn view(&self) -> Option<RuntimeDesc> {
        self.runtime_desc
    }
}

impl Dummy {
    /// A fresh oscillator with no runtime.
    pub fn new() -> (r: Self)
        ensures
            r@ == None::<RuntimeDesc>,
    {
        Dummy { runtime_desc: None }
    }

    /// Loads the oscillator under runtime `desc`; returns the status code and
    /// keeps the descriptor on success.
    pub fn init(&mut self, desc: Option<RuntimeDesc>) -> (r: i8)
        ensures
            r == desc_status(desc, K_UNIT_TARGET_NTS1_MKII_OSC),
            final(self)@ == if r == K_UNIT_ERR_NONE { desc } else { old(self)@ },
    {
        let status = check_runtime_desc(desc, K_UNIT_TARGET_NTS1_MKII_OSC);
        if status != K_UNIT_ERR_NONE {
            return status;
        }
        self.runtime_desc = desc;
        K_UNIT_ERR_NONE
    }

    /// Nothing to release.
    pub fn teardown(&mut self)
        ensures
            final(self)@ == old(self)@,
    {
    }

    /// Nothing to reset on this side.
    pub fn reset(&mut self)
        ensures
            final(self)@ == old(self)@,
    {
    }

    /// Nothing to resume on this side.
    pub fn resume(&mut self)
        ensures
            final(self)@ == old(self)@,
    {
    }

    /// Nothing to suspend on this side.
    pub fn suspend(&mut self)
        ensures
            final(self)@ == old(self)@,
    {
    }

    /// The oscillator has no parameters: setting one changes nothing.
    pub fn set_parameter(&mut self, index: u8, value: i32)
        ensures
            final(self)@ == old(self)@,
    {
    }

    /// The oscillator has no parameters: every value reads 0.
    pub fn get_parameter_value(&self, index: u8) -> (r: i32)
        ensures
            r == 0,
    {
        0
    }

    /// The runtime descriptor kept by a successful `init`.
    pub fn runtime_desc(&self) -> (r: Option<RuntimeDesc>)
        ensures
            r == self@,
    {
        self.runtime_desc
    }
}

} // verus!
