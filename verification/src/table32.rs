//! The Table32 oscillator, control side: which of the 32-byte wave tables
//! is played.
use vstd::prelude::*;
use crate::unit::{RuntimeDesc, K_UNIT_ERR_NONE, K_UNIT_TARGET_NTS1_MKII_OSC, desc_status, check_runtime_desc};

verus! {

/// Number of wave tables.
pub const WAVE_TABLE_COUNT: usize = 32;
/// Bytes in one wave table.
pub const WAVE_TABLE_WIDTH: usize = 32;

/// Parameter index: wave table.
pub const K_TABLE: u8 = 0;
/// Parameter index: unused.
pub const K_NONE: u8 = 1;
/// Parameter index: wave table select.
pub const K_TABLE_SEL: u8 = 2;

/// Whether parameter `index` chooses the wave table.
pub open spec fn is_table_param(index: u8) -> bool {
    index == K_TABLE || index == K_TABLE_SEL
}

/// The Table32 oscillator, control side.
pub struct Table32 {
    runtime_desc: Option<RuntimeDesc>,
    wave_table: i32,
}

/// Abstract state of a `Table32`: the runtime kept by `init` and the offset of
/// the chosen table from the first one.
pub struct Table32View {
    pub runtime_desc: Option<RuntimeDesc>,
    pub wave_table: i32,
}

impl View for Table32 {
    type V = Table32View;

    closed spec fn view(&self) -> Table32View {
        Table32View { runtime_desc: self.runtime_desc, wave_table: self.wave_table }
    }
}

/// The state after loading under `desc`: the descriptor is kept on success.
pub open spec fn table32_after_init(v: Table32View, desc: Option<RuntimeDesc>) -> Table32View {
    if desc_status(desc, K_UNIT_TARGET_NTS1_MKII_OSC) == K_UNIT_ERR_NONE {
        Table32View { runtime_desc: desc, ..v }
    } else {
        v
    }
}

/// A raw table choice bound-checked against the tables that exist: values
/// below 0 choose the first table, values past the last choose the last.
pub open spec fn bounded_table(value: i32) -> i32 {
    if value < 0 {
        0
    } else if value >= WAVE_TABLE_COUNT {
        (WAVE_TABLE_COUNT - 1) as i32
    } else {
        value
    }
}

/// The state after setting parameter `index` to `value`.
pub open spec fn table32_after_set(v: Table32View, index: u8, value: i32) -> Table32View {
    if is_table_param(index) {
        Table32View { wave_table: bounded_table(value), ..v }
    } else {
        v
    }
}

impl Table32 {
    /// A fresh oscillator playing the first table, with no runtime.
    pub fn new() -> (r: Self)
        ensures
            r@ == (Table32View { runtime_desc: None, wave_table: 0 }),
    {
        Table32 { runtime_desc: None, wave_table: 0 }
    }

    /// Loads the oscillator under runtime `desc`; returns the status code.
    pub fn init(&mut self, desc: Option<RuntimeDesc>) -> (r: i8)
        ensures
            r == desc_status(desc, K_UNIT_TARGET_NTS1_MKII_OSC),
            final(self)@ == table32_after_init(old(self)@, desc),
    {
        let status = check_runtime_desc(desc, K_UNIT_TARGET_NTS1_MKII_OSC);
        if status != K_UNIT_ERR_NONE {
            return status;
        }
        self.runtime_desc = desc;
        K_UNIT_ERR_NONE
    }

    /// Nothing to release.
    pub fn teardown(&mut self)
        ensures
            final(self)@ == old(self)@,
    {
    }

    /// Nothing to reset on this side.
    pub fn reset(&mut self)
        ensures
            final(self)@ == old(self)@,
    {
    }

    /// Nothing to resume on this side.
    pub fn resume(&mut self)
        ensures
            final(self)@ == old(self)@,
    {
    }

    /// Nothing to suspend on this side.
    pub fn suspend(&mut self)
        ensures
            final(self)@ == old(self)@,
    {
    }

    /// Sets parameter `index` to `value`: a table parameter chooses the table
    /// `value` places after the first one, bound-checked against the tables
    /// that exist. Returns whether the table was chosen, in which case the
    /// phase must restart.
    pub fn set_parameter(&mut self, index: u8, value: i32) -> (restart: bool)
        ensures
            restart == is_table_param(index),
            final(self)@ == table32_after_set(old(self)@, index, value),
    {
        if index == K_TABLE || index == K_TABLE_SEL {
            self.wave_table = if value < 0 {
                0
            } else if value >= WAVE_TABLE_COUNT as i32 {
                (WAVE_TABLE_COUNT - 1) as i32
            } else {
                value
            };
            true
        } else {
            false
        }
    }

    /// The value of parameter `index`: the chosen table for a table
    /// parameter, 0 for any other index.
    pub fn get_parameter_value(&self, index: u8) -> (r: i32)
        ensures
            r == if is_table_param(index) { self@.wave_table } else { 0 },
    {
        if index == K_TABLE || index == K_TABLE_SEL {
            self.wave_table
        } else {
            0
        }
    }

    /// Offset of the chosen table from the first one.
    pub fn wave_table(&self) -> (r: i32)
        ensures
            r == self@.wave_table,
    {
        self.wave_table
    }

    /// The runtime descriptor kept by a successful `init`.
    pub fn runtime_desc(&self) -> (r: Option<RuntimeDesc>)
        ensures
            r == self@.runtime_desc,
    {
        self.runtime_desc
    }
}

/// The table chosen is always one that exists.
pub open spec fn table32_in_range(v: Table32View) -> bool {
    0 <= v.wave_table < WAVE_TABLE_COUNT
}

/// Reading a table parameter gives back the table last set through either
/// table parameter (bound-checked; unchanged when it names an existing table);
/// other parameters neither choose a table nor read anything but 0.
pub proof fn lemma_table_roundtrip(v: Table32View, index: u8, other: u8, value: i32)
    ensures
        is_table_param(index) && is_table_param(other) ==> table32_after_set(v, index, value).wave_table
            == bounded_table(value),
        is_table_param(index) && 0 <= value < WAVE_TABLE_COUNT ==> table32_after_set(
            v,
            index,
            value,
        ).wave_table == value,
        !is_table_param(index) ==> table32_after_set(v, index, value) == v,
{
}

/// A fresh oscillator plays an existing table, and loading and setting
/// parameters keep it so.
pub proof fn lemma_table32_in_range(v: Table32View, index: u8, value: i32, desc: Option<RuntimeDesc>)
    requires
        table32_in_range(v),
    ensures
        table32_in_range(Table32View { runtime_desc: None, wave_table: 0 }),
        table32_in_range(table32_after_set(v, index, value)),
        table32_in_range(table32_after_init(v, desc)),
{
}

} // verus!
