//! The header by which the Waves oscillator describes itself to the runtime.
use vstd::prelude::*;
use crate::unit::{UnitParam, UnitHeader, K_UNIT_PARAM_TYPE_NONE, K_UNIT_PARAM_TYPE_ENUM, K_UNIT_PARAM_TYPE_PERCENT, UNIT_PARAM_NAME_LEN, UNIT_NAME_LEN, K_UNIT_TARGET_NTS1_MKII_OSC, K_UNIT_API_2_0_0, spec_dev_id, spec_unit_string, dev_id_string, unit_string, unit_param};
use crate::waves::{K_WAVES_A_CNT, K_WAVES_B_CNT, SUB_WAVE_CNT, K_WAVE_A, K_WAVE_B, K_SUB_WAVE, enum_param_count, param_max, is_declared_param, bounded_value};

verus! {

/// Version of the Waves unit: major.minor.patch as major<<16 | minor<<8 | patch.
pub const WAVES_UNIT_VERSION: u32 = 0x0002_0000;
/// Id of the Waves unit within its developer's units.
pub const WAVES_UNIT_ID: u32 = 0x05_0400;
/// Number of parameter descriptors in use.
pub const WAVES_NUM_PARAMS: u32 = 8;
/// Number of parameter descriptor slots in a header.
pub const UNIT_MAX_PARAM_COUNT: usize = 11;

/// The developer id "H1RO".
pub open spec fn waves_dev_id_bytes() -> Seq<u8> {
    seq![0x48u8, 0x31u8, 0x52u8, 0x4fu8]
}

/// The unit name "rWAV".
pub open spec fn waves_name_bytes() -> Seq<u8> {
    seq![0x72u8, 0x57u8, 0x41u8, 0x56u8]
}

/// Minimum, maximum, center, initial value, type and packed fraction bits of
/// the descriptor in slot `i`.
pub open spec fn waves_param_desc(i: int) -> (int, int, int, int, int, int) {
    if i == 0 || i == 1 {
        (0, 1023, 0, 0, K_UNIT_PARAM_TYPE_NONE as int, 0)
    } else if i == 2 {
        (0, K_WAVES_A_CNT - 1, 0, 0, K_UNIT_PARAM_TYPE_ENUM as int, 0)
    } else if i == 3 {
        (0, K_WAVES_B_CNT - 1, 0, 0, K_UNIT_PARAM_TYPE_NONE as int, 0)
    } else if i == 4 {
        (0, SUB_WAVE_CNT - 1, 0, 0, K_UNIT_PARAM_TYPE_NONE as int, 0)
    } else if i == 5 {
        (0, 1000, 0, 0, K_UNIT_PARAM_TYPE_PERCENT as int, 0x11)
    } else if i == 6 {
        (0, 1000, 0, 0, K_UNIT_PARAM_TYPE_NONE as int, 0x11)
    } else if i == 7 {
        (0, 1000, 0, 250, K_UNIT_PARAM_TYPE_PERCENT as int, 0x11)
    } else {
        (0, 0, 0, 0, K_UNIT_PARAM_TYPE_NONE as int, 0)
    }
}

/// Name of the descriptor in slot `i`: SHPE, SUB, WAVE A, WAVE B, SUB WAVE,
/// RING MIX, BIT CRUSH, DRIFT, then empty.
pub open spec fn waves_param_name(i: int) -> Seq<u8> {
    if i == 0 {
        seq![0x53u8, 0x48u8, 0x50u8, 0x45u8]
    } else if i == 1 {
        seq![0x53u8, 0x55u8, 0x42u8]
    } else if i == 2 {
        seq![0x57u8, 0x41u8, 0x56u8, 0x45u8, 0x20u8, 0x41u8]
    } else if i == 3 {
        seq![0x57u8, 0x41u8, 0x56u8, 0x45u8, 0x20u8, 0x42u8]
    } else if i == 4 {
        seq![0x53u8, 0x55u8, 0x42u8, 0x20u8, 0x57u8, 0x41u8, 0x56u8, 0x45u8]
    } else if i == 5 {
        seq![0x52u8, 0x49u8, 0x4eu8, 0x47u8, 0x20u8, 0x4du8, 0x49u8, 0x58u8]
    } else if i == 6 {
        seq![0x42u8, 0x49u8, 0x54u8, 0x20u8, 0x43u8, 0x52u8, 0x55u8, 0x53u8, 0x48u8]
    } else if i == 7 {
        seq![0x44u8, 0x52u8, 0x49u8, 0x46u8, 0x54u8]
    } else {
        Seq::<u8>::empty()
    }
}

/// The parameter descriptor `p` is the one of slot `i`.
pub open spec fn is_waves_param(p: UnitParam, i: int) -> bool {
    let d = waves_param_desc(i);
    &&& p.min == d.0
    &&& p.max == d.1
    &&& p.center == d.2
    &&& p.init == d.3
    &&& p.param_type == d.4
    &&& p.frac_bits == d.5
    &&& p.name@ == spec_unit_string(waves_param_name(i), UNIT_PARAM_NAME_LEN as nat)
}

/// The header of the Waves oscillator.
pub fn unit_header() -> (r: UnitHeader)
    ensures
        r.target == K_UNIT_TARGET_NTS1_MKII_OSC,
        r.api == K_UNIT_API_2_0_0,
        r.dev_id == spec_dev_id(waves_dev_id_bytes()),
        r.unit_id == WAVES_UNIT_ID,
        r.version == WAVES_UNIT_VERSION,
        r.name@ == spec_unit_string(waves_name_bytes(), UNIT_NAME_LEN as nat),
        r.reserved0 == 0,
        r.reserved1 == 0,
        r.num_params == WAVES_NUM_PARAMS,
        r.params@.len() == UNIT_MAX_PARAM_COUNT,
        forall|i: int| 0 <= i < UNIT_MAX_PARAM_COUNT ==> is_waves_param(#[trigger] r.params@[i], i),
{
    let dev: [u8; 4] = [0x48, 0x31, 0x52, 0x4f];
    let name: [u8; 4] = [0x72, 0x57, 0x41, 0x56];
    assert(dev@ == waves_dev_id_bytes());
    assert(name@ == waves_name_bytes());
    let mut params: Vec<UnitParam> = Vec::new();
    let n0: [u8; 4] = [0x53, 0x48, 0x50, 0x45];
    let n1: [u8; 3] = [0x53, 0x55, 0x42];
    let n2: [u8; 6] = [0x57, 0x41, 0x56, 0x45, 0x20, 0x41];
    let n3: [u8; 6] = [0x57, 0x41, 0x56, 0x45, 0x20, 0x42];
    let n4: [u8; 8] = [0x53, 0x55, 0x42, 0x20, 0x57, 0x41, 0x56, 0x45];
    let n5: [u8; 8] = [0x52, 0x49, 0x4e, 0x47, 0x20, 0x4d, 0x49, 0x58];
    let n6: [u8; 9] = [0x42, 0x49, 0x54, 0x20, 0x43, 0x52, 0x55, 0x53, 0x48];
    let n7: [u8; 5] = [0x44, 0x52, 0x49, 0x46, 0x54];
    let empty: [u8; 0] = [];
    assert(n0@ == waves_param_name(0));
    assert(n1@ == waves_param_name(1));
    assert(n2@ == waves_param_name(2));
    assert(n3@ == waves_param_name(3));
    assert(n4@ == waves_param_name(4));
    assert(n5@ == waves_param_name(5));
    assert(n6@ == waves_param_name(6));
    assert(n7@ == waves_param_name(7));
    assert(empty@ == waves_param_name(8));
    assert(empty@ == waves_param_name(9));
    assert(empty@ == waves_param_name(10));
    params.push(unit_param(0, 1023, 0, 0, K_UNIT_PARAM_TYPE_NONE, 0, &n0));
    params.push(unit_param(0, 1023, 0, 0, K_UNIT_PARAM_TYPE_NONE, 0, &n1));
    params.push(unit_param(0, K_WAVES_A_CNT - 1, 0, 0, K_UNIT_PARAM_TYPE_ENUM, 0, &n2));
    params.push(unit_param(0, K_WAVES_B_CNT - 1, 0, 0, K_UNIT_PARAM_TYPE_NONE, 0, &n3));
    params.push(unit_param(0, SUB_WAVE_CNT - 1, 0, 0, K_UNIT_PARAM_TYPE_NONE, 0, &n4));
    params.push(unit_param(0, 1000, 0, 0, K_UNIT_PARAM_TYPE_PERCENT, 0x11, &n5));
    params.push(unit_param(0, 1000, 0, 0, K_UNIT_PARAM_TYPE_NONE, 0x11, &n6));
    params.push(unit_param(0, 1000, 0, 250, K_UNIT_PARAM_TYPE_PERCENT, 0x11, &n7));
    params.push(unit_param(0, 0, 0, 0, K_UNIT_PARAM_TYPE_NONE, 0, &empty));
    params.push(unit_param(0, 0, 0, 0, K_UNIT_PARAM_TYPE_NONE, 0, &empty));
    params.push(unit_param(0, 0, 0, 0, K_UNIT_PARAM_TYPE_NONE, 0, &empty));
    UnitHeader {
        target: K_UNIT_TARGET_NTS1_MKII_OSC,
        api: K_UNIT_API_2_0_0,
        dev_id: dev_id_string(&dev),
        unit_id: WAVES_UNIT_ID,
        version: WAVES_UNIT_VERSION,
        name: unit_string(&name, UNIT_NAME_LEN),
        reserved0: 0,
        reserved1: 0,
        num_params: WAVES_NUM_PARAMS,
        params,
    }
}

/// Every declared parameter has its own non-empty name, shorter than the name
/// field, with no zero byte in it, and no two declared parameters share a name;
/// the unused slots are unnamed. The enum slots are told apart by their last
/// letter: wave A ends in 'A', wave B in 'B'.
pub proof fn lemma_param_names_distinct()
    ensures
        forall|i: int, j: int|
            0 <= i < j < 8 ==> #[trigger] waves_param_name(i) != #[trigger] waves_param_name(j),
        forall|i: int|
            0 <= i < 8 ==> 0 < #[trigger] waves_param_name(i).len() < UNIT_PARAM_NAME_LEN,
        forall|i: int, k: int|
            0 <= i < 8 && 0 <= k < waves_param_name(i).len() ==> #[trigger] waves_param_name(i)[k] != 0,
        forall|i: int| 8 <= i < 11 ==> #[trigger] waves_param_name(i).len() == 0,
        waves_param_name(2).last() == 0x41u8,
        waves_param_name(3).last() == 0x42u8,
        waves_param_name(2).drop_last() == waves_param_name(3).drop_last(),
{
    assert forall|i: int, j: int| 0 <= i < j < 8 implies waves_param_name(i) != waves_param_name(j) by {
        let a = waves_param_name(i);
        let b = waves_param_name(j);
        if a.len() == b.len() {
            if a[0] == b[0] {
                assert(a[a.len() - 1] != b[b.len() - 1]);
            } else {
                assert(a[0] != b[0]);
            }
        }
    }
    assert(waves_param_name(2).drop_last() =~= waves_param_name(3).drop_last());
}

/// Padding a declared name to the name field keeps the names apart, so the
/// header's descriptors carry pairwise different names.
pub proof fn lemma_padded_names_distinct(i: int, j: int)
    requires
        0 <= i < j < 8,
    ensures
        spec_unit_string(waves_param_name(i), UNIT_PARAM_NAME_LEN as nat) != spec_unit_string(
            waves_param_name(j),
            UNIT_PARAM_NAME_LEN as nat,
        ),
{
    lemma_param_names_distinct();
    let a = waves_param_name(i);
    let b = waves_param_name(j);
    let pa = spec_unit_string(a, UNIT_PARAM_NAME_LEN as nat);
    let pb = spec_unit_string(b, UNIT_PARAM_NAME_LEN as nat);
    if a.len() < b.len() {
        assert(pa[a.len() as int] == 0i8);
        assert(b[a.len() as int] != 0);
        assert(pb[a.len() as int] != 0i8);
    } else if b.len() < a.len() {
        assert(pb[b.len() as int] == 0i8);
        assert(a[b.len() as int] != 0);
        assert(pa[b.len() as int] != 0i8);
    } else {
        let k = choose|k: int| 0 <= k < a.len() && a[k] != b[k];
        assert(a[k] != b[k]) by {
            assert(!(a =~= b));
        }
        assert(pa[k] != pb[k]);
    }
}

/// The range `bound_param_value` keeps values in is the one this header
/// declares: minimum 0 and maximum `param_max` for every declared parameter
/// (continuous parameters are clamped to it; an enum parameter's maximum is one
/// below its number of choices, so its modulo reduction stays within it), and
/// every bound-checked value lies in that range.
pub proof fn lemma_header_declares_param_bounds(i: u8)
    requires
        is_declared_param(i),
    ensures
        waves_param_desc(i as int).0 == 0,
        waves_param_desc(i as int).1 == param_max(i),
        (i == K_WAVE_A || i == K_WAVE_B || i == K_SUB_WAVE) ==> waves_param_desc(i as int).1
            == enum_param_count(i) - 1,
        forall|value: i32|
            waves_param_desc(i as int).0 <= #[trigger] bounded_value(i, value) <= waves_param_desc(i as int).1,
{
}

} // verus!
