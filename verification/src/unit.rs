//! The unit runtime: error codes, API versions, the runtime descriptor checks
//! and the helpers that build unit header data.
use vstd::prelude::*;

verus! {

/// Success.
pub const K_UNIT_ERR_NONE: i8 = 0;
/// The unit was built for another platform or module.
pub const K_UNIT_ERR_TARGET: i8 = -1;
/// The runtime API version is not compatible with the unit.
pub const K_UNIT_ERR_API_VERSION: i8 = -2;
/// The runtime sample rate is not supported.
pub const K_UNIT_ERR_SAMPLERATE: i8 = -4;
/// The runtime frame geometry (channel counts) is not supported.
pub const K_UNIT_ERR_GEOMETRY: i8 = -8;
/// Memory could not be obtained.
pub const K_UNIT_ERR_MEMORY: i8 = -16;
/// Undefined error (no runtime descriptor).
pub const K_UNIT_ERR_UNDEF: i8 = -32;

/// Bits of an API version word that hold the major version.
pub const UNIT_API_MAJOR_MASK: u32 = 0x7f0000;
/// Bits of an API version word that hold the minor version.
pub const UNIT_API_MINOR_MASK: u32 = 0x7f00;
/// Bits of an API version word that hold the patch version.
pub const UNIT_API_PATCH_MASK: u32 = 0x7f;
/// API version 2.0.0, the one the units are built for.
pub const K_UNIT_API_2_0_0: u32 = 0x20000;

/// Platform part of a target word: the NTS-1 digital kit mkII.
pub const K_UNIT_TARGET_NTS1_MKII: u16 = 0x500;
/// Module part of a target word: oscillator.
pub const K_UNIT_MODULE_OSC: u16 = 4;
/// Target word of an oscillator unit for the NTS-1 digital kit mkII.
pub const K_UNIT_TARGET_NTS1_MKII_OSC: u16 = 0x504;

/// The only sample rate the units accept.
pub const UNIT_SAMPLERATE: u32 = 48000;
/// Input channels the units expect (stereo).
pub const UNIT_INPUT_CHANNELS: u8 = 2;
/// Output channels the units expect (mono).
pub const UNIT_OUTPUT_CHANNELS: u8 = 1;

/// What the runtime tells a unit about itself when it is loaded.
#[derive(Clone, Copy, Debug, PartialEq, Eq, Structural)]
pub struct RuntimeDesc {
    pub target: u16,
    pub api: u32,
    pub samplerate: u32,
    pub frames_per_buffer: u16,
    pub input_channels: u8,
    pub output_channels: u8,
}

/// An API version is compatible when its major version equals that of 2.0.0
/// and its minor version is not above that of 2.0.0.
pub open spec fn spec_api_is_compat(api: u32) -> bool {
    &&& (api & UNIT_API_MAJOR_MASK) == (K_UNIT_API_2_0_0 & UNIT_API_MAJOR_MASK)
    &&& (api & UNIT_API_MINOR_MASK) <= (K_UNIT_API_2_0_0 & UNIT_API_MINOR_MASK)
}

/// Major version field of an API word.
pub open spec fn api_major(api: u32) -> int {
    (api as int / 0x10000) % 0x80
}

/// Minor version field of an API word.
pub open spec fn api_minor(api: u32) -> int {
    (api as int / 0x100) % 0x80
}

/// Checks whether the runtime API version `api` is compatible with 2.0.0.
pub fn api_is_compat(api: u32) -> (r: bool)
    ensures
        r == spec_api_is_compat(api),
{
    (api & UNIT_API_MAJOR_MASK) == (K_UNIT_API_2_0_0 & UNIT_API_MAJOR_MASK)
        && (api & UNIT_API_MINOR_MASK) <= (K_UNIT_API_2_0_0 & UNIT_API_MINOR_MASK)
}

/// An API word is compatible with 2.0.0 exactly when its major version is 2
/// and its minor version is 0; the patch version and the top bits do not matter.
pub proof fn lemma_api_compat_fields(api: u32)
    ensures
        spec_api_is_compat(api) <==> (api_major(api) == 2 && api_minor(api) == 0),
{
    assert((K_UNIT_API_2_0_0 & UNIT_API_MAJOR_MASK) == 0x20000u32) by (bit_vector);
    assert((K_UNIT_API_2_0_0 & UNIT_API_MINOR_MASK) == 0u32) by (bit_vector);
    assert((api & 0x7f0000u32) == 0x20000u32 <==> (api / 0x10000u32) % 0x80u32 == 2u32)
        by (bit_vector);
    assert((api & 0x7f00u32) <= 0u32 <==> (api / 0x100u32) % 0x80u32 == 0u32) by (bit_vector);
}

/// The status code of loading a unit built for `target` under runtime `desc`,
/// checks taken in order: descriptor present, target, API, sample rate, geometry.
pub open spec fn desc_status(desc: Option<RuntimeDesc>, target: u16) -> i8 {
    match desc {
        None => K_UNIT_ERR_UNDEF,
        Some(d) => if d.target != target {
            K_UNIT_ERR_TARGET
        } else if !spec_api_is_compat(d.api) {
            K_UNIT_ERR_API_VERSION
        } else if d.samplerate != UNIT_SAMPLERATE {
            K_UNIT_ERR_SAMPLERATE
        } else if d.input_channels != UNIT_INPUT_CHANNELS
            || d.output_channels != UNIT_OUTPUT_CHANNELS {
            K_UNIT_ERR_GEOMETRY
        } else {
            K_UNIT_ERR_NONE
        },
    }
}

/// Checks the runtime descriptor of a unit built for `target`; returns
/// `K_UNIT_ERR_NONE` or the error of the first check that fails.
pub fn check_runtime_desc(desc: Option<RuntimeDesc>, target: u16) -> (r: i8)
    ensures
        r == desc_status(desc, target),
{
    match desc {
        None => K_UNIT_ERR_UNDEF,
        Some(d) => {
            if d.target != target {
                return K_UNIT_ERR_TARGET;
            }
            if !api_is_compat(d.api) {
                return K_UNIT_ERR_API_VERSION;
            }
            if d.samplerate != UNIT_SAMPLERATE {
                return K_UNIT_ERR_SAMPLERATE;
            }
            if d.input_channels != UNIT_INPUT_CHANNELS
                || d.output_channels != UNIT_OUTPUT_CHANNELS {
                return K_UNIT_ERR_GEOMETRY;
            }
            K_UNIT_ERR_NONE
        },
    }
}

/// Loading succeeds exactly when a descriptor is present, its whole target
/// word equals the unit's, its API has major version 2 and minor version 0,
/// the sample rate is 48 kHz and the geometry is stereo in, mono out. A missing
/// descriptor is undefined; a target word that differs in any bit is a target
/// error, whatever else the descriptor says; with the target right, a wrong API
/// is an API error, and with both right, a wrong rate is a sample rate error.
pub proof fn lemma_runtime_desc_checks(desc: Option<RuntimeDesc>, target: u16)
    ensures
        desc_status(desc, target) == 0 <==> (desc matches Some(d) && d.target == target
            && (d.api as int / 0x10000) % 0x80 == 2 && (d.api as int / 0x100) % 0x80 == 0
            && d.samplerate == 48000 && d.input_channels == 2 && d.output_channels == 1),
        desc is None ==> desc_status(desc, target) == -32,
        desc matches Some(d) && d.target != target ==> desc_status(desc, target) == -1,
        desc matches Some(d) && d.target == target && !((d.api as int / 0x10000) % 0x80 == 2 && (
        d.api as int / 0x100) % 0x80 == 0) ==> desc_status(desc, target) == -2,
        desc matches Some(d) && d.target == target && (d.api as int / 0x10000) % 0x80 == 2 && (
        d.api as int / 0x100) % 0x80 == 0 && d.samplerate != 48000 ==> desc_status(desc, target)
            == -4,
        desc matches Some(d) && d.target == target && (d.api as int / 0x10000) % 0x80 == 2 && (
        d.api as int / 0x100) % 0x80 == 0 && d.samplerate == 48000 && (d.input_channels != 2
            || d.output_channels != 1) ==> desc_status(desc, target) == -8,
{
    if let Some(d) = desc {
        lemma_api_compat_fields(d.api);
    }
}

/// The developer id of four ASCII bytes: the bytes read as a big-endian number.
pub open spec fn spec_dev_id(s: Seq<u8>) -> int {
    s[0] as int * 0x1000000 + s[1] as int * 0x10000 + s[2] as int * 0x100 + s[3] as int
}

/// Packs a four-byte developer id into a word, first byte in the top bits.
pub fn dev_id_string(s: &[u8]) -> (r: u32)
    requires
        s@.len() == 4,
    ensures
        r as int == spec_dev_id(s@),
{
    let a: u32 = s[0] as u32;
    let b: u32 = s[1] as u32;
    let c: u32 = s[2] as u32;
    let d: u32 = s[3] as u32;
    let r: u32 = (a << 24) | (b << 16) | (c << 8) | d;
    assert(a < 256 && b < 256 && c < 256 && d < 256 ==> (a << 24) | (b << 16) | (c << 8) | d
        == a * 0x1000000 + b * 0x10000 + c * 0x100 + d) by (bit_vector);
    r
}

/// A byte read as a C `char` (two's complement).
pub open spec fn c_char_of(b: u8) -> i8 {
    if b < 128 { b as i8 } else { (b as int - 256) as i8 }
}

/// The C string of length `len` made of the bytes of `s`, cut to `len` and
/// padded with zeros.
pub open spec fn spec_unit_string(s: Seq<u8>, len: nat) -> Seq<i8> {
    Seq::new(len, |i: int| if i < s.len() { c_char_of(s[i]) } else { 0i8 })
}

/// Copies the bytes of `s` into a zero-filled string of `len` C characters,
/// dropping what does not fit.
pub fn unit_string(s: &[u8], len: usize) -> (r: Vec<i8>)
    ensures
        r@ == spec_unit_string(s@, len as nat),
{
    let mut arr: Vec<i8> = Vec::new();
    let mut i: usize = 0;
    while i < len
        invariant
            i <= len,
            arr@ == spec_unit_string(s@, len as nat).take(i as int),
        decreases len - i,
    {
        let c: i8 = if i < s.len() {
            let b: u8 = s[i];
            if b < 128 { b as i8 } else { (b as i16 - 256) as i8 }
        } else {
            0
        };
        arr.push(c);
        assert(arr@ =~= spec_unit_string(s@, len as nat).take(i + 1));
        i = i + 1;
    }
    assert(arr@ =~= spec_unit_string(s@, len as nat));
    arr
}

/// The packed byte of a parameter's fraction settings: `frac` in bits 0..4,
/// `frac_mode` in bit 4, `reserved` in bits 5..8, each cut to its width.
pub open spec fn spec_param_bitfield(frac: u8, frac_mode: u8, reserved: u8) -> int {
    (frac as int % 16) + (frac_mode as int % 2) * 16 + (reserved as int % 8) * 32
}

/// Packs the fraction settings of a parameter descriptor into one byte.
pub fn param_bitfield(frac: u8, frac_mode: u8, reserved: u8) -> (r: u8)
    ensures
        r as int == spec_param_bitfield(frac, frac_mode, reserved),
{
    let r: u8 = (frac & 0x0f) | ((frac_mode & 0x01) << 4) | ((reserved & 0x07) << 5);
    assert((frac & 0x0f) | ((frac_mode & 0x01) << 4) | ((reserved & 0x07) << 5)
        == (frac % 16) + (frac_mode % 2) * 16 + (reserved % 8) * 32) by (bit_vector);
    r
}

/// Parameter type: plain number.
pub const K_UNIT_PARAM_TYPE_NONE: u8 = 0;
/// Parameter type: percentage.
pub const K_UNIT_PARAM_TYPE_PERCENT: u8 = 1;
/// Parameter type: choice among named values.
pub const K_UNIT_PARAM_TYPE_ENUM: u8 = 11;

/// Characters in a unit name.
pub const UNIT_NAME_LEN: usize = 20;
/// Characters in a parameter name.
pub const UNIT_PARAM_NAME_LEN: usize = 22;

/// Describes one parameter of a unit to the runtime.
pub struct UnitParam {
    pub min: i16,
    pub max: i16,
    pub center: i16,
    pub init: i16,
    pub param_type: u8,
    /// Fraction bits, fraction mode and reserved bits, packed.
    pub frac_bits: u8,
    pub name: Vec<i8>,
}

/// Describes a unit to the runtime (without the header size, which depends on
/// the binary layout).
pub struct UnitHeader {
    pub target: u16,
    pub api: u32,
    pub dev_id: u32,
    pub unit_id: u32,
    pub version: u32,
    pub name: Vec<i8>,
    pub reserved0: u32,
    pub reserved1: u32,
    pub num_params: u32,
    pub params: Vec<UnitParam>,
}

/// Builds a parameter descriptor whose name is `name` cut or padded to the
/// parameter name length.
pub fn unit_param(
    min: i16,
    max: i16,
    center: i16,
    init: i16,
    param_type: u8,
    frac_bits: u8,
    name: &[u8],
) -> (r: UnitParam)
    ensures
        r.min == min,
        r.max == max,
        r.center == center,
        r.init == init,
        r.param_type == param_type,
        r.frac_bits == frac_bits,
        r.name@ == spec_unit_string(name@, UNIT_PARAM_NAME_LEN as nat),
{
    UnitParam {
        min,
        max,
        center,
        init,
        param_type,
        frac_bits,
        name: unit_string(name, UNIT_PARAM_NAME_LEN),
    }
}

/// The four bytes of a developer id come back out of the packed word, first
/// byte in the top eight bits, and the word fits in 32 bits.
pub proof fn lemma_dev_id_bytes(s: Seq<u8>)
    requires
        s.len() == 4,
    ensures
        0 <= spec_dev_id(s) < 0x1_0000_0000,
        spec_dev_id(s) / 0x1000000 == s[0],
        (spec_dev_id(s) / 0x10000) % 0x100 == s[1],
        (spec_dev_id(s) / 0x100) % 0x100 == s[2],
        spec_dev_id(s) % 0x100 == s[3],
{
}

/// A byte read as a C character keeps its bits: back in 0..256 it is the byte,
/// and it is zero only for the zero byte.
pub proof fn lemma_c_char_keeps_byte(b: u8)
    ensures
        (c_char_of(b) as int + 256) % 256 == b as int,
        c_char_of(b) == 0 <==> b == 0,
{
}

/// A unit string has the requested length, starts with the bytes of `s` that
/// fit (each kept bit for bit) and is zero after them.
pub proof fn lemma_unit_string_layout(s: Seq<u8>, len: nat, k: int)
    requires
        0 <= k < len,
    ensures
        spec_unit_string(s, len).len() == len,
        k < s.len() ==> (spec_unit_string(s, len)[k] as int + 256) % 256 == s[k] as int,
        k >= s.len() ==> spec_unit_string(s, len)[k] == 0,
{
    if k < s.len() {
        lemma_c_char_keeps_byte(s[k]);
    }
}

/// The three fields come back out of the packed byte: the fraction in bits
/// 0..4, the mode in bit 4 and the reserved bits in 5..8.
pub proof fn lemma_param_bitfield_fields(frac: u8, frac_mode: u8, reserved: u8)
    ensures
        0 <= spec_param_bitfield(frac, frac_mode, reserved) < 256,
        spec_param_bitfield(frac, frac_mode, reserved) % 16 == frac as int % 16,
        (spec_param_bitfield(frac, frac_mode, reserved) / 16) % 2 == frac_mode as int % 2,
        spec_param_bitfield(frac, frac_mode, reserved) / 32 == reserved as int % 8,
{
}

} // verus!
