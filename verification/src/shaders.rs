//! The switches and parameters that the patched shaders read.
//!
//! The shader hook forwards one 32-bit word of flags and one 64-bit word of
//! parameters to the tone-mapping shader on every frame. The game's threads
//! and the configuration thread share these words, so each is an atomic that
//! the caller owns and hands in.

use std::sync::atomic::{AtomicBool, AtomicU32, AtomicU64, Ordering};
use vstd::arithmetic::power2::pow2;
use vstd::bits::{lemma_u32_pow2_no_overflow, lemma_u32_shl_is_mul};
use vstd::bytes::{spec_u64_to_le_bytes, u64_to_le_bytes};
use vstd::prelude::*;
use vstd::string::StringSliceAdditionalSpecFns;

verus! {

/// The bit of the flag word that switches the field-of-view correction.
pub const FOV_CORRECTION_BIT: u32 = 0;

/// The bit of the flag word that switches the crosshair.
pub const CROSSHAIR_BIT: u32 = 1;

/// The bit of the flag word that selects barrel distortion.
pub const BARREL_BIT: u32 = 2;

/// The name of the pixel shader that is replaced.
pub const TONE_MAP_SHADER: &'static str = "ToneMap_PostOETFPS";

/// The flag word with the bit `pos` alone: two to the power of `pos`.
pub open spec fn flag_bit(pos: u32) -> nat {
    pow2(pos as nat)
}

/// The parameter word that holds `strength_bits` in its low half and
/// `width_ratio_bits` in its high half.
pub open spec fn packed_params(strength_bits: u32, width_ratio_bits: u32) -> int {
    strength_bits + width_ratio_bits * 0x1_0000_0000
}

/// The 16-bit units `units` spell the bytes `name`, one unit to a byte.
pub open spec fn spelled(units: Seq<u16>, name: Seq<u8>) -> bool {
    &&& units.len() == name.len()
    &&& forall|i: int| 0 <= i < units.len() ==> units[i] == name[i]
}

/// The code that stands before the address in a hook call: an indirect call
/// through the address, a jump over it, and a jump back to the call.
pub open spec fn hook_call_head() -> Seq<u8> {
    seq![0xff, 0x15, 0x04, 0x00, 0x00, 0x00, 0xeb, 0x0d, 0xeb, 0xf6]
}

/// The padding that stands behind the address in a hook call.
pub open spec fn hook_call_tail() -> Seq<u8> {
    seq![0xcc, 0xcc, 0xcc]
}

/// The flag word with the bit `pos` alone.
pub fn shader_flag(pos: u32) -> (flag: u32)
    requires
        pos < 32,
    ensures
        flag == flag_bit(pos),
{
    proof {
        lemma_u32_pow2_no_overflow(pos as nat);
        lemma_u32_shl_is_mul(1, pos);
    }
    1u32 << pos
}

/// Sets the bit `pos` of the flag word to `state`, in one atomic step that
/// leaves the other bits as they are, and returns the word as it was before.
pub fn set_shader_flag(flags: &AtomicU32, state: bool, pos: u32) -> (previous: u32)
    requires
        pos < 32,
{
    let flag = shader_flag(pos);
    match state {
        true => flags.fetch_or(flag, Ordering::Relaxed),
        false => flags.fetch_and(!flag, Ordering::Relaxed),
    }
}

/// Packs the two shader parameters, each given by the bits of its 32-bit
/// floating-point value, into one word.
pub fn pack_shader_params(strength_bits: u32, width_ratio_bits: u32) -> (params: u64)
    ensures
        params == packed_params(strength_bits, width_ratio_bits),
{
    let low = strength_bits as u64;
    let high = width_ratio_bits as u64;
    let params = low | (high << 32);
    assert(params == low + high * 0x1_0000_0000) by (bit_vector)
        requires
            params == low | (high << 32),
            low <= 0xffff_ffff,
            high <= 0xffff_ffff,
    ;
    params
}

/// Switches the field-of-view correction to `state` and selects barrel
/// distortion by `use_barrel`. Where the correction is on, its strength and
/// the screen's width ratio, each given by the bits of its floating-point
/// value, become the shader's parameters.
pub fn enable_fov_correction(
    flags: &AtomicU32,
    params: &AtomicU64,
    state: bool,
    strength_bits: u32,
    use_barrel: bool,
    width_ratio_bits: u32,
) {
    set_shader_flag(flags, state, FOV_CORRECTION_BIT);
    set_shader_flag(flags, use_barrel, BARREL_BIT);
    if state {
        params.store(pack_shader_params(strength_bits, width_ratio_bits), Ordering::Relaxed);
    }
}

/// Switches the crosshair to `state`.
pub fn enable_crosshair(flags: &AtomicU32, state: bool) {
    set_shader_flag(flags, state, CROSSHAIR_BIT);
}

/// Switches dithering to `state`.
pub fn enable_dithering(dithering: &AtomicBool, state: bool) {
    dithering.store(state, Ordering::Relaxed);
}

/// Whether the game may dither: only while dithering is switched on, and
/// then as the game itself decides.
pub fn uses_dithering(dithering: &AtomicBool) -> bool {
    dithering.load(Ordering::Relaxed)
}

/// Whether the 16-bit units `units` spell `name`, one unit to a byte.
pub fn spells(units: &[u16], name: &str) -> (same: bool)
    ensures
        same == spelled(units@, name.spec_bytes()),
{
    let bytes = name.as_bytes();
    if units.len() != bytes.len() {
        return false;
    }
    let mut i: usize = 0;
    while i < units.len()
        invariant
            i <= units.len(),
            units.len() == bytes.len(),
            bytes@ == name.spec_bytes(),
            forall|j: int| 0 <= j < i ==> units@[j] == bytes@[j],
        decreases units.len() - i,
    {
        if units[i] != bytes[i] as u16 {
            assert(units@[i as int] != name.spec_bytes()[i as int]);
            return false;
        }
        i += 1;
    }
    true
}

/// Whether the pixel shader of the name `name`, given in 16-bit units, is the
/// one that is replaced.
pub fn is_tone_map_shader(name: &[u16]) -> (replaced: bool)
    ensures
        replaced == spelled(name@, TONE_MAP_SHADER.spec_bytes()),
{
    spells(name, TONE_MAP_SHADER)
}

/// The code that replaces the game's own at the constant-buffer hook: a
/// call of the routine at `target`, whose address the code carries in
/// little-endian order.
pub fn hook_call(target: u64) -> (code: [u8; 21])
    ensures
        code@ == hook_call_head() + spec_u64_to_le_bytes(target) + hook_call_tail(),
{
    let b = u64_to_le_bytes(target);
    let code = [
        0xff,
        0x15,
        0x04,
        0x00,
        0x00,
        0x00,
        0xeb,
        0x0d,
        0xeb,
        0xf6,
        b[0],
        b[1],
        b[2],
        b[3],
        b[4],
        b[5],
        b[6],
        b[7],
        0xcc,
        0xcc,
        0xcc,
    ];
    assert(code@ =~= hook_call_head() + spec_u64_to_le_bytes(target) + hook_call_tail());
    code
}

} // verus!
