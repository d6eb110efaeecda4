//! The per-frame uniform block.
//!
//! A fixed-layout record the shader reads every frame: resolution,
//! paused-adjusted elapsed time, cursor position (bottom-left origin),
//! the mouse-down flag, and the cursor positions latched at the last
//! mouse press and release. The state is held as integers (pixels and
//! milliseconds); [`UniformState::to_bytes`] lays it out as the 48-byte
//! little-endian buffer matching the shader preamble's `Uniform` struct,
//! with float fields encoded through [`crate::fbits::spec_f32_bits_fixed`].

use crate::fbits::{f32_bits_fixed, spec_f32_bits_fixed};
use vstd::bytes::{spec_u32_to_le_bytes, u32_to_le_bytes};
use vstd::prelude::*;

verus! {

/// A signed pixel coordinate pair. Cursor positions arrive as
/// non-negative pixels but the flip to a bottom-left origin can push a
/// coordinate below zero, so components are signed.
#[derive(Clone, Copy, Debug, PartialEq, Eq, Structural)]
pub struct PixelPos {
    /// The horizontal component, in pixels.
    pub x: i64,
    /// The vertical component, in pixels.
    pub y: i64,
}

impl PixelPos {
    /// The all-zero position.
    pub fn zero() -> (r: PixelPos)
        ensures
            r == (PixelPos { x: 0, y: 0 }),
    {
        PixelPos { x: 0, y: 0 }
    }

    /// Both components stay well inside the range the byte encoding
    /// handles: magnitudes up to one beyond `u32`'s range, which a flip
    /// of one `u32` coordinate against another can at most produce.
    pub open spec fn bounded(self) -> bool {
        &&& -0x1_0000_0000 <= self.x <= 0x1_0000_0000
        &&& -0x1_0000_0000 <= self.y <= 0x1_0000_0000
    }
}

/// The integer state behind the per-frame uniform block.
#[derive(Clone, Copy, Debug, PartialEq, Eq, Structural)]
pub struct UniformState {
    /// The render resolution in pixels.
    pub resolution_x: u32,
    /// The render resolution in pixels.
    pub resolution_y: u32,
    /// Elapsed milliseconds since the last restart, paused-adjusted.
    pub time_millis: u64,
    /// The cursor position, bottom-left origin.
    pub cursor: PixelPos,
    /// Whether a mouse button is currently down.
    pub mouse_down: bool,
    /// The cursor position latched at the last mouse press.
    pub mouse_press: PixelPos,
    /// The cursor position latched at the last mouse release.
    pub mouse_release: PixelPos,
}

/// The little-endian bytes of one `u32`-bit float field.
pub open spec fn spec_field_bytes(neg: bool, fixed: u64) -> Seq<u8> {
    spec_u32_to_le_bytes(spec_f32_bits_fixed(neg, fixed))
}

/// The fixed-point magnitude (23 fraction bits) of a whole number of
/// pixels.
pub open spec fn spec_pixel_fixed(v: int) -> u64 {
    (if v < 0 {
        -v
    } else {
        v
    } * 0x80_0000) as u64
}

/// The fixed-point magnitude (23 fraction bits) of a millisecond count
/// read in seconds: the whole seconds contribute the integer part and
/// the remainder contributes `rem * 2^23 / 1000` fraction bits,
/// truncated.
pub open spec fn spec_seconds_fixed(millis: u64) -> u64 {
    ((millis / 1000) * 0x80_0000 + (millis % 1000) * 0x80_0000 / 1000) as u64
}

/// The bytes of a signed pixel pair: two float fields.
pub open spec fn spec_pos_bytes(p: PixelPos) -> Seq<u8> {
    spec_field_bytes(p.x < 0, spec_pixel_fixed(p.x as int)) + spec_field_bytes(
        p.y < 0,
        spec_pixel_fixed(p.y as int),
    )
}

impl UniformState {
    /// The bounds under which the byte encoding is exact in structure:
    /// pixel magnitudes fit the fixed-point shift and the clock stays
    /// below roughly thirty-five thousand years.
    pub open spec fn bounded(self) -> bool {
        &&& self.cursor.bounded()
        &&& self.mouse_press.bounded()
        &&& self.mouse_release.bounded()
        &&& self.time_millis < 0x4_0000_0000_0000
    }

    /// The fresh state: everything zero, mouse up.
    pub fn new() -> (r: UniformState)
        ensures
            r == UniformState::spec_zero(),
    {
        UniformState {
            resolution_x: 0,
            resolution_y: 0,
            time_millis: 0,
            cursor: PixelPos::zero(),
            mouse_down: false,
            mouse_press: PixelPos::zero(),
            mouse_release: PixelPos::zero(),
        }
    }

    /// The all-zero state.
    pub open spec fn spec_zero() -> UniformState {
        UniformState {
            resolution_x: 0,
            resolution_y: 0,
            time_millis: 0,
            cursor: PixelPos { x: 0, y: 0 },
            mouse_down: false,
            mouse_press: PixelPos { x: 0, y: 0 },
            mouse_release: PixelPos { x: 0, y: 0 },
        }
    }

    /// The 48-byte wire form of the block, little-endian, laid out as the
    /// shader preamble declares it: resolution at 0, time at 8, four
    /// padding bytes, cursor at 16, mouse-down flag at 24, four padding
    /// bytes, mouse press at 32, mouse release at 40.
    pub open spec fn spec_bytes(self) -> Seq<u8> {
        spec_field_bytes(false, ((self.resolution_x as u64) * 0x80_0000) as u64)
            + spec_field_bytes(false, ((self.resolution_y as u64) * 0x80_0000) as u64)
            + spec_field_bytes(false, spec_seconds_fixed(self.time_millis)) + seq![
            0u8,
            0u8,
            0u8,
            0u8,
        ] + spec_pos_bytes(self.cursor) + spec_u32_to_le_bytes(
            if self.mouse_down {
                1u32
            } else {
                0u32
            },
        ) + seq![0u8, 0u8, 0u8, 0u8] + spec_pos_bytes(self.mouse_press) + spec_pos_bytes(
            self.mouse_release,
        )
    }

    /// Lays the block out as its 48 wire bytes.
    pub fn to_bytes(&self) -> (r: Vec<u8>)
        requires
            self.bounded(),
        ensures
            r@ == self.spec_bytes(),
            r@.len() == 48,
    {
        let mut out: Vec<u8> = Vec::new();
        push_field(&mut out, false, (self.resolution_x as u64) * 0x80_0000);
        push_field(&mut out, false, (self.resolution_y as u64) * 0x80_0000);
        let secs_fixed: u64 = (self.time_millis / 1000) * 0x80_0000 + (self.time_millis % 1000)
            * 0x80_0000 / 1000;
        push_field(&mut out, false, secs_fixed);
        push_pad(&mut out);
        push_pos(&mut out, &self.cursor);
        let flag = u32_to_le_bytes(
            if self.mouse_down {
                1u32
            } else {
                0u32
            },
        );
        out.extend_from_slice(flag.as_slice());
        push_pad(&mut out);
        push_pos(&mut out, &self.mouse_press);
        push_pos(&mut out, &self.mouse_release);
        proof {
            vstd::bytes::lemma_auto_spec_u32_to_from_le_bytes();
            assert(out@ =~= self.spec_bytes());
        }
        out
    }
}

/// Appends one float field's four bytes.
fn push_field(out: &mut Vec<u8>, neg: bool, fixed: u64)
    ensures
        final(out)@ == old(out)@ + spec_field_bytes(neg, fixed),
{
    let bits = f32_bits_fixed(neg, fixed);
    let bytes = u32_to_le_bytes(bits);
    out.extend_from_slice(bytes.as_slice());
}

/// Appends four padding bytes.
fn push_pad(out: &mut Vec<u8>)
    ensures
        final(out)@ == old(out)@ + seq![0u8, 0u8, 0u8, 0u8],
{
    out.push(0u8);
    out.push(0u8);
    out.push(0u8);
    out.push(0u8);
    proof {
        assert(final(out)@ =~= old(out)@ + seq![0u8, 0u8, 0u8, 0u8]);
    }
}

/// Appends a signed pixel pair as two float fields.
fn push_pos(out: &mut Vec<u8>, p: &PixelPos)
    requires
        p.bounded(),
    ensures
        final(out)@ == old(out)@ + spec_pos_bytes(*p),
{
    let xm: u64 = if p.x < 0 {
        (-p.x) as u64
    } else {
        p.x as u64
    };
    let ym: u64 = if p.y < 0 {
        (-p.y) as u64
    } else {
        p.y as u64
    };
    push_field(out, p.x < 0, xm * 0x80_0000);
    push_field(out, p.y < 0, ym * 0x80_0000);
}

} // verus!
