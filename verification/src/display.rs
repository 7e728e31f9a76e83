//! Pure display helpers: fixed-width decimal formatting of the telemetry
//! fields, the 6x8 glyph table, and the 1-bpp scaled character renderer.
//! The panel driver itself is hardware and lives outside the library.

use vstd::prelude::*;
use crate::telemetry::Field;

verus! {

/// Centivolts shown for a millivolt value: rounded half-up to 10 mV and
/// capped at the five-character display range (99.99).
pub open spec fn spec_centi_of_mv(mv: u16) -> int {
    let cv = (mv as int + 5) / 10;
    if cv > 9999 { 9999 } else { cv }
}

/// Centiamps shown for a milliamp value: rounded half-up to 10 mA and
/// capped at the four-character display range (9.99).
pub open spec fn spec_centi_of_ma(ma: u16) -> int {
    let ca = (ma as int + 5) / 10;
    if ca > 999 { 999 } else { ca }
}

/// Format a voltage field as five ASCII bytes `VV.VV`, or `ERR  ` when the
/// field is unavailable.
pub fn format_mv_2dp_5(v: Field<u16>) -> (r: [u8; 5])
    ensures
        v is Missing ==> r@ =~= seq![69u8, 82u8, 82u8, 32u8, 32u8],
        v matches Field::Val(mv) ==> {
            let cv = spec_centi_of_mv(mv);
            r@ =~= seq![
                (48u8 + cv / 100 / 10) as u8,
                (48u8 + cv / 100 % 10) as u8,
                46u8,
                (48u8 + cv % 100 / 10) as u8,
                (48u8 + cv % 100 % 10) as u8,
            ]
        },
{
    match v {
        Field::Missing => [69u8, 82u8, 82u8, 32u8, 32u8],
        Field::Val(mv) => {
            let mut cv: u32 = ((mv as u32) + 5) / 10;
            if cv > 9999 {
                cv = 9999;
            }
            let whole = cv / 100;
            let frac = cv % 100;
            [
                48u8 + (whole / 10) as u8,
                48u8 + (whole % 10) as u8,
                46u8,
                48u8 + (frac / 10) as u8,
                48u8 + (frac % 10) as u8,
            ]
        }
    }
}

/// Format a current field as four ASCII bytes `A.AA`, or `ERR ` when the
/// field is unavailable.
pub fn format_ma_2dp_4(i: Field<u16>) -> (r: [u8; 4])
    ensures
        i is Missing ==> r@ =~= seq![69u8, 82u8, 82u8, 32u8],
        i matches Field::Val(ma) ==> {
            let ca = spec_centi_of_ma(ma);
            r@ =~= seq![
                (48u8 + ca / 100) as u8,
                46u8,
                (48u8 + ca % 100 / 10) as u8,
                (48u8 + ca % 100 % 10) as u8,
            ]
        },
{
    match i {
        Field::Missing => [69u8, 82u8, 82u8, 32u8],
        Field::Val(ma) => {
            let mut ca: u32 = ((ma as u32) + 5) / 10;
            if ca > 999 {
                ca = 999;
            }
            let whole = ca / 100;
            let frac = ca % 100;
            [
                48u8 + whole as u8,
                46u8,
                48u8 + (frac / 10) as u8,
                48u8 + (frac % 10) as u8,
            ]
        }
    }
}

/// Cache of the characters last drawn, so unchanged cells are not redrawn.
#[derive(Clone, Copy, Debug, PartialEq, Eq)]
pub struct FrameCache {
    pub u17_v: [u8; 5],
    pub u17_i: [u8; 4],
    pub u14_v: [u8; 5],
    pub u14_i: [u8; 4],
    pub set_v: [u8; 5],
    pub set_i: [u8; 4],
}

impl FrameCache {
    /// The cache before anything was drawn: dashes everywhere, which no
    /// formatted value produces, so the first frame draws every cell.
    pub fn empty() -> (r: Self)
        ensures
            r.u17_v@ =~= seq![45u8, 45u8, 45u8, 45u8, 45u8],
            r.u17_i@ =~= seq![45u8, 45u8, 45u8, 45u8],
            r.u14_v@ =~= seq![45u8, 45u8, 45u8, 45u8, 45u8],
            r.u14_i@ =~= seq![45u8, 45u8, 45u8, 45u8],
            r.set_v@ =~= seq![45u8, 45u8, 45u8, 45u8, 45u8],
            r.set_i@ =~= seq![45u8, 45u8, 45u8, 45u8],
    {
        Self {
            u17_v: [45u8, 45u8, 45u8, 45u8, 45u8],
            u17_i: [45u8, 45u8, 45u8, 45u8],
            u14_v: [45u8, 45u8, 45u8, 45u8, 45u8],
            u14_i: [45u8, 45u8, 45u8, 45u8],
            set_v: [45u8, 45u8, 45u8, 45u8, 45u8],
            set_i: [45u8, 45u8, 45u8, 45u8],
        }
    }
}

/// The 6x8 glyph of an ASCII byte, one row per byte, the six low bits used;
/// unknown characters render as a question mark.
pub fn glyph_6x8(ch: u8) -> (r: [u8; 8]) {
    match ch {
        48u8 => [0b011110, 0b110011, 0b110111, 0b111011, 0b110011, 0b110011, 0b011110, 0],
        49u8 => [0b001100, 0b011100, 0b001100, 0b001100, 0b001100, 0b001100, 0b111111, 0],
        50u8 => [0b011110, 0b110011, 0b000011, 0b000110, 0b001100, 0b011000, 0b111111, 0],
        51u8 => [0b011110, 0b110011, 0b000011, 0b001110, 0b000011, 0b110011, 0b011110, 0],
        52u8 => [0b000110, 0b001110, 0b011110, 0b110110, 0b111111, 0b000110, 0b000110, 0],
        53u8 => [0b111111, 0b110000, 0b111110, 0b000011, 0b000011, 0b110011, 0b011110, 0],
        54u8 => [0b011110, 0b110011, 0b110000, 0b111110, 0b110011, 0b110011, 0b011110, 0],
        55u8 => [0b111111, 0b000011, 0b000110, 0b001100, 0b011000, 0b011000, 0b011000, 0],
        56u8 => [0b011110, 0b110011, 0b110011, 0b011110, 0b110011, 0b110011, 0b011110, 0],
        57u8 => [0b011110, 0b110011, 0b110011, 0b011111, 0b000011, 0b110011, 0b011110, 0],
        46u8 => [0, 0, 0, 0, 0, 0, 0b001100, 0],
        45u8 => [0, 0, 0, 0b111111, 0, 0, 0, 0],
        32u8 => [0, 0, 0, 0, 0, 0, 0, 0],
        65u8 => [0b011110, 0b110011, 0b110011, 0b111111, 0b110011, 0b110011, 0b110011, 0],
        69u8 => [0b111111, 0b110000, 0b110000, 0b111110, 0b110000, 0b110000, 0b111111, 0],
        82u8 => [0b111110, 0b110011, 0b110011, 0b111110, 0b110110, 0b110011, 0b110011, 0],
        83u8 => [0b011111, 0b110000, 0b110000, 0b011110, 0b000011, 0b000011, 0b111110, 0],
        84u8 => [0b111111, 0b001100, 0b001100, 0b001100, 0b001100, 0b001100, 0b001100, 0],
        85u8 => [0b110011, 0b110011, 0b110011, 0b110011, 0b110011, 0b110011, 0b011110, 0],
        _ => [0b011110, 0b110011, 0b000011, 0b000110, 0b001100, 0, 0b001100, 0],
    }
}

/// Set one pixel in a 24x48, 1-bpp, row-major tile buffer.
pub fn set_1bpp_24x48(buf: &mut [u8; 144], x: u16, y: u16)
    requires
        x < 24,
        y < 48,
    ensures
        ({
            let idx = y as int * 24 + x as int;
            final(buf)@ =~= old(buf)@.update(
                idx / 8,
                (old(buf)@[idx / 8] | (1u8 << (7 - (idx % 8) as u8))) as u8,
            )
        }),
{
    let idx: usize = (y as usize) * 24 + (x as usize);
    let byte: usize = idx / 8;
    let bit: u8 = 7 - (idx % 8) as u8;
    buf[byte] = buf[byte] | (1u8 << bit);
}

/// Render one character as a 24x48 tile: each glyph pixel becomes a 4x6
/// block of set bits in the 1-bpp buffer.
pub fn render_char_6x8_scaled(ch: u8, out: &mut [u8; 144])
{
    let mut i: usize = 0;
    while i < 144
        invariant
            i <= 144,
        decreases 144 - i,
    {
        out[i] = 0;
        i = i + 1;
    }

    let glyph = glyph_6x8(ch);

    let mut src_y: usize = 0;
    while src_y < 8
        invariant
            src_y <= 8,
        decreases 8 - src_y,
    {
        let row_bits = glyph[src_y];
        let mut rep_y: u16 = 0;
        while rep_y < 6
            invariant
                rep_y <= 6,
                src_y < 8,
            decreases 6 - rep_y,
        {
            let y: u16 = (src_y as u16) * 6 + rep_y;
            let mut src_x: u16 = 0;
            while src_x < 6
                invariant
                    src_x <= 6,
                    src_y < 8,
                    rep_y < 6,
                    y == src_y * 6 + rep_y,
                decreases 6 - src_x,
            {
                let shift: u8 = (5 - src_x) as u8;
                let on = row_bits & (1u8 << shift) != 0;
                if on {
                    let mut rep_x: u16 = 0;
                    while rep_x < 4
                        invariant
                            rep_x <= 4,
                            src_x < 6,
                            y < 48,
                        decreases 4 - rep_x,
                    {
                        let x: u16 = src_x * 4 + rep_x;
                        set_1bpp_24x48(out, x, y);
                        rep_x = rep_x + 1;
                    }
                }
                src_x = src_x + 1;
            }
            rep_y = rep_y + 1;
        }
        src_y = src_y + 1;
    }
}

} // verus!
