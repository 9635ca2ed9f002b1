//! RGB colors.  Channels are unclamped fixed-point values; they are
//! capped at 255 by [`Color::clamp`] and truncated to bytes by
//! [`Color::quantize`] when written to the output buffer.

use vstd::prelude::*;
use crate::fixed::{Fx, fx_add, fx_mul};

verus! {

/// Raw fixed-point value of the channel cap 255.
pub const FX_CHANNEL_MAX: i64 = 16711680;

/// Mathematical model of a color: three raw fixed-point channels.
pub struct ColorM {
    pub red: int,
    pub green: int,
    pub blue: int,
}

/// An RGB color with fixed-point channels.
#[derive(Clone, Copy, Debug, PartialEq, Eq, Structural)]
pub struct Color {
    pub red: Fx,
    pub green: Fx,
    pub blue: Fx,
}

impl View for Color {
    type V = ColorM;

    open spec fn view(&self) -> ColorM {
        ColorM { red: self.red@, green: self.green@, blue: self.blue@ }
    }
}

/// Channelwise sum.
pub open spec fn c_add(a: ColorM, b: ColorM) -> ColorM {
    ColorM {
        red: fx_add(a.red, b.red),
        green: fx_add(a.green, b.green),
        blue: fx_add(a.blue, b.blue),
    }
}

/// Channelwise product.
pub open spec fn c_mul(a: ColorM, b: ColorM) -> ColorM {
    ColorM {
        red: fx_mul(a.red, b.red),
        green: fx_mul(a.green, b.green),
        blue: fx_mul(a.blue, b.blue),
    }
}

/// Scaling of every channel by a fixed-point factor.
pub open spec fn c_scale(a: ColorM, k: int) -> ColorM {
    ColorM { red: fx_mul(a.red, k), green: fx_mul(a.green, k), blue: fx_mul(a.blue, k) }
}

/// Cap every channel at 255; negative channels are kept as they are.
pub open spec fn c_clamp(a: ColorM) -> ColorM {
    ColorM {
        red: if a.red > FX_CHANNEL_MAX {
            FX_CHANNEL_MAX as int
        } else {
            a.red
        },
        green: if a.green > FX_CHANNEL_MAX {
            FX_CHANNEL_MAX as int
        } else {
            a.green
        },
        blue: if a.blue > FX_CHANNEL_MAX {
            FX_CHANNEL_MAX as int
        } else {
            a.blue
        },
    }
}

/// The byte written for one channel: the integer part, saturated into
/// the byte range.
pub open spec fn byte_of(v: int) -> int {
    if v < 0 {
        0
    } else if v / 65536 >= 255 {
        255
    } else {
        v / 65536
    }
}

/// A channel byte always lies in the byte range.
pub proof fn lemma_byte_of_range(v: int)
    ensures
        0 <= byte_of(v) <= 255,
{
}

/// The byte written for one fixed-point channel.
fn channel_byte(v: Fx) -> (r: u8)
    ensures
        r as int == byte_of(v@),
{
    if v.raw <= 0 {
        0
    } else {
        let q: u64 = (v.raw as u64) / 65536u64;
        if q >= 255 {
            255
        } else {
            q as u8
        }
    }
}

impl Color {
    /// Channelwise sum.
    pub fn add(&self, color: Color) -> (r: Color)
        ensures
            r@ == c_add(self@, color@),
    {
        Color {
            red: self.red.add(color.red),
            green: self.green.add(color.green),
            blue: self.blue.add(color.blue),
        }
    }

    /// Channelwise product.
    pub fn multiply(&self, color: Color) -> (r: Color)
        ensures
            r@ == c_mul(self@, color@),
    {
        Color {
            red: self.red.mul(color.red),
            green: self.green.mul(color.green),
            blue: self.blue.mul(color.blue),
        }
    }

    /// Scaling of every channel by a fixed-point factor.
    pub fn multiply_scalar(&self, scalar: Fx) -> (r: Color)
        ensures
            r@ == c_scale(self@, scalar@),
    {
        Color {
            red: self.red.mul(scalar),
            green: self.green.mul(scalar),
            blue: self.blue.mul(scalar),
        }
    }

    /// Cap every channel at 255; negative channels are kept.
    pub fn clamp(self) -> (r: Color)
        ensures
            r@ == c_clamp(self@),
    {
        let red: Fx = if self.red.raw > FX_CHANNEL_MAX {
            Fx { raw: FX_CHANNEL_MAX }
        } else {
            self.red
        };
        let green: Fx = if self.green.raw > FX_CHANNEL_MAX {
            Fx { raw: FX_CHANNEL_MAX }
        } else {
            self.green
        };
        let blue: Fx = if self.blue.raw > FX_CHANNEL_MAX {
            Fx { raw: FX_CHANNEL_MAX }
        } else {
            self.blue
        };
        Color { red, green, blue }
    }

    /// The three bytes written to the output buffer for this color.
    pub fn quantize(&self) -> (r: (u8, u8, u8))
        ensures
            r.0 as int == byte_of(self@.red),
            r.1 as int == byte_of(self@.green),
            r.2 as int == byte_of(self@.blue),
    {
        (channel_byte(self.red), channel_byte(self.green), channel_byte(self.blue))
    }
}

} // verus!
