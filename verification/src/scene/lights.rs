//! Light sources: ambient, point and directional, each with a color
//! and a nonnegative intensity.

use vstd::prelude::*;
use crate::fixed::Fx;
use crate::scene::color::{Color, ColorM};
use crate::vector::{Vector3, Vector3M};

verus! {

/// Mathematical model of a light kind.
pub enum LightKindM {
    Ambient,
    Point { position: Vector3M },
    Directional { direction: Vector3M },
}

/// Mathematical model of a light.
pub struct LightM {
    pub kind: LightKindM,
    pub color: ColorM,
    pub intensity: int,
}

/// The kind of a light source.
#[derive(Clone, Copy, Debug)]
pub enum LightKind {
    Ambient,
    Point { position: Vector3 },
    Directional { direction: Vector3 },
}

/// A light source.
#[derive(Clone, Copy, Debug)]
pub struct Light {
    pub kind: LightKind,
    pub color: Color,
    pub intensity: Fx,
}

impl View for LightKind {
    type V = LightKindM;

    open spec fn view(&self) -> LightKindM {
        match *self {
            LightKind::Ambient => LightKindM::Ambient,
            LightKind::Point { position } => LightKindM::Point { position: position@ },
            LightKind::Directional { direction } => LightKindM::Directional {
                direction: direction@,
            },
        }
    }
}

impl View for Light {
    type V = LightM;

    open spec fn view(&self) -> LightM {
        LightM { kind: self.kind@, color: self.color@, intensity: self.intensity@ }
    }
}

} // verus!
