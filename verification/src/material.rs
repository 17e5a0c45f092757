//! Material data that the integer core owns.
//!
//! The scatter and emission arithmetic of the material model runs on
//! floating-point radiance values and stays outside this library; the choice
//! of wood texture is plain data and is kept here so that both sides of the
//! pipeline name the same variants.

use vstd::prelude::*;

verus! {

/// Which of the two bundled wood textures a wood-grain material samples.
#[derive(Debug, Clone, Copy, PartialEq, Eq, Hash, Structural)]
pub enum WoodType {
    Wood,
    RedWood,
}

} // verus!
