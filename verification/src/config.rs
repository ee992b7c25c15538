//! Tunable numbers of the game.

use vstd::prelude::*;
use crate::gun_strategy::GUN_AXE_DEPTH;

verus! {

#[derive(Copy, Clone, PartialEq, Eq, Structural, Debug)]
pub struct GunConfig {
    pub gun_depth: usize,
}

#[derive(Copy, Clone, PartialEq, Eq, Structural, Debug)]
pub struct Config {
    pub gunaxe_gun_config: GunConfig,
}

impl Default for GunConfig {
    /// The depth the gun axe is built with.
    fn default() -> (r: GunConfig)
        ensures
            r.gun_depth == GUN_AXE_DEPTH,
    {
        GunConfig { gun_depth: GUN_AXE_DEPTH }
    }
}

impl Default for Config {
    fn default() -> (r: Config)
        ensures
            r.gunaxe_gun_config.gun_depth == GUN_AXE_DEPTH,
    {
        Config { gunaxe_gun_config: GunConfig { gun_depth: GUN_AXE_DEPTH } }
    }
}

} // verus!
