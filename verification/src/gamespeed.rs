//! Game speed override of the agent.
use vstd::prelude::*;
use crate::protocol::F32_ONE_BITS;

verus! {

/// Which time multiplier the game runs with.
///
/// Multipliers are `f32` values held as their bit patterns. The game's own
/// multiplier equals 1.0 exactly when its bit pattern is that of 1.0, since
/// 1.0 has a single encoding.
#[derive(PartialEq, Eq, Structural, Clone, Copy, Debug)]
pub struct GameSpeed {
    pub enabled: bool,
    pub playback_multiplier_enabled: bool,
    pub multiplier_bits: u32,
    pub playback_multiplier_bits: u32,
}

/// The multiplier the game runs with after the override is applied to a
/// game running with `current_bits`.
pub open spec fn applied_multiplier(g: GameSpeed, current_bits: u32) -> u32 {
    if g.playback_multiplier_enabled {
        g.playback_multiplier_bits
    } else if g.enabled {
        g.multiplier_bits
    } else {
        F32_ONE_BITS
    }
}

impl Default for GameSpeed {
    fn default() -> (g: Self)
        ensures
            !g.enabled,
            !g.playback_multiplier_enabled,
            g.multiplier_bits == F32_ONE_BITS,
            g.playback_multiplier_bits == F32_ONE_BITS,
    {
        GameSpeed {
            enabled: false,
            playback_multiplier_enabled: false,
            multiplier_bits: F32_ONE_BITS,
            playback_multiplier_bits: F32_ONE_BITS,
        }
    }
}

impl GameSpeed {
    pub fn set_multiplier(&mut self, multiplier_bits: u32)
        ensures
            *final(self) == (GameSpeed { multiplier_bits, ..*old(self) }),
    {
        self.multiplier_bits = multiplier_bits;
    }

    pub fn set_multiplier_enabled(&mut self, enabled: bool)
        ensures
            *final(self) == (GameSpeed { enabled, ..*old(self) }),
    {
        self.enabled = enabled;
    }

    pub fn set_playback_multiplier(&mut self, multiplier_bits: u32)
        ensures
            *final(self) == (GameSpeed { playback_multiplier_bits: multiplier_bits, ..*old(self) }),
    {
        self.playback_multiplier_bits = multiplier_bits;
    }

    pub fn set_playback_multiplier_enabled(&mut self, enabled: bool)
        ensures
            *final(self) == (GameSpeed { playback_multiplier_enabled: enabled, ..*old(self) }),
    {
        self.playback_multiplier_enabled = enabled;
    }

    /// The time multiplier to write into the game, which currently runs with
    /// `current_bits`: the playback multiplier while it is enabled, else the
    /// custom multiplier while it is enabled, else 1.0 (written only when the
    /// game does not already run at 1.0, so the value is then unchanged).
    pub fn apply(&self, current_bits: u32) -> (new_bits: u32)
        ensures
            new_bits == applied_multiplier(*self, current_bits),
    {
        if self.playback_multiplier_enabled {
            self.playback_multiplier_bits
        } else if self.enabled {
            self.multiplier_bits
        } else if !self.enabled && current_bits != F32_ONE_BITS {
            F32_ONE_BITS
        } else {
            current_bits
        }
    }
}

} // verus!
