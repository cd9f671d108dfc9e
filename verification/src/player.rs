//! The character cheats of the agent: no death and no movement.
use vstd::prelude::*;
use crate::game::Game;

verus! {

/// Bit of the Elden Ring character debug flags that disables movement input.
pub const ER_DISABLED_MOVEMENT_BIT: u32 = 0b0010_0000;
/// Bit of the Elden Ring character data debug flags that prevents death.
pub const ER_NO_DEAD_BIT: u8 = 0b0000_0001;
/// Bit of the Nightreign character control flags that disables movement.
pub const NR_NO_MOVE_BIT: u32 = 0b0010_0000;
/// Bit of the Nightreign and Dark Souls III character data debug flags that
/// prevents death.
pub const NR_DS3_NO_DEAD_BIT: u8 = 0b0000_0100;
/// Bit of the Dark Souls III character debug flags that disables movement.
pub const DS3_NO_MOVE_BIT: u32 = 0b1000_0000;

/// The flag words of the main player character that the cheats write.
///
/// `movement_flags` is, per game, the character debug flags (Elden Ring, a
/// 32-bit word), the character control flags (Nightreign) or the character
/// debug flags (Dark Souls III); for the latter two it holds the flag byte in
/// its low 8 bits. `debug_flags` is the debug flag byte of the character data
/// module.
#[derive(PartialEq, Eq, Structural, Clone, Copy, Debug)]
pub struct CharacterFlags {
    pub movement_flags: u32,
    pub debug_flags: u8,
}

/// The flags after the cheats are applied to them.
///
/// Where a cheat is off, some games keep only the cheat's own bit of the
/// word: that is what the agent writes.
pub open spec fn applied_flags(no_dead: bool, no_move: bool, game: Game, f: CharacterFlags) -> CharacterFlags {
    match game {
        Game::EldenRing => CharacterFlags {
            movement_flags: if no_move {
                f.movement_flags | ER_DISABLED_MOVEMENT_BIT
            } else {
                f.movement_flags & !ER_DISABLED_MOVEMENT_BIT
            },
            debug_flags: if no_dead {
                f.debug_flags | ER_NO_DEAD_BIT
            } else {
                f.debug_flags & ER_NO_DEAD_BIT
            },
        },
        Game::Nightreign => CharacterFlags {
            movement_flags: if no_move {
                f.movement_flags | NR_NO_MOVE_BIT
            } else {
                f.movement_flags
            },
            debug_flags: if no_dead {
                f.debug_flags | NR_DS3_NO_DEAD_BIT
            } else {
                f.debug_flags & NR_DS3_NO_DEAD_BIT
            },
        },
        Game::DarkSouls3 => CharacterFlags {
            movement_flags: if no_move {
                f.movement_flags | DS3_NO_MOVE_BIT
            } else {
                f.movement_flags & DS3_NO_MOVE_BIT
            },
            debug_flags: if no_dead {
                f.debug_flags | NR_DS3_NO_DEAD_BIT
            } else {
                f.debug_flags & NR_DS3_NO_DEAD_BIT
            },
        },
    }
}

/// The character cheats.
#[derive(PartialEq, Eq, Structural, Clone, Copy, Debug)]
pub struct Player {
    pub no_dead: bool,
    pub no_move: bool,
}

impl Default for Player {
    fn default() -> (p: Self)
        ensures
            !p.no_dead,
            !p.no_move,
    {
        Player { no_dead: false, no_move: false }
    }
}

impl Player {
    /// Writes the cheats into the main player's flags, when there is a main
    /// player.
    pub fn apply(&self, game: Game, main_player: &mut Option<CharacterFlags>)
        ensures
            match *old(main_player) {
                Some(f) => *final(main_player) == Some(
                    applied_flags(self.no_dead, self.no_move, game, f),
                ),
                None => final(main_player).is_none(),
            },
    {
        if let Some(flags) = main_player {
            match game {
                Game::EldenRing => {
                    if self.no_move {
                        flags.movement_flags = flags.movement_flags | ER_DISABLED_MOVEMENT_BIT;
                    } else {
                        flags.movement_flags = flags.movement_flags & !ER_DISABLED_MOVEMENT_BIT;
                    }
                    if self.no_dead {
                        flags.debug_flags = flags.debug_flags | ER_NO_DEAD_BIT;
                    } else {
                        flags.debug_flags = flags.debug_flags & ER_NO_DEAD_BIT;
                    }
                },
                Game::Nightreign => {
                    if self.no_move {
                        flags.movement_flags = flags.movement_flags | NR_NO_MOVE_BIT;
                    }
                    if self.no_dead {
                        flags.debug_flags = flags.debug_flags | NR_DS3_NO_DEAD_BIT;
                    } else {
                        flags.debug_flags = flags.debug_flags & NR_DS3_NO_DEAD_BIT;
                    }
                },
                Game::DarkSouls3 => {
                    if self.no_move {
                        flags.movement_flags = flags.movement_flags | DS3_NO_MOVE_BIT;
                    } else {
                        flags.movement_flags = flags.movement_flags & DS3_NO_MOVE_BIT;
                    }
                    if self.no_dead {
                        flags.debug_flags = flags.debug_flags | NR_DS3_NO_DEAD_BIT;
                    } else {
                        flags.debug_flags = flags.debug_flags & NR_DS3_NO_DEAD_BIT;
                    }
                },
            }
        }
    }
}

/// Applying the cheats a second time changes nothing.
pub proof fn lemma_apply_idempotent(no_dead: bool, no_move: bool, game: Game, f: CharacterFlags)
    ensures
        applied_flags(no_dead, no_move, game, applied_flags(no_dead, no_move, game, f))
            == applied_flags(no_dead, no_move, game, f),
{
    let m = f.movement_flags;
    let d = f.debug_flags;
    assert((m | 0x20u32) | 0x20u32 == m | 0x20u32) by (bit_vector);
    assert((m & !0x20u32) & !0x20u32 == m & !0x20u32) by (bit_vector);
    assert((m | 0x80u32) | 0x80u32 == m | 0x80u32) by (bit_vector);
    assert((m & 0x80u32) & 0x80u32 == m & 0x80u32) by (bit_vector);
    assert((d | 1u8) | 1u8 == d | 1u8) by (bit_vector);
    assert((d & 1u8) & 1u8 == d & 1u8) by (bit_vector);
    assert((d | 4u8) | 4u8 == d | 4u8) by (bit_vector);
    assert((d & 4u8) & 4u8 == d & 4u8) by (bit_vector);
}

/// In Elden Ring, after the cheats are applied, the movement bit reads back as
/// the no movement cheat and every other movement flag is kept; with no death
/// on, the no death bit is set.
pub proof fn lemma_elden_ring_flags_read_back(no_dead: bool, no_move: bool, f: CharacterFlags)
    ensures
        ({
            let r = applied_flags(no_dead, no_move, Game::EldenRing, f);
            &&& ((r.movement_flags & ER_DISABLED_MOVEMENT_BIT) != 0) == no_move
            &&& no_dead ==> (r.debug_flags & ER_NO_DEAD_BIT) != 0
            &&& r.movement_flags & !ER_DISABLED_MOVEMENT_BIT == f.movement_flags
                & !ER_DISABLED_MOVEMENT_BIT
        }),
{
    let m = f.movement_flags;
    let d = f.debug_flags;
    assert((m | 0x20u32) & 0x20u32 != 0) by (bit_vector);
    assert((m & !0x20u32) & 0x20u32 == 0) by (bit_vector);
    assert((m | 0x20u32) & !0x20u32 == m & !0x20u32) by (bit_vector);
    assert((m & !0x20u32) & !0x20u32 == m & !0x20u32) by (bit_vector);
    assert((d | 1u8) & 1u8 != 0) by (bit_vector);
}

} // verus!
