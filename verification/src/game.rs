//! The supported games and the memory offsets of the supported game versions.
use vstd::prelude::*;
use vstd::string::*;
use crate::protocol::RemoteError;

verus! {

/// The game a build of the tool targets.
#[derive(PartialEq, Eq, Structural, Clone, Copy, Debug)]
pub enum Game {
    EldenRing,
    Nightreign,
    DarkSouls3,
}

/// File name of the executable of the game.
pub open spec fn executable_name(game: Game) -> Seq<char> {
    match game {
        Game::EldenRing => "eldenring.exe"@,
        Game::Nightreign => "nightreign.exe"@,
        Game::DarkSouls3 => "DarkSoulsIII.exe"@,
    }
}

/// The executable of the game.
pub fn supported_executable(game: Game) -> (name: String)
    ensures
        name@ == executable_name(game),
{
    match game {
        Game::EldenRing => String::from_str("eldenring.exe"),
        Game::Nightreign => String::from_str("nightreign.exe"),
        Game::DarkSouls3 => String::from_str("DarkSoulsIII.exe"),
    }
}

/// Product version of an executable, as its version resource states it.
#[derive(PartialEq, Eq, Structural, Clone, Copy, Debug)]
pub struct ProductVersion {
    pub major: u16,
    pub minor: u16,
    pub patch: u16,
    pub build: u16,
}

/// Offsets, relative to the executable's base, of the code and data the agent
/// patches.
#[derive(PartialEq, Eq, Structural, Clone, Copy, Debug)]
pub struct GameOffsets {
    pub move_map_step: u32,
    pub scaleform_update_b: u32,
    pub no_dead_flag: u32,
}

pub open spec fn version(major: u16, minor: u16, patch: u16, build: u16) -> ProductVersion {
    ProductVersion { major, minor, patch, build }
}

pub open spec fn offsets(move_map_step: u32, scaleform_update_b: u32, no_dead_flag: u32) -> GameOffsets {
    GameOffsets { move_map_step, scaleform_update_b, no_dead_flag }
}

/// Product name of the one game whose offsets are known.
pub open spec fn nightreign_product() -> Seq<char> {
    "ELDEN RING NIGHTREIGN"@
}

/// The offsets of a known game version.
pub open spec fn known_offsets(product: Seq<char>, v: ProductVersion) -> Option<GameOffsets> {
    if product != nightreign_product() {
        None
    } else if v == version(1, 1, 4, 0) {
        Some(offsets(0xba8a70, 0xe26460, 0x3b045c4))
    } else if v == version(1, 1, 5, 0) {
        Some(offsets(0xba8a70, 0xe26460, 0x3b045c4))
    } else if v == version(1, 2, 0, 0) {
        Some(offsets(0xbe9ff0, 0xe6b8c0, 0x3b7b604))
    } else if v == version(1, 2, 1, 0) {
        Some(offsets(0xbea7e0, 0xe6c0b0, 0x3b7b604))
    } else if v == version(1, 2, 2, 0) {
        Some(offsets(0xbee8c0, 0xe701e0, 0x3b8e624))
    } else if v == version(1, 2, 3, 0) {
        Some(offsets(0xbf0270, 0xe71e50, 0x3b9ab24))
    } else if v == version(1, 2, 4, 0) {
        Some(offsets(0xbf0260, 0x56be3af, 0x3b9ab24))
    } else {
        None
    }
}

fn is_version(v: ProductVersion, major: u16, minor: u16, patch: u16, build: u16) -> (b: bool)
    ensures
        b == (v == version(major, minor, patch, build)),
{
    v.major == major && v.minor == minor && v.patch == patch && v.build == build
}

/// Offsets of the running game, from the product name and product version
/// found in its version resource (`None` where the resource lacks one).
///
/// Fails with `UnknownGame` when either is missing or the version is not one
/// the tool knows.
pub fn get_offsets(product: Option<String>, version: Option<ProductVersion>) -> (r: Result<
    GameOffsets,
    RemoteError,
>)
    ensures
        match (product, version) {
            (Some(p), Some(v)) => match known_offsets(p@, v) {
                Some(o) => r == Ok::<GameOffsets, RemoteError>(o),
                None => r == Err::<GameOffsets, RemoteError>(RemoteError::UnknownGame),
            },
            _ => r == Err::<GameOffsets, RemoteError>(RemoteError::UnknownGame),
        },
{
    let (product, v) = match (product, version) {
        (Some(p), Some(v)) => (p, v),
        _ => return Err(RemoteError::UnknownGame),
    };
    let known = String::from_str("ELDEN RING NIGHTREIGN");
    if product != known {
        return Err(RemoteError::UnknownGame);
    }
    if is_version(v, 1, 1, 4, 0) {
        Ok(GameOffsets { move_map_step: 0xba8a70, scaleform_update_b: 0xe26460, no_dead_flag: 0x3b045c4 })
    } else if is_version(v, 1, 1, 5, 0) {
        Ok(GameOffsets { move_map_step: 0xba8a70, scaleform_update_b: 0xe26460, no_dead_flag: 0x3b045c4 })
    } else if is_version(v, 1, 2, 0, 0) {
        Ok(GameOffsets { move_map_step: 0xbe9ff0, scaleform_update_b: 0xe6b8c0, no_dead_flag: 0x3b7b604 })
    } else if is_version(v, 1, 2, 1, 0) {
        Ok(GameOffsets { move_map_step: 0xbea7e0, scaleform_update_b: 0xe6c0b0, no_dead_flag: 0x3b7b604 })
    } else if is_version(v, 1, 2, 2, 0) {
        Ok(GameOffsets { move_map_step: 0xbee8c0, scaleform_update_b: 0xe701e0, no_dead_flag: 0x3b8e624 })
    } else if is_version(v, 1, 2, 3, 0) {
        Ok(GameOffsets { move_map_step: 0xbf0270, scaleform_update_b: 0xe71e50, no_dead_flag: 0x3b9ab24 })
    } else if is_version(v, 1, 2, 4, 0) {
        Ok(GameOffsets { move_map_step: 0xbf0260, scaleform_update_b: 0x56be3af, no_dead_flag: 0x3b9ab24 })
    } else {
        Err(RemoteError::UnknownGame)
    }
}

/// The supported Nightreign releases and the offsets of each, in release order.
pub open spec fn nightreign_releases() -> Seq<(ProductVersion, GameOffsets)> {
    seq![
        (version(1, 1, 4, 0), offsets(0xba8a70, 0xe26460, 0x3b045c4)),
        (version(1, 1, 5, 0), offsets(0xba8a70, 0xe26460, 0x3b045c4)),
        (version(1, 2, 0, 0), offsets(0xbe9ff0, 0xe6b8c0, 0x3b7b604)),
        (version(1, 2, 1, 0), offsets(0xbea7e0, 0xe6c0b0, 0x3b7b604)),
        (version(1, 2, 2, 0), offsets(0xbee8c0, 0xe701e0, 0x3b8e624)),
        (version(1, 2, 3, 0), offsets(0xbf0270, 0xe71e50, 0x3b9ab24)),
        (version(1, 2, 4, 0), offsets(0xbf0260, 0x56be3af, 0x3b9ab24)),
    ]
}

/// Every supported Nightreign release is found with its own offsets, and a
/// lookup succeeds only for Nightreign at one of those releases.
pub proof fn lemma_known_offsets_cover_releases(product: Seq<char>, v: ProductVersion)
    ensures
        forall|i: int|
            0 <= i < nightreign_releases().len() ==> known_offsets(
                nightreign_product(),
                (#[trigger] nightreign_releases()[i]).0,
            ) == Some(nightreign_releases()[i].1),
        known_offsets(product, v) is Some ==> product == nightreign_product() && exists|i: int|
            0 <= i < nightreign_releases().len() && (#[trigger] nightreign_releases()[i]).0 == v
                && known_offsets(product, v) == Some(nightreign_releases()[i].1),
{
    let t = nightreign_releases();
    assert(t.len() == 7);
    assert forall|i: int| 0 <= i < t.len() implies known_offsets(
        nightreign_product(),
        (#[trigger] t[i]).0,
    ) == Some(t[i].1) by {
        if i == 0 {
        } else if i == 1 {
        } else if i == 2 {
        } else if i == 3 {
        } else if i == 4 {
        } else if i == 5 {
        } else {
        }
    }
    if known_offsets(product, v) is Some {
        if v == version(1, 1, 4, 0) {
            assert(t[0].0 == v);
        } else if v == version(1, 1, 5, 0) {
            assert(t[1].0 == v);
        } else if v == version(1, 2, 0, 0) {
            assert(t[2].0 == v);
        } else if v == version(1, 2, 1, 0) {
            assert(t[3].0 == v);
        } else if v == version(1, 2, 2, 0) {
            assert(t[4].0 == v);
        } else if v == version(1, 2, 3, 0) {
            assert(t[5].0 == v);
        } else {
            assert(t[6].0 == v);
        }
    }
}

} // verus!
