//! The locations of the Stonecradle region.

use crate::map::location::Entry;
use crate::map::region::Region;
use crate::map::regional::Regional;
use crate::map::seqs::{each_first, lemma_found, lemma_no_duplicates, position};
use crate::map::MapLocation;
use crate::text::{lemma_pairs_off, pairs_off, str_eq};
use vstd::prelude::*;

verus! {

/// Specific map details for the `StonecradleHex` tile.
#[derive(Clone, Copy, Debug, PartialEq, Eq)]
pub enum Stonecradle {
    /// Buckler Sound is a major location
    BucklerSound,
    /// Fading Lights is a major location
    FadingLights,
    /// Longing is a minor location
    Longing,
    /// The Aging Ocean is a minor location
    TheAgingOcean,
    /// The Cord is a major location
    TheCord,
    /// The Heir's Knife is a major location
    TheHeirsKnife,
    /// The Loneliest Shore is a minor location
    TheLoneliestShore,
    /// The Long Fast is a major location
    TheLongFast,
    /// The Pram is a minor location
    ThePram,
    /// The Reach is a major location
    TheReach,
    /// The Roiling Comets is a minor location
    TheRoilingComets,
    /// Trammel Pool is a major location
    TrammelPool,
    /// World's End is a major location
    WorldsEnd,
}

impl Stonecradle {
    /// The table of the region: the catalogue's entry for each location.
    /// Hidden from the verifier until revealed.
    #[verifier::opaque]
    pub open spec fn table(self) -> Entry {
        match self {
            Stonecradle::BucklerSound => Entry { local_key: "BucklerSound", display_name: "Buckler Sound", is_major: true, coords: (510_593_830, 514_667_800) },
            Stonecradle::FadingLights => Entry { local_key: "FadingLights", display_name: "Fading Lights", is_major: true, coords: (734_060_350, 691_561_340) },
            Stonecradle::Longing => Entry { local_key: "Longing", display_name: "Longing", is_major: false, coords: (369_986_270, 732_075_450) },
            Stonecradle::TheAgingOcean => Entry { local_key: "TheAgingOcean", display_name: "The Aging Ocean", is_major: false, coords: (305_368_360, 346_445_300) },
            Stonecradle::TheCord => Entry { local_key: "TheCord", display_name: "The Cord", is_major: true, coords: (562_494_400, 694_262_150) },
            Stonecradle::TheHeirsKnife => Entry { local_key: "TheHeirsKnife", display_name: "The Heir's Knife", is_major: true, coords: (276_417_140, 772_046_200) },
            Stonecradle::TheLoneliestShore => Entry { local_key: "TheLoneliestShore", display_name: "The Loneliest Shore", is_major: false, coords: (525_158_000, 254_336_540) },
            Stonecradle::TheLongFast => Entry { local_key: "TheLongFast", display_name: "The Long Fast", is_major: true, coords: (417_140_570, 889_814_600) },
            Stonecradle::ThePram => Entry { local_key: "ThePram", display_name: "The Pram", is_major: false, coords: (391_383_350, 477_352_170) },
            Stonecradle::TheReach => Entry { local_key: "TheReach", display_name: "The Reach", is_major: true, coords: (635_819_730, 218_856_620) },
            Stonecradle::TheRoilingComets => Entry { local_key: "TheRoilingComets", display_name: "The Roiling Comets", is_major: false, coords: (856_341_060, 544_308_700) },
            Stonecradle::TrammelPool => Entry { local_key: "TrammelPool", display_name: "Trammel Pool", is_major: true, coords: (775_524_850, 460_819_840) },
            Stonecradle::WorldsEnd => Entry { local_key: "WorldsEnd", display_name: "World's End", is_major: true, coords: (214_929_900, 552_176_650) },
        }
    }
}

impl Regional for Stonecradle {
    open spec fn spec_region() -> Region {
        Region::Stonecradle
    }

    open spec fn spec_entry(&self) -> Entry {
        self.table()
    }

    open spec fn spec_marked(&self) -> bool {
        false
    }

    open spec fn spec_all() -> Seq<Self> {
        seq![
            Stonecradle::BucklerSound, Stonecradle::FadingLights, Stonecradle::Longing,
            Stonecradle::TheAgingOcean, Stonecradle::TheCord, Stonecradle::TheHeirsKnife,
            Stonecradle::TheLoneliestShore, Stonecradle::TheLongFast, Stonecradle::ThePram,
            Stonecradle::TheReach, Stonecradle::TheRoilingComets, Stonecradle::TrammelPool,
            Stonecradle::WorldsEnd,
        ]
    }

    open spec fn spec_on_map(self) -> MapLocation {
        MapLocation::Stonecradle(self)
    }

    fn region() -> (region: Region) {
        Region::Stonecradle
    }

    fn entry(&self) -> (entry: Entry) {
        reveal(Stonecradle::table);
        assert(self.spec_entry() == self.table());
        match self {
            Stonecradle::BucklerSound => Entry { local_key: "BucklerSound", display_name: "Buckler Sound", is_major: true, coords: (510_593_830, 514_667_800) },
            Stonecradle::FadingLights => Entry { local_key: "FadingLights", display_name: "Fading Lights", is_major: true, coords: (734_060_350, 691_561_340) },
            Stonecradle::Longing => Entry { local_key: "Longing", display_name: "Longing", is_major: false, coords: (369_986_270, 732_075_450) },
            Stonecradle::TheAgingOcean => Entry { local_key: "TheAgingOcean", display_name: "The Aging Ocean", is_major: false, coords: (305_368_360, 346_445_300) },
            Stonecradle::TheCord => Entry { local_key: "TheCord", display_name: "The Cord", is_major: true, coords: (562_494_400, 694_262_150) },
            Stonecradle::TheHeirsKnife => Entry { local_key: "TheHeirsKnife", display_name: "The Heir's Knife", is_major: true, coords: (276_417_140, 772_046_200) },
            Stonecradle::TheLoneliestShore => Entry { local_key: "TheLoneliestShore", display_name: "The Loneliest Shore", is_major: false, coords: (525_158_000, 254_336_540) },
            Stonecradle::TheLongFast => Entry { local_key: "TheLongFast", display_name: "The Long Fast", is_major: true, coords: (417_140_570, 889_814_600) },
            Stonecradle::ThePram => Entry { local_key: "ThePram", display_name: "The Pram", is_major: false, coords: (391_383_350, 477_352_170) },
            Stonecradle::TheReach => Entry { local_key: "TheReach", display_name: "The Reach", is_major: true, coords: (635_819_730, 218_856_620) },
            Stonecradle::TheRoilingComets => Entry { local_key: "TheRoilingComets", display_name: "The Roiling Comets", is_major: false, coords: (856_341_060, 544_308_700) },
            Stonecradle::TrammelPool => Entry { local_key: "TrammelPool", display_name: "Trammel Pool", is_major: true, coords: (775_524_850, 460_819_840) },
            Stonecradle::WorldsEnd => Entry { local_key: "WorldsEnd", display_name: "World's End", is_major: true, coords: (214_929_900, 552_176_650) },
        }
    }

    fn all() -> (all: Vec<Self>) {
        vec![
            Stonecradle::BucklerSound, Stonecradle::FadingLights, Stonecradle::Longing,
            Stonecradle::TheAgingOcean, Stonecradle::TheCord, Stonecradle::TheHeirsKnife,
            Stonecradle::TheLoneliestShore, Stonecradle::TheLongFast, Stonecradle::ThePram,
            Stonecradle::TheReach, Stonecradle::TheRoilingComets, Stonecradle::TrammelPool,
            Stonecradle::WorldsEnd,
        ]
    }

    fn from_key(key: &str) -> (found: Option<Self>) {
        reveal(Stonecradle::table);
        if str_eq(key, "BucklerSound") {
            Some(Stonecradle::BucklerSound)
        } else if str_eq(key, "FadingLights") {
            Some(Stonecradle::FadingLights)
        } else if str_eq(key, "Longing") {
            Some(Stonecradle::Longing)
        } else if str_eq(key, "TheAgingOcean") {
            Some(Stonecradle::TheAgingOcean)
        } else if str_eq(key, "TheCord") {
            Some(Stonecradle::TheCord)
        } else if str_eq(key, "TheHeirsKnife") {
            Some(Stonecradle::TheHeirsKnife)
        } else if str_eq(key, "TheLoneliestShore") {
            Some(Stonecradle::TheLoneliestShore)
        } else if str_eq(key, "TheLongFast") {
            Some(Stonecradle::TheLongFast)
        } else if str_eq(key, "ThePram") {
            Some(Stonecradle::ThePram)
        } else if str_eq(key, "TheReach") {
            Some(Stonecradle::TheReach)
        } else if str_eq(key, "TheRoilingComets") {
            Some(Stonecradle::TheRoilingComets)
        } else if str_eq(key, "TrammelPool") {
            Some(Stonecradle::TrammelPool)
        } else if str_eq(key, "WorldsEnd") {
            Some(Stonecradle::WorldsEnd)
        } else {
            None
        }
    }

    fn on_map(self) -> (place: MapLocation) {
        MapLocation::Stonecradle(self)
    }

    proof fn lemma_entry(l: Self) {
        reveal(Stonecradle::table);
        reveal_with_fuel(pairs_off, 20);
        match l {
            Stonecradle::BucklerSound => {
                reveal_strlit("BucklerSound");
                reveal_strlit("Buckler Sound");
                lemma_pairs_off("Buckler Sound"@, "BucklerSound"@);
            },
            Stonecradle::FadingLights => {
                reveal_strlit("FadingLights");
                reveal_strlit("Fading Lights");
                lemma_pairs_off("Fading Lights"@, "FadingLights"@);
            },
            Stonecradle::Longing => {
                reveal_strlit("Longing");
                lemma_pairs_off("Longing"@, "Longing"@);
            },
            Stonecradle::TheAgingOcean => {
                reveal_strlit("TheAgingOcean");
                reveal_strlit("The Aging Ocean");
                lemma_pairs_off("The Aging Ocean"@, "TheAgingOcean"@);
            },
            Stonecradle::TheCord => {
                reveal_strlit("TheCord");
                reveal_strlit("The Cord");
                lemma_pairs_off("The Cord"@, "TheCord"@);
            },
            Stonecradle::TheHeirsKnife => {
                reveal_strlit("TheHeirsKnife");
                reveal_strlit("The Heir's Knife");
                lemma_pairs_off("The Heir's Knife"@, "TheHeirsKnife"@);
            },
            Stonecradle::TheLoneliestShore => {
                reveal_strlit("TheLoneliestShore");
                reveal_strlit("The Loneliest Shore");
                lemma_pairs_off("The Loneliest Shore"@, "TheLoneliestShore"@);
            },
            Stonecradle::TheLongFast => {
                reveal_strlit("TheLongFast");
                reveal_strlit("The Long Fast");
                lemma_pairs_off("The Long Fast"@, "TheLongFast"@);
            },
            Stonecradle::ThePram => {
                reveal_strlit("ThePram");
                reveal_strlit("The Pram");
                lemma_pairs_off("The Pram"@, "ThePram"@);
            },
            Stonecradle::TheReach => {
                reveal_strlit("TheReach");
                reveal_strlit("The Reach");
                lemma_pairs_off("The Reach"@, "TheReach"@);
            },
            Stonecradle::TheRoilingComets => {
                reveal_strlit("TheRoilingComets");
                reveal_strlit("The Roiling Comets");
                lemma_pairs_off("The Roiling Comets"@, "TheRoilingComets"@);
            },
            Stonecradle::TrammelPool => {
                reveal_strlit("TrammelPool");
                reveal_strlit("Trammel Pool");
                lemma_pairs_off("Trammel Pool"@, "TrammelPool"@);
            },
            Stonecradle::WorldsEnd => {
                reveal_strlit("WorldsEnd");
                reveal_strlit("World's End");
                lemma_pairs_off("World's End"@, "WorldsEnd"@);
            },
        }
    }

    proof fn lemma_keys_distinct(a: Self, b: Self) {
        reveal(Stonecradle::table);
        reveal_strlit("BucklerSound");
        reveal_strlit("FadingLights");
        reveal_strlit("Longing");
        reveal_strlit("TheAgingOcean");
        reveal_strlit("TheCord");
        reveal_strlit("TheHeirsKnife");
        reveal_strlit("TheLoneliestShore");
        reveal_strlit("TheLongFast");
        reveal_strlit("ThePram");
        reveal_strlit("TheReach");
        reveal_strlit("TheRoilingComets");
        reveal_strlit("TrammelPool");
        reveal_strlit("WorldsEnd");
        // Two equal keys agree in length and in every character; no two
        // keys of the table do.
        let x = a.table().local_key@;
        let y = b.table().local_key@;
        assert(x.len() == y.len());
        assert(x[0] == y[0]);
        assert(x[1] == y[1]);
        assert(x[2] == y[2]);
        assert(x[3] == y[3]);
        assert(x[4] == y[4]);
        assert(x[5] == y[5]);
        assert(x[6] == y[6]);
        assert(x[7] == y[7]);
        assert(x[8] == y[8]);
        assert(x[9] == y[9]);
        assert(x[10] == y[10]);
        assert(x[11] == y[11]);
        assert(x[12] == y[12]);
        assert(x[13] == y[13]);
        assert(x[14] == y[14]);
        assert(x[15] == y[15]);
        assert(x[16] == y[16]);
        match a {
            Stonecradle::BucklerSound => assert(b is BucklerSound),
            Stonecradle::FadingLights => assert(b is FadingLights),
            Stonecradle::Longing => assert(b is Longing),
            Stonecradle::TheAgingOcean => assert(b is TheAgingOcean),
            Stonecradle::TheCord => assert(b is TheCord),
            Stonecradle::TheHeirsKnife => assert(b is TheHeirsKnife),
            Stonecradle::TheLoneliestShore => assert(b is TheLoneliestShore),
            Stonecradle::TheLongFast => assert(b is TheLongFast),
            Stonecradle::ThePram => assert(b is ThePram),
            Stonecradle::TheReach => assert(b is TheReach),
            Stonecradle::TheRoilingComets => assert(b is TheRoilingComets),
            Stonecradle::TrammelPool => assert(b is TrammelPool),
            Stonecradle::WorldsEnd => assert(b is WorldsEnd),
        }
    }

    proof fn lemma_all(l: Self) {
        reveal_with_fuel(position, 14);
        reveal_with_fuel(each_first, 14);
        lemma_found(Self::spec_all(), l);
        lemma_no_duplicates(Self::spec_all());
    }

    proof fn lemma_on_map(place: MapLocation) {
        if let MapLocation::Stonecradle(l) = place {
            assert(l.spec_on_map() == place);
        }
    }
}

} // verus!
