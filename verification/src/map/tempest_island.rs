//! The locations of the TempestIsland region.

use crate::map::location::Entry;
use crate::map::region::Region;
use crate::map::regional::Regional;
use crate::map::seqs::{each_first, lemma_found, lemma_no_duplicates, position};
use crate::map::MapLocation;
use crate::text::{lemma_pairs_off, pairs_off, str_eq};
use vstd::prelude::*;

verus! {

/// Specific map details for the `TempestIslandHex` tile.
#[derive(Clone, Copy, Debug, PartialEq, Eq)]
pub enum TempestIsland {
    /// Alchimio Estate is a major location
    AlchimioEstate,
    /// Cirris Valve is a minor location
    CirrisValve,
    /// Eros Lagoon is a minor location
    ErosLagoon,
    /// Isle of Psyche is a major location
    IsleofPsyche,
    /// Liar's Haven is a major location
    LiarsHaven,
    /// Lost Airchal is a major location
    LostAirchal,
    /// Plana Fada is a minor location
    PlanaFada,
    /// Reef is a major location
    Reef,
    /// Sclera is a minor location
    Sclera,
    /// Stratos Valve is a minor location
    StratosValve,
    /// Surge Field is a minor location
    SurgeField,
    /// Surge Gate is a major location
    SurgeGate,
    /// The Gale is a major location
    TheGale,
    /// The Iris is a major location
    TheIris,
    /// The Outwood is a minor location
    TheOutwood,
    /// The Rush is a major location
    TheRush,
}

impl TempestIsland {
    /// The table of the region: the catalogue's entry for each location.
    /// Hidden from the verifier until revealed.
    #[verifier::opaque]
    pub open spec fn table(self) -> Entry {
        match self {
            TempestIsland::AlchimioEstate => Entry { local_key: "AlchimioEstate", display_name: "Alchimio Estate", is_major: true, coords: (307_935_680, 95_391_250) },
            TempestIsland::CirrisValve => Entry { local_key: "CirrisValve", display_name: "Cirris Valve", is_major: false, coords: (713_055_200, 485_039_920) },
            TempestIsland::ErosLagoon => Entry { local_key: "ErosLagoon", display_name: "Eros Lagoon", is_major: false, coords: (272_319_000, 819_633_500) },
            TempestIsland::IsleofPsyche => Entry { local_key: "IsleofPsyche", display_name: "Isle of Psyche", is_major: true, coords: (255_163_550, 710_606_200) },
            TempestIsland::LiarsHaven => Entry { local_key: "LiarsHaven", display_name: "Liar's Haven", is_major: true, coords: (674_631_100, 659_602_100) },
            TempestIsland::LostAirchal => Entry { local_key: "LostAirchal", display_name: "Lost Airchal", is_major: true, coords: (605_271_160, 99_635_420) },
            TempestIsland::PlanaFada => Entry { local_key: "PlanaFada", display_name: "Plana Fada", is_major: false, coords: (602_309_400, 184_270_290) },
            TempestIsland::Reef => Entry { local_key: "Reef", display_name: "Reef", is_major: true, coords: (715_016_000, 313_154_250) },
            TempestIsland::Sclera => Entry { local_key: "Sclera", display_name: "Sclera", is_major: false, coords: (534_172_830, 581_901_100) },
            TempestIsland::StratosValve => Entry { local_key: "StratosValve", display_name: "Stratos Valve", is_major: false, coords: (505_426_000, 493_012_730) },
            TempestIsland::SurgeField => Entry { local_key: "SurgeField", display_name: "Surge Field", is_major: false, coords: (610_589_100, 581_337_450) },
            TempestIsland::SurgeGate => Entry { local_key: "SurgeGate", display_name: "Surge Gate", is_major: true, coords: (401_147_280, 438_723_980) },
            TempestIsland::TheGale => Entry { local_key: "TheGale", display_name: "The Gale", is_major: true, coords: (486_705_720, 795_311_400) },
            TempestIsland::TheIris => Entry { local_key: "TheIris", display_name: "The Iris", is_major: true, coords: (626_664_400, 480_539_980) },
            TempestIsland::TheOutwood => Entry { local_key: "TheOutwood", display_name: "The Outwood", is_major: false, coords: (613_170_800, 397_104_080) },
            TempestIsland::TheRush => Entry { local_key: "TheRush", display_name: "The Rush", is_major: true, coords: (522_950_000, 374_890_860) },
        }
    }
}

impl Regional for TempestIsland {
    open spec fn spec_region() -> Region {
        Region::TempestIsland
    }

    open spec fn spec_entry(&self) -> Entry {
        self.table()
    }

    open spec fn spec_marked(&self) -> bool {
        false
    }

    open spec fn spec_all() -> Seq<Self> {
        seq![
            TempestIsland::AlchimioEstate, TempestIsland::CirrisValve,
            TempestIsland::ErosLagoon, TempestIsland::IsleofPsyche, TempestIsland::LiarsHaven,
            TempestIsland::LostAirchal, TempestIsland::PlanaFada, TempestIsland::Reef,
            TempestIsland::Sclera, TempestIsland::StratosValve, TempestIsland::SurgeField,
            TempestIsland::SurgeGate, TempestIsland::TheGale, TempestIsland::TheIris,
            TempestIsland::TheOutwood, TempestIsland::TheRush,
        ]
    }

    open spec fn spec_on_map(self) -> MapLocation {
        MapLocation::TempestIsland(self)
    }

    fn region() -> (region: Region) {
        Region::TempestIsland
    }

    fn entry(&self) -> (entry: Entry) {
        reveal(TempestIsland::table);
        assert(self.spec_entry() == self.table());
        match self {
            TempestIsland::AlchimioEstate => Entry { local_key: "AlchimioEstate", display_name: "Alchimio Estate", is_major: true, coords: (307_935_680, 95_391_250) },
            TempestIsland::CirrisValve => Entry { local_key: "CirrisValve", display_name: "Cirris Valve", is_major: false, coords: (713_055_200, 485_039_920) },
            TempestIsland::ErosLagoon => Entry { local_key: "ErosLagoon", display_name: "Eros Lagoon", is_major: false, coords: (272_319_000, 819_633_500) },
            TempestIsland::IsleofPsyche => Entry { local_key: "IsleofPsyche", display_name: "Isle of Psyche", is_major: true, coords: (255_163_550, 710_606_200) },
            TempestIsland::LiarsHaven => Entry { local_key: "LiarsHaven", display_name: "Liar's Haven", is_major: true, coords: (674_631_100, 659_602_100) },
            TempestIsland::LostAirchal => Entry { local_key: "LostAirchal", display_name: "Lost Airchal", is_major: true, coords: (605_271_160, 99_635_420) },
            TempestIsland::PlanaFada => Entry { local_key: "PlanaFada", display_name: "Plana Fada", is_major: false, coords: (602_309_400, 184_270_290) },
            TempestIsland::Reef => Entry { local_key: "Reef", display_name: "Reef", is_major: true, coords: (715_016_000, 313_154_250) },
            TempestIsland::Sclera => Entry { local_key: "Sclera", display_name: "Sclera", is_major: false, coords: (534_172_830, 581_901_100) },
            TempestIsland::StratosValve => Entry { local_key: "StratosValve", display_name: "Stratos Valve", is_major: false, coords: (505_426_000, 493_012_730) },
            TempestIsland::SurgeField => Entry { local_key: "SurgeField", display_name: "Surge Field", is_major: false, coords: (610_589_100, 581_337_450) },
            TempestIsland::SurgeGate => Entry { local_key: "SurgeGate", display_name: "Surge Gate", is_major: true, coords: (401_147_280, 438_723_980) },
            TempestIsland::TheGale => Entry { local_key: "TheGale", display_name: "The Gale", is_major: true, coords: (486_705_720, 795_311_400) },
            TempestIsland::TheIris => Entry { local_key: "TheIris", display_name: "The Iris", is_major: true, coords: (626_664_400, 480_539_980) },
            TempestIsland::TheOutwood => Entry { local_key: "TheOutwood", display_name: "The Outwood", is_major: false, coords: (613_170_800, 397_104_080) },
            TempestIsland::TheRush => Entry { local_key: "TheRush", display_name: "The Rush", is_major: true, coords: (522_950_000, 374_890_860) },
        }
    }

    fn all() -> (all: Vec<Self>) {
        vec![
            TempestIsland::AlchimioEstate, TempestIsland::CirrisValve,
            TempestIsland::ErosLagoon, TempestIsland::IsleofPsyche, TempestIsland::LiarsHaven,
            TempestIsland::LostAirchal, TempestIsland::PlanaFada, TempestIsland::Reef,
            TempestIsland::Sclera, TempestIsland::StratosValve, TempestIsland::SurgeField,
            TempestIsland::SurgeGate, TempestIsland::TheGale, TempestIsland::TheIris,
            TempestIsland::TheOutwood, TempestIsland::TheRush,
        ]
    }

    fn from_key(key: &str) -> (found: Option<Self>) {
        reveal(TempestIsland::table);
        if str_eq(key, "AlchimioEstate") {
            Some(TempestIsland::AlchimioEstate)
        } else if str_eq(key, "CirrisValve") {
            Some(TempestIsland::CirrisValve)
        } else if str_eq(key, "ErosLagoon") {
            Some(TempestIsland::ErosLagoon)
        } else if str_eq(key, "IsleofPsyche") {
            Some(TempestIsland::IsleofPsyche)
        } else if str_eq(key, "LiarsHaven") {
            Some(TempestIsland::LiarsHaven)
        } else if str_eq(key, "LostAirchal") {
            Some(TempestIsland::LostAirchal)
        } else if str_eq(key, "PlanaFada") {
            Some(TempestIsland::PlanaFada)
        } else if str_eq(key, "Reef") {
            Some(TempestIsland::Reef)
        } else if str_eq(key, "Sclera") {
            Some(TempestIsland::Sclera)
        } else if str_eq(key, "StratosValve") {
            Some(TempestIsland::StratosValve)
        } else if str_eq(key, "SurgeField") {
            Some(TempestIsland::SurgeField)
        } else if str_eq(key, "SurgeGate") {
            Some(TempestIsland::SurgeGate)
        } else if str_eq(key, "TheGale") {
            Some(TempestIsland::TheGale)
        } else if str_eq(key, "TheIris") {
            Some(TempestIsland::TheIris)
        } else if str_eq(key, "TheOutwood") {
            Some(TempestIsland::TheOutwood)
        } else if str_eq(key, "TheRush") {
            Some(TempestIsland::TheRush)
        } else {
            None
        }
    }

    fn on_map(self) -> (place: MapLocation) {
        MapLocation::TempestIsland(self)
    }

    proof fn lemma_entry(l: Self) {
        reveal(TempestIsland::table);
        reveal_with_fuel(pairs_off, 16);
        match l {
            TempestIsland::AlchimioEstate => {
                reveal_strlit("AlchimioEstate");
                reveal_strlit("Alchimio Estate");
                lemma_pairs_off("Alchimio Estate"@, "AlchimioEstate"@);
            },
            TempestIsland::CirrisValve => {
                reveal_strlit("CirrisValve");
                reveal_strlit("Cirris Valve");
                lemma_pairs_off("Cirris Valve"@, "CirrisValve"@);
            },
            TempestIsland::ErosLagoon => {
                reveal_strlit("ErosLagoon");
                reveal_strlit("Eros Lagoon");
                lemma_pairs_off("Eros Lagoon"@, "ErosLagoon"@);
            },
            TempestIsland::IsleofPsyche => {
                reveal_strlit("IsleofPsyche");
                reveal_strlit("Isle of Psyche");
                lemma_pairs_off("Isle of Psyche"@, "IsleofPsyche"@);
            },
            TempestIsland::LiarsHaven => {
                reveal_strlit("LiarsHaven");
                reveal_strlit("Liar's Haven");
                lemma_pairs_off("Liar's Haven"@, "LiarsHaven"@);
            },
            TempestIsland::LostAirchal => {
                reveal_strlit("LostAirchal");
                reveal_strlit("Lost Airchal");
                lemma_pairs_off("Lost Airchal"@, "LostAirchal"@);
            },
            TempestIsland::PlanaFada => {
                reveal_strlit("PlanaFada");
                reveal_strlit("Plana Fada");
                lemma_pairs_off("Plana Fada"@, "PlanaFada"@);
            },
            TempestIsland::Reef => {
                reveal_strlit("Reef");
                lemma_pairs_off("Reef"@, "Reef"@);
            },
            TempestIsland::Sclera => {
                reveal_strlit("Sclera");
                lemma_pairs_off("Sclera"@, "Sclera"@);
            },
            TempestIsland::StratosValve => {
                reveal_strlit("StratosValve");
                reveal_strlit("Stratos Valve");
                lemma_pairs_off("Stratos Valve"@, "StratosValve"@);
            },
            TempestIsland::SurgeField => {
                reveal_strlit("SurgeField");
                reveal_strlit("Surge Field");
                lemma_pairs_off("Surge Field"@, "SurgeField"@);
            },
            TempestIsland::SurgeGate => {
                reveal_strlit("SurgeGate");
                reveal_strlit("Surge Gate");
                lemma_pairs_off("Surge Gate"@, "SurgeGate"@);
            },
            TempestIsland::TheGale => {
                reveal_strlit("TheGale");
                reveal_strlit("The Gale");
                lemma_pairs_off("The Gale"@, "TheGale"@);
            },
            TempestIsland::TheIris => {
                reveal_strlit("TheIris");
                reveal_strlit("The Iris");
                lemma_pairs_off("The Iris"@, "TheIris"@);
            },
            TempestIsland::TheOutwood => {
                reveal_strlit("TheOutwood");
                reveal_strlit("The Outwood");
                lemma_pairs_off("The Outwood"@, "TheOutwood"@);
            },
            TempestIsland::TheRush => {
                reveal_strlit("TheRush");
                reveal_strlit("The Rush");
                lemma_pairs_off("The Rush"@, "TheRush"@);
            },
        }
    }

    proof fn lemma_keys_distinct(a: Self, b: Self) {
        reveal(TempestIsland::table);
        reveal_strlit("AlchimioEstate");
        reveal_strlit("CirrisValve");
        reveal_strlit("ErosLagoon");
        reveal_strlit("IsleofPsyche");
        reveal_strlit("LiarsHaven");
        reveal_strlit("LostAirchal");
        reveal_strlit("PlanaFada");
        reveal_strlit("Reef");
        reveal_strlit("Sclera");
        reveal_strlit("StratosValve");
        reveal_strlit("SurgeField");
        reveal_strlit("SurgeGate");
        reveal_strlit("TheGale");
        reveal_strlit("TheIris");
        reveal_strlit("TheOutwood");
        reveal_strlit("TheRush");
        // Two equal keys agree in length and in every character; no two
        // keys of the table do.
        let x = a.table().local_key@;
        let y = b.table().local_key@;
        assert(x.len() == y.len());
        assert(x[0] == y[0]);
        assert(x[1] == y[1]);
        assert(x[2] == y[2]);
        assert(x[3] == y[3]);
        assert(x[4] == y[4]);
        assert(x[5] == y[5]);
        assert(x[6] == y[6]);
        assert(x[7] == y[7]);
        assert(x[8] == y[8]);
        assert(x[9] == y[9]);
        assert(x[10] == y[10]);
        assert(x[11] == y[11]);
        assert(x[12] == y[12]);
        assert(x[13] == y[13]);
        match a {
            TempestIsland::AlchimioEstate => assert(b is AlchimioEstate),
            TempestIsland::CirrisValve => assert(b is CirrisValve),
            TempestIsland::ErosLagoon => assert(b is ErosLagoon),
            TempestIsland::IsleofPsyche => assert(b is IsleofPsyche),
            TempestIsland::LiarsHaven => assert(b is LiarsHaven),
            TempestIsland::LostAirchal => assert(b is LostAirchal),
            TempestIsland::PlanaFada => assert(b is PlanaFada),
            TempestIsland::Reef => assert(b is Reef),
            TempestIsland::Sclera => assert(b is Sclera),
            TempestIsland::StratosValve => assert(b is StratosValve),
            TempestIsland::SurgeField => assert(b is SurgeField),
            TempestIsland::SurgeGate => assert(b is SurgeGate),
            TempestIsland::TheGale => assert(b is TheGale),
            TempestIsland::TheIris => assert(b is TheIris),
            TempestIsland::TheOutwood => assert(b is TheOutwood),
            TempestIsland::TheRush => assert(b is TheRush),
        }
    }

    proof fn lemma_all(l: Self) {
        reveal_with_fuel(position, 17);
        reveal_with_fuel(each_first, 17);
        lemma_found(Self::spec_all(), l);
        lemma_no_duplicates(Self::spec_all());
    }

    proof fn lemma_on_map(place: MapLocation) {
        if let MapLocation::TempestIsland(l) = place {
            assert(l.spec_on_map() == place);
        }
    }
}

} // verus!
