//! The locations of the FishermansRow region.

use crate::map::location::Entry;
use crate::map::region::Region;
use crate::map::regional::Regional;
use crate::map::seqs::{each_first, lemma_found, lemma_no_duplicates, position};
use crate::map::MapLocation;
use crate::text::{lemma_pairs_off, pairs_off, str_eq};
use vstd::prelude::*;

verus! {

/// Specific map details for the `FishermansRowHex` tile.
#[derive(Clone, Copy, Debug, PartialEq, Eq)]
pub enum FishermansRow {
    /// A Lost Sot is a minor location
    ALostSot,
    /// Arcadia is a major location
    Arcadia,
    /// Bident Crossroads is a minor location
    BidentCrossroads,
    /// Black Well is a major location
    BlackWell,
    /// Cat Step is a minor location
    CatStep,
    /// Dankana Post is a minor location
    DankanaPost,
    /// Eidolo is a major location
    Eidolo,
    /// Fort Ember is a major location
    FortEmber,
    /// Hangmen's Court is a major location
    HangmensCourt,
    /// Heart of Rites is a minor location
    HeartofRites,
    /// House Roloi is a minor location
    HouseRoloi,
    /// Lake Nerites is a minor location
    LakeNerites,
    /// Liberty Hill is a minor location
    LibertyHill,
    /// Oceanwatch is a major location
    Oceanwatch,
    /// Partisan Island is a major location
    PartisanIsland,
    /// Peripti Landing is a major location
    PeriptiLanding,
    /// Progonos Watch is a minor location
    ProgonosWatch,
    /// The Dire Strings is a minor location
    TheDireStrings,
    /// The Rite Road is a minor location
    TheRiteRoad,
    /// The Satyr Stone is a major location
    TheSatyrStone,
    /// The Three Sisters is a major location
    TheThreeSisters,
    /// Torch of Demeter is a minor location
    TorchofDemeter,
}

impl FishermansRow {
    /// The table of the region: the catalogue's entry for each location.
    /// Hidden from the verifier until revealed.
    #[verifier::opaque]
    pub open spec fn table(self) -> Entry {
        match self {
            FishermansRow::ALostSot => Entry { local_key: "ALostSot", display_name: "A Lost Sot", is_major: false, coords: (906_554_760, 493_444_440) },
            FishermansRow::Arcadia => Entry { local_key: "Arcadia", display_name: "Arcadia", is_major: true, coords: (389_208_730, 730_953_930) },
            FishermansRow::BidentCrossroads => Entry { local_key: "BidentCrossroads", display_name: "Bident Crossroads", is_major: false, coords: (434_502_630, 615_819_900) },
            FishermansRow::BlackWell => Entry { local_key: "BlackWell", display_name: "Black Well", is_major: true, coords: (388_495_740, 306_615_600) },
            FishermansRow::CatStep => Entry { local_key: "CatStep", display_name: "Cat Step", is_major: false, coords: (620_656_600, 32_853_466) },
            FishermansRow::DankanaPost => Entry { local_key: "DankanaPost", display_name: "Dankana Post", is_major: false, coords: (305_170_270, 636_606_200) },
            FishermansRow::Eidolo => Entry { local_key: "Eidolo", display_name: "Eidolo", is_major: true, coords: (463_374_670, 523_020_000) },
            FishermansRow::FortEmber => Entry { local_key: "FortEmber", display_name: "Fort Ember", is_major: true, coords: (504_223_760, 705_276_850) },
            FishermansRow::HangmensCourt => Entry { local_key: "HangmensCourt", display_name: "Hangmen's Court", is_major: true, coords: (774_228_450, 536_058_400) },
            FishermansRow::HeartofRites => Entry { local_key: "HeartofRites", display_name: "Heart of Rites", is_major: false, coords: (355_314_220, 468_718_320) },
            FishermansRow::HouseRoloi => Entry { local_key: "HouseRoloi", display_name: "House Roloi", is_major: false, coords: (260_104_180, 773_875_240) },
            FishermansRow::LakeNerites => Entry { local_key: "LakeNerites", display_name: "Lake Nerites", is_major: false, coords: (326_996_620, 542_890_670) },
            FishermansRow::LibertyHill => Entry { local_key: "LibertyHill", display_name: "Liberty Hill", is_major: false, coords: (367_380_800, 357_837_920) },
            FishermansRow::Oceanwatch => Entry { local_key: "Oceanwatch", display_name: "Oceanwatch", is_major: true, coords: (530_769_940, 333_818_300) },
            FishermansRow::PartisanIsland => Entry { local_key: "PartisanIsland", display_name: "Partisan Island", is_major: true, coords: (670_340_400, 201_763_510) },
            FishermansRow::PeriptiLanding => Entry { local_key: "PeriptiLanding", display_name: "Peripti Landing", is_major: true, coords: (294_184_120, 454_027_400) },
            FishermansRow::ProgonosWatch => Entry { local_key: "ProgonosWatch", display_name: "Progonos Watch", is_major: false, coords: (500_260_000, 435_157_400) },
            FishermansRow::TheDireStrings => Entry { local_key: "TheDireStrings", display_name: "The Dire Strings", is_major: false, coords: (842_430_600, 614_127_900) },
            FishermansRow::TheRiteRoad => Entry { local_key: "TheRiteRoad", display_name: "The Rite Road", is_major: false, coords: (450_410_520, 385_076_760) },
            FishermansRow::TheSatyrStone => Entry { local_key: "TheSatyrStone", display_name: "The Satyr Stone", is_major: true, coords: (670_936_050, 643_919_400) },
            FishermansRow::TheThreeSisters => Entry { local_key: "TheThreeSisters", display_name: "The Three Sisters", is_major: true, coords: (684_986_000, 352_805_600) },
            FishermansRow::TorchofDemeter => Entry { local_key: "TorchofDemeter", display_name: "Torch of Demeter", is_major: false, coords: (424_855_770, 681_883_100) },
        }
    }
}

impl Regional for FishermansRow {
    open spec fn spec_region() -> Region {
        Region::FishermansRow
    }

    open spec fn spec_entry(&self) -> Entry {
        self.table()
    }

    open spec fn spec_marked(&self) -> bool {
        false
    }

    open spec fn spec_all() -> Seq<Self> {
        seq![
            FishermansRow::ALostSot, FishermansRow::Arcadia, FishermansRow::BidentCrossroads,
            FishermansRow::BlackWell, FishermansRow::CatStep, FishermansRow::DankanaPost,
            FishermansRow::Eidolo, FishermansRow::FortEmber, FishermansRow::HangmensCourt,
            FishermansRow::HeartofRites, FishermansRow::HouseRoloi, FishermansRow::LakeNerites,
            FishermansRow::LibertyHill, FishermansRow::Oceanwatch,
            FishermansRow::PartisanIsland, FishermansRow::PeriptiLanding,
            FishermansRow::ProgonosWatch, FishermansRow::TheDireStrings,
            FishermansRow::TheRiteRoad, FishermansRow::TheSatyrStone,
            FishermansRow::TheThreeSisters, FishermansRow::TorchofDemeter,
        ]
    }

    open spec fn spec_on_map(self) -> MapLocation {
        MapLocation::FishermansRow(self)
    }

    fn region() -> (region: Region) {
        Region::FishermansRow
    }

    fn entry(&self) -> (entry: Entry) {
        reveal(FishermansRow::table);
        assert(self.spec_entry() == self.table());
        match self {
            FishermansRow::ALostSot => Entry { local_key: "ALostSot", display_name: "A Lost Sot", is_major: false, coords: (906_554_760, 493_444_440) },
            FishermansRow::Arcadia => Entry { local_key: "Arcadia", display_name: "Arcadia", is_major: true, coords: (389_208_730, 730_953_930) },
            FishermansRow::BidentCrossroads => Entry { local_key: "BidentCrossroads", display_name: "Bident Crossroads", is_major: false, coords: (434_502_630, 615_819_900) },
            FishermansRow::BlackWell => Entry { local_key: "BlackWell", display_name: "Black Well", is_major: true, coords: (388_495_740, 306_615_600) },
            FishermansRow::CatStep => Entry { local_key: "CatStep", display_name: "Cat Step", is_major: false, coords: (620_656_600, 32_853_466) },
            FishermansRow::DankanaPost => Entry { local_key: "DankanaPost", display_name: "Dankana Post", is_major: false, coords: (305_170_270, 636_606_200) },
            FishermansRow::Eidolo => Entry { local_key: "Eidolo", display_name: "Eidolo", is_major: true, coords: (463_374_670, 523_020_000) },
            FishermansRow::FortEmber => Entry { local_key: "FortEmber", display_name: "Fort Ember", is_major: true, coords: (504_223_760, 705_276_850) },
            FishermansRow::HangmensCourt => Entry { local_key: "HangmensCourt", display_name: "Hangmen's Court", is_major: true, coords: (774_228_450, 536_058_400) },
            FishermansRow::HeartofRites => Entry { local_key: "HeartofRites", display_name: "Heart of Rites", is_major: false, coords: (355_314_220, 468_718_320) },
            FishermansRow::HouseRoloi => Entry { local_key: "HouseRoloi", display_name: "House Roloi", is_major: false, coords: (260_104_180, 773_875_240) },
            FishermansRow::LakeNerites => Entry { local_key: "LakeNerites", display_name: "Lake Nerites", is_major: false, coords: (326_996_620, 542_890_670) },
            FishermansRow::LibertyHill => Entry { local_key: "LibertyHill", display_name: "Liberty Hill", is_major: false, coords: (367_380_800, 357_837_920) },
            FishermansRow::Oceanwatch => Entry { local_key: "Oceanwatch", display_name: "Oceanwatch", is_major: true, coords: (530_769_940, 333_818_300) },
            FishermansRow::PartisanIsland => Entry { local_key: "PartisanIsland", display_name: "Partisan Island", is_major: true, coords: (670_340_400, 201_763_510) },
            FishermansRow::PeriptiLanding => Entry { local_key: "PeriptiLanding", display_name: "Peripti Landing", is_major: true, coords: (294_184_120, 454_027_400) },
            FishermansRow::ProgonosWatch => Entry { local_key: "ProgonosWatch", display_name: "Progonos Watch", is_major: false, coords: (500_260_000, 435_157_400) },
            FishermansRow::TheDireStrings => Entry { local_key: "TheDireStrings", display_name: "The Dire Strings", is_major: false, coords: (842_430_600, 614_127_900) },
            FishermansRow::TheRiteRoad => Entry { local_key: "TheRiteRoad", display_name: "The Rite Road", is_major: false, coords: (450_410_520, 385_076_760) },
            FishermansRow::TheSatyrStone => Entry { local_key: "TheSatyrStone", display_name: "The Satyr Stone", is_major: true, coords: (670_936_050, 643_919_400) },
            FishermansRow::TheThreeSisters => Entry { local_key: "TheThreeSisters", display_name: "The Three Sisters", is_major: true, coords: (684_986_000, 352_805_600) },
            FishermansRow::TorchofDemeter => Entry { local_key: "TorchofDemeter", display_name: "Torch of Demeter", is_major: false, coords: (424_855_770, 681_883_100) },
        }
    }

    fn all() -> (all: Vec<Self>) {
        vec![
            FishermansRow::ALostSot, FishermansRow::Arcadia, FishermansRow::BidentCrossroads,
            FishermansRow::BlackWell, FishermansRow::CatStep, FishermansRow::DankanaPost,
            FishermansRow::Eidolo, FishermansRow::FortEmber, FishermansRow::HangmensCourt,
            FishermansRow::HeartofRites, FishermansRow::HouseRoloi, FishermansRow::LakeNerites,
            FishermansRow::LibertyHill, FishermansRow::Oceanwatch,
            FishermansRow::PartisanIsland, FishermansRow::PeriptiLanding,
            FishermansRow::ProgonosWatch, FishermansRow::TheDireStrings,
            FishermansRow::TheRiteRoad, FishermansRow::TheSatyrStone,
            FishermansRow::TheThreeSisters, FishermansRow::TorchofDemeter,
        ]
    }

    fn from_key(key: &str) -> (found: Option<Self>) {
        reveal(FishermansRow::table);
        if str_eq(key, "ALostSot") {
            Some(FishermansRow::ALostSot)
        } else if str_eq(key, "Arcadia") {
            Some(FishermansRow::Arcadia)
        } else if str_eq(key, "BidentCrossroads") {
            Some(FishermansRow::BidentCrossroads)
        } else if str_eq(key, "BlackWell") {
            Some(FishermansRow::BlackWell)
        } else if str_eq(key, "CatStep") {
            Some(FishermansRow::CatStep)
        } else if str_eq(key, "DankanaPost") {
            Some(FishermansRow::DankanaPost)
        } else if str_eq(key, "Eidolo") {
            Some(FishermansRow::Eidolo)
        } else if str_eq(key, "FortEmber") {
            Some(FishermansRow::FortEmber)
        } else if str_eq(key, "HangmensCourt") {
            Some(FishermansRow::HangmensCourt)
        } else if str_eq(key, "HeartofRites") {
            Some(FishermansRow::HeartofRites)
        } else if str_eq(key, "HouseRoloi") {
            Some(FishermansRow::HouseRoloi)
        } else if str_eq(key, "LakeNerites") {
            Some(FishermansRow::LakeNerites)
        } else if str_eq(key, "LibertyHill") {
            Some(FishermansRow::LibertyHill)
        } else if str_eq(key, "Oceanwatch") {
            Some(FishermansRow::Oceanwatch)
        } else if str_eq(key, "PartisanIsland") {
            Some(FishermansRow::PartisanIsland)
        } else if str_eq(key, "PeriptiLanding") {
            Some(FishermansRow::PeriptiLanding)
        } else if str_eq(key, "ProgonosWatch") {
            Some(FishermansRow::ProgonosWatch)
        } else if str_eq(key, "TheDireStrings") {
            Some(FishermansRow::TheDireStrings)
        } else if str_eq(key, "TheRiteRoad") {
            Some(FishermansRow::TheRiteRoad)
        } else if str_eq(key, "TheSatyrStone") {
            Some(FishermansRow::TheSatyrStone)
        } else if str_eq(key, "TheThreeSisters") {
            Some(FishermansRow::TheThreeSisters)
        } else if str_eq(key, "TorchofDemeter") {
            Some(FishermansRow::TorchofDemeter)
        } else {
            None
        }
    }

    fn on_map(self) -> (place: MapLocation) {
        MapLocation::FishermansRow(self)
    }

    proof fn lemma_entry(l: Self) {
        reveal(FishermansRow::table);
        reveal_with_fuel(pairs_off, 18);
        match l {
            FishermansRow::ALostSot => {
                reveal_strlit("ALostSot");
                reveal_strlit("A Lost Sot");
                lemma_pairs_off("A Lost Sot"@, "ALostSot"@);
            },
            FishermansRow::Arcadia => {
                reveal_strlit("Arcadia");
                lemma_pairs_off("Arcadia"@, "Arcadia"@);
            },
            FishermansRow::BidentCrossroads => {
                reveal_strlit("BidentCrossroads");
                reveal_strlit("Bident Crossroads");
                lemma_pairs_off("Bident Crossroads"@, "BidentCrossroads"@);
            },
            FishermansRow::BlackWell => {
                reveal_strlit("BlackWell");
                reveal_strlit("Black Well");
                lemma_pairs_off("Black Well"@, "BlackWell"@);
            },
            FishermansRow::CatStep => {
                reveal_strlit("CatStep");
                reveal_strlit("Cat Step");
                lemma_pairs_off("Cat Step"@, "CatStep"@);
            },
            FishermansRow::DankanaPost => {
                reveal_strlit("DankanaPost");
                reveal_strlit("Dankana Post");
                lemma_pairs_off("Dankana Post"@, "DankanaPost"@);
            },
            FishermansRow::Eidolo => {
                reveal_strlit("Eidolo");
                lemma_pairs_off("Eidolo"@, "Eidolo"@);
            },
            FishermansRow::FortEmber => {
                reveal_strlit("FortEmber");
                reveal_strlit("Fort Ember");
                lemma_pairs_off("Fort Ember"@, "FortEmber"@);
            },
            FishermansRow::HangmensCourt => {
                reveal_strlit("HangmensCourt");
                reveal_strlit("Hangmen's Court");
                lemma_pairs_off("Hangmen's Court"@, "HangmensCourt"@);
            },
            FishermansRow::HeartofRites => {
                reveal_strlit("HeartofRites");
                reveal_strlit("Heart of Rites");
                lemma_pairs_off("Heart of Rites"@, "HeartofRites"@);
            },
            FishermansRow::HouseRoloi => {
                reveal_strlit("HouseRoloi");
                reveal_strlit("House Roloi");
                lemma_pairs_off("House Roloi"@, "HouseRoloi"@);
            },
            FishermansRow::LakeNerites => {
                reveal_strlit("LakeNerites");
                reveal_strlit("Lake Nerites");
                lemma_pairs_off("Lake Nerites"@, "LakeNerites"@);
            },
            FishermansRow::LibertyHill => {
                reveal_strlit("LibertyHill");
                reveal_strlit("Liberty Hill");
                lemma_pairs_off("Liberty Hill"@, "LibertyHill"@);
            },
            FishermansRow::Oceanwatch => {
                reveal_strlit("Oceanwatch");
                lemma_pairs_off("Oceanwatch"@, "Oceanwatch"@);
            },
            FishermansRow::PartisanIsland => {
                reveal_strlit("PartisanIsland");
                reveal_strlit("Partisan Island");
                lemma_pairs_off("Partisan Island"@, "PartisanIsland"@);
            },
            FishermansRow::PeriptiLanding => {
                reveal_strlit("PeriptiLanding");
                reveal_strlit("Peripti Landing");
                lemma_pairs_off("Peripti Landing"@, "PeriptiLanding"@);
            },
            FishermansRow::ProgonosWatch => {
                reveal_strlit("ProgonosWatch");
                reveal_strlit("Progonos Watch");
                lemma_pairs_off("Progonos Watch"@, "ProgonosWatch"@);
            },
            FishermansRow::TheDireStrings => {
                reveal_strlit("TheDireStrings");
                reveal_strlit("The Dire Strings");
                lemma_pairs_off("The Dire Strings"@, "TheDireStrings"@);
            },
            FishermansRow::TheRiteRoad => {
                reveal_strlit("TheRiteRoad");
                reveal_strlit("The Rite Road");
                lemma_pairs_off("The Rite Road"@, "TheRiteRoad"@);
            },
            FishermansRow::TheSatyrStone => {
                reveal_strlit("TheSatyrStone");
                reveal_strlit("The Satyr Stone");
                lemma_pairs_off("The Satyr Stone"@, "TheSatyrStone"@);
            },
            FishermansRow::TheThreeSisters => {
                reveal_strlit("TheThreeSisters");
                reveal_strlit("The Three Sisters");
                lemma_pairs_off("The Three Sisters"@, "TheThreeSisters"@);
            },
            FishermansRow::TorchofDemeter => {
                reveal_strlit("TorchofDemeter");
                reveal_strlit("Torch of Demeter");
                lemma_pairs_off("Torch of Demeter"@, "TorchofDemeter"@);
            },
        }
    }

    proof fn lemma_keys_distinct(a: Self, b: Self) {
        reveal(FishermansRow::table);
        reveal_strlit("ALostSot");
        reveal_strlit("Arcadia");
        reveal_strlit("BidentCrossroads");
        reveal_strlit("BlackWell");
        reveal_strlit("CatStep");
        reveal_strlit("DankanaPost");
        reveal_strlit("Eidolo");
        reveal_strlit("FortEmber");
        reveal_strlit("HangmensCourt");
        reveal_strlit("HeartofRites");
        reveal_strlit("HouseRoloi");
        reveal_strlit("LakeNerites");
        reveal_strlit("LibertyHill");
        reveal_strlit("Oceanwatch");
        reveal_strlit("PartisanIsland");
        reveal_strlit("PeriptiLanding");
        reveal_strlit("ProgonosWatch");
        reveal_strlit("TheDireStrings");
        reveal_strlit("TheRiteRoad");
        reveal_strlit("TheSatyrStone");
        reveal_strlit("TheThreeSisters");
        reveal_strlit("TorchofDemeter");
        // Two equal keys agree in length and in every character; no two
        // keys of the table do.
        let x = a.table().local_key@;
        let y = b.table().local_key@;
        assert(x.len() == y.len());
        assert(x[0] == y[0]);
        assert(x[1] == y[1]);
        assert(x[2] == y[2]);
        assert(x[3] == y[3]);
        assert(x[4] == y[4]);
        assert(x[5] == y[5]);
        assert(x[6] == y[6]);
        assert(x[7] == y[7]);
        assert(x[8] == y[8]);
        assert(x[9] == y[9]);
        assert(x[10] == y[10]);
        assert(x[11] == y[11]);
        assert(x[12] == y[12]);
        assert(x[13] == y[13]);
        assert(x[14] == y[14]);
        assert(x[15] == y[15]);
        match a {
            FishermansRow::ALostSot => assert(b is ALostSot),
            FishermansRow::Arcadia => assert(b is Arcadia),
            FishermansRow::BidentCrossroads => assert(b is BidentCrossroads),
            FishermansRow::BlackWell => assert(b is BlackWell),
            FishermansRow::CatStep => assert(b is CatStep),
            FishermansRow::DankanaPost => assert(b is DankanaPost),
            FishermansRow::Eidolo => assert(b is Eidolo),
            FishermansRow::FortEmber => assert(b is FortEmber),
            FishermansRow::HangmensCourt => assert(b is HangmensCourt),
            FishermansRow::HeartofRites => assert(b is HeartofRites),
            FishermansRow::HouseRoloi => assert(b is HouseRoloi),
            FishermansRow::LakeNerites => assert(b is LakeNerites),
            FishermansRow::LibertyHill => assert(b is LibertyHill),
            FishermansRow::Oceanwatch => assert(b is Oceanwatch),
            FishermansRow::PartisanIsland => assert(b is PartisanIsland),
            FishermansRow::PeriptiLanding => assert(b is PeriptiLanding),
            FishermansRow::ProgonosWatch => assert(b is ProgonosWatch),
            FishermansRow::TheDireStrings => assert(b is TheDireStrings),
            FishermansRow::TheRiteRoad => assert(b is TheRiteRoad),
            FishermansRow::TheSatyrStone => assert(b is TheSatyrStone),
            FishermansRow::TheThreeSisters => assert(b is TheThreeSisters),
            FishermansRow::TorchofDemeter => assert(b is TorchofDemeter),
        }
    }

    proof fn lemma_all(l: Self) {
        reveal_with_fuel(position, 23);
        reveal_with_fuel(each_first, 23);
        lemma_found(Self::spec_all(), l);
        lemma_no_duplicates(Self::spec_all());
    }

    proof fn lemma_on_map(place: MapLocation) {
        if let MapLocation::FishermansRow(l) = place {
            assert(l.spec_on_map() == place);
        }
    }
}

} // verus!
