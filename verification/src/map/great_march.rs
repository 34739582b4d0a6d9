//! The locations of the GreatMarch region.

use crate::map::location::Entry;
use crate::map::region::Region;
use crate::map::regional::Regional;
use crate::map::seqs::{each_first, lemma_found, lemma_no_duplicates, position};
use crate::map::MapLocation;
use crate::text::{lemma_pairs_off, lemma_pairs_off_marked, pairs_off, pairs_off_marked, str_eq};
use vstd::prelude::*;

verus! {

/// Specific map details for the `GreatMarchHex` tile.
#[derive(Clone, Copy, Debug, PartialEq, Eq)]
pub enum GreatMarch {
    /// Camp Senti is a major location
    CampSenti,
    /// Dalton Meadow is a minor location
    DaltonMeadow,
    /// Dendr?? Field is a major location
    DendrField,
    /// Eristown is a minor location
    Eristown,
    /// Fateless Grove is a minor location
    FatelessGrove,
    /// Fengari is a minor location
    Fengari,
    /// Halting Valley is a minor location
    HaltingValley,
    /// Jack Field is a minor location
    JackField,
    /// Jackboot Creek is a minor location
    JackbootCreek,
    /// Legacy Pasture is a minor location
    LegacyPasture,
    /// Leto is a major location
    Leto,
    /// Lionsfort is a major location
    Lionsfort,
    /// Milowood is a minor location
    Milowood,
    /// Mors Range is a minor location
    MorsRange,
    /// Myrmidon's Stay is a major location
    MyrmidonsStay,
    /// Remnant Acreage is a minor location
    RemnantAcreage,
    /// Remnant Villa is a major location
    RemnantVilla,
    /// Schala Estate is a minor location
    SchalaEstate,
    /// Scrabbling Motte is a minor location
    ScrabblingMotte,
    /// Serpent Charm is a minor location
    SerpentCharm,
    /// Sitaria is a major location
    Sitaria,
    /// The Black Wing is a minor location
    TheBlackWing,
    /// The Great March is a minor location
    TheGreatMarch,
    /// The Midmarch is a minor location
    TheMidmarch,
    /// The River Senti is a minor location
    TheRiverSenti,
    /// The Spice Road is a minor location
    TheSpiceRoad,
    /// The Swan is a major location
    TheSwan,
    /// The White Wing is a minor location
    TheWhiteWing,
    /// Violet Fields is a minor location
    VioletFields,
    /// Violethome is a major location
    Violethome,
    /// Zealous Approach is a minor location
    ZealousApproach,
}

impl GreatMarch {
    /// The table of the region: the catalogue's entry for each location.
    /// Hidden from the verifier until revealed.
    #[verifier::opaque]
    pub open spec fn table(self) -> Entry {
        match self {
            GreatMarch::CampSenti => Entry { local_key: "CampSenti", display_name: "Camp Senti", is_major: true, coords: (374_557_050, 362_185_000) },
            GreatMarch::DaltonMeadow => Entry { local_key: "DaltonMeadow", display_name: "Dalton Meadow", is_major: false, coords: (99_307_860, 640_039_700) },
            GreatMarch::DendrField => Entry { local_key: "Dendr??Field", display_name: "Dendr?? Field", is_major: true, coords: (771_240_000, 461_525_950) },
            GreatMarch::Eristown => Entry { local_key: "Eristown", display_name: "Eristown", is_major: false, coords: (781_143_840, 872_791_400) },
            GreatMarch::FatelessGrove => Entry { local_key: "FatelessGrove", display_name: "Fateless Grove", is_major: false, coords: (453_552_040, 90_748_146) },
            GreatMarch::Fengari => Entry { local_key: "Fengari", display_name: "Fengari", is_major: false, coords: (609_905_540, 749_224_250) },
            GreatMarch::HaltingValley => Entry { local_key: "HaltingValley", display_name: "Halting Valley", is_major: false, coords: (788_521_230, 346_285_200) },
            GreatMarch::JackField => Entry { local_key: "JackField", display_name: "Jack Field", is_major: false, coords: (416_580_770, 942_944_050) },
            GreatMarch::JackbootCreek => Entry { local_key: "JackbootCreek", display_name: "Jackboot Creek", is_major: false, coords: (249_490_800, 643_457_530) },
            GreatMarch::LegacyPasture => Entry { local_key: "LegacyPasture", display_name: "Legacy Pasture", is_major: false, coords: (775_861_400, 778_066_400) },
            GreatMarch::Leto => Entry { local_key: "Leto", display_name: "Leto", is_major: true, coords: (245_984_610, 504_084_800) },
            GreatMarch::Lionsfort => Entry { local_key: "Lionsfort", display_name: "Lionsfort", is_major: true, coords: (695_684_430, 122_160_680) },
            GreatMarch::Milowood => Entry { local_key: "Milowood", display_name: "Milowood", is_major: false, coords: (773_953_900, 696_987_600) },
            GreatMarch::MorsRange => Entry { local_key: "MorsRange", display_name: "Mors Range", is_major: false, coords: (698_760_030, 722_932_760) },
            GreatMarch::MyrmidonsStay => Entry { local_key: "MyrmidonsStay", display_name: "Myrmidon's Stay", is_major: true, coords: (605_882_300, 229_735_430) },
            GreatMarch::RemnantAcreage => Entry { local_key: "RemnantAcreage", display_name: "Remnant Acreage", is_major: false, coords: (523_387_970, 515_668_330) },
            GreatMarch::RemnantVilla => Entry { local_key: "RemnantVilla", display_name: "Remnant Villa", is_major: true, coords: (551_106_800, 439_471_070) },
            GreatMarch::SchalaEstate => Entry { local_key: "SchalaEstate", display_name: "Schala Estate", is_major: false, coords: (335_480_360, 635_879_000) },
            GreatMarch::ScrabblingMotte => Entry { local_key: "ScrabblingMotte", display_name: "Scrabbling Motte", is_major: false, coords: (195_859_630, 178_106_620) },
            GreatMarch::SerpentCharm => Entry { local_key: "SerpentCharm", display_name: "Serpent Charm", is_major: false, coords: (280_964_820, 836_178_000) },
            GreatMarch::Sitaria => Entry { local_key: "Sitaria", display_name: "Sitaria", is_major: true, coords: (537_554_000, 617_894_700) },
            GreatMarch::TheBlackWing => Entry { local_key: "TheBlackWing", display_name: "The Black Wing", is_major: false, coords: (487_194_030, 735_347_600) },
            GreatMarch::TheGreatMarch => Entry { local_key: "TheGreatMarch", display_name: "The Great March", is_major: false, coords: (650_065_100, 732_265_800) },
            GreatMarch::TheMidmarch => Entry { local_key: "TheMidmarch", display_name: "The Midmarch", is_major: false, coords: (292_007_150, 25_634_220) },
            GreatMarch::TheRiverSenti => Entry { local_key: "TheRiverSenti", display_name: "The River Senti", is_major: false, coords: (305_576_150, 378_448_580) },
            GreatMarch::TheSpiceRoad => Entry { local_key: "TheSpiceRoad", display_name: "The Spice Road", is_major: false, coords: (375_012_280, 437_794_800) },
            GreatMarch::TheSwan => Entry { local_key: "TheSwan", display_name: "The Swan", is_major: true, coords: (409_796_240, 873_463_500) },
            GreatMarch::TheWhiteWing => Entry { local_key: "TheWhiteWing", display_name: "The White Wing", is_major: false, coords: (553_707_400, 838_399_230) },
            GreatMarch::VioletFields => Entry { local_key: "VioletFields", display_name: "Violet Fields", is_major: false, coords: (134_296_980, 328_584_820) },
            GreatMarch::Violethome => Entry { local_key: "Violethome", display_name: "Violethome", is_major: true, coords: (313_002_740, 192_313_630) },
            GreatMarch::ZealousApproach => Entry { local_key: "ZealousApproach", display_name: "Zealous Approach", is_major: false, coords: (434_158_600, 609_833_500) },
        }
    }
}

impl Regional for GreatMarch {
    open spec fn spec_region() -> Region {
        Region::GreatMarch
    }

    open spec fn spec_entry(&self) -> Entry {
        self.table()
    }

    open spec fn spec_marked(&self) -> bool {
        *self == GreatMarch::DendrField
    }

    open spec fn spec_all() -> Seq<Self> {
        seq![
            GreatMarch::CampSenti, GreatMarch::DaltonMeadow, GreatMarch::DendrField,
            GreatMarch::Eristown, GreatMarch::FatelessGrove, GreatMarch::Fengari,
            GreatMarch::HaltingValley, GreatMarch::JackField, GreatMarch::JackbootCreek,
            GreatMarch::LegacyPasture, GreatMarch::Leto, GreatMarch::Lionsfort,
            GreatMarch::Milowood, GreatMarch::MorsRange, GreatMarch::MyrmidonsStay,
            GreatMarch::RemnantAcreage, GreatMarch::RemnantVilla, GreatMarch::SchalaEstate,
            GreatMarch::ScrabblingMotte, GreatMarch::SerpentCharm, GreatMarch::Sitaria,
            GreatMarch::TheBlackWing, GreatMarch::TheGreatMarch, GreatMarch::TheMidmarch,
            GreatMarch::TheRiverSenti, GreatMarch::TheSpiceRoad, GreatMarch::TheSwan,
            GreatMarch::TheWhiteWing, GreatMarch::VioletFields, GreatMarch::Violethome,
            GreatMarch::ZealousApproach,
        ]
    }

    open spec fn spec_on_map(self) -> MapLocation {
        MapLocation::GreatMarch(self)
    }

    fn region() -> (region: Region) {
        Region::GreatMarch
    }

    fn entry(&self) -> (entry: Entry) {
        reveal(GreatMarch::table);
        assert(self.spec_entry() == self.table());
        match self {
            GreatMarch::CampSenti => Entry { local_key: "CampSenti", display_name: "Camp Senti", is_major: true, coords: (374_557_050, 362_185_000) },
            GreatMarch::DaltonMeadow => Entry { local_key: "DaltonMeadow", display_name: "Dalton Meadow", is_major: false, coords: (99_307_860, 640_039_700) },
            GreatMarch::DendrField => Entry { local_key: "Dendr??Field", display_name: "Dendr?? Field", is_major: true, coords: (771_240_000, 461_525_950) },
            GreatMarch::Eristown => Entry { local_key: "Eristown", display_name: "Eristown", is_major: false, coords: (781_143_840, 872_791_400) },
            GreatMarch::FatelessGrove => Entry { local_key: "FatelessGrove", display_name: "Fateless Grove", is_major: false, coords: (453_552_040, 90_748_146) },
            GreatMarch::Fengari => Entry { local_key: "Fengari", display_name: "Fengari", is_major: false, coords: (609_905_540, 749_224_250) },
            GreatMarch::HaltingValley => Entry { local_key: "HaltingValley", display_name: "Halting Valley", is_major: false, coords: (788_521_230, 346_285_200) },
            GreatMarch::JackField => Entry { local_key: "JackField", display_name: "Jack Field", is_major: false, coords: (416_580_770, 942_944_050) },
            GreatMarch::JackbootCreek => Entry { local_key: "JackbootCreek", display_name: "Jackboot Creek", is_major: false, coords: (249_490_800, 643_457_530) },
            GreatMarch::LegacyPasture => Entry { local_key: "LegacyPasture", display_name: "Legacy Pasture", is_major: false, coords: (775_861_400, 778_066_400) },
            GreatMarch::Leto => Entry { local_key: "Leto", display_name: "Leto", is_major: true, coords: (245_984_610, 504_084_800) },
            GreatMarch::Lionsfort => Entry { local_key: "Lionsfort", display_name: "Lionsfort", is_major: true, coords: (695_684_430, 122_160_680) },
            GreatMarch::Milowood => Entry { local_key: "Milowood", display_name: "Milowood", is_major: false, coords: (773_953_900, 696_987_600) },
            GreatMarch::MorsRange => Entry { local_key: "MorsRange", display_name: "Mors Range", is_major: false, coords: (698_760_030, 722_932_760) },
            GreatMarch::MyrmidonsStay => Entry { local_key: "MyrmidonsStay", display_name: "Myrmidon's Stay", is_major: true, coords: (605_882_300, 229_735_430) },
            GreatMarch::RemnantAcreage => Entry { local_key: "RemnantAcreage", display_name: "Remnant Acreage", is_major: false, coords: (523_387_970, 515_668_330) },
            GreatMarch::RemnantVilla => Entry { local_key: "RemnantVilla", display_name: "Remnant Villa", is_major: true, coords: (551_106_800, 439_471_070) },
            GreatMarch::SchalaEstate => Entry { local_key: "SchalaEstate", display_name: "Schala Estate", is_major: false, coords: (335_480_360, 635_879_000) },
            GreatMarch::ScrabblingMotte => Entry { local_key: "ScrabblingMotte", display_name: "Scrabbling Motte", is_major: false, coords: (195_859_630, 178_106_620) },
            GreatMarch::SerpentCharm => Entry { local_key: "SerpentCharm", display_name: "Serpent Charm", is_major: false, coords: (280_964_820, 836_178_000) },
            GreatMarch::Sitaria => Entry { local_key: "Sitaria", display_name: "Sitaria", is_major: true, coords: (537_554_000, 617_894_700) },
            GreatMarch::TheBlackWing => Entry { local_key: "TheBlackWing", display_name: "The Black Wing", is_major: false, coords: (487_194_030, 735_347_600) },
            GreatMarch::TheGreatMarch => Entry { local_key: "TheGreatMarch", display_name: "The Great March", is_major: false, coords: (650_065_100, 732_265_800) },
            GreatMarch::TheMidmarch => Entry { local_key: "TheMidmarch", display_name: "The Midmarch", is_major: false, coords: (292_007_150, 25_634_220) },
            GreatMarch::TheRiverSenti => Entry { local_key: "TheRiverSenti", display_name: "The River Senti", is_major: false, coords: (305_576_150, 378_448_580) },
            GreatMarch::TheSpiceRoad => Entry { local_key: "TheSpiceRoad", display_name: "The Spice Road", is_major: false, coords: (375_012_280, 437_794_800) },
            GreatMarch::TheSwan => Entry { local_key: "TheSwan", display_name: "The Swan", is_major: true, coords: (409_796_240, 873_463_500) },
            GreatMarch::TheWhiteWing => Entry { local_key: "TheWhiteWing", display_name: "The White Wing", is_major: false, coords: (553_707_400, 838_399_230) },
            GreatMarch::VioletFields => Entry { local_key: "VioletFields", display_name: "Violet Fields", is_major: false, coords: (134_296_980, 328_584_820) },
            GreatMarch::Violethome => Entry { local_key: "Violethome", display_name: "Violethome", is_major: true, coords: (313_002_740, 192_313_630) },
            GreatMarch::ZealousApproach => Entry { local_key: "ZealousApproach", display_name: "Zealous Approach", is_major: false, coords: (434_158_600, 609_833_500) },
        }
    }

    fn all() -> (all: Vec<Self>) {
        vec![
            GreatMarch::CampSenti, GreatMarch::DaltonMeadow, GreatMarch::DendrField,
            GreatMarch::Eristown, GreatMarch::FatelessGrove, GreatMarch::Fengari,
            GreatMarch::HaltingValley, GreatMarch::JackField, GreatMarch::JackbootCreek,
            GreatMarch::LegacyPasture, GreatMarch::Leto, GreatMarch::Lionsfort,
            GreatMarch::Milowood, GreatMarch::MorsRange, GreatMarch::MyrmidonsStay,
            GreatMarch::RemnantAcreage, GreatMarch::RemnantVilla, GreatMarch::SchalaEstate,
            GreatMarch::ScrabblingMotte, GreatMarch::SerpentCharm, GreatMarch::Sitaria,
            GreatMarch::TheBlackWing, GreatMarch::TheGreatMarch, GreatMarch::TheMidmarch,
            GreatMarch::TheRiverSenti, GreatMarch::TheSpiceRoad, GreatMarch::TheSwan,
            GreatMarch::TheWhiteWing, GreatMarch::VioletFields, GreatMarch::Violethome,
            GreatMarch::ZealousApproach,
        ]
    }

    fn from_key(key: &str) -> (found: Option<Self>) {
        reveal(GreatMarch::table);
        if str_eq(key, "CampSenti") {
            Some(GreatMarch::CampSenti)
        } else if str_eq(key, "DaltonMeadow") {
            Some(GreatMarch::DaltonMeadow)
        } else if str_eq(key, "Dendr??Field") {
            Some(GreatMarch::DendrField)
        } else if str_eq(key, "Eristown") {
            Some(GreatMarch::Eristown)
        } else if str_eq(key, "FatelessGrove") {
            Some(GreatMarch::FatelessGrove)
        } else if str_eq(key, "Fengari") {
            Some(GreatMarch::Fengari)
        } else if str_eq(key, "HaltingValley") {
            Some(GreatMarch::HaltingValley)
        } else if str_eq(key, "JackField") {
            Some(GreatMarch::JackField)
        } else if str_eq(key, "JackbootCreek") {
            Some(GreatMarch::JackbootCreek)
        } else if str_eq(key, "LegacyPasture") {
            Some(GreatMarch::LegacyPasture)
        } else if str_eq(key, "Leto") {
            Some(GreatMarch::Leto)
        } else if str_eq(key, "Lionsfort") {
            Some(GreatMarch::Lionsfort)
        } else if str_eq(key, "Milowood") {
            Some(GreatMarch::Milowood)
        } else if str_eq(key, "MorsRange") {
            Some(GreatMarch::MorsRange)
        } else if str_eq(key, "MyrmidonsStay") {
            Some(GreatMarch::MyrmidonsStay)
        } else if str_eq(key, "RemnantAcreage") {
            Some(GreatMarch::RemnantAcreage)
        } else if str_eq(key, "RemnantVilla") {
            Some(GreatMarch::RemnantVilla)
        } else if str_eq(key, "SchalaEstate") {
            Some(GreatMarch::SchalaEstate)
        } else if str_eq(key, "ScrabblingMotte") {
            Some(GreatMarch::ScrabblingMotte)
        } else if str_eq(key, "SerpentCharm") {
            Some(GreatMarch::SerpentCharm)
        } else if str_eq(key, "Sitaria") {
            Some(GreatMarch::Sitaria)
        } else if str_eq(key, "TheBlackWing") {
            Some(GreatMarch::TheBlackWing)
        } else if str_eq(key, "TheGreatMarch") {
            Some(GreatMarch::TheGreatMarch)
        } else if str_eq(key, "TheMidmarch") {
            Some(GreatMarch::TheMidmarch)
        } else if str_eq(key, "TheRiverSenti") {
            Some(GreatMarch::TheRiverSenti)
        } else if str_eq(key, "TheSpiceRoad") {
            Some(GreatMarch::TheSpiceRoad)
        } else if str_eq(key, "TheSwan") {
            Some(GreatMarch::TheSwan)
        } else if str_eq(key, "TheWhiteWing") {
            Some(GreatMarch::TheWhiteWing)
        } else if str_eq(key, "VioletFields") {
            Some(GreatMarch::VioletFields)
        } else if str_eq(key, "Violethome") {
            Some(GreatMarch::Violethome)
        } else if str_eq(key, "ZealousApproach") {
            Some(GreatMarch::ZealousApproach)
        } else {
            None
        }
    }

    fn on_map(self) -> (place: MapLocation) {
        MapLocation::GreatMarch(self)
    }

    proof fn lemma_entry(l: Self) {
        reveal(GreatMarch::table);
        reveal_with_fuel(pairs_off, 17);
        reveal_with_fuel(pairs_off_marked, 26);
        match l {
            GreatMarch::CampSenti => {
                reveal_strlit("CampSenti");
                reveal_strlit("Camp Senti");
                lemma_pairs_off("Camp Senti"@, "CampSenti"@);
            },
            GreatMarch::DaltonMeadow => {
                reveal_strlit("DaltonMeadow");
                reveal_strlit("Dalton Meadow");
                lemma_pairs_off("Dalton Meadow"@, "DaltonMeadow"@);
            },
            GreatMarch::DendrField => {
                reveal_strlit("Dendr??Field");
                reveal_strlit("Dendr?? Field");
                lemma_pairs_off_marked("Dendr?? Field"@, "Dendr??Field"@);
                assert("Dendr??Field"@[5] == '?');
            },
            GreatMarch::Eristown => {
                reveal_strlit("Eristown");
                lemma_pairs_off("Eristown"@, "Eristown"@);
            },
            GreatMarch::FatelessGrove => {
                reveal_strlit("FatelessGrove");
                reveal_strlit("Fateless Grove");
                lemma_pairs_off("Fateless Grove"@, "FatelessGrove"@);
            },
            GreatMarch::Fengari => {
                reveal_strlit("Fengari");
                lemma_pairs_off("Fengari"@, "Fengari"@);
            },
            GreatMarch::HaltingValley => {
                reveal_strlit("HaltingValley");
                reveal_strlit("Halting Valley");
                lemma_pairs_off("Halting Valley"@, "HaltingValley"@);
            },
            GreatMarch::JackField => {
                reveal_strlit("JackField");
                reveal_strlit("Jack Field");
                lemma_pairs_off("Jack Field"@, "JackField"@);
            },
            GreatMarch::JackbootCreek => {
                reveal_strlit("JackbootCreek");
                reveal_strlit("Jackboot Creek");
                lemma_pairs_off("Jackboot Creek"@, "JackbootCreek"@);
            },
            GreatMarch::LegacyPasture => {
                reveal_strlit("LegacyPasture");
                reveal_strlit("Legacy Pasture");
                lemma_pairs_off("Legacy Pasture"@, "LegacyPasture"@);
            },
            GreatMarch::Leto => {
                reveal_strlit("Leto");
                lemma_pairs_off("Leto"@, "Leto"@);
            },
            GreatMarch::Lionsfort => {
                reveal_strlit("Lionsfort");
                lemma_pairs_off("Lionsfort"@, "Lionsfort"@);
            },
            GreatMarch::Milowood => {
                reveal_strlit("Milowood");
                lemma_pairs_off("Milowood"@, "Milowood"@);
            },
            GreatMarch::MorsRange => {
                reveal_strlit("MorsRange");
                reveal_strlit("Mors Range");
                lemma_pairs_off("Mors Range"@, "MorsRange"@);
            },
            GreatMarch::MyrmidonsStay => {
                reveal_strlit("MyrmidonsStay");
                reveal_strlit("Myrmidon's Stay");
                lemma_pairs_off("Myrmidon's Stay"@, "MyrmidonsStay"@);
            },
            GreatMarch::RemnantAcreage => {
                reveal_strlit("RemnantAcreage");
                reveal_strlit("Remnant Acreage");
                lemma_pairs_off("Remnant Acreage"@, "RemnantAcreage"@);
            },
            GreatMarch::RemnantVilla => {
                reveal_strlit("RemnantVilla");
                reveal_strlit("Remnant Villa");
                lemma_pairs_off("Remnant Villa"@, "RemnantVilla"@);
            },
            GreatMarch::SchalaEstate => {
                reveal_strlit("SchalaEstate");
                reveal_strlit("Schala Estate");
                lemma_pairs_off("Schala Estate"@, "SchalaEstate"@);
            },
            GreatMarch::ScrabblingMotte => {
                reveal_strlit("ScrabblingMotte");
                reveal_strlit("Scrabbling Motte");
                lemma_pairs_off("Scrabbling Motte"@, "ScrabblingMotte"@);
            },
            GreatMarch::SerpentCharm => {
                reveal_strlit("SerpentCharm");
                reveal_strlit("Serpent Charm");
                lemma_pairs_off("Serpent Charm"@, "SerpentCharm"@);
            },
            GreatMarch::Sitaria => {
                reveal_strlit("Sitaria");
                lemma_pairs_off("Sitaria"@, "Sitaria"@);
            },
            GreatMarch::TheBlackWing => {
                reveal_strlit("TheBlackWing");
                reveal_strlit("The Black Wing");
                lemma_pairs_off("The Black Wing"@, "TheBlackWing"@);
            },
            GreatMarch::TheGreatMarch => {
                reveal_strlit("TheGreatMarch");
                reveal_strlit("The Great March");
                lemma_pairs_off("The Great March"@, "TheGreatMarch"@);
            },
            GreatMarch::TheMidmarch => {
                reveal_strlit("TheMidmarch");
                reveal_strlit("The Midmarch");
                lemma_pairs_off("The Midmarch"@, "TheMidmarch"@);
            },
            GreatMarch::TheRiverSenti => {
                reveal_strlit("TheRiverSenti");
                reveal_strlit("The River Senti");
                lemma_pairs_off("The River Senti"@, "TheRiverSenti"@);
            },
            GreatMarch::TheSpiceRoad => {
                reveal_strlit("TheSpiceRoad");
                reveal_strlit("The Spice Road");
                lemma_pairs_off("The Spice Road"@, "TheSpiceRoad"@);
            },
            GreatMarch::TheSwan => {
                reveal_strlit("TheSwan");
                reveal_strlit("The Swan");
                lemma_pairs_off("The Swan"@, "TheSwan"@);
            },
            GreatMarch::TheWhiteWing => {
                reveal_strlit("TheWhiteWing");
                reveal_strlit("The White Wing");
                lemma_pairs_off("The White Wing"@, "TheWhiteWing"@);
            },
            GreatMarch::VioletFields => {
                reveal_strlit("VioletFields");
                reveal_strlit("Violet Fields");
                lemma_pairs_off("Violet Fields"@, "VioletFields"@);
            },
            GreatMarch::Violethome => {
                reveal_strlit("Violethome");
                lemma_pairs_off("Violethome"@, "Violethome"@);
            },
            GreatMarch::ZealousApproach => {
                reveal_strlit("ZealousApproach");
                reveal_strlit("Zealous Approach");
                lemma_pairs_off("Zealous Approach"@, "ZealousApproach"@);
            },
        }
    }

    proof fn lemma_keys_distinct(a: Self, b: Self) {
        reveal(GreatMarch::table);
        reveal_strlit("CampSenti");
        reveal_strlit("DaltonMeadow");
        reveal_strlit("Dendr??Field");
        reveal_strlit("Eristown");
        reveal_strlit("FatelessGrove");
        reveal_strlit("Fengari");
        reveal_strlit("HaltingValley");
        reveal_strlit("JackField");
        reveal_strlit("JackbootCreek");
        reveal_strlit("LegacyPasture");
        reveal_strlit("Leto");
        reveal_strlit("Lionsfort");
        reveal_strlit("Milowood");
        reveal_strlit("MorsRange");
        reveal_strlit("MyrmidonsStay");
        reveal_strlit("RemnantAcreage");
        reveal_strlit("RemnantVilla");
        reveal_strlit("SchalaEstate");
        reveal_strlit("ScrabblingMotte");
        reveal_strlit("SerpentCharm");
        reveal_strlit("Sitaria");
        reveal_strlit("TheBlackWing");
        reveal_strlit("TheGreatMarch");
        reveal_strlit("TheMidmarch");
        reveal_strlit("TheRiverSenti");
        reveal_strlit("TheSpiceRoad");
        reveal_strlit("TheSwan");
        reveal_strlit("TheWhiteWing");
        reveal_strlit("VioletFields");
        reveal_strlit("Violethome");
        reveal_strlit("ZealousApproach");
        // Two equal keys agree in length and in every character; no two
        // keys of the table do.
        let x = a.table().local_key@;
        let y = b.table().local_key@;
        assert(x.len() == y.len());
        assert(x[0] == y[0]);
        assert(x[1] == y[1]);
        assert(x[2] == y[2]);
        assert(x[3] == y[3]);
        assert(x[4] == y[4]);
        assert(x[5] == y[5]);
        assert(x[6] == y[6]);
        assert(x[7] == y[7]);
        assert(x[8] == y[8]);
        assert(x[9] == y[9]);
        assert(x[10] == y[10]);
        assert(x[11] == y[11]);
        assert(x[12] == y[12]);
        assert(x[13] == y[13]);
        assert(x[14] == y[14]);
        match a {
            GreatMarch::CampSenti => assert(b is CampSenti),
            GreatMarch::DaltonMeadow => assert(b is DaltonMeadow),
            GreatMarch::DendrField => assert(b is DendrField),
            GreatMarch::Eristown => assert(b is Eristown),
            GreatMarch::FatelessGrove => assert(b is FatelessGrove),
            GreatMarch::Fengari => assert(b is Fengari),
            GreatMarch::HaltingValley => assert(b is HaltingValley),
            GreatMarch::JackField => assert(b is JackField),
            GreatMarch::JackbootCreek => assert(b is JackbootCreek),
            GreatMarch::LegacyPasture => assert(b is LegacyPasture),
            GreatMarch::Leto => assert(b is Leto),
            GreatMarch::Lionsfort => assert(b is Lionsfort),
            GreatMarch::Milowood => assert(b is Milowood),
            GreatMarch::MorsRange => assert(b is MorsRange),
            GreatMarch::MyrmidonsStay => assert(b is MyrmidonsStay),
            GreatMarch::RemnantAcreage => assert(b is RemnantAcreage),
            GreatMarch::RemnantVilla => assert(b is RemnantVilla),
            GreatMarch::SchalaEstate => assert(b is SchalaEstate),
            GreatMarch::ScrabblingMotte => assert(b is ScrabblingMotte),
            GreatMarch::SerpentCharm => assert(b is SerpentCharm),
            GreatMarch::Sitaria => assert(b is Sitaria),
            GreatMarch::TheBlackWing => assert(b is TheBlackWing),
            GreatMarch::TheGreatMarch => assert(b is TheGreatMarch),
            GreatMarch::TheMidmarch => assert(b is TheMidmarch),
            GreatMarch::TheRiverSenti => assert(b is TheRiverSenti),
            GreatMarch::TheSpiceRoad => assert(b is TheSpiceRoad),
            GreatMarch::TheSwan => assert(b is TheSwan),
            GreatMarch::TheWhiteWing => assert(b is TheWhiteWing),
            GreatMarch::VioletFields => assert(b is VioletFields),
            GreatMarch::Violethome => assert(b is Violethome),
            GreatMarch::ZealousApproach => assert(b is ZealousApproach),
        }
    }

    proof fn lemma_all(l: Self) {
        reveal_with_fuel(position, 32);
        reveal_with_fuel(each_first, 32);
        lemma_found(Self::spec_all(), l);
        lemma_no_duplicates(Self::spec_all());
    }

    proof fn lemma_on_map(place: MapLocation) {
        if let MapLocation::GreatMarch(l) = place {
            assert(l.spec_on_map() == place);
        }
    }
}

} // verus!
