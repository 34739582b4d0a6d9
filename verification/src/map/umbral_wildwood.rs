//! The locations of the UmbralWildwood region.

use crate::map::location::Entry;
use crate::map::region::Region;
use crate::map::regional::Regional;
use crate::map::seqs::{each_first, lemma_found, lemma_no_duplicates, position};
use crate::map::MapLocation;
use crate::text::{lemma_pairs_off, pairs_off, str_eq};
use vstd::prelude::*;

verus! {

/// Specific map details for the `UmbralWildwoodHex` tile.
#[derive(Clone, Copy, Debug, PartialEq, Eq)]
pub enum UmbralWildwood {
    /// Adze Crossroads is a minor location
    AdzeCrossroads,
    /// Amethyst is a major location
    Amethyst,
    /// Atropos' Fate is a major location
    AtroposFate,
    /// Clotho's Refuge is a major location
    ClothosRefuge,
    /// Dredgefield is a minor location
    Dredgefield,
    /// Golden Concourse is a minor location
    GoldenConcourse,
    /// GoldenRoot Ranch is a major location
    GoldenRootRanch,
    /// Hermit's Rest is a major location
    HermitsRest,
    /// Lachesis' Tally  is a major location
    LachesisTally,
    /// Leatherback Pathway is a minor location
    LeatherbackPathway,
    /// Sentry is a major location
    Sentry,
    /// Steely Fields is a minor location
    SteelyFields,
    /// Stray is a major location
    Stray,
    /// Terrapin Woods is a minor location
    TerrapinWoods,
    /// The Dredgewood is a minor location
    TheDredgewood,
    /// The Foundry is a major location
    TheFoundry,
    /// The Frontier is a minor location
    TheFrontier,
    /// The Gap is a minor location
    TheGap,
    /// The Strands is a minor location
    TheStrands,
    /// Thunder Row is a minor location
    ThunderRow,
    /// Thunderfoot is a major location
    Thunderfoot,
    /// Vagrant Bastion is a major location
    VagrantBastion,
    /// Wasting Holt is a minor location
    WastingHolt,
    /// Weaver's Trail is a minor location
    WeaversTrail,
}

impl UmbralWildwood {
    /// The table of the region: the catalogue's entry for each location.
    /// Hidden from the verifier until revealed.
    #[verifier::opaque]
    pub open spec fn table(self) -> Entry {
        match self {
            UmbralWildwood::AdzeCrossroads => Entry { local_key: "AdzeCrossroads", display_name: "Adze Crossroads", is_major: false, coords: (357_383_000, 386_527_030) },
            UmbralWildwood::Amethyst => Entry { local_key: "Amethyst", display_name: "Amethyst", is_major: true, coords: (817_850_400, 388_845_240) },
            UmbralWildwood::AtroposFate => Entry { local_key: "AtroposFate", display_name: "Atropos' Fate", is_major: true, coords: (573_003_100, 784_333_600) },
            UmbralWildwood::ClothosRefuge => Entry { local_key: "ClothosRefuge", display_name: "Clotho's Refuge", is_major: true, coords: (613_375_840, 323_983_520) },
            UmbralWildwood::Dredgefield => Entry { local_key: "Dredgefield", display_name: "Dredgefield", is_major: false, coords: (784_004_200, 856_311_740) },
            UmbralWildwood::GoldenConcourse => Entry { local_key: "GoldenConcourse", display_name: "Golden Concourse", is_major: false, coords: (150_958_280, 712_637_960) },
            UmbralWildwood::GoldenRootRanch => Entry { local_key: "GoldenRootRanch", display_name: "GoldenRoot Ranch", is_major: true, coords: (156_710_770, 550_507_600) },
            UmbralWildwood::HermitsRest => Entry { local_key: "HermitsRest", display_name: "Hermit's Rest", is_major: true, coords: (671_225_850, 617_663_400) },
            UmbralWildwood::LachesisTally => Entry { local_key: "LachesisTally", display_name: "Lachesis' Tally ", is_major: true, coords: (840_556_000, 544_750_150) },
            UmbralWildwood::LeatherbackPathway => Entry { local_key: "LeatherbackPathway", display_name: "Leatherback Pathway", is_major: false, coords: (710_999_100, 374_039_260) },
            UmbralWildwood::Sentry => Entry { local_key: "Sentry", display_name: "Sentry", is_major: true, coords: (395_983_000, 825_286_100) },
            UmbralWildwood::SteelyFields => Entry { local_key: "SteelyFields", display_name: "Steely Fields", is_major: false, coords: (167_326_940, 322_954_180) },
            UmbralWildwood::Stray => Entry { local_key: "Stray", display_name: "Stray", is_major: true, coords: (676_725_200, 184_527_800) },
            UmbralWildwood::TerrapinWoods => Entry { local_key: "TerrapinWoods", display_name: "Terrapin Woods", is_major: false, coords: (730_063_260, 490_949_660) },
            UmbralWildwood::TheDredgewood => Entry { local_key: "TheDredgewood", display_name: "The Dredgewood", is_major: false, coords: (784_834_560, 661_724_030) },
            UmbralWildwood::TheFoundry => Entry { local_key: "TheFoundry", display_name: "The Foundry", is_major: true, coords: (275_970_040, 224_659_700) },
            UmbralWildwood::TheFrontier => Entry { local_key: "TheFrontier", display_name: "The Frontier", is_major: false, coords: (611_564_160, 721_657_000) },
            UmbralWildwood::TheGap => Entry { local_key: "TheGap", display_name: "The Gap", is_major: false, coords: (423_717_950, 531_849_200) },
            UmbralWildwood::TheStrands => Entry { local_key: "TheStrands", display_name: "The Strands", is_major: false, coords: (506_980_400, 237_841_740) },
            UmbralWildwood::ThunderRow => Entry { local_key: "ThunderRow", display_name: "Thunder Row", is_major: false, coords: (260_850_730, 663_166_170) },
            UmbralWildwood::Thunderfoot => Entry { local_key: "Thunderfoot", display_name: "Thunderfoot", is_major: true, coords: (345_933_020, 514_681_160) },
            UmbralWildwood::VagrantBastion => Entry { local_key: "VagrantBastion", display_name: "Vagrant Bastion", is_major: true, coords: (507_658_700, 161_603_900) },
            UmbralWildwood::WastingHolt => Entry { local_key: "WastingHolt", display_name: "Wasting Holt", is_major: false, coords: (550_417_400, 940_016_900) },
            UmbralWildwood::WeaversTrail => Entry { local_key: "WeaversTrail", display_name: "Weaver's Trail", is_major: false, coords: (550_068_440, 446_206_840) },
        }
    }
}

impl Regional for UmbralWildwood {
    open spec fn spec_region() -> Region {
        Region::UmbralWildwood
    }

    open spec fn spec_entry(&self) -> Entry {
        self.table()
    }

    open spec fn spec_marked(&self) -> bool {
        false
    }

    open spec fn spec_all() -> Seq<Self> {
        seq![
            UmbralWildwood::AdzeCrossroads, UmbralWildwood::Amethyst,
            UmbralWildwood::AtroposFate, UmbralWildwood::ClothosRefuge,
            UmbralWildwood::Dredgefield, UmbralWildwood::GoldenConcourse,
            UmbralWildwood::GoldenRootRanch, UmbralWildwood::HermitsRest,
            UmbralWildwood::LachesisTally, UmbralWildwood::LeatherbackPathway,
            UmbralWildwood::Sentry, UmbralWildwood::SteelyFields, UmbralWildwood::Stray,
            UmbralWildwood::TerrapinWoods, UmbralWildwood::TheDredgewood,
            UmbralWildwood::TheFoundry, UmbralWildwood::TheFrontier, UmbralWildwood::TheGap,
            UmbralWildwood::TheStrands, UmbralWildwood::ThunderRow, UmbralWildwood::Thunderfoot,
            UmbralWildwood::VagrantBastion, UmbralWildwood::WastingHolt,
            UmbralWildwood::WeaversTrail,
        ]
    }

    open spec fn spec_on_map(self) -> MapLocation {
        MapLocation::UmbralWildwood(self)
    }

    fn region() -> (region: Region) {
        Region::UmbralWildwood
    }

    fn entry(&self) -> (entry: Entry) {
        reveal(UmbralWildwood::table);
        assert(self.spec_entry() == self.table());
        match self {
            UmbralWildwood::AdzeCrossroads => Entry { local_key: "AdzeCrossroads", display_name: "Adze Crossroads", is_major: false, coords: (357_383_000, 386_527_030) },
            UmbralWildwood::Amethyst => Entry { local_key: "Amethyst", display_name: "Amethyst", is_major: true, coords: (817_850_400, 388_845_240) },
            UmbralWildwood::AtroposFate => Entry { local_key: "AtroposFate", display_name: "Atropos' Fate", is_major: true, coords: (573_003_100, 784_333_600) },
            UmbralWildwood::ClothosRefuge => Entry { local_key: "ClothosRefuge", display_name: "Clotho's Refuge", is_major: true, coords: (613_375_840, 323_983_520) },
            UmbralWildwood::Dredgefield => Entry { local_key: "Dredgefield", display_name: "Dredgefield", is_major: false, coords: (784_004_200, 856_311_740) },
            UmbralWildwood::GoldenConcourse => Entry { local_key: "GoldenConcourse", display_name: "Golden Concourse", is_major: false, coords: (150_958_280, 712_637_960) },
            UmbralWildwood::GoldenRootRanch => Entry { local_key: "GoldenRootRanch", display_name: "GoldenRoot Ranch", is_major: true, coords: (156_710_770, 550_507_600) },
            UmbralWildwood::HermitsRest => Entry { local_key: "HermitsRest", display_name: "Hermit's Rest", is_major: true, coords: (671_225_850, 617_663_400) },
            UmbralWildwood::LachesisTally => Entry { local_key: "LachesisTally", display_name: "Lachesis' Tally ", is_major: true, coords: (840_556_000, 544_750_150) },
            UmbralWildwood::LeatherbackPathway => Entry { local_key: "LeatherbackPathway", display_name: "Leatherback Pathway", is_major: false, coords: (710_999_100, 374_039_260) },
            UmbralWildwood::Sentry => Entry { local_key: "Sentry", display_name: "Sentry", is_major: true, coords: (395_983_000, 825_286_100) },
            UmbralWildwood::SteelyFields => Entry { local_key: "SteelyFields", display_name: "Steely Fields", is_major: false, coords: (167_326_940, 322_954_180) },
            UmbralWildwood::Stray => Entry { local_key: "Stray", display_name: "Stray", is_major: true, coords: (676_725_200, 184_527_800) },
            UmbralWildwood::TerrapinWoods => Entry { local_key: "TerrapinWoods", display_name: "Terrapin Woods", is_major: false, coords: (730_063_260, 490_949_660) },
            UmbralWildwood::TheDredgewood => Entry { local_key: "TheDredgewood", display_name: "The Dredgewood", is_major: false, coords: (784_834_560, 661_724_030) },
            UmbralWildwood::TheFoundry => Entry { local_key: "TheFoundry", display_name: "The Foundry", is_major: true, coords: (275_970_040, 224_659_700) },
            UmbralWildwood::TheFrontier => Entry { local_key: "TheFrontier", display_name: "The Frontier", is_major: false, coords: (611_564_160, 721_657_000) },
            UmbralWildwood::TheGap => Entry { local_key: "TheGap", display_name: "The Gap", is_major: false, coords: (423_717_950, 531_849_200) },
            UmbralWildwood::TheStrands => Entry { local_key: "TheStrands", display_name: "The Strands", is_major: false, coords: (506_980_400, 237_841_740) },
            UmbralWildwood::ThunderRow => Entry { local_key: "ThunderRow", display_name: "Thunder Row", is_major: false, coords: (260_850_730, 663_166_170) },
            UmbralWildwood::Thunderfoot => Entry { local_key: "Thunderfoot", display_name: "Thunderfoot", is_major: true, coords: (345_933_020, 514_681_160) },
            UmbralWildwood::VagrantBastion => Entry { local_key: "VagrantBastion", display_name: "Vagrant Bastion", is_major: true, coords: (507_658_700, 161_603_900) },
            UmbralWildwood::WastingHolt => Entry { local_key: "WastingHolt", display_name: "Wasting Holt", is_major: false, coords: (550_417_400, 940_016_900) },
            UmbralWildwood::WeaversTrail => Entry { local_key: "WeaversTrail", display_name: "Weaver's Trail", is_major: false, coords: (550_068_440, 446_206_840) },
        }
    }

    fn all() -> (all: Vec<Self>) {
        vec![
            UmbralWildwood::AdzeCrossroads, UmbralWildwood::Amethyst,
            UmbralWildwood::AtroposFate, UmbralWildwood::ClothosRefuge,
            UmbralWildwood::Dredgefield, UmbralWildwood::GoldenConcourse,
            UmbralWildwood::GoldenRootRanch, UmbralWildwood::HermitsRest,
            UmbralWildwood::LachesisTally, UmbralWildwood::LeatherbackPathway,
            UmbralWildwood::Sentry, UmbralWildwood::SteelyFields, UmbralWildwood::Stray,
            UmbralWildwood::TerrapinWoods, UmbralWildwood::TheDredgewood,
            UmbralWildwood::TheFoundry, UmbralWildwood::TheFrontier, UmbralWildwood::TheGap,
            UmbralWildwood::TheStrands, UmbralWildwood::ThunderRow, UmbralWildwood::Thunderfoot,
            UmbralWildwood::VagrantBastion, UmbralWildwood::WastingHolt,
            UmbralWildwood::WeaversTrail,
        ]
    }

    fn from_key(key: &str) -> (found: Option<Self>) {
        reveal(UmbralWildwood::table);
        if str_eq(key, "AdzeCrossroads") {
            Some(UmbralWildwood::AdzeCrossroads)
        } else if str_eq(key, "Amethyst") {
            Some(UmbralWildwood::Amethyst)
        } else if str_eq(key, "AtroposFate") {
            Some(UmbralWildwood::AtroposFate)
        } else if str_eq(key, "ClothosRefuge") {
            Some(UmbralWildwood::ClothosRefuge)
        } else if str_eq(key, "Dredgefield") {
            Some(UmbralWildwood::Dredgefield)
        } else if str_eq(key, "GoldenConcourse") {
            Some(UmbralWildwood::GoldenConcourse)
        } else if str_eq(key, "GoldenRootRanch") {
            Some(UmbralWildwood::GoldenRootRanch)
        } else if str_eq(key, "HermitsRest") {
            Some(UmbralWildwood::HermitsRest)
        } else if str_eq(key, "LachesisTally") {
            Some(UmbralWildwood::LachesisTally)
        } else if str_eq(key, "LeatherbackPathway") {
            Some(UmbralWildwood::LeatherbackPathway)
        } else if str_eq(key, "Sentry") {
            Some(UmbralWildwood::Sentry)
        } else if str_eq(key, "SteelyFields") {
            Some(UmbralWildwood::SteelyFields)
        } else if str_eq(key, "Stray") {
            Some(UmbralWildwood::Stray)
        } else if str_eq(key, "TerrapinWoods") {
            Some(UmbralWildwood::TerrapinWoods)
        } else if str_eq(key, "TheDredgewood") {
            Some(UmbralWildwood::TheDredgewood)
        } else if str_eq(key, "TheFoundry") {
            Some(UmbralWildwood::TheFoundry)
        } else if str_eq(key, "TheFrontier") {
            Some(UmbralWildwood::TheFrontier)
        } else if str_eq(key, "TheGap") {
            Some(UmbralWildwood::TheGap)
        } else if str_eq(key, "TheStrands") {
            Some(UmbralWildwood::TheStrands)
        } else if str_eq(key, "ThunderRow") {
            Some(UmbralWildwood::ThunderRow)
        } else if str_eq(key, "Thunderfoot") {
            Some(UmbralWildwood::Thunderfoot)
        } else if str_eq(key, "VagrantBastion") {
            Some(UmbralWildwood::VagrantBastion)
        } else if str_eq(key, "WastingHolt") {
            Some(UmbralWildwood::WastingHolt)
        } else if str_eq(key, "WeaversTrail") {
            Some(UmbralWildwood::WeaversTrail)
        } else {
            None
        }
    }

    fn on_map(self) -> (place: MapLocation) {
        MapLocation::UmbralWildwood(self)
    }

    proof fn lemma_entry(l: Self) {
        reveal(UmbralWildwood::table);
        reveal_with_fuel(pairs_off, 20);
        match l {
            UmbralWildwood::AdzeCrossroads => {
                reveal_strlit("AdzeCrossroads");
                reveal_strlit("Adze Crossroads");
                lemma_pairs_off("Adze Crossroads"@, "AdzeCrossroads"@);
            },
            UmbralWildwood::Amethyst => {
                reveal_strlit("Amethyst");
                lemma_pairs_off("Amethyst"@, "Amethyst"@);
            },
            UmbralWildwood::AtroposFate => {
                reveal_strlit("AtroposFate");
                reveal_strlit("Atropos' Fate");
                lemma_pairs_off("Atropos' Fate"@, "AtroposFate"@);
            },
            UmbralWildwood::ClothosRefuge => {
                reveal_strlit("ClothosRefuge");
                reveal_strlit("Clotho's Refuge");
                lemma_pairs_off("Clotho's Refuge"@, "ClothosRefuge"@);
            },
            UmbralWildwood::Dredgefield => {
                reveal_strlit("Dredgefield");
                lemma_pairs_off("Dredgefield"@, "Dredgefield"@);
            },
            UmbralWildwood::GoldenConcourse => {
                reveal_strlit("GoldenConcourse");
                reveal_strlit("Golden Concourse");
                lemma_pairs_off("Golden Concourse"@, "GoldenConcourse"@);
            },
            UmbralWildwood::GoldenRootRanch => {
                reveal_strlit("GoldenRootRanch");
                reveal_strlit("GoldenRoot Ranch");
                lemma_pairs_off("GoldenRoot Ranch"@, "GoldenRootRanch"@);
            },
            UmbralWildwood::HermitsRest => {
                reveal_strlit("HermitsRest");
                reveal_strlit("Hermit's Rest");
                lemma_pairs_off("Hermit's Rest"@, "HermitsRest"@);
            },
            UmbralWildwood::LachesisTally => {
                reveal_strlit("LachesisTally");
                reveal_strlit("Lachesis' Tally ");
                lemma_pairs_off("Lachesis' Tally "@, "LachesisTally"@);
            },
            UmbralWildwood::LeatherbackPathway => {
                reveal_strlit("LeatherbackPathway");
                reveal_strlit("Leatherback Pathway");
                lemma_pairs_off("Leatherback Pathway"@, "LeatherbackPathway"@);
            },
            UmbralWildwood::Sentry => {
                reveal_strlit("Sentry");
                lemma_pairs_off("Sentry"@, "Sentry"@);
            },
            UmbralWildwood::SteelyFields => {
                reveal_strlit("SteelyFields");
                reveal_strlit("Steely Fields");
                lemma_pairs_off("Steely Fields"@, "SteelyFields"@);
            },
            UmbralWildwood::Stray => {
                reveal_strlit("Stray");
                lemma_pairs_off("Stray"@, "Stray"@);
            },
            UmbralWildwood::TerrapinWoods => {
                reveal_strlit("TerrapinWoods");
                reveal_strlit("Terrapin Woods");
                lemma_pairs_off("Terrapin Woods"@, "TerrapinWoods"@);
            },
            UmbralWildwood::TheDredgewood => {
                reveal_strlit("TheDredgewood");
                reveal_strlit("The Dredgewood");
                lemma_pairs_off("The Dredgewood"@, "TheDredgewood"@);
            },
            UmbralWildwood::TheFoundry => {
                reveal_strlit("TheFoundry");
                reveal_strlit("The Foundry");
                lemma_pairs_off("The Foundry"@, "TheFoundry"@);
            },
            UmbralWildwood::TheFrontier => {
                reveal_strlit("TheFrontier");
                reveal_strlit("The Frontier");
                lemma_pairs_off("The Frontier"@, "TheFrontier"@);
            },
            UmbralWildwood::TheGap => {
                reveal_strlit("TheGap");
                reveal_strlit("The Gap");
                lemma_pairs_off("The Gap"@, "TheGap"@);
            },
            UmbralWildwood::TheStrands => {
                reveal_strlit("TheStrands");
                reveal_strlit("The Strands");
                lemma_pairs_off("The Strands"@, "TheStrands"@);
            },
            UmbralWildwood::ThunderRow => {
                reveal_strlit("ThunderRow");
                reveal_strlit("Thunder Row");
                lemma_pairs_off("Thunder Row"@, "ThunderRow"@);
            },
            UmbralWildwood::Thunderfoot => {
                reveal_strlit("Thunderfoot");
                lemma_pairs_off("Thunderfoot"@, "Thunderfoot"@);
            },
            UmbralWildwood::VagrantBastion => {
                reveal_strlit("VagrantBastion");
                reveal_strlit("Vagrant Bastion");
                lemma_pairs_off("Vagrant Bastion"@, "VagrantBastion"@);
            },
            UmbralWildwood::WastingHolt => {
                reveal_strlit("WastingHolt");
                reveal_strlit("Wasting Holt");
                lemma_pairs_off("Wasting Holt"@, "WastingHolt"@);
            },
            UmbralWildwood::WeaversTrail => {
                reveal_strlit("WeaversTrail");
                reveal_strlit("Weaver's Trail");
                lemma_pairs_off("Weaver's Trail"@, "WeaversTrail"@);
            },
        }
    }

    proof fn lemma_keys_distinct(a: Self, b: Self) {
        reveal(UmbralWildwood::table);
        reveal_strlit("AdzeCrossroads");
        reveal_strlit("Amethyst");
        reveal_strlit("AtroposFate");
        reveal_strlit("ClothosRefuge");
        reveal_strlit("Dredgefield");
        reveal_strlit("GoldenConcourse");
        reveal_strlit("GoldenRootRanch");
        reveal_strlit("HermitsRest");
        reveal_strlit("LachesisTally");
        reveal_strlit("LeatherbackPathway");
        reveal_strlit("Sentry");
        reveal_strlit("SteelyFields");
        reveal_strlit("Stray");
        reveal_strlit("TerrapinWoods");
        reveal_strlit("TheDredgewood");
        reveal_strlit("TheFoundry");
        reveal_strlit("TheFrontier");
        reveal_strlit("TheGap");
        reveal_strlit("TheStrands");
        reveal_strlit("ThunderRow");
        reveal_strlit("Thunderfoot");
        reveal_strlit("VagrantBastion");
        reveal_strlit("WastingHolt");
        reveal_strlit("WeaversTrail");
        // Two equal keys agree in length and in every character; no two
        // keys of the table do.
        let x = a.table().local_key@;
        let y = b.table().local_key@;
        assert(x.len() == y.len());
        assert(x[0] == y[0]);
        assert(x[1] == y[1]);
        assert(x[2] == y[2]);
        assert(x[3] == y[3]);
        assert(x[4] == y[4]);
        assert(x[5] == y[5]);
        assert(x[6] == y[6]);
        assert(x[7] == y[7]);
        assert(x[8] == y[8]);
        assert(x[9] == y[9]);
        assert(x[10] == y[10]);
        assert(x[11] == y[11]);
        assert(x[12] == y[12]);
        assert(x[13] == y[13]);
        assert(x[14] == y[14]);
        assert(x[15] == y[15]);
        assert(x[16] == y[16]);
        assert(x[17] == y[17]);
        match a {
            UmbralWildwood::AdzeCrossroads => assert(b is AdzeCrossroads),
            UmbralWildwood::Amethyst => assert(b is Amethyst),
            UmbralWildwood::AtroposFate => assert(b is AtroposFate),
            UmbralWildwood::ClothosRefuge => assert(b is ClothosRefuge),
            UmbralWildwood::Dredgefield => assert(b is Dredgefield),
            UmbralWildwood::GoldenConcourse => assert(b is GoldenConcourse),
            UmbralWildwood::GoldenRootRanch => assert(b is GoldenRootRanch),
            UmbralWildwood::HermitsRest => assert(b is HermitsRest),
            UmbralWildwood::LachesisTally => assert(b is LachesisTally),
            UmbralWildwood::LeatherbackPathway => assert(b is LeatherbackPathway),
            UmbralWildwood::Sentry => assert(b is Sentry),
            UmbralWildwood::SteelyFields => assert(b is SteelyFields),
            UmbralWildwood::Stray => assert(b is Stray),
            UmbralWildwood::TerrapinWoods => assert(b is TerrapinWoods),
            UmbralWildwood::TheDredgewood => assert(b is TheDredgewood),
            UmbralWildwood::TheFoundry => assert(b is TheFoundry),
            UmbralWildwood::TheFrontier => assert(b is TheFrontier),
            UmbralWildwood::TheGap => assert(b is TheGap),
            UmbralWildwood::TheStrands => assert(b is TheStrands),
            UmbralWildwood::ThunderRow => assert(b is ThunderRow),
            UmbralWildwood::Thunderfoot => assert(b is Thunderfoot),
            UmbralWildwood::VagrantBastion => assert(b is VagrantBastion),
            UmbralWildwood::WastingHolt => assert(b is WastingHolt),
            UmbralWildwood::WeaversTrail => assert(b is WeaversTrail),
        }
    }

    proof fn lemma_all(l: Self) {
        reveal_with_fuel(position, 25);
        reveal_with_fuel(each_first, 25);
        lemma_found(Self::spec_all(), l);
        lemma_no_duplicates(Self::spec_all());
    }

    proof fn lemma_on_map(place: MapLocation) {
        if let MapLocation::UmbralWildwood(l) = place {
            assert(l.spec_on_map() == place);
        }
    }
}

} // verus!
