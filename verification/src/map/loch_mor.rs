//! The locations of the LochMor region.

use crate::map::location::Entry;
use crate::map::region::Region;
use crate::map::regional::Regional;
use crate::map::seqs::{each_first, lemma_found, lemma_no_duplicates, position};
use crate::map::MapLocation;
use crate::text::{lemma_pairs_off, pairs_off, str_eq};
use vstd::prelude::*;

verus! {

/// Specific map details for the `LochMorHex` tile.
#[derive(Clone, Copy, Debug, PartialEq, Eq)]
pub enum LochMor {
    /// Bastard's Blade is a minor location
    BastardsBlade,
    /// Chattering Prairie is a minor location
    ChatteringPrairie,
    /// Escape is a minor location
    Escape,
    /// Fallen Fields is a minor location
    FallenFields,
    /// Feirmor is a major location
    Feirmor,
    /// Lake Severspring is a minor location
    LakeSeverspring,
    /// Loch Mor is a minor location
    LochMor,
    /// Market Road is a major location
    MarketRoad,
    /// Mercy's Wish is a major location
    MercysWish,
    /// Missing Bones is a minor location
    MissingBones,
    /// Moon's Copse is a major location
    MoonsCopse,
    /// Ousterdown is a minor location
    Ousterdown,
    /// Pockfields is a minor location
    Pockfields,
    /// Rip is a minor location
    Rip,
    /// Tear is a minor location
    Tear,
    /// The Founding Fields is a minor location
    TheFoundingFields,
    /// The Glean is a minor location
    TheGlean,
    /// The Reaping Road is a minor location
    TheReapingRoad,
    /// The Roilfort is a major location
    TheRoilfort,
    /// Tomb of the First is a major location
    TomboftheFirst,
    /// Westmarch is a major location
    Westmarch,
    /// Widow's Wail is a minor location
    WidowsWail,
}

impl LochMor {
    /// The table of the region: the catalogue's entry for each location.
    /// Hidden from the verifier until revealed.
    #[verifier::opaque]
    pub open spec fn table(self) -> Entry {
        match self {
            LochMor::BastardsBlade => Entry { local_key: "BastardsBlade", display_name: "Bastard's Blade", is_major: false, coords: (210_803_140, 808_787_940) },
            LochMor::ChatteringPrairie => Entry { local_key: "ChatteringPrairie", display_name: "Chattering Prairie", is_major: false, coords: (645_829_200, 306_503_270) },
            LochMor::Escape => Entry { local_key: "Escape", display_name: "Escape", is_major: false, coords: (719_937_200, 905_345_800) },
            LochMor::FallenFields => Entry { local_key: "FallenFields", display_name: "Fallen Fields", is_major: false, coords: (511_057_560, 531_777_700) },
            LochMor::Feirmor => Entry { local_key: "Feirmor", display_name: "Feirmor", is_major: true, coords: (502_507_100, 434_246_360) },
            LochMor::LakeSeverspring => Entry { local_key: "LakeSeverspring", display_name: "Lake Severspring", is_major: false, coords: (134_593_640, 678_678_450) },
            LochMor::LochMor => Entry { local_key: "LochMor", display_name: "Loch Mor", is_major: false, coords: (463_501_450, 270_624_800) },
            LochMor::MarketRoad => Entry { local_key: "MarketRoad", display_name: "Market Road", is_major: true, coords: (204_177_980, 515_130_600) },
            LochMor::MercysWish => Entry { local_key: "MercysWish", display_name: "Mercy's Wish", is_major: true, coords: (454_501_570, 130_360_080) },
            LochMor::MissingBones => Entry { local_key: "MissingBones", display_name: "Missing Bones", is_major: false, coords: (854_434_700, 307_173_250) },
            LochMor::MoonsCopse => Entry { local_key: "MoonsCopse", display_name: "Moon's Copse", is_major: true, coords: (770_753_440, 508_001_300) },
            LochMor::Ousterdown => Entry { local_key: "Ousterdown", display_name: "Ousterdown", is_major: false, coords: (205_337_970, 661_871_730) },
            LochMor::Pockfields => Entry { local_key: "Pockfields", display_name: "Pockfields", is_major: false, coords: (535_273_300, 660_821_140) },
            LochMor::Rip => Entry { local_key: "Rip", display_name: "Rip", is_major: false, coords: (486_969_440, 781_413_100) },
            LochMor::Tear => Entry { local_key: "Tear", display_name: "Tear", is_major: false, coords: (676_598_800, 777_586_400) },
            LochMor::TheFoundingFields => Entry { local_key: "TheFoundingFields", display_name: "The Founding Fields", is_major: false, coords: (517_610_550, 930_420_500) },
            LochMor::TheGlean => Entry { local_key: "TheGlean", display_name: "The Glean", is_major: false, coords: (140_586_940, 496_625_160) },
            LochMor::TheReapingRoad => Entry { local_key: "TheReapingRoad", display_name: "The Reaping Road", is_major: false, coords: (300_183_860, 33_671_630) },
            LochMor::TheRoilfort => Entry { local_key: "TheRoilfort", display_name: "The Roilfort", is_major: true, coords: (584_102_700, 759_197_650) },
            LochMor::TomboftheFirst => Entry { local_key: "TomboftheFirst", display_name: "Tomb of the First", is_major: true, coords: (266_354_380, 206_962_270) },
            LochMor::Westmarch => Entry { local_key: "Westmarch", display_name: "Westmarch", is_major: true, coords: (629_411_340, 156_757_310) },
            LochMor::WidowsWail => Entry { local_key: "WidowsWail", display_name: "Widow's Wail", is_major: false, coords: (335_189_880, 762_400_030) },
        }
    }
}

impl Regional for LochMor {
    open spec fn spec_region() -> Region {
        Region::LochMor
    }

    open spec fn spec_entry(&self) -> Entry {
        self.table()
    }

    open spec fn spec_marked(&self) -> bool {
        false
    }

    open spec fn spec_all() -> Seq<Self> {
        seq![
            LochMor::BastardsBlade, LochMor::ChatteringPrairie, LochMor::Escape,
            LochMor::FallenFields, LochMor::Feirmor, LochMor::LakeSeverspring, LochMor::LochMor,
            LochMor::MarketRoad, LochMor::MercysWish, LochMor::MissingBones,
            LochMor::MoonsCopse, LochMor::Ousterdown, LochMor::Pockfields, LochMor::Rip,
            LochMor::Tear, LochMor::TheFoundingFields, LochMor::TheGlean,
            LochMor::TheReapingRoad, LochMor::TheRoilfort, LochMor::TomboftheFirst,
            LochMor::Westmarch, LochMor::WidowsWail,
        ]
    }

    open spec fn spec_on_map(self) -> MapLocation {
        MapLocation::LochMor(self)
    }

    fn region() -> (region: Region) {
        Region::LochMor
    }

    fn entry(&self) -> (entry: Entry) {
        reveal(LochMor::table);
        assert(self.spec_entry() == self.table());
        match self {
            LochMor::BastardsBlade => Entry { local_key: "BastardsBlade", display_name: "Bastard's Blade", is_major: false, coords: (210_803_140, 808_787_940) },
            LochMor::ChatteringPrairie => Entry { local_key: "ChatteringPrairie", display_name: "Chattering Prairie", is_major: false, coords: (645_829_200, 306_503_270) },
            LochMor::Escape => Entry { local_key: "Escape", display_name: "Escape", is_major: false, coords: (719_937_200, 905_345_800) },
            LochMor::FallenFields => Entry { local_key: "FallenFields", display_name: "Fallen Fields", is_major: false, coords: (511_057_560, 531_777_700) },
            LochMor::Feirmor => Entry { local_key: "Feirmor", display_name: "Feirmor", is_major: true, coords: (502_507_100, 434_246_360) },
            LochMor::LakeSeverspring => Entry { local_key: "LakeSeverspring", display_name: "Lake Severspring", is_major: false, coords: (134_593_640, 678_678_450) },
            LochMor::LochMor => Entry { local_key: "LochMor", display_name: "Loch Mor", is_major: false, coords: (463_501_450, 270_624_800) },
            LochMor::MarketRoad => Entry { local_key: "MarketRoad", display_name: "Market Road", is_major: true, coords: (204_177_980, 515_130_600) },
            LochMor::MercysWish => Entry { local_key: "MercysWish", display_name: "Mercy's Wish", is_major: true, coords: (454_501_570, 130_360_080) },
            LochMor::MissingBones => Entry { local_key: "MissingBones", display_name: "Missing Bones", is_major: false, coords: (854_434_700, 307_173_250) },
            LochMor::MoonsCopse => Entry { local_key: "MoonsCopse", display_name: "Moon's Copse", is_major: true, coords: (770_753_440, 508_001_300) },
            LochMor::Ousterdown => Entry { local_key: "Ousterdown", display_name: "Ousterdown", is_major: false, coords: (205_337_970, 661_871_730) },
            LochMor::Pockfields => Entry { local_key: "Pockfields", display_name: "Pockfields", is_major: false, coords: (535_273_300, 660_821_140) },
            LochMor::Rip => Entry { local_key: "Rip", display_name: "Rip", is_major: false, coords: (486_969_440, 781_413_100) },
            LochMor::Tear => Entry { local_key: "Tear", display_name: "Tear", is_major: false, coords: (676_598_800, 777_586_400) },
            LochMor::TheFoundingFields => Entry { local_key: "TheFoundingFields", display_name: "The Founding Fields", is_major: false, coords: (517_610_550, 930_420_500) },
            LochMor::TheGlean => Entry { local_key: "TheGlean", display_name: "The Glean", is_major: false, coords: (140_586_940, 496_625_160) },
            LochMor::TheReapingRoad => Entry { local_key: "TheReapingRoad", display_name: "The Reaping Road", is_major: false, coords: (300_183_860, 33_671_630) },
            LochMor::TheRoilfort => Entry { local_key: "TheRoilfort", display_name: "The Roilfort", is_major: true, coords: (584_102_700, 759_197_650) },
            LochMor::TomboftheFirst => Entry { local_key: "TomboftheFirst", display_name: "Tomb of the First", is_major: true, coords: (266_354_380, 206_962_270) },
            LochMor::Westmarch => Entry { local_key: "Westmarch", display_name: "Westmarch", is_major: true, coords: (629_411_340, 156_757_310) },
            LochMor::WidowsWail => Entry { local_key: "WidowsWail", display_name: "Widow's Wail", is_major: false, coords: (335_189_880, 762_400_030) },
        }
    }

    fn all() -> (all: Vec<Self>) {
        vec![
            LochMor::BastardsBlade, LochMor::ChatteringPrairie, LochMor::Escape,
            LochMor::FallenFields, LochMor::Feirmor, LochMor::LakeSeverspring, LochMor::LochMor,
            LochMor::MarketRoad, LochMor::MercysWish, LochMor::MissingBones,
            LochMor::MoonsCopse, LochMor::Ousterdown, LochMor::Pockfields, LochMor::Rip,
            LochMor::Tear, LochMor::TheFoundingFields, LochMor::TheGlean,
            LochMor::TheReapingRoad, LochMor::TheRoilfort, LochMor::TomboftheFirst,
            LochMor::Westmarch, LochMor::WidowsWail,
        ]
    }

    fn from_key(key: &str) -> (found: Option<Self>) {
        reveal(LochMor::table);
        if str_eq(key, "BastardsBlade") {
            Some(LochMor::BastardsBlade)
        } else if str_eq(key, "ChatteringPrairie") {
            Some(LochMor::ChatteringPrairie)
        } else if str_eq(key, "Escape") {
            Some(LochMor::Escape)
        } else if str_eq(key, "FallenFields") {
            Some(LochMor::FallenFields)
        } else if str_eq(key, "Feirmor") {
            Some(LochMor::Feirmor)
        } else if str_eq(key, "LakeSeverspring") {
            Some(LochMor::LakeSeverspring)
        } else if str_eq(key, "LochMor") {
            Some(LochMor::LochMor)
        } else if str_eq(key, "MarketRoad") {
            Some(LochMor::MarketRoad)
        } else if str_eq(key, "MercysWish") {
            Some(LochMor::MercysWish)
        } else if str_eq(key, "MissingBones") {
            Some(LochMor::MissingBones)
        } else if str_eq(key, "MoonsCopse") {
            Some(LochMor::MoonsCopse)
        } else if str_eq(key, "Ousterdown") {
            Some(LochMor::Ousterdown)
        } else if str_eq(key, "Pockfields") {
            Some(LochMor::Pockfields)
        } else if str_eq(key, "Rip") {
            Some(LochMor::Rip)
        } else if str_eq(key, "Tear") {
            Some(LochMor::Tear)
        } else if str_eq(key, "TheFoundingFields") {
            Some(LochMor::TheFoundingFields)
        } else if str_eq(key, "TheGlean") {
            Some(LochMor::TheGlean)
        } else if str_eq(key, "TheReapingRoad") {
            Some(LochMor::TheReapingRoad)
        } else if str_eq(key, "TheRoilfort") {
            Some(LochMor::TheRoilfort)
        } else if str_eq(key, "TomboftheFirst") {
            Some(LochMor::TomboftheFirst)
        } else if str_eq(key, "Westmarch") {
            Some(LochMor::Westmarch)
        } else if str_eq(key, "WidowsWail") {
            Some(LochMor::WidowsWail)
        } else {
            None
        }
    }

    fn on_map(self) -> (place: MapLocation) {
        MapLocation::LochMor(self)
    }

    proof fn lemma_entry(l: Self) {
        reveal(LochMor::table);
        reveal_with_fuel(pairs_off, 20);
        match l {
            LochMor::BastardsBlade => {
                reveal_strlit("BastardsBlade");
                reveal_strlit("Bastard's Blade");
                lemma_pairs_off("Bastard's Blade"@, "BastardsBlade"@);
            },
            LochMor::ChatteringPrairie => {
                reveal_strlit("ChatteringPrairie");
                reveal_strlit("Chattering Prairie");
                lemma_pairs_off("Chattering Prairie"@, "ChatteringPrairie"@);
            },
            LochMor::Escape => {
                reveal_strlit("Escape");
                lemma_pairs_off("Escape"@, "Escape"@);
            },
            LochMor::FallenFields => {
                reveal_strlit("FallenFields");
                reveal_strlit("Fallen Fields");
                lemma_pairs_off("Fallen Fields"@, "FallenFields"@);
            },
            LochMor::Feirmor => {
                reveal_strlit("Feirmor");
                lemma_pairs_off("Feirmor"@, "Feirmor"@);
            },
            LochMor::LakeSeverspring => {
                reveal_strlit("LakeSeverspring");
                reveal_strlit("Lake Severspring");
                lemma_pairs_off("Lake Severspring"@, "LakeSeverspring"@);
            },
            LochMor::LochMor => {
                reveal_strlit("LochMor");
                reveal_strlit("Loch Mor");
                lemma_pairs_off("Loch Mor"@, "LochMor"@);
            },
            LochMor::MarketRoad => {
                reveal_strlit("MarketRoad");
                reveal_strlit("Market Road");
                lemma_pairs_off("Market Road"@, "MarketRoad"@);
            },
            LochMor::MercysWish => {
                reveal_strlit("MercysWish");
                reveal_strlit("Mercy's Wish");
                lemma_pairs_off("Mercy's Wish"@, "MercysWish"@);
            },
            LochMor::MissingBones => {
                reveal_strlit("MissingBones");
                reveal_strlit("Missing Bones");
                lemma_pairs_off("Missing Bones"@, "MissingBones"@);
            },
            LochMor::MoonsCopse => {
                reveal_strlit("MoonsCopse");
                reveal_strlit("Moon's Copse");
                lemma_pairs_off("Moon's Copse"@, "MoonsCopse"@);
            },
            LochMor::Ousterdown => {
                reveal_strlit("Ousterdown");
                lemma_pairs_off("Ousterdown"@, "Ousterdown"@);
            },
            LochMor::Pockfields => {
                reveal_strlit("Pockfields");
                lemma_pairs_off("Pockfields"@, "Pockfields"@);
            },
            LochMor::Rip => {
                reveal_strlit("Rip");
                lemma_pairs_off("Rip"@, "Rip"@);
            },
            LochMor::Tear => {
                reveal_strlit("Tear");
                lemma_pairs_off("Tear"@, "Tear"@);
            },
            LochMor::TheFoundingFields => {
                reveal_strlit("TheFoundingFields");
                reveal_strlit("The Founding Fields");
                lemma_pairs_off("The Founding Fields"@, "TheFoundingFields"@);
            },
            LochMor::TheGlean => {
                reveal_strlit("TheGlean");
                reveal_strlit("The Glean");
                lemma_pairs_off("The Glean"@, "TheGlean"@);
            },
            LochMor::TheReapingRoad => {
                reveal_strlit("TheReapingRoad");
                reveal_strlit("The Reaping Road");
                lemma_pairs_off("The Reaping Road"@, "TheReapingRoad"@);
            },
            LochMor::TheRoilfort => {
                reveal_strlit("TheRoilfort");
                reveal_strlit("The Roilfort");
                lemma_pairs_off("The Roilfort"@, "TheRoilfort"@);
            },
            LochMor::TomboftheFirst => {
                reveal_strlit("TomboftheFirst");
                reveal_strlit("Tomb of the First");
                lemma_pairs_off("Tomb of the First"@, "TomboftheFirst"@);
            },
            LochMor::Westmarch => {
                reveal_strlit("Westmarch");
                lemma_pairs_off("Westmarch"@, "Westmarch"@);
            },
            LochMor::WidowsWail => {
                reveal_strlit("WidowsWail");
                reveal_strlit("Widow's Wail");
                lemma_pairs_off("Widow's Wail"@, "WidowsWail"@);
            },
        }
    }

    proof fn lemma_keys_distinct(a: Self, b: Self) {
        reveal(LochMor::table);
        reveal_strlit("BastardsBlade");
        reveal_strlit("ChatteringPrairie");
        reveal_strlit("Escape");
        reveal_strlit("FallenFields");
        reveal_strlit("Feirmor");
        reveal_strlit("LakeSeverspring");
        reveal_strlit("LochMor");
        reveal_strlit("MarketRoad");
        reveal_strlit("MercysWish");
        reveal_strlit("MissingBones");
        reveal_strlit("MoonsCopse");
        reveal_strlit("Ousterdown");
        reveal_strlit("Pockfields");
        reveal_strlit("Rip");
        reveal_strlit("Tear");
        reveal_strlit("TheFoundingFields");
        reveal_strlit("TheGlean");
        reveal_strlit("TheReapingRoad");
        reveal_strlit("TheRoilfort");
        reveal_strlit("TomboftheFirst");
        reveal_strlit("Westmarch");
        reveal_strlit("WidowsWail");
        // Two equal keys agree in length and in every character; no two
        // keys of the table do.
        let x = a.table().local_key@;
        let y = b.table().local_key@;
        assert(x.len() == y.len());
        assert(x[0] == y[0]);
        assert(x[1] == y[1]);
        assert(x[2] == y[2]);
        assert(x[3] == y[3]);
        assert(x[4] == y[4]);
        assert(x[5] == y[5]);
        assert(x[6] == y[6]);
        assert(x[7] == y[7]);
        assert(x[8] == y[8]);
        assert(x[9] == y[9]);
        assert(x[10] == y[10]);
        assert(x[11] == y[11]);
        assert(x[12] == y[12]);
        assert(x[13] == y[13]);
        assert(x[14] == y[14]);
        assert(x[15] == y[15]);
        assert(x[16] == y[16]);
        match a {
            LochMor::BastardsBlade => assert(b is BastardsBlade),
            LochMor::ChatteringPrairie => assert(b is ChatteringPrairie),
            LochMor::Escape => assert(b is Escape),
            LochMor::FallenFields => assert(b is FallenFields),
            LochMor::Feirmor => assert(b is Feirmor),
            LochMor::LakeSeverspring => assert(b is LakeSeverspring),
            LochMor::LochMor => assert(b is LochMor),
            LochMor::MarketRoad => assert(b is MarketRoad),
            LochMor::MercysWish => assert(b is MercysWish),
            LochMor::MissingBones => assert(b is MissingBones),
            LochMor::MoonsCopse => assert(b is MoonsCopse),
            LochMor::Ousterdown => assert(b is Ousterdown),
            LochMor::Pockfields => assert(b is Pockfields),
            LochMor::Rip => assert(b is Rip),
            LochMor::Tear => assert(b is Tear),
            LochMor::TheFoundingFields => assert(b is TheFoundingFields),
            LochMor::TheGlean => assert(b is TheGlean),
            LochMor::TheReapingRoad => assert(b is TheReapingRoad),
            LochMor::TheRoilfort => assert(b is TheRoilfort),
            LochMor::TomboftheFirst => assert(b is TomboftheFirst),
            LochMor::Westmarch => assert(b is Westmarch),
            LochMor::WidowsWail => assert(b is WidowsWail),
        }
    }

    proof fn lemma_all(l: Self) {
        reveal_with_fuel(position, 23);
        reveal_with_fuel(each_first, 23);
        lemma_found(Self::spec_all(), l);
        lemma_no_duplicates(Self::spec_all());
    }

    proof fn lemma_on_map(place: MapLocation) {
        if let MapLocation::LochMor(l) = place {
            assert(l.spec_on_map() == place);
        }
    }
}

} // verus!
