//! The locations of the MooringCounty region.

use crate::map::location::Entry;
use crate::map::region::Region;
use crate::map::regional::Regional;
use crate::map::seqs::{each_first, lemma_found, lemma_no_duplicates, position};
use crate::map::MapLocation;
use crate::text::{lemma_pairs_off, lemma_pairs_off_marked, pairs_off, pairs_off_marked, str_eq};
use vstd::prelude::*;

verus! {

/// Specific map details for the `MooringCountyHex` tile.
#[derive(Clone, Copy, Debug, PartialEq, Eq)]
pub enum MooringCounty {
    /// Borderlane is a minor location
    Borderlane,
    /// Gravekeeper's Holdfast is a major location
    GravekeepersHoldfast,
    /// Headstone is a major location
    Headstone,
    /// Luch's Workshop is a major location
    LuchsWorkshop,
    /// Lyon's Wood is a minor location
    LyonsWood,
    /// MacConmara Barrows is a major location
    MacConmaraBarrows,
    /// Moon's Walk is a minor location
    MoonsWalk,
    /// Morrighan's Grave is a major location
    MorrighansGrave,
    /// Ogmaran is a major location
    Ogmaran,
    /// Reaching River is a minor location
    ReachingRiver,
    /// Riverhill is a minor location
    Riverhill,
    /// Sc??th Copse is a minor location
    ScthCopse,
    /// The Cut is a major location
    TheCut,
    /// The Graveyard is a minor location
    TheGraveyard,
    /// The Mound is a minor location
    TheMound,
    /// The Spade is a major location
    TheSpade,
    /// The Wind Hills is a major location
    TheWindHills,
    /// Wiccwalk is a major location
    Wiccwalk,
    /// Wiccwood is a minor location
    Wiccwood,
}

impl MooringCounty {
    /// The table of the region: the catalogue's entry for each location.
    /// Hidden from the verifier until revealed.
    #[verifier::opaque]
    pub open spec fn table(self) -> Entry {
        match self {
            MooringCounty::Borderlane => Entry { local_key: "Borderlane", display_name: "Borderlane", is_major: false, coords: (680_163_150, 54_306_180) },
            MooringCounty::GravekeepersHoldfast => Entry { local_key: "GravekeepersHoldfast", display_name: "Gravekeeper's Holdfast", is_major: true, coords: (424_350_100, 684_748_050) },
            MooringCounty::Headstone => Entry { local_key: "Headstone", display_name: "Headstone", is_major: true, coords: (475_417_520, 495_205_850) },
            MooringCounty::LuchsWorkshop => Entry { local_key: "LuchsWorkshop", display_name: "Luch's Workshop", is_major: true, coords: (721_818_400, 202_391_340) },
            MooringCounty::LyonsWood => Entry { local_key: "LyonsWood", display_name: "Lyon's Wood", is_major: false, coords: (884_748_760, 392_968_100) },
            MooringCounty::MacConmaraBarrows => Entry { local_key: "MacConmaraBarrows", display_name: "MacConmara Barrows", is_major: true, coords: (582_939_600, 805_495_900) },
            MooringCounty::MoonsWalk => Entry { local_key: "MoonsWalk", display_name: "Moon's Walk", is_major: false, coords: (420_774_730, 341_985_600) },
            MooringCounty::MorrighansGrave => Entry { local_key: "MorrighansGrave", display_name: "Morrighan's Grave", is_major: true, coords: (728_638_800, 606_998_200) },
            MooringCounty::Ogmaran => Entry { local_key: "Ogmaran", display_name: "Ogmaran", is_major: true, coords: (431_211_500, 170_432_340) },
            MooringCounty::ReachingRiver => Entry { local_key: "ReachingRiver", display_name: "Reaching River", is_major: false, coords: (633_850_160, 157_625_470) },
            MooringCounty::Riverhill => Entry { local_key: "Riverhill", display_name: "Riverhill", is_major: false, coords: (658_768_500, 238_437_310) },
            MooringCounty::ScthCopse => Entry { local_key: "Sc??thCopse", display_name: "Sc??th Copse", is_major: false, coords: (864_295_600, 559_622_170) },
            MooringCounty::TheCut => Entry { local_key: "TheCut", display_name: "The Cut", is_major: true, coords: (251_852_700, 741_584_360) },
            MooringCounty::TheGraveyard => Entry { local_key: "TheGraveyard", display_name: "The Graveyard", is_major: false, coords: (374_175_400, 539_697_100) },
            MooringCounty::TheMound => Entry { local_key: "TheMound", display_name: "The Mound", is_major: false, coords: (529_395_800, 634_780_800) },
            MooringCounty::TheSpade => Entry { local_key: "TheSpade", display_name: "The Spade", is_major: true, coords: (244_320_480, 436_659_870) },
            MooringCounty::TheWindHills => Entry { local_key: "TheWindHills", display_name: "The Wind Hills", is_major: true, coords: (375_676_360, 894_090_830) },
            MooringCounty::Wiccwalk => Entry { local_key: "Wiccwalk", display_name: "Wiccwalk", is_major: true, coords: (772_825_960, 792_623_200) },
            MooringCounty::Wiccwood => Entry { local_key: "Wiccwood", display_name: "Wiccwood", is_major: false, coords: (643_140_550, 451_437_500) },
        }
    }
}

impl Regional for MooringCounty {
    open spec fn spec_region() -> Region {
        Region::MooringCounty
    }

    open spec fn spec_entry(&self) -> Entry {
        self.table()
    }

    open spec fn spec_marked(&self) -> bool {
        *self == MooringCounty::ScthCopse
    }

    open spec fn spec_all() -> Seq<Self> {
        seq![
            MooringCounty::Borderlane, MooringCounty::GravekeepersHoldfast,
            MooringCounty::Headstone, MooringCounty::LuchsWorkshop, MooringCounty::LyonsWood,
            MooringCounty::MacConmaraBarrows, MooringCounty::MoonsWalk,
            MooringCounty::MorrighansGrave, MooringCounty::Ogmaran,
            MooringCounty::ReachingRiver, MooringCounty::Riverhill, MooringCounty::ScthCopse,
            MooringCounty::TheCut, MooringCounty::TheGraveyard, MooringCounty::TheMound,
            MooringCounty::TheSpade, MooringCounty::TheWindHills, MooringCounty::Wiccwalk,
            MooringCounty::Wiccwood,
        ]
    }

    open spec fn spec_on_map(self) -> MapLocation {
        MapLocation::MooringCounty(self)
    }

    fn region() -> (region: Region) {
        Region::MooringCounty
    }

    fn entry(&self) -> (entry: Entry) {
        reveal(MooringCounty::table);
        assert(self.spec_entry() == self.table());
        match self {
            MooringCounty::Borderlane => Entry { local_key: "Borderlane", display_name: "Borderlane", is_major: false, coords: (680_163_150, 54_306_180) },
            MooringCounty::GravekeepersHoldfast => Entry { local_key: "GravekeepersHoldfast", display_name: "Gravekeeper's Holdfast", is_major: true, coords: (424_350_100, 684_748_050) },
            MooringCounty::Headstone => Entry { local_key: "Headstone", display_name: "Headstone", is_major: true, coords: (475_417_520, 495_205_850) },
            MooringCounty::LuchsWorkshop => Entry { local_key: "LuchsWorkshop", display_name: "Luch's Workshop", is_major: true, coords: (721_818_400, 202_391_340) },
            MooringCounty::LyonsWood => Entry { local_key: "LyonsWood", display_name: "Lyon's Wood", is_major: false, coords: (884_748_760, 392_968_100) },
            MooringCounty::MacConmaraBarrows => Entry { local_key: "MacConmaraBarrows", display_name: "MacConmara Barrows", is_major: true, coords: (582_939_600, 805_495_900) },
            MooringCounty::MoonsWalk => Entry { local_key: "MoonsWalk", display_name: "Moon's Walk", is_major: false, coords: (420_774_730, 341_985_600) },
            MooringCounty::MorrighansGrave => Entry { local_key: "MorrighansGrave", display_name: "Morrighan's Grave", is_major: true, coords: (728_638_800, 606_998_200) },
            MooringCounty::Ogmaran => Entry { local_key: "Ogmaran", display_name: "Ogmaran", is_major: true, coords: (431_211_500, 170_432_340) },
            MooringCounty::ReachingRiver => Entry { local_key: "ReachingRiver", display_name: "Reaching River", is_major: false, coords: (633_850_160, 157_625_470) },
            MooringCounty::Riverhill => Entry { local_key: "Riverhill", display_name: "Riverhill", is_major: false, coords: (658_768_500, 238_437_310) },
            MooringCounty::ScthCopse => Entry { local_key: "Sc??thCopse", display_name: "Sc??th Copse", is_major: false, coords: (864_295_600, 559_622_170) },
            MooringCounty::TheCut => Entry { local_key: "TheCut", display_name: "The Cut", is_major: true, coords: (251_852_700, 741_584_360) },
            MooringCounty::TheGraveyard => Entry { local_key: "TheGraveyard", display_name: "The Graveyard", is_major: false, coords: (374_175_400, 539_697_100) },
            MooringCounty::TheMound => Entry { local_key: "TheMound", display_name: "The Mound", is_major: false, coords: (529_395_800, 634_780_800) },
            MooringCounty::TheSpade => Entry { local_key: "TheSpade", display_name: "The Spade", is_major: true, coords: (244_320_480, 436_659_870) },
            MooringCounty::TheWindHills => Entry { local_key: "TheWindHills", display_name: "The Wind Hills", is_major: true, coords: (375_676_360, 894_090_830) },
            MooringCounty::Wiccwalk => Entry { local_key: "Wiccwalk", display_name: "Wiccwalk", is_major: true, coords: (772_825_960, 792_623_200) },
            MooringCounty::Wiccwood => Entry { local_key: "Wiccwood", display_name: "Wiccwood", is_major: false, coords: (643_140_550, 451_437_500) },
        }
    }

    fn all() -> (all: Vec<Self>) {
        vec![
            MooringCounty::Borderlane, MooringCounty::GravekeepersHoldfast,
            MooringCounty::Headstone, MooringCounty::LuchsWorkshop, MooringCounty::LyonsWood,
            MooringCounty::MacConmaraBarrows, MooringCounty::MoonsWalk,
            MooringCounty::MorrighansGrave, MooringCounty::Ogmaran,
            MooringCounty::ReachingRiver, MooringCounty::Riverhill, MooringCounty::ScthCopse,
            MooringCounty::TheCut, MooringCounty::TheGraveyard, MooringCounty::TheMound,
            MooringCounty::TheSpade, MooringCounty::TheWindHills, MooringCounty::Wiccwalk,
            MooringCounty::Wiccwood,
        ]
    }

    fn from_key(key: &str) -> (found: Option<Self>) {
        reveal(MooringCounty::table);
        if str_eq(key, "Borderlane") {
            Some(MooringCounty::Borderlane)
        } else if str_eq(key, "GravekeepersHoldfast") {
            Some(MooringCounty::GravekeepersHoldfast)
        } else if str_eq(key, "Headstone") {
            Some(MooringCounty::Headstone)
        } else if str_eq(key, "LuchsWorkshop") {
            Some(MooringCounty::LuchsWorkshop)
        } else if str_eq(key, "LyonsWood") {
            Some(MooringCounty::LyonsWood)
        } else if str_eq(key, "MacConmaraBarrows") {
            Some(MooringCounty::MacConmaraBarrows)
        } else if str_eq(key, "MoonsWalk") {
            Some(MooringCounty::MoonsWalk)
        } else if str_eq(key, "MorrighansGrave") {
            Some(MooringCounty::MorrighansGrave)
        } else if str_eq(key, "Ogmaran") {
            Some(MooringCounty::Ogmaran)
        } else if str_eq(key, "ReachingRiver") {
            Some(MooringCounty::ReachingRiver)
        } else if str_eq(key, "Riverhill") {
            Some(MooringCounty::Riverhill)
        } else if str_eq(key, "Sc??thCopse") {
            Some(MooringCounty::ScthCopse)
        } else if str_eq(key, "TheCut") {
            Some(MooringCounty::TheCut)
        } else if str_eq(key, "TheGraveyard") {
            Some(MooringCounty::TheGraveyard)
        } else if str_eq(key, "TheMound") {
            Some(MooringCounty::TheMound)
        } else if str_eq(key, "TheSpade") {
            Some(MooringCounty::TheSpade)
        } else if str_eq(key, "TheWindHills") {
            Some(MooringCounty::TheWindHills)
        } else if str_eq(key, "Wiccwalk") {
            Some(MooringCounty::Wiccwalk)
        } else if str_eq(key, "Wiccwood") {
            Some(MooringCounty::Wiccwood)
        } else {
            None
        }
    }

    fn on_map(self) -> (place: MapLocation) {
        MapLocation::MooringCounty(self)
    }

    proof fn lemma_entry(l: Self) {
        reveal(MooringCounty::table);
        reveal_with_fuel(pairs_off, 23);
        reveal_with_fuel(pairs_off_marked, 24);
        match l {
            MooringCounty::Borderlane => {
                reveal_strlit("Borderlane");
                lemma_pairs_off("Borderlane"@, "Borderlane"@);
            },
            MooringCounty::GravekeepersHoldfast => {
                reveal_strlit("GravekeepersHoldfast");
                reveal_strlit("Gravekeeper's Holdfast");
                lemma_pairs_off("Gravekeeper's Holdfast"@, "GravekeepersHoldfast"@);
            },
            MooringCounty::Headstone => {
                reveal_strlit("Headstone");
                lemma_pairs_off("Headstone"@, "Headstone"@);
            },
            MooringCounty::LuchsWorkshop => {
                reveal_strlit("LuchsWorkshop");
                reveal_strlit("Luch's Workshop");
                lemma_pairs_off("Luch's Workshop"@, "LuchsWorkshop"@);
            },
            MooringCounty::LyonsWood => {
                reveal_strlit("LyonsWood");
                reveal_strlit("Lyon's Wood");
                lemma_pairs_off("Lyon's Wood"@, "LyonsWood"@);
            },
            MooringCounty::MacConmaraBarrows => {
                reveal_strlit("MacConmaraBarrows");
                reveal_strlit("MacConmara Barrows");
                lemma_pairs_off("MacConmara Barrows"@, "MacConmaraBarrows"@);
            },
            MooringCounty::MoonsWalk => {
                reveal_strlit("MoonsWalk");
                reveal_strlit("Moon's Walk");
                lemma_pairs_off("Moon's Walk"@, "MoonsWalk"@);
            },
            MooringCounty::MorrighansGrave => {
                reveal_strlit("MorrighansGrave");
                reveal_strlit("Morrighan's Grave");
                lemma_pairs_off("Morrighan's Grave"@, "MorrighansGrave"@);
            },
            MooringCounty::Ogmaran => {
                reveal_strlit("Ogmaran");
                lemma_pairs_off("Ogmaran"@, "Ogmaran"@);
            },
            MooringCounty::ReachingRiver => {
                reveal_strlit("ReachingRiver");
                reveal_strlit("Reaching River");
                lemma_pairs_off("Reaching River"@, "ReachingRiver"@);
            },
            MooringCounty::Riverhill => {
                reveal_strlit("Riverhill");
                lemma_pairs_off("Riverhill"@, "Riverhill"@);
            },
            MooringCounty::ScthCopse => {
                reveal_strlit("Sc??thCopse");
                reveal_strlit("Sc??th Copse");
                lemma_pairs_off_marked("Sc??th Copse"@, "Sc??thCopse"@);
                assert("Sc??thCopse"@[2] == '?');
            },
            MooringCounty::TheCut => {
                reveal_strlit("TheCut");
                reveal_strlit("The Cut");
                lemma_pairs_off("The Cut"@, "TheCut"@);
            },
            MooringCounty::TheGraveyard => {
                reveal_strlit("TheGraveyard");
                reveal_strlit("The Graveyard");
                lemma_pairs_off("The Graveyard"@, "TheGraveyard"@);
            },
            MooringCounty::TheMound => {
                reveal_strlit("TheMound");
                reveal_strlit("The Mound");
                lemma_pairs_off("The Mound"@, "TheMound"@);
            },
            MooringCounty::TheSpade => {
                reveal_strlit("TheSpade");
                reveal_strlit("The Spade");
                lemma_pairs_off("The Spade"@, "TheSpade"@);
            },
            MooringCounty::TheWindHills => {
                reveal_strlit("TheWindHills");
                reveal_strlit("The Wind Hills");
                lemma_pairs_off("The Wind Hills"@, "TheWindHills"@);
            },
            MooringCounty::Wiccwalk => {
                reveal_strlit("Wiccwalk");
                lemma_pairs_off("Wiccwalk"@, "Wiccwalk"@);
            },
            MooringCounty::Wiccwood => {
                reveal_strlit("Wiccwood");
                lemma_pairs_off("Wiccwood"@, "Wiccwood"@);
            },
        }
    }

    proof fn lemma_keys_distinct(a: Self, b: Self) {
        reveal(MooringCounty::table);
        reveal_strlit("Borderlane");
        reveal_strlit("GravekeepersHoldfast");
        reveal_strlit("Headstone");
        reveal_strlit("LuchsWorkshop");
        reveal_strlit("LyonsWood");
        reveal_strlit("MacConmaraBarrows");
        reveal_strlit("MoonsWalk");
        reveal_strlit("MorrighansGrave");
        reveal_strlit("Ogmaran");
        reveal_strlit("ReachingRiver");
        reveal_strlit("Riverhill");
        reveal_strlit("Sc??thCopse");
        reveal_strlit("TheCut");
        reveal_strlit("TheGraveyard");
        reveal_strlit("TheMound");
        reveal_strlit("TheSpade");
        reveal_strlit("TheWindHills");
        reveal_strlit("Wiccwalk");
        reveal_strlit("Wiccwood");
        // Two equal keys agree in length and in every character; no two
        // keys of the table do.
        let x = a.table().local_key@;
        let y = b.table().local_key@;
        assert(x.len() == y.len());
        assert(x[0] == y[0]);
        assert(x[1] == y[1]);
        assert(x[2] == y[2]);
        assert(x[3] == y[3]);
        assert(x[4] == y[4]);
        assert(x[5] == y[5]);
        assert(x[6] == y[6]);
        assert(x[7] == y[7]);
        assert(x[8] == y[8]);
        assert(x[9] == y[9]);
        assert(x[10] == y[10]);
        assert(x[11] == y[11]);
        assert(x[12] == y[12]);
        assert(x[13] == y[13]);
        assert(x[14] == y[14]);
        assert(x[15] == y[15]);
        assert(x[16] == y[16]);
        assert(x[17] == y[17]);
        assert(x[18] == y[18]);
        assert(x[19] == y[19]);
        match a {
            MooringCounty::Borderlane => assert(b is Borderlane),
            MooringCounty::GravekeepersHoldfast => assert(b is GravekeepersHoldfast),
            MooringCounty::Headstone => assert(b is Headstone),
            MooringCounty::LuchsWorkshop => assert(b is LuchsWorkshop),
            MooringCounty::LyonsWood => assert(b is LyonsWood),
            MooringCounty::MacConmaraBarrows => assert(b is MacConmaraBarrows),
            MooringCounty::MoonsWalk => assert(b is MoonsWalk),
            MooringCounty::MorrighansGrave => assert(b is MorrighansGrave),
            MooringCounty::Ogmaran => assert(b is Ogmaran),
            MooringCounty::ReachingRiver => assert(b is ReachingRiver),
            MooringCounty::Riverhill => assert(b is Riverhill),
            MooringCounty::ScthCopse => assert(b is ScthCopse),
            MooringCounty::TheCut => assert(b is TheCut),
            MooringCounty::TheGraveyard => assert(b is TheGraveyard),
            MooringCounty::TheMound => assert(b is TheMound),
            MooringCounty::TheSpade => assert(b is TheSpade),
            MooringCounty::TheWindHills => assert(b is TheWindHills),
            MooringCounty::Wiccwalk => assert(b is Wiccwalk),
            MooringCounty::Wiccwood => assert(b is Wiccwood),
        }
    }

    proof fn lemma_all(l: Self) {
        reveal_with_fuel(position, 20);
        reveal_with_fuel(each_first, 20);
        lemma_found(Self::spec_all(), l);
        lemma_no_duplicates(Self::spec_all());
    }

    proof fn lemma_on_map(place: MapLocation) {
        if let MapLocation::MooringCounty(l) = place {
            assert(l.spec_on_map() == place);
        }
    }
}

} // verus!
