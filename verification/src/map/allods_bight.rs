//! The locations of the AllodsBight region.

use crate::map::location::Entry;
use crate::map::region::Region;
use crate::map::regional::Regional;
use crate::map::seqs::{each_first, lemma_found, lemma_no_duplicates, position};
use crate::map::MapLocation;
use crate::text::{lemma_pairs_off, pairs_off, str_eq};
use vstd::prelude::*;

verus! {

/// Specific map details for the `AllodsBightHex` tile.
#[derive(Clone, Copy, Debug, PartialEq, Eq)]
pub enum AllodsBight {
    /// A Captain's Repose is a minor location
    ACaptainsRepose,
    /// Allod's Children is a minor location
    AllodsChildren,
    /// Belaying Trace is a major location
    BelayingTrace,
    /// Blunder Bight is a minor location
    BlunderBight,
    /// Breath of Cetus is a minor location
    BreathofCetus,
    /// Gangrenous Hollow is a minor location
    GangrenousHollow,
    /// Harpy's Perch is a minor location
    HarpysPerch,
    /// Homesick is a major location
    Homesick,
    /// Mercy's Wail is a major location
    MercysWail,
    /// Rumhold is a major location
    Rumhold,
    /// Scurvyshire is a major location
    Scurvyshire,
    /// The List is a minor location
    TheList,
    /// The Rumroad is a minor location
    TheRumroad,
    /// The Stone Plank is a major location
    TheStonePlank,
    /// The Turncoat is a major location
    TheTurncoat,
    /// Titan's End is a minor location
    TitansEnd,
    /// Witch's Last Flight is a minor location
    WitchsLastFlight,
}

impl AllodsBight {
    /// The table of the region: the catalogue's entry for each location.
    /// Hidden from the verifier until revealed.
    #[verifier::opaque]
    pub open spec fn table(self) -> Entry {
        match self {
            AllodsBight::ACaptainsRepose => Entry { local_key: "ACaptainsRepose", display_name: "A Captain's Repose", is_major: false, coords: (593_273_100, 835_591_500) },
            AllodsBight::AllodsChildren => Entry { local_key: "AllodsChildren", display_name: "Allod's Children", is_major: false, coords: (111_910_410, 414_177_480) },
            AllodsBight::BelayingTrace => Entry { local_key: "BelayingTrace", display_name: "Belaying Trace", is_major: true, coords: (246_404_400, 561_513_700) },
            AllodsBight::BlunderBight => Entry { local_key: "BlunderBight", display_name: "Blunder Bight", is_major: false, coords: (691_622_600, 127_540_510) },
            AllodsBight::BreathofCetus => Entry { local_key: "BreathofCetus", display_name: "Breath of Cetus", is_major: false, coords: (696_068_000, 641_131_300) },
            AllodsBight::GangrenousHollow => Entry { local_key: "GangrenousHollow", display_name: "Gangrenous Hollow", is_major: false, coords: (307_638_500, 736_483_900) },
            AllodsBight::HarpysPerch => Entry { local_key: "HarpysPerch", display_name: "Harpy's Perch", is_major: false, coords: (502_351_460, 399_817_200) },
            AllodsBight::Homesick => Entry { local_key: "Homesick", display_name: "Homesick", is_major: true, coords: (353_158_200, 382_656_720) },
            AllodsBight::MercysWail => Entry { local_key: "MercysWail", display_name: "Mercy's Wail", is_major: true, coords: (512_385_130, 570_362_700) },
            AllodsBight::Rumhold => Entry { local_key: "Rumhold", display_name: "Rumhold", is_major: true, coords: (256_700_720, 243_638_780) },
            AllodsBight::Scurvyshire => Entry { local_key: "Scurvyshire", display_name: "Scurvyshire", is_major: true, coords: (372_652_830, 209_967_570) },
            AllodsBight::TheList => Entry { local_key: "TheList", display_name: "The List", is_major: false, coords: (226_675_670, 807_595_970) },
            AllodsBight::TheRumroad => Entry { local_key: "TheRumroad", display_name: "The Rumroad", is_major: false, coords: (188_215_360, 284_238_670) },
            AllodsBight::TheStonePlank => Entry { local_key: "TheStonePlank", display_name: "The Stone Plank", is_major: true, coords: (745_561_300, 446_080_680) },
            AllodsBight::TheTurncoat => Entry { local_key: "TheTurncoat", display_name: "The Turncoat", is_major: true, coords: (388_790_340, 730_780_840) },
            AllodsBight::TitansEnd => Entry { local_key: "TitansEnd", display_name: "Titan's End", is_major: false, coords: (537_410_860, 109_029_606) },
            AllodsBight::WitchsLastFlight => Entry { local_key: "WitchsLastFlight", display_name: "Witch's Last Flight", is_major: false, coords: (618_179_800, 269_637_050) },
        }
    }
}

impl Regional for AllodsBight {
    open spec fn spec_region() -> Region {
        Region::AllodsBight
    }

    open spec fn spec_entry(&self) -> Entry {
        self.table()
    }

    open spec fn spec_marked(&self) -> bool {
        false
    }

    open spec fn spec_all() -> Seq<Self> {
        seq![
            AllodsBight::ACaptainsRepose, AllodsBight::AllodsChildren,
            AllodsBight::BelayingTrace, AllodsBight::BlunderBight, AllodsBight::BreathofCetus,
            AllodsBight::GangrenousHollow, AllodsBight::HarpysPerch, AllodsBight::Homesick,
            AllodsBight::MercysWail, AllodsBight::Rumhold, AllodsBight::Scurvyshire,
            AllodsBight::TheList, AllodsBight::TheRumroad, AllodsBight::TheStonePlank,
            AllodsBight::TheTurncoat, AllodsBight::TitansEnd, AllodsBight::WitchsLastFlight,
        ]
    }

    open spec fn spec_on_map(self) -> MapLocation {
        MapLocation::AllodsBight(self)
    }

    fn region() -> (region: Region) {
        Region::AllodsBight
    }

    fn entry(&self) -> (entry: Entry) {
        reveal(AllodsBight::table);
        assert(self.spec_entry() == self.table());
        match self {
            AllodsBight::ACaptainsRepose => Entry { local_key: "ACaptainsRepose", display_name: "A Captain's Repose", is_major: false, coords: (593_273_100, 835_591_500) },
            AllodsBight::AllodsChildren => Entry { local_key: "AllodsChildren", display_name: "Allod's Children", is_major: false, coords: (111_910_410, 414_177_480) },
            AllodsBight::BelayingTrace => Entry { local_key: "BelayingTrace", display_name: "Belaying Trace", is_major: true, coords: (246_404_400, 561_513_700) },
            AllodsBight::BlunderBight => Entry { local_key: "BlunderBight", display_name: "Blunder Bight", is_major: false, coords: (691_622_600, 127_540_510) },
            AllodsBight::BreathofCetus => Entry { local_key: "BreathofCetus", display_name: "Breath of Cetus", is_major: false, coords: (696_068_000, 641_131_300) },
            AllodsBight::GangrenousHollow => Entry { local_key: "GangrenousHollow", display_name: "Gangrenous Hollow", is_major: false, coords: (307_638_500, 736_483_900) },
            AllodsBight::HarpysPerch => Entry { local_key: "HarpysPerch", display_name: "Harpy's Perch", is_major: false, coords: (502_351_460, 399_817_200) },
            AllodsBight::Homesick => Entry { local_key: "Homesick", display_name: "Homesick", is_major: true, coords: (353_158_200, 382_656_720) },
            AllodsBight::MercysWail => Entry { local_key: "MercysWail", display_name: "Mercy's Wail", is_major: true, coords: (512_385_130, 570_362_700) },
            AllodsBight::Rumhold => Entry { local_key: "Rumhold", display_name: "Rumhold", is_major: true, coords: (256_700_720, 243_638_780) },
            AllodsBight::Scurvyshire => Entry { local_key: "Scurvyshire", display_name: "Scurvyshire", is_major: true, coords: (372_652_830, 209_967_570) },
            AllodsBight::TheList => Entry { local_key: "TheList", display_name: "The List", is_major: false, coords: (226_675_670, 807_595_970) },
            AllodsBight::TheRumroad => Entry { local_key: "TheRumroad", display_name: "The Rumroad", is_major: false, coords: (188_215_360, 284_238_670) },
            AllodsBight::TheStonePlank => Entry { local_key: "TheStonePlank", display_name: "The Stone Plank", is_major: true, coords: (745_561_300, 446_080_680) },
            AllodsBight::TheTurncoat => Entry { local_key: "TheTurncoat", display_name: "The Turncoat", is_major: true, coords: (388_790_340, 730_780_840) },
            AllodsBight::TitansEnd => Entry { local_key: "TitansEnd", display_name: "Titan's End", is_major: false, coords: (537_410_860, 109_029_606) },
            AllodsBight::WitchsLastFlight => Entry { local_key: "WitchsLastFlight", display_name: "Witch's Last Flight", is_major: false, coords: (618_179_800, 269_637_050) },
        }
    }

    fn all() -> (all: Vec<Self>) {
        vec![
            AllodsBight::ACaptainsRepose, AllodsBight::AllodsChildren,
            AllodsBight::BelayingTrace, AllodsBight::BlunderBight, AllodsBight::BreathofCetus,
            AllodsBight::GangrenousHollow, AllodsBight::HarpysPerch, AllodsBight::Homesick,
            AllodsBight::MercysWail, AllodsBight::Rumhold, AllodsBight::Scurvyshire,
            AllodsBight::TheList, AllodsBight::TheRumroad, AllodsBight::TheStonePlank,
            AllodsBight::TheTurncoat, AllodsBight::TitansEnd, AllodsBight::WitchsLastFlight,
        ]
    }

    fn from_key(key: &str) -> (found: Option<Self>) {
        reveal(AllodsBight::table);
        if str_eq(key, "ACaptainsRepose") {
            Some(AllodsBight::ACaptainsRepose)
        } else if str_eq(key, "AllodsChildren") {
            Some(AllodsBight::AllodsChildren)
        } else if str_eq(key, "BelayingTrace") {
            Some(AllodsBight::BelayingTrace)
        } else if str_eq(key, "BlunderBight") {
            Some(AllodsBight::BlunderBight)
        } else if str_eq(key, "BreathofCetus") {
            Some(AllodsBight::BreathofCetus)
        } else if str_eq(key, "GangrenousHollow") {
            Some(AllodsBight::GangrenousHollow)
        } else if str_eq(key, "HarpysPerch") {
            Some(AllodsBight::HarpysPerch)
        } else if str_eq(key, "Homesick") {
            Some(AllodsBight::Homesick)
        } else if str_eq(key, "MercysWail") {
            Some(AllodsBight::MercysWail)
        } else if str_eq(key, "Rumhold") {
            Some(AllodsBight::Rumhold)
        } else if str_eq(key, "Scurvyshire") {
            Some(AllodsBight::Scurvyshire)
        } else if str_eq(key, "TheList") {
            Some(AllodsBight::TheList)
        } else if str_eq(key, "TheRumroad") {
            Some(AllodsBight::TheRumroad)
        } else if str_eq(key, "TheStonePlank") {
            Some(AllodsBight::TheStonePlank)
        } else if str_eq(key, "TheTurncoat") {
            Some(AllodsBight::TheTurncoat)
        } else if str_eq(key, "TitansEnd") {
            Some(AllodsBight::TitansEnd)
        } else if str_eq(key, "WitchsLastFlight") {
            Some(AllodsBight::WitchsLastFlight)
        } else {
            None
        }
    }

    fn on_map(self) -> (place: MapLocation) {
        MapLocation::AllodsBight(self)
    }

    proof fn lemma_entry(l: Self) {
        reveal(AllodsBight::table);
        reveal_with_fuel(pairs_off, 20);
        match l {
            AllodsBight::ACaptainsRepose => {
                reveal_strlit("ACaptainsRepose");
                reveal_strlit("A Captain's Repose");
                lemma_pairs_off("A Captain's Repose"@, "ACaptainsRepose"@);
            },
            AllodsBight::AllodsChildren => {
                reveal_strlit("AllodsChildren");
                reveal_strlit("Allod's Children");
                lemma_pairs_off("Allod's Children"@, "AllodsChildren"@);
            },
            AllodsBight::BelayingTrace => {
                reveal_strlit("BelayingTrace");
                reveal_strlit("Belaying Trace");
                lemma_pairs_off("Belaying Trace"@, "BelayingTrace"@);
            },
            AllodsBight::BlunderBight => {
                reveal_strlit("BlunderBight");
                reveal_strlit("Blunder Bight");
                lemma_pairs_off("Blunder Bight"@, "BlunderBight"@);
            },
            AllodsBight::BreathofCetus => {
                reveal_strlit("BreathofCetus");
                reveal_strlit("Breath of Cetus");
                lemma_pairs_off("Breath of Cetus"@, "BreathofCetus"@);
            },
            AllodsBight::GangrenousHollow => {
                reveal_strlit("GangrenousHollow");
                reveal_strlit("Gangrenous Hollow");
                lemma_pairs_off("Gangrenous Hollow"@, "GangrenousHollow"@);
            },
            AllodsBight::HarpysPerch => {
                reveal_strlit("HarpysPerch");
                reveal_strlit("Harpy's Perch");
                lemma_pairs_off("Harpy's Perch"@, "HarpysPerch"@);
            },
            AllodsBight::Homesick => {
                reveal_strlit("Homesick");
                lemma_pairs_off("Homesick"@, "Homesick"@);
            },
            AllodsBight::MercysWail => {
                reveal_strlit("MercysWail");
                reveal_strlit("Mercy's Wail");
                lemma_pairs_off("Mercy's Wail"@, "MercysWail"@);
            },
            AllodsBight::Rumhold => {
                reveal_strlit("Rumhold");
                lemma_pairs_off("Rumhold"@, "Rumhold"@);
            },
            AllodsBight::Scurvyshire => {
                reveal_strlit("Scurvyshire");
                lemma_pairs_off("Scurvyshire"@, "Scurvyshire"@);
            },
            AllodsBight::TheList => {
                reveal_strlit("TheList");
                reveal_strlit("The List");
                lemma_pairs_off("The List"@, "TheList"@);
            },
            AllodsBight::TheRumroad => {
                reveal_strlit("TheRumroad");
                reveal_strlit("The Rumroad");
                lemma_pairs_off("The Rumroad"@, "TheRumroad"@);
            },
            AllodsBight::TheStonePlank => {
                reveal_strlit("TheStonePlank");
                reveal_strlit("The Stone Plank");
                lemma_pairs_off("The Stone Plank"@, "TheStonePlank"@);
            },
            AllodsBight::TheTurncoat => {
                reveal_strlit("TheTurncoat");
                reveal_strlit("The Turncoat");
                lemma_pairs_off("The Turncoat"@, "TheTurncoat"@);
            },
            AllodsBight::TitansEnd => {
                reveal_strlit("TitansEnd");
                reveal_strlit("Titan's End");
                lemma_pairs_off("Titan's End"@, "TitansEnd"@);
            },
            AllodsBight::WitchsLastFlight => {
                reveal_strlit("WitchsLastFlight");
                reveal_strlit("Witch's Last Flight");
                lemma_pairs_off("Witch's Last Flight"@, "WitchsLastFlight"@);
            },
        }
    }

    proof fn lemma_keys_distinct(a: Self, b: Self) {
        reveal(AllodsBight::table);
        reveal_strlit("ACaptainsRepose");
        reveal_strlit("AllodsChildren");
        reveal_strlit("BelayingTrace");
        reveal_strlit("BlunderBight");
        reveal_strlit("BreathofCetus");
        reveal_strlit("GangrenousHollow");
        reveal_strlit("HarpysPerch");
        reveal_strlit("Homesick");
        reveal_strlit("MercysWail");
        reveal_strlit("Rumhold");
        reveal_strlit("Scurvyshire");
        reveal_strlit("TheList");
        reveal_strlit("TheRumroad");
        reveal_strlit("TheStonePlank");
        reveal_strlit("TheTurncoat");
        reveal_strlit("TitansEnd");
        reveal_strlit("WitchsLastFlight");
        // Two equal keys agree in length and in every character; no two
        // keys of the table do.
        let x = a.table().local_key@;
        let y = b.table().local_key@;
        assert(x.len() == y.len());
        assert(x[0] == y[0]);
        assert(x[1] == y[1]);
        assert(x[2] == y[2]);
        assert(x[3] == y[3]);
        assert(x[4] == y[4]);
        assert(x[5] == y[5]);
        assert(x[6] == y[6]);
        assert(x[7] == y[7]);
        assert(x[8] == y[8]);
        assert(x[9] == y[9]);
        assert(x[10] == y[10]);
        assert(x[11] == y[11]);
        assert(x[12] == y[12]);
        assert(x[13] == y[13]);
        assert(x[14] == y[14]);
        assert(x[15] == y[15]);
        match a {
            AllodsBight::ACaptainsRepose => assert(b is ACaptainsRepose),
            AllodsBight::AllodsChildren => assert(b is AllodsChildren),
            AllodsBight::BelayingTrace => assert(b is BelayingTrace),
            AllodsBight::BlunderBight => assert(b is BlunderBight),
            AllodsBight::BreathofCetus => assert(b is BreathofCetus),
            AllodsBight::GangrenousHollow => assert(b is GangrenousHollow),
            AllodsBight::HarpysPerch => assert(b is HarpysPerch),
            AllodsBight::Homesick => assert(b is Homesick),
            AllodsBight::MercysWail => assert(b is MercysWail),
            AllodsBight::Rumhold => assert(b is Rumhold),
            AllodsBight::Scurvyshire => assert(b is Scurvyshire),
            AllodsBight::TheList => assert(b is TheList),
            AllodsBight::TheRumroad => assert(b is TheRumroad),
            AllodsBight::TheStonePlank => assert(b is TheStonePlank),
            AllodsBight::TheTurncoat => assert(b is TheTurncoat),
            AllodsBight::TitansEnd => assert(b is TitansEnd),
            AllodsBight::WitchsLastFlight => assert(b is WitchsLastFlight),
        }
    }

    proof fn lemma_all(l: Self) {
        reveal_with_fuel(position, 18);
        reveal_with_fuel(each_first, 18);
        lemma_found(Self::spec_all(), l);
        lemma_no_duplicates(Self::spec_all());
    }

    proof fn lemma_on_map(place: MapLocation) {
        if let MapLocation::AllodsBight(l) = place {
            assert(l.spec_on_map() == place);
        }
    }
}

} // verus!
