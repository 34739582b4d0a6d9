//! The locations of the DrownedVale region.

use crate::map::location::Entry;
use crate::map::region::Region;
use crate::map::regional::Regional;
use crate::map::seqs::{each_first, lemma_found, lemma_no_duplicates, position};
use crate::map::MapLocation;
use crate::text::{lemma_pairs_off, pairs_off, str_eq};
use vstd::prelude::*;

verus! {

/// Specific map details for the `DrownedValeHex` tile.
#[derive(Clone, Copy, Debug, PartialEq, Eq)]
pub enum DrownedVale {
    /// Bootnap is a major location
    Bootnap,
    /// Coaldrifter Stead is a major location
    CoaldrifterStead,
    /// Eastmarch is a major location
    Eastmarch,
    /// Esterfal is a minor location
    Esterfal,
    /// Fleetsfall River is a minor location
    FleetsfallRiver,
    /// Linger is a minor location
    Linger,
    /// Loggerhead is a major location
    Loggerhead,
    /// Singing Serpents is a major location
    SingingSerpents,
    /// Sop Fields is a minor location
    SopFields,
    /// Splinter Pens is a major location
    SplinterPens,
    /// Sprite's Game is a minor location
    SpritesGame,
    /// The Baths is a major location
    TheBaths,
    /// The Other Vein is a minor location
    TheOtherVein,
    /// The Saltcaps is a major location
    TheSaltcaps,
    /// The Turtlerocks is a minor location
    TheTurtlerocks,
    /// The Wash is a major location
    TheWash,
    /// The Willow Wood is a minor location
    TheWillowWood,
    /// Vessel is a major location
    Vessel,
    /// Wisp's Warning is a major location
    WispsWarning,
}

impl DrownedVale {
    /// The table of the region: the catalogue's entry for each location.
    /// Hidden from the verifier until revealed.
    #[verifier::opaque]
    pub open spec fn table(self) -> Entry {
        match self {
            DrownedVale::Bootnap => Entry { local_key: "Bootnap", display_name: "Bootnap", is_major: true, coords: (808_421_250, 558_279_500) },
            DrownedVale::CoaldrifterStead => Entry { local_key: "CoaldrifterStead", display_name: "Coaldrifter Stead", is_major: true, coords: (662_318_050, 822_846_650) },
            DrownedVale::Eastmarch => Entry { local_key: "Eastmarch", display_name: "Eastmarch", is_major: true, coords: (233_547_900, 527_809_700) },
            DrownedVale::Esterfal => Entry { local_key: "Esterfal", display_name: "Esterfal", is_major: false, coords: (786_803_500, 695_558_600) },
            DrownedVale::FleetsfallRiver => Entry { local_key: "FleetsfallRiver", display_name: "Fleetsfall River", is_major: false, coords: (485_967_960, 83_520_510) },
            DrownedVale::Linger => Entry { local_key: "Linger", display_name: "Linger", is_major: false, coords: (484_415_500, 344_762_600) },
            DrownedVale::Loggerhead => Entry { local_key: "Loggerhead", display_name: "Loggerhead", is_major: true, coords: (415_038_500, 207_947_520) },
            DrownedVale::SingingSerpents => Entry { local_key: "SingingSerpents", display_name: "Singing Serpents", is_major: true, coords: (663_206_700, 312_749_680) },
            DrownedVale::SopFields => Entry { local_key: "SopFields", display_name: "Sop Fields", is_major: false, coords: (519_886_550, 673_201_700) },
            DrownedVale::SplinterPens => Entry { local_key: "SplinterPens", display_name: "Splinter Pens", is_major: true, coords: (471_951_540, 800_865_200) },
            DrownedVale::SpritesGame => Entry { local_key: "SpritesGame", display_name: "Sprite's Game", is_major: false, coords: (326_435_630, 432_937_200) },
            DrownedVale::TheBaths => Entry { local_key: "TheBaths", display_name: "The Baths", is_major: true, coords: (568_361_800, 526_070_540) },
            DrownedVale::TheOtherVein => Entry { local_key: "TheOtherVein", display_name: "The Other Vein", is_major: false, coords: (120_904_915, 600_111_600) },
            DrownedVale::TheSaltcaps => Entry { local_key: "TheSaltcaps", display_name: "The Saltcaps", is_major: true, coords: (633_008_360, 169_289_260) },
            DrownedVale::TheTurtlerocks => Entry { local_key: "TheTurtlerocks", display_name: "The Turtlerocks", is_major: false, coords: (579_428_400, 358_450_560) },
            DrownedVale::TheWash => Entry { local_key: "TheWash", display_name: "The Wash", is_major: true, coords: (381_508_140, 512_185_600) },
            DrownedVale::TheWillowWood => Entry { local_key: "TheWillowWood", display_name: "The Willow Wood", is_major: false, coords: (307_387_740, 837_474_300) },
            DrownedVale::Vessel => Entry { local_key: "Vessel", display_name: "Vessel", is_major: true, coords: (363_512_550, 715_022_000) },
            DrownedVale::WispsWarning => Entry { local_key: "WispsWarning", display_name: "Wisp's Warning", is_major: true, coords: (330_816_330, 293_791_230) },
        }
    }
}

impl Regional for DrownedVale {
    open spec fn spec_region() -> Region {
        Region::DrownedVale
    }

    open spec fn spec_entry(&self) -> Entry {
        self.table()
    }

    open spec fn spec_marked(&self) -> bool {
        false
    }

    open spec fn spec_all() -> Seq<Self> {
        seq![
            DrownedVale::Bootnap, DrownedVale::CoaldrifterStead, DrownedVale::Eastmarch,
            DrownedVale::Esterfal, DrownedVale::FleetsfallRiver, DrownedVale::Linger,
            DrownedVale::Loggerhead, DrownedVale::SingingSerpents, DrownedVale::SopFields,
            DrownedVale::SplinterPens, DrownedVale::SpritesGame, DrownedVale::TheBaths,
            DrownedVale::TheOtherVein, DrownedVale::TheSaltcaps, DrownedVale::TheTurtlerocks,
            DrownedVale::TheWash, DrownedVale::TheWillowWood, DrownedVale::Vessel,
            DrownedVale::WispsWarning,
        ]
    }

    open spec fn spec_on_map(self) -> MapLocation {
        MapLocation::DrownedVale(self)
    }

    fn region() -> (region: Region) {
        Region::DrownedVale
    }

    fn entry(&self) -> (entry: Entry) {
        reveal(DrownedVale::table);
        assert(self.spec_entry() == self.table());
        match self {
            DrownedVale::Bootnap => Entry { local_key: "Bootnap", display_name: "Bootnap", is_major: true, coords: (808_421_250, 558_279_500) },
            DrownedVale::CoaldrifterStead => Entry { local_key: "CoaldrifterStead", display_name: "Coaldrifter Stead", is_major: true, coords: (662_318_050, 822_846_650) },
            DrownedVale::Eastmarch => Entry { local_key: "Eastmarch", display_name: "Eastmarch", is_major: true, coords: (233_547_900, 527_809_700) },
            DrownedVale::Esterfal => Entry { local_key: "Esterfal", display_name: "Esterfal", is_major: false, coords: (786_803_500, 695_558_600) },
            DrownedVale::FleetsfallRiver => Entry { local_key: "FleetsfallRiver", display_name: "Fleetsfall River", is_major: false, coords: (485_967_960, 83_520_510) },
            DrownedVale::Linger => Entry { local_key: "Linger", display_name: "Linger", is_major: false, coords: (484_415_500, 344_762_600) },
            DrownedVale::Loggerhead => Entry { local_key: "Loggerhead", display_name: "Loggerhead", is_major: true, coords: (415_038_500, 207_947_520) },
            DrownedVale::SingingSerpents => Entry { local_key: "SingingSerpents", display_name: "Singing Serpents", is_major: true, coords: (663_206_700, 312_749_680) },
            DrownedVale::SopFields => Entry { local_key: "SopFields", display_name: "Sop Fields", is_major: false, coords: (519_886_550, 673_201_700) },
            DrownedVale::SplinterPens => Entry { local_key: "SplinterPens", display_name: "Splinter Pens", is_major: true, coords: (471_951_540, 800_865_200) },
            DrownedVale::SpritesGame => Entry { local_key: "SpritesGame", display_name: "Sprite's Game", is_major: false, coords: (326_435_630, 432_937_200) },
            DrownedVale::TheBaths => Entry { local_key: "TheBaths", display_name: "The Baths", is_major: true, coords: (568_361_800, 526_070_540) },
            DrownedVale::TheOtherVein => Entry { local_key: "TheOtherVein", display_name: "The Other Vein", is_major: false, coords: (120_904_915, 600_111_600) },
            DrownedVale::TheSaltcaps => Entry { local_key: "TheSaltcaps", display_name: "The Saltcaps", is_major: true, coords: (633_008_360, 169_289_260) },
            DrownedVale::TheTurtlerocks => Entry { local_key: "TheTurtlerocks", display_name: "The Turtlerocks", is_major: false, coords: (579_428_400, 358_450_560) },
            DrownedVale::TheWash => Entry { local_key: "TheWash", display_name: "The Wash", is_major: true, coords: (381_508_140, 512_185_600) },
            DrownedVale::TheWillowWood => Entry { local_key: "TheWillowWood", display_name: "The Willow Wood", is_major: false, coords: (307_387_740, 837_474_300) },
            DrownedVale::Vessel => Entry { local_key: "Vessel", display_name: "Vessel", is_major: true, coords: (363_512_550, 715_022_000) },
            DrownedVale::WispsWarning => Entry { local_key: "WispsWarning", display_name: "Wisp's Warning", is_major: true, coords: (330_816_330, 293_791_230) },
        }
    }

    fn all() -> (all: Vec<Self>) {
        vec![
            DrownedVale::Bootnap, DrownedVale::CoaldrifterStead, DrownedVale::Eastmarch,
            DrownedVale::Esterfal, DrownedVale::FleetsfallRiver, DrownedVale::Linger,
            DrownedVale::Loggerhead, DrownedVale::SingingSerpents, DrownedVale::SopFields,
            DrownedVale::SplinterPens, DrownedVale::SpritesGame, DrownedVale::TheBaths,
            DrownedVale::TheOtherVein, DrownedVale::TheSaltcaps, DrownedVale::TheTurtlerocks,
            DrownedVale::TheWash, DrownedVale::TheWillowWood, DrownedVale::Vessel,
            DrownedVale::WispsWarning,
        ]
    }

    fn from_key(key: &str) -> (found: Option<Self>) {
        reveal(DrownedVale::table);
        if str_eq(key, "Bootnap") {
            Some(DrownedVale::Bootnap)
        } else if str_eq(key, "CoaldrifterStead") {
            Some(DrownedVale::CoaldrifterStead)
        } else if str_eq(key, "Eastmarch") {
            Some(DrownedVale::Eastmarch)
        } else if str_eq(key, "Esterfal") {
            Some(DrownedVale::Esterfal)
        } else if str_eq(key, "FleetsfallRiver") {
            Some(DrownedVale::FleetsfallRiver)
        } else if str_eq(key, "Linger") {
            Some(DrownedVale::Linger)
        } else if str_eq(key, "Loggerhead") {
            Some(DrownedVale::Loggerhead)
        } else if str_eq(key, "SingingSerpents") {
            Some(DrownedVale::SingingSerpents)
        } else if str_eq(key, "SopFields") {
            Some(DrownedVale::SopFields)
        } else if str_eq(key, "SplinterPens") {
            Some(DrownedVale::SplinterPens)
        } else if str_eq(key, "SpritesGame") {
            Some(DrownedVale::SpritesGame)
        } else if str_eq(key, "TheBaths") {
            Some(DrownedVale::TheBaths)
        } else if str_eq(key, "TheOtherVein") {
            Some(DrownedVale::TheOtherVein)
        } else if str_eq(key, "TheSaltcaps") {
            Some(DrownedVale::TheSaltcaps)
        } else if str_eq(key, "TheTurtlerocks") {
            Some(DrownedVale::TheTurtlerocks)
        } else if str_eq(key, "TheWash") {
            Some(DrownedVale::TheWash)
        } else if str_eq(key, "TheWillowWood") {
            Some(DrownedVale::TheWillowWood)
        } else if str_eq(key, "Vessel") {
            Some(DrownedVale::Vessel)
        } else if str_eq(key, "WispsWarning") {
            Some(DrownedVale::WispsWarning)
        } else {
            None
        }
    }

    fn on_map(self) -> (place: MapLocation) {
        MapLocation::DrownedVale(self)
    }

    proof fn lemma_entry(l: Self) {
        reveal(DrownedVale::table);
        reveal_with_fuel(pairs_off, 18);
        match l {
            DrownedVale::Bootnap => {
                reveal_strlit("Bootnap");
                lemma_pairs_off("Bootnap"@, "Bootnap"@);
            },
            DrownedVale::CoaldrifterStead => {
                reveal_strlit("CoaldrifterStead");
                reveal_strlit("Coaldrifter Stead");
                lemma_pairs_off("Coaldrifter Stead"@, "CoaldrifterStead"@);
            },
            DrownedVale::Eastmarch => {
                reveal_strlit("Eastmarch");
                lemma_pairs_off("Eastmarch"@, "Eastmarch"@);
            },
            DrownedVale::Esterfal => {
                reveal_strlit("Esterfal");
                lemma_pairs_off("Esterfal"@, "Esterfal"@);
            },
            DrownedVale::FleetsfallRiver => {
                reveal_strlit("FleetsfallRiver");
                reveal_strlit("Fleetsfall River");
                lemma_pairs_off("Fleetsfall River"@, "FleetsfallRiver"@);
            },
            DrownedVale::Linger => {
                reveal_strlit("Linger");
                lemma_pairs_off("Linger"@, "Linger"@);
            },
            DrownedVale::Loggerhead => {
                reveal_strlit("Loggerhead");
                lemma_pairs_off("Loggerhead"@, "Loggerhead"@);
            },
            DrownedVale::SingingSerpents => {
                reveal_strlit("SingingSerpents");
                reveal_strlit("Singing Serpents");
                lemma_pairs_off("Singing Serpents"@, "SingingSerpents"@);
            },
            DrownedVale::SopFields => {
                reveal_strlit("SopFields");
                reveal_strlit("Sop Fields");
                lemma_pairs_off("Sop Fields"@, "SopFields"@);
            },
            DrownedVale::SplinterPens => {
                reveal_strlit("SplinterPens");
                reveal_strlit("Splinter Pens");
                lemma_pairs_off("Splinter Pens"@, "SplinterPens"@);
            },
            DrownedVale::SpritesGame => {
                reveal_strlit("SpritesGame");
                reveal_strlit("Sprite's Game");
                lemma_pairs_off("Sprite's Game"@, "SpritesGame"@);
            },
            DrownedVale::TheBaths => {
                reveal_strlit("TheBaths");
                reveal_strlit("The Baths");
                lemma_pairs_off("The Baths"@, "TheBaths"@);
            },
            DrownedVale::TheOtherVein => {
                reveal_strlit("TheOtherVein");
                reveal_strlit("The Other Vein");
                lemma_pairs_off("The Other Vein"@, "TheOtherVein"@);
            },
            DrownedVale::TheSaltcaps => {
                reveal_strlit("TheSaltcaps");
                reveal_strlit("The Saltcaps");
                lemma_pairs_off("The Saltcaps"@, "TheSaltcaps"@);
            },
            DrownedVale::TheTurtlerocks => {
                reveal_strlit("TheTurtlerocks");
                reveal_strlit("The Turtlerocks");
                lemma_pairs_off("The Turtlerocks"@, "TheTurtlerocks"@);
            },
            DrownedVale::TheWash => {
                reveal_strlit("TheWash");
                reveal_strlit("The Wash");
                lemma_pairs_off("The Wash"@, "TheWash"@);
            },
            DrownedVale::TheWillowWood => {
                reveal_strlit("TheWillowWood");
                reveal_strlit("The Willow Wood");
                lemma_pairs_off("The Willow Wood"@, "TheWillowWood"@);
            },
            DrownedVale::Vessel => {
                reveal_strlit("Vessel");
                lemma_pairs_off("Vessel"@, "Vessel"@);
            },
            DrownedVale::WispsWarning => {
                reveal_strlit("WispsWarning");
                reveal_strlit("Wisp's Warning");
                lemma_pairs_off("Wisp's Warning"@, "WispsWarning"@);
            },
        }
    }

    proof fn lemma_keys_distinct(a: Self, b: Self) {
        reveal(DrownedVale::table);
        reveal_strlit("Bootnap");
        reveal_strlit("CoaldrifterStead");
        reveal_strlit("Eastmarch");
        reveal_strlit("Esterfal");
        reveal_strlit("FleetsfallRiver");
        reveal_strlit("Linger");
        reveal_strlit("Loggerhead");
        reveal_strlit("SingingSerpents");
        reveal_strlit("SopFields");
        reveal_strlit("SplinterPens");
        reveal_strlit("SpritesGame");
        reveal_strlit("TheBaths");
        reveal_strlit("TheOtherVein");
        reveal_strlit("TheSaltcaps");
        reveal_strlit("TheTurtlerocks");
        reveal_strlit("TheWash");
        reveal_strlit("TheWillowWood");
        reveal_strlit("Vessel");
        reveal_strlit("WispsWarning");
        // Two equal keys agree in length and in every character; no two
        // keys of the table do.
        let x = a.table().local_key@;
        let y = b.table().local_key@;
        assert(x.len() == y.len());
        assert(x[0] == y[0]);
        assert(x[1] == y[1]);
        assert(x[2] == y[2]);
        assert(x[3] == y[3]);
        assert(x[4] == y[4]);
        assert(x[5] == y[5]);
        assert(x[6] == y[6]);
        assert(x[7] == y[7]);
        assert(x[8] == y[8]);
        assert(x[9] == y[9]);
        assert(x[10] == y[10]);
        assert(x[11] == y[11]);
        assert(x[12] == y[12]);
        assert(x[13] == y[13]);
        assert(x[14] == y[14]);
        assert(x[15] == y[15]);
        match a {
            DrownedVale::Bootnap => assert(b is Bootnap),
            DrownedVale::CoaldrifterStead => assert(b is CoaldrifterStead),
            DrownedVale::Eastmarch => assert(b is Eastmarch),
            DrownedVale::Esterfal => assert(b is Esterfal),
            DrownedVale::FleetsfallRiver => assert(b is FleetsfallRiver),
            DrownedVale::Linger => assert(b is Linger),
            DrownedVale::Loggerhead => assert(b is Loggerhead),
            DrownedVale::SingingSerpents => assert(b is SingingSerpents),
            DrownedVale::SopFields => assert(b is SopFields),
            DrownedVale::SplinterPens => assert(b is SplinterPens),
            DrownedVale::SpritesGame => assert(b is SpritesGame),
            DrownedVale::TheBaths => assert(b is TheBaths),
            DrownedVale::TheOtherVein => assert(b is TheOtherVein),
            DrownedVale::TheSaltcaps => assert(b is TheSaltcaps),
            DrownedVale::TheTurtlerocks => assert(b is TheTurtlerocks),
            DrownedVale::TheWash => assert(b is TheWash),
            DrownedVale::TheWillowWood => assert(b is TheWillowWood),
            DrownedVale::Vessel => assert(b is Vessel),
            DrownedVale::WispsWarning => assert(b is WispsWarning),
        }
    }

    proof fn lemma_all(l: Self) {
        reveal_with_fuel(position, 20);
        reveal_with_fuel(each_first, 20);
        lemma_found(Self::spec_all(), l);
        lemma_no_duplicates(Self::spec_all());
    }

    proof fn lemma_on_map(place: MapLocation) {
        if let MapLocation::DrownedVale(l) = place {
            assert(l.spec_on_map() == place);
        }
    }
}

} // verus!
