//! The locations of the WeatheredExpanse region.

use crate::map::location::Entry;
use crate::map::region::Region;
use crate::map::regional::Regional;
use crate::map::seqs::{each_first, lemma_found, lemma_no_duplicates, position};
use crate::map::MapLocation;
use crate::text::{lemma_pairs_off, pairs_off, str_eq};
use vstd::prelude::*;

verus! {

/// Specific map details for the `WeatheredExpanseHex` tile.
#[derive(Clone, Copy, Debug, PartialEq, Eq)]
pub enum WeatheredExpanse {
    /// Bannerwatch is a minor location
    Bannerwatch,
    /// Barrowsfield is a minor location
    Barrowsfield,
    /// Crow's Nest is a major location
    CrowsNest,
    /// Dullahan's Crest is a minor location
    DullahansCrest,
    /// Eapoe is a minor location
    Eapoe,
    /// Foxcatcher is a major location
    Foxcatcher,
    /// Frostmarch is a major location
    Frostmarch,
    /// Huntsfort is a major location
    Huntsfort,
    /// Kirkyard is a minor location
    Kirkyard,
    /// Necropolis is a major location
    Necropolis,
    /// Port of Rime is a major location
    PortofRime,
    /// Revenant's Path is a minor location
    RevenantsPath,
    /// Rime Wastes is a minor location
    RimeWastes,
    /// Shattered Advance is a major location
    ShatteredAdvance,
    /// Spirit Watch is a major location
    SpiritWatch,
    /// The Ivory Bank is a minor location
    TheIvoryBank,
    /// The Ivory Sea is a minor location
    TheIvorySea,
    /// The Spear is a minor location
    TheSpear,
    /// The Stand is a minor location
    TheStand,
    /// The Weathered Wall is a minor location
    TheWeatheredWall,
    /// The Weathering Halls is a major location
    TheWeatheringHalls,
    /// Wightwalk is a major location
    Wightwalk,
    /// Wraith's Gate is a minor location
    WraithsGate,
}

impl WeatheredExpanse {
    /// The table of the region: the catalogue's entry for each location.
    /// Hidden from the verifier until revealed.
    #[verifier::opaque]
    pub open spec fn table(self) -> Entry {
        match self {
            WeatheredExpanse::Bannerwatch => Entry { local_key: "Bannerwatch", display_name: "Bannerwatch", is_major: false, coords: (44_830_440, 873_446_640) },
            WeatheredExpanse::Barrowsfield => Entry { local_key: "Barrowsfield", display_name: "Barrowsfield", is_major: false, coords: (430_672_940, 465_397_800) },
            WeatheredExpanse::CrowsNest => Entry { local_key: "CrowsNest", display_name: "Crow's Nest", is_major: true, coords: (270_009_880, 522_444_840) },
            WeatheredExpanse::DullahansCrest => Entry { local_key: "DullahansCrest", display_name: "Dullahan's Crest", is_major: false, coords: (149_207_440, 616_903_840) },
            WeatheredExpanse::Eapoe => Entry { local_key: "Eapoe", display_name: "Eapoe", is_major: false, coords: (440_872_100, 671_814_300) },
            WeatheredExpanse::Foxcatcher => Entry { local_key: "Foxcatcher", display_name: "Foxcatcher", is_major: true, coords: (516_481_800, 778_080_100) },
            WeatheredExpanse::Frostmarch => Entry { local_key: "Frostmarch", display_name: "Frostmarch", is_major: true, coords: (154_921_440, 463_194_100) },
            WeatheredExpanse::Huntsfort => Entry { local_key: "Huntsfort", display_name: "Huntsfort", is_major: true, coords: (485_846_940, 534_974_500) },
            WeatheredExpanse::Kirkyard => Entry { local_key: "Kirkyard", display_name: "Kirkyard", is_major: false, coords: (296_807_020, 622_848_000) },
            WeatheredExpanse::Necropolis => Entry { local_key: "Necropolis", display_name: "Necropolis", is_major: true, coords: (347_402_270, 688_721_000) },
            WeatheredExpanse::PortofRime => Entry { local_key: "PortofRime", display_name: "Port of Rime", is_major: true, coords: (682_061_430, 129_766_170) },
            WeatheredExpanse::RevenantsPath => Entry { local_key: "RevenantsPath", display_name: "Revenant's Path", is_major: false, coords: (549_464_300, 153_493_690) },
            WeatheredExpanse::RimeWastes => Entry { local_key: "RimeWastes", display_name: "Rime Wastes", is_major: false, coords: (237_849_700, 390_459_980) },
            WeatheredExpanse::ShatteredAdvance => Entry { local_key: "ShatteredAdvance", display_name: "Shattered Advance", is_major: true, coords: (389_441_970, 308_512_480) },
            WeatheredExpanse::SpiritWatch => Entry { local_key: "SpiritWatch", display_name: "Spirit Watch", is_major: true, coords: (652_389_800, 725_518_900) },
            WeatheredExpanse::TheIvoryBank => Entry { local_key: "TheIvoryBank", display_name: "The Ivory Bank", is_major: false, coords: (421_689_270, 927_023_230) },
            WeatheredExpanse::TheIvorySea => Entry { local_key: "TheIvorySea", display_name: "The Ivory Sea", is_major: false, coords: (176_701_010, 725_721_500) },
            WeatheredExpanse::TheSpear => Entry { local_key: "TheSpear", display_name: "The Spear", is_major: false, coords: (701_114_500, 308_408_900) },
            WeatheredExpanse::TheStand => Entry { local_key: "TheStand", display_name: "The Stand", is_major: false, coords: (89_226_045, 365_076_040) },
            WeatheredExpanse::TheWeatheredWall => Entry { local_key: "TheWeatheredWall", display_name: "The Weathered Wall", is_major: false, coords: (180_463_750, 185_510_470) },
            WeatheredExpanse::TheWeatheringHalls => Entry { local_key: "TheWeatheringHalls", display_name: "The Weathering Halls", is_major: true, coords: (460_954_820, 157_184_000) },
            WeatheredExpanse::Wightwalk => Entry { local_key: "Wightwalk", display_name: "Wightwalk", is_major: true, coords: (690_545_740, 497_868_630) },
            WeatheredExpanse::WraithsGate => Entry { local_key: "WraithsGate", display_name: "Wraith's Gate", is_major: false, coords: (528_720_100, 433_215_950) },
        }
    }
}

impl Regional for WeatheredExpanse {
    open spec fn spec_region() -> Region {
        Region::WeatheredExpanse
    }

    open spec fn spec_entry(&self) -> Entry {
        self.table()
    }

    open spec fn spec_marked(&self) -> bool {
        false
    }

    open spec fn spec_all() -> Seq<Self> {
        seq![
            WeatheredExpanse::Bannerwatch, WeatheredExpanse::Barrowsfield,
            WeatheredExpanse::CrowsNest, WeatheredExpanse::DullahansCrest,
            WeatheredExpanse::Eapoe, WeatheredExpanse::Foxcatcher, WeatheredExpanse::Frostmarch,
            WeatheredExpanse::Huntsfort, WeatheredExpanse::Kirkyard,
            WeatheredExpanse::Necropolis, WeatheredExpanse::PortofRime,
            WeatheredExpanse::RevenantsPath, WeatheredExpanse::RimeWastes,
            WeatheredExpanse::ShatteredAdvance, WeatheredExpanse::SpiritWatch,
            WeatheredExpanse::TheIvoryBank, WeatheredExpanse::TheIvorySea,
            WeatheredExpanse::TheSpear, WeatheredExpanse::TheStand,
            WeatheredExpanse::TheWeatheredWall, WeatheredExpanse::TheWeatheringHalls,
            WeatheredExpanse::Wightwalk, WeatheredExpanse::WraithsGate,
        ]
    }

    open spec fn spec_on_map(self) -> MapLocation {
        MapLocation::WeatheredExpanse(self)
    }

    fn region() -> (region: Region) {
        Region::WeatheredExpanse
    }

    fn entry(&self) -> (entry: Entry) {
        reveal(WeatheredExpanse::table);
        assert(self.spec_entry() == self.table());
        match self {
            WeatheredExpanse::Bannerwatch => Entry { local_key: "Bannerwatch", display_name: "Bannerwatch", is_major: false, coords: (44_830_440, 873_446_640) },
            WeatheredExpanse::Barrowsfield => Entry { local_key: "Barrowsfield", display_name: "Barrowsfield", is_major: false, coords: (430_672_940, 465_397_800) },
            WeatheredExpanse::CrowsNest => Entry { local_key: "CrowsNest", display_name: "Crow's Nest", is_major: true, coords: (270_009_880, 522_444_840) },
            WeatheredExpanse::DullahansCrest => Entry { local_key: "DullahansCrest", display_name: "Dullahan's Crest", is_major: false, coords: (149_207_440, 616_903_840) },
            WeatheredExpanse::Eapoe => Entry { local_key: "Eapoe", display_name: "Eapoe", is_major: false, coords: (440_872_100, 671_814_300) },
            WeatheredExpanse::Foxcatcher => Entry { local_key: "Foxcatcher", display_name: "Foxcatcher", is_major: true, coords: (516_481_800, 778_080_100) },
            WeatheredExpanse::Frostmarch => Entry { local_key: "Frostmarch", display_name: "Frostmarch", is_major: true, coords: (154_921_440, 463_194_100) },
            WeatheredExpanse::Huntsfort => Entry { local_key: "Huntsfort", display_name: "Huntsfort", is_major: true, coords: (485_846_940, 534_974_500) },
            WeatheredExpanse::Kirkyard => Entry { local_key: "Kirkyard", display_name: "Kirkyard", is_major: false, coords: (296_807_020, 622_848_000) },
            WeatheredExpanse::Necropolis => Entry { local_key: "Necropolis", display_name: "Necropolis", is_major: true, coords: (347_402_270, 688_721_000) },
            WeatheredExpanse::PortofRime => Entry { local_key: "PortofRime", display_name: "Port of Rime", is_major: true, coords: (682_061_430, 129_766_170) },
            WeatheredExpanse::RevenantsPath => Entry { local_key: "RevenantsPath", display_name: "Revenant's Path", is_major: false, coords: (549_464_300, 153_493_690) },
            WeatheredExpanse::RimeWastes => Entry { local_key: "RimeWastes", display_name: "Rime Wastes", is_major: false, coords: (237_849_700, 390_459_980) },
            WeatheredExpanse::ShatteredAdvance => Entry { local_key: "ShatteredAdvance", display_name: "Shattered Advance", is_major: true, coords: (389_441_970, 308_512_480) },
            WeatheredExpanse::SpiritWatch => Entry { local_key: "SpiritWatch", display_name: "Spirit Watch", is_major: true, coords: (652_389_800, 725_518_900) },
            WeatheredExpanse::TheIvoryBank => Entry { local_key: "TheIvoryBank", display_name: "The Ivory Bank", is_major: false, coords: (421_689_270, 927_023_230) },
            WeatheredExpanse::TheIvorySea => Entry { local_key: "TheIvorySea", display_name: "The Ivory Sea", is_major: false, coords: (176_701_010, 725_721_500) },
            WeatheredExpanse::TheSpear => Entry { local_key: "TheSpear", display_name: "The Spear", is_major: false, coords: (701_114_500, 308_408_900) },
            WeatheredExpanse::TheStand => Entry { local_key: "TheStand", display_name: "The Stand", is_major: false, coords: (89_226_045, 365_076_040) },
            WeatheredExpanse::TheWeatheredWall => Entry { local_key: "TheWeatheredWall", display_name: "The Weathered Wall", is_major: false, coords: (180_463_750, 185_510_470) },
            WeatheredExpanse::TheWeatheringHalls => Entry { local_key: "TheWeatheringHalls", display_name: "The Weathering Halls", is_major: true, coords: (460_954_820, 157_184_000) },
            WeatheredExpanse::Wightwalk => Entry { local_key: "Wightwalk", display_name: "Wightwalk", is_major: true, coords: (690_545_740, 497_868_630) },
            WeatheredExpanse::WraithsGate => Entry { local_key: "WraithsGate", display_name: "Wraith's Gate", is_major: false, coords: (528_720_100, 433_215_950) },
        }
    }

    fn all() -> (all: Vec<Self>) {
        vec![
            WeatheredExpanse::Bannerwatch, WeatheredExpanse::Barrowsfield,
            WeatheredExpanse::CrowsNest, WeatheredExpanse::DullahansCrest,
            WeatheredExpanse::Eapoe, WeatheredExpanse::Foxcatcher, WeatheredExpanse::Frostmarch,
            WeatheredExpanse::Huntsfort, WeatheredExpanse::Kirkyard,
            WeatheredExpanse::Necropolis, WeatheredExpanse::PortofRime,
            WeatheredExpanse::RevenantsPath, WeatheredExpanse::RimeWastes,
            WeatheredExpanse::ShatteredAdvance, WeatheredExpanse::SpiritWatch,
            WeatheredExpanse::TheIvoryBank, WeatheredExpanse::TheIvorySea,
            WeatheredExpanse::TheSpear, WeatheredExpanse::TheStand,
            WeatheredExpanse::TheWeatheredWall, WeatheredExpanse::TheWeatheringHalls,
            WeatheredExpanse::Wightwalk, WeatheredExpanse::WraithsGate,
        ]
    }

    fn from_key(key: &str) -> (found: Option<Self>) {
        reveal(WeatheredExpanse::table);
        if str_eq(key, "Bannerwatch") {
            Some(WeatheredExpanse::Bannerwatch)
        } else if str_eq(key, "Barrowsfield") {
            Some(WeatheredExpanse::Barrowsfield)
        } else if str_eq(key, "CrowsNest") {
            Some(WeatheredExpanse::CrowsNest)
        } else if str_eq(key, "DullahansCrest") {
            Some(WeatheredExpanse::DullahansCrest)
        } else if str_eq(key, "Eapoe") {
            Some(WeatheredExpanse::Eapoe)
        } else if str_eq(key, "Foxcatcher") {
            Some(WeatheredExpanse::Foxcatcher)
        } else if str_eq(key, "Frostmarch") {
            Some(WeatheredExpanse::Frostmarch)
        } else if str_eq(key, "Huntsfort") {
            Some(WeatheredExpanse::Huntsfort)
        } else if str_eq(key, "Kirkyard") {
            Some(WeatheredExpanse::Kirkyard)
        } else if str_eq(key, "Necropolis") {
            Some(WeatheredExpanse::Necropolis)
        } else if str_eq(key, "PortofRime") {
            Some(WeatheredExpanse::PortofRime)
        } else if str_eq(key, "RevenantsPath") {
            Some(WeatheredExpanse::RevenantsPath)
        } else if str_eq(key, "RimeWastes") {
            Some(WeatheredExpanse::RimeWastes)
        } else if str_eq(key, "ShatteredAdvance") {
            Some(WeatheredExpanse::ShatteredAdvance)
        } else if str_eq(key, "SpiritWatch") {
            Some(WeatheredExpanse::SpiritWatch)
        } else if str_eq(key, "TheIvoryBank") {
            Some(WeatheredExpanse::TheIvoryBank)
        } else if str_eq(key, "TheIvorySea") {
            Some(WeatheredExpanse::TheIvorySea)
        } else if str_eq(key, "TheSpear") {
            Some(WeatheredExpanse::TheSpear)
        } else if str_eq(key, "TheStand") {
            Some(WeatheredExpanse::TheStand)
        } else if str_eq(key, "TheWeatheredWall") {
            Some(WeatheredExpanse::TheWeatheredWall)
        } else if str_eq(key, "TheWeatheringHalls") {
            Some(WeatheredExpanse::TheWeatheringHalls)
        } else if str_eq(key, "Wightwalk") {
            Some(WeatheredExpanse::Wightwalk)
        } else if str_eq(key, "WraithsGate") {
            Some(WeatheredExpanse::WraithsGate)
        } else {
            None
        }
    }

    fn on_map(self) -> (place: MapLocation) {
        MapLocation::WeatheredExpanse(self)
    }

    proof fn lemma_entry(l: Self) {
        reveal(WeatheredExpanse::table);
        reveal_with_fuel(pairs_off, 21);
        match l {
            WeatheredExpanse::Bannerwatch => {
                reveal_strlit("Bannerwatch");
                lemma_pairs_off("Bannerwatch"@, "Bannerwatch"@);
            },
            WeatheredExpanse::Barrowsfield => {
                reveal_strlit("Barrowsfield");
                lemma_pairs_off("Barrowsfield"@, "Barrowsfield"@);
            },
            WeatheredExpanse::CrowsNest => {
                reveal_strlit("CrowsNest");
                reveal_strlit("Crow's Nest");
                lemma_pairs_off("Crow's Nest"@, "CrowsNest"@);
            },
            WeatheredExpanse::DullahansCrest => {
                reveal_strlit("DullahansCrest");
                reveal_strlit("Dullahan's Crest");
                lemma_pairs_off("Dullahan's Crest"@, "DullahansCrest"@);
            },
            WeatheredExpanse::Eapoe => {
                reveal_strlit("Eapoe");
                lemma_pairs_off("Eapoe"@, "Eapoe"@);
            },
            WeatheredExpanse::Foxcatcher => {
                reveal_strlit("Foxcatcher");
                lemma_pairs_off("Foxcatcher"@, "Foxcatcher"@);
            },
            WeatheredExpanse::Frostmarch => {
                reveal_strlit("Frostmarch");
                lemma_pairs_off("Frostmarch"@, "Frostmarch"@);
            },
            WeatheredExpanse::Huntsfort => {
                reveal_strlit("Huntsfort");
                lemma_pairs_off("Huntsfort"@, "Huntsfort"@);
            },
            WeatheredExpanse::Kirkyard => {
                reveal_strlit("Kirkyard");
                lemma_pairs_off("Kirkyard"@, "Kirkyard"@);
            },
            WeatheredExpanse::Necropolis => {
                reveal_strlit("Necropolis");
                lemma_pairs_off("Necropolis"@, "Necropolis"@);
            },
            WeatheredExpanse::PortofRime => {
                reveal_strlit("PortofRime");
                reveal_strlit("Port of Rime");
                lemma_pairs_off("Port of Rime"@, "PortofRime"@);
            },
            WeatheredExpanse::RevenantsPath => {
                reveal_strlit("RevenantsPath");
                reveal_strlit("Revenant's Path");
                lemma_pairs_off("Revenant's Path"@, "RevenantsPath"@);
            },
            WeatheredExpanse::RimeWastes => {
                reveal_strlit("RimeWastes");
                reveal_strlit("Rime Wastes");
                lemma_pairs_off("Rime Wastes"@, "RimeWastes"@);
            },
            WeatheredExpanse::ShatteredAdvance => {
                reveal_strlit("ShatteredAdvance");
                reveal_strlit("Shattered Advance");
                lemma_pairs_off("Shattered Advance"@, "ShatteredAdvance"@);
            },
            WeatheredExpanse::SpiritWatch => {
                reveal_strlit("SpiritWatch");
                reveal_strlit("Spirit Watch");
                lemma_pairs_off("Spirit Watch"@, "SpiritWatch"@);
            },
            WeatheredExpanse::TheIvoryBank => {
                reveal_strlit("TheIvoryBank");
                reveal_strlit("The Ivory Bank");
                lemma_pairs_off("The Ivory Bank"@, "TheIvoryBank"@);
            },
            WeatheredExpanse::TheIvorySea => {
                reveal_strlit("TheIvorySea");
                reveal_strlit("The Ivory Sea");
                lemma_pairs_off("The Ivory Sea"@, "TheIvorySea"@);
            },
            WeatheredExpanse::TheSpear => {
                reveal_strlit("TheSpear");
                reveal_strlit("The Spear");
                lemma_pairs_off("The Spear"@, "TheSpear"@);
            },
            WeatheredExpanse::TheStand => {
                reveal_strlit("TheStand");
                reveal_strlit("The Stand");
                lemma_pairs_off("The Stand"@, "TheStand"@);
            },
            WeatheredExpanse::TheWeatheredWall => {
                reveal_strlit("TheWeatheredWall");
                reveal_strlit("The Weathered Wall");
                lemma_pairs_off("The Weathered Wall"@, "TheWeatheredWall"@);
            },
            WeatheredExpanse::TheWeatheringHalls => {
                reveal_strlit("TheWeatheringHalls");
                reveal_strlit("The Weathering Halls");
                lemma_pairs_off("The Weathering Halls"@, "TheWeatheringHalls"@);
            },
            WeatheredExpanse::Wightwalk => {
                reveal_strlit("Wightwalk");
                lemma_pairs_off("Wightwalk"@, "Wightwalk"@);
            },
            WeatheredExpanse::WraithsGate => {
                reveal_strlit("WraithsGate");
                reveal_strlit("Wraith's Gate");
                lemma_pairs_off("Wraith's Gate"@, "WraithsGate"@);
            },
        }
    }

    proof fn lemma_keys_distinct(a: Self, b: Self) {
        reveal(WeatheredExpanse::table);
        reveal_strlit("Bannerwatch");
        reveal_strlit("Barrowsfield");
        reveal_strlit("CrowsNest");
        reveal_strlit("DullahansCrest");
        reveal_strlit("Eapoe");
        reveal_strlit("Foxcatcher");
        reveal_strlit("Frostmarch");
        reveal_strlit("Huntsfort");
        reveal_strlit("Kirkyard");
        reveal_strlit("Necropolis");
        reveal_strlit("PortofRime");
        reveal_strlit("RevenantsPath");
        reveal_strlit("RimeWastes");
        reveal_strlit("ShatteredAdvance");
        reveal_strlit("SpiritWatch");
        reveal_strlit("TheIvoryBank");
        reveal_strlit("TheIvorySea");
        reveal_strlit("TheSpear");
        reveal_strlit("TheStand");
        reveal_strlit("TheWeatheredWall");
        reveal_strlit("TheWeatheringHalls");
        reveal_strlit("Wightwalk");
        reveal_strlit("WraithsGate");
        // Two equal keys agree in length and in every character; no two
        // keys of the table do.
        let x = a.table().local_key@;
        let y = b.table().local_key@;
        assert(x.len() == y.len());
        assert(x[0] == y[0]);
        assert(x[1] == y[1]);
        assert(x[2] == y[2]);
        assert(x[3] == y[3]);
        assert(x[4] == y[4]);
        assert(x[5] == y[5]);
        assert(x[6] == y[6]);
        assert(x[7] == y[7]);
        assert(x[8] == y[8]);
        assert(x[9] == y[9]);
        assert(x[10] == y[10]);
        assert(x[11] == y[11]);
        assert(x[12] == y[12]);
        assert(x[13] == y[13]);
        assert(x[14] == y[14]);
        assert(x[15] == y[15]);
        assert(x[16] == y[16]);
        assert(x[17] == y[17]);
        match a {
            WeatheredExpanse::Bannerwatch => assert(b is Bannerwatch),
            WeatheredExpanse::Barrowsfield => assert(b is Barrowsfield),
            WeatheredExpanse::CrowsNest => assert(b is CrowsNest),
            WeatheredExpanse::DullahansCrest => assert(b is DullahansCrest),
            WeatheredExpanse::Eapoe => assert(b is Eapoe),
            WeatheredExpanse::Foxcatcher => assert(b is Foxcatcher),
            WeatheredExpanse::Frostmarch => assert(b is Frostmarch),
            WeatheredExpanse::Huntsfort => assert(b is Huntsfort),
            WeatheredExpanse::Kirkyard => assert(b is Kirkyard),
            WeatheredExpanse::Necropolis => assert(b is Necropolis),
            WeatheredExpanse::PortofRime => assert(b is PortofRime),
            WeatheredExpanse::RevenantsPath => assert(b is RevenantsPath),
            WeatheredExpanse::RimeWastes => assert(b is RimeWastes),
            WeatheredExpanse::ShatteredAdvance => assert(b is ShatteredAdvance),
            WeatheredExpanse::SpiritWatch => assert(b is SpiritWatch),
            WeatheredExpanse::TheIvoryBank => assert(b is TheIvoryBank),
            WeatheredExpanse::TheIvorySea => assert(b is TheIvorySea),
            WeatheredExpanse::TheSpear => assert(b is TheSpear),
            WeatheredExpanse::TheStand => assert(b is TheStand),
            WeatheredExpanse::TheWeatheredWall => assert(b is TheWeatheredWall),
            WeatheredExpanse::TheWeatheringHalls => assert(b is TheWeatheringHalls),
            WeatheredExpanse::Wightwalk => assert(b is Wightwalk),
            WeatheredExpanse::WraithsGate => assert(b is WraithsGate),
        }
    }

    proof fn lemma_all(l: Self) {
        reveal_with_fuel(position, 24);
        reveal_with_fuel(each_first, 24);
        lemma_found(Self::spec_all(), l);
        lemma_no_duplicates(Self::spec_all());
    }

    proof fn lemma_on_map(place: MapLocation) {
        if let MapLocation::WeatheredExpanse(l) = place {
            assert(l.spec_on_map() == place);
        }
    }
}

} // verus!
