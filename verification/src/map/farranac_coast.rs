//! The locations of the FarranacCoast region.

use crate::map::location::Entry;
use crate::map::region::Region;
use crate::map::regional::Regional;
use crate::map::seqs::{each_first, lemma_found, lemma_no_duplicates, position};
use crate::map::MapLocation;
use crate::text::{lemma_pairs_off, pairs_off, str_eq};
use vstd::prelude::*;

verus! {

/// Specific map details for the `FarranacCoastHex` tile.
#[derive(Clone, Copy, Debug, PartialEq, Eq)]
pub enum FarranacCoast {
    /// Apollo's Landing is a minor location
    ApollosLanding,
    /// Carrion Fields is a minor location
    CarrionFields,
    /// Cora Lushlands is a minor location
    CoraLushlands,
    /// Cormac Beach is a minor location
    CormacBeach,
    /// Gulf of the Daughters is a minor location
    GulfoftheDaughters,
    /// Hermes Inlet is a minor location
    HermesInlet,
    /// Huskhollow is a major location
    Huskhollow,
    /// Iuxta Homestead is a major location
    IuxtaHomestead,
    /// Kardia is a minor location
    Kardia,
    /// Liberation Street is a minor location
    LiberationStreet,
    /// Macha's Keening is a major location
    MachasKeening,
    /// Mara is a major location
    Mara,
    /// McCarthy Fields is a minor location
    McCarthyFields,
    /// Mooring Dens is a minor location
    MooringDens,
    /// Pleading Wharf is a major location
    PleadingWharf,
    /// Scarp of Ambrose is a major location
    ScarpofAmbrose,
    /// Scythe is a major location
    Scythe,
    /// Sickle Hill is a minor location
    SickleHill,
    /// Skeleton Road is a minor location
    SkeletonRoad,
    /// Sunder Beach is a minor location
    SunderBeach,
    /// Terra is a major location
    Terra,
    /// The Bay of Artemis is a minor location
    TheBayofArtemis,
    /// The Bone Haft is a major location
    TheBoneHaft,
    /// The Heart Road is a minor location
    TheHeartRoad,
    /// The Iron Beach is a minor location
    TheIronBeach,
    /// The Jade Cove is a major location
    TheJadeCove,
    /// The Mirror is a minor location
    TheMirror,
    /// The Reaping Fields is a minor location
    TheReapingFields,
    /// The River Mercy is a minor location
    TheRiverMercy,
    /// The Snag is a minor location
    TheSnag,
    /// The Spearhead is a major location
    TheSpearhead,
    /// The Winged Walk is a minor location
    TheWingedWalk,
    /// Transient Valley is a minor location
    TransientValley,
    /// Victa is a major location
    Victa,
}

impl FarranacCoast {
    /// The table of the region: the catalogue's entry for each location.
    /// Hidden from the verifier until revealed.
    #[verifier::opaque]
    pub open spec fn table(self) -> Entry {
        match self {
            FarranacCoast::ApollosLanding => Entry { local_key: "ApollosLanding", display_name: "Apollo's Landing", is_major: false, coords: (431_492_700, 579_765_260) },
            FarranacCoast::CarrionFields => Entry { local_key: "CarrionFields", display_name: "Carrion Fields", is_major: false, coords: (616_622_570, 457_854_480) },
            FarranacCoast::CoraLushlands => Entry { local_key: "CoraLushlands", display_name: "Cora Lushlands", is_major: false, coords: (545_855_940, 867_111_300) },
            FarranacCoast::CormacBeach => Entry { local_key: "CormacBeach", display_name: "Cormac Beach", is_major: false, coords: (472_738_400, 783_479_870) },
            FarranacCoast::GulfoftheDaughters => Entry { local_key: "GulfoftheDaughters", display_name: "Gulf of the Daughters", is_major: false, coords: (16_857_829, 583_298_740) },
            FarranacCoast::HermesInlet => Entry { local_key: "HermesInlet", display_name: "Hermes Inlet", is_major: false, coords: (270_748_900, 432_295_000) },
            FarranacCoast::Huskhollow => Entry { local_key: "Huskhollow", display_name: "Huskhollow", is_major: true, coords: (586_091_900, 562_780_740) },
            FarranacCoast::IuxtaHomestead => Entry { local_key: "IuxtaHomestead", display_name: "Iuxta Homestead", is_major: true, coords: (712_717_200, 195_466_220) },
            FarranacCoast::Kardia => Entry { local_key: "Kardia", display_name: "Kardia", is_major: false, coords: (626_105_900, 865_180_130) },
            FarranacCoast::LiberationStreet => Entry { local_key: "LiberationStreet", display_name: "Liberation Street", is_major: false, coords: (831_481_500, 845_824_300) },
            FarranacCoast::MachasKeening => Entry { local_key: "MachasKeening", display_name: "Macha's Keening", is_major: true, coords: (702_050_570, 782_468_500) },
            FarranacCoast::Mara => Entry { local_key: "Mara", display_name: "Mara", is_major: true, coords: (854_970_600, 484_274_920) },
            FarranacCoast::McCarthyFields => Entry { local_key: "McCarthyFields", display_name: "McCarthy Fields", is_major: false, coords: (601_500_400, 781_091_800) },
            FarranacCoast::MooringDens => Entry { local_key: "MooringDens", display_name: "Mooring Dens", is_major: false, coords: (592_380_500, 285_155_060) },
            FarranacCoast::PleadingWharf => Entry { local_key: "PleadingWharf", display_name: "Pleading Wharf", is_major: true, coords: (626_276_200, 717_469_040) },
            FarranacCoast::ScarpofAmbrose => Entry { local_key: "ScarpofAmbrose", display_name: "Scarp of Ambrose", is_major: true, coords: (477_039_400, 379_340_860) },
            FarranacCoast::Scythe => Entry { local_key: "Scythe", display_name: "Scythe", is_major: true, coords: (788_555_260, 348_502_130) },
            FarranacCoast::SickleHill => Entry { local_key: "SickleHill", display_name: "Sickle Hill", is_major: false, coords: (465_935_500, 444_243_760) },
            FarranacCoast::SkeletonRoad => Entry { local_key: "SkeletonRoad", display_name: "Skeleton Road", is_major: false, coords: (594_031_330, 354_023_750) },
            FarranacCoast::SunderBeach => Entry { local_key: "SunderBeach", display_name: "Sunder Beach", is_major: false, coords: (356_134_680, 419_863_900) },
            FarranacCoast::Terra => Entry { local_key: "Terra", display_name: "Terra", is_major: true, coords: (611_908_600, 405_155_360) },
            FarranacCoast::TheBayofArtemis => Entry { local_key: "TheBayofArtemis", display_name: "The Bay of Artemis", is_major: false, coords: (351_952_250, 687_433_500) },
            FarranacCoast::TheBoneHaft => Entry { local_key: "TheBoneHaft", display_name: "The Bone Haft", is_major: true, coords: (499_039_320, 203_595_770) },
            FarranacCoast::TheHeartRoad => Entry { local_key: "TheHeartRoad", display_name: "The Heart Road", is_major: false, coords: (666_230_560, 916_924_400) },
            FarranacCoast::TheIronBeach => Entry { local_key: "TheIronBeach", display_name: "The Iron Beach", is_major: false, coords: (335_297_900, 262_617_320) },
            FarranacCoast::TheJadeCove => Entry { local_key: "TheJadeCove", display_name: "The Jade Cove", is_major: true, coords: (432_260_900, 649_025_600) },
            FarranacCoast::TheMirror => Entry { local_key: "TheMirror", display_name: "The Mirror", is_major: false, coords: (824_722_300, 411_111_240) },
            FarranacCoast::TheReapingFields => Entry { local_key: "TheReapingFields", display_name: "The Reaping Fields", is_major: false, coords: (650_946_800, 519_920_470) },
            FarranacCoast::TheRiverMercy => Entry { local_key: "TheRiverMercy", display_name: "The River Mercy", is_major: false, coords: (575_740_640, 652_149_800) },
            FarranacCoast::TheSnag => Entry { local_key: "TheSnag", display_name: "The Snag", is_major: false, coords: (893_513_740, 787_054_100) },
            FarranacCoast::TheSpearhead => Entry { local_key: "TheSpearhead", display_name: "The Spearhead", is_major: true, coords: (254_134_330, 201_464_300) },
            FarranacCoast::TheWingedWalk => Entry { local_key: "TheWingedWalk", display_name: "The Winged Walk", is_major: false, coords: (798_094_900, 651_116_100) },
            FarranacCoast::TransientValley => Entry { local_key: "TransientValley", display_name: "Transient Valley", is_major: false, coords: (626_500_840, 173_766_020) },
            FarranacCoast::Victa => Entry { local_key: "Victa", display_name: "Victa", is_major: true, coords: (441_756_800, 874_474_100) },
        }
    }
}

impl Regional for FarranacCoast {
    open spec fn spec_region() -> Region {
        Region::FarranacCoast
    }

    open spec fn spec_entry(&self) -> Entry {
        self.table()
    }

    open spec fn spec_marked(&self) -> bool {
        false
    }

    open spec fn spec_all() -> Seq<Self> {
        seq![
            FarranacCoast::ApollosLanding, FarranacCoast::CarrionFields,
            FarranacCoast::CoraLushlands, FarranacCoast::CormacBeach,
            FarranacCoast::GulfoftheDaughters, FarranacCoast::HermesInlet,
            FarranacCoast::Huskhollow, FarranacCoast::IuxtaHomestead, FarranacCoast::Kardia,
            FarranacCoast::LiberationStreet, FarranacCoast::MachasKeening, FarranacCoast::Mara,
            FarranacCoast::McCarthyFields, FarranacCoast::MooringDens,
            FarranacCoast::PleadingWharf, FarranacCoast::ScarpofAmbrose, FarranacCoast::Scythe,
            FarranacCoast::SickleHill, FarranacCoast::SkeletonRoad, FarranacCoast::SunderBeach,
            FarranacCoast::Terra, FarranacCoast::TheBayofArtemis, FarranacCoast::TheBoneHaft,
            FarranacCoast::TheHeartRoad, FarranacCoast::TheIronBeach,
            FarranacCoast::TheJadeCove, FarranacCoast::TheMirror,
            FarranacCoast::TheReapingFields, FarranacCoast::TheRiverMercy,
            FarranacCoast::TheSnag, FarranacCoast::TheSpearhead, FarranacCoast::TheWingedWalk,
            FarranacCoast::TransientValley, FarranacCoast::Victa,
        ]
    }

    open spec fn spec_on_map(self) -> MapLocation {
        MapLocation::FarranacCoast(self)
    }

    fn region() -> (region: Region) {
        Region::FarranacCoast
    }

    fn entry(&self) -> (entry: Entry) {
        reveal(FarranacCoast::table);
        assert(self.spec_entry() == self.table());
        match self {
            FarranacCoast::ApollosLanding => Entry { local_key: "ApollosLanding", display_name: "Apollo's Landing", is_major: false, coords: (431_492_700, 579_765_260) },
            FarranacCoast::CarrionFields => Entry { local_key: "CarrionFields", display_name: "Carrion Fields", is_major: false, coords: (616_622_570, 457_854_480) },
            FarranacCoast::CoraLushlands => Entry { local_key: "CoraLushlands", display_name: "Cora Lushlands", is_major: false, coords: (545_855_940, 867_111_300) },
            FarranacCoast::CormacBeach => Entry { local_key: "CormacBeach", display_name: "Cormac Beach", is_major: false, coords: (472_738_400, 783_479_870) },
            FarranacCoast::GulfoftheDaughters => Entry { local_key: "GulfoftheDaughters", display_name: "Gulf of the Daughters", is_major: false, coords: (16_857_829, 583_298_740) },
            FarranacCoast::HermesInlet => Entry { local_key: "HermesInlet", display_name: "Hermes Inlet", is_major: false, coords: (270_748_900, 432_295_000) },
            FarranacCoast::Huskhollow => Entry { local_key: "Huskhollow", display_name: "Huskhollow", is_major: true, coords: (586_091_900, 562_780_740) },
            FarranacCoast::IuxtaHomestead => Entry { local_key: "IuxtaHomestead", display_name: "Iuxta Homestead", is_major: true, coords: (712_717_200, 195_466_220) },
            FarranacCoast::Kardia => Entry { local_key: "Kardia", display_name: "Kardia", is_major: false, coords: (626_105_900, 865_180_130) },
            FarranacCoast::LiberationStreet => Entry { local_key: "LiberationStreet", display_name: "Liberation Street", is_major: false, coords: (831_481_500, 845_824_300) },
            FarranacCoast::MachasKeening => Entry { local_key: "MachasKeening", display_name: "Macha's Keening", is_major: true, coords: (702_050_570, 782_468_500) },
            FarranacCoast::Mara => Entry { local_key: "Mara", display_name: "Mara", is_major: true, coords: (854_970_600, 484_274_920) },
            FarranacCoast::McCarthyFields => Entry { local_key: "McCarthyFields", display_name: "McCarthy Fields", is_major: false, coords: (601_500_400, 781_091_800) },
            FarranacCoast::MooringDens => Entry { local_key: "MooringDens", display_name: "Mooring Dens", is_major: false, coords: (592_380_500, 285_155_060) },
            FarranacCoast::PleadingWharf => Entry { local_key: "PleadingWharf", display_name: "Pleading Wharf", is_major: true, coords: (626_276_200, 717_469_040) },
            FarranacCoast::ScarpofAmbrose => Entry { local_key: "ScarpofAmbrose", display_name: "Scarp of Ambrose", is_major: true, coords: (477_039_400, 379_340_860) },
            FarranacCoast::Scythe => Entry { local_key: "Scythe", display_name: "Scythe", is_major: true, coords: (788_555_260, 348_502_130) },
            FarranacCoast::SickleHill => Entry { local_key: "SickleHill", display_name: "Sickle Hill", is_major: false, coords: (465_935_500, 444_243_760) },
            FarranacCoast::SkeletonRoad => Entry { local_key: "SkeletonRoad", display_name: "Skeleton Road", is_major: false, coords: (594_031_330, 354_023_750) },
            FarranacCoast::SunderBeach => Entry { local_key: "SunderBeach", display_name: "Sunder Beach", is_major: false, coords: (356_134_680, 419_863_900) },
            FarranacCoast::Terra => Entry { local_key: "Terra", display_name: "Terra", is_major: true, coords: (611_908_600, 405_155_360) },
            FarranacCoast::TheBayofArtemis => Entry { local_key: "TheBayofArtemis", display_name: "The Bay of Artemis", is_major: false, coords: (351_952_250, 687_433_500) },
            FarranacCoast::TheBoneHaft => Entry { local_key: "TheBoneHaft", display_name: "The Bone Haft", is_major: true, coords: (499_039_320, 203_595_770) },
            FarranacCoast::TheHeartRoad => Entry { local_key: "TheHeartRoad", display_name: "The Heart Road", is_major: false, coords: (666_230_560, 916_924_400) },
            FarranacCoast::TheIronBeach => Entry { local_key: "TheIronBeach", display_name: "The Iron Beach", is_major: false, coords: (335_297_900, 262_617_320) },
            FarranacCoast::TheJadeCove => Entry { local_key: "TheJadeCove", display_name: "The Jade Cove", is_major: true, coords: (432_260_900, 649_025_600) },
            FarranacCoast::TheMirror => Entry { local_key: "TheMirror", display_name: "The Mirror", is_major: false, coords: (824_722_300, 411_111_240) },
            FarranacCoast::TheReapingFields => Entry { local_key: "TheReapingFields", display_name: "The Reaping Fields", is_major: false, coords: (650_946_800, 519_920_470) },
            FarranacCoast::TheRiverMercy => Entry { local_key: "TheRiverMercy", display_name: "The River Mercy", is_major: false, coords: (575_740_640, 652_149_800) },
            FarranacCoast::TheSnag => Entry { local_key: "TheSnag", display_name: "The Snag", is_major: false, coords: (893_513_740, 787_054_100) },
            FarranacCoast::TheSpearhead => Entry { local_key: "TheSpearhead", display_name: "The Spearhead", is_major: true, coords: (254_134_330, 201_464_300) },
            FarranacCoast::TheWingedWalk => Entry { local_key: "TheWingedWalk", display_name: "The Winged Walk", is_major: false, coords: (798_094_900, 651_116_100) },
            FarranacCoast::TransientValley => Entry { local_key: "TransientValley", display_name: "Transient Valley", is_major: false, coords: (626_500_840, 173_766_020) },
            FarranacCoast::Victa => Entry { local_key: "Victa", display_name: "Victa", is_major: true, coords: (441_756_800, 874_474_100) },
        }
    }

    fn all() -> (all: Vec<Self>) {
        vec![
            FarranacCoast::ApollosLanding, FarranacCoast::CarrionFields,
            FarranacCoast::CoraLushlands, FarranacCoast::CormacBeach,
            FarranacCoast::GulfoftheDaughters, FarranacCoast::HermesInlet,
            FarranacCoast::Huskhollow, FarranacCoast::IuxtaHomestead, FarranacCoast::Kardia,
            FarranacCoast::LiberationStreet, FarranacCoast::MachasKeening, FarranacCoast::Mara,
            FarranacCoast::McCarthyFields, FarranacCoast::MooringDens,
            FarranacCoast::PleadingWharf, FarranacCoast::ScarpofAmbrose, FarranacCoast::Scythe,
            FarranacCoast::SickleHill, FarranacCoast::SkeletonRoad, FarranacCoast::SunderBeach,
            FarranacCoast::Terra, FarranacCoast::TheBayofArtemis, FarranacCoast::TheBoneHaft,
            FarranacCoast::TheHeartRoad, FarranacCoast::TheIronBeach,
            FarranacCoast::TheJadeCove, FarranacCoast::TheMirror,
            FarranacCoast::TheReapingFields, FarranacCoast::TheRiverMercy,
            FarranacCoast::TheSnag, FarranacCoast::TheSpearhead, FarranacCoast::TheWingedWalk,
            FarranacCoast::TransientValley, FarranacCoast::Victa,
        ]
    }

    fn from_key(key: &str) -> (found: Option<Self>) {
        reveal(FarranacCoast::table);
        if str_eq(key, "ApollosLanding") {
            Some(FarranacCoast::ApollosLanding)
        } else if str_eq(key, "CarrionFields") {
            Some(FarranacCoast::CarrionFields)
        } else if str_eq(key, "CoraLushlands") {
            Some(FarranacCoast::CoraLushlands)
        } else if str_eq(key, "CormacBeach") {
            Some(FarranacCoast::CormacBeach)
        } else if str_eq(key, "GulfoftheDaughters") {
            Some(FarranacCoast::GulfoftheDaughters)
        } else if str_eq(key, "HermesInlet") {
            Some(FarranacCoast::HermesInlet)
        } else if str_eq(key, "Huskhollow") {
            Some(FarranacCoast::Huskhollow)
        } else if str_eq(key, "IuxtaHomestead") {
            Some(FarranacCoast::IuxtaHomestead)
        } else if str_eq(key, "Kardia") {
            Some(FarranacCoast::Kardia)
        } else if str_eq(key, "LiberationStreet") {
            Some(FarranacCoast::LiberationStreet)
        } else if str_eq(key, "MachasKeening") {
            Some(FarranacCoast::MachasKeening)
        } else if str_eq(key, "Mara") {
            Some(FarranacCoast::Mara)
        } else if str_eq(key, "McCarthyFields") {
            Some(FarranacCoast::McCarthyFields)
        } else if str_eq(key, "MooringDens") {
            Some(FarranacCoast::MooringDens)
        } else if str_eq(key, "PleadingWharf") {
            Some(FarranacCoast::PleadingWharf)
        } else if str_eq(key, "ScarpofAmbrose") {
            Some(FarranacCoast::ScarpofAmbrose)
        } else if str_eq(key, "Scythe") {
            Some(FarranacCoast::Scythe)
        } else if str_eq(key, "SickleHill") {
            Some(FarranacCoast::SickleHill)
        } else if str_eq(key, "SkeletonRoad") {
            Some(FarranacCoast::SkeletonRoad)
        } else if str_eq(key, "SunderBeach") {
            Some(FarranacCoast::SunderBeach)
        } else if str_eq(key, "Terra") {
            Some(FarranacCoast::Terra)
        } else if str_eq(key, "TheBayofArtemis") {
            Some(FarranacCoast::TheBayofArtemis)
        } else if str_eq(key, "TheBoneHaft") {
            Some(FarranacCoast::TheBoneHaft)
        } else if str_eq(key, "TheHeartRoad") {
            Some(FarranacCoast::TheHeartRoad)
        } else if str_eq(key, "TheIronBeach") {
            Some(FarranacCoast::TheIronBeach)
        } else if str_eq(key, "TheJadeCove") {
            Some(FarranacCoast::TheJadeCove)
        } else if str_eq(key, "TheMirror") {
            Some(FarranacCoast::TheMirror)
        } else if str_eq(key, "TheReapingFields") {
            Some(FarranacCoast::TheReapingFields)
        } else if str_eq(key, "TheRiverMercy") {
            Some(FarranacCoast::TheRiverMercy)
        } else if str_eq(key, "TheSnag") {
            Some(FarranacCoast::TheSnag)
        } else if str_eq(key, "TheSpearhead") {
            Some(FarranacCoast::TheSpearhead)
        } else if str_eq(key, "TheWingedWalk") {
            Some(FarranacCoast::TheWingedWalk)
        } else if str_eq(key, "TransientValley") {
            Some(FarranacCoast::TransientValley)
        } else if str_eq(key, "Victa") {
            Some(FarranacCoast::Victa)
        } else {
            None
        }
    }

    fn on_map(self) -> (place: MapLocation) {
        MapLocation::FarranacCoast(self)
    }

    proof fn lemma_entry(l: Self) {
        reveal(FarranacCoast::table);
        reveal_with_fuel(pairs_off, 22);
        match l {
            FarranacCoast::ApollosLanding => {
                reveal_strlit("ApollosLanding");
                reveal_strlit("Apollo's Landing");
                lemma_pairs_off("Apollo's Landing"@, "ApollosLanding"@);
            },
            FarranacCoast::CarrionFields => {
                reveal_strlit("CarrionFields");
                reveal_strlit("Carrion Fields");
                lemma_pairs_off("Carrion Fields"@, "CarrionFields"@);
            },
            FarranacCoast::CoraLushlands => {
                reveal_strlit("CoraLushlands");
                reveal_strlit("Cora Lushlands");
                lemma_pairs_off("Cora Lushlands"@, "CoraLushlands"@);
            },
            FarranacCoast::CormacBeach => {
                reveal_strlit("CormacBeach");
                reveal_strlit("Cormac Beach");
                lemma_pairs_off("Cormac Beach"@, "CormacBeach"@);
            },
            FarranacCoast::GulfoftheDaughters => {
                reveal_strlit("GulfoftheDaughters");
                reveal_strlit("Gulf of the Daughters");
                lemma_pairs_off("Gulf of the Daughters"@, "GulfoftheDaughters"@);
            },
            FarranacCoast::HermesInlet => {
                reveal_strlit("HermesInlet");
                reveal_strlit("Hermes Inlet");
                lemma_pairs_off("Hermes Inlet"@, "HermesInlet"@);
            },
            FarranacCoast::Huskhollow => {
                reveal_strlit("Huskhollow");
                lemma_pairs_off("Huskhollow"@, "Huskhollow"@);
            },
            FarranacCoast::IuxtaHomestead => {
                reveal_strlit("IuxtaHomestead");
                reveal_strlit("Iuxta Homestead");
                lemma_pairs_off("Iuxta Homestead"@, "IuxtaHomestead"@);
            },
            FarranacCoast::Kardia => {
                reveal_strlit("Kardia");
                lemma_pairs_off("Kardia"@, "Kardia"@);
            },
            FarranacCoast::LiberationStreet => {
                reveal_strlit("LiberationStreet");
                reveal_strlit("Liberation Street");
                lemma_pairs_off("Liberation Street"@, "LiberationStreet"@);
            },
            FarranacCoast::MachasKeening => {
                reveal_strlit("MachasKeening");
                reveal_strlit("Macha's Keening");
                lemma_pairs_off("Macha's Keening"@, "MachasKeening"@);
            },
            FarranacCoast::Mara => {
                reveal_strlit("Mara");
                lemma_pairs_off("Mara"@, "Mara"@);
            },
            FarranacCoast::McCarthyFields => {
                reveal_strlit("McCarthyFields");
                reveal_strlit("McCarthy Fields");
                lemma_pairs_off("McCarthy Fields"@, "McCarthyFields"@);
            },
            FarranacCoast::MooringDens => {
                reveal_strlit("MooringDens");
                reveal_strlit("Mooring Dens");
                lemma_pairs_off("Mooring Dens"@, "MooringDens"@);
            },
            FarranacCoast::PleadingWharf => {
                reveal_strlit("PleadingWharf");
                reveal_strlit("Pleading Wharf");
                lemma_pairs_off("Pleading Wharf"@, "PleadingWharf"@);
            },
            FarranacCoast::ScarpofAmbrose => {
                reveal_strlit("ScarpofAmbrose");
                reveal_strlit("Scarp of Ambrose");
                lemma_pairs_off("Scarp of Ambrose"@, "ScarpofAmbrose"@);
            },
            FarranacCoast::Scythe => {
                reveal_strlit("Scythe");
                lemma_pairs_off("Scythe"@, "Scythe"@);
            },
            FarranacCoast::SickleHill => {
                reveal_strlit("SickleHill");
                reveal_strlit("Sickle Hill");
                lemma_pairs_off("Sickle Hill"@, "SickleHill"@);
            },
            FarranacCoast::SkeletonRoad => {
                reveal_strlit("SkeletonRoad");
                reveal_strlit("Skeleton Road");
                lemma_pairs_off("Skeleton Road"@, "SkeletonRoad"@);
            },
            FarranacCoast::SunderBeach => {
                reveal_strlit("SunderBeach");
                reveal_strlit("Sunder Beach");
                lemma_pairs_off("Sunder Beach"@, "SunderBeach"@);
            },
            FarranacCoast::Terra => {
                reveal_strlit("Terra");
                lemma_pairs_off("Terra"@, "Terra"@);
            },
            FarranacCoast::TheBayofArtemis => {
                reveal_strlit("TheBayofArtemis");
                reveal_strlit("The Bay of Artemis");
                lemma_pairs_off("The Bay of Artemis"@, "TheBayofArtemis"@);
            },
            FarranacCoast::TheBoneHaft => {
                reveal_strlit("TheBoneHaft");
                reveal_strlit("The Bone Haft");
                lemma_pairs_off("The Bone Haft"@, "TheBoneHaft"@);
            },
            FarranacCoast::TheHeartRoad => {
                reveal_strlit("TheHeartRoad");
                reveal_strlit("The Heart Road");
                lemma_pairs_off("The Heart Road"@, "TheHeartRoad"@);
            },
            FarranacCoast::TheIronBeach => {
                reveal_strlit("TheIronBeach");
                reveal_strlit("The Iron Beach");
                lemma_pairs_off("The Iron Beach"@, "TheIronBeach"@);
            },
            FarranacCoast::TheJadeCove => {
                reveal_strlit("TheJadeCove");
                reveal_strlit("The Jade Cove");
                lemma_pairs_off("The Jade Cove"@, "TheJadeCove"@);
            },
            FarranacCoast::TheMirror => {
                reveal_strlit("TheMirror");
                reveal_strlit("The Mirror");
                lemma_pairs_off("The Mirror"@, "TheMirror"@);
            },
            FarranacCoast::TheReapingFields => {
                reveal_strlit("TheReapingFields");
                reveal_strlit("The Reaping Fields");
                lemma_pairs_off("The Reaping Fields"@, "TheReapingFields"@);
            },
            FarranacCoast::TheRiverMercy => {
                reveal_strlit("TheRiverMercy");
                reveal_strlit("The River Mercy");
                lemma_pairs_off("The River Mercy"@, "TheRiverMercy"@);
            },
            FarranacCoast::TheSnag => {
                reveal_strlit("TheSnag");
                reveal_strlit("The Snag");
                lemma_pairs_off("The Snag"@, "TheSnag"@);
            },
            FarranacCoast::TheSpearhead => {
                reveal_strlit("TheSpearhead");
                reveal_strlit("The Spearhead");
                lemma_pairs_off("The Spearhead"@, "TheSpearhead"@);
            },
            FarranacCoast::TheWingedWalk => {
                reveal_strlit("TheWingedWalk");
                reveal_strlit("The Winged Walk");
                lemma_pairs_off("The Winged Walk"@, "TheWingedWalk"@);
            },
            FarranacCoast::TransientValley => {
                reveal_strlit("TransientValley");
                reveal_strlit("Transient Valley");
                lemma_pairs_off("Transient Valley"@, "TransientValley"@);
            },
            FarranacCoast::Victa => {
                reveal_strlit("Victa");
                lemma_pairs_off("Victa"@, "Victa"@);
            },
        }
    }

    proof fn lemma_keys_distinct(a: Self, b: Self) {
        reveal(FarranacCoast::table);
        reveal_strlit("ApollosLanding");
        reveal_strlit("CarrionFields");
        reveal_strlit("CoraLushlands");
        reveal_strlit("CormacBeach");
        reveal_strlit("GulfoftheDaughters");
        reveal_strlit("HermesInlet");
        reveal_strlit("Huskhollow");
        reveal_strlit("IuxtaHomestead");
        reveal_strlit("Kardia");
        reveal_strlit("LiberationStreet");
        reveal_strlit("MachasKeening");
        reveal_strlit("Mara");
        reveal_strlit("McCarthyFields");
        reveal_strlit("MooringDens");
        reveal_strlit("PleadingWharf");
        reveal_strlit("ScarpofAmbrose");
        reveal_strlit("Scythe");
        reveal_strlit("SickleHill");
        reveal_strlit("SkeletonRoad");
        reveal_strlit("SunderBeach");
        reveal_strlit("Terra");
        reveal_strlit("TheBayofArtemis");
        reveal_strlit("TheBoneHaft");
        reveal_strlit("TheHeartRoad");
        reveal_strlit("TheIronBeach");
        reveal_strlit("TheJadeCove");
        reveal_strlit("TheMirror");
        reveal_strlit("TheReapingFields");
        reveal_strlit("TheRiverMercy");
        reveal_strlit("TheSnag");
        reveal_strlit("TheSpearhead");
        reveal_strlit("TheWingedWalk");
        reveal_strlit("TransientValley");
        reveal_strlit("Victa");
        // Two equal keys agree in length and in every character; no two
        // keys of the table do.
        let x = a.table().local_key@;
        let y = b.table().local_key@;
        assert(x.len() == y.len());
        assert(x[0] == y[0]);
        assert(x[1] == y[1]);
        assert(x[2] == y[2]);
        assert(x[3] == y[3]);
        assert(x[4] == y[4]);
        assert(x[5] == y[5]);
        assert(x[6] == y[6]);
        assert(x[7] == y[7]);
        assert(x[8] == y[8]);
        assert(x[9] == y[9]);
        assert(x[10] == y[10]);
        assert(x[11] == y[11]);
        assert(x[12] == y[12]);
        assert(x[13] == y[13]);
        assert(x[14] == y[14]);
        assert(x[15] == y[15]);
        assert(x[16] == y[16]);
        assert(x[17] == y[17]);
        match a {
            FarranacCoast::ApollosLanding => assert(b is ApollosLanding),
            FarranacCoast::CarrionFields => assert(b is CarrionFields),
            FarranacCoast::CoraLushlands => assert(b is CoraLushlands),
            FarranacCoast::CormacBeach => assert(b is CormacBeach),
            FarranacCoast::GulfoftheDaughters => assert(b is GulfoftheDaughters),
            FarranacCoast::HermesInlet => assert(b is HermesInlet),
            FarranacCoast::Huskhollow => assert(b is Huskhollow),
            FarranacCoast::IuxtaHomestead => assert(b is IuxtaHomestead),
            FarranacCoast::Kardia => assert(b is Kardia),
            FarranacCoast::LiberationStreet => assert(b is LiberationStreet),
            FarranacCoast::MachasKeening => assert(b is MachasKeening),
            FarranacCoast::Mara => assert(b is Mara),
            FarranacCoast::McCarthyFields => assert(b is McCarthyFields),
            FarranacCoast::MooringDens => assert(b is MooringDens),
            FarranacCoast::PleadingWharf => assert(b is PleadingWharf),
            FarranacCoast::ScarpofAmbrose => assert(b is ScarpofAmbrose),
            FarranacCoast::Scythe => assert(b is Scythe),
            FarranacCoast::SickleHill => assert(b is SickleHill),
            FarranacCoast::SkeletonRoad => assert(b is SkeletonRoad),
            FarranacCoast::SunderBeach => assert(b is SunderBeach),
            FarranacCoast::Terra => assert(b is Terra),
            FarranacCoast::TheBayofArtemis => assert(b is TheBayofArtemis),
            FarranacCoast::TheBoneHaft => assert(b is TheBoneHaft),
            FarranacCoast::TheHeartRoad => assert(b is TheHeartRoad),
            FarranacCoast::TheIronBeach => assert(b is TheIronBeach),
            FarranacCoast::TheJadeCove => assert(b is TheJadeCove),
            FarranacCoast::TheMirror => assert(b is TheMirror),
            FarranacCoast::TheReapingFields => assert(b is TheReapingFields),
            FarranacCoast::TheRiverMercy => assert(b is TheRiverMercy),
            FarranacCoast::TheSnag => assert(b is TheSnag),
            FarranacCoast::TheSpearhead => assert(b is TheSpearhead),
            FarranacCoast::TheWingedWalk => assert(b is TheWingedWalk),
            FarranacCoast::TransientValley => assert(b is TransientValley),
            FarranacCoast::Victa => assert(b is Victa),
        }
    }

    proof fn lemma_all(l: Self) {
        reveal_with_fuel(position, 35);
        reveal_with_fuel(each_first, 35);
        lemma_found(Self::spec_all(), l);
        lemma_no_duplicates(Self::spec_all());
    }

    proof fn lemma_on_map(place: MapLocation) {
        if let MapLocation::FarranacCoast(l) = place {
            assert(l.spec_on_map() == place);
        }
    }
}

} // verus!
