//! The locations of the EndlessShore region.

use crate::map::location::Entry;
use crate::map::region::Region;
use crate::map::regional::Regional;
use crate::map::seqs::{each_first, lemma_found, lemma_no_duplicates, position};
use crate::map::MapLocation;
use crate::text::{lemma_pairs_off, lemma_pairs_off_marked, pairs_off, pairs_off_marked, str_eq};
use vstd::prelude::*;

verus! {

/// Specific map details for the `EndlessShoreHex` tile.
#[derive(Clone, Copy, Debug, PartialEq, Eq)]
pub enum EndlessShore {
    /// Balor's Crown is a minor location
    BalorsCrown,
    /// Battered Landing is a minor location
    BatteredLanding,
    /// Brackish Point is a major location
    BrackishPoint,
    /// Dannan Ridge is a major location
    DannanRidge,
    /// Dearg's Fang is a minor location
    DeargsFang,
    /// Enduring Wake is a major location
    EnduringWake,
    /// Iron Junction is a major location
    IronJunction,
    /// Kelpie's Mane is a minor location
    KelpiesMane,
    /// Kelpie's Tail is a minor location
    KelpiesTail,
    /// Liegehearth is a minor location
    Liegehearth,
    /// Merrow's Rest is a minor location
    MerrowsRest,
    /// Saltbrook Channel is a major location
    SaltbrookChannel,
    /// S??dhe Fall is a minor location
    SdheFall,
    /// The Dannan Coast is a minor location
    TheDannanCoast,
    /// The Dark Road is a minor location
    TheDarkRoad,
    /// The Evil Eye is a major location
    TheEvilEye,
    /// The North Star is a minor location
    TheNorthStar,
    /// The Old Jack Tar is a major location
    TheOldJackTar,
    /// The Overland is a major location
    TheOverland,
    /// The Selkie Bluffs is a minor location
    TheSelkieBluffs,
    /// The Styx is a minor location
    TheStyx,
    /// The Whispering Waves is a minor location
    TheWhisperingWaves,
    /// Tuatha Watchpost is a major location
    TuathaWatchpost,
    /// Vulpine Watch is a major location
    VulpineWatch,
    /// Wellchurch is a major location
    Wellchurch,
    /// Woodbind is a major location
    Woodbind,
}

impl EndlessShore {
    /// The table of the region: the catalogue's entry for each location.
    /// Hidden from the verifier until revealed.
    #[verifier::opaque]
    pub open spec fn table(self) -> Entry {
        match self {
            EndlessShore::BalorsCrown => Entry { local_key: "BalorsCrown", display_name: "Balor's Crown", is_major: false, coords: (829_529_800, 334_517_180) },
            EndlessShore::BatteredLanding => Entry { local_key: "BatteredLanding", display_name: "Battered Landing", is_major: false, coords: (305_517_100, 550_112_960) },
            EndlessShore::BrackishPoint => Entry { local_key: "BrackishPoint", display_name: "Brackish Point", is_major: true, coords: (302_999_530, 154_774_710) },
            EndlessShore::DannanRidge => Entry { local_key: "DannanRidge", display_name: "Dannan Ridge", is_major: true, coords: (748_871_200, 224_031_750) },
            EndlessShore::DeargsFang => Entry { local_key: "DeargsFang", display_name: "Dearg's Fang", is_major: false, coords: (594_730_140, 366_441_280) },
            EndlessShore::EnduringWake => Entry { local_key: "EnduringWake", display_name: "Enduring Wake", is_major: true, coords: (205_818_310, 612_241_800) },
            EndlessShore::IronJunction => Entry { local_key: "IronJunction", display_name: "Iron Junction", is_major: true, coords: (359_526_660, 795_666_100) },
            EndlessShore::KelpiesMane => Entry { local_key: "KelpiesMane", display_name: "Kelpie's Mane", is_major: false, coords: (776_036_800, 635_214_270) },
            EndlessShore::KelpiesTail => Entry { local_key: "KelpiesTail", display_name: "Kelpie's Tail", is_major: false, coords: (719_425_400, 674_869_360) },
            EndlessShore::Liegehearth => Entry { local_key: "Liegehearth", display_name: "Liegehearth", is_major: false, coords: (302_814_930, 451_287_800) },
            EndlessShore::MerrowsRest => Entry { local_key: "MerrowsRest", display_name: "Merrow's Rest", is_major: false, coords: (789_325_360, 771_078_770) },
            EndlessShore::SaltbrookChannel => Entry { local_key: "SaltbrookChannel", display_name: "Saltbrook Channel", is_major: true, coords: (303_757_000, 381_625_740) },
            EndlessShore::SdheFall => Entry { local_key: "S??dheFall", display_name: "S??dhe Fall", is_major: false, coords: (484_388_440, 297_024_340) },
            EndlessShore::TheDannanCoast => Entry { local_key: "TheDannanCoast", display_name: "The Dannan Coast", is_major: false, coords: (674_742_160, 254_882_400) },
            EndlessShore::TheDarkRoad => Entry { local_key: "TheDarkRoad", display_name: "The Dark Road", is_major: false, coords: (836_938_400, 495_027_070) },
            EndlessShore::TheEvilEye => Entry { local_key: "TheEvilEye", display_name: "The Evil Eye", is_major: true, coords: (743_943_750, 459_332_230) },
            EndlessShore::TheNorthStar => Entry { local_key: "TheNorthStar", display_name: "The North Star", is_major: false, coords: (302_523_460, 261_643_050) },
            EndlessShore::TheOldJackTar => Entry { local_key: "TheOldJackTar", display_name: "The Old Jack Tar", is_major: true, coords: (121_295_930, 506_060_960) },
            EndlessShore::TheOverland => Entry { local_key: "TheOverland", display_name: "The Overland", is_major: true, coords: (575_041_350, 796_660_070) },
            EndlessShore::TheSelkieBluffs => Entry { local_key: "TheSelkieBluffs", display_name: "The Selkie Bluffs", is_major: false, coords: (579_224_770, 540_587_660) },
            EndlessShore::TheStyx => Entry { local_key: "TheStyx", display_name: "The Styx", is_major: false, coords: (464_723_000, 639_164_900) },
            EndlessShore::TheWhisperingWaves => Entry { local_key: "TheWhisperingWaves", display_name: "The Whispering Waves", is_major: false, coords: (660_845_940, 580_116_100) },
            EndlessShore::TuathaWatchpost => Entry { local_key: "TuathaWatchpost", display_name: "Tuatha Watchpost", is_major: true, coords: (853_922_000, 550_740_500) },
            EndlessShore::VulpineWatch => Entry { local_key: "VulpineWatch", display_name: "Vulpine Watch", is_major: true, coords: (628_420_770, 147_556_300) },
            EndlessShore::Wellchurch => Entry { local_key: "Wellchurch", display_name: "Wellchurch", is_major: true, coords: (514_629_700, 459_452_930) },
            EndlessShore::Woodbind => Entry { local_key: "Woodbind", display_name: "Woodbind", is_major: true, coords: (699_311_900, 733_669_500) },
        }
    }
}

impl Regional for EndlessShore {
    open spec fn spec_region() -> Region {
        Region::EndlessShore
    }

    open spec fn spec_entry(&self) -> Entry {
        self.table()
    }

    open spec fn spec_marked(&self) -> bool {
        *self == EndlessShore::SdheFall
    }

    open spec fn spec_all() -> Seq<Self> {
        seq![
            EndlessShore::BalorsCrown, EndlessShore::BatteredLanding,
            EndlessShore::BrackishPoint, EndlessShore::DannanRidge, EndlessShore::DeargsFang,
            EndlessShore::EnduringWake, EndlessShore::IronJunction, EndlessShore::KelpiesMane,
            EndlessShore::KelpiesTail, EndlessShore::Liegehearth, EndlessShore::MerrowsRest,
            EndlessShore::SaltbrookChannel, EndlessShore::SdheFall,
            EndlessShore::TheDannanCoast, EndlessShore::TheDarkRoad, EndlessShore::TheEvilEye,
            EndlessShore::TheNorthStar, EndlessShore::TheOldJackTar, EndlessShore::TheOverland,
            EndlessShore::TheSelkieBluffs, EndlessShore::TheStyx,
            EndlessShore::TheWhisperingWaves, EndlessShore::TuathaWatchpost,
            EndlessShore::VulpineWatch, EndlessShore::Wellchurch, EndlessShore::Woodbind,
        ]
    }

    open spec fn spec_on_map(self) -> MapLocation {
        MapLocation::EndlessShore(self)
    }

    fn region() -> (region: Region) {
        Region::EndlessShore
    }

    fn entry(&self) -> (entry: Entry) {
        reveal(EndlessShore::table);
        assert(self.spec_entry() == self.table());
        match self {
            EndlessShore::BalorsCrown => Entry { local_key: "BalorsCrown", display_name: "Balor's Crown", is_major: false, coords: (829_529_800, 334_517_180) },
            EndlessShore::BatteredLanding => Entry { local_key: "BatteredLanding", display_name: "Battered Landing", is_major: false, coords: (305_517_100, 550_112_960) },
            EndlessShore::BrackishPoint => Entry { local_key: "BrackishPoint", display_name: "Brackish Point", is_major: true, coords: (302_999_530, 154_774_710) },
            EndlessShore::DannanRidge => Entry { local_key: "DannanRidge", display_name: "Dannan Ridge", is_major: true, coords: (748_871_200, 224_031_750) },
            EndlessShore::DeargsFang => Entry { local_key: "DeargsFang", display_name: "Dearg's Fang", is_major: false, coords: (594_730_140, 366_441_280) },
            EndlessShore::EnduringWake => Entry { local_key: "EnduringWake", display_name: "Enduring Wake", is_major: true, coords: (205_818_310, 612_241_800) },
            EndlessShore::IronJunction => Entry { local_key: "IronJunction", display_name: "Iron Junction", is_major: true, coords: (359_526_660, 795_666_100) },
            EndlessShore::KelpiesMane => Entry { local_key: "KelpiesMane", display_name: "Kelpie's Mane", is_major: false, coords: (776_036_800, 635_214_270) },
            EndlessShore::KelpiesTail => Entry { local_key: "KelpiesTail", display_name: "Kelpie's Tail", is_major: false, coords: (719_425_400, 674_869_360) },
            EndlessShore::Liegehearth => Entry { local_key: "Liegehearth", display_name: "Liegehearth", is_major: false, coords: (302_814_930, 451_287_800) },
            EndlessShore::MerrowsRest => Entry { local_key: "MerrowsRest", display_name: "Merrow's Rest", is_major: false, coords: (789_325_360, 771_078_770) },
            EndlessShore::SaltbrookChannel => Entry { local_key: "SaltbrookChannel", display_name: "Saltbrook Channel", is_major: true, coords: (303_757_000, 381_625_740) },
            EndlessShore::SdheFall => Entry { local_key: "S??dheFall", display_name: "S??dhe Fall", is_major: false, coords: (484_388_440, 297_024_340) },
            EndlessShore::TheDannanCoast => Entry { local_key: "TheDannanCoast", display_name: "The Dannan Coast", is_major: false, coords: (674_742_160, 254_882_400) },
            EndlessShore::TheDarkRoad => Entry { local_key: "TheDarkRoad", display_name: "The Dark Road", is_major: false, coords: (836_938_400, 495_027_070) },
            EndlessShore::TheEvilEye => Entry { local_key: "TheEvilEye", display_name: "The Evil Eye", is_major: true, coords: (743_943_750, 459_332_230) },
            EndlessShore::TheNorthStar => Entry { local_key: "TheNorthStar", display_name: "The North Star", is_major: false, coords: (302_523_460, 261_643_050) },
            EndlessShore::TheOldJackTar => Entry { local_key: "TheOldJackTar", display_name: "The Old Jack Tar", is_major: true, coords: (121_295_930, 506_060_960) },
            EndlessShore::TheOverland => Entry { local_key: "TheOverland", display_name: "The Overland", is_major: true, coords: (575_041_350, 796_660_070) },
            EndlessShore::TheSelkieBluffs => Entry { local_key: "TheSelkieBluffs", display_name: "The Selkie Bluffs", is_major: false, coords: (579_224_770, 540_587_660) },
            EndlessShore::TheStyx => Entry { local_key: "TheStyx", display_name: "The Styx", is_major: false, coords: (464_723_000, 639_164_900) },
            EndlessShore::TheWhisperingWaves => Entry { local_key: "TheWhisperingWaves", display_name: "The Whispering Waves", is_major: false, coords: (660_845_940, 580_116_100) },
            EndlessShore::TuathaWatchpost => Entry { local_key: "TuathaWatchpost", display_name: "Tuatha Watchpost", is_major: true, coords: (853_922_000, 550_740_500) },
            EndlessShore::VulpineWatch => Entry { local_key: "VulpineWatch", display_name: "Vulpine Watch", is_major: true, coords: (628_420_770, 147_556_300) },
            EndlessShore::Wellchurch => Entry { local_key: "Wellchurch", display_name: "Wellchurch", is_major: true, coords: (514_629_700, 459_452_930) },
            EndlessShore::Woodbind => Entry { local_key: "Woodbind", display_name: "Woodbind", is_major: true, coords: (699_311_900, 733_669_500) },
        }
    }

    fn all() -> (all: Vec<Self>) {
        vec![
            EndlessShore::BalorsCrown, EndlessShore::BatteredLanding,
            EndlessShore::BrackishPoint, EndlessShore::DannanRidge, EndlessShore::DeargsFang,
            EndlessShore::EnduringWake, EndlessShore::IronJunction, EndlessShore::KelpiesMane,
            EndlessShore::KelpiesTail, EndlessShore::Liegehearth, EndlessShore::MerrowsRest,
            EndlessShore::SaltbrookChannel, EndlessShore::SdheFall,
            EndlessShore::TheDannanCoast, EndlessShore::TheDarkRoad, EndlessShore::TheEvilEye,
            EndlessShore::TheNorthStar, EndlessShore::TheOldJackTar, EndlessShore::TheOverland,
            EndlessShore::TheSelkieBluffs, EndlessShore::TheStyx,
            EndlessShore::TheWhisperingWaves, EndlessShore::TuathaWatchpost,
            EndlessShore::VulpineWatch, EndlessShore::Wellchurch, EndlessShore::Woodbind,
        ]
    }

    fn from_key(key: &str) -> (found: Option<Self>) {
        reveal(EndlessShore::table);
        if str_eq(key, "BalorsCrown") {
            Some(EndlessShore::BalorsCrown)
        } else if str_eq(key, "BatteredLanding") {
            Some(EndlessShore::BatteredLanding)
        } else if str_eq(key, "BrackishPoint") {
            Some(EndlessShore::BrackishPoint)
        } else if str_eq(key, "DannanRidge") {
            Some(EndlessShore::DannanRidge)
        } else if str_eq(key, "DeargsFang") {
            Some(EndlessShore::DeargsFang)
        } else if str_eq(key, "EnduringWake") {
            Some(EndlessShore::EnduringWake)
        } else if str_eq(key, "IronJunction") {
            Some(EndlessShore::IronJunction)
        } else if str_eq(key, "KelpiesMane") {
            Some(EndlessShore::KelpiesMane)
        } else if str_eq(key, "KelpiesTail") {
            Some(EndlessShore::KelpiesTail)
        } else if str_eq(key, "Liegehearth") {
            Some(EndlessShore::Liegehearth)
        } else if str_eq(key, "MerrowsRest") {
            Some(EndlessShore::MerrowsRest)
        } else if str_eq(key, "SaltbrookChannel") {
            Some(EndlessShore::SaltbrookChannel)
        } else if str_eq(key, "S??dheFall") {
            Some(EndlessShore::SdheFall)
        } else if str_eq(key, "TheDannanCoast") {
            Some(EndlessShore::TheDannanCoast)
        } else if str_eq(key, "TheDarkRoad") {
            Some(EndlessShore::TheDarkRoad)
        } else if str_eq(key, "TheEvilEye") {
            Some(EndlessShore::TheEvilEye)
        } else if str_eq(key, "TheNorthStar") {
            Some(EndlessShore::TheNorthStar)
        } else if str_eq(key, "TheOldJackTar") {
            Some(EndlessShore::TheOldJackTar)
        } else if str_eq(key, "TheOverland") {
            Some(EndlessShore::TheOverland)
        } else if str_eq(key, "TheSelkieBluffs") {
            Some(EndlessShore::TheSelkieBluffs)
        } else if str_eq(key, "TheStyx") {
            Some(EndlessShore::TheStyx)
        } else if str_eq(key, "TheWhisperingWaves") {
            Some(EndlessShore::TheWhisperingWaves)
        } else if str_eq(key, "TuathaWatchpost") {
            Some(EndlessShore::TuathaWatchpost)
        } else if str_eq(key, "VulpineWatch") {
            Some(EndlessShore::VulpineWatch)
        } else if str_eq(key, "Wellchurch") {
            Some(EndlessShore::Wellchurch)
        } else if str_eq(key, "Woodbind") {
            Some(EndlessShore::Woodbind)
        } else {
            None
        }
    }

    fn on_map(self) -> (place: MapLocation) {
        MapLocation::EndlessShore(self)
    }

    proof fn lemma_entry(l: Self) {
        reveal(EndlessShore::table);
        reveal_with_fuel(pairs_off, 21);
        reveal_with_fuel(pairs_off_marked, 22);
        match l {
            EndlessShore::BalorsCrown => {
                reveal_strlit("BalorsCrown");
                reveal_strlit("Balor's Crown");
                lemma_pairs_off("Balor's Crown"@, "BalorsCrown"@);
            },
            EndlessShore::BatteredLanding => {
                reveal_strlit("BatteredLanding");
                reveal_strlit("Battered Landing");
                lemma_pairs_off("Battered Landing"@, "BatteredLanding"@);
            },
            EndlessShore::BrackishPoint => {
                reveal_strlit("BrackishPoint");
                reveal_strlit("Brackish Point");
                lemma_pairs_off("Brackish Point"@, "BrackishPoint"@);
            },
            EndlessShore::DannanRidge => {
                reveal_strlit("DannanRidge");
                reveal_strlit("Dannan Ridge");
                lemma_pairs_off("Dannan Ridge"@, "DannanRidge"@);
            },
            EndlessShore::DeargsFang => {
                reveal_strlit("DeargsFang");
                reveal_strlit("Dearg's Fang");
                lemma_pairs_off("Dearg's Fang"@, "DeargsFang"@);
            },
            EndlessShore::EnduringWake => {
                reveal_strlit("EnduringWake");
                reveal_strlit("Enduring Wake");
                lemma_pairs_off("Enduring Wake"@, "EnduringWake"@);
            },
            EndlessShore::IronJunction => {
                reveal_strlit("IronJunction");
                reveal_strlit("Iron Junction");
                lemma_pairs_off("Iron Junction"@, "IronJunction"@);
            },
            EndlessShore::KelpiesMane => {
                reveal_strlit("KelpiesMane");
                reveal_strlit("Kelpie's Mane");
                lemma_pairs_off("Kelpie's Mane"@, "KelpiesMane"@);
            },
            EndlessShore::KelpiesTail => {
                reveal_strlit("KelpiesTail");
                reveal_strlit("Kelpie's Tail");
                lemma_pairs_off("Kelpie's Tail"@, "KelpiesTail"@);
            },
            EndlessShore::Liegehearth => {
                reveal_strlit("Liegehearth");
                lemma_pairs_off("Liegehearth"@, "Liegehearth"@);
            },
            EndlessShore::MerrowsRest => {
                reveal_strlit("MerrowsRest");
                reveal_strlit("Merrow's Rest");
                lemma_pairs_off("Merrow's Rest"@, "MerrowsRest"@);
            },
            EndlessShore::SaltbrookChannel => {
                reveal_strlit("SaltbrookChannel");
                reveal_strlit("Saltbrook Channel");
                lemma_pairs_off("Saltbrook Channel"@, "SaltbrookChannel"@);
            },
            EndlessShore::SdheFall => {
                reveal_strlit("S??dheFall");
                reveal_strlit("S??dhe Fall");
                lemma_pairs_off_marked("S??dhe Fall"@, "S??dheFall"@);
                assert("S??dheFall"@[1] == '?');
            },
            EndlessShore::TheDannanCoast => {
                reveal_strlit("TheDannanCoast");
                reveal_strlit("The Dannan Coast");
                lemma_pairs_off("The Dannan Coast"@, "TheDannanCoast"@);
            },
            EndlessShore::TheDarkRoad => {
                reveal_strlit("TheDarkRoad");
                reveal_strlit("The Dark Road");
                lemma_pairs_off("The Dark Road"@, "TheDarkRoad"@);
            },
            EndlessShore::TheEvilEye => {
                reveal_strlit("TheEvilEye");
                reveal_strlit("The Evil Eye");
                lemma_pairs_off("The Evil Eye"@, "TheEvilEye"@);
            },
            EndlessShore::TheNorthStar => {
                reveal_strlit("TheNorthStar");
                reveal_strlit("The North Star");
                lemma_pairs_off("The North Star"@, "TheNorthStar"@);
            },
            EndlessShore::TheOldJackTar => {
                reveal_strlit("TheOldJackTar");
                reveal_strlit("The Old Jack Tar");
                lemma_pairs_off("The Old Jack Tar"@, "TheOldJackTar"@);
            },
            EndlessShore::TheOverland => {
                reveal_strlit("TheOverland");
                reveal_strlit("The Overland");
                lemma_pairs_off("The Overland"@, "TheOverland"@);
            },
            EndlessShore::TheSelkieBluffs => {
                reveal_strlit("TheSelkieBluffs");
                reveal_strlit("The Selkie Bluffs");
                lemma_pairs_off("The Selkie Bluffs"@, "TheSelkieBluffs"@);
            },
            EndlessShore::TheStyx => {
                reveal_strlit("TheStyx");
                reveal_strlit("The Styx");
                lemma_pairs_off("The Styx"@, "TheStyx"@);
            },
            EndlessShore::TheWhisperingWaves => {
                reveal_strlit("TheWhisperingWaves");
                reveal_strlit("The Whispering Waves");
                lemma_pairs_off("The Whispering Waves"@, "TheWhisperingWaves"@);
            },
            EndlessShore::TuathaWatchpost => {
                reveal_strlit("TuathaWatchpost");
                reveal_strlit("Tuatha Watchpost");
                lemma_pairs_off("Tuatha Watchpost"@, "TuathaWatchpost"@);
            },
            EndlessShore::VulpineWatch => {
                reveal_strlit("VulpineWatch");
                reveal_strlit("Vulpine Watch");
                lemma_pairs_off("Vulpine Watch"@, "VulpineWatch"@);
            },
            EndlessShore::Wellchurch => {
                reveal_strlit("Wellchurch");
                lemma_pairs_off("Wellchurch"@, "Wellchurch"@);
            },
            EndlessShore::Woodbind => {
                reveal_strlit("Woodbind");
                lemma_pairs_off("Woodbind"@, "Woodbind"@);
            },
        }
    }

    proof fn lemma_keys_distinct(a: Self, b: Self) {
        reveal(EndlessShore::table);
        reveal_strlit("BalorsCrown");
        reveal_strlit("BatteredLanding");
        reveal_strlit("BrackishPoint");
        reveal_strlit("DannanRidge");
        reveal_strlit("DeargsFang");
        reveal_strlit("EnduringWake");
        reveal_strlit("IronJunction");
        reveal_strlit("KelpiesMane");
        reveal_strlit("KelpiesTail");
        reveal_strlit("Liegehearth");
        reveal_strlit("MerrowsRest");
        reveal_strlit("SaltbrookChannel");
        reveal_strlit("S??dheFall");
        reveal_strlit("TheDannanCoast");
        reveal_strlit("TheDarkRoad");
        reveal_strlit("TheEvilEye");
        reveal_strlit("TheNorthStar");
        reveal_strlit("TheOldJackTar");
        reveal_strlit("TheOverland");
        reveal_strlit("TheSelkieBluffs");
        reveal_strlit("TheStyx");
        reveal_strlit("TheWhisperingWaves");
        reveal_strlit("TuathaWatchpost");
        reveal_strlit("VulpineWatch");
        reveal_strlit("Wellchurch");
        reveal_strlit("Woodbind");
        // Two equal keys agree in length and in every character; no two
        // keys of the table do.
        let x = a.table().local_key@;
        let y = b.table().local_key@;
        assert(x.len() == y.len());
        assert(x[0] == y[0]);
        assert(x[1] == y[1]);
        assert(x[2] == y[2]);
        assert(x[3] == y[3]);
        assert(x[4] == y[4]);
        assert(x[5] == y[5]);
        assert(x[6] == y[6]);
        assert(x[7] == y[7]);
        assert(x[8] == y[8]);
        assert(x[9] == y[9]);
        assert(x[10] == y[10]);
        assert(x[11] == y[11]);
        assert(x[12] == y[12]);
        assert(x[13] == y[13]);
        assert(x[14] == y[14]);
        assert(x[15] == y[15]);
        assert(x[16] == y[16]);
        assert(x[17] == y[17]);
        match a {
            EndlessShore::BalorsCrown => assert(b is BalorsCrown),
            EndlessShore::BatteredLanding => assert(b is BatteredLanding),
            EndlessShore::BrackishPoint => assert(b is BrackishPoint),
            EndlessShore::DannanRidge => assert(b is DannanRidge),
            EndlessShore::DeargsFang => assert(b is DeargsFang),
            EndlessShore::EnduringWake => assert(b is EnduringWake),
            EndlessShore::IronJunction => assert(b is IronJunction),
            EndlessShore::KelpiesMane => assert(b is KelpiesMane),
            EndlessShore::KelpiesTail => assert(b is KelpiesTail),
            EndlessShore::Liegehearth => assert(b is Liegehearth),
            EndlessShore::MerrowsRest => assert(b is MerrowsRest),
            EndlessShore::SaltbrookChannel => assert(b is SaltbrookChannel),
            EndlessShore::SdheFall => assert(b is SdheFall),
            EndlessShore::TheDannanCoast => assert(b is TheDannanCoast),
            EndlessShore::TheDarkRoad => assert(b is TheDarkRoad),
            EndlessShore::TheEvilEye => assert(b is TheEvilEye),
            EndlessShore::TheNorthStar => assert(b is TheNorthStar),
            EndlessShore::TheOldJackTar => assert(b is TheOldJackTar),
            EndlessShore::TheOverland => assert(b is TheOverland),
            EndlessShore::TheSelkieBluffs => assert(b is TheSelkieBluffs),
            EndlessShore::TheStyx => assert(b is TheStyx),
            EndlessShore::TheWhisperingWaves => assert(b is TheWhisperingWaves),
            EndlessShore::TuathaWatchpost => assert(b is TuathaWatchpost),
            EndlessShore::VulpineWatch => assert(b is VulpineWatch),
            EndlessShore::Wellchurch => assert(b is Wellchurch),
            EndlessShore::Woodbind => assert(b is Woodbind),
        }
    }

    proof fn lemma_all(l: Self) {
        reveal_with_fuel(position, 27);
        reveal_with_fuel(each_first, 27);
        lemma_found(Self::spec_all(), l);
        lemma_no_duplicates(Self::spec_all());
    }

    proof fn lemma_on_map(place: MapLocation) {
        if let MapLocation::EndlessShore(l) = place {
            assert(l.spec_on_map() == place);
        }
    }
}

} // verus!
