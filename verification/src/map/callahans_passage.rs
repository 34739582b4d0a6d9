//! The locations of the CallahansPassage region.

use crate::map::location::Entry;
use crate::map::region::Region;
use crate::map::regional::Regional;
use crate::map::seqs::{each_first, lemma_found, lemma_no_duplicates, position};
use crate::map::MapLocation;
use crate::text::{lemma_pairs_off, lemma_pairs_off_marked, pairs_off, pairs_off_marked, str_eq};
use vstd::prelude::*;

verus! {

/// Specific map details for the `CallahansPassageHex` tile.
#[derive(Clone, Copy, Debug, PartialEq, Eq)]
pub enum CallahansPassage {
    /// Callahan's Eye is a minor location
    CallahansEye,
    /// Chapel Access is a minor location
    ChapelAccess,
    /// Cragsfield is a minor location
    Cragsfield,
    /// Cragsroad is a minor location
    Cragsroad,
    /// Cragstown is a major location
    Cragstown,
    /// Crumbling Post is a major location
    CrumblingPost,
    /// Lingering Lashes is a minor location
    LingeringLashes,
    /// Lochan is a minor location
    Lochan,
    /// Lochan Berth is a major location
    LochanBerth,
    /// Lost Tops is a minor location
    LostTops,
    /// Overlook Hill is a major location
    OverlookHill,
    /// Sc??th Passing is a major location
    ScthPassing,
    /// Sioc Approach is a minor location
    SiocApproach,
    /// Solas Gateway is a minor location
    SolasGateway,
    /// Solas Gorge is a major location
    SolasGorge,
    /// Soured Fields is a minor location
    SouredFields,
    /// The Crumbling Passage is a major location
    TheCrumblingPassage,
    /// The Key is a minor location
    TheKey,
    /// The Lance is a minor location
    TheLance,
    /// The Latch is a major location
    TheLatch,
    /// The Procession is a major location
    TheProcession,
    /// The Rust Road is a minor location
    TheRustRoad,
    /// The Stern is a minor location
    TheStern,
    /// Twisted Mumble is a minor location
    TwistedMumble,
    /// Whispering Gulch is a minor location
    WhisperingGulch,
    /// White Chapel is a major location
    WhiteChapel,
    /// Winding Crag is a minor location
    WindingCrag,
}

impl CallahansPassage {
    /// The table of the region: the catalogue's entry for each location.
    /// Hidden from the verifier until revealed.
    #[verifier::opaque]
    pub open spec fn table(self) -> Entry {
        match self {
            CallahansPassage::CallahansEye => Entry { local_key: "CallahansEye", display_name: "Callahan's Eye", is_major: false, coords: (308_643_340, 262_243_360) },
            CallahansPassage::ChapelAccess => Entry { local_key: "ChapelAccess", display_name: "Chapel Access", is_major: false, coords: (867_007_500, 523_186_860) },
            CallahansPassage::Cragsfield => Entry { local_key: "Cragsfield", display_name: "Cragsfield", is_major: false, coords: (569_036_100, 198_985_430) },
            CallahansPassage::Cragsroad => Entry { local_key: "Cragsroad", display_name: "Cragsroad", is_major: false, coords: (446_064_560, 353_106_470) },
            CallahansPassage::Cragstown => Entry { local_key: "Cragstown", display_name: "Cragstown", is_major: true, coords: (516_690_850, 139_768_660) },
            CallahansPassage::CrumblingPost => Entry { local_key: "CrumblingPost", display_name: "Crumbling Post", is_major: true, coords: (353_858_950, 724_881_800) },
            CallahansPassage::LingeringLashes => Entry { local_key: "LingeringLashes", display_name: "Lingering Lashes", is_major: false, coords: (396_005_720, 163_192_440) },
            CallahansPassage::Lochan => Entry { local_key: "Lochan", display_name: "Lochan", is_major: false, coords: (549_408_850, 507_903_300) },
            CallahansPassage::LochanBerth => Entry { local_key: "LochanBerth", display_name: "Lochan Berth", is_major: true, coords: (562_700_150, 423_746_680) },
            CallahansPassage::LostTops => Entry { local_key: "LostTops", display_name: "Lost Tops", is_major: false, coords: (245_091_800, 871_078_430) },
            CallahansPassage::OverlookHill => Entry { local_key: "OverlookHill", display_name: "Overlook Hill", is_major: true, coords: (525_230_200, 648_151_300) },
            CallahansPassage::ScthPassing => Entry { local_key: "Sc??thPassing", display_name: "Sc??th Passing", is_major: true, coords: (349_099_550, 531_843_070) },
            CallahansPassage::SiocApproach => Entry { local_key: "SiocApproach", display_name: "Sioc Approach", is_major: false, coords: (621_827_200, 672_119_560) },
            CallahansPassage::SolasGateway => Entry { local_key: "SolasGateway", display_name: "Solas Gateway", is_major: false, coords: (232_418_580, 423_196_260) },
            CallahansPassage::SolasGorge => Entry { local_key: "SolasGorge", display_name: "Solas Gorge", is_major: true, coords: (194_069_470, 330_730_470) },
            CallahansPassage::SouredFields => Entry { local_key: "SouredFields", display_name: "Soured Fields", is_major: false, coords: (91_006_110, 532_157_000) },
            CallahansPassage::TheCrumblingPassage => Entry { local_key: "TheCrumblingPassage", display_name: "The Crumbling Passage", is_major: true, coords: (455_446_570, 784_724_600) },
            CallahansPassage::TheKey => Entry { local_key: "TheKey", display_name: "The Key", is_major: false, coords: (720_569_700, 936_346_500) },
            CallahansPassage::TheLance => Entry { local_key: "TheLance", display_name: "The Lance", is_major: false, coords: (384_859_140, 74_717_720) },
            CallahansPassage::TheLatch => Entry { local_key: "TheLatch", display_name: "The Latch", is_major: true, coords: (727_137_150, 683_132_950) },
            CallahansPassage::TheProcession => Entry { local_key: "TheProcession", display_name: "The Procession", is_major: true, coords: (751_388_800, 439_296_630) },
            CallahansPassage::TheRustRoad => Entry { local_key: "TheRustRoad", display_name: "The Rust Road", is_major: false, coords: (202_393_930, 698_953_750) },
            CallahansPassage::TheStern => Entry { local_key: "TheStern", display_name: "The Stern", is_major: false, coords: (780_710_200, 785_017_100) },
            CallahansPassage::TwistedMumble => Entry { local_key: "TwistedMumble", display_name: "Twisted Mumble", is_major: false, coords: (675_405_400, 172_120_750) },
            CallahansPassage::WhisperingGulch => Entry { local_key: "WhisperingGulch", display_name: "Whispering Gulch", is_major: false, coords: (496_152_760, 1_044_930_300) },
            CallahansPassage::WhiteChapel => Entry { local_key: "WhiteChapel", display_name: "White Chapel", is_major: true, coords: (763_467_900, 266_987_400) },
            CallahansPassage::WindingCrag => Entry { local_key: "WindingCrag", display_name: "Winding Crag", is_major: false, coords: (520_424_250, 245_499_480) },
        }
    }
}

impl Regional for CallahansPassage {
    open spec fn spec_region() -> Region {
        Region::CallahansPassage
    }

    open spec fn spec_entry(&self) -> Entry {
        self.table()
    }

    open spec fn spec_marked(&self) -> bool {
        *self == CallahansPassage::ScthPassing
    }

    open spec fn spec_all() -> Seq<Self> {
        seq![
            CallahansPassage::CallahansEye, CallahansPassage::ChapelAccess,
            CallahansPassage::Cragsfield, CallahansPassage::Cragsroad,
            CallahansPassage::Cragstown, CallahansPassage::CrumblingPost,
            CallahansPassage::LingeringLashes, CallahansPassage::Lochan,
            CallahansPassage::LochanBerth, CallahansPassage::LostTops,
            CallahansPassage::OverlookHill, CallahansPassage::ScthPassing,
            CallahansPassage::SiocApproach, CallahansPassage::SolasGateway,
            CallahansPassage::SolasGorge, CallahansPassage::SouredFields,
            CallahansPassage::TheCrumblingPassage, CallahansPassage::TheKey,
            CallahansPassage::TheLance, CallahansPassage::TheLatch,
            CallahansPassage::TheProcession, CallahansPassage::TheRustRoad,
            CallahansPassage::TheStern, CallahansPassage::TwistedMumble,
            CallahansPassage::WhisperingGulch, CallahansPassage::WhiteChapel,
            CallahansPassage::WindingCrag,
        ]
    }

    open spec fn spec_on_map(self) -> MapLocation {
        MapLocation::CallahansPassage(self)
    }

    fn region() -> (region: Region) {
        Region::CallahansPassage
    }

    fn entry(&self) -> (entry: Entry) {
        reveal(CallahansPassage::table);
        assert(self.spec_entry() == self.table());
        match self {
            CallahansPassage::CallahansEye => Entry { local_key: "CallahansEye", display_name: "Callahan's Eye", is_major: false, coords: (308_643_340, 262_243_360) },
            CallahansPassage::ChapelAccess => Entry { local_key: "ChapelAccess", display_name: "Chapel Access", is_major: false, coords: (867_007_500, 523_186_860) },
            CallahansPassage::Cragsfield => Entry { local_key: "Cragsfield", display_name: "Cragsfield", is_major: false, coords: (569_036_100, 198_985_430) },
            CallahansPassage::Cragsroad => Entry { local_key: "Cragsroad", display_name: "Cragsroad", is_major: false, coords: (446_064_560, 353_106_470) },
            CallahansPassage::Cragstown => Entry { local_key: "Cragstown", display_name: "Cragstown", is_major: true, coords: (516_690_850, 139_768_660) },
            CallahansPassage::CrumblingPost => Entry { local_key: "CrumblingPost", display_name: "Crumbling Post", is_major: true, coords: (353_858_950, 724_881_800) },
            CallahansPassage::LingeringLashes => Entry { local_key: "LingeringLashes", display_name: "Lingering Lashes", is_major: false, coords: (396_005_720, 163_192_440) },
            CallahansPassage::Lochan => Entry { local_key: "Lochan", display_name: "Lochan", is_major: false, coords: (549_408_850, 507_903_300) },
            CallahansPassage::LochanBerth => Entry { local_key: "LochanBerth", display_name: "Lochan Berth", is_major: true, coords: (562_700_150, 423_746_680) },
            CallahansPassage::LostTops => Entry { local_key: "LostTops", display_name: "Lost Tops", is_major: false, coords: (245_091_800, 871_078_430) },
            CallahansPassage::OverlookHill => Entry { local_key: "OverlookHill", display_name: "Overlook Hill", is_major: true, coords: (525_230_200, 648_151_300) },
            CallahansPassage::ScthPassing => Entry { local_key: "Sc??thPassing", display_name: "Sc??th Passing", is_major: true, coords: (349_099_550, 531_843_070) },
            CallahansPassage::SiocApproach => Entry { local_key: "SiocApproach", display_name: "Sioc Approach", is_major: false, coords: (621_827_200, 672_119_560) },
            CallahansPassage::SolasGateway => Entry { local_key: "SolasGateway", display_name: "Solas Gateway", is_major: false, coords: (232_418_580, 423_196_260) },
            CallahansPassage::SolasGorge => Entry { local_key: "SolasGorge", display_name: "Solas Gorge", is_major: true, coords: (194_069_470, 330_730_470) },
            CallahansPassage::SouredFields => Entry { local_key: "SouredFields", display_name: "Soured Fields", is_major: false, coords: (91_006_110, 532_157_000) },
            CallahansPassage::TheCrumblingPassage => Entry { local_key: "TheCrumblingPassage", display_name: "The Crumbling Passage", is_major: true, coords: (455_446_570, 784_724_600) },
            CallahansPassage::TheKey => Entry { local_key: "TheKey", display_name: "The Key", is_major: false, coords: (720_569_700, 936_346_500) },
            CallahansPassage::TheLance => Entry { local_key: "TheLance", display_name: "The Lance", is_major: false, coords: (384_859_140, 74_717_720) },
            CallahansPassage::TheLatch => Entry { local_key: "TheLatch", display_name: "The Latch", is_major: true, coords: (727_137_150, 683_132_950) },
            CallahansPassage::TheProcession => Entry { local_key: "TheProcession", display_name: "The Procession", is_major: true, coords: (751_388_800, 439_296_630) },
            CallahansPassage::TheRustRoad => Entry { local_key: "TheRustRoad", display_name: "The Rust Road", is_major: false, coords: (202_393_930, 698_953_750) },
            CallahansPassage::TheStern => Entry { local_key: "TheStern", display_name: "The Stern", is_major: false, coords: (780_710_200, 785_017_100) },
            CallahansPassage::TwistedMumble => Entry { local_key: "TwistedMumble", display_name: "Twisted Mumble", is_major: false, coords: (675_405_400, 172_120_750) },
            CallahansPassage::WhisperingGulch => Entry { local_key: "WhisperingGulch", display_name: "Whispering Gulch", is_major: false, coords: (496_152_760, 1_044_930_300) },
            CallahansPassage::WhiteChapel => Entry { local_key: "WhiteChapel", display_name: "White Chapel", is_major: true, coords: (763_467_900, 266_987_400) },
            CallahansPassage::WindingCrag => Entry { local_key: "WindingCrag", display_name: "Winding Crag", is_major: false, coords: (520_424_250, 245_499_480) },
        }
    }

    fn all() -> (all: Vec<Self>) {
        vec![
            CallahansPassage::CallahansEye, CallahansPassage::ChapelAccess,
            CallahansPassage::Cragsfield, CallahansPassage::Cragsroad,
            CallahansPassage::Cragstown, CallahansPassage::CrumblingPost,
            CallahansPassage::LingeringLashes, CallahansPassage::Lochan,
            CallahansPassage::LochanBerth, CallahansPassage::LostTops,
            CallahansPassage::OverlookHill, CallahansPassage::ScthPassing,
            CallahansPassage::SiocApproach, CallahansPassage::SolasGateway,
            CallahansPassage::SolasGorge, CallahansPassage::SouredFields,
            CallahansPassage::TheCrumblingPassage, CallahansPassage::TheKey,
            CallahansPassage::TheLance, CallahansPassage::TheLatch,
            CallahansPassage::TheProcession, CallahansPassage::TheRustRoad,
            CallahansPassage::TheStern, CallahansPassage::TwistedMumble,
            CallahansPassage::WhisperingGulch, CallahansPassage::WhiteChapel,
            CallahansPassage::WindingCrag,
        ]
    }

    fn from_key(key: &str) -> (found: Option<Self>) {
        reveal(CallahansPassage::table);
        if str_eq(key, "CallahansEye") {
            Some(CallahansPassage::CallahansEye)
        } else if str_eq(key, "ChapelAccess") {
            Some(CallahansPassage::ChapelAccess)
        } else if str_eq(key, "Cragsfield") {
            Some(CallahansPassage::Cragsfield)
        } else if str_eq(key, "Cragsroad") {
            Some(CallahansPassage::Cragsroad)
        } else if str_eq(key, "Cragstown") {
            Some(CallahansPassage::Cragstown)
        } else if str_eq(key, "CrumblingPost") {
            Some(CallahansPassage::CrumblingPost)
        } else if str_eq(key, "LingeringLashes") {
            Some(CallahansPassage::LingeringLashes)
        } else if str_eq(key, "Lochan") {
            Some(CallahansPassage::Lochan)
        } else if str_eq(key, "LochanBerth") {
            Some(CallahansPassage::LochanBerth)
        } else if str_eq(key, "LostTops") {
            Some(CallahansPassage::LostTops)
        } else if str_eq(key, "OverlookHill") {
            Some(CallahansPassage::OverlookHill)
        } else if str_eq(key, "Sc??thPassing") {
            Some(CallahansPassage::ScthPassing)
        } else if str_eq(key, "SiocApproach") {
            Some(CallahansPassage::SiocApproach)
        } else if str_eq(key, "SolasGateway") {
            Some(CallahansPassage::SolasGateway)
        } else if str_eq(key, "SolasGorge") {
            Some(CallahansPassage::SolasGorge)
        } else if str_eq(key, "SouredFields") {
            Some(CallahansPassage::SouredFields)
        } else if str_eq(key, "TheCrumblingPassage") {
            Some(CallahansPassage::TheCrumblingPassage)
        } else if str_eq(key, "TheKey") {
            Some(CallahansPassage::TheKey)
        } else if str_eq(key, "TheLance") {
            Some(CallahansPassage::TheLance)
        } else if str_eq(key, "TheLatch") {
            Some(CallahansPassage::TheLatch)
        } else if str_eq(key, "TheProcession") {
            Some(CallahansPassage::TheProcession)
        } else if str_eq(key, "TheRustRoad") {
            Some(CallahansPassage::TheRustRoad)
        } else if str_eq(key, "TheStern") {
            Some(CallahansPassage::TheStern)
        } else if str_eq(key, "TwistedMumble") {
            Some(CallahansPassage::TwistedMumble)
        } else if str_eq(key, "WhisperingGulch") {
            Some(CallahansPassage::WhisperingGulch)
        } else if str_eq(key, "WhiteChapel") {
            Some(CallahansPassage::WhiteChapel)
        } else if str_eq(key, "WindingCrag") {
            Some(CallahansPassage::WindingCrag)
        } else {
            None
        }
    }

    fn on_map(self) -> (place: MapLocation) {
        MapLocation::CallahansPassage(self)
    }

    proof fn lemma_entry(l: Self) {
        reveal(CallahansPassage::table);
        reveal_with_fuel(pairs_off, 22);
        reveal_with_fuel(pairs_off_marked, 28);
        match l {
            CallahansPassage::CallahansEye => {
                reveal_strlit("CallahansEye");
                reveal_strlit("Callahan's Eye");
                lemma_pairs_off("Callahan's Eye"@, "CallahansEye"@);
            },
            CallahansPassage::ChapelAccess => {
                reveal_strlit("ChapelAccess");
                reveal_strlit("Chapel Access");
                lemma_pairs_off("Chapel Access"@, "ChapelAccess"@);
            },
            CallahansPassage::Cragsfield => {
                reveal_strlit("Cragsfield");
                lemma_pairs_off("Cragsfield"@, "Cragsfield"@);
            },
            CallahansPassage::Cragsroad => {
                reveal_strlit("Cragsroad");
                lemma_pairs_off("Cragsroad"@, "Cragsroad"@);
            },
            CallahansPassage::Cragstown => {
                reveal_strlit("Cragstown");
                lemma_pairs_off("Cragstown"@, "Cragstown"@);
            },
            CallahansPassage::CrumblingPost => {
                reveal_strlit("CrumblingPost");
                reveal_strlit("Crumbling Post");
                lemma_pairs_off("Crumbling Post"@, "CrumblingPost"@);
            },
            CallahansPassage::LingeringLashes => {
                reveal_strlit("LingeringLashes");
                reveal_strlit("Lingering Lashes");
                lemma_pairs_off("Lingering Lashes"@, "LingeringLashes"@);
            },
            CallahansPassage::Lochan => {
                reveal_strlit("Lochan");
                lemma_pairs_off("Lochan"@, "Lochan"@);
            },
            CallahansPassage::LochanBerth => {
                reveal_strlit("LochanBerth");
                reveal_strlit("Lochan Berth");
                lemma_pairs_off("Lochan Berth"@, "LochanBerth"@);
            },
            CallahansPassage::LostTops => {
                reveal_strlit("LostTops");
                reveal_strlit("Lost Tops");
                lemma_pairs_off("Lost Tops"@, "LostTops"@);
            },
            CallahansPassage::OverlookHill => {
                reveal_strlit("OverlookHill");
                reveal_strlit("Overlook Hill");
                lemma_pairs_off("Overlook Hill"@, "OverlookHill"@);
            },
            CallahansPassage::ScthPassing => {
                reveal_strlit("Sc??thPassing");
                reveal_strlit("Sc??th Passing");
                lemma_pairs_off_marked("Sc??th Passing"@, "Sc??thPassing"@);
                assert("Sc??thPassing"@[2] == '?');
            },
            CallahansPassage::SiocApproach => {
                reveal_strlit("SiocApproach");
                reveal_strlit("Sioc Approach");
                lemma_pairs_off("Sioc Approach"@, "SiocApproach"@);
            },
            CallahansPassage::SolasGateway => {
                reveal_strlit("SolasGateway");
                reveal_strlit("Solas Gateway");
                lemma_pairs_off("Solas Gateway"@, "SolasGateway"@);
            },
            CallahansPassage::SolasGorge => {
                reveal_strlit("SolasGorge");
                reveal_strlit("Solas Gorge");
                lemma_pairs_off("Solas Gorge"@, "SolasGorge"@);
            },
            CallahansPassage::SouredFields => {
                reveal_strlit("SouredFields");
                reveal_strlit("Soured Fields");
                lemma_pairs_off("Soured Fields"@, "SouredFields"@);
            },
            CallahansPassage::TheCrumblingPassage => {
                reveal_strlit("TheCrumblingPassage");
                reveal_strlit("The Crumbling Passage");
                lemma_pairs_off("The Crumbling Passage"@, "TheCrumblingPassage"@);
            },
            CallahansPassage::TheKey => {
                reveal_strlit("TheKey");
                reveal_strlit("The Key");
                lemma_pairs_off("The Key"@, "TheKey"@);
            },
            CallahansPassage::TheLance => {
                reveal_strlit("TheLance");
                reveal_strlit("The Lance");
                lemma_pairs_off("The Lance"@, "TheLance"@);
            },
            CallahansPassage::TheLatch => {
                reveal_strlit("TheLatch");
                reveal_strlit("The Latch");
                lemma_pairs_off("The Latch"@, "TheLatch"@);
            },
            CallahansPassage::TheProcession => {
                reveal_strlit("TheProcession");
                reveal_strlit("The Procession");
                lemma_pairs_off("The Procession"@, "TheProcession"@);
            },
            CallahansPassage::TheRustRoad => {
                reveal_strlit("TheRustRoad");
                reveal_strlit("The Rust Road");
                lemma_pairs_off("The Rust Road"@, "TheRustRoad"@);
            },
            CallahansPassage::TheStern => {
                reveal_strlit("TheStern");
                reveal_strlit("The Stern");
                lemma_pairs_off("The Stern"@, "TheStern"@);
            },
            CallahansPassage::TwistedMumble => {
                reveal_strlit("TwistedMumble");
                reveal_strlit("Twisted Mumble");
                lemma_pairs_off("Twisted Mumble"@, "TwistedMumble"@);
            },
            CallahansPassage::WhisperingGulch => {
                reveal_strlit("WhisperingGulch");
                reveal_strlit("Whispering Gulch");
                lemma_pairs_off("Whispering Gulch"@, "WhisperingGulch"@);
            },
            CallahansPassage::WhiteChapel => {
                reveal_strlit("WhiteChapel");
                reveal_strlit("White Chapel");
                lemma_pairs_off("White Chapel"@, "WhiteChapel"@);
            },
            CallahansPassage::WindingCrag => {
                reveal_strlit("WindingCrag");
                reveal_strlit("Winding Crag");
                lemma_pairs_off("Winding Crag"@, "WindingCrag"@);
            },
        }
    }

    proof fn lemma_keys_distinct(a: Self, b: Self) {
        reveal(CallahansPassage::table);
        reveal_strlit("CallahansEye");
        reveal_strlit("ChapelAccess");
        reveal_strlit("Cragsfield");
        reveal_strlit("Cragsroad");
        reveal_strlit("Cragstown");
        reveal_strlit("CrumblingPost");
        reveal_strlit("LingeringLashes");
        reveal_strlit("Lochan");
        reveal_strlit("LochanBerth");
        reveal_strlit("LostTops");
        reveal_strlit("OverlookHill");
        reveal_strlit("Sc??thPassing");
        reveal_strlit("SiocApproach");
        reveal_strlit("SolasGateway");
        reveal_strlit("SolasGorge");
        reveal_strlit("SouredFields");
        reveal_strlit("TheCrumblingPassage");
        reveal_strlit("TheKey");
        reveal_strlit("TheLance");
        reveal_strlit("TheLatch");
        reveal_strlit("TheProcession");
        reveal_strlit("TheRustRoad");
        reveal_strlit("TheStern");
        reveal_strlit("TwistedMumble");
        reveal_strlit("WhisperingGulch");
        reveal_strlit("WhiteChapel");
        reveal_strlit("WindingCrag");
        // Two equal keys agree in length and in every character; no two
        // keys of the table do.
        let x = a.table().local_key@;
        let y = b.table().local_key@;
        assert(x.len() == y.len());
        assert(x[0] == y[0]);
        assert(x[1] == y[1]);
        assert(x[2] == y[2]);
        assert(x[3] == y[3]);
        assert(x[4] == y[4]);
        assert(x[5] == y[5]);
        assert(x[6] == y[6]);
        assert(x[7] == y[7]);
        assert(x[8] == y[8]);
        assert(x[9] == y[9]);
        assert(x[10] == y[10]);
        assert(x[11] == y[11]);
        assert(x[12] == y[12]);
        assert(x[13] == y[13]);
        assert(x[14] == y[14]);
        assert(x[15] == y[15]);
        assert(x[16] == y[16]);
        assert(x[17] == y[17]);
        assert(x[18] == y[18]);
        match a {
            CallahansPassage::CallahansEye => assert(b is CallahansEye),
            CallahansPassage::ChapelAccess => assert(b is ChapelAccess),
            CallahansPassage::Cragsfield => assert(b is Cragsfield),
            CallahansPassage::Cragsroad => assert(b is Cragsroad),
            CallahansPassage::Cragstown => assert(b is Cragstown),
            CallahansPassage::CrumblingPost => assert(b is CrumblingPost),
            CallahansPassage::LingeringLashes => assert(b is LingeringLashes),
            CallahansPassage::Lochan => assert(b is Lochan),
            CallahansPassage::LochanBerth => assert(b is LochanBerth),
            CallahansPassage::LostTops => assert(b is LostTops),
            CallahansPassage::OverlookHill => assert(b is OverlookHill),
            CallahansPassage::ScthPassing => assert(b is ScthPassing),
            CallahansPassage::SiocApproach => assert(b is SiocApproach),
            CallahansPassage::SolasGateway => assert(b is SolasGateway),
            CallahansPassage::SolasGorge => assert(b is SolasGorge),
            CallahansPassage::SouredFields => assert(b is SouredFields),
            CallahansPassage::TheCrumblingPassage => assert(b is TheCrumblingPassage),
            CallahansPassage::TheKey => assert(b is TheKey),
            CallahansPassage::TheLance => assert(b is TheLance),
            CallahansPassage::TheLatch => assert(b is TheLatch),
            CallahansPassage::TheProcession => assert(b is TheProcession),
            CallahansPassage::TheRustRoad => assert(b is TheRustRoad),
            CallahansPassage::TheStern => assert(b is TheStern),
            CallahansPassage::TwistedMumble => assert(b is TwistedMumble),
            CallahansPassage::WhisperingGulch => assert(b is WhisperingGulch),
            CallahansPassage::WhiteChapel => assert(b is WhiteChapel),
            CallahansPassage::WindingCrag => assert(b is WindingCrag),
        }
    }

    proof fn lemma_all(l: Self) {
        reveal_with_fuel(position, 28);
        reveal_with_fuel(each_first, 28);
        lemma_found(Self::spec_all(), l);
        lemma_no_duplicates(Self::spec_all());
    }

    proof fn lemma_on_map(place: MapLocation) {
        if let MapLocation::CallahansPassage(l) = place {
            assert(l.spec_on_map() == place);
        }
    }
}

} // verus!
