//! The locations of the ReachingTrail region.

use crate::map::location::Entry;
use crate::map::region::Region;
use crate::map::regional::Regional;
use crate::map::seqs::{each_first, lemma_found, lemma_no_duplicates, position};
use crate::map::MapLocation;
use crate::text::{lemma_pairs_off, lemma_pairs_off_marked, pairs_off, pairs_off_marked, str_eq};
use vstd::prelude::*;

verus! {

/// Specific map details for the `ReachingTrailHex` tile.
#[derive(Clone, Copy, Debug, PartialEq, Eq)]
pub enum ReachingTrail {
    /// Brodytown is a major location
    Brodytown,
    /// Camp Eos is a minor location
    CampEos,
    /// Caragtais is a minor location
    Caragtais,
    /// Duffy's Farm is a minor location
    DuffysFarm,
    /// Dugan's Approach is a minor location
    DugansApproach,
    /// Dwyersfield is a minor location
    Dwyersfield,
    /// Dwyerstown is a major location
    Dwyerstown,
    /// Elksford is a major location
    Elksford,
    /// Featherfield is a minor location
    Featherfield,
    /// Fisherman's Floe is a minor location
    FishermansFloe,
    /// Fort Mac Conaill is a major location
    FortMacConaill,
    /// Harpy is a major location
    Harpy,
    /// Hookhall is a minor location
    Hookhall,
    /// Humidus is a minor location
    Humidus,
    /// Ice Ranch is a major location
    IceRanch,
    /// Limestone Holdfast is a minor location
    LimestoneHoldfast,
    /// Mac Conaill's Pass is a minor location
    MacConaillsPass,
    /// Mousetrap is a major location
    Mousetrap,
    /// Nightchurch is a major location
    Nightchurch,
    /// Pitfall is a minor location
    Pitfall,
    /// Puncta is a minor location
    Puncta,
    /// Reprieve is a major location
    Reprieve,
    /// Scorpion is a minor location
    Scorpion,
    /// The Ark is a major location
    TheArk,
    /// The Bait is a minor location
    TheBait,
    /// The Cairns is a minor location
    TheCairns,
    /// The Chicken Coop is a minor location
    TheChickenCoop,
    /// The Deckard is a minor location
    TheDeckard,
    /// The Knot is a minor location
    TheKnot,
    /// The Reaching Heights is a minor location
    TheReachingHeights,
    /// The Rime Ledge is a minor location
    TheRimeLedge,
    /// The Rousing Fields is a minor location
    TheRousingFields,
    /// The Scar is a minor location
    TheScar,
    /// The Squeeze is a minor location
    TheSqueeze,
    /// Th??lak is a minor location
    Thlak,
    /// Windy Way is a minor location
    WindyWay,
}

impl ReachingTrail {
    /// The table of the region: the catalogue's entry for each location.
    /// Hidden from the verifier until revealed.
    #[verifier::opaque]
    pub open spec fn table(self) -> Entry {
        match self {
            ReachingTrail::Brodytown => Entry { local_key: "Brodytown", display_name: "Brodytown", is_major: true, coords: (444_127_650, 322_774_300) },
            ReachingTrail::CampEos => Entry { local_key: "CampEos", display_name: "Camp Eos", is_major: false, coords: (752_073_900, 703_748_760) },
            ReachingTrail::Caragtais => Entry { local_key: "Caragtais", display_name: "Caragtais", is_major: false, coords: (450_570_850, 529_406_400) },
            ReachingTrail::DuffysFarm => Entry { local_key: "DuffysFarm", display_name: "Duffy's Farm", is_major: false, coords: (271_931_800, 568_079_050) },
            ReachingTrail::DugansApproach => Entry { local_key: "DugansApproach", display_name: "Dugan's Approach", is_major: false, coords: (692_270_900, 153_867_200) },
            ReachingTrail::Dwyersfield => Entry { local_key: "Dwyersfield", display_name: "Dwyersfield", is_major: false, coords: (208_728_900, 267_135_230) },
            ReachingTrail::Dwyerstown => Entry { local_key: "Dwyerstown", display_name: "Dwyerstown", is_major: true, coords: (150_618_520, 363_913_030) },
            ReachingTrail::Elksford => Entry { local_key: "Elksford", display_name: "Elksford", is_major: true, coords: (330_496_520, 497_174_600) },
            ReachingTrail::Featherfield => Entry { local_key: "Featherfield", display_name: "Featherfield", is_major: false, coords: (440_671_700, 798_611_000) },
            ReachingTrail::FishermansFloe => Entry { local_key: "FishermansFloe", display_name: "Fisherman's Floe", is_major: false, coords: (640_080_600, 557_231_300) },
            ReachingTrail::FortMacConaill => Entry { local_key: "FortMacConaill", display_name: "Fort Mac Conaill", is_major: true, coords: (702_129_960, 848_276_400) },
            ReachingTrail::Harpy => Entry { local_key: "Harpy", display_name: "Harpy", is_major: true, coords: (443_330_680, 916_365_500) },
            ReachingTrail::Hookhall => Entry { local_key: "Hookhall", display_name: "Hookhall", is_major: false, coords: (366_726_960, 649_825_600) },
            ReachingTrail::Humidus => Entry { local_key: "Humidus", display_name: "Humidus", is_major: false, coords: (272_328_080, 667_343_440) },
            ReachingTrail::IceRanch => Entry { local_key: "IceRanch", display_name: "Ice Ranch", is_major: true, coords: (704_202_060, 387_892_700) },
            ReachingTrail::LimestoneHoldfast => Entry { local_key: "LimestoneHoldfast", display_name: "Limestone Holdfast", is_major: false, coords: (277_985_480, 161_847_860) },
            ReachingTrail::MacConaillsPass => Entry { local_key: "MacConaillsPass", display_name: "Mac Conaill's Pass", is_major: false, coords: (617_240_850, 985_965_000) },
            ReachingTrail::Mousetrap => Entry { local_key: "Mousetrap", display_name: "Mousetrap", is_major: true, coords: (840_100_600, 533_163_370) },
            ReachingTrail::Nightchurch => Entry { local_key: "Nightchurch", display_name: "Nightchurch", is_major: true, coords: (378_224_670, 744_878_050) },
            ReachingTrail::Pitfall => Entry { local_key: "Pitfall", display_name: "Pitfall", is_major: false, coords: (877_845_350, 378_582_980) },
            ReachingTrail::Puncta => Entry { local_key: "Puncta", display_name: "Puncta", is_major: false, coords: (185_309_420, 588_826_900) },
            ReachingTrail::Reprieve => Entry { local_key: "Reprieve", display_name: "Reprieve", is_major: true, coords: (544_686_140, 676_060_560) },
            ReachingTrail::Scorpion => Entry { local_key: "Scorpion", display_name: "Scorpion", is_major: false, coords: (338_546_250, 863_168_540) },
            ReachingTrail::TheArk => Entry { local_key: "TheArk", display_name: "The Ark", is_major: true, coords: (741_584_840, 557_897_500) },
            ReachingTrail::TheBait => Entry { local_key: "TheBait", display_name: "The Bait", is_major: false, coords: (708_999_000, 557_732_800) },
            ReachingTrail::TheCairns => Entry { local_key: "TheCairns", display_name: "The Cairns", is_major: false, coords: (603_128_550, 238_883_080) },
            ReachingTrail::TheChickenCoop => Entry { local_key: "TheChickenCoop", display_name: "The Chicken Coop", is_major: false, coords: (320_719_570, 414_550_600) },
            ReachingTrail::TheDeckard => Entry { local_key: "TheDeckard", display_name: "The Deckard", is_major: false, coords: (427_515_600, 41_210_115) },
            ReachingTrail::TheKnot => Entry { local_key: "TheKnot", display_name: "The Knot", is_major: false, coords: (449_044_470, 658_320_400) },
            ReachingTrail::TheReachingHeights => Entry { local_key: "TheReachingHeights", display_name: "The Reaching Heights", is_major: false, coords: (546_316_000, 547_519_000) },
            ReachingTrail::TheRimeLedge => Entry { local_key: "TheRimeLedge", display_name: "The Rime Ledge", is_major: false, coords: (899_364_770, 745_286_460) },
            ReachingTrail::TheRousingFields => Entry { local_key: "TheRousingFields", display_name: "The Rousing Fields", is_major: false, coords: (236_959_650, 467_861_770) },
            ReachingTrail::TheScar => Entry { local_key: "TheScar", display_name: "The Scar", is_major: false, coords: (294_265_450, 543_678_200) },
            ReachingTrail::TheSqueeze => Entry { local_key: "TheSqueeze", display_name: "The Squeeze", is_major: false, coords: (317_587_800, 1_056_514_300) },
            ReachingTrail::Thlak => Entry { local_key: "Th??lak", display_name: "Th??lak", is_major: false, coords: (118_086_290, 740_565_200) },
            ReachingTrail::WindyWay => Entry { local_key: "WindyWay", display_name: "Windy Way", is_major: false, coords: (227_088_720, 78_611_076) },
        }
    }
}

impl Regional for ReachingTrail {
    open spec fn spec_region() -> Region {
        Region::ReachingTrail
    }

    open spec fn spec_entry(&self) -> Entry {
        self.table()
    }

    open spec fn spec_marked(&self) -> bool {
        *self == ReachingTrail::Thlak
    }

    open spec fn spec_all() -> Seq<Self> {
        seq![
            ReachingTrail::Brodytown, ReachingTrail::CampEos, ReachingTrail::Caragtais,
            ReachingTrail::DuffysFarm, ReachingTrail::DugansApproach,
            ReachingTrail::Dwyersfield, ReachingTrail::Dwyerstown, ReachingTrail::Elksford,
            ReachingTrail::Featherfield, ReachingTrail::FishermansFloe,
            ReachingTrail::FortMacConaill, ReachingTrail::Harpy, ReachingTrail::Hookhall,
            ReachingTrail::Humidus, ReachingTrail::IceRanch, ReachingTrail::LimestoneHoldfast,
            ReachingTrail::MacConaillsPass, ReachingTrail::Mousetrap,
            ReachingTrail::Nightchurch, ReachingTrail::Pitfall, ReachingTrail::Puncta,
            ReachingTrail::Reprieve, ReachingTrail::Scorpion, ReachingTrail::TheArk,
            ReachingTrail::TheBait, ReachingTrail::TheCairns, ReachingTrail::TheChickenCoop,
            ReachingTrail::TheDeckard, ReachingTrail::TheKnot,
            ReachingTrail::TheReachingHeights, ReachingTrail::TheRimeLedge,
            ReachingTrail::TheRousingFields, ReachingTrail::TheScar, ReachingTrail::TheSqueeze,
            ReachingTrail::Thlak, ReachingTrail::WindyWay,
        ]
    }

    open spec fn spec_on_map(self) -> MapLocation {
        MapLocation::ReachingTrail(self)
    }

    fn region() -> (region: Region) {
        Region::ReachingTrail
    }

    fn entry(&self) -> (entry: Entry) {
        reveal(ReachingTrail::table);
        assert(self.spec_entry() == self.table());
        match self {
            ReachingTrail::Brodytown => Entry { local_key: "Brodytown", display_name: "Brodytown", is_major: true, coords: (444_127_650, 322_774_300) },
            ReachingTrail::CampEos => Entry { local_key: "CampEos", display_name: "Camp Eos", is_major: false, coords: (752_073_900, 703_748_760) },
            ReachingTrail::Caragtais => Entry { local_key: "Caragtais", display_name: "Caragtais", is_major: false, coords: (450_570_850, 529_406_400) },
            ReachingTrail::DuffysFarm => Entry { local_key: "DuffysFarm", display_name: "Duffy's Farm", is_major: false, coords: (271_931_800, 568_079_050) },
            ReachingTrail::DugansApproach => Entry { local_key: "DugansApproach", display_name: "Dugan's Approach", is_major: false, coords: (692_270_900, 153_867_200) },
            ReachingTrail::Dwyersfield => Entry { local_key: "Dwyersfield", display_name: "Dwyersfield", is_major: false, coords: (208_728_900, 267_135_230) },
            ReachingTrail::Dwyerstown => Entry { local_key: "Dwyerstown", display_name: "Dwyerstown", is_major: true, coords: (150_618_520, 363_913_030) },
            ReachingTrail::Elksford => Entry { local_key: "Elksford", display_name: "Elksford", is_major: true, coords: (330_496_520, 497_174_600) },
            ReachingTrail::Featherfield => Entry { local_key: "Featherfield", display_name: "Featherfield", is_major: false, coords: (440_671_700, 798_611_000) },
            ReachingTrail::FishermansFloe => Entry { local_key: "FishermansFloe", display_name: "Fisherman's Floe", is_major: false, coords: (640_080_600, 557_231_300) },
            ReachingTrail::FortMacConaill => Entry { local_key: "FortMacConaill", display_name: "Fort Mac Conaill", is_major: true, coords: (702_129_960, 848_276_400) },
            ReachingTrail::Harpy => Entry { local_key: "Harpy", display_name: "Harpy", is_major: true, coords: (443_330_680, 916_365_500) },
            ReachingTrail::Hookhall => Entry { local_key: "Hookhall", display_name: "Hookhall", is_major: false, coords: (366_726_960, 649_825_600) },
            ReachingTrail::Humidus => Entry { local_key: "Humidus", display_name: "Humidus", is_major: false, coords: (272_328_080, 667_343_440) },
            ReachingTrail::IceRanch => Entry { local_key: "IceRanch", display_name: "Ice Ranch", is_major: true, coords: (704_202_060, 387_892_700) },
            ReachingTrail::LimestoneHoldfast => Entry { local_key: "LimestoneHoldfast", display_name: "Limestone Holdfast", is_major: false, coords: (277_985_480, 161_847_860) },
            ReachingTrail::MacConaillsPass => Entry { local_key: "MacConaillsPass", display_name: "Mac Conaill's Pass", is_major: false, coords: (617_240_850, 985_965_000) },
            ReachingTrail::Mousetrap => Entry { local_key: "Mousetrap", display_name: "Mousetrap", is_major: true, coords: (840_100_600, 533_163_370) },
            ReachingTrail::Nightchurch => Entry { local_key: "Nightchurch", display_name: "Nightchurch", is_major: true, coords: (378_224_670, 744_878_050) },
            ReachingTrail::Pitfall => Entry { local_key: "Pitfall", display_name: "Pitfall", is_major: false, coords: (877_845_350, 378_582_980) },
            ReachingTrail::Puncta => Entry { local_key: "Puncta", display_name: "Puncta", is_major: false, coords: (185_309_420, 588_826_900) },
            ReachingTrail::Reprieve => Entry { local_key: "Reprieve", display_name: "Reprieve", is_major: true, coords: (544_686_140, 676_060_560) },
            ReachingTrail::Scorpion => Entry { local_key: "Scorpion", display_name: "Scorpion", is_major: false, coords: (338_546_250, 863_168_540) },
            ReachingTrail::TheArk => Entry { local_key: "TheArk", display_name: "The Ark", is_major: true, coords: (741_584_840, 557_897_500) },
            ReachingTrail::TheBait => Entry { local_key: "TheBait", display_name: "The Bait", is_major: false, coords: (708_999_000, 557_732_800) },
            ReachingTrail::TheCairns => Entry { local_key: "TheCairns", display_name: "The Cairns", is_major: false, coords: (603_128_550, 238_883_080) },
            ReachingTrail::TheChickenCoop => Entry { local_key: "TheChickenCoop", display_name: "The Chicken Coop", is_major: false, coords: (320_719_570, 414_550_600) },
            ReachingTrail::TheDeckard => Entry { local_key: "TheDeckard", display_name: "The Deckard", is_major: false, coords: (427_515_600, 41_210_115) },
            ReachingTrail::TheKnot => Entry { local_key: "TheKnot", display_name: "The Knot", is_major: false, coords: (449_044_470, 658_320_400) },
            ReachingTrail::TheReachingHeights => Entry { local_key: "TheReachingHeights", display_name: "The Reaching Heights", is_major: false, coords: (546_316_000, 547_519_000) },
            ReachingTrail::TheRimeLedge => Entry { local_key: "TheRimeLedge", display_name: "The Rime Ledge", is_major: false, coords: (899_364_770, 745_286_460) },
            ReachingTrail::TheRousingFields => Entry { local_key: "TheRousingFields", display_name: "The Rousing Fields", is_major: false, coords: (236_959_650, 467_861_770) },
            ReachingTrail::TheScar => Entry { local_key: "TheScar", display_name: "The Scar", is_major: false, coords: (294_265_450, 543_678_200) },
            ReachingTrail::TheSqueeze => Entry { local_key: "TheSqueeze", display_name: "The Squeeze", is_major: false, coords: (317_587_800, 1_056_514_300) },
            ReachingTrail::Thlak => Entry { local_key: "Th??lak", display_name: "Th??lak", is_major: false, coords: (118_086_290, 740_565_200) },
            ReachingTrail::WindyWay => Entry { local_key: "WindyWay", display_name: "Windy Way", is_major: false, coords: (227_088_720, 78_611_076) },
        }
    }

    fn all() -> (all: Vec<Self>) {
        vec![
            ReachingTrail::Brodytown, ReachingTrail::CampEos, ReachingTrail::Caragtais,
            ReachingTrail::DuffysFarm, ReachingTrail::DugansApproach,
            ReachingTrail::Dwyersfield, ReachingTrail::Dwyerstown, ReachingTrail::Elksford,
            ReachingTrail::Featherfield, ReachingTrail::FishermansFloe,
            ReachingTrail::FortMacConaill, ReachingTrail::Harpy, ReachingTrail::Hookhall,
            ReachingTrail::Humidus, ReachingTrail::IceRanch, ReachingTrail::LimestoneHoldfast,
            ReachingTrail::MacConaillsPass, ReachingTrail::Mousetrap,
            ReachingTrail::Nightchurch, ReachingTrail::Pitfall, ReachingTrail::Puncta,
            ReachingTrail::Reprieve, ReachingTrail::Scorpion, ReachingTrail::TheArk,
            ReachingTrail::TheBait, ReachingTrail::TheCairns, ReachingTrail::TheChickenCoop,
            ReachingTrail::TheDeckard, ReachingTrail::TheKnot,
            ReachingTrail::TheReachingHeights, ReachingTrail::TheRimeLedge,
            ReachingTrail::TheRousingFields, ReachingTrail::TheScar, ReachingTrail::TheSqueeze,
            ReachingTrail::Thlak, ReachingTrail::WindyWay,
        ]
    }

    fn from_key(key: &str) -> (found: Option<Self>) {
        reveal(ReachingTrail::table);
        if str_eq(key, "Brodytown") {
            Some(ReachingTrail::Brodytown)
        } else if str_eq(key, "CampEos") {
            Some(ReachingTrail::CampEos)
        } else if str_eq(key, "Caragtais") {
            Some(ReachingTrail::Caragtais)
        } else if str_eq(key, "DuffysFarm") {
            Some(ReachingTrail::DuffysFarm)
        } else if str_eq(key, "DugansApproach") {
            Some(ReachingTrail::DugansApproach)
        } else if str_eq(key, "Dwyersfield") {
            Some(ReachingTrail::Dwyersfield)
        } else if str_eq(key, "Dwyerstown") {
            Some(ReachingTrail::Dwyerstown)
        } else if str_eq(key, "Elksford") {
            Some(ReachingTrail::Elksford)
        } else if str_eq(key, "Featherfield") {
            Some(ReachingTrail::Featherfield)
        } else if str_eq(key, "FishermansFloe") {
            Some(ReachingTrail::FishermansFloe)
        } else if str_eq(key, "FortMacConaill") {
            Some(ReachingTrail::FortMacConaill)
        } else if str_eq(key, "Harpy") {
            Some(ReachingTrail::Harpy)
        } else if str_eq(key, "Hookhall") {
            Some(ReachingTrail::Hookhall)
        } else if str_eq(key, "Humidus") {
            Some(ReachingTrail::Humidus)
        } else if str_eq(key, "IceRanch") {
            Some(ReachingTrail::IceRanch)
        } else if str_eq(key, "LimestoneHoldfast") {
            Some(ReachingTrail::LimestoneHoldfast)
        } else if str_eq(key, "MacConaillsPass") {
            Some(ReachingTrail::MacConaillsPass)
        } else if str_eq(key, "Mousetrap") {
            Some(ReachingTrail::Mousetrap)
        } else if str_eq(key, "Nightchurch") {
            Some(ReachingTrail::Nightchurch)
        } else if str_eq(key, "Pitfall") {
            Some(ReachingTrail::Pitfall)
        } else if str_eq(key, "Puncta") {
            Some(ReachingTrail::Puncta)
        } else if str_eq(key, "Reprieve") {
            Some(ReachingTrail::Reprieve)
        } else if str_eq(key, "Scorpion") {
            Some(ReachingTrail::Scorpion)
        } else if str_eq(key, "TheArk") {
            Some(ReachingTrail::TheArk)
        } else if str_eq(key, "TheBait") {
            Some(ReachingTrail::TheBait)
        } else if str_eq(key, "TheCairns") {
            Some(ReachingTrail::TheCairns)
        } else if str_eq(key, "TheChickenCoop") {
            Some(ReachingTrail::TheChickenCoop)
        } else if str_eq(key, "TheDeckard") {
            Some(ReachingTrail::TheDeckard)
        } else if str_eq(key, "TheKnot") {
            Some(ReachingTrail::TheKnot)
        } else if str_eq(key, "TheReachingHeights") {
            Some(ReachingTrail::TheReachingHeights)
        } else if str_eq(key, "TheRimeLedge") {
            Some(ReachingTrail::TheRimeLedge)
        } else if str_eq(key, "TheRousingFields") {
            Some(ReachingTrail::TheRousingFields)
        } else if str_eq(key, "TheScar") {
            Some(ReachingTrail::TheScar)
        } else if str_eq(key, "TheSqueeze") {
            Some(ReachingTrail::TheSqueeze)
        } else if str_eq(key, "Th??lak") {
            Some(ReachingTrail::Thlak)
        } else if str_eq(key, "WindyWay") {
            Some(ReachingTrail::WindyWay)
        } else {
            None
        }
    }

    fn on_map(self) -> (place: MapLocation) {
        MapLocation::ReachingTrail(self)
    }

    proof fn lemma_entry(l: Self) {
        reveal(ReachingTrail::table);
        reveal_with_fuel(pairs_off, 21);
        reveal_with_fuel(pairs_off_marked, 15);
        match l {
            ReachingTrail::Brodytown => {
                reveal_strlit("Brodytown");
                lemma_pairs_off("Brodytown"@, "Brodytown"@);
            },
            ReachingTrail::CampEos => {
                reveal_strlit("CampEos");
                reveal_strlit("Camp Eos");
                lemma_pairs_off("Camp Eos"@, "CampEos"@);
            },
            ReachingTrail::Caragtais => {
                reveal_strlit("Caragtais");
                lemma_pairs_off("Caragtais"@, "Caragtais"@);
            },
            ReachingTrail::DuffysFarm => {
                reveal_strlit("DuffysFarm");
                reveal_strlit("Duffy's Farm");
                lemma_pairs_off("Duffy's Farm"@, "DuffysFarm"@);
            },
            ReachingTrail::DugansApproach => {
                reveal_strlit("DugansApproach");
                reveal_strlit("Dugan's Approach");
                lemma_pairs_off("Dugan's Approach"@, "DugansApproach"@);
            },
            ReachingTrail::Dwyersfield => {
                reveal_strlit("Dwyersfield");
                lemma_pairs_off("Dwyersfield"@, "Dwyersfield"@);
            },
            ReachingTrail::Dwyerstown => {
                reveal_strlit("Dwyerstown");
                lemma_pairs_off("Dwyerstown"@, "Dwyerstown"@);
            },
            ReachingTrail::Elksford => {
                reveal_strlit("Elksford");
                lemma_pairs_off("Elksford"@, "Elksford"@);
            },
            ReachingTrail::Featherfield => {
                reveal_strlit("Featherfield");
                lemma_pairs_off("Featherfield"@, "Featherfield"@);
            },
            ReachingTrail::FishermansFloe => {
                reveal_strlit("FishermansFloe");
                reveal_strlit("Fisherman's Floe");
                lemma_pairs_off("Fisherman's Floe"@, "FishermansFloe"@);
            },
            ReachingTrail::FortMacConaill => {
                reveal_strlit("FortMacConaill");
                reveal_strlit("Fort Mac Conaill");
                lemma_pairs_off("Fort Mac Conaill"@, "FortMacConaill"@);
            },
            ReachingTrail::Harpy => {
                reveal_strlit("Harpy");
                lemma_pairs_off("Harpy"@, "Harpy"@);
            },
            ReachingTrail::Hookhall => {
                reveal_strlit("Hookhall");
                lemma_pairs_off("Hookhall"@, "Hookhall"@);
            },
            ReachingTrail::Humidus => {
                reveal_strlit("Humidus");
                lemma_pairs_off("Humidus"@, "Humidus"@);
            },
            ReachingTrail::IceRanch => {
                reveal_strlit("IceRanch");
                reveal_strlit("Ice Ranch");
                lemma_pairs_off("Ice Ranch"@, "IceRanch"@);
            },
            ReachingTrail::LimestoneHoldfast => {
                reveal_strlit("LimestoneHoldfast");
                reveal_strlit("Limestone Holdfast");
                lemma_pairs_off("Limestone Holdfast"@, "LimestoneHoldfast"@);
            },
            ReachingTrail::MacConaillsPass => {
                reveal_strlit("MacConaillsPass");
                reveal_strlit("Mac Conaill's Pass");
                lemma_pairs_off("Mac Conaill's Pass"@, "MacConaillsPass"@);
            },
            ReachingTrail::Mousetrap => {
                reveal_strlit("Mousetrap");
                lemma_pairs_off("Mousetrap"@, "Mousetrap"@);
            },
            ReachingTrail::Nightchurch => {
                reveal_strlit("Nightchurch");
                lemma_pairs_off("Nightchurch"@, "Nightchurch"@);
            },
            ReachingTrail::Pitfall => {
                reveal_strlit("Pitfall");
                lemma_pairs_off("Pitfall"@, "Pitfall"@);
            },
            ReachingTrail::Puncta => {
                reveal_strlit("Puncta");
                lemma_pairs_off("Puncta"@, "Puncta"@);
            },
            ReachingTrail::Reprieve => {
                reveal_strlit("Reprieve");
                lemma_pairs_off("Reprieve"@, "Reprieve"@);
            },
            ReachingTrail::Scorpion => {
                reveal_strlit("Scorpion");
                lemma_pairs_off("Scorpion"@, "Scorpion"@);
            },
            ReachingTrail::TheArk => {
                reveal_strlit("TheArk");
                reveal_strlit("The Ark");
                lemma_pairs_off("The Ark"@, "TheArk"@);
            },
            ReachingTrail::TheBait => {
                reveal_strlit("TheBait");
                reveal_strlit("The Bait");
                lemma_pairs_off("The Bait"@, "TheBait"@);
            },
            ReachingTrail::TheCairns => {
                reveal_strlit("TheCairns");
                reveal_strlit("The Cairns");
                lemma_pairs_off("The Cairns"@, "TheCairns"@);
            },
            ReachingTrail::TheChickenCoop => {
                reveal_strlit("TheChickenCoop");
                reveal_strlit("The Chicken Coop");
                lemma_pairs_off("The Chicken Coop"@, "TheChickenCoop"@);
            },
            ReachingTrail::TheDeckard => {
                reveal_strlit("TheDeckard");
                reveal_strlit("The Deckard");
                lemma_pairs_off("The Deckard"@, "TheDeckard"@);
            },
            ReachingTrail::TheKnot => {
                reveal_strlit("TheKnot");
                reveal_strlit("The Knot");
                lemma_pairs_off("The Knot"@, "TheKnot"@);
            },
            ReachingTrail::TheReachingHeights => {
                reveal_strlit("TheReachingHeights");
                reveal_strlit("The Reaching Heights");
                lemma_pairs_off("The Reaching Heights"@, "TheReachingHeights"@);
            },
            ReachingTrail::TheRimeLedge => {
                reveal_strlit("TheRimeLedge");
                reveal_strlit("The Rime Ledge");
                lemma_pairs_off("The Rime Ledge"@, "TheRimeLedge"@);
            },
            ReachingTrail::TheRousingFields => {
                reveal_strlit("TheRousingFields");
                reveal_strlit("The Rousing Fields");
                lemma_pairs_off("The Rousing Fields"@, "TheRousingFields"@);
            },
            ReachingTrail::TheScar => {
                reveal_strlit("TheScar");
                reveal_strlit("The Scar");
                lemma_pairs_off("The Scar"@, "TheScar"@);
            },
            ReachingTrail::TheSqueeze => {
                reveal_strlit("TheSqueeze");
                reveal_strlit("The Squeeze");
                lemma_pairs_off("The Squeeze"@, "TheSqueeze"@);
            },
            ReachingTrail::Thlak => {
                reveal_strlit("Th??lak");
                lemma_pairs_off_marked("Th??lak"@, "Th??lak"@);
                assert("Th??lak"@[2] == '?');
            },
            ReachingTrail::WindyWay => {
                reveal_strlit("WindyWay");
                reveal_strlit("Windy Way");
                lemma_pairs_off("Windy Way"@, "WindyWay"@);
            },
        }
    }

    proof fn lemma_keys_distinct(a: Self, b: Self) {
        reveal(ReachingTrail::table);
        reveal_strlit("Brodytown");
        reveal_strlit("CampEos");
        reveal_strlit("Caragtais");
        reveal_strlit("DuffysFarm");
        reveal_strlit("DugansApproach");
        reveal_strlit("Dwyersfield");
        reveal_strlit("Dwyerstown");
        reveal_strlit("Elksford");
        reveal_strlit("Featherfield");
        reveal_strlit("FishermansFloe");
        reveal_strlit("FortMacConaill");
        reveal_strlit("Harpy");
        reveal_strlit("Hookhall");
        reveal_strlit("Humidus");
        reveal_strlit("IceRanch");
        reveal_strlit("LimestoneHoldfast");
        reveal_strlit("MacConaillsPass");
        reveal_strlit("Mousetrap");
        reveal_strlit("Nightchurch");
        reveal_strlit("Pitfall");
        reveal_strlit("Puncta");
        reveal_strlit("Reprieve");
        reveal_strlit("Scorpion");
        reveal_strlit("TheArk");
        reveal_strlit("TheBait");
        reveal_strlit("TheCairns");
        reveal_strlit("TheChickenCoop");
        reveal_strlit("TheDeckard");
        reveal_strlit("TheKnot");
        reveal_strlit("TheReachingHeights");
        reveal_strlit("TheRimeLedge");
        reveal_strlit("TheRousingFields");
        reveal_strlit("TheScar");
        reveal_strlit("TheSqueeze");
        reveal_strlit("Th??lak");
        reveal_strlit("WindyWay");
        // Two equal keys agree in length and in every character; no two
        // keys of the table do.
        let x = a.table().local_key@;
        let y = b.table().local_key@;
        assert(x.len() == y.len());
        assert(x[0] == y[0]);
        assert(x[1] == y[1]);
        assert(x[2] == y[2]);
        assert(x[3] == y[3]);
        assert(x[4] == y[4]);
        assert(x[5] == y[5]);
        assert(x[6] == y[6]);
        assert(x[7] == y[7]);
        assert(x[8] == y[8]);
        assert(x[9] == y[9]);
        assert(x[10] == y[10]);
        assert(x[11] == y[11]);
        assert(x[12] == y[12]);
        assert(x[13] == y[13]);
        assert(x[14] == y[14]);
        assert(x[15] == y[15]);
        assert(x[16] == y[16]);
        assert(x[17] == y[17]);
        match a {
            ReachingTrail::Brodytown => assert(b is Brodytown),
            ReachingTrail::CampEos => assert(b is CampEos),
            ReachingTrail::Caragtais => assert(b is Caragtais),
            ReachingTrail::DuffysFarm => assert(b is DuffysFarm),
            ReachingTrail::DugansApproach => assert(b is DugansApproach),
            ReachingTrail::Dwyersfield => assert(b is Dwyersfield),
            ReachingTrail::Dwyerstown => assert(b is Dwyerstown),
            ReachingTrail::Elksford => assert(b is Elksford),
            ReachingTrail::Featherfield => assert(b is Featherfield),
            ReachingTrail::FishermansFloe => assert(b is FishermansFloe),
            ReachingTrail::FortMacConaill => assert(b is FortMacConaill),
            ReachingTrail::Harpy => assert(b is Harpy),
            ReachingTrail::Hookhall => assert(b is Hookhall),
            ReachingTrail::Humidus => assert(b is Humidus),
            ReachingTrail::IceRanch => assert(b is IceRanch),
            ReachingTrail::LimestoneHoldfast => assert(b is LimestoneHoldfast),
            ReachingTrail::MacConaillsPass => assert(b is MacConaillsPass),
            ReachingTrail::Mousetrap => assert(b is Mousetrap),
            ReachingTrail::Nightchurch => assert(b is Nightchurch),
            ReachingTrail::Pitfall => assert(b is Pitfall),
            ReachingTrail::Puncta => assert(b is Puncta),
            ReachingTrail::Reprieve => assert(b is Reprieve),
            ReachingTrail::Scorpion => assert(b is Scorpion),
            ReachingTrail::TheArk => assert(b is TheArk),
            ReachingTrail::TheBait => assert(b is TheBait),
            ReachingTrail::TheCairns => assert(b is TheCairns),
            ReachingTrail::TheChickenCoop => assert(b is TheChickenCoop),
            ReachingTrail::TheDeckard => assert(b is TheDeckard),
            ReachingTrail::TheKnot => assert(b is TheKnot),
            ReachingTrail::TheReachingHeights => assert(b is TheReachingHeights),
            ReachingTrail::TheRimeLedge => assert(b is TheRimeLedge),
            ReachingTrail::TheRousingFields => assert(b is TheRousingFields),
            ReachingTrail::TheScar => assert(b is TheScar),
            ReachingTrail::TheSqueeze => assert(b is TheSqueeze),
            ReachingTrail::Thlak => assert(b is Thlak),
            ReachingTrail::WindyWay => assert(b is WindyWay),
        }
    }

    proof fn lemma_all(l: Self) {
        reveal_with_fuel(position, 37);
        reveal_with_fuel(each_first, 37);
        lemma_found(Self::spec_all(), l);
        lemma_no_duplicates(Self::spec_all());
    }

    proof fn lemma_on_map(place: MapLocation) {
        if let MapLocation::ReachingTrail(l) = place {
            assert(l.spec_on_map() == place);
        }
    }
}

} // verus!
