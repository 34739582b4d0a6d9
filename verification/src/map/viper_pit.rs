//! The locations of the ViperPit region.

use crate::map::location::Entry;
use crate::map::region::Region;
use crate::map::regional::Regional;
use crate::map::seqs::{each_first, lemma_found, lemma_no_duplicates, position};
use crate::map::MapLocation;
use crate::text::{lemma_pairs_off, pairs_off, str_eq};
use vstd::prelude::*;

verus! {

/// Specific map details for the `ViperPitHex` tile.
#[derive(Clone, Copy, Debug, PartialEq, Eq)]
pub enum ViperPit {
    /// Afric's Approach is a minor location
    AfricsApproach,
    /// Austriaca River is a minor location
    AustriacaRiver,
    /// Blackthroat is a major location
    Blackthroat,
    /// Deadsteps is a minor location
    Deadsteps,
    /// Earl Crowley is a major location
    EarlCrowley,
    /// Earl's Welcome is a minor location
    EarlsWelcome,
    /// Fleck Crossing is a major location
    FleckCrossing,
    /// Fort Viper is a major location
    FortViper,
    /// Hardcaps is a minor location
    Hardcaps,
    /// Kirknell is a major location
    Kirknell,
    /// Lake Mioira is a minor location
    LakeMioira,
    /// Moltworth is a major location
    Moltworth,
    /// Path of the Charmed is a minor location
    PathoftheCharmed,
    /// Serenity's Blight is a major location
    SerenitysBlight,
    /// Snakehead Lake is a minor location
    SnakeheadLake,
    /// The Bloody Bowery is a minor location
    TheBloodyBowery,
    /// The Friars is a major location
    TheFriars,
    /// The Lady's Lake is a minor location
    TheLadysLake,
    /// The Rockaway is a minor location
    TheRockaway,
    /// The Slithering Scales is a minor location
    TheSlitheringScales,
    /// The Tongue is a minor location
    TheTongue,
    /// Twin Fangs is a minor location
    TwinFangs,
}

impl ViperPit {
    /// The table of the region: the catalogue's entry for each location.
    /// Hidden from the verifier until revealed.
    #[verifier::opaque]
    pub open spec fn table(self) -> Entry {
        match self {
            ViperPit::AfricsApproach => Entry { local_key: "AfricsApproach", display_name: "Afric's Approach", is_major: false, coords: (260_431_770, 674_247_700) },
            ViperPit::AustriacaRiver => Entry { local_key: "AustriacaRiver", display_name: "Austriaca River", is_major: false, coords: (489_258_530, 853_516_100) },
            ViperPit::Blackthroat => Entry { local_key: "Blackthroat", display_name: "Blackthroat", is_major: true, coords: (382_738_380, 828_343_630) },
            ViperPit::Deadsteps => Entry { local_key: "Deadsteps", display_name: "Deadsteps", is_major: false, coords: (542_819_800, 211_017_830) },
            ViperPit::EarlCrowley => Entry { local_key: "EarlCrowley", display_name: "Earl Crowley", is_major: true, coords: (816_489_000, 513_877_800) },
            ViperPit::EarlsWelcome => Entry { local_key: "EarlsWelcome", display_name: "Earl's Welcome", is_major: false, coords: (145_884_710, 409_776_780) },
            ViperPit::FleckCrossing => Entry { local_key: "FleckCrossing", display_name: "Fleck Crossing", is_major: true, coords: (532_196_200, 537_585_700) },
            ViperPit::FortViper => Entry { local_key: "FortViper", display_name: "Fort Viper", is_major: true, coords: (341_856_500, 599_041_000) },
            ViperPit::Hardcaps => Entry { local_key: "Hardcaps", display_name: "Hardcaps", is_major: false, coords: (458_719_730, 32_195_564) },
            ViperPit::Kirknell => Entry { local_key: "Kirknell", display_name: "Kirknell", is_major: true, coords: (282_703_970, 548_087_000) },
            ViperPit::LakeMioira => Entry { local_key: "LakeMioira", display_name: "Lake Mioira", is_major: false, coords: (213_707_720, 100_938_460) },
            ViperPit::Moltworth => Entry { local_key: "Moltworth", display_name: "Moltworth", is_major: true, coords: (623_450_200, 710_397_240) },
            ViperPit::PathoftheCharmed => Entry { local_key: "PathoftheCharmed", display_name: "Path of the Charmed", is_major: false, coords: (681_991_000, 941_829_600) },
            ViperPit::SerenitysBlight => Entry { local_key: "SerenitysBlight", display_name: "Serenity's Blight", is_major: true, coords: (443_897_250, 351_140_700) },
            ViperPit::SnakeheadLake => Entry { local_key: "SnakeheadLake", display_name: "Snakehead Lake", is_major: false, coords: (401_738_140, 208_305_540) },
            ViperPit::TheBloodyBowery => Entry { local_key: "TheBloodyBowery", display_name: "The Bloody Bowery", is_major: false, coords: (276_419_820, 457_736_280) },
            ViperPit::TheFriars => Entry { local_key: "TheFriars", display_name: "The Friars", is_major: true, coords: (269_041_540, 815_742_600) },
            ViperPit::TheLadysLake => Entry { local_key: "TheLadysLake", display_name: "The Lady's Lake", is_major: false, coords: (195_569_840, 632_804_100) },
            ViperPit::TheRockaway => Entry { local_key: "TheRockaway", display_name: "The Rockaway", is_major: false, coords: (780_500_230, 704_823_300) },
            ViperPit::TheSlitheringScales => Entry { local_key: "TheSlitheringScales", display_name: "The Slithering Scales", is_major: false, coords: (578_732_400, 431_428_550) },
            ViperPit::TheTongue => Entry { local_key: "TheTongue", display_name: "The Tongue", is_major: false, coords: (693_690_840, 154_687_800) },
            ViperPit::TwinFangs => Entry { local_key: "TwinFangs", display_name: "Twin Fangs", is_major: false, coords: (370_246_170, 401_323_230) },
        }
    }
}

impl Regional for ViperPit {
    open spec fn spec_region() -> Region {
        Region::ViperPit
    }

    open spec fn spec_entry(&self) -> Entry {
        self.table()
    }

    open spec fn spec_marked(&self) -> bool {
        false
    }

    open spec fn spec_all() -> Seq<Self> {
        seq![
            ViperPit::AfricsApproach, ViperPit::AustriacaRiver, ViperPit::Blackthroat,
            ViperPit::Deadsteps, ViperPit::EarlCrowley, ViperPit::EarlsWelcome,
            ViperPit::FleckCrossing, ViperPit::FortViper, ViperPit::Hardcaps,
            ViperPit::Kirknell, ViperPit::LakeMioira, ViperPit::Moltworth,
            ViperPit::PathoftheCharmed, ViperPit::SerenitysBlight, ViperPit::SnakeheadLake,
            ViperPit::TheBloodyBowery, ViperPit::TheFriars, ViperPit::TheLadysLake,
            ViperPit::TheRockaway, ViperPit::TheSlitheringScales, ViperPit::TheTongue,
            ViperPit::TwinFangs,
        ]
    }

    open spec fn spec_on_map(self) -> MapLocation {
        MapLocation::ViperPit(self)
    }

    fn region() -> (region: Region) {
        Region::ViperPit
    }

    fn entry(&self) -> (entry: Entry) {
        reveal(ViperPit::table);
        assert(self.spec_entry() == self.table());
        match self {
            ViperPit::AfricsApproach => Entry { local_key: "AfricsApproach", display_name: "Afric's Approach", is_major: false, coords: (260_431_770, 674_247_700) },
            ViperPit::AustriacaRiver => Entry { local_key: "AustriacaRiver", display_name: "Austriaca River", is_major: false, coords: (489_258_530, 853_516_100) },
            ViperPit::Blackthroat => Entry { local_key: "Blackthroat", display_name: "Blackthroat", is_major: true, coords: (382_738_380, 828_343_630) },
            ViperPit::Deadsteps => Entry { local_key: "Deadsteps", display_name: "Deadsteps", is_major: false, coords: (542_819_800, 211_017_830) },
            ViperPit::EarlCrowley => Entry { local_key: "EarlCrowley", display_name: "Earl Crowley", is_major: true, coords: (816_489_000, 513_877_800) },
            ViperPit::EarlsWelcome => Entry { local_key: "EarlsWelcome", display_name: "Earl's Welcome", is_major: false, coords: (145_884_710, 409_776_780) },
            ViperPit::FleckCrossing => Entry { local_key: "FleckCrossing", display_name: "Fleck Crossing", is_major: true, coords: (532_196_200, 537_585_700) },
            ViperPit::FortViper => Entry { local_key: "FortViper", display_name: "Fort Viper", is_major: true, coords: (341_856_500, 599_041_000) },
            ViperPit::Hardcaps => Entry { local_key: "Hardcaps", display_name: "Hardcaps", is_major: false, coords: (458_719_730, 32_195_564) },
            ViperPit::Kirknell => Entry { local_key: "Kirknell", display_name: "Kirknell", is_major: true, coords: (282_703_970, 548_087_000) },
            ViperPit::LakeMioira => Entry { local_key: "LakeMioira", display_name: "Lake Mioira", is_major: false, coords: (213_707_720, 100_938_460) },
            ViperPit::Moltworth => Entry { local_key: "Moltworth", display_name: "Moltworth", is_major: true, coords: (623_450_200, 710_397_240) },
            ViperPit::PathoftheCharmed => Entry { local_key: "PathoftheCharmed", display_name: "Path of the Charmed", is_major: false, coords: (681_991_000, 941_829_600) },
            ViperPit::SerenitysBlight => Entry { local_key: "SerenitysBlight", display_name: "Serenity's Blight", is_major: true, coords: (443_897_250, 351_140_700) },
            ViperPit::SnakeheadLake => Entry { local_key: "SnakeheadLake", display_name: "Snakehead Lake", is_major: false, coords: (401_738_140, 208_305_540) },
            ViperPit::TheBloodyBowery => Entry { local_key: "TheBloodyBowery", display_name: "The Bloody Bowery", is_major: false, coords: (276_419_820, 457_736_280) },
            ViperPit::TheFriars => Entry { local_key: "TheFriars", display_name: "The Friars", is_major: true, coords: (269_041_540, 815_742_600) },
            ViperPit::TheLadysLake => Entry { local_key: "TheLadysLake", display_name: "The Lady's Lake", is_major: false, coords: (195_569_840, 632_804_100) },
            ViperPit::TheRockaway => Entry { local_key: "TheRockaway", display_name: "The Rockaway", is_major: false, coords: (780_500_230, 704_823_300) },
            ViperPit::TheSlitheringScales => Entry { local_key: "TheSlitheringScales", display_name: "The Slithering Scales", is_major: false, coords: (578_732_400, 431_428_550) },
            ViperPit::TheTongue => Entry { local_key: "TheTongue", display_name: "The Tongue", is_major: false, coords: (693_690_840, 154_687_800) },
            ViperPit::TwinFangs => Entry { local_key: "TwinFangs", display_name: "Twin Fangs", is_major: false, coords: (370_246_170, 401_323_230) },
        }
    }

    fn all() -> (all: Vec<Self>) {
        vec![
            ViperPit::AfricsApproach, ViperPit::AustriacaRiver, ViperPit::Blackthroat,
            ViperPit::Deadsteps, ViperPit::EarlCrowley, ViperPit::EarlsWelcome,
            ViperPit::FleckCrossing, ViperPit::FortViper, ViperPit::Hardcaps,
            ViperPit::Kirknell, ViperPit::LakeMioira, ViperPit::Moltworth,
            ViperPit::PathoftheCharmed, ViperPit::SerenitysBlight, ViperPit::SnakeheadLake,
            ViperPit::TheBloodyBowery, ViperPit::TheFriars, ViperPit::TheLadysLake,
            ViperPit::TheRockaway, ViperPit::TheSlitheringScales, ViperPit::TheTongue,
            ViperPit::TwinFangs,
        ]
    }

    fn from_key(key: &str) -> (found: Option<Self>) {
        reveal(ViperPit::table);
        if str_eq(key, "AfricsApproach") {
            Some(ViperPit::AfricsApproach)
        } else if str_eq(key, "AustriacaRiver") {
            Some(ViperPit::AustriacaRiver)
        } else if str_eq(key, "Blackthroat") {
            Some(ViperPit::Blackthroat)
        } else if str_eq(key, "Deadsteps") {
            Some(ViperPit::Deadsteps)
        } else if str_eq(key, "EarlCrowley") {
            Some(ViperPit::EarlCrowley)
        } else if str_eq(key, "EarlsWelcome") {
            Some(ViperPit::EarlsWelcome)
        } else if str_eq(key, "FleckCrossing") {
            Some(ViperPit::FleckCrossing)
        } else if str_eq(key, "FortViper") {
            Some(ViperPit::FortViper)
        } else if str_eq(key, "Hardcaps") {
            Some(ViperPit::Hardcaps)
        } else if str_eq(key, "Kirknell") {
            Some(ViperPit::Kirknell)
        } else if str_eq(key, "LakeMioira") {
            Some(ViperPit::LakeMioira)
        } else if str_eq(key, "Moltworth") {
            Some(ViperPit::Moltworth)
        } else if str_eq(key, "PathoftheCharmed") {
            Some(ViperPit::PathoftheCharmed)
        } else if str_eq(key, "SerenitysBlight") {
            Some(ViperPit::SerenitysBlight)
        } else if str_eq(key, "SnakeheadLake") {
            Some(ViperPit::SnakeheadLake)
        } else if str_eq(key, "TheBloodyBowery") {
            Some(ViperPit::TheBloodyBowery)
        } else if str_eq(key, "TheFriars") {
            Some(ViperPit::TheFriars)
        } else if str_eq(key, "TheLadysLake") {
            Some(ViperPit::TheLadysLake)
        } else if str_eq(key, "TheRockaway") {
            Some(ViperPit::TheRockaway)
        } else if str_eq(key, "TheSlitheringScales") {
            Some(ViperPit::TheSlitheringScales)
        } else if str_eq(key, "TheTongue") {
            Some(ViperPit::TheTongue)
        } else if str_eq(key, "TwinFangs") {
            Some(ViperPit::TwinFangs)
        } else {
            None
        }
    }

    fn on_map(self) -> (place: MapLocation) {
        MapLocation::ViperPit(self)
    }

    proof fn lemma_entry(l: Self) {
        reveal(ViperPit::table);
        reveal_with_fuel(pairs_off, 22);
        match l {
            ViperPit::AfricsApproach => {
                reveal_strlit("AfricsApproach");
                reveal_strlit("Afric's Approach");
                lemma_pairs_off("Afric's Approach"@, "AfricsApproach"@);
            },
            ViperPit::AustriacaRiver => {
                reveal_strlit("AustriacaRiver");
                reveal_strlit("Austriaca River");
                lemma_pairs_off("Austriaca River"@, "AustriacaRiver"@);
            },
            ViperPit::Blackthroat => {
                reveal_strlit("Blackthroat");
                lemma_pairs_off("Blackthroat"@, "Blackthroat"@);
            },
            ViperPit::Deadsteps => {
                reveal_strlit("Deadsteps");
                lemma_pairs_off("Deadsteps"@, "Deadsteps"@);
            },
            ViperPit::EarlCrowley => {
                reveal_strlit("EarlCrowley");
                reveal_strlit("Earl Crowley");
                lemma_pairs_off("Earl Crowley"@, "EarlCrowley"@);
            },
            ViperPit::EarlsWelcome => {
                reveal_strlit("EarlsWelcome");
                reveal_strlit("Earl's Welcome");
                lemma_pairs_off("Earl's Welcome"@, "EarlsWelcome"@);
            },
            ViperPit::FleckCrossing => {
                reveal_strlit("FleckCrossing");
                reveal_strlit("Fleck Crossing");
                lemma_pairs_off("Fleck Crossing"@, "FleckCrossing"@);
            },
            ViperPit::FortViper => {
                reveal_strlit("FortViper");
                reveal_strlit("Fort Viper");
                lemma_pairs_off("Fort Viper"@, "FortViper"@);
            },
            ViperPit::Hardcaps => {
                reveal_strlit("Hardcaps");
                lemma_pairs_off("Hardcaps"@, "Hardcaps"@);
            },
            ViperPit::Kirknell => {
                reveal_strlit("Kirknell");
                lemma_pairs_off("Kirknell"@, "Kirknell"@);
            },
            ViperPit::LakeMioira => {
                reveal_strlit("LakeMioira");
                reveal_strlit("Lake Mioira");
                lemma_pairs_off("Lake Mioira"@, "LakeMioira"@);
            },
            ViperPit::Moltworth => {
                reveal_strlit("Moltworth");
                lemma_pairs_off("Moltworth"@, "Moltworth"@);
            },
            ViperPit::PathoftheCharmed => {
                reveal_strlit("PathoftheCharmed");
                reveal_strlit("Path of the Charmed");
                lemma_pairs_off("Path of the Charmed"@, "PathoftheCharmed"@);
            },
            ViperPit::SerenitysBlight => {
                reveal_strlit("SerenitysBlight");
                reveal_strlit("Serenity's Blight");
                lemma_pairs_off("Serenity's Blight"@, "SerenitysBlight"@);
            },
            ViperPit::SnakeheadLake => {
                reveal_strlit("SnakeheadLake");
                reveal_strlit("Snakehead Lake");
                lemma_pairs_off("Snakehead Lake"@, "SnakeheadLake"@);
            },
            ViperPit::TheBloodyBowery => {
                reveal_strlit("TheBloodyBowery");
                reveal_strlit("The Bloody Bowery");
                lemma_pairs_off("The Bloody Bowery"@, "TheBloodyBowery"@);
            },
            ViperPit::TheFriars => {
                reveal_strlit("TheFriars");
                reveal_strlit("The Friars");
                lemma_pairs_off("The Friars"@, "TheFriars"@);
            },
            ViperPit::TheLadysLake => {
                reveal_strlit("TheLadysLake");
                reveal_strlit("The Lady's Lake");
                lemma_pairs_off("The Lady's Lake"@, "TheLadysLake"@);
            },
            ViperPit::TheRockaway => {
                reveal_strlit("TheRockaway");
                reveal_strlit("The Rockaway");
                lemma_pairs_off("The Rockaway"@, "TheRockaway"@);
            },
            ViperPit::TheSlitheringScales => {
                reveal_strlit("TheSlitheringScales");
                reveal_strlit("The Slithering Scales");
                lemma_pairs_off("The Slithering Scales"@, "TheSlitheringScales"@);
            },
            ViperPit::TheTongue => {
                reveal_strlit("TheTongue");
                reveal_strlit("The Tongue");
                lemma_pairs_off("The Tongue"@, "TheTongue"@);
            },
            ViperPit::TwinFangs => {
                reveal_strlit("TwinFangs");
                reveal_strlit("Twin Fangs");
                lemma_pairs_off("Twin Fangs"@, "TwinFangs"@);
            },
        }
    }

    proof fn lemma_keys_distinct(a: Self, b: Self) {
        reveal(ViperPit::table);
        reveal_strlit("AfricsApproach");
        reveal_strlit("AustriacaRiver");
        reveal_strlit("Blackthroat");
        reveal_strlit("Deadsteps");
        reveal_strlit("EarlCrowley");
        reveal_strlit("EarlsWelcome");
        reveal_strlit("FleckCrossing");
        reveal_strlit("FortViper");
        reveal_strlit("Hardcaps");
        reveal_strlit("Kirknell");
        reveal_strlit("LakeMioira");
        reveal_strlit("Moltworth");
        reveal_strlit("PathoftheCharmed");
        reveal_strlit("SerenitysBlight");
        reveal_strlit("SnakeheadLake");
        reveal_strlit("TheBloodyBowery");
        reveal_strlit("TheFriars");
        reveal_strlit("TheLadysLake");
        reveal_strlit("TheRockaway");
        reveal_strlit("TheSlitheringScales");
        reveal_strlit("TheTongue");
        reveal_strlit("TwinFangs");
        // Two equal keys agree in length and in every character; no two
        // keys of the table do.
        let x = a.table().local_key@;
        let y = b.table().local_key@;
        assert(x.len() == y.len());
        assert(x[0] == y[0]);
        assert(x[1] == y[1]);
        assert(x[2] == y[2]);
        assert(x[3] == y[3]);
        assert(x[4] == y[4]);
        assert(x[5] == y[5]);
        assert(x[6] == y[6]);
        assert(x[7] == y[7]);
        assert(x[8] == y[8]);
        assert(x[9] == y[9]);
        assert(x[10] == y[10]);
        assert(x[11] == y[11]);
        assert(x[12] == y[12]);
        assert(x[13] == y[13]);
        assert(x[14] == y[14]);
        assert(x[15] == y[15]);
        assert(x[16] == y[16]);
        assert(x[17] == y[17]);
        assert(x[18] == y[18]);
        match a {
            ViperPit::AfricsApproach => assert(b is AfricsApproach),
            ViperPit::AustriacaRiver => assert(b is AustriacaRiver),
            ViperPit::Blackthroat => assert(b is Blackthroat),
            ViperPit::Deadsteps => assert(b is Deadsteps),
            ViperPit::EarlCrowley => assert(b is EarlCrowley),
            ViperPit::EarlsWelcome => assert(b is EarlsWelcome),
            ViperPit::FleckCrossing => assert(b is FleckCrossing),
            ViperPit::FortViper => assert(b is FortViper),
            ViperPit::Hardcaps => assert(b is Hardcaps),
            ViperPit::Kirknell => assert(b is Kirknell),
            ViperPit::LakeMioira => assert(b is LakeMioira),
            ViperPit::Moltworth => assert(b is Moltworth),
            ViperPit::PathoftheCharmed => assert(b is PathoftheCharmed),
            ViperPit::SerenitysBlight => assert(b is SerenitysBlight),
            ViperPit::SnakeheadLake => assert(b is SnakeheadLake),
            ViperPit::TheBloodyBowery => assert(b is TheBloodyBowery),
            ViperPit::TheFriars => assert(b is TheFriars),
            ViperPit::TheLadysLake => assert(b is TheLadysLake),
            ViperPit::TheRockaway => assert(b is TheRockaway),
            ViperPit::TheSlitheringScales => assert(b is TheSlitheringScales),
            ViperPit::TheTongue => assert(b is TheTongue),
            ViperPit::TwinFangs => assert(b is TwinFangs),
        }
    }

    proof fn lemma_all(l: Self) {
        reveal_with_fuel(position, 23);
        reveal_with_fuel(each_first, 23);
        lemma_found(Self::spec_all(), l);
        lemma_no_duplicates(Self::spec_all());
    }

    proof fn lemma_on_map(place: MapLocation) {
        if let MapLocation::ViperPit(l) = place {
            assert(l.spec_on_map() == place);
        }
    }
}

} // verus!
