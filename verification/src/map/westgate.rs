//! The locations of the Westgate region.

use crate::map::location::Entry;
use crate::map::region::Region;
use crate::map::regional::Regional;
use crate::map::seqs::{each_first, lemma_found, lemma_no_duplicates, position};
use crate::map::MapLocation;
use crate::text::{lemma_pairs_off, lemma_pairs_off_marked, pairs_off, pairs_off_marked, str_eq};
use vstd::prelude::*;

verus! {

/// Specific map details for the `WestgateHex` tile.
#[derive(Clone, Copy, Debug, PartialEq, Eq)]
pub enum Westgate {
    /// Ash Step is a minor location
    AshStep,
    /// Candle Hills is a minor location
    CandleHills,
    /// Cattle March is a minor location
    CattleMarch,
    /// Ceo Highlands is a minor location
    CeoHighlands,
    /// Cinder Road is a minor location
    CinderRoad,
    /// Coasthill is a minor location
    Coasthill,
    /// Coastway is a minor location
    Coastway,
    /// Cobber's Lane is a minor location
    CobbersLane,
    /// Ember Hills is a minor location
    EmberHills,
    /// Fand's Chain is a minor location
    FandsChain,
    /// Fields of Badb is a minor location
    FieldsofBadb,
    /// Flidais' Pasture is a minor location
    FlidaisPasture,
    /// Handsome Hideaway is a minor location
    HandsomeHideaway,
    /// Hillcrest is a minor location
    Hillcrest,
    /// Holdfast is a major location
    Holdfast,
    /// Inkwell Lane is a minor location
    InkwellLane,
    /// Kardia Road is a minor location
    KardiaRoad,
    /// Killian Quarter is a minor location
    KillianQuarter,
    /// Kingstone is a major location
    Kingstone,
    /// Longstone is a major location
    Longstone,
    /// Lord's Mouth is a major location
    LordsMouth,
    /// Lost Partition is a major location
    LostPartition,
    /// Rancher's Fast is a major location
    RanchersFast,
    /// Reaver's Cove is a minor location
    ReaversCove,
    /// Sanctified Path is a minor location
    SanctifiedPath,
    /// Sanctuary is a major location
    Sanctuary,
    /// S??och??na Valley is a minor location
    SochnaValley,
    /// Taswell Point is a minor location
    TaswellPoint,
    /// The Aging Ocean is a minor location
    TheAgingOcean,
    /// The Bulwark is a minor location
    TheBulwark,
    /// The Divide is a minor location
    TheDivide,
    /// The Gallows is a major location
    TheGallows,
    /// The Hem is a minor location
    TheHem,
    /// The King's Road is a minor location
    TheKingsRoad,
    /// The Knight's Edge is a minor location
    TheKnightsEdge,
    /// Triton's Curse is a minor location
    TritonsCurse,
    /// Warden Walk is a minor location
    WardenWalk,
    /// Western Heartlands is a minor location
    WesternHeartlands,
    /// Westgate Keep is a major location
    WestgateKeep,
    /// Wire Road is a minor location
    WireRoad,
    /// Wyattwick is a major location
    Wyattwick,
    /// Zeus' Demise is a major location
    ZeusDemise,
}

impl Westgate {
    /// The table of the region: the catalogue's entry for each location.
    /// Hidden from the verifier until revealed.
    #[verifier::opaque]
    pub open spec fn table(self) -> Entry {
        match self {
            Westgate::AshStep => Entry { local_key: "AshStep", display_name: "Ash Step", is_major: false, coords: (645_889_160, 1_041_789_000) },
            Westgate::CandleHills => Entry { local_key: "CandleHills", display_name: "Candle Hills", is_major: false, coords: (380_947_800, 876_076_000) },
            Westgate::CattleMarch => Entry { local_key: "CattleMarch", display_name: "Cattle March", is_major: false, coords: (432_008_650, 178_799_000) },
            Westgate::CeoHighlands => Entry { local_key: "CeoHighlands", display_name: "Ceo Highlands", is_major: false, coords: (674_247_900, 904_762_800) },
            Westgate::CinderRoad => Entry { local_key: "CinderRoad", display_name: "Cinder Road", is_major: false, coords: (415_633_440, 1_037_904_900) },
            Westgate::Coasthill => Entry { local_key: "Coasthill", display_name: "Coasthill", is_major: false, coords: (749_296_200, 523_272_800) },
            Westgate::Coastway => Entry { local_key: "Coastway", display_name: "Coastway", is_major: false, coords: (513_771_300, 988_479_440) },
            Westgate::CobbersLane => Entry { local_key: "CobbersLane", display_name: "Cobber's Lane", is_major: false, coords: (818_187_830, 304_837_300) },
            Westgate::EmberHills => Entry { local_key: "EmberHills", display_name: "Ember Hills", is_major: false, coords: (555_335_000, 1_059_157_100) },
            Westgate::FandsChain => Entry { local_key: "FandsChain", display_name: "Fand's Chain", is_major: false, coords: (256_259_020, 140_812_380) },
            Westgate::FieldsofBadb => Entry { local_key: "FieldsofBadb", display_name: "Fields of Badb", is_major: false, coords: (514_195_440, 150_185_660) },
            Westgate::FlidaisPasture => Entry { local_key: "FlidaisPasture", display_name: "Flidais' Pasture", is_major: false, coords: (692_416_400, 220_179_620) },
            Westgate::HandsomeHideaway => Entry { local_key: "HandsomeHideaway", display_name: "Handsome Hideaway", is_major: false, coords: (334_055_930, 499_294_300) },
            Westgate::Hillcrest => Entry { local_key: "Hillcrest", display_name: "Hillcrest", is_major: false, coords: (642_059_150, 625_339_400) },
            Westgate::Holdfast => Entry { local_key: "Holdfast", display_name: "Holdfast", is_major: true, coords: (464_435_520, 277_717_170) },
            Westgate::InkwellLane => Entry { local_key: "InkwellLane", display_name: "Inkwell Lane", is_major: false, coords: (592_862_100, 105_834_290) },
            Westgate::KardiaRoad => Entry { local_key: "KardiaRoad", display_name: "Kardia Road", is_major: false, coords: (590_889_600, 178_799_000) },
            Westgate::KillianQuarter => Entry { local_key: "KillianQuarter", display_name: "Killian Quarter", is_major: false, coords: (789_166_200, 160_076_360) },
            Westgate::Kingstone => Entry { local_key: "Kingstone", display_name: "Kingstone", is_major: true, coords: (643_556_240, 410_888_050) },
            Westgate::Longstone => Entry { local_key: "Longstone", display_name: "Longstone", is_major: true, coords: (645_474_600, 723_439_500) },
            Westgate::LordsMouth => Entry { local_key: "LordsMouth", display_name: "Lord's Mouth", is_major: true, coords: (829_338_670, 430_749_100) },
            Westgate::LostPartition => Entry { local_key: "LostPartition", display_name: "Lost Partition", is_major: true, coords: (815_001_300, 575_653_800) },
            Westgate::RanchersFast => Entry { local_key: "RanchersFast", display_name: "Rancher's Fast", is_major: true, coords: (694_478_150, 181_819_830) },
            Westgate::ReaversCove => Entry { local_key: "ReaversCove", display_name: "Reaver's Cove", is_major: false, coords: (475_043_500, 524_352_100) },
            Westgate::SanctifiedPath => Entry { local_key: "SanctifiedPath", display_name: "Sanctified Path", is_major: false, coords: (633_490_000, 822_230_700) },
            Westgate::Sanctuary => Entry { local_key: "Sanctuary", display_name: "Sanctuary", is_major: true, coords: (235_372_170, 266_917_320) },
            Westgate::SochnaValley => Entry { local_key: "S??och??naValley", display_name: "S??och??na Valley", is_major: false, coords: (580_464_300, 899_850_900) },
            Westgate::TaswellPoint => Entry { local_key: "TaswellPoint", display_name: "Taswell Point", is_major: false, coords: (549_651_860, 793_196_140) },
            Westgate::TheAgingOcean => Entry { local_key: "TheAgingOcean", display_name: "The Aging Ocean", is_major: false, coords: (114_025_585, 663_528_000) },
            Westgate::TheBulwark => Entry { local_key: "TheBulwark", display_name: "The Bulwark", is_major: false, coords: (768_930_730, 643_259_700) },
            Westgate::TheDivide => Entry { local_key: "TheDivide", display_name: "The Divide", is_major: false, coords: (483_026_270, 899_850_900) },
            Westgate::TheGallows => Entry { local_key: "TheGallows", display_name: "The Gallows", is_major: true, coords: (363_735_100, 106_145_800) },
            Westgate::TheHem => Entry { local_key: "TheHem", display_name: "The Hem", is_major: false, coords: (790_698_700, 744_252_860) },
            Westgate::TheKingsRoad => Entry { local_key: "TheKingsRoad", display_name: "The King's Road", is_major: false, coords: (732_549_500, 409_849_600) },
            Westgate::TheKnightsEdge => Entry { local_key: "TheKnightsEdge", display_name: "The Knight's Edge", is_major: false, coords: (579_454_000, 289_194_580) },
            Westgate::TritonsCurse => Entry { local_key: "TritonsCurse", display_name: "Triton's Curse", is_major: false, coords: (200_939_500, 883_553_150) },
            Westgate::WardenWalk => Entry { local_key: "WardenWalk", display_name: "Warden Walk", is_major: false, coords: (869_895_800, 532_703_800) },
            Westgate::WesternHeartlands => Entry { local_key: "WesternHeartlands", display_name: "Western Heartlands", is_major: false, coords: (719_914_300, 343_739_000) },
            Westgate::WestgateKeep => Entry { local_key: "WestgateKeep", display_name: "Westgate Keep", is_major: true, coords: (595_991_730, 563_678_740) },
            Westgate::WireRoad => Entry { local_key: "WireRoad", display_name: "Wire Road", is_major: false, coords: (691_184_340, 261_085_800) },
            Westgate::Wyattwick => Entry { local_key: "Wyattwick", display_name: "Wyattwick", is_major: true, coords: (290_395_920, 816_404_340) },
            Westgate::ZeusDemise => Entry { local_key: "ZeusDemise", display_name: "Zeus' Demise", is_major: true, coords: (401_961_700, 772_366_800) },
        }
    }
}

impl Regional for Westgate {
    open spec fn spec_region() -> Region {
        Region::Westgate
    }

    open spec fn spec_entry(&self) -> Entry {
        self.table()
    }

    open spec fn spec_marked(&self) -> bool {
        *self == Westgate::SochnaValley
    }

    open spec fn spec_all() -> Seq<Self> {
        seq![
            Westgate::AshStep, Westgate::CandleHills, Westgate::CattleMarch,
            Westgate::CeoHighlands, Westgate::CinderRoad, Westgate::Coasthill,
            Westgate::Coastway, Westgate::CobbersLane, Westgate::EmberHills,
            Westgate::FandsChain, Westgate::FieldsofBadb, Westgate::FlidaisPasture,
            Westgate::HandsomeHideaway, Westgate::Hillcrest, Westgate::Holdfast,
            Westgate::InkwellLane, Westgate::KardiaRoad, Westgate::KillianQuarter,
            Westgate::Kingstone, Westgate::Longstone, Westgate::LordsMouth,
            Westgate::LostPartition, Westgate::RanchersFast, Westgate::ReaversCove,
            Westgate::SanctifiedPath, Westgate::Sanctuary, Westgate::SochnaValley,
            Westgate::TaswellPoint, Westgate::TheAgingOcean, Westgate::TheBulwark,
            Westgate::TheDivide, Westgate::TheGallows, Westgate::TheHem, Westgate::TheKingsRoad,
            Westgate::TheKnightsEdge, Westgate::TritonsCurse, Westgate::WardenWalk,
            Westgate::WesternHeartlands, Westgate::WestgateKeep, Westgate::WireRoad,
            Westgate::Wyattwick, Westgate::ZeusDemise,
        ]
    }

    open spec fn spec_on_map(self) -> MapLocation {
        MapLocation::Westgate(self)
    }

    fn region() -> (region: Region) {
        Region::Westgate
    }

    fn entry(&self) -> (entry: Entry) {
        reveal(Westgate::table);
        assert(self.spec_entry() == self.table());
        match self {
            Westgate::AshStep => Entry { local_key: "AshStep", display_name: "Ash Step", is_major: false, coords: (645_889_160, 1_041_789_000) },
            Westgate::CandleHills => Entry { local_key: "CandleHills", display_name: "Candle Hills", is_major: false, coords: (380_947_800, 876_076_000) },
            Westgate::CattleMarch => Entry { local_key: "CattleMarch", display_name: "Cattle March", is_major: false, coords: (432_008_650, 178_799_000) },
            Westgate::CeoHighlands => Entry { local_key: "CeoHighlands", display_name: "Ceo Highlands", is_major: false, coords: (674_247_900, 904_762_800) },
            Westgate::CinderRoad => Entry { local_key: "CinderRoad", display_name: "Cinder Road", is_major: false, coords: (415_633_440, 1_037_904_900) },
            Westgate::Coasthill => Entry { local_key: "Coasthill", display_name: "Coasthill", is_major: false, coords: (749_296_200, 523_272_800) },
            Westgate::Coastway => Entry { local_key: "Coastway", display_name: "Coastway", is_major: false, coords: (513_771_300, 988_479_440) },
            Westgate::CobbersLane => Entry { local_key: "CobbersLane", display_name: "Cobber's Lane", is_major: false, coords: (818_187_830, 304_837_300) },
            Westgate::EmberHills => Entry { local_key: "EmberHills", display_name: "Ember Hills", is_major: false, coords: (555_335_000, 1_059_157_100) },
            Westgate::FandsChain => Entry { local_key: "FandsChain", display_name: "Fand's Chain", is_major: false, coords: (256_259_020, 140_812_380) },
            Westgate::FieldsofBadb => Entry { local_key: "FieldsofBadb", display_name: "Fields of Badb", is_major: false, coords: (514_195_440, 150_185_660) },
            Westgate::FlidaisPasture => Entry { local_key: "FlidaisPasture", display_name: "Flidais' Pasture", is_major: false, coords: (692_416_400, 220_179_620) },
            Westgate::HandsomeHideaway => Entry { local_key: "HandsomeHideaway", display_name: "Handsome Hideaway", is_major: false, coords: (334_055_930, 499_294_300) },
            Westgate::Hillcrest => Entry { local_key: "Hillcrest", display_name: "Hillcrest", is_major: false, coords: (642_059_150, 625_339_400) },
            Westgate::Holdfast => Entry { local_key: "Holdfast", display_name: "Holdfast", is_major: true, coords: (464_435_520, 277_717_170) },
            Westgate::InkwellLane => Entry { local_key: "InkwellLane", display_name: "Inkwell Lane", is_major: false, coords: (592_862_100, 105_834_290) },
            Westgate::KardiaRoad => Entry { local_key: "KardiaRoad", display_name: "Kardia Road", is_major: false, coords: (590_889_600, 178_799_000) },
            Westgate::KillianQuarter => Entry { local_key: "KillianQuarter", display_name: "Killian Quarter", is_major: false, coords: (789_166_200, 160_076_360) },
            Westgate::Kingstone => Entry { local_key: "Kingstone", display_name: "Kingstone", is_major: true, coords: (643_556_240, 410_888_050) },
            Westgate::Longstone => Entry { local_key: "Longstone", display_name: "Longstone", is_major: true, coords: (645_474_600, 723_439_500) },
            Westgate::LordsMouth => Entry { local_key: "LordsMouth", display_name: "Lord's Mouth", is_major: true, coords: (829_338_670, 430_749_100) },
            Westgate::LostPartition => Entry { local_key: "LostPartition", display_name: "Lost Partition", is_major: true, coords: (815_001_300, 575_653_800) },
            Westgate::RanchersFast => Entry { local_key: "RanchersFast", display_name: "Rancher's Fast", is_major: true, coords: (694_478_150, 181_819_830) },
            Westgate::ReaversCove => Entry { local_key: "ReaversCove", display_name: "Reaver's Cove", is_major: false, coords: (475_043_500, 524_352_100) },
            Westgate::SanctifiedPath => Entry { local_key: "SanctifiedPath", display_name: "Sanctified Path", is_major: false, coords: (633_490_000, 822_230_700) },
            Westgate::Sanctuary => Entry { local_key: "Sanctuary", display_name: "Sanctuary", is_major: true, coords: (235_372_170, 266_917_320) },
            Westgate::SochnaValley => Entry { local_key: "S??och??naValley", display_name: "S??och??na Valley", is_major: false, coords: (580_464_300, 899_850_900) },
            Westgate::TaswellPoint => Entry { local_key: "TaswellPoint", display_name: "Taswell Point", is_major: false, coords: (549_651_860, 793_196_140) },
            Westgate::TheAgingOcean => Entry { local_key: "TheAgingOcean", display_name: "The Aging Ocean", is_major: false, coords: (114_025_585, 663_528_000) },
            Westgate::TheBulwark => Entry { local_key: "TheBulwark", display_name: "The Bulwark", is_major: false, coords: (768_930_730, 643_259_700) },
            Westgate::TheDivide => Entry { local_key: "TheDivide", display_name: "The Divide", is_major: false, coords: (483_026_270, 899_850_900) },
            Westgate::TheGallows => Entry { local_key: "TheGallows", display_name: "The Gallows", is_major: true, coords: (363_735_100, 106_145_800) },
            Westgate::TheHem => Entry { local_key: "TheHem", display_name: "The Hem", is_major: false, coords: (790_698_700, 744_252_860) },
            Westgate::TheKingsRoad => Entry { local_key: "TheKingsRoad", display_name: "The King's Road", is_major: false, coords: (732_549_500, 409_849_600) },
            Westgate::TheKnightsEdge => Entry { local_key: "TheKnightsEdge", display_name: "The Knight's Edge", is_major: false, coords: (579_454_000, 289_194_580) },
            Westgate::TritonsCurse => Entry { local_key: "TritonsCurse", display_name: "Triton's Curse", is_major: false, coords: (200_939_500, 883_553_150) },
            Westgate::WardenWalk => Entry { local_key: "WardenWalk", display_name: "Warden Walk", is_major: false, coords: (869_895_800, 532_703_800) },
            Westgate::WesternHeartlands => Entry { local_key: "WesternHeartlands", display_name: "Western Heartlands", is_major: false, coords: (719_914_300, 343_739_000) },
            Westgate::WestgateKeep => Entry { local_key: "WestgateKeep", display_name: "Westgate Keep", is_major: true, coords: (595_991_730, 563_678_740) },
            Westgate::WireRoad => Entry { local_key: "WireRoad", display_name: "Wire Road", is_major: false, coords: (691_184_340, 261_085_800) },
            Westgate::Wyattwick => Entry { local_key: "Wyattwick", display_name: "Wyattwick", is_major: true, coords: (290_395_920, 816_404_340) },
            Westgate::ZeusDemise => Entry { local_key: "ZeusDemise", display_name: "Zeus' Demise", is_major: true, coords: (401_961_700, 772_366_800) },
        }
    }

    fn all() -> (all: Vec<Self>) {
        vec![
            Westgate::AshStep, Westgate::CandleHills, Westgate::CattleMarch,
            Westgate::CeoHighlands, Westgate::CinderRoad, Westgate::Coasthill,
            Westgate::Coastway, Westgate::CobbersLane, Westgate::EmberHills,
            Westgate::FandsChain, Westgate::FieldsofBadb, Westgate::FlidaisPasture,
            Westgate::HandsomeHideaway, Westgate::Hillcrest, Westgate::Holdfast,
            Westgate::InkwellLane, Westgate::KardiaRoad, Westgate::KillianQuarter,
            Westgate::Kingstone, Westgate::Longstone, Westgate::LordsMouth,
            Westgate::LostPartition, Westgate::RanchersFast, Westgate::ReaversCove,
            Westgate::SanctifiedPath, Westgate::Sanctuary, Westgate::SochnaValley,
            Westgate::TaswellPoint, Westgate::TheAgingOcean, Westgate::TheBulwark,
            Westgate::TheDivide, Westgate::TheGallows, Westgate::TheHem, Westgate::TheKingsRoad,
            Westgate::TheKnightsEdge, Westgate::TritonsCurse, Westgate::WardenWalk,
            Westgate::WesternHeartlands, Westgate::WestgateKeep, Westgate::WireRoad,
            Westgate::Wyattwick, Westgate::ZeusDemise,
        ]
    }

    fn from_key(key: &str) -> (found: Option<Self>) {
        reveal(Westgate::table);
        if str_eq(key, "AshStep") {
            Some(Westgate::AshStep)
        } else if str_eq(key, "CandleHills") {
            Some(Westgate::CandleHills)
        } else if str_eq(key, "CattleMarch") {
            Some(Westgate::CattleMarch)
        } else if str_eq(key, "CeoHighlands") {
            Some(Westgate::CeoHighlands)
        } else if str_eq(key, "CinderRoad") {
            Some(Westgate::CinderRoad)
        } else if str_eq(key, "Coasthill") {
            Some(Westgate::Coasthill)
        } else if str_eq(key, "Coastway") {
            Some(Westgate::Coastway)
        } else if str_eq(key, "CobbersLane") {
            Some(Westgate::CobbersLane)
        } else if str_eq(key, "EmberHills") {
            Some(Westgate::EmberHills)
        } else if str_eq(key, "FandsChain") {
            Some(Westgate::FandsChain)
        } else if str_eq(key, "FieldsofBadb") {
            Some(Westgate::FieldsofBadb)
        } else if str_eq(key, "FlidaisPasture") {
            Some(Westgate::FlidaisPasture)
        } else if str_eq(key, "HandsomeHideaway") {
            Some(Westgate::HandsomeHideaway)
        } else if str_eq(key, "Hillcrest") {
            Some(Westgate::Hillcrest)
        } else if str_eq(key, "Holdfast") {
            Some(Westgate::Holdfast)
        } else if str_eq(key, "InkwellLane") {
            Some(Westgate::InkwellLane)
        } else if str_eq(key, "KardiaRoad") {
            Some(Westgate::KardiaRoad)
        } else if str_eq(key, "KillianQuarter") {
            Some(Westgate::KillianQuarter)
        } else if str_eq(key, "Kingstone") {
            Some(Westgate::Kingstone)
        } else if str_eq(key, "Longstone") {
            Some(Westgate::Longstone)
        } else if str_eq(key, "LordsMouth") {
            Some(Westgate::LordsMouth)
        } else if str_eq(key, "LostPartition") {
            Some(Westgate::LostPartition)
        } else if str_eq(key, "RanchersFast") {
            Some(Westgate::RanchersFast)
        } else if str_eq(key, "ReaversCove") {
            Some(Westgate::ReaversCove)
        } else if str_eq(key, "SanctifiedPath") {
            Some(Westgate::SanctifiedPath)
        } else if str_eq(key, "Sanctuary") {
            Some(Westgate::Sanctuary)
        } else if str_eq(key, "S??och??naValley") {
            Some(Westgate::SochnaValley)
        } else if str_eq(key, "TaswellPoint") {
            Some(Westgate::TaswellPoint)
        } else if str_eq(key, "TheAgingOcean") {
            Some(Westgate::TheAgingOcean)
        } else if str_eq(key, "TheBulwark") {
            Some(Westgate::TheBulwark)
        } else if str_eq(key, "TheDivide") {
            Some(Westgate::TheDivide)
        } else if str_eq(key, "TheGallows") {
            Some(Westgate::TheGallows)
        } else if str_eq(key, "TheHem") {
            Some(Westgate::TheHem)
        } else if str_eq(key, "TheKingsRoad") {
            Some(Westgate::TheKingsRoad)
        } else if str_eq(key, "TheKnightsEdge") {
            Some(Westgate::TheKnightsEdge)
        } else if str_eq(key, "TritonsCurse") {
            Some(Westgate::TritonsCurse)
        } else if str_eq(key, "WardenWalk") {
            Some(Westgate::WardenWalk)
        } else if str_eq(key, "WesternHeartlands") {
            Some(Westgate::WesternHeartlands)
        } else if str_eq(key, "WestgateKeep") {
            Some(Westgate::WestgateKeep)
        } else if str_eq(key, "WireRoad") {
            Some(Westgate::WireRoad)
        } else if str_eq(key, "Wyattwick") {
            Some(Westgate::Wyattwick)
        } else if str_eq(key, "ZeusDemise") {
            Some(Westgate::ZeusDemise)
        } else {
            None
        }
    }

    fn on_map(self) -> (place: MapLocation) {
        MapLocation::Westgate(self)
    }

    proof fn lemma_entry(l: Self) {
        reveal(Westgate::table);
        reveal_with_fuel(pairs_off, 19);
        reveal_with_fuel(pairs_off_marked, 34);
        match l {
            Westgate::AshStep => {
                reveal_strlit("AshStep");
                reveal_strlit("Ash Step");
                lemma_pairs_off("Ash Step"@, "AshStep"@);
            },
            Westgate::CandleHills => {
                reveal_strlit("CandleHills");
                reveal_strlit("Candle Hills");
                lemma_pairs_off("Candle Hills"@, "CandleHills"@);
            },
            Westgate::CattleMarch => {
                reveal_strlit("CattleMarch");
                reveal_strlit("Cattle March");
                lemma_pairs_off("Cattle March"@, "CattleMarch"@);
            },
            Westgate::CeoHighlands => {
                reveal_strlit("CeoHighlands");
                reveal_strlit("Ceo Highlands");
                lemma_pairs_off("Ceo Highlands"@, "CeoHighlands"@);
            },
            Westgate::CinderRoad => {
                reveal_strlit("CinderRoad");
                reveal_strlit("Cinder Road");
                lemma_pairs_off("Cinder Road"@, "CinderRoad"@);
            },
            Westgate::Coasthill => {
                reveal_strlit("Coasthill");
                lemma_pairs_off("Coasthill"@, "Coasthill"@);
            },
            Westgate::Coastway => {
                reveal_strlit("Coastway");
                lemma_pairs_off("Coastway"@, "Coastway"@);
            },
            Westgate::CobbersLane => {
                reveal_strlit("CobbersLane");
                reveal_strlit("Cobber's Lane");
                lemma_pairs_off("Cobber's Lane"@, "CobbersLane"@);
            },
            Westgate::EmberHills => {
                reveal_strlit("EmberHills");
                reveal_strlit("Ember Hills");
                lemma_pairs_off("Ember Hills"@, "EmberHills"@);
            },
            Westgate::FandsChain => {
                reveal_strlit("FandsChain");
                reveal_strlit("Fand's Chain");
                lemma_pairs_off("Fand's Chain"@, "FandsChain"@);
            },
            Westgate::FieldsofBadb => {
                reveal_strlit("FieldsofBadb");
                reveal_strlit("Fields of Badb");
                lemma_pairs_off("Fields of Badb"@, "FieldsofBadb"@);
            },
            Westgate::FlidaisPasture => {
                reveal_strlit("FlidaisPasture");
                reveal_strlit("Flidais' Pasture");
                lemma_pairs_off("Flidais' Pasture"@, "FlidaisPasture"@);
            },
            Westgate::HandsomeHideaway => {
                reveal_strlit("HandsomeHideaway");
                reveal_strlit("Handsome Hideaway");
                lemma_pairs_off("Handsome Hideaway"@, "HandsomeHideaway"@);
            },
            Westgate::Hillcrest => {
                reveal_strlit("Hillcrest");
                lemma_pairs_off("Hillcrest"@, "Hillcrest"@);
            },
            Westgate::Holdfast => {
                reveal_strlit("Holdfast");
                lemma_pairs_off("Holdfast"@, "Holdfast"@);
            },
            Westgate::InkwellLane => {
                reveal_strlit("InkwellLane");
                reveal_strlit("Inkwell Lane");
                lemma_pairs_off("Inkwell Lane"@, "InkwellLane"@);
            },
            Westgate::KardiaRoad => {
                reveal_strlit("KardiaRoad");
                reveal_strlit("Kardia Road");
                lemma_pairs_off("Kardia Road"@, "KardiaRoad"@);
            },
            Westgate::KillianQuarter => {
                reveal_strlit("KillianQuarter");
                reveal_strlit("Killian Quarter");
                lemma_pairs_off("Killian Quarter"@, "KillianQuarter"@);
            },
            Westgate::Kingstone => {
                reveal_strlit("Kingstone");
                lemma_pairs_off("Kingstone"@, "Kingstone"@);
            },
            Westgate::Longstone => {
                reveal_strlit("Longstone");
                lemma_pairs_off("Longstone"@, "Longstone"@);
            },
            Westgate::LordsMouth => {
                reveal_strlit("LordsMouth");
                reveal_strlit("Lord's Mouth");
                lemma_pairs_off("Lord's Mouth"@, "LordsMouth"@);
            },
            Westgate::LostPartition => {
                reveal_strlit("LostPartition");
                reveal_strlit("Lost Partition");
                lemma_pairs_off("Lost Partition"@, "LostPartition"@);
            },
            Westgate::RanchersFast => {
                reveal_strlit("RanchersFast");
                reveal_strlit("Rancher's Fast");
                lemma_pairs_off("Rancher's Fast"@, "RanchersFast"@);
            },
            Westgate::ReaversCove => {
                reveal_strlit("ReaversCove");
                reveal_strlit("Reaver's Cove");
                lemma_pairs_off("Reaver's Cove"@, "ReaversCove"@);
            },
            Westgate::SanctifiedPath => {
                reveal_strlit("SanctifiedPath");
                reveal_strlit("Sanctified Path");
                lemma_pairs_off("Sanctified Path"@, "SanctifiedPath"@);
            },
            Westgate::Sanctuary => {
                reveal_strlit("Sanctuary");
                lemma_pairs_off("Sanctuary"@, "Sanctuary"@);
            },
            Westgate::SochnaValley => {
                reveal_strlit("S??och??naValley");
                reveal_strlit("S??och??na Valley");
                lemma_pairs_off_marked("S??och??na Valley"@, "S??och??naValley"@);
                assert("S??och??naValley"@[1] == '?');
            },
            Westgate::TaswellPoint => {
                reveal_strlit("TaswellPoint");
                reveal_strlit("Taswell Point");
                lemma_pairs_off("Taswell Point"@, "TaswellPoint"@);
            },
            Westgate::TheAgingOcean => {
                reveal_strlit("TheAgingOcean");
                reveal_strlit("The Aging Ocean");
                lemma_pairs_off("The Aging Ocean"@, "TheAgingOcean"@);
            },
            Westgate::TheBulwark => {
                reveal_strlit("TheBulwark");
                reveal_strlit("The Bulwark");
                lemma_pairs_off("The Bulwark"@, "TheBulwark"@);
            },
            Westgate::TheDivide => {
                reveal_strlit("TheDivide");
                reveal_strlit("The Divide");
                lemma_pairs_off("The Divide"@, "TheDivide"@);
            },
            Westgate::TheGallows => {
                reveal_strlit("TheGallows");
                reveal_strlit("The Gallows");
                lemma_pairs_off("The Gallows"@, "TheGallows"@);
            },
            Westgate::TheHem => {
                reveal_strlit("TheHem");
                reveal_strlit("The Hem");
                lemma_pairs_off("The Hem"@, "TheHem"@);
            },
            Westgate::TheKingsRoad => {
                reveal_strlit("TheKingsRoad");
                reveal_strlit("The King's Road");
                lemma_pairs_off("The King's Road"@, "TheKingsRoad"@);
            },
            Westgate::TheKnightsEdge => {
                reveal_strlit("TheKnightsEdge");
                reveal_strlit("The Knight's Edge");
                lemma_pairs_off("The Knight's Edge"@, "TheKnightsEdge"@);
            },
            Westgate::TritonsCurse => {
                reveal_strlit("TritonsCurse");
                reveal_strlit("Triton's Curse");
                lemma_pairs_off("Triton's Curse"@, "TritonsCurse"@);
            },
            Westgate::WardenWalk => {
                reveal_strlit("WardenWalk");
                reveal_strlit("Warden Walk");
                lemma_pairs_off("Warden Walk"@, "WardenWalk"@);
            },
            Westgate::WesternHeartlands => {
                reveal_strlit("WesternHeartlands");
                reveal_strlit("Western Heartlands");
                lemma_pairs_off("Western Heartlands"@, "WesternHeartlands"@);
            },
            Westgate::WestgateKeep => {
                reveal_strlit("WestgateKeep");
                reveal_strlit("Westgate Keep");
                lemma_pairs_off("Westgate Keep"@, "WestgateKeep"@);
            },
            Westgate::WireRoad => {
                reveal_strlit("WireRoad");
                reveal_strlit("Wire Road");
                lemma_pairs_off("Wire Road"@, "WireRoad"@);
            },
            Westgate::Wyattwick => {
                reveal_strlit("Wyattwick");
                lemma_pairs_off("Wyattwick"@, "Wyattwick"@);
            },
            Westgate::ZeusDemise => {
                reveal_strlit("ZeusDemise");
                reveal_strlit("Zeus' Demise");
                lemma_pairs_off("Zeus' Demise"@, "ZeusDemise"@);
            },
        }
    }

    proof fn lemma_keys_distinct(a: Self, b: Self) {
        reveal(Westgate::table);
        reveal_strlit("AshStep");
        reveal_strlit("CandleHills");
        reveal_strlit("CattleMarch");
        reveal_strlit("CeoHighlands");
        reveal_strlit("CinderRoad");
        reveal_strlit("Coasthill");
        reveal_strlit("Coastway");
        reveal_strlit("CobbersLane");
        reveal_strlit("EmberHills");
        reveal_strlit("FandsChain");
        reveal_strlit("FieldsofBadb");
        reveal_strlit("FlidaisPasture");
        reveal_strlit("HandsomeHideaway");
        reveal_strlit("Hillcrest");
        reveal_strlit("Holdfast");
        reveal_strlit("InkwellLane");
        reveal_strlit("KardiaRoad");
        reveal_strlit("KillianQuarter");
        reveal_strlit("Kingstone");
        reveal_strlit("Longstone");
        reveal_strlit("LordsMouth");
        reveal_strlit("LostPartition");
        reveal_strlit("RanchersFast");
        reveal_strlit("ReaversCove");
        reveal_strlit("SanctifiedPath");
        reveal_strlit("Sanctuary");
        reveal_strlit("S??och??naValley");
        reveal_strlit("TaswellPoint");
        reveal_strlit("TheAgingOcean");
        reveal_strlit("TheBulwark");
        reveal_strlit("TheDivide");
        reveal_strlit("TheGallows");
        reveal_strlit("TheHem");
        reveal_strlit("TheKingsRoad");
        reveal_strlit("TheKnightsEdge");
        reveal_strlit("TritonsCurse");
        reveal_strlit("WardenWalk");
        reveal_strlit("WesternHeartlands");
        reveal_strlit("WestgateKeep");
        reveal_strlit("WireRoad");
        reveal_strlit("Wyattwick");
        reveal_strlit("ZeusDemise");
        // Two equal keys agree in length and in every character; no two
        // keys of the table do.
        let x = a.table().local_key@;
        let y = b.table().local_key@;
        assert(x.len() == y.len());
        assert(x[0] == y[0]);
        assert(x[1] == y[1]);
        assert(x[2] == y[2]);
        assert(x[3] == y[3]);
        assert(x[4] == y[4]);
        assert(x[5] == y[5]);
        assert(x[6] == y[6]);
        assert(x[7] == y[7]);
        assert(x[8] == y[8]);
        assert(x[9] == y[9]);
        assert(x[10] == y[10]);
        assert(x[11] == y[11]);
        assert(x[12] == y[12]);
        assert(x[13] == y[13]);
        assert(x[14] == y[14]);
        assert(x[15] == y[15]);
        assert(x[16] == y[16]);
        match a {
            Westgate::AshStep => assert(b is AshStep),
            Westgate::CandleHills => assert(b is CandleHills),
            Westgate::CattleMarch => assert(b is CattleMarch),
            Westgate::CeoHighlands => assert(b is CeoHighlands),
            Westgate::CinderRoad => assert(b is CinderRoad),
            Westgate::Coasthill => assert(b is Coasthill),
            Westgate::Coastway => assert(b is Coastway),
            Westgate::CobbersLane => assert(b is CobbersLane),
            Westgate::EmberHills => assert(b is EmberHills),
            Westgate::FandsChain => assert(b is FandsChain),
            Westgate::FieldsofBadb => assert(b is FieldsofBadb),
            Westgate::FlidaisPasture => assert(b is FlidaisPasture),
            Westgate::HandsomeHideaway => assert(b is HandsomeHideaway),
            Westgate::Hillcrest => assert(b is Hillcrest),
            Westgate::Holdfast => assert(b is Holdfast),
            Westgate::InkwellLane => assert(b is InkwellLane),
            Westgate::KardiaRoad => assert(b is KardiaRoad),
            Westgate::KillianQuarter => assert(b is KillianQuarter),
            Westgate::Kingstone => assert(b is Kingstone),
            Westgate::Longstone => assert(b is Longstone),
            Westgate::LordsMouth => assert(b is LordsMouth),
            Westgate::LostPartition => assert(b is LostPartition),
            Westgate::RanchersFast => assert(b is RanchersFast),
            Westgate::ReaversCove => assert(b is ReaversCove),
            Westgate::SanctifiedPath => assert(b is SanctifiedPath),
            Westgate::Sanctuary => assert(b is Sanctuary),
            Westgate::SochnaValley => assert(b is SochnaValley),
            Westgate::TaswellPoint => assert(b is TaswellPoint),
            Westgate::TheAgingOcean => assert(b is TheAgingOcean),
            Westgate::TheBulwark => assert(b is TheBulwark),
            Westgate::TheDivide => assert(b is TheDivide),
            Westgate::TheGallows => assert(b is TheGallows),
            Westgate::TheHem => assert(b is TheHem),
            Westgate::TheKingsRoad => assert(b is TheKingsRoad),
            Westgate::TheKnightsEdge => assert(b is TheKnightsEdge),
            Westgate::TritonsCurse => assert(b is TritonsCurse),
            Westgate::WardenWalk => assert(b is WardenWalk),
            Westgate::WesternHeartlands => assert(b is WesternHeartlands),
            Westgate::WestgateKeep => assert(b is WestgateKeep),
            Westgate::WireRoad => assert(b is WireRoad),
            Westgate::Wyattwick => assert(b is Wyattwick),
            Westgate::ZeusDemise => assert(b is ZeusDemise),
        }
    }

    proof fn lemma_all(l: Self) {
        reveal_with_fuel(position, 43);
        reveal_with_fuel(each_first, 43);
        lemma_found(Self::spec_all(), l);
        lemma_no_duplicates(Self::spec_all());
    }

    proof fn lemma_on_map(place: MapLocation) {
        if let MapLocation::Westgate(l) = place {
            assert(l.spec_on_map() == place);
        }
    }
}

} // verus!
