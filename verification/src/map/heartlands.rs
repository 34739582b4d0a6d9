//! The locations of the Heartlands region.

use crate::map::location::Entry;
use crate::map::region::Region;
use crate::map::regional::Regional;
use crate::map::seqs::{each_first, lemma_found, lemma_no_duplicates, position};
use crate::map::MapLocation;
use crate::text::{lemma_pairs_off, lemma_pairs_off_marked, pairs_off, pairs_off_marked, str_eq};
use vstd::prelude::*;

verus! {

/// Specific map details for the `HeartlandsHex` tile.
#[derive(Clone, Copy, Debug, PartialEq, Eq)]
pub enum Heartlands {
    /// 18th Sideroad is a minor location
    EighteenthSideroad,
    /// Barronshire  is a minor location
    Barronshire,
    /// Barronswall is a major location
    Barronswall,
    /// Barrony Ranch is a major location
    BarronyRanch,
    /// Barrony Road is a minor location
    BarronyRoad,
    /// Cageroad is a minor location
    Cageroad,
    /// Crater Basin is a minor location
    CraterBasin,
    /// Deeplaw Post is a major location
    DeeplawPost,
    /// Erimos Ranch is a minor location
    ErimosRanch,
    /// Fort Providence is a major location
    FortProvidence,
    /// Greenfield Orchard is a major location
    GreenfieldOrchard,
    /// Harvester's Range is a minor location
    HarvestersRange,
    /// Janus Field is a minor location
    JanusField,
    /// Kos Meadows is a minor location
    KosMeadows,
    /// Loftmire is a minor location
    Loftmire,
    /// Lower Barrony Field is a minor location
    LowerBarronyField,
    /// Oleander Fields is a minor location
    OleanderFields,
    /// Oleander Homestead is a major location
    OleanderHomestead,
    /// Pandora Compound is a minor location
    PandoraCompound,
    /// Proex?? is a major location
    Proex,
    /// Providence Field is a minor location
    ProvidenceField,
    /// The Blemish is a major location
    TheBlemish,
    /// The Breach is a major location
    TheBreach,
    /// The Fuming Pen is a minor location
    TheFumingPen,
    /// The Orchard Wall is a minor location
    TheOrchardWall,
    /// The Plough is a major location
    ThePlough,
    /// The Rollcage is a minor location
    TheRollcage,
    /// The Salt Crossing is a minor location
    TheSaltCrossing,
    /// Upper Barrony Field is a minor location
    UpperBarronyField,
    /// Upper Heartlands is a minor location
    UpperHeartlands,
}

impl Heartlands {
    /// The table of the region: the catalogue's entry for each location.
    /// Hidden from the verifier until revealed.
    #[verifier::opaque]
    pub open spec fn table(self) -> Entry {
        match self {
            Heartlands::EighteenthSideroad => Entry { local_key: "18thSideroad", display_name: "18th Sideroad", is_major: false, coords: (563_574_300, 79_198_550) },
            Heartlands::Barronshire => Entry { local_key: "Barronshire", display_name: "Barronshire ", is_major: false, coords: (304_043_170, 529_302_900) },
            Heartlands::Barronswall => Entry { local_key: "Barronswall", display_name: "Barronswall", is_major: true, coords: (393_722_030, 409_422_930) },
            Heartlands::BarronyRanch => Entry { local_key: "BarronyRanch", display_name: "Barrony Ranch", is_major: true, coords: (373_347_700, 109_837_600) },
            Heartlands::BarronyRoad => Entry { local_key: "BarronyRoad", display_name: "Barrony Road", is_major: false, coords: (490_230_800, 201_866_540) },
            Heartlands::Cageroad => Entry { local_key: "Cageroad", display_name: "Cageroad", is_major: false, coords: (83_902_670, 581_693_950) },
            Heartlands::CraterBasin => Entry { local_key: "CraterBasin", display_name: "Crater Basin", is_major: false, coords: (277_874_020, 204_302_550) },
            Heartlands::DeeplawPost => Entry { local_key: "DeeplawPost", display_name: "Deeplaw Post", is_major: true, coords: (243_155_970, 434_377_820) },
            Heartlands::ErimosRanch => Entry { local_key: "ErimosRanch", display_name: "Erimos Ranch", is_major: false, coords: (513_068_600, 845_953_460) },
            Heartlands::FortProvidence => Entry { local_key: "FortProvidence", display_name: "Fort Providence", is_major: true, coords: (758_079_650, 379_263_700) },
            Heartlands::GreenfieldOrchard => Entry { local_key: "GreenfieldOrchard", display_name: "Greenfield Orchard", is_major: true, coords: (731_732_800, 204_539_820) },
            Heartlands::HarvestersRange => Entry { local_key: "HarvestersRange", display_name: "Harvester's Range", is_major: false, coords: (473_850_460, 545_041_200) },
            Heartlands::JanusField => Entry { local_key: "JanusField", display_name: "Janus Field", is_major: false, coords: (411_097_260, 873_623_250) },
            Heartlands::KosMeadows => Entry { local_key: "KosMeadows", display_name: "Kos Meadows", is_major: false, coords: (233_847_590, 874_821_360) },
            Heartlands::Loftmire => Entry { local_key: "Loftmire", display_name: "Loftmire", is_major: false, coords: (551_604_300, 441_997_020) },
            Heartlands::LowerBarronyField => Entry { local_key: "LowerBarronyField", display_name: "Lower Barrony Field", is_major: false, coords: (462_695_300, 315_590_770) },
            Heartlands::OleanderFields => Entry { local_key: "OleanderFields", display_name: "Oleander Fields", is_major: false, coords: (676_583_950, 639_753_000) },
            Heartlands::OleanderHomestead => Entry { local_key: "OleanderHomestead", display_name: "Oleander Homestead", is_major: true, coords: (827_816_500, 490_684_700) },
            Heartlands::PandoraCompound => Entry { local_key: "PandoraCompound", display_name: "Pandora Compound", is_major: false, coords: (440_342_750, 710_070_500) },
            Heartlands::Proex => Entry { local_key: "Proex??", display_name: "Proex??", is_major: true, coords: (652_622_760, 835_045_900) },
            Heartlands::ProvidenceField => Entry { local_key: "ProvidenceField", display_name: "Providence Field", is_major: false, coords: (611_812_800, 348_113_100) },
            Heartlands::TheBlemish => Entry { local_key: "TheBlemish", display_name: "The Blemish", is_major: true, coords: (649_160_300, 466_812_500) },
            Heartlands::TheBreach => Entry { local_key: "TheBreach", display_name: "The Breach", is_major: true, coords: (364_244_370, 270_848_500) },
            Heartlands::TheFumingPen => Entry { local_key: "TheFumingPen", display_name: "The Fuming Pen", is_major: false, coords: (195_091_010, 687_133_600) },
            Heartlands::TheOrchardWall => Entry { local_key: "TheOrchardWall", display_name: "The Orchard Wall", is_major: false, coords: (698_537_350, 249_745_190) },
            Heartlands::ThePlough => Entry { local_key: "ThePlough", display_name: "The Plough", is_major: true, coords: (547_450_070, 249_712_690) },
            Heartlands::TheRollcage => Entry { local_key: "TheRollcage", display_name: "The Rollcage", is_major: false, coords: (156_626_820, 343_138_640) },
            Heartlands::TheSaltCrossing => Entry { local_key: "TheSaltCrossing", display_name: "The Salt Crossing", is_major: false, coords: (785_331_670, 70_847_020) },
            Heartlands::UpperBarronyField => Entry { local_key: "UpperBarronyField", display_name: "Upper Barrony Field", is_major: false, coords: (471_438_740, 92_723_675) },
            Heartlands::UpperHeartlands => Entry { local_key: "UpperHeartlands", display_name: "Upper Heartlands", is_major: false, coords: (325_116_750, 113_691_270) },
        }
    }
}

impl Regional for Heartlands {
    open spec fn spec_region() -> Region {
        Region::Heartlands
    }

    open spec fn spec_entry(&self) -> Entry {
        self.table()
    }

    open spec fn spec_marked(&self) -> bool {
        *self == Heartlands::Proex
    }

    open spec fn spec_all() -> Seq<Self> {
        seq![
            Heartlands::EighteenthSideroad, Heartlands::Barronshire, Heartlands::Barronswall,
            Heartlands::BarronyRanch, Heartlands::BarronyRoad, Heartlands::Cageroad,
            Heartlands::CraterBasin, Heartlands::DeeplawPost, Heartlands::ErimosRanch,
            Heartlands::FortProvidence, Heartlands::GreenfieldOrchard,
            Heartlands::HarvestersRange, Heartlands::JanusField, Heartlands::KosMeadows,
            Heartlands::Loftmire, Heartlands::LowerBarronyField, Heartlands::OleanderFields,
            Heartlands::OleanderHomestead, Heartlands::PandoraCompound, Heartlands::Proex,
            Heartlands::ProvidenceField, Heartlands::TheBlemish, Heartlands::TheBreach,
            Heartlands::TheFumingPen, Heartlands::TheOrchardWall, Heartlands::ThePlough,
            Heartlands::TheRollcage, Heartlands::TheSaltCrossing, Heartlands::UpperBarronyField,
            Heartlands::UpperHeartlands,
        ]
    }

    open spec fn spec_on_map(self) -> MapLocation {
        MapLocation::Heartlands(self)
    }

    fn region() -> (region: Region) {
        Region::Heartlands
    }

    fn entry(&self) -> (entry: Entry) {
        reveal(Heartlands::table);
        assert(self.spec_entry() == self.table());
        match self {
            Heartlands::EighteenthSideroad => Entry { local_key: "18thSideroad", display_name: "18th Sideroad", is_major: false, coords: (563_574_300, 79_198_550) },
            Heartlands::Barronshire => Entry { local_key: "Barronshire", display_name: "Barronshire ", is_major: false, coords: (304_043_170, 529_302_900) },
            Heartlands::Barronswall => Entry { local_key: "Barronswall", display_name: "Barronswall", is_major: true, coords: (393_722_030, 409_422_930) },
            Heartlands::BarronyRanch => Entry { local_key: "BarronyRanch", display_name: "Barrony Ranch", is_major: true, coords: (373_347_700, 109_837_600) },
            Heartlands::BarronyRoad => Entry { local_key: "BarronyRoad", display_name: "Barrony Road", is_major: false, coords: (490_230_800, 201_866_540) },
            Heartlands::Cageroad => Entry { local_key: "Cageroad", display_name: "Cageroad", is_major: false, coords: (83_902_670, 581_693_950) },
            Heartlands::CraterBasin => Entry { local_key: "CraterBasin", display_name: "Crater Basin", is_major: false, coords: (277_874_020, 204_302_550) },
            Heartlands::DeeplawPost => Entry { local_key: "DeeplawPost", display_name: "Deeplaw Post", is_major: true, coords: (243_155_970, 434_377_820) },
            Heartlands::ErimosRanch => Entry { local_key: "ErimosRanch", display_name: "Erimos Ranch", is_major: false, coords: (513_068_600, 845_953_460) },
            Heartlands::FortProvidence => Entry { local_key: "FortProvidence", display_name: "Fort Providence", is_major: true, coords: (758_079_650, 379_263_700) },
            Heartlands::GreenfieldOrchard => Entry { local_key: "GreenfieldOrchard", display_name: "Greenfield Orchard", is_major: true, coords: (731_732_800, 204_539_820) },
            Heartlands::HarvestersRange => Entry { local_key: "HarvestersRange", display_name: "Harvester's Range", is_major: false, coords: (473_850_460, 545_041_200) },
            Heartlands::JanusField => Entry { local_key: "JanusField", display_name: "Janus Field", is_major: false, coords: (411_097_260, 873_623_250) },
            Heartlands::KosMeadows => Entry { local_key: "KosMeadows", display_name: "Kos Meadows", is_major: false, coords: (233_847_590, 874_821_360) },
            Heartlands::Loftmire => Entry { local_key: "Loftmire", display_name: "Loftmire", is_major: false, coords: (551_604_300, 441_997_020) },
            Heartlands::LowerBarronyField => Entry { local_key: "LowerBarronyField", display_name: "Lower Barrony Field", is_major: false, coords: (462_695_300, 315_590_770) },
            Heartlands::OleanderFields => Entry { local_key: "OleanderFields", display_name: "Oleander Fields", is_major: false, coords: (676_583_950, 639_753_000) },
            Heartlands::OleanderHomestead => Entry { local_key: "OleanderHomestead", display_name: "Oleander Homestead", is_major: true, coords: (827_816_500, 490_684_700) },
            Heartlands::PandoraCompound => Entry { local_key: "PandoraCompound", display_name: "Pandora Compound", is_major: false, coords: (440_342_750, 710_070_500) },
            Heartlands::Proex => Entry { local_key: "Proex??", display_name: "Proex??", is_major: true, coords: (652_622_760, 835_045_900) },
            Heartlands::ProvidenceField => Entry { local_key: "ProvidenceField", display_name: "Providence Field", is_major: false, coords: (611_812_800, 348_113_100) },
            Heartlands::TheBlemish => Entry { local_key: "TheBlemish", display_name: "The Blemish", is_major: true, coords: (649_160_300, 466_812_500) },
            Heartlands::TheBreach => Entry { local_key: "TheBreach", display_name: "The Breach", is_major: true, coords: (364_244_370, 270_848_500) },
            Heartlands::TheFumingPen => Entry { local_key: "TheFumingPen", display_name: "The Fuming Pen", is_major: false, coords: (195_091_010, 687_133_600) },
            Heartlands::TheOrchardWall => Entry { local_key: "TheOrchardWall", display_name: "The Orchard Wall", is_major: false, coords: (698_537_350, 249_745_190) },
            Heartlands::ThePlough => Entry { local_key: "ThePlough", display_name: "The Plough", is_major: true, coords: (547_450_070, 249_712_690) },
            Heartlands::TheRollcage => Entry { local_key: "TheRollcage", display_name: "The Rollcage", is_major: false, coords: (156_626_820, 343_138_640) },
            Heartlands::TheSaltCrossing => Entry { local_key: "TheSaltCrossing", display_name: "The Salt Crossing", is_major: false, coords: (785_331_670, 70_847_020) },
            Heartlands::UpperBarronyField => Entry { local_key: "UpperBarronyField", display_name: "Upper Barrony Field", is_major: false, coords: (471_438_740, 92_723_675) },
            Heartlands::UpperHeartlands => Entry { local_key: "UpperHeartlands", display_name: "Upper Heartlands", is_major: false, coords: (325_116_750, 113_691_270) },
        }
    }

    fn all() -> (all: Vec<Self>) {
        vec![
            Heartlands::EighteenthSideroad, Heartlands::Barronshire, Heartlands::Barronswall,
            Heartlands::BarronyRanch, Heartlands::BarronyRoad, Heartlands::Cageroad,
            Heartlands::CraterBasin, Heartlands::DeeplawPost, Heartlands::ErimosRanch,
            Heartlands::FortProvidence, Heartlands::GreenfieldOrchard,
            Heartlands::HarvestersRange, Heartlands::JanusField, Heartlands::KosMeadows,
            Heartlands::Loftmire, Heartlands::LowerBarronyField, Heartlands::OleanderFields,
            Heartlands::OleanderHomestead, Heartlands::PandoraCompound, Heartlands::Proex,
            Heartlands::ProvidenceField, Heartlands::TheBlemish, Heartlands::TheBreach,
            Heartlands::TheFumingPen, Heartlands::TheOrchardWall, Heartlands::ThePlough,
            Heartlands::TheRollcage, Heartlands::TheSaltCrossing, Heartlands::UpperBarronyField,
            Heartlands::UpperHeartlands,
        ]
    }

    fn from_key(key: &str) -> (found: Option<Self>) {
        reveal(Heartlands::table);
        if str_eq(key, "18thSideroad") {
            Some(Heartlands::EighteenthSideroad)
        } else if str_eq(key, "Barronshire") {
            Some(Heartlands::Barronshire)
        } else if str_eq(key, "Barronswall") {
            Some(Heartlands::Barronswall)
        } else if str_eq(key, "BarronyRanch") {
            Some(Heartlands::BarronyRanch)
        } else if str_eq(key, "BarronyRoad") {
            Some(Heartlands::BarronyRoad)
        } else if str_eq(key, "Cageroad") {
            Some(Heartlands::Cageroad)
        } else if str_eq(key, "CraterBasin") {
            Some(Heartlands::CraterBasin)
        } else if str_eq(key, "DeeplawPost") {
            Some(Heartlands::DeeplawPost)
        } else if str_eq(key, "ErimosRanch") {
            Some(Heartlands::ErimosRanch)
        } else if str_eq(key, "FortProvidence") {
            Some(Heartlands::FortProvidence)
        } else if str_eq(key, "GreenfieldOrchard") {
            Some(Heartlands::GreenfieldOrchard)
        } else if str_eq(key, "HarvestersRange") {
            Some(Heartlands::HarvestersRange)
        } else if str_eq(key, "JanusField") {
            Some(Heartlands::JanusField)
        } else if str_eq(key, "KosMeadows") {
            Some(Heartlands::KosMeadows)
        } else if str_eq(key, "Loftmire") {
            Some(Heartlands::Loftmire)
        } else if str_eq(key, "LowerBarronyField") {
            Some(Heartlands::LowerBarronyField)
        } else if str_eq(key, "OleanderFields") {
            Some(Heartlands::OleanderFields)
        } else if str_eq(key, "OleanderHomestead") {
            Some(Heartlands::OleanderHomestead)
        } else if str_eq(key, "PandoraCompound") {
            Some(Heartlands::PandoraCompound)
        } else if str_eq(key, "Proex??") {
            Some(Heartlands::Proex)
        } else if str_eq(key, "ProvidenceField") {
            Some(Heartlands::ProvidenceField)
        } else if str_eq(key, "TheBlemish") {
            Some(Heartlands::TheBlemish)
        } else if str_eq(key, "TheBreach") {
            Some(Heartlands::TheBreach)
        } else if str_eq(key, "TheFumingPen") {
            Some(Heartlands::TheFumingPen)
        } else if str_eq(key, "TheOrchardWall") {
            Some(Heartlands::TheOrchardWall)
        } else if str_eq(key, "ThePlough") {
            Some(Heartlands::ThePlough)
        } else if str_eq(key, "TheRollcage") {
            Some(Heartlands::TheRollcage)
        } else if str_eq(key, "TheSaltCrossing") {
            Some(Heartlands::TheSaltCrossing)
        } else if str_eq(key, "UpperBarronyField") {
            Some(Heartlands::UpperBarronyField)
        } else if str_eq(key, "UpperHeartlands") {
            Some(Heartlands::UpperHeartlands)
        } else {
            None
        }
    }

    fn on_map(self) -> (place: MapLocation) {
        MapLocation::Heartlands(self)
    }

    proof fn lemma_entry(l: Self) {
        reveal(Heartlands::table);
        reveal_with_fuel(pairs_off, 20);
        reveal_with_fuel(pairs_off_marked, 15);
        match l {
            Heartlands::EighteenthSideroad => {
                reveal_strlit("18thSideroad");
                reveal_strlit("18th Sideroad");
                lemma_pairs_off("18th Sideroad"@, "18thSideroad"@);
            },
            Heartlands::Barronshire => {
                reveal_strlit("Barronshire");
                reveal_strlit("Barronshire ");
                lemma_pairs_off("Barronshire "@, "Barronshire"@);
            },
            Heartlands::Barronswall => {
                reveal_strlit("Barronswall");
                lemma_pairs_off("Barronswall"@, "Barronswall"@);
            },
            Heartlands::BarronyRanch => {
                reveal_strlit("BarronyRanch");
                reveal_strlit("Barrony Ranch");
                lemma_pairs_off("Barrony Ranch"@, "BarronyRanch"@);
            },
            Heartlands::BarronyRoad => {
                reveal_strlit("BarronyRoad");
                reveal_strlit("Barrony Road");
                lemma_pairs_off("Barrony Road"@, "BarronyRoad"@);
            },
            Heartlands::Cageroad => {
                reveal_strlit("Cageroad");
                lemma_pairs_off("Cageroad"@, "Cageroad"@);
            },
            Heartlands::CraterBasin => {
                reveal_strlit("CraterBasin");
                reveal_strlit("Crater Basin");
                lemma_pairs_off("Crater Basin"@, "CraterBasin"@);
            },
            Heartlands::DeeplawPost => {
                reveal_strlit("DeeplawPost");
                reveal_strlit("Deeplaw Post");
                lemma_pairs_off("Deeplaw Post"@, "DeeplawPost"@);
            },
            Heartlands::ErimosRanch => {
                reveal_strlit("ErimosRanch");
                reveal_strlit("Erimos Ranch");
                lemma_pairs_off("Erimos Ranch"@, "ErimosRanch"@);
            },
            Heartlands::FortProvidence => {
                reveal_strlit("FortProvidence");
                reveal_strlit("Fort Providence");
                lemma_pairs_off("Fort Providence"@, "FortProvidence"@);
            },
            Heartlands::GreenfieldOrchard => {
                reveal_strlit("GreenfieldOrchard");
                reveal_strlit("Greenfield Orchard");
                lemma_pairs_off("Greenfield Orchard"@, "GreenfieldOrchard"@);
            },
            Heartlands::HarvestersRange => {
                reveal_strlit("HarvestersRange");
                reveal_strlit("Harvester's Range");
                lemma_pairs_off("Harvester's Range"@, "HarvestersRange"@);
            },
            Heartlands::JanusField => {
                reveal_strlit("JanusField");
                reveal_strlit("Janus Field");
                lemma_pairs_off("Janus Field"@, "JanusField"@);
            },
            Heartlands::KosMeadows => {
                reveal_strlit("KosMeadows");
                reveal_strlit("Kos Meadows");
                lemma_pairs_off("Kos Meadows"@, "KosMeadows"@);
            },
            Heartlands::Loftmire => {
                reveal_strlit("Loftmire");
                lemma_pairs_off("Loftmire"@, "Loftmire"@);
            },
            Heartlands::LowerBarronyField => {
                reveal_strlit("LowerBarronyField");
                reveal_strlit("Lower Barrony Field");
                lemma_pairs_off("Lower Barrony Field"@, "LowerBarronyField"@);
            },
            Heartlands::OleanderFields => {
                reveal_strlit("OleanderFields");
                reveal_strlit("Oleander Fields");
                lemma_pairs_off("Oleander Fields"@, "OleanderFields"@);
            },
            Heartlands::OleanderHomestead => {
                reveal_strlit("OleanderHomestead");
                reveal_strlit("Oleander Homestead");
                lemma_pairs_off("Oleander Homestead"@, "OleanderHomestead"@);
            },
            Heartlands::PandoraCompound => {
                reveal_strlit("PandoraCompound");
                reveal_strlit("Pandora Compound");
                lemma_pairs_off("Pandora Compound"@, "PandoraCompound"@);
            },
            Heartlands::Proex => {
                reveal_strlit("Proex??");
                lemma_pairs_off_marked("Proex??"@, "Proex??"@);
                assert("Proex??"@[5] == '?');
            },
            Heartlands::ProvidenceField => {
                reveal_strlit("ProvidenceField");
                reveal_strlit("Providence Field");
                lemma_pairs_off("Providence Field"@, "ProvidenceField"@);
            },
            Heartlands::TheBlemish => {
                reveal_strlit("TheBlemish");
                reveal_strlit("The Blemish");
                lemma_pairs_off("The Blemish"@, "TheBlemish"@);
            },
            Heartlands::TheBreach => {
                reveal_strlit("TheBreach");
                reveal_strlit("The Breach");
                lemma_pairs_off("The Breach"@, "TheBreach"@);
            },
            Heartlands::TheFumingPen => {
                reveal_strlit("TheFumingPen");
                reveal_strlit("The Fuming Pen");
                lemma_pairs_off("The Fuming Pen"@, "TheFumingPen"@);
            },
            Heartlands::TheOrchardWall => {
                reveal_strlit("TheOrchardWall");
                reveal_strlit("The Orchard Wall");
                lemma_pairs_off("The Orchard Wall"@, "TheOrchardWall"@);
            },
            Heartlands::ThePlough => {
                reveal_strlit("ThePlough");
                reveal_strlit("The Plough");
                lemma_pairs_off("The Plough"@, "ThePlough"@);
            },
            Heartlands::TheRollcage => {
                reveal_strlit("TheRollcage");
                reveal_strlit("The Rollcage");
                lemma_pairs_off("The Rollcage"@, "TheRollcage"@);
            },
            Heartlands::TheSaltCrossing => {
                reveal_strlit("TheSaltCrossing");
                reveal_strlit("The Salt Crossing");
                lemma_pairs_off("The Salt Crossing"@, "TheSaltCrossing"@);
            },
            Heartlands::UpperBarronyField => {
                reveal_strlit("UpperBarronyField");
                reveal_strlit("Upper Barrony Field");
                lemma_pairs_off("Upper Barrony Field"@, "UpperBarronyField"@);
            },
            Heartlands::UpperHeartlands => {
                reveal_strlit("UpperHeartlands");
                reveal_strlit("Upper Heartlands");
                lemma_pairs_off("Upper Heartlands"@, "UpperHeartlands"@);
            },
        }
    }

    proof fn lemma_keys_distinct(a: Self, b: Self) {
        reveal(Heartlands::table);
        reveal_strlit("18thSideroad");
        reveal_strlit("Barronshire");
        reveal_strlit("Barronswall");
        reveal_strlit("BarronyRanch");
        reveal_strlit("BarronyRoad");
        reveal_strlit("Cageroad");
        reveal_strlit("CraterBasin");
        reveal_strlit("DeeplawPost");
        reveal_strlit("ErimosRanch");
        reveal_strlit("FortProvidence");
        reveal_strlit("GreenfieldOrchard");
        reveal_strlit("HarvestersRange");
        reveal_strlit("JanusField");
        reveal_strlit("KosMeadows");
        reveal_strlit("Loftmire");
        reveal_strlit("LowerBarronyField");
        reveal_strlit("OleanderFields");
        reveal_strlit("OleanderHomestead");
        reveal_strlit("PandoraCompound");
        reveal_strlit("Proex??");
        reveal_strlit("ProvidenceField");
        reveal_strlit("TheBlemish");
        reveal_strlit("TheBreach");
        reveal_strlit("TheFumingPen");
        reveal_strlit("TheOrchardWall");
        reveal_strlit("ThePlough");
        reveal_strlit("TheRollcage");
        reveal_strlit("TheSaltCrossing");
        reveal_strlit("UpperBarronyField");
        reveal_strlit("UpperHeartlands");
        // Two equal keys agree in length and in every character; no two
        // keys of the table do.
        let x = a.table().local_key@;
        let y = b.table().local_key@;
        assert(x.len() == y.len());
        assert(x[0] == y[0]);
        assert(x[1] == y[1]);
        assert(x[2] == y[2]);
        assert(x[3] == y[3]);
        assert(x[4] == y[4]);
        assert(x[5] == y[5]);
        assert(x[6] == y[6]);
        assert(x[7] == y[7]);
        assert(x[8] == y[8]);
        assert(x[9] == y[9]);
        assert(x[10] == y[10]);
        assert(x[11] == y[11]);
        assert(x[12] == y[12]);
        assert(x[13] == y[13]);
        assert(x[14] == y[14]);
        assert(x[15] == y[15]);
        assert(x[16] == y[16]);
        match a {
            Heartlands::EighteenthSideroad => assert(b is EighteenthSideroad),
            Heartlands::Barronshire => assert(b is Barronshire),
            Heartlands::Barronswall => assert(b is Barronswall),
            Heartlands::BarronyRanch => assert(b is BarronyRanch),
            Heartlands::BarronyRoad => assert(b is BarronyRoad),
            Heartlands::Cageroad => assert(b is Cageroad),
            Heartlands::CraterBasin => assert(b is CraterBasin),
            Heartlands::DeeplawPost => assert(b is DeeplawPost),
            Heartlands::ErimosRanch => assert(b is ErimosRanch),
            Heartlands::FortProvidence => assert(b is FortProvidence),
            Heartlands::GreenfieldOrchard => assert(b is GreenfieldOrchard),
            Heartlands::HarvestersRange => assert(b is HarvestersRange),
            Heartlands::JanusField => assert(b is JanusField),
            Heartlands::KosMeadows => assert(b is KosMeadows),
            Heartlands::Loftmire => assert(b is Loftmire),
            Heartlands::LowerBarronyField => assert(b is LowerBarronyField),
            Heartlands::OleanderFields => assert(b is OleanderFields),
            Heartlands::OleanderHomestead => assert(b is OleanderHomestead),
            Heartlands::PandoraCompound => assert(b is PandoraCompound),
            Heartlands::Proex => assert(b is Proex),
            Heartlands::ProvidenceField => assert(b is ProvidenceField),
            Heartlands::TheBlemish => assert(b is TheBlemish),
            Heartlands::TheBreach => assert(b is TheBreach),
            Heartlands::TheFumingPen => assert(b is TheFumingPen),
            Heartlands::TheOrchardWall => assert(b is TheOrchardWall),
            Heartlands::ThePlough => assert(b is ThePlough),
            Heartlands::TheRollcage => assert(b is TheRollcage),
            Heartlands::TheSaltCrossing => assert(b is TheSaltCrossing),
            Heartlands::UpperBarronyField => assert(b is UpperBarronyField),
            Heartlands::UpperHeartlands => assert(b is UpperHeartlands),
        }
    }

    proof fn lemma_all(l: Self) {
        reveal_with_fuel(position, 31);
        reveal_with_fuel(each_first, 31);
        lemma_found(Self::spec_all(), l);
        lemma_no_duplicates(Self::spec_all());
    }

    proof fn lemma_on_map(place: MapLocation) {
        if let MapLocation::Heartlands(l) = place {
            assert(l.spec_on_map() == place);
        }
    }
}

} // verus!
