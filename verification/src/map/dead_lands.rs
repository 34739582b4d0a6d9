//! The locations of the DeadLands region.

use crate::map::location::Entry;
use crate::map::region::Region;
use crate::map::regional::Regional;
use crate::map::seqs::{each_first, lemma_found, lemma_no_duplicates, position};
use crate::map::MapLocation;
use crate::text::{lemma_pairs_off, pairs_off, str_eq};
use vstd::prelude::*;

verus! {

/// Specific map details for the `DeadLandsHex` tile.
#[derive(Clone, Copy, Debug, PartialEq, Eq)]
pub enum DeadLands {
    /// Abandoned Ward is a major location
    AbandonedWard,
    /// Biting Tarn is a minor location
    BitingTarn,
    /// Border Concourse is a minor location
    BorderConcourse,
    /// Border Thicket is a minor location
    BorderThicket,
    /// Brine Glen is a major location
    BrineGlen,
    /// Callahan's Belt is a minor location
    CallahansBelt,
    /// Callahan's Boot is a major location
    CallahansBoot,
    /// Callahan's Gate is a major location
    CallahansGate,
    /// Carpal Trail is a minor location
    CarpalTrail,
    /// Cemetary Junction is a minor location
    CemetaryJunction,
    /// Cemetary Lane is a minor location
    CemetaryLane,
    /// Coracoid Footpath is a minor location
    CoracoidFootpath,
    /// Crumbling Passage is a minor location
    CrumblingPassage,
    /// Hope's Causeway is a minor location
    HopesCauseway,
    /// Iron's End is a major location
    IronsEnd,
    /// Jaspar Range is a minor location
    JasparRange,
    /// Liberation Point is a major location
    LiberationPoint,
    /// Mandible Crossroads is a minor location
    MandibleCrossroads,
    /// Marrow Copse is a minor location
    MarrowCopse,
    /// Mercy Meadow is a minor location
    MercyMeadow,
    /// Mercy's End is a minor location
    MercysEnd,
    /// Overgrown Pasture is a minor location
    OvergrownPasture,
    /// Path to the Sun is a minor location
    PathtotheSun,
    /// Pommel Annex is a minor location
    PommelAnnex,
    /// Sun's Hollow is a major location
    SunsHollow,
    /// Sunhaven Gateway is a minor location
    SunhavenGateway,
    /// Tarsal Pathway is a minor location
    TarsalPathway,
    /// The Abbey Drag is a minor location
    TheAbbeyDrag,
    /// The Blade is a minor location
    TheBlade,
    /// The Boneyard is a minor location
    TheBoneyard,
    /// The Crossing is a minor location
    TheCrossing,
    /// The Great March is a minor location
    TheGreatMarch,
    /// The Iron Passage is a minor location
    TheIronPassage,
    /// The Iron Road is a minor location
    TheIronRoad,
    /// The Pits is a major location
    ThePits,
    /// The Plaza is a minor location
    ThePlaza,
    /// The Salt Farms is a major location
    TheSaltFarms,
    /// The Salt March is a major location
    TheSaltMarch,
    /// The Salt Trail is a minor location
    TheSaltTrail,
    /// The Shorn Fields is a minor location
    TheShornFields,
    /// The Spine is a major location
    TheSpine,
    /// The Steppes is a minor location
    TheSteppes,
}

impl DeadLands {
    /// The table of the region: the catalogue's entry for each location.
    /// Hidden from the verifier until revealed.
    #[verifier::opaque]
    pub open spec fn table(self) -> Entry {
        match self {
            DeadLands::AbandonedWard => Entry { local_key: "AbandonedWard", display_name: "Abandoned Ward", is_major: true, coords: (406_589_700, 497_347_400) },
            DeadLands::BitingTarn => Entry { local_key: "BitingTarn", display_name: "Biting Tarn", is_major: false, coords: (821_871_940, 705_376_860) },
            DeadLands::BorderConcourse => Entry { local_key: "BorderConcourse", display_name: "Border Concourse", is_major: false, coords: (815_735_600, 390_165_950) },
            DeadLands::BorderThicket => Entry { local_key: "BorderThicket", display_name: "Border Thicket", is_major: false, coords: (575_372_000, 324_470_580) },
            DeadLands::BrineGlen => Entry { local_key: "BrineGlen", display_name: "Brine Glen", is_major: true, coords: (725_617_650, 722_024_200) },
            DeadLands::CallahansBelt => Entry { local_key: "CallahansBelt", display_name: "Callahan's Belt", is_major: false, coords: (658_507_760, 310_601_260) },
            DeadLands::CallahansBoot => Entry { local_key: "CallahansBoot", display_name: "Callahan's Boot", is_major: true, coords: (547_568_600, 490_777_100) },
            DeadLands::CallahansGate => Entry { local_key: "CallahansGate", display_name: "Callahan's Gate", is_major: true, coords: (624_832_870, 110_333_465) },
            DeadLands::CarpalTrail => Entry { local_key: "CarpalTrail", display_name: "Carpal Trail", is_major: false, coords: (291_422_160, 419_198_000) },
            DeadLands::CemetaryJunction => Entry { local_key: "CemetaryJunction", display_name: "Cemetary Junction", is_major: false, coords: (324_331_800, 579_393_200) },
            DeadLands::CemetaryLane => Entry { local_key: "CemetaryLane", display_name: "Cemetary Lane", is_major: false, coords: (382_476_420, 658_562_900) },
            DeadLands::CoracoidFootpath => Entry { local_key: "CoracoidFootpath", display_name: "Coracoid Footpath", is_major: false, coords: (107_194_014, 400_219_680) },
            DeadLands::CrumblingPassage => Entry { local_key: "CrumblingPassage", display_name: "Crumbling Passage", is_major: false, coords: (417_156_850, 94_843_924) },
            DeadLands::HopesCauseway => Entry { local_key: "HopesCauseway", display_name: "Hope's Causeway", is_major: false, coords: (528_303_270, 579_457_760) },
            DeadLands::IronsEnd => Entry { local_key: "IronsEnd", display_name: "Iron's End", is_major: true, coords: (461_207_750, 262_074_380) },
            DeadLands::JasparRange => Entry { local_key: "JasparRange", display_name: "Jaspar Range", is_major: false, coords: (288_075_920, 663_216_600) },
            DeadLands::LiberationPoint => Entry { local_key: "LiberationPoint", display_name: "Liberation Point", is_major: true, coords: (242_961_690, 551_770_700) },
            DeadLands::MandibleCrossroads => Entry { local_key: "MandibleCrossroads", display_name: "Mandible Crossroads", is_major: false, coords: (201_302_930, 335_665_730) },
            DeadLands::MarrowCopse => Entry { local_key: "MarrowCopse", display_name: "Marrow Copse", is_major: false, coords: (351_984_470, 313_079_100) },
            DeadLands::MercyMeadow => Entry { local_key: "MercyMeadow", display_name: "Mercy Meadow", is_major: false, coords: (127_129_730, 541_938_840) },
            DeadLands::MercysEnd => Entry { local_key: "MercysEnd", display_name: "Mercy's End", is_major: false, coords: (622_916_400, 830_655_500) },
            DeadLands::OvergrownPasture => Entry { local_key: "OvergrownPasture", display_name: "Overgrown Pasture", is_major: false, coords: (159_520_480, 643_427_100) },
            DeadLands::PathtotheSun => Entry { local_key: "PathtotheSun", display_name: "Path to the Sun", is_major: false, coords: (272_947_800, 893_189_100) },
            DeadLands::PommelAnnex => Entry { local_key: "PommelAnnex", display_name: "Pommel Annex", is_major: false, coords: (488_575_070, 393_344_370) },
            DeadLands::SunsHollow => Entry { local_key: "SunsHollow", display_name: "Sun's Hollow", is_major: true, coords: (273_352_240, 721_537_800) },
            DeadLands::SunhavenGateway => Entry { local_key: "SunhavenGateway", display_name: "Sunhaven Gateway", is_major: false, coords: (387_224_760, 560_534_240) },
            DeadLands::TarsalPathway => Entry { local_key: "TarsalPathway", display_name: "Tarsal Pathway", is_major: false, coords: (205_098_450, 415_869_920) },
            DeadLands::TheAbbeyDrag => Entry { local_key: "TheAbbeyDrag", display_name: "The Abbey Drag", is_major: false, coords: (753_965_900, 129_005_220) },
            DeadLands::TheBlade => Entry { local_key: "TheBlade", display_name: "The Blade", is_major: false, coords: (574_384_200, 381_849_170) },
            DeadLands::TheBoneyard => Entry { local_key: "TheBoneyard", display_name: "The Boneyard", is_major: false, coords: (594_389_100, 271_638_240) },
            DeadLands::TheCrossing => Entry { local_key: "TheCrossing", display_name: "The Crossing", is_major: false, coords: (417_646_020, 446_615_600) },
            DeadLands::TheGreatMarch => Entry { local_key: "TheGreatMarch", display_name: "The Great March", is_major: false, coords: (356_325_950, 881_450_000) },
            DeadLands::TheIronPassage => Entry { local_key: "TheIronPassage", display_name: "The Iron Passage", is_major: false, coords: (481_196_730, 315_443_630) },
            DeadLands::TheIronRoad => Entry { local_key: "TheIronRoad", display_name: "The Iron Road", is_major: false, coords: (527_815_640, 132_420_570) },
            DeadLands::ThePits => Entry { local_key: "ThePits", display_name: "The Pits", is_major: true, coords: (465_119_400, 629_779_800) },
            DeadLands::ThePlaza => Entry { local_key: "ThePlaza", display_name: "The Plaza", is_major: false, coords: (429_601_460, 401_039_720) },
            DeadLands::TheSaltFarms => Entry { local_key: "TheSaltFarms", display_name: "The Salt Farms", is_major: true, coords: (456_970_500, 837_613_400) },
            DeadLands::TheSaltMarch => Entry { local_key: "TheSaltMarch", display_name: "The Salt March", is_major: true, coords: (822_894_040, 481_923_520) },
            DeadLands::TheSaltTrail => Entry { local_key: "TheSaltTrail", display_name: "The Salt Trail", is_major: false, coords: (403_976_350, 745_117_100) },
            DeadLands::TheShornFields => Entry { local_key: "TheShornFields", display_name: "The Shorn Fields", is_major: false, coords: (455_533_470, 913_921_540) },
            DeadLands::TheSpine => Entry { local_key: "TheSpine", display_name: "The Spine", is_major: true, coords: (306_973_870, 235_828_220) },
            DeadLands::TheSteppes => Entry { local_key: "TheSteppes", display_name: "The Steppes", is_major: false, coords: (667_862_240, 527_188_300) },
        }
    }
}

impl Regional for DeadLands {
    open spec fn spec_region() -> Region {
        Region::DeadLands
    }

    open spec fn spec_entry(&self) -> Entry {
        self.table()
    }

    open spec fn spec_marked(&self) -> bool {
        false
    }

    open spec fn spec_all() -> Seq<Self> {
        seq![
            DeadLands::AbandonedWard, DeadLands::BitingTarn, DeadLands::BorderConcourse,
            DeadLands::BorderThicket, DeadLands::BrineGlen, DeadLands::CallahansBelt,
            DeadLands::CallahansBoot, DeadLands::CallahansGate, DeadLands::CarpalTrail,
            DeadLands::CemetaryJunction, DeadLands::CemetaryLane, DeadLands::CoracoidFootpath,
            DeadLands::CrumblingPassage, DeadLands::HopesCauseway, DeadLands::IronsEnd,
            DeadLands::JasparRange, DeadLands::LiberationPoint, DeadLands::MandibleCrossroads,
            DeadLands::MarrowCopse, DeadLands::MercyMeadow, DeadLands::MercysEnd,
            DeadLands::OvergrownPasture, DeadLands::PathtotheSun, DeadLands::PommelAnnex,
            DeadLands::SunsHollow, DeadLands::SunhavenGateway, DeadLands::TarsalPathway,
            DeadLands::TheAbbeyDrag, DeadLands::TheBlade, DeadLands::TheBoneyard,
            DeadLands::TheCrossing, DeadLands::TheGreatMarch, DeadLands::TheIronPassage,
            DeadLands::TheIronRoad, DeadLands::ThePits, DeadLands::ThePlaza,
            DeadLands::TheSaltFarms, DeadLands::TheSaltMarch, DeadLands::TheSaltTrail,
            DeadLands::TheShornFields, DeadLands::TheSpine, DeadLands::TheSteppes,
        ]
    }

    open spec fn spec_on_map(self) -> MapLocation {
        MapLocation::DeadLands(self)
    }

    fn region() -> (region: Region) {
        Region::DeadLands
    }

    fn entry(&self) -> (entry: Entry) {
        reveal(DeadLands::table);
        assert(self.spec_entry() == self.table());
        match self {
            DeadLands::AbandonedWard => Entry { local_key: "AbandonedWard", display_name: "Abandoned Ward", is_major: true, coords: (406_589_700, 497_347_400) },
            DeadLands::BitingTarn => Entry { local_key: "BitingTarn", display_name: "Biting Tarn", is_major: false, coords: (821_871_940, 705_376_860) },
            DeadLands::BorderConcourse => Entry { local_key: "BorderConcourse", display_name: "Border Concourse", is_major: false, coords: (815_735_600, 390_165_950) },
            DeadLands::BorderThicket => Entry { local_key: "BorderThicket", display_name: "Border Thicket", is_major: false, coords: (575_372_000, 324_470_580) },
            DeadLands::BrineGlen => Entry { local_key: "BrineGlen", display_name: "Brine Glen", is_major: true, coords: (725_617_650, 722_024_200) },
            DeadLands::CallahansBelt => Entry { local_key: "CallahansBelt", display_name: "Callahan's Belt", is_major: false, coords: (658_507_760, 310_601_260) },
            DeadLands::CallahansBoot => Entry { local_key: "CallahansBoot", display_name: "Callahan's Boot", is_major: true, coords: (547_568_600, 490_777_100) },
            DeadLands::CallahansGate => Entry { local_key: "CallahansGate", display_name: "Callahan's Gate", is_major: true, coords: (624_832_870, 110_333_465) },
            DeadLands::CarpalTrail => Entry { local_key: "CarpalTrail", display_name: "Carpal Trail", is_major: false, coords: (291_422_160, 419_198_000) },
            DeadLands::CemetaryJunction => Entry { local_key: "CemetaryJunction", display_name: "Cemetary Junction", is_major: false, coords: (324_331_800, 579_393_200) },
            DeadLands::CemetaryLane => Entry { local_key: "CemetaryLane", display_name: "Cemetary Lane", is_major: false, coords: (382_476_420, 658_562_900) },
            DeadLands::CoracoidFootpath => Entry { local_key: "CoracoidFootpath", display_name: "Coracoid Footpath", is_major: false, coords: (107_194_014, 400_219_680) },
            DeadLands::CrumblingPassage => Entry { local_key: "CrumblingPassage", display_name: "Crumbling Passage", is_major: false, coords: (417_156_850, 94_843_924) },
            DeadLands::HopesCauseway => Entry { local_key: "HopesCauseway", display_name: "Hope's Causeway", is_major: false, coords: (528_303_270, 579_457_760) },
            DeadLands::IronsEnd => Entry { local_key: "IronsEnd", display_name: "Iron's End", is_major: true, coords: (461_207_750, 262_074_380) },
            DeadLands::JasparRange => Entry { local_key: "JasparRange", display_name: "Jaspar Range", is_major: false, coords: (288_075_920, 663_216_600) },
            DeadLands::LiberationPoint => Entry { local_key: "LiberationPoint", display_name: "Liberation Point", is_major: true, coords: (242_961_690, 551_770_700) },
            DeadLands::MandibleCrossroads => Entry { local_key: "MandibleCrossroads", display_name: "Mandible Crossroads", is_major: false, coords: (201_302_930, 335_665_730) },
            DeadLands::MarrowCopse => Entry { local_key: "MarrowCopse", display_name: "Marrow Copse", is_major: false, coords: (351_984_470, 313_079_100) },
            DeadLands::MercyMeadow => Entry { local_key: "MercyMeadow", display_name: "Mercy Meadow", is_major: false, coords: (127_129_730, 541_938_840) },
            DeadLands::MercysEnd => Entry { local_key: "MercysEnd", display_name: "Mercy's End", is_major: false, coords: (622_916_400, 830_655_500) },
            DeadLands::OvergrownPasture => Entry { local_key: "OvergrownPasture", display_name: "Overgrown Pasture", is_major: false, coords: (159_520_480, 643_427_100) },
            DeadLands::PathtotheSun => Entry { local_key: "PathtotheSun", display_name: "Path to the Sun", is_major: false, coords: (272_947_800, 893_189_100) },
            DeadLands::PommelAnnex => Entry { local_key: "PommelAnnex", display_name: "Pommel Annex", is_major: false, coords: (488_575_070, 393_344_370) },
            DeadLands::SunsHollow => Entry { local_key: "SunsHollow", display_name: "Sun's Hollow", is_major: true, coords: (273_352_240, 721_537_800) },
            DeadLands::SunhavenGateway => Entry { local_key: "SunhavenGateway", display_name: "Sunhaven Gateway", is_major: false, coords: (387_224_760, 560_534_240) },
            DeadLands::TarsalPathway => Entry { local_key: "TarsalPathway", display_name: "Tarsal Pathway", is_major: false, coords: (205_098_450, 415_869_920) },
            DeadLands::TheAbbeyDrag => Entry { local_key: "TheAbbeyDrag", display_name: "The Abbey Drag", is_major: false, coords: (753_965_900, 129_005_220) },
            DeadLands::TheBlade => Entry { local_key: "TheBlade", display_name: "The Blade", is_major: false, coords: (574_384_200, 381_849_170) },
            DeadLands::TheBoneyard => Entry { local_key: "TheBoneyard", display_name: "The Boneyard", is_major: false, coords: (594_389_100, 271_638_240) },
            DeadLands::TheCrossing => Entry { local_key: "TheCrossing", display_name: "The Crossing", is_major: false, coords: (417_646_020, 446_615_600) },
            DeadLands::TheGreatMarch => Entry { local_key: "TheGreatMarch", display_name: "The Great March", is_major: false, coords: (356_325_950, 881_450_000) },
            DeadLands::TheIronPassage => Entry { local_key: "TheIronPassage", display_name: "The Iron Passage", is_major: false, coords: (481_196_730, 315_443_630) },
            DeadLands::TheIronRoad => Entry { local_key: "TheIronRoad", display_name: "The Iron Road", is_major: false, coords: (527_815_640, 132_420_570) },
            DeadLands::ThePits => Entry { local_key: "ThePits", display_name: "The Pits", is_major: true, coords: (465_119_400, 629_779_800) },
            DeadLands::ThePlaza => Entry { local_key: "ThePlaza", display_name: "The Plaza", is_major: false, coords: (429_601_460, 401_039_720) },
            DeadLands::TheSaltFarms => Entry { local_key: "TheSaltFarms", display_name: "The Salt Farms", is_major: true, coords: (456_970_500, 837_613_400) },
            DeadLands::TheSaltMarch => Entry { local_key: "TheSaltMarch", display_name: "The Salt March", is_major: true, coords: (822_894_040, 481_923_520) },
            DeadLands::TheSaltTrail => Entry { local_key: "TheSaltTrail", display_name: "The Salt Trail", is_major: false, coords: (403_976_350, 745_117_100) },
            DeadLands::TheShornFields => Entry { local_key: "TheShornFields", display_name: "The Shorn Fields", is_major: false, coords: (455_533_470, 913_921_540) },
            DeadLands::TheSpine => Entry { local_key: "TheSpine", display_name: "The Spine", is_major: true, coords: (306_973_870, 235_828_220) },
            DeadLands::TheSteppes => Entry { local_key: "TheSteppes", display_name: "The Steppes", is_major: false, coords: (667_862_240, 527_188_300) },
        }
    }

    fn all() -> (all: Vec<Self>) {
        vec![
            DeadLands::AbandonedWard, DeadLands::BitingTarn, DeadLands::BorderConcourse,
            DeadLands::BorderThicket, DeadLands::BrineGlen, DeadLands::CallahansBelt,
            DeadLands::CallahansBoot, DeadLands::CallahansGate, DeadLands::CarpalTrail,
            DeadLands::CemetaryJunction, DeadLands::CemetaryLane, DeadLands::CoracoidFootpath,
            DeadLands::CrumblingPassage, DeadLands::HopesCauseway, DeadLands::IronsEnd,
            DeadLands::JasparRange, DeadLands::LiberationPoint, DeadLands::MandibleCrossroads,
            DeadLands::MarrowCopse, DeadLands::MercyMeadow, DeadLands::MercysEnd,
            DeadLands::OvergrownPasture, DeadLands::PathtotheSun, DeadLands::PommelAnnex,
            DeadLands::SunsHollow, DeadLands::SunhavenGateway, DeadLands::TarsalPathway,
            DeadLands::TheAbbeyDrag, DeadLands::TheBlade, DeadLands::TheBoneyard,
            DeadLands::TheCrossing, DeadLands::TheGreatMarch, DeadLands::TheIronPassage,
            DeadLands::TheIronRoad, DeadLands::ThePits, DeadLands::ThePlaza,
            DeadLands::TheSaltFarms, DeadLands::TheSaltMarch, DeadLands::TheSaltTrail,
            DeadLands::TheShornFields, DeadLands::TheSpine, DeadLands::TheSteppes,
        ]
    }

    fn from_key(key: &str) -> (found: Option<Self>) {
        reveal(DeadLands::table);
        if str_eq(key, "AbandonedWard") {
            Some(DeadLands::AbandonedWard)
        } else if str_eq(key, "BitingTarn") {
            Some(DeadLands::BitingTarn)
        } else if str_eq(key, "BorderConcourse") {
            Some(DeadLands::BorderConcourse)
        } else if str_eq(key, "BorderThicket") {
            Some(DeadLands::BorderThicket)
        } else if str_eq(key, "BrineGlen") {
            Some(DeadLands::BrineGlen)
        } else if str_eq(key, "CallahansBelt") {
            Some(DeadLands::CallahansBelt)
        } else if str_eq(key, "CallahansBoot") {
            Some(DeadLands::CallahansBoot)
        } else if str_eq(key, "CallahansGate") {
            Some(DeadLands::CallahansGate)
        } else if str_eq(key, "CarpalTrail") {
            Some(DeadLands::CarpalTrail)
        } else if str_eq(key, "CemetaryJunction") {
            Some(DeadLands::CemetaryJunction)
        } else if str_eq(key, "CemetaryLane") {
            Some(DeadLands::CemetaryLane)
        } else if str_eq(key, "CoracoidFootpath") {
            Some(DeadLands::CoracoidFootpath)
        } else if str_eq(key, "CrumblingPassage") {
            Some(DeadLands::CrumblingPassage)
        } else if str_eq(key, "HopesCauseway") {
            Some(DeadLands::HopesCauseway)
        } else if str_eq(key, "IronsEnd") {
            Some(DeadLands::IronsEnd)
        } else if str_eq(key, "JasparRange") {
            Some(DeadLands::JasparRange)
        } else if str_eq(key, "LiberationPoint") {
            Some(DeadLands::LiberationPoint)
        } else if str_eq(key, "MandibleCrossroads") {
            Some(DeadLands::MandibleCrossroads)
        } else if str_eq(key, "MarrowCopse") {
            Some(DeadLands::MarrowCopse)
        } else if str_eq(key, "MercyMeadow") {
            Some(DeadLands::MercyMeadow)
        } else if str_eq(key, "MercysEnd") {
            Some(DeadLands::MercysEnd)
        } else if str_eq(key, "OvergrownPasture") {
            Some(DeadLands::OvergrownPasture)
        } else if str_eq(key, "PathtotheSun") {
            Some(DeadLands::PathtotheSun)
        } else if str_eq(key, "PommelAnnex") {
            Some(DeadLands::PommelAnnex)
        } else if str_eq(key, "SunsHollow") {
            Some(DeadLands::SunsHollow)
        } else if str_eq(key, "SunhavenGateway") {
            Some(DeadLands::SunhavenGateway)
        } else if str_eq(key, "TarsalPathway") {
            Some(DeadLands::TarsalPathway)
        } else if str_eq(key, "TheAbbeyDrag") {
            Some(DeadLands::TheAbbeyDrag)
        } else if str_eq(key, "TheBlade") {
            Some(DeadLands::TheBlade)
        } else if str_eq(key, "TheBoneyard") {
            Some(DeadLands::TheBoneyard)
        } else if str_eq(key, "TheCrossing") {
            Some(DeadLands::TheCrossing)
        } else if str_eq(key, "TheGreatMarch") {
            Some(DeadLands::TheGreatMarch)
        } else if str_eq(key, "TheIronPassage") {
            Some(DeadLands::TheIronPassage)
        } else if str_eq(key, "TheIronRoad") {
            Some(DeadLands::TheIronRoad)
        } else if str_eq(key, "ThePits") {
            Some(DeadLands::ThePits)
        } else if str_eq(key, "ThePlaza") {
            Some(DeadLands::ThePlaza)
        } else if str_eq(key, "TheSaltFarms") {
            Some(DeadLands::TheSaltFarms)
        } else if str_eq(key, "TheSaltMarch") {
            Some(DeadLands::TheSaltMarch)
        } else if str_eq(key, "TheSaltTrail") {
            Some(DeadLands::TheSaltTrail)
        } else if str_eq(key, "TheShornFields") {
            Some(DeadLands::TheShornFields)
        } else if str_eq(key, "TheSpine") {
            Some(DeadLands::TheSpine)
        } else if str_eq(key, "TheSteppes") {
            Some(DeadLands::TheSteppes)
        } else {
            None
        }
    }

    fn on_map(self) -> (place: MapLocation) {
        MapLocation::DeadLands(self)
    }

    proof fn lemma_entry(l: Self) {
        reveal(DeadLands::table);
        reveal_with_fuel(pairs_off, 20);
        match l {
            DeadLands::AbandonedWard => {
                reveal_strlit("AbandonedWard");
                reveal_strlit("Abandoned Ward");
                lemma_pairs_off("Abandoned Ward"@, "AbandonedWard"@);
            },
            DeadLands::BitingTarn => {
                reveal_strlit("BitingTarn");
                reveal_strlit("Biting Tarn");
                lemma_pairs_off("Biting Tarn"@, "BitingTarn"@);
            },
            DeadLands::BorderConcourse => {
                reveal_strlit("BorderConcourse");
                reveal_strlit("Border Concourse");
                lemma_pairs_off("Border Concourse"@, "BorderConcourse"@);
            },
            DeadLands::BorderThicket => {
                reveal_strlit("BorderThicket");
                reveal_strlit("Border Thicket");
                lemma_pairs_off("Border Thicket"@, "BorderThicket"@);
            },
            DeadLands::BrineGlen => {
                reveal_strlit("BrineGlen");
                reveal_strlit("Brine Glen");
                lemma_pairs_off("Brine Glen"@, "BrineGlen"@);
            },
            DeadLands::CallahansBelt => {
                reveal_strlit("CallahansBelt");
                reveal_strlit("Callahan's Belt");
                lemma_pairs_off("Callahan's Belt"@, "CallahansBelt"@);
            },
            DeadLands::CallahansBoot => {
                reveal_strlit("CallahansBoot");
                reveal_strlit("Callahan's Boot");
                lemma_pairs_off("Callahan's Boot"@, "CallahansBoot"@);
            },
            DeadLands::CallahansGate => {
                reveal_strlit("CallahansGate");
                reveal_strlit("Callahan's Gate");
                lemma_pairs_off("Callahan's Gate"@, "CallahansGate"@);
            },
            DeadLands::CarpalTrail => {
                reveal_strlit("CarpalTrail");
                reveal_strlit("Carpal Trail");
                lemma_pairs_off("Carpal Trail"@, "CarpalTrail"@);
            },
            DeadLands::CemetaryJunction => {
                reveal_strlit("CemetaryJunction");
                reveal_strlit("Cemetary Junction");
                lemma_pairs_off("Cemetary Junction"@, "CemetaryJunction"@);
            },
            DeadLands::CemetaryLane => {
                reveal_strlit("CemetaryLane");
                reveal_strlit("Cemetary Lane");
                lemma_pairs_off("Cemetary Lane"@, "CemetaryLane"@);
            },
            DeadLands::CoracoidFootpath => {
                reveal_strlit("CoracoidFootpath");
                reveal_strlit("Coracoid Footpath");
                lemma_pairs_off("Coracoid Footpath"@, "CoracoidFootpath"@);
            },
            DeadLands::CrumblingPassage => {
                reveal_strlit("CrumblingPassage");
                reveal_strlit("Crumbling Passage");
                lemma_pairs_off("Crumbling Passage"@, "CrumblingPassage"@);
            },
            DeadLands::HopesCauseway => {
                reveal_strlit("HopesCauseway");
                reveal_strlit("Hope's Causeway");
                lemma_pairs_off("Hope's Causeway"@, "HopesCauseway"@);
            },
            DeadLands::IronsEnd => {
                reveal_strlit("IronsEnd");
                reveal_strlit("Iron's End");
                lemma_pairs_off("Iron's End"@, "IronsEnd"@);
            },
            DeadLands::JasparRange => {
                reveal_strlit("JasparRange");
                reveal_strlit("Jaspar Range");
                lemma_pairs_off("Jaspar Range"@, "JasparRange"@);
            },
            DeadLands::LiberationPoint => {
                reveal_strlit("LiberationPoint");
                reveal_strlit("Liberation Point");
                lemma_pairs_off("Liberation Point"@, "LiberationPoint"@);
            },
            DeadLands::MandibleCrossroads => {
                reveal_strlit("MandibleCrossroads");
                reveal_strlit("Mandible Crossroads");
                lemma_pairs_off("Mandible Crossroads"@, "MandibleCrossroads"@);
            },
            DeadLands::MarrowCopse => {
                reveal_strlit("MarrowCopse");
                reveal_strlit("Marrow Copse");
                lemma_pairs_off("Marrow Copse"@, "MarrowCopse"@);
            },
            DeadLands::MercyMeadow => {
                reveal_strlit("MercyMeadow");
                reveal_strlit("Mercy Meadow");
                lemma_pairs_off("Mercy Meadow"@, "MercyMeadow"@);
            },
            DeadLands::MercysEnd => {
                reveal_strlit("MercysEnd");
                reveal_strlit("Mercy's End");
                lemma_pairs_off("Mercy's End"@, "MercysEnd"@);
            },
            DeadLands::OvergrownPasture => {
                reveal_strlit("OvergrownPasture");
                reveal_strlit("Overgrown Pasture");
                lemma_pairs_off("Overgrown Pasture"@, "OvergrownPasture"@);
            },
            DeadLands::PathtotheSun => {
                reveal_strlit("PathtotheSun");
                reveal_strlit("Path to the Sun");
                lemma_pairs_off("Path to the Sun"@, "PathtotheSun"@);
            },
            DeadLands::PommelAnnex => {
                reveal_strlit("PommelAnnex");
                reveal_strlit("Pommel Annex");
                lemma_pairs_off("Pommel Annex"@, "PommelAnnex"@);
            },
            DeadLands::SunsHollow => {
                reveal_strlit("SunsHollow");
                reveal_strlit("Sun's Hollow");
                lemma_pairs_off("Sun's Hollow"@, "SunsHollow"@);
            },
            DeadLands::SunhavenGateway => {
                reveal_strlit("SunhavenGateway");
                reveal_strlit("Sunhaven Gateway");
                lemma_pairs_off("Sunhaven Gateway"@, "SunhavenGateway"@);
            },
            DeadLands::TarsalPathway => {
                reveal_strlit("TarsalPathway");
                reveal_strlit("Tarsal Pathway");
                lemma_pairs_off("Tarsal Pathway"@, "TarsalPathway"@);
            },
            DeadLands::TheAbbeyDrag => {
                reveal_strlit("TheAbbeyDrag");
                reveal_strlit("The Abbey Drag");
                lemma_pairs_off("The Abbey Drag"@, "TheAbbeyDrag"@);
            },
            DeadLands::TheBlade => {
                reveal_strlit("TheBlade");
                reveal_strlit("The Blade");
                lemma_pairs_off("The Blade"@, "TheBlade"@);
            },
            DeadLands::TheBoneyard => {
                reveal_strlit("TheBoneyard");
                reveal_strlit("The Boneyard");
                lemma_pairs_off("The Boneyard"@, "TheBoneyard"@);
            },
            DeadLands::TheCrossing => {
                reveal_strlit("TheCrossing");
                reveal_strlit("The Crossing");
                lemma_pairs_off("The Crossing"@, "TheCrossing"@);
            },
            DeadLands::TheGreatMarch => {
                reveal_strlit("TheGreatMarch");
                reveal_strlit("The Great March");
                lemma_pairs_off("The Great March"@, "TheGreatMarch"@);
            },
            DeadLands::TheIronPassage => {
                reveal_strlit("TheIronPassage");
                reveal_strlit("The Iron Passage");
                lemma_pairs_off("The Iron Passage"@, "TheIronPassage"@);
            },
            DeadLands::TheIronRoad => {
                reveal_strlit("TheIronRoad");
                reveal_strlit("The Iron Road");
                lemma_pairs_off("The Iron Road"@, "TheIronRoad"@);
            },
            DeadLands::ThePits => {
                reveal_strlit("ThePits");
                reveal_strlit("The Pits");
                lemma_pairs_off("The Pits"@, "ThePits"@);
            },
            DeadLands::ThePlaza => {
                reveal_strlit("ThePlaza");
                reveal_strlit("The Plaza");
                lemma_pairs_off("The Plaza"@, "ThePlaza"@);
            },
            DeadLands::TheSaltFarms => {
                reveal_strlit("TheSaltFarms");
                reveal_strlit("The Salt Farms");
                lemma_pairs_off("The Salt Farms"@, "TheSaltFarms"@);
            },
            DeadLands::TheSaltMarch => {
                reveal_strlit("TheSaltMarch");
                reveal_strlit("The Salt March");
                lemma_pairs_off("The Salt March"@, "TheSaltMarch"@);
            },
            DeadLands::TheSaltTrail => {
                reveal_strlit("TheSaltTrail");
                reveal_strlit("The Salt Trail");
                lemma_pairs_off("The Salt Trail"@, "TheSaltTrail"@);
            },
            DeadLands::TheShornFields => {
                reveal_strlit("TheShornFields");
                reveal_strlit("The Shorn Fields");
                lemma_pairs_off("The Shorn Fields"@, "TheShornFields"@);
            },
            DeadLands::TheSpine => {
                reveal_strlit("TheSpine");
                reveal_strlit("The Spine");
                lemma_pairs_off("The Spine"@, "TheSpine"@);
            },
            DeadLands::TheSteppes => {
                reveal_strlit("TheSteppes");
                reveal_strlit("The Steppes");
                lemma_pairs_off("The Steppes"@, "TheSteppes"@);
            },
        }
    }

    proof fn lemma_keys_distinct(a: Self, b: Self) {
        reveal(DeadLands::table);
        reveal_strlit("AbandonedWard");
        reveal_strlit("BitingTarn");
        reveal_strlit("BorderConcourse");
        reveal_strlit("BorderThicket");
        reveal_strlit("BrineGlen");
        reveal_strlit("CallahansBelt");
        reveal_strlit("CallahansBoot");
        reveal_strlit("CallahansGate");
        reveal_strlit("CarpalTrail");
        reveal_strlit("CemetaryJunction");
        reveal_strlit("CemetaryLane");
        reveal_strlit("CoracoidFootpath");
        reveal_strlit("CrumblingPassage");
        reveal_strlit("HopesCauseway");
        reveal_strlit("IronsEnd");
        reveal_strlit("JasparRange");
        reveal_strlit("LiberationPoint");
        reveal_strlit("MandibleCrossroads");
        reveal_strlit("MarrowCopse");
        reveal_strlit("MercyMeadow");
        reveal_strlit("MercysEnd");
        reveal_strlit("OvergrownPasture");
        reveal_strlit("PathtotheSun");
        reveal_strlit("PommelAnnex");
        reveal_strlit("SunsHollow");
        reveal_strlit("SunhavenGateway");
        reveal_strlit("TarsalPathway");
        reveal_strlit("TheAbbeyDrag");
        reveal_strlit("TheBlade");
        reveal_strlit("TheBoneyard");
        reveal_strlit("TheCrossing");
        reveal_strlit("TheGreatMarch");
        reveal_strlit("TheIronPassage");
        reveal_strlit("TheIronRoad");
        reveal_strlit("ThePits");
        reveal_strlit("ThePlaza");
        reveal_strlit("TheSaltFarms");
        reveal_strlit("TheSaltMarch");
        reveal_strlit("TheSaltTrail");
        reveal_strlit("TheShornFields");
        reveal_strlit("TheSpine");
        reveal_strlit("TheSteppes");
        // Two equal keys agree in length and in every character; no two
        // keys of the table do.
        let x = a.table().local_key@;
        let y = b.table().local_key@;
        assert(x.len() == y.len());
        assert(x[0] == y[0]);
        assert(x[1] == y[1]);
        assert(x[2] == y[2]);
        assert(x[3] == y[3]);
        assert(x[4] == y[4]);
        assert(x[5] == y[5]);
        assert(x[6] == y[6]);
        assert(x[7] == y[7]);
        assert(x[8] == y[8]);
        assert(x[9] == y[9]);
        assert(x[10] == y[10]);
        assert(x[11] == y[11]);
        assert(x[12] == y[12]);
        assert(x[13] == y[13]);
        assert(x[14] == y[14]);
        assert(x[15] == y[15]);
        assert(x[16] == y[16]);
        assert(x[17] == y[17]);
        match a {
            DeadLands::AbandonedWard => assert(b is AbandonedWard),
            DeadLands::BitingTarn => assert(b is BitingTarn),
            DeadLands::BorderConcourse => assert(b is BorderConcourse),
            DeadLands::BorderThicket => assert(b is BorderThicket),
            DeadLands::BrineGlen => assert(b is BrineGlen),
            DeadLands::CallahansBelt => assert(b is CallahansBelt),
            DeadLands::CallahansBoot => assert(b is CallahansBoot),
            DeadLands::CallahansGate => assert(b is CallahansGate),
            DeadLands::CarpalTrail => assert(b is CarpalTrail),
            DeadLands::CemetaryJunction => assert(b is CemetaryJunction),
            DeadLands::CemetaryLane => assert(b is CemetaryLane),
            DeadLands::CoracoidFootpath => assert(b is CoracoidFootpath),
            DeadLands::CrumblingPassage => assert(b is CrumblingPassage),
            DeadLands::HopesCauseway => assert(b is HopesCauseway),
            DeadLands::IronsEnd => assert(b is IronsEnd),
            DeadLands::JasparRange => assert(b is JasparRange),
            DeadLands::LiberationPoint => assert(b is LiberationPoint),
            DeadLands::MandibleCrossroads => assert(b is MandibleCrossroads),
            DeadLands::MarrowCopse => assert(b is MarrowCopse),
            DeadLands::MercyMeadow => assert(b is MercyMeadow),
            DeadLands::MercysEnd => assert(b is MercysEnd),
            DeadLands::OvergrownPasture => assert(b is OvergrownPasture),
            DeadLands::PathtotheSun => assert(b is PathtotheSun),
            DeadLands::PommelAnnex => assert(b is PommelAnnex),
            DeadLands::SunsHollow => assert(b is SunsHollow),
            DeadLands::SunhavenGateway => assert(b is SunhavenGateway),
            DeadLands::TarsalPathway => assert(b is TarsalPathway),
            DeadLands::TheAbbeyDrag => assert(b is TheAbbeyDrag),
            DeadLands::TheBlade => assert(b is TheBlade),
            DeadLands::TheBoneyard => assert(b is TheBoneyard),
            DeadLands::TheCrossing => assert(b is TheCrossing),
            DeadLands::TheGreatMarch => assert(b is TheGreatMarch),
            DeadLands::TheIronPassage => assert(b is TheIronPassage),
            DeadLands::TheIronRoad => assert(b is TheIronRoad),
            DeadLands::ThePits => assert(b is ThePits),
            DeadLands::ThePlaza => assert(b is ThePlaza),
            DeadLands::TheSaltFarms => assert(b is TheSaltFarms),
            DeadLands::TheSaltMarch => assert(b is TheSaltMarch),
            DeadLands::TheSaltTrail => assert(b is TheSaltTrail),
            DeadLands::TheShornFields => assert(b is TheShornFields),
            DeadLands::TheSpine => assert(b is TheSpine),
            DeadLands::TheSteppes => assert(b is TheSteppes),
        }
    }

    proof fn lemma_all(l: Self) {
        reveal_with_fuel(position, 43);
        reveal_with_fuel(each_first, 43);
        lemma_found(Self::spec_all(), l);
        lemma_no_duplicates(Self::spec_all());
    }

    proof fn lemma_on_map(place: MapLocation) {
        if let MapLocation::DeadLands(l) = place {
            assert(l.spec_on_map() == place);
        }
    }
}

} // verus!
