//! The locations of the MarbanHol region.

use crate::map::location::Entry;
use crate::map::region::Region;
use crate::map::regional::Regional;
use crate::map::seqs::{each_first, lemma_found, lemma_no_duplicates, position};
use crate::map::MapLocation;
use crate::text::{lemma_pairs_off, pairs_off, str_eq};
use vstd::prelude::*;

verus! {

/// Specific map details for the `MarbanHollow` tile.
#[derive(Clone, Copy, Debug, PartialEq, Eq)]
pub enum MarbanHol {
    /// Bleating Plateau is a minor location
    BleatingPlateau,
    /// Bubble Basin is a minor location
    BubbleBasin,
    /// Checkpoint Bua is a major location
    CheckpointBua,
    /// Deepfleet Valley is a minor location
    DeepfleetValley,
    /// Gaping Maw is a minor location
    GapingMaw,
    /// Lockheed is a major location
    Lockheed,
    /// Lockheed Breakers is a minor location
    LockheedBreakers,
    /// Lughbone Dam is a minor location
    LughboneDam,
    /// Maiden's Veil is a major location
    MaidensVeil,
    /// Mount Mac Tire is a minor location
    MountMacTire,
    /// Mox is a major location
    Mox,
    /// Oster Wall is a major location
    OsterWall,
    /// Pilgrimage is a minor location
    Pilgrimage,
    /// Sanctum is a major location
    Sanctum,
    /// Slender Cove is a minor location
    SlenderCove,
    /// The Claim is a minor location
    TheClaim,
    /// The Clutch is a minor location
    TheClutch,
    /// The Curse is a minor location
    TheCurse,
    /// The Spitrocks is a major location
    TheSpitrocks,
}

impl MarbanHol {
    /// The table of the region: the catalogue's entry for each location.
    /// Hidden from the verifier until revealed.
    #[verifier::opaque]
    pub open spec fn table(self) -> Entry {
        match self {
            MarbanHol::BleatingPlateau => Entry { local_key: "BleatingPlateau", display_name: "Bleating Plateau", is_major: false, coords: (270_353_200, 590_818_300) },
            MarbanHol::BubbleBasin => Entry { local_key: "BubbleBasin", display_name: "Bubble Basin", is_major: false, coords: (383_556_340, 424_927_120) },
            MarbanHol::CheckpointBua => Entry { local_key: "CheckpointBua", display_name: "Checkpoint Bua", is_major: true, coords: (637_369_200, 417_994_300) },
            MarbanHol::DeepfleetValley => Entry { local_key: "DeepfleetValley", display_name: "Deepfleet Valley", is_major: false, coords: (597_131_800, 658_769_130) },
            MarbanHol::GapingMaw => Entry { local_key: "GapingMaw", display_name: "Gaping Maw", is_major: false, coords: (562_775_700, 120_336_770) },
            MarbanHol::Lockheed => Entry { local_key: "Lockheed", display_name: "Lockheed", is_major: true, coords: (640_760_300, 898_770_100) },
            MarbanHol::LockheedBreakers => Entry { local_key: "LockheedBreakers", display_name: "Lockheed Breakers", is_major: false, coords: (552_780_870, 844_049_160) },
            MarbanHol::LughboneDam => Entry { local_key: "LughboneDam", display_name: "Lughbone Dam", is_major: false, coords: (606_260_400, 415_367_480) },
            MarbanHol::MaidensVeil => Entry { local_key: "MaidensVeil", display_name: "Maiden's Veil", is_major: true, coords: (517_572_640, 521_407_200) },
            MarbanHol::MountMacTire => Entry { local_key: "MountMacTire", display_name: "Mount Mac Tire", is_major: false, coords: (303_559_660, 917_059_360) },
            MarbanHol::Mox => Entry { local_key: "Mox", display_name: "Mox", is_major: true, coords: (710_367_440, 117_435_150) },
            MarbanHol::OsterWall => Entry { local_key: "OsterWall", display_name: "Oster Wall", is_major: true, coords: (799_404_300, 471_271_460) },
            MarbanHol::Pilgrimage => Entry { local_key: "Pilgrimage", display_name: "Pilgrimage", is_major: false, coords: (396_671_530, 101_864_380) },
            MarbanHol::Sanctum => Entry { local_key: "Sanctum", display_name: "Sanctum", is_major: true, coords: (225_537_570, 272_191_800) },
            MarbanHol::SlenderCove => Entry { local_key: "SlenderCove", display_name: "Slender Cove", is_major: false, coords: (721_715_700, 289_772_960) },
            MarbanHol::TheClaim => Entry { local_key: "TheClaim", display_name: "The Claim", is_major: false, coords: (736_686_100, 666_844_800) },
            MarbanHol::TheClutch => Entry { local_key: "TheClutch", display_name: "The Clutch", is_major: false, coords: (514_264_100, 275_007_520) },
            MarbanHol::TheCurse => Entry { local_key: "TheCurse", display_name: "The Curse", is_major: false, coords: (625_115_040, 513_146_200) },
            MarbanHol::TheSpitrocks => Entry { local_key: "TheSpitrocks", display_name: "The Spitrocks", is_major: true, coords: (355_111_600, 727_335_900) },
        }
    }
}

impl Regional for MarbanHol {
    open spec fn spec_region() -> Region {
        Region::MarbanHol
    }

    open spec fn spec_entry(&self) -> Entry {
        self.table()
    }

    open spec fn spec_marked(&self) -> bool {
        false
    }

    open spec fn spec_all() -> Seq<Self> {
        seq![
            MarbanHol::BleatingPlateau, MarbanHol::BubbleBasin, MarbanHol::CheckpointBua,
            MarbanHol::DeepfleetValley, MarbanHol::GapingMaw, MarbanHol::Lockheed,
            MarbanHol::LockheedBreakers, MarbanHol::LughboneDam, MarbanHol::MaidensVeil,
            MarbanHol::MountMacTire, MarbanHol::Mox, MarbanHol::OsterWall,
            MarbanHol::Pilgrimage, MarbanHol::Sanctum, MarbanHol::SlenderCove,
            MarbanHol::TheClaim, MarbanHol::TheClutch, MarbanHol::TheCurse,
            MarbanHol::TheSpitrocks,
        ]
    }

    open spec fn spec_on_map(self) -> MapLocation {
        MapLocation::MarbanHol(self)
    }

    fn region() -> (region: Region) {
        Region::MarbanHol
    }

    fn entry(&self) -> (entry: Entry) {
        reveal(MarbanHol::table);
        assert(self.spec_entry() == self.table());
        match self {
            MarbanHol::BleatingPlateau => Entry { local_key: "BleatingPlateau", display_name: "Bleating Plateau", is_major: false, coords: (270_353_200, 590_818_300) },
            MarbanHol::BubbleBasin => Entry { local_key: "BubbleBasin", display_name: "Bubble Basin", is_major: false, coords: (383_556_340, 424_927_120) },
            MarbanHol::CheckpointBua => Entry { local_key: "CheckpointBua", display_name: "Checkpoint Bua", is_major: true, coords: (637_369_200, 417_994_300) },
            MarbanHol::DeepfleetValley => Entry { local_key: "DeepfleetValley", display_name: "Deepfleet Valley", is_major: false, coords: (597_131_800, 658_769_130) },
            MarbanHol::GapingMaw => Entry { local_key: "GapingMaw", display_name: "Gaping Maw", is_major: false, coords: (562_775_700, 120_336_770) },
            MarbanHol::Lockheed => Entry { local_key: "Lockheed", display_name: "Lockheed", is_major: true, coords: (640_760_300, 898_770_100) },
            MarbanHol::LockheedBreakers => Entry { local_key: "LockheedBreakers", display_name: "Lockheed Breakers", is_major: false, coords: (552_780_870, 844_049_160) },
            MarbanHol::LughboneDam => Entry { local_key: "LughboneDam", display_name: "Lughbone Dam", is_major: false, coords: (606_260_400, 415_367_480) },
            MarbanHol::MaidensVeil => Entry { local_key: "MaidensVeil", display_name: "Maiden's Veil", is_major: true, coords: (517_572_640, 521_407_200) },
            MarbanHol::MountMacTire => Entry { local_key: "MountMacTire", display_name: "Mount Mac Tire", is_major: false, coords: (303_559_660, 917_059_360) },
            MarbanHol::Mox => Entry { local_key: "Mox", display_name: "Mox", is_major: true, coords: (710_367_440, 117_435_150) },
            MarbanHol::OsterWall => Entry { local_key: "OsterWall", display_name: "Oster Wall", is_major: true, coords: (799_404_300, 471_271_460) },
            MarbanHol::Pilgrimage => Entry { local_key: "Pilgrimage", display_name: "Pilgrimage", is_major: false, coords: (396_671_530, 101_864_380) },
            MarbanHol::Sanctum => Entry { local_key: "Sanctum", display_name: "Sanctum", is_major: true, coords: (225_537_570, 272_191_800) },
            MarbanHol::SlenderCove => Entry { local_key: "SlenderCove", display_name: "Slender Cove", is_major: false, coords: (721_715_700, 289_772_960) },
            MarbanHol::TheClaim => Entry { local_key: "TheClaim", display_name: "The Claim", is_major: false, coords: (736_686_100, 666_844_800) },
            MarbanHol::TheClutch => Entry { local_key: "TheClutch", display_name: "The Clutch", is_major: false, coords: (514_264_100, 275_007_520) },
            MarbanHol::TheCurse => Entry { local_key: "TheCurse", display_name: "The Curse", is_major: false, coords: (625_115_040, 513_146_200) },
            MarbanHol::TheSpitrocks => Entry { local_key: "TheSpitrocks", display_name: "The Spitrocks", is_major: true, coords: (355_111_600, 727_335_900) },
        }
    }

    fn all() -> (all: Vec<Self>) {
        vec![
            MarbanHol::BleatingPlateau, MarbanHol::BubbleBasin, MarbanHol::CheckpointBua,
            MarbanHol::DeepfleetValley, MarbanHol::GapingMaw, MarbanHol::Lockheed,
            MarbanHol::LockheedBreakers, MarbanHol::LughboneDam, MarbanHol::MaidensVeil,
            MarbanHol::MountMacTire, MarbanHol::Mox, MarbanHol::OsterWall,
            MarbanHol::Pilgrimage, MarbanHol::Sanctum, MarbanHol::SlenderCove,
            MarbanHol::TheClaim, MarbanHol::TheClutch, MarbanHol::TheCurse,
            MarbanHol::TheSpitrocks,
        ]
    }

    fn from_key(key: &str) -> (found: Option<Self>) {
        reveal(MarbanHol::table);
        if str_eq(key, "BleatingPlateau") {
            Some(MarbanHol::BleatingPlateau)
        } else if str_eq(key, "BubbleBasin") {
            Some(MarbanHol::BubbleBasin)
        } else if str_eq(key, "CheckpointBua") {
            Some(MarbanHol::CheckpointBua)
        } else if str_eq(key, "DeepfleetValley") {
            Some(MarbanHol::DeepfleetValley)
        } else if str_eq(key, "GapingMaw") {
            Some(MarbanHol::GapingMaw)
        } else if str_eq(key, "Lockheed") {
            Some(MarbanHol::Lockheed)
        } else if str_eq(key, "LockheedBreakers") {
            Some(MarbanHol::LockheedBreakers)
        } else if str_eq(key, "LughboneDam") {
            Some(MarbanHol::LughboneDam)
        } else if str_eq(key, "MaidensVeil") {
            Some(MarbanHol::MaidensVeil)
        } else if str_eq(key, "MountMacTire") {
            Some(MarbanHol::MountMacTire)
        } else if str_eq(key, "Mox") {
            Some(MarbanHol::Mox)
        } else if str_eq(key, "OsterWall") {
            Some(MarbanHol::OsterWall)
        } else if str_eq(key, "Pilgrimage") {
            Some(MarbanHol::Pilgrimage)
        } else if str_eq(key, "Sanctum") {
            Some(MarbanHol::Sanctum)
        } else if str_eq(key, "SlenderCove") {
            Some(MarbanHol::SlenderCove)
        } else if str_eq(key, "TheClaim") {
            Some(MarbanHol::TheClaim)
        } else if str_eq(key, "TheClutch") {
            Some(MarbanHol::TheClutch)
        } else if str_eq(key, "TheCurse") {
            Some(MarbanHol::TheCurse)
        } else if str_eq(key, "TheSpitrocks") {
            Some(MarbanHol::TheSpitrocks)
        } else {
            None
        }
    }

    fn on_map(self) -> (place: MapLocation) {
        MapLocation::MarbanHol(self)
    }

    proof fn lemma_entry(l: Self) {
        reveal(MarbanHol::table);
        reveal_with_fuel(pairs_off, 18);
        match l {
            MarbanHol::BleatingPlateau => {
                reveal_strlit("BleatingPlateau");
                reveal_strlit("Bleating Plateau");
                lemma_pairs_off("Bleating Plateau"@, "BleatingPlateau"@);
            },
            MarbanHol::BubbleBasin => {
                reveal_strlit("BubbleBasin");
                reveal_strlit("Bubble Basin");
                lemma_pairs_off("Bubble Basin"@, "BubbleBasin"@);
            },
            MarbanHol::CheckpointBua => {
                reveal_strlit("CheckpointBua");
                reveal_strlit("Checkpoint Bua");
                lemma_pairs_off("Checkpoint Bua"@, "CheckpointBua"@);
            },
            MarbanHol::DeepfleetValley => {
                reveal_strlit("DeepfleetValley");
                reveal_strlit("Deepfleet Valley");
                lemma_pairs_off("Deepfleet Valley"@, "DeepfleetValley"@);
            },
            MarbanHol::GapingMaw => {
                reveal_strlit("GapingMaw");
                reveal_strlit("Gaping Maw");
                lemma_pairs_off("Gaping Maw"@, "GapingMaw"@);
            },
            MarbanHol::Lockheed => {
                reveal_strlit("Lockheed");
                lemma_pairs_off("Lockheed"@, "Lockheed"@);
            },
            MarbanHol::LockheedBreakers => {
                reveal_strlit("LockheedBreakers");
                reveal_strlit("Lockheed Breakers");
                lemma_pairs_off("Lockheed Breakers"@, "LockheedBreakers"@);
            },
            MarbanHol::LughboneDam => {
                reveal_strlit("LughboneDam");
                reveal_strlit("Lughbone Dam");
                lemma_pairs_off("Lughbone Dam"@, "LughboneDam"@);
            },
            MarbanHol::MaidensVeil => {
                reveal_strlit("MaidensVeil");
                reveal_strlit("Maiden's Veil");
                lemma_pairs_off("Maiden's Veil"@, "MaidensVeil"@);
            },
            MarbanHol::MountMacTire => {
                reveal_strlit("MountMacTire");
                reveal_strlit("Mount Mac Tire");
                lemma_pairs_off("Mount Mac Tire"@, "MountMacTire"@);
            },
            MarbanHol::Mox => {
                reveal_strlit("Mox");
                lemma_pairs_off("Mox"@, "Mox"@);
            },
            MarbanHol::OsterWall => {
                reveal_strlit("OsterWall");
                reveal_strlit("Oster Wall");
                lemma_pairs_off("Oster Wall"@, "OsterWall"@);
            },
            MarbanHol::Pilgrimage => {
                reveal_strlit("Pilgrimage");
                lemma_pairs_off("Pilgrimage"@, "Pilgrimage"@);
            },
            MarbanHol::Sanctum => {
                reveal_strlit("Sanctum");
                lemma_pairs_off("Sanctum"@, "Sanctum"@);
            },
            MarbanHol::SlenderCove => {
                reveal_strlit("SlenderCove");
                reveal_strlit("Slender Cove");
                lemma_pairs_off("Slender Cove"@, "SlenderCove"@);
            },
            MarbanHol::TheClaim => {
                reveal_strlit("TheClaim");
                reveal_strlit("The Claim");
                lemma_pairs_off("The Claim"@, "TheClaim"@);
            },
            MarbanHol::TheClutch => {
                reveal_strlit("TheClutch");
                reveal_strlit("The Clutch");
                lemma_pairs_off("The Clutch"@, "TheClutch"@);
            },
            MarbanHol::TheCurse => {
                reveal_strlit("TheCurse");
                reveal_strlit("The Curse");
                lemma_pairs_off("The Curse"@, "TheCurse"@);
            },
            MarbanHol::TheSpitrocks => {
                reveal_strlit("TheSpitrocks");
                reveal_strlit("The Spitrocks");
                lemma_pairs_off("The Spitrocks"@, "TheSpitrocks"@);
            },
        }
    }

    proof fn lemma_keys_distinct(a: Self, b: Self) {
        reveal(MarbanHol::table);
        reveal_strlit("BleatingPlateau");
        reveal_strlit("BubbleBasin");
        reveal_strlit("CheckpointBua");
        reveal_strlit("DeepfleetValley");
        reveal_strlit("GapingMaw");
        reveal_strlit("Lockheed");
        reveal_strlit("LockheedBreakers");
        reveal_strlit("LughboneDam");
        reveal_strlit("MaidensVeil");
        reveal_strlit("MountMacTire");
        reveal_strlit("Mox");
        reveal_strlit("OsterWall");
        reveal_strlit("Pilgrimage");
        reveal_strlit("Sanctum");
        reveal_strlit("SlenderCove");
        reveal_strlit("TheClaim");
        reveal_strlit("TheClutch");
        reveal_strlit("TheCurse");
        reveal_strlit("TheSpitrocks");
        // Two equal keys agree in length and in every character; no two
        // keys of the table do.
        let x = a.table().local_key@;
        let y = b.table().local_key@;
        assert(x.len() == y.len());
        assert(x[0] == y[0]);
        assert(x[1] == y[1]);
        assert(x[2] == y[2]);
        assert(x[3] == y[3]);
        assert(x[4] == y[4]);
        assert(x[5] == y[5]);
        assert(x[6] == y[6]);
        assert(x[7] == y[7]);
        assert(x[8] == y[8]);
        assert(x[9] == y[9]);
        assert(x[10] == y[10]);
        assert(x[11] == y[11]);
        assert(x[12] == y[12]);
        assert(x[13] == y[13]);
        assert(x[14] == y[14]);
        assert(x[15] == y[15]);
        match a {
            MarbanHol::BleatingPlateau => assert(b is BleatingPlateau),
            MarbanHol::BubbleBasin => assert(b is BubbleBasin),
            MarbanHol::CheckpointBua => assert(b is CheckpointBua),
            MarbanHol::DeepfleetValley => assert(b is DeepfleetValley),
            MarbanHol::GapingMaw => assert(b is GapingMaw),
            MarbanHol::Lockheed => assert(b is Lockheed),
            MarbanHol::LockheedBreakers => assert(b is LockheedBreakers),
            MarbanHol::LughboneDam => assert(b is LughboneDam),
            MarbanHol::MaidensVeil => assert(b is MaidensVeil),
            MarbanHol::MountMacTire => assert(b is MountMacTire),
            MarbanHol::Mox => assert(b is Mox),
            MarbanHol::OsterWall => assert(b is OsterWall),
            MarbanHol::Pilgrimage => assert(b is Pilgrimage),
            MarbanHol::Sanctum => assert(b is Sanctum),
            MarbanHol::SlenderCove => assert(b is SlenderCove),
            MarbanHol::TheClaim => assert(b is TheClaim),
            MarbanHol::TheClutch => assert(b is TheClutch),
            MarbanHol::TheCurse => assert(b is TheCurse),
            MarbanHol::TheSpitrocks => assert(b is TheSpitrocks),
        }
    }

    proof fn lemma_all(l: Self) {
        reveal_with_fuel(position, 20);
        reveal_with_fuel(each_first, 20);
        lemma_found(Self::spec_all(), l);
        lemma_no_duplicates(Self::spec_all());
    }

    proof fn lemma_on_map(place: MapLocation) {
        if let MapLocation::MarbanHol(l) = place {
            assert(l.spec_on_map() == place);
        }
    }
}

} // verus!
