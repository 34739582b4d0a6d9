//! The locations of the Oarbreaker region.

use crate::map::location::Entry;
use crate::map::region::Region;
use crate::map::regional::Regional;
use crate::map::seqs::{each_first, lemma_found, lemma_no_duplicates, position};
use crate::map::MapLocation;
use crate::text::{lemma_pairs_off, pairs_off, str_eq};
use vstd::prelude::*;

verus! {

/// Specific map details for the `OarbreakerHex` tile.
#[derive(Clone, Copy, Debug, PartialEq, Eq)]
pub enum Oarbreaker {
    /// Barrenson is a minor location
    Barrenson,
    /// Base Akri is a major location
    BaseAkri,
    /// Castor is a minor location
    Castor,
    /// Crach Woods is a minor location
    CrachWoods,
    /// Fogwood is a minor location
    Fogwood,
    /// Gold is a major location
    Gold,
    /// Grisly Refuge is a minor location
    GrislyRefuge,
    /// Integrum is a major location
    Integrum,
    /// Kofteri Channel is a minor location
    KofteriChannel,
    /// Lion's Head is a major location
    LionsHead,
    /// Martius is a minor location
    Martius,
    /// Mount Marce is a minor location
    MountMarce,
    /// Neptune's Throne is a minor location
    NeptunesThrone,
    /// Oasis is a minor location
    Oasis,
    /// Obitum is a minor location
    Obitum,
    /// Pollux is a minor location
    Pollux,
    /// Posterus is a major location
    Posterus,
    /// Reliqua is a major location
    Reliqua,
    /// Sandalwood Beach is a minor location
    SandalwoodBeach,
    /// Sheep's Head is a minor location
    SheepsHead,
    /// Silver is a minor location
    Silver,
    /// Skelter Course is a major location
    SkelterCourse,
    /// Skull Beach is a minor location
    SkullBeach,
    /// The Conclave is a major location
    TheConclave,
    /// The Dirk is a minor location
    TheDirk,
    /// The Emblem is a minor location
    TheEmblem,
    /// The Ides is a major location
    TheIdes,
}

impl Oarbreaker {
    /// The table of the region: the catalogue's entry for each location.
    /// Hidden from the verifier until revealed.
    #[verifier::opaque]
    pub open spec fn table(self) -> Entry {
        match self {
            Oarbreaker::Barrenson => Entry { local_key: "Barrenson", display_name: "Barrenson", is_major: false, coords: (209_257_960, 581_913_050) },
            Oarbreaker::BaseAkri => Entry { local_key: "BaseAkri", display_name: "Base Akri", is_major: true, coords: (911_755_700, 512_010_630) },
            Oarbreaker::Castor => Entry { local_key: "Castor", display_name: "Castor", is_major: false, coords: (256_553_350, 503_573_000) },
            Oarbreaker::CrachWoods => Entry { local_key: "CrachWoods", display_name: "Crach Woods", is_major: false, coords: (444_732_280, 355_924_640) },
            Oarbreaker::Fogwood => Entry { local_key: "Fogwood", display_name: "Fogwood", is_major: false, coords: (720_009_150, 130_070_160) },
            Oarbreaker::Gold => Entry { local_key: "Gold", display_name: "Gold", is_major: true, coords: (497_491_420, 167_448_880) },
            Oarbreaker::GrislyRefuge => Entry { local_key: "GrislyRefuge", display_name: "Grisly Refuge", is_major: false, coords: (306_169_000, 653_200_900) },
            Oarbreaker::Integrum => Entry { local_key: "Integrum", display_name: "Integrum", is_major: true, coords: (668_688_200, 773_776_000) },
            Oarbreaker::KofteriChannel => Entry { local_key: "KofteriChannel", display_name: "Kofteri Channel", is_major: false, coords: (458_190_400, 835_068_760) },
            Oarbreaker::LionsHead => Entry { local_key: "LionsHead", display_name: "Lion's Head", is_major: true, coords: (328_359_300, 896_862_150) },
            Oarbreaker::Martius => Entry { local_key: "Martius", display_name: "Martius", is_major: false, coords: (843_507_350, 284_621_500) },
            Oarbreaker::MountMarce => Entry { local_key: "MountMarce", display_name: "Mount Marce", is_major: false, coords: (577_511_400, 312_344_640) },
            Oarbreaker::NeptunesThrone => Entry { local_key: "NeptunesThrone", display_name: "Neptune's Throne", is_major: false, coords: (601_607_260, 177_992_030) },
            Oarbreaker::Oasis => Entry { local_key: "Oasis", display_name: "Oasis", is_major: false, coords: (565_353_500, 916_719_000) },
            Oarbreaker::Obitum => Entry { local_key: "Obitum", display_name: "Obitum", is_major: false, coords: (571_722_200, 751_369_300) },
            Oarbreaker::Pollux => Entry { local_key: "Pollux", display_name: "Pollux", is_major: false, coords: (211_382_500, 513_675_900) },
            Oarbreaker::Posterus => Entry { local_key: "Posterus", display_name: "Posterus", is_major: true, coords: (794_656_340, 675_590_500) },
            Oarbreaker::Reliqua => Entry { local_key: "Reliqua", display_name: "Reliqua", is_major: true, coords: (653_668_900, 213_617_860) },
            Oarbreaker::SandalwoodBeach => Entry { local_key: "SandalwoodBeach", display_name: "Sandalwood Beach", is_major: false, coords: (513_965_600, 297_955_200) },
            Oarbreaker::SheepsHead => Entry { local_key: "SheepsHead", display_name: "Sheep's Head", is_major: false, coords: (427_007_900, 961_561_900) },
            Oarbreaker::Silver => Entry { local_key: "Silver", display_name: "Silver", is_major: false, coords: (272_853_430, 277_580_400) },
            Oarbreaker::SkelterCourse => Entry { local_key: "SkelterCourse", display_name: "Skelter Course", is_major: true, coords: (603_233_340, 425_788_850) },
            Oarbreaker::SkullBeach => Entry { local_key: "SkullBeach", display_name: "Skull Beach", is_major: false, coords: (485_921_060, 451_088_220) },
            Oarbreaker::TheConclave => Entry { local_key: "TheConclave", display_name: "The Conclave", is_major: true, coords: (510_891_850, 624_818_000) },
            Oarbreaker::TheDirk => Entry { local_key: "TheDirk", display_name: "The Dirk", is_major: false, coords: (439_344_820, 788_420_700) },
            Oarbreaker::TheEmblem => Entry { local_key: "TheEmblem", display_name: "The Emblem", is_major: false, coords: (724_887_970, 254_339_280) },
            Oarbreaker::TheIdes => Entry { local_key: "TheIdes", display_name: "The Ides", is_major: true, coords: (852_546_930, 393_142_600) },
        }
    }
}

impl Regional for Oarbreaker {
    open spec fn spec_region() -> Region {
        Region::Oarbreaker
    }

    open spec fn spec_entry(&self) -> Entry {
        self.table()
    }

    open spec fn spec_marked(&self) -> bool {
        false
    }

    open spec fn spec_all() -> Seq<Self> {
        seq![
            Oarbreaker::Barrenson, Oarbreaker::BaseAkri, Oarbreaker::Castor,
            Oarbreaker::CrachWoods, Oarbreaker::Fogwood, Oarbreaker::Gold,
            Oarbreaker::GrislyRefuge, Oarbreaker::Integrum, Oarbreaker::KofteriChannel,
            Oarbreaker::LionsHead, Oarbreaker::Martius, Oarbreaker::MountMarce,
            Oarbreaker::NeptunesThrone, Oarbreaker::Oasis, Oarbreaker::Obitum,
            Oarbreaker::Pollux, Oarbreaker::Posterus, Oarbreaker::Reliqua,
            Oarbreaker::SandalwoodBeach, Oarbreaker::SheepsHead, Oarbreaker::Silver,
            Oarbreaker::SkelterCourse, Oarbreaker::SkullBeach, Oarbreaker::TheConclave,
            Oarbreaker::TheDirk, Oarbreaker::TheEmblem, Oarbreaker::TheIdes,
        ]
    }

    open spec fn spec_on_map(self) -> MapLocation {
        MapLocation::Oarbreaker(self)
    }

    fn region() -> (region: Region) {
        Region::Oarbreaker
    }

    fn entry(&self) -> (entry: Entry) {
        reveal(Oarbreaker::table);
        assert(self.spec_entry() == self.table());
        match self {
            Oarbreaker::Barrenson => Entry { local_key: "Barrenson", display_name: "Barrenson", is_major: false, coords: (209_257_960, 581_913_050) },
            Oarbreaker::BaseAkri => Entry { local_key: "BaseAkri", display_name: "Base Akri", is_major: true, coords: (911_755_700, 512_010_630) },
            Oarbreaker::Castor => Entry { local_key: "Castor", display_name: "Castor", is_major: false, coords: (256_553_350, 503_573_000) },
            Oarbreaker::CrachWoods => Entry { local_key: "CrachWoods", display_name: "Crach Woods", is_major: false, coords: (444_732_280, 355_924_640) },
            Oarbreaker::Fogwood => Entry { local_key: "Fogwood", display_name: "Fogwood", is_major: false, coords: (720_009_150, 130_070_160) },
            Oarbreaker::Gold => Entry { local_key: "Gold", display_name: "Gold", is_major: true, coords: (497_491_420, 167_448_880) },
            Oarbreaker::GrislyRefuge => Entry { local_key: "GrislyRefuge", display_name: "Grisly Refuge", is_major: false, coords: (306_169_000, 653_200_900) },
            Oarbreaker::Integrum => Entry { local_key: "Integrum", display_name: "Integrum", is_major: true, coords: (668_688_200, 773_776_000) },
            Oarbreaker::KofteriChannel => Entry { local_key: "KofteriChannel", display_name: "Kofteri Channel", is_major: false, coords: (458_190_400, 835_068_760) },
            Oarbreaker::LionsHead => Entry { local_key: "LionsHead", display_name: "Lion's Head", is_major: true, coords: (328_359_300, 896_862_150) },
            Oarbreaker::Martius => Entry { local_key: "Martius", display_name: "Martius", is_major: false, coords: (843_507_350, 284_621_500) },
            Oarbreaker::MountMarce => Entry { local_key: "MountMarce", display_name: "Mount Marce", is_major: false, coords: (577_511_400, 312_344_640) },
            Oarbreaker::NeptunesThrone => Entry { local_key: "NeptunesThrone", display_name: "Neptune's Throne", is_major: false, coords: (601_607_260, 177_992_030) },
            Oarbreaker::Oasis => Entry { local_key: "Oasis", display_name: "Oasis", is_major: false, coords: (565_353_500, 916_719_000) },
            Oarbreaker::Obitum => Entry { local_key: "Obitum", display_name: "Obitum", is_major: false, coords: (571_722_200, 751_369_300) },
            Oarbreaker::Pollux => Entry { local_key: "Pollux", display_name: "Pollux", is_major: false, coords: (211_382_500, 513_675_900) },
            Oarbreaker::Posterus => Entry { local_key: "Posterus", display_name: "Posterus", is_major: true, coords: (794_656_340, 675_590_500) },
            Oarbreaker::Reliqua => Entry { local_key: "Reliqua", display_name: "Reliqua", is_major: true, coords: (653_668_900, 213_617_860) },
            Oarbreaker::SandalwoodBeach => Entry { local_key: "SandalwoodBeach", display_name: "Sandalwood Beach", is_major: false, coords: (513_965_600, 297_955_200) },
            Oarbreaker::SheepsHead => Entry { local_key: "SheepsHead", display_name: "Sheep's Head", is_major: false, coords: (427_007_900, 961_561_900) },
            Oarbreaker::Silver => Entry { local_key: "Silver", display_name: "Silver", is_major: false, coords: (272_853_430, 277_580_400) },
            Oarbreaker::SkelterCourse => Entry { local_key: "SkelterCourse", display_name: "Skelter Course", is_major: true, coords: (603_233_340, 425_788_850) },
            Oarbreaker::SkullBeach => Entry { local_key: "SkullBeach", display_name: "Skull Beach", is_major: false, coords: (485_921_060, 451_088_220) },
            Oarbreaker::TheConclave => Entry { local_key: "TheConclave", display_name: "The Conclave", is_major: true, coords: (510_891_850, 624_818_000) },
            Oarbreaker::TheDirk => Entry { local_key: "TheDirk", display_name: "The Dirk", is_major: false, coords: (439_344_820, 788_420_700) },
            Oarbreaker::TheEmblem => Entry { local_key: "TheEmblem", display_name: "The Emblem", is_major: false, coords: (724_887_970, 254_339_280) },
            Oarbreaker::TheIdes => Entry { local_key: "TheIdes", display_name: "The Ides", is_major: true, coords: (852_546_930, 393_142_600) },
        }
    }

    fn all() -> (all: Vec<Self>) {
        vec![
            Oarbreaker::Barrenson, Oarbreaker::BaseAkri, Oarbreaker::Castor,
            Oarbreaker::CrachWoods, Oarbreaker::Fogwood, Oarbreaker::Gold,
            Oarbreaker::GrislyRefuge, Oarbreaker::Integrum, Oarbreaker::KofteriChannel,
            Oarbreaker::LionsHead, Oarbreaker::Martius, Oarbreaker::MountMarce,
            Oarbreaker::NeptunesThrone, Oarbreaker::Oasis, Oarbreaker::Obitum,
            Oarbreaker::Pollux, Oarbreaker::Posterus, Oarbreaker::Reliqua,
            Oarbreaker::SandalwoodBeach, Oarbreaker::SheepsHead, Oarbreaker::Silver,
            Oarbreaker::SkelterCourse, Oarbreaker::SkullBeach, Oarbreaker::TheConclave,
            Oarbreaker::TheDirk, Oarbreaker::TheEmblem, Oarbreaker::TheIdes,
        ]
    }

    fn from_key(key: &str) -> (found: Option<Self>) {
        reveal(Oarbreaker::table);
        if str_eq(key, "Barrenson") {
            Some(Oarbreaker::Barrenson)
        } else if str_eq(key, "BaseAkri") {
            Some(Oarbreaker::BaseAkri)
        } else if str_eq(key, "Castor") {
            Some(Oarbreaker::Castor)
        } else if str_eq(key, "CrachWoods") {
            Some(Oarbreaker::CrachWoods)
        } else if str_eq(key, "Fogwood") {
            Some(Oarbreaker::Fogwood)
        } else if str_eq(key, "Gold") {
            Some(Oarbreaker::Gold)
        } else if str_eq(key, "GrislyRefuge") {
            Some(Oarbreaker::GrislyRefuge)
        } else if str_eq(key, "Integrum") {
            Some(Oarbreaker::Integrum)
        } else if str_eq(key, "KofteriChannel") {
            Some(Oarbreaker::KofteriChannel)
        } else if str_eq(key, "LionsHead") {
            Some(Oarbreaker::LionsHead)
        } else if str_eq(key, "Martius") {
            Some(Oarbreaker::Martius)
        } else if str_eq(key, "MountMarce") {
            Some(Oarbreaker::MountMarce)
        } else if str_eq(key, "NeptunesThrone") {
            Some(Oarbreaker::NeptunesThrone)
        } else if str_eq(key, "Oasis") {
            Some(Oarbreaker::Oasis)
        } else if str_eq(key, "Obitum") {
            Some(Oarbreaker::Obitum)
        } else if str_eq(key, "Pollux") {
            Some(Oarbreaker::Pollux)
        } else if str_eq(key, "Posterus") {
            Some(Oarbreaker::Posterus)
        } else if str_eq(key, "Reliqua") {
            Some(Oarbreaker::Reliqua)
        } else if str_eq(key, "SandalwoodBeach") {
            Some(Oarbreaker::SandalwoodBeach)
        } else if str_eq(key, "SheepsHead") {
            Some(Oarbreaker::SheepsHead)
        } else if str_eq(key, "Silver") {
            Some(Oarbreaker::Silver)
        } else if str_eq(key, "SkelterCourse") {
            Some(Oarbreaker::SkelterCourse)
        } else if str_eq(key, "SkullBeach") {
            Some(Oarbreaker::SkullBeach)
        } else if str_eq(key, "TheConclave") {
            Some(Oarbreaker::TheConclave)
        } else if str_eq(key, "TheDirk") {
            Some(Oarbreaker::TheDirk)
        } else if str_eq(key, "TheEmblem") {
            Some(Oarbreaker::TheEmblem)
        } else if str_eq(key, "TheIdes") {
            Some(Oarbreaker::TheIdes)
        } else {
            None
        }
    }

    fn on_map(self) -> (place: MapLocation) {
        MapLocation::Oarbreaker(self)
    }

    proof fn lemma_entry(l: Self) {
        reveal(Oarbreaker::table);
        reveal_with_fuel(pairs_off, 17);
        match l {
            Oarbreaker::Barrenson => {
                reveal_strlit("Barrenson");
                lemma_pairs_off("Barrenson"@, "Barrenson"@);
            },
            Oarbreaker::BaseAkri => {
                reveal_strlit("BaseAkri");
                reveal_strlit("Base Akri");
                lemma_pairs_off("Base Akri"@, "BaseAkri"@);
            },
            Oarbreaker::Castor => {
                reveal_strlit("Castor");
                lemma_pairs_off("Castor"@, "Castor"@);
            },
            Oarbreaker::CrachWoods => {
                reveal_strlit("CrachWoods");
                reveal_strlit("Crach Woods");
                lemma_pairs_off("Crach Woods"@, "CrachWoods"@);
            },
            Oarbreaker::Fogwood => {
                reveal_strlit("Fogwood");
                lemma_pairs_off("Fogwood"@, "Fogwood"@);
            },
            Oarbreaker::Gold => {
                reveal_strlit("Gold");
                lemma_pairs_off("Gold"@, "Gold"@);
            },
            Oarbreaker::GrislyRefuge => {
                reveal_strlit("GrislyRefuge");
                reveal_strlit("Grisly Refuge");
                lemma_pairs_off("Grisly Refuge"@, "GrislyRefuge"@);
            },
            Oarbreaker::Integrum => {
                reveal_strlit("Integrum");
                lemma_pairs_off("Integrum"@, "Integrum"@);
            },
            Oarbreaker::KofteriChannel => {
                reveal_strlit("KofteriChannel");
                reveal_strlit("Kofteri Channel");
                lemma_pairs_off("Kofteri Channel"@, "KofteriChannel"@);
            },
            Oarbreaker::LionsHead => {
                reveal_strlit("LionsHead");
                reveal_strlit("Lion's Head");
                lemma_pairs_off("Lion's Head"@, "LionsHead"@);
            },
            Oarbreaker::Martius => {
                reveal_strlit("Martius");
                lemma_pairs_off("Martius"@, "Martius"@);
            },
            Oarbreaker::MountMarce => {
                reveal_strlit("MountMarce");
                reveal_strlit("Mount Marce");
                lemma_pairs_off("Mount Marce"@, "MountMarce"@);
            },
            Oarbreaker::NeptunesThrone => {
                reveal_strlit("NeptunesThrone");
                reveal_strlit("Neptune's Throne");
                lemma_pairs_off("Neptune's Throne"@, "NeptunesThrone"@);
            },
            Oarbreaker::Oasis => {
                reveal_strlit("Oasis");
                lemma_pairs_off("Oasis"@, "Oasis"@);
            },
            Oarbreaker::Obitum => {
                reveal_strlit("Obitum");
                lemma_pairs_off("Obitum"@, "Obitum"@);
            },
            Oarbreaker::Pollux => {
                reveal_strlit("Pollux");
                lemma_pairs_off("Pollux"@, "Pollux"@);
            },
            Oarbreaker::Posterus => {
                reveal_strlit("Posterus");
                lemma_pairs_off("Posterus"@, "Posterus"@);
            },
            Oarbreaker::Reliqua => {
                reveal_strlit("Reliqua");
                lemma_pairs_off("Reliqua"@, "Reliqua"@);
            },
            Oarbreaker::SandalwoodBeach => {
                reveal_strlit("SandalwoodBeach");
                reveal_strlit("Sandalwood Beach");
                lemma_pairs_off("Sandalwood Beach"@, "SandalwoodBeach"@);
            },
            Oarbreaker::SheepsHead => {
                reveal_strlit("SheepsHead");
                reveal_strlit("Sheep's Head");
                lemma_pairs_off("Sheep's Head"@, "SheepsHead"@);
            },
            Oarbreaker::Silver => {
                reveal_strlit("Silver");
                lemma_pairs_off("Silver"@, "Silver"@);
            },
            Oarbreaker::SkelterCourse => {
                reveal_strlit("SkelterCourse");
                reveal_strlit("Skelter Course");
                lemma_pairs_off("Skelter Course"@, "SkelterCourse"@);
            },
            Oarbreaker::SkullBeach => {
                reveal_strlit("SkullBeach");
                reveal_strlit("Skull Beach");
                lemma_pairs_off("Skull Beach"@, "SkullBeach"@);
            },
            Oarbreaker::TheConclave => {
                reveal_strlit("TheConclave");
                reveal_strlit("The Conclave");
                lemma_pairs_off("The Conclave"@, "TheConclave"@);
            },
            Oarbreaker::TheDirk => {
                reveal_strlit("TheDirk");
                reveal_strlit("The Dirk");
                lemma_pairs_off("The Dirk"@, "TheDirk"@);
            },
            Oarbreaker::TheEmblem => {
                reveal_strlit("TheEmblem");
                reveal_strlit("The Emblem");
                lemma_pairs_off("The Emblem"@, "TheEmblem"@);
            },
            Oarbreaker::TheIdes => {
                reveal_strlit("TheIdes");
                reveal_strlit("The Ides");
                lemma_pairs_off("The Ides"@, "TheIdes"@);
            },
        }
    }

    proof fn lemma_keys_distinct(a: Self, b: Self) {
        reveal(Oarbreaker::table);
        reveal_strlit("Barrenson");
        reveal_strlit("BaseAkri");
        reveal_strlit("Castor");
        reveal_strlit("CrachWoods");
        reveal_strlit("Fogwood");
        reveal_strlit("Gold");
        reveal_strlit("GrislyRefuge");
        reveal_strlit("Integrum");
        reveal_strlit("KofteriChannel");
        reveal_strlit("LionsHead");
        reveal_strlit("Martius");
        reveal_strlit("MountMarce");
        reveal_strlit("NeptunesThrone");
        reveal_strlit("Oasis");
        reveal_strlit("Obitum");
        reveal_strlit("Pollux");
        reveal_strlit("Posterus");
        reveal_strlit("Reliqua");
        reveal_strlit("SandalwoodBeach");
        reveal_strlit("SheepsHead");
        reveal_strlit("Silver");
        reveal_strlit("SkelterCourse");
        reveal_strlit("SkullBeach");
        reveal_strlit("TheConclave");
        reveal_strlit("TheDirk");
        reveal_strlit("TheEmblem");
        reveal_strlit("TheIdes");
        // Two equal keys agree in length and in every character; no two
        // keys of the table do.
        let x = a.table().local_key@;
        let y = b.table().local_key@;
        assert(x.len() == y.len());
        assert(x[0] == y[0]);
        assert(x[1] == y[1]);
        assert(x[2] == y[2]);
        assert(x[3] == y[3]);
        assert(x[4] == y[4]);
        assert(x[5] == y[5]);
        assert(x[6] == y[6]);
        assert(x[7] == y[7]);
        assert(x[8] == y[8]);
        assert(x[9] == y[9]);
        assert(x[10] == y[10]);
        assert(x[11] == y[11]);
        assert(x[12] == y[12]);
        assert(x[13] == y[13]);
        assert(x[14] == y[14]);
        match a {
            Oarbreaker::Barrenson => assert(b is Barrenson),
            Oarbreaker::BaseAkri => assert(b is BaseAkri),
            Oarbreaker::Castor => assert(b is Castor),
            Oarbreaker::CrachWoods => assert(b is CrachWoods),
            Oarbreaker::Fogwood => assert(b is Fogwood),
            Oarbreaker::Gold => assert(b is Gold),
            Oarbreaker::GrislyRefuge => assert(b is GrislyRefuge),
            Oarbreaker::Integrum => assert(b is Integrum),
            Oarbreaker::KofteriChannel => assert(b is KofteriChannel),
            Oarbreaker::LionsHead => assert(b is LionsHead),
            Oarbreaker::Martius => assert(b is Martius),
            Oarbreaker::MountMarce => assert(b is MountMarce),
            Oarbreaker::NeptunesThrone => assert(b is NeptunesThrone),
            Oarbreaker::Oasis => assert(b is Oasis),
            Oarbreaker::Obitum => assert(b is Obitum),
            Oarbreaker::Pollux => assert(b is Pollux),
            Oarbreaker::Posterus => assert(b is Posterus),
            Oarbreaker::Reliqua => assert(b is Reliqua),
            Oarbreaker::SandalwoodBeach => assert(b is SandalwoodBeach),
            Oarbreaker::SheepsHead => assert(b is SheepsHead),
            Oarbreaker::Silver => assert(b is Silver),
            Oarbreaker::SkelterCourse => assert(b is SkelterCourse),
            Oarbreaker::SkullBeach => assert(b is SkullBeach),
            Oarbreaker::TheConclave => assert(b is TheConclave),
            Oarbreaker::TheDirk => assert(b is TheDirk),
            Oarbreaker::TheEmblem => assert(b is TheEmblem),
            Oarbreaker::TheIdes => assert(b is TheIdes),
        }
    }

    proof fn lemma_all(l: Self) {
        reveal_with_fuel(position, 28);
        reveal_with_fuel(each_first, 28);
        lemma_found(Self::spec_all(), l);
        lemma_no_duplicates(Self::spec_all());
    }

    proof fn lemma_on_map(place: MapLocation) {
        if let MapLocation::Oarbreaker(l) = place {
            assert(l.spec_on_map() == place);
        }
    }
}

} // verus!
