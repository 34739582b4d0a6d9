//! The locations of the Godcrofts region.

use crate::map::location::Entry;
use crate::map::region::Region;
use crate::map::regional::Regional;
use crate::map::seqs::{each_first, lemma_found, lemma_no_duplicates, position};
use crate::map::MapLocation;
use crate::text::{lemma_pairs_off, lemma_pairs_off_marked, pairs_off, pairs_off_marked, str_eq};
use vstd::prelude::*;

verus! {

/// Specific map details for the `GodcroftsHex` tile.
#[derive(Clone, Copy, Debug, PartialEq, Eq)]
pub enum Godcrofts {
    /// Anchor Beach is a major location
    AnchorBeach,
    /// Argosa is a minor location
    Argosa,
    /// Bagh M??r is a minor location
    BaghMr,
    /// Barreller's Bay is a minor location
    BarrellersBay,
    /// Blackwatch is a major location
    Blackwatch,
    /// Chamil Ravine is a minor location
    ChamilRavine,
    /// Den of Thieves is a minor location
    DenofThieves,
    /// Exile is a minor location
    Exile,
    /// Isawa is a major location
    Isawa,
    /// Kolas is a minor location
    Kolas,
    /// Lipsia is a minor location
    Lipsia,
    /// Peripti Depths is a minor location
    PeriptiDepths,
    /// Perpetua Channel is a minor location
    PerpetuaChannel,
    /// Primus Trames is a minor location
    PrimusTrames,
    /// Promithiens is a major location
    Promithiens,
    /// Protos is a major location
    Protos,
    /// Saegio is a minor location
    Saegio,
    /// Skodio is a major location
    Skodio,
    /// The Axehead is a major location
    TheAxehead,
    /// The Dice Road is a minor location
    TheDiceRoad,
    /// The Fleece Road is a major location
    TheFleeceRoad,
    /// The Kris Ford is a minor location
    TheKrisFord,
    /// Ursa Trail is a minor location
    UrsaTrail,
    /// Vicit Lagoon is a minor location
    VicitLagoon,
}

impl Godcrofts {
    /// The table of the region: the catalogue's entry for each location.
    /// Hidden from the verifier until revealed.
    #[verifier::opaque]
    pub open spec fn table(self) -> Entry {
        match self {
            Godcrofts::AnchorBeach => Entry { local_key: "AnchorBeach", display_name: "Anchor Beach", is_major: true, coords: (338_793_370, 919_074_950) },
            Godcrofts::Argosa => Entry { local_key: "Argosa", display_name: "Argosa", is_major: false, coords: (445_535_900, 462_921_400) },
            Godcrofts::BaghMr => Entry { local_key: "BaghM??r", display_name: "Bagh M??r", is_major: false, coords: (457_547_520, 838_456_300) },
            Godcrofts::BarrellersBay => Entry { local_key: "BarrellersBay", display_name: "Barreller's Bay", is_major: false, coords: (658_789_750, 459_349_070) },
            Godcrofts::Blackwatch => Entry { local_key: "Blackwatch", display_name: "Blackwatch", is_major: true, coords: (341_507_400, 799_108_800) },
            Godcrofts::ChamilRavine => Entry { local_key: "ChamilRavine", display_name: "Chamil Ravine", is_major: false, coords: (473_952_470, 303_613_750) },
            Godcrofts::DenofThieves => Entry { local_key: "DenofThieves", display_name: "Den of Thieves", is_major: false, coords: (322_195_800, 639_763_830) },
            Godcrofts::Exile => Entry { local_key: "Exile", display_name: "Exile", is_major: false, coords: (413_363_960, 641_817_200) },
            Godcrofts::Isawa => Entry { local_key: "Isawa", display_name: "Isawa", is_major: true, coords: (621_364_360, 808_118_460) },
            Godcrofts::Kolas => Entry { local_key: "Kolas", display_name: "Kolas", is_major: false, coords: (152_795_900, 646_799_150) },
            Godcrofts::Lipsia => Entry { local_key: "Lipsia", display_name: "Lipsia", is_major: false, coords: (458_920_270, 213_903_410) },
            Godcrofts::PeriptiDepths => Entry { local_key: "PeriptiDepths", display_name: "Peripti Depths", is_major: false, coords: (260_734_620, 751_511_160) },
            Godcrofts::PerpetuaChannel => Entry { local_key: "PerpetuaChannel", display_name: "Perpetua Channel", is_major: false, coords: (111_557_920, 344_587_950) },
            Godcrofts::PrimusTrames => Entry { local_key: "PrimusTrames", display_name: "Primus Trames", is_major: false, coords: (321_166_000, 472_230_580) },
            Godcrofts::Promithiens => Entry { local_key: "Promithiens", display_name: "Promithiens", is_major: true, coords: (541_576_000, 636_485_600) },
            Godcrofts::Protos => Entry { local_key: "Protos", display_name: "Protos", is_major: true, coords: (170_390_900, 503_078_600) },
            Godcrofts::Saegio => Entry { local_key: "Saegio", display_name: "Saegio", is_major: false, coords: (456_837_500, 429_206_880) },
            Godcrofts::Skodio => Entry { local_key: "Skodio", display_name: "Skodio", is_major: true, coords: (593_320_400, 247_778_090) },
            Godcrofts::TheAxehead => Entry { local_key: "TheAxehead", display_name: "The Axehead", is_major: true, coords: (241_779_850, 333_010_170) },
            Godcrofts::TheDiceRoad => Entry { local_key: "TheDiceRoad", display_name: "The Dice Road", is_major: false, coords: (563_027_100, 335_215_960) },
            Godcrofts::TheFleeceRoad => Entry { local_key: "TheFleeceRoad", display_name: "The Fleece Road", is_major: true, coords: (661_538_500, 898_166_700) },
            Godcrofts::TheKrisFord => Entry { local_key: "TheKrisFord", display_name: "The Kris Ford", is_major: false, coords: (595_640_600, 726_092_460) },
            Godcrofts::UrsaTrail => Entry { local_key: "UrsaTrail", display_name: "Ursa Trail", is_major: false, coords: (587_714_300, 940_257_850) },
            Godcrofts::VicitLagoon => Entry { local_key: "VicitLagoon", display_name: "Vicit Lagoon", is_major: false, coords: (334_761_770, 366_371_420) },
        }
    }
}

impl Regional for Godcrofts {
    open spec fn spec_region() -> Region {
        Region::Godcrofts
    }

    open spec fn spec_entry(&self) -> Entry {
        self.table()
    }

    open spec fn spec_marked(&self) -> bool {
        *self == Godcrofts::BaghMr
    }

    open spec fn spec_all() -> Seq<Self> {
        seq![
            Godcrofts::AnchorBeach, Godcrofts::Argosa, Godcrofts::BaghMr,
            Godcrofts::BarrellersBay, Godcrofts::Blackwatch, Godcrofts::ChamilRavine,
            Godcrofts::DenofThieves, Godcrofts::Exile, Godcrofts::Isawa, Godcrofts::Kolas,
            Godcrofts::Lipsia, Godcrofts::PeriptiDepths, Godcrofts::PerpetuaChannel,
            Godcrofts::PrimusTrames, Godcrofts::Promithiens, Godcrofts::Protos,
            Godcrofts::Saegio, Godcrofts::Skodio, Godcrofts::TheAxehead, Godcrofts::TheDiceRoad,
            Godcrofts::TheFleeceRoad, Godcrofts::TheKrisFord, Godcrofts::UrsaTrail,
            Godcrofts::VicitLagoon,
        ]
    }

    open spec fn spec_on_map(self) -> MapLocation {
        MapLocation::Godcrofts(self)
    }

    fn region() -> (region: Region) {
        Region::Godcrofts
    }

    fn entry(&self) -> (entry: Entry) {
        reveal(Godcrofts::table);
        assert(self.spec_entry() == self.table());
        match self {
            Godcrofts::AnchorBeach => Entry { local_key: "AnchorBeach", display_name: "Anchor Beach", is_major: true, coords: (338_793_370, 919_074_950) },
            Godcrofts::Argosa => Entry { local_key: "Argosa", display_name: "Argosa", is_major: false, coords: (445_535_900, 462_921_400) },
            Godcrofts::BaghMr => Entry { local_key: "BaghM??r", display_name: "Bagh M??r", is_major: false, coords: (457_547_520, 838_456_300) },
            Godcrofts::BarrellersBay => Entry { local_key: "BarrellersBay", display_name: "Barreller's Bay", is_major: false, coords: (658_789_750, 459_349_070) },
            Godcrofts::Blackwatch => Entry { local_key: "Blackwatch", display_name: "Blackwatch", is_major: true, coords: (341_507_400, 799_108_800) },
            Godcrofts::ChamilRavine => Entry { local_key: "ChamilRavine", display_name: "Chamil Ravine", is_major: false, coords: (473_952_470, 303_613_750) },
            Godcrofts::DenofThieves => Entry { local_key: "DenofThieves", display_name: "Den of Thieves", is_major: false, coords: (322_195_800, 639_763_830) },
            Godcrofts::Exile => Entry { local_key: "Exile", display_name: "Exile", is_major: false, coords: (413_363_960, 641_817_200) },
            Godcrofts::Isawa => Entry { local_key: "Isawa", display_name: "Isawa", is_major: true, coords: (621_364_360, 808_118_460) },
            Godcrofts::Kolas => Entry { local_key: "Kolas", display_name: "Kolas", is_major: false, coords: (152_795_900, 646_799_150) },
            Godcrofts::Lipsia => Entry { local_key: "Lipsia", display_name: "Lipsia", is_major: false, coords: (458_920_270, 213_903_410) },
            Godcrofts::PeriptiDepths => Entry { local_key: "PeriptiDepths", display_name: "Peripti Depths", is_major: false, coords: (260_734_620, 751_511_160) },
            Godcrofts::PerpetuaChannel => Entry { local_key: "PerpetuaChannel", display_name: "Perpetua Channel", is_major: false, coords: (111_557_920, 344_587_950) },
            Godcrofts::PrimusTrames => Entry { local_key: "PrimusTrames", display_name: "Primus Trames", is_major: false, coords: (321_166_000, 472_230_580) },
            Godcrofts::Promithiens => Entry { local_key: "Promithiens", display_name: "Promithiens", is_major: true, coords: (541_576_000, 636_485_600) },
            Godcrofts::Protos => Entry { local_key: "Protos", display_name: "Protos", is_major: true, coords: (170_390_900, 503_078_600) },
            Godcrofts::Saegio => Entry { local_key: "Saegio", display_name: "Saegio", is_major: false, coords: (456_837_500, 429_206_880) },
            Godcrofts::Skodio => Entry { local_key: "Skodio", display_name: "Skodio", is_major: true, coords: (593_320_400, 247_778_090) },
            Godcrofts::TheAxehead => Entry { local_key: "TheAxehead", display_name: "The Axehead", is_major: true, coords: (241_779_850, 333_010_170) },
            Godcrofts::TheDiceRoad => Entry { local_key: "TheDiceRoad", display_name: "The Dice Road", is_major: false, coords: (563_027_100, 335_215_960) },
            Godcrofts::TheFleeceRoad => Entry { local_key: "TheFleeceRoad", display_name: "The Fleece Road", is_major: true, coords: (661_538_500, 898_166_700) },
            Godcrofts::TheKrisFord => Entry { local_key: "TheKrisFord", display_name: "The Kris Ford", is_major: false, coords: (595_640_600, 726_092_460) },
            Godcrofts::UrsaTrail => Entry { local_key: "UrsaTrail", display_name: "Ursa Trail", is_major: false, coords: (587_714_300, 940_257_850) },
            Godcrofts::VicitLagoon => Entry { local_key: "VicitLagoon", display_name: "Vicit Lagoon", is_major: false, coords: (334_761_770, 366_371_420) },
        }
    }

    fn all() -> (all: Vec<Self>) {
        vec![
            Godcrofts::AnchorBeach, Godcrofts::Argosa, Godcrofts::BaghMr,
            Godcrofts::BarrellersBay, Godcrofts::Blackwatch, Godcrofts::ChamilRavine,
            Godcrofts::DenofThieves, Godcrofts::Exile, Godcrofts::Isawa, Godcrofts::Kolas,
            Godcrofts::Lipsia, Godcrofts::PeriptiDepths, Godcrofts::PerpetuaChannel,
            Godcrofts::PrimusTrames, Godcrofts::Promithiens, Godcrofts::Protos,
            Godcrofts::Saegio, Godcrofts::Skodio, Godcrofts::TheAxehead, Godcrofts::TheDiceRoad,
            Godcrofts::TheFleeceRoad, Godcrofts::TheKrisFord, Godcrofts::UrsaTrail,
            Godcrofts::VicitLagoon,
        ]
    }

    fn from_key(key: &str) -> (found: Option<Self>) {
        reveal(Godcrofts::table);
        if str_eq(key, "AnchorBeach") {
            Some(Godcrofts::AnchorBeach)
        } else if str_eq(key, "Argosa") {
            Some(Godcrofts::Argosa)
        } else if str_eq(key, "BaghM??r") {
            Some(Godcrofts::BaghMr)
        } else if str_eq(key, "BarrellersBay") {
            Some(Godcrofts::BarrellersBay)
        } else if str_eq(key, "Blackwatch") {
            Some(Godcrofts::Blackwatch)
        } else if str_eq(key, "ChamilRavine") {
            Some(Godcrofts::ChamilRavine)
        } else if str_eq(key, "DenofThieves") {
            Some(Godcrofts::DenofThieves)
        } else if str_eq(key, "Exile") {
            Some(Godcrofts::Exile)
        } else if str_eq(key, "Isawa") {
            Some(Godcrofts::Isawa)
        } else if str_eq(key, "Kolas") {
            Some(Godcrofts::Kolas)
        } else if str_eq(key, "Lipsia") {
            Some(Godcrofts::Lipsia)
        } else if str_eq(key, "PeriptiDepths") {
            Some(Godcrofts::PeriptiDepths)
        } else if str_eq(key, "PerpetuaChannel") {
            Some(Godcrofts::PerpetuaChannel)
        } else if str_eq(key, "PrimusTrames") {
            Some(Godcrofts::PrimusTrames)
        } else if str_eq(key, "Promithiens") {
            Some(Godcrofts::Promithiens)
        } else if str_eq(key, "Protos") {
            Some(Godcrofts::Protos)
        } else if str_eq(key, "Saegio") {
            Some(Godcrofts::Saegio)
        } else if str_eq(key, "Skodio") {
            Some(Godcrofts::Skodio)
        } else if str_eq(key, "TheAxehead") {
            Some(Godcrofts::TheAxehead)
        } else if str_eq(key, "TheDiceRoad") {
            Some(Godcrofts::TheDiceRoad)
        } else if str_eq(key, "TheFleeceRoad") {
            Some(Godcrofts::TheFleeceRoad)
        } else if str_eq(key, "TheKrisFord") {
            Some(Godcrofts::TheKrisFord)
        } else if str_eq(key, "UrsaTrail") {
            Some(Godcrofts::UrsaTrail)
        } else if str_eq(key, "VicitLagoon") {
            Some(Godcrofts::VicitLagoon)
        } else {
            None
        }
    }

    fn on_map(self) -> (place: MapLocation) {
        MapLocation::Godcrofts(self)
    }

    proof fn lemma_entry(l: Self) {
        reveal(Godcrofts::table);
        reveal_with_fuel(pairs_off, 17);
        reveal_with_fuel(pairs_off_marked, 18);
        match l {
            Godcrofts::AnchorBeach => {
                reveal_strlit("AnchorBeach");
                reveal_strlit("Anchor Beach");
                lemma_pairs_off("Anchor Beach"@, "AnchorBeach"@);
            },
            Godcrofts::Argosa => {
                reveal_strlit("Argosa");
                lemma_pairs_off("Argosa"@, "Argosa"@);
            },
            Godcrofts::BaghMr => {
                reveal_strlit("BaghM??r");
                reveal_strlit("Bagh M??r");
                lemma_pairs_off_marked("Bagh M??r"@, "BaghM??r"@);
                assert("BaghM??r"@[5] == '?');
            },
            Godcrofts::BarrellersBay => {
                reveal_strlit("BarrellersBay");
                reveal_strlit("Barreller's Bay");
                lemma_pairs_off("Barreller's Bay"@, "BarrellersBay"@);
            },
            Godcrofts::Blackwatch => {
                reveal_strlit("Blackwatch");
                lemma_pairs_off("Blackwatch"@, "Blackwatch"@);
            },
            Godcrofts::ChamilRavine => {
                reveal_strlit("ChamilRavine");
                reveal_strlit("Chamil Ravine");
                lemma_pairs_off("Chamil Ravine"@, "ChamilRavine"@);
            },
            Godcrofts::DenofThieves => {
                reveal_strlit("DenofThieves");
                reveal_strlit("Den of Thieves");
                lemma_pairs_off("Den of Thieves"@, "DenofThieves"@);
            },
            Godcrofts::Exile => {
                reveal_strlit("Exile");
                lemma_pairs_off("Exile"@, "Exile"@);
            },
            Godcrofts::Isawa => {
                reveal_strlit("Isawa");
                lemma_pairs_off("Isawa"@, "Isawa"@);
            },
            Godcrofts::Kolas => {
                reveal_strlit("Kolas");
                lemma_pairs_off("Kolas"@, "Kolas"@);
            },
            Godcrofts::Lipsia => {
                reveal_strlit("Lipsia");
                lemma_pairs_off("Lipsia"@, "Lipsia"@);
            },
            Godcrofts::PeriptiDepths => {
                reveal_strlit("PeriptiDepths");
                reveal_strlit("Peripti Depths");
                lemma_pairs_off("Peripti Depths"@, "PeriptiDepths"@);
            },
            Godcrofts::PerpetuaChannel => {
                reveal_strlit("PerpetuaChannel");
                reveal_strlit("Perpetua Channel");
                lemma_pairs_off("Perpetua Channel"@, "PerpetuaChannel"@);
            },
            Godcrofts::PrimusTrames => {
                reveal_strlit("PrimusTrames");
                reveal_strlit("Primus Trames");
                lemma_pairs_off("Primus Trames"@, "PrimusTrames"@);
            },
            Godcrofts::Promithiens => {
                reveal_strlit("Promithiens");
                lemma_pairs_off("Promithiens"@, "Promithiens"@);
            },
            Godcrofts::Protos => {
                reveal_strlit("Protos");
                lemma_pairs_off("Protos"@, "Protos"@);
            },
            Godcrofts::Saegio => {
                reveal_strlit("Saegio");
                lemma_pairs_off("Saegio"@, "Saegio"@);
            },
            Godcrofts::Skodio => {
                reveal_strlit("Skodio");
                lemma_pairs_off("Skodio"@, "Skodio"@);
            },
            Godcrofts::TheAxehead => {
                reveal_strlit("TheAxehead");
                reveal_strlit("The Axehead");
                lemma_pairs_off("The Axehead"@, "TheAxehead"@);
            },
            Godcrofts::TheDiceRoad => {
                reveal_strlit("TheDiceRoad");
                reveal_strlit("The Dice Road");
                lemma_pairs_off("The Dice Road"@, "TheDiceRoad"@);
            },
            Godcrofts::TheFleeceRoad => {
                reveal_strlit("TheFleeceRoad");
                reveal_strlit("The Fleece Road");
                lemma_pairs_off("The Fleece Road"@, "TheFleeceRoad"@);
            },
            Godcrofts::TheKrisFord => {
                reveal_strlit("TheKrisFord");
                reveal_strlit("The Kris Ford");
                lemma_pairs_off("The Kris Ford"@, "TheKrisFord"@);
            },
            Godcrofts::UrsaTrail => {
                reveal_strlit("UrsaTrail");
                reveal_strlit("Ursa Trail");
                lemma_pairs_off("Ursa Trail"@, "UrsaTrail"@);
            },
            Godcrofts::VicitLagoon => {
                reveal_strlit("VicitLagoon");
                reveal_strlit("Vicit Lagoon");
                lemma_pairs_off("Vicit Lagoon"@, "VicitLagoon"@);
            },
        }
    }

    proof fn lemma_keys_distinct(a: Self, b: Self) {
        reveal(Godcrofts::table);
        reveal_strlit("AnchorBeach");
        reveal_strlit("Argosa");
        reveal_strlit("BaghM??r");
        reveal_strlit("BarrellersBay");
        reveal_strlit("Blackwatch");
        reveal_strlit("ChamilRavine");
        reveal_strlit("DenofThieves");
        reveal_strlit("Exile");
        reveal_strlit("Isawa");
        reveal_strlit("Kolas");
        reveal_strlit("Lipsia");
        reveal_strlit("PeriptiDepths");
        reveal_strlit("PerpetuaChannel");
        reveal_strlit("PrimusTrames");
        reveal_strlit("Promithiens");
        reveal_strlit("Protos");
        reveal_strlit("Saegio");
        reveal_strlit("Skodio");
        reveal_strlit("TheAxehead");
        reveal_strlit("TheDiceRoad");
        reveal_strlit("TheFleeceRoad");
        reveal_strlit("TheKrisFord");
        reveal_strlit("UrsaTrail");
        reveal_strlit("VicitLagoon");
        // Two equal keys agree in length and in every character; no two
        // keys of the table do.
        let x = a.table().local_key@;
        let y = b.table().local_key@;
        assert(x.len() == y.len());
        assert(x[0] == y[0]);
        assert(x[1] == y[1]);
        assert(x[2] == y[2]);
        assert(x[3] == y[3]);
        assert(x[4] == y[4]);
        assert(x[5] == y[5]);
        assert(x[6] == y[6]);
        assert(x[7] == y[7]);
        assert(x[8] == y[8]);
        assert(x[9] == y[9]);
        assert(x[10] == y[10]);
        assert(x[11] == y[11]);
        assert(x[12] == y[12]);
        assert(x[13] == y[13]);
        assert(x[14] == y[14]);
        match a {
            Godcrofts::AnchorBeach => assert(b is AnchorBeach),
            Godcrofts::Argosa => assert(b is Argosa),
            Godcrofts::BaghMr => assert(b is BaghMr),
            Godcrofts::BarrellersBay => assert(b is BarrellersBay),
            Godcrofts::Blackwatch => assert(b is Blackwatch),
            Godcrofts::ChamilRavine => assert(b is ChamilRavine),
            Godcrofts::DenofThieves => assert(b is DenofThieves),
            Godcrofts::Exile => assert(b is Exile),
            Godcrofts::Isawa => assert(b is Isawa),
            Godcrofts::Kolas => assert(b is Kolas),
            Godcrofts::Lipsia => assert(b is Lipsia),
            Godcrofts::PeriptiDepths => assert(b is PeriptiDepths),
            Godcrofts::PerpetuaChannel => assert(b is PerpetuaChannel),
            Godcrofts::PrimusTrames => assert(b is PrimusTrames),
            Godcrofts::Promithiens => assert(b is Promithiens),
            Godcrofts::Protos => assert(b is Protos),
            Godcrofts::Saegio => assert(b is Saegio),
            Godcrofts::Skodio => assert(b is Skodio),
            Godcrofts::TheAxehead => assert(b is TheAxehead),
            Godcrofts::TheDiceRoad => assert(b is TheDiceRoad),
            Godcrofts::TheFleeceRoad => assert(b is TheFleeceRoad),
            Godcrofts::TheKrisFord => assert(b is TheKrisFord),
            Godcrofts::UrsaTrail => assert(b is UrsaTrail),
            Godcrofts::VicitLagoon => assert(b is VicitLagoon),
        }
    }

    proof fn lemma_all(l: Self) {
        reveal_with_fuel(position, 25);
        reveal_with_fuel(each_first, 25);
        lemma_found(Self::spec_all(), l);
        lemma_no_duplicates(Self::spec_all());
    }

    proof fn lemma_on_map(place: MapLocation) {
        if let MapLocation::Godcrofts(l) = place {
            assert(l.spec_on_map() == place);
        }
    }
}

} // verus!
