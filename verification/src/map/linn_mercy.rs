//! The locations of the LinnMercy region.

use crate::map::location::Entry;
use crate::map::region::Region;
use crate::map::regional::Regional;
use crate::map::seqs::{each_first, lemma_found, lemma_no_duplicates, position};
use crate::map::MapLocation;
use crate::text::{lemma_pairs_off, pairs_off, str_eq};
use vstd::prelude::*;

verus! {

/// Specific map details for the `LinnMercyHex` tile.
#[derive(Clone, Copy, Debug, PartialEq, Eq)]
pub enum LinnMercy {
    /// Blackroad is a minor location
    Blackroad,
    /// Fort Duncan is a major location
    FortDuncan,
    /// Gallant Gough Boulevard is a minor location
    GallantGoughBoulevard,
    /// Hardline is a major location
    Hardline,
    /// Lathair is a major location
    Lathair,
    /// Merciful Strait is a minor location
    MercifulStrait,
    /// Mudhole is a minor location
    Mudhole,
    /// Nathair is a minor location
    Nathair,
    /// Outwich Ranch is a major location
    OutwichRanch,
    /// Rotdust is a major location
    Rotdust,
    /// Solas Burn is a minor location
    SolasBurn,
    /// The Crimson Gardens is a major location
    TheCrimsonGardens,
    /// The Drone is a minor location
    TheDrone,
    /// The First Coin is a major location
    TheFirstCoin,
    /// The Great Scale is a minor location
    TheGreatScale,
    /// The Last Grove is a major location
    TheLastGrove,
    /// The Long Whine is a major location
    TheLongWhine,
    /// The Prairie Bazaar is a major location
    ThePrairieBazaar,
    /// The River Mercy is a minor location
    TheRiverMercy,
    /// Ulster Falls is a major location
    UlsterFalls,
}

impl LinnMercy {
    /// The table of the region: the catalogue's entry for each location.
    /// Hidden from the verifier until revealed.
    #[verifier::opaque]
    pub open spec fn table(self) -> Entry {
        match self {
            LinnMercy::Blackroad => Entry { local_key: "Blackroad", display_name: "Blackroad", is_major: false, coords: (465_166_540, 164_749_150) },
            LinnMercy::FortDuncan => Entry { local_key: "FortDuncan", display_name: "Fort Duncan", is_major: true, coords: (736_736_660, 766_062_400) },
            LinnMercy::GallantGoughBoulevard => Entry { local_key: "GallantGoughBoulevard", display_name: "Gallant Gough Boulevard", is_major: false, coords: (98_206_850, 430_219_950) },
            LinnMercy::Hardline => Entry { local_key: "Hardline", display_name: "Hardline", is_major: true, coords: (359_914_660, 588_793_750) },
            LinnMercy::Lathair => Entry { local_key: "Lathair", display_name: "Lathair", is_major: true, coords: (725_896_100, 311_908_200) },
            LinnMercy::MercifulStrait => Entry { local_key: "MercifulStrait", display_name: "Merciful Strait", is_major: false, coords: (841_928_200, 675_302_450) },
            LinnMercy::Mudhole => Entry { local_key: "Mudhole", display_name: "Mudhole", is_major: false, coords: (570_014_200, 302_388_220) },
            LinnMercy::Nathair => Entry { local_key: "Nathair", display_name: "Nathair", is_major: false, coords: (593_858_700, 413_466_930) },
            LinnMercy::OutwichRanch => Entry { local_key: "OutwichRanch", display_name: "Outwich Ranch", is_major: true, coords: (837_012_600, 486_812_600) },
            LinnMercy::Rotdust => Entry { local_key: "Rotdust", display_name: "Rotdust", is_major: true, coords: (585_684_100, 151_788_740) },
            LinnMercy::SolasBurn => Entry { local_key: "SolasBurn", display_name: "Solas Burn", is_major: false, coords: (730_954_230, 225_412_590) },
            LinnMercy::TheCrimsonGardens => Entry { local_key: "TheCrimsonGardens", display_name: "The Crimson Gardens", is_major: true, coords: (229_585_690, 628_411_230) },
            LinnMercy::TheDrone => Entry { local_key: "TheDrone", display_name: "The Drone", is_major: false, coords: (193_576_440, 222_618_610) },
            LinnMercy::TheFirstCoin => Entry { local_key: "TheFirstCoin", display_name: "The First Coin", is_major: true, coords: (408_409_030, 718_450_800) },
            LinnMercy::TheGreatScale => Entry { local_key: "TheGreatScale", display_name: "The Great Scale", is_major: false, coords: (411_132_100, 290_847_630) },
            LinnMercy::TheLastGrove => Entry { local_key: "TheLastGrove", display_name: "The Last Grove", is_major: true, coords: (382_688_160, 884_589_400) },
            LinnMercy::TheLongWhine => Entry { local_key: "TheLongWhine", display_name: "The Long Whine", is_major: true, coords: (357_835_020, 209_964_000) },
            LinnMercy::ThePrairieBazaar => Entry { local_key: "ThePrairieBazaar", display_name: "The Prairie Bazaar", is_major: true, coords: (614_323_200, 740_400_800) },
            LinnMercy::TheRiverMercy => Entry { local_key: "TheRiverMercy", display_name: "The River Mercy", is_major: false, coords: (641_595_540, 617_484_100) },
            LinnMercy::UlsterFalls => Entry { local_key: "UlsterFalls", display_name: "Ulster Falls", is_major: true, coords: (464_109_570, 450_227_470) },
        }
    }
}

impl Regional for LinnMercy {
    open spec fn spec_region() -> Region {
        Region::LinnMercy
    }

    open spec fn spec_entry(&self) -> Entry {
        self.table()
    }

    open spec fn spec_marked(&self) -> bool {
        false
    }

    open spec fn spec_all() -> Seq<Self> {
        seq![
            LinnMercy::Blackroad, LinnMercy::FortDuncan, LinnMercy::GallantGoughBoulevard,
            LinnMercy::Hardline, LinnMercy::Lathair, LinnMercy::MercifulStrait,
            LinnMercy::Mudhole, LinnMercy::Nathair, LinnMercy::OutwichRanch, LinnMercy::Rotdust,
            LinnMercy::SolasBurn, LinnMercy::TheCrimsonGardens, LinnMercy::TheDrone,
            LinnMercy::TheFirstCoin, LinnMercy::TheGreatScale, LinnMercy::TheLastGrove,
            LinnMercy::TheLongWhine, LinnMercy::ThePrairieBazaar, LinnMercy::TheRiverMercy,
            LinnMercy::UlsterFalls,
        ]
    }

    open spec fn spec_on_map(self) -> MapLocation {
        MapLocation::LinnMercy(self)
    }

    fn region() -> (region: Region) {
        Region::LinnMercy
    }

    fn entry(&self) -> (entry: Entry) {
        reveal(LinnMercy::table);
        assert(self.spec_entry() == self.table());
        match self {
            LinnMercy::Blackroad => Entry { local_key: "Blackroad", display_name: "Blackroad", is_major: false, coords: (465_166_540, 164_749_150) },
            LinnMercy::FortDuncan => Entry { local_key: "FortDuncan", display_name: "Fort Duncan", is_major: true, coords: (736_736_660, 766_062_400) },
            LinnMercy::GallantGoughBoulevard => Entry { local_key: "GallantGoughBoulevard", display_name: "Gallant Gough Boulevard", is_major: false, coords: (98_206_850, 430_219_950) },
            LinnMercy::Hardline => Entry { local_key: "Hardline", display_name: "Hardline", is_major: true, coords: (359_914_660, 588_793_750) },
            LinnMercy::Lathair => Entry { local_key: "Lathair", display_name: "Lathair", is_major: true, coords: (725_896_100, 311_908_200) },
            LinnMercy::MercifulStrait => Entry { local_key: "MercifulStrait", display_name: "Merciful Strait", is_major: false, coords: (841_928_200, 675_302_450) },
            LinnMercy::Mudhole => Entry { local_key: "Mudhole", display_name: "Mudhole", is_major: false, coords: (570_014_200, 302_388_220) },
            LinnMercy::Nathair => Entry { local_key: "Nathair", display_name: "Nathair", is_major: false, coords: (593_858_700, 413_466_930) },
            LinnMercy::OutwichRanch => Entry { local_key: "OutwichRanch", display_name: "Outwich Ranch", is_major: true, coords: (837_012_600, 486_812_600) },
            LinnMercy::Rotdust => Entry { local_key: "Rotdust", display_name: "Rotdust", is_major: true, coords: (585_684_100, 151_788_740) },
            LinnMercy::SolasBurn => Entry { local_key: "SolasBurn", display_name: "Solas Burn", is_major: false, coords: (730_954_230, 225_412_590) },
            LinnMercy::TheCrimsonGardens => Entry { local_key: "TheCrimsonGardens", display_name: "The Crimson Gardens", is_major: true, coords: (229_585_690, 628_411_230) },
            LinnMercy::TheDrone => Entry { local_key: "TheDrone", display_name: "The Drone", is_major: false, coords: (193_576_440, 222_618_610) },
            LinnMercy::TheFirstCoin => Entry { local_key: "TheFirstCoin", display_name: "The First Coin", is_major: true, coords: (408_409_030, 718_450_800) },
            LinnMercy::TheGreatScale => Entry { local_key: "TheGreatScale", display_name: "The Great Scale", is_major: false, coords: (411_132_100, 290_847_630) },
            LinnMercy::TheLastGrove => Entry { local_key: "TheLastGrove", display_name: "The Last Grove", is_major: true, coords: (382_688_160, 884_589_400) },
            LinnMercy::TheLongWhine => Entry { local_key: "TheLongWhine", display_name: "The Long Whine", is_major: true, coords: (357_835_020, 209_964_000) },
            LinnMercy::ThePrairieBazaar => Entry { local_key: "ThePrairieBazaar", display_name: "The Prairie Bazaar", is_major: true, coords: (614_323_200, 740_400_800) },
            LinnMercy::TheRiverMercy => Entry { local_key: "TheRiverMercy", display_name: "The River Mercy", is_major: false, coords: (641_595_540, 617_484_100) },
            LinnMercy::UlsterFalls => Entry { local_key: "UlsterFalls", display_name: "Ulster Falls", is_major: true, coords: (464_109_570, 450_227_470) },
        }
    }

    fn all() -> (all: Vec<Self>) {
        vec![
            LinnMercy::Blackroad, LinnMercy::FortDuncan, LinnMercy::GallantGoughBoulevard,
            LinnMercy::Hardline, LinnMercy::Lathair, LinnMercy::MercifulStrait,
            LinnMercy::Mudhole, LinnMercy::Nathair, LinnMercy::OutwichRanch, LinnMercy::Rotdust,
            LinnMercy::SolasBurn, LinnMercy::TheCrimsonGardens, LinnMercy::TheDrone,
            LinnMercy::TheFirstCoin, LinnMercy::TheGreatScale, LinnMercy::TheLastGrove,
            LinnMercy::TheLongWhine, LinnMercy::ThePrairieBazaar, LinnMercy::TheRiverMercy,
            LinnMercy::UlsterFalls,
        ]
    }

    fn from_key(key: &str) -> (found: Option<Self>) {
        reveal(LinnMercy::table);
        if str_eq(key, "Blackroad") {
            Some(LinnMercy::Blackroad)
        } else if str_eq(key, "FortDuncan") {
            Some(LinnMercy::FortDuncan)
        } else if str_eq(key, "GallantGoughBoulevard") {
            Some(LinnMercy::GallantGoughBoulevard)
        } else if str_eq(key, "Hardline") {
            Some(LinnMercy::Hardline)
        } else if str_eq(key, "Lathair") {
            Some(LinnMercy::Lathair)
        } else if str_eq(key, "MercifulStrait") {
            Some(LinnMercy::MercifulStrait)
        } else if str_eq(key, "Mudhole") {
            Some(LinnMercy::Mudhole)
        } else if str_eq(key, "Nathair") {
            Some(LinnMercy::Nathair)
        } else if str_eq(key, "OutwichRanch") {
            Some(LinnMercy::OutwichRanch)
        } else if str_eq(key, "Rotdust") {
            Some(LinnMercy::Rotdust)
        } else if str_eq(key, "SolasBurn") {
            Some(LinnMercy::SolasBurn)
        } else if str_eq(key, "TheCrimsonGardens") {
            Some(LinnMercy::TheCrimsonGardens)
        } else if str_eq(key, "TheDrone") {
            Some(LinnMercy::TheDrone)
        } else if str_eq(key, "TheFirstCoin") {
            Some(LinnMercy::TheFirstCoin)
        } else if str_eq(key, "TheGreatScale") {
            Some(LinnMercy::TheGreatScale)
        } else if str_eq(key, "TheLastGrove") {
            Some(LinnMercy::TheLastGrove)
        } else if str_eq(key, "TheLongWhine") {
            Some(LinnMercy::TheLongWhine)
        } else if str_eq(key, "ThePrairieBazaar") {
            Some(LinnMercy::ThePrairieBazaar)
        } else if str_eq(key, "TheRiverMercy") {
            Some(LinnMercy::TheRiverMercy)
        } else if str_eq(key, "UlsterFalls") {
            Some(LinnMercy::UlsterFalls)
        } else {
            None
        }
    }

    fn on_map(self) -> (place: MapLocation) {
        MapLocation::LinnMercy(self)
    }

    proof fn lemma_entry(l: Self) {
        reveal(LinnMercy::table);
        reveal_with_fuel(pairs_off, 24);
        match l {
            LinnMercy::Blackroad => {
                reveal_strlit("Blackroad");
                lemma_pairs_off("Blackroad"@, "Blackroad"@);
            },
            LinnMercy::FortDuncan => {
                reveal_strlit("FortDuncan");
                reveal_strlit("Fort Duncan");
                lemma_pairs_off("Fort Duncan"@, "FortDuncan"@);
            },
            LinnMercy::GallantGoughBoulevard => {
                reveal_strlit("GallantGoughBoulevard");
                reveal_strlit("Gallant Gough Boulevard");
                lemma_pairs_off("Gallant Gough Boulevard"@, "GallantGoughBoulevard"@);
            },
            LinnMercy::Hardline => {
                reveal_strlit("Hardline");
                lemma_pairs_off("Hardline"@, "Hardline"@);
            },
            LinnMercy::Lathair => {
                reveal_strlit("Lathair");
                lemma_pairs_off("Lathair"@, "Lathair"@);
            },
            LinnMercy::MercifulStrait => {
                reveal_strlit("MercifulStrait");
                reveal_strlit("Merciful Strait");
                lemma_pairs_off("Merciful Strait"@, "MercifulStrait"@);
            },
            LinnMercy::Mudhole => {
                reveal_strlit("Mudhole");
                lemma_pairs_off("Mudhole"@, "Mudhole"@);
            },
            LinnMercy::Nathair => {
                reveal_strlit("Nathair");
                lemma_pairs_off("Nathair"@, "Nathair"@);
            },
            LinnMercy::OutwichRanch => {
                reveal_strlit("OutwichRanch");
                reveal_strlit("Outwich Ranch");
                lemma_pairs_off("Outwich Ranch"@, "OutwichRanch"@);
            },
            LinnMercy::Rotdust => {
                reveal_strlit("Rotdust");
                lemma_pairs_off("Rotdust"@, "Rotdust"@);
            },
            LinnMercy::SolasBurn => {
                reveal_strlit("SolasBurn");
                reveal_strlit("Solas Burn");
                lemma_pairs_off("Solas Burn"@, "SolasBurn"@);
            },
            LinnMercy::TheCrimsonGardens => {
                reveal_strlit("TheCrimsonGardens");
                reveal_strlit("The Crimson Gardens");
                lemma_pairs_off("The Crimson Gardens"@, "TheCrimsonGardens"@);
            },
            LinnMercy::TheDrone => {
                reveal_strlit("TheDrone");
                reveal_strlit("The Drone");
                lemma_pairs_off("The Drone"@, "TheDrone"@);
            },
            LinnMercy::TheFirstCoin => {
                reveal_strlit("TheFirstCoin");
                reveal_strlit("The First Coin");
                lemma_pairs_off("The First Coin"@, "TheFirstCoin"@);
            },
            LinnMercy::TheGreatScale => {
                reveal_strlit("TheGreatScale");
                reveal_strlit("The Great Scale");
                lemma_pairs_off("The Great Scale"@, "TheGreatScale"@);
            },
            LinnMercy::TheLastGrove => {
                reveal_strlit("TheLastGrove");
                reveal_strlit("The Last Grove");
                lemma_pairs_off("The Last Grove"@, "TheLastGrove"@);
            },
            LinnMercy::TheLongWhine => {
                reveal_strlit("TheLongWhine");
                reveal_strlit("The Long Whine");
                lemma_pairs_off("The Long Whine"@, "TheLongWhine"@);
            },
            LinnMercy::ThePrairieBazaar => {
                reveal_strlit("ThePrairieBazaar");
                reveal_strlit("The Prairie Bazaar");
                lemma_pairs_off("The Prairie Bazaar"@, "ThePrairieBazaar"@);
            },
            LinnMercy::TheRiverMercy => {
                reveal_strlit("TheRiverMercy");
                reveal_strlit("The River Mercy");
                lemma_pairs_off("The River Mercy"@, "TheRiverMercy"@);
            },
            LinnMercy::UlsterFalls => {
                reveal_strlit("UlsterFalls");
                reveal_strlit("Ulster Falls");
                lemma_pairs_off("Ulster Falls"@, "UlsterFalls"@);
            },
        }
    }

    proof fn lemma_keys_distinct(a: Self, b: Self) {
        reveal(LinnMercy::table);
        reveal_strlit("Blackroad");
        reveal_strlit("FortDuncan");
        reveal_strlit("GallantGoughBoulevard");
        reveal_strlit("Hardline");
        reveal_strlit("Lathair");
        reveal_strlit("MercifulStrait");
        reveal_strlit("Mudhole");
        reveal_strlit("Nathair");
        reveal_strlit("OutwichRanch");
        reveal_strlit("Rotdust");
        reveal_strlit("SolasBurn");
        reveal_strlit("TheCrimsonGardens");
        reveal_strlit("TheDrone");
        reveal_strlit("TheFirstCoin");
        reveal_strlit("TheGreatScale");
        reveal_strlit("TheLastGrove");
        reveal_strlit("TheLongWhine");
        reveal_strlit("ThePrairieBazaar");
        reveal_strlit("TheRiverMercy");
        reveal_strlit("UlsterFalls");
        // Two equal keys agree in length and in every character; no two
        // keys of the table do.
        let x = a.table().local_key@;
        let y = b.table().local_key@;
        assert(x.len() == y.len());
        assert(x[0] == y[0]);
        assert(x[1] == y[1]);
        assert(x[2] == y[2]);
        assert(x[3] == y[3]);
        assert(x[4] == y[4]);
        assert(x[5] == y[5]);
        assert(x[6] == y[6]);
        assert(x[7] == y[7]);
        assert(x[8] == y[8]);
        assert(x[9] == y[9]);
        assert(x[10] == y[10]);
        assert(x[11] == y[11]);
        assert(x[12] == y[12]);
        assert(x[13] == y[13]);
        assert(x[14] == y[14]);
        assert(x[15] == y[15]);
        assert(x[16] == y[16]);
        assert(x[17] == y[17]);
        assert(x[18] == y[18]);
        assert(x[19] == y[19]);
        assert(x[20] == y[20]);
        match a {
            LinnMercy::Blackroad => assert(b is Blackroad),
            LinnMercy::FortDuncan => assert(b is FortDuncan),
            LinnMercy::GallantGoughBoulevard => assert(b is GallantGoughBoulevard),
            LinnMercy::Hardline => assert(b is Hardline),
            LinnMercy::Lathair => assert(b is Lathair),
            LinnMercy::MercifulStrait => assert(b is MercifulStrait),
            LinnMercy::Mudhole => assert(b is Mudhole),
            LinnMercy::Nathair => assert(b is Nathair),
            LinnMercy::OutwichRanch => assert(b is OutwichRanch),
            LinnMercy::Rotdust => assert(b is Rotdust),
            LinnMercy::SolasBurn => assert(b is SolasBurn),
            LinnMercy::TheCrimsonGardens => assert(b is TheCrimsonGardens),
            LinnMercy::TheDrone => assert(b is TheDrone),
            LinnMercy::TheFirstCoin => assert(b is TheFirstCoin),
            LinnMercy::TheGreatScale => assert(b is TheGreatScale),
            LinnMercy::TheLastGrove => assert(b is TheLastGrove),
            LinnMercy::TheLongWhine => assert(b is TheLongWhine),
            LinnMercy::ThePrairieBazaar => assert(b is ThePrairieBazaar),
            LinnMercy::TheRiverMercy => assert(b is TheRiverMercy),
            LinnMercy::UlsterFalls => assert(b is UlsterFalls),
        }
    }

    proof fn lemma_all(l: Self) {
        reveal_with_fuel(position, 21);
        reveal_with_fuel(each_first, 21);
        lemma_found(Self::spec_all(), l);
        lemma_no_duplicates(Self::spec_all());
    }

    proof fn lemma_on_map(place: MapLocation) {
        if let MapLocation::LinnMercy(l) = place {
            assert(l.spec_on_map() == place);
        }
    }
}

} // verus!
