//! The locations of the ShackledChasm region.

use crate::map::location::Entry;
use crate::map::region::Region;
use crate::map::regional::Regional;
use crate::map::seqs::{each_first, lemma_found, lemma_no_duplicates, position};
use crate::map::MapLocation;
use crate::text::{lemma_pairs_off, pairs_off, str_eq};
use vstd::prelude::*;

verus! {

/// Specific map details for the `ShackledChasmHex` tile.
#[derive(Clone, Copy, Debug, PartialEq, Eq)]
pub enum ShackledChasm {
    /// A Careless Net is a minor location
    ACarelessNet,
    /// A New Spring is a minor location
    ANewSpring,
    /// Autumn Pyres is a minor location
    AutumnPyres,
    /// Final Step is a minor location
    FinalStep,
    /// Firstmarch is a major location
    Firstmarch,
    /// Gorgon Grove is a major location
    GorgonGrove,
    /// Hades Ladder is a minor location
    HadesLadder,
    /// Legion's Dawn is a minor location
    LegionsDawn,
    /// Limewood Holdfast is a major location
    LimewoodHoldfast,
    /// Manky Hills is a minor location
    MankyHills,
    /// Reflection is a major location
    Reflection,
    /// Savages is a major location
    Savages,
    /// Silk Farms is a major location
    SilkFarms,
    /// Simo's Run is a minor location
    SimosRun,
    /// Southreach is a minor location
    Southreach,
    /// The Bell Toll is a major location
    TheBellToll,
    /// The Blue is a minor location
    TheBlue,
    /// The First Rung is a minor location
    TheFirstRung,
    /// The Foolish Maidens is a minor location
    TheFoolishMaidens,
    /// The Grave of Rastus is a major location
    TheGraveofRastus,
    /// The Plunging is a minor location
    ThePlunging,
    /// The Vanguard is a major location
    TheVanguard,
    /// Widow's Web is a minor location
    WidowsWeb,
}

impl ShackledChasm {
    /// The table of the region: the catalogue's entry for each location.
    /// Hidden from the verifier until revealed.
    #[verifier::opaque]
    pub open spec fn table(self) -> Entry {
        match self {
            ShackledChasm::ACarelessNet => Entry { local_key: "ACarelessNet", display_name: "A Careless Net", is_major: false, coords: (432_349_680, 870_150_500) },
            ShackledChasm::ANewSpring => Entry { local_key: "ANewSpring", display_name: "A New Spring", is_major: false, coords: (655_312_960, 263_139_870) },
            ShackledChasm::AutumnPyres => Entry { local_key: "AutumnPyres", display_name: "Autumn Pyres", is_major: false, coords: (510_381_900, 326_411_200) },
            ShackledChasm::FinalStep => Entry { local_key: "FinalStep", display_name: "Final Step", is_major: false, coords: (303_036_960, 171_807_600) },
            ShackledChasm::Firstmarch => Entry { local_key: "Firstmarch", display_name: "Firstmarch", is_major: true, coords: (841_969_970, 387_328_360) },
            ShackledChasm::GorgonGrove => Entry { local_key: "GorgonGrove", display_name: "Gorgon Grove", is_major: true, coords: (223_358_870, 356_045_780) },
            ShackledChasm::HadesLadder => Entry { local_key: "HadesLadder", display_name: "Hades Ladder", is_major: false, coords: (407_521_600, 297_558_100) },
            ShackledChasm::LegionsDawn => Entry { local_key: "LegionsDawn", display_name: "Legion's Dawn", is_major: false, coords: (346_242_280, 948_272_700) },
            ShackledChasm::LimewoodHoldfast => Entry { local_key: "LimewoodHoldfast", display_name: "Limewood Holdfast", is_major: true, coords: (471_568_020, 474_951_700) },
            ShackledChasm::MankyHills => Entry { local_key: "MankyHills", display_name: "Manky Hills", is_major: false, coords: (885_141_850, 587_510_760) },
            ShackledChasm::Reflection => Entry { local_key: "Reflection", display_name: "Reflection", is_major: true, coords: (216_300_110, 604_323_740) },
            ShackledChasm::Savages => Entry { local_key: "Savages", display_name: "Savages", is_major: true, coords: (390_307_780, 184_690_200) },
            ShackledChasm::SilkFarms => Entry { local_key: "SilkFarms", display_name: "Silk Farms", is_major: true, coords: (439_400_400, 665_099_560) },
            ShackledChasm::SimosRun => Entry { local_key: "SimosRun", display_name: "Simo's Run", is_major: false, coords: (684_445_800, 859_617_300) },
            ShackledChasm::Southreach => Entry { local_key: "Southreach", display_name: "Southreach", is_major: false, coords: (477_476_100, 94_469_960) },
            ShackledChasm::TheBellToll => Entry { local_key: "TheBellToll", display_name: "The Bell Toll", is_major: true, coords: (621_139_600, 382_918_900) },
            ShackledChasm::TheBlue => Entry { local_key: "TheBlue", display_name: "The Blue", is_major: false, coords: (540_954_100, 875_316_700) },
            ShackledChasm::TheFirstRung => Entry { local_key: "TheFirstRung", display_name: "The First Rung", is_major: false, coords: (354_773_640, 442_281_750) },
            ShackledChasm::TheFoolishMaidens => Entry { local_key: "TheFoolishMaidens", display_name: "The Foolish Maidens", is_major: false, coords: (75_329_885, 573_039_050) },
            ShackledChasm::TheGraveofRastus => Entry { local_key: "TheGraveofRastus", display_name: "The Grave of Rastus", is_major: true, coords: (650_525_600, 157_292_380) },
            ShackledChasm::ThePlunging => Entry { local_key: "ThePlunging", display_name: "The Plunging", is_major: false, coords: (192_693_160, 751_842_140) },
            ShackledChasm::TheVanguard => Entry { local_key: "TheVanguard", display_name: "The Vanguard", is_major: true, coords: (692_739_070, 622_179_400) },
            ShackledChasm::WidowsWeb => Entry { local_key: "WidowsWeb", display_name: "Widow's Web", is_major: false, coords: (527_885_900, 672_851_400) },
        }
    }
}

impl Regional for ShackledChasm {
    open spec fn spec_region() -> Region {
        Region::ShackledChasm
    }

    open spec fn spec_entry(&self) -> Entry {
        self.table()
    }

    open spec fn spec_marked(&self) -> bool {
        false
    }

    open spec fn spec_all() -> Seq<Self> {
        seq![
            ShackledChasm::ACarelessNet, ShackledChasm::ANewSpring, ShackledChasm::AutumnPyres,
            ShackledChasm::FinalStep, ShackledChasm::Firstmarch, ShackledChasm::GorgonGrove,
            ShackledChasm::HadesLadder, ShackledChasm::LegionsDawn,
            ShackledChasm::LimewoodHoldfast, ShackledChasm::MankyHills,
            ShackledChasm::Reflection, ShackledChasm::Savages, ShackledChasm::SilkFarms,
            ShackledChasm::SimosRun, ShackledChasm::Southreach, ShackledChasm::TheBellToll,
            ShackledChasm::TheBlue, ShackledChasm::TheFirstRung,
            ShackledChasm::TheFoolishMaidens, ShackledChasm::TheGraveofRastus,
            ShackledChasm::ThePlunging, ShackledChasm::TheVanguard, ShackledChasm::WidowsWeb,
        ]
    }

    open spec fn spec_on_map(self) -> MapLocation {
        MapLocation::ShackledChasm(self)
    }

    fn region() -> (region: Region) {
        Region::ShackledChasm
    }

    fn entry(&self) -> (entry: Entry) {
        reveal(ShackledChasm::table);
        assert(self.spec_entry() == self.table());
        match self {
            ShackledChasm::ACarelessNet => Entry { local_key: "ACarelessNet", display_name: "A Careless Net", is_major: false, coords: (432_349_680, 870_150_500) },
            ShackledChasm::ANewSpring => Entry { local_key: "ANewSpring", display_name: "A New Spring", is_major: false, coords: (655_312_960, 263_139_870) },
            ShackledChasm::AutumnPyres => Entry { local_key: "AutumnPyres", display_name: "Autumn Pyres", is_major: false, coords: (510_381_900, 326_411_200) },
            ShackledChasm::FinalStep => Entry { local_key: "FinalStep", display_name: "Final Step", is_major: false, coords: (303_036_960, 171_807_600) },
            ShackledChasm::Firstmarch => Entry { local_key: "Firstmarch", display_name: "Firstmarch", is_major: true, coords: (841_969_970, 387_328_360) },
            ShackledChasm::GorgonGrove => Entry { local_key: "GorgonGrove", display_name: "Gorgon Grove", is_major: true, coords: (223_358_870, 356_045_780) },
            ShackledChasm::HadesLadder => Entry { local_key: "HadesLadder", display_name: "Hades Ladder", is_major: false, coords: (407_521_600, 297_558_100) },
            ShackledChasm::LegionsDawn => Entry { local_key: "LegionsDawn", display_name: "Legion's Dawn", is_major: false, coords: (346_242_280, 948_272_700) },
            ShackledChasm::LimewoodHoldfast => Entry { local_key: "LimewoodHoldfast", display_name: "Limewood Holdfast", is_major: true, coords: (471_568_020, 474_951_700) },
            ShackledChasm::MankyHills => Entry { local_key: "MankyHills", display_name: "Manky Hills", is_major: false, coords: (885_141_850, 587_510_760) },
            ShackledChasm::Reflection => Entry { local_key: "Reflection", display_name: "Reflection", is_major: true, coords: (216_300_110, 604_323_740) },
            ShackledChasm::Savages => Entry { local_key: "Savages", display_name: "Savages", is_major: true, coords: (390_307_780, 184_690_200) },
            ShackledChasm::SilkFarms => Entry { local_key: "SilkFarms", display_name: "Silk Farms", is_major: true, coords: (439_400_400, 665_099_560) },
            ShackledChasm::SimosRun => Entry { local_key: "SimosRun", display_name: "Simo's Run", is_major: false, coords: (684_445_800, 859_617_300) },
            ShackledChasm::Southreach => Entry { local_key: "Southreach", display_name: "Southreach", is_major: false, coords: (477_476_100, 94_469_960) },
            ShackledChasm::TheBellToll => Entry { local_key: "TheBellToll", display_name: "The Bell Toll", is_major: true, coords: (621_139_600, 382_918_900) },
            ShackledChasm::TheBlue => Entry { local_key: "TheBlue", display_name: "The Blue", is_major: false, coords: (540_954_100, 875_316_700) },
            ShackledChasm::TheFirstRung => Entry { local_key: "TheFirstRung", display_name: "The First Rung", is_major: false, coords: (354_773_640, 442_281_750) },
            ShackledChasm::TheFoolishMaidens => Entry { local_key: "TheFoolishMaidens", display_name: "The Foolish Maidens", is_major: false, coords: (75_329_885, 573_039_050) },
            ShackledChasm::TheGraveofRastus => Entry { local_key: "TheGraveofRastus", display_name: "The Grave of Rastus", is_major: true, coords: (650_525_600, 157_292_380) },
            ShackledChasm::ThePlunging => Entry { local_key: "ThePlunging", display_name: "The Plunging", is_major: false, coords: (192_693_160, 751_842_140) },
            ShackledChasm::TheVanguard => Entry { local_key: "TheVanguard", display_name: "The Vanguard", is_major: true, coords: (692_739_070, 622_179_400) },
            ShackledChasm::WidowsWeb => Entry { local_key: "WidowsWeb", display_name: "Widow's Web", is_major: false, coords: (527_885_900, 672_851_400) },
        }
    }

    fn all() -> (all: Vec<Self>) {
        vec![
            ShackledChasm::ACarelessNet, ShackledChasm::ANewSpring, ShackledChasm::AutumnPyres,
            ShackledChasm::FinalStep, ShackledChasm::Firstmarch, ShackledChasm::GorgonGrove,
            ShackledChasm::HadesLadder, ShackledChasm::LegionsDawn,
            ShackledChasm::LimewoodHoldfast, ShackledChasm::MankyHills,
            ShackledChasm::Reflection, ShackledChasm::Savages, ShackledChasm::SilkFarms,
            ShackledChasm::SimosRun, ShackledChasm::Southreach, ShackledChasm::TheBellToll,
            ShackledChasm::TheBlue, ShackledChasm::TheFirstRung,
            ShackledChasm::TheFoolishMaidens, ShackledChasm::TheGraveofRastus,
            ShackledChasm::ThePlunging, ShackledChasm::TheVanguard, ShackledChasm::WidowsWeb,
        ]
    }

    fn from_key(key: &str) -> (found: Option<Self>) {
        reveal(ShackledChasm::table);
        if str_eq(key, "ACarelessNet") {
            Some(ShackledChasm::ACarelessNet)
        } else if str_eq(key, "ANewSpring") {
            Some(ShackledChasm::ANewSpring)
        } else if str_eq(key, "AutumnPyres") {
            Some(ShackledChasm::AutumnPyres)
        } else if str_eq(key, "FinalStep") {
            Some(ShackledChasm::FinalStep)
        } else if str_eq(key, "Firstmarch") {
            Some(ShackledChasm::Firstmarch)
        } else if str_eq(key, "GorgonGrove") {
            Some(ShackledChasm::GorgonGrove)
        } else if str_eq(key, "HadesLadder") {
            Some(ShackledChasm::HadesLadder)
        } else if str_eq(key, "LegionsDawn") {
            Some(ShackledChasm::LegionsDawn)
        } else if str_eq(key, "LimewoodHoldfast") {
            Some(ShackledChasm::LimewoodHoldfast)
        } else if str_eq(key, "MankyHills") {
            Some(ShackledChasm::MankyHills)
        } else if str_eq(key, "Reflection") {
            Some(ShackledChasm::Reflection)
        } else if str_eq(key, "Savages") {
            Some(ShackledChasm::Savages)
        } else if str_eq(key, "SilkFarms") {
            Some(ShackledChasm::SilkFarms)
        } else if str_eq(key, "SimosRun") {
            Some(ShackledChasm::SimosRun)
        } else if str_eq(key, "Southreach") {
            Some(ShackledChasm::Southreach)
        } else if str_eq(key, "TheBellToll") {
            Some(ShackledChasm::TheBellToll)
        } else if str_eq(key, "TheBlue") {
            Some(ShackledChasm::TheBlue)
        } else if str_eq(key, "TheFirstRung") {
            Some(ShackledChasm::TheFirstRung)
        } else if str_eq(key, "TheFoolishMaidens") {
            Some(ShackledChasm::TheFoolishMaidens)
        } else if str_eq(key, "TheGraveofRastus") {
            Some(ShackledChasm::TheGraveofRastus)
        } else if str_eq(key, "ThePlunging") {
            Some(ShackledChasm::ThePlunging)
        } else if str_eq(key, "TheVanguard") {
            Some(ShackledChasm::TheVanguard)
        } else if str_eq(key, "WidowsWeb") {
            Some(ShackledChasm::WidowsWeb)
        } else {
            None
        }
    }

    fn on_map(self) -> (place: MapLocation) {
        MapLocation::ShackledChasm(self)
    }

    proof fn lemma_entry(l: Self) {
        reveal(ShackledChasm::table);
        reveal_with_fuel(pairs_off, 20);
        match l {
            ShackledChasm::ACarelessNet => {
                reveal_strlit("ACarelessNet");
                reveal_strlit("A Careless Net");
                lemma_pairs_off("A Careless Net"@, "ACarelessNet"@);
            },
            ShackledChasm::ANewSpring => {
                reveal_strlit("ANewSpring");
                reveal_strlit("A New Spring");
                lemma_pairs_off("A New Spring"@, "ANewSpring"@);
            },
            ShackledChasm::AutumnPyres => {
                reveal_strlit("AutumnPyres");
                reveal_strlit("Autumn Pyres");
                lemma_pairs_off("Autumn Pyres"@, "AutumnPyres"@);
            },
            ShackledChasm::FinalStep => {
                reveal_strlit("FinalStep");
                reveal_strlit("Final Step");
                lemma_pairs_off("Final Step"@, "FinalStep"@);
            },
            ShackledChasm::Firstmarch => {
                reveal_strlit("Firstmarch");
                lemma_pairs_off("Firstmarch"@, "Firstmarch"@);
            },
            ShackledChasm::GorgonGrove => {
                reveal_strlit("GorgonGrove");
                reveal_strlit("Gorgon Grove");
                lemma_pairs_off("Gorgon Grove"@, "GorgonGrove"@);
            },
            ShackledChasm::HadesLadder => {
                reveal_strlit("HadesLadder");
                reveal_strlit("Hades Ladder");
                lemma_pairs_off("Hades Ladder"@, "HadesLadder"@);
            },
            ShackledChasm::LegionsDawn => {
                reveal_strlit("LegionsDawn");
                reveal_strlit("Legion's Dawn");
                lemma_pairs_off("Legion's Dawn"@, "LegionsDawn"@);
            },
            ShackledChasm::LimewoodHoldfast => {
                reveal_strlit("LimewoodHoldfast");
                reveal_strlit("Limewood Holdfast");
                lemma_pairs_off("Limewood Holdfast"@, "LimewoodHoldfast"@);
            },
            ShackledChasm::MankyHills => {
                reveal_strlit("MankyHills");
                reveal_strlit("Manky Hills");
                lemma_pairs_off("Manky Hills"@, "MankyHills"@);
            },
            ShackledChasm::Reflection => {
                reveal_strlit("Reflection");
                lemma_pairs_off("Reflection"@, "Reflection"@);
            },
            ShackledChasm::Savages => {
                reveal_strlit("Savages");
                lemma_pairs_off("Savages"@, "Savages"@);
            },
            ShackledChasm::SilkFarms => {
                reveal_strlit("SilkFarms");
                reveal_strlit("Silk Farms");
                lemma_pairs_off("Silk Farms"@, "SilkFarms"@);
            },
            ShackledChasm::SimosRun => {
                reveal_strlit("SimosRun");
                reveal_strlit("Simo's Run");
                lemma_pairs_off("Simo's Run"@, "SimosRun"@);
            },
            ShackledChasm::Southreach => {
                reveal_strlit("Southreach");
                lemma_pairs_off("Southreach"@, "Southreach"@);
            },
            ShackledChasm::TheBellToll => {
                reveal_strlit("TheBellToll");
                reveal_strlit("The Bell Toll");
                lemma_pairs_off("The Bell Toll"@, "TheBellToll"@);
            },
            ShackledChasm::TheBlue => {
                reveal_strlit("TheBlue");
                reveal_strlit("The Blue");
                lemma_pairs_off("The Blue"@, "TheBlue"@);
            },
            ShackledChasm::TheFirstRung => {
                reveal_strlit("TheFirstRung");
                reveal_strlit("The First Rung");
                lemma_pairs_off("The First Rung"@, "TheFirstRung"@);
            },
            ShackledChasm::TheFoolishMaidens => {
                reveal_strlit("TheFoolishMaidens");
                reveal_strlit("The Foolish Maidens");
                lemma_pairs_off("The Foolish Maidens"@, "TheFoolishMaidens"@);
            },
            ShackledChasm::TheGraveofRastus => {
                reveal_strlit("TheGraveofRastus");
                reveal_strlit("The Grave of Rastus");
                lemma_pairs_off("The Grave of Rastus"@, "TheGraveofRastus"@);
            },
            ShackledChasm::ThePlunging => {
                reveal_strlit("ThePlunging");
                reveal_strlit("The Plunging");
                lemma_pairs_off("The Plunging"@, "ThePlunging"@);
            },
            ShackledChasm::TheVanguard => {
                reveal_strlit("TheVanguard");
                reveal_strlit("The Vanguard");
                lemma_pairs_off("The Vanguard"@, "TheVanguard"@);
            },
            ShackledChasm::WidowsWeb => {
                reveal_strlit("WidowsWeb");
                reveal_strlit("Widow's Web");
                lemma_pairs_off("Widow's Web"@, "WidowsWeb"@);
            },
        }
    }

    proof fn lemma_keys_distinct(a: Self, b: Self) {
        reveal(ShackledChasm::table);
        reveal_strlit("ACarelessNet");
        reveal_strlit("ANewSpring");
        reveal_strlit("AutumnPyres");
        reveal_strlit("FinalStep");
        reveal_strlit("Firstmarch");
        reveal_strlit("GorgonGrove");
        reveal_strlit("HadesLadder");
        reveal_strlit("LegionsDawn");
        reveal_strlit("LimewoodHoldfast");
        reveal_strlit("MankyHills");
        reveal_strlit("Reflection");
        reveal_strlit("Savages");
        reveal_strlit("SilkFarms");
        reveal_strlit("SimosRun");
        reveal_strlit("Southreach");
        reveal_strlit("TheBellToll");
        reveal_strlit("TheBlue");
        reveal_strlit("TheFirstRung");
        reveal_strlit("TheFoolishMaidens");
        reveal_strlit("TheGraveofRastus");
        reveal_strlit("ThePlunging");
        reveal_strlit("TheVanguard");
        reveal_strlit("WidowsWeb");
        // Two equal keys agree in length and in every character; no two
        // keys of the table do.
        let x = a.table().local_key@;
        let y = b.table().local_key@;
        assert(x.len() == y.len());
        assert(x[0] == y[0]);
        assert(x[1] == y[1]);
        assert(x[2] == y[2]);
        assert(x[3] == y[3]);
        assert(x[4] == y[4]);
        assert(x[5] == y[5]);
        assert(x[6] == y[6]);
        assert(x[7] == y[7]);
        assert(x[8] == y[8]);
        assert(x[9] == y[9]);
        assert(x[10] == y[10]);
        assert(x[11] == y[11]);
        assert(x[12] == y[12]);
        assert(x[13] == y[13]);
        assert(x[14] == y[14]);
        assert(x[15] == y[15]);
        assert(x[16] == y[16]);
        match a {
            ShackledChasm::ACarelessNet => assert(b is ACarelessNet),
            ShackledChasm::ANewSpring => assert(b is ANewSpring),
            ShackledChasm::AutumnPyres => assert(b is AutumnPyres),
            ShackledChasm::FinalStep => assert(b is FinalStep),
            ShackledChasm::Firstmarch => assert(b is Firstmarch),
            ShackledChasm::GorgonGrove => assert(b is GorgonGrove),
            ShackledChasm::HadesLadder => assert(b is HadesLadder),
            ShackledChasm::LegionsDawn => assert(b is LegionsDawn),
            ShackledChasm::LimewoodHoldfast => assert(b is LimewoodHoldfast),
            ShackledChasm::MankyHills => assert(b is MankyHills),
            ShackledChasm::Reflection => assert(b is Reflection),
            ShackledChasm::Savages => assert(b is Savages),
            ShackledChasm::SilkFarms => assert(b is SilkFarms),
            ShackledChasm::SimosRun => assert(b is SimosRun),
            ShackledChasm::Southreach => assert(b is Southreach),
            ShackledChasm::TheBellToll => assert(b is TheBellToll),
            ShackledChasm::TheBlue => assert(b is TheBlue),
            ShackledChasm::TheFirstRung => assert(b is TheFirstRung),
            ShackledChasm::TheFoolishMaidens => assert(b is TheFoolishMaidens),
            ShackledChasm::TheGraveofRastus => assert(b is TheGraveofRastus),
            ShackledChasm::ThePlunging => assert(b is ThePlunging),
            ShackledChasm::TheVanguard => assert(b is TheVanguard),
            ShackledChasm::WidowsWeb => assert(b is WidowsWeb),
        }
    }

    proof fn lemma_all(l: Self) {
        reveal_with_fuel(position, 24);
        reveal_with_fuel(each_first, 24);
        lemma_found(Self::spec_all(), l);
        lemma_no_duplicates(Self::spec_all());
    }

    proof fn lemma_on_map(place: MapLocation) {
        if let MapLocation::ShackledChasm(l) = place {
            assert(l.spec_on_map() == place);
        }
    }
}

} // verus!
