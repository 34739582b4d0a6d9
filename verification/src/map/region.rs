//! The regions of the map: the hex tiles that its locations are grouped by.

use crate::map::regional::{all_on_map, spec_all_on_map};
use crate::map::seqs::{each_first, lemma_found, lemma_no_duplicates, position};
use crate::map::{
    AllodsBight, CallahansPassage, DeadLands, DrownedVale, EndlessShore, FarranacCoast,
    FishermansRow, Godcrofts, GreatMarch, Heartlands, LinnMercy, LochMor, MapLocation,
    MarbanHol, MooringCounty, Oarbreaker, ReachingTrail, ShackledChasm, Stonecradle,
    TempestIsland, UmbralWildwood, ViperPit, WeatheredExpanse, Westgate,
};
use crate::text::{is_key, lemma_pairs_off, pairs_off};
use vstd::prelude::*;

verus! {

/// One hex tile of the map. The name of a region is both its API key and its
/// label for users.
#[allow(missing_docs)]
#[derive(Clone, Copy, Debug, PartialEq, Eq)]
pub enum Region {
    Stonecradle,
    AllodsBight,
    TempestIsland,
    GreatMarch,
    MarbanHol,
    ViperPit,
    ShackledChasm,
    DeadLands,
    Heartlands,
    LinnMercy,
    EndlessShore,
    Godcrofts,
    FishermansRow,
    Westgate,
    ReachingTrail,
    UmbralWildwood,
    Oarbreaker,
    CallahansPassage,
    DrownedVale,
    FarranacCoast,
    MooringCounty,
    WeatheredExpanse,
    LochMor,
}

impl Region {
    /// The name of the region.
    pub open spec fn spec_name(&self) -> Seq<char> {
        match self {
            Region::Stonecradle => "Stonecradle"@,
            Region::AllodsBight => "AllodsBight"@,
            Region::TempestIsland => "TempestIsland"@,
            Region::GreatMarch => "GreatMarch"@,
            Region::MarbanHol => "MarbanHol"@,
            Region::ViperPit => "ViperPit"@,
            Region::ShackledChasm => "ShackledChasm"@,
            Region::DeadLands => "DeadLands"@,
            Region::Heartlands => "Heartlands"@,
            Region::LinnMercy => "LinnMercy"@,
            Region::EndlessShore => "EndlessShore"@,
            Region::Godcrofts => "Godcrofts"@,
            Region::FishermansRow => "FishermansRow"@,
            Region::Westgate => "Westgate"@,
            Region::ReachingTrail => "ReachingTrail"@,
            Region::UmbralWildwood => "UmbralWildwood"@,
            Region::Oarbreaker => "Oarbreaker"@,
            Region::CallahansPassage => "CallahansPassage"@,
            Region::DrownedVale => "DrownedVale"@,
            Region::FarranacCoast => "FarranacCoast"@,
            Region::MooringCounty => "MooringCounty"@,
            Region::WeatheredExpanse => "WeatheredExpanse"@,
            Region::LochMor => "LochMor"@,
        }
    }

    /// Every region of the map, in the catalogue's order.
    pub open spec fn spec_all() -> Seq<Region> {
        seq![
            Region::Stonecradle, Region::AllodsBight, Region::TempestIsland, Region::GreatMarch,
            Region::MarbanHol, Region::ViperPit, Region::ShackledChasm, Region::DeadLands,
            Region::Heartlands, Region::LinnMercy, Region::EndlessShore, Region::Godcrofts,
            Region::FishermansRow, Region::Westgate, Region::ReachingTrail,
            Region::UmbralWildwood, Region::Oarbreaker, Region::CallahansPassage,
            Region::DrownedVale, Region::FarranacCoast, Region::MooringCounty,
            Region::WeatheredExpanse, Region::LochMor,
        ]
    }

    /// Every location of the region, in the catalogue's order.
    pub open spec fn spec_locations(&self) -> Seq<MapLocation> {
        match self {
            Region::Stonecradle => spec_all_on_map::<Stonecradle>(),
            Region::AllodsBight => spec_all_on_map::<AllodsBight>(),
            Region::TempestIsland => spec_all_on_map::<TempestIsland>(),
            Region::GreatMarch => spec_all_on_map::<GreatMarch>(),
            Region::MarbanHol => spec_all_on_map::<MarbanHol>(),
            Region::ViperPit => spec_all_on_map::<ViperPit>(),
            Region::ShackledChasm => spec_all_on_map::<ShackledChasm>(),
            Region::DeadLands => spec_all_on_map::<DeadLands>(),
            Region::Heartlands => spec_all_on_map::<Heartlands>(),
            Region::LinnMercy => spec_all_on_map::<LinnMercy>(),
            Region::EndlessShore => spec_all_on_map::<EndlessShore>(),
            Region::Godcrofts => spec_all_on_map::<Godcrofts>(),
            Region::FishermansRow => spec_all_on_map::<FishermansRow>(),
            Region::Westgate => spec_all_on_map::<Westgate>(),
            Region::ReachingTrail => spec_all_on_map::<ReachingTrail>(),
            Region::UmbralWildwood => spec_all_on_map::<UmbralWildwood>(),
            Region::Oarbreaker => spec_all_on_map::<Oarbreaker>(),
            Region::CallahansPassage => spec_all_on_map::<CallahansPassage>(),
            Region::DrownedVale => spec_all_on_map::<DrownedVale>(),
            Region::FarranacCoast => spec_all_on_map::<FarranacCoast>(),
            Region::MooringCounty => spec_all_on_map::<MooringCounty>(),
            Region::WeatheredExpanse => spec_all_on_map::<WeatheredExpanse>(),
            Region::LochMor => spec_all_on_map::<LochMor>(),
        }
    }

    /// The name of the region.
    pub fn name(&self) -> (name: &'static str)
        ensures
            name@ == self.spec_name(),
    {
        match self {
            Region::Stonecradle => "Stonecradle",
            Region::AllodsBight => "AllodsBight",
            Region::TempestIsland => "TempestIsland",
            Region::GreatMarch => "GreatMarch",
            Region::MarbanHol => "MarbanHol",
            Region::ViperPit => "ViperPit",
            Region::ShackledChasm => "ShackledChasm",
            Region::DeadLands => "DeadLands",
            Region::Heartlands => "Heartlands",
            Region::LinnMercy => "LinnMercy",
            Region::EndlessShore => "EndlessShore",
            Region::Godcrofts => "Godcrofts",
            Region::FishermansRow => "FishermansRow",
            Region::Westgate => "Westgate",
            Region::ReachingTrail => "ReachingTrail",
            Region::UmbralWildwood => "UmbralWildwood",
            Region::Oarbreaker => "Oarbreaker",
            Region::CallahansPassage => "CallahansPassage",
            Region::DrownedVale => "DrownedVale",
            Region::FarranacCoast => "FarranacCoast",
            Region::MooringCounty => "MooringCounty",
            Region::WeatheredExpanse => "WeatheredExpanse",
            Region::LochMor => "LochMor",
        }
    }

    /// Every region of the map, in the catalogue's order.
    pub fn all() -> (all: Vec<Region>)
        ensures
            all@ == Self::spec_all(),
    {
        vec![
            Region::Stonecradle, Region::AllodsBight, Region::TempestIsland, Region::GreatMarch,
            Region::MarbanHol, Region::ViperPit, Region::ShackledChasm, Region::DeadLands,
            Region::Heartlands, Region::LinnMercy, Region::EndlessShore, Region::Godcrofts,
            Region::FishermansRow, Region::Westgate, Region::ReachingTrail,
            Region::UmbralWildwood, Region::Oarbreaker, Region::CallahansPassage,
            Region::DrownedVale, Region::FarranacCoast, Region::MooringCounty,
            Region::WeatheredExpanse, Region::LochMor,
        ]
    }

    /// Every location of the region, in the catalogue's order.
    pub fn locations(&self) -> (all: Vec<MapLocation>)
        ensures
            all@ == self.spec_locations(),
    {
        match self {
            Region::Stonecradle => all_on_map::<Stonecradle>(),
            Region::AllodsBight => all_on_map::<AllodsBight>(),
            Region::TempestIsland => all_on_map::<TempestIsland>(),
            Region::GreatMarch => all_on_map::<GreatMarch>(),
            Region::MarbanHol => all_on_map::<MarbanHol>(),
            Region::ViperPit => all_on_map::<ViperPit>(),
            Region::ShackledChasm => all_on_map::<ShackledChasm>(),
            Region::DeadLands => all_on_map::<DeadLands>(),
            Region::Heartlands => all_on_map::<Heartlands>(),
            Region::LinnMercy => all_on_map::<LinnMercy>(),
            Region::EndlessShore => all_on_map::<EndlessShore>(),
            Region::Godcrofts => all_on_map::<Godcrofts>(),
            Region::FishermansRow => all_on_map::<FishermansRow>(),
            Region::Westgate => all_on_map::<Westgate>(),
            Region::ReachingTrail => all_on_map::<ReachingTrail>(),
            Region::UmbralWildwood => all_on_map::<UmbralWildwood>(),
            Region::Oarbreaker => all_on_map::<Oarbreaker>(),
            Region::CallahansPassage => all_on_map::<CallahansPassage>(),
            Region::DrownedVale => all_on_map::<DrownedVale>(),
            Region::FarranacCoast => all_on_map::<FarranacCoast>(),
            Region::MooringCounty => all_on_map::<MooringCounty>(),
            Region::WeatheredExpanse => all_on_map::<WeatheredExpanse>(),
            Region::LochMor => all_on_map::<LochMor>(),
        }
    }

    /// The name of every region is a well-formed key.
    pub proof fn lemma_name_is_key(region: Region)
        ensures
            is_key(region.spec_name()),
    {
        reveal_strlit("Stonecradle");
        reveal_strlit("AllodsBight");
        reveal_strlit("TempestIsland");
        reveal_strlit("GreatMarch");
        reveal_strlit("MarbanHol");
        reveal_strlit("ViperPit");
        reveal_strlit("ShackledChasm");
        reveal_strlit("DeadLands");
        reveal_strlit("Heartlands");
        reveal_strlit("LinnMercy");
        reveal_strlit("EndlessShore");
        reveal_strlit("Godcrofts");
        reveal_strlit("FishermansRow");
        reveal_strlit("Westgate");
        reveal_strlit("ReachingTrail");
        reveal_strlit("UmbralWildwood");
        reveal_strlit("Oarbreaker");
        reveal_strlit("CallahansPassage");
        reveal_strlit("DrownedVale");
        reveal_strlit("FarranacCoast");
        reveal_strlit("MooringCounty");
        reveal_strlit("WeatheredExpanse");
        reveal_strlit("LochMor");
        reveal_with_fuel(pairs_off, 17);
        lemma_pairs_off(region.spec_name(), region.spec_name());
    }

    /// No two regions share a name.
    pub proof fn lemma_names_distinct(a: Region, b: Region)
        requires
            a.spec_name() == b.spec_name(),
        ensures
            a == b,
    {
        reveal_strlit("Stonecradle");
        reveal_strlit("AllodsBight");
        reveal_strlit("TempestIsland");
        reveal_strlit("GreatMarch");
        reveal_strlit("MarbanHol");
        reveal_strlit("ViperPit");
        reveal_strlit("ShackledChasm");
        reveal_strlit("DeadLands");
        reveal_strlit("Heartlands");
        reveal_strlit("LinnMercy");
        reveal_strlit("EndlessShore");
        reveal_strlit("Godcrofts");
        reveal_strlit("FishermansRow");
        reveal_strlit("Westgate");
        reveal_strlit("ReachingTrail");
        reveal_strlit("UmbralWildwood");
        reveal_strlit("Oarbreaker");
        reveal_strlit("CallahansPassage");
        reveal_strlit("DrownedVale");
        reveal_strlit("FarranacCoast");
        reveal_strlit("MooringCounty");
        reveal_strlit("WeatheredExpanse");
        reveal_strlit("LochMor");
        // Two equal names agree in length and in every character; no two
        // names of regions do.
        let x = a.spec_name();
        let y = b.spec_name();
        assert(x.len() == y.len());
        assert(x[0] == y[0]);
        assert(x[1] == y[1]);
        assert(x[2] == y[2]);
        assert(x[3] == y[3]);
        assert(x[4] == y[4]);
        assert(x[5] == y[5]);
        assert(x[6] == y[6]);
        assert(x[7] == y[7]);
        assert(x[8] == y[8]);
        assert(x[9] == y[9]);
        assert(x[10] == y[10]);
        assert(x[11] == y[11]);
        assert(x[12] == y[12]);
        assert(x[13] == y[13]);
        assert(x[14] == y[14]);
        assert(x[15] == y[15]);
    }

    /// `all` lists every region, each once.
    pub proof fn lemma_all(region: Region)
        ensures
            Self::spec_all().contains(region),
            Self::spec_all().no_duplicates(),
    {
        reveal_with_fuel(position, 24);
        reveal_with_fuel(each_first, 24);
        lemma_found(Self::spec_all(), region);
        lemma_no_duplicates(Self::spec_all());
    }
}

} // verus!
