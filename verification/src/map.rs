//! Rich inner-game map bindings; see [MapLocation] for top-level variants.
//!
//! The map is a closed catalogue: a fixed set of regions, the hex tiles of
//! the game's world, each with a fixed set of locations. Every location has
//! an entry that holds its API key, its display name, whether it is a major
//! location, and its position on the region's tile. From outside a location
//! is addressed by its full name: the name of its region, two colons, and
//! its API key, as in `Stonecradle::WorldsEnd`.
//!
//! Each region is a type of its own whose values are its locations (see
//! [Regional]); [MapLocation] holds a location of any region, [Region]
//! names the regions, and [Location] is what every location answers. What
//! holds of the whole catalogue is proved in [laws].
//!
//! The upstream map data writes two question marks for a letter that it
//! could not write. Eight locations have such marks in their key and in
//! their display name, and the catalogue keeps both as the data gives them:
//! these keys are no letters-and-digits keys, and [laws::deviates] names
//! them. A location's variant is called by its key, without the marks
//! where it has any.

pub mod allods_bight;
pub mod callahans_passage;
pub mod dead_lands;
pub mod drowned_vale;
pub mod endless_shore;
pub mod farranac_coast;
pub mod fishermans_row;
pub mod godcrofts;
pub mod great_march;
pub mod heartlands;
pub mod laws;
pub mod linn_mercy;
pub mod location;
pub mod loch_mor;
pub mod marban_hol;
pub mod mooring_county;
pub mod oarbreaker;
pub mod reaching_trail;
pub mod region;
pub mod regional;
pub mod seqs;
pub mod shackled_chasm;
pub mod stonecradle;
pub mod tempest_island;
pub mod umbral_wildwood;
pub mod viper_pit;
pub mod weathered_expanse;
pub mod westgate;

use crate::map::laws::{lemma_names_injective, resolve};
use crate::map::regional::find_on_map;
use crate::text::full_name;
use vstd::prelude::*;

pub use allods_bight::AllodsBight;
pub use callahans_passage::CallahansPassage;
pub use dead_lands::DeadLands;
pub use drowned_vale::DrownedVale;
pub use endless_shore::EndlessShore;
pub use farranac_coast::FarranacCoast;
pub use fishermans_row::FishermansRow;
pub use godcrofts::Godcrofts;
pub use great_march::GreatMarch;
pub use heartlands::Heartlands;
pub use linn_mercy::LinnMercy;
pub use location::{Entry, Location, LocationInfo, LocationInfoView, COORD_MAX, COORD_UNIT};
pub use loch_mor::LochMor;
pub use marban_hol::MarbanHol;
pub use mooring_county::MooringCounty;
pub use oarbreaker::Oarbreaker;
pub use reaching_trail::ReachingTrail;
pub use region::Region;
pub use regional::Regional;
pub use shackled_chasm::ShackledChasm;
pub use stonecradle::Stonecradle;
pub use tempest_island::TempestIsland;
pub use umbral_wildwood::UmbralWildwood;
pub use viper_pit::ViperPit;
pub use weathered_expanse::WeatheredExpanse;
pub use westgate::Westgate;

verus! {

/// Rich location marker for each hex and then location of a map: a
/// location of one of the regions.
#[allow(missing_docs)]
#[derive(Clone, Copy, Debug, PartialEq, Eq)]
pub enum MapLocation {
    Stonecradle(Stonecradle),
    AllodsBight(AllodsBight),
    TempestIsland(TempestIsland),
    GreatMarch(GreatMarch),
    MarbanHol(MarbanHol),
    ViperPit(ViperPit),
    ShackledChasm(ShackledChasm),
    DeadLands(DeadLands),
    Heartlands(Heartlands),
    LinnMercy(LinnMercy),
    EndlessShore(EndlessShore),
    Godcrofts(Godcrofts),
    FishermansRow(FishermansRow),
    Westgate(Westgate),
    ReachingTrail(ReachingTrail),
    UmbralWildwood(UmbralWildwood),
    Oarbreaker(Oarbreaker),
    CallahansPassage(CallahansPassage),
    DrownedVale(DrownedVale),
    FarranacCoast(FarranacCoast),
    MooringCounty(MooringCounty),
    WeatheredExpanse(WeatheredExpanse),
    LochMor(LochMor),
}

impl MapLocation {
    /// The region that this location belongs to.
    pub open spec fn spec_region(&self) -> Region {
        match self {
            MapLocation::Stonecradle(_) => Region::Stonecradle,
            MapLocation::AllodsBight(_) => Region::AllodsBight,
            MapLocation::TempestIsland(_) => Region::TempestIsland,
            MapLocation::GreatMarch(_) => Region::GreatMarch,
            MapLocation::MarbanHol(_) => Region::MarbanHol,
            MapLocation::ViperPit(_) => Region::ViperPit,
            MapLocation::ShackledChasm(_) => Region::ShackledChasm,
            MapLocation::DeadLands(_) => Region::DeadLands,
            MapLocation::Heartlands(_) => Region::Heartlands,
            MapLocation::LinnMercy(_) => Region::LinnMercy,
            MapLocation::EndlessShore(_) => Region::EndlessShore,
            MapLocation::Godcrofts(_) => Region::Godcrofts,
            MapLocation::FishermansRow(_) => Region::FishermansRow,
            MapLocation::Westgate(_) => Region::Westgate,
            MapLocation::ReachingTrail(_) => Region::ReachingTrail,
            MapLocation::UmbralWildwood(_) => Region::UmbralWildwood,
            MapLocation::Oarbreaker(_) => Region::Oarbreaker,
            MapLocation::CallahansPassage(_) => Region::CallahansPassage,
            MapLocation::DrownedVale(_) => Region::DrownedVale,
            MapLocation::FarranacCoast(_) => Region::FarranacCoast,
            MapLocation::MooringCounty(_) => Region::MooringCounty,
            MapLocation::WeatheredExpanse(_) => Region::WeatheredExpanse,
            MapLocation::LochMor(_) => Region::LochMor,
        }
    }

    /// The catalogue's entry for this location.
    pub open spec fn spec_entry(&self) -> Entry {
        match self {
            MapLocation::Stonecradle(val) => val.table(),
            MapLocation::AllodsBight(val) => val.table(),
            MapLocation::TempestIsland(val) => val.table(),
            MapLocation::GreatMarch(val) => val.table(),
            MapLocation::MarbanHol(val) => val.table(),
            MapLocation::ViperPit(val) => val.table(),
            MapLocation::ShackledChasm(val) => val.table(),
            MapLocation::DeadLands(val) => val.table(),
            MapLocation::Heartlands(val) => val.table(),
            MapLocation::LinnMercy(val) => val.table(),
            MapLocation::EndlessShore(val) => val.table(),
            MapLocation::Godcrofts(val) => val.table(),
            MapLocation::FishermansRow(val) => val.table(),
            MapLocation::Westgate(val) => val.table(),
            MapLocation::ReachingTrail(val) => val.table(),
            MapLocation::UmbralWildwood(val) => val.table(),
            MapLocation::Oarbreaker(val) => val.table(),
            MapLocation::CallahansPassage(val) => val.table(),
            MapLocation::DrownedVale(val) => val.table(),
            MapLocation::FarranacCoast(val) => val.table(),
            MapLocation::MooringCounty(val) => val.table(),
            MapLocation::WeatheredExpanse(val) => val.table(),
            MapLocation::LochMor(val) => val.table(),
        }
    }

    /// The full name of this location, by which `from_name` finds it again:
    /// the name of its region, two colons, its API key.
    pub open spec fn spec_full_name(&self) -> Seq<char> {
        full_name(self.spec_region().spec_name(), self.spec_entry().local_key@)
    }

    /// The region that this location belongs to.
    pub fn region(&self) -> (region: Region)
        ensures
            region == self.spec_region(),
    {
        match self {
            MapLocation::Stonecradle(_) => Region::Stonecradle,
            MapLocation::AllodsBight(_) => Region::AllodsBight,
            MapLocation::TempestIsland(_) => Region::TempestIsland,
            MapLocation::GreatMarch(_) => Region::GreatMarch,
            MapLocation::MarbanHol(_) => Region::MarbanHol,
            MapLocation::ViperPit(_) => Region::ViperPit,
            MapLocation::ShackledChasm(_) => Region::ShackledChasm,
            MapLocation::DeadLands(_) => Region::DeadLands,
            MapLocation::Heartlands(_) => Region::Heartlands,
            MapLocation::LinnMercy(_) => Region::LinnMercy,
            MapLocation::EndlessShore(_) => Region::EndlessShore,
            MapLocation::Godcrofts(_) => Region::Godcrofts,
            MapLocation::FishermansRow(_) => Region::FishermansRow,
            MapLocation::Westgate(_) => Region::Westgate,
            MapLocation::ReachingTrail(_) => Region::ReachingTrail,
            MapLocation::UmbralWildwood(_) => Region::UmbralWildwood,
            MapLocation::Oarbreaker(_) => Region::Oarbreaker,
            MapLocation::CallahansPassage(_) => Region::CallahansPassage,
            MapLocation::DrownedVale(_) => Region::DrownedVale,
            MapLocation::FarranacCoast(_) => Region::FarranacCoast,
            MapLocation::MooringCounty(_) => Region::MooringCounty,
            MapLocation::WeatheredExpanse(_) => Region::WeatheredExpanse,
            MapLocation::LochMor(_) => Region::LochMor,
        }
    }

    /// The catalogue's entry for this location.
    pub fn entry(&self) -> (entry: Entry)
        ensures
            entry == self.spec_entry(),
    {
        match self {
            MapLocation::Stonecradle(val) => val.entry(),
            MapLocation::AllodsBight(val) => val.entry(),
            MapLocation::TempestIsland(val) => val.entry(),
            MapLocation::GreatMarch(val) => val.entry(),
            MapLocation::MarbanHol(val) => val.entry(),
            MapLocation::ViperPit(val) => val.entry(),
            MapLocation::ShackledChasm(val) => val.entry(),
            MapLocation::DeadLands(val) => val.entry(),
            MapLocation::Heartlands(val) => val.entry(),
            MapLocation::LinnMercy(val) => val.entry(),
            MapLocation::EndlessShore(val) => val.entry(),
            MapLocation::Godcrofts(val) => val.entry(),
            MapLocation::FishermansRow(val) => val.entry(),
            MapLocation::Westgate(val) => val.entry(),
            MapLocation::ReachingTrail(val) => val.entry(),
            MapLocation::UmbralWildwood(val) => val.entry(),
            MapLocation::Oarbreaker(val) => val.entry(),
            MapLocation::CallahansPassage(val) => val.entry(),
            MapLocation::DrownedVale(val) => val.entry(),
            MapLocation::FarranacCoast(val) => val.entry(),
            MapLocation::MooringCounty(val) => val.entry(),
            MapLocation::WeatheredExpanse(val) => val.entry(),
            MapLocation::LochMor(val) => val.entry(),
        }
    }
}

impl Location for MapLocation {
    open spec fn spec_is_major(&self) -> bool {
        self.spec_entry().is_major
    }

    open spec fn spec_coords(&self) -> (u32, u32) {
        self.spec_entry().coords
    }

    open spec fn spec_name_api(&self) -> (Seq<char>, Seq<char>) {
        (self.spec_region().spec_name(), self.spec_entry().local_key@)
    }

    open spec fn spec_name_friendly(&self) -> (Seq<char>, Seq<char>) {
        (self.spec_region().spec_name(), self.spec_entry().display_name@)
    }

    /// Gets the map location whose full name is `name`: the region's name,
    /// two colons, the location's API key, as in `Stonecradle::WorldsEnd`.
    /// The match is exact and case-sensitive; any other string finds nothing.
    fn from_name(name: &str) -> (found: Option<Self>)
        ensures
            found == resolve(name@),
    {
        proof {
            // At most one location has the name, so the one found is the one
            // that `resolve` speaks of.
            assert forall|a: MapLocation, b: MapLocation|
                a.spec_full_name() == name@ && b.spec_full_name() == name@ implies a == b by {
                lemma_names_injective(a, b);
            }
        }
        if let Some(place) = find_on_map::<Stonecradle>(name) {
            return Some(place);
        }
        if let Some(place) = find_on_map::<AllodsBight>(name) {
            return Some(place);
        }
        if let Some(place) = find_on_map::<TempestIsland>(name) {
            return Some(place);
        }
        if let Some(place) = find_on_map::<GreatMarch>(name) {
            return Some(place);
        }
        if let Some(place) = find_on_map::<MarbanHol>(name) {
            return Some(place);
        }
        if let Some(place) = find_on_map::<ViperPit>(name) {
            return Some(place);
        }
        if let Some(place) = find_on_map::<ShackledChasm>(name) {
            return Some(place);
        }
        if let Some(place) = find_on_map::<DeadLands>(name) {
            return Some(place);
        }
        if let Some(place) = find_on_map::<Heartlands>(name) {
            return Some(place);
        }
        if let Some(place) = find_on_map::<LinnMercy>(name) {
            return Some(place);
        }
        if let Some(place) = find_on_map::<EndlessShore>(name) {
            return Some(place);
        }
        if let Some(place) = find_on_map::<Godcrofts>(name) {
            return Some(place);
        }
        if let Some(place) = find_on_map::<FishermansRow>(name) {
            return Some(place);
        }
        if let Some(place) = find_on_map::<Westgate>(name) {
            return Some(place);
        }
        if let Some(place) = find_on_map::<ReachingTrail>(name) {
            return Some(place);
        }
        if let Some(place) = find_on_map::<UmbralWildwood>(name) {
            return Some(place);
        }
        if let Some(place) = find_on_map::<Oarbreaker>(name) {
            return Some(place);
        }
        if let Some(place) = find_on_map::<CallahansPassage>(name) {
            return Some(place);
        }
        if let Some(place) = find_on_map::<DrownedVale>(name) {
            return Some(place);
        }
        if let Some(place) = find_on_map::<FarranacCoast>(name) {
            return Some(place);
        }
        if let Some(place) = find_on_map::<MooringCounty>(name) {
            return Some(place);
        }
        if let Some(place) = find_on_map::<WeatheredExpanse>(name) {
            return Some(place);
        }
        if let Some(place) = find_on_map::<LochMor>(name) {
            return Some(place);
        }
        assert forall|l: MapLocation|
            full_name((#[trigger] l.spec_name_api()).0, l.spec_name_api().1) != name@ by {
            assert(l.spec_full_name() != name@);
        }
        None
    }

    fn is_major(&self) -> (major: bool) {
        self.entry().is_major
    }

    fn coords(&self) -> (at: (u32, u32)) {
        self.entry().coords
    }

    fn name_api(&self) -> (names: (&str, &str)) {
        (self.region().name(), self.entry().local_key)
    }

    fn name_friendly(&self) -> (names: (&str, &str)) {
        (self.region().name(), self.entry().display_name)
    }
}

} // verus!
