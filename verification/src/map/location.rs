//! What every location of the map answers, and the snapshot of those answers
//! that leaves the catalogue.

use crate::text::full_name;
use vstd::prelude::*;
use vstd::string::*;

verus! {

/// The length of a region's tile side in coordinate units: a coordinate counts
/// billionths of the side.
pub const COORD_UNIT: u32 = 1_000_000_000;

/// The largest coordinate in the catalogue's domain, a tenth beyond the
/// tile's far edge: the upstream map data places a few locations just
/// outside their tile, and they are kept where it places them.
pub const COORD_MAX: u32 = 1_100_000_000;

/// One entry of the catalogue: the fixed attributes of a location within
/// its region.
pub struct Entry {
    /// The API key, unique within the region: letters and digits, and
    /// question marks where the upstream map data left the name marked.
    pub local_key: &'static str,
    /// The name shown to users.
    pub display_name: &'static str,
    /// Whether this is a major location.
    pub is_major: bool,
    /// The position on the region's tile: the distances from its left and
    /// from its top edge, in billionths of its side.
    pub coords: (u32, u32),
}

/// Common trait for all map locations of a given hex, one region of the map.
pub trait Location: Sized {
    /// Whether this location is a major one.
    spec fn spec_is_major(&self) -> bool;

    /// The position on the region's tile, in billionths of its side.
    spec fn spec_coords(&self) -> (u32, u32);

    /// The API keys of the region and of the location within it.
    spec fn spec_name_api(&self) -> (Seq<char>, Seq<char>);

    /// The names of the region and of the location as shown to users.
    spec fn spec_name_friendly(&self) -> (Seq<char>, Seq<char>);

    /// Gets the map location whose full name (`Region::Key`, both parts API
    /// keys, case-sensitive) is `name`, if there is one.
    fn from_name(name: &str) -> (found: Option<Self>)
        ensures
            match found {
                Some(l) => full_name(l.spec_name_api().0, l.spec_name_api().1) == name@,
                None => forall|l: Self|
                    full_name((#[trigger] l.spec_name_api()).0, l.spec_name_api().1) != name@,
            },
    ;

    /// Generates information from current details.
    fn info(&self) -> (info: LocationInfo)
        ensures
            info@ == (LocationInfoView {
                is_major: self.spec_is_major(),
                coords: self.spec_coords(),
                region_key: self.spec_name_api().0,
                region_display: self.spec_name_friendly().0,
                location_key: self.spec_name_api().1,
                location_display: self.spec_name_friendly().1,
            }),
    {
        LocationInfo::assemble(
            self.is_major(),
            self.coords(),
            self.name_api(),
            self.name_friendly(),
        )
    }

    /// Checks if this map location is major or not.
    fn is_major(&self) -> (major: bool)
        ensures
            major == self.spec_is_major(),
    ;

    /// The `x` and `y` coordinates of this location, in billionths of the
    /// tile's side.
    fn coords(&self) -> (at: (u32, u32))
        ensures
            at == self.spec_coords(),
    ;

    /// Provides the api-centric name for the overall hex map tile and inner
    /// location.
    fn name_api(&self) -> (names: (&str, &str))
        ensures
            names.0@ == self.spec_name_api().0,
            names.1@ == self.spec_name_api().1,
    ;

    /// Provides the human-readable name for the overall hex map tile and
    /// inner location.
    fn name_friendly(&self) -> (names: (&str, &str))
        ensures
            names.0@ == self.spec_name_friendly().0,
            names.1@ == self.spec_name_friendly().1,
    ;
}

/// Location information generated from a given [Location] implementation,
/// ready to be serialized.
pub struct LocationInfo {
    /// Indicates if this location is a major point.
    pub is_major: bool,
    /// Coordinates of location, in billionths of the tile's side.
    pub coords: (u32, u32),
    /// Region name which is suitable for api usage.
    pub region_key: String,
    /// Region name to display to users.
    pub region_display: String,
    /// Location name which is suitable for api usage.
    pub location_key: String,
    /// Location name to display to users.
    pub location_display: String,
}

/// What a [LocationInfo] holds, with each string as its characters.
pub struct LocationInfoView {
    pub is_major: bool,
    pub coords: (u32, u32),
    pub region_key: Seq<char>,
    pub region_display: Seq<char>,
    pub location_key: Seq<char>,
    pub location_display: Seq<char>,
}

impl View for LocationInfo {
    type V = LocationInfoView;

    open spec fn view(&self) -> LocationInfoView {
        LocationInfoView {
            is_major: self.is_major,
            coords: self.coords,
            region_key: self.region_key@,
            region_display: self.region_display@,
            location_key: self.location_key@,
            location_display: self.location_display@,
        }
    }
}

impl Clone for LocationInfo {
    fn clone(&self) -> (copy: LocationInfo)
        ensures
            copy@ == self@,
    {
        LocationInfo {
            is_major: self.is_major,
            coords: (self.coords.0, self.coords.1),
            region_key: self.region_key.clone(),
            region_display: self.region_display.clone(),
            location_key: self.location_key.clone(),
            location_display: self.location_display.clone(),
        }
    }
}

/// The snapshot that `location` projects to: what its four accessors
/// report, flattened.
pub open spec fn project<L: Location>(location: &L) -> LocationInfoView {
    LocationInfoView {
        is_major: location.spec_is_major(),
        coords: location.spec_coords(),
        region_key: location.spec_name_api().0,
        region_display: location.spec_name_friendly().0,
        location_key: location.spec_name_api().1,
        location_display: location.spec_name_friendly().1,
    }
}

impl LocationInfo {
    /// Generates information from given location implementation. Never
    /// fails: every location projects.
    pub fn new<L: Location>(location: &L) -> (info: LocationInfo)
        ensures
            info@ == project(location),
    {
        LocationInfo::assemble(
            location.is_major(),
            location.coords(),
            location.name_api(),
            location.name_friendly(),
        )
    }

    /// Flattens the answers of a location's four accessors into a snapshot.
    pub fn assemble(
        is_major: bool,
        coords: (u32, u32),
        api: (&str, &str),
        friendly: (&str, &str),
    ) -> (info: LocationInfo)
        ensures
            info@ == (LocationInfoView {
                is_major,
                coords,
                region_key: api.0@,
                region_display: friendly.0@,
                location_key: api.1@,
                location_display: friendly.1@,
            }),
    {
        LocationInfo {
            is_major,
            coords,
            region_key: String::from_str(api.0),
            region_display: String::from_str(friendly.0),
            location_key: String::from_str(api.1),
            location_display: String::from_str(friendly.1),
        }
    }
}

} // verus!
