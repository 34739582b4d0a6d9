//! The catalogue's table for one region, and what follows for every type
//! that holds one: its values answer as locations and are found by name.

use crate::map::location::{Entry, Location, COORD_MAX};
use crate::map::region::Region;
use crate::map::MapLocation;
use crate::text::{
    full_name, is_key, is_marked, lemma_full_name_injective, lemma_full_name_is_ascii, local_key,
    same_name, stripped,
};
use vstd::prelude::*;
use vstd::utf8::is_ascii_chars;

verus! {

impl Entry {
    /// An entry is well formed when its key is not empty and holds ASCII
    /// only, its position lies in the coordinate domain, and its key is a
    /// well-formed key of which its display name writes the name. The last
    /// is not asked of a marked key, which is kept as the upstream map
    /// data gives it: there the display name writes what the key holds
    /// besides the marks.
    pub open spec fn wf(&self) -> bool {
        &&& self.local_key@.len() > 0
        &&& is_ascii_chars(self.local_key@)
        &&& if is_marked(self.local_key@) {
            same_name(self.display_name@, stripped(self.local_key@))
        } else {
            is_key(self.local_key@) && same_name(self.display_name@, self.local_key@)
        }
        &&& self.coords.0 <= COORD_MAX
        &&& self.coords.1 <= COORD_MAX
    }
}

/// The locations of a single region: a closed set of values, each with its
/// entry in the catalogue. To implement this trait is to show that the
/// region's table is well formed, that no two of its locations share a key,
/// and that `all` lists each of them once.
///
/// A location is named by its API key; where the key is marked, by the key
/// without its marks.
pub trait Regional: Sized + Copy {
    /// The region that these locations belong to.
    spec fn spec_region() -> Region;

    /// The catalogue's entry for this location.
    spec fn spec_entry(&self) -> Entry;

    /// Whether this is a location whose name the upstream map data left
    /// marked.
    spec fn spec_marked(&self) -> bool;

    /// Every location of the region, in the catalogue's order.
    spec fn spec_all() -> Seq<Self>;

    /// This location among those of the whole map.
    spec fn spec_on_map(self) -> MapLocation;

    /// The region that these locations belong to.
    fn region() -> (region: Region)
        ensures
            region == Self::spec_region(),
    ;

    /// The catalogue's entry for this location.
    fn entry(&self) -> (entry: Entry)
        ensures
            entry == self.spec_entry(),
    ;

    /// Every location of the region, in the catalogue's order.
    fn all() -> (all: Vec<Self>)
        ensures
            all@ == Self::spec_all(),
    ;

    /// Gets the location of this region whose API key is `key`, if there is
    /// one.
    fn from_key(key: &str) -> (found: Option<Self>)
        ensures
            match found {
                Some(l) => l.spec_entry().local_key@ == key@,
                None => forall|l: Self| (#[trigger] l.spec_entry()).local_key@ != key@,
            },
    ;

    /// This location among those of the whole map.
    fn on_map(self) -> (place: MapLocation)
        ensures
            place == self.spec_on_map(),
    ;

    /// Every entry of the region is well formed, and its key is marked
    /// exactly where the location is said to be.
    proof fn lemma_entry(l: Self)
        ensures
            l.spec_entry().wf(),
            is_marked(l.spec_entry().local_key@) == l.spec_marked(),
    ;

    /// No two locations of the region share an API key.
    proof fn lemma_keys_distinct(a: Self, b: Self)
        requires
            a.spec_entry().local_key@ == b.spec_entry().local_key@,
        ensures
            a == b,
    ;

    /// `all` lists every location of the region, each once.
    proof fn lemma_all(l: Self)
        ensures
            Self::spec_all().contains(l),
            Self::spec_all().no_duplicates(),
    ;

    /// `on_map` puts each location of the region on the whole map, under
    /// its region and with its entry, no two of them at one place, and
    /// reaches every place of the region there.
    proof fn lemma_on_map(place: MapLocation)
        ensures
            forall|l: Self|
                (#[trigger] l.spec_on_map()).spec_region() == Self::spec_region()
                    && l.spec_on_map().spec_entry() == l.spec_entry(),
            forall|a: Self, b: Self|
                #[trigger] a.spec_on_map() == #[trigger] b.spec_on_map() ==> a == b,
            place.spec_region() == Self::spec_region() ==> exists|l: Self| #[trigger]
                l.spec_on_map() == place,
    ;
}

/// The locations of a region answer from their entries, under the name of
/// their region, and are found by their full names.
impl<R: Regional> Location for R {
    open spec fn spec_is_major(&self) -> bool {
        self.spec_entry().is_major
    }

    open spec fn spec_coords(&self) -> (u32, u32) {
        self.spec_entry().coords
    }

    open spec fn spec_name_api(&self) -> (Seq<char>, Seq<char>) {
        (R::spec_region().spec_name(), self.spec_entry().local_key@)
    }

    open spec fn spec_name_friendly(&self) -> (Seq<char>, Seq<char>) {
        (R::spec_region().spec_name(), self.spec_entry().display_name@)
    }

    fn from_name(name: &str) -> (found: Option<Self>) {
        let region = R::region();
        proof {
            Region::lemma_name_is_key(region);
        }
        match local_key(name, region.name()) {
            Some(key) => {
                let found = R::from_key(key);
                proof {
                    assert forall|l: Self| found is None implies full_name(
                        (#[trigger] l.spec_name_api()).0,
                        l.spec_name_api().1,
                    ) != name@ by {
                        let other = l.spec_entry().local_key@;
                        if full_name(region.spec_name(), other) == name@ {
                            lemma_full_name_injective(
                                region.spec_name(),
                                key@,
                                region.spec_name(),
                                other,
                            );
                        }
                    }
                }
                found
            },
            None => {
                proof {
                    assert forall|l: Self|
                        full_name((#[trigger] l.spec_name_api()).0, l.spec_name_api().1)
                            != name@ by {
                        let key = l.spec_entry().local_key@;
                        R::lemma_entry(l);
                        lemma_full_name_is_ascii(region.spec_name(), key);
                        assert((region.spec_name() + "::"@).is_prefix_of(
                            full_name(region.spec_name(), key),
                        ));
                    }
                }
                None
            },
        }
    }

    fn is_major(&self) -> (major: bool) {
        self.entry().is_major
    }

    fn coords(&self) -> (at: (u32, u32)) {
        self.entry().coords
    }

    fn name_api(&self) -> (names: (&str, &str)) {
        (R::region().name(), self.entry().local_key)
    }

    fn name_friendly(&self) -> (names: (&str, &str)) {
        (R::region().name(), self.entry().display_name)
    }
}

/// Gets the location of the region of `R` whose full name is `name`, as a
/// location of the whole map.
pub fn find_on_map<R: Regional>(name: &str) -> (found: Option<MapLocation>)
    ensures
        match found {
            Some(place) => place.spec_region() == R::spec_region() && place.spec_full_name()
                == name@,
            None => forall|place: MapLocation|
                place.spec_region() == R::spec_region() ==> #[trigger] place.spec_full_name()
                    != name@,
        },
{
    match R::from_name(name) {
        Some(l) => {
            proof {
                R::lemma_on_map(l.spec_on_map());
            }
            Some(l.on_map())
        },
        None => {
            proof {
                assert forall|place: MapLocation|
                    place.spec_region() == R::spec_region() implies #[trigger]
                    place.spec_full_name() != name@ by {
                    R::lemma_on_map(place);
                    let l = choose|l: R| #[trigger] l.spec_on_map() == place;
                    assert(l.spec_name_api().1 == place.spec_name_api().1);
                }
            }
            None
        },
    }
}

/// The locations of the region of `R`, each as a location of the whole map.
pub open spec fn spec_all_on_map<R: Regional>() -> Seq<MapLocation> {
    R::spec_all().map_values(|l: R| l.spec_on_map())
}

/// The locations of the region of `R`, each as a location of the whole map,
/// in the catalogue's order.
pub fn all_on_map<R: Regional>() -> (all: Vec<MapLocation>)
    ensures
        all@ == spec_all_on_map::<R>(),
{
    let own = R::all();
    let mut all: Vec<MapLocation> = Vec::new();
    let mut i: usize = 0;
    while i < own.len()
        invariant
            i <= own.len(),
            own@ == R::spec_all(),
            all@.len() == i,
            forall|j: int| 0 <= j < i ==> all@[j] == own@[j].spec_on_map(),
        decreases own.len() - i,
    {
        all.push(own[i].on_map());
        i += 1;
    }
    assert(all@ =~= spec_all_on_map::<R>());
    all
}

} // verus!
