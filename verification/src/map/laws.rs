//! The laws of the catalogue: what holds of every region and of every
//! location, proved from the tables.

use crate::map::location::{project, Location, LocationInfoView, COORD_MAX};
use crate::map::region::Region;
use crate::map::regional::{spec_all_on_map, Regional};
use crate::map::{
    AllodsBight, CallahansPassage, DeadLands, DrownedVale, EndlessShore, FarranacCoast,
    FishermansRow, Godcrofts, GreatMarch, Heartlands, LinnMercy, LochMor, MapLocation,
    MarbanHol, MooringCounty, Oarbreaker, ReachingTrail, ShackledChasm, Stonecradle,
    TempestIsland, UmbralWildwood, ViperPit, WeatheredExpanse, Westgate,
};
use crate::text::{
    full_name, is_key, is_marked, lemma_full_name_injective, lemma_marked_is_no_key, same_name,
    stripped,
};
use vstd::utf8::is_ascii_chars;
use vstd::prelude::*;

verus! {

/// The location that the full name `name` addresses: the one whose region
/// and API key, joined by two colons, are `name`. There is none for a
/// string that is no location's full name.
pub open spec fn resolve(name: Seq<char>) -> Option<MapLocation> {
    if exists|l: MapLocation| l.spec_full_name() == name {
        Some(choose|l: MapLocation| l.spec_full_name() == name)
    } else {
        None
    }
}

/// The locations whose names the upstream map data left marked: it wrote
/// two question marks for a letter that it could not write. The catalogue
/// keeps their keys and display names as the data gives them. They are the
/// exceptions to what holds of every other key.
pub open spec fn deviates(place: MapLocation) -> bool {
    place == MapLocation::GreatMarch(GreatMarch::DendrField)
    || place == MapLocation::Heartlands(Heartlands::Proex)
    || place == MapLocation::EndlessShore(EndlessShore::SdheFall)
    || place == MapLocation::Godcrofts(Godcrofts::BaghMr)
    || place == MapLocation::Westgate(Westgate::SochnaValley)
    || place == MapLocation::ReachingTrail(ReachingTrail::Thlak)
    || place == MapLocation::CallahansPassage(CallahansPassage::ScthPassing)
    || place == MapLocation::MooringCounty(MooringCounty::ScthCopse)
}

/// Every entry of the catalogue is well formed: its key is not empty and
/// holds ASCII only, its position lies in the coordinate domain, and its
/// key is a well-formed key that its display name writes, unless it is
/// marked: then the display name writes what the key holds besides the
/// marks. The marked entries are those of the locations that deviate.
pub proof fn lemma_entry(place: MapLocation)
    ensures
        place.spec_entry().wf(),
        is_marked(place.spec_entry().local_key@) <==> deviates(place),
{
    match place.spec_region() {
        Region::Stonecradle => lemma_entry_on_map::<Stonecradle>(place),
        Region::AllodsBight => lemma_entry_on_map::<AllodsBight>(place),
        Region::TempestIsland => lemma_entry_on_map::<TempestIsland>(place),
        Region::GreatMarch => lemma_entry_on_map::<GreatMarch>(place),
        Region::MarbanHol => lemma_entry_on_map::<MarbanHol>(place),
        Region::ViperPit => lemma_entry_on_map::<ViperPit>(place),
        Region::ShackledChasm => lemma_entry_on_map::<ShackledChasm>(place),
        Region::DeadLands => lemma_entry_on_map::<DeadLands>(place),
        Region::Heartlands => lemma_entry_on_map::<Heartlands>(place),
        Region::LinnMercy => lemma_entry_on_map::<LinnMercy>(place),
        Region::EndlessShore => lemma_entry_on_map::<EndlessShore>(place),
        Region::Godcrofts => lemma_entry_on_map::<Godcrofts>(place),
        Region::FishermansRow => lemma_entry_on_map::<FishermansRow>(place),
        Region::Westgate => lemma_entry_on_map::<Westgate>(place),
        Region::ReachingTrail => lemma_entry_on_map::<ReachingTrail>(place),
        Region::UmbralWildwood => lemma_entry_on_map::<UmbralWildwood>(place),
        Region::Oarbreaker => lemma_entry_on_map::<Oarbreaker>(place),
        Region::CallahansPassage => lemma_entry_on_map::<CallahansPassage>(place),
        Region::DrownedVale => lemma_entry_on_map::<DrownedVale>(place),
        Region::FarranacCoast => lemma_entry_on_map::<FarranacCoast>(place),
        Region::MooringCounty => lemma_entry_on_map::<MooringCounty>(place),
        Region::WeatheredExpanse => lemma_entry_on_map::<WeatheredExpanse>(place),
        Region::LochMor => lemma_entry_on_map::<LochMor>(place),
    }
}

/// The entry of a place in the region of `R` is well formed, and marked
/// where the location of `R` at that place is.
proof fn lemma_entry_on_map<R: Regional>(place: MapLocation)
    requires
        place.spec_region() == R::spec_region(),
    ensures
        place.spec_entry().wf(),
        exists|l: R|
            #[trigger] l.spec_on_map() == place && is_marked(place.spec_entry().local_key@)
                == l.spec_marked(),
{
    R::lemma_on_map(place);
    let l = choose|l: R| #[trigger] l.spec_on_map() == place;
    R::lemma_entry(l);
}

/// Region and key address one location only: two locations with the same
/// full name are the same location.
pub proof fn lemma_names_injective(a: MapLocation, b: MapLocation)
    requires
        a.spec_full_name() == b.spec_full_name(),
    ensures
        a == b,
{
    Region::lemma_name_is_key(a.spec_region());
    Region::lemma_name_is_key(b.spec_region());
    lemma_full_name_injective(
        a.spec_region().spec_name(),
        a.spec_entry().local_key@,
        b.spec_region().spec_name(),
        b.spec_entry().local_key@,
    );
    Region::lemma_names_distinct(a.spec_region(), b.spec_region());
    if a != b {
        lemma_keys_differ(a, b);
    }
}

/// Region and key are the canonical addressing pair: two locations with
/// the same API names are the same location.
pub proof fn lemma_api_names_unique(a: MapLocation, b: MapLocation)
    requires
        a.spec_name_api() == b.spec_name_api(),
    ensures
        a == b,
{
    lemma_names_injective(a, b);
}

/// Within a region, different locations have different API keys.
pub proof fn lemma_keys_differ(a: MapLocation, b: MapLocation)
    requires
        a.spec_region() == b.spec_region(),
        a != b,
    ensures
        a.spec_name_api().1 != b.spec_name_api().1,
{
    match a.spec_region() {
        Region::Stonecradle => lemma_keys_differ_on_map::<Stonecradle>(a, b),
        Region::AllodsBight => lemma_keys_differ_on_map::<AllodsBight>(a, b),
        Region::TempestIsland => lemma_keys_differ_on_map::<TempestIsland>(a, b),
        Region::GreatMarch => lemma_keys_differ_on_map::<GreatMarch>(a, b),
        Region::MarbanHol => lemma_keys_differ_on_map::<MarbanHol>(a, b),
        Region::ViperPit => lemma_keys_differ_on_map::<ViperPit>(a, b),
        Region::ShackledChasm => lemma_keys_differ_on_map::<ShackledChasm>(a, b),
        Region::DeadLands => lemma_keys_differ_on_map::<DeadLands>(a, b),
        Region::Heartlands => lemma_keys_differ_on_map::<Heartlands>(a, b),
        Region::LinnMercy => lemma_keys_differ_on_map::<LinnMercy>(a, b),
        Region::EndlessShore => lemma_keys_differ_on_map::<EndlessShore>(a, b),
        Region::Godcrofts => lemma_keys_differ_on_map::<Godcrofts>(a, b),
        Region::FishermansRow => lemma_keys_differ_on_map::<FishermansRow>(a, b),
        Region::Westgate => lemma_keys_differ_on_map::<Westgate>(a, b),
        Region::ReachingTrail => lemma_keys_differ_on_map::<ReachingTrail>(a, b),
        Region::UmbralWildwood => lemma_keys_differ_on_map::<UmbralWildwood>(a, b),
        Region::Oarbreaker => lemma_keys_differ_on_map::<Oarbreaker>(a, b),
        Region::CallahansPassage => lemma_keys_differ_on_map::<CallahansPassage>(a, b),
        Region::DrownedVale => lemma_keys_differ_on_map::<DrownedVale>(a, b),
        Region::FarranacCoast => lemma_keys_differ_on_map::<FarranacCoast>(a, b),
        Region::MooringCounty => lemma_keys_differ_on_map::<MooringCounty>(a, b),
        Region::WeatheredExpanse => lemma_keys_differ_on_map::<WeatheredExpanse>(a, b),
        Region::LochMor => lemma_keys_differ_on_map::<LochMor>(a, b),
    }
}

/// Different places in the region of `R` have different API keys.
proof fn lemma_keys_differ_on_map<R: Regional>(a: MapLocation, b: MapLocation)
    requires
        a.spec_region() == R::spec_region(),
        b.spec_region() == R::spec_region(),
        a != b,
    ensures
        a.spec_entry().local_key@ != b.spec_entry().local_key@,
{
    R::lemma_on_map(a);
    R::lemma_on_map(b);
    let x = choose|l: R| #[trigger] l.spec_on_map() == a;
    let y = choose|l: R| #[trigger] l.spec_on_map() == b;
    if x.spec_entry().local_key@ == y.spec_entry().local_key@ {
        R::lemma_keys_distinct(x, y);
    }
}

/// The locations listed for a region are those that belong to it, each
/// listed once.
pub proof fn lemma_locations(region: Region, place: MapLocation)
    ensures
        region.spec_locations().contains(place) <==> place.spec_region() == region,
        region.spec_locations().no_duplicates(),
{
    match region {
        Region::Stonecradle => lemma_all_on_map::<Stonecradle>(place),
        Region::AllodsBight => lemma_all_on_map::<AllodsBight>(place),
        Region::TempestIsland => lemma_all_on_map::<TempestIsland>(place),
        Region::GreatMarch => lemma_all_on_map::<GreatMarch>(place),
        Region::MarbanHol => lemma_all_on_map::<MarbanHol>(place),
        Region::ViperPit => lemma_all_on_map::<ViperPit>(place),
        Region::ShackledChasm => lemma_all_on_map::<ShackledChasm>(place),
        Region::DeadLands => lemma_all_on_map::<DeadLands>(place),
        Region::Heartlands => lemma_all_on_map::<Heartlands>(place),
        Region::LinnMercy => lemma_all_on_map::<LinnMercy>(place),
        Region::EndlessShore => lemma_all_on_map::<EndlessShore>(place),
        Region::Godcrofts => lemma_all_on_map::<Godcrofts>(place),
        Region::FishermansRow => lemma_all_on_map::<FishermansRow>(place),
        Region::Westgate => lemma_all_on_map::<Westgate>(place),
        Region::ReachingTrail => lemma_all_on_map::<ReachingTrail>(place),
        Region::UmbralWildwood => lemma_all_on_map::<UmbralWildwood>(place),
        Region::Oarbreaker => lemma_all_on_map::<Oarbreaker>(place),
        Region::CallahansPassage => lemma_all_on_map::<CallahansPassage>(place),
        Region::DrownedVale => lemma_all_on_map::<DrownedVale>(place),
        Region::FarranacCoast => lemma_all_on_map::<FarranacCoast>(place),
        Region::MooringCounty => lemma_all_on_map::<MooringCounty>(place),
        Region::WeatheredExpanse => lemma_all_on_map::<WeatheredExpanse>(place),
        Region::LochMor => lemma_all_on_map::<LochMor>(place),
    }
}

/// The listing of the region of `R` on the whole map holds each place of
/// the region once, and nothing else.
proof fn lemma_all_on_map<R: Regional>(place: MapLocation)
    ensures
        spec_all_on_map::<R>().contains(place) <==> place.spec_region() == R::spec_region(),
        spec_all_on_map::<R>().no_duplicates(),
{
    let own = R::spec_all();
    let listed = spec_all_on_map::<R>();
    R::lemma_on_map(place);
    if place.spec_region() == R::spec_region() {
        let l = choose|l: R| #[trigger] l.spec_on_map() == place;
        R::lemma_all(l);
        let i = choose|i: int| 0 <= i < own.len() && own[i] == l;
        assert(listed[i] == place);
    }
    if listed.contains(place) {
        let i = choose|i: int| 0 <= i < listed.len() && listed[i] == place;
        assert(own[i].spec_on_map() == place);
    }
    assert forall|i: int, j: int| 0 <= i < listed.len() && 0 <= j < listed.len() && i
        != j implies listed[i] != listed[j] by {
        R::lemma_all(own[i]);
        assert(own[i] != own[j]);
        assert(listed[i] == own[i].spec_on_map() && listed[j] == own[j].spec_on_map());
    }
}

/// Within a region, API keys are unique: no two places in the listing of a
/// region's locations hold the same key.
pub proof fn lemma_keys_unique(region: Region, i: int, j: int)
    requires
        0 <= i < region.spec_locations().len(),
        0 <= j < region.spec_locations().len(),
        i != j,
    ensures
        region.spec_locations()[i].spec_name_api().1 != region.spec_locations()[j].spec_name_api().1,
{
    let a = region.spec_locations()[i];
    let b = region.spec_locations()[j];
    lemma_locations(region, a);
    lemma_locations(region, b);
    assert(region.spec_locations().contains(a));
    assert(region.spec_locations().contains(b));
    lemma_keys_differ(a, b);
}

/// Identity survives the round trip: the API names of a location, composed
/// to its full name, resolve to that location.
pub proof fn lemma_resolve_own_name(l: MapLocation)
    ensures
        resolve(full_name(l.spec_name_api().0, l.spec_name_api().1)) == Some(l),
        resolve(l.spec_full_name()) == Some(l),
{
    let found = choose|other: MapLocation| other.spec_full_name() == l.spec_full_name();
    lemma_names_injective(found, l);
}

/// A name resolves to a location exactly when it is that location's full
/// name.
pub proof fn lemma_resolve(name: Seq<char>, l: MapLocation)
    ensures
        resolve(name) == Some(l) <==> l.spec_full_name() == name,
{
    if l.spec_full_name() == name {
        lemma_resolve_own_name(l);
    }
}

/// Every location that the listings hold projects: its snapshot is that of
/// its entry under the name of the region that lists it.
pub proof fn lemma_projection(region: Region, i: int)
    requires
        0 <= i < region.spec_locations().len(),
    ensures
        project(&region.spec_locations()[i]) == ({
            let entry = region.spec_locations()[i].spec_entry();
            LocationInfoView {
                is_major: entry.is_major,
                coords: entry.coords,
                region_key: region.spec_name(),
                region_display: region.spec_name(),
                location_key: entry.local_key@,
                location_display: entry.display_name@,
            }
        }),
{
    let l = region.spec_locations()[i];
    assert(region.spec_locations().contains(l));
    lemma_locations(region, l);
}

/// The name of every region is a well-formed key: not empty, letters and
/// digits only. So is the API key of every location but those that
/// deviate, whose keys are marked; every key is ASCII and not empty.
pub proof fn lemma_keys_well_formed(l: MapLocation)
    ensures
        is_key(l.spec_name_api().0),
        !deviates(l) ==> is_key(l.spec_name_api().1),
        deviates(l) ==> is_marked(l.spec_name_api().1) && !is_key(l.spec_name_api().1),
        l.spec_name_api().1.len() > 0,
        is_ascii_chars(l.spec_name_api().1),
{
    Region::lemma_name_is_key(l.spec_region());
    lemma_entry(l);
    lemma_marked_is_no_key(l.spec_name_api().1);
}

/// Every location lies in the coordinate domain: both coordinates are at
/// least 0 and at most `COORD_MAX`, which is 1.1 tile sides.
pub proof fn lemma_coords_in_domain(l: MapLocation)
    ensures
        0 <= l.spec_coords().0 <= COORD_MAX,
        0 <= l.spec_coords().1 <= COORD_MAX,
{
    lemma_entry(l);
}

/// The display name of every location but those that deviate writes the
/// same name as its API key: without its spaces and punctuation, and
/// without regard to case, the display name is the key.
pub proof fn lemma_display_names_key(l: MapLocation)
    requires
        !deviates(l),
    ensures
        same_name(l.spec_name_friendly().1, l.spec_name_api().1),
{
    lemma_entry(l);
}

/// The display name of a location that deviates does not write its key,
/// which holds marks; it writes what the key holds besides them.
pub proof fn lemma_display_names_marked_key(l: MapLocation)
    requires
        deviates(l),
    ensures
        !same_name(l.spec_name_friendly().1, l.spec_name_api().1),
        same_name(l.spec_name_friendly().1, stripped(l.spec_name_api().1)),
{
    lemma_entry(l);
    lemma_marked_is_no_key(l.spec_name_api().1);
}

/// The size of the catalogue: 23 regions, and the number of locations that
/// each of them lists, 578 in all.
pub proof fn lemma_catalogue_size()
    ensures
        Region::spec_all().len() == 23,
        Region::Stonecradle.spec_locations().len() == 13,
        Region::AllodsBight.spec_locations().len() == 17,
        Region::TempestIsland.spec_locations().len() == 16,
        Region::GreatMarch.spec_locations().len() == 31,
        Region::MarbanHol.spec_locations().len() == 19,
        Region::ViperPit.spec_locations().len() == 22,
        Region::ShackledChasm.spec_locations().len() == 23,
        Region::DeadLands.spec_locations().len() == 42,
        Region::Heartlands.spec_locations().len() == 30,
        Region::LinnMercy.spec_locations().len() == 20,
        Region::EndlessShore.spec_locations().len() == 26,
        Region::Godcrofts.spec_locations().len() == 24,
        Region::FishermansRow.spec_locations().len() == 22,
        Region::Westgate.spec_locations().len() == 42,
        Region::ReachingTrail.spec_locations().len() == 36,
        Region::UmbralWildwood.spec_locations().len() == 24,
        Region::Oarbreaker.spec_locations().len() == 27,
        Region::CallahansPassage.spec_locations().len() == 27,
        Region::DrownedVale.spec_locations().len() == 19,
        Region::FarranacCoast.spec_locations().len() == 34,
        Region::MooringCounty.spec_locations().len() == 19,
        Region::WeatheredExpanse.spec_locations().len() == 23,
        Region::LochMor.spec_locations().len() == 22,
        Region::Stonecradle.spec_locations().len()
            + Region::AllodsBight.spec_locations().len()
            + Region::TempestIsland.spec_locations().len()
            + Region::GreatMarch.spec_locations().len()
            + Region::MarbanHol.spec_locations().len()
            + Region::ViperPit.spec_locations().len()
            + Region::ShackledChasm.spec_locations().len()
            + Region::DeadLands.spec_locations().len()
            + Region::Heartlands.spec_locations().len()
            + Region::LinnMercy.spec_locations().len()
            + Region::EndlessShore.spec_locations().len()
            + Region::Godcrofts.spec_locations().len()
            + Region::FishermansRow.spec_locations().len()
            + Region::Westgate.spec_locations().len()
            + Region::ReachingTrail.spec_locations().len()
            + Region::UmbralWildwood.spec_locations().len()
            + Region::Oarbreaker.spec_locations().len()
            + Region::CallahansPassage.spec_locations().len()
            + Region::DrownedVale.spec_locations().len()
            + Region::FarranacCoast.spec_locations().len()
            + Region::MooringCounty.spec_locations().len()
            + Region::WeatheredExpanse.spec_locations().len()
            + Region::LochMor.spec_locations().len() == 578,
{
    lemma_size_on_map::<Stonecradle>();
    lemma_size_on_map::<AllodsBight>();
    lemma_size_on_map::<TempestIsland>();
    lemma_size_on_map::<GreatMarch>();
    lemma_size_on_map::<MarbanHol>();
    lemma_size_on_map::<ViperPit>();
    lemma_size_on_map::<ShackledChasm>();
    lemma_size_on_map::<DeadLands>();
    lemma_size_on_map::<Heartlands>();
    lemma_size_on_map::<LinnMercy>();
    lemma_size_on_map::<EndlessShore>();
    lemma_size_on_map::<Godcrofts>();
    lemma_size_on_map::<FishermansRow>();
    lemma_size_on_map::<Westgate>();
    lemma_size_on_map::<ReachingTrail>();
    lemma_size_on_map::<UmbralWildwood>();
    lemma_size_on_map::<Oarbreaker>();
    lemma_size_on_map::<CallahansPassage>();
    lemma_size_on_map::<DrownedVale>();
    lemma_size_on_map::<FarranacCoast>();
    lemma_size_on_map::<MooringCounty>();
    lemma_size_on_map::<WeatheredExpanse>();
    lemma_size_on_map::<LochMor>();
}

/// The listing of the region of `R` on the whole map is as long as the
/// region's own.
proof fn lemma_size_on_map<R: Regional>()
    ensures
        spec_all_on_map::<R>().len() == R::spec_all().len(),
{
}

} // verus!
