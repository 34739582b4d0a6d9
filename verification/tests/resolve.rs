use holenews::map::{Location, LocationInfo, MapLocation, Stonecradle};
use holenews::text::{compose, local_key, str_eq};

#[test]
fn resolves_worlds_end() {
    let found = MapLocation::from_name("Stonecradle::WorldsEnd");
    assert_eq!(found, Some(MapLocation::Stonecradle(Stonecradle::WorldsEnd)));
    let location = found.unwrap();
    assert!(location.is_major());
    let (x, y) = location.coords();
    assert_eq!((x, y), (214_929_900, 552_176_650));
    assert!((x as f64 / 1e9 - 0.2149).abs() < 1e-4);
    assert!((y as f64 / 1e9 - 0.5522).abs() < 1e-4);
    let info = LocationInfo::new(&location);
    assert!(info.is_major);
    assert_eq!(info.coords, (214_929_900, 552_176_650));
    assert_eq!(info.region_key, "Stonecradle");
    assert_eq!(info.region_display, "Stonecradle");
    assert_eq!(info.location_key, "WorldsEnd");
    assert_eq!(info.location_display, "World's End");
}

#[test]
fn misses_on_garbage() {
    assert_eq!(MapLocation::from_name("NotARealRegion::NotARealLocation"), None);
}

#[test]
fn misses_on_names_that_are_almost_right() {
    for name in [
        "",
        "::",
        "Stonecradle",
        "WorldsEnd",
        "Stonecradle::",
        "::WorldsEnd",
        "Stonecradle:WorldsEnd",
        "Stonecradle:::WorldsEnd",
        "Stonecradle::WorldsEnd ",
        " Stonecradle::WorldsEnd",
        "Stonecradle::WorldsEnd::",
        "Stonecradle::World's End",
        "stonecradle::WorldsEnd",
        "Stonecradle::worldsend",
        "STONECRADLE::WORLDSEND",
        "DeadLands::WorldsEnd",
        "StonecradleHex::WorldsEnd",
        "Stonecradle::WorldsEn",
        "Stonecradle::WorldsEnd\u{e9}",
        "St\u{f6}necradle::WorldsEnd",
        "Stonecradle\u{2237}WorldsEnd",
    ] {
        assert_eq!(MapLocation::from_name(name), None, "{:?}", name);
    }
}

#[test]
fn info_is_the_same_by_either_way() {
    let location = MapLocation::from_name("DeadLands::AbandonedWard").unwrap();
    let by_new = LocationInfo::new(&location);
    let by_method = location.info();
    let copy = by_new.clone();
    for info in [&by_method, &copy] {
        assert_eq!(info.is_major, by_new.is_major);
        assert_eq!(info.coords, by_new.coords);
        assert_eq!(info.region_key, by_new.region_key);
        assert_eq!(info.region_display, by_new.region_display);
        assert_eq!(info.location_key, by_new.location_key);
        assert_eq!(info.location_display, by_new.location_display);
    }
    assert_eq!(by_new.region_key, "DeadLands");
    assert_eq!(by_new.location_key, "AbandonedWard");
    assert_eq!(by_new.location_display, "Abandoned Ward");
    assert_eq!(by_new.is_major, location.is_major());
    assert_eq!(by_new.coords, location.coords());
}

#[test]
fn info_of_a_region_location() {
    let info = Stonecradle::TheHeirsKnife.info();
    assert!(info.is_major);
    assert_eq!(info.coords, (276_417_140, 772_046_200));
    assert_eq!(info.region_key, "Stonecradle");
    assert_eq!(info.location_key, "TheHeirsKnife");
    assert_eq!(info.location_display, "The Heir's Knife");
}

#[test]
fn projects_every_location() {
    for region in holenews::map::Region::all() {
        for location in region.locations() {
            let info = location.info();
            assert_eq!(info.is_major, location.is_major());
            assert_eq!(info.coords, location.coords());
            assert_eq!((info.region_key.as_str(), info.location_key.as_str()), location.name_api());
            assert_eq!(
                (info.region_display.as_str(), info.location_display.as_str()),
                location.name_friendly()
            );
        }
    }
}

#[test]
fn composes_full_names() {
    assert_eq!(compose("Stonecradle", "WorldsEnd"), "Stonecradle::WorldsEnd");
    assert_eq!(compose("", ""), "::");
    assert_eq!(compose("a", ""), "a::");
}

#[test]
fn reads_the_key_behind_a_region() {
    assert_eq!(local_key("Stonecradle::WorldsEnd", "Stonecradle"), Some("WorldsEnd"));
    assert_eq!(local_key("Stonecradle::", "Stonecradle"), Some(""));
    assert_eq!(local_key("Stonecradle::a::b", "Stonecradle"), Some("a::b"));
    assert_eq!(local_key("::x", ""), Some("x"));
    assert_eq!(local_key("Stonecradle:WorldsEnd", "Stonecradle"), None);
    assert_eq!(local_key("Stonecradle", "Stonecradle"), None);
    assert_eq!(local_key("Stonecradle:", "Stonecradle"), None);
    assert_eq!(local_key("Stonecradl::WorldsEnd", "Stonecradle"), None);
    assert_eq!(local_key("Stonecradle::W\u{f6}rld", "Stonecradle"), None);
    assert_eq!(local_key("St\u{f6}ne::World", "St\u{f6}ne"), None);
    assert_eq!(local_key("", "Stonecradle"), None);
}

#[test]
fn compares_strings() {
    assert!(str_eq("", ""));
    assert!(str_eq("WorldsEnd", "WorldsEnd"));
    assert!(!str_eq("WorldsEnd", "worldsEnd"));
    assert!(!str_eq("WorldsEnd", "WorldsEnd "));
    assert!(!str_eq("WorldsEnd", "WorldsEn"));
    assert!(str_eq("W\u{f6}rld", "W\u{f6}rld"));
    assert!(!str_eq("W\u{f6}rld", "World"));
}
