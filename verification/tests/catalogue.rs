use holenews::map::{
    DeadLands, Heartlands, Location, MapLocation, Region, Regional, Stonecradle, Westgate,
    COORD_MAX, COORD_UNIT,
};
use holenews::text::compose;

fn every_location() -> Vec<MapLocation> {
    let mut all = Vec::new();
    for region in Region::all() {
        all.extend(region.locations());
    }
    all
}

#[test]
fn lists_every_region_once() {
    let regions = Region::all();
    assert_eq!(regions.len(), 23);
    for (i, a) in regions.iter().enumerate() {
        for b in regions.iter().skip(i + 1) {
            assert_ne!(a, b);
            assert_ne!(a.name(), b.name());
        }
    }
    assert_eq!(regions[0], Region::Stonecradle);
    assert_eq!(regions[22], Region::LochMor);
}

#[test]
fn lists_every_location_under_its_region() {
    let mut total = 0;
    for region in Region::all() {
        let locations = region.locations();
        assert!(locations.len() >= 13 && locations.len() <= 42);
        for location in &locations {
            assert_eq!(location.region(), region);
            assert_eq!(location.name_api().0, region.name());
            assert_eq!(location.name_friendly().0, region.name());
        }
        total += locations.len();
    }
    assert_eq!(total, 578);
    assert_eq!(Region::Stonecradle.locations().len(), 13);
    assert_eq!(Region::DeadLands.locations().len(), 42);
    assert_eq!(Region::Westgate.locations().len(), 42);
    assert_eq!(Region::ReachingTrail.locations().len(), 36);
    let sizes: Vec<usize> = Region::all().iter().map(|r| r.locations().len()).collect();
    assert_eq!(
        sizes,
        vec![13, 17, 16, 31, 19, 22, 23, 42, 30, 20, 26, 24, 22, 42, 36, 24, 27, 27, 19, 34, 19, 23, 22]
    );
    assert_eq!(Stonecradle::all().len(), 13);
    assert_eq!(DeadLands::all().len(), 42);
    assert_eq!(
        Region::Stonecradle.locations()[12],
        MapLocation::Stonecradle(Stonecradle::WorldsEnd)
    );
}

#[test]
fn keys_are_unique_within_each_region() {
    for region in Region::all() {
        let locations = region.locations();
        for (i, a) in locations.iter().enumerate() {
            for b in locations.iter().skip(i + 1) {
                assert_ne!(a.name_api().1, b.name_api().1);
            }
        }
    }
}

#[test]
fn keys_may_repeat_across_regions() {
    let a = MapLocation::from_name("Stonecradle::TheAgingOcean").unwrap();
    let b = MapLocation::from_name("EndlessShore::TheAgingOcean");
    assert_eq!(a.name_api(), ("Stonecradle", "TheAgingOcean"));
    if let Some(b) = b {
        assert_ne!(a, b);
        assert_eq!(b.name_api().1, "TheAgingOcean");
    }
    let shared: Vec<MapLocation> = every_location()
        .into_iter()
        .filter(|l| l.name_api().1 == "TheAgingOcean")
        .collect();
    assert_eq!(shared.len(), 2);
    assert_ne!(shared[0].region(), shared[1].region());
}

#[test]
fn every_full_name_resolves_to_its_location() {
    for location in every_location() {
        let (region, key) = location.name_api();
        let name = compose(region, key);
        assert_eq!(MapLocation::from_name(&name), Some(location));
    }
}

#[test]
fn every_coordinate_lies_in_the_domain() {
    assert_eq!(COORD_UNIT, 1_000_000_000);
    assert_eq!(COORD_MAX, 1_100_000_000);
    for location in every_location() {
        let (x, y) = location.coords();
        assert!(x <= COORD_MAX && y <= COORD_MAX);
        let (fx, fy) = (x as f64 / COORD_UNIT as f64, y as f64 / COORD_UNIT as f64);
        assert!((0.0..=1.1).contains(&fx) && (0.0..=1.1).contains(&fy));
    }
}

#[test]
fn keeps_coordinates_beyond_the_tile() {
    let ash_step = MapLocation::Westgate(Westgate::AshStep);
    assert_eq!(ash_step.coords(), (645_889_160, 1_041_789_000));
    assert_eq!(ash_step.coords().0 as f64 / 1e9, 0.64588916);
    assert_eq!(ash_step.coords().1 as f64 / 1e9, 1.041789);
    let beyond = every_location().into_iter().filter(|l| l.coords().1 > COORD_UNIT).count();
    assert_eq!(beyond, 5);
    assert!(every_location().iter().all(|l| l.coords().0 <= COORD_UNIT));
}

fn stripped(name: &str) -> String {
    name.chars().filter(|c| *c != ' ' && !c.is_ascii_punctuation()).collect()
}

#[test]
fn display_names_write_the_keys() {
    let mut marked = Vec::new();
    for location in every_location() {
        let key = location.name_api().1;
        let display = location.name_friendly().1;
        assert!(!key.is_empty() && key.is_ascii());
        if key.contains('?') {
            marked.push(compose(location.name_api().0, key));
            assert!(!stripped(display).eq_ignore_ascii_case(key));
            assert!(stripped(display).eq_ignore_ascii_case(&stripped(key)));
        } else {
            assert!(key.chars().all(|c| c.is_ascii_alphanumeric()));
            assert!(stripped(display).eq_ignore_ascii_case(key), "{} / {}", display, key);
        }
    }
    assert_eq!(
        marked,
        vec![
            "GreatMarch::Dendr??Field",
            "Heartlands::Proex??",
            "EndlessShore::S??dheFall",
            "Godcrofts::BaghM??r",
            "Westgate::S??och??naValley",
            "ReachingTrail::Th??lak",
            "CallahansPassage::Sc??thPassing",
            "MooringCounty::Sc??thCopse",
        ]
    );
}

#[test]
fn marked_names_are_kept_as_the_data_gives_them() {
    let valley = MapLocation::Westgate(Westgate::SochnaValley);
    assert_eq!(valley.name_api(), ("Westgate", "S??och??naValley"));
    assert_eq!(valley.name_friendly(), ("Westgate", "S??och??na Valley"));
    assert!(!valley.is_major());
    assert_eq!(valley.coords(), (580_464_300, 899_850_900));
    assert_eq!(MapLocation::from_name("Westgate::S??och??naValley"), Some(valley));
    assert_eq!(MapLocation::from_name("Westgate::SochnaValley"), None);
    assert_eq!(Westgate::from_key("S??och??naValley"), Some(Westgate::SochnaValley));
    let proex = MapLocation::from_name("Heartlands::Proex??").unwrap();
    assert_eq!(proex, MapLocation::Heartlands(Heartlands::Proex));
    assert!(proex.is_major());
    assert_eq!(proex.name_friendly().1, "Proex??");
    assert_eq!(proex.coords(), (652_622_760, 835_045_900));
    let info = proex.info();
    assert_eq!((info.location_key.as_str(), info.location_display.as_str()), ("Proex??", "Proex??"));
}

#[test]
fn key_may_start_with_a_digit() {
    let sideroad = MapLocation::Heartlands(Heartlands::EighteenthSideroad);
    assert_eq!(sideroad.name_api(), ("Heartlands", "18thSideroad"));
    assert_eq!(sideroad.name_friendly(), ("Heartlands", "18th Sideroad"));
    assert_eq!(MapLocation::from_name("Heartlands::18thSideroad"), Some(sideroad));
    assert_eq!(Heartlands::from_key("18thSideroad"), Some(Heartlands::EighteenthSideroad));
    assert_eq!(Heartlands::from_key("EighteenthSideroad"), None);
}

#[test]
fn entries_hold_the_table() {
    let entry = Stonecradle::BucklerSound.entry();
    assert_eq!(entry.local_key, "BucklerSound");
    assert_eq!(entry.display_name, "Buckler Sound");
    assert!(entry.is_major);
    assert_eq!(entry.coords, (510_593_830, 514_667_800));
    let longing = MapLocation::Stonecradle(Stonecradle::Longing);
    assert!(!longing.is_major());
    assert_eq!(longing.coords(), (369_986_270, 732_075_450));
    assert_eq!(longing.name_friendly(), ("Stonecradle", "Longing"));
    assert_eq!(longing.entry().local_key, "Longing");
    let majors = Stonecradle::all().into_iter().filter(|l| l.is_major()).count();
    assert_eq!(majors, 8);
    let titans_end = MapLocation::from_name("AllodsBight::TitansEnd").unwrap();
    assert_eq!(titans_end.coords(), (537_410_860, 109_029_606));
}

#[test]
fn regions_answer_for_their_own_locations() {
    assert_eq!(Stonecradle::region(), Region::Stonecradle);
    assert_eq!(Stonecradle::WorldsEnd.name_api(), ("Stonecradle", "WorldsEnd"));
    assert_eq!(Stonecradle::WorldsEnd.coords(), (214_929_900, 552_176_650));
    assert_eq!(
        Stonecradle::WorldsEnd.on_map(),
        MapLocation::Stonecradle(Stonecradle::WorldsEnd)
    );
    assert_eq!(Stonecradle::from_name("Stonecradle::WorldsEnd"), Some(Stonecradle::WorldsEnd));
    assert_eq!(Stonecradle::from_name("DeadLands::WorldsEnd"), None);
    assert_eq!(Stonecradle::from_name("WorldsEnd"), None);
    assert_eq!(Stonecradle::from_key("WorldsEnd"), Some(Stonecradle::WorldsEnd));
    assert_eq!(Stonecradle::from_key("worldsend"), None);
    assert_eq!(DeadLands::from_name("Stonecradle::WorldsEnd"), None);
}
