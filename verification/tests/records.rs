use holenews::decimal::push_decimal;
use holenews::error::Error;
use holenews::map::{MapLocation, Stonecradle};
use holenews::models::{
    Battle, BattleRecord, BattleUpdate, Population, PopulationUpdate, War, WarUpdate,
};
use holenews::routes::{route_url, url_for, UpdateBattle};
use holenews::schemas::{Schema, SchemaBattle, SchemaPopulation, SchemaWar};
use holenews::time::Timestamp;

fn at(secs: i64) -> Timestamp {
    Timestamp::new(secs, 0).unwrap()
}

fn decimal(n: i64) -> String {
    let mut text = String::new();
    push_decimal(&mut text, n);
    text
}

fn record(id: i64, war_num: i64, map_location: &str) -> BattleRecord {
    BattleRecord {
        id,
        war_num,
        map_location: map_location.to_string(),
        name: Some(format!("battle {}", id)),
        description: None,
        last_edited: None,
        submitted: at(1431648000),
    }
}

#[test]
fn writes_times_as_the_calendar_does() {
    assert_eq!(at(0).text(), "1970-01-01 00:00:00");
    assert_eq!(at(1431648000).text(), "2015-05-15 00:00:00");
    assert_eq!(at(-1).text(), "1969-12-31 23:59:59");
    assert_eq!(Timestamp::new(1479195564, 500_000_000).unwrap().text(), "2016-11-15 07:39:24.500");
    let t = Timestamp::new(1479195564, 7).unwrap();
    assert_eq!((t.secs(), t.nanos()), (1479195564, 7));
    assert_eq!(t.text(), "2016-11-15 07:39:24.000000007");
}

#[test]
fn has_every_time_of_the_four_digit_years() {
    assert_eq!(Timestamp::new(-62_135_596_800, 0).unwrap().text(), "0001-01-01 00:00:00");
    assert_eq!(
        Timestamp::new(253_402_300_799, 999_999_999).unwrap().text(),
        "9999-12-31 23:59:59.999999999"
    );
    assert_eq!(Timestamp::new(0, 999_999_999).unwrap().text(), "1970-01-01 00:00:00.999999999");
}

#[test]
fn has_no_time_beyond_the_calendar() {
    assert_eq!(Timestamp::new(i64::MAX, 0), None);
    assert_eq!(Timestamp::new(i64::MIN, 0), None);
    assert_eq!(Timestamp::new(0, 2_000_000_000), None);
    assert_eq!(Timestamp::new(0, 1_000_000_000), None);
    assert!(Timestamp::new(59, 1_000_000_000).is_some());
}

#[test]
fn writes_numbers_in_decimal() {
    assert_eq!(decimal(0), "0");
    assert_eq!(decimal(7), "7");
    assert_eq!(decimal(10), "10");
    assert_eq!(decimal(-1), "-1");
    assert_eq!(decimal(1234567890), "1234567890");
    assert_eq!(decimal(i64::MAX), "9223372036854775807");
    assert_eq!(decimal(i64::MIN), "-9223372036854775808");
    let mut text = String::from("n=");
    push_decimal(&mut text, -305);
    assert_eq!(text, "n=-305");
}

#[test]
fn answers_each_error_with_its_status_and_message() {
    let cases = [
        (Error::StaticOpen, 500, "Could not retrieve html file from static files"),
        (Error::Database, 500, "Database error"),
        (Error::LocationNotFound, 404, "Map location provided could not be found"),
        (Error::WarNotFound(83), 404, "War number 83 could not be found"),
        (Error::BattleNotFound(-4), 404, "Battle id -4 could not be found"),
        (Error::TemplateRender, 500, "Could not properly render html template"),
        (Error::DataTooShort, 400, "Inputted data was too short"),
        (Error::DataTooLong, 400, "Inputted data was too long"),
    ];
    for (error, code, message) in cases {
        assert_eq!(error.status_code(), code);
        assert_eq!(error.message(), message);
        let response = error.error_response();
        assert_eq!(response.code, code);
        assert_eq!(response.message, message);
    }
}

#[test]
fn locates_a_battle_or_says_that_it_cannot() {
    assert_eq!(
        Battle::locate("Stonecradle::WorldsEnd"),
        Ok(MapLocation::Stonecradle(Stonecradle::WorldsEnd))
    );
    assert_eq!(Battle::locate("Stonecradle"), Err(Error::LocationNotFound));
    assert_eq!(Battle::locate("NotARealRegion::NotARealLocation"), Err(Error::LocationNotFound));
}

#[test]
fn reads_battles_from_their_records() {
    let battle = Battle::read(record(4, 83, "Stonecradle::TheReach")).ok().unwrap();
    assert_eq!(battle.id, 4);
    assert_eq!(battle.war_num, 83);
    assert_eq!(battle.map, MapLocation::Stonecradle(Stonecradle::TheReach));
    assert_eq!(battle.name.as_deref(), Some("battle 4"));
    assert_eq!(battle.description, None);
    assert_eq!(battle.last_edited, None);
    assert_eq!(battle.submitted, at(1431648000));
    assert!(battle.pop_reports.is_none());
    assert_eq!(Battle::read(record(4, 83, "TheReach")).err(), Some(Error::LocationNotFound));

    let read = Battle::get_homepage(vec![
        record(1, 83, "Stonecradle::TheReach"),
        record(2, 84, "Stonecradle::WorldsEnd"),
    ])
    .ok()
    .unwrap();
    assert_eq!(read.len(), 2);
    assert_eq!((read[0].id, read[1].id), (1, 2));
    assert_eq!(read[1].map, MapLocation::Stonecradle(Stonecradle::WorldsEnd));
    assert!(Battle::get_homepage(Vec::new()).ok().unwrap().is_empty());
    let failed = Battle::get_homepage(vec![
        record(1, 83, "Stonecradle::TheReach"),
        record(2, 84, "Nowhere::AtAll"),
        record(3, 84, "Stonecradle::WorldsEnd"),
    ]);
    assert_eq!(failed.err(), Some(Error::LocationNotFound));
}

#[test]
fn makes_new_records_unedited() {
    let map = MapLocation::Stonecradle(Stonecradle::TheReach);
    let battle = Battle::new(9, 83, map, None, Some("fierce".to_string()), at(5));
    assert_eq!((battle.id, battle.war_num, battle.map), (9, 83, map));
    assert_eq!(battle.name, None);
    assert_eq!(battle.description.as_deref(), Some("fierce"));
    assert_eq!(battle.last_edited, None);
    assert_eq!(battle.submitted, at(5));
    assert!(battle.pop_reports.is_none());

    let ongoing = War::new_ongoing(83, at(1), at(2));
    assert_eq!(
        ongoing,
        War { num: 83, time_start: at(1), time_end: None, colonial_win: None, submitted: at(2) }
    );
    let historic = War::new_historic(82, at(1), at(3), true, at(4));
    assert_eq!(historic.time_end, Some(at(3)));
    assert_eq!(historic.colonial_win, Some(true));
    assert_eq!((historic.num, historic.time_start, historic.submitted), (82, at(1), at(4)));

    let report = Population::new(9, 140, at(6), None, at(7));
    assert_eq!((report.battle_id, report.counted), (9, 140));
    assert_eq!((report.at_time, report.submitted), (at(6), at(7)));
    assert_eq!(report.description, None);
    assert_eq!(report.last_edited, None);
}

#[test]
fn says_what_was_not_found() {
    let war = War::new_ongoing(83, at(1), at(2));
    assert_eq!(War::get_ensure(Some(war), 83), Ok(war));
    assert_eq!(War::get_ensure(None, 83), Err(Error::WarNotFound(83)));
    assert_eq!(Battle::get_ensure(None, 12).err(), Some(Error::BattleNotFound(12)));
    let map = MapLocation::Stonecradle(Stonecradle::TheReach);
    let found = Battle::get_ensure(Some(Battle::new(12, 83, map, None, None, at(5))), 12);
    assert_eq!(found.ok().unwrap().id, 12);
}

#[test]
fn updates_what_was_provided() {
    let (n, d) = ("name".to_string(), "text".to_string());
    assert!(matches!(
        Battle::update(Some(n.clone()), Some(d.clone())),
        BattleUpdate::NameAndDescription { name, description } if name == n && description == d
    ));
    assert!(matches!(Battle::update(Some(n.clone()), None), BattleUpdate::Name { name } if name == n));
    assert!(matches!(
        Battle::update(None, Some(d.clone())),
        BattleUpdate::Description { description } if description == d
    ));
    assert!(matches!(Battle::update(None, None), BattleUpdate::Nothing));
    let body = UpdateBattle { name: None, description: Some(d.clone()) };
    assert!(matches!(body.update(), BattleUpdate::Description { description } if description == d));

    assert_eq!(
        War::update(Some(Some(at(3))), Some(None)),
        WarUpdate::EndAndWinner { time_end: Some(at(3)), colonial_win: None }
    );
    assert_eq!(War::update(Some(None), None), WarUpdate::End { time_end: None });
    assert_eq!(War::update(None, Some(Some(false))), WarUpdate::Winner { colonial_win: Some(false) });
    assert_eq!(War::update(None, None), WarUpdate::Nothing);

    assert!(matches!(
        Population::update(Some(d.clone())),
        PopulationUpdate::Description { description } if description == d
    ));
    assert!(matches!(Population::update(None), PopulationUpdate::Nothing));
}

#[test]
fn fetched_reports_replace_those_of_a_battle() {
    let map = MapLocation::Stonecradle(Stonecradle::TheReach);
    let mut battle = Battle::new(9, 83, map, None, None, at(5));
    battle.get_pop_reports(vec![Population::new(9, 140, at(6), None, at(7))]);
    assert_eq!(battle.pop_reports.as_ref().unwrap().len(), 1);
    assert_eq!(battle.pop_reports.as_ref().unwrap()[0].counted, 140);
    battle.get_pop_reports(Vec::new());
    assert!(battle.pop_reports.as_ref().unwrap().is_empty());
    assert_eq!(battle.id, 9);
}

#[test]
fn converts_models_to_schemas() {
    let war = SchemaWar::from(War::new_historic(82, at(0), at(1431648000), false, at(4)));
    assert_eq!(war.num, 82);
    assert_eq!(war.time_start, "1970-01-01 00:00:00");
    assert_eq!(war.time_end.as_deref(), Some("2015-05-15 00:00:00"));
    assert_eq!(war.colonial_win, Some(false));
    let ongoing = SchemaWar::from(War::new_ongoing(83, at(0), at(4)));
    assert_eq!((ongoing.time_end, ongoing.colonial_win), (None, None));

    let mut report = Population::new(9, 140, at(60), Some("many".to_string()), at(7));
    report.last_edited = Some(at(61));
    let pop = SchemaPopulation::from(report);
    assert_eq!(pop.counted, 140);
    assert_eq!(pop.at_time, "1970-01-01 00:01:00");
    assert_eq!(pop.description.as_deref(), Some("many"));
    assert_eq!(pop.last_edited.as_deref(), Some("1970-01-01 00:01:01"));
    assert!(SchemaPopulation::from_reports(None).is_none());
    let pops = SchemaPopulation::from_reports(Some(vec![
        Population::new(9, 1, at(1), None, at(7)),
        Population::new(9, 2, at(2), None, at(7)),
    ]))
    .unwrap();
    assert_eq!(pops.iter().map(|p| p.counted).collect::<Vec<_>>(), vec![1, 2]);
    assert_eq!(pops[1].at_time, "1970-01-01 00:00:02");

    let map = MapLocation::Stonecradle(Stonecradle::WorldsEnd);
    let mut battle = Battle::new(9, 83, map, Some("The End".to_string()), None, at(5));
    battle.last_edited = Some(at(6));
    battle.get_pop_reports(vec![Population::new(9, 140, at(6), None, at(7))]);
    let schema = SchemaBattle::from(battle);
    assert_eq!((schema.id, schema.war_num), (9, 83));
    assert_eq!(schema.name, "The End");
    assert_eq!(schema.description, None);
    assert_eq!(schema.last_edited.as_deref(), Some("1970-01-01 00:00:06"));
    assert_eq!(schema.submitted, "1970-01-01 00:00:05");
    assert_eq!(schema.pop_reports.as_ref().unwrap().len(), 1);
    assert!(schema.location_info.is_major);
    assert_eq!(schema.location_info.region_key, "Stonecradle");
    assert_eq!(schema.location_info.location_key, "WorldsEnd");
    assert_eq!(schema.location_info.location_display, "World's End");
    assert_eq!(schema.location_info.coords, (214_929_900, 552_176_650));
}

#[test]
fn gathers_wars_and_battles_in_a_schema() {
    let schema = Schema::default();
    assert!(schema.wars.is_none() && schema.battles.is_none());
    assert_eq!(schema.wars_from_battles(), None);

    let with_none = Schema::default().add_wars(Vec::new());
    assert!(with_none.wars.as_ref().unwrap().is_empty());
    assert!(with_none.battles.is_none());
    let empty = Schema::default().add_battles(Vec::new());
    assert_eq!(empty.wars_from_battles(), Some(Vec::new()));

    let map = MapLocation::Stonecradle(Stonecradle::WorldsEnd);
    let battle = |id: i64, war: i64| Battle::new(id, war, map, Some("x".to_string()), None, at(5));
    let schema = Schema::default()
        .add_battle(battle(1, 84))
        .add_battles(vec![battle(2, 83), battle(3, 84), battle(4, 85), battle(5, 83)])
        .add_war(War::new_ongoing(85, at(1), at(2)))
        .add_wars(vec![War::new_ongoing(84, at(1), at(2)), War::new_ongoing(83, at(1), at(2))]);
    let ids: Vec<i64> = schema.battles.as_ref().unwrap().iter().map(|b| b.id).collect();
    assert_eq!(ids, vec![1, 2, 3, 4, 5]);
    let wars: Vec<i64> = schema.wars.as_ref().unwrap().iter().map(|w| w.num).collect();
    assert_eq!(wars, vec![85, 84, 83]);
    assert_eq!(schema.wars_from_battles(), Some(vec![84, 83, 85]));
    let copy = schema.clone();
    assert_eq!(copy.battles.unwrap().len(), 5);
}

#[test]
fn links_templates_to_routes() {
    assert_eq!(route_url("index"), Some("/"));
    assert_eq!(route_url("battle"), Some("/battle"));
    assert_eq!(route_url("war"), Some("/war"));
    assert_eq!(route_url("wars"), None);
    assert_eq!(route_url(""), None);
    assert_eq!(url_for(Some("index"), None).as_deref(), Some("/"));
    assert_eq!(url_for(Some("battle"), Some("12")).as_deref(), Some("/battle/12"));
    assert_eq!(url_for(Some("war"), Some("")).as_deref(), Some("/war/"));
    assert_eq!(url_for(None, Some("12")), None);
    assert_eq!(url_for(None, None), None);
}
