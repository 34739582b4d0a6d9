//! Contains [Battle] and implementations.

use crate::error::Error;
use crate::map::laws::resolve;
use crate::map::{Location, MapLocation};
use crate::models::population::Population;
use crate::time::Timestamp;
use vstd::prelude::*;

verus! {

/// Single battle in the history of foxhole.
pub struct Battle {
    pub id: i64,
    pub war_num: i64,
    pub map: MapLocation,
    pub name: Option<String>,
    pub description: Option<String>,
    pub last_edited: Option<Timestamp>,
    pub submitted: Timestamp,
    pub pop_reports: Option<Vec<Population>>,
}

/// A battle as the database holds it: its location is the full name of a
/// map location, still to be resolved.
pub struct BattleRecord {
    pub id: i64,
    pub war_num: i64,
    pub map_location: String,
    pub name: Option<String>,
    pub description: Option<String>,
    pub last_edited: Option<Timestamp>,
    pub submitted: Timestamp,
}

/// The columns of a battle that an update writes; whatever it writes, it
/// writes the time of the edit with it.
pub enum BattleUpdate {
    /// Writes the name and the description.
    NameAndDescription { name: String, description: String },
    /// Writes the name only.
    Name { name: String },
    /// Writes the description only.
    Description { description: String },
    /// Writes nothing.
    Nothing,
}

impl Battle {
    /// The battle that `record` holds, if its location resolves.
    pub open spec fn spec_read(record: BattleRecord) -> Option<Battle> {
        match resolve(record.map_location@) {
            Some(map) => Some(
                Battle {
                    id: record.id,
                    war_num: record.war_num,
                    map,
                    name: record.name,
                    description: record.description,
                    last_edited: record.last_edited,
                    submitted: record.submitted,
                    pop_reports: None,
                },
            ),
            None => None,
        }
    }

    /// Resolves the stored location of a battle: the map location whose
    /// full name is `map_location`, or the error that says that there is
    /// none.
    pub fn locate(map_location: &str) -> (map: Result<MapLocation, Error>)
        ensures
            map == match resolve(map_location@) {
                Some(l) => Ok::<MapLocation, Error>(l),
                None => Err(Error::LocationNotFound),
            },
    {
        match MapLocation::from_name(map_location) {
            Some(map) => Ok(map),
            None => Err(Error::LocationNotFound),
        }
    }

    /// A new battle as it is added to the database under `id` at
    /// `submitted`: nothing of it was edited yet, and its population
    /// reports are not fetched.
    pub fn new(
        id: i64,
        war_num: i64,
        map: MapLocation,
        name: Option<String>,
        description: Option<String>,
        submitted: Timestamp,
    ) -> (battle: Battle)
        ensures
            battle == (Battle {
                id,
                war_num,
                map,
                name,
                description,
                last_edited: None,
                submitted,
                pop_reports: None,
            }),
    {
        Battle {
            id,
            war_num,
            map,
            name,
            description,
            last_edited: None,
            submitted,
            pop_reports: None,
        }
    }

    /// Reads a battle from the database's record of it: the record's
    /// values with its location resolved, or the error that says that the
    /// location is not on the map.
    pub fn read(record: BattleRecord) -> (battle: Result<Battle, Error>)
        ensures
            battle == match Battle::spec_read(record) {
                Some(b) => Ok::<Battle, Error>(b),
                None => Err(Error::LocationNotFound),
            },
    {
        match MapLocation::from_name(record.map_location.as_str()) {
            Some(map) => Ok(
                Battle {
                    id: record.id,
                    war_num: record.war_num,
                    map,
                    name: record.name,
                    description: record.description,
                    last_edited: record.last_edited,
                    submitted: record.submitted,
                    pop_reports: None,
                },
            ),
            None => Err(Error::LocationNotFound),
        }
    }

    /// The battle that a lookup of id `id` found, or the error that says
    /// that there is no such battle.
    pub fn get_ensure(found: Option<Battle>, id: i64) -> (battle: Result<Battle, Error>)
        ensures
            battle == match found {
                Some(b) => Ok::<Battle, Error>(b),
                None => Err(Error::BattleNotFound(id)),
            },
    {
        match found {
            Some(battle) => Ok(battle),
            None => Err(Error::BattleNotFound(id)),
        }
    }

    /// Reads the battles for the homepage from the database's records of
    /// them, in their order: all of them if every location resolves, else
    /// the error that says that a location is not on the map.
    pub fn get_homepage(records: Vec<BattleRecord>) -> (battles: Result<Vec<Battle>, Error>)
        ensures
            match battles {
                Ok(read) => read@.len() == records@.len() && forall|i: int|
                    0 <= i < records@.len() ==> Battle::spec_read(#[trigger] records@[i]) == Some(
                        read@[i],
                    ),
                Err(e) => e == Error::LocationNotFound && exists|i: int|
                    0 <= i < records@.len() && Battle::spec_read(#[trigger] records@[i]) is None,
            },
    {
        let mut read: Vec<Battle> = Vec::new();
        for record in it: records
            invariant
                read@.len() == it.index(),
                forall|i: int|
                    0 <= i < it.index() ==> Battle::spec_read(#[trigger] it.seq()[i]) == Some(
                        read@[i],
                    ),
        {
            match Battle::read(record) {
                Ok(battle) => read.push(battle),
                Err(e) => {
                    return Err(e);
                },
            }
        }
        Ok(read)
    }

    /// Decides what an update writes from the values provided to it: each
    /// column for which a value was provided, nothing if none was.
    pub fn update(name: Option<String>, description: Option<String>) -> (update: BattleUpdate)
        ensures
            update == match (name, description) {
                (Some(n), Some(d)) => BattleUpdate::NameAndDescription { name: n, description: d },
                (Some(n), None) => BattleUpdate::Name { name: n },
                (None, Some(d)) => BattleUpdate::Description { description: d },
                (None, None) => BattleUpdate::Nothing,
            },
    {
        if let Some(name_val) = name {
            if let Some(description_val) = description {
                BattleUpdate::NameAndDescription { name: name_val, description: description_val }
            } else {
                BattleUpdate::Name { name: name_val }
            }
        } else if let Some(description_val) = description {
            BattleUpdate::Description { description: description_val }
        } else {
            BattleUpdate::Nothing
        }
    }

    /// Replaces the population reports of this battle by those fetched for
    /// it.
    pub fn get_pop_reports(&mut self, reports: Vec<Population>)
        ensures
            *final(self) == (Battle { pop_reports: Some(reports), ..*old(self) }),
    {
        self.pop_reports = Some(reports);
    }
}

} // verus!
