//! Contains [Population] and implementations.

use crate::time::Timestamp;
use vstd::prelude::*;

verus! {

/// Population report for a given battle, denoting a count for a given time.
pub struct Population {
    /// Battle id this corresponds to
    pub battle_id: i64,
    /// Amount of population counted for this report
    pub counted: i64,
    /// Date at which this count occured, merged with the battle id as a primary key
    pub at_time: Timestamp,
    /// Optional user-submitted description of this report
    pub description: Option<String>,
    /// When the last piece user-submitted content was edited, if any
    pub last_edited: Option<Timestamp>,
    /// Timestamp of when this battle was submitted to the database
    pub submitted: Timestamp,
}

/// What an update of a population report writes.
pub enum PopulationUpdate {
    /// Writes the description, and the time of the edit with it.
    Description { description: String },
    /// Writes nothing.
    Nothing,
}

impl Population {
    /// A new population report as it is added to the database at
    /// `submitted`: nothing of it was edited yet.
    pub fn new(
        battle_id: i64,
        counted: i64,
        at_time: Timestamp,
        description: Option<String>,
        submitted: Timestamp,
    ) -> (report: Population)
        ensures
            report == (Population {
                battle_id,
                counted,
                at_time,
                description,
                last_edited: None,
                submitted,
            }),
    {
        Population { battle_id, counted, at_time, description, last_edited: None, submitted }
    }

    /// Decides what an update writes: the description if one was provided,
    /// else nothing.
    pub fn update(description: Option<String>) -> (update: PopulationUpdate)
        ensures
            update == match description {
                Some(desc) => PopulationUpdate::Description { description: desc },
                None => PopulationUpdate::Nothing,
            },
    {
        if let Some(desc_val) = description {
            PopulationUpdate::Description { description: desc_val }
        } else {
            PopulationUpdate::Nothing
        }
    }
}

} // verus!
