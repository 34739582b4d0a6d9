//! Contains [War] and implementations.

use crate::error::Error;
use crate::time::Timestamp;
use vstd::prelude::*;

verus! {

/// Ongoing or historic war.
#[derive(Clone, Copy, Debug, PartialEq, Eq)]
pub struct War {
    pub num: i64,
    pub time_start: Timestamp,
    pub time_end: Option<Timestamp>,
    pub colonial_win: Option<bool>,
    pub submitted: Timestamp,
}

/// The columns of a war that an update writes. An end or a winner that is
/// written may itself be absent: the column is then cleared.
#[derive(Clone, Copy, Debug, PartialEq, Eq)]
pub enum WarUpdate {
    /// Writes the end and the winner.
    EndAndWinner { time_end: Option<Timestamp>, colonial_win: Option<bool> },
    /// Writes the end only.
    End { time_end: Option<Timestamp> },
    /// Writes the winner only.
    Winner { colonial_win: Option<bool> },
    /// Writes nothing.
    Nothing,
}

impl War {
    /// A new ongoing war as it is added to the database at `submitted`: it
    /// has no end and no winner yet.
    pub fn new_ongoing(num: i64, time_start: Timestamp, submitted: Timestamp) -> (war: War)
        ensures
            war == (War { num, time_start, time_end: None, colonial_win: None, submitted }),
    {
        War { num, time_start, time_end: None, colonial_win: None, submitted }
    }

    /// A new historic war as it is added to the database at `submitted`,
    /// with its end and its winner.
    pub fn new_historic(
        num: i64,
        time_start: Timestamp,
        time_end: Timestamp,
        colonial_win: bool,
        submitted: Timestamp,
    ) -> (war: War)
        ensures
            war == (War {
                num,
                time_start,
                time_end: Some(time_end),
                colonial_win: Some(colonial_win),
                submitted,
            }),
    {
        War { num, time_start, time_end: Some(time_end), colonial_win: Some(colonial_win), submitted }
    }

    /// The war that a lookup of number `num` found, or the error that says
    /// that there is no such war.
    pub fn get_ensure(found: Option<War>, num: i64) -> (war: Result<War, Error>)
        ensures
            war == match found {
                Some(w) => Ok::<War, Error>(w),
                None => Err(Error::WarNotFound(num)),
            },
    {
        match found {
            Some(war) => Ok(war),
            None => Err(Error::WarNotFound(num)),
        }
    }

    /// Decides what an update writes from the values provided to it: each
    /// column for which a value was provided, nothing if none was.
    pub fn update(time_end: Option<Option<Timestamp>>, colonial_win: Option<Option<bool>>) -> (update:
        WarUpdate)
        ensures
            update == match (time_end, colonial_win) {
                (Some(end), Some(win)) => WarUpdate::EndAndWinner {
                    time_end: end,
                    colonial_win: win,
                },
                (Some(end), None) => WarUpdate::End { time_end: end },
                (None, Some(win)) => WarUpdate::Winner { colonial_win: win },
                (None, None) => WarUpdate::Nothing,
            },
    {
        if let Some(time_end_val) = time_end {
            if let Some(colonial_win_val) = colonial_win {
                WarUpdate::EndAndWinner { time_end: time_end_val, colonial_win: colonial_win_val }
            } else {
                WarUpdate::End { time_end: time_end_val }
            }
        } else if let Some(colonial_win_val) = colonial_win {
            WarUpdate::Winner { colonial_win: colonial_win_val }
        } else {
            WarUpdate::Nothing
        }
    }
}

} // verus!
