//! Models of what the database holds, as plain values, and the rules for
//! reading and changing them.

pub mod battle;
pub mod population;
pub mod war;

pub use battle::{Battle, BattleRecord, BattleUpdate};
pub use population::{Population, PopulationUpdate};
pub use war::{War, WarUpdate};
