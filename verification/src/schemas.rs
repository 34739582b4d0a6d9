//! Schemas that models such as battles are converted into before they are
//! serialized: times become text, a battle's location its information.

use crate::map::location::project;
use crate::map::{Location, LocationInfo, LocationInfoView};
use crate::models::{Battle, Population, War};
use crate::time::Timestamp;
use vstd::prelude::*;

verus! {

/// The characters of a string that may be absent.
pub open spec fn text_of(text: Option<String>) -> Option<Seq<char>> {
    match text {
        Some(t) => Some(t@),
        None => None,
    }
}

/// The text of a point in time that may be absent.
pub open spec fn time_of(at: Option<Timestamp>) -> Option<Seq<char>> {
    match at {
        Some(t) => Some(t.spec_text()),
        None => None,
    }
}

/// The text of a point in time that may be absent.
fn time_text(at: Option<Timestamp>) -> (text: Option<String>)
    ensures
        text_of(text) == time_of(at),
{
    match at {
        Some(t) => Some(t.text()),
        None => None,
    }
}

/// Conversion for a war model.
#[derive(Clone)]
pub struct SchemaWar {
    pub num: i64,
    pub time_start: String,
    pub time_end: Option<String>,
    pub colonial_win: Option<bool>,
}

/// What a [SchemaWar] holds, with each string as its characters.
pub struct SchemaWarView {
    pub num: i64,
    pub time_start: Seq<char>,
    pub time_end: Option<Seq<char>>,
    pub colonial_win: Option<bool>,
}

impl View for SchemaWar {
    type V = SchemaWarView;

    open spec fn view(&self) -> SchemaWarView {
        SchemaWarView {
            num: self.num,
            time_start: self.time_start@,
            time_end: text_of(self.time_end),
            colonial_win: self.colonial_win,
        }
    }
}

impl SchemaWar {
    /// The schema of `war`: its number and winner, its times as text.
    pub open spec fn spec_from(war: War) -> SchemaWarView {
        SchemaWarView {
            num: war.num,
            time_start: war.time_start.spec_text(),
            time_end: time_of(war.time_end),
            colonial_win: war.colonial_win,
        }
    }

    /// Converts a war model.
    pub fn from(war: War) -> (schema: SchemaWar)
        ensures
            schema@ == SchemaWar::spec_from(war),
    {
        SchemaWar {
            num: war.num,
            time_start: war.time_start.text(),
            time_end: time_text(war.time_end),
            colonial_win: war.colonial_win,
        }
    }
}

/// Conversion for a population model; typically used as a vector of these.
#[derive(Clone)]
pub struct SchemaPopulation {
    pub counted: i64,
    pub at_time: String,
    pub description: Option<String>,
    pub last_edited: Option<String>,
}

/// What a [SchemaPopulation] holds, with each string as its characters.
pub struct SchemaPopulationView {
    pub counted: i64,
    pub at_time: Seq<char>,
    pub description: Option<Seq<char>>,
    pub last_edited: Option<Seq<char>>,
}

impl View for SchemaPopulation {
    type V = SchemaPopulationView;

    open spec fn view(&self) -> SchemaPopulationView {
        SchemaPopulationView {
            counted: self.counted,
            at_time: self.at_time@,
            description: text_of(self.description),
            last_edited: text_of(self.last_edited),
        }
    }
}

impl SchemaPopulation {
    /// The schema of `pop_report`: its count and description, its times as
    /// text.
    pub open spec fn spec_from(pop_report: Population) -> SchemaPopulationView {
        SchemaPopulationView {
            counted: pop_report.counted,
            at_time: pop_report.at_time.spec_text(),
            description: text_of(pop_report.description),
            last_edited: time_of(pop_report.last_edited),
        }
    }

    /// The schemas of population reports that may not have been fetched.
    pub open spec fn spec_from_reports(pop_reports: Option<Vec<Population>>) -> Option<
        Seq<SchemaPopulationView>,
    > {
        match pop_reports {
            Some(reports) => Some(
                reports@.map_values(|report: Population| SchemaPopulation::spec_from(report)),
            ),
            None => None,
        }
    }

    /// Converts a population model.
    pub fn from(pop_report: Population) -> (schema: SchemaPopulation)
        ensures
            schema@ == SchemaPopulation::spec_from(pop_report),
    {
        SchemaPopulation {
            counted: pop_report.counted,
            at_time: pop_report.at_time.text(),
            description: pop_report.description,
            last_edited: time_text(pop_report.last_edited),
        }
    }

    /// Converts the population reports of a battle, in their order, if
    /// they were fetched.
    pub fn from_reports(pop_reports: Option<Vec<Population>>) -> (schemas: Option<
        Vec<SchemaPopulation>,
    >)
        ensures
            views_of(schemas) == SchemaPopulation::spec_from_reports(pop_reports),
    {
        match pop_reports {
            Some(pop_reports) => {
                let mut schemas: Vec<SchemaPopulation> = Vec::new();
                for pop_report in it: pop_reports
                    invariant
                        schemas@.len() == it.index(),
                        forall|i: int|
                            0 <= i < it.index() ==> (#[trigger] schemas@[i])@
                                == SchemaPopulation::spec_from(it.seq()[i]),
                {
                    schemas.push(SchemaPopulation::from(pop_report));
                }
                assert(schemas@.map_values(|schema: SchemaPopulation| schema@)
                    =~= pop_reports@.map_values(
                    |report: Population| SchemaPopulation::spec_from(report),
                ));
                Some(schemas)
            },
            None => None,
        }
    }
}

/// What converted population reports hold, if there are any.
pub open spec fn views_of(schemas: Option<Vec<SchemaPopulation>>) -> Option<
    Seq<SchemaPopulationView>,
> {
    match schemas {
        Some(s) => Some(s@.map_values(|schema: SchemaPopulation| schema@)),
        None => None,
    }
}

/// Conversion for a battle model.
#[derive(Clone)]
pub struct SchemaBattle {
    pub id: i64,
    pub war_num: i64,
    pub location_info: LocationInfo,
    pub name: String,
    pub description: Option<String>,
    pub last_edited: Option<String>,
    pub submitted: String,
    pub pop_reports: Option<Vec<SchemaPopulation>>,
}

/// What a [SchemaBattle] holds, with each string as its characters.
pub struct SchemaBattleView {
    pub id: i64,
    pub war_num: i64,
    pub location_info: LocationInfoView,
    pub name: Seq<char>,
    pub description: Option<Seq<char>>,
    pub last_edited: Option<Seq<char>>,
    pub submitted: Seq<char>,
    pub pop_reports: Option<Seq<SchemaPopulationView>>,
}

impl View for SchemaBattle {
    type V = SchemaBattleView;

    open spec fn view(&self) -> SchemaBattleView {
        SchemaBattleView {
            id: self.id,
            war_num: self.war_num,
            location_info: self.location_info@,
            name: self.name@,
            description: text_of(self.description),
            last_edited: text_of(self.last_edited),
            submitted: self.submitted@,
            pop_reports: views_of(self.pop_reports),
        }
    }
}

impl SchemaBattle {
    /// The schema of a battle that has a name: its own values, the
    /// information of its location, its times as text, its population
    /// reports converted.
    pub open spec fn spec_from(battle: Battle) -> SchemaBattleView {
        SchemaBattleView {
            id: battle.id,
            war_num: battle.war_num,
            location_info: project(&battle.map),
            name: battle.name.unwrap()@,
            description: text_of(battle.description),
            last_edited: time_of(battle.last_edited),
            submitted: battle.submitted.spec_text(),
            pop_reports: SchemaPopulation::spec_from_reports(battle.pop_reports),
        }
    }

    /// Converts a battle model. The battle has a name: none is made up for
    /// one without.
    pub fn from(battle: Battle) -> (schema: SchemaBattle)
        requires
            battle.name is Some,
        ensures
            schema@ == SchemaBattle::spec_from(battle),
    {
        let pop_reports = SchemaPopulation::from_reports(battle.pop_reports);
        SchemaBattle {
            id: battle.id,
            war_num: battle.war_num,
            location_info: battle.map.info(),
            name: battle.name.unwrap(),
            description: battle.description,
            last_edited: time_text(battle.last_edited),
            submitted: battle.submitted.text(),
            pop_reports,
        }
    }
}

/// Top-level schema used as a basis for others, in order to unify
/// constructs.
#[derive(Clone)]
pub struct Schema {
    pub wars: Option<Vec<SchemaWar>>,
    pub battles: Option<Vec<SchemaBattle>>,
}

/// The war numbers of `nums` in the order in which each comes first, each
/// once.
pub open spec fn distinct(nums: Seq<i64>) -> Seq<i64>
    decreases nums.len(),
{
    if nums.len() == 0 {
        Seq::empty()
    } else {
        let before = distinct(nums.drop_last());
        if before.contains(nums.last()) {
            before
        } else {
            before.push(nums.last())
        }
    }
}

/// `distinct` keeps every number and repeats none.
pub proof fn lemma_distinct(nums: Seq<i64>)
    ensures
        distinct(nums).no_duplicates(),
        forall|n: i64| distinct(nums).contains(n) <==> nums.contains(n),
    decreases nums.len(),
{
    if nums.len() > 0 {
        let before = distinct(nums.drop_last());
        let last = nums.last();
        lemma_distinct(nums.drop_last());
        assert forall|n: i64| distinct(nums).contains(n) <==> nums.contains(n) by {
            let whole = distinct(nums);
            if nums.contains(n) {
                let i = choose|i: int| 0 <= i < nums.len() && nums[i] == n;
                if i < nums.len() - 1 {
                    assert(nums.drop_last()[i] == n);
                    assert(nums.drop_last().contains(n));
                }
                if before.contains(n) {
                    let j = choose|j: int| 0 <= j < before.len() && before[j] == n;
                    assert(whole[j] == n);
                } else {
                    assert(whole[before.len() as int] == n);
                }
            }
            if whole.contains(n) {
                let j = choose|j: int| 0 <= j < whole.len() && whole[j] == n;
                if j < before.len() {
                    assert(before[j] == n);
                    assert(before.contains(n));
                    assert(nums.drop_last().contains(n));
                    let i = choose|i: int|
                        0 <= i < nums.drop_last().len() && nums.drop_last()[i] == n;
                    assert(nums[i] == n);
                } else {
                    assert(nums[nums.len() - 1] == n);
                }
            }
        }
    }
}

/// Whether `num` is among `nums`.
fn holds(nums: &Vec<i64>, num: i64) -> (found: bool)
    ensures
        found == nums@.contains(num),
{
    let mut i: usize = 0;
    while i < nums.len()
        invariant
            i <= nums.len(),
            forall|j: int| 0 <= j < i ==> nums@[j] != num,
        decreases nums.len() - i,
    {
        if nums[i] == num {
            return true;
        }
        i += 1;
    }
    false
}

impl Schema {
    /// The wars of a schema, none for a schema that has no list of them.
    pub open spec fn spec_wars(&self) -> Seq<SchemaWarView> {
        match self.wars {
            Some(wars) => wars@.map_values(|war: SchemaWar| war@),
            None => Seq::empty(),
        }
    }

    /// The battles of a schema, none for a schema that has no list of them.
    pub open spec fn spec_battles(&self) -> Seq<SchemaBattleView> {
        match self.battles {
            Some(battles) => battles@.map_values(|battle: SchemaBattle| battle@),
            None => Seq::empty(),
        }
    }

    /// The war numbers of the battles of a schema, in their order.
    pub open spec fn spec_war_nums(&self) -> Seq<i64> {
        self.spec_battles().map_values(|battle: SchemaBattleView| battle.war_num)
    }

    /// Converts and adds a new war model.
    pub fn add_war(self, war: War) -> (schema: Schema)
        ensures
            schema.wars is Some,
            schema.spec_wars() == self.spec_wars().push(SchemaWar::spec_from(war)),
            schema.battles == self.battles,
    {
        let mut schema = self;
        let new_war = SchemaWar::from(war);
        let mut wars = match schema.wars {
            Some(wars) => wars,
            None => Vec::new(),
        };
        wars.push(new_war);
        schema.wars = Some(wars);
        assert(schema.spec_wars() =~= self.spec_wars().push(SchemaWar::spec_from(war)));
        schema
    }

    /// Converts and adds multiple wars.
    pub fn add_wars(self, wars: Vec<War>) -> (schema: Schema)
        ensures
            schema.wars is Some,
            schema.spec_wars() == self.spec_wars() + wars@.map_values(
                |war: War| SchemaWar::spec_from(war),
            ),
            schema.battles == self.battles,
    {
        let mut schema = self;
        let mut list = match schema.wars {
            Some(list) => list,
            None => Vec::new(),
        };
        let ghost before = list@;
        assert(before.map_values(|war: SchemaWar| war@) =~= self.spec_wars());
        for war in it: wars
            invariant
                list@.len() == before.len() + it.index(),
                forall|i: int| 0 <= i < before.len() ==> list@[i] == before[i],
                forall|k: int|
                    before.len() <= k < list@.len() ==> (#[trigger] list@[k])@
                        == SchemaWar::spec_from(it.seq()[k - before.len()]),
        {
            list.push(SchemaWar::from(war));
        }
        schema.wars = Some(list);
        assert(schema.spec_wars() =~= self.spec_wars() + wars@.map_values(
            |war: War| SchemaWar::spec_from(war),
        ));
        schema
    }

    /// Converts and adds a new battle model, which has a name.
    pub fn add_battle(self, battle: Battle) -> (schema: Schema)
        requires
            battle.name is Some,
        ensures
            schema.battles is Some,
            schema.spec_battles() == self.spec_battles().push(SchemaBattle::spec_from(battle)),
            schema.wars == self.wars,
    {
        let mut schema = self;
        let new_battle = SchemaBattle::from(battle);
        let mut battles = match schema.battles {
            Some(battles) => battles,
            None => Vec::new(),
        };
        battles.push(new_battle);
        schema.battles = Some(battles);
        assert(schema.spec_battles() =~= self.spec_battles().push(SchemaBattle::spec_from(battle)));
        schema
    }

    /// Converts and adds multiple battles, each of which has a name.
    pub fn add_battles(self, battles: Vec<Battle>) -> (schema: Schema)
        requires
            forall|i: int| 0 <= i < battles@.len() ==> (#[trigger] battles@[i]).name is Some,
        ensures
            schema.battles is Some,
            schema.spec_battles() == self.spec_battles() + battles@.map_values(
                |battle: Battle| SchemaBattle::spec_from(battle),
            ),
            schema.wars == self.wars,
    {
        let mut schema = self;
        let mut list = match schema.battles {
            Some(list) => list,
            None => Vec::new(),
        };
        let ghost before = list@;
        assert(before.map_values(|battle: SchemaBattle| battle@) =~= self.spec_battles());
        for battle in it: battles
            invariant
                list@.len() == before.len() + it.index(),
                forall|i: int| 0 <= i < before.len() ==> list@[i] == before[i],
                forall|k: int|
                    before.len() <= k < list@.len() ==> (#[trigger] list@[k])@
                        == SchemaBattle::spec_from(it.seq()[k - before.len()]),
                forall|i: int| 0 <= i < it.seq().len() ==> (#[trigger] it.seq()[i]).name is Some,
        {
            list.push(SchemaBattle::from(battle));
        }
        schema.battles = Some(list);
        assert(schema.spec_battles() =~= self.spec_battles() + battles@.map_values(
            |battle: Battle| SchemaBattle::spec_from(battle),
        ));
        schema
    }

    /// The numbers of the wars that the battles currently included belong
    /// to, each once, in the order in which the battles name them; `None`
    /// for a schema that has no list of battles. These are the wars to
    /// populate the `wars` part with.
    pub fn wars_from_battles(&self) -> (war_nums: Option<Vec<i64>>)
        ensures
            match war_nums {
                Some(nums) => self.battles is Some && nums@ == distinct(self.spec_war_nums()),
                None => self.battles is None,
            },
    {
        match &self.battles {
            Some(battles) => {
                let mut wanted: Vec<i64> = Vec::new();
                let mut i: usize = 0;
                while i < battles.len()
                    invariant
                        i <= battles.len(),
                        self.battles == Some(*battles),
                        wanted@ == distinct(self.spec_war_nums().take(i as int)),
                    decreases battles.len() - i,
                {
                    let war_num = battles[i].war_num;
                    proof {
                        let nums = self.spec_war_nums();
                        assert(nums.take(i + 1).drop_last() =~= nums.take(i as int));
                        assert(nums.take(i + 1).last() == war_num);
                    }
                    if !holds(&wanted, war_num) {
                        wanted.push(war_num);
                    }
                    i += 1;
                }
                assert(self.spec_war_nums().take(i as int) =~= self.spec_war_nums());
                Some(wanted)
            },
            None => None,
        }
    }
}

impl Default for Schema {
    fn default() -> (schema: Schema)
        ensures
            schema.wars is None,
            schema.battles is None,
    {
        Schema { wars: None, battles: None }
    }
}

} // verus!
