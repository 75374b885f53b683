//! The fixed sequence of steps the script performs, and its semantics
//! against the model database.
//!
//! A driver loop asks the [`Script`] for the next action, performs it
//! against the real database, and repeats until no action is left. Which
//! statement and which progress line belong to each action is pinned here,
//! and [`run_on_model`] proves what the whole sequence does to the table.

use vstd::prelude::*;

use crate::config::Config;
use crate::statements;
use crate::store::{Row, Schema, Table};
use crate::user_id::UserId;

verus! {

/// One statement of the script.
#[derive(PartialEq, Eq, Structural, Clone, Copy, Debug)]
pub enum Action {
    CreateKeyspace,
    CreateTable,
    Insert,
    Select,
    Update,
    Delete,
}

/// The fixed order of the script: schema setup, then insert, select,
/// update, select again, delete.
pub open spec fn spec_plan() -> Seq<Action> {
    seq![
        Action::CreateKeyspace,
        Action::CreateTable,
        Action::Insert,
        Action::Select,
        Action::Update,
        Action::Select,
        Action::Delete,
    ]
}

/// The script's order of actions, as a vector.
pub fn plan() -> (r: Vec<Action>)
    ensures
        r@ =~= spec_plan(),
{
    let actions = vec![
        Action::CreateKeyspace,
        Action::CreateTable,
        Action::Insert,
        Action::Select,
        Action::Update,
        Action::Select,
        Action::Delete,
    ];
    proof {
        assert(actions@ =~= spec_plan());
    }
    actions
}

/// The statement text each action sends.
pub open spec fn spec_statement_of(a: Action) -> Seq<char> {
    match a {
        Action::CreateKeyspace => statements::spec_create_keyspace_cql(),
        Action::CreateTable => statements::spec_create_table_cql(),
        Action::Insert => statements::spec_insert_cql(),
        Action::Select => statements::spec_select_cql(),
        Action::Update => statements::spec_update_cql(),
        Action::Delete => statements::spec_delete_cql(),
    }
}

pub fn statement_of(a: &Action) -> (r: &'static str)
    ensures
        r@ == spec_statement_of(*a),
{
    match a {
        Action::CreateKeyspace => statements::create_keyspace_cql(),
        Action::CreateTable => statements::create_table_cql(),
        Action::Insert => statements::insert_cql(),
        Action::Select => statements::select_cql(),
        Action::Update => statements::update_cql(),
        Action::Delete => statements::delete_cql(),
    }
}

/// The progress line printed before an action, if the script prints one:
/// the schema steps are silent, the four row operations announce
/// themselves.
pub open spec fn spec_progress_line_of(a: Action) -> Option<Seq<char>> {
    match a {
        Action::CreateKeyspace => None,
        Action::CreateTable => None,
        Action::Insert => Some("Inserting......"@),
        Action::Select => Some("Querying......"@),
        Action::Update => Some("Updating......"@),
        Action::Delete => Some("Deleting......"@),
    }
}

pub fn progress_line_of(a: &Action) -> (r: Option<&'static str>)
    ensures
        r matches Some(s) ==> spec_progress_line_of(*a) matches Some(t) && s@ == t,
        r is Some <==> spec_progress_line_of(*a) is Some,
{
    match a {
        Action::CreateKeyspace => None,
        Action::CreateTable => None,
        Action::Insert => Some("Inserting......"),
        Action::Select => Some("Querying......"),
        Action::Update => Some("Updating......"),
        Action::Delete => Some("Deleting......"),
    }
}

/// The progress lines a sequence of actions prints, in order.
pub open spec fn spec_progress_lines(p: Seq<Action>) -> Seq<Seq<char>>
    decreases p.len(),
{
    if p.len() == 0 {
        Seq::empty()
    } else {
        match spec_progress_line_of(p.last()) {
            Some(l) => spec_progress_lines(p.drop_last()).push(l),
            None => spec_progress_lines(p.drop_last()),
        }
    }
}

/// The whole plan prints exactly the expected progress lines, in the
/// script's order: the two schema steps are silent and each row operation
/// announces itself once.
pub proof fn lemma_plan_progress_lines()
    ensures
        spec_progress_lines(spec_plan()) =~= seq![
            "Inserting......"@,
            "Querying......"@,
            "Updating......"@,
            "Querying......"@,
            "Deleting......"@,
        ],
{
    let pre7 = spec_plan();
    let pre6 = seq![
        Action::CreateKeyspace,
        Action::CreateTable,
        Action::Insert,
        Action::Select,
        Action::Update,
        Action::Select,
    ];
    let pre5 = seq![
        Action::CreateKeyspace,
        Action::CreateTable,
        Action::Insert,
        Action::Select,
        Action::Update,
    ];
    let pre4 = seq![Action::CreateKeyspace, Action::CreateTable, Action::Insert, Action::Select];
    let pre3 = seq![Action::CreateKeyspace, Action::CreateTable, Action::Insert];
    let pre2 = seq![Action::CreateKeyspace, Action::CreateTable];
    let pre1 = seq![Action::CreateKeyspace];
    let pre0 = Seq::<Action>::empty();
    assert(pre7.drop_last() =~= pre6);
    assert(pre6.drop_last() =~= pre5);
    assert(pre5.drop_last() =~= pre4);
    assert(pre4.drop_last() =~= pre3);
    assert(pre3.drop_last() =~= pre2);
    assert(pre2.drop_last() =~= pre1);
    assert(pre1.drop_last() =~= pre0);
    assert(spec_progress_lines(pre0) =~= Seq::<Seq<char>>::empty());
    assert(spec_progress_lines(pre1) =~= Seq::<Seq<char>>::empty());
    assert(spec_progress_lines(pre2) =~= Seq::<Seq<char>>::empty());
    assert(spec_progress_lines(pre3) =~= seq!["Inserting......"@]);
    assert(spec_progress_lines(pre4) =~= seq!["Inserting......"@, "Querying......"@]);
    assert(spec_progress_lines(pre5) =~= seq![
        "Inserting......"@,
        "Querying......"@,
        "Updating......"@,
    ]);
    assert(spec_progress_lines(pre6) =~= seq![
        "Inserting......"@,
        "Querying......"@,
        "Updating......"@,
        "Querying......"@,
    ]);
}

/// The script's cursor: the validated settings it was started with, and
/// how far along the plan it stands. It exists only around a full
/// [`Config`], so no action — and so no connection use — precedes a
/// complete set of environment variables.
pub struct Script {
    cfg: Config,
    step: usize,
}

impl Script {
    /// How many actions have been handed out.
    pub closed spec fn spec_step(&self) -> int {
        self.step as int
    }

    pub open spec fn wf(&self) -> bool {
        0 <= self.spec_step() <= spec_plan().len()
    }

    /// Whether the plan is exhausted.
    pub open spec fn spec_done(&self) -> bool {
        self.spec_step() == spec_plan().len()
    }

    pub fn new(cfg: Config) -> (r: Script)
        ensures
            r.wf(),
            r.spec_step() == 0,
            r.cfg() == cfg,
    {
        Script { cfg, step: 0 }
    }

    pub closed spec fn cfg(&self) -> Config {
        self.cfg
    }

    /// The settings the script was started with.
    pub fn config(&self) -> (r: &Config)
        ensures
            *r == self.cfg(),
    {
        &self.cfg
    }

    /// Hands out the next action of the plan, in order, and then nothing
    /// once the plan is exhausted: a loop around this function performs
    /// exactly the script and terminates.
    pub fn next_action(&mut self) -> (r: Option<Action>)
        requires
            old(self).wf(),
        ensures
            final(self).wf(),
            final(self).cfg() == old(self).cfg(),
            !old(self).spec_done() ==> (r matches Some(a) && a == spec_plan()[old(self).spec_step()]
                && final(self).spec_step() == old(self).spec_step() + 1),
            old(self).spec_done() ==> r is None && final(self).spec_step() == old(self).spec_step(),
    {
        let a: Option<Action> = if self.step == 0 {
            Some(Action::CreateKeyspace)
        } else if self.step == 1 {
            Some(Action::CreateTable)
        } else if self.step == 2 {
            Some(Action::Insert)
        } else if self.step == 3 {
            Some(Action::Select)
        } else if self.step == 4 {
            Some(Action::Update)
        } else if self.step == 5 {
            Some(Action::Select)
        } else if self.step == 6 {
            Some(Action::Delete)
        } else {
            None
        };
        if a.is_some() {
            self.step = self.step + 1;
        }
        a
    }
}

/// What the two selects of one full run returned.
pub struct RunReport {
    pub first_select: Vec<Row>,
    pub second_select: Vec<Row>,
}

/// One full run of the script against the model database, under any
/// starting table state: the schema ends up created, the first select
/// returns exactly the inserted row, the second returns the same key with
/// the updated description, and the delete leaves the table as it began
/// but without the script's key.
pub fn run_on_model(schema: &mut Schema, table: &mut Table, id: &UserId) -> (r: RunReport)
    requires
        old(table).wf(),
        id.wf(),
    ensures
        final(schema).keyspace_created,
        final(schema).table_created,
        final(table).wf(),
        final(table)@ =~= old(table)@.remove(id@),
        r.first_select@.len() == 1,
        r.first_select@[0].user_id@ == id@,
        r.first_select@[0].description@ == statements::spec_first_description(),
        r.second_select@.len() == 1,
        r.second_select@[0].user_id@ == id@,
        r.second_select@[0].description@ == statements::spec_updated_description(),
{
    schema.create_keyspace_if_not_exists();
    schema.create_table_if_not_exists();
    let first = String::from_str(statements::first_description());
    table.insert(Row::new(id.duplicate(), first));
    let first_select = table.select(id);
    let updated = String::from_str(statements::updated_description());
    table.update_description(id, updated);
    let second_select = table.select(id);
    table.delete(id);
    proof {
        assert(table@ =~= old(table)@.remove(id@));
    }
    RunReport { first_select, second_select }
}

} // verus!
