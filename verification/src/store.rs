//! A model of the database state the script runs against: the schema flags
//! and the one table, keyed by user id.
//!
//! The table is a vector of rows with pairwise distinct keys, viewed as a
//! map from key bytes to description text. The four statement semantics —
//! insert and update as upserts on the primary key, select of at most one
//! row, delete of one key — are stated against that map.

use vstd::prelude::*;

use crate::user_id::UserId;

verus! {

/// One row of the table, as the script reads it back: the primary key and
/// the description. The timestamp column is written by the server and never
/// read by the script.
pub struct Row {
    pub user_id: UserId,
    pub description: String,
}

impl Row {
    pub open spec fn wf(&self) -> bool {
        self.user_id.wf()
    }

    /// The row as the pair of plain values it holds.
    pub open spec fn entry(&self) -> (Seq<u8>, Seq<char>) {
        (self.user_id@, self.description@)
    }

    pub fn new(user_id: UserId, description: String) -> (r: Row)
        ensures
            r.user_id@ == user_id@,
            r.description@ == description@,
    {
        Row { user_id, description }
    }

    /// An owned copy of the row.
    pub fn duplicate(&self) -> (r: Row)
        ensures
            r.entry() == self.entry(),
    {
        Row { user_id: self.user_id.duplicate(), description: self.description.clone() }
    }

    /// What a select prints for this row.
    pub open spec fn spec_display_line(&self) -> Seq<char> {
        "Query result: Row { user_id: "@ + crate::user_id::uuid_text_of(self.user_id@)
            + ", description: \""@ + self.description@ + "\" }"@
    }

    /// Writes the row the way the script prints a query result.
    pub fn display_line(&self) -> (r: String)
        requires
            self.wf(),
        ensures
            r@ == self.spec_display_line(),
    {
        let mut line = String::new();
        line.append("Query result: Row { user_id: ");
        let id_text = self.user_id.to_text();
        line.append(id_text.as_str());
        line.append(", description: \"");
        line.append(self.description.as_str());
        line.append("\" }");
        proof {
            assert(line@ =~= self.spec_display_line());
        }
        line
    }
}

/// The map denoted by a sequence of rows: a later row with the same key
/// would win, though a well-formed table never holds two.
pub open spec fn rows_map(rs: Seq<Row>) -> Map<Seq<u8>, Seq<char>>
    decreases rs.len(),
{
    if rs.len() == 0 {
        Map::empty()
    } else {
        rows_map(rs.drop_last()).insert(rs.last().user_id@, rs.last().description@)
    }
}

/// No two rows share a key, and every row is well formed.
pub open spec fn rows_wf(rs: Seq<Row>) -> bool {
    &&& forall|i: int, j: int| 0 <= i < j < rs.len() ==> rs[i].user_id@ != rs[j].user_id@
    &&& forall|i: int| 0 <= i < rs.len() ==> (#[trigger] rs[i]).wf()
}

proof fn lemma_rows_map_absent(rs: Seq<Row>, k: Seq<u8>)
    requires
        forall|i: int| 0 <= i < rs.len() ==> (#[trigger] rs[i]).user_id@ != k,
    ensures
        !rows_map(rs).contains_key(k),
    decreases rs.len(),
{
    if rs.len() > 0 {
        assert(forall|i: int|
            0 <= i < rs.drop_last().len() ==> (#[trigger] rs.drop_last()[i]).user_id@ != k);
        lemma_rows_map_absent(rs.drop_last(), k);
    }
}

proof fn lemma_rows_map_get(rs: Seq<Row>, i: int)
    requires
        rows_wf(rs),
        0 <= i < rs.len(),
    ensures
        rows_map(rs).contains_key(rs[i].user_id@),
        rows_map(rs)[rs[i].user_id@] == rs[i].description@,
    decreases rs.len(),
{
    if i == rs.len() - 1 {
    } else {
        assert(rows_wf(rs.drop_last()));
        assert(rs.drop_last()[i] == rs[i]);
        lemma_rows_map_get(rs.drop_last(), i);
        assert(rs[i].user_id@ != rs.last().user_id@);
    }
}

proof fn lemma_rows_map_update(rs: Seq<Row>, i: int, r: Row)
    requires
        rows_wf(rs),
        0 <= i < rs.len(),
        rs[i].user_id@ == r.user_id@,
    ensures
        rows_map(rs.update(i, r)) =~= rows_map(rs).insert(r.user_id@, r.description@),
    decreases rs.len(),
{
    let updated = rs.update(i, r);
    if i == rs.len() - 1 {
        assert(updated.drop_last() =~= rs.drop_last());
        assert(updated.last() == r);
    } else {
        assert(rows_wf(rs.drop_last()));
        assert(rs.drop_last()[i] == rs[i]);
        lemma_rows_map_update(rs.drop_last(), i, r);
        assert(updated.drop_last() =~= rs.drop_last().update(i, r));
        assert(updated.last() == rs.last());
        assert(rs.last().user_id@ != r.user_id@);
    }
}

proof fn lemma_rows_map_remove(rs: Seq<Row>, i: int)
    requires
        rows_wf(rs),
        0 <= i < rs.len(),
    ensures
        rows_map(rs.remove(i)) =~= rows_map(rs).remove(rs[i].user_id@),
    decreases rs.len(),
{
    let removed = rs.remove(i);
    if i == rs.len() - 1 {
        assert(removed =~= rs.drop_last());
        assert(forall|j: int|
            0 <= j < rs.drop_last().len() ==> (#[trigger] rs.drop_last()[j]).user_id@
                != rs[i].user_id@);
        lemma_rows_map_absent(rs.drop_last(), rs[i].user_id@);
    } else {
        assert(rows_wf(rs.drop_last()));
        assert(rs.drop_last()[i] == rs[i]);
        lemma_rows_map_remove(rs.drop_last(), i);
        assert(removed.drop_last() =~= rs.drop_last().remove(i));
        assert(removed.last() == rs.last());
        assert(rs.last().user_id@ != rs[i].user_id@);
    }
}

/// The table, keyed by user id.
pub struct Table {
    rows: Vec<Row>,
}

impl View for Table {
    type V = Map<Seq<u8>, Seq<char>>;

    closed spec fn view(&self) -> Map<Seq<u8>, Seq<char>> {
        rows_map(self.rows@)
    }
}

impl Table {
    pub closed spec fn wf(&self) -> bool {
        rows_wf(self.rows@)
    }

    /// The freshly created table holds no rows.
    pub fn new() -> (r: Table)
        ensures
            r.wf(),
            r@ =~= Map::<Seq<u8>, Seq<char>>::empty(),
    {
        Table { rows: Vec::new() }
    }

    /// The index of the row holding the given key, if any.
    fn find(&self, id: &UserId) -> (r: Option<usize>)
        requires
            self.wf(),
            id.wf(),
        ensures
            r matches Some(i) ==> i < self.rows@.len() && self.rows@[i as int].user_id@ == id@,
            r is None ==> forall|i: int|
                0 <= i < self.rows@.len() ==> (#[trigger] self.rows@[i]).user_id@ != id@,
    {
        let mut i: usize = 0;
        while i < self.rows.len()
            invariant
                self.wf(),
                id.wf(),
                i <= self.rows@.len(),
                forall|j: int| 0 <= j < i ==> (#[trigger] self.rows@[j]).user_id@ != id@,
            decreases self.rows@.len() - i,
        {
            if self.rows[i].user_id.eq_id(id) {
                return Some(i);
            }
            i += 1;
        }
        None
    }

    /// The semantics of the insert statement: an upsert of the row under
    /// its primary key.
    pub fn insert(&mut self, row: Row)
        requires
            old(self).wf(),
            row.wf(),
        ensures
            final(self).wf(),
            final(self)@ =~= old(self)@.insert(row.user_id@, row.description@),
    {
        let ghost rs0 = self.rows@;
        match self.find(&row.user_id) {
            Some(i) => {
                let ghost r = row;
                self.rows[i] = row;
                proof {
                    lemma_rows_map_update(rs0, i as int, r);
                    assert(rows_wf(self.rows@));
                }
            },
            None => {
                let ghost r = row;
                self.rows.push(row);
                proof {
                    assert(self.rows@.drop_last() =~= rs0);
                    assert(self.rows@.last() == r);
                    assert forall|i: int, j: int|
                        0 <= i < j < self.rows@.len() implies self.rows@[i].user_id@
                        != self.rows@[j].user_id@ by {
                        if j < self.rows@.len() - 1 {
                            assert(rs0[i].user_id@ != rs0[j].user_id@);
                        }
                    }
                }
            },
        }
    }

    /// The semantics of the update statement: on the primary key it is an
    /// upsert of the new description, and the key stays what it was.
    pub fn update_description(&mut self, id: &UserId, description: String)
        requires
            old(self).wf(),
            id.wf(),
        ensures
            final(self).wf(),
            final(self)@ =~= old(self)@.insert(id@, description@),
    {
        self.insert(Row::new(id.duplicate(), description));
    }

    /// The semantics of the select statement: exactly one row comes back
    /// when the key is present, none when it is absent.
    pub fn select(&self, id: &UserId) -> (r: Vec<Row>)
        requires
            self.wf(),
            id.wf(),
        ensures
            self@.contains_key(id@) ==> r@.len() == 1 && r@[0].user_id@ == id@
                && r@[0].description@ == self@[id@] && r@[0].wf(),
            !self@.contains_key(id@) ==> r@.len() == 0,
            r@.map_values(|row: Row| row.entry()) =~= spec_select(self@, id@),
    {
        let mut out: Vec<Row> = Vec::new();
        match self.find(id) {
            Some(i) => {
                proof {
                    lemma_rows_map_get(self.rows@, i as int);
                }
                let row = self.rows[i].duplicate();
                out.push(row);
            },
            None => {
                proof {
                    lemma_rows_map_absent(self.rows@, id@);
                }
            },
        }
        out
    }

    /// The semantics of the delete statement: the key leaves the table and
    /// every other row stays.
    pub fn delete(&mut self, id: &UserId)
        requires
            old(self).wf(),
            id.wf(),
        ensures
            final(self).wf(),
            final(self)@ =~= old(self)@.remove(id@),
    {
        let ghost rs0 = self.rows@;
        match self.find(id) {
            Some(i) => {
                self.rows.remove(i);
                proof {
                    lemma_rows_map_remove(rs0, i as int);
                    assert forall|a: int, b: int|
                        0 <= a < b < self.rows@.len() implies self.rows@[a].user_id@
                        != self.rows@[b].user_id@ by {
                        let a0 = if a < i as int { a } else { a + 1 };
                        let b0 = if b < i as int { b } else { b + 1 };
                        assert(self.rows@[a] == rs0[a0]);
                        assert(self.rows@[b] == rs0[b0]);
                    }
                }
            },
            None => {
                proof {
                    lemma_rows_map_absent(self.rows@, id@);
                    assert(old(self)@.remove(id@) =~= old(self)@);
                }
            },
        }
    }
}

/// What the select statement returns on a table state, as plain pairs.
pub open spec fn spec_select(m: Map<Seq<u8>, Seq<char>>, k: Seq<u8>) -> Seq<(Seq<u8>, Seq<char>)> {
    if m.contains_key(k) {
        seq![(k, m[k])]
    } else {
        Seq::empty()
    }
}

/// After an insert, a select for the same key returns exactly one row,
/// equal to the inserted values.
pub proof fn lemma_select_after_insert(m: Map<Seq<u8>, Seq<char>>, k: Seq<u8>, v: Seq<char>)
    ensures
        spec_select(m.insert(k, v), k) =~= seq![(k, v)],
{
}

/// After an update of a key's description, a select for the same key
/// returns the updated description under the unchanged key.
pub proof fn lemma_select_after_update(m: Map<Seq<u8>, Seq<char>>, k: Seq<u8>, v: Seq<char>)
    ensures
        spec_select(m.insert(k, v), k).len() == 1,
        spec_select(m.insert(k, v), k)[0].1 == v,
        spec_select(m.insert(k, v), k)[0].0 == k,
{
}

/// After a delete, a select for the same key returns zero rows.
pub proof fn lemma_select_after_delete(m: Map<Seq<u8>, Seq<char>>, k: Seq<u8>)
    ensures
        spec_select(m.remove(k), k) =~= Seq::<(Seq<u8>, Seq<char>)>::empty(),
{
}

/// The schema-side state: whether the keyspace and the table exist.
pub struct Schema {
    pub keyspace_created: bool,
    pub table_created: bool,
}

impl Schema {
    /// The schema state after the keyspace creation statement: the
    /// statement is guarded by `IF NOT EXISTS`, so it only ever flips the
    /// keyspace into existence and touches nothing else, and it never
    /// fails.
    pub open spec fn spec_after_create_keyspace(self) -> Schema {
        Schema { keyspace_created: true, table_created: self.table_created }
    }

    /// The schema state after the table creation statement, guarded the
    /// same way.
    pub open spec fn spec_after_create_table(self) -> Schema {
        Schema { keyspace_created: self.keyspace_created, table_created: true }
    }

    /// Before the script runs, nothing is known to exist.
    pub fn new() -> (r: Schema)
        ensures
            !r.keyspace_created,
            !r.table_created,
    {
        Schema { keyspace_created: false, table_created: false }
    }

    pub fn create_keyspace_if_not_exists(&mut self)
        ensures
            *final(self) == old(self).spec_after_create_keyspace(),
    {
        self.keyspace_created = true;
    }

    pub fn create_table_if_not_exists(&mut self)
        ensures
            *final(self) == old(self).spec_after_create_table(),
    {
        self.table_created = true;
    }
}

/// Re-running keyspace and table creation against an already-initialized
/// schema is a no-op: a second application of either creation step changes
/// nothing, and in particular an initialized schema is left exactly as it
/// was.
pub proof fn lemma_schema_setup_idempotent(s: Schema)
    ensures
        s.spec_after_create_keyspace().spec_after_create_keyspace()
            == s.spec_after_create_keyspace(),
        s.spec_after_create_table().spec_after_create_table() == s.spec_after_create_table(),
        (s.keyspace_created && s.table_created) ==> s.spec_after_create_keyspace()
            .spec_after_create_table() == s,
{
}

} // verus!
