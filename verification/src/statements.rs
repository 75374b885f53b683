//! The five CQL statements the script issues, and the fixed values bound to
//! them. Each function pins its result to the exact statement text, so a
//! caller (and the driver loop around the library) sees precisely what is
//! sent to the database.

use vstd::prelude::*;

use crate::user_id::{is_uuid_text, uuid_bytes_of, UserId};

verus! {

/// The text of the keyspace creation statement. `IF NOT EXISTS` makes a
/// second run of it a no-op on the database side.
pub open spec fn spec_create_keyspace_cql() -> Seq<char> {
    "CREATE KEYSPACE IF NOT EXISTS aws_cassandra_test WITH REPLICATION ={ 'class' : 'SimpleStrategy', 'replication_factor' : 1};"@
}

/// The text of the table creation statement, also guarded by
/// `IF NOT EXISTS`.
pub open spec fn spec_create_table_cql() -> Seq<char> {
    "CREATE TABLE IF NOT EXISTS aws_cassandra_test.table_test(user_id UUID, description text, date timestamp, PRIMARY KEY (user_id));"@
}

/// The parameterized insert statement: user id and description are bound,
/// the timestamp is taken on the server.
pub open spec fn spec_insert_cql() -> Seq<char> {
    "INSERT INTO aws_cassandra_test.table_test (user_id, description, date) VALUES (?, ?, toTimeStamp(now()));"@
}

/// The parameterized select statement for one primary key.
pub open spec fn spec_select_cql() -> Seq<char> {
    "SELECT * FROM aws_cassandra_test.table_test WHERE user_id = ?;"@
}

/// The parameterized update statement for one primary key.
pub open spec fn spec_update_cql() -> Seq<char> {
    "UPDATE aws_cassandra_test.table_test SET description = ? WHERE user_id = ?;"@
}

/// The parameterized delete statement for one primary key.
pub open spec fn spec_delete_cql() -> Seq<char> {
    "DELETE FROM aws_cassandra_test.table_test WHERE user_id = ?;"@
}

/// The one primary key the script works against, in hyphenated text form.
pub open spec fn spec_user_id_text() -> Seq<char> {
    "534a87db-df22-48eb-901b-4fac9c392954"@
}

/// The description bound by the insert statement.
pub open spec fn spec_first_description() -> Seq<char> {
    "Some description"@
}

/// The description bound by the update statement.
pub open spec fn spec_updated_description() -> Seq<char> {
    "Updated description."@
}

pub fn create_keyspace_cql() -> (r: &'static str)
    ensures
        r@ == spec_create_keyspace_cql(),
{
    "CREATE KEYSPACE IF NOT EXISTS aws_cassandra_test WITH REPLICATION ={ 'class' : 'SimpleStrategy', 'replication_factor' : 1};"
}

pub fn create_table_cql() -> (r: &'static str)
    ensures
        r@ == spec_create_table_cql(),
{
    "CREATE TABLE IF NOT EXISTS aws_cassandra_test.table_test(user_id UUID, description text, date timestamp, PRIMARY KEY (user_id));"
}

pub fn insert_cql() -> (r: &'static str)
    ensures
        r@ == spec_insert_cql(),
{
    "INSERT INTO aws_cassandra_test.table_test (user_id, description, date) VALUES (?, ?, toTimeStamp(now()));"
}

pub fn select_cql() -> (r: &'static str)
    ensures
        r@ == spec_select_cql(),
{
    "SELECT * FROM aws_cassandra_test.table_test WHERE user_id = ?;"
}

pub fn update_cql() -> (r: &'static str)
    ensures
        r@ == spec_update_cql(),
{
    "UPDATE aws_cassandra_test.table_test SET description = ? WHERE user_id = ?;"
}

pub fn delete_cql() -> (r: &'static str)
    ensures
        r@ == spec_delete_cql(),
{
    "DELETE FROM aws_cassandra_test.table_test WHERE user_id = ?;"
}

pub fn user_id_text() -> (r: &'static str)
    ensures
        r@ == spec_user_id_text(),
{
    "534a87db-df22-48eb-901b-4fac9c392954"
}

/// The script's fixed primary key text is a well-formed hyphenated UUID
/// text.
pub proof fn lemma_user_id_text_wf()
    ensures
        is_uuid_text(spec_user_id_text()),
{
    reveal_strlit("534a87db-df22-48eb-901b-4fac9c392954");
    let t = spec_user_id_text();
    assert forall|j: int| 0 <= j < 32 implies crate::user_id::is_hex_digit(
        #[trigger] t[crate::user_id::digit_pos(j)],
    ) by {
        assert(crate::user_id::hex_val(t[crate::user_id::digit_pos(j)]) >= 0);
    }
}

/// The script's fixed primary key, decoded from its text form.
pub fn fixed_user_id() -> (r: UserId)
    ensures
        r.wf(),
        r@ == uuid_bytes_of(spec_user_id_text()),
{
    proof {
        lemma_user_id_text_wf();
    }
    let parsed = UserId::from_text(user_id_text());
    parsed.unwrap()
}

pub fn first_description() -> (r: &'static str)
    ensures
        r@ == spec_first_description(),
{
    "Some description"
}

pub fn updated_description() -> (r: &'static str)
    ensures
        r@ == spec_updated_description(),
{
    "Updated description."
}

} // verus!
