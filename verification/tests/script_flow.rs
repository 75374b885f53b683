use cassandra_crud::config::{required_env_vars, Config};
use cassandra_crud::script::{plan, progress_line_of, run_on_model, statement_of, Action, Script};
use cassandra_crud::statements;
use cassandra_crud::store::{Schema, Table};

fn full_config() -> Config {
    Config::from_env_values(
        Some(String::from("host:9142")),
        Some(String::from("/tmp/ca.pem")),
        Some(String::from("user")),
        Some(String::from("pass")),
    )
    .expect("all four values are present")
}

#[test]
fn required_env_var_names_are_exact() {
    assert_eq!(
        required_env_vars(),
        vec![
            "CASSANDRA_URI",
            "CASSANDRA_SSL_CERT_PATH",
            "CASSANDRA_USER",
            "CASSANDRA_PASSWORD",
        ],
    );
}

#[test]
fn config_needs_all_four_values() {
    let some = || Some(String::from("x"));
    assert!(Config::from_env_values(some(), some(), some(), some()).is_some());
    assert!(Config::from_env_values(None, some(), some(), some()).is_none());
    assert!(Config::from_env_values(some(), None, some(), some()).is_none());
    assert!(Config::from_env_values(some(), some(), None, some()).is_none());
    assert!(Config::from_env_values(some(), some(), some(), None).is_none());
}

#[test]
fn config_keeps_the_values_unchanged() {
    let c = full_config();
    assert_eq!(c.uri, "host:9142");
    assert_eq!(c.cert_path, "/tmp/ca.pem");
    assert_eq!(c.user, "user");
    assert_eq!(c.password, "pass");
    assert_eq!(c.connected_line(), "Connected to cassandra: host:9142");
}

#[test]
fn plan_is_the_fixed_statement_order() {
    assert_eq!(
        plan(),
        vec![
            Action::CreateKeyspace,
            Action::CreateTable,
            Action::Insert,
            Action::Select,
            Action::Update,
            Action::Select,
            Action::Delete,
        ],
    );
}

#[test]
fn next_action_walks_the_plan_once_and_stops() {
    let mut script = Script::new(full_config());
    let mut seen: Vec<Action> = Vec::new();
    while let Some(a) = script.next_action() {
        seen.push(a);
    }
    assert_eq!(seen, plan());
    assert!(script.next_action().is_none());
}

#[test]
fn statements_are_exact() {
    assert_eq!(
        statement_of(&Action::CreateKeyspace),
        "CREATE KEYSPACE IF NOT EXISTS aws_cassandra_test WITH REPLICATION ={ 'class' : 'SimpleStrategy', 'replication_factor' : 1};",
    );
    assert_eq!(
        statement_of(&Action::CreateTable),
        "CREATE TABLE IF NOT EXISTS aws_cassandra_test.table_test(user_id UUID, description text, date timestamp, PRIMARY KEY (user_id));",
    );
    assert_eq!(
        statement_of(&Action::Insert),
        "INSERT INTO aws_cassandra_test.table_test (user_id, description, date) VALUES (?, ?, toTimeStamp(now()));",
    );
    assert_eq!(
        statement_of(&Action::Select),
        "SELECT * FROM aws_cassandra_test.table_test WHERE user_id = ?;",
    );
    assert_eq!(
        statement_of(&Action::Update),
        "UPDATE aws_cassandra_test.table_test SET description = ? WHERE user_id = ?;",
    );
    assert_eq!(
        statement_of(&Action::Delete),
        "DELETE FROM aws_cassandra_test.table_test WHERE user_id = ?;",
    );
}

#[test]
fn progress_lines_follow_the_plan() {
    let mut lines: Vec<&'static str> = Vec::new();
    for a in plan() {
        if let Some(l) = progress_line_of(&a) {
            lines.push(l);
        }
    }
    assert_eq!(
        lines,
        vec![
            "Inserting......",
            "Querying......",
            "Updating......",
            "Querying......",
            "Deleting......",
        ],
    );
}

#[test]
fn fixed_values_are_exact() {
    assert_eq!(
        statements::user_id_text(),
        "534a87db-df22-48eb-901b-4fac9c392954",
    );
    assert_eq!(statements::first_description(), "Some description");
    assert_eq!(statements::updated_description(), "Updated description.");
    assert_eq!(
        statements::fixed_user_id().to_text(),
        "534a87db-df22-48eb-901b-4fac9c392954",
    );
}

#[test]
fn full_run_on_the_model_behaves_like_the_script() {
    let mut schema = Schema::new();
    let mut table = Table::new();
    let id = statements::fixed_user_id();
    let report = run_on_model(&mut schema, &mut table, &id);
    assert!(schema.keyspace_created);
    assert!(schema.table_created);
    assert_eq!(report.first_select.len(), 1);
    assert!(report.first_select[0].user_id.eq_id(&id));
    assert_eq!(report.first_select[0].description, "Some description");
    assert_eq!(report.second_select.len(), 1);
    assert!(report.second_select[0].user_id.eq_id(&id));
    assert_eq!(report.second_select[0].description, "Updated description.");
    assert_eq!(table.select(&id).len(), 0);
}
