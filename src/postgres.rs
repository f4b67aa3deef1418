use vstd::prelude::*;
use vstd::string::*;

use crate::command::{ArgView, Command, CommandView, fresh_command};
use crate::error::Error;
use crate::level::Level;
use crate::text::{check_name, contains_char, is_name, CharClass};

verus! {

/// The text of `s` inside an SQL string literal: each `'` doubled and each
/// backslash doubled.
pub open spec fn sql_escaped(s: Seq<char>) -> Seq<char>
    decreases s.len(),
{
    if s.len() == 0 {
        Seq::empty()
    } else {
        let c = s.last();
        sql_escaped(s.drop_last()) + if c == '\'' {
            seq!['\'', '\'']
        } else if c == '\\' {
            seq!['\\', '\\']
        } else {
            seq![c]
        }
    }
}

/// `s` as an SQL string literal.
pub open spec fn sql_literal(s: Seq<char>) -> Seq<char> {
    seq!['\''] + sql_escaped(s) + seq!['\'']
}

/// Relies on `Display` of `format_sql_query::QuotedData`: the value in single
/// quotes, with `'` written `''` and a backslash written as two.
#[verifier::external_body]
fn quote_sql(s: &str) -> (r: String)
    ensures
        r@ == sql_literal(s@),
{
    format_sql_query::QuotedData(s).to_string()
}

/// `sudo --user postgres --login` in front of the arguments.
pub open spec fn as_postgres(argv: Seq<ArgView>) -> Seq<ArgView> {
    seq![
        ArgView::escaped("sudo"@),
        ArgView::escaped("--user"@),
        ArgView::escaped("postgres"@),
        ArgView::escaped("--login"@),
    ] + argv
}

/// A `psql` query run as `postgres` whose output is not logged, as the
/// probes run.
pub open spec fn probe_view(query: Seq<char>) -> CommandView {
    CommandView {
        argv: as_postgres(
            seq![
                ArgView::escaped("psql"@),
                ArgView::escaped("--tuples-only"@),
                ArgView::escaped("--command"@),
                ArgView::escaped(query),
            ],
        ),
        command_log_level: Level::Trace,
        stdout_log_level: Level::Trace,
        ..fresh_command(Seq::empty())
    }
}

/// A `psql` statement run as `postgres`.
pub open spec fn statement_view(statement: ArgView) -> CommandView {
    fresh_command(
        as_postgres(
            seq![ArgView::escaped("psql"@), ArgView::escaped("--command"@), statement],
        ),
    )
}

fn run_as_postgres(c: Command) -> (r: Command)
    ensures
        r@ == (CommandView { argv: as_postgres(c@.argv), ..c@ }),
{
    let front: [&str; 4] = ["sudo", "--user", "postgres", "--login"];
    let r = c.prepend_args(&front);
    proof {
        assert(crate::command::escaped_args(front@) =~= seq![
            ArgView::escaped("sudo"@),
            ArgView::escaped("--user"@),
            ArgView::escaped("postgres"@),
            ArgView::escaped("--login"@),
        ]);
    }
    r
}

fn probe(query: &str) -> (r: Command)
    ensures
        r@ == probe_view(query@),
{
    let argv: [&str; 4] = ["psql", "--tuples-only", "--command", query];
    let c = run_as_postgres(Command::new(&argv)).hide_command().hide_stdout();
    proof {
        assert(crate::command::escaped_args(argv@) =~= seq![
            ArgView::escaped("psql"@),
            ArgView::escaped("--tuples-only"@),
            ArgView::escaped("--command"@),
            ArgView::escaped(query@),
        ]);
    }
    c
}

fn statement(c: Command) -> (r: Command)
    requires
        c@.argv.len() == 1,
        c@ == fresh_command(c@.argv),
    ensures
        r@ == statement_view(c@.argv[0]),
{
    let head: [&str; 2] = ["psql", "--command"];
    let r = run_as_postgres(c.prepend_args(&head));
    proof {
        assert(crate::command::escaped_args(head@) =~= seq![
            ArgView::escaped("psql"@),
            ArgView::escaped("--command"@),
        ]);
        assert(crate::command::escaped_args(head@) + c@.argv =~= seq![
            ArgView::escaped("psql"@),
            ArgView::escaped("--command"@),
            c@.argv[0],
        ]);
    }
    r
}

/// The query that finds a role by name.
pub open spec fn role_query(user: Seq<char>) -> Seq<char> {
    "SELECT 1 FROM pg_roles WHERE rolname = "@ + sql_literal(user)
}

/// The query that finds a database by name.
pub open spec fn database_query(name: Seq<char>) -> Seq<char> {
    "SELECT 1 FROM pg_database WHERE datname = "@ + sql_literal(name)
}

/// The statement that creates a role with a password.
pub open spec fn create_role_statement(user: Seq<char>, password: Seq<char>) -> Seq<char> {
    "CREATE USER "@ + user + " WITH PASSWORD "@ + sql_literal(password)
}

/// The probe for a role named `user`; the name must be of `[A-Za-z0-9_]+`.
pub fn role_probe(user: &str) -> (r: Result<Command, Error>)
    ensures
        !is_name(CharClass::PostgresUser, user@) ==> r == Err::<Command, Error>(
            Error::InvalidPostgresUser,
        ),
        is_name(CharClass::PostgresUser, user@) ==> (r matches Ok(c) && c@ == probe_view(
            role_query(user@),
        )),
{
    if !check_name(CharClass::PostgresUser, user) {
        return Err(Error::InvalidPostgresUser);
    }
    let mut query = "SELECT 1 FROM pg_roles WHERE rolname = ".to_owned();
    let quoted = quote_sql(user);
    query.append(quoted.as_str());
    Ok(probe(query.as_str()))
}

/// The statement that creates the role `user` with `password`. The password
/// goes to the remote host as it is; the log shows `'<redacted>'` in its place.
pub fn create_role_command(user: &str, password: &str) -> (r: Result<Command, Error>)
    ensures
        !is_name(CharClass::PostgresUser, user@) ==> r == Err::<Command, Error>(
            Error::InvalidPostgresUser,
        ),
        is_name(CharClass::PostgresUser, user@) ==> (r matches Ok(c) && c@ == statement_view(
            ArgView {
                raw: false,
                value: create_role_statement(user@, password@),
                placeholder: Some(create_role_statement(user@, "<redacted>"@)),
            },
        )),
{
    if !check_name(CharClass::PostgresUser, user) {
        return Err(Error::InvalidPostgresUser);
    }
    let mut sent = "CREATE USER ".to_owned();
    sent.append(user);
    sent.append(" WITH PASSWORD ");
    let mut shown = sent.clone();
    let secret = quote_sql(password);
    sent.append(secret.as_str());
    let hidden = quote_sql("<redacted>");
    shown.append(hidden.as_str());
    let empty: [&str; 0] = [];
    let c = Command::new(&empty).redacted_arg(sent.as_str(), shown.as_str());
    proof {
        assert(crate::command::escaped_args(empty@) =~= Seq::<ArgView>::empty());
    }
    Ok(statement(c))
}

/// The probe for a database named `name`; the name must be of `[A-Za-z0-9_$]+`.
pub fn database_probe(name: &str) -> (r: Result<Command, Error>)
    ensures
        !is_name(CharClass::PostgresDatabase, name@) ==> r == Err::<Command, Error>(
            Error::InvalidPostgresDatabase,
        ),
        is_name(CharClass::PostgresDatabase, name@) ==> (r matches Ok(c) && c@ == probe_view(
            database_query(name@),
        )),
{
    if !check_name(CharClass::PostgresDatabase, name) {
        return Err(Error::InvalidPostgresDatabase);
    }
    let mut query = "SELECT 1 FROM pg_database WHERE datname = ".to_owned();
    let quoted = quote_sql(name);
    query.append(quoted.as_str());
    Ok(probe(query.as_str()))
}

/// The statement that creates the database `name`.
pub fn create_database_command(name: &str) -> (r: Result<Command, Error>)
    ensures
        !is_name(CharClass::PostgresDatabase, name@) ==> r == Err::<Command, Error>(
            Error::InvalidPostgresDatabase,
        ),
        is_name(CharClass::PostgresDatabase, name@) ==> (r matches Ok(c) && c@ == statement_view(
            ArgView::escaped("CREATE DATABASE "@ + name@),
        )),
{
    if !check_name(CharClass::PostgresDatabase, name) {
        return Err(Error::InvalidPostgresDatabase);
    }
    let mut text = "CREATE DATABASE ".to_owned();
    text.append(name);
    let one: [&str; 1] = [text.as_str()];
    let c = Command::new(&one);
    proof {
        assert(crate::command::escaped_args(one@) =~= seq![ArgView::escaped(text@)]);
    }
    Ok(statement(c))
}

/// The statement that grants all privileges on `database` to `user`; the user
/// name is checked first, then the database name.
pub fn grant_command(database: &str, user: &str) -> (r: Result<Command, Error>)
    ensures
        !is_name(CharClass::PostgresUser, user@) ==> r == Err::<Command, Error>(
            Error::InvalidPostgresUser,
        ),
        is_name(CharClass::PostgresUser, user@) && !is_name(
            CharClass::PostgresDatabase,
            database@,
        ) ==> r == Err::<Command, Error>(Error::InvalidPostgresDatabase),
        is_name(CharClass::PostgresUser, user@) && is_name(CharClass::PostgresDatabase, database@)
            ==> (r matches Ok(c) && c@ == statement_view(
            ArgView::escaped(
                "GRANT ALL PRIVILEGES ON DATABASE "@ + database@ + " TO "@ + user@,
            ),
        )),
{
    if !check_name(CharClass::PostgresUser, user) {
        return Err(Error::InvalidPostgresUser);
    }
    if !check_name(CharClass::PostgresDatabase, database) {
        return Err(Error::InvalidPostgresDatabase);
    }
    let mut text = "GRANT ALL PRIVILEGES ON DATABASE ".to_owned();
    text.append(database);
    text.append(" TO ");
    text.append(user);
    let one: [&str; 1] = [text.as_str()];
    let c = Command::new(&one);
    proof {
        assert(crate::command::escaped_args(one@) =~= seq![ArgView::escaped(text@)]);
    }
    Ok(statement(c))
}

/// Whether a probe found a row: its output holds a `1`.
pub fn row_found(stdout: &str) -> (r: bool)
    ensures
        r == stdout@.contains('1'),
{
    contains_char(stdout, '1')
}

} // verus!
