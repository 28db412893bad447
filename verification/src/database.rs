use vstd::prelude::*;
use crate::types::{Secret, SecretView};

verus! {

#[verifier::external_type_specification]
#[verifier::external_body]
pub struct ExConnection(sqlite::Connection);

#[verifier::external_type_specification]
#[verifier::external_body]
pub struct ExSqliteError(sqlite::Error);

#[verifier::external_type_specification]
#[verifier::external_body]
pub struct ExStatement<'l>(sqlite::Statement<'l>);

#[verifier::external_type_specification]
#[verifier::external_body]
pub struct ExRow(sqlite::Row);

/// What one column of a fetched row holds, as far as the store reads it:
/// an integer, a text, or anything else (a float, a blob or NULL).
pub enum Cell {
    Integer(i64),
    Text(Seq<char>),
    Other,
}

/// The columns of a fetched row, by name.
pub uninterp spec fn row_cells(row: sqlite::Row) -> Map<Seq<char>, Cell>;

/// The path of the database file that a connection was opened on.
pub uninterp spec fn database_file(connection: sqlite::Connection) -> Seq<char>;

/// Whether the statement made from `sql`, with `bindings` bound, can be
/// run to its next step without an error: true of every statement that
/// SQLite has so run.
pub uninterp spec fn can_run(sql: Seq<char>, bindings: Map<int, Cell>) -> bool;

/// Whether `rows` (the columns of each row, by name, in order) can be what
/// the query made from `sql`, with `bindings` bound, hands out: true of
/// every list of rows that SQLite has so handed out.
pub uninterp spec fn can_answer(
    sql: Seq<char>,
    bindings: Map<int, Cell>,
    rows: Seq<Map<Seq<char>, Cell>>,
) -> bool;

/// The SQL text that a prepared statement was made from.
pub uninterp spec fn statement_text(statement: sqlite::Statement) -> Seq<char>;

/// The values bound to a prepared statement's parameters, by index (from
/// 1); a parameter with no value bound (NULL to SQLite) is not in the map.
pub uninterp spec fn statement_bindings(statement: sqlite::Statement) -> Map<int, Cell>;

/// Calls `sqlite::open`, which opens (or creates) the database file at
/// `path`. Trusted: a path holding a NUL character cannot be handed to
/// SQLite (`CString::new` refuses it), and the call fails; a connection
/// that comes back is one on the file at `path`. Whether the open succeeds
/// otherwise depends on the file system: that is not stated.
#[verifier::external_body]
fn open_database(path: &str) -> (r: Result<sqlite::Connection, sqlite::Error>)
    ensures
        path@.contains('\0') ==> r is Err,
        match r {
            Ok(connection) => database_file(connection) == path@,
            Err(_) => true,
        },
{
    sqlite::open(path)
}

/// Calls `Connection::prepare`, which compiles `sql` against the database.
/// It panics when a column of the result has a name that is not UTF-8, so
/// it is only handed the store's own statements, whose results have no
/// column or the four columns that they name. Whether it succeeds depends
/// on the database. Trusted: a statement that comes back is made from
/// `sql` and has no value bound yet (SQLite's `sqlite3_prepare_v2` leaves
/// every parameter NULL).
#[verifier::external_body]
fn prepare<'a>(connection: &'a sqlite::Connection, sql: &str) -> (r: Result<
    sqlite::Statement<'a>,
    sqlite::Error,
>)
    requires
        is_store_statement(sql@),
    ensures
        match r {
            Ok(statement) => statement_text(statement) == sql@ && statement_bindings(statement)
                == Map::<int, Cell>::empty(),
            Err(_) => true,
        },
{
    connection.prepare(sql)
}

/// Calls `Statement::bind((index, value))`, which binds a text to the
/// parameter at `index` (from 1); the index must fit SQLite's 32-bit
/// parameter numbers. Whether it succeeds is SQLite's to say.
/// Trusted: when it does, the parameter at `index` holds `value`, and the
/// statement's text and its other parameters are as they were.
#[verifier::external_body]
fn bind_text(statement: &mut sqlite::Statement, index: usize, value: &str) -> (r: Result<
    (),
    sqlite::Error,
>)
    requires
        index <= 0x7fff_ffff,
    ensures
        r is Ok ==> statement_text(*final(statement)) == statement_text(*old(statement))
            && statement_bindings(*final(statement)) == statement_bindings(*old(statement)).insert(
            index as int,
            Cell::Text(value@),
        ),
{
    statement.bind((index, value))
}

/// Calls `Statement::bind((index, value))`, which binds an integer to the
/// parameter at `index` (from 1); the index must fit SQLite's 32-bit
/// parameter numbers. Whether it succeeds is SQLite's to say.
/// Trusted: when it does, the parameter at `index` holds `value`, and the
/// statement's text and its other parameters are as they were.
#[verifier::external_body]
fn bind_integer(statement: &mut sqlite::Statement, index: usize, value: i64) -> (r: Result<
    (),
    sqlite::Error,
>)
    requires
        index <= 0x7fff_ffff,
    ensures
        r is Ok ==> statement_text(*final(statement)) == statement_text(*old(statement))
            && statement_bindings(*final(statement)) == statement_bindings(*old(statement)).insert(
            index as int,
            Cell::Integer(value),
        ),
{
    statement.bind((index, value))
}

/// Calls `Statement::next`, which runs the statement one step; the state
/// that it reaches is dropped. Whether it succeeds depends on the database.
/// Trusted: when it does, the statement that ran is the one made from its
/// text with its bindings (`can_run`).
#[verifier::external_body]
fn step(statement: &mut sqlite::Statement) -> (r: Result<(), sqlite::Error>)
    ensures
        r is Ok ==> can_run(statement_text(*old(statement)), statement_bindings(*old(statement))),
{
    match statement.next() {
        Ok(_) => Ok(()),
        Err(error) => Err(error),
    }
}

/// Calls `Statement::into_iter` and collects the rows of its cursor, up to
/// the first error. Which rows come back depends on the database. Trusted:
/// they are rows that the query made from the statement's text, with its
/// bindings, hands out (`can_answer`).
#[verifier::external_body]
fn fetch_rows(statement: sqlite::Statement) -> (r: Result<Vec<sqlite::Row>, sqlite::Error>)
    ensures
        match r {
            Ok(rows) => can_answer(
                statement_text(statement),
                statement_bindings(statement),
                rows@.map_values(|row: sqlite::Row| row_cells(row)),
            ),
            Err(_) => true,
        },
{
    statement.into_iter().collect()
}

/// Formats an `sqlite::Error` with its `Display` impl. The text is made of
/// the error's code and message, which are not visible here: nothing is
/// stated.
#[verifier::external_body]
pub(crate) fn describe_error(error: &sqlite::Error) -> (r: String) {
    format!("{}", error)
}

/// Calls `Row::try_read::<i64, &str>(column)`. Trusted: it succeeds exactly
/// when the row has the column and the column holds an integer, and gives
/// that integer back.
#[verifier::external_body]
fn read_integer(row: &sqlite::Row, column: &str) -> (r: Result<i64, sqlite::Error>)
    ensures
        match r {
            Ok(n) => row_cells(*row).dom().contains(column@) && row_cells(*row)[column@]
                == Cell::Integer(n),
            Err(_) => !(row_cells(*row).dom().contains(column@) && row_cells(
                *row,
            )[column@] is Integer),
        },
{
    row.try_read::<i64, &str>(column)
}

/// Calls `Row::try_read::<&str, &str>(column)` and copies the text. Trusted:
/// it succeeds exactly when the row has the column and the column holds a
/// text, and gives that text back.
#[verifier::external_body]
fn read_text(row: &sqlite::Row, column: &str) -> (r: Result<String, sqlite::Error>)
    ensures
        match r {
            Ok(text) => row_cells(*row).dom().contains(column@) && row_cells(*row)[column@]
                == Cell::Text(text@),
            Err(_) => !(row_cells(*row).dom().contains(column@) && row_cells(
                *row,
            )[column@] is Text),
        },
{
    match row.try_read::<&str, &str>(column) {
        Ok(text) => Ok(text.to_string()),
        Err(error) => Err(error),
    }
}

} // verus!

verus! {

/// The secret that a row of the `passwords` table stands for: its `id`
/// column must hold an integer (taken modulo the width of `usize`, as a cast
/// does) and its `username`, `password` and `description` columns texts;
/// otherwise the row stands for none.
pub open spec fn secret_of_row(cells: Map<Seq<char>, Cell>) -> Option<SecretView> {
    if cells.dom().contains("id"@) && cells["id"@] is Integer && cells.dom().contains(
        "username"@,
    ) && cells["username"@] is Text && cells.dom().contains("password"@)
        && cells["password"@] is Text && cells.dom().contains("description"@)
        && cells["description"@] is Text {
        Some(
            SecretView {
                id: cells["id"@]->Integer_0 as usize,
                username: cells["username"@]->Text_0,
                password: cells["password"@]->Text_0,
                description: cells["description"@]->Text_0,
            },
        )
    } else {
        None
    }
}

/// The secrets stand for rows that the store's query (`SELECT_ALL_SQL`,
/// nothing bound) can hand out.
pub open spec fn fetched_from(rows: Seq<sqlite::Row>, secrets: Seq<Secret>) -> bool {
    &&& can_answer(
        SELECT_ALL_SQL@,
        Map::<int, Cell>::empty(),
        rows.map_values(|row: sqlite::Row| row_cells(row)),
    )
    &&& rows_stand_for(rows, secrets)
}

/// A row whose `id` holds an integer and whose three other columns hold
/// texts, whatever the texts (the empty one included), stands for a secret
/// made of exactly those values; a row missing one of them, or holding
/// another kind of value there, stands for none.
pub proof fn well_formed_rows_are_secrets(cells: Map<Seq<char>, Cell>, id: i64, username: Seq<char>, password: Seq<char>, description: Seq<char>)
    ensures
        cells.dom().contains("id"@) && cells["id"@] == Cell::Integer(id)
            && cells.dom().contains("username"@) && cells["username"@] == Cell::Text(username)
            && cells.dom().contains("password"@) && cells["password"@] == Cell::Text(password)
            && cells.dom().contains("description"@) && cells["description"@] == Cell::Text(
            description,
        ) ==> secret_of_row(cells) == Some(
            SecretView { id: id as usize, username, password, description },
        ),
        !(cells.dom().contains("id"@) && cells["id"@] is Integer) ==> secret_of_row(cells) is None,
        !(cells.dom().contains("description"@) && cells["description"@] is Text) ==> secret_of_row(
            cells,
        ) is None,
{
}

/// Each secret is the one that the row at its position stands for.
pub open spec fn rows_stand_for(rows: Seq<sqlite::Row>, secrets: Seq<Secret>) -> bool {
    &&& rows.len() == secrets.len()
    &&& forall|i: int|
        0 <= i < rows.len() ==> secret_of_row(row_cells(#[trigger] rows[i])) == Some(secrets[i]@)
}

/// Reads the secret that a row of the `passwords` table stands for; an
/// error when a column is missing or holds another kind of value.
pub fn secret_from_row(row: &sqlite::Row) -> (r: Result<Secret, sqlite::Error>)
    ensures
        r is Ok <==> secret_of_row(row_cells(*row)) is Some,
        r matches Ok(secret) ==> secret_of_row(row_cells(*row)) == Some(secret@),
{
    let id = match read_integer(row, "id") {
        Ok(id) => id,
        Err(error) => return Err(error),
    };
    let username = match read_text(row, "username") {
        Ok(text) => text,
        Err(error) => return Err(error),
    };
    let password = match read_text(row, "password") {
        Ok(text) => text,
        Err(error) => return Err(error),
    };
    let description = match read_text(row, "description") {
        Ok(text) => text,
        Err(error) => return Err(error),
    };
    Ok(Secret::new(id as usize, username, password, description))
}

/// The secrets that the rows stand for, in the order of the rows; an error
/// when one of the rows stands for none.
pub fn secrets_from_rows(rows: &Vec<sqlite::Row>) -> (r: Result<Vec<Secret>, sqlite::Error>)
    ensures
        r is Ok <==> forall|i: int|
            0 <= i < rows@.len() ==> (#[trigger] secret_of_row(row_cells(rows@[i]))) is Some,
        r matches Ok(secrets) ==> rows_stand_for(rows@, secrets@),
{
    let mut secrets: Vec<Secret> = Vec::new();
    let mut i: usize = 0;
    while i < rows.len()
        invariant
            i <= rows@.len(),
            secrets@.len() == i,
            forall|j: int|
                0 <= j < i ==> secret_of_row(row_cells(rows@[j])) == Some(#[trigger] secrets@[j]@),
        decreases rows@.len() - i,
    {
        match secret_from_row(&rows[i]) {
            Ok(secret) => secrets.push(secret),
            Err(error) => {
                assert(secret_of_row(row_cells(rows@[i as int])) is None);
                return Err(error);
            },
        }
        i = i + 1;
    }
    assert forall|j: int| 0 <= j < rows@.len() implies (#[trigger] secret_of_row(
        row_cells(rows@[j]),
    )) is Some by {
        assert(secret_of_row(row_cells(rows@[j])) == Some(secrets@[j]@));
    }
    Ok(secrets)
}

} // verus!

verus! {

/// The statement that creates the table of secrets unless it exists.
pub const CREATE_TABLE_SQL: &'static str =
    "CREATE TABLE IF NOT EXISTS passwords(
            id INTEGER PRIMARY KEY AUTOINCREMENT,
            username    TEXT NOT NULL,
            password    TEXT NOT NULL,
            description TEXT NOT NULL
        )";

/// The query that reads every row of the table of secrets.
pub const SELECT_ALL_SQL: &'static str =
    "SELECT id, username, password, description FROM passwords";

/// The statement that adds a row; its parameters are the username, the
/// password and the description.
pub const INSERT_SQL: &'static str = "INSERT INTO passwords (username, password, description) VALUES(?,?,?)";

/// The statement that rewrites a row; its parameters are the username, the
/// password, the description and the identifier of the row.
pub const UPDATE_SQL: &'static str =
    "UPDATE passwords
        SET 
            username = ?,
            password = ?,
            description = ?
        WHERE
            id =?
        ";

/// The statement that removes a row; its parameter is the identifier.
pub const DELETE_SQL: &'static str = "DELETE FROM passwords WHERE id=?";

/// Whether `sql` is one of the statements that the store runs.
pub open spec fn is_store_statement(sql: Seq<char>) -> bool {
    ||| sql == CREATE_TABLE_SQL@
    ||| sql == SELECT_ALL_SQL@
    ||| sql == INSERT_SQL@
    ||| sql == UPDATE_SQL@
    ||| sql == DELETE_SQL@
}

/// A value to bind to a parameter of a statement.
pub enum Parameter {
    Text(String),
    Integer(i64),
}

impl Parameter {
    /// The value that binding the parameter puts in the statement.
    pub open spec fn cell(&self) -> Cell {
        match self {
            Parameter::Text(text) => Cell::Text(text@),
            Parameter::Integer(n) => Cell::Integer(*n),
        }
    }
}

/// The values of a list of parameters, in order.
pub open spec fn cells(parameters: Seq<Parameter>) -> Seq<Cell> {
    parameters.map_values(|p: Parameter| p.cell())
}

/// The bindings of a statement whose parameters 1, 2, ... hold `values`
/// in order.
pub open spec fn bindings_of(values: Seq<Cell>) -> Map<int, Cell> {
    Map::new(|i: int| 1 <= i <= values.len(), |i: int| values[i - 1])
}

/// The values bound when a secret is added: its username, its password and
/// its description (its identifier is left to the database).
pub open spec fn insert_arguments(secret: SecretView) -> Seq<Cell> {
    seq![Cell::Text(secret.username), Cell::Text(secret.password), Cell::Text(secret.description)]
}

/// The values bound when the row `id` is rewritten: the username, the
/// password, the description, then the identifier as a 64-bit integer.
pub open spec fn update_arguments(
    id: usize,
    username: Seq<char>,
    password: Seq<char>,
    description: Seq<char>,
) -> Seq<Cell> {
    seq![
        Cell::Text(username),
        Cell::Text(password),
        Cell::Text(description),
        Cell::Integer(id as i64),
    ]
}

/// The value bound when the row `id` is removed: the identifier as a
/// 64-bit integer.
pub open spec fn delete_arguments(id: usize) -> Seq<Cell> {
    seq![Cell::Integer(id as i64)]
}

/// The parameters of the statement that adds `secret`.
pub fn insert_parameters(secret: &Secret) -> (r: Vec<Parameter>)
    ensures
        r@.len() == 3,
        cells(r@) == insert_arguments(secret@),
{
    let mut parameters: Vec<Parameter> = Vec::new();
    parameters.push(Parameter::Text(secret.get_username()));
    parameters.push(Parameter::Text(secret.get_password()));
    parameters.push(Parameter::Text(secret.get_description()));
    assert(cells(parameters@) =~= insert_arguments(secret@));
    parameters
}

/// The parameters of the statement that rewrites the row `id`.
pub fn update_parameters(id: usize, username: &String, password: &String, description: &String) -> (r:
    Vec<Parameter>)
    ensures
        r@.len() == 4,
        cells(r@) == update_arguments(id, username@, password@, description@),
{
    let mut parameters: Vec<Parameter> = Vec::new();
    parameters.push(Parameter::Text(username.clone()));
    parameters.push(Parameter::Text(password.clone()));
    parameters.push(Parameter::Text(description.clone()));
    parameters.push(Parameter::Integer(id as i64));
    assert(cells(parameters@) =~= update_arguments(id, username@, password@, description@));
    parameters
}

/// The parameters of the statement that removes the row `id`.
pub fn delete_parameters(id: usize) -> (r: Vec<Parameter>)
    ensures
        r@.len() == 1,
        cells(r@) == delete_arguments(id),
{
    let mut parameters: Vec<Parameter> = Vec::new();
    parameters.push(Parameter::Integer(id as i64));
    assert(cells(parameters@) =~= delete_arguments(id));
    parameters
}

/// Prepares `sql` and binds `parameters` to its parameters 1, 2, ... in
/// order; the first error of SQLite is handed back.
fn prepare_with<'a>(
    connection: &'a sqlite::Connection,
    sql: &str,
    parameters: &Vec<Parameter>,
) -> (r: Result<sqlite::Statement<'a>, sqlite::Error>)
    requires
        is_store_statement(sql@),
        parameters@.len() < 0x7fff_ffff,
    ensures
        r matches Ok(statement) ==> statement_text(statement) == sql@ && statement_bindings(
            statement,
        ) == bindings_of(cells(parameters@)),
{
    let mut statement = match prepare(connection, sql) {
        Ok(statement) => statement,
        Err(error) => return Err(error),
    };
    let mut i: usize = 0;
    assert(bindings_of(cells(parameters@.take(0))) =~= Map::<int, Cell>::empty());
    while i < parameters.len()
        invariant
            i <= parameters@.len(),
            parameters@.len() < 0x7fff_ffff,
            statement_text(statement) == sql@,
            statement_bindings(statement) == bindings_of(cells(parameters@.take(i as int))),
        decreases parameters@.len() - i,
    {
        let bound = match &parameters[i] {
            Parameter::Text(text) => bind_text(&mut statement, i + 1, text.as_str()),
            Parameter::Integer(n) => bind_integer(&mut statement, i + 1, *n),
        };
        if let Err(error) = bound {
            return Err(error);
        }
        assert(bindings_of(cells(parameters@.take(i + 1))) =~= bindings_of(
            cells(parameters@.take(i as int)),
        ).insert(i + 1, parameters@[i as int].cell()));
        i = i + 1;
    }
    assert(parameters@.take(parameters@.len() as int) =~= parameters@);
    Ok(statement)
}

/// The store of secrets: a connection to an SQLite database that holds
/// them in the table `passwords`.
pub struct Store {
    database_connection: sqlite::Connection,
}

impl Store {
    /// The path of the database file that the store works on.
    pub closed spec fn file(&self) -> Seq<char> {
        database_file(self.database_connection)
    }

    /// Opens (or creates) the database file at `connection_path`.
    pub fn connect(connection_path: String) -> (r: Result<Store, sqlite::Error>)
        ensures
            connection_path@.contains('\0') ==> r is Err,
            r matches Ok(store) ==> store.file() == connection_path@,
    {
        match open_database(connection_path.as_str()) {
            Ok(connection) => Ok(Store { database_connection: connection }),
            Err(error) => Err(error),
        }
    }

    /// The statement that `create_secrets_table` runs: `CREATE_TABLE_SQL`,
    /// with nothing bound.
    pub fn prepare_create(&self) -> (r: Result<sqlite::Statement<'_>, sqlite::Error>)
        ensures
            r matches Ok(statement) ==> statement_text(statement) == CREATE_TABLE_SQL@
                && statement_bindings(statement) == Map::<int, Cell>::empty(),
    {
        prepare(&self.database_connection, CREATE_TABLE_SQL)
    }

    /// Creates the table `passwords` unless it exists, by running the
    /// statement of `prepare_create`: an identifier that the database
    /// assigns, and three texts.
    pub fn create_secrets_table(&self) -> (r: Result<(), sqlite::Error>)
        ensures
            r is Ok ==> can_run(CREATE_TABLE_SQL@, Map::<int, Cell>::empty()),
    {
        let mut create_statement = match self.prepare_create() {
            Ok(statement) => statement,
            Err(error) => return Err(error),
        };
        step(&mut create_statement)
    }

    /// The query that `fetch_secrets` runs: `SELECT_ALL_SQL`, with nothing
    /// bound.
    pub fn prepare_fetch(&self) -> (r: Result<sqlite::Statement<'_>, sqlite::Error>)
        ensures
            r matches Ok(statement) ==> statement_text(statement) == SELECT_ALL_SQL@
                && statement_bindings(statement) == Map::<int, Cell>::empty(),
    {
        prepare(&self.database_connection, SELECT_ALL_SQL)
    }

    /// All the secrets in the table, one for each row that the query of
    /// `prepare_fetch` hands out, in that order; an error when the query
    /// fails or a row does not hold an integer identifier and three texts.
    pub fn fetch_secrets(&self) -> (r: Result<Vec<Secret>, sqlite::Error>)
        ensures
            r matches Ok(secrets) ==> exists|rows: Seq<sqlite::Row>|
                #[trigger] fetched_from(rows, secrets@),
    {
        let prepared_statement = match self.prepare_fetch() {
            Ok(statement) => statement,
            Err(error) => return Err(error),
        };
        let rows = match fetch_rows(prepared_statement) {
            Ok(rows) => rows,
            Err(error) => return Err(error),
        };
        let secrets = secrets_from_rows(&rows);
        proof {
            if secrets is Ok {
                assert(fetched_from(rows@, secrets->Ok_0@));
            }
        }
        secrets
    }

    /// The statement that `insert_secret` runs: `INSERT_SQL`, with the
    /// username, the password and the description of `secret` bound.
    pub fn prepare_insert(&self, secret: &Secret) -> (r: Result<
        sqlite::Statement<'_>,
        sqlite::Error,
    >)
        ensures
            r matches Ok(statement) ==> statement_text(statement) == INSERT_SQL@
                && statement_bindings(statement) == bindings_of(insert_arguments(secret@)),
    {
        prepare_with(&self.database_connection, INSERT_SQL, &insert_parameters(secret))
    }

    /// Adds a row holding the username, the password and the description
    /// of `secret`, by running the statement of `prepare_insert`; the
    /// database assigns its identifier (the one in `secret` is not written).
    pub fn insert_secret(&self, secret: &Secret) -> (r: Result<(), sqlite::Error>)
        ensures
            r is Ok ==> can_run(INSERT_SQL@, bindings_of(insert_arguments(secret@))),
    {
        let mut insert_statement = match self.prepare_insert(secret) {
            Ok(statement) => statement,
            Err(error) => return Err(error),
        };
        step(&mut insert_statement)
    }

    /// The statement that `update_secret` runs: `UPDATE_SQL`, with the
    /// username, the password, the description and the identifier bound.
    pub fn prepare_update(
        &self,
        id: usize,
        username: &String,
        password: &String,
        description: &String,
    ) -> (r: Result<sqlite::Statement<'_>, sqlite::Error>)
        ensures
            r matches Ok(statement) ==> statement_text(statement) == UPDATE_SQL@
                && statement_bindings(statement) == bindings_of(
                update_arguments(id, username@, password@, description@),
            ),
    {
        prepare_with(
            &self.database_connection,
            UPDATE_SQL,
            &update_parameters(id, username, password, description),
        )
    }

    /// Sets the username, the password and the description of the row
    /// whose identifier is `id`, by running the statement of
    /// `prepare_update`.
    pub fn update_secret(
        &self,
        id: usize,
        username: String,
        password: String,
        description: String,
    ) -> (r: Result<(), sqlite::Error>)
        ensures
            r is Ok ==> can_run(
                UPDATE_SQL@,
                bindings_of(update_arguments(id, username@, password@, description@)),
            ),
    {
        let mut update_statement = match self.prepare_update(
            id,
            &username,
            &password,
            &description,
        ) {
            Ok(statement) => statement,
            Err(error) => return Err(error),
        };
        step(&mut update_statement)
    }

    /// The statement that `delete_secret` runs: `DELETE_SQL`, with the
    /// identifier bound.
    pub fn prepare_delete(&self, id: usize) -> (r: Result<sqlite::Statement<'_>, sqlite::Error>)
        ensures
            r matches Ok(statement) ==> statement_text(statement) == DELETE_SQL@
                && statement_bindings(statement) == bindings_of(delete_arguments(id)),
    {
        prepare_with(&self.database_connection, DELETE_SQL, &delete_parameters(id))
    }

    /// Removes the row whose identifier is `id`, by running the statement
    /// of `prepare_delete`.
    pub fn delete_secret(&self, id: usize) -> (r: Result<(), sqlite::Error>)
        ensures
            r is Ok ==> can_run(DELETE_SQL@, bindings_of(delete_arguments(id))),
    {
        let mut delete_statement = match self.prepare_delete(id) {
            Ok(statement) => statement,
            Err(error) => return Err(error),
        };
        step(&mut delete_statement)
    }
}

} // verus!
