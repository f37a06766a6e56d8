//! Connections to three databases: each factory makes one kind.
use vstd::prelude::*;
use vstd::string::StringExecFns;

verus! {

/// A connection to a database.
pub trait DatabaseConnection {
    /// The line that connecting gives.
    spec fn connecting_line(&self) -> Seq<char>;

    /// Connects and returns the line that says so.
    fn connect(&self) -> (line: String)
        ensures
            line@ == self.connecting_line(),
    ;

    /// The line that running `query` gives.
    spec fn executing_line(&self, query: Seq<char>) -> Seq<char>;

    /// Runs `query` and returns the line that says so.
    fn execute_query(&self, query: &str) -> (line: String)
        ensures
            line@ == self.executing_line(query@),
    ;
}

/// A connection to MySQL.
#[derive(Debug)]
pub struct MySqlConnection;

impl DatabaseConnection for MySqlConnection {
    open spec fn connecting_line(&self) -> Seq<char> {
        "Connecting to MySQL database..."@
    }

    fn connect(&self) -> (line: String) {
        "Connecting to MySQL database...".to_string()
    }

    open spec fn executing_line(&self, query: Seq<char>) -> Seq<char> {
        "Executing query: "@ + query
    }

    fn execute_query(&self, query: &str) -> (line: String) {
        let mut line = String::from_str("Executing query: ");
        line.append(query);
        line
    }
}

/// A connection to PostgreSQL.
#[derive(Debug)]
pub struct PostgreSQLConnection;

impl DatabaseConnection for PostgreSQLConnection {
    open spec fn connecting_line(&self) -> Seq<char> {
        "Connecting to PostgreSQL database..."@
    }

    fn connect(&self) -> (line: String) {
        "Connecting to PostgreSQL database...".to_string()
    }

    open spec fn executing_line(&self, query: Seq<char>) -> Seq<char> {
        "Executing query: "@ + query
    }

    fn execute_query(&self, query: &str) -> (line: String) {
        let mut line = String::from_str("Executing query: ");
        line.append(query);
        line
    }
}

/// A connection to SQLite.
#[derive(Debug)]
pub struct SQLiteConnection;

impl DatabaseConnection for SQLiteConnection {
    open spec fn connecting_line(&self) -> Seq<char> {
        "Connecting to SQLite database..."@
    }

    fn connect(&self) -> (line: String) {
        "Connecting to SQLite database...".to_string()
    }

    open spec fn executing_line(&self, query: Seq<char>) -> Seq<char> {
        "Executing query: "@ + query
    }

    fn execute_query(&self, query: &str) -> (line: String) {
        let mut line = String::from_str("Executing query: ");
        line.append(query);
        line
    }
}

/// Makes connections of one kind.
pub trait ConnectionFactory {
    /// The connection this factory makes.
    type Connection: DatabaseConnection;

    /// Makes a connection.
    fn create_connection(&self) -> (connection: Self::Connection);
}

/// Makes connections to MySQL.
#[derive(Debug)]
pub struct MySQLConnectionFactory;

impl ConnectionFactory for MySQLConnectionFactory {
    type Connection = MySqlConnection;

    fn create_connection(&self) -> (connection: MySqlConnection)
        ensures
            connection == MySqlConnection,
    {
        MySqlConnection
    }
}

/// Makes connections to PostgreSQL.
#[derive(Debug)]
pub struct PostgreSQLConnectionFactory;

impl ConnectionFactory for PostgreSQLConnectionFactory {
    type Connection = PostgreSQLConnection;

    fn create_connection(&self) -> (connection: PostgreSQLConnection)
        ensures
            connection == PostgreSQLConnection,
    {
        PostgreSQLConnection
    }
}

/// Makes connections to SQLite.
#[derive(Debug)]
pub struct SQLiteConnectionFactory;

impl ConnectionFactory for SQLiteConnectionFactory {
    type Connection = SQLiteConnection;

    fn create_connection(&self) -> (connection: SQLiteConnection)
        ensures
            connection == SQLiteConnection,
    {
        SQLiteConnection
    }
}

} // verus!
