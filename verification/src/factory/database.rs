//! Access to three databases: a factory makes the connection, the command
//! and the reader that belong together.
use crate::text::{one_line, texts};
use vstd::prelude::*;
use vstd::string::StringExecFns;

verus! {

/// A connection to a database.
pub trait DBConnection {
    /// The line that connecting gives.
    spec fn connecting_line(&self) -> Seq<char>;

    /// Connects and returns the line that says so.
    fn connect(&self) -> (line: String)
        ensures
            line@ == self.connecting_line(),
    ;
}

/// A command that a database runs.
pub trait DBCommand {
    /// The line that running `query` gives.
    spec fn executing_line(&self, query: Seq<char>) -> Seq<char>;

    /// Runs `query` and returns the line that says so.
    fn execute(&self, query: &str) -> (line: String)
        ensures
            line@ == self.executing_line(query@),
    ;
}

/// Reads the rows of a result.
pub trait DBReader {
    /// The rows that reading gives.
    spec fn rows(&self) -> Seq<Seq<char>>;

    /// Reads the rows.
    fn read(&self) -> (rows: Vec<String>)
        ensures
            texts(rows@) == self.rows(),
    ;
}

/// A connection to SQL Server.
#[derive(Debug)]
pub struct SQLServerConnection;

impl DBConnection for SQLServerConnection {
    open spec fn connecting_line(&self) -> Seq<char> {
        "Connecting to SQL Server"@
    }

    fn connect(&self) -> (line: String) {
        "Connecting to SQL Server".to_string()
    }
}

/// A command for SQL Server.
#[derive(Debug)]
pub struct SQLServerCommand;

impl DBCommand for SQLServerCommand {
    open spec fn executing_line(&self, query: Seq<char>) -> Seq<char> {
        "Executing SQL Server query: "@ + query
    }

    fn execute(&self, query: &str) -> (line: String) {
        let mut line = String::from_str("Executing SQL Server query: ");
        line.append(query);
        line
    }
}

/// Reads the results of SQL Server.
#[derive(Debug)]
pub struct SQLServerReader;

impl DBReader for SQLServerReader {
    open spec fn rows(&self) -> Seq<Seq<char>> {
        seq!["SQL Server data"@]
    }

    fn read(&self) -> (rows: Vec<String>) {
        one_line("SQL Server data".to_string())
    }
}

/// A connection to MySQL.
#[derive(Debug)]
pub struct MySQLConnection;

impl DBConnection for MySQLConnection {
    open spec fn connecting_line(&self) -> Seq<char> {
        "Connecting to MySQL"@
    }

    fn connect(&self) -> (line: String) {
        "Connecting to MySQL".to_string()
    }
}

/// A command for MySQL.
#[derive(Debug)]
pub struct MySQLCommand;

impl DBCommand for MySQLCommand {
    open spec fn executing_line(&self, query: Seq<char>) -> Seq<char> {
        "Executing MySQL query: "@ + query
    }

    fn execute(&self, query: &str) -> (line: String) {
        let mut line = String::from_str("Executing MySQL query: ");
        line.append(query);
        line
    }
}

/// Reads the results of MySQL.
#[derive(Debug)]
pub struct MySQLReader;

impl DBReader for MySQLReader {
    open spec fn rows(&self) -> Seq<Seq<char>> {
        seq!["MySQL data"@]
    }

    fn read(&self) -> (rows: Vec<String>) {
        one_line("MySQL data".to_string())
    }
}

/// A connection to PostgreSQL.
#[derive(Debug)]
pub struct PostgreSQLConnection;

impl DBConnection for PostgreSQLConnection {
    open spec fn connecting_line(&self) -> Seq<char> {
        "Connecting to PostgreSQL"@
    }

    fn connect(&self) -> (line: String) {
        "Connecting to PostgreSQL".to_string()
    }
}

/// A command for PostgreSQL.
#[derive(Debug)]
pub struct PostgreSQLCommand;

impl DBCommand for PostgreSQLCommand {
    open spec fn executing_line(&self, query: Seq<char>) -> Seq<char> {
        "Executing PostgreSQL query: "@ + query
    }

    fn execute(&self, query: &str) -> (line: String) {
        let mut line = String::from_str("Executing PostgreSQL query: ");
        line.append(query);
        line
    }
}

/// Reads the results of PostgreSQL.
#[derive(Debug)]
pub struct PostgreSQLReader;

impl DBReader for PostgreSQLReader {
    open spec fn rows(&self) -> Seq<Seq<char>> {
        seq!["PostgreSQL data"@]
    }

    fn read(&self) -> (rows: Vec<String>) {
        one_line("PostgreSQL data".to_string())
    }
}

/// Makes the parts for one database.
pub trait DBFactory {
    /// The connection this factory makes.
    type Connection: DBConnection;

    /// The command this factory makes.
    type Command: DBCommand;

    /// The reader this factory makes.
    type Reader: DBReader;

    /// Makes a connection.
    fn create_connection(&self) -> (connection: Self::Connection);

    /// Makes a command.
    fn create_command(&self) -> (command: Self::Command);

    /// Makes a reader.
    fn create_reader(&self) -> (reader: Self::Reader);
}

/// Makes the parts for SQL Server.
#[derive(Debug)]
pub struct SQLServerFactory;

impl DBFactory for SQLServerFactory {
    type Connection = SQLServerConnection;

    type Command = SQLServerCommand;

    type Reader = SQLServerReader;

    fn create_connection(&self) -> (connection: SQLServerConnection)
        ensures
            connection == SQLServerConnection,
    {
        SQLServerConnection
    }

    fn create_command(&self) -> (command: SQLServerCommand)
        ensures
            command == SQLServerCommand,
    {
        SQLServerCommand
    }

    fn create_reader(&self) -> (reader: SQLServerReader)
        ensures
            reader == SQLServerReader,
    {
        SQLServerReader
    }
}

/// Makes the parts for MySQL.
#[derive(Debug)]
pub struct MySQLFactory;

impl DBFactory for MySQLFactory {
    type Connection = MySQLConnection;

    type Command = MySQLCommand;

    type Reader = MySQLReader;

    fn create_connection(&self) -> (connection: MySQLConnection)
        ensures
            connection == MySQLConnection,
    {
        MySQLConnection
    }

    fn create_command(&self) -> (command: MySQLCommand)
        ensures
            command == MySQLCommand,
    {
        MySQLCommand
    }

    fn create_reader(&self) -> (reader: MySQLReader)
        ensures
            reader == MySQLReader,
    {
        MySQLReader
    }
}

/// Makes the parts for PostgreSQL.
#[derive(Debug)]
pub struct PostgreSQLFactory;

impl DBFactory for PostgreSQLFactory {
    type Connection = PostgreSQLConnection;

    type Command = PostgreSQLCommand;

    type Reader = PostgreSQLReader;

    fn create_connection(&self) -> (connection: PostgreSQLConnection)
        ensures
            connection == PostgreSQLConnection,
    {
        PostgreSQLConnection
    }

    fn create_command(&self) -> (command: PostgreSQLCommand)
        ensures
            command == PostgreSQLCommand,
    {
        PostgreSQLCommand
    }

    fn create_reader(&self) -> (reader: PostgreSQLReader)
        ensures
            reader == PostgreSQLReader,
    {
        PostgreSQLReader
    }
}

} // verus!
