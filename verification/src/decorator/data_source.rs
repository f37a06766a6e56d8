//! A data source wrapped in compression, encryption and logging.
//!
//! A source reports what it does as lines of text. Writing returns the lines
//! it gives rise to; reading returns the data and the lines. Neither changes
//! the source itself.
use crate::text::{line_before, one_line, push_line, replace_all, replaced, texts};
use vstd::prelude::*;
use vstd::string::StringExecFns;

verus! {

/// What can be written to and read from.
pub trait DataSource: Sized {
    /// The lines that writing `data` gives rise to.
    spec fn write_lines(&self, data: Seq<char>) -> Seq<Seq<char>>;

    /// The data that reading gives.
    spec fn content(&self) -> Seq<char>;

    /// The lines that reading gives rise to.
    spec fn read_lines(&self) -> Seq<Seq<char>>;

    /// Writes `data`.
    fn write_data(&mut self, data: &str) -> (lines: Vec<String>)
        ensures
            texts(lines@) == old(self).write_lines(data@),
            *final(self) == *old(self),
    ;

    /// Reads the data.
    fn read_data(&self) -> (read: (String, Vec<String>))
        ensures
            read.0@ == self.content(),
            texts(read.1@) == self.read_lines(),
    ;
}

/// A file that stands for a real one: it names the file it would touch and
/// always holds `"file data"`.
#[derive(Debug)]
pub struct FileDataSource {
    pub filename: String,
}

impl FileDataSource {
    /// The source on the file `filename`.
    pub fn new(filename: &str) -> (source: Self)
        ensures
            source.filename@ == filename@,
    {
        FileDataSource { filename: filename.to_string() }
    }
}

impl DataSource for FileDataSource {
    open spec fn write_lines(&self, data: Seq<char>) -> Seq<Seq<char>> {
        seq!["Writing to file: "@ + self.filename@]
    }

    open spec fn content(&self) -> Seq<char> {
        "file data"@
    }

    open spec fn read_lines(&self) -> Seq<Seq<char>> {
        seq!["Reading from  file: "@ + self.filename@]
    }

    fn write_data(&mut self, data: &str) -> (lines: Vec<String>) {
        let mut line = String::from_str("Writing to file: ");
        line.append(self.filename.as_str());
        one_line(line)
    }

    fn read_data(&self) -> (read: (String, Vec<String>)) {
        let mut line = String::from_str("Reading from  file: ");
        line.append(self.filename.as_str());
        ("file data".to_string(), one_line(line))
    }
}

/// The plain decorator: it hands everything on.
#[derive(Debug)]
pub struct DataSourceDecorator<S> {
    pub wrappee: S,
}

impl<S: DataSource> DataSourceDecorator<S> {
    /// `source`, wrapped.
    pub fn new(source: S) -> (decorator: Self)
        ensures
            decorator.wrappee == source,
    {
        DataSourceDecorator { wrappee: source }
    }
}

impl<S: DataSource> DataSource for DataSourceDecorator<S> {
    open spec fn write_lines(&self, data: Seq<char>) -> Seq<Seq<char>> {
        self.wrappee.write_lines(data)
    }

    open spec fn content(&self) -> Seq<char> {
        self.wrappee.content()
    }

    open spec fn read_lines(&self) -> Seq<Seq<char>> {
        self.wrappee.read_lines()
    }

    fn write_data(&mut self, data: &str) -> (lines: Vec<String>) {
        self.wrappee.write_data(data)
    }

    fn read_data(&self) -> (read: (String, Vec<String>)) {
        self.wrappee.read_data()
    }
}

/// `data` marked as compressed.
pub open spec fn compressed(data: Seq<char>) -> Seq<char> {
    "compressed("@ + data + ")"@
}

/// `data` without the marks of compression: every `compressed(` is taken
/// out, then every `)`.
pub open spec fn decompressed(data: Seq<char>) -> Seq<char> {
    replaced(replaced(data, "compressed("@, ""@), ")"@, ""@)
}

/// Compresses what is written and decompresses what is read.
#[derive(Debug)]
pub struct CompressionDecorator<S> {
    pub wrappee: S,
}

impl<S: DataSource> CompressionDecorator<S> {
    /// `source`, wrapped.
    pub fn new(source: S) -> (decorator: Self)
        ensures
            decorator.wrappee == source,
    {
        CompressionDecorator { wrappee: source }
    }

    /// Marks `data` as compressed.
    pub fn compress(&self, data: &str) -> (out: String)
        ensures
            out@ == compressed(data@),
    {
        let mut out = String::from_str("compressed(");
        out.append(data);
        out.append(")");
        out
    }

    /// Takes the marks of compression out of `data`.
    pub fn decompress(&self, data: &str) -> (out: String)
        ensures
            out@ == decompressed(data@),
    {
        let opened = replace_all(data, "compressed(", "");
        replace_all(opened.as_str(), ")", "")
    }
}

impl<S: DataSource> DataSource for CompressionDecorator<S> {
    open spec fn write_lines(&self, data: Seq<char>) -> Seq<Seq<char>> {
        self.wrappee.write_lines(compressed(data))
    }

    open spec fn content(&self) -> Seq<char> {
        decompressed(self.wrappee.content())
    }

    open spec fn read_lines(&self) -> Seq<Seq<char>> {
        self.wrappee.read_lines()
    }

    fn write_data(&mut self, data: &str) -> (lines: Vec<String>) {
        let compressed_data = self.compress(data);
        self.wrappee.write_data(compressed_data.as_str())
    }

    fn read_data(&self) -> (read: (String, Vec<String>)) {
        let (data, lines) = self.wrappee.read_data();
        (self.decompress(data.as_str()), lines)
    }
}

/// `data` marked as encrypted, with the mark `encryped(`.
pub open spec fn encrypted(data: Seq<char>) -> Seq<char> {
    "encryped("@ + data + ")"@
}

/// `data` without the marks `encrypted(` and `)`: every `encrypted(` is
/// taken out, then every `)`.
pub open spec fn decrypted(data: Seq<char>) -> Seq<char> {
    replaced(replaced(data, "encrypted("@, ""@), ")"@, ""@)
}

/// Encrypts what is written and decrypts what is read.
#[derive(Debug)]
pub struct EncryptionDecorator<S> {
    pub wrappee: S,
}

impl<S: DataSource> EncryptionDecorator<S> {
    /// `source`, wrapped.
    pub fn new(source: S) -> (decorator: Self)
        ensures
            decorator.wrappee == source,
    {
        EncryptionDecorator { wrappee: source }
    }

    /// Marks `data` as encrypted.
    pub fn encrypt(&self, data: &str) -> (out: String)
        ensures
            out@ == encrypted(data@),
    {
        let mut out = String::from_str("encryped(");
        out.append(data);
        out.append(")");
        out
    }

    /// Takes the marks `encrypted(` and `)` out of `data`.
    pub fn decrypt(&self, data: &str) -> (out: String)
        ensures
            out@ == decrypted(data@),
    {
        let opened = replace_all(data, "encrypted(", "");
        replace_all(opened.as_str(), ")", "")
    }
}

impl<S: DataSource> DataSource for EncryptionDecorator<S> {
    open spec fn write_lines(&self, data: Seq<char>) -> Seq<Seq<char>> {
        self.wrappee.write_lines(encrypted(data))
    }

    open spec fn content(&self) -> Seq<char> {
        decrypted(self.wrappee.content())
    }

    open spec fn read_lines(&self) -> Seq<Seq<char>> {
        self.wrappee.read_lines()
    }

    fn write_data(&mut self, data: &str) -> (lines: Vec<String>) {
        let encrypted_data = self.encrypt(data);
        self.wrappee.write_data(encrypted_data.as_str())
    }

    fn read_data(&self) -> (read: (String, Vec<String>)) {
        let (data, lines) = self.wrappee.read_data();
        (self.decrypt(data.as_str()), lines)
    }
}

/// Logs what is written, before it is written, and what was read, after it
/// was read.
#[derive(Debug)]
pub struct LoggingDecorator<S> {
    pub wrappee: S,
}

impl<S: DataSource> LoggingDecorator<S> {
    /// The line that logs `message`.
    pub open spec fn logged(message: Seq<char>) -> Seq<char> {
        "Log: "@ + message
    }

    /// `source`, wrapped.
    pub fn new(source: S) -> (decorator: Self)
        ensures
            decorator.wrappee == source,
    {
        LoggingDecorator { wrappee: source }
    }

    /// The line that logs `message`.
    pub fn log(&self, message: &str) -> (line: String)
        ensures
            line@ == Self::logged(message@),
    {
        let mut line = String::from_str("Log: ");
        line.append(message);
        line
    }
}

impl<S: DataSource> DataSource for LoggingDecorator<S> {
    open spec fn write_lines(&self, data: Seq<char>) -> Seq<Seq<char>> {
        seq![Self::logged("Writing data: "@ + data)] + self.wrappee.write_lines(data)
    }

    open spec fn content(&self) -> Seq<char> {
        self.wrappee.content()
    }

    open spec fn read_lines(&self) -> Seq<Seq<char>> {
        self.wrappee.read_lines().push(Self::logged("Reading data: "@ + self.wrappee.content()))
    }

    fn write_data(&mut self, data: &str) -> (lines: Vec<String>) {
        let mut message = String::from_str("Writing data: ");
        message.append(data);
        let line = self.log(message.as_str());
        let rest = self.wrappee.write_data(data);
        line_before(line, rest)
    }

    fn read_data(&self) -> (read: (String, Vec<String>)) {
        let (data, lines) = self.wrappee.read_data();
        let mut lines = lines;
        let mut message = String::from_str("Reading data: ");
        message.append(data.as_str());
        let line = self.log(message.as_str());
        push_line(&mut lines, line);
        (data, lines)
    }
}

} // verus!
