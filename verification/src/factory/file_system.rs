//! File systems of three platforms: a factory makes the reader, the writer
//! and the directory handler that belong together.
use crate::text::{one_line, push_line, texts};
use vstd::prelude::*;
use vstd::string::StringExecFns;

verus! {

/// Reads a file.
pub trait FileReader {
    /// The content of the file at `path`.
    spec fn content(&self, path: Seq<char>) -> Seq<char>;

    /// The line that reading the file at `path` gives.
    spec fn reading_line(&self, path: Seq<char>) -> Seq<char>;

    /// Reads the file at `path`: its content, and the line that says so.
    fn read(&self, path: &str) -> (read: (String, String))
        ensures
            read.0@ == self.content(path@),
            read.1@ == self.reading_line(path@),
    ;
}

/// Writes a file.
pub trait FileWriter {
    /// The lines that writing `content` to the file at `path` gives.
    spec fn writing_lines(&self, path: Seq<char>, content: Seq<char>) -> Seq<Seq<char>>;

    /// Writes `content` to the file at `path` and returns the two lines that
    /// say so.
    fn write(&self, path: &str, content: &str) -> (lines: Vec<String>)
        ensures
            texts(lines@) == self.writing_lines(path@, content@),
    ;
}

/// Creates directories.
pub trait DirectoryHandler {
    /// The line that creating the directory at `path` gives.
    spec fn creating_line(&self, path: Seq<char>) -> Seq<char>;

    /// Creates the directory at `path` and returns the line that says so.
    fn create_directory(&self, path: &str) -> (line: String)
        ensures
            line@ == self.creating_line(path@),
    ;
}

/// Reads files on Windows.
#[derive(Debug)]
pub struct WindowsFileReader;

impl FileReader for WindowsFileReader {
    open spec fn content(&self, path: Seq<char>) -> Seq<char> {
        "Windows file content"@
    }

    open spec fn reading_line(&self, path: Seq<char>) -> Seq<char> {
        "Reading file from windows file system at "@ + path
    }

    fn read(&self, path: &str) -> (read: (String, String)) {
        let mut line = String::from_str("Reading file from windows file system at ");
        line.append(path);
        ("Windows file content".to_string(), line)
    }
}

/// Writes files on Windows.
#[derive(Debug)]
pub struct WindowsFileWriter;

impl FileWriter for WindowsFileWriter {
    open spec fn writing_lines(&self, path: Seq<char>, content: Seq<char>) -> Seq<Seq<char>> {
        seq!["Writing to file in Windows file system at "@ + path, "Content: "@ + content]
    }

    fn write(&self, path: &str, content: &str) -> (lines: Vec<String>) {
        let mut first = String::from_str("Writing to file in Windows file system at ");
        first.append(path);
        let mut second = String::from_str("Content: ");
        second.append(content);
        let mut lines = one_line(first);
        push_line(&mut lines, second);
        lines
    }
}

/// Creates directories on Windows.
#[derive(Debug)]
pub struct WindowsDirectoryHandler;

impl DirectoryHandler for WindowsDirectoryHandler {
    open spec fn creating_line(&self, path: Seq<char>) -> Seq<char> {
        "Creating directory in Window file system at "@ + path
    }

    fn create_directory(&self, path: &str) -> (line: String) {
        let mut line = String::from_str("Creating directory in Window file system at ");
        line.append(path);
        line
    }
}

/// Reads files on Linux.
#[derive(Debug)]
pub struct LinuxFileReader;

impl FileReader for LinuxFileReader {
    open spec fn content(&self, path: Seq<char>) -> Seq<char> {
        "Linux file content"@
    }

    open spec fn reading_line(&self, path: Seq<char>) -> Seq<char> {
        "Reading file from Linux file system at "@ + path
    }

    fn read(&self, path: &str) -> (read: (String, String)) {
        let mut line = String::from_str("Reading file from Linux file system at ");
        line.append(path);
        ("Linux file content".to_string(), line)
    }
}

/// Writes files on Linux.
#[derive(Debug)]
pub struct LinuxFileWriter;

impl FileWriter for LinuxFileWriter {
    open spec fn writing_lines(&self, path: Seq<char>, content: Seq<char>) -> Seq<Seq<char>> {
        seq!["Writing to file in Linux file system at "@ + path, "Content: "@ + content]
    }

    fn write(&self, path: &str, content: &str) -> (lines: Vec<String>) {
        let mut first = String::from_str("Writing to file in Linux file system at ");
        first.append(path);
        let mut second = String::from_str("Content: ");
        second.append(content);
        let mut lines = one_line(first);
        push_line(&mut lines, second);
        lines
    }
}

/// Creates directories on Linux.
#[derive(Debug)]
pub struct LinuxDirectoryHandler;

impl DirectoryHandler for LinuxDirectoryHandler {
    open spec fn creating_line(&self, path: Seq<char>) -> Seq<char> {
        "Creating directory in Linux file system at "@ + path
    }

    fn create_directory(&self, path: &str) -> (line: String) {
        let mut line = String::from_str("Creating directory in Linux file system at ");
        line.append(path);
        line
    }
}

/// Reads files on macOS.
#[derive(Debug)]
pub struct MacOSFileReader;

impl FileReader for MacOSFileReader {
    open spec fn content(&self, path: Seq<char>) -> Seq<char> {
        "macOS file content"@
    }

    open spec fn reading_line(&self, path: Seq<char>) -> Seq<char> {
        "Reading file from macOS file system at "@ + path
    }

    fn read(&self, path: &str) -> (read: (String, String)) {
        let mut line = String::from_str("Reading file from macOS file system at ");
        line.append(path);
        ("macOS file content".to_string(), line)
    }
}

/// Writes files on macOS.
#[derive(Debug)]
pub struct MacOSFileWriter;

impl FileWriter for MacOSFileWriter {
    open spec fn writing_lines(&self, path: Seq<char>, content: Seq<char>) -> Seq<Seq<char>> {
        seq!["Writing to file in macOS file system at "@ + path, "Content: "@ + content]
    }

    fn write(&self, path: &str, content: &str) -> (lines: Vec<String>) {
        let mut first = String::from_str("Writing to file in macOS file system at ");
        first.append(path);
        let mut second = String::from_str("Content: ");
        second.append(content);
        let mut lines = one_line(first);
        push_line(&mut lines, second);
        lines
    }
}

/// Creates directories on macOS.
#[derive(Debug)]
pub struct MacOSDirectoryHandler;

impl DirectoryHandler for MacOSDirectoryHandler {
    open spec fn creating_line(&self, path: Seq<char>) -> Seq<char> {
        "Creating directory in macOS file system at "@ + path
    }

    fn create_directory(&self, path: &str) -> (line: String) {
        let mut line = String::from_str("Creating directory in macOS file system at ");
        line.append(path);
        line
    }
}

/// Makes the parts for one platform.
pub trait FileSystemFactory {
    /// The reader this factory makes.
    type Reader: FileReader;

    /// The writer this factory makes.
    type Writer: FileWriter;

    /// The directory handler this factory makes.
    type Handler: DirectoryHandler;

    /// Makes a file reader.
    fn create_file_reader(&self) -> (reader: Self::Reader);

    /// Makes a file writer.
    fn create_file_writer(&self) -> (writer: Self::Writer);

    /// Makes a directory handler.
    fn create_directory_handler(&self) -> (handler: Self::Handler);
}

/// Makes the parts for Windows.
#[derive(Debug)]
pub struct WindowsFactory;

impl FileSystemFactory for WindowsFactory {
    type Reader = WindowsFileReader;

    type Writer = WindowsFileWriter;

    type Handler = WindowsDirectoryHandler;

    fn create_file_reader(&self) -> (reader: WindowsFileReader)
        ensures
            reader == WindowsFileReader,
    {
        WindowsFileReader
    }

    fn create_file_writer(&self) -> (writer: WindowsFileWriter)
        ensures
            writer == WindowsFileWriter,
    {
        WindowsFileWriter
    }

    fn create_directory_handler(&self) -> (handler: WindowsDirectoryHandler)
        ensures
            handler == WindowsDirectoryHandler,
    {
        WindowsDirectoryHandler
    }
}

/// Makes the parts for Linux.
#[derive(Debug)]
pub struct LinuxFactory;

impl FileSystemFactory for LinuxFactory {
    type Reader = LinuxFileReader;

    type Writer = LinuxFileWriter;

    type Handler = LinuxDirectoryHandler;

    fn create_file_reader(&self) -> (reader: LinuxFileReader)
        ensures
            reader == LinuxFileReader,
    {
        LinuxFileReader
    }

    fn create_file_writer(&self) -> (writer: LinuxFileWriter)
        ensures
            writer == LinuxFileWriter,
    {
        LinuxFileWriter
    }

    fn create_directory_handler(&self) -> (handler: LinuxDirectoryHandler)
        ensures
            handler == LinuxDirectoryHandler,
    {
        LinuxDirectoryHandler
    }
}

/// Makes the parts for macOS.
#[derive(Debug)]
pub struct MacOSFactory;

impl FileSystemFactory for MacOSFactory {
    type Reader = MacOSFileReader;

    type Writer = MacOSFileWriter;

    type Handler = MacOSDirectoryHandler;

    fn create_file_reader(&self) -> (reader: MacOSFileReader)
        ensures
            reader == MacOSFileReader,
    {
        MacOSFileReader
    }

    fn create_file_writer(&self) -> (writer: MacOSFileWriter)
        ensures
            writer == MacOSFileWriter,
    {
        MacOSFileWriter
    }

    fn create_directory_handler(&self) -> (handler: MacOSDirectoryHandler)
        ensures
            handler == MacOSDirectoryHandler,
    {
        MacOSDirectoryHandler
    }
}

} // verus!
