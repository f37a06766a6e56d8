//! File access wrapped in a buffer, encryption and compression.
//!
//! Every layer reports what it does as lines of text: reading returns the
//! data and the lines, writing returns the lines. What a layer remembers is
//! its state, a mathematical value; the contracts say how reading and writing
//! change it.
use crate::text::{line_before, one_line, push_line, replace_all, replaced, texts};
use vstd::prelude::*;
use vstd::string::StringExecFns;

verus! {

/// What can be read and written.
pub trait FileIO: Sized {
    /// What the layers remember, as a mathematical value.
    type State;

    /// The state of this value.
    spec fn state(&self) -> Self::State;

    /// The data that a read gives in the state `state`.
    spec fn read_content(state: Self::State) -> Seq<char>;

    /// The lines that a read gives rise to in the state `state`.
    spec fn read_lines(state: Self::State) -> Seq<Seq<char>>;

    /// The state after a read in the state `state`.
    spec fn after_read(state: Self::State) -> Self::State;

    /// The lines that writing `data` gives rise to in the state `state`.
    spec fn write_lines(state: Self::State, data: Seq<char>) -> Seq<Seq<char>>;

    /// The state after `data` was written in the state `state`.
    spec fn after_write(state: Self::State, data: Seq<char>) -> Self::State;

    /// Reads the data.
    fn read(&mut self) -> (read: (String, Vec<String>))
        ensures
            read.0@ == Self::read_content(old(self).state()),
            texts(read.1@) == Self::read_lines(old(self).state()),
            final(self).state() == Self::after_read(old(self).state()),
    ;

    /// Writes `data`.
    fn write(&mut self, data: &str) -> (lines: Vec<String>)
        ensures
            texts(lines@) == Self::write_lines(old(self).state(), data@),
            final(self).state() == Self::after_write(old(self).state(), data@),
    ;
}

/// A file that stands for a real one: it names the file it would touch and
/// always holds `"file data"`. Its state is the name of the file.
#[derive(Debug)]
pub struct BasicFileIO {
    pub filename: String,
}

impl BasicFileIO {
    /// Access to the file `filename`.
    pub fn new(filename: &str) -> (file: Self)
        ensures
            file.filename@ == filename@,
    {
        BasicFileIO { filename: filename.to_string() }
    }
}

impl FileIO for BasicFileIO {
    type State = Seq<char>;

    open spec fn state(&self) -> Seq<char> {
        self.filename@
    }

    open spec fn read_content(state: Seq<char>) -> Seq<char> {
        "file data"@
    }

    open spec fn read_lines(state: Seq<char>) -> Seq<Seq<char>> {
        seq!["Reading from file: "@ + state]
    }

    open spec fn after_read(state: Seq<char>) -> Seq<char> {
        state
    }

    open spec fn write_lines(state: Seq<char>, data: Seq<char>) -> Seq<Seq<char>> {
        seq!["Writing "@ + data + " to file: "@ + state]
    }

    open spec fn after_write(state: Seq<char>, data: Seq<char>) -> Seq<char> {
        state
    }

    fn read(&mut self) -> (read: (String, Vec<String>)) {
        let mut line = String::from_str("Reading from file: ");
        line.append(self.filename.as_str());
        ("file data".to_string(), one_line(line))
    }

    fn write(&mut self, data: &str) -> (lines: Vec<String>) {
        let mut line = String::from_str("Writing ");
        line.append(data);
        line.append(" to file: ");
        line.append(self.filename.as_str());
        one_line(line)
    }
}

/// Keeps what was written or read last and answers reads from it. While the
/// buffer is empty a read goes through to what is wrapped. Its state is the
/// state of what it wraps, and the buffer.
#[derive(Debug)]
pub struct BufferedFileIO<F> {
    pub file_io: F,
    pub buffer: String,
}

impl<F: FileIO> BufferedFileIO<F> {
    /// `file_io` behind an empty buffer.
    pub fn new(file_io: F) -> (buffered: Self)
        ensures
            buffered.file_io == file_io,
            buffered.buffer@.len() == 0,
    {
        BufferedFileIO { file_io, buffer: String::new() }
    }
}

impl<F: FileIO> FileIO for BufferedFileIO<F> {
    type State = (F::State, Seq<char>);

    open spec fn state(&self) -> (F::State, Seq<char>) {
        (self.file_io.state(), self.buffer@)
    }

    open spec fn read_content(state: (F::State, Seq<char>)) -> Seq<char> {
        if state.1.len() > 0 {
            state.1
        } else {
            F::read_content(state.0)
        }
    }

    open spec fn read_lines(state: (F::State, Seq<char>)) -> Seq<Seq<char>> {
        if state.1.len() > 0 {
            seq!["Reading from buffer"@]
        } else {
            F::read_lines(state.0).push("Reading from buffer"@)
        }
    }

    open spec fn after_read(state: (F::State, Seq<char>)) -> (F::State, Seq<char>) {
        if state.1.len() > 0 {
            state
        } else {
            (F::after_read(state.0), F::read_content(state.0))
        }
    }

    open spec fn write_lines(state: (F::State, Seq<char>), data: Seq<char>) -> Seq<Seq<char>> {
        seq!["Writing to buffer"@] + F::write_lines(state.0, data)
    }

    open spec fn after_write(state: (F::State, Seq<char>), data: Seq<char>) -> (F::State, Seq<char>) {
        (F::after_write(state.0, data), data)
    }

    fn read(&mut self) -> (read: (String, Vec<String>)) {
        let mut lines: Vec<String> = Vec::new();
        if self.buffer.as_str().is_empty() {
            let (data, inner) = self.file_io.read();
            self.buffer = data;
            lines = inner;
        }
        proof {
            assert(texts(Seq::<String>::empty()) =~= Seq::<Seq<char>>::empty());
            assert(Seq::<Seq<char>>::empty().push("Reading from buffer"@) =~= seq!["Reading from buffer"@]);
        }
        push_line(&mut lines, "Reading from buffer".to_string());
        (self.buffer.clone(), lines)
    }

    fn write(&mut self, data: &str) -> (lines: Vec<String>) {
        self.buffer = data.to_string();
        let rest = self.file_io.write(data);
        line_before("Writing to buffer".to_string(), rest)
    }
}

/// `data` marked as encrypted.
pub open spec fn encrypted(data: Seq<char>) -> Seq<char> {
    "encrypted("@ + data + ")"@
}

/// `data` without the marks of encryption: every `encrypted(` is taken out,
/// then every `)`.
pub open spec fn decrypted(data: Seq<char>) -> Seq<char> {
    replaced(replaced(data, "encrypted("@, ""@), ")"@, ""@)
}

/// Encrypts what is written and decrypts what is read. It remembers nothing
/// of its own.
#[derive(Debug)]
pub struct EncryptedFileIO<F> {
    pub file_io: F,
}

impl<F: FileIO> EncryptedFileIO<F> {
    /// `file_io`, wrapped.
    pub fn new(file_io: F) -> (encrypted: Self)
        ensures
            encrypted.file_io == file_io,
    {
        EncryptedFileIO { file_io }
    }

    /// Marks `data` as encrypted.
    pub fn encrypt(&self, data: &str) -> (out: String)
        ensures
            out@ == encrypted(data@),
    {
        let mut out = String::from_str("encrypted(");
        out.append(data);
        out.append(")");
        out
    }

    /// Takes the marks of encryption out of `data`.
    pub fn decrypt(&self, data: &str) -> (out: String)
        ensures
            out@ == decrypted(data@),
    {
        let opened = replace_all(data, "encrypted(", "");
        replace_all(opened.as_str(), ")", "")
    }
}

impl<F: FileIO> FileIO for EncryptedFileIO<F> {
    type State = F::State;

    open spec fn state(&self) -> F::State {
        self.file_io.state()
    }

    open spec fn read_content(state: F::State) -> Seq<char> {
        decrypted(F::read_content(state))
    }

    open spec fn read_lines(state: F::State) -> Seq<Seq<char>> {
        F::read_lines(state)
    }

    open spec fn after_read(state: F::State) -> F::State {
        F::after_read(state)
    }

    open spec fn write_lines(state: F::State, data: Seq<char>) -> Seq<Seq<char>> {
        F::write_lines(state, encrypted(data))
    }

    open spec fn after_write(state: F::State, data: Seq<char>) -> F::State {
        F::after_write(state, encrypted(data))
    }

    fn read(&mut self) -> (read: (String, Vec<String>)) {
        let (encrypted_data, lines) = self.file_io.read();
        (self.decrypt(encrypted_data.as_str()), lines)
    }

    fn write(&mut self, data: &str) -> (lines: Vec<String>) {
        let encrypted_data = self.encrypt(data);
        self.file_io.write(encrypted_data.as_str())
    }
}

/// `data` marked as compressed.
pub open spec fn compressed(data: Seq<char>) -> Seq<char> {
    "compressed("@ + data + ")"@
}

/// `data` without the marks of compression: every `compressed(` is taken
/// out, then every `)`.
pub open spec fn decompressed(data: Seq<char>) -> Seq<char> {
    replaced(replaced(data, "compressed("@, ""@), ")"@, ""@)
}

/// Compresses what is written and decompresses what is read. It remembers
/// nothing of its own.
#[derive(Debug)]
pub struct CompressedFileIO<F> {
    pub file_io: F,
}

impl<F: FileIO> CompressedFileIO<F> {
    /// `file_io`, wrapped.
    pub fn new(file_io: F) -> (compressed: Self)
        ensures
            compressed.file_io == file_io,
    {
        CompressedFileIO { file_io }
    }

    /// Marks `data` as compressed.
    pub fn compress(&self, data: &str) -> (out: String)
        ensures
            out@ == compressed(data@),
    {
        let mut out = String::from_str("compressed(");
        out.append(data);
        out.append(")");
        out
    }

    /// Takes the marks of compression out of `data`.
    pub fn decompress(&self, data: &str) -> (out: String)
        ensures
            out@ == decompressed(data@),
    {
        let opened = replace_all(data, "compressed(", "");
        replace_all(opened.as_str(), ")", "")
    }
}

impl<F: FileIO> FileIO for CompressedFileIO<F> {
    type State = F::State;

    open spec fn state(&self) -> F::State {
        self.file_io.state()
    }

    open spec fn read_content(state: F::State) -> Seq<char> {
        decompressed(F::read_content(state))
    }

    open spec fn read_lines(state: F::State) -> Seq<Seq<char>> {
        F::read_lines(state)
    }

    open spec fn after_read(state: F::State) -> F::State {
        F::after_read(state)
    }

    open spec fn write_lines(state: F::State, data: Seq<char>) -> Seq<Seq<char>> {
        F::write_lines(state, compressed(data))
    }

    open spec fn after_write(state: F::State, data: Seq<char>) -> F::State {
        F::after_write(state, compressed(data))
    }

    fn read(&mut self) -> (read: (String, Vec<String>)) {
        let (compressed_data, lines) = self.file_io.read();
        (self.decompress(compressed_data.as_str()), lines)
    }

    fn write(&mut self, data: &str) -> (lines: Vec<String>) {
        let compressed_data = self.compress(data);
        self.file_io.write(compressed_data.as_str())
    }
}

} // verus!
