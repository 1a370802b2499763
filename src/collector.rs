use vstd::prelude::*;
use vstd::utf8::{decode_utf8, valid_utf8};

use crate::delimiter::Delimiter;
use crate::field::FieldRange;
use crate::item::{line_text, select_fields, Item};

verus! {

/// How many cancellation signals the cancellation channel holds.
pub const CMD_CHANNEL_SIZE: usize = 1024;

/// How many items the output channel holds before a push waits.
pub const ITEM_CHANNEL_SIZE: usize = 10240;

/// The size of the buffer a line is first read into.
pub const READ_BUFFER_SIZE: usize = 1024;

/// What a collector runs.
pub enum CollectorInput {
    /// A shell command line.
    Command(String),
}

/// The program and arguments a collector starts.
pub struct ShellCommand {
    pub program: String,
    pub args: Vec<String>,
}

/// The program and arguments that run `input` through the user's shell:
/// `shell -c <command>`, where `shell` is the configured shell, `sh` when
/// none is configured.
pub fn shell_command(shell: Option<String>, input: &CollectorInput) -> (r: ShellCommand)
    ensures
        r.program@ == (match shell {
            Some(s) => s@,
            None => "sh"@,
        }),
        r.args@.len() == 2,
        r.args@[0]@ == "-c"@,
        r.args@[1]@ == (match input {
            CollectorInput::Command(c) => c@,
        }),
{
    let program = match shell {
        Some(s) => s,
        None => String::from_str("sh"),
    };
    let command = match input {
        CollectorInput::Command(c) => c.clone(),
    };
    let mut args: Vec<String> = Vec::new();
    args.push(String::from_str("-c"));
    args.push(command);
    ShellCommand { program, args }
}

/// How a collector reads and turns lines into items.
pub struct SkimItemReaderOption {
    /// The size of the buffer a line is first read into.
    pub buf_size: usize,
    /// Whether escape sequences in the output are interpreted and stripped.
    pub use_ansi_color: bool,
    /// The fields shown; an empty list stands for the whole line.
    pub transform_fields: Vec<FieldRange>,
    /// The fields matched against; an empty list stands for the whole line.
    pub matching_fields: Vec<FieldRange>,
    /// How a line is cut into fields.
    pub delimiter: Delimiter,
    /// The byte that ends a line.
    pub line_ending: u8,
    /// Whether a failed command's error output is replayed as items.
    pub show_error: bool,
}

impl Default for SkimItemReaderOption {
    fn default() -> (r: Self)
        ensures
            r.buf_size == READ_BUFFER_SIZE,
            r.line_ending == 10,
            !r.use_ansi_color,
            r.transform_fields@.len() == 0,
            r.matching_fields@.len() == 0,
            r.delimiter is Blank,
            !r.show_error,
    {
        SkimItemReaderOption {
            buf_size: READ_BUFFER_SIZE,
            line_ending: 10,
            use_ansi_color: false,
            transform_fields: Vec::new(),
            matching_fields: Vec::new(),
            delimiter: Delimiter::Blank,
            show_error: false,
        }
    }
}

/// The text `String::from_utf8_lossy` makes of the bytes: each invalid
/// sequence replaced by U+FFFD.
pub uninterp spec fn utf8_lossy(bytes: Seq<u8>) -> Seq<char>;

/// Relies on `String::from_utf8_lossy`: it decodes the bytes, replacing
/// invalid sequences, and hands valid UTF-8 back unchanged.
#[verifier::external_body]
pub(crate) fn decode_lossy(bytes: &Vec<u8>) -> (r: String)
    ensures
        r@ == utf8_lossy(bytes@),
        valid_utf8(bytes@) ==> r@ == decode_utf8(bytes@),
{
    String::from_utf8_lossy(bytes.as_slice()).into_owned()
}

/// A chunk without its line ending: a final `\r\n`, else a final `\n` or NUL.
pub open spec fn trimmed(chunk: Seq<u8>) -> Seq<u8> {
    if chunk.len() >= 2 && chunk[chunk.len() - 2] == 13 && chunk[chunk.len() - 1] == 10 {
        chunk.take(chunk.len() - 2)
    } else if chunk.len() >= 1 && (chunk.last() == 10 || chunk.last() == 0) {
        chunk.drop_last()
    } else {
        chunk
    }
}

/// Removes the line ending of a chunk: a final `\r\n`, else a final `\n` or NUL.
pub fn trim_line_end(chunk: &mut Vec<u8>)
    ensures
        final(chunk)@ == trimmed(old(chunk)@),
{
    let n = chunk.len();
    if n >= 2 && chunk[n - 2] == 13 && chunk[n - 1] == 10 {
        chunk.pop();
        chunk.pop();
    } else if n >= 1 && (chunk[n - 1] == 10 || chunk[n - 1] == 0) {
        chunk.pop();
    }
}

impl SkimItemReaderOption {
    /// The text of a chunk read from the command: without its line ending,
    /// decoded, and stripped of escape sequences when they are interpreted.
    pub open spec fn chunk_text(&self, chunk: Seq<u8>) -> Seq<char> {
        line_text(utf8_lossy(trimmed(chunk)), self.use_ansi_color)
    }

    /// The shown and matched texts of the item made of a chunk.
    pub open spec fn chunk_item(&self, chunk: Seq<u8>) -> (Seq<char>, Seq<char>) {
        let text = self.chunk_text(chunk);
        let fields = self.delimiter.fields(text);
        (
            select_fields(text, fields, self.transform_fields@),
            select_fields(text, fields, self.matching_fields@),
        )
    }

    /// Turns a chunk read from the command, line ending included, into an item.
    pub fn item_of_chunk(&self, chunk: Vec<u8>) -> (r: Item)
        ensures
            r@ == self.chunk_item(chunk@),
    {
        let mut chunk = chunk;
        trim_line_end(&mut chunk);
        let line = decode_lossy(&chunk);
        Item::new(
            line.as_str(),
            self.use_ansi_color,
            &self.transform_fields,
            &self.matching_fields,
            &self.delimiter,
        )
    }
}

/// Runs commands and turns their output into items.
pub struct SkimItemReader {
    option: SkimItemReaderOption,
}

impl SkimItemReader {
    /// The options the reader was made with.
    pub closed spec fn option_spec(&self) -> &SkimItemReaderOption {
        &self.option
    }

    /// A reader with the given options.
    pub fn new(option: SkimItemReaderOption) -> (r: Self)
        ensures
            *r.option_spec() == option,
    {
        SkimItemReader { option }
    }

    /// The options the reader was made with.
    pub fn option(&self) -> (r: &SkimItemReaderOption)
        ensures
            *r == *self.option_spec(),
    {
        &self.option
    }
}

impl Default for SkimItemReader {
    fn default() -> (r: Self)
        ensures
            r.option_spec().buf_size == READ_BUFFER_SIZE,
            r.option_spec().line_ending == 10,
            !r.option_spec().use_ansi_color,
            r.option_spec().transform_fields@.len() == 0,
            r.option_spec().matching_fields@.len() == 0,
            r.option_spec().delimiter is Blank,
            !r.option_spec().show_error,
    {
        SkimItemReader { option: SkimItemReaderOption::default() }
    }
}

} // verus!
