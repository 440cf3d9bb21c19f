//! A console logger: log lines go through a ring buffer to a serial line,
//! and keys typed on the console change the level and the target filter.
use vstd::prelude::*;
use vstd::string::StringSliceAdditionalSpecFns;
use crate::ring_buffer::{size_fits, RingBuffer};

verus! {

/// The most verbose level that reaches the console.
#[derive(Clone, Copy, Debug, PartialEq, Eq, Structural)]
pub enum LevelFilter {
    Off,
    Error,
    Warn,
    Info,
    Debug,
    Trace,
}

/// The level of one log line.
#[derive(Clone, Copy, Debug, PartialEq, Eq, Structural)]
pub enum Level {
    Error,
    Warn,
    Info,
    Debug,
    Trace,
}

/// What a key typed on the console asks for while log lines stream.
#[derive(Clone, Copy, Debug, PartialEq, Eq, Structural)]
pub enum ConsoleCommand {
    /// Show lines up to this level from now on.
    SetLevel(LevelFilter),
    /// Stop the stream and edit the target filter.
    EditFilter,
    /// Nothing to do.
    Ignore,
}

/// The command of a key: the digits `0` to `5` pick a level, `?` opens the
/// filter.
pub open spec fn command_of(key: u8) -> ConsoleCommand {
    if key == 0x30 {
        ConsoleCommand::SetLevel(LevelFilter::Off)
    } else if key == 0x31 {
        ConsoleCommand::SetLevel(LevelFilter::Error)
    } else if key == 0x32 {
        ConsoleCommand::SetLevel(LevelFilter::Warn)
    } else if key == 0x33 {
        ConsoleCommand::SetLevel(LevelFilter::Info)
    } else if key == 0x34 {
        ConsoleCommand::SetLevel(LevelFilter::Debug)
    } else if key == 0x35 {
        ConsoleCommand::SetLevel(LevelFilter::Trace)
    } else if key == 0x3f {
        ConsoleCommand::EditFilter
    } else {
        ConsoleCommand::Ignore
    }
}

/// Decodes a key typed while log lines stream.
pub fn console_command(key: u8) -> (c: ConsoleCommand)
    ensures
        c == command_of(key),
{
    match key {
        0x30 => ConsoleCommand::SetLevel(LevelFilter::Off),
        0x31 => ConsoleCommand::SetLevel(LevelFilter::Error),
        0x32 => ConsoleCommand::SetLevel(LevelFilter::Warn),
        0x33 => ConsoleCommand::SetLevel(LevelFilter::Info),
        0x34 => ConsoleCommand::SetLevel(LevelFilter::Debug),
        0x35 => ConsoleCommand::SetLevel(LevelFilter::Trace),
        0x3f => ConsoleCommand::EditFilter,
        _ => ConsoleCommand::Ignore,
    }
}

/// The coloured marker that starts a log line of `level`.
pub fn level_tag(level: Level) -> (tag: &'static str)
    ensures
        level == Level::Error ==> tag@ == "\x1b[0;91mE\x1b[0m"@,
        level == Level::Warn ==> tag@ == "\x1b[0;93mW\x1b[0m"@,
        level == Level::Info ==> tag@ == "\x1b[0;92mI\x1b[0m"@,
        level == Level::Debug ==> tag@ == "\x1b[0;97mD\x1b[0m"@,
        level == Level::Trace ==> tag@ == "\x1b[0;90mT\x1b[0m"@,
{
    match level {
        Level::Error => "\x1b[0;91mE\x1b[0m",
        Level::Warn => "\x1b[0;93mW\x1b[0m",
        Level::Info => "\x1b[0;92mI\x1b[0m",
        Level::Debug => "\x1b[0;97mD\x1b[0m",
        Level::Trace => "\x1b[0;90mT\x1b[0m",
    }
}

/// The capacity of the target filter, in bytes.
pub const FILTER_CAPACITY: usize = 32;

/// The number of bytes UTF-8 takes for `c`.
pub open spec fn utf8_len(c: char) -> int {
    let v = c as int;
    if v < 0x80 {
        1
    } else if v < 0x800 {
        2
    } else if v < 0x10000 {
        3
    } else {
        4
    }
}

/// The UTF-8 encoding of `c`.
pub open spec fn utf8_encode(c: char) -> Seq<u8> {
    let v = c as int;
    if v < 0x80 {
        seq![v as u8]
    } else if v < 0x800 {
        seq![(0xc0 + v / 64) as u8, (0x80 + v % 64) as u8]
    } else if v < 0x10000 {
        seq![(0xe0 + v / 4096) as u8, (0x80 + (v / 64) % 64) as u8, (0x80 + v % 64) as u8]
    } else {
        seq![
            (0xf0 + v / 262144) as u8,
            (0x80 + (v / 4096) % 64) as u8,
            (0x80 + (v / 64) % 64) as u8,
            (0x80 + v % 64) as u8,
        ]
    }
}

/// The target filter, kept in a `heapless::String` of 32 bytes.
#[verifier::external_body]
pub struct FilterText {
    text: heapless::String<32>,
}

/// The bytes of the filter text.
pub uninterp spec fn filter_text(f: FilterText) -> Seq<u8>;

/// `heapless::String::new()`: an empty string.
#[verifier::external_body]
fn text_new() -> (r: FilterText)
    ensures
        filter_text(r) == Seq::<u8>::empty(),
{
    FilterText { text: heapless::String::new() }
}

/// `heapless::String::push(c)`: appends the UTF-8 encoding of `c` when it fits
/// into the capacity, and reports an error, leaving the string as it was,
/// when it does not.
#[verifier::external_body]
fn text_push(f: &mut FilterText, c: char) -> (r: bool)
    ensures
        r == (filter_text(*old(f)).len() + utf8_len(c) <= FILTER_CAPACITY),
        r ==> filter_text(*final(f)) == filter_text(*old(f)) + utf8_encode(c),
        !r ==> filter_text(*final(f)) == filter_text(*old(f)),
{
    f.text.push(c).is_ok()
}

/// `heapless::String::pop()`: removes the last character, the one whose
/// encoding ends the string, and returns it; `None` on an empty string.
#[verifier::external_body]
fn text_pop(f: &mut FilterText) -> (r: Option<char>)
    ensures
        r is None <==> filter_text(*old(f)).len() == 0,
        r is None ==> filter_text(*final(f)) == filter_text(*old(f)),
        r matches Some(c) ==> filter_text(*old(f)) == filter_text(*final(f)) + utf8_encode(c),
{
    f.text.pop()
}

/// `heapless::String::as_str()`: the text as a string slice.
#[verifier::external_body]
fn text_as_str(f: &FilterText) -> (r: &str)
    ensures
        r.spec_bytes() == filter_text(*f),
{
    f.text.as_str()
}

/// The key that confirms the filter.
pub const KEY_ENTER: u8 = 0x0d;

/// The keys that erase the last character of the filter.
pub open spec fn is_erase_key(key: u8) -> bool {
    key == 0x08 || key == 0x7f
}

/// Log lines waiting for the console, and the filter on their targets.
pub struct Logger<const BUFFER_SIZE: usize> {
    filter: FilterText,
    /// The lines written and not yet sent.
    pub rb: RingBuffer<BUFFER_SIZE>,
}

impl<const BUFFER_SIZE: usize> Logger<BUFFER_SIZE> {
    /// The bytes of the target filter.
    pub closed spec fn filter(&self) -> Seq<u8> {
        filter_text(self.filter)
    }

    /// The ring buffer of the lines.
    pub closed spec fn lines(&self) -> RingBuffer<BUFFER_SIZE> {
        self.rb
    }

    /// An empty filter and an empty buffer.
    pub fn new() -> (l: Self)
        requires
            size_fits(BUFFER_SIZE),
        ensures
            l.filter() == Seq::<u8>::empty(),
            l.lines().wf(),
            l.lines()@ == Seq::<u8>::empty(),
            !l.lines().reader_taken(),
            !l.lines().writer_taken(),
    {
        Logger { filter: text_new(), rb: RingBuffer::new() }
    }

    /// Whether lines of `target` pass: their target starts with the filter.
    pub fn enabled(&self, target: &str) -> (r: bool)
        ensures
            r == self.filter().is_prefix_of(target.spec_bytes()),
    {
        let f = text_as_str(&self.filter).as_bytes();
        let t = target.as_bytes();
        if f.len() > t.len() {
            return false;
        }
        let mut i: usize = 0;
        while i < f.len()
            invariant
                f@ == self.filter(),
                t@ == target.spec_bytes(),
                f@.len() <= t@.len(),
                i <= f@.len(),
                forall|j: int| 0 <= j < i ==> f@[j] == t@[j],
            decreases f@.len() - i,
        {
            if f[i] != t[i] {
                return false;
            }
            i += 1;
        }
        true
    }

    /// The filter as text.
    pub fn filter_str(&self) -> (s: &str)
        ensures
            s.spec_bytes() == self.filter(),
    {
        text_as_str(&self.filter)
    }

    /// Takes a key typed while the filter is edited, and tells whether it
    /// confirmed the filter. Enter confirms; backspace and delete erase the
    /// last character; any other key is appended as the character of that
    /// code, when it fits.
    pub fn edit_filter(&mut self, key: u8) -> (confirmed: bool)
        ensures
            confirmed == (key == KEY_ENTER),
            final(self).lines() == old(self).lines(),
            key == KEY_ENTER ==> final(self).filter() == old(self).filter(),
            is_erase_key(key) && old(self).filter().len() == 0 ==> final(self).filter() == old(
                self,
            ).filter(),
            is_erase_key(key) && old(self).filter().len() > 0 ==> exists|c: char|
                old(self).filter() == final(self).filter() + #[trigger] utf8_encode(c),
            key != KEY_ENTER && !is_erase_key(key) ==> {
                let c = key as char;
                if old(self).filter().len() + utf8_len(c) <= FILTER_CAPACITY {
                    final(self).filter() == old(self).filter() + utf8_encode(c)
                } else {
                    final(self).filter() == old(self).filter()
                }
            },
    {
        if key == KEY_ENTER {
            return true;
        }
        if key == 0x08 || key == 0x7f {
            let _ = text_pop(&mut self.filter);
        } else {
            let _ = text_push(&mut self.filter, key as char);
        }
        false
    }
}

} // verus!
