//! What the tables and the log view show: text without colour codes, the
//! colour of a status, the unit of a byte count, and where a key press
//! scrolls to.
use vstd::prelude::*;
use vstd::string::StringExecFns;
use crate::text::{decimal, decimal_of, string_of};

verus! {

/// `regex::Regex`, a compiled pattern.
#[verifier::external_type_specification]
#[verifier::external_body]
pub struct ExRegex(regex::Regex);

/// `regex::Error`, why a pattern does not compile.
#[verifier::external_type_specification]
#[verifier::external_body]
pub struct ExRegexError(regex::Error);

/// The pattern that `regex::Regex::new` compiles from `pattern`, if it
/// compiles.
pub uninterp spec fn regex_compiled(pattern: Seq<char>) -> Option<regex::Regex>;

/// What `regex::Regex::replace_all` leaves of `text` when every match of
/// `pattern` is taken out.
pub uninterp spec fn regex_erased(pattern: regex::Regex, text: Seq<char>) -> Seq<char>;

/// `regex::Regex::new`: the pattern named `regex_compiled`, and an error
/// exactly where the text is no pattern.
#[verifier::external_body]
fn compile(pattern: &str) -> (compiled: Result<regex::Regex, regex::Error>)
    ensures
        match compiled {
            Ok(re) => regex_compiled(pattern@) == Some(re),
            Err(_) => regex_compiled(pattern@) is None,
        },
{
    regex::Regex::new(pattern)
}

/// `regex::Regex::replace_all` with the empty replacement: the text named
/// `regex_erased`.
#[verifier::external_body]
fn erase_all(pattern: &regex::Regex, text: &str) -> (rest: String)
    ensures
        rest@ == regex_erased(*pattern, text@),
{
    pattern.replace_all(text, "").to_string()
}

/// `owo_colors::OwoColorize::bold`, written out: the text between the code
/// that switches bold on and the code that resets all attributes.
#[verifier::external_body]
fn bold(text: &str) -> (shown: String)
    ensures
        shown@ == "\x1b[1m"@ + text@ + "\x1b[0m"@,
{
    owo_colors::OwoColorize::bold(&text).to_string()
}

/// `owo_colors::OwoColorize::green`, written out: the text between the code
/// of the green foreground and the code of the default foreground.
#[verifier::external_body]
fn green(text: &str) -> (shown: String)
    ensures
        shown@ == "\x1b[32m"@ + text@ + "\x1b[39m"@,
{
    owo_colors::OwoColorize::green(&text).to_string()
}

/// `owo_colors::OwoColorize::yellow`, written out: the text between the
/// code of the yellow foreground and the code of the default foreground.
#[verifier::external_body]
fn yellow(text: &str) -> (shown: String)
    ensures
        shown@ == "\x1b[33m"@ + text@ + "\x1b[39m"@,
{
    owo_colors::OwoColorize::yellow(&text).to_string()
}

/// `owo_colors::OwoColorize::red`, written out: the text between the code
/// of the red foreground and the code of the default foreground.
#[verifier::external_body]
fn red(text: &str) -> (shown: String)
    ensures
        shown@ == "\x1b[31m"@ + text@ + "\x1b[39m"@,
{
    owo_colors::OwoColorize::red(&text).to_string()
}

/// `owo_colors::OwoColorize::white`, written out: the text between the code
/// of the white foreground and the code of the default foreground.
#[verifier::external_body]
fn white(text: &str) -> (shown: String)
    ensures
        shown@ == "\x1b[37m"@ + text@ + "\x1b[39m"@,
{
    owo_colors::OwoColorize::white(&text).to_string()
}

/// `text` without its colour codes: every escape sequence that sets a
/// graphic attribute is taken out.
pub open spec fn stripped(text: Seq<char>) -> Seq<char> {
    match regex_compiled("\\x1b\\[[0-9;]*m"@) {
        Some(pattern) => regex_erased(pattern, text),
        None => text,
    }
}

/// The colour of a cell: that of its status, or none.
pub enum Paint {
    Green,
    Yellow,
    Red,
    White,
    Plain,
}

/// The colour in which the cell `text` is shown.
pub open spec fn paint_of(text: Seq<char>) -> Paint {
    if text == "Running"@ {
        Paint::Green
    } else if text == "Warning"@ {
        Paint::Yellow
    } else if text == "Stopped"@ {
        Paint::Red
    } else if text == "Status"@ {
        Paint::White
    } else {
        Paint::Plain
    }
}

/// `text` in bold and in the colour `paint`; as it is, where there is none.
pub open spec fn painted(text: Seq<char>, paint: Paint) -> Seq<char> {
    match paint {
        Paint::Green => "\x1b[1m"@ + ("\x1b[32m"@ + text + "\x1b[39m"@) + "\x1b[0m"@,
        Paint::Yellow => "\x1b[1m"@ + ("\x1b[33m"@ + text + "\x1b[39m"@) + "\x1b[0m"@,
        Paint::Red => "\x1b[1m"@ + ("\x1b[31m"@ + text + "\x1b[39m"@) + "\x1b[0m"@,
        Paint::White => "\x1b[1m"@ + ("\x1b[37m"@ + text + "\x1b[39m"@) + "\x1b[0m"@,
        Paint::Plain => text,
    }
}

/// The units in which a number of bytes is shown.
#[derive(Clone, Copy, Debug, PartialEq, Eq, Structural)]
pub enum ByteUnit {
    Bytes,
    Kilobytes,
    Megabytes,
    Gigabytes,
    Terabytes,
}

/// The largest unit of which `bytes` holds at least one.
pub open spec fn unit_of(bytes: u64) -> ByteUnit {
    if bytes >= 0x100_0000_0000 {
        ByteUnit::Terabytes
    } else if bytes >= 0x4000_0000 {
        ByteUnit::Gigabytes
    } else if bytes >= 0x10_0000 {
        ByteUnit::Megabytes
    } else if bytes >= 0x400 {
        ByteUnit::Kilobytes
    } else {
        ByteUnit::Bytes
    }
}

/// The number of bytes in one of `unit`.
pub open spec fn size_of_unit(unit: ByteUnit) -> u64 {
    match unit {
        ByteUnit::Bytes => 1,
        ByteUnit::Kilobytes => 0x400,
        ByteUnit::Megabytes => 0x10_0000,
        ByteUnit::Gigabytes => 0x4000_0000,
        ByteUnit::Terabytes => 0x100_0000_0000,
    }
}

/// A key pressed in the log view.
#[derive(Clone, Copy, Debug, PartialEq, Eq, Structural)]
pub enum LogKey {
    Quit,
    Down,
    Up,
    PageDown,
    PageUp,
    Other,
}

/// The first line shown after `key` is pressed while `scroll` is the first;
/// nothing where the key closes the view.
pub open spec fn scrolled(scroll: u16, key: LogKey) -> Option<int> {
    match key {
        LogKey::Quit => None,
        LogKey::Down => Some(scroll + 1),
        LogKey::Up => Some(if scroll >= 1 { scroll - 1 } else { 0 }),
        LogKey::PageDown => Some(scroll + 10),
        LogKey::PageUp => Some(if scroll >= 10 { scroll - 10 } else { 0 }),
        LogKey::Other => Some(scroll as int),
    }
}

/// One entry of a log: when it was written, and what it says.
pub struct LogEntry {
    pub timestamp: String,
    pub message: String,
}

/// The digits of `n`, with zeros in front up to three digits.
pub open spec fn padded(n: nat) -> Seq<char> {
    let digits = decimal(n);
    if digits.len() >= 3 {
        digits
    } else if digits.len() == 2 {
        seq!['0'] + digits
    } else {
        seq!['0', '0'] + digits
    }
}

/// The line of the log view for the entry of number `index` among the
/// `total` that were asked for.
pub open spec fn log_line(index: nat, total: nat, timestamp: Seq<char>, message: Seq<char>) -> Seq<
    char,
> {
    "["@ + padded(index) + " of "@ + padded(total) + "] @ "@ + timestamp + " -> "@ + message
}

/// The digits of `n`, with zeros in front up to three digits.
fn padded_digits(n: u64) -> (digits: String)
    ensures
        digits@ == padded(n as nat),
{
    let digits = decimal_of(n);
    let mut out = if digits.len() >= 3 {
        String::new()
    } else if digits.len() == 2 {
        String::from_str("0")
    } else {
        String::from_str("00")
    };
    proof {
        reveal_strlit("0");
        reveal_strlit("00");
        assert("0"@ =~= seq!['0']);
        assert("00"@ =~= seq!['0', '0']);
        assert(Seq::<char>::empty() + digits@ =~= digits@);
    }
    out.append(string_of(&digits).as_str());
    out
}

/// The lines of the log view: each entry with its number, counted from 1,
/// the number of lines that were asked for, its time and its message.
pub fn log_lines(entries: &Vec<LogEntry>, total: u64) -> (lines: Vec<String>)
    ensures
        lines@.len() == entries@.len(),
        forall|i: int|
            0 <= i < entries@.len() ==> (#[trigger] lines@[i])@ == log_line(
                (i + 1) as nat,
                total as nat,
                entries@[i].timestamp@,
                entries@[i].message@,
            ),
{
    let mut lines: Vec<String> = Vec::new();
    let mut i: usize = 0;
    while i < entries.len()
        invariant
            i <= entries.len(),
            lines@.len() == i,
            forall|j: int|
                0 <= j < i ==> (#[trigger] lines@[j])@ == log_line(
                    (j + 1) as nat,
                    total as nat,
                    entries@[j].timestamp@,
                    entries@[j].message@,
                ),
        decreases entries.len() - i,
    {
        let entry = &entries[i];
        let mut line = String::from_str("[");
        line.append(padded_digits(i as u64 + 1).as_str());
        line.append(" of ");
        line.append(padded_digits(total).as_str());
        line.append("] @ ");
        line.append(entry.timestamp.as_str());
        line.append(" -> ");
        line.append(entry.message.as_str());
        lines.push(line);
        i = i + 1;
    }
    lines
}

/// Takes the colour codes out of `s`.
pub fn strip_ansi_codes(s: &str) -> (plain: String)
    ensures
        plain@ == stripped(s@),
{
    match compile("\\x1b\\[[0-9;]*m") {
        Ok(pattern) => erase_all(&pattern, s),
        Err(_) => String::from_str(s),
    }
}

/// The colour in which the cell `text` is shown: a status has its colour,
/// the heading of the status column is white, anything else is plain.
pub fn paint_for(text: &str) -> (paint: Paint)
    ensures
        paint == paint_of(text@),
{
    let cell = String::from_str(text);
    if cell == String::from_str("Running") {
        Paint::Green
    } else if cell == String::from_str("Warning") {
        Paint::Yellow
    } else if cell == String::from_str("Stopped") {
        Paint::Red
    } else if cell == String::from_str("Status") {
        Paint::White
    } else {
        Paint::Plain
    }
}

/// The cell `text` as the status column shows it: in bold and in the colour
/// of its status. The padding to `width` columns is made of empty strings on
/// both sides, so `width` changes nothing.
pub fn pad_and_color(text: &str, width: usize) -> (cell: String)
    ensures
        cell@ == painted(text@, paint_of(text@)),
{
    match paint_for(text) {
        Paint::Green => bold(green(text).as_str()),
        Paint::Yellow => bold(yellow(text).as_str()),
        Paint::Red => bold(red(text).as_str()),
        Paint::White => bold(white(text).as_str()),
        Paint::Plain => String::from_str(text),
    }
}

/// The unit in which `bytes` is shown: the largest of which it holds at
/// least one.
pub fn byte_unit(bytes: u64) -> (unit: ByteUnit)
    ensures
        unit == unit_of(bytes),
        size_of_unit(unit) <= bytes || unit == ByteUnit::Bytes,
{
    if bytes >= 0x100_0000_0000 {
        ByteUnit::Terabytes
    } else if bytes >= 0x4000_0000 {
        ByteUnit::Gigabytes
    } else if bytes >= 0x10_0000 {
        ByteUnit::Megabytes
    } else if bytes >= 0x400 {
        ByteUnit::Kilobytes
    } else {
        ByteUnit::Bytes
    }
}

/// The number of bytes in one of `unit`.
pub fn unit_size(unit: ByteUnit) -> (size: u64)
    ensures
        size == size_of_unit(unit),
{
    match unit {
        ByteUnit::Bytes => 1,
        ByteUnit::Kilobytes => 0x400,
        ByteUnit::Megabytes => 0x10_0000,
        ByteUnit::Gigabytes => 0x4000_0000,
        ByteUnit::Terabytes => 0x100_0000_0000,
    }
}

/// The name of `unit` as it follows a number.
pub fn unit_name(unit: ByteUnit) -> (name: &'static str)
    ensures
        name@ == match unit {
            ByteUnit::Bytes => "B"@,
            ByteUnit::Kilobytes => "KB"@,
            ByteUnit::Megabytes => "MB"@,
            ByteUnit::Gigabytes => "GB"@,
            ByteUnit::Terabytes => "TB"@,
        },
{
    match unit {
        ByteUnit::Bytes => "B",
        ByteUnit::Kilobytes => "KB",
        ByteUnit::Megabytes => "MB",
        ByteUnit::Gigabytes => "GB",
        ByteUnit::Terabytes => "TB",
    }
}

/// The first line of the log view after `key` is pressed: one line or ten
/// down, one line or ten up and never above the first, unchanged for a key
/// without a meaning; nothing where the key closes the view. A scroll
/// beyond the last number of a line is not asked for.
pub fn scroll_after(scroll: u16, key: LogKey) -> (first: Option<u16>)
    requires
        key == LogKey::Down ==> scroll < u16::MAX,
        key == LogKey::PageDown ==> scroll <= u16::MAX - 10,
    ensures
        match first {
            Some(line) => scrolled(scroll, key) == Some(line as int),
            None => scrolled(scroll, key) is None,
        },
{
    match key {
        LogKey::Quit => None,
        LogKey::Down => Some(scroll + 1),
        LogKey::Up => Some(scroll.saturating_sub(1)),
        LogKey::PageDown => Some(scroll + 10),
        LogKey::PageUp => Some(scroll.saturating_sub(10)),
        LogKey::Other => Some(scroll),
    }
}

} // verus!
