//! Coloured lines on the console.

use vstd::prelude::*;
use vstd::string::*;
use std::io::Write;

verus! {

/// The colours in which a line can be written, and the code that ends a
/// colour.
pub enum ConsoleColor {
    Cyan,
    Yellow,
    Red,
    Green,
    Magenta,
    Reset,
}

impl ConsoleColor {
    /// The escape sequence of the colour.
    pub open spec fn ansi_code(&self) -> Seq<char> {
        match self {
            ConsoleColor::Cyan => "\x1b[36m"@,
            ConsoleColor::Yellow => "\x1b[33m"@,
            ConsoleColor::Red => "\x1b[31m"@,
            ConsoleColor::Green => "\x1b[32m"@,
            ConsoleColor::Magenta => "\x1b[35m"@,
            ConsoleColor::Reset => "\x1b[0m"@,
        }
    }

    /// The escape sequence of the colour.
    pub fn to_ansi_code(&self) -> (code: &'static str)
        ensures
            code@ == self.ansi_code(),
    {
        match self {
            ConsoleColor::Cyan => "\x1b[36m",
            ConsoleColor::Yellow => "\x1b[33m",
            ConsoleColor::Red => "\x1b[31m",
            ConsoleColor::Green => "\x1b[32m",
            ConsoleColor::Magenta => "\x1b[35m",
            ConsoleColor::Reset => "\x1b[0m",
        }
    }
}

/// A message as it is written in a colour: the colour's code, the message,
/// the code that ends the colour, and a line feed.
pub open spec fn colored_text(msg: Seq<char>, color: ConsoleColor) -> Seq<char> {
    color.ansi_code() + msg + ConsoleColor::Reset.ansi_code() + "\n"@
}

/// The line that is written for `msg` in `color`.
pub fn colored_line(msg: &str, color: ConsoleColor) -> (line: String)
    ensures
        line@ == colored_text(msg@, color),
{
    let mut line = String::from_str(color.to_ansi_code());
    line.append(msg);
    line.append(ConsoleColor::Reset.to_ansi_code());
    line.append("\n");
    line
}

/// Trusted: writes `line` to the standard output (`std::io::stdout`). Whether
/// it arrives there is not known, and a failure to write is passed over.
#[verifier::external_body]
fn emit(line: &str) {
    let _ = write!(std::io::stdout(), "{}", line);
}

fn print_colored(msg: &str, color: ConsoleColor) {
    let line = colored_line(msg, color);
    emit(line.as_str());
}

/// The console, which has no state.
pub struct Console;

impl Console {
    pub fn new() -> Self {
        Console
    }
}

/// Writes `msg` in cyan.
pub fn print_info(msg: &str) {
    print_colored(msg, ConsoleColor::Cyan);
}

/// Writes `msg` in yellow.
pub fn print_warn(msg: &str) {
    print_colored(msg, ConsoleColor::Yellow);
}

/// Writes `msg` in red.
pub fn print_error(msg: &str) {
    print_colored(msg, ConsoleColor::Red);
}

/// Writes `msg` in green.
pub fn print_success(msg: &str) {
    print_colored(msg, ConsoleColor::Green);
}

/// Writes `msg` in magenta.
pub fn print_debug(msg: &str) {
    print_colored(msg, ConsoleColor::Magenta);
}

} // verus!
