//! The clock's options and the decisions of its main loop: which options are
//! refused, how often the face is redrawn, and which key ends the program.
use vstd::prelude::*;

verus! {

/// The command line options of the clock.
#[derive(Debug, Clone, PartialEq, Eq)]
pub struct Args {
    /// Show seconds.
    pub show_seconds: bool,
    /// Show milliseconds with this many digits (1 to 3).
    pub ms_digits: Option<u8>,
    /// Show the date.
    pub show_date: bool,
    /// Show the ISO week number and weekday.
    pub show_week: bool,
    /// Center the clock in the terminal.
    pub center: bool,
    /// Use the bold font.
    pub bold: bool,
    /// Use a 12-hour clock (not implemented).
    pub hour_12: bool,
    /// Use UTC time.
    pub utc: bool,
    /// A date format (not implemented).
    pub format: Option<String>,
}

/// An option that the clock accepts but does not implement yet.
#[derive(Debug, Copy, Clone, PartialEq, Eq, Structural)]
pub enum ArgsError {
    /// `--hour-12` was given.
    Hour12NotImplemented,
    /// `--format` was given.
    FormatNotImplemented,
}

/// The message of an error.
pub open spec fn args_error_message(e: ArgsError) -> Seq<char> {
    match e {
        ArgsError::Hour12NotImplemented => "--hour-12 is not implemented yet"@,
        ArgsError::FormatNotImplemented => "--format is not implemented yet"@,
    }
}

impl ArgsError {
    /// The message of the error, such as `--hour-12 is not implemented yet`.
    pub fn message(&self) -> (s: String)
        ensures
            s@ == args_error_message(*self),
    {
        let mut s = String::new();
        match self {
            ArgsError::Hour12NotImplemented => s.append("--hour-12 is not implemented yet"),
            ArgsError::FormatNotImplemented => s.append("--format is not implemented yet"),
        }
        s
    }
}

/// Refuses the options that are not implemented: `--hour-12` first, then
/// `--format`.
pub fn validate_args(args: &Args) -> (r: Result<(), ArgsError>)
    ensures
        r == (if args.hour_12 {
            Err(ArgsError::Hour12NotImplemented)
        } else if args.format is Some {
            Err(ArgsError::FormatNotImplemented)
        } else {
            Ok(())
        }),
{
    if args.hour_12 {
        return Err(ArgsError::Hour12NotImplemented);
    }
    if args.format.is_some() {
        return Err(ArgsError::FormatNotImplemented);
    }
    Ok(())
}

/// A key as the main loop tells them apart.
#[derive(Debug, Copy, Clone, PartialEq, Eq, Structural)]
pub enum KeyInput {
    /// A character key.
    Char(char),
    /// The escape key.
    Esc,
    /// Any other key.
    Other,
}

/// Whether a key event ends the program: a press of `q` or of escape.
pub fn is_quit_key(key: KeyInput, pressed: bool) -> (quit: bool)
    ensures
        quit == (pressed && (key == KeyInput::Char('q') || key == KeyInput::Esc)),
{
    pressed && match key {
        KeyInput::Char(c) => c == 'q',
        KeyInput::Esc => true,
        KeyInput::Other => false,
    }
}

} // verus!
