//! Colours of the terminal log.
use vstd::prelude::*;

verus! {

/// What a part of a log line is.
#[derive(Clone, Copy, Debug, PartialEq, Eq, Structural)]
pub enum Color {
    Default,
    Event,
    Internal,
    User,
    Channel,
    Guild,
    Glue,
}

/// The terminal escape sequence of each colour.
pub open spec fn escape_of(c: Color) -> Seq<char> {
    match c {
        Color::Default => "\x1b[0m"@,
        Color::Event => "\x1b[33m"@,
        Color::Internal => "\x1b[35m"@,
        Color::User => "\x1b[32m"@,
        Color::Channel => "\x1b[36m"@,
        Color::Guild => "\x1b[38;5;33m"@,
        Color::Glue => "\x1b[90m"@,
    }
}

impl Color {
    /// The escape sequence that switches the terminal to this colour.
    pub fn escape(&self) -> (r: &'static str)
        ensures
            r@ == escape_of(*self),
    {
        match self {
            Color::Default => "\x1b[0m",
            Color::Event => "\x1b[33m",
            Color::Internal => "\x1b[35m",
            Color::User => "\x1b[32m",
            Color::Channel => "\x1b[36m",
            Color::Guild => "\x1b[38;5;33m",
            Color::Glue => "\x1b[90m",
        }
    }

    /// The escape sequence, where the log goes to a terminal; nothing otherwise.
    pub fn on(&self, terminal: bool) -> (r: &'static str)
        ensures
            r@ == if terminal {
                escape_of(*self)
            } else {
                ""@
            },
    {
        if terminal {
            self.escape()
        } else {
            ""
        }
    }
}

/// Something that prints itself in the log's colours.
pub trait PrintColor {
    fn color(&self, terminal: bool) -> String;
}

/// The separator between the fields of a log line.
pub struct Glue;

impl PrintColor for Glue {
    fn color(&self, terminal: bool) -> String {
        let mut s = Color::Glue.on(terminal).to_owned();
        s.append(":");
        s.append(Color::Default.on(terminal));
        s
    }
}

/// `text` in colour `c`, reset to the default colour after it.
pub fn colored(c: Color, text: &str, terminal: bool) -> (r: String)
    ensures
        r@ == (if terminal {
            escape_of(c)
        } else {
            ""@
        }) + text@ + (if terminal {
            escape_of(Color::Default)
        } else {
            ""@
        }),
{
    let mut s = c.on(terminal).to_owned();
    s.append(text);
    s.append(Color::Default.on(terminal));
    s
}

} // verus!
