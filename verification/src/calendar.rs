//! The calendars whose events are shown, and the colours they are drawn in.

use vstd::prelude::*;

verus! {

/// A colour of the display surface.
#[derive(Debug, Clone, Copy, PartialEq, Eq, Structural)]
pub enum Color {
    Red,
    Blue,
    Green,
    Yellow,
}

/// One of the configured calendars.
#[derive(Debug, Clone, Copy, PartialEq, Eq, Structural)]
pub enum Calendar {
    Primary,
    Private,
    University,
}

impl Calendar {
    /// The identifier under which the provider knows this calendar.
    pub open spec fn spec_id(self) -> Seq<char> {
        match self {
            Calendar::Primary => "primary"@,
            Calendar::Private => "6cm3jsuvlmq0jkvml9bd5l272k@group.calendar.google.com"@,
            Calendar::University => "t5pc1renkfb0q54klr31bgp894@group.calendar.google.com"@,
        }
    }

    /// The colour in which the events of this calendar are drawn.
    pub open spec fn spec_color(self) -> Color {
        match self {
            Calendar::Primary => Color::Red,
            Calendar::Private => Color::Blue,
            Calendar::University => Color::Green,
        }
    }

    /// The identifier under which the provider knows this calendar.
    pub fn id(&self) -> (id: String)
        ensures
            id@ == self.spec_id(),
    {
        match self {
            Calendar::Primary => String::from_str("primary"),
            Calendar::Private => String::from_str(
                "6cm3jsuvlmq0jkvml9bd5l272k@group.calendar.google.com",
            ),
            Calendar::University => String::from_str(
                "t5pc1renkfb0q54klr31bgp894@group.calendar.google.com",
            ),
        }
    }

    /// The colour in which the events of this calendar are drawn.
    pub fn color(&self) -> (color: Color)
        ensures
            color == self.spec_color(),
    {
        match self {
            Calendar::Primary => Color::Red,
            Calendar::Private => Color::Blue,
            Calendar::University => Color::Green,
        }
    }
}

} // verus!
