use vstd::prelude::*;

verus! {

/// The typeface family in which the script is set.
#[derive(Debug, Clone, Copy, PartialEq, Eq, Structural)]
pub enum FontFamily {
    SansSerif,
    Serif,
    Monospace,
}

impl FontFamily {
    /// The name under which a family is offered to the user.
    pub open spec fn label(self) -> Seq<char> {
        match self {
            FontFamily::SansSerif => "Sans Serif"@,
            FontFamily::Serif => "Serif"@,
            FontFamily::Monospace => "Monospace"@,
        }
    }

    /// The display name of this family.
    pub fn as_str(&self) -> (r: &str)
        ensures
            r@ == self.label(),
    {
        match self {
            FontFamily::SansSerif => "Sans Serif",
            FontFamily::Serif => "Serif",
            FontFamily::Monospace => "Monospace",
        }
    }
}

} // verus!
