//! Value types that requests are built from.

use vstd::prelude::*;

verus! {

/// The kind of tick that condition mappings are requested for.
#[derive(Clone, Copy, Debug, PartialEq, Eq, Structural)]
pub enum TickType {
    Trades,
    Quotes,
}

/// The name of a tick type, as its variant is written.
pub open spec fn tick_type_name(t: TickType) -> Seq<char> {
    match t {
        TickType::Trades => "Trades"@,
        TickType::Quotes => "Quotes"@,
    }
}

impl TickType {
    /// The name of this tick type (`"Trades"` or `"Quotes"`).
    pub fn to_string(&self) -> (s: String)
        ensures
            s@ == tick_type_name(*self),
    {
        match self {
            TickType::Trades => String::from_str("Trades"),
            TickType::Quotes => String::from_str("Quotes"),
        }
    }
}

} // verus!
