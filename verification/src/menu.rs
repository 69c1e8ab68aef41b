use vstd::prelude::*;
use crate::text::parse_u64;
use crate::text::parse_u64_spec;
use crate::text::trim_spec;
use crate::text::trim_str;

verus! {

/// The action a run of the tool performs, chosen once from the menu.
#[derive(Clone, Copy, Debug, PartialEq, Eq, Structural)]
pub enum OptionInputs {
    /// Fetch and display the weather for a city.
    GetTemperature,
    /// Pretty-print a JSON text supplied on the prompt.
    PrettyPrintJson,
    /// GET an arbitrary URL, with an optional bearer token, and pretty-print
    /// the JSON response.
    GetJsonAPI,
}

impl OptionInputs {
    /// The action behind a menu number: 1, 2 and 3 select an action, every
    /// other number selects nothing.
    pub open spec fn from_u64_spec(index: u64) -> Option<OptionInputs> {
        if index == 1 {
            Some(OptionInputs::GetTemperature)
        } else if index == 2 {
            Some(OptionInputs::PrettyPrintJson)
        } else if index == 3 {
            Some(OptionInputs::GetJsonAPI)
        } else {
            None
        }
    }

    /// Maps a menu number to its action, if there is one.
    pub fn from_u64(index: u64) -> (r: Option<OptionInputs>)
        ensures
            r == Self::from_u64_spec(index),
    {
        match index {
            1 => Some(OptionInputs::GetTemperature),
            2 => Some(OptionInputs::PrettyPrintJson),
            3 => Some(OptionInputs::GetJsonAPI),
            _ => None,
        }
    }
}

/// The action a line of menu input selects: the line is trimmed and read as
/// a decimal number, and 1, 2 and 3 name the three actions; anything else
/// selects nothing.
pub open spec fn selection_of(s: Seq<char>) -> Option<OptionInputs> {
    match parse_u64_spec(trim_spec(s)) {
        Some(index) => OptionInputs::from_u64_spec(index),
        None => None,
    }
}

/// Reads a line of menu input as the action it selects.
pub fn parse_menu_selection(s: &str) -> (r: Option<OptionInputs>)
    ensures
        r == selection_of(s@),
{
    let trimmed = trim_str(s);
    match parse_u64(trimmed.as_str()) {
        Some(index) => OptionInputs::from_u64(index),
        None => None,
    }
}

} // verus!
