//! The side of an order or position: buying long or selling short.

use vstd::prelude::*;
use vstd::string::StringExecFns;
use crate::text::{lower_of, lowercase, str_eq};

verus! {

#[derive(PartialEq, Eq, Clone, Copy, Debug, Structural)]
pub enum Action {
    Long,
    Short,
}

/// Which action a lowercase answer names, if any.
pub open spec fn action_of_lower(s: Seq<char>) -> Option<Action> {
    if s == "l"@ || s == "long"@ || s == "b"@ || s == "buy"@ {
        Some(Action::Long)
    } else if s == "s"@ || s == "short"@ || s == "sell"@ {
        Some(Action::Short)
    } else {
        None
    }
}

/// The message returned for an answer that names no action.
pub open spec fn invalid_action_message(s: Seq<char>) -> Seq<char> {
    "'"@ + s + "' is not valid position type (long/short)"@
}

impl Action {
    /// Which action an already lowercased answer names.
    pub fn from_lowered(s: &str) -> (r: Option<Action>)
        ensures
            r == action_of_lower(s@),
    {
        if str_eq(s, "l") || str_eq(s, "long") || str_eq(s, "b") || str_eq(s, "buy") {
            Some(Action::Long)
        } else if str_eq(s, "s") || str_eq(s, "short") || str_eq(s, "sell") {
            Some(Action::Short)
        } else {
            None
        }
    }

    /// Parses an answer, ignoring case; rejects anything that names
    /// neither side.
    pub fn from_string(string: String) -> (r: Result<Action, String>)
        ensures
            match r {
                Ok(a) => action_of_lower(lower_of(string@)) == Some(a),
                Err(m) => action_of_lower(lower_of(string@)) is None && m@
                    == invalid_action_message(string@),
            },
    {
        let low = lowercase(string.as_str());
        match Action::from_lowered(low.as_str()) {
            Some(a) => Ok(a),
            None => {
                let mut m = String::from_str("'");
                m.append(string.as_str());
                m.append("' is not valid position type (long/short)");
                Err(m)
            },
        }
    }
}

} // verus!
