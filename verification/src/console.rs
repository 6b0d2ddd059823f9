//! Interpreting console answers: yes/no confirmations.

use vstd::prelude::*;
use vstd::string::StringExecFns;
use crate::text::{lower_of, lowercase, str_eq, trimmed, trimmed_of};

verus! {

#[derive(PartialEq, Eq, Clone, Copy, Debug, Structural)]
pub enum ConfirmationStatus {
    Confirmed,
    Rejected,
}

/// What a trimmed, lowercased answer confirms: `y` and `n` decide, an
/// empty answer takes the default, anything else is no answer.
pub open spec fn confirmation_of(low: Seq<char>, default: ConfirmationStatus) -> Option<
    ConfirmationStatus,
> {
    if low == "y"@ {
        Some(ConfirmationStatus::Confirmed)
    } else if low == "n"@ {
        Some(ConfirmationStatus::Rejected)
    } else if low == ""@ {
        Some(default)
    } else {
        None
    }
}

/// The message returned for an answer that confirms nothing.
pub open spec fn unsupported_answer_message(s: Seq<char>) -> Seq<char> {
    "Unsupported confirmation answer "@ + trimmed_of(s)
}

/// Reads a confirmation out of a raw console answer, ignoring case and
/// surrounding whitespace.
pub fn confirmation_from_answer(input: &String, default: ConfirmationStatus) -> (r: Result<
    ConfirmationStatus,
    String,
>)
    ensures
        match r {
            Ok(c) => confirmation_of(lower_of(trimmed_of(input@)), default) == Some(c),
            Err(m) => confirmation_of(lower_of(trimmed_of(input@)), default) is None && m@
                == unsupported_answer_message(input@),
        },
{
    let t = trimmed(input.as_str());
    let low = lowercase(t.as_str());
    if str_eq(low.as_str(), "y") {
        Ok(ConfirmationStatus::Confirmed)
    } else if str_eq(low.as_str(), "n") {
        Ok(ConfirmationStatus::Rejected)
    } else if str_eq(low.as_str(), "") {
        Ok(default)
    } else {
        let mut m = String::from_str("Unsupported confirmation answer ");
        m.append(t.as_str());
        Err(m)
    }
}

} // verus!
