//! The command language of the ledger's prompt: splitting an input line
//! into command and argument, and reading the command words and the
//! sorting-menu answers.

use vstd::prelude::*;
use vstd::string::{StrSliceExecFns, StringExecFns};
use crate::models::position::Position;
use crate::sorting::{SortBy, SortDirection};
use crate::text::{lower_of, lowercase, str_eq, trimmed, trimmed_of};

verus! {

/// A step between the two edit modes.
pub enum ChangeEditMode {
    EditPosition(Position),
    PositionChanged(Position),
}

/// Which part of the ledger the prompt is addressing.
pub enum EditMode {
    Global,
    Position(Position),
}

/// What handling a command came to.
pub enum CommandResult {
    Done,
    CommandNotFound,
    ChangeEditMode(ChangeEditMode),
    UpdatePositions(Vec<Position>),
    Error(String),
}

/// The first space of a line, if any.
pub open spec fn first_space(s: Seq<char>) -> Option<int>
    decreases s.len(),
{
    if s.len() == 0 {
        None
    } else if s[0] == ' ' {
        Some(0)
    } else {
        match first_space(s.drop_first()) {
            Some(k) => Some(k + 1),
            None => None,
        }
    }
}

proof fn lemma_first_space_at(s: Seq<char>, i: int)
    requires
        0 <= i < s.len(),
        forall|k: int| 0 <= k < i ==> s[k] != ' ',
        s[i] == ' ',
    ensures
        first_space(s) == Some(i),
    decreases i,
{
    if i > 0 {
        lemma_first_space_at(s.drop_first(), i - 1);
    }
}

proof fn lemma_first_space_none(s: Seq<char>)
    requires
        forall|k: int| 0 <= k < s.len() ==> s[k] != ' ',
    ensures
        first_space(s) is None,
    decreases s.len(),
{
    if s.len() > 0 {
        lemma_first_space_none(s.drop_first());
    }
}

/// The first space of a string slice, found by scanning.
fn find_space(s: &str) -> (r: Option<usize>)
    ensures
        match r {
            Some(i) => i < s@.len() && first_space(s@) == Some(i as int),
            None => first_space(s@) is None,
        },
{
    let n = s.unicode_len();
    let mut i: usize = 0;
    while i < n
        invariant
            n == s@.len(),
            0 <= i <= n,
            forall|k: int| 0 <= k < i ==> s@[k] != ' ',
        decreases n - i,
    {
        if s.get_char(i) == ' ' {
            proof {
                lemma_first_space_at(s@, i as int);
            }
            return Some(i);
        }
        i = i + 1;
    }
    proof {
        lemma_first_space_none(s@);
    }
    None
}

/// Splits an input line at its first space into a command and at most
/// one argument; a second argument is refused.
pub fn split_command_input(input: &String) -> (r: Result<(String, Option<String>), String>)
    ensures
        match r {
            Ok(t) => match first_space(input@) {
                None => t.0@ == input@ && t.1 is None,
                Some(p) => {
                    &&& t.0@ == input@.subrange(0, p)
                    &&& t.1 matches Some(a) && a@ == input@.subrange(
                        p + 1,
                        input@.len() as int,
                    )
                    &&& first_space(input@.subrange(p + 1, input@.len() as int)) is None
                },
            },
            Err(m) => {
                &&& first_space(input@) matches Some(p) && first_space(
                    input@.subrange(p + 1, input@.len() as int),
                ) is Some
                &&& m@ == "Command can accept only 1 argument"@
            },
        },
{
    let s = input.as_str();
    let n = s.unicode_len();
    match find_space(s) {
        None => Ok((String::from_str(s), None)),
        Some(p) => {
            let rest = s.substring_char(p + 1, n);
            match find_space(rest) {
                None => {
                    let cmd = s.substring_char(0, p);
                    Ok((String::from_str(cmd), Some(String::from_str(rest))))
                },
                Some(_) => Err(String::from_str("Command can accept only 1 argument")),
            }
        },
    }
}

/// The commands of the positions table.
#[derive(PartialEq, Eq, Clone, Copy, Debug, Structural)]
pub enum GlobalCommand {
    Quit,
    NextPage,
    PreviousPage,
    AddPosition,
    DeletePosition,
    EditPosition,
    ChangeSorting,
    Help,
    NotFound,
}

/// Which table command a trimmed word names.
pub open spec fn global_command_of(t: Seq<char>) -> GlobalCommand {
    if t == "q"@ {
        GlobalCommand::Quit
    } else if t == "n"@ {
        GlobalCommand::NextPage
    } else if t == "p"@ {
        GlobalCommand::PreviousPage
    } else if t == "a"@ {
        GlobalCommand::AddPosition
    } else if t == "d"@ {
        GlobalCommand::DeletePosition
    } else if t == "e"@ {
        GlobalCommand::EditPosition
    } else if t == "cs"@ {
        GlobalCommand::ChangeSorting
    } else if t == "h"@ {
        GlobalCommand::Help
    } else {
        GlobalCommand::NotFound
    }
}

/// Reads a table command, ignoring surrounding whitespace.
pub fn parse_global_command(command: &String) -> (r: GlobalCommand)
    ensures
        r == global_command_of(trimmed_of(command@)),
{
    let t = trimmed(command.as_str());
    if str_eq(t.as_str(), "q") {
        GlobalCommand::Quit
    } else if str_eq(t.as_str(), "n") {
        GlobalCommand::NextPage
    } else if str_eq(t.as_str(), "p") {
        GlobalCommand::PreviousPage
    } else if str_eq(t.as_str(), "a") {
        GlobalCommand::AddPosition
    } else if str_eq(t.as_str(), "d") {
        GlobalCommand::DeletePosition
    } else if str_eq(t.as_str(), "e") {
        GlobalCommand::EditPosition
    } else if str_eq(t.as_str(), "cs") {
        GlobalCommand::ChangeSorting
    } else if str_eq(t.as_str(), "h") {
        GlobalCommand::Help
    } else {
        GlobalCommand::NotFound
    }
}

/// The commands of a single position's page.
#[derive(PartialEq, Eq, Clone, Copy, Debug, Structural)]
pub enum PositionCommand {
    Quit,
    AddOrder,
    DeleteOrder,
    Help,
    NextPage,
    PreviousPage,
    NotFound,
}

/// Which position command a trimmed word names.
pub open spec fn position_command_of(t: Seq<char>) -> PositionCommand {
    if t == "q"@ {
        PositionCommand::Quit
    } else if t == "a"@ {
        PositionCommand::AddOrder
    } else if t == "d"@ {
        PositionCommand::DeleteOrder
    } else if t == "h"@ {
        PositionCommand::Help
    } else if t == "n"@ {
        PositionCommand::NextPage
    } else if t == "p"@ {
        PositionCommand::PreviousPage
    } else {
        PositionCommand::NotFound
    }
}

/// Reads a position command, ignoring surrounding whitespace.
pub fn parse_position_command(command: &String) -> (r: PositionCommand)
    ensures
        r == position_command_of(trimmed_of(command@)),
{
    let t = trimmed(command.as_str());
    if str_eq(t.as_str(), "q") {
        PositionCommand::Quit
    } else if str_eq(t.as_str(), "a") {
        PositionCommand::AddOrder
    } else if str_eq(t.as_str(), "d") {
        PositionCommand::DeleteOrder
    } else if str_eq(t.as_str(), "h") {
        PositionCommand::Help
    } else if str_eq(t.as_str(), "n") {
        PositionCommand::NextPage
    } else if str_eq(t.as_str(), "p") {
        PositionCommand::PreviousPage
    } else {
        PositionCommand::NotFound
    }
}

/// Which direction a trimmed, lowercased answer names.
pub open spec fn direction_of(t: Seq<char>) -> Option<SortDirection> {
    if t == "asc"@ || t == "a"@ {
        Some(SortDirection::Ascending)
    } else if t == "desc"@ || t == "d"@ {
        Some(SortDirection::Descending)
    } else {
        None
    }
}

/// Reads a sorting direction out of a menu answer, ignoring case.
pub fn parse_sort_direction(input: &String) -> (r: Result<SortDirection, String>)
    ensures
        match r {
            Ok(d) => direction_of(trimmed_of(lower_of(input@))) == Some(d),
            Err(m) => direction_of(trimmed_of(lower_of(input@))) is None && m@
                == "Failed to parse direction '"@ + lower_of(input@) + "'"@,
        },
{
    let low = lowercase(input.as_str());
    let t = trimmed(low.as_str());
    if str_eq(t.as_str(), "asc") || str_eq(t.as_str(), "a") {
        Ok(SortDirection::Ascending)
    } else if str_eq(t.as_str(), "desc") || str_eq(t.as_str(), "d") {
        Ok(SortDirection::Descending)
    } else {
        let mut m = String::from_str("Failed to parse direction '");
        m.append(low.as_str());
        m.append("'");
        proof {
            assert(m@ =~= "Failed to parse direction '"@ + lower_of(input@) + "'"@);
        }
        Err(m)
    }
}

/// Which sort key a trimmed, lowercased menu number names.
pub open spec fn sort_by_of(t: Seq<char>, d: SortDirection) -> Option<SortBy> {
    if t == "1"@ {
        Some(SortBy::Id(d))
    } else if t == "2"@ {
        Some(SortBy::AvgValue(d))
    } else if t == "3"@ {
        Some(SortBy::AvgPrice(d))
    } else if t == "4"@ {
        Some(SortBy::Income(d))
    } else if t == "5"@ {
        Some(SortBy::LastChange(d))
    } else {
        None
    }
}

/// Reads a sort key out of a menu answer, ignoring case.
pub fn parse_sort_choice(choice: &String, direction: SortDirection) -> (r: Result<
    SortBy,
    String,
>)
    ensures
        match r {
            Ok(k) => sort_by_of(trimmed_of(lower_of(choice@)), direction) == Some(k),
            Err(m) => sort_by_of(trimmed_of(lower_of(choice@)), direction) is None && m@
                == "Failed to parse sorting method '"@ + lower_of(choice@) + "'"@,
        },
{
    let low = lowercase(choice.as_str());
    let t = trimmed(low.as_str());
    if str_eq(t.as_str(), "1") {
        Ok(SortBy::Id(direction))
    } else if str_eq(t.as_str(), "2") {
        Ok(SortBy::AvgValue(direction))
    } else if str_eq(t.as_str(), "3") {
        Ok(SortBy::AvgPrice(direction))
    } else if str_eq(t.as_str(), "4") {
        Ok(SortBy::Income(direction))
    } else if str_eq(t.as_str(), "5") {
        Ok(SortBy::LastChange(direction))
    } else {
        let mut m = String::from_str("Failed to parse sorting method '");
        m.append(low.as_str());
        m.append("'");
        proof {
            assert(m@ =~= "Failed to parse sorting method '"@ + lower_of(choice@) + "'"@);
        }
        Err(m)
    }
}

} // verus!
