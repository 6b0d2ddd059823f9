use position_ledger::commands::{
    parse_global_command, parse_position_command, parse_sort_choice, parse_sort_direction,
    split_command_input, GlobalCommand, PositionCommand,
};
use position_ledger::console::{confirmation_from_answer, ConfirmationStatus};
use position_ledger::fixed::Fixed;
use position_ledger::models::Action;
use position_ledger::pagination::{get_pages_count, next_page, previous_page, select_items_for_page};
use position_ledger::sorting::{SortBy, SortDirection};
use position_ledger::text::{i32_to_string, i64_to_string};

#[test]
fn fixed_round_keeps_small_values() {
    // 7.5 keeps its four decimal places: the integer part is short.
    assert_eq!(Fixed::from_units(75_000).round(), Fixed::from_units(75_000));
    // -99.45 stays too: with the sign it still takes three characters.
    assert_eq!(Fixed::from_units(-994_500).round(), Fixed::from_units(-994_500));
    // Whole values are returned unchanged.
    assert_eq!(Fixed::from_int(1_000_000).round(), Fixed::from_int(1_000_000));
}

#[test]
fn fixed_round_truncates_wide_values() {
    // 1234.5678 rounds to 1235: four integer digits.
    assert_eq!(Fixed::from_units(12_345_678).round(), Fixed::from_int(1235));
    // 1000.5 rounds half away from zero.
    assert_eq!(Fixed::from_units(10_005_000).round(), Fixed::from_int(1001));
    // -123.45 rounds to -123: the sign counts as a character.
    assert_eq!(Fixed::from_units(-1_234_500).round(), Fixed::from_int(-123));
}

#[test]
fn integers_render_in_decimal() {
    assert_eq!(i32_to_string(0), "0");
    assert_eq!(i32_to_string(-42), "-42");
    assert_eq!(i64_to_string(120_034), "120034");
}

#[test]
fn action_parses_either_case() {
    assert_eq!(Action::from_string(String::from("LONG")), Ok(Action::Long));
    assert_eq!(Action::from_string(String::from("b")), Ok(Action::Long));
    assert_eq!(Action::from_string(String::from("sell")), Ok(Action::Short));
    assert_eq!(Action::from_string(String::from("Short")), Ok(Action::Short));
}

#[test]
fn action_rejects_other_words() {
    assert_eq!(
        Action::from_string(String::from("x")),
        Err(String::from("'x' is not valid position type (long/short)"))
    );
}

#[test]
fn confirmation_reads_answers() {
    let yes = confirmation_from_answer(&String::from(" Y "), ConfirmationStatus::Rejected);
    assert_eq!(yes, Ok(ConfirmationStatus::Confirmed));
    let no = confirmation_from_answer(&String::from("n\n"), ConfirmationStatus::Confirmed);
    assert_eq!(no, Ok(ConfirmationStatus::Rejected));
    let default = confirmation_from_answer(&String::from(""), ConfirmationStatus::Confirmed);
    assert_eq!(default, Ok(ConfirmationStatus::Confirmed));
    let bad = confirmation_from_answer(&String::from("nope"), ConfirmationStatus::Rejected);
    assert_eq!(bad, Err(String::from("Unsupported confirmation answer nope")));
}

#[test]
fn command_line_splits_once() {
    let plain = split_command_input(&String::from("h")).unwrap();
    assert_eq!(plain.0, "h");
    assert_eq!(plain.1, None);

    let with_arg = split_command_input(&String::from("e 5")).unwrap();
    assert_eq!(with_arg.0, "e");
    assert_eq!(with_arg.1, Some(String::from("5")));

    let too_many = split_command_input(&String::from("a b c"));
    assert_eq!(too_many, Err(String::from("Command can accept only 1 argument")));
}

#[test]
fn command_words_are_recognised() {
    assert_eq!(parse_global_command(&String::from("q\n")), GlobalCommand::Quit);
    assert_eq!(parse_global_command(&String::from(" cs ")), GlobalCommand::ChangeSorting);
    assert_eq!(parse_global_command(&String::from("zz")), GlobalCommand::NotFound);
    assert_eq!(parse_position_command(&String::from("d")), PositionCommand::DeleteOrder);
    assert_eq!(parse_position_command(&String::from("p\n")), PositionCommand::PreviousPage);
}

#[test]
fn sorting_menu_answers_are_read() {
    assert!(matches!(
        parse_sort_direction(&String::from("ASC")),
        Ok(SortDirection::Ascending)
    ));
    assert!(matches!(
        parse_sort_direction(&String::from("d\n")),
        Ok(SortDirection::Descending)
    ));
    assert_eq!(
        parse_sort_direction(&String::from("sideways")).err().unwrap(),
        "Failed to parse direction 'sideways'"
    );
    assert!(matches!(
        parse_sort_choice(&String::from("2"), SortDirection::Ascending),
        Ok(SortBy::AvgValue(SortDirection::Ascending))
    ));
    assert_eq!(
        parse_sort_choice(&String::from("9"), SortDirection::Ascending).err().unwrap(),
        "Failed to parse sorting method '9'"
    );
}

#[test]
fn sort_labels_name_key_and_direction() {
    assert_eq!(SortDirection::Ascending.label(), "Asc");
    assert_eq!(SortBy::Id(SortDirection::Descending).label(), "Id (Desc)");
    assert_eq!(
        SortBy::LastChange(SortDirection::Ascending).label(),
        "Last change (Asc)"
    );
}

#[test]
fn pages_are_counted_and_stepped() {
    assert_eq!(get_pages_count(0, 10), 0);
    assert_eq!(get_pages_count(20, 10), 2);
    assert_eq!(get_pages_count(25, 10), 3);

    assert_eq!(next_page(2, 25, 10), Ok(3));
    assert_eq!(next_page(3, 25, 10), Err(String::from("Already at last page")));
    assert_eq!(previous_page(2), Ok(1));
    assert_eq!(previous_page(1), Err(String::from("Already at first page")));
}

#[test]
fn page_selection_takes_the_right_slice() {
    let items: Vec<i32> = (0..25).collect();
    let second = select_items_for_page(items.clone(), 2, 10);
    assert_eq!(second, (10..20).collect::<Vec<i32>>());
    let last = select_items_for_page(items, 3, 10);
    assert_eq!(last, (20..25).collect::<Vec<i32>>());
}
