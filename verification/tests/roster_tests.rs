use position_ledger::fixed::Fixed;
use position_ledger::models::{Action, Order, Position};
use position_ledger::positions::{
    add_new_position, delete_position, find_position, next_position_id, replace_position,
};
use position_ledger::sorting::{split_positions_by_status, PositionsSorter, SortBy, SortDirection};
use position_ledger::storage::models::{
    FromModel, PositionStorageModel, ToModel,
};
use position_ledger::storage::models::storage::StorageModel;
use position_ledger::storage::Storage;
use position_ledger::table::{calculate_total, income_tone, status_label, IncomeTone};

fn open_position(id: i32, name: &str, amount: i64, value: i64) -> Position {
    let first = Order {
        id: 0,
        action: Action::Long,
        amount: Fixed::from_int(amount),
        value: Fixed::from_int(value),
        price: Fixed::from_units(Fixed::from_int(value).units / amount),
        income: Fixed::from_int(0),
    };
    Position::new(id, String::from(name), vec![first])
}

fn closed_position(id: i32, name: &str) -> Position {
    let mut pos = open_position(id, name, 10, 100);
    let closing = Order::new(&pos, Action::Short, Fixed::from_int(10), Fixed::from_int(100));
    pos.add_order(closing);
    pos
}

#[test]
fn new_positions_take_the_next_id() {
    let mut positions: Vec<Position> = Vec::new();
    assert_eq!(next_position_id(&positions), 0);
    add_new_position(
        &mut positions,
        String::from("AAA"),
        Action::Long,
        Fixed::from_int(10),
        Fixed::from_int(100),
    )
    .unwrap();
    assert_eq!(positions[0].id, 0);
    assert_eq!(positions[0].avg_price, Fixed::from_int(10));
    assert_eq!(positions[0].avg_value, Fixed::from_int(100));
    assert_eq!(positions[0].orders[0].id, 0);
    add_new_position(
        &mut positions,
        String::from("BBB"),
        Action::Short,
        Fixed::from_int(4),
        Fixed::from_int(20),
    )
    .unwrap();
    assert_eq!(positions[1].id, 1);
    assert_eq!(positions[1].avg_price, Fixed::from_int(5));
}

#[test]
fn positions_are_found_replaced_and_deleted() {
    let mut positions = vec![open_position(0, "AAA", 10, 100), open_position(1, "BBB", 2, 10)];
    assert_eq!(find_position(&positions, 1), Some(1));
    assert_eq!(find_position(&positions, 9), None);

    let mut changed = open_position(1, "BBB", 2, 10);
    let extra = Order::new(&changed, Action::Long, Fixed::from_int(2), Fixed::from_int(30));
    changed.add_order(extra);
    replace_position(&mut positions, changed).unwrap();
    assert_eq!(positions[1].orders.len(), 2);

    let missing = open_position(9, "XXX", 1, 1);
    assert_eq!(
        replace_position(&mut positions, missing),
        Err(String::from("Position 9 not found"))
    );

    delete_position(&mut positions, 0).unwrap();
    assert_eq!(positions.len(), 1);
    assert_eq!(positions[0].id, 1);
    assert_eq!(
        delete_position(&mut positions, 42),
        Err(String::from("Position with id 42 not found"))
    );
}

#[test]
fn removing_orders_guards_the_first_one() {
    let mut pos = open_position(7, "AAA", 10, 100);
    assert_eq!(
        pos.remove_order(0),
        Err(String::from("Cannot remove first order"))
    );
    assert_eq!(
        pos.remove_order(99),
        Err(String::from("Order with id 99 not found in position 7"))
    );
}

#[test]
fn a_zero_amount_closes_the_whole_position() {
    let mut pos = open_position(0, "AAA", 10, 100);
    pos.add_order_from_input(Action::Short, Fixed::from_int(0), Fixed::from_int(50))
        .unwrap();
    assert_eq!(pos.amount, Fixed::from_int(0));
    assert_eq!(pos.avg_value, Fixed::from_int(0));
    // Sold at 5 what was bought at 10, over ten pieces.
    assert_eq!(pos.income, Fixed::from_int(-50));
}

#[test]
fn overflowing_figures_are_refused() {
    // Removing the only short order would push the net amount past the
    // widest representable value.
    let huge = Fixed::from_units(i64::MAX);
    let zero = Fixed::from_int(0);
    let long = |id: i32| Order {
        id,
        action: Action::Long,
        amount: huge,
        value: zero,
        price: zero,
        income: zero,
    };
    let short = Order {
        id: 2,
        action: Action::Short,
        amount: huge,
        value: zero,
        price: zero,
        income: zero,
    };
    let mut pos = Position::new(0, String::from("WIDE"), vec![long(0), long(1), short]);
    assert_eq!(
        pos.remove_order(2),
        Err(String::from("Position totals would overflow"))
    );

    // A vanishing amount against a huge value gives a price no unit count
    // can carry.
    let mut positions: Vec<Position> = Vec::new();
    assert_eq!(
        add_new_position(
            &mut positions,
            String::from("THIN"),
            Action::Long,
            Fixed::from_units(1),
            Fixed::from_units(i64::MAX),
        ),
        Err(String::from("Position figures would overflow"))
    );

    // A position whose id is the last representable one leaves no id for
    // the next.
    let mut full = vec![open_position(i32::MAX, "LAST", 10, 100)];
    assert_eq!(
        add_new_position(
            &mut full,
            String::from("NEXT"),
            Action::Long,
            Fixed::from_int(1),
            Fixed::from_int(1),
        ),
        Err(String::from("No position id is left"))
    );

    // The same guard holds when an order is placed against a position.
    let mut pos = open_position(0, "AAA", 10, 100);
    assert_eq!(
        pos.add_order_from_input(Action::Short, Fixed::from_units(1), Fixed::from_units(i64::MAX)),
        Err(String::from("Order figures would overflow"))
    );
}

#[test]
fn sorter_orders_and_separates_positions() {
    let positions = vec![
        open_position(2, "CCC", 1, 30),
        closed_position(1, "BBB"),
        open_position(0, "AAA", 1, 10),
    ];

    let sorter = PositionsSorter {
        sort_by: SortBy::Id(SortDirection::Descending),
        hide_closed: false,
        move_closed_to_bottom: false,
    };
    let sorted = sorter.sort(&positions);
    let ids: Vec<i32> = sorted.iter().map(|p| p.id).collect();
    assert_eq!(ids, vec![0, 1, 2]);

    let reversed = PositionsSorter {
        sort_by: SortBy::Id(SortDirection::Ascending),
        hide_closed: false,
        move_closed_to_bottom: false,
    };
    let ids: Vec<i32> = reversed.sort(&positions).iter().map(|p| p.id).collect();
    assert_eq!(ids, vec![2, 1, 0]);

    let hiding = PositionsSorter {
        sort_by: SortBy::Id(SortDirection::Descending),
        hide_closed: true,
        move_closed_to_bottom: false,
    };
    let ids: Vec<i32> = hiding.sort(&positions).iter().map(|p| p.id).collect();
    assert_eq!(ids, vec![0, 2]);

    let moving = PositionsSorter {
        sort_by: SortBy::Id(SortDirection::Descending),
        hide_closed: false,
        move_closed_to_bottom: true,
    };
    let ids: Vec<i32> = moving.sort(&positions).iter().map(|p| p.id).collect();
    // Closed positions come first here; the rendered table is reversed.
    assert_eq!(ids, vec![1, 0, 2]);

    let (active, closed) = split_positions_by_status(&positions);
    let active_ids: Vec<i32> = active.iter().map(|p| p.id).collect();
    let closed_ids: Vec<i32> = closed.iter().map(|p| p.id).collect();
    assert_eq!(active_ids, vec![2, 0]);
    assert_eq!(closed_ids, vec![1]);
}

#[test]
fn totals_add_value_and_income() {
    let positions = vec![open_position(0, "AAA", 10, 100), open_position(1, "BBB", 2, 10)];
    let (value, income) = calculate_total(&positions).unwrap();
    assert_eq!(value, Fixed::from_int(110));
    assert_eq!(income, Fixed::from_int(0));
}

#[test]
fn income_is_toned_and_status_labelled() {
    assert_eq!(income_tone(Fixed::from_int(3)), IncomeTone::Gain);
    assert_eq!(income_tone(Fixed::from_int(-3)), IncomeTone::Loss);
    assert_eq!(income_tone(Fixed::from_int(0)), IncomeTone::Flat);

    let pos = open_position(0, "AAA", 10, 100);
    assert_eq!(status_label(&pos), "Active");
    assert_eq!(status_label(&closed_position(1, "BBB")), "Closed");
}

#[test]
fn stored_positions_replay_to_the_same_position() {
    let mut pos = open_position(3, "AAA", 10, 100);
    let second = Order::new(&pos, Action::Long, Fixed::from_int(10), Fixed::from_int(50));
    pos.add_order(second);
    let third = Order::new(&pos, Action::Short, Fixed::from_int(10), Fixed::from_int(50));
    pos.add_order(third);

    let model = PositionStorageModel::from_model(pos.clone());
    assert_eq!(model.id, 3);
    assert_eq!(model.orders.len(), 3);

    let rebuilt = model.to_model().unwrap();
    assert_eq!(rebuilt.id, pos.id);
    assert_eq!(rebuilt.name, pos.name);
    assert_eq!(rebuilt.amount, pos.amount);
    assert_eq!(rebuilt.avg_price, pos.avg_price);
    assert_eq!(rebuilt.avg_value, pos.avg_value);
    assert_eq!(rebuilt.income, pos.income);
    assert_eq!(rebuilt.orders, pos.orders);
}

#[test]
fn empty_stored_positions_are_refused() {
    let model = PositionStorageModel {
        id: 4,
        action: position_ledger::storage::models::ActionStorageModel::L,
        name: String::from("AAA"),
        orders: Vec::new(),
    };
    assert_eq!(
        model.to_model().err().unwrap(),
        "Failed to parse position 4 orders, perhaps it's empty"
    );
}

#[test]
fn whole_storage_converts_both_ways() {
    let storage = Storage {
        sort_positions_by: SortBy::Income(SortDirection::Ascending),
        move_closed_positions_to_bottom: true,
        positions: vec![open_position(0, "AAA", 10, 100)],
    };
    let model = StorageModel::from_model(storage);
    assert!(model.move_closed_positions_to_bottom);
    assert_eq!(model.positions.len(), 1);

    let back = model.to_model().unwrap();
    assert!(matches!(
        back.sort_positions_by,
        SortBy::Income(SortDirection::Ascending)
    ));
    assert!(back.move_closed_positions_to_bottom);
    assert_eq!(back.positions.len(), 1);
    assert_eq!(back.positions[0].avg_price, Fixed::from_int(10));
}
