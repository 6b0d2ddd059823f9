use position_ledger::fixed::Fixed;
use position_ledger::models::{Action, Order, Position};

#[test]
fn test_order_new() {
    let manual_order = Order {
        id: 0,
        action: Action::Long,
        amount: Fixed::from_int(10),
        value: Fixed::from_int(100),
        price: Fixed::from_int(10),
        income: Fixed::from_int(0),
    };
    let pos = Position::new(0, String::from("MOCK"), vec![manual_order]);

    // Create order with Order::new()
    let order = Order::new(&pos, Action::Short, Fixed::from_int(10), Fixed::from_int(200));
    assert_eq!(order.id, 1);
    assert_eq!(order.price, Fixed::from_int(20));
    assert_eq!(order.income, Fixed::from_int(100));
}

#[test]
fn test_position_add_order() {
    let first_order = Order {
        id: 0,
        action: Action::Long,
        amount: Fixed::from_int(10),
        value: Fixed::from_int(100),
        price: Fixed::from_int(10),
        income: Fixed::from_int(0),
    };

    let mut position = Position::new(0, String::from("MOCK"), vec![first_order]);

    let second = Order::new(&position, Action::Long, Fixed::from_int(10), Fixed::from_int(50));
    position.add_order(second);
    let third = Order::new(&position, Action::Short, Fixed::from_int(10), Fixed::from_int(50));
    position.add_order(third);

    /*
    After adding these orders, 'amount' should be equal to initial;
    'avg_price', 'avg_value' and 'income' should be recalculated to 7.5, 75 and -25.
    */

    assert_eq!(position.amount, Fixed::from_int(10));
    assert_eq!(position.avg_value, Fixed::from_int(75));
    assert_eq!(position.avg_price, Fixed::from_units(75_000));
    assert_eq!(position.income, Fixed::from_int(-25));
}

#[test]
fn test_position_remove_order() {
    let first_order = Order {
        id: 0,
        action: Action::Long,
        amount: Fixed::from_int(10),
        value: Fixed::from_int(100),
        price: Fixed::from_int(10),
        income: Fixed::from_int(0),
    };

    let mut position = Position::new(0, String::from("MOCK"), vec![first_order]);

    position.add_order(Order {
        id: 1,
        action: Action::Long,
        amount: Fixed::from_int(10),
        value: Fixed::from_int(50),
        price: Fixed::from_int(5),
        income: Fixed::from_int(0),
    });

    let tested_order_id = 2;
    position.add_order(Order {
        id: tested_order_id,
        action: Action::Short,
        amount: Fixed::from_int(10),
        value: Fixed::from_int(50),
        price: Fixed::from_int(5),
        income: Fixed::from_int(5),
    });

    // Remove last order and check recalculation
    position
        .remove_order(tested_order_id)
        .expect("Remove test order");

    assert_eq!(position.amount, Fixed::from_int(20));
    assert_eq!(position.avg_value, Fixed::from_int(150));
    assert_eq!(position.avg_price, Fixed::from_units(75_000));
    assert_eq!(position.income, Fixed::from_int(0));
}

#[test]
fn test_position_calculate_income_percent() {
    // Test positive income
    let position = Position::new(
        1,
        String::from("MOCK"),
        vec![
            Order {
                id: 0,
                action: Action::Long,
                amount: Fixed::from_int(1),
                value: Fixed::from_int(100),
                price: Fixed::from_int(100),
                income: Fixed::from_int(0),
            },
            Order {
                id: 1,
                action: Action::Short,
                amount: Fixed::from_int(1),
                value: Fixed::from_int(200),
                price: Fixed::from_int(200),
                income: Fixed::from_int(100),
            },
        ],
    );

    assert_eq!(position.calculate_income_percent(), Fixed::from_int(100));

    // Test negative income
    let position = Position::new(
        1,
        String::from("MOCK"),
        vec![
            Order {
                id: 0,
                action: Action::Long,
                amount: Fixed::from_int(1),
                value: Fixed::from_int(200),
                price: Fixed::from_int(200),
                income: Fixed::from_int(0),
            },
            Order {
                id: 1,
                action: Action::Short,
                amount: Fixed::from_int(1),
                value: Fixed::from_int(100),
                price: Fixed::from_int(100),
                income: Fixed::from_int(100),
            },
        ],
    );

    assert_eq!(position.calculate_income_percent(), Fixed::from_int(-50));
}
