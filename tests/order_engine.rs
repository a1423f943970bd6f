use trezza_pos::{tax_for, Order, OrderItem, OrderStatus, Payment, PaymentMethod, Timestamp};

fn ids(order: &Order) -> Vec<String> {
    order.items.iter().map(|i| i.product_id.clone()).collect()
}

#[test]
fn new_order_is_empty_and_pending() {
    let o = Order::new();
    assert!(o.items.is_empty());
    assert_eq!((o.subtotal, o.tax, o.total), (0, 0, 0));
    assert!(o.payment.is_none());
    assert_eq!(o.status, OrderStatus::Pending);
    assert_eq!(o.id.chars().count(), 36);
    assert!(o.created_at.nanos < 1_000_000_000);
    // after 2020-01-01
    assert!(o.created_at.secs > 1_577_836_800);
}

#[test]
fn fresh_orders_get_distinct_ids() {
    let a = Order::new();
    let b = Order::new();
    assert_ne!(a.id, b.id);
}

#[test]
fn scenario_single_latte() {
    let mut o = Order::new();
    o.add_item("p1".to_string(), "Latte".to_string(), 50000);
    assert_eq!(o.subtotal, 50000);
    assert_eq!(o.tax, 4000);
    assert_eq!(o.total, 54000);
}

#[test]
fn scenario_same_product_twice() {
    let mut o = Order::new();
    o.add_item("p1".to_string(), "Latte".to_string(), 50000);
    o.add_item("p1".to_string(), "Other".to_string(), 99999);
    assert_eq!(o.items.len(), 1);
    assert_eq!(o.items[0].quantity, 2);
    assert_eq!(o.items[0].product_name, "Latte");
    assert_eq!(o.items[0].price, 50000);
    assert_eq!((o.subtotal, o.tax, o.total), (100000, 8000, 108000));
}

#[test]
fn scenario_remove_last_unit() {
    let mut o = Order::new();
    o.add_item("p1".to_string(), "Latte".to_string(), 50000);
    o.remove_item("p1");
    assert!(o.items.is_empty());
    assert_eq!((o.subtotal, o.tax, o.total), (0, 0, 0));
}

#[test]
fn scenario_two_products() {
    let mut o = Order::new();
    o.add_item("p1".to_string(), "Espresso".to_string(), 35000);
    o.add_item("p2".to_string(), "Cappuccino".to_string(), 45000);
    assert_eq!(o.subtotal, 80000);
    assert_eq!(o.tax, 6400);
    assert_eq!(o.total, 86400);
}

#[test]
fn remove_one_of_several_units() {
    let mut o = Order::new();
    for _ in 0..3 {
        o.add_item("p1".to_string(), "Bagel".to_string(), 25000);
    }
    o.remove_item("p1");
    assert_eq!(o.items[0].quantity, 2);
    assert_eq!((o.subtotal, o.tax, o.total), (50000, 4000, 54000));
}

#[test]
fn remove_absent_product_changes_nothing() {
    let mut o = Order::new();
    o.add_item("p1".to_string(), "Bagel".to_string(), 25000);
    o.remove_item("zz");
    assert_eq!(o.items.len(), 1);
    assert_eq!(o.total, 27000);
}

#[test]
fn removing_a_middle_line_keeps_order() {
    let mut o = Order::new();
    o.add_item("a".to_string(), "A".to_string(), 10000);
    o.add_item("b".to_string(), "B".to_string(), 20000);
    o.add_item("c".to_string(), "C".to_string(), 30000);
    o.remove_item("b");
    assert_eq!(ids(&o), vec!["a".to_string(), "c".to_string()]);
    assert_eq!(o.subtotal, 40000);
}

#[test]
fn clear_zeroes_everything() {
    let mut o = Order::new();
    o.add_item("p1".to_string(), "Mug".to_string(), 129900);
    o.add_item("p2".to_string(), "Salad".to_string(), 97500);
    o.clear();
    assert!(o.items.is_empty());
    assert_eq!((o.subtotal, o.tax, o.total), (0, 0, 0));
    assert_eq!(o.status, OrderStatus::Pending);
}

#[test]
fn totals_follow_items_after_every_call() {
    let mut o = Order::new();
    let steps: Vec<(bool, &str, u64)> = vec![
        (true, "a", 35000),
        (true, "b", 249900),
        (true, "a", 35000),
        (false, "b", 0),
        (true, "c", 12345),
        (false, "a", 0),
        (false, "x", 0),
    ];
    for (add, id, price) in steps {
        if add {
            o.add_item(id.to_string(), id.to_string(), price);
        } else {
            o.remove_item(id);
        }
        let sum: u64 = o.items.iter().map(|i| i.price * i.quantity as u64).sum();
        assert_eq!(o.subtotal, sum);
        assert_eq!(o.tax, sum * 8 / 100);
        assert_eq!(o.total, o.subtotal + o.tax);
    }
}

#[test]
fn recompute_twice_is_identical() {
    let mut o = Order::new();
    o.add_item("p1".to_string(), "T-Shirt".to_string(), 249900);
    o.add_item("p2".to_string(), "Muffin".to_string(), 32500);
    o.calculate_totals();
    let once = o.clone();
    o.calculate_totals();
    assert_eq!(o, once);
    assert_eq!((o.subtotal, o.tax, o.total), (282400, 22592, 304992));
}

#[test]
fn recompute_repairs_stale_totals() {
    let mut o = Order::new();
    o.items.push(OrderItem {
        product_id: "p1".to_string(),
        product_name: "Latte".to_string(),
        price: 50000,
        quantity: 3,
    });
    o.calculate_totals();
    assert_eq!((o.subtotal, o.tax, o.total), (150000, 12000, 162000));
}

#[test]
fn adds_never_duplicate_a_product() {
    let mut o = Order::new();
    for id in ["a", "b", "a", "c", "b", "a"] {
        o.add_item(id.to_string(), id.to_string(), 10000);
    }
    assert_eq!(ids(&o), vec!["a".to_string(), "b".to_string(), "c".to_string()]);
    assert_eq!(o.items[0].quantity, 3);
    assert_eq!(o.items[1].quantity, 2);
    assert_eq!(o.items[2].quantity, 1);
}

#[test]
fn quantities_never_drop_below_one() {
    let mut o = Order::new();
    o.add_item("a".to_string(), "A".to_string(), 10000);
    o.add_item("a".to_string(), "A".to_string(), 10000);
    o.add_item("b".to_string(), "B".to_string(), 10000);
    for id in ["a", "a", "a", "b", "b"] {
        o.remove_item(id);
        assert!(o.items.iter().all(|i| i.quantity >= 1));
    }
    assert!(o.items.is_empty());
}

#[test]
fn increment_item_grows_existing_line_only() {
    let mut o = Order::new();
    o.add_item("a".to_string(), "A".to_string(), 10000);
    o.increment_item("a");
    o.increment_item("missing");
    assert_eq!(o.items.len(), 1);
    assert_eq!(o.items[0].quantity, 2);
    assert_eq!(o.total, 21600);
}

#[test]
fn can_add_item_respects_limits() {
    let mut o = Order::new();
    assert!(o.can_add_item(&"a".to_string(), 10000));
    assert!(!o.can_add_item(&"a".to_string(), trezza_pos::MAX_SUBTOTAL + 1));
    o.add_item("a".to_string(), "A".to_string(), 0);
    o.items[0].quantity = u32::MAX;
    assert!(!o.can_add_item(&"a".to_string(), 0));
    assert!(o.can_add_item(&"b".to_string(), 5));
}

#[test]
fn complete_payment_marks_paid() {
    let mut o = Order::new();
    o.add_item("a".to_string(), "A".to_string(), 100000);
    let p = Payment::new(PaymentMethod::DebitCard, o.total);
    o.complete_payment(p);
    assert_eq!(o.status, OrderStatus::Paid);
    assert_eq!(o.payment, Some(p));
    assert_eq!(o.payment.unwrap().amount, o.total);
    assert_eq!(o.total, 108000);
}

#[test]
fn payment_keeps_method_and_amount() {
    let p = Payment::new(PaymentMethod::MobilePay, 108000);
    assert_eq!(p.method, PaymentMethod::MobilePay);
    assert_eq!(p.amount, 108000);
    assert!(p.processed_at.nanos < 1_000_000_000);
    assert!(p.processed_at.secs > 1_577_836_800);
    let _ = Timestamp { secs: 0, nanos: 0 };
}

#[test]
fn line_amount_is_price_times_quantity() {
    let item = OrderItem {
        product_id: "a".to_string(),
        product_name: "A".to_string(),
        price: 249900,
        quantity: 3,
    };
    assert_eq!(item.line_amount(), 749700);
    let big = OrderItem { price: u64::MAX, quantity: u32::MAX, ..item };
    assert_eq!(big.line_amount(), u64::MAX as u128 * u32::MAX as u128);
}

#[test]
fn tax_is_eight_percent() {
    assert_eq!(tax_for(50000), 4000);
    assert_eq!(tax_for(80000), 6400);
    assert_eq!(tax_for(249900), 19992);
    assert_eq!(tax_for(0), 0);
    assert_eq!(tax_for(trezza_pos::MAX_SUBTOTAL), 80_000_000_000_000_000);
}

#[test]
fn status_labels() {
    assert_eq!(OrderStatus::Pending.as_str(), "Pending");
    assert_eq!(OrderStatus::Paid.as_str(), "Paid");
    assert_eq!(OrderStatus::Refunded.as_str(), "Refunded");
    assert_eq!(OrderStatus::Cancelled.as_str(), "Cancelled");
}

#[test]
fn payment_method_labels_and_icons() {
    assert_eq!(PaymentMethod::Cash.as_str(), "Cash");
    assert_eq!(PaymentMethod::CreditCard.as_str(), "Credit Card");
    assert_eq!(PaymentMethod::DebitCard.as_str(), "Debit Card");
    assert_eq!(PaymentMethod::MobilePay.as_str(), "Mobile Pay");
    assert_eq!(PaymentMethod::Cash.icon(), "\u{1F4B5}");
    assert_eq!(PaymentMethod::CreditCard.icon(), "\u{1F4B3}");
    assert_eq!(PaymentMethod::DebitCard.icon(), "\u{1F4B3}");
    assert_eq!(PaymentMethod::MobilePay.icon(), "\u{1F4F1}");
}
