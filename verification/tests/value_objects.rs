use order_taking::decimal::Decimal;
use order_taking::domain::{
    BillingAmount, BillingAmountError, OrderId, OrderLineId, Price, PriceError, ProductCode,
    ProductCodeError, OrderQuantity, QuantityError, String50, String50Error,
};

fn dec(mantissa: i64, scale: u32) -> Decimal {
    Decimal::new(mantissa, scale).unwrap()
}

#[test]
fn string50_accepts_one_to_fifty_characters() {
    assert!(String50::new("a".to_string()).is_ok());
    let fifty = "x".repeat(50);
    let ok = String50::new(fifty.clone()).unwrap();
    assert_eq!(ok.value(), fifty.as_str());
    assert_eq!(String50::new(String::new()).unwrap_err(), String50Error::Empty);
    let fifty_one = "x".repeat(51);
    assert_eq!(String50::new(fifty_one).unwrap_err(), String50Error::TooLong);
}

#[test]
fn order_ids_share_the_string50_bounds() {
    assert!(OrderId::new("order-1".to_string()).is_ok());
    assert!(OrderId::new(String::new()).is_err());
    assert!(OrderId::new("y".repeat(51)).is_err());
    assert_eq!(OrderId::new("order-1".to_string()).unwrap().value(), "order-1");
    assert!(OrderLineId::new("line-1".to_string()).is_ok());
    assert!(OrderLineId::new(String::new()).is_err());
}

#[test]
fn product_code_prefix_decides_the_family() {
    match ProductCode::new("W123".to_string()).unwrap() {
        ProductCode::Widget(_) => {}
        ProductCode::Gizmo(_) => panic!("W code must be a widget"),
    }
    match ProductCode::new("G123".to_string()).unwrap() {
        ProductCode::Gizmo(_) => {}
        ProductCode::Widget(_) => panic!("G code must be a gizmo"),
    }
    assert_eq!(ProductCode::new("W123".to_string()).unwrap().value(), "W123");
}

#[test]
fn product_code_rejects_unknown_prefixes() {
    assert_eq!(
        ProductCode::new("X123".to_string()).unwrap_err(),
        ProductCodeError::UnrecognizedPrefix
    );
    assert!(ProductCode::new(String::new()).is_err());
    assert!(ProductCode::new("w123".to_string()).is_err());
}

#[test]
fn widget_quantity_must_be_a_whole_number() {
    let widget = ProductCode::new("W1".to_string()).unwrap();
    match OrderQuantity::create(&widget, dec(3, 0)).unwrap() {
        OrderQuantity::Unit(_) => {}
        OrderQuantity::Kilogram(_) => panic!("widget quantity must be units"),
    }
    assert_eq!(
        OrderQuantity::create(&widget, dec(35, 1)).unwrap_err(),
        QuantityError::NotAWholeNumber
    );
    assert_eq!(
        OrderQuantity::create(&widget, dec(3_000_000_000, 0)).unwrap_err(),
        QuantityError::OutOfRange
    );
    // A decimal with trailing fractional zeros still denotes a whole number.
    let q = OrderQuantity::create(&widget, dec(400, 2)).unwrap();
    assert!(q.value().same_value(&dec(4, 0)));
}

#[test]
fn gizmo_quantity_keeps_the_exact_decimal() {
    let gizmo = ProductCode::new("G1".to_string()).unwrap();
    let q = OrderQuantity::create(&gizmo, dec(779, 1)).unwrap();
    match q {
        OrderQuantity::Kilogram(_) => {}
        OrderQuantity::Unit(_) => panic!("gizmo quantity must be kilograms"),
    }
    assert!(q.value().same_value(&dec(779, 1)));
    // Fractional and negative weights are carried through unchanged.
    assert!(OrderQuantity::create(&gizmo, dec(-5, 0)).is_ok());
    assert!(OrderQuantity::create(&gizmo, dec(1, 9)).is_ok());
}

#[test]
fn price_bounds_are_enforced() {
    let p = Price::create(dec(250, 2)).unwrap();
    assert!(p.value().same_value(&dec(250, 2)));
    assert_eq!(Price::create(dec(-1, 0)).unwrap_err(), PriceError::Negative);
    assert!(Price::create(dec(1_000_000_000, 0)).is_ok());
    assert_eq!(
        Price::create(dec(1_000_000_001, 0)).unwrap_err(),
        PriceError::TooLarge
    );
}

#[test]
fn price_multiplication_is_exact() {
    let unit_price = Price::create(dec(250, 2)).unwrap();
    let line_price = unit_price.multiply(dec(3, 0)).unwrap();
    assert!(line_price.value().same_value(&dec(750, 2)));

    let half = dec(5, 1);
    let tiny = Price::create(dec(1, 9)).unwrap();
    assert_eq!(tiny.multiply(half).unwrap_err(), PriceError::NotRepresentable);

    let negative = unit_price.multiply(dec(-2, 0)).unwrap_err();
    assert_eq!(negative, PriceError::Negative);

    let big = Price::create(dec(1_000_000_000, 0)).unwrap();
    assert_eq!(big.multiply(dec(2, 0)).unwrap_err(), PriceError::TooLarge);
}

#[test]
fn billing_amount_sums_prices_exactly() {
    let a = Price::create(dec(250, 2)).unwrap();
    let b = Price::create(dec(750, 2)).unwrap();
    let c = Price::create(dec(1, 9)).unwrap();
    let total = BillingAmount::sum_prices(&vec![a, b, c]).unwrap();
    assert!(total.value().same_value(&dec(10_000_000_001, 9)));
    // The sum does not depend on the order of the prices.
    let swapped = BillingAmount::sum_prices(&vec![c, b, a]).unwrap();
    assert!(swapped.value().same_value(&total.value()));
    let empty = BillingAmount::sum_prices(&Vec::new()).unwrap();
    assert!(empty.value().same_value(&dec(0, 0)));
}

#[test]
fn billing_amount_bounds_are_enforced() {
    assert!(BillingAmount::create(dec(0, 0)).is_ok());
    assert_eq!(
        BillingAmount::create(dec(-1, 2)).unwrap_err(),
        BillingAmountError::Negative
    );
    assert_eq!(
        BillingAmount::create(dec(1_000_000_001, 0)).unwrap_err(),
        BillingAmountError::TooLarge
    );
    let max = Price::create(dec(1_000_000_000, 0)).unwrap();
    let over = BillingAmount::sum_prices(&vec![max, max]).unwrap_err();
    assert_eq!(over, BillingAmountError::TooLarge);
}

#[test]
fn decimals_compare_by_value_not_representation() {
    assert!(dec(75, 1).same_value(&dec(750, 2)));
    assert!(!dec(75, 1).same_value(&dec(751, 2)));
    assert!(Decimal::new(1, 10).is_none());
    assert_eq!(dec(30, 1).as_integer(), Some(3));
    assert_eq!(dec(35, 1).as_integer(), None);
    assert_eq!(dec(-30, 1).as_integer(), Some(-3));
    assert_eq!(dec(-35, 1).as_integer(), None);
    assert!(Decimal::from_int(7).same_value(&dec(7, 0)));
}
