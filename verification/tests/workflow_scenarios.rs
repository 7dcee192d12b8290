use order_taking::decimal::Decimal;
use order_taking::domain::Price;
use order_taking::stubs::FixedPorts;
use order_taking::workflow::{
    place_order, AddressField, AddressSlot, FieldName, LineField, PlaceOrderEror, PlaceOrderEvent,
    PricingError, UnValidatedOrderLine, UnvalidatedAddress, UnvalidatedCustomer, UnvalidatedOrder,
    ValidationErrorKind,
};

fn dec(mantissa: i64, scale: u32) -> Decimal {
    Decimal::new(mantissa, scale).unwrap()
}

fn ports(price: Decimal) -> FixedPorts {
    FixedPorts {
        all_products_exist: true,
        unit_price: Price::create(price).unwrap(),
        price_known: true,
        addresses_exist: true,
        delivery_works: true,
    }
}

fn an_address() -> UnvalidatedAddress {
    UnvalidatedAddress {
        address_line1: "12 Elm Street".to_string(),
        address_line2: None,
        address_line3: None,
        address_line4: None,
        city: "Springfield".to_string(),
        zip_code: 12345,
    }
}

fn a_customer() -> UnvalidatedCustomer {
    UnvalidatedCustomer {
        first_name: "Hiroshi".to_string(),
        last_name: "Yamaki".to_string(),
        email: "hiroshi@example.com".to_string(),
    }
}

fn a_line(code: &str, quantity: Decimal) -> UnValidatedOrderLine {
    UnValidatedOrderLine {
        id: "line-1".to_string(),
        order_id: "order-1".to_string(),
        product_code: code.to_string(),
        order_quantity: quantity,
        price: 0,
    }
}

fn an_order(lines: Vec<UnValidatedOrderLine>) -> UnvalidatedOrder {
    UnvalidatedOrder {
        order_id: "order-1".to_string(),
        customer_info: a_customer(),
        shipping_address: an_address(),
        billing_address: an_address(),
        lines,
    }
}

#[test]
fn one_widget_line_is_priced_and_billed() {
    // One widget line, quantity 3, unit price 2.50: the line price is 7.50,
    // so the order is billable for 7.50 and all three events appear in order.
    let ctx = ports(dec(250, 2));
    let order = an_order(vec![a_line("W123", dec(3, 0))]);
    let events = place_order(&ctx, order).unwrap();
    assert_eq!(events.len(), 3);
    match &events[0] {
        PlaceOrderEvent::OrderPlaced(placed) => {
            assert_eq!(placed.id.value(), "order-1");
            assert_eq!(placed.lines.len(), 1);
            assert!(placed.lines[0].price.value().same_value(&dec(750, 2)));
            assert!(placed.amount_to_bill.value().same_value(&dec(750, 2)));
        }
        _ => panic!("the first event must be OrderPlaced"),
    }
    match &events[1] {
        PlaceOrderEvent::AcknowledgmentSent(ack) => {
            assert_eq!(ack.order_id.value(), "order-1");
            assert_eq!(ack.email_address.value(), "hiroshi@example.com");
        }
        _ => panic!("the second event must be AcknowledgmentSent"),
    }
    match &events[2] {
        PlaceOrderEvent::BillableOrderPlaced(billable) => {
            assert_eq!(billable.order_id.value(), "order-1");
            assert!(billable.amount_to_bill.value().same_value(&dec(750, 2)));
        }
        _ => panic!("the third event must be BillableOrderPlaced"),
    }
}

#[test]
fn no_acknowledgment_event_when_delivery_fails() {
    let mut ctx = ports(dec(250, 2));
    ctx.delivery_works = false;
    let order = an_order(vec![a_line("W123", dec(3, 0))]);
    let events = place_order(&ctx, order).unwrap();
    assert_eq!(events.len(), 2);
    assert!(matches!(events[0], PlaceOrderEvent::OrderPlaced(_)));
    assert!(matches!(events[1], PlaceOrderEvent::BillableOrderPlaced(_)));
}

#[test]
fn no_billing_event_when_the_total_is_zero() {
    let ctx = ports(dec(0, 0));
    let order = an_order(vec![a_line("W123", dec(3, 0))]);
    let events = place_order(&ctx, order).unwrap();
    assert_eq!(events.len(), 2);
    assert!(matches!(events[0], PlaceOrderEvent::OrderPlaced(_)));
    assert!(matches!(events[1], PlaceOrderEvent::AcknowledgmentSent(_)));
}

#[test]
fn gizmo_lines_are_priced_by_weight() {
    // 77.9 kg at 0.10 each weighs in at 7.79.
    let ctx = ports(dec(10, 2));
    let order = an_order(vec![a_line("G456", dec(779, 1))]);
    let events = place_order(&ctx, order).unwrap();
    match &events[0] {
        PlaceOrderEvent::OrderPlaced(placed) => {
            assert!(placed.amount_to_bill.value().same_value(&dec(779, 2)));
        }
        _ => panic!("the first event must be OrderPlaced"),
    }
}

#[test]
fn empty_order_id_names_the_order_id_field() {
    let ctx = ports(dec(250, 2));
    let mut order = an_order(vec![a_line("W123", dec(3, 0))]);
    order.order_id = String::new();
    match place_order(&ctx, order).unwrap_err() {
        PlaceOrderEror::ValidationError(errors) => {
            assert_eq!(errors.len(), 1);
            assert_eq!(errors[0].field_name, FieldName::OrderId);
            assert_eq!(errors[0].kind, ValidationErrorKind::Empty);
        }
        _ => panic!("an empty order id must fail validation"),
    }
}

#[test]
fn overlong_order_id_names_the_order_id_field() {
    let ctx = ports(dec(250, 2));
    let mut order = an_order(vec![a_line("W123", dec(3, 0))]);
    order.order_id = "z".repeat(51);
    match place_order(&ctx, order).unwrap_err() {
        PlaceOrderEror::ValidationError(errors) => {
            assert_eq!(errors.len(), 1);
            assert_eq!(errors[0].field_name, FieldName::OrderId);
            assert_eq!(errors[0].kind, ValidationErrorKind::TooLong);
        }
        _ => panic!("an overlong order id must fail validation"),
    }
}

#[test]
fn unknown_prefix_names_the_line_product_code() {
    let ctx = ports(dec(250, 2));
    let order = an_order(vec![a_line("X123", dec(3, 0))]);
    match place_order(&ctx, order).unwrap_err() {
        PlaceOrderEror::ValidationError(errors) => {
            assert_eq!(errors.len(), 1);
            assert_eq!(errors[0].field_name, FieldName::Line(0, LineField::ProductCode));
            assert_eq!(errors[0].kind, ValidationErrorKind::UnrecognizedPrefix);
        }
        _ => panic!("an unknown prefix must fail validation"),
    }
}

#[test]
fn absent_product_code_fails_validation() {
    let mut ctx = ports(dec(250, 2));
    ctx.all_products_exist = false;
    let order = an_order(vec![a_line("W123", dec(3, 0))]);
    match place_order(&ctx, order).unwrap_err() {
        PlaceOrderEror::ValidationError(errors) => {
            assert_eq!(errors.len(), 1);
            assert_eq!(errors[0].field_name, FieldName::Line(0, LineField::ProductCode));
            assert_eq!(errors[0].kind, ValidationErrorKind::UnknownProductCode);
        }
        _ => panic!("a code outside the catalog must fail validation"),
    }
}

#[test]
fn fractional_widget_quantity_fails_validation() {
    let ctx = ports(dec(250, 2));
    let order = an_order(vec![a_line("W123", dec(35, 1))]);
    match place_order(&ctx, order).unwrap_err() {
        PlaceOrderEror::ValidationError(errors) => {
            assert_eq!(errors.len(), 1);
            assert_eq!(errors[0].field_name, FieldName::Line(0, LineField::Quantity));
            assert_eq!(errors[0].kind, ValidationErrorKind::NotAWholeNumber);
        }
        _ => panic!("a fractional widget quantity must fail validation"),
    }
}

#[test]
fn an_order_without_lines_fails_validation() {
    let ctx = ports(dec(250, 2));
    let order = an_order(Vec::new());
    match place_order(&ctx, order).unwrap_err() {
        PlaceOrderEror::ValidationError(errors) => {
            assert_eq!(errors.len(), 1);
            assert_eq!(errors[0].field_name, FieldName::Lines);
            assert_eq!(errors[0].kind, ValidationErrorKind::Empty);
        }
        _ => panic!("an order without lines must fail validation"),
    }
}

#[test]
fn every_failing_field_is_reported_in_order() {
    let ctx = ports(dec(250, 2));
    let mut order = an_order(vec![a_line("X123", dec(3, 0)), a_line("W123", dec(35, 1))]);
    order.order_id = String::new();
    order.customer_info.first_name = String::new();
    order.shipping_address.city = String::new();
    match place_order(&ctx, order).unwrap_err() {
        PlaceOrderEror::ValidationError(errors) => {
            assert_eq!(errors.len(), 5);
            assert_eq!(errors[0].field_name, FieldName::OrderId);
            assert_eq!(errors[1].field_name, FieldName::FirstName);
            assert_eq!(
                errors[2].field_name,
                FieldName::Address(AddressSlot::Shipping, AddressField::City)
            );
            assert_eq!(errors[3].field_name, FieldName::Line(0, LineField::ProductCode));
            assert_eq!(errors[4].field_name, FieldName::Line(1, LineField::Quantity));
        }
        _ => panic!("every failing field must be reported"),
    }
}

#[test]
fn error_descriptions_spell_the_problem_out() {
    let ctx = ports(dec(250, 2));
    let mut order = an_order(vec![a_line("W123", dec(3, 0))]);
    order.order_id = String::new();
    match place_order(&ctx, order).unwrap_err() {
        PlaceOrderEror::ValidationError(errors) => {
            assert_eq!(errors[0].description(), "must not be empty");
        }
        _ => panic!("an empty order id must fail validation"),
    }
}

#[test]
fn unverifiable_addresses_fail_validation() {
    let mut ctx = ports(dec(250, 2));
    ctx.addresses_exist = false;
    let order = an_order(vec![a_line("W123", dec(3, 0))]);
    match place_order(&ctx, order).unwrap_err() {
        PlaceOrderEror::ValidationError(errors) => {
            assert_eq!(errors.len(), 2);
            assert_eq!(
                errors[0].field_name,
                FieldName::Address(AddressSlot::Shipping, AddressField::Whole)
            );
            assert_eq!(errors[0].kind, ValidationErrorKind::AddressUnverified);
            assert_eq!(
                errors[1].field_name,
                FieldName::Address(AddressSlot::Billing, AddressField::Whole)
            );
        }
        _ => panic!("a rejected address must fail validation"),
    }
}

#[test]
fn widget_quantity_out_of_range_fails_validation() {
    let ctx = ports(dec(250, 2));
    let order = an_order(vec![a_line("W123", dec(3_000_000_000, 0))]);
    match place_order(&ctx, order).unwrap_err() {
        PlaceOrderEror::ValidationError(errors) => {
            assert_eq!(errors.len(), 1);
            assert_eq!(errors[0].field_name, FieldName::Line(0, LineField::Quantity));
            assert_eq!(errors[0].kind, ValidationErrorKind::QuantityOutOfRange);
        }
        _ => panic!("an out-of-range widget quantity must fail validation"),
    }
}

#[test]
fn missing_price_fails_pricing_with_the_line_index() {
    let mut ctx = ports(dec(250, 2));
    ctx.price_known = false;
    let order = an_order(vec![a_line("W123", dec(3, 0))]);
    match place_order(&ctx, order).unwrap_err() {
        PlaceOrderEror::PricingError(e) => {
            assert_eq!(e, PricingError::UnknownProduct(0));
        }
        _ => panic!("a missing catalog price must fail pricing"),
    }
}

#[test]
fn oversized_totals_fail_pricing() {
    let ctx = ports(dec(1_000_000_000, 0));
    let order = an_order(vec![a_line("W123", dec(1, 0)), a_line("W123", dec(1, 0))]);
    match place_order(&ctx, order).unwrap_err() {
        PlaceOrderEror::PricingError(e) => {
            assert_eq!(e, PricingError::AmountOutOfBounds);
        }
        _ => panic!("a total above the billing bound must fail pricing"),
    }
}

#[test]
fn unpriceable_line_fails_pricing() {
    // 0.000000001 each for half a kilogram does not land on the money grid.
    let ctx = ports(dec(1, 9));
    let order = an_order(vec![a_line("G456", dec(5, 1))]);
    match place_order(&ctx, order).unwrap_err() {
        PlaceOrderEror::PricingError(_) => {}
        _ => panic!("an unrepresentable line price must fail pricing"),
    }
}
