//! The place-order workflow: an untrusted order is validated, priced,
//! acknowledged, and turned into an ordered sequence of domain events.
//!
//! Catalog lookups, address verification, letter rendering and notification
//! delivery are ports: traits the caller implements. Each port method's
//! contract ties its runtime result to a spec function of the port, so every
//! workflow contract can speak about the ports' answers.

use crate::decimal::{unit, Decimal};
use crate::domain::{
    gizmo_prefix, opt_view, sum_of, widget_prefix, Address, AddressView, BillingAmount,
    CustomerInfo,
    EmailAddress, OrderId, OrderLineId, OrderQuantity, PersonalName, Price, PriceError,
    ProductCode, QuantityError, String50, String50Error, ZipCode, MAX_BILLING_UNITS,
    MAX_PRICE_UNITS,
};
use vstd::prelude::*;

verus! {

// ---------------------------------------------------------------------------
// Input data
// ---------------------------------------------------------------------------
/// An untrusted order, exactly as received at the boundary.
pub struct UnvalidatedOrder {
    pub order_id: String,
    pub customer_info: UnvalidatedCustomer,
    pub shipping_address: UnvalidatedAddress,
    pub billing_address: UnvalidatedAddress,
    pub lines: Vec<UnValidatedOrderLine>,
}

/// Untrusted customer fields.
pub struct UnvalidatedCustomer {
    pub first_name: String,
    pub last_name: String,
    pub email: String,
}

/// The view of an optional raw text field.
pub open spec fn opt_str_view(o: Option<String>) -> Option<Seq<char>> {
    match o {
        Some(s) => Some(s@),
        None => None,
    }
}

/// Untrusted address fields.
pub struct UnvalidatedAddress {
    pub address_line1: String,
    pub address_line2: Option<String>,
    pub address_line3: Option<String>,
    pub address_line4: Option<String>,
    pub city: String,
    pub zip_code: u16,
}

impl View for UnvalidatedAddress {
    type V = AddressView;

    open spec fn view(&self) -> AddressView {
        AddressView {
            line1: self.address_line1@,
            line2: opt_str_view(self.address_line2),
            line3: opt_str_view(self.address_line3),
            line4: opt_str_view(self.address_line4),
            city: self.city@,
            zip: self.zip_code,
        }
    }
}

impl UnvalidatedAddress {
    /// An owned copy of the same raw address.
    pub fn duplicate(&self) -> (r: UnvalidatedAddress)
        ensures
            r == *self,
    {
        UnvalidatedAddress {
            address_line1: self.address_line1.clone(),
            address_line2: dup_opt_string(&self.address_line2),
            address_line3: dup_opt_string(&self.address_line3),
            address_line4: dup_opt_string(&self.address_line4),
            city: self.city.clone(),
            zip_code: self.zip_code,
        }
    }
}

/// An owned copy of an optional raw text field.
fn dup_opt_string(o: &Option<String>) -> (r: Option<String>)
    ensures
        r == *o,
{
    match o {
        Some(s) => Some(s.clone()),
        None => None,
    }
}

/// An untrusted order line. The unit price a caller may quote is carried
/// through but never trusted: prices come from the catalog.
pub struct UnValidatedOrderLine {
    pub id: String,
    pub order_id: String,
    pub product_code: String,
    pub order_quantity: Decimal,
    pub price: i32,
}

// ---------------------------------------------------------------------------
// Input command
// ---------------------------------------------------------------------------
/// A command envelope around the data it carries.
pub struct Command<Data> {
    pub data: Data,
    pub timestamp: (),
    pub user_id: (),
}

/// The place-order command.
pub type PlaceOrderCommand = Command<UnvalidatedOrder>;

/// The commands the ordering subsystem accepts; only placing an order is
/// implemented.
pub enum OrderTakingCommand {
    Place(PlaceOrderCommand),
    Change(),
    Cancel(),
}

// ---------------------------------------------------------------------------
// Order life cycle
// ---------------------------------------------------------------------------
/// An order line whose fields have all passed validation.
#[derive(Debug)]
pub struct ValidatedOrderLine {
    pub id: OrderLineId,
    pub product_code: ProductCode,
    pub order_quantity: OrderQuantity,
}

/// An order whose fields have all passed validation.
#[derive(Debug)]
pub struct ValidatedOrder {
    pub id: OrderId,
    pub customer_info: CustomerInfo,
    pub shipping_address: Address,
    pub billing_address: Address,
    pub lines: Vec<ValidatedOrderLine>,
}

/// A validated line together with its computed price.
#[derive(Debug)]
pub struct PricedOrderLine {
    pub id: OrderLineId,
    pub product_code: ProductCode,
    pub order_quantity: OrderQuantity,
    pub price: Price,
}

/// A validated order together with its line prices and billable total.
#[derive(Debug)]
pub struct PricedOrder {
    pub id: OrderId,
    pub customer_info: CustomerInfo,
    pub shipping_address: Address,
    pub billing_address: Address,
    pub lines: Vec<PricedOrderLine>,
    pub amount_to_bill: BillingAmount,
}

/// A placed order is a priced order.
pub type PlacedOrder = PricedOrder;

/// The stages of an order's life.
pub enum Order {
    Unvalidated(UnvalidatedOrder),
    Validated(ValidatedOrder),
    Priced(PricedOrder),
}

// ---------------------------------------------------------------------------
// Events
// ---------------------------------------------------------------------------
/// Billing data, emitted for an order whose total is positive.
#[derive(Debug)]
pub struct BillableOrderPlaced {
    pub order_id: OrderId,
    pub billing_address: Address,
    pub amount_to_bill: BillingAmount,
}

/// Notice that the acknowledgment letter was delivered.
#[derive(Debug)]
pub struct OrderAcknowledgmentSent {
    pub order_id: OrderId,
    pub email_address: EmailAddress,
}

/// The events a placed order produces.
#[derive(Debug)]
pub enum PlaceOrderEvent {
    OrderPlaced(PlacedOrder),
    BillableOrderPlaced(BillableOrderPlaced),
    AcknowledgmentSent(OrderAcknowledgmentSent),
}

// ---------------------------------------------------------------------------
// Errors
// ---------------------------------------------------------------------------
/// Which of the two order addresses an error concerns.
#[derive(Clone, Copy, Debug, PartialEq, Eq, Structural)]
pub enum AddressSlot {
    Shipping,
    Billing,
}

/// The address field an error concerns; `Whole` when the verifier rejected
/// the address outright.
#[derive(Clone, Copy, Debug, PartialEq, Eq, Structural)]
pub enum AddressField {
    Whole,
    Line1,
    Line2,
    Line3,
    Line4,
    City,
}

/// The order-line field an error concerns.
#[derive(Clone, Copy, Debug, PartialEq, Eq, Structural)]
pub enum LineField {
    LineId,
    ProductCode,
    Quantity,
}

/// The field a validation error names.
#[derive(Clone, Copy, Debug, PartialEq, Eq, Structural)]
pub enum FieldName {
    OrderId,
    FirstName,
    LastName,
    Address(AddressSlot, AddressField),
    Lines,
    Line(usize, LineField),
}

/// What was wrong with a field.
#[derive(Clone, Copy, Debug, PartialEq, Eq, Structural)]
pub enum ValidationErrorKind {
    Empty,
    TooLong,
    UnrecognizedPrefix,
    UnknownProductCode,
    NotAWholeNumber,
    QuantityOutOfRange,
    AddressUnverified,
}

/// One rejected field: which field, and why.
#[derive(Clone, Copy, Debug, PartialEq, Eq, Structural)]
pub struct ValidationError {
    pub field_name: FieldName,
    pub kind: ValidationErrorKind,
}

/// The description text of each error kind.
pub open spec fn kind_description(k: ValidationErrorKind) -> Seq<char> {
    match k {
        ValidationErrorKind::Empty => "must not be empty"@,
        ValidationErrorKind::TooLong => "must not be longer than 50 characters"@,
        ValidationErrorKind::UnrecognizedPrefix => "product code must begin with W or G"@,
        ValidationErrorKind::UnknownProductCode => "product code is not in the catalog"@,
        ValidationErrorKind::NotAWholeNumber => "widget quantity must be a whole number"@,
        ValidationErrorKind::QuantityOutOfRange => "widget quantity is out of range"@,
        ValidationErrorKind::AddressUnverified => "address could not be verified"@,
    }
}

impl ValidationError {
    /// A human-readable description of what was wrong.
    pub fn description(&self) -> (r: &'static str)
        ensures
            r@ == kind_description(self.kind),
    {
        match self.kind {
            ValidationErrorKind::Empty => "must not be empty",
            ValidationErrorKind::TooLong => "must not be longer than 50 characters",
            ValidationErrorKind::UnrecognizedPrefix => "product code must begin with W or G",
            ValidationErrorKind::UnknownProductCode => "product code is not in the catalog",
            ValidationErrorKind::NotAWholeNumber => "widget quantity must be a whole number",
            ValidationErrorKind::QuantityOutOfRange => "widget quantity is out of range",
            ValidationErrorKind::AddressUnverified => "address could not be verified",
        }
    }
}

/// Why pricing failed.
#[derive(Clone, Copy, Debug, PartialEq, Eq, Structural)]
pub enum PricingError {
    /// The catalog has no price for the product code of the line at this
    /// index.
    UnknownProduct(usize),
    /// The price of the line at this index could not be built, and why.
    LinePrice(usize, PriceError),
    /// The order total exceeds the billing bound.
    AmountOutOfBounds,
}

/// Why an order could not be placed.
#[derive(Debug)]
pub enum PlaceOrderEror {
    ValidationError(Vec<ValidationError>),
    PricingError(PricingError),
}

// ---------------------------------------------------------------------------
// Ports
// ---------------------------------------------------------------------------
/// Knows which product codes exist in the catalog.
pub trait CheckProductCodeExists {
    /// Which raw codes the catalog holds.
    spec fn exists_spec(&self, code: Seq<char>) -> bool;

    /// Whether the catalog holds this code.
    fn exists_product_code(&self, product_code: &ProductCode) -> (r: bool)
        ensures
            r == self.exists_spec(product_code@),
    ;
}

/// An address the verifier accepted, possibly normalized.
pub type CheckedAddress = UnvalidatedAddress;

/// The reason an address failed verification.
#[derive(Debug)]
pub struct AddressValidationError {
    pub reason: String,
}

/// Verifies (and possibly normalizes) addresses.
pub trait CheckAddressExists {
    /// How the verifier maps each address: the normalized form it returns,
    /// or nothing when it rejects the address.
    spec fn check_spec(&self, address: AddressView) -> Option<AddressView>;

    /// Verify one address.
    fn check_address_exists(&self, unvalidated_address: &UnvalidatedAddress) -> (r: Result<
        CheckedAddress,
        AddressValidationError,
    >)
        ensures
            match self.check_spec(unvalidated_address@) {
                Some(v) => r matches Ok(c) && c@ == v,
                None => r is Err,
            },
    ;
}

/// Looks catalog prices up.
pub trait GetProductPrice {
    /// The unit price (in `10^(-MAX_SCALE)` grid units) the catalog gives
    /// each raw code, if any.
    spec fn price_spec(&self, code: Seq<char>) -> Option<int>;

    /// The unit price for this code; `None` when the catalog has none.
    fn get_product_price(&self, product_code: &ProductCode) -> (r: Option<Price>)
        ensures
            match self.price_spec(product_code@) {
                Some(u) => r matches Some(p) && p@ == u,
                None => r is None,
            },
    ;
}

/// A rendered acknowledgment letter.
pub struct HtmlString(pub String);

/// Renders acknowledgment letters; rendering is total and cannot fail.
pub trait CreateOrderAcknowledgmentLetter {
    /// Render the letter for a priced order.
    fn create_order_acknowledgment_letter(&self, order: &PricedOrder) -> HtmlString;
}

/// An acknowledgment ready to send.
pub struct OrderAcknowledgment {
    pub email_address: EmailAddress,
    pub letter: HtmlString,
}

/// The outcome of sending an acknowledgment.
#[derive(Clone, Copy, Debug, PartialEq, Eq, Structural)]
pub enum SendResult {
    Sent,
    NotSent,
}

/// Delivers acknowledgments; non-delivery is an outcome, not an error.
pub trait SendOrderAcknowledgment {
    /// Which recipient addresses the notifier reaches.
    spec fn sends_spec(&self, email: Seq<char>) -> bool;

    /// Send one acknowledgment.
    fn send_order_acknowledgment(&self, acknowledgment: &OrderAcknowledgment) -> (r: SendResult)
        ensures
            r == (if self.sends_spec(acknowledgment.email_address@) {
                SendResult::Sent
            } else {
                SendResult::NotSent
            }),
    ;
}

// ---------------------------------------------------------------------------
// Acknowledgment stage
// ---------------------------------------------------------------------------
/// The acknowledgment event a priced order produces: present exactly when
/// the notifier reaches the customer's address.
pub open spec fn acknowledgment_of<T: SendOrderAcknowledgment>(ctx: &T, order: PricedOrder) -> Option<
    OrderAcknowledgmentSent,
> {
    if ctx.sends_spec(order.customer_info.email_address@) {
        Some(
            OrderAcknowledgmentSent {
                order_id: order.id,
                email_address: order.customer_info.email_address,
            },
        )
    } else {
        None
    }
}

/// Render and send the acknowledgment letter. Delivery failure is a value,
/// never a workflow error: the result is `Some` exactly when the notifier
/// reaches the customer's address.
pub fn acknowledgment_order<T: CreateOrderAcknowledgmentLetter + SendOrderAcknowledgment>(
    ctx: &T,
    order: &PricedOrder,
) -> (r: Option<OrderAcknowledgmentSent>)
    ensures
        r == acknowledgment_of(ctx, *order),
{
    let letter = ctx.create_order_acknowledgment_letter(order);
    let acknowledgment = OrderAcknowledgment {
        email_address: order.customer_info.email_address.duplicate(),
        letter,
    };
    match ctx.send_order_acknowledgment(&acknowledgment) {
        SendResult::Sent => Some(
            OrderAcknowledgmentSent {
                order_id: order.id.duplicate(),
                email_address: acknowledgment.email_address,
            },
        ),
        SendResult::NotSent => None,
    }
}

// ---------------------------------------------------------------------------
// Event assembly
// ---------------------------------------------------------------------------
/// The billing event of a priced order, when its total is positive.
pub open spec fn billing_event_of(order: PricedOrder) -> BillableOrderPlaced {
    BillableOrderPlaced {
        order_id: order.id,
        billing_address: order.billing_address,
        amount_to_bill: order.amount_to_bill,
    }
}

/// The exact event sequence of a placed order: the placement event, then the
/// acknowledgment event if one was sent, then the billing event if the total
/// is positive.
pub open spec fn event_sequence(order: PricedOrder, ack: Option<OrderAcknowledgmentSent>) -> Seq<
    PlaceOrderEvent,
> {
    seq![PlaceOrderEvent::OrderPlaced(order)] + (match ack {
        Some(a) => seq![PlaceOrderEvent::AcknowledgmentSent(a)],
        None => seq![],
    }) + (if order.amount_to_bill@ > 0 {
        seq![PlaceOrderEvent::BillableOrderPlaced(billing_event_of(order))]
    } else {
        seq![]
    })
}

/// How many events of a sequence satisfy `pred`.
pub open spec fn count_matching(
    events: Seq<PlaceOrderEvent>,
    pred: spec_fn(PlaceOrderEvent) -> bool,
) -> int
    decreases events.len(),
{
    if events.len() == 0 {
        0
    } else {
        count_matching(events.drop_last(), pred) + (if pred(events.last()) {
            1int
        } else {
            0int
        })
    }
}

/// The emission rules of the event sequence. The placement event is always
/// present, exactly once, and first. The acknowledgment event is present
/// exactly when an acknowledgment was sent, exactly once, right after the
/// placement event. The billing event is present exactly when the billable
/// total is positive, exactly once, and last.
pub proof fn lemma_event_emission_rules(order: PricedOrder, ack: Option<OrderAcknowledgmentSent>)
    ensures
        count_matching(
            event_sequence(order, ack),
            |e: PlaceOrderEvent| e is OrderPlaced,
        ) == 1,
        event_sequence(order, ack)[0] == PlaceOrderEvent::OrderPlaced(order),
        count_matching(event_sequence(order, ack), |e: PlaceOrderEvent| e is AcknowledgmentSent)
            == (if ack is Some {
            1int
        } else {
            0int
        }),
        ack matches Some(a) ==> event_sequence(order, ack)[1]
            == PlaceOrderEvent::AcknowledgmentSent(a),
        count_matching(event_sequence(order, ack), |e: PlaceOrderEvent| e is BillableOrderPlaced)
            == (if order.amount_to_bill@ > 0 {
            1int
        } else {
            0int
        }),
        order.amount_to_bill@ > 0 ==> event_sequence(order, ack).last()
            == PlaceOrderEvent::BillableOrderPlaced(billing_event_of(order)),
{
    reveal_with_fuel(count_matching, 5);
    let es = event_sequence(order, ack);
    if order.amount_to_bill@ > 0 {
        match ack {
            Some(a) => {
                assert(es =~= seq![
                    PlaceOrderEvent::OrderPlaced(order),
                    PlaceOrderEvent::AcknowledgmentSent(a),
                    PlaceOrderEvent::BillableOrderPlaced(billing_event_of(order)),
                ]);
                assert(es.drop_last().drop_last() =~= seq![PlaceOrderEvent::OrderPlaced(order)]);
                assert(es.drop_last().drop_last().drop_last() =~= Seq::<PlaceOrderEvent>::empty());
            },
            None => {
                assert(es =~= seq![
                    PlaceOrderEvent::OrderPlaced(order),
                    PlaceOrderEvent::BillableOrderPlaced(billing_event_of(order)),
                ]);
                assert(es.drop_last().drop_last() =~= Seq::<PlaceOrderEvent>::empty());
            },
        }
    } else {
        match ack {
            Some(a) => {
                assert(es =~= seq![
                    PlaceOrderEvent::OrderPlaced(order),
                    PlaceOrderEvent::AcknowledgmentSent(a),
                ]);
                assert(es.drop_last().drop_last() =~= Seq::<PlaceOrderEvent>::empty());
            },
            None => {
                assert(es =~= seq![PlaceOrderEvent::OrderPlaced(order)]);
                assert(es.drop_last() =~= Seq::<PlaceOrderEvent>::empty());
            },
        }
    }
}

// ---------------------------------------------------------------------------
// Validation stage
// ---------------------------------------------------------------------------
/// The error, if any, in one required bounded text field.
pub open spec fn str50_error(s: Seq<char>) -> Option<ValidationErrorKind> {
    if s.len() == 0 {
        Some(ValidationErrorKind::Empty)
    } else if s.len() > 50 {
        Some(ValidationErrorKind::TooLong)
    } else {
        None
    }
}

/// The error, if any, in one optional bounded text field.
pub open spec fn opt_str50_error(s: Option<Seq<char>>) -> Option<ValidationErrorKind> {
    match s {
        Some(t) => str50_error(t),
        None => None,
    }
}

/// The errors of one field: none, or the one given.
pub open spec fn field_errors(field: FieldName, kind: Option<ValidationErrorKind>) -> Seq<
    ValidationError,
> {
    match kind {
        Some(k) => seq![ValidationError { field_name: field, kind: k }],
        None => seq![],
    }
}

/// The validation errors of the customer fields, in field order.
pub open spec fn customer_errors(customer: UnvalidatedCustomer) -> Seq<ValidationError> {
    field_errors(FieldName::FirstName, str50_error(customer.first_name@)) + field_errors(
        FieldName::LastName,
        str50_error(customer.last_name@),
    )
}

/// The field errors of an address the verifier accepted, in field order.
pub open spec fn checked_address_field_errors(slot: AddressSlot, c: AddressView) -> Seq<
    ValidationError,
> {
    field_errors(FieldName::Address(slot, AddressField::Line1), str50_error(c.line1))
        + field_errors(FieldName::Address(slot, AddressField::Line2), opt_str50_error(c.line2))
        + field_errors(FieldName::Address(slot, AddressField::Line3), opt_str50_error(c.line3))
        + field_errors(FieldName::Address(slot, AddressField::Line4), opt_str50_error(c.line4))
        + field_errors(FieldName::Address(slot, AddressField::City), str50_error(c.city))
}

/// The validation errors of one address: one error when the verifier rejects
/// it, else the errors of the normalized fields, in field order.
pub open spec fn address_errors<T: CheckAddressExists>(
    ctx: &T,
    slot: AddressSlot,
    a: AddressView,
) -> Seq<ValidationError> {
    match ctx.check_spec(a) {
        None => seq![
            ValidationError {
                field_name: FieldName::Address(slot, AddressField::Whole),
                kind: ValidationErrorKind::AddressUnverified,
            },
        ],
        Some(c) => checked_address_field_errors(slot, c),
    }
}

/// The quantity error of one raw line, if any: a widget quantity must denote
/// a whole number of units in `i32` range; a gizmo quantity is always
/// acceptable.
pub open spec fn quantity_errors(line: UnValidatedOrderLine, i: usize) -> Seq<ValidationError> {
    if widget_prefix(line.product_code@) {
        if line.order_quantity@ % unit() != 0 {
            seq![
                ValidationError {
                    field_name: FieldName::Line(i, LineField::Quantity),
                    kind: ValidationErrorKind::NotAWholeNumber,
                },
            ]
        } else if !(i32::MIN * unit() <= line.order_quantity@ <= i32::MAX * unit()) {
            seq![
                ValidationError {
                    field_name: FieldName::Line(i, LineField::Quantity),
                    kind: ValidationErrorKind::QuantityOutOfRange,
                },
            ]
        } else {
            seq![]
        }
    } else {
        seq![]
    }
}

/// The product-code and quantity errors of one raw line: an unrecognized
/// prefix ends the line's checks; otherwise the code must be in the catalog
/// and the quantity must fit the code's family.
pub open spec fn code_and_quantity_errors<T: CheckProductCodeExists>(
    ctx: &T,
    line: UnValidatedOrderLine,
    i: usize,
) -> Seq<ValidationError> {
    if !(widget_prefix(line.product_code@) || gizmo_prefix(line.product_code@)) {
        seq![
            ValidationError {
                field_name: FieldName::Line(i, LineField::ProductCode),
                kind: ValidationErrorKind::UnrecognizedPrefix,
            },
        ]
    } else {
        (if !ctx.exists_spec(line.product_code@) {
            seq![
                ValidationError {
                    field_name: FieldName::Line(i, LineField::ProductCode),
                    kind: ValidationErrorKind::UnknownProductCode,
                },
            ]
        } else {
            seq![]
        }) + quantity_errors(line, i)
    }
}

/// The validation errors of one raw line (at index `i`), in field order.
pub open spec fn line_errors<T: CheckProductCodeExists>(
    ctx: &T,
    line: UnValidatedOrderLine,
    i: usize,
) -> Seq<ValidationError> {
    field_errors(FieldName::Line(i, LineField::LineId), str50_error(line.id@))
        + code_and_quantity_errors(ctx, line, i)
}

/// The validation errors of the lines before index `n`, in order.
pub open spec fn lines_errors_prefix<T: CheckProductCodeExists>(
    ctx: &T,
    lines: Seq<UnValidatedOrderLine>,
    n: int,
) -> Seq<ValidationError>
    decreases n,
{
    if n <= 0 {
        seq![]
    } else {
        lines_errors_prefix(ctx, lines, n - 1) + line_errors(ctx, lines[n - 1], (n - 1) as usize)
    }
}

/// The error raised when an order has no lines at all.
pub open spec fn lines_presence_errors(lines: Seq<UnValidatedOrderLine>) -> Seq<ValidationError> {
    if lines.len() == 0 {
        seq![
            ValidationError { field_name: FieldName::Lines, kind: ValidationErrorKind::Empty },
        ]
    } else {
        seq![]
    }
}

/// Every validation error of an unvalidated order, in field order: order id,
/// customer, shipping address, billing address, line presence, then each
/// line.
pub open spec fn validation_errors<T: CheckProductCodeExists + CheckAddressExists>(
    ctx: &T,
    order: UnvalidatedOrder,
) -> Seq<ValidationError> {
    field_errors(FieldName::OrderId, str50_error(order.order_id@)) + customer_errors(
        order.customer_info,
    ) + address_errors(ctx, AddressSlot::Shipping, order.shipping_address@) + address_errors(
        ctx,
        AddressSlot::Billing,
        order.billing_address@,
    ) + lines_presence_errors(order.lines@) + lines_errors_prefix(
        ctx,
        order.lines@,
        order.lines@.len() as int,
    )
}

/// How a validated line relates to the raw line it came from.
pub open spec fn validated_line_ok<T: CheckProductCodeExists>(
    ctx: &T,
    raw: UnValidatedOrderLine,
    v: ValidatedOrderLine,
) -> bool {
    &&& v.id@ == raw.id@
    &&& v.product_code@ == raw.product_code@
    &&& (v.product_code is Widget <==> widget_prefix(raw.product_code@))
    &&& (v.product_code is Gizmo <==> gizmo_prefix(raw.product_code@))
    &&& ctx.exists_spec(raw.product_code@)
    &&& v.order_quantity@ == raw.order_quantity@
    &&& (v.order_quantity is Unit <==> widget_prefix(raw.product_code@))
    &&& (v.order_quantity is Kilogram <==> gizmo_prefix(raw.product_code@))
}

/// How a validated address relates to the raw one: the verifier accepted it
/// and the value holds the verifier's normalized fields.
pub open spec fn validated_address_ok<T: CheckAddressExists>(
    ctx: &T,
    raw: AddressView,
    v: Address,
) -> bool {
    ctx.check_spec(raw) matches Some(c) && v@ == c
}

/// How a validated order relates to the raw order it came from.
pub open spec fn validated_order_ok<T: CheckProductCodeExists + CheckAddressExists>(
    ctx: &T,
    raw: UnvalidatedOrder,
    v: ValidatedOrder,
) -> bool {
    &&& v.id@ == raw.order_id@
    &&& v.customer_info.name.first_name@ == raw.customer_info.first_name@
    &&& v.customer_info.name.last_name@ == raw.customer_info.last_name@
    &&& v.customer_info.email_address@ == raw.customer_info.email@
    &&& validated_address_ok(ctx, raw.shipping_address@, v.shipping_address)
    &&& validated_address_ok(ctx, raw.billing_address@, v.billing_address)
    &&& v.lines@.len() == raw.lines@.len()
    &&& v.lines@.len() > 0
    &&& forall|i: int|
        0 <= i < raw.lines@.len() ==> validated_line_ok(ctx, raw.lines@[i], #[trigger] v.lines@[i])
}

/// The error kind of a rejected bounded string.
fn str50_kind(e: String50Error) -> (r: ValidationErrorKind)
    ensures
        r == (match e {
            String50Error::Empty => ValidationErrorKind::Empty,
            String50Error::TooLong => ValidationErrorKind::TooLong,
        }),
{
    match e {
        String50Error::Empty => ValidationErrorKind::Empty,
        String50Error::TooLong => ValidationErrorKind::TooLong,
    }
}

/// The error kind of a rejected quantity.
fn quantity_kind(e: QuantityError) -> (r: ValidationErrorKind)
    ensures
        r == (match e {
            QuantityError::NotAWholeNumber => ValidationErrorKind::NotAWholeNumber,
            QuantityError::OutOfRange => ValidationErrorKind::QuantityOutOfRange,
        }),
{
    match e {
        QuantityError::NotAWholeNumber => ValidationErrorKind::NotAWholeNumber,
        QuantityError::OutOfRange => ValidationErrorKind::QuantityOutOfRange,
    }
}

/// Validate the customer fields; on failure, every failing field's error, in
/// field order.
fn to_customer_info(customer: UnvalidatedCustomer) -> (r: Result<CustomerInfo, Vec<ValidationError>>)
    ensures
        r is Ok <==> customer_errors(customer).len() == 0,
        r matches Err(e) ==> e@ == customer_errors(customer),
        r matches Ok(c) ==> {
            &&& c.name.first_name@ == customer.first_name@
            &&& c.name.last_name@ == customer.last_name@
            &&& c.email_address@ == customer.email@
        },
{
    let UnvalidatedCustomer { first_name, last_name, email } = customer;
    let mut errors: Vec<ValidationError> = Vec::new();
    let first = match String50::new(first_name) {
        Ok(s) => Some(s),
        Err(e) => {
            errors.push(
                ValidationError { field_name: FieldName::FirstName, kind: str50_kind(e) },
            );
            None
        },
    };
    let last = match String50::new(last_name) {
        Ok(s) => Some(s),
        Err(e) => {
            errors.push(ValidationError { field_name: FieldName::LastName, kind: str50_kind(e) });
            None
        },
    };
    proof {
        assert(errors@ =~= customer_errors(customer));
    }
    match (first, last) {
        (Some(f), Some(l)) => Ok(CustomerInfo::new(PersonalName::new(f, l), EmailAddress::new(email))),
        _ => Err(errors),
    }
}

/// Verify one address through the port and validate its normalized fields;
/// on failure, every failing field's error, in field order.
fn to_address<T: CheckAddressExists>(
    ctx: &T,
    slot: AddressSlot,
    unvalidated_address: UnvalidatedAddress,
) -> (r: Result<Address, Vec<ValidationError>>)
    ensures
        r is Ok <==> address_errors(ctx, slot, unvalidated_address@).len() == 0,
        r matches Err(e) ==> e@ == address_errors(ctx, slot, unvalidated_address@),
        r matches Ok(a) ==> validated_address_ok(ctx, unvalidated_address@, a),
{
    let checked = match ctx.check_address_exists(&unvalidated_address) {
        Ok(c) => c,
        Err(_) => {
            let mut errors: Vec<ValidationError> = Vec::new();
            errors.push(
                ValidationError {
                    field_name: FieldName::Address(slot, AddressField::Whole),
                    kind: ValidationErrorKind::AddressUnverified,
                },
            );
            proof {
                assert(errors@ =~= address_errors(ctx, slot, unvalidated_address@));
            }
            return Err(errors);
        },
    };
    to_checked_address_fields(slot, checked)
}

/// The length error, if any, of one required text field.
fn text_error(s: &str) -> (r: Option<ValidationErrorKind>)
    ensures
        r == str50_error(s@),
{
    let n = s.unicode_len();
    if n == 0 {
        Some(ValidationErrorKind::Empty)
    } else if n > 50 {
        Some(ValidationErrorKind::TooLong)
    } else {
        None
    }
}

/// The length error, if any, of one optional text field.
fn opt_text_error(o: &Option<String>) -> (r: Option<ValidationErrorKind>)
    ensures
        r == opt_str50_error(opt_str_view(*o)),
{
    match o {
        None => None,
        Some(s) => text_error(s.as_str()),
    }
}

/// Record one field's error, if it has one.
fn push_field_error(
    errors: &mut Vec<ValidationError>,
    field: FieldName,
    kind: Option<ValidationErrorKind>,
)
    ensures
        final (errors)@ == old(errors)@ + field_errors(field, kind),
{
    match kind {
        Some(k) => errors.push(ValidationError { field_name: field, kind: k }),
        None => (),
    }
    proof {
        assert(errors@ =~= old(errors)@ + field_errors(field, kind));
    }
}

/// An optional text field as an optional bounded string, for text already
/// known to be in bounds.
fn opt_string50_checked(o: Option<String>) -> (r: Option<String50>)
    requires
        opt_str50_error(opt_str_view(o)) is None,
    ensures
        opt_view(r) == opt_str_view(o),
{
    match o {
        None => None,
        Some(s) => Some(String50::from_checked(s)),
    }
}

/// Validate the fields of an address the verifier accepted; on failure,
/// every failing field's error, in field order.
fn to_checked_address_fields(slot: AddressSlot, checked: CheckedAddress) -> (r: Result<
    Address,
    Vec<ValidationError>,
>)
    ensures
        r is Ok <==> checked_address_field_errors(slot, checked@).len() == 0,
        r matches Err(e) ==> e@ == checked_address_field_errors(slot, checked@),
        r matches Ok(a) ==> a@ == checked@,
{
    let ghost cv = checked@;
    let mut errors: Vec<ValidationError> = Vec::new();
    let k1 = text_error(checked.address_line1.as_str());
    push_field_error(&mut errors, FieldName::Address(slot, AddressField::Line1), k1);
    let k2 = opt_text_error(&checked.address_line2);
    push_field_error(&mut errors, FieldName::Address(slot, AddressField::Line2), k2);
    let k3 = opt_text_error(&checked.address_line3);
    push_field_error(&mut errors, FieldName::Address(slot, AddressField::Line3), k3);
    let k4 = opt_text_error(&checked.address_line4);
    push_field_error(&mut errors, FieldName::Address(slot, AddressField::Line4), k4);
    let k5 = text_error(checked.city.as_str());
    push_field_error(&mut errors, FieldName::Address(slot, AddressField::City), k5);
    proof {
        assert(errors@ =~= checked_address_field_errors(slot, cv));
    }
    if errors.len() > 0 {
        return Err(errors);
    }
    let UnvalidatedAddress { address_line1, address_line2, address_line3, address_line4, city, zip_code } =
        checked;
    let a = Address::new(
        String50::from_checked(address_line1),
        opt_string50_checked(address_line2),
        opt_string50_checked(address_line3),
        opt_string50_checked(address_line4),
        String50::from_checked(city),
        ZipCode(zip_code),
    );
    proof {
        assert(a@ == cv);
    }
    Ok(a)
}

/// Validate one raw order line (at index `index`); on failure, every failing
/// field's error, in field order.
fn to_validate_order_line<T: CheckProductCodeExists>(
    ctx: &T,
    unvalidated_order_line: UnValidatedOrderLine,
    index: usize,
) -> (r: Result<ValidatedOrderLine, Vec<ValidationError>>)
    ensures
        r is Ok <==> line_errors(ctx, unvalidated_order_line, index).len() == 0,
        r matches Err(e) ==> e@ == line_errors(ctx, unvalidated_order_line, index),
        r matches Ok(v) ==> validated_line_ok(ctx, unvalidated_order_line, v),
{
    let UnValidatedOrderLine { id, order_id: _, product_code, order_quantity, price: _ } =
        unvalidated_order_line;
    let mut errors: Vec<ValidationError> = Vec::new();
    let line_id = match OrderLineId::new(id) {
        Ok(v) => Some(v),
        Err(e) => {
            errors.push(
                ValidationError {
                    field_name: FieldName::Line(index, LineField::LineId),
                    kind: str50_kind(e),
                },
            );
            None
        },
    };
    match ProductCode::new(product_code) {
        Err(_) => {
            errors.push(
                ValidationError {
                    field_name: FieldName::Line(index, LineField::ProductCode),
                    kind: ValidationErrorKind::UnrecognizedPrefix,
                },
            );
            proof {
                assert(errors@ =~= line_errors(ctx, unvalidated_order_line, index));
            }
            Err(errors)
        },
        Ok(code) => {
            let exists = ctx.exists_product_code(&code);
            if !exists {
                errors.push(
                    ValidationError {
                        field_name: FieldName::Line(index, LineField::ProductCode),
                        kind: ValidationErrorKind::UnknownProductCode,
                    },
                );
            }
            let quantity = match OrderQuantity::create(&code, order_quantity) {
                Ok(q) => Some(q),
                Err(e) => {
                    errors.push(
                        ValidationError {
                            field_name: FieldName::Line(index, LineField::Quantity),
                            kind: quantity_kind(e),
                        },
                    );
                    None
                },
            };
            proof {
                assert(errors@ =~= line_errors(ctx, unvalidated_order_line, index));
            }
            if exists {
                match (line_id, quantity) {
                    (Some(lid), Some(q)) => {
                        return Ok(
                            ValidatedOrderLine { id: lid, product_code: code, order_quantity: q },
                        );
                    },
                    _ => {
                        return Err(errors);
                    },
                }
            }
            Err(errors)
        },
    }
}

/// Validate an untrusted order. When no field fails, the validated order is
/// returned; otherwise every failing field's error is returned, in field
/// order.
pub fn validate_order<T: CheckProductCodeExists + CheckAddressExists>(
    ctx: &T,
    order: UnvalidatedOrder,
) -> (r: Result<ValidatedOrder, Vec<ValidationError>>)
    ensures
        r is Ok <==> validation_errors(ctx, order).len() == 0,
        r matches Err(e) ==> e@ == validation_errors(ctx, order),
        r matches Ok(v) ==> validated_order_ok(ctx, order, v),
{
    let UnvalidatedOrder { order_id, customer_info, shipping_address, billing_address, lines } =
        order;
    let mut errors: Vec<ValidationError> = Vec::new();

    let id_opt = match OrderId::new(order_id) {
        Ok(id) => Some(id),
        Err(e) => {
            errors.push(ValidationError { field_name: FieldName::OrderId, kind: str50_kind(e) });
            None
        },
    };
    let customer_opt = match to_customer_info(customer_info) {
        Ok(c) => Some(c),
        Err(mut es) => {
            errors.append(&mut es);
            None
        },
    };
    let shipping_opt = match to_address(ctx, AddressSlot::Shipping, shipping_address) {
        Ok(a) => Some(a),
        Err(mut es) => {
            errors.append(&mut es);
            None
        },
    };
    let billing_opt = match to_address(ctx, AddressSlot::Billing, billing_address) {
        Ok(a) => Some(a),
        Err(mut es) => {
            errors.append(&mut es);
            None
        },
    };
    if lines.len() == 0 {
        errors.push(
            ValidationError { field_name: FieldName::Lines, kind: ValidationErrorKind::Empty },
        );
    }
    let ghost head = field_errors(FieldName::OrderId, str50_error(order.order_id@))
        + customer_errors(order.customer_info) + address_errors(
        ctx,
        AddressSlot::Shipping,
        order.shipping_address@,
    ) + address_errors(ctx, AddressSlot::Billing, order.billing_address@) + lines_presence_errors(
        order.lines@,
    );
    proof {
        assert(errors@ =~= head);
    }

    let mut validated_lines: Vec<ValidatedOrderLine> = Vec::new();
    let mut i: usize = 0;
    while i < lines.len()
        invariant
            i <= lines@.len(),
            errors@ == head + lines_errors_prefix(ctx, lines@, i as int),
            lines_errors_prefix(ctx, lines@, i as int).len() == 0 ==> (validated_lines@.len()
                == i && forall|j: int|
                0 <= j < i ==> validated_line_ok(
                    ctx,
                    lines@[j],
                    #[trigger] validated_lines@[j],
                )),
        decreases lines@.len() - i,
    {
        let line = duplicate_line(&lines[i]);
        match to_validate_order_line(ctx, line, i) {
            Ok(v) => {
                validated_lines.push(v);
            },
            Err(mut es) => {
                errors.append(&mut es);
            },
        }
        i = i + 1;
    }
    proof {
        assert(errors@ =~= head + lines_errors_prefix(ctx, lines@, lines@.len() as int));
        assert(errors@ =~= validation_errors(ctx, order));
    }
    if errors.len() == 0 {
        match (id_opt, customer_opt, shipping_opt, billing_opt) {
            (Some(id), Some(ci), Some(sa), Some(ba)) => Ok(
                ValidatedOrder {
                    id,
                    customer_info: ci,
                    shipping_address: sa,
                    billing_address: ba,
                    lines: validated_lines,
                },
            ),
            _ => Err(errors),
        }
    } else {
        Err(errors)
    }
}

/// An owned copy of one raw order line.
fn duplicate_line(line: &UnValidatedOrderLine) -> (r: UnValidatedOrderLine)
    ensures
        r == *line,
{
    UnValidatedOrderLine {
        id: line.id.clone(),
        order_id: line.order_id.clone(),
        product_code: line.product_code.clone(),
        order_quantity: line.order_quantity,
        price: line.price,
    }
}

// ---------------------------------------------------------------------------
// Pricing stage
// ---------------------------------------------------------------------------
/// The pricing failure of one validated line, if any: the catalog must have
/// a price for the code, and the price-times-quantity product must be a
/// representable, non-negative price.
pub open spec fn line_price_error<T: GetProductPrice>(
    ctx: &T,
    line: ValidatedOrderLine,
    i: usize,
) -> Option<PricingError> {
    match ctx.price_spec(line.product_code@) {
        None => Some(PricingError::UnknownProduct(i)),
        Some(u) => {
            let prod = u * line.order_quantity@;
            if prod < 0 {
                Some(PricingError::LinePrice(i, PriceError::Negative))
            } else if prod % unit() != 0 {
                Some(PricingError::LinePrice(i, PriceError::NotRepresentable))
            } else if prod / unit() > MAX_PRICE_UNITS {
                Some(PricingError::LinePrice(i, PriceError::TooLarge))
            } else {
                None
            }
        },
    }
}

/// The first failing line before index `n`, if any.
pub open spec fn first_line_error<T: GetProductPrice>(
    ctx: &T,
    lines: Seq<ValidatedOrderLine>,
    n: int,
) -> Option<PricingError>
    decreases n,
{
    if n <= 0 {
        None
    } else {
        match first_line_error(ctx, lines, n - 1) {
            Some(e) => Some(e),
            None => line_price_error(ctx, lines[n - 1], (n - 1) as usize),
        }
    }
}

/// Once a line has failed, later lines do not change the first failure.
proof fn lemma_first_line_error_persists<T: GetProductPrice>(
    ctx: &T,
    lines: Seq<ValidatedOrderLine>,
    k: int,
    n: int,
)
    requires
        0 <= k <= n,
        first_line_error(ctx, lines, k) is Some,
    ensures
        first_line_error(ctx, lines, n) == first_line_error(ctx, lines, k),
    decreases n - k,
{
    if k < n {
        lemma_first_line_error_persists(ctx, lines, k, n - 1);
    }
}

/// The price (in `10^(-MAX_SCALE)` grid units) of one validated line, when
/// it has no pricing error.
pub open spec fn line_price_units<T: GetProductPrice>(ctx: &T, line: ValidatedOrderLine) -> int {
    match ctx.price_spec(line.product_code@) {
        Some(u) => (u * line.order_quantity@) / unit(),
        None => 0,
    }
}

/// The total price (in `10^(-MAX_SCALE)` grid units) of the lines before
/// index `n`.
pub open spec fn total_price_units<T: GetProductPrice>(
    ctx: &T,
    lines: Seq<ValidatedOrderLine>,
    n: int,
) -> int
    decreases n,
{
    if n <= 0 {
        0
    } else {
        total_price_units(ctx, lines, n - 1) + line_price_units(ctx, lines[n - 1])
    }
}

/// How a priced line relates to the validated line it came from.
pub open spec fn priced_line_ok<T: GetProductPrice>(
    ctx: &T,
    v: ValidatedOrderLine,
    p: PricedOrderLine,
) -> bool {
    &&& p.id == v.id
    &&& p.product_code == v.product_code
    &&& p.order_quantity == v.order_quantity
    &&& ctx.price_spec(v.product_code@) matches Some(u) && p.price@ * unit() == u
        * v.order_quantity@
}

/// How a priced order relates to the validated order it came from.
pub open spec fn priced_order_ok<T: GetProductPrice>(
    ctx: &T,
    v: ValidatedOrder,
    p: PricedOrder,
) -> bool {
    &&& p.id == v.id
    &&& p.customer_info == v.customer_info
    &&& p.shipping_address == v.shipping_address
    &&& p.billing_address == v.billing_address
    &&& p.lines@.len() == v.lines@.len()
    &&& forall|i: int|
        0 <= i < v.lines@.len() ==> priced_line_ok(ctx, v.lines@[i], #[trigger] p.lines@[i])
    &&& p.amount_to_bill@ == sum_of(p.lines@.map_values(|l: PricedOrderLine| l.price))
}

/// Price one validated line: look its unit price up in the catalog and
/// multiply by the line's quantity.
fn to_priced_order_line<T: GetProductPrice>(
    ctx: &T,
    line: &ValidatedOrderLine,
    index: usize,
) -> (r: Result<PricedOrderLine, PricingError>)
    ensures
        r is Ok <==> line_price_error(ctx, *line, index) is None,
        r matches Ok(p) ==> priced_line_ok(ctx, *line, p),
        r matches Err(e) ==> line_price_error(ctx, *line, index) == Some(e),
{
    let qty = line.order_quantity.value();
    let price = match ctx.get_product_price(&line.product_code) {
        Some(p) => p,
        None => {
            return Err(PricingError::UnknownProduct(index));
        },
    };
    let line_price = match price.multiply(qty) {
        Ok(p) => p,
        Err(e) => {
            return Err(PricingError::LinePrice(index, e));
        },
    };
    Ok(
        PricedOrderLine {
            id: line.id.duplicate(),
            product_code: line.product_code.duplicate(),
            order_quantity: line.order_quantity,
            price: line_price,
        },
    )
}

/// Price a validated order: price each line in order and sum the line
/// prices into the billable total. The first failing line aborts pricing;
/// with no failing line, pricing succeeds exactly when the total is within
/// the billing bound.
pub fn price_order<T: GetProductPrice>(ctx: &T, validate_order: ValidatedOrder) -> (r: Result<
    PricedOrder,
    PricingError,
>)
    ensures
        r is Ok <==> (first_line_error(
            ctx,
            validate_order.lines@,
            validate_order.lines@.len() as int,
        ) is None && total_price_units(
            ctx,
            validate_order.lines@,
            validate_order.lines@.len() as int,
        ) <= MAX_BILLING_UNITS),
        r matches Ok(p) ==> priced_order_ok(ctx, validate_order, p),
        r matches Err(e) ==> e == (match first_line_error(
            ctx,
            validate_order.lines@,
            validate_order.lines@.len() as int,
        ) {
            Some(er) => er,
            None => PricingError::AmountOutOfBounds,
        }),
{
    let ValidatedOrder { id, customer_info, shipping_address, billing_address, lines } =
        validate_order;
    let mut priced_lines: Vec<PricedOrderLine> = Vec::new();
    let mut prices: Vec<Price> = Vec::new();
    let mut i: usize = 0;
    while i < lines.len()
        invariant
            lines@ == validate_order.lines@,
            i <= lines@.len(),
            first_line_error(ctx, lines@, i as int) is None,
            priced_lines@.len() == i,
            forall|j: int|
                0 <= j < i ==> priced_line_ok(ctx, lines@[j], #[trigger] priced_lines@[j]),
            prices@ == priced_lines@.map_values(|l: PricedOrderLine| l.price),
            sum_of(prices@) == total_price_units(ctx, lines@, i as int),
        decreases lines@.len() - i,
    {
        let pline = match to_priced_order_line(ctx, &lines[i], i) {
            Ok(p) => p,
            Err(e) => {
                proof {
                    assert(line_price_error(ctx, lines@[i as int], i) == Some(e));
                    assert(first_line_error(ctx, lines@, i as int + 1) == Some(e));
                    lemma_first_line_error_persists(
                        ctx,
                        lines@,
                        i as int + 1,
                        lines@.len() as int,
                    );
                    assert(first_line_error(ctx, lines@, lines@.len() as int) == Some(e));
                }
                return Err(e);
            },
        };
        proof {
            crate::domain::lemma_sum_of_push(prices@, pline.price);
            assert(prices@.push(pline.price) =~= priced_lines@.push(pline).map_values(
                |l: PricedOrderLine| l.price,
            ));
            let u = ctx.price_spec(lines@[i as int].product_code@)->Some_0;
            let prod = u * lines@[i as int].order_quantity@;
            crate::decimal::lemma_pow10_pos(crate::decimal::MAX_SCALE as int);
            vstd::arithmetic::div_mod::lemma_fundamental_div_mod_converse_div(
                prod,
                unit(),
                pline.price@,
                0,
            );
            assert(line_price_units(ctx, lines@[i as int]) == pline.price@);
        }
        prices.push(pline.price);
        priced_lines.push(pline);
        i = i + 1;
    }
    let amount_to_bill = match BillingAmount::sum_prices(&prices) {
        Ok(b) => b,
        Err(_) => {
            return Err(PricingError::AmountOutOfBounds);
        },
    };
    Ok(
        PricedOrder {
            id,
            customer_info,
            shipping_address,
            billing_address,
            lines: priced_lines,
            amount_to_bill,
        },
    )
}

/// The billing event of a placed order: present exactly when the billable
/// total is positive.
pub fn create_billing_event(order: &PlacedOrder) -> (r: Option<BillableOrderPlaced>)
    ensures
        order.amount_to_bill@ > 0 ==> r == Some(billing_event_of(*order)),
        order.amount_to_bill@ <= 0 ==> r is None,
{
    if order.amount_to_bill.is_positive() {
        Some(
            BillableOrderPlaced {
                order_id: order.id.duplicate(),
                billing_address: order.billing_address.duplicate(),
                amount_to_bill: order.amount_to_bill,
            },
        )
    } else {
        None
    }
}

/// Assemble the events of a placed order, in fixed order.
pub fn create_events(
    order: PricedOrder,
    order_acknowledgment_sent: Option<OrderAcknowledgmentSent>,
) -> (events: Vec<PlaceOrderEvent>)
    ensures
        events@ == event_sequence(order, order_acknowledgment_sent),
{
    let event3 = create_billing_event(&order);
    let mut events: Vec<PlaceOrderEvent> = Vec::new();
    events.push(PlaceOrderEvent::OrderPlaced(order));
    match order_acknowledgment_sent {
        Some(a) => events.push(PlaceOrderEvent::AcknowledgmentSent(a)),
        None => (),
    }
    match event3 {
        Some(b) => events.push(PlaceOrderEvent::BillableOrderPlaced(b)),
        None => (),
    }
    proof {
        assert(events@ =~= event_sequence(order, order_acknowledgment_sent));
    }
    events
}

// ---------------------------------------------------------------------------
// Orchestration
// ---------------------------------------------------------------------------
/// Run the whole workflow: validate, price, acknowledge, and assemble the
/// events. A validation failure returns every failing field's error; a
/// pricing failure returns the first failing line's error; otherwise the
/// event sequence of the priced order is returned.
pub fn place_order<
    T: CheckProductCodeExists + CheckAddressExists + GetProductPrice
        + CreateOrderAcknowledgmentLetter + SendOrderAcknowledgment,
>(ctx: &T, unvalidated: UnvalidatedOrder) -> (r: Result<Vec<PlaceOrderEvent>, PlaceOrderEror>)
    ensures
        match r {
            Ok(events) => {
                &&& validation_errors(ctx, unvalidated).len() == 0
                &&& exists|v: ValidatedOrder, p: PricedOrder|
                    {
                        &&& #[trigger] validated_order_ok(ctx, unvalidated, v)
                        &&& #[trigger] priced_order_ok(ctx, v, p)
                        &&& first_line_error(ctx, v.lines@, v.lines@.len() as int) is None
                        &&& total_price_units(ctx, v.lines@, v.lines@.len() as int)
                            <= MAX_BILLING_UNITS
                        &&& events@ == event_sequence(p, acknowledgment_of(ctx, p))
                    }
            },
            Err(PlaceOrderEror::ValidationError(e)) => e@ == validation_errors(ctx, unvalidated)
                && e@.len() > 0,
            Err(PlaceOrderEror::PricingError(pe)) => {
                &&& validation_errors(ctx, unvalidated).len() == 0
                &&& exists|v: ValidatedOrder|
                    {
                        &&& #[trigger] validated_order_ok(ctx, unvalidated, v)
                        &&& pe == (match first_line_error(
                            ctx,
                            v.lines@,
                            v.lines@.len() as int,
                        ) {
                            Some(er) => er,
                            None => PricingError::AmountOutOfBounds,
                        })
                        &&& (first_line_error(ctx, v.lines@, v.lines@.len() as int) is None
                            ==> total_price_units(ctx, v.lines@, v.lines@.len() as int)
                            > MAX_BILLING_UNITS)
                    }
            },
        },
{
    let validated = match validate_order(ctx, unvalidated) {
        Ok(v) => v,
        Err(e) => {
            return Err(PlaceOrderEror::ValidationError(e));
        },
    };
    let ghost gv = validated;
    let priced = match price_order(ctx, validated) {
        Ok(p) => p,
        Err(e) => {
            proof {
                assert(validated_order_ok(ctx, unvalidated, gv));
            }
            return Err(PlaceOrderEror::PricingError(e));
        },
    };
    let ghost gp = priced;
    let acknowledgment_sent = acknowledgment_order(ctx, &priced);
    let events = create_events(priced, acknowledgment_sent);
    proof {
        assert(validated_order_ok(ctx, unvalidated, gv));
        assert(priced_order_ok(ctx, gv, gp));
    }
    Ok(events)
}

} // verus!
