//! Value objects of the ordering domain: bounded strings, identifiers,
//! product codes, quantities, addresses and monetary amounts.
//!
//! Every type here is built through a validating constructor, and the
//! constructor's contract says exactly when construction succeeds and what
//! the built value denotes.

use crate::decimal::{
    lemma_mul_scale_div_mod, lemma_pow10_adds, lemma_pow10_pos, lemma_pow10_values,
    lemma_scaled_in_i128_range, pow10, pow10_u64, unit, Decimal, MAX_SCALE,
};
use vstd::arithmetic::div_mod::{
    lemma_fundamental_div_mod, lemma_mod_division_less_than_divisor,
};
use vstd::prelude::*;
use vstd::seq_lib::group_to_multiset_ensures;

verus! {

// ---------------------------------------------------------------------------
// Bounded strings
// ---------------------------------------------------------------------------
/// Why a [`String50`] could not be built.
#[derive(Clone, Copy, Debug, PartialEq, Eq, Structural)]
pub enum String50Error {
    Empty,
    TooLong,
}

/// A non-empty string of at most 50 characters.
#[derive(Debug)]
pub struct String50(String);

impl View for String50 {
    type V = Seq<char>;

    closed spec fn view(&self) -> Seq<char> {
        self.0@
    }
}

impl String50 {
    #[verifier::type_invariant]
    spec fn wf(self) -> bool {
        1 <= self.0@.len() <= 50
    }

    /// The given text as a `String50`; succeeds exactly when the text has
    /// between 1 and 50 characters.
    pub fn new(value: String) -> (r: Result<String50, String50Error>)
        ensures
            r is Ok <==> 1 <= value@.len() <= 50,
            r matches Ok(s) ==> s@ == value@,
            r matches Err(e) ==> e == (if value@.len() == 0 {
                String50Error::Empty
            } else {
                String50Error::TooLong
            }),
    {
        let n = value.as_str().unicode_len();
        if n == 0 {
            Err(String50Error::Empty)
        } else if n > 50 {
            Err(String50Error::TooLong)
        } else {
            Ok(String50(value))
        }
    }

    /// The given text as a `String50`, for text already known to be in
    /// bounds.
    pub fn from_checked(value: String) -> (r: String50)
        requires
            1 <= value@.len() <= 50,
        ensures
            r@ == value@,
    {
        String50(value)
    }

    /// The text itself.
    pub fn value(&self) -> (r: &str)
        ensures
            r@ == self@,
            1 <= self@.len() <= 50,
    {
        proof {
            use_type_invariant(self);
        }
        self.0.as_str()
    }

    /// An owned copy of the same text.
    pub fn duplicate(&self) -> (r: String50)
        ensures
            r == *self,
    {
        proof {
            use_type_invariant(self);
        }
        String50(self.0.clone())
    }
}

// ---------------------------------------------------------------------------
// Product codes
// ---------------------------------------------------------------------------
/// Why a [`ProductCode`] could not be parsed.
#[derive(Clone, Copy, Debug, PartialEq, Eq, Structural)]
pub enum ProductCodeError {
    UnrecognizedPrefix,
}

/// Whether a raw code names a widget: it starts with `'W'`.
pub open spec fn widget_prefix(s: Seq<char>) -> bool {
    s.len() >= 1 && s[0] == 'W'
}

/// Whether a raw code names a gizmo: it starts with `'G'`.
pub open spec fn gizmo_prefix(s: Seq<char>) -> bool {
    s.len() >= 1 && s[0] == 'G'
}

/// A widget code: text beginning with `'W'`.
#[derive(Debug)]
pub struct WidgetCode(String);

/// A gizmo code: text beginning with `'G'`.
#[derive(Debug)]
pub struct GizmoCode(String);

/// A product code, tagged with its family; the first character of the raw
/// code decides the tag.
#[derive(Debug)]
pub enum ProductCode {
    Widget(WidgetCode),
    Gizmo(GizmoCode),
}

impl View for ProductCode {
    type V = Seq<char>;

    closed spec fn view(&self) -> Seq<char> {
        match self {
            ProductCode::Widget(w) => w.0@,
            ProductCode::Gizmo(g) => g.0@,
        }
    }
}

impl ProductCode {
    /// Parse a raw code: a `'W'` prefix gives a widget, a `'G'` prefix a
    /// gizmo, and any other text is rejected.
    pub fn new(value: String) -> (r: Result<ProductCode, ProductCodeError>)
        ensures
            r is Ok <==> (widget_prefix(value@) || gizmo_prefix(value@)),
            r matches Ok(c) ==> c@ == value@ && (c is Widget <==> widget_prefix(value@)) && (
            c is Gizmo <==> gizmo_prefix(value@)),
            r matches Err(e) ==> e == ProductCodeError::UnrecognizedPrefix,
    {
        let n = value.as_str().unicode_len();
        if n >= 1 {
            let c0 = value.as_str().get_char(0);
            if c0 == 'W' {
                return Ok(ProductCode::Widget(WidgetCode(value)));
            }
            if c0 == 'G' {
                return Ok(ProductCode::Gizmo(GizmoCode(value)));
            }
        }
        Err(ProductCodeError::UnrecognizedPrefix)
    }

    /// The raw code text.
    pub fn value(&self) -> (r: &str)
        ensures
            r@ == self@,
    {
        match self {
            ProductCode::Widget(w) => w.0.as_str(),
            ProductCode::Gizmo(g) => g.0.as_str(),
        }
    }

    /// An owned copy of the same code.
    pub fn duplicate(&self) -> (r: ProductCode)
        ensures
            r == *self,
    {
        match self {
            ProductCode::Widget(w) => ProductCode::Widget(WidgetCode(w.0.clone())),
            ProductCode::Gizmo(g) => ProductCode::Gizmo(GizmoCode(g.0.clone())),
        }
    }
}

// ---------------------------------------------------------------------------
// Quantities
// ---------------------------------------------------------------------------
/// Why an [`OrderQuantity`] could not be built.
#[derive(Clone, Copy, Debug, PartialEq, Eq, Structural)]
pub enum QuantityError {
    NotAWholeNumber,
    OutOfRange,
}

/// A whole number of units.
#[derive(Clone, Copy, Debug)]
pub struct UnitQuantity(pub(crate) i32);

/// A weight in kilograms.
#[derive(Clone, Copy, Debug)]
pub struct KilogramQuantity(pub(crate) Decimal);

/// An order quantity: widgets are counted in whole units, gizmos are weighed
/// in kilograms.
#[derive(Clone, Copy, Debug)]
pub enum OrderQuantity {
    Unit(UnitQuantity),
    Kilogram(KilogramQuantity),
}

impl View for OrderQuantity {
    type V = int;

    /// The quantity in `10^(-MAX_SCALE)` units.
    closed spec fn view(&self) -> int {
        match self {
            OrderQuantity::Unit(u) => (u.0 as int) * unit(),
            OrderQuantity::Kilogram(k) => k.0@,
        }
    }
}

impl OrderQuantity {
    /// The quantity for a line with the given product code: a whole unit
    /// count for a widget (the decimal must denote a whole number in `i32`
    /// range), the exact kilogram weight for a gizmo.
    pub fn create(product_code: &ProductCode, value: Decimal) -> (r: Result<
        OrderQuantity,
        QuantityError,
    >)
        ensures
            product_code is Gizmo ==> (r matches Ok(q) && q is Kilogram && q@ == value@),
            product_code is Widget ==> {
                &&& (r is Ok <==> (value@ % unit() == 0 && i32::MIN * unit() <= value@
                    <= i32::MAX * unit()))
                &&& (r matches Ok(q) ==> q is Unit && q@ == value@)
                &&& (r matches Err(e) ==> e == (if value@ % unit() != 0 {
                    QuantityError::NotAWholeNumber
                } else {
                    QuantityError::OutOfRange
                }))
            },
    {
        match product_code {
            ProductCode::Widget(_) => {
                match value.as_integer() {
                    Some(k) => {
                        proof {
                            lemma_pow10_pos(MAX_SCALE as int);
                        }
                        if i32::MIN as i64 <= k && k <= i32::MAX as i64 {
                            proof {
                                assert(i32::MIN * unit() <= value@ <= i32::MAX * unit())
                                    by (nonlinear_arith)
                                    requires
                                        value@ == k * unit(),
                                        i32::MIN <= k <= i32::MAX,
                                        unit() >= 1,
                                ;
                            }
                            Ok(OrderQuantity::Unit(UnitQuantity(k as i32)))
                        } else {
                            proof {
                                assert(!(i32::MIN * unit() <= value@ <= i32::MAX * unit()))
                                    by (nonlinear_arith)
                                    requires
                                        value@ == k * unit(),
                                        !(i32::MIN <= k <= i32::MAX),
                                        unit() >= 1,
                                ;
                            }
                            Err(QuantityError::OutOfRange)
                        }
                    },
                    None => Err(QuantityError::NotAWholeNumber),
                }
            },
            ProductCode::Gizmo(_) => Ok(OrderQuantity::Kilogram(KilogramQuantity(value))),
        }
    }

    /// The quantity as a decimal number.
    pub fn value(&self) -> (r: Decimal)
        ensures
            r@ == self@,
    {
        match self {
            OrderQuantity::Unit(u) => Decimal::from_int(u.0 as i64),
            OrderQuantity::Kilogram(k) => k.0,
        }
    }
}

// ---------------------------------------------------------------------------
// Identifiers
// ---------------------------------------------------------------------------
/// An order identifier: 1 to 50 characters.
#[derive(Debug)]
pub struct OrderId(pub(crate) String50);

impl View for OrderId {
    type V = Seq<char>;

    closed spec fn view(&self) -> Seq<char> {
        self.0@
    }
}

impl OrderId {
    /// Wrap a raw identifier; succeeds exactly when it has 1 to 50
    /// characters.
    pub fn new(value: String) -> (r: Result<OrderId, String50Error>)
        ensures
            r is Ok <==> 1 <= value@.len() <= 50,
            r matches Ok(id) ==> id@ == value@,
            r matches Err(e) ==> e == (if value@.len() == 0 {
                String50Error::Empty
            } else {
                String50Error::TooLong
            }),
    {
        match String50::new(value) {
            Ok(s) => Ok(OrderId(s)),
            Err(e) => Err(e),
        }
    }

    /// The identifier text.
    pub fn value(&self) -> (r: &str)
        ensures
            r@ == self@,
    {
        self.0.value()
    }

    /// An owned copy of the same identifier.
    pub fn duplicate(&self) -> (r: OrderId)
        ensures
            r == *self,
    {
        OrderId(self.0.duplicate())
    }
}

/// An order-line identifier: 1 to 50 characters.
#[derive(Debug)]
pub struct OrderLineId(pub(crate) String50);

impl View for OrderLineId {
    type V = Seq<char>;

    closed spec fn view(&self) -> Seq<char> {
        self.0@
    }
}

impl OrderLineId {
    /// Wrap a raw identifier; succeeds exactly when it has 1 to 50
    /// characters.
    pub fn new(value: String) -> (r: Result<OrderLineId, String50Error>)
        ensures
            r is Ok <==> 1 <= value@.len() <= 50,
            r matches Ok(id) ==> id@ == value@,
            r matches Err(e) ==> e == (if value@.len() == 0 {
                String50Error::Empty
            } else {
                String50Error::TooLong
            }),
    {
        match String50::new(value) {
            Ok(s) => Ok(OrderLineId(s)),
            Err(e) => Err(e),
        }
    }

    /// The identifier text.
    pub fn value(&self) -> (r: &str)
        ensures
            r@ == self@,
    {
        self.0.value()
    }

    /// An owned copy of the same identifier.
    pub fn duplicate(&self) -> (r: OrderLineId)
        ensures
            r == *self,
    {
        OrderLineId(self.0.duplicate())
    }
}

/// A customer identifier; nothing in the workflow reads it yet.
#[derive(Debug)]
pub struct CustomerId();

// ---------------------------------------------------------------------------
// Customer
// ---------------------------------------------------------------------------
/// A customer's first and last name.
#[derive(Debug)]
pub struct PersonalName {
    pub first_name: String50,
    pub last_name: String50,
}

impl PersonalName {
    /// A name made of the given parts.
    pub fn new(first_name: String50, last_name: String50) -> (r: PersonalName)
        ensures
            r.first_name == first_name,
            r.last_name == last_name,
    {
        PersonalName { first_name, last_name }
    }
}

/// A customer email address; its format is not validated here.
#[derive(Debug)]
pub struct EmailAddress(pub(crate) String);

impl View for EmailAddress {
    type V = Seq<char>;

    closed spec fn view(&self) -> Seq<char> {
        self.0@
    }
}

impl EmailAddress {
    /// Wrap a raw address; every text is accepted.
    pub fn new(value: String) -> (r: EmailAddress)
        ensures
            r@ == value@,
    {
        EmailAddress(value)
    }

    /// The address text.
    pub fn value(&self) -> (r: &str)
        ensures
            r@ == self@,
    {
        self.0.as_str()
    }

    /// An owned copy of the same address.
    pub fn duplicate(&self) -> (r: EmailAddress)
        ensures
            r == *self,
    {
        EmailAddress(self.0.clone())
    }
}

/// A customer's name and email address.
#[derive(Debug)]
pub struct CustomerInfo {
    pub name: PersonalName,
    pub email_address: EmailAddress,
}

impl CustomerInfo {
    /// Customer information made of the given parts.
    pub fn new(name: PersonalName, email_address: EmailAddress) -> (r: CustomerInfo)
        ensures
            r.name == name,
            r.email_address == email_address,
    {
        CustomerInfo { name, email_address }
    }
}

// ---------------------------------------------------------------------------
// Addresses
// ---------------------------------------------------------------------------
/// A zip code; its range is not validated here.
#[derive(Clone, Copy, Debug, PartialEq, Eq, Structural)]
pub struct ZipCode(pub u16);

/// The text content of an address, one field per line.
pub ghost struct AddressView {
    pub line1: Seq<char>,
    pub line2: Option<Seq<char>>,
    pub line3: Option<Seq<char>>,
    pub line4: Option<Seq<char>>,
    pub city: Seq<char>,
    pub zip: u16,
}

/// The view of an optional bounded string.
pub open spec fn opt_view(o: Option<String50>) -> Option<Seq<char>> {
    match o {
        Some(s) => Some(s@),
        None => None,
    }
}

/// A postal address whose fields have all passed validation.
#[derive(Debug)]
pub struct Address {
    pub address_line1: String50,
    pub address_line2: Option<String50>,
    pub address_line3: Option<String50>,
    pub address_line4: Option<String50>,
    pub city: String50,
    pub zip_code: ZipCode,
}

impl View for Address {
    type V = AddressView;

    open spec fn view(&self) -> AddressView {
        AddressView {
            line1: self.address_line1@,
            line2: opt_view(self.address_line2),
            line3: opt_view(self.address_line3),
            line4: opt_view(self.address_line4),
            city: self.city@,
            zip: self.zip_code.0,
        }
    }
}

impl Address {
    /// An address made of the given parts.
    pub fn new(
        address_line1: String50,
        address_line2: Option<String50>,
        address_line3: Option<String50>,
        address_line4: Option<String50>,
        city: String50,
        zip_code: ZipCode,
    ) -> (r: Address)
        ensures
            r.address_line1 == address_line1,
            r.address_line2 == address_line2,
            r.address_line3 == address_line3,
            r.address_line4 == address_line4,
            r.city == city,
            r.zip_code == zip_code,
    {
        Address { address_line1, address_line2, address_line3, address_line4, city, zip_code }
    }

    /// An owned copy of the same address.
    pub fn duplicate(&self) -> (r: Address)
        ensures
            r == *self,
    {
        Address {
            address_line1: self.address_line1.duplicate(),
            address_line2: dup_opt(&self.address_line2),
            address_line3: dup_opt(&self.address_line3),
            address_line4: dup_opt(&self.address_line4),
            city: self.city.duplicate(),
            zip_code: self.zip_code,
        }
    }
}

/// An owned copy of an optional bounded string.
fn dup_opt(o: &Option<String50>) -> (r: Option<String50>)
    ensures
        r == *o,
{
    match o {
        Some(s) => Some(s.duplicate()),
        None => None,
    }
}

/// A shipping-address marker; nothing in the workflow reads it yet.
#[derive(Debug)]
pub struct ShippingAddress();

/// A billing-address marker; nothing in the workflow reads it yet.
#[derive(Debug)]
pub struct BillingAddress();

// ---------------------------------------------------------------------------
// Money
// ---------------------------------------------------------------------------
/// Why a [`Price`] could not be built.
#[derive(Clone, Copy, Debug, PartialEq, Eq, Structural)]
pub enum PriceError {
    Negative,
    NotRepresentable,
    TooLarge,
}

/// Greatest number a `Price` may denote, in `10^(-MAX_SCALE)` grid units
/// (one thousand million wholes).
pub const MAX_PRICE_UNITS: i64 = 1_000_000_000_000_000_000;

/// A non-negative amount of money, at most `MAX_PRICE_UNITS` grid units.
#[derive(Clone, Copy, Debug)]
pub struct Price {
    units: i64,
}

impl View for Price {
    type V = int;

    /// The amount in `10^(-MAX_SCALE)` grid units.
    closed spec fn view(&self) -> int {
        self.units as int
    }
}

impl Price {
    #[verifier::type_invariant]
    spec fn wf(self) -> bool {
        0 <= self.units <= MAX_PRICE_UNITS
    }

    /// The given amount as a price; succeeds exactly when the amount is
    /// neither negative nor above `MAX_PRICE_UNITS` grid units.
    pub fn create(value: Decimal) -> (r: Result<Price, PriceError>)
        ensures
            r is Ok <==> 0 <= value@ <= MAX_PRICE_UNITS,
            r matches Ok(p) ==> p@ == value@,
            r matches Err(e) ==> e == (if value@ < 0 {
                PriceError::Negative
            } else {
                PriceError::TooLarge
            }),
    {
        let (m, s) = value.parts();
        let p10 = pow10_u64(MAX_SCALE - s);
        proof {
            lemma_scaled_in_i128_range(m as int, s as int);
        }
        let units_i: i128 = (m as i128) * (p10 as i128);
        if units_i < 0 {
            Err(PriceError::Negative)
        } else if units_i > MAX_PRICE_UNITS as i128 {
            Err(PriceError::TooLarge)
        } else {
            Ok(Price { units: units_i as i64 })
        }
    }

    /// This unit price times a quantity, exactly. Fails when the product is
    /// negative, does not land on the `10^(-MAX_SCALE)` grid, or exceeds
    /// `MAX_PRICE_UNITS` grid units.
    pub fn multiply(&self, qty: Decimal) -> (r: Result<Price, PriceError>)
        ensures
            r is Ok <==> (0 <= self@ * qty@ && (self@ * qty@) % unit() == 0 && (self@ * qty@)
                / unit() <= MAX_PRICE_UNITS),
            r matches Ok(p) ==> p@ * unit() == self@ * qty@,
            r matches Err(e) ==> e == (if self@ * qty@ < 0 {
                PriceError::Negative
            } else if (self@ * qty@) % unit() != 0 {
                PriceError::NotRepresentable
            } else {
                PriceError::TooLarge
            }),
    {
        proof {
            use_type_invariant(self);
        }
        let (mq, sq) = qty.parts();
        let d = pow10_u64(sq);
        let ghost p = pow10(MAX_SCALE as int - sq as int) as int;
        let ghost di = d as int;
        proof {
            lemma_pow10_pos(sq as int);
            lemma_pow10_pos(MAX_SCALE as int - sq as int);
            lemma_pow10_adds(sq as int, MAX_SCALE as int - sq as int);
            lemma_pow10_values();
            assert(di * p == unit());
            assert(-10_000_000_000_000_000_000_000_000_000_000_000_000 <= (self.units as int) * (
            mq as int) <= 10_000_000_000_000_000_000_000_000_000_000_000_000) by (nonlinear_arith)
                requires
                    0 <= self.units <= MAX_PRICE_UNITS,
                    i64::MIN <= mq <= i64::MAX,
            ;
        }
        let prod: i128 = (self.units as i128) * (mq as i128);
        proof {
            assert(self@ * qty@ == (prod as int) * p) by (nonlinear_arith)
                requires
                    prod as int == (self.units as int) * (mq as int),
                    qty@ == (mq as int) * p,
                    self@ == self.units as int,
            ;
            lemma_mul_scale_div_mod(prod as int, di, p);
        }
        if prod < 0 {
            proof {
                assert((prod as int) * p < 0) by (nonlinear_arith)
                    requires
                        prod < 0,
                        p >= 1,
                ;
            }
            return Err(PriceError::Negative);
        }
        proof {
            assert((prod as int) * p >= 0) by (nonlinear_arith)
                requires
                    prod >= 0,
                    p >= 1,
            ;
        }
        let pu = prod as u128;
        let du = d as u128;
        let q = pu / du;
        let rem = pu % du;
        proof {
            lemma_fundamental_div_mod(pu as int, du as int);
            lemma_mod_division_less_than_divisor(pu as int, du as int);
        }
        if rem != 0 {
            proof {
                assert(((prod as int) % di) * p != 0) by (nonlinear_arith)
                    requires
                        (prod as int) % di != 0,
                        p >= 1,
                ;
            }
            return Err(PriceError::NotRepresentable);
        }
        proof {
            assert(((prod as int) % di) * p == 0) by (nonlinear_arith)
                requires
                    (prod as int) % di == 0,
            ;
            assert((self@ * qty@) / unit() == (prod as int) / di);
            assert((prod as int) == di * (q as int));
            assert(0 <= q as int <= prod as int) by (nonlinear_arith)
                requires
                    prod as int == di * (q as int),
                    di >= 1,
                    prod >= 0,
            ;
            assert((prod as int) / di == q as int);
        }
        if q > MAX_PRICE_UNITS as u128 {
            return Err(PriceError::TooLarge);
        }
        proof {
            assert((q as int) * unit() == (prod as int) * p) by (nonlinear_arith)
                requires
                    prod as int == di * (q as int),
                    di * p == unit(),
            ;
        }
        Ok(Price { units: q as i64 })
    }

    /// The price as a decimal number.
    pub fn value(&self) -> (r: Decimal)
        ensures
            r@ == self@,
            0 <= self@ <= MAX_PRICE_UNITS,
    {
        proof {
            use_type_invariant(self);
            lemma_pow10_values();
        }
        let r = Decimal::make(self.units, MAX_SCALE);
        proof {
            assert(pow10(MAX_SCALE as int - MAX_SCALE as int) == 1);
            assert(r@ == self.units as int) by (nonlinear_arith)
                requires
                    r@ == (self.units as int) * (pow10(
                        MAX_SCALE as int - MAX_SCALE as int,
                    ) as int),
                    pow10(MAX_SCALE as int - MAX_SCALE as int) == 1,
            ;
        }
        r
    }
}

/// The sum of a sequence of prices, in `10^(-MAX_SCALE)` grid units.
pub open spec fn sum_of(prices: Seq<Price>) -> int
    decreases prices.len(),
{
    if prices.len() == 0 {
        0
    } else {
        prices[0]@ + sum_of(prices.drop_first())
    }
}

pub proof fn lemma_sum_of_push(s: Seq<Price>, p: Price)
    ensures
        sum_of(s.push(p)) == sum_of(s) + p@,
    decreases s.len(),
{
    if s.len() == 0 {
        reveal_with_fuel(sum_of, 3);
        assert(s.push(p)[0] == p);
        assert(s.push(p).drop_first() =~= Seq::<Price>::empty());
    } else {
        assert(s.push(p)[0] == s[0]);
        assert(s.push(p).drop_first() =~= s.drop_first().push(p));
        lemma_sum_of_push(s.drop_first(), p);
    }
}

pub proof fn lemma_sum_of_remove(s: Seq<Price>, i: int)
    requires
        0 <= i < s.len(),
    ensures
        sum_of(s) == s[i]@ + sum_of(s.remove(i)),
    decreases i,
{
    if i == 0 {
        assert(s.remove(0) =~= s.drop_first());
    } else {
        assert(s.remove(i).drop_first() =~= s.drop_first().remove(i - 1));
        assert(s.remove(i)[0] == s[0]);
        lemma_sum_of_remove(s.drop_first(), i - 1);
    }
}

/// Summing prices does not depend on their order: two sequences holding the
/// same prices (as a multiset) have the same sum.
pub proof fn lemma_sum_of_permutation(s1: Seq<Price>, s2: Seq<Price>)
    requires
        s1.to_multiset() == s2.to_multiset(),
    ensures
        sum_of(s1) == sum_of(s2),
    decreases s1.len(),
{
    broadcast use group_to_multiset_ensures;

    if s1.len() == 0 {
        assert(s2.to_multiset().len() == 0);
        assert(s2.len() == 0);
    } else {
        let x = s1[0];
        assert(s1.contains(x));
        assert(s2.to_multiset().count(x) > 0);
        assert(s2.contains(x));
        let j = choose|j: int| 0 <= j < s2.len() && s2[j] == x;
        assert(s1.remove(0).to_multiset() =~= s1.to_multiset().remove(x));
        assert(s2.remove(j).to_multiset() =~= s2.to_multiset().remove(x));
        lemma_sum_of_remove(s1, 0);
        lemma_sum_of_remove(s2, j);
        lemma_sum_of_permutation(s1.remove(0), s2.remove(j));
    }
}

/// Why a [`BillingAmount`] could not be built.
#[derive(Clone, Copy, Debug, PartialEq, Eq, Structural)]
pub enum BillingAmountError {
    Negative,
    TooLarge,
}

/// Greatest total a `BillingAmount` may denote, in `10^(-MAX_SCALE)` grid
/// units (one thousand million wholes).
pub const MAX_BILLING_UNITS: i64 = 1_000_000_000_000_000_000;

/// The exact total billed for an order: built only by summing the order's
/// line prices or by validating a whole decimal amount.
#[derive(Clone, Copy, Debug)]
pub struct BillingAmount {
    units: i64,
}

impl View for BillingAmount {
    type V = int;

    /// The total in `10^(-MAX_SCALE)` grid units.
    closed spec fn view(&self) -> int {
        self.units as int
    }
}

impl BillingAmount {
    #[verifier::type_invariant]
    spec fn wf(self) -> bool {
        0 <= self.units <= MAX_BILLING_UNITS
    }

    /// The given amount as a billing total; succeeds exactly when the amount
    /// is neither negative nor above `MAX_BILLING_UNITS` grid units.
    pub fn create(value: Decimal) -> (r: Result<BillingAmount, BillingAmountError>)
        ensures
            r is Ok <==> 0 <= value@ <= MAX_BILLING_UNITS,
            r matches Ok(b) ==> b@ == value@,
            r matches Err(e) ==> e == (if value@ < 0 {
                BillingAmountError::Negative
            } else {
                BillingAmountError::TooLarge
            }),
    {
        let (m, s) = value.parts();
        let p10 = pow10_u64(MAX_SCALE - s);
        proof {
            lemma_scaled_in_i128_range(m as int, s as int);
        }
        let units_i: i128 = (m as i128) * (p10 as i128);
        if units_i < 0 {
            Err(BillingAmountError::Negative)
        } else if units_i > MAX_BILLING_UNITS as i128 {
            Err(BillingAmountError::TooLarge)
        } else {
            Ok(BillingAmount { units: units_i as i64 })
        }
    }

    /// The exact sum of the given prices; succeeds exactly when the sum is
    /// at most `MAX_BILLING_UNITS` grid units.
    pub fn sum_prices(prices: &Vec<Price>) -> (r: Result<BillingAmount, BillingAmountError>)
        ensures
            r is Ok <==> sum_of(prices@) <= MAX_BILLING_UNITS,
            r matches Ok(b) ==> b@ == sum_of(prices@),
            r matches Err(e) ==> e == BillingAmountError::TooLarge,
    {
        let mut total: i128 = 0;
        let mut i: usize = 0;
        proof {
            assert(prices@.take(0) =~= Seq::<Price>::empty());
        }
        while i < prices.len()
            invariant
                0 <= i <= prices@.len(),
                0 <= total as int <= (i as int) * (MAX_PRICE_UNITS as int),
                total as int == sum_of(prices@.take(i as int)),
            decreases prices@.len() - i,
    {
            let p = prices[i];
            proof {
                use_type_invariant(&p);
                assert(prices@.take(i as int + 1) =~= prices@.take(i as int).push(
                    prices@[i as int],
                ));
                lemma_sum_of_push(prices@.take(i as int), prices@[i as int]);
            }
            total = total + (p.units as i128);
            i = i + 1;
        }
        proof {
            assert(prices@.take(prices@.len() as int) =~= prices@);
        }
        if total > MAX_BILLING_UNITS as i128 {
            Err(BillingAmountError::TooLarge)
        } else {
            Ok(BillingAmount { units: total as i64 })
        }
    }

    /// The total as a decimal number.
    pub fn value(&self) -> (r: Decimal)
        ensures
            r@ == self@,
            0 <= self@ <= MAX_BILLING_UNITS,
    {
        proof {
            use_type_invariant(self);
            lemma_pow10_values();
        }
        let r = Decimal::make(self.units, MAX_SCALE);
        proof {
            assert(pow10(MAX_SCALE as int - MAX_SCALE as int) == 1);
            assert(r@ == self.units as int) by (nonlinear_arith)
                requires
                    r@ == (self.units as int) * (pow10(
                        MAX_SCALE as int - MAX_SCALE as int,
                    ) as int),
                    pow10(MAX_SCALE as int - MAX_SCALE as int) == 1,
            ;
        }
        r
    }

    /// Whether the total is strictly positive.
    pub fn is_positive(&self) -> (r: bool)
        ensures
            r == (self@ > 0),
    {
        self.units > 0
    }
}

} // verus!
