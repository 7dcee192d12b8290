//! Simple in-memory implementations of the workflow's ports, for tests and
//! demonstrations.

use crate::domain::{AddressView, Price, ProductCode};
use crate::workflow::{
    AddressValidationError, CheckAddressExists, CheckProductCodeExists, CheckedAddress,
    CreateOrderAcknowledgmentLetter, GetProductPrice, HtmlString, OrderAcknowledgment, PricedOrder,
    SendOrderAcknowledgment, SendResult, UnvalidatedAddress,
};
use vstd::prelude::*;

verus! {

/// Ports backed by fixed data: a catalog that holds either every code or
/// none, one uniform unit price that is either known or missing, an address
/// verifier that either accepts every address unchanged or rejects all, and
/// a notifier that either always delivers or never does.
pub struct FixedPorts {
    /// Whether the catalog holds every product code (else it holds none).
    pub all_products_exist: bool,
    /// The unit price the catalog gives every product it holds.
    pub unit_price: Price,
    /// Whether the catalog knows the price of the products it holds.
    pub price_known: bool,
    /// Whether the verifier accepts every address (else it rejects all).
    pub addresses_exist: bool,
    /// Whether the notifier reaches every recipient (else it reaches none).
    pub delivery_works: bool,
}

impl CheckProductCodeExists for FixedPorts {
    open spec fn exists_spec(&self, code: Seq<char>) -> bool {
        self.all_products_exist
    }

    fn exists_product_code(&self, product_code: &ProductCode) -> (r: bool) {
        self.all_products_exist
    }
}

impl CheckAddressExists for FixedPorts {
    open spec fn check_spec(&self, address: AddressView) -> Option<AddressView> {
        if self.addresses_exist {
            Some(address)
        } else {
            None
        }
    }

    fn check_address_exists(&self, unvalidated_address: &UnvalidatedAddress) -> (r: Result<
        CheckedAddress,
        AddressValidationError,
    >) {
        if self.addresses_exist {
            Ok(unvalidated_address.duplicate())
        } else {
            Err(AddressValidationError { reason: String::new() })
        }
    }
}

impl GetProductPrice for FixedPorts {
    open spec fn price_spec(&self, code: Seq<char>) -> Option<int> {
        if self.price_known {
            Some(self.unit_price@)
        } else {
            None
        }
    }

    fn get_product_price(&self, product_code: &ProductCode) -> (r: Option<Price>) {
        if self.price_known {
            Some(self.unit_price)
        } else {
            None
        }
    }
}

impl CreateOrderAcknowledgmentLetter for FixedPorts {
    fn create_order_acknowledgment_letter(&self, order: &PricedOrder) -> HtmlString {
        HtmlString(String::new())
    }
}

impl SendOrderAcknowledgment for FixedPorts {
    open spec fn sends_spec(&self, email: Seq<char>) -> bool {
        self.delivery_works
    }

    fn send_order_acknowledgment(&self, acknowledgment: &OrderAcknowledgment) -> (r: SendResult) {
        if self.delivery_works {
            SendResult::Sent
        } else {
            SendResult::NotSent
        }
    }
}

} // verus!
