//! A small order record with validated fields.
//!
//! A product name is non-empty and at most 300 bytes; a quantity and a
//! unit price (in cents) are strictly positive. The run-time checks of
//! the validation functions became preconditions: a caller proves the
//! bounds instead of risking a panic.

use vstd::prelude::*;

use crate::title::byte_len;

verus! {

/// The largest number of bytes a product name may occupy.
pub const PRODUCT_NAME_MAX_BYTES: usize = 300;

/// Whether `name` is acceptable as a product name.
pub open spec fn product_name_ok(name: Seq<char>) -> bool {
    0 < byte_len(name) <= PRODUCT_NAME_MAX_BYTES
}

/// A product name must be non-empty and at most
/// [`PRODUCT_NAME_MAX_BYTES`] bytes.
pub fn validate_product_name(product_name: &String)
    requires
        product_name_ok(product_name@),
{
    let _ = product_name;
}

/// A quantity must be strictly greater than zero.
pub fn validate_quantity(quantity: &u32)
    requires
        *quantity > 0,
{
    let _ = quantity;
}

/// A unit price must be strictly greater than zero.
pub fn validate_unit_price(unit_price: &u32)
    requires
        *unit_price > 0,
{
    let _ = unit_price;
}

/// An order of `quantity` units of one product at `unit_price` cents
/// each.
pub struct Order {
    product_name: String,
    quantity: u32,
    unit_price: u32,
}

impl Order {
    /// The product name's text, as a sequence of characters.
    pub closed spec fn spec_product_name(&self) -> Seq<char> {
        self.product_name@
    }

    /// The number of units.
    pub closed spec fn spec_quantity(&self) -> u32 {
        self.quantity
    }

    /// The price of one unit, in cents.
    pub closed spec fn spec_unit_price(&self) -> u32 {
        self.unit_price
    }

    /// The field bounds every order satisfies.
    pub open spec fn wf(&self) -> bool {
        product_name_ok(self.spec_product_name()) && self.spec_quantity() > 0
            && self.spec_unit_price() > 0
    }

    /// An order from validated parts.
    pub fn new(product_name: String, quantity: u32, unit_price: u32) -> (r: Order)
        requires
            product_name_ok(product_name@),
            quantity > 0,
            unit_price > 0,
        ensures
            r.spec_product_name() == product_name@,
            r.spec_quantity() == quantity,
            r.spec_unit_price() == unit_price,
            r.wf(),
    {
        validate_product_name(&product_name);
        validate_quantity(&quantity);
        validate_unit_price(&unit_price);
        Order { product_name, quantity, unit_price }
    }

    /// The total price of the order, in cents.
    pub fn total(&self) -> (r: u32)
        requires
            self.spec_quantity() * self.spec_unit_price() <= u32::MAX,
        ensures
            r == self.spec_quantity() * self.spec_unit_price(),
    {
        self.quantity * self.unit_price
    }

    /// The product name.
    pub fn product_name(&self) -> (r: &String)
        ensures
            r@ == self.spec_product_name(),
    {
        &self.product_name
    }

    /// The number of units.
    pub fn quantity(&self) -> (r: &u32)
        ensures
            *r == self.spec_quantity(),
    {
        &self.quantity
    }

    /// The price of one unit, in cents.
    pub fn unit_price(&self) -> (r: &u32)
        ensures
            *r == self.spec_unit_price(),
    {
        &self.unit_price
    }

    /// Replaces the product name; the other fields stay.
    pub fn set_product_name(&mut self, product_name: String)
        requires
            product_name_ok(product_name@),
        ensures
            final(self).spec_product_name() == product_name@,
            final(self).spec_quantity() == old(self).spec_quantity(),
            final(self).spec_unit_price() == old(self).spec_unit_price(),
    {
        validate_product_name(&product_name);
        self.product_name = product_name;
    }

    /// Replaces the quantity; the other fields stay.
    pub fn set_quantity(&mut self, quantity: u32)
        requires
            quantity > 0,
        ensures
            final(self).spec_quantity() == quantity,
            final(self).spec_product_name() == old(self).spec_product_name(),
            final(self).spec_unit_price() == old(self).spec_unit_price(),
    {
        validate_quantity(&quantity);
        self.quantity = quantity;
    }

    /// Replaces the unit price; the other fields stay.
    pub fn set_unit_price(&mut self, unit_price: u32)
        requires
            unit_price > 0,
        ensures
            final(self).spec_unit_price() == unit_price,
            final(self).spec_product_name() == old(self).spec_product_name(),
            final(self).spec_quantity() == old(self).spec_quantity(),
    {
        validate_unit_price(&unit_price);
        self.unit_price = unit_price;
    }
}

} // verus!
