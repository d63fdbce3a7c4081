//! Configuration, catalog and request payload shapes.

use vstd::prelude::*;
use crate::country::Country;
use crate::country::FPSCountry;

verus! {

/// Everything the supervisor is asked to run.
#[derive(Debug, PartialEq)]
pub struct Config {
    pub tasks: Vec<TaskConfig>,
}

/// One product and the buyers who want it.
#[derive(Debug, PartialEq)]
pub struct TaskConfig {
    pub product: String,
    pub profiles: Vec<Profile>,
}

/// A buyer: contact, card and the two addresses. The delivery address
/// decides the storefront.
#[derive(Debug, PartialEq)]
pub struct Profile {
    pub email: String,
    pub phone: String,
    pub card: Card,
    pub delivery: Address,
    pub billing: Address,
}

#[derive(Debug, PartialEq)]
pub struct Card {
    pub number: String,
    pub expiry_month: i64,
    pub expiry_year: i64,
    pub cvv: String,
}

#[derive(Debug, PartialEq)]
pub struct Address {
    pub first_name: String,
    pub last_name: String,
    pub address1: String,
    pub address2: Option<String>,
    pub zip: String,
    pub city: String,
    pub country: Country,
    pub state: Option<String>,
}

fn clone_text(text: &Option<String>) -> (copy: Option<String>)
    ensures
        copy == *text,
{
    match text {
        Some(t) => Some(t.clone()),
        None => None,
    }
}

impl Clone for Card {
    fn clone(&self) -> (copy: Self)
        ensures
            copy == *self,
    {
        Card {
            number: self.number.clone(),
            expiry_month: self.expiry_month,
            expiry_year: self.expiry_year,
            cvv: self.cvv.clone(),
        }
    }
}

impl Clone for Address {
    fn clone(&self) -> (copy: Self)
        ensures
            copy == *self,
    {
        Address {
            first_name: self.first_name.clone(),
            last_name: self.last_name.clone(),
            address1: self.address1.clone(),
            address2: clone_text(&self.address2),
            zip: self.zip.clone(),
            city: self.city.clone(),
            country: self.country.clone(),
            state: clone_text(&self.state),
        }
    }
}

impl Clone for Profile {
    fn clone(&self) -> (copy: Self)
        ensures
            copy == *self,
    {
        Profile {
            email: self.email.clone(),
            phone: self.phone.clone(),
            card: self.card.clone(),
            delivery: self.delivery.clone(),
            billing: self.billing.clone(),
        }
    }
}

/// An address as the order's address patch carries it.
#[derive(Debug, Clone, Copy, PartialEq)]
pub struct FPSAddress<'a> {
    pub first_name: &'a str,
    pub last_name: &'a str,
    pub country: &'a FPSCountry,
    pub address_line1: &'a str,
    pub address_line2: &'a str,
    pub address_line3: &'a str,
    pub city: FPSCity<'a>,
    pub state: FPSState<'a>,
    pub zip_code: &'a str,
    pub phone: &'a str,
}

#[derive(Debug, Clone, Copy, PartialEq)]
pub struct FPSCity<'a> {
    pub name: &'a str,
}

#[derive(Debug, Clone, Copy, PartialEq)]
pub struct FPSState<'a> {
    pub name: &'a str,
}

/// The body of the address patch: billing and shipping.
#[derive(Debug, Clone, Copy, PartialEq)]
pub struct FPSPatchAddress<'a> {
    pub billing_address: FPSAddress<'a>,
    pub shipping_address: FPSAddress<'a>,
}

/// The catalog's record of one product.
#[derive(Default, Debug, PartialEq)]
pub struct ProductResult {
    pub id: i64,
    pub short_description: String,
    pub tag: i64,
    pub variants: Vec<Variant>,
    pub has_parent_product: bool,
    pub parent_product_id: i64,
    pub made_in: String,
    pub is_online: bool,
    pub is_exclusive: bool,
    pub is_customizable: bool,
    pub style_id: i64,
    pub scale_id: i64,
}

/// One purchasable size of a product, with the stock the catalog reports.
#[derive(Default, Debug, PartialEq)]
pub struct Variant {
    pub id: String,
    pub merchant_id: i64,
    pub formatted_price: String,
    pub quantity: i64,
    pub size: String,
}

impl Clone for Variant {
    fn clone(&self) -> (copy: Self)
        ensures
            copy == *self,
    {
        Variant {
            id: self.id.clone(),
            merchant_id: self.merchant_id,
            formatted_price: self.formatted_price.clone(),
            quantity: self.quantity,
            size: self.size.clone(),
        }
    }
}

/// The body of an order creation.
#[derive(Default, Debug, PartialEq)]
pub struct FPSCreateOrder<'a> {
    pub guest_user_email: &'a str,
    pub use_payment_intent: bool,
    pub shipping_mode: &'a str,
    pub items: Vec<FPSItem>,
}

#[derive(Default, Debug, PartialEq)]
pub struct FPSItem {
    pub merchant_id: i64,
    pub product_id: i64,
    pub quantity: i64,
    pub variant_id: String,
}

/// The body of the finalize call: the card and the payment method.
#[derive(Default, Debug, PartialEq)]
pub struct FPSCardPaymentIntent<'a> {
    pub card_number: &'a str,
    pub card_holder_name: String,
    pub card_expiry_month: i64,
    pub card_expiry_year: i64,
    pub card_cvv: &'a str,
    pub payment_method_type: &'a str,
    pub payment_method_id: &'a str,
    pub save_payment_method_as_token: bool,
}

} // verus!
