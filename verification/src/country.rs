//! The storefront a profile delivers to, with the constants the vendor's
//! API wants for it.

use vstd::prelude::*;

verus! {

/// The vendor's own notion of a country, as address payloads carry it.
#[derive(Debug, PartialEq)]
pub struct FPSCountry {
    pub id: isize,
    pub name: String,
}

impl Clone for FPSCountry {
    fn clone(&self) -> (copy: Self)
        ensures
            copy == *self,
    {
        FPSCountry { id: self.id, name: self.name.clone() }
    }
}

/// A storefront locale. The `code` is its key: two values with the same
/// code name the same storefront and share one polling stream.
#[derive(Debug, PartialEq)]
pub struct Country {
    pub code: String,
    pub base_url: String,
    pub currency: String,
    pub language: String,
    pub fps: FPSCountry,
}

impl Clone for Country {
    fn clone(&self) -> (copy: Self)
        ensures
            copy == *self,
    {
        Country {
            code: self.code.clone(),
            base_url: self.base_url.clone(),
            currency: self.currency.clone(),
            language: self.language.clone(),
            fps: self.fps.clone(),
        }
    }
}

impl Country {
    /// The key by which storefronts are told apart.
    pub open spec fn key(&self) -> Seq<char> {
        self.code@
    }

    /// The storefront's code, as the vendor's country header carries it.
    pub fn as_static(&self) -> (code: &str)
        ensures
            code@ == self.key(),
    {
        self.code.as_str()
    }

    /// The root of the storefront's API.
    pub fn fps_base_url(&self) -> (url: &str)
        ensures
            url@ == self.base_url@,
    {
        self.base_url.as_str()
    }

    /// The currency code the storefront charges in.
    pub fn fps_currency(&self) -> (currency: &str)
        ensures
            currency@ == self.currency@,
    {
        self.currency.as_str()
    }

    /// The language preference sent with every request.
    pub fn accept_language(&self) -> (language: &str)
        ensures
            language@ == self.language@,
    {
        self.language.as_str()
    }

    /// The vendor's country record for address payloads.
    pub fn fps_country(&self) -> (fps: &FPSCountry)
        ensures
            *fps == self.fps,
    {
        &self.fps
    }

    /// Whether both values name the same storefront.
    pub fn same_storefront(&self, other: &Country) -> (same: bool)
        ensures
            same == (self.key() == other.key()),
    {
        self.code == other.code
    }
}

} // verus!
