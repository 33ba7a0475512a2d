//! Vendors: the address part of a vendor, the errors of the vendor source,
//! and the use case that reads vendors.
use vstd::prelude::*;

verus! {

/// The address of a vendor branch.
#[derive(Debug, Clone, PartialEq, Eq)]
pub struct VendorAddress {
    pub city: String,
    pub street_number: String,
}

/// The text a vendor address is displayed with.
pub open spec fn vendor_address_text(city: Seq<char>, street_number: Seq<char>) -> Seq<char> {
    "VendorAddress(city: "@ + city + ", street_number: "@ + street_number + ")"@
}

impl VendorAddress {
    pub fn new(city: String, street_number: String) -> (r: VendorAddress)
        ensures
            r.city@ == city@,
            r.street_number@ == street_number@,
    {
        VendorAddress { city, street_number }
    }

    /// The text this address is displayed with.
    pub fn to_string(&self) -> (r: String)
        ensures
            r@ == vendor_address_text(self.city@, self.street_number@),
    {
        let mut r = String::from_str("VendorAddress(city: ");
        r.append(self.city.as_str());
        r.append(", street_number: ");
        r.append(self.street_number.as_str());
        r.append(")");
        r
    }
}

/// Failures of the vendor source.
#[derive(Debug, Clone, PartialEq, Eq)]
pub enum VendorError {
    NotFound,
    InvalidResponse(String),
    Unavailable(String),
}

/// The message a vendor error is displayed with.
pub open spec fn vendor_error_text(e: VendorError) -> Seq<char> {
    match e {
        VendorError::NotFound => "Vendor not found"@,
        VendorError::InvalidResponse(s) => "Vendor response is invalid: "@ + s@,
        VendorError::Unavailable(s) => "Vendor source is unavailable: "@ + s@,
    }
}

impl VendorError {
    /// The message this error is displayed with.
    pub fn to_string(&self) -> (r: String)
        ensures
            r@ == vendor_error_text(*self),
    {
        match self {
            VendorError::NotFound => String::from_str("Vendor not found"),
            VendorError::InvalidResponse(s) => {
                let mut r = String::from_str("Vendor response is invalid: ");
                r.append(s.as_str());
                r
            },
            VendorError::Unavailable(s) => {
                let mut r = String::from_str("Vendor source is unavailable: ");
                r.append(s.as_str());
                r
            },
        }
    }
}

/// The use case of reading all vendors from a vendor source.
pub struct GetVendorsUseCase<TVendorSource> {
    vendor_source: TVendorSource,
}

impl<TVendorSource> GetVendorsUseCase<TVendorSource> {
    pub fn new(vendor_source: TVendorSource) -> (r: Self)
        ensures
            r.source() == vendor_source,
    {
        Self { vendor_source }
    }

    pub closed spec fn source(&self) -> TVendorSource {
        self.vendor_source
    }

    /// The vendor source the use case reads from.
    pub fn vendor_source(&self) -> (r: &TVendorSource)
        ensures
            *r == self.source(),
    {
        &self.vendor_source
    }
}

} // verus!
