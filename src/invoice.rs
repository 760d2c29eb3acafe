//! The data an invoice is made from.
//!
//! Money and hours are signed fixed-point values with two decimal places:
//! `hourly_rate` is in hundredths of the currency unit, `hours_worked` in
//! hundredths of an hour, so their product is exact in ten-thousandths.
//! Nothing here checks a sign: a negative value is shown as it is.
use vstd::prelude::*;
use crate::money::product_ten_thousandths;

verus! {

/// The beneficiary's bank details, printed as given.
#[derive(Clone, Debug)]
pub struct BankData {
    pub beneficiary_account_name: String,
    pub bank_name: String,
    pub bank_address: String,
    pub account_type: String,
    pub account_number: String,
    pub wire_routing: String,
    pub swift_code: String,
}

/// The beneficiary's postal address.
#[derive(Clone, Debug)]
pub struct AddressData {
    pub beneficiary_address_line1: String,
    pub beneficiary_address_line2: Option<String>,
    pub beneficiary_address_state: String,
    pub beneficiary_address_city: String,
    pub beneficiary_address_zip: String,
}

/// The client who is billed.
#[derive(Clone, Debug)]
pub struct ClientData {
    pub name: String,
    pub address_line1: String,
    pub address_line2: Option<String>,
    pub email: Option<String>,
}

/// Everything one invoice shows.
#[derive(Clone, Debug)]
pub struct InvoiceData {
    pub client: ClientData,
    pub bank_data: BankData,
    pub address_data: AddressData,
    pub service_description: String,
    /// Hundredths of the currency unit per hour.
    pub hourly_rate: i64,
    /// Hundredths of an hour.
    pub hours_worked: i64,
    pub invoice_number: String,
    pub notes: Option<String>,
    pub invoice_date: String,
}

/// An optional field is shown when it is present and not empty.
pub open spec fn shown(o: Option<String>) -> bool {
    o is Some && o->0@.len() > 0
}

/// Whether an optional field is shown.
pub fn is_shown(o: &Option<String>) -> (r: bool)
    ensures
        r == shown(*o),
{
    match o {
        Some(s) => s.as_str().unicode_len() > 0,
        None => false,
    }
}

impl InvoiceData {
    /// The exact total, rate times hours, in ten-thousandths.
    pub open spec fn total_spec(&self) -> int {
        self.hourly_rate as int * self.hours_worked as int
    }

    /// The exact total, rate times hours, in ten-thousandths.
    pub fn calculate_total(&self) -> (r: i128)
        ensures
            r == self.total_spec(),
            r > i128::MIN,
    {
        product_ten_thousandths(self.hourly_rate, self.hours_worked)
    }
}

} // verus!
