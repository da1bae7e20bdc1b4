//! The landlord company whose details head every statement.

use vstd::prelude::*;

use crate::properties::Address;

verus! {

/// Contact details for the company's contact person.
#[derive(Clone, Debug)]
pub struct ContactInformation {
    pub first_name: String,
    pub last_name: String,
    pub email: String,
    pub phone_number: String,
}

impl ContactInformation {
    pub fn new(
        first_name: String,
        last_name: String,
        email: String,
        phone_number: String,
    ) -> (c: ContactInformation)
        ensures
            c.first_name == first_name,
            c.last_name == last_name,
            c.email == email,
            c.phone_number == phone_number,
    {
        ContactInformation { first_name, last_name, email, phone_number }
    }
}

/// The company issuing statements: name, remittance address, tax identity
/// and a contact person.
#[derive(Clone, Debug)]
pub struct Company {
    pub name: String,
    pub remittence_address: Address,
    pub tax_id_number: u32,
    pub contact_info: ContactInformation,
}

impl Company {
    pub fn new(
        name: String,
        remittence_address: Address,
        tax_id_number: u32,
        contact_info: ContactInformation,
    ) -> (c: Company)
        ensures
            c.name == name,
            c.remittence_address == remittence_address,
            c.tax_id_number == tax_id_number,
            c.contact_info == contact_info,
    {
        Company { name, remittence_address, tax_id_number, contact_info }
    }
}

} // verus!
