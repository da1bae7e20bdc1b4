//! Leaseholders: the tenants of record, their contact details and their
//! leases.

use vstd::prelude::*;

use crate::dates::Date;
use crate::lease::Lease;
use crate::properties::Address;

verus! {

/// Contact details for a leaseholder, with the remittance address printed
/// on statements.
#[derive(Clone, Debug)]
pub struct ContactInformation {
    pub name: String,
    pub remittence_address: Address,
    pub email: String,
    pub phone_number: String,
}

impl ContactInformation {
    pub fn new(
        name: String,
        remittence_address: Address,
        email: String,
        phone_number: String,
    ) -> (c: ContactInformation)
        ensures
            c.name == name,
            c.remittence_address == remittence_address,
            c.email == email,
            c.phone_number == phone_number,
    {
        ContactInformation { name, remittence_address, email, phone_number }
    }

    /// The remittance address as one display line:
    /// `"street city, state zip"`.
    pub fn get_address_string(&self) -> (s: String)
        ensures
            s@ == self.remittence_address.street_address@ + " "@
                + self.remittence_address.city@ + ", "@ + self.remittence_address.state@ + " "@
                + self.remittence_address.zip_code@,
    {
        let mut s = self.remittence_address.street_address.clone();
        s.append(" ");
        s.append(self.remittence_address.city.as_str());
        s.append(", ");
        s.append(self.remittence_address.state.as_str());
        s.append(" ");
        s.append(self.remittence_address.zip_code.as_str());
        s
    }
}

/// A tenant of record: their lease, the property they occupy, and their
/// contact details.
#[derive(Clone, Debug)]
pub struct Leaseholder {
    pub id: u32,
    pub lease: Lease,
    pub property_id: u32,
    pub contact_info: ContactInformation,
    pub move_in_date: Date,
}

impl Leaseholder {
    pub fn new(
        id: u32,
        lease: Lease,
        property_id: u32,
        contact_info: ContactInformation,
        move_in_date: Date,
    ) -> (l: Leaseholder)
        ensures
            l.id == id,
            l.lease == lease,
            l.property_id == property_id,
            l.contact_info == contact_info,
            l.move_in_date == move_in_date,
    {
        Leaseholder { id, lease, property_id, contact_info, move_in_date }
    }
}

/// A person leaseholder.
#[derive(Clone, Debug)]
pub struct Individual {
    pub first_name: String,
    pub last_name: String,
}

/// A company leaseholder.
#[derive(Clone, Debug)]
pub struct Company {
    pub name: String,
    pub tax_id_number: u32,
}

impl Company {
    pub fn new(name: String, tax_id_number: u32) -> (c: Company)
        ensures
            c.name == name,
            c.tax_id_number == tax_id_number,
    {
        Company { name, tax_id_number }
    }
}

/// Whether a leaseholder is a company or a person.
#[derive(Clone, Debug)]
pub enum LeaseholderType {
    CompanyLeaseholder(Company),
    IndividualLeaseholder(Individual),
}

impl LeaseholderType {
    /// The display name: the company's name, or `"first last"` for a
    /// person.
    pub fn get_name(&self) -> (s: String)
        ensures
            match *self {
                LeaseholderType::CompanyLeaseholder(c) => s@ == c.name@,
                LeaseholderType::IndividualLeaseholder(i) => s@ == i.first_name@ + " "@
                    + i.last_name@,
            },
    {
        match self {
            LeaseholderType::CompanyLeaseholder(c) => c.name.clone(),
            LeaseholderType::IndividualLeaseholder(i) => {
                let mut s = i.first_name.clone();
                s.append(" ");
                s.append(i.last_name.as_str());
                s
            },
        }
    }
}

/// Work items handed to the leaseholder persistence worker.
pub enum LeaseholderMessage {
    LeaseholderCreated(Leaseholder),
    LeaseholderUpdate(Leaseholder),
    LeaseholderDelete(Leaseholder),
    Quit,
}

} // verus!
