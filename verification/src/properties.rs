//! Properties: the cost-input source a statement prorates against.

use vstd::prelude::*;

verus! {

/// A street address, held as plain text fields.
#[derive(Clone, Debug)]
pub struct Address {
    pub street_address: String,
    pub city: String,
    pub state: String,
    pub zip_code: String,
}

impl Address {
    pub fn new(address: String, city: String, state: String, zip_code: String) -> (a: Address)
        ensures
            a.street_address == address,
            a.city == city,
            a.state == state,
            a.zip_code == zip_code,
    {
        Address { street_address: address, city, state, zip_code }
    }
}

/// A rental property and its two fixed per-period cost totals, in cents,
/// against which tax and insurance rates are prorated.
#[derive(Clone, Debug)]
pub struct Property {
    pub id: u32,
    pub name: String,
    pub address: Address,
    pub property_tax: u64,
    pub business_insurance: u64,
    pub num_units: u32,
}

impl Property {
    pub fn new(
        id: u32,
        name: String,
        address: Address,
        property_tax: u64,
        business_insurance: u64,
        num_units: u32,
    ) -> (p: Property)
        ensures
            p.id == id,
            p.name == name,
            p.address == address,
            p.property_tax == property_tax,
            p.business_insurance == business_insurance,
            p.num_units == num_units,
    {
        Property { id, name, address, property_tax, business_insurance, num_units }
    }
}

/// Work items handed to the property persistence worker.
pub enum PropertyMessage {
    PropertyCreated(Property),
    PropertyUpdate(Property),
    Quit,
}

} // verus!
