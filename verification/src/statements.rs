//! Statement computation: the proration primitive, the period total, and
//! the immutable statement record built from them.

use vstd::prelude::*;

use crate::dates::Date;
use crate::expenses::{
    aggregate_expenses, lemma_matches_totals_of, spec_sum_amounts, spec_totals_of, Expense,
};
use crate::lease::{spec_evaluate, FeeStructure};
use crate::leaseholders::Leaseholder;
use crate::properties::Property;

verus! {

/// Scale of a proration rate: a rate of `RATE_SCALE` basis points is 100%.
pub const RATE_SCALE: u32 = 10000;

/// A tenant's share of a cost category, in fine units (cents times basis
/// points): `rate` is a coefficient in basis points, `total` the category's
/// cost in cents.
pub open spec fn spec_share(rate: int, total: int) -> int {
    rate * total
}

/// The single proration primitive: multiply a rate by the category's own
/// total. Exact; the result is in fine units.
pub fn calculate_share(rate: u32, total: u64) -> (r: u128)
    ensures
        r == spec_share(rate as int, total as int),
        r <= (u32::MAX as int) * (u64::MAX as int),
{
    proof {
        assert((rate as int) * (total as int) <= (u32::MAX as int) * (u64::MAX as int))
            by (nonlinear_arith)
            requires
                rate <= u32::MAX,
                total <= u64::MAX,
        ;
    }
    (rate as u128) * (total as u128)
}

/// Linearity law: a share is linear in both of its arguments. Splitting a
/// total (or a rate) in two and prorating the parts separately charges
/// exactly the same amount as prorating the whole.
pub proof fn lemma_share_linear(r1: int, r2: int, t1: int, t2: int)
    ensures
        spec_share(r1, t1 + t2) == spec_share(r1, t1) + spec_share(r1, t2),
        spec_share(r1 + r2, t1) == spec_share(r1, t1) + spec_share(r2, t1),
{
    assert(r1 * (t1 + t2) == r1 * t1 + r1 * t2) by (nonlinear_arith);
    assert((r1 + r2) * t1 == r1 * t1 + r2 * t1) by (nonlinear_arith);
}

/// A share of non-negative inputs never reduces what is owed.
pub proof fn lemma_share_nonneg(rate: int, total: int)
    requires
        rate >= 0,
        total >= 0,
    ensures
        spec_share(rate, total) >= 0,
{
    assert(rate * total >= 0) by (nonlinear_arith)
        requires
            rate >= 0,
            total >= 0,
    ;
}

} // verus!

verus! {

/// The exact total a leaseholder owes for a period: their fee structure
/// evaluated against the period's aggregated expense buckets and the
/// property's fixed cost totals. Result in fine units.
pub fn calculate_total(tenant: &Leaseholder, property: &Property, expenses: &Vec<Expense>) -> (r:
    u128)
    requires
        spec_sum_amounts(expenses@) <= u64::MAX,
    ensures
        r == spec_evaluate(
            tenant.lease.fee_structure,
            spec_totals_of(expenses@),
            property.property_tax as int,
            property.business_insurance as int,
        ),
{
    let cat = aggregate_expenses(expenses);
    proof {
        lemma_matches_totals_of(cat, expenses@);
    }
    tenant.lease.fee_structure.evaluate(&cat, property.property_tax, property.business_insurance)
}

/// The computed billing record for one leaseholder for one period:
/// immutable once constructed, with its total fixed at construction. The
/// total is in fine units; the amount paid, also fine units, starts at
/// zero.
#[derive(Clone, Debug)]
pub struct Statement {
    pub id: u32,
    pub date: Date,
    pub leaseholder_id: u32,
    pub statement_name: String,
    pub rates: FeeStructure,
    pub fees: Vec<Expense>,
    pub total: u128,
    pub amount_paid: u128,
}

impl Statement {
    /// Bind a billing date, a leaseholder and the period's pre-fetched
    /// expenses and property cost totals into a statement, computing the
    /// total here and nowhere else. An empty expense list is valid and
    /// yields zero-dollar category shares.
    pub fn new(date: Date, tenant: Leaseholder, property: &Property, fees: Vec<Expense>) -> (s:
        Statement)
        requires
            spec_sum_amounts(fees@) <= u64::MAX,
        ensures
            s.id == 0,
            s.date == date,
            s.leaseholder_id == tenant.id,
            s.statement_name == tenant.contact_info.name,
            s.rates == tenant.lease.fee_structure,
            s.fees == fees,
            s.total == spec_evaluate(
                tenant.lease.fee_structure,
                spec_totals_of(fees@),
                property.property_tax as int,
                property.business_insurance as int,
            ),
            s.amount_paid == 0,
    {
        let total = calculate_total(&tenant, property, &fees);
        Statement {
            id: 0,
            date,
            leaseholder_id: tenant.id,
            statement_name: tenant.contact_info.name,
            rates: tenant.lease.fee_structure,
            fees,
            total,
            amount_paid: 0,
        }
    }
}

/// Work items handed to the statement persistence worker.
pub enum StatementMessage {
    StatementCreated(Statement),
    StatementUpdate(Statement),
    StatementDelete(Statement),
    Quit,
}

} // verus!
