//! Lease fee structures: the four increasingly "net" commercial lease
//! tiers, their exact evaluator, and the statement display lines.

use vstd::prelude::*;

use crate::dates::Date;
use crate::expenses::{
    aggregate_expenses, lemma_matches_totals_of, spec_sum_amounts, spec_totals_of, CategoryTotals,
    Expense,
};
use crate::statements::{
    calculate_share, lemma_share_linear, lemma_share_nonneg, spec_share, RATE_SCALE,
};
use crate::text::{
    format_dollars, format_fixed4, format_percent, spec_dollars, spec_fixed4, spec_percent,
};

verus! {

/// Fixed base charge per period, in cents.
#[derive(Clone, Copy, Debug, PartialEq, Eq, Structural)]
pub struct Rent {
    pub base_rent: u64,
}

/// The leaseholder's share of the property's tax bill, in basis points.
#[derive(Clone, Copy, Debug, PartialEq, Eq, Structural)]
pub struct PropertyTaxRate {
    pub property_tax: u32,
}

/// The leaseholder's share of the building insurance premium, in basis
/// points.
#[derive(Clone, Copy, Debug, PartialEq, Eq, Structural)]
pub struct InsuranceRate {
    pub building_insurance: u32,
}

/// Common-area-maintenance proration coefficients, one per reimbursable
/// cost category, each independently in basis points.
#[derive(Clone, Copy, Debug, PartialEq, Eq, Structural)]
pub struct CAMRates {
    pub electicity: u32,
    pub recycling: u32,
    pub garbage: u32,
    pub water: u32,
    pub landscaping: u32,
    pub amenities: u32,
    pub misc: u32,
}

impl Default for CAMRates {
    /// The house defaults offered for a new triple-net lease.
    fn default() -> (r: CAMRates)
        ensures
            r == (CAMRates {
                electicity: 4000u32,
                recycling: 3000u32,
                garbage: 3000u32,
                water: 3000u32,
                landscaping: 3000u32,
                amenities: 2000u32,
                misc: 2000u32,
            }),
    {
        CAMRates {
            electicity: 4000,
            recycling: 3000,
            garbage: 3000,
            water: 3000,
            landscaping: 3000,
            amenities: 2000,
            misc: 2000,
        }
    }
}

/// How a lease's recurring charges are composed. Each tier is a strict
/// superset of the one before it; the variant is fixed for the life of a
/// lease, and changed terms mean a whole new value.
#[derive(Clone, Copy, Debug, PartialEq, Eq, Structural)]
pub enum FeeStructure {
    Gross { rent: Rent },
    SingleNet { rent: Rent, property_tax_rate: PropertyTaxRate },
    DoubleNet { rent: Rent, property_tax_rate: PropertyTaxRate, insurance_rate: InsuranceRate },
    TripleNet {
        rent: Rent,
        property_tax_rate: PropertyTaxRate,
        insurance_rate: InsuranceRate,
        cam_rates: CAMRates,
    },
}

/// Billing policy: gas costs are accumulated with the other buckets but
/// left out of the triple-net proration total. Flipping this one constant
/// passes the full gas total through to the tenant instead.
pub const GAS_PASSED_THROUGH: bool = false;

/// The exact amount a fee structure charges for a period, in fine units
/// (cents times basis points): the base rent plus, tier by tier, the
/// prorated shares of property tax, building insurance, and each
/// common-area cost category. The gas bucket follows the
/// `GAS_PASSED_THROUGH` policy; the garbage and recycling rates apply
/// jointly to the combined garbage/recycling bucket.
pub open spec fn spec_evaluate(
    fee: FeeStructure,
    t: CategoryTotals,
    property_tax_total: int,
    insurance_total: int,
) -> int {
    match fee {
        FeeStructure::Gross { rent } => rent.base_rent * RATE_SCALE,
        FeeStructure::SingleNet { rent, property_tax_rate } => rent.base_rent * RATE_SCALE
            + spec_share(property_tax_rate.property_tax as int, property_tax_total),
        FeeStructure::DoubleNet { rent, property_tax_rate, insurance_rate } => rent.base_rent
            * RATE_SCALE + spec_share(property_tax_rate.property_tax as int, property_tax_total)
            + spec_share(insurance_rate.building_insurance as int, insurance_total),
        FeeStructure::TripleNet { rent, property_tax_rate, insurance_rate, cam_rates } => rent
            .base_rent * RATE_SCALE + spec_share(
            property_tax_rate.property_tax as int,
            property_tax_total,
        ) + spec_share(insurance_rate.building_insurance as int, insurance_total) + spec_share(
            cam_rates.electicity as int,
            t.electricity as int,
        ) + spec_share(
            cam_rates.garbage + cam_rates.recycling,
            t.garbage_recycling as int,
        ) + spec_share(cam_rates.water as int, t.water as int) + spec_share(
            cam_rates.landscaping as int,
            t.landscaping as int,
        ) + spec_share(cam_rates.misc as int, t.misc as int) + if GAS_PASSED_THROUGH {
            t.gas * RATE_SCALE
        } else {
            0
        },
    }
}

impl FeeStructure {
    /// Compute the period's exact total due against the aggregated
    /// category totals and the property's two fixed cost totals (cents).
    pub fn evaluate(
        &self,
        totals: &CategoryTotals,
        property_tax_total: u64,
        insurance_total: u64,
    ) -> (r: u128)
        ensures
            r == spec_evaluate(*self, *totals, property_tax_total as int, insurance_total as int),
    {
        match *self {
            FeeStructure::Gross { rent } => (rent.base_rent as u128) * (RATE_SCALE as u128),
            FeeStructure::SingleNet { rent, property_tax_rate } => {
                let base = (rent.base_rent as u128) * (RATE_SCALE as u128);
                let tax_due = calculate_share(property_tax_rate.property_tax, property_tax_total);
                base + tax_due
            },
            FeeStructure::DoubleNet { rent, property_tax_rate, insurance_rate } => {
                let base = (rent.base_rent as u128) * (RATE_SCALE as u128);
                let tax_due = calculate_share(property_tax_rate.property_tax, property_tax_total);
                let insurance_due = calculate_share(
                    insurance_rate.building_insurance,
                    insurance_total,
                );
                base + tax_due + insurance_due
            },
            FeeStructure::TripleNet { rent, property_tax_rate, insurance_rate, cam_rates } => {
                let base = (rent.base_rent as u128) * (RATE_SCALE as u128);
                let tax_due = calculate_share(property_tax_rate.property_tax, property_tax_total);
                let insurance_due = calculate_share(
                    insurance_rate.building_insurance,
                    insurance_total,
                );
                let elec_due = calculate_share(cam_rates.electicity, totals.electricity);
                let garb_due = calculate_share(cam_rates.garbage, totals.garbage_recycling);
                let recycl_due = calculate_share(cam_rates.recycling, totals.garbage_recycling);
                proof {
                    lemma_share_linear(
                        cam_rates.garbage as int,
                        cam_rates.recycling as int,
                        totals.garbage_recycling as int,
                        0,
                    );
                }
                let water_due = calculate_share(cam_rates.water, totals.water);
                let landscaping_due = calculate_share(cam_rates.landscaping, totals.landscaping);
                let misc_due = calculate_share(cam_rates.misc, totals.misc);
                let mut r = base + tax_due + insurance_due + elec_due + (garb_due + recycl_due)
                    + water_due + landscaping_due + misc_due;
                if GAS_PASSED_THROUGH {
                    r = r + (totals.gas as u128) * (RATE_SCALE as u128);
                }
                r
            },
        }
    }
}

/// The statement display lines a fee structure produces, in the fixed
/// order: total due, rent, then one labelled rate line and one amount line
/// per cost section present in the tier. Amounts are rounded to cents and
/// rates to a tenth of a percent only here, for display; a gross lease
/// shows its rent line alone.
pub open spec fn spec_display_lines(
    fee: FeeStructure,
    t: CategoryTotals,
    property_tax_total: int,
    insurance_total: int,
) -> Seq<Seq<char>> {
    let total = spec_evaluate(fee, t, property_tax_total, insurance_total);
    match fee {
        FeeStructure::Gross { rent } => seq!["Rent: $"@ + spec_dollars(rent.base_rent * RATE_SCALE)],
        FeeStructure::SingleNet { rent, property_tax_rate } => seq![
            "Total Due: $"@ + spec_dollars(total),
            "Rent:"@,
            "$"@ + spec_dollars(rent.base_rent * RATE_SCALE),
            "Property Tax ("@ + spec_percent(property_tax_rate.property_tax as int) + "%):"@,
            "$"@ + spec_dollars(spec_share(property_tax_rate.property_tax as int, property_tax_total)),
        ],
        FeeStructure::DoubleNet { rent, property_tax_rate, insurance_rate } => seq![
            "Total Due: $"@ + spec_dollars(total),
            "Rent:"@,
            "$"@ + spec_dollars(rent.base_rent * RATE_SCALE),
            "Property Tax ("@ + spec_percent(property_tax_rate.property_tax as int) + "%):"@,
            "$"@ + spec_dollars(spec_share(property_tax_rate.property_tax as int, property_tax_total)),
            "Insurance ("@ + spec_percent(insurance_rate.building_insurance as int) + "%):"@,
            "$"@ + spec_dollars(spec_share(insurance_rate.building_insurance as int, insurance_total)),
        ],
        FeeStructure::TripleNet { rent, property_tax_rate, insurance_rate, cam_rates } => seq![
            "Total Due: $"@ + spec_dollars(total),
            "Rent:"@,
            "$"@ + spec_dollars(rent.base_rent * RATE_SCALE),
            "Property Tax ("@ + spec_percent(property_tax_rate.property_tax as int) + "%):"@,
            "$"@ + spec_dollars(spec_share(property_tax_rate.property_tax as int, property_tax_total)),
            "Insurance ("@ + spec_percent(insurance_rate.building_insurance as int) + "%):"@,
            "$"@ + spec_dollars(spec_share(insurance_rate.building_insurance as int, insurance_total)),
            "Electricity ("@ + spec_percent(cam_rates.electicity as int) + "%):"@,
            "$"@ + spec_dollars(spec_share(cam_rates.electicity as int, t.electricity as int)),
            "Garbage/Recycling ("@ + spec_percent(cam_rates.garbage as int) + "% / "@ + spec_percent(
                cam_rates.recycling as int,
            ) + "%):"@,
            "$"@ + spec_dollars(
                spec_share(cam_rates.garbage + cam_rates.recycling, t.garbage_recycling as int),
            ),
            "Water/Sewer ("@ + spec_percent(cam_rates.water as int) + "%):"@,
            "$"@ + spec_dollars(spec_share(cam_rates.water as int, t.water as int)),
            "Landscaping ("@ + spec_percent(cam_rates.landscaping as int) + "%):"@,
            "$"@ + spec_dollars(spec_share(cam_rates.landscaping as int, t.landscaping as int)),
            "Miscellaneous ("@ + spec_percent(cam_rates.misc as int) + "%):"@,
            "$"@ + spec_dollars(spec_share(cam_rates.misc as int, t.misc as int)),
        ],
    }
}

fn money_line(fine: u128) -> (s: String)
    requires
        fine + 5000 <= u128::MAX,
    ensures
        s@ == "$"@ + spec_dollars(fine as int),
{
    let mut s = String::from_str("$");
    let d = format_dollars(fine);
    s.append(d.as_str());
    s
}

fn rate_line(label: &str, bp: u32) -> (s: String)
    ensures
        s@ == label@ + spec_percent(bp as int) + "%):"@,
{
    let mut s = String::from_str(label);
    let p = format_percent(bp);
    s.append(p.as_str());
    s.append("%):");
    s
}

impl FeeStructure {
    /// Aggregate a period's expenses and render the ordered display lines
    /// for this fee structure against the property's fixed cost totals.
    pub fn display_amounts_due(
        &self,
        totals: Vec<Expense>,
        prop_tax: u64,
        bus_insurance: u64,
    ) -> (lines: Vec<String>)
        requires
            spec_sum_amounts(totals@) <= u64::MAX,
        ensures
            ({
                let out = spec_display_lines(
                    *self,
                    spec_totals_of(totals@),
                    prop_tax as int,
                    bus_insurance as int,
                );
                lines@.len() == out.len() && forall|k: int|
                    0 <= k < out.len() ==> lines@[k]@ == out[k]
            }),
    {
        let cat = aggregate_expenses(&totals);
        proof {
            lemma_matches_totals_of(cat, totals@);
        }
        let total = self.evaluate(&cat, prop_tax, bus_insurance);
        let mut lines: Vec<String> = Vec::new();
        match *self {
            FeeStructure::Gross { rent } => {
                let mut s = String::from_str("Rent: $");
                let d = format_dollars((rent.base_rent as u128) * (RATE_SCALE as u128));
                s.append(d.as_str());
                lines.push(s);
            },
            FeeStructure::SingleNet { rent, property_tax_rate } => {
                let tax_due = calculate_share(property_tax_rate.property_tax, prop_tax);
                let mut s = String::from_str("Total Due: $");
                let d = format_dollars(total);
                s.append(d.as_str());
                lines.push(s);
                lines.push(String::from_str("Rent:"));
                lines.push(money_line((rent.base_rent as u128) * (RATE_SCALE as u128)));
                lines.push(rate_line("Property Tax (", property_tax_rate.property_tax));
                lines.push(money_line(tax_due));
            },
            FeeStructure::DoubleNet { rent, property_tax_rate, insurance_rate } => {
                let tax_due = calculate_share(property_tax_rate.property_tax, prop_tax);
                let insurance_due = calculate_share(
                    insurance_rate.building_insurance,
                    bus_insurance,
                );
                let mut s = String::from_str("Total Due: $");
                let d = format_dollars(total);
                s.append(d.as_str());
                lines.push(s);
                lines.push(String::from_str("Rent:"));
                lines.push(money_line((rent.base_rent as u128) * (RATE_SCALE as u128)));
                lines.push(rate_line("Property Tax (", property_tax_rate.property_tax));
                lines.push(money_line(tax_due));
                lines.push(rate_line("Insurance (", insurance_rate.building_insurance));
                lines.push(money_line(insurance_due));
            },
            FeeStructure::TripleNet { rent, property_tax_rate, insurance_rate, cam_rates } => {
                let tax_due = calculate_share(property_tax_rate.property_tax, prop_tax);
                let insurance_due = calculate_share(
                    insurance_rate.building_insurance,
                    bus_insurance,
                );
                let elec_due = calculate_share(cam_rates.electicity, cat.electricity);
                let garb_due = calculate_share(cam_rates.garbage, cat.garbage_recycling);
                let recycl_due = calculate_share(cam_rates.recycling, cat.garbage_recycling);
                proof {
                    lemma_share_linear(
                        cam_rates.garbage as int,
                        cam_rates.recycling as int,
                        cat.garbage_recycling as int,
                        0,
                    );
                }
                let water_due = calculate_share(cam_rates.water, cat.water);
                let landscaping_due = calculate_share(cam_rates.landscaping, cat.landscaping);
                let misc_due = calculate_share(cam_rates.misc, cat.misc);
                let mut s = String::from_str("Total Due: $");
                let d = format_dollars(total);
                s.append(d.as_str());
                lines.push(s);
                lines.push(String::from_str("Rent:"));
                lines.push(money_line((rent.base_rent as u128) * (RATE_SCALE as u128)));
                lines.push(rate_line("Property Tax (", property_tax_rate.property_tax));
                lines.push(money_line(tax_due));
                lines.push(rate_line("Insurance (", insurance_rate.building_insurance));
                lines.push(money_line(insurance_due));
                lines.push(rate_line("Electricity (", cam_rates.electicity));
                lines.push(money_line(elec_due));
                let mut g = String::from_str("Garbage/Recycling (");
                let p1 = format_percent(cam_rates.garbage);
                g.append(p1.as_str());
                g.append("% / ");
                let p2 = format_percent(cam_rates.recycling);
                g.append(p2.as_str());
                g.append("%):");
                lines.push(g);
                lines.push(money_line(garb_due + recycl_due));
                lines.push(rate_line("Water/Sewer (", cam_rates.water));
                lines.push(money_line(water_due));
                lines.push(rate_line("Landscaping (", cam_rates.landscaping));
                lines.push(money_line(landscaping_due));
                lines.push(rate_line("Miscellaneous (", cam_rates.misc));
                lines.push(money_line(misc_due));
            },
        }
        lines
    }
}

/// Gross-lease law: a gross lease owes exactly its base rent, whatever
/// the period's expenses and the property's cost totals.
pub proof fn lemma_gross_invariant(
    rent: Rent,
    t: CategoryTotals,
    property_tax_total: int,
    insurance_total: int,
)
    ensures
        spec_evaluate(FeeStructure::Gross { rent }, t, property_tax_total, insurance_total)
            == rent.base_rent * RATE_SCALE,
{
}

/// Tier monotonicity law: with the same rent, rates and non-negative cost
/// totals, each net tier owes at least as much as the tier below it.
pub proof fn lemma_net_tiers_monotonic(
    rent: Rent,
    property_tax_rate: PropertyTaxRate,
    insurance_rate: InsuranceRate,
    cam_rates: CAMRates,
    t: CategoryTotals,
    property_tax_total: int,
    insurance_total: int,
)
    requires
        property_tax_total >= 0,
        insurance_total >= 0,
    ensures
        spec_evaluate(
            FeeStructure::TripleNet { rent, property_tax_rate, insurance_rate, cam_rates },
            t,
            property_tax_total,
            insurance_total,
        ) >= spec_evaluate(
            FeeStructure::DoubleNet { rent, property_tax_rate, insurance_rate },
            t,
            property_tax_total,
            insurance_total,
        ),
        spec_evaluate(
            FeeStructure::DoubleNet { rent, property_tax_rate, insurance_rate },
            t,
            property_tax_total,
            insurance_total,
        ) >= spec_evaluate(
            FeeStructure::SingleNet { rent, property_tax_rate },
            t,
            property_tax_total,
            insurance_total,
        ),
        spec_evaluate(
            FeeStructure::SingleNet { rent, property_tax_rate },
            t,
            property_tax_total,
            insurance_total,
        ) >= spec_evaluate(
            FeeStructure::Gross { rent },
            t,
            property_tax_total,
            insurance_total,
        ),
{
    lemma_share_nonneg(property_tax_rate.property_tax as int, property_tax_total);
    lemma_share_nonneg(insurance_rate.building_insurance as int, insurance_total);
    lemma_share_nonneg(cam_rates.electicity as int, t.electricity as int);
    lemma_share_nonneg(cam_rates.garbage + cam_rates.recycling, t.garbage_recycling as int);
    lemma_share_nonneg(cam_rates.water as int, t.water as int);
    lemma_share_nonneg(cam_rates.landscaping as int, t.landscaping as int);
    lemma_share_nonneg(cam_rates.misc as int, t.misc as int);
}

/// A lease binds a fee structure to a term and a payment method.
#[derive(Clone, Debug)]
pub struct Lease {
    pub id: u16,
    pub start_date: Date,
    pub end_date: Date,
    pub fee_structure: FeeStructure,
    pub payment_method: String,
}

impl Lease {
    /// A fresh lease record; identity is assigned on persistence.
    pub fn new(
        start_date: Date,
        end_date: Date,
        fee_structure: FeeStructure,
        payment_method: String,
    ) -> (l: Lease)
        ensures
            l.id == 0,
            l.start_date == start_date,
            l.end_date == end_date,
            l.fee_structure == fee_structure,
            l.payment_method == payment_method,
    {
        Lease { id: 0, start_date, end_date, fee_structure, payment_method }
    }
}

} // verus!

verus! {

/// The structured text a lease's fee terms are persisted as: the tier
/// name, then each numeric field in order, the rent in exact dollars and
/// every rate as an exact four-decimal fraction, so that a decoded value
/// is bit-identical to the encoded one.
pub open spec fn spec_encode_fee(fee: FeeStructure) -> Seq<char> {
    match fee {
        FeeStructure::Gross { rent } => "Gross: Base Rent "@ + spec_dollars(
            rent.base_rent * RATE_SCALE,
        ),
        FeeStructure::SingleNet { rent, property_tax_rate } => "Single Net: Base Rent "@
            + spec_dollars(rent.base_rent * RATE_SCALE) + ", Property Tax Rate "@ + spec_fixed4(
            property_tax_rate.property_tax as int,
        ),
        FeeStructure::DoubleNet { rent, property_tax_rate, insurance_rate } => "Double Net: Base Rent "@
            + spec_dollars(rent.base_rent * RATE_SCALE) + ", Property Tax Rate "@ + spec_fixed4(
            property_tax_rate.property_tax as int,
        ) + ", Insurance Rate "@ + spec_fixed4(insurance_rate.building_insurance as int),
        FeeStructure::TripleNet { rent, property_tax_rate, insurance_rate, cam_rates } => "Triple Net: Base Rent "@
            + spec_dollars(rent.base_rent * RATE_SCALE) + ", Property Tax Rate "@ + spec_fixed4(
            property_tax_rate.property_tax as int,
        ) + ", Insurance Rate "@ + spec_fixed4(insurance_rate.building_insurance as int)
            + ", CAM Rates "@ + spec_fixed4(cam_rates.electicity as int) + " "@ + spec_fixed4(
            cam_rates.recycling as int,
        ) + " "@ + spec_fixed4(cam_rates.garbage as int) + " "@ + spec_fixed4(
            cam_rates.water as int,
        ) + " "@ + spec_fixed4(cam_rates.landscaping as int) + " "@ + spec_fixed4(
            cam_rates.amenities as int,
        ) + " "@ + spec_fixed4(cam_rates.misc as int),
    }
}

impl FeeStructure {
    /// Encode the fee terms for persistence.
    pub fn encode_to_database_string(&self) -> (s: String)
        ensures
            s@ == spec_encode_fee(*self),
    {
        match *self {
            FeeStructure::Gross { rent } => {
                let mut s = String::from_str("Gross: Base Rent ");
                let d = format_dollars((rent.base_rent as u128) * (RATE_SCALE as u128));
                s.append(d.as_str());
                s
            },
            FeeStructure::SingleNet { rent, property_tax_rate } => {
                let mut s = String::from_str("Single Net: Base Rent ");
                let d = format_dollars((rent.base_rent as u128) * (RATE_SCALE as u128));
                s.append(d.as_str());
                s.append(", Property Tax Rate ");
                let t = format_fixed4(property_tax_rate.property_tax);
                s.append(t.as_str());
                s
            },
            FeeStructure::DoubleNet { rent, property_tax_rate, insurance_rate } => {
                let mut s = String::from_str("Double Net: Base Rent ");
                let d = format_dollars((rent.base_rent as u128) * (RATE_SCALE as u128));
                s.append(d.as_str());
                s.append(", Property Tax Rate ");
                let t = format_fixed4(property_tax_rate.property_tax);
                s.append(t.as_str());
                s.append(", Insurance Rate ");
                let ins = format_fixed4(insurance_rate.building_insurance);
                s.append(ins.as_str());
                s
            },
            FeeStructure::TripleNet { rent, property_tax_rate, insurance_rate, cam_rates } => {
                let mut s = String::from_str("Triple Net: Base Rent ");
                let d = format_dollars((rent.base_rent as u128) * (RATE_SCALE as u128));
                s.append(d.as_str());
                s.append(", Property Tax Rate ");
                let t = format_fixed4(property_tax_rate.property_tax);
                s.append(t.as_str());
                s.append(", Insurance Rate ");
                let ins = format_fixed4(insurance_rate.building_insurance);
                s.append(ins.as_str());
                s.append(", CAM Rates ");
                let r0 = format_fixed4(cam_rates.electicity);
                s.append(r0.as_str());
                s.append(" ");
                let r1 = format_fixed4(cam_rates.recycling);
                s.append(r1.as_str());
                s.append(" ");
                let r2 = format_fixed4(cam_rates.garbage);
                s.append(r2.as_str());
                s.append(" ");
                let r3 = format_fixed4(cam_rates.water);
                s.append(r3.as_str());
                s.append(" ");
                let r4 = format_fixed4(cam_rates.landscaping);
                s.append(r4.as_str());
                s.append(" ");
                let r5 = format_fixed4(cam_rates.amenities);
                s.append(r5.as_str());
                s.append(" ");
                let r6 = format_fixed4(cam_rates.misc);
                s.append(r6.as_str());
                s
            },
        }
    }
}

} // verus!
