use hestia::dates::Date;
use hestia::expenses::{
    aggregate_expenses, expenses_total_fits, Expense, ExpenseType, MaintenanceType, UtilitiesType,
};
use hestia::lease::{CAMRates, FeeStructure, InsuranceRate, Lease, PropertyTaxRate, Rent};
use hestia::leaseholders::{ContactInformation, Leaseholder};
use hestia::properties::{Address, Property};
use hestia::statements::{calculate_total, Statement};

fn scenario_property() -> Property {
    Property::new(
        1,
        "name".to_string(),
        Address::new(
            "address".to_string(),
            "city".to_string(),
            "state".to_string(),
            "zip_code".to_string(),
        ),
        100_000,
        95_000,
        10,
    )
}

fn scenario_fee_structure() -> FeeStructure {
    FeeStructure::TripleNet {
        rent: Rent { base_rent: 170_000 },
        property_tax_rate: PropertyTaxRate { property_tax: 2000 },
        insurance_rate: InsuranceRate { building_insurance: 1500 },
        cam_rates: CAMRates {
            electicity: 3000,
            recycling: 3000,
            garbage: 3000,
            water: 3000,
            landscaping: 3000,
            amenities: 3000,
            misc: 1000,
        },
    }
}

fn scenario_leaseholder() -> Leaseholder {
    let lease = Lease::new(
        Date::from_ymd(2024, 3, 1).unwrap(),
        Date::from_ymd(2025, 2, 28).unwrap(),
        scenario_fee_structure(),
        "Check".to_string(),
    );
    Leaseholder::new(
        7,
        lease,
        1,
        ContactInformation::new(
            "John Example".to_string(),
            Address::new(
                "3322 S 55th Street".to_string(),
                "Seattle".to_string(),
                "WA".to_string(),
                "97132".to_string(),
            ),
            "JohnSmith@gmail.com".to_string(),
            "2064445555".to_string(),
        ),
        Date::from_ymd(2024, 3, 1).unwrap(),
    )
}

fn scenario_expenses() -> Vec<Expense> {
    let day = Date::from_ymd(2024, 3, 10).unwrap();
    vec![
        Expense::new(
            1,
            ExpenseType::Maintenance(MaintenanceType::Landscaping),
            10_000,
            day,
            "Normal Maintenance".to_string(),
        ),
        Expense::new(
            1,
            ExpenseType::Utilities(UtilitiesType::Electricity),
            192_000,
            day,
            "Electricity Bill".to_string(),
        ),
        Expense::new(
            1,
            ExpenseType::Utilities(UtilitiesType::Water),
            45_000,
            day,
            "Water Bill".to_string(),
        ),
        Expense::new(1, ExpenseType::Other, 10_000, day, "Rat Abatement".to_string()),
    ]
}

#[test]
fn triple_net_scenario_total() {
    // Property tax $1000 at 20%, insurance $950 at 15%, electricity $1920
    // at 30%, water $450 at 30%, landscaping $100 at 30%, misc $100 at
    // 10%, no garbage expenses: $2793.50 on top of $1700 rent.
    let total = calculate_total(&scenario_leaseholder(), &scenario_property(), &scenario_expenses());
    assert_eq!(total, 2_793_500_000);
}

#[test]
fn triple_net_scenario_display_lines() {
    let lines = scenario_fee_structure().display_amounts_due(scenario_expenses(), 100_000, 95_000);
    let expected = vec![
        "Total Due: $2793.50",
        "Rent:",
        "$1700.00",
        "Property Tax (20.0%):",
        "$200.00",
        "Insurance (15.0%):",
        "$142.50",
        "Electricity (30.0%):",
        "$576.00",
        "Garbage/Recycling (30.0% / 30.0%):",
        "$0.00",
        "Water/Sewer (30.0%):",
        "$135.00",
        "Landscaping (30.0%):",
        "$30.00",
        "Miscellaneous (10.0%):",
        "$10.00",
    ];
    assert_eq!(lines.len(), expected.len());
    for (line, want) in lines.iter().zip(expected.iter()) {
        assert_eq!(line, want);
    }
}

#[test]
fn gross_lease_owes_exactly_the_rent() {
    let mut tenant = scenario_leaseholder();
    tenant.lease.fee_structure = FeeStructure::Gross { rent: Rent { base_rent: 170_000 } };
    let total = calculate_total(&tenant, &scenario_property(), &scenario_expenses());
    assert_eq!(total, 1_700_000_000);
    let no_expenses = calculate_total(&tenant, &scenario_property(), &vec![]);
    assert_eq!(no_expenses, 1_700_000_000);
}

#[test]
fn gross_display_is_a_single_rent_line() {
    let fee = FeeStructure::Gross { rent: Rent { base_rent: 170_000 } };
    let lines = fee.display_amounts_due(scenario_expenses(), 100_000, 95_000);
    assert_eq!(lines.len(), 1);
    assert_eq!(lines[0], "Rent: $1700.00");
}

#[test]
fn net_tiers_are_monotonic_on_the_scenario() {
    let rent = Rent { base_rent: 170_000 };
    let tax = PropertyTaxRate { property_tax: 2000 };
    let ins = InsuranceRate { building_insurance: 1500 };
    let cam = CAMRates {
        electicity: 3000,
        recycling: 3000,
        garbage: 3000,
        water: 3000,
        landscaping: 3000,
        amenities: 3000,
        misc: 1000,
    };
    let mut tenant = scenario_leaseholder();
    let property = scenario_property();
    let expenses = scenario_expenses();
    tenant.lease.fee_structure = FeeStructure::Gross { rent };
    let gross = calculate_total(&tenant, &property, &expenses);
    tenant.lease.fee_structure = FeeStructure::SingleNet { rent, property_tax_rate: tax };
    let single = calculate_total(&tenant, &property, &expenses);
    tenant.lease.fee_structure =
        FeeStructure::DoubleNet { rent, property_tax_rate: tax, insurance_rate: ins };
    let double = calculate_total(&tenant, &property, &expenses);
    tenant.lease.fee_structure = FeeStructure::TripleNet {
        rent,
        property_tax_rate: tax,
        insurance_rate: ins,
        cam_rates: cam,
    };
    let triple = calculate_total(&tenant, &property, &expenses);
    assert!(gross <= single);
    assert!(single <= double);
    assert!(double <= triple);
    assert_eq!(single, gross + 200_000_000);
    assert_eq!(double, single + 142_500_000);
}

#[test]
fn gas_is_accumulated_but_not_billed() {
    let day = Date::from_ymd(2024, 3, 10).unwrap();
    let mut expenses = scenario_expenses();
    expenses.push(Expense::new(
        1,
        ExpenseType::Utilities(UtilitiesType::Gas),
        77_700,
        day,
        "Gas Bill".to_string(),
    ));
    let totals = aggregate_expenses(&expenses);
    assert_eq!(totals.gas, 77_700);
    let with_gas = calculate_total(&scenario_leaseholder(), &scenario_property(), &expenses);
    assert_eq!(with_gas, 2_793_500_000);
}

#[test]
fn aggregation_buckets_cover_every_amount() {
    let totals = aggregate_expenses(&scenario_expenses());
    assert_eq!(totals.electricity, 192_000);
    assert_eq!(totals.garbage_recycling, 0);
    assert_eq!(totals.water, 45_000);
    assert_eq!(totals.gas, 0);
    assert_eq!(totals.landscaping, 10_000);
    assert_eq!(totals.misc, 10_000);
    let sum: u64 = totals.electricity
        + totals.garbage_recycling
        + totals.water
        + totals.gas
        + totals.landscaping
        + totals.misc;
    let direct: u64 = scenario_expenses().iter().map(|e| e.amount).sum();
    assert_eq!(sum, direct);
}

#[test]
fn misc_absorbs_every_uncategorized_kind() {
    let day = Date::from_ymd(2024, 3, 10).unwrap();
    let expenses = vec![
        Expense::new(1, ExpenseType::Maintenance(MaintenanceType::Repairs), 1, day, "".to_string()),
        Expense::new(
            1,
            ExpenseType::Maintenance(MaintenanceType::Cleaning),
            10,
            day,
            "".to_string(),
        ),
        Expense::new(1, ExpenseType::Maintenance(MaintenanceType::Other), 100, day, "".to_string()),
        Expense::new(1, ExpenseType::Utilities(UtilitiesType::Other), 1000, day, "".to_string()),
        Expense::new(1, ExpenseType::Other, 10000, day, "".to_string()),
    ];
    let totals = aggregate_expenses(&expenses);
    assert_eq!(totals.misc, 11_111);
    assert_eq!(totals.electricity, 0);
}

#[test]
fn statement_construction_fixes_the_total() {
    let tenant = scenario_leaseholder();
    let statement = Statement::new(
        Date::from_ymd(2024, 3, 1).unwrap(),
        tenant.clone(),
        &scenario_property(),
        scenario_expenses(),
    );
    assert_eq!(statement.id, 0);
    assert_eq!(statement.leaseholder_id, 7);
    assert_eq!(statement.statement_name, "John Example");
    assert_eq!(statement.total, 2_793_500_000);
    assert_eq!(statement.amount_paid, 0);
    assert_eq!(statement.fees.len(), 4);
    assert_eq!(statement.date, Date::from_ymd(2024, 3, 1).unwrap());
}

#[test]
fn statement_with_no_expenses_is_valid() {
    let statement = Statement::new(
        Date::from_ymd(2024, 3, 1).unwrap(),
        scenario_leaseholder(),
        &scenario_property(),
        vec![],
    );
    // Rent, tax and insurance still accrue; every category share is zero.
    assert_eq!(statement.total, 1_700_000_000 + 200_000_000 + 142_500_000);
}

#[test]
fn expense_sum_guard() {
    assert!(expenses_total_fits(&scenario_expenses()));
    let day = Date::from_ymd(2024, 3, 10).unwrap();
    let huge = vec![
        Expense::new(1, ExpenseType::Other, u64::MAX, day, "".to_string()),
        Expense::new(1, ExpenseType::Other, 1, day, "".to_string()),
    ];
    assert!(!expenses_total_fits(&huge));
}

#[test]
fn fee_structure_database_encoding() {
    assert_eq!(
        FeeStructure::Gross { rent: Rent { base_rent: 170_000 } }.encode_to_database_string(),
        "Gross: Base Rent 1700.00"
    );
    assert_eq!(
        FeeStructure::SingleNet {
            rent: Rent { base_rent: 170_000 },
            property_tax_rate: PropertyTaxRate { property_tax: 2000 },
        }
        .encode_to_database_string(),
        "Single Net: Base Rent 1700.00, Property Tax Rate 0.2000"
    );
    assert_eq!(
        scenario_fee_structure().encode_to_database_string(),
        "Triple Net: Base Rent 1700.00, Property Tax Rate 0.2000, Insurance Rate 0.1500, \
         CAM Rates 0.3000 0.3000 0.3000 0.3000 0.3000 0.3000 0.1000"
    );
}

#[test]
fn contact_information_address_line() {
    let tenant = scenario_leaseholder();
    assert_eq!(
        tenant.contact_info.get_address_string(),
        "3322 S 55th Street Seattle, WA 97132"
    );
}

#[test]
fn aggregation_is_order_independent() {
    let mut forward = scenario_expenses();
    let totals_forward = aggregate_expenses(&forward);
    forward.reverse();
    let totals_reversed = aggregate_expenses(&forward);
    assert_eq!(totals_forward, totals_reversed);
}
