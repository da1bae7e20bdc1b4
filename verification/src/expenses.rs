//! Expense records and the two-level closed expense taxonomy, with its
//! stable `"Main: Sub"` wire encoding and the classifier that folds every
//! expense into one of six aggregation buckets.

use vstd::prelude::*;

use crate::dates::Date;
use crate::text::str_eq;

verus! {

#[derive(Clone, Copy, Debug, PartialEq, Eq, Structural)]
pub enum MaintenanceType {
    Repairs,
    Cleaning,
    Landscaping,
    Other,
}

#[derive(Clone, Copy, Debug, PartialEq, Eq, Structural)]
pub enum UtilitiesType {
    Water,
    Electricity,
    Garbage,
    Gas,
    Other,
}

/// The closed two-level expense taxonomy. Unknown categories decode to the
/// nearest `Other` variant rather than failing.
#[derive(Clone, Copy, Debug, PartialEq, Eq, Structural)]
pub enum ExpenseType {
    Maintenance(MaintenanceType),
    Utilities(UtilitiesType),
    Other,
}

/// The main-category word of the wire encoding.
pub open spec fn spec_main_str(t: ExpenseType) -> Seq<char> {
    match t {
        ExpenseType::Maintenance(_) => "Maintenance"@,
        ExpenseType::Utilities(_) => "Utilities"@,
        ExpenseType::Other => "Other"@,
    }
}

/// The sub-category word of the wire encoding; empty for the bare `Other`
/// category.
pub open spec fn spec_sub_str(t: ExpenseType) -> Seq<char> {
    match t {
        ExpenseType::Maintenance(m) => match m {
            MaintenanceType::Repairs => "Repairs"@,
            MaintenanceType::Cleaning => "Cleaning"@,
            MaintenanceType::Landscaping => "Landscaping"@,
            MaintenanceType::Other => "Other"@,
        },
        ExpenseType::Utilities(u) => match u {
            UtilitiesType::Water => "Water"@,
            UtilitiesType::Electricity => "Electricity"@,
            UtilitiesType::Garbage => "Garbage"@,
            UtilitiesType::Gas => "Gas"@,
            UtilitiesType::Other => "Other"@,
        },
        ExpenseType::Other => ""@,
    }
}

/// What a `(main, sub)` pair of category words decodes to. Unrecognized
/// sub-words fall back to that main category's `Other`; an unrecognized
/// main word falls back to the top-level `Other`.
pub open spec fn spec_parse(main: Seq<char>, sub: Seq<char>) -> ExpenseType {
    if main == "Maintenance"@ {
        if sub == "Repairs"@ {
            ExpenseType::Maintenance(MaintenanceType::Repairs)
        } else if sub == "Cleaning"@ {
            ExpenseType::Maintenance(MaintenanceType::Cleaning)
        } else if sub == "Landscaping"@ {
            ExpenseType::Maintenance(MaintenanceType::Landscaping)
        } else {
            ExpenseType::Maintenance(MaintenanceType::Other)
        }
    } else if main == "Utilities"@ {
        if sub == "Water"@ {
            ExpenseType::Utilities(UtilitiesType::Water)
        } else if sub == "Electricity"@ {
            ExpenseType::Utilities(UtilitiesType::Electricity)
        } else if sub == "Garbage"@ {
            ExpenseType::Utilities(UtilitiesType::Garbage)
        } else if sub == "Gas"@ {
            ExpenseType::Utilities(UtilitiesType::Gas)
        } else {
            ExpenseType::Utilities(UtilitiesType::Other)
        }
    } else {
        ExpenseType::Other
    }
}

/// The wire encoding: `"Main: Sub"`, or the bare word `"Other"` for the
/// uncategorized expense, which has no sub-part.
pub open spec fn spec_encode(t: ExpenseType) -> Seq<char> {
    match t {
        ExpenseType::Other => "Other"@,
        _ => spec_main_str(t) + ": "@ + spec_sub_str(t),
    }
}

/// Index of the first `':'` in a sequence, or -1 when there is none.
pub open spec fn spec_colon_idx(s: Seq<char>) -> int
    decreases s.len(),
{
    if s.len() == 0 {
        -1
    } else if s[0] == ':' {
        0
    } else {
        let r = spec_colon_idx(s.drop_first());
        if r < 0 {
            -1
        } else {
            r + 1
        }
    }
}

pub open spec fn spec_trim_front(s: Seq<char>) -> Seq<char>
    decreases s.len(),
{
    if s.len() > 0 && s[0] == ' ' {
        spec_trim_front(s.drop_first())
    } else {
        s
    }
}

pub open spec fn spec_trim_back(s: Seq<char>) -> Seq<char>
    decreases s.len(),
{
    if s.len() > 0 && s[s.len() - 1] == ' ' {
        spec_trim_back(s.drop_last())
    } else {
        s
    }
}

/// A sequence with its leading and trailing spaces removed.
pub open spec fn spec_trim(s: Seq<char>) -> Seq<char> {
    spec_trim_back(spec_trim_front(s))
}

/// What decoding an arbitrary wire string yields: the text is split at the
/// first `':'` (or taken whole, with an empty sub-part, when there is
/// none), both parts are trimmed of spaces, and the word pair is looked up
/// in the taxonomy.
pub open spec fn spec_decode(s: Seq<char>) -> ExpenseType {
    let i = spec_colon_idx(s);
    if i >= 0 {
        spec_parse(spec_trim(s.take(i)), spec_trim(s.skip(i + 1)))
    } else {
        spec_parse(spec_trim(s), Seq::empty())
    }
}

proof fn lemma_colon_idx_at(s: Seq<char>, k: int)
    requires
        0 <= k <= s.len(),
        forall|j: int| 0 <= j < k ==> s[j] != ':',
        k < s.len() ==> s[k] == ':',
    ensures
        k == s.len() ==> spec_colon_idx(s) == -1,
        k < s.len() ==> spec_colon_idx(s) == k,
    decreases s.len(),
{
    if s.len() == 0 {
    } else if s[0] == ':' {
        assert(k == 0);
    } else {
        assert(k > 0);
        lemma_colon_idx_at(s.drop_first(), k - 1);
    }
}

proof fn lemma_trim_front_skip(s: Seq<char>, k: int)
    requires
        0 <= k <= s.len(),
        forall|j: int| 0 <= j < k ==> s[j] == ' ',
        k < s.len() ==> s[k] != ' ',
    ensures
        spec_trim_front(s) =~= s.skip(k),
    decreases k,
{
    if k == 0 {
        assert(spec_trim_front(s) =~= s);
    } else {
        assert(s[0] == ' ');
        lemma_trim_front_skip(s.drop_first(), k - 1);
        assert(s.drop_first().skip(k - 1) =~= s.skip(k));
    }
}

proof fn lemma_trim_back_take(s: Seq<char>, k: int)
    requires
        0 <= k <= s.len(),
        forall|j: int| k <= j < s.len() ==> s[j] == ' ',
        k > 0 ==> s[k - 1] != ' ',
    ensures
        spec_trim_back(s) =~= s.take(k),
    decreases s.len(),
{
    if k == s.len() {
        if s.len() > 0 {
            assert(s[s.len() - 1] != ' ');
        }
        assert(spec_trim_back(s) =~= s.take(k));
    } else {
        assert(s[s.len() - 1] == ' ');
        lemma_trim_back_take(s.drop_last(), k);
        assert(s.drop_last().take(k) =~= s.take(k));
    }
}

impl ExpenseType {
    /// Look a `(main, sub)` category word pair up in the taxonomy. Unknown
    /// words degrade to the nearest `Other` variant, never an error.
    pub fn parse_string(maintype: &str, subtype: &str) -> (t: ExpenseType)
        ensures
            t == spec_parse(maintype@, subtype@),
    {
        if str_eq(maintype, "Maintenance") {
            if str_eq(subtype, "Repairs") {
                ExpenseType::Maintenance(MaintenanceType::Repairs)
            } else if str_eq(subtype, "Cleaning") {
                ExpenseType::Maintenance(MaintenanceType::Cleaning)
            } else if str_eq(subtype, "Landscaping") {
                ExpenseType::Maintenance(MaintenanceType::Landscaping)
            } else {
                ExpenseType::Maintenance(MaintenanceType::Other)
            }
        } else if str_eq(maintype, "Utilities") {
            if str_eq(subtype, "Water") {
                ExpenseType::Utilities(UtilitiesType::Water)
            } else if str_eq(subtype, "Electricity") {
                ExpenseType::Utilities(UtilitiesType::Electricity)
            } else if str_eq(subtype, "Garbage") {
                ExpenseType::Utilities(UtilitiesType::Garbage)
            } else if str_eq(subtype, "Gas") {
                ExpenseType::Utilities(UtilitiesType::Gas)
            } else {
                ExpenseType::Utilities(UtilitiesType::Other)
            }
        } else {
            ExpenseType::Other
        }
    }

    /// The category as its two wire words; the sub-word is empty for the
    /// bare `Other` category.
    pub fn to_split_strings(&self) -> (r: (String, String))
        ensures
            r.0@ == spec_main_str(*self),
            r.1@ == spec_sub_str(*self),
    {
        match self {
            ExpenseType::Maintenance(m) => {
                let sub = match m {
                    MaintenanceType::Repairs => String::from_str("Repairs"),
                    MaintenanceType::Cleaning => String::from_str("Cleaning"),
                    MaintenanceType::Landscaping => String::from_str("Landscaping"),
                    MaintenanceType::Other => String::from_str("Other"),
                };
                (String::from_str("Maintenance"), sub)
            },
            ExpenseType::Utilities(u) => {
                let sub = match u {
                    UtilitiesType::Water => String::from_str("Water"),
                    UtilitiesType::Electricity => String::from_str("Electricity"),
                    UtilitiesType::Garbage => String::from_str("Garbage"),
                    UtilitiesType::Gas => String::from_str("Gas"),
                    UtilitiesType::Other => String::from_str("Other"),
                };
                (String::from_str("Utilities"), sub)
            },
            ExpenseType::Other => (String::from_str("Other"), String::from_str("")),
        }
    }

    /// Encode the category in its stable wire form, `"Main: Sub"` or bare
    /// `"Other"`.
    pub fn encode(&self) -> (s: String)
        ensures
            s@ == spec_encode(*self),
    {
        match self {
            ExpenseType::Other => String::from_str("Other"),
            _ => {
                let (main, sub) = self.to_split_strings();
                let mut s = main;
                proof {
                    reveal_strlit(": ");
                }
                s.append(": ");
                s.append(sub.as_str());
                s
            },
        }
    }

    /// Decode a wire string: split at the first `':'`, trim spaces, look
    /// the word pair up. Never fails; unknown text degrades to `Other`.
    pub fn decode(s: &str) -> (t: ExpenseType)
        ensures
            t == spec_decode(s@),
    {
        let len = s.unicode_len();
        let mut i: usize = 0;
        let mut found = false;
        while i < len && !found
            invariant
                i <= len,
                len == s@.len(),
                !found ==> forall|j: int| 0 <= j < i ==> s@[j] != ':',
                found ==> i < len && s@[i as int] == ':' && forall|j: int|
                    0 <= j < i ==> s@[j] != ':',
            decreases len - i + (if found {
                0int
            } else {
                1int
            }),
        {
            if s.get_char(i) == ':' {
                found = true;
            } else {
                i = i + 1;
            }
        }
        if found {
            proof {
                lemma_colon_idx_at(s@, i as int);
            }
            let main = s.substring_char(0, i);
            let sub = s.substring_char(i + 1, len);
            proof {
                assert(main@ =~= s@.take(i as int));
                assert(sub@ =~= s@.skip(i as int + 1));
            }
            ExpenseType::parse_string(trim_spaces(main), trim_spaces(sub))
        } else {
            proof {
                lemma_colon_idx_at(s@, len as int);
                reveal_strlit("");
                assert(""@ =~= Seq::<char>::empty());
            }
            ExpenseType::parse_string(trim_spaces(s), "")
        }
    }
}

/// Strip leading and trailing spaces from a string slice.
pub fn trim_spaces<'a>(s: &'a str) -> (r: &'a str)
    ensures
        r@ == spec_trim(s@),
{
    let len = s.unicode_len();
    let mut start: usize = 0;
    while start < len && s.get_char(start) == ' '
        invariant
            start <= len,
            len == s@.len(),
            forall|j: int| 0 <= j < start ==> s@[j] == ' ',
        decreases len - start,
    {
        start = start + 1;
    }
    let mut end: usize = len;
    while end > start && s.get_char(end - 1) == ' '
        invariant
            start <= end <= len,
            len == s@.len(),
            forall|j: int| end <= j < len ==> s@[j] == ' ',
        decreases end,
    {
        end = end - 1;
    }
    proof {
        lemma_trim_front_skip(s@, start as int);
        lemma_trim_back_take(s@.skip(start as int), end - start);
        assert(s@.skip(start as int).take(end - start) =~= s@.subrange(
            start as int,
            end as int,
        ));
    }
    s.substring_char(start, end)
}

/// Decoding the wire encoding of a well-formed `"Main: Sub"` pair splits
/// it back into exactly the original words.
proof fn lemma_decode_encoded(main: Seq<char>, sub: Seq<char>)
    requires
        main.len() > 0,
        sub.len() > 0,
        forall|j: int| 0 <= j < main.len() ==> main[j] != ':',
        main[0] != ' ',
        main[main.len() - 1] != ' ',
        forall|j: int| 0 <= j < sub.len() ==> sub[j] != ' ',
    ensures
        spec_decode(main + ": "@ + sub) == spec_parse(main, sub),
{
    reveal_strlit(": ");
    let e = main + ": "@ + sub;
    let m = main.len() as int;
    assert(e[m] == ':');
    assert(forall|j: int| 0 <= j < m ==> e[j] == main[j]);
    lemma_colon_idx_at(e, m);
    assert(e.take(m) =~= main);
    assert(e.skip(m + 1) =~= seq![' '] + sub);
    lemma_trim_front_skip(main, 0);
    lemma_trim_back_take(main, main.len() as int);
    assert(spec_trim(e.take(m)) == main);
    let tail = seq![' '] + sub;
    lemma_trim_front_skip(tail, 1);
    assert(tail.skip(1) =~= sub);
    lemma_trim_back_take(sub, sub.len() as int);
    assert(spec_trim(e.skip(m + 1)) == sub);
}

/// Round-trip law: every category in the closed taxonomy survives encoding
/// to and decoding from its wire string unchanged.
pub proof fn lemma_expense_type_round_trip(t: ExpenseType)
    ensures
        spec_decode(spec_encode(t)) == t,
{
    reveal_strlit("Maintenance");
    reveal_strlit("Utilities");
    reveal_strlit("Other");
    reveal_strlit("Repairs");
    reveal_strlit("Cleaning");
    reveal_strlit("Landscaping");
    reveal_strlit("Water");
    reveal_strlit("Electricity");
    reveal_strlit("Garbage");
    reveal_strlit("Gas");
    match t {
        ExpenseType::Maintenance(m) => {
            match m {
                MaintenanceType::Repairs => lemma_decode_encoded("Maintenance"@, "Repairs"@),
                MaintenanceType::Cleaning => lemma_decode_encoded("Maintenance"@, "Cleaning"@),
                MaintenanceType::Landscaping => lemma_decode_encoded(
                    "Maintenance"@,
                    "Landscaping"@,
                ),
                MaintenanceType::Other => lemma_decode_encoded("Maintenance"@, "Other"@),
            }
        },
        ExpenseType::Utilities(u) => {
            match u {
                UtilitiesType::Water => lemma_decode_encoded("Utilities"@, "Water"@),
                UtilitiesType::Electricity => lemma_decode_encoded("Utilities"@, "Electricity"@),
                UtilitiesType::Garbage => lemma_decode_encoded("Utilities"@, "Garbage"@),
                UtilitiesType::Gas => lemma_decode_encoded("Utilities"@, "Gas"@),
                UtilitiesType::Other => {
                    lemma_decode_encoded("Utilities"@, "Other"@);
                    // "Other" and "Water" have equal length; point at the
                    // differing first character.
                    assert("Other"@[0] == 'O');
                    assert("Water"@[0] == 'W');
                },
            }
        },
        ExpenseType::Other => {
            let s = "Other"@;
            lemma_colon_idx_at(s, s.len() as int);
            lemma_trim_front_skip(s, 0);
            lemma_trim_back_take(s, s.len() as int);
            assert(spec_trim(s) == s);
        },
    }
}

/// A single recorded cost event for a property. The amount is in cents.
#[derive(Clone, Debug)]
pub struct Expense {
    pub id: u32,
    pub property_id: u32,
    pub expense_type: ExpenseType,
    pub amount: u64,
    pub date: Date,
    pub description: String,
}

impl Expense {
    /// A fresh expense record; identity is assigned on persistence, so it
    /// starts at zero.
    pub fn new(
        property_id: u32,
        expense_type: ExpenseType,
        amount: u64,
        date: Date,
        description: String,
    ) -> (e: Expense)
        ensures
            e.id == 0,
            e.property_id == property_id,
            e.expense_type == expense_type,
            e.amount == amount,
            e.date == date,
            e.description == description,
    {
        Expense { id: 0, property_id, expense_type, amount, date, description }
    }
}

/// Lifecycle states of a maintenance request.
#[derive(Clone, Copy, Debug, PartialEq, Eq, Structural)]
pub enum RequestStatus {
    Received,
    InProgress,
    Completed,
    Cancelled,
    OnHold,
}

pub open spec fn spec_status_label(s: RequestStatus) -> Seq<char> {
    match s {
        RequestStatus::Received => "RequestStatus: Received"@,
        RequestStatus::InProgress => "RequestStatus: In Progress"@,
        RequestStatus::Completed => "RequestStatus: Completed"@,
        RequestStatus::Cancelled => "RequestStatus: Cancelled"@,
        RequestStatus::OnHold => "RequestStatus: On Hold"@,
    }
}

impl RequestStatus {
    /// The status as the text persisted with a maintenance request.
    pub fn label(&self) -> (s: String)
        ensures
            s@ == spec_status_label(*self),
    {
        match self {
            RequestStatus::Received => String::from_str("RequestStatus: Received"),
            RequestStatus::InProgress => String::from_str("RequestStatus: In Progress"),
            RequestStatus::Completed => String::from_str("RequestStatus: Completed"),
            RequestStatus::Cancelled => String::from_str("RequestStatus: Cancelled"),
            RequestStatus::OnHold => String::from_str("RequestStatus: On Hold"),
        }
    }
}

/// A tenant's maintenance request, tracked from receipt to completion.
#[derive(Clone, Debug)]
pub struct MaintenanceRequest {
    pub request_id: u32,
    pub leaseholder_id: u32,
    pub request_date: Date,
    pub request_type: MaintenanceType,
    pub description: String,
    pub status: RequestStatus,
    pub completion_date: Option<Date>,
}

} // verus!

verus! {

/// The six aggregation buckets a statement prorates against. Garbage and
/// recycling share one combined bucket; misc absorbs repairs, cleaning,
/// both `Other` sub-categories and the top-level `Other`.
#[derive(Clone, Copy, Debug, PartialEq, Eq, Structural)]
pub enum Bucket {
    Electricity,
    GarbageRecycling,
    Water,
    Gas,
    Landscaping,
    Misc,
}

/// The single bucket a category's amounts are summed into.
pub open spec fn spec_bucket(t: ExpenseType) -> Bucket {
    match t {
        ExpenseType::Maintenance(m) => match m {
            MaintenanceType::Landscaping => Bucket::Landscaping,
            _ => Bucket::Misc,
        },
        ExpenseType::Utilities(u) => match u {
            UtilitiesType::Water => Bucket::Water,
            UtilitiesType::Electricity => Bucket::Electricity,
            UtilitiesType::Garbage => Bucket::GarbageRecycling,
            UtilitiesType::Gas => Bucket::Gas,
            UtilitiesType::Other => Bucket::Misc,
        },
        ExpenseType::Other => Bucket::Misc,
    }
}

impl ExpenseType {
    /// Classify the category into its aggregation bucket.
    pub fn bucket(&self) -> (b: Bucket)
        ensures
            b == spec_bucket(*self),
    {
        match self {
            ExpenseType::Maintenance(m) => match m {
                MaintenanceType::Landscaping => Bucket::Landscaping,
                _ => Bucket::Misc,
            },
            ExpenseType::Utilities(u) => match u {
                UtilitiesType::Water => Bucket::Water,
                UtilitiesType::Electricity => Bucket::Electricity,
                UtilitiesType::Garbage => Bucket::GarbageRecycling,
                UtilitiesType::Gas => Bucket::Gas,
                UtilitiesType::Other => Bucket::Misc,
            },
            ExpenseType::Other => Bucket::Misc,
        }
    }
}

/// The sum of every expense amount in the sequence, in cents.
pub open spec fn spec_sum_amounts(s: Seq<Expense>) -> int
    decreases s.len(),
{
    if s.len() == 0 {
        0
    } else {
        spec_sum_amounts(s.drop_last()) + s.last().amount
    }
}

/// The sum of the amounts of the expenses that fall in bucket `b`.
pub open spec fn spec_bucket_total(s: Seq<Expense>, b: Bucket) -> int
    decreases s.len(),
{
    if s.len() == 0 {
        0
    } else {
        spec_bucket_total(s.drop_last(), b) + if spec_bucket(s.last().expense_type) == b {
            s.last().amount as int
        } else {
            0
        }
    }
}

/// Exhaustiveness law: every expense lands in exactly one bucket, so the
/// six bucket totals together account for every cent exactly once.
pub proof fn lemma_bucket_partition(s: Seq<Expense>)
    ensures
        spec_bucket_total(s, Bucket::Electricity) + spec_bucket_total(s, Bucket::GarbageRecycling)
            + spec_bucket_total(s, Bucket::Water) + spec_bucket_total(s, Bucket::Gas)
            + spec_bucket_total(s, Bucket::Landscaping) + spec_bucket_total(s, Bucket::Misc)
            == spec_sum_amounts(s),
    decreases s.len(),
{
    if s.len() > 0 {
        lemma_bucket_partition(s.drop_last());
    }
}

/// Each bucket total is bounded by the sum of all amounts.
proof fn lemma_bucket_total_le_sum(s: Seq<Expense>, b: Bucket)
    ensures
        0 <= spec_bucket_total(s, b) <= spec_sum_amounts(s),
    decreases s.len(),
{
    if s.len() > 0 {
        lemma_bucket_total_le_sum(s.drop_last(), b);
    }
}

/// Extending a prefix by one expense extends its sums by that expense.
proof fn lemma_sums_step(s: Seq<Expense>, i: int, b: Bucket)
    requires
        0 <= i < s.len(),
    ensures
        spec_sum_amounts(s.take(i + 1)) == spec_sum_amounts(s.take(i)) + s[i].amount,
        spec_bucket_total(s.take(i + 1), b) == spec_bucket_total(s.take(i), b) + if spec_bucket(
            s[i].expense_type,
        ) == b {
            s[i].amount as int
        } else {
            0
        },
{
    assert(s.take(i + 1).drop_last() =~= s.take(i));
    assert(s.take(i + 1).last() == s[i]);
}

/// The sum of a prefix never exceeds the sum of the whole sequence.
proof fn lemma_sum_take_le(s: Seq<Expense>, i: int)
    requires
        0 <= i <= s.len(),
    ensures
        spec_sum_amounts(s.take(i)) <= spec_sum_amounts(s),
    decreases s.len() - i,
{
    if i == s.len() {
        assert(s.take(i) =~= s);
    } else {
        lemma_sums_step(s, i, Bucket::Misc);
        lemma_sum_take_le(s, i + 1);
    }
}

/// Per-period cost totals by bucket, in cents.
#[derive(Clone, Copy, Debug, PartialEq, Eq, Structural)]
pub struct CategoryTotals {
    pub electricity: u64,
    pub garbage_recycling: u64,
    pub water: u64,
    pub gas: u64,
    pub landscaping: u64,
    pub misc: u64,
}

impl CategoryTotals {
    /// The totals are exactly the bucket sums of the given expenses.
    pub open spec fn matches(self, s: Seq<Expense>) -> bool {
        &&& self.electricity == spec_bucket_total(s, Bucket::Electricity)
        &&& self.garbage_recycling == spec_bucket_total(s, Bucket::GarbageRecycling)
        &&& self.water == spec_bucket_total(s, Bucket::Water)
        &&& self.gas == spec_bucket_total(s, Bucket::Gas)
        &&& self.landscaping == spec_bucket_total(s, Bucket::Landscaping)
        &&& self.misc == spec_bucket_total(s, Bucket::Misc)
    }
}

/// Reduce a period's expense list to its six bucket totals. Summation is
/// plain addition in cents; the result depends only on which expenses are
/// present, not on their order.
pub fn aggregate_expenses(expenses: &Vec<Expense>) -> (t: CategoryTotals)
    requires
        spec_sum_amounts(expenses@) <= u64::MAX,
    ensures
        t.matches(expenses@),
{
    let mut electricity: u64 = 0;
    let mut garbage_recycling: u64 = 0;
    let mut water: u64 = 0;
    let mut gas: u64 = 0;
    let mut landscaping: u64 = 0;
    let mut misc: u64 = 0;
    let n = expenses.len();
    let mut i: usize = 0;
    while i < n
        invariant
            i <= n,
            n == expenses@.len(),
            spec_sum_amounts(expenses@) <= u64::MAX,
            electricity == spec_bucket_total(expenses@.take(i as int), Bucket::Electricity),
            garbage_recycling == spec_bucket_total(
                expenses@.take(i as int),
                Bucket::GarbageRecycling,
            ),
            water == spec_bucket_total(expenses@.take(i as int), Bucket::Water),
            gas == spec_bucket_total(expenses@.take(i as int), Bucket::Gas),
            landscaping == spec_bucket_total(expenses@.take(i as int), Bucket::Landscaping),
            misc == spec_bucket_total(expenses@.take(i as int), Bucket::Misc),
        decreases n - i,
    {
        let e = &expenses[i];
        proof {
            lemma_sums_step(expenses@, i as int, Bucket::Electricity);
            lemma_sums_step(expenses@, i as int, Bucket::GarbageRecycling);
            lemma_sums_step(expenses@, i as int, Bucket::Water);
            lemma_sums_step(expenses@, i as int, Bucket::Gas);
            lemma_sums_step(expenses@, i as int, Bucket::Landscaping);
            lemma_sums_step(expenses@, i as int, Bucket::Misc);
            lemma_sum_take_le(expenses@, i + 1);
            lemma_bucket_total_le_sum(expenses@.take(i + 1), spec_bucket(e.expense_type));
        }
        match e.expense_type.bucket() {
            Bucket::Electricity => electricity = electricity + e.amount,
            Bucket::GarbageRecycling => garbage_recycling = garbage_recycling + e.amount,
            Bucket::Water => water = water + e.amount,
            Bucket::Gas => gas = gas + e.amount,
            Bucket::Landscaping => landscaping = landscaping + e.amount,
            Bucket::Misc => misc = misc + e.amount,
        }
        i = i + 1;
    }
    proof {
        assert(expenses@.take(n as int) =~= expenses@);
    }
    CategoryTotals { electricity, garbage_recycling, water, gas, landscaping, misc }
}

/// Whether a period's expense amounts can be summed without exceeding the
/// machine limit of a cent total; unverified callers test this before
/// aggregating.
pub fn expenses_total_fits(expenses: &Vec<Expense>) -> (r: bool)
    ensures
        r == (spec_sum_amounts(expenses@) <= u64::MAX),
{
    let mut sum: u64 = 0;
    let n = expenses.len();
    let mut i: usize = 0;
    while i < n
        invariant
            i <= n,
            n == expenses@.len(),
            sum == spec_sum_amounts(expenses@.take(i as int)),
        decreases n - i,
    {
        let a = expenses[i].amount;
        proof {
            lemma_sums_step(expenses@, i as int, Bucket::Misc);
        }
        if a > u64::MAX - sum {
            proof {
                lemma_sum_take_le(expenses@, i + 1);
            }
            return false;
        }
        sum = sum + a;
        i = i + 1;
    }
    proof {
        assert(expenses@.take(n as int) =~= expenses@);
    }
    true
}

} // verus!

verus! {

/// The bucket totals of an expense sequence as a `CategoryTotals` value;
/// exact whenever the amounts sum within the machine limit.
pub open spec fn spec_totals_of(s: Seq<Expense>) -> CategoryTotals {
    CategoryTotals {
        electricity: spec_bucket_total(s, Bucket::Electricity) as u64,
        garbage_recycling: spec_bucket_total(s, Bucket::GarbageRecycling) as u64,
        water: spec_bucket_total(s, Bucket::Water) as u64,
        gas: spec_bucket_total(s, Bucket::Gas) as u64,
        landscaping: spec_bucket_total(s, Bucket::Landscaping) as u64,
        misc: spec_bucket_total(s, Bucket::Misc) as u64,
    }
}

/// Under the machine limit on the amount sum, matching totals are exactly
/// `spec_totals_of`.
pub proof fn lemma_matches_totals_of(t: CategoryTotals, s: Seq<Expense>)
    requires
        t.matches(s),
        spec_sum_amounts(s) <= u64::MAX,
    ensures
        t == spec_totals_of(s),
{
    lemma_bucket_total_le_sum(s, Bucket::Electricity);
    lemma_bucket_total_le_sum(s, Bucket::GarbageRecycling);
    lemma_bucket_total_le_sum(s, Bucket::Water);
    lemma_bucket_total_le_sum(s, Bucket::Gas);
    lemma_bucket_total_le_sum(s, Bucket::Landscaping);
    lemma_bucket_total_le_sum(s, Bucket::Misc);
}

} // verus!

verus! {

/// Work items handed to the expense persistence worker.
pub enum ExpenseMessage {
    ExpenseCreated(Expense),
    ExpenseUpdate(Expense),
    Quit,
}

} // verus!

verus! {

/// Removing one expense removes exactly its own contribution from a
/// bucket total.
proof fn lemma_bucket_total_remove(s: Seq<Expense>, i: int, b: Bucket)
    requires
        0 <= i < s.len(),
    ensures
        spec_bucket_total(s.remove(i), b) == spec_bucket_total(s, b) - (if spec_bucket(
            s[i].expense_type,
        ) == b {
            s[i].amount as int
        } else {
            0
        }),
    decreases s.len(),
{
    if i == s.len() - 1 {
        assert(s.remove(i) =~= s.drop_last());
    } else {
        assert(s.remove(i).drop_last() =~= s.drop_last().remove(i));
        assert(s.remove(i).last() == s.last());
        lemma_bucket_total_remove(s.drop_last(), i, b);
    }
}

proof fn lemma_bucket_total_order_independent(s1: Seq<Expense>, s2: Seq<Expense>, b: Bucket)
    requires
        s1.to_multiset() == s2.to_multiset(),
    ensures
        spec_bucket_total(s1, b) == spec_bucket_total(s2, b),
    decreases s1.len(),
{
    broadcast use vstd::seq_lib::group_to_multiset_ensures;

    if s1.len() == 0 {
        assert(s1.to_multiset().len() == s1.len());
        assert(s2.to_multiset().len() == s2.len());
    } else {
        let x = s1.last();
        assert(s1[s1.len() - 1] == x);
        assert(s1.contains(x));
        assert(s2.to_multiset().count(x) > 0);
        assert(s2.contains(x));
        let i = choose|i: int| 0 <= i < s2.len() && s2[i] == x;
        assert(s1.drop_last() =~= s1.remove(s1.len() - 1));
        assert(s1.drop_last().to_multiset() =~= s2.remove(i).to_multiset());
        lemma_bucket_total_remove(s2, i, b);
        lemma_bucket_total_order_independent(s1.drop_last(), s2.remove(i), b);
    }
}

/// Order-independence law: aggregation depends only on which expenses are
/// present, never on the order the storage query hands them over in. Two
/// expense lists holding the same records give the same category totals.
pub proof fn lemma_aggregation_order_independent(s1: Seq<Expense>, s2: Seq<Expense>)
    requires
        s1.to_multiset() == s2.to_multiset(),
    ensures
        spec_totals_of(s1) == spec_totals_of(s2),
{
    lemma_bucket_total_order_independent(s1, s2, Bucket::Electricity);
    lemma_bucket_total_order_independent(s1, s2, Bucket::GarbageRecycling);
    lemma_bucket_total_order_independent(s1, s2, Bucket::Water);
    lemma_bucket_total_order_independent(s1, s2, Bucket::Gas);
    lemma_bucket_total_order_independent(s1, s2, Bucket::Landscaping);
    lemma_bucket_total_order_independent(s1, s2, Bucket::Misc);
}

} // verus!
