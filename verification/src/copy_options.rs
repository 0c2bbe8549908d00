//! The options of `COPY ... TO (...)`, and the schema a copy function writes.

use vstd::prelude::*;
use crate::dynamic_value::{DuckDynamicValue, ValueModel, option_model, value_model};
use crate::text::{ascii_case_insensitive_eq, ascii_lower, eq_ignore_ascii_case, decimal_text, u64_text};
use crate::type_desc::{DuckTypeDesc, TypeDescModel, desc_model};
use crate::logical_type::{LogicalTypeInfo, LogicalModel, logical_to_desc};
use crate::schema::{DuckResultSchema, columns_model};
use crate::error::DuckResult;

verus! {

/// The options of `COPY ... TO (...)`: an ordered set of `option name -> value` pairs.
///
/// The options come from DuckDB, names and types included, and the library presumes none of
/// them. Looking up a name ignores ASCII case (as DuckDB's copy options do); a NULL value reads
/// as absent.
#[derive(Debug)]
pub struct DuckCopyOptions {
    /// The options, in the order DuckDB gave them.
    entries: Vec<(String, Option<DuckDynamicValue>)>,
}

/// The model of a list of options.
pub open spec fn entries_model(entries: Seq<(String, Option<DuckDynamicValue>)>) -> Seq<(Seq<char>, Option<ValueModel>)> {
    Seq::new(entries.len(), |i: int| (entries[i].0@, option_model(entries[i].1)))
}

impl View for DuckCopyOptions {
    type V = Seq<(Seq<char>, Option<ValueModel>)>;

    closed spec fn view(&self) -> Seq<(Seq<char>, Option<ValueModel>)> {
        entries_model(self.entries@)
    }
}

/// The index of the first option at or after `start` whose name matches `name` ignoring ASCII
/// case, or the number of options when none does.
pub open spec fn option_index_from(entries: Seq<(Seq<char>, Option<ValueModel>)>, name: Seq<char>, start: int) -> int
    decreases entries.len() - start,
{
    if start < 0 || start >= entries.len() {
        entries.len() as int
    } else if ascii_case_insensitive_eq(entries[start].0, name) {
        start
    } else {
        option_index_from(entries, name, start + 1)
    }
}

/// The index of the first option named `name` (ignoring ASCII case), or the number of options.
pub open spec fn option_index(entries: Seq<(Seq<char>, Option<ValueModel>)>, name: Seq<char>) -> int {
    option_index_from(entries, name, 0)
}

/// Whether an option named `name` was given (even with a NULL value).
pub open spec fn option_given(entries: Seq<(Seq<char>, Option<ValueModel>)>, name: Seq<char>) -> bool {
    option_index(entries, name) < entries.len()
}

/// The value of the first option named `name`; `None` when absent or NULL.
pub open spec fn option_value(entries: Seq<(Seq<char>, Option<ValueModel>)>, name: Seq<char>) -> Option<ValueModel> {
    if option_given(entries, name) {
        entries[option_index(entries, name)].1
    } else {
        None
    }
}

/// The search from `start` finds the first matching option at or after `start`.
proof fn lemma_first_match_from(entries: Seq<(Seq<char>, Option<ValueModel>)>, name: Seq<char>, start: int, i: int)
    requires
        0 <= start <= i <= entries.len(),
        i < entries.len() ==> ascii_case_insensitive_eq(entries[i].0, name),
        forall|j: int| start <= j < i ==> !ascii_case_insensitive_eq(#[trigger] entries[j].0, name),
    ensures
        option_index_from(entries, name, start) == i,
    decreases entries.len() - start,
{
    if start < i {
        lemma_first_match_from(entries, name, start + 1, i);
    }
}

/// Looking an option up gives the value of the first option whose name equals the name asked for
/// ignoring ASCII case, and nothing when no option has that name.
pub proof fn lemma_option_value_is_first_match(entries: Seq<(Seq<char>, Option<ValueModel>)>, name: Seq<char>, i: int)
    requires
        0 <= i <= entries.len(),
        i < entries.len() ==> ascii_case_insensitive_eq(entries[i].0, name),
        forall|j: int| 0 <= j < i ==> !ascii_case_insensitive_eq(#[trigger] entries[j].0, name),
    ensures
        i < entries.len() ==> option_given(entries, name) && option_value(entries, name) == entries[i].1,
        i == entries.len() ==> !option_given(entries, name) && option_value(entries, name) is None,
{
    lemma_first_match_from(entries, name, 0, i);
}

/// A value read as a `BOOLEAN` option.
pub open spec fn bool_option(v: Option<ValueModel>) -> Option<bool> {
    match v {
        Some(ValueModel::Boolean(b)) => Some(b),
        _ => None,
    }
}

/// A value read as an integer option: any integer type up to `BIGINT` / `UBIGINT` whose value fits
/// in an `i64`.
pub open spec fn i64_option(v: Option<ValueModel>) -> Option<i64> {
    match v {
        Some(ValueModel::TinyInt(x)) => Some(x as i64),
        Some(ValueModel::SmallInt(x)) => Some(x as i64),
        Some(ValueModel::Integer(x)) => Some(x as i64),
        Some(ValueModel::BigInt(x)) => Some(x),
        Some(ValueModel::UTinyInt(x)) => Some(x as i64),
        Some(ValueModel::USmallInt(x)) => Some(x as i64),
        Some(ValueModel::UInteger(x)) => Some(x as i64),
        Some(ValueModel::UBigInt(x)) => if x <= i64::MAX { Some(x as i64) } else { None },
        _ => None,
    }
}

/// The integer a value of one of the integer types up to 64 bits holds (`TINYINT` to `BIGINT`,
/// `UTINYINT` to `UBIGINT`); `None` for any other value.
pub open spec fn small_integer_of(v: ValueModel) -> Option<int> {
    match v {
        ValueModel::TinyInt(x) => Some(x as int),
        ValueModel::SmallInt(x) => Some(x as int),
        ValueModel::Integer(x) => Some(x as int),
        ValueModel::BigInt(x) => Some(x as int),
        ValueModel::UTinyInt(x) => Some(x as int),
        ValueModel::USmallInt(x) => Some(x as int),
        ValueModel::UInteger(x) => Some(x as int),
        ValueModel::UBigInt(x) => Some(x as int),
        _ => None,
    }
}

/// The integer an option holds when it is one of the integer types up to 64 bits and its value
/// fits in an `i64`; `None` otherwise (absent, NULL, another type, or a `UBIGINT` above
/// `i64::MAX`).
pub open spec fn fitting_integer(v: Option<ValueModel>) -> Option<int> {
    match v {
        Some(x) => match small_integer_of(x) {
            Some(n) => if i64::MIN <= n <= i64::MAX { Some(n) } else { None },
            None => None,
        },
        None => None,
    }
}

/// An integer option reads as the integer it holds whenever that fits in an `i64`, and as nothing
/// otherwise.
pub proof fn lemma_i64_option_is_the_integer(v: Option<ValueModel>)
    ensures
        fitting_integer(v) matches Some(n) ==> i64_option(v) == Some(n as i64),
        fitting_integer(v) is None ==> i64_option(v) is None,
        i64_option(v) matches Some(m) ==> fitting_integer(v) == Some(m as int),
{
}

/// A value read as a text option.
pub open spec fn str_option(v: Option<ValueModel>) -> Option<Seq<char>> {
    match v {
        Some(ValueModel::Varchar(s)) => Some(s),
        _ => None,
    }
}

/// The model of an optional value reference.
pub open spec fn ref_model(r: Option<&DuckDynamicValue>) -> Option<ValueModel> {
    match r {
        Some(v) => Some(value_model(*v)),
        None => None,
    }
}

/// The first match from `start` is one, and no earlier option from `start` matches.
proof fn lemma_option_index_from(entries: Seq<(Seq<char>, Option<ValueModel>)>, name: Seq<char>, start: int)
    requires
        0 <= start <= entries.len(),
    ensures
        start <= option_index_from(entries, name, start) <= entries.len(),
        option_index_from(entries, name, start) < entries.len()
            ==> ascii_case_insensitive_eq(entries[option_index_from(entries, name, start)].0, name),
        forall|j: int| start <= j < option_index_from(entries, name, start)
            ==> !ascii_case_insensitive_eq(#[trigger] entries[j].0, name),
    decreases entries.len() - start,
{
    if start < entries.len() && !ascii_case_insensitive_eq(entries[start].0, name) {
        lemma_option_index_from(entries, name, start + 1);
    }
}

/// Matching ignoring ASCII case is symmetric and transitive.
proof fn lemma_ascii_eq_trans(a: Seq<char>, b: Seq<char>, c: Seq<char>)
    requires
        ascii_case_insensitive_eq(a, b),
    ensures
        ascii_case_insensitive_eq(b, a),
        ascii_case_insensitive_eq(b, c) ==> ascii_case_insensitive_eq(a, c),
        ascii_case_insensitive_eq(a, c) ==> ascii_case_insensitive_eq(b, c),
{
    assert forall|i: int| 0 <= i < b.len() implies ascii_lower(#[trigger] b[i]) == ascii_lower(a[i]) by {
        assert(ascii_lower(a[i]) == ascii_lower(b[i]));
    }
    if ascii_case_insensitive_eq(b, c) {
        assert forall|i: int| 0 <= i < a.len() implies ascii_lower(#[trigger] a[i]) == ascii_lower(c[i]) by {
            assert(ascii_lower(a[i]) == ascii_lower(b[i]));
            assert(ascii_lower(b[i]) == ascii_lower(c[i]));
        }
    }
    if ascii_case_insensitive_eq(a, c) {
        assert forall|i: int| 0 <= i < b.len() implies ascii_lower(#[trigger] b[i]) == ascii_lower(c[i]) by {
            assert(ascii_lower(a[i]) == ascii_lower(b[i]));
            assert(ascii_lower(a[i]) == ascii_lower(c[i]));
        }
    }
}

/// Option lookups ignore ASCII case: two names that match ignoring ASCII case find the same
/// option, or both find none.
pub proof fn lemma_lookup_ignores_ascii_case(entries: Seq<(Seq<char>, Option<ValueModel>)>, a: Seq<char>, b: Seq<char>)
    requires
        ascii_case_insensitive_eq(a, b),
    ensures
        option_index(entries, a) == option_index(entries, b),
        option_given(entries, a) == option_given(entries, b),
        option_value(entries, a) == option_value(entries, b),
{
    lemma_option_index_from(entries, a, 0);
    lemma_option_index_from(entries, b, 0);
    let ia = option_index(entries, a);
    let ib = option_index(entries, b);
    if ia < ib {
        lemma_ascii_eq_trans(a, b, entries[ia].0);
        lemma_ascii_eq_trans(entries[ia].0, a, b);
    } else if ib < ia {
        lemma_ascii_eq_trans(a, b, entries[ib].0);
        lemma_ascii_eq_trans(entries[ib].0, b, a);
        lemma_ascii_eq_trans(b, a, entries[ib].0);
    }
}

impl DuckCopyOptions {
    /// The options as held.
    pub closed spec fn spec_entries(&self) -> Seq<(String, Option<DuckDynamicValue>)> {
        self.entries@
    }

    /// The view is the model of the held options.
    pub proof fn lemma_view(&self)
        ensures
            self@ == entries_model(self.spec_entries()),
    {
    }

    /// Builds the options from `(option name, value)` pairs.
    pub fn new(entries: Vec<(String, Option<DuckDynamicValue>)>) -> (o: DuckCopyOptions)
        ensures
            o.spec_entries() == entries@,
            o@ == entries_model(entries@),
    {
        DuckCopyOptions { entries }
    }

    /// All options, in the order DuckDB gave them.
    pub fn entries(&self) -> (e: &[(String, Option<DuckDynamicValue>)])
        ensures
            e@ == self.spec_entries(),
    {
        self.entries.as_slice()
    }

    /// The index of the first option named `name` (ignoring ASCII case), or the option count.
    fn find(&self, name: &str) -> (i: usize)
        ensures
            i == option_index(self@, name@),
    {
        let ghost m = self@;
        let mut i: usize = 0;
        while i < self.entries.len()
            invariant
                0 <= i <= self.entries@.len(),
                m == self@,
                m == entries_model(self.entries@),
                option_index_from(m, name@, 0) == option_index_from(m, name@, i as int),
            decreases self.entries@.len() - i,
        {
            assert(m[i as int].0 == self.entries@[i as int].0@);
            if eq_ignore_ascii_case(self.entries[i].0.as_str(), name) {
                return i;
            }
            i = i + 1;
        }
        i
    }

    /// The value of option `name` (ignoring ASCII case; the first one when several match);
    /// `None` when absent or NULL.
    pub fn get(&self, name: &str) -> (v: Option<&DuckDynamicValue>)
        ensures
            ref_model(v) == option_value(self@, name@),
    {
        let i = self.find(name);
        if i < self.entries.len() {
            assert(self@[i as int].1 == option_model(self.entries@[i as int].1));
            self.entries[i].1.as_ref()
        } else {
            None
        }
    }

    /// Whether option `name` was given (even with a NULL value).
    pub fn contains(&self, name: &str) -> (b: bool)
        ensures
            b == option_given(self@, name@),
    {
        self.find(name) < self.entries.len()
    }

    /// Option `name` as a `BOOLEAN`; `None` when absent, NULL or of another type.
    pub fn get_bool(&self, name: &str) -> (b: Option<bool>)
        ensures
            b == bool_option(option_value(self@, name@)),
            option_value(self@, name@) matches Some(ValueModel::Boolean(x)) ==> b == Some(x),
            !(option_value(self@, name@) matches Some(ValueModel::Boolean(_))) ==> b is None,
    {
        match self.get(name) {
            Some(DuckDynamicValue::Boolean(value)) => Some(*value),
            _ => None,
        }
    }

    /// Option `name` as an `i64`: any integer type that fits (`UBIGINT` above `i64::MAX` does
    /// not); `None` when absent, NULL or of another type.
    pub fn get_i64(&self, name: &str) -> (n: Option<i64>)
        ensures
            n == i64_option(option_value(self@, name@)),
            fitting_integer(option_value(self@, name@)) matches Some(k) ==> n == Some(k as i64),
            fitting_integer(option_value(self@, name@)) is None ==> n is None,
    {
        match self.get(name) {
            Some(DuckDynamicValue::TinyInt(value)) => Some(*value as i64),
            Some(DuckDynamicValue::SmallInt(value)) => Some(*value as i64),
            Some(DuckDynamicValue::Integer(value)) => Some(*value as i64),
            Some(DuckDynamicValue::BigInt(value)) => Some(*value),
            Some(DuckDynamicValue::UTinyInt(value)) => Some(*value as i64),
            Some(DuckDynamicValue::USmallInt(value)) => Some(*value as i64),
            Some(DuckDynamicValue::UInteger(value)) => Some(*value as i64),
            Some(DuckDynamicValue::UBigInt(value)) => {
                if *value <= 9223372036854775807u64 {
                    Some(*value as i64)
                } else {
                    None
                }
            },
            _ => None,
        }
    }

    /// Option `name` as text; `None` when absent, NULL or of another type.
    pub fn get_str(&self, name: &str) -> (s: Option<&str>)
        ensures
            s matches Some(t) ==> str_option(option_value(self@, name@)) == Some(t@),
            s is None ==> str_option(option_value(self@, name@)) is None,
            option_value(self@, name@) matches Some(ValueModel::Varchar(t)) ==> (s matches Some(u) && u@ == t),
            !(option_value(self@, name@) matches Some(ValueModel::Varchar(_))) ==> s is None,
    {
        match self.get(name) {
            Some(DuckDynamicValue::Varchar(value)) => Some(value.as_str()),
            _ => None,
        }
    }

    /// The number of options.
    pub fn len(&self) -> (n: usize)
        ensures
            n == self@.len(),
    {
        self.entries.len()
    }

    /// Whether there are no options at all.
    pub fn is_empty(&self) -> (b: bool)
        ensures
            b == (self@.len() == 0),
    {
        self.entries.len() == 0
    }
}

impl Default for DuckCopyOptions {
    /// No options.
    fn default() -> (o: DuckCopyOptions)
        ensures
            o@.len() == 0,
    {
        DuckCopyOptions { entries: Vec::new() }
    }
}

/// The name a copy function gives output column `index`: `column_<index>` (the columns of a
/// `COPY` come from a query and have no names of their own).
pub open spec fn copy_column_name(index: int) -> Seq<char> {
    "column_"@ + decimal_text(index as nat)
}

/// The schema of the first `n` columns of a `COPY`, or the error of the first one that no
/// description can express.
pub open spec fn copy_schema_upto(types: Seq<LogicalModel>, n: int) -> Result<Seq<(Seq<char>, TypeDescModel)>, Seq<char>>
    decreases n,
{
    if n <= 0 {
        Ok(Seq::empty())
    } else {
        match copy_schema_upto(types, n - 1) {
            Err(m) => Err(m),
            Ok(prev) => match logical_to_desc(types[n - 1]) {
                Err(m) => Err(m),
                Ok(d) => Ok(prev.push((copy_column_name(n - 1), d))),
            },
        }
    }
}

/// Builds the schema a copy function writes from the logical types of the `COPY` output
/// columns: column `i` is named `column_<i>` and described by its rebuilt type. The first type no
/// description can express (`ENUM`, `ARRAY`, `UNION`, `BIT`, ...) is the error.
pub fn copy_schema(column_types: &[LogicalTypeInfo]) -> (r: DuckResult<DuckResultSchema>)
    ensures
        match (r, copy_schema_upto(Seq::new(column_types@.len(), |i: int| column_types@[i]@), column_types@.len() as int)) {
            (Ok(s), Ok(m)) => s@ == m,
            (Err(e), Err(m)) => e.spec_message() == m,
            _ => false,
        },
{
    let ghost types_m = Seq::new(column_types@.len(), |i: int| column_types@[i]@);
    let mut columns: Vec<(String, DuckTypeDesc)> = Vec::new();
    let mut i: usize = 0;
    assert(columns_model(columns@) =~= Seq::<(Seq<char>, TypeDescModel)>::empty());
    while i < column_types.len()
        invariant
            0 <= i <= column_types@.len(),
            types_m == Seq::new(column_types@.len(), |i: int| column_types@[i]@),
            copy_schema_upto(types_m, i as int) == Ok::<Seq<(Seq<char>, TypeDescModel)>, Seq<char>>(columns_model(columns@)),
        decreases column_types@.len() - i,
    {
        match DuckTypeDesc::from_logical_type(&column_types[i]) {
            Ok(d) => {
                let mut name = String::from_str("column_");
                name.append(u64_text(i as u64).as_str());
                let ghost before = columns@;
                columns.push((name, d));
                assert(columns_model(columns@) =~= columns_model(before).push((copy_column_name(i as int), d@)));
                i = i + 1;
            },
            Err(e) => {
                proof {
                    lemma_copy_error_stays(types_m, i as int + 1, column_types@.len() as int);
                }
                return Err(e);
            },
        }
    }
    Ok(DuckResultSchema::new(columns))
}

/// Once a prefix of the columns fails, every longer prefix fails with the same message.
proof fn lemma_copy_error_stays(types: Seq<LogicalModel>, n: int, m: int)
    requires
        0 < n <= m,
        copy_schema_upto(types, n) is Err,
    ensures
        copy_schema_upto(types, m) == copy_schema_upto(types, n),
    decreases m - n,
{
    if m > n {
        lemma_copy_error_stays(types, n, m - 1);
    }
}

} // verus!
