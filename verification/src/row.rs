//! Dynamic rows, and the checks a batch of them goes through before it is written.

use vstd::prelude::*;
use vstd::std_specs::convert::FromSpecImpl;
use crate::dynamic_value::{DuckDynamicValue, ValueModel, option_model, value_model, value_scalar_type_desc};
use crate::type_desc::{TypeDescModel, desc_accepts, desc_text, desc_model};
use crate::schema::{DuckResultSchema, columns_model};
use crate::error::{DuckResult, duck_error_owned};
use crate::text::{decimal_text, u64_text};

verus! {

/// A dynamic row: one value per column, in the same order as the [`DuckResultSchema`].
#[derive(Debug)]
pub struct DuckDynamicRow {
    /// One value per column; `None` means that cell is SQL NULL.
    values: Vec<Option<DuckDynamicValue>>,
}

/// The model of a list of optional values.
pub open spec fn cells_model(values: Seq<Option<DuckDynamicValue>>) -> Seq<Option<ValueModel>> {
    Seq::new(values.len(), |i: int| option_model(values[i]))
}

impl View for DuckDynamicRow {
    type V = Seq<Option<ValueModel>>;

    closed spec fn view(&self) -> Seq<Option<ValueModel>> {
        cells_model(self.values@)
    }
}

impl DuckDynamicRow {
    /// The cells as held.
    pub closed spec fn spec_values(&self) -> Seq<Option<DuckDynamicValue>> {
        self.values@
    }

    /// The view is the model of the held cells.
    pub proof fn lemma_view(&self)
        ensures
            self@ == cells_model(self.spec_values()),
    {
    }

    /// Builds a row from one value per column.
    pub fn new(values: Vec<Option<DuckDynamicValue>>) -> (r: DuckDynamicRow)
        ensures
            r.spec_values() == values@,
            r@ == cells_model(values@),
    {
        DuckDynamicRow { values }
    }

    /// The values of every column.
    pub fn values(&self) -> (v: &[Option<DuckDynamicValue>])
        ensures
            v@ == self.spec_values(),
    {
        self.values.as_slice()
    }

    /// The value of column `index`; `None` when the cell is NULL or there is no such column.
    pub fn value(&self, index: usize) -> (v: Option<&DuckDynamicValue>)
        ensures
            index < self@.len() && self.spec_values()[index as int] is Some
                ==> v == Some(&self.spec_values()[index as int]->Some_0),
            !(index < self@.len() && self.spec_values()[index as int] is Some) ==> v is None,
    {
        if index < self.values.len() {
            match &self.values[index] {
                Some(x) => Some(x),
                None => None,
            }
        } else {
            None
        }
    }

    /// The number of cells in the row.
    pub fn len(&self) -> (n: usize)
        ensures
            n == self@.len(),
    {
        self.values.len()
    }

    /// Whether the row has no cells at all.
    pub fn is_empty(&self) -> (b: bool)
        ensures
            b == (self@.len() == 0),
    {
        self.values.len() == 0
    }
}

impl Default for DuckDynamicRow {
    /// The row without cells.
    fn default() -> (r: DuckDynamicRow)
        ensures
            r@.len() == 0,
    {
        DuckDynamicRow { values: Vec::new() }
    }
}

impl From<Vec<Option<DuckDynamicValue>>> for DuckDynamicRow {
    /// `Vec<Option<DuckDynamicValue>>` → dynamic row.
    fn from(values: Vec<Option<DuckDynamicValue>>) -> (r: DuckDynamicRow) {
        DuckDynamicRow { values }
    }
}

impl FromSpecImpl<Vec<Option<DuckDynamicValue>>> for DuckDynamicRow {
    open spec fn obeys_from_spec() -> bool {
        true
    }

    closed spec fn from_spec(values: Vec<Option<DuckDynamicValue>>) -> DuckDynamicRow {
        DuckDynamicRow { values }
    }
}

/// The model of a batch: a missing row stands for a whole-row NULL.
pub open spec fn batch_model(rows: Seq<Option<&DuckDynamicRow>>) -> Seq<Option<Seq<Option<ValueModel>>>> {
    Seq::new(rows.len(), |i: int| match rows[i] {
        Some(r) => Some(r@),
        None => None,
    })
}

/// The message for a row whose cell count differs from the schema's column count.
pub open spec fn cell_count_message(row: int, cells: int, columns: int) -> Seq<char> {
    "dynamic table function: row "@ + decimal_text(row as nat) + " has "@ + decimal_text(cells as nat)
        + " columns but the schema declares "@ + decimal_text(columns as nat)
}

/// The message for a cell whose value does not fit its column.
pub open spec fn cell_type_message(row: int, name: Seq<char>, desc: TypeDescModel, value: ValueModel) -> Seq<char> {
    "dynamic table function: row "@ + decimal_text(row as nat) + " column `"@ + name + "` expects "@
        + desc_text(desc) + " but got a value of type "@ + desc_text(value_scalar_type_desc(value))
}

/// Whether cell `j` of a row holds a value its column does not accept.
pub open spec fn cell_mismatch(schema: Seq<(Seq<char>, TypeDescModel)>, row: Seq<Option<ValueModel>>, j: int) -> bool {
    row[j] matches Some(v) && !desc_accepts(schema[j].1, v)
}

/// The first column at or after `start` whose cell does not fit, or the column count when none.
pub open spec fn first_mismatch(schema: Seq<(Seq<char>, TypeDescModel)>, row: Seq<Option<ValueModel>>, start: int) -> int
    decreases schema.len() - start,
{
    if start < 0 || start >= schema.len() {
        schema.len() as int
    } else if cell_mismatch(schema, row, start) {
        start
    } else {
        first_mismatch(schema, row, start + 1)
    }
}

/// What is wrong with row `index`, if anything: its cell count first, then its first cell that
/// does not fit.
pub open spec fn row_error(schema: Seq<(Seq<char>, TypeDescModel)>, index: int, row: Seq<Option<ValueModel>>) -> Option<Seq<char>> {
    if row.len() != schema.len() {
        Some(cell_count_message(index, row.len() as int, schema.len() as int))
    } else {
        let j = first_mismatch(schema, row, 0);
        if j < schema.len() {
            Some(cell_type_message(index, schema[j].0, schema[j].1, row[j]->Some_0))
        } else {
            None
        }
    }
}

/// The first error among the first `n` rows of a batch (a NULL row is never wrong).
pub open spec fn batch_error_upto(schema: Seq<(Seq<char>, TypeDescModel)>, rows: Seq<Option<Seq<Option<ValueModel>>>>, n: int) -> Option<Seq<char>>
    decreases n,
{
    if n <= 0 {
        None
    } else {
        match batch_error_upto(schema, rows, n - 1) {
            Some(m) => Some(m),
            None => match rows[n - 1] {
                Some(r) => row_error(schema, n - 1, r),
                None => None,
            },
        }
    }
}

/// The first error of a batch, rows in order.
pub open spec fn batch_error(schema: Seq<(Seq<char>, TypeDescModel)>, rows: Seq<Option<Seq<Option<ValueModel>>>>) -> Option<Seq<char>> {
    batch_error_upto(schema, rows, rows.len() as int)
}

/// With no error in a batch, every row has one cell per column and every cell fits its column.
pub proof fn lemma_valid_batch_fits(schema: Seq<(Seq<char>, TypeDescModel)>, rows: Seq<Option<Seq<Option<ValueModel>>>>, i: int, j: int)
    requires
        batch_error(schema, rows) is None,
        0 <= i < rows.len(),
        rows[i] is Some,
        0 <= j < schema.len(),
    ensures
        rows[i]->Some_0.len() == schema.len(),
        rows[i]->Some_0[j] matches Some(v) ==> desc_accepts(schema[j].1, v),
{
    lemma_no_error_prefix(schema, rows, i + 1, rows.len() as int);
    let r = rows[i]->Some_0;
    if r.len() == schema.len() && cell_mismatch(schema, r, j) {
        lemma_first_mismatch_bound(schema, r, 0, j);
    }
}

/// No error among `m` rows means no error among the first `n <= m`.
proof fn lemma_no_error_prefix(schema: Seq<(Seq<char>, TypeDescModel)>, rows: Seq<Option<Seq<Option<ValueModel>>>>, n: int, m: int)
    requires
        0 <= n <= m,
        batch_error_upto(schema, rows, m) is None,
    ensures
        batch_error_upto(schema, rows, n) is None,
    decreases m - n,
{
    if n < m {
        lemma_no_error_prefix(schema, rows, n, m - 1);
    }
}

/// The first mismatch from `start` comes no later than any mismatch `j >= start`, and is one.
proof fn lemma_first_mismatch_bound(schema: Seq<(Seq<char>, TypeDescModel)>, row: Seq<Option<ValueModel>>, start: int, j: int)
    requires
        0 <= start <= j < schema.len(),
        cell_mismatch(schema, row, j),
    ensures
        start <= first_mismatch(schema, row, start) <= j,
        cell_mismatch(schema, row, first_mismatch(schema, row, start)),
    decreases j - start,
{
    if !cell_mismatch(schema, row, start) {
        lemma_first_mismatch_bound(schema, row, start + 1, j);
    }
}

/// Checks a batch against a schema before anything is written: every present row must have one
/// cell per column and every non-NULL cell must fit its column. The first problem, rows in order
/// and then columns in order, is the error.
pub fn validate_batch(schema: &DuckResultSchema, rows: &[Option<&DuckDynamicRow>]) -> (r: DuckResult<()>)
    ensures
        r is Ok <==> batch_error(schema@, batch_model(rows@)) is None,
        r matches Err(e) ==> Some(e.spec_message()) == batch_error(schema@, batch_model(rows@)),
{
    let ghost rows_m = batch_model(rows@);
    let ghost schema_m = schema@;
    let columns = schema.columns();
    proof {
        schema.lemma_view();
    }
    let mut row_index: usize = 0;
    while row_index < rows.len()
        invariant
            0 <= row_index <= rows@.len(),
            rows_m == batch_model(rows@),
            schema_m == schema@,
            schema_m == columns_model(columns@),
            batch_error_upto(schema_m, rows_m, row_index as int) is None,
        decreases rows@.len() - row_index,
    {
        match rows[row_index] {
            None => {
                assert(rows_m[row_index as int] is None);
            },
            Some(row) => {
                proof {
                    row.lemma_view();
                }
                let ghost row_m = row@;
                assert(rows_m[row_index as int] == Some(row_m));
                let cells = row.values();
                if cells.len() != columns.len() {
                    let mut m = String::from_str("dynamic table function: row ");
                    m.append(u64_text(row_index as u64).as_str());
                    m.append(" has ");
                    m.append(u64_text(cells.len() as u64).as_str());
                    m.append(" columns but the schema declares ");
                    m.append(u64_text(columns.len() as u64).as_str());
                    proof {
                        lemma_error_stays(schema_m, rows_m, row_index as int + 1, rows_m.len() as int);
                    }
                    return Err(duck_error_owned(m));
                }
                let mut j: usize = 0;
                while j < columns.len()
                    invariant
                        0 <= j <= columns@.len(),
                        cells@.len() == columns@.len(),
                        row_m == cells_model(cells@),
                        schema_m == columns_model(columns@),
                        first_mismatch(schema_m, row_m, 0) == first_mismatch(schema_m, row_m, j as int),
                        0 <= row_index < rows@.len(),
                        rows_m == batch_model(rows@),
                        schema_m == schema@,
                        rows_m[row_index as int] == Some(row_m),
                        batch_error_upto(schema_m, rows_m, row_index as int) is None,
                    decreases columns@.len() - j,
                {
                    match &cells[j] {
                        Some(value) => {
                            assert(row_m[j as int] == Some(value_model(*value)));
                            assert(schema_m[j as int] == (columns@[j as int].0@, desc_model(columns@[j as int].1)));
                            if !columns[j].1.matches_value(value) {
                                let mut m = String::from_str("dynamic table function: row ");
                                m.append(u64_text(row_index as u64).as_str());
                                m.append(" column `");
                                m.append(columns[j].0.as_str());
                                m.append("` expects ");
                                let expected = columns[j].1.to_sql_string();
                                m.append(expected.as_str());
                                m.append(" but got a value of type ");
                                let got = value.scalar_type_desc().to_sql_string();
                                m.append(got.as_str());
                                assert(cell_mismatch(schema_m, row_m, j as int));
                                assert(first_mismatch(schema_m, row_m, j as int) == j);
                                assert(row_m.len() == schema_m.len());
                                assert(m@ == cell_type_message(row_index as int, schema_m[j as int].0, schema_m[j as int].1, row_m[j as int]->Some_0));
                                assert(row_error(schema_m, row_index as int, row_m) == Some(m@));
                                assert(batch_error_upto(schema_m, rows_m, row_index as int + 1) == Some(m@));
                                proof {
                                    lemma_error_stays(schema_m, rows_m, row_index as int + 1, rows_m.len() as int);
                                }
                                return Err(duck_error_owned(m));
                            }
                        },
                        None => {
                            assert(row_m[j as int] is None);
                        },
                    }
                    j = j + 1;
                }
            },
        }
        row_index = row_index + 1;
    }
    Ok(())
}

/// Once the rows so far hold an error, every longer prefix holds the same one.
proof fn lemma_error_stays(schema: Seq<(Seq<char>, TypeDescModel)>, rows: Seq<Option<Seq<Option<ValueModel>>>>, n: int, m: int)
    requires
        0 < n <= m,
        batch_error_upto(schema, rows, n) is Some,
    ensures
        batch_error_upto(schema, rows, m) == batch_error_upto(schema, rows, n),
    decreases m - n,
{
    if m > n {
        lemma_error_stays(schema, rows, n, m - 1);
    }
}

} // verus!
