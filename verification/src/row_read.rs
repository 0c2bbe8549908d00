//! Reading a data chunk back into dynamic rows: the chunk must carry at least the schema's
//! columns, and the cells read column by column are regrouped row by row.

use vstd::prelude::*;
use crate::dynamic_value::DuckDynamicValue;
use crate::error::{DuckResult, duck_error_owned};
use crate::row::DuckDynamicRow;
use crate::schema::DuckResultSchema;
use crate::batch::reversed;
use crate::text::{decimal_text, u64_text};
use crate::dynamic_value::{ValueModel, option_model};
use crate::type_desc::TypeDescModel;
use crate::column_writer::{VectorOp, batch_reads_back, column_cells};
use crate::chunk_model::{VectorPath, read_back};

verus! {

/// The message for a chunk with fewer columns than the schema declares.
pub open spec fn chunk_columns_message(chunk_columns: nat, schema_columns: nat) -> Seq<char> {
    "dynamic value: the chunk has "@ + decimal_text(chunk_columns) + " columns but the schema declares "@
        + decimal_text(schema_columns)
}

/// Checks that a chunk carries at least the columns a schema declares.
pub fn check_chunk_columns(chunk_columns: usize, schema: &DuckResultSchema) -> (r: DuckResult<()>)
    ensures
        r is Ok <==> chunk_columns >= schema@.len(),
        r matches Err(e) ==> e.spec_message() == chunk_columns_message(chunk_columns as nat, schema@.len()),
{
    let declared = schema.len();
    if chunk_columns < declared {
        let mut m = String::from_str("dynamic value: the chunk has ");
        m.append(u64_text(chunk_columns as u64).as_str());
        m.append(" columns but the schema declares ");
        m.append(u64_text(declared as u64).as_str());
        Err(duck_error_owned(m))
    } else {
        Ok(())
    }
}

/// Whether rows hold, cell by cell, the cells read column by column: row `r`, column `c` is cell
/// `r` of column `c`.
pub open spec fn rows_transpose(rows: Seq<DuckDynamicRow>, columns: Seq<Seq<Option<DuckDynamicValue>>>, size: int) -> bool {
    &&& rows.len() == size
    &&& forall|r: int| 0 <= r < size ==> (#[trigger] rows[r]).spec_values().len() == columns.len()
    &&& forall|r: int, c: int| 0 <= r < size && 0 <= c < columns.len() ==>
        (#[trigger] rows[r]).spec_values()[c] == #[trigger] columns[c][r]
}

/// Regroups the cells of a chunk, read column by column (`size` cells each), into its rows.
pub fn rows_from_columns(columns: Vec<Vec<Option<DuckDynamicValue>>>, size: usize) -> (rows: Vec<DuckDynamicRow>)
    requires
        forall|c: int| 0 <= c < columns@.len() ==> (#[trigger] columns@[c])@.len() == size,
    ensures
        rows_transpose(rows@, Seq::new(columns@.len(), |c: int| columns@[c]@), size as int),
{
    let ghost cols_m = Seq::new(columns@.len(), |c: int| columns@[c]@);
    let n = columns.len();
    let mut source = reversed(columns);
    let mut cols: Vec<Vec<Option<DuckDynamicValue>>> = Vec::new();
    while source.len() > 0
        invariant
            source@.len() + cols@.len() == n,
            n == cols_m.len(),
            forall|j: int| 0 <= j < source@.len() ==> (#[trigger] source@[j])@ == cols_m[n - 1 - j],
            forall|c: int| 0 <= c < cols@.len() ==> (#[trigger] cols@[c])@ == cols_m[c].reverse(),
        decreases source@.len(),
    {
        let col = source.pop().unwrap();
        cols.push(reversed(col));
    }
    let mut rows: Vec<DuckDynamicRow> = Vec::new();
    let mut r: usize = 0;
    while r < size
        invariant
            0 <= r <= size,
            n == cols_m.len(),
            forall|c: int| 0 <= c < n ==> (#[trigger] cols_m[c]).len() == size,
            cols@.len() == n,
            forall|c: int| 0 <= c < n ==> (#[trigger] cols@[c])@ == cols_m[c].subrange(r as int, size as int).reverse(),
            rows@.len() == r,
            forall|q: int| 0 <= q < r ==> (#[trigger] rows@[q]).spec_values().len() == n,
            forall|q: int, c: int| 0 <= q < r && 0 <= c < n ==>
                (#[trigger] rows@[q]).spec_values()[c] == #[trigger] cols_m[c][q],
        decreases size - r,
    {
        let mut rest = cols;
        let mut taken: Vec<Vec<Option<DuckDynamicValue>>> = Vec::new();
        let mut cells: Vec<Option<DuckDynamicValue>> = Vec::new();
        while rest.len() > 0
            invariant
                0 <= r < size,
                n == cols_m.len(),
                forall|c: int| 0 <= c < n ==> (#[trigger] cols_m[c]).len() == size,
                rest@.len() + taken@.len() == n,
                cells@.len() == taken@.len(),
                forall|c: int| 0 <= c < rest@.len() ==> (#[trigger] rest@[c])@ == cols_m[c].subrange(r as int, size as int).reverse(),
                forall|j: int| 0 <= j < taken@.len() ==>
                    (#[trigger] taken@[j])@ == cols_m[n - 1 - j].subrange(r as int + 1, size as int).reverse(),
                forall|j: int| 0 <= j < cells@.len() ==> #[trigger] cells@[j] == cols_m[n - 1 - j][r as int],
            decreases rest@.len(),
        {
            let ghost c = rest@.len() - 1;
            let mut col = rest.pop().unwrap();
            assert(col@ == cols_m[c].subrange(r as int, size as int).reverse());
            assert(col@.len() > 0);
            let cell = col.pop().unwrap();
            assert(cell == cols_m[c][r as int]);
            assert(col@ =~= cols_m[c].subrange(r as int + 1, size as int).reverse());
            cells.push(cell);
            taken.push(col);
        }
        let row_cells = reversed(cells);
        cols = reversed(taken);
        let ghost row_seq = row_cells@;
        assert forall|c: int| 0 <= c < n implies row_seq[c] == #[trigger] cols_m[c][r as int] by {}
        rows.push(DuckDynamicRow::new(row_cells));
        r = r + 1;
    }
    rows
}

/// Reading back a batch that a plan wrote: when each column is read cell by cell as the plan
/// left it (what [`crate::chunk_model::read_back`] says a cell reads as) and the cells are
/// regrouped into rows by [`rows_from_columns`], the rows are the rows that were written
/// (none of them a NULL row, each with the schema's number of cells).
pub proof fn lemma_read_batch_inverts_write_batch(
    ops: Seq<VectorOp>,
    schema: Seq<(Seq<char>, TypeDescModel)>,
    rows: Seq<Option<Seq<Option<ValueModel>>>>,
    columns: Seq<Seq<Option<DuckDynamicValue>>>,
    read: Seq<DuckDynamicRow>,
)
    requires
        batch_reads_back(ops, schema, rows),
        forall|r: int| 0 <= r < rows.len() ==> (#[trigger] rows[r]) is Some && rows[r]->0.len() == schema.len(),
        columns.len() == schema.len(),
        forall|c: int, r: int| 0 <= c < schema.len() && 0 <= r < rows.len()
            ==> option_model(#[trigger] columns[c][r]) == read_back(ops, VectorPath::Column(c), schema[c].1, r),
        rows_transpose(read, columns, rows.len() as int),
    ensures
        read.len() == rows.len(),
        forall|r: int| 0 <= r < rows.len() ==> Some((#[trigger] read[r])@) == rows[r],
{
    assert forall|r: int| 0 <= r < rows.len() implies Some((#[trigger] read[r])@) == rows[r] by {
        read[r].lemma_view();
        let cells = rows[r]->0;
        assert forall|c: int| 0 <= c < cells.len() implies #[trigger] read[r]@[c] == cells[c] by {
            assert(read[r].spec_values()[c] == columns[c][r]);
            assert(read_back(ops, VectorPath::Column(c), schema[c].1, r) == column_cells(rows, c)[r]);
        }
        assert(read[r]@ =~= cells);
    }
}

} // verus!
