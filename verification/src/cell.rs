//! Values that the database hands out, as the logic reads them.

use vstd::prelude::*;

verus! {

/// One column of a result row.
#[derive(Debug, PartialEq)]
pub enum Cell {
    Null,
    Integer(i64),
    /// A floating-point number. No column of the schema holds one, and its value
    /// is never read.
    Real,
    Text(String),
    Blob(Vec<u8>),
}

/// What a [`Cell`] holds.
pub enum CellView {
    Null,
    Integer(i64),
    Real,
    Text(Seq<char>),
    Blob(Seq<u8>),
}

impl View for Cell {
    type V = CellView;

    open spec fn view(&self) -> CellView {
        match self {
            Cell::Null => CellView::Null,
            Cell::Integer(i) => CellView::Integer(*i),
            Cell::Real => CellView::Real,
            Cell::Text(text) => CellView::Text(text@),
            Cell::Blob(bytes) => CellView::Blob(bytes@),
        }
    }
}

/// What a row of cells holds.
pub open spec fn cells_view(cells: Seq<Cell>) -> Seq<CellView> {
    cells.map_values(|cell: Cell| cell@)
}

/// The blob in column `index`; nothing where there is no such column, or where it
/// holds something else.
pub open spec fn blob_at(cells: Seq<CellView>, index: int) -> Option<Seq<u8>> {
    if 0 <= index < cells.len() {
        match cells[index] {
            CellView::Blob(bytes) => Some(bytes),
            _ => None,
        }
    } else {
        None
    }
}

/// The integer in column `index`; nothing where there is no such column, or where
/// it holds something else.
pub open spec fn integer_at(cells: Seq<CellView>, index: int) -> Option<i64> {
    if 0 <= index < cells.len() {
        match cells[index] {
            CellView::Integer(i) => Some(i),
            _ => None,
        }
    } else {
        None
    }
}

/// `turso::Row`, carried through: what it holds is named by [`row_cells`].
#[verifier::external_type_specification]
#[verifier::external_body]
pub struct ExRow(turso::Row);

/// `turso::Error`, carried through.
#[verifier::external_type_specification]
#[verifier::external_body]
pub struct ExError(turso::Error);

/// The values that a result row holds, column by column.
pub uninterp spec fn row_cells(row: turso::Row) -> Seq<CellView>;

/// `turso::Row::get_value`: the value in column `index`, and an error exactly where
/// the row has no such column. The number in a floating-point column is not kept.
#[verifier::external_body]
fn get_value(row: &turso::Row, index: usize) -> (value: Result<Cell, turso::Error>)
    ensures
        match value {
            Ok(cell) => index < row_cells(*row).len() && cell@ == row_cells(*row)[index as int],
            Err(_) => index >= row_cells(*row).len(),
        },
{
    Ok(match row.get_value(index)? {
        turso::Value::Null => Cell::Null,
        turso::Value::Integer(i) => Cell::Integer(i),
        turso::Value::Real(_) => Cell::Real,
        turso::Value::Text(text) => Cell::Text(text),
        turso::Value::Blob(bytes) => Cell::Blob(bytes),
    })
}

/// All columns of a result row.
pub fn read_row(row: &turso::Row) -> (cells: Vec<Cell>)
    ensures
        cells_view(cells@) == row_cells(*row),
{
    let mut cells: Vec<Cell> = Vec::new();
    loop
        invariant
            cells@.len() <= row_cells(*row).len(),
            cells_view(cells@) == row_cells(*row).take(cells@.len() as int),
        ensures
            cells@.len() == row_cells(*row).len(),
            cells_view(cells@) == row_cells(*row).take(cells@.len() as int),
        decreases row_cells(*row).len() - cells@.len(),
    {
        match get_value(row, cells.len()) {
            Ok(cell) => {
                let ghost before = cells@;
                cells.push(cell);
                assert(cells_view(cells@) =~= cells_view(before).push(cell@));
            },
            Err(_) => {
                break;
            },
        }
    }
    assert(row_cells(*row).take(cells@.len() as int) =~= row_cells(*row));
    cells
}

/// The blob in the first column, if that is what it holds.
pub fn first_blob(cells: Vec<Cell>) -> (blob: Option<Vec<u8>>)
    ensures
        match blob {
            Some(bytes) => blob_at(cells_view(cells@), 0) == Some(bytes@),
            None => blob_at(cells_view(cells@), 0) is None,
        },
{
    let mut cells = cells;
    if cells.len() == 0 {
        return None;
    }
    match cells.remove(0) {
        Cell::Blob(bytes) => Some(bytes),
        _ => None,
    }
}

/// The integer in column `index`, if that is what it holds.
pub fn integer(cells: &Vec<Cell>, index: usize) -> (value: Option<i64>)
    ensures
        value == integer_at(cells_view(cells@), index as int),
{
    if index >= cells.len() {
        return None;
    }
    match &cells[index] {
        Cell::Integer(i) => Some(*i),
        _ => None,
    }
}

} // verus!
