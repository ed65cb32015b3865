//! The spreadsheet sink: a table laid out on one worksheet, header row
//! first, then one worksheet row per table row, one column per header.

use vstd::prelude::*;
use crate::table::{rows_texts, ExtractedData};
use crate::text::{decimal_text, decimal_u64, texts};

verus! {

#[verifier::external_type_specification]
#[verifier::external_body]
pub struct ExWorksheet(rust_xlsxwriter::Worksheet);

#[verifier::external_type_specification]
#[verifier::external_body]
pub struct ExWorkbook(rust_xlsxwriter::Workbook);

#[verifier::external_type_specification]
#[verifier::external_body]
pub struct ExXlsxError(rust_xlsxwriter::XlsxError);

/// The string cells that a worksheet holds, by (row, column).
pub uninterp spec fn sheet_cells(w: rust_xlsxwriter::Worksheet) -> Map<(u32, u16), Seq<char>>;

/// The number of rows of a worksheet.
pub const SHEET_ROWS: u32 = 1048576;

/// The number of columns of a worksheet.
pub const SHEET_COLUMNS: u16 = 16384;

/// The longest text a cell can hold, in characters.
pub const CELL_TEXT_MAX: usize = 32767;

/// The sheet contents with no cells.
pub open spec fn no_cells() -> Map<(u32, u16), Seq<char>> {
    Map::empty()
}

/// Relies on `Worksheet::new`: a new worksheet holds no cells.
#[verifier::external_body]
fn new_worksheet() -> (r: rust_xlsxwriter::Worksheet)
    ensures
        sheet_cells(r) == no_cells(),
{
    rust_xlsxwriter::Worksheet::new()
}

/// Relies on `Worksheet::write_string`: an empty string stores nothing; a
/// position outside the sheet or a text over the length limit is refused
/// and stores nothing; else the cell holds the text, replacing what was
/// there.
#[verifier::external_body]
fn write_cell(w: &mut rust_xlsxwriter::Worksheet, row: u32, col: u16, s: &str) -> (r: Result<
    (),
    rust_xlsxwriter::XlsxError,
>)
    ensures
        s@.len() == 0 ==> r is Ok && sheet_cells(*final(w)) == sheet_cells(*old(w)),
        s@.len() > 0 && (row >= SHEET_ROWS || col >= SHEET_COLUMNS || s@.len() > CELL_TEXT_MAX)
            ==> r is Err && sheet_cells(*final(w)) == sheet_cells(*old(w)),
        s@.len() > 0 && row < SHEET_ROWS && col < SHEET_COLUMNS && s@.len() <= CELL_TEXT_MAX ==> r is Ok
            && sheet_cells(*final(w)) == sheet_cells(*old(w)).insert((row, col), s@),
{
    match w.write_string(row, col, s) {
        Ok(_) => Ok(()),
        Err(e) => Err(e),
    }
}

/// The worksheets of a workbook, in order, each as its string cells.
pub uninterp spec fn workbook_sheets(b: rust_xlsxwriter::Workbook) -> Seq<Map<(u32, u16), Seq<char>>>;

/// A workbook with no worksheets.
pub open spec fn no_sheets() -> Seq<Map<(u32, u16), Seq<char>>> {
    Seq::empty()
}

/// Relies on `Workbook::new`: a new workbook holds no worksheets.
#[verifier::external_body]
fn new_workbook() -> (r: rust_xlsxwriter::Workbook)
    ensures
        workbook_sheets(r) == no_sheets(),
{
    rust_xlsxwriter::Workbook::new()
}

/// Relies on `Workbook::push_worksheet`: the worksheet is appended as it
/// is (only a default name is given to an unnamed one).
#[verifier::external_body]
fn add_sheet(b: &mut rust_xlsxwriter::Workbook, w: rust_xlsxwriter::Worksheet)
    ensures
        workbook_sheets(*final(b)) == workbook_sheets(*old(b)).push(sheet_cells(w)),
{
    b.push_worksheet(w)
}

/// Relies on `Workbook::save_to_buffer`: the bytes of the xlsx file.
#[verifier::external_body]
fn workbook_bytes(b: &mut rust_xlsxwriter::Workbook) -> Result<Vec<u8>, rust_xlsxwriter::XlsxError> {
    b.save_to_buffer()
}

/// Why a table could not be turned into a spreadsheet.
#[derive(Debug)]
pub enum SinkError {
    /// A row's length differs from the header's.
    RaggedTable,
    TooManyColumns,
    TooManyRows,
    /// The cell at (`row`, `col`) of the sheet holds a text over the limit.
    CellTooLong { row: u32, col: u16 },
    /// The spreadsheet library could not assemble the file.
    Write(String),
    /// The destination is not an `.xlsx` file.
    UnsupportedOutput,
}

/// The rows of the sheet: the header, then the table's rows.
pub open spec fn table_grid(t: ExtractedData) -> Seq<Seq<Seq<char>>> {
    seq![t.header_texts()] + t.row_texts()
}

/// The non-empty cells of `row` as sheet cells of sheet row `r`.
pub open spec fn row_cells(r: u32, row: Seq<Seq<char>>) -> Map<(u32, u16), Seq<char>> {
    Map::new(
        |p: (u32, u16)| p.0 == r && (p.1 as int) < row.len() && row[p.1 as int].len() > 0,
        |p: (u32, u16)| row[p.1 as int],
    )
}

/// The non-empty cells of the first `k` rows of `g`.
pub open spec fn grid_cells(g: Seq<Seq<Seq<char>>>, k: int) -> Map<(u32, u16), Seq<char>> {
    Map::new(
        |p: (u32, u16)|
            (p.0 as int) < k && (p.1 as int) < g[p.0 as int].len() && g[p.0 as int][p.1 as int].len()
                > 0,
        |p: (u32, u16)| g[p.0 as int][p.1 as int],
    )
}

/// What reading cell (`r`, `c`) of a sheet gives: its text, or the empty
/// string where it holds none.
pub open spec fn read_cell(cells: Map<(u32, u16), Seq<char>>, r: int, c: int) -> Seq<char> {
    if cells.contains_key((r as u32, c as u16)) {
        cells[(r as u32, c as u16)]
    } else {
        Seq::empty()
    }
}

/// Every cell's text fits the sheet's limit.
pub open spec fn cells_short(g: Seq<Seq<Seq<char>>>) -> bool {
    forall|i: int, j: int| 0 <= i < g.len() && 0 <= j < g[i].len() ==> (#[trigger] g[i][j]).len() <= CELL_TEXT_MAX
}

fn write_row(w: &mut rust_xlsxwriter::Worksheet, r: u32, row: &Vec<String>) -> (res: Result<(), u16>)
    requires
        r < SHEET_ROWS,
        row@.len() <= SHEET_COLUMNS,
    ensures
        res is Ok <==> forall|j: int| 0 <= j < row@.len() ==> (#[trigger] row@[j])@.len() <= CELL_TEXT_MAX,
        res matches Err(c) ==> (c as int) < row@.len() && row@[c as int]@.len() > CELL_TEXT_MAX,
        res is Ok ==> sheet_cells(*final(w)) == sheet_cells(*old(w)).union_prefer_right(
            row_cells(r, texts(row@)),
        ),
{
    let mut j: usize = 0;
    while j < row.len()
        invariant
            j <= row@.len(),
            r < SHEET_ROWS,
            row@.len() <= SHEET_COLUMNS,
            forall|k: int| 0 <= k < j ==> (#[trigger] row@[k])@.len() <= CELL_TEXT_MAX,
            sheet_cells(*w) == sheet_cells(*old(w)).union_prefer_right(
                row_cells(r, texts(row@.take(j as int))),
            ),
        decreases row@.len() - j,
    {
        let res = write_cell(w, r, j as u16, row[j].as_str());
        if res.is_err() {
            return Err(j as u16);
        }
        assert(texts(row@.take(j + 1)) =~= texts(row@.take(j as int)).push(row@[j as int]@));
        assert(sheet_cells(*w) =~= sheet_cells(*old(w)).union_prefer_right(
            row_cells(r, texts(row@.take(j + 1))),
        ));
        j = j + 1;
    }
    assert(row@.take(row@.len() as int) =~= row@);
    Ok(())
}

/// Lays the table out on a new worksheet: the header in row 0, table row
/// `i` in sheet row `i + 1`, cell `j` of each in column `j`.
pub fn fill_sheet(t: &ExtractedData) -> (r: Result<rust_xlsxwriter::Worksheet, SinkError>)
    ensures
        !t.wf() ==> r matches Err(SinkError::RaggedTable),
        t.wf() && t.headers@.len() > SHEET_COLUMNS ==> r matches Err(SinkError::TooManyColumns),
        t.wf() && t.headers@.len() <= SHEET_COLUMNS && t.rows@.len() >= SHEET_ROWS ==> r matches Err(
            SinkError::TooManyRows,
        ),
        t.wf() && t.headers@.len() <= SHEET_COLUMNS && t.rows@.len() < SHEET_ROWS ==> {
            &&& (r is Ok <==> cells_short(table_grid(*t)))
            &&& (r matches Err(e) ==> e matches SinkError::CellTooLong { row, col } && (row as int)
                < table_grid(*t).len() && (col as int) < table_grid(*t)[row as int].len()
                && table_grid(*t)[row as int][col as int].len() > CELL_TEXT_MAX)
        },
        r matches Ok(w) ==> sheet_cells(w) == grid_cells(table_grid(*t), (t.rows@.len() + 1) as int),
{
    if !t.is_well_formed() {
        return Err(SinkError::RaggedTable);
    }
    if t.headers.len() > SHEET_COLUMNS as usize {
        return Err(SinkError::TooManyColumns);
    }
    if t.rows.len() >= SHEET_ROWS as usize {
        return Err(SinkError::TooManyRows);
    }
    let ghost g = table_grid(*t);
    let mut w = new_worksheet();
    assert(grid_cells(g, 0) =~= Map::<(u32, u16), Seq<char>>::empty());
    match write_row(&mut w, 0, &t.headers) {
        Err(c) => {
            assert(g[0][c as int] == t.headers@[c as int]@);
            assert(g[0][c as int].len() > CELL_TEXT_MAX);
            return Err(SinkError::CellTooLong { row: 0, col: c });
        },
        Ok(()) => {},
    }
    assert(grid_cells(g, 1) =~= grid_cells(g, 0).union_prefer_right(row_cells(0, g[0])));
    let mut i: usize = 0;
    while i < t.rows.len()
        invariant
            i <= t.rows@.len(),
            t.rows@.len() < SHEET_ROWS,
            t.headers@.len() <= SHEET_COLUMNS,
            t.wf(),
            g == table_grid(*t),
            sheet_cells(w) == grid_cells(g, i + 1),
            forall|a: int, b: int|
                0 <= a < i + 1 && 0 <= b < g[a].len() ==> (#[trigger] g[a][b]).len() <= CELL_TEXT_MAX,
        decreases t.rows@.len() - i,
    {
        assert(g[i + 1] == texts(t.rows@[i as int]@));
        match write_row(&mut w, (i + 1) as u32, &t.rows[i]) {
            Err(c) => {
                assert(g[i + 1][c as int] == t.rows@[i as int]@[c as int]@);
                assert(g[i + 1][c as int].len() > CELL_TEXT_MAX);
                return Err(SinkError::CellTooLong { row: (i + 1) as u32, col: c });
            },
            Ok(()) => {},
        }
        assert(grid_cells(g, i + 2) =~= grid_cells(g, i + 1).union_prefer_right(
            row_cells((i + 1) as u32, g[i + 1]),
        ));
        i = i + 1;
    }
    Ok(w)
}

/// A workbook whose one worksheet holds the table, laid out as `fill_sheet`
/// lays it out.
pub fn build_workbook(t: &ExtractedData) -> (r: Result<rust_xlsxwriter::Workbook, SinkError>)
    ensures
        !t.wf() ==> r matches Err(SinkError::RaggedTable),
        t.wf() && t.headers@.len() > SHEET_COLUMNS ==> r matches Err(SinkError::TooManyColumns),
        t.wf() && t.headers@.len() <= SHEET_COLUMNS && t.rows@.len() >= SHEET_ROWS ==> r matches Err(
            SinkError::TooManyRows,
        ),
        t.wf() && t.headers@.len() <= SHEET_COLUMNS && t.rows@.len() < SHEET_ROWS ==> {
            &&& (r is Ok <==> cells_short(table_grid(*t)))
            &&& (r matches Err(e) ==> e matches SinkError::CellTooLong { row, col } && (row as int)
                < table_grid(*t).len() && (col as int) < table_grid(*t)[row as int].len()
                && table_grid(*t)[row as int][col as int].len() > CELL_TEXT_MAX)
        },
        r matches Ok(b) ==> workbook_sheets(b) == seq![
            grid_cells(table_grid(*t), (t.rows@.len() + 1) as int),
        ],
{
    let w = match fill_sheet(t) {
        Ok(w) => w,
        Err(e) => {
            return Err(e);
        },
    };
    let mut book = new_workbook();
    add_sheet(&mut book, w);
    assert(workbook_sheets(book) =~= seq![grid_cells(table_grid(*t), (t.rows@.len() + 1) as int)]);
    Ok(book)
}

/// The bytes of an xlsx file that holds the table on its one worksheet.
/// Where the table is in order, only the spreadsheet library's own
/// assembling of the file can fail.
pub fn table_to_xlsx(t: &ExtractedData) -> (r: Result<Vec<u8>, SinkError>)
    ensures
        !t.wf() ==> r matches Err(SinkError::RaggedTable),
        t.wf() && t.headers@.len() > SHEET_COLUMNS ==> r matches Err(SinkError::TooManyColumns),
        t.wf() && t.headers@.len() <= SHEET_COLUMNS && t.rows@.len() >= SHEET_ROWS ==> r matches Err(
            SinkError::TooManyRows,
        ),
        t.wf() && t.headers@.len() <= SHEET_COLUMNS && t.rows@.len() < SHEET_ROWS && !cells_short(
            table_grid(*t),
        ) ==> r matches Err(SinkError::CellTooLong { .. }),
        t.wf() && t.headers@.len() <= SHEET_COLUMNS && t.rows@.len() < SHEET_ROWS && cells_short(
            table_grid(*t),
        ) ==> (r is Ok || r matches Err(SinkError::Write(_))),
        r is Ok ==> t.wf() && t.headers@.len() <= SHEET_COLUMNS && t.rows@.len() < SHEET_ROWS
            && cells_short(table_grid(*t)),
{
    let mut book = match build_workbook(t) {
        Ok(b) => b,
        Err(e) => {
            return Err(e);
        },
    };
    match workbook_bytes(&mut book) {
        Ok(bytes) => Ok(bytes),
        Err(e) => Err(SinkError::Write(e.to_string())),
    }
}

/// A table written to a sheet reads back as the same header and rows: cell
/// (0, `j`) is header `j`, and cell (`i + 1`, `j`) is cell `j` of row `i`
/// (an empty string reads back from a cell that holds none).
pub proof fn lemma_sheet_round_trip(t: ExtractedData, cells: Map<(u32, u16), Seq<char>>)
    requires
        t.wf(),
        t.headers@.len() <= SHEET_COLUMNS,
        t.rows@.len() < SHEET_ROWS,
        cells == grid_cells(table_grid(t), (t.rows@.len() + 1) as int),
    ensures
        forall|j: int| 0 <= j < t.headers@.len() ==> read_cell(cells, 0, j) == #[trigger] t.header_texts()[j],
        forall|i: int, j: int|
            0 <= i < t.rows@.len() && 0 <= j < t.headers@.len() ==> read_cell(cells, i + 1, j)
                == #[trigger] t.row_texts()[i][j],
{
    let g = table_grid(t);
    assert forall|j: int| 0 <= j < t.headers@.len() implies read_cell(cells, 0, j)
        == #[trigger] t.header_texts()[j] by {
        assert(g[0] == t.header_texts());
        let p = (0u32, j as u16);
        assert(p.1 as int == j);
    }
    assert forall|i: int, j: int|
        0 <= i < t.rows@.len() && 0 <= j < t.headers@.len() implies read_cell(cells, i + 1, j)
        == #[trigger] t.row_texts()[i][j] by {
        assert(g[i + 1] == t.row_texts()[i]);
        assert(t.rows@[i]@.len() == t.headers@.len());
        let p = ((i + 1) as u32, j as u16);
        assert(p.0 as int == i + 1);
        assert(p.1 as int == j);
    }
}

impl SinkError {
    /// The human-readable description.
    pub fn message(&self) -> (r: String)
        ensures
            self matches SinkError::RaggedTable ==> r@ == "a row's length differs from the header's"@,
            self matches SinkError::TooManyColumns ==> r@ == "more columns than a worksheet holds"@,
            self matches SinkError::TooManyRows ==> r@ == "more rows than a worksheet holds"@,
            self matches SinkError::CellTooLong { row, col } ==> r@ == "the text of cell ("@
                + decimal_text(row as int) + ", "@ + decimal_text(col as int)
                + ") is longer than a cell holds"@,
            self matches SinkError::Write(m) ==> r@ == m@,
            self matches SinkError::UnsupportedOutput ==> r@
                == "Unsupported output file format. Only .xlsx is supported for extract action."@,
    {
        match self {
            SinkError::RaggedTable => String::from_str("a row's length differs from the header's"),
            SinkError::TooManyColumns => String::from_str("more columns than a worksheet holds"),
            SinkError::TooManyRows => String::from_str("more rows than a worksheet holds"),
            SinkError::CellTooLong { row, col } => {
                let mut s = String::from_str("the text of cell (");
                s.append(decimal_u64(*row as u64).as_str());
                s.append(", ");
                s.append(decimal_u64(*col as u64).as_str());
                s.append(") is longer than a cell holds");
                s
            },
            SinkError::Write(m) => m.clone(),
            SinkError::UnsupportedOutput => String::from_str(
                "Unsupported output file format. Only .xlsx is supported for extract action.",
            ),
        }
    }
}

} // verus!
