//! The bordered grid of the table encoding, drawn by `comfy_table`.
//!
//! The library decides what stands in each cell and how it is styled; the
//! drawing itself belongs to `comfy_table`. What a table holds is described
//! by [`table_header`] and [`table_rows`], what a cell holds by
//! [`cell_model`]. How a table is drawn depends on the terminal it is drawn
//! for, so the drawn text is not a function of the table: [`drawing_of`]
//! relates a table to each text that is a drawing of it.
//!
//! Every function of this module that is marked `external_body` is one call
//! into `comfy_table`; its contract is taken on trust.

use vstd::prelude::*;

verus! {

/// The colours in which cells are shown.
#[derive(Debug, Clone, Copy, PartialEq, Eq, Structural)]
pub enum Tint {
    Cyan,
    Green,
    Red,
    Yellow,
    Blue,
    Magenta,
}

/// What a cell holds: its text, its foreground colour if it has one, and
/// whether it is shown in bold.
pub struct CellModel {
    pub text: Seq<char>,
    pub tint: Option<Tint>,
    pub bold: bool,
}

/// `comfy_table::Table`, known by what [`table_header`] and [`table_rows`]
/// say of it.
#[verifier::external_type_specification]
#[verifier::external_body]
pub struct ExTable(comfy_table::Table);

/// `comfy_table::Cell`, known by what [`cell_model`] says of it.
#[verifier::external_type_specification]
#[verifier::external_body]
pub struct ExCell(comfy_table::Cell);

/// What a `comfy_table::Cell` holds.
pub uninterp spec fn cell_model(cell: comfy_table::Cell) -> CellModel;

/// The header row of a `comfy_table::Table`, if one was set.
pub uninterp spec fn table_header(table: comfy_table::Table) -> Option<Seq<CellModel>>;

/// The rows of a `comfy_table::Table` below its header, first to last.
pub uninterp spec fn table_rows(table: comfy_table::Table) -> Seq<Seq<CellModel>>;

/// Whether a `comfy_table::Table` is regular: the table knows a column for
/// every cell of its header and of each of its rows, and no row has a cap
/// on its height. A table is drawn only in this state.
pub uninterp spec fn table_is_regular(table: comfy_table::Table) -> bool;

/// Whether `text` is a drawing, by the `Display` form of
/// `comfy_table::Table`, of a table with that header and those rows. One
/// table has many drawings: which one comes out depends on whether the
/// output is a terminal and on how wide that terminal is.
pub uninterp spec fn drawing_of(
    header: Option<Seq<CellModel>>,
    rows: Seq<Seq<CellModel>>,
    text: Seq<char>,
) -> bool;

/// What the cells of a row hold, cell by cell.
pub open spec fn cell_models(cells: Seq<comfy_table::Cell>) -> Seq<CellModel> {
    Seq::new(cells.len(), |i: int| cell_model(cells[i]))
}

/// A cell without styling.
pub open spec fn plain(text: Seq<char>) -> CellModel {
    CellModel { text, tint: None, bold: false }
}

/// A cell in a colour.
pub open spec fn tinted(text: Seq<char>, tint: Tint) -> CellModel {
    CellModel { text, tint: Some(tint), bold: false }
}

/// A column heading: bold, in cyan.
pub open spec fn heading(text: Seq<char>) -> CellModel {
    CellModel { text, tint: Some(Tint::Cyan), bold: true }
}

/// `Table::new`: a table with no header and no rows, which is regular.
#[verifier::external_body]
pub(crate) fn new_table() -> (table: comfy_table::Table)
    ensures
        table_header(table) is None,
        table_rows(table) == Seq::<Seq<CellModel>>::empty(),
        table_is_regular(table),
{
    comfy_table::Table::new()
}

/// `Table::load_preset` with the preset `UTF8_FULL`: changes the characters
/// that borders are drawn with, and neither header nor rows nor columns.
#[verifier::external_body]
pub(crate) fn use_full_borders(table: &mut comfy_table::Table)
    ensures
        table_header(*final(table)) == table_header(*old(table)),
        table_rows(*final(table)) == table_rows(*old(table)),
        table_is_regular(*final(table)) == table_is_regular(*old(table)),
{
    table.load_preset(comfy_table::presets::UTF8_FULL);
}

/// `Table::set_content_arrangement` with `Dynamic`: changes how columns are
/// fitted to the terminal, and neither header nor rows nor columns.
#[verifier::external_body]
pub(crate) fn use_dynamic_arrangement(table: &mut comfy_table::Table)
    ensures
        table_header(*final(table)) == table_header(*old(table)),
        table_rows(*final(table)) == table_rows(*old(table)),
        table_is_regular(*final(table)) == table_is_regular(*old(table)),
{
    table.set_content_arrangement(comfy_table::ContentArrangement::Dynamic);
}

/// `Table::set_header`: the given cells become the header; the rows stay.
/// The table gets a column for each cell that had none, and the new header
/// has no cap on its height, so a regular table stays regular.
#[verifier::external_body]
pub(crate) fn set_header(table: &mut comfy_table::Table, cells: Vec<comfy_table::Cell>)
    ensures
        table_header(*final(table)) == Some(cell_models(cells@)),
        table_rows(*final(table)) == table_rows(*old(table)),
        table_is_regular(*old(table)) ==> table_is_regular(*final(table)),
{
    table.set_header(cells);
}

/// `Table::add_row`: the given cells become the last row; the header and
/// the rows before it stay. The table gets a column for each cell that had
/// none, and the new row has no cap on its height, so a regular table stays
/// regular.
#[verifier::external_body]
pub(crate) fn add_row(table: &mut comfy_table::Table, cells: Vec<comfy_table::Cell>)
    ensures
        table_header(*final(table)) == table_header(*old(table)),
        table_rows(*final(table)) == table_rows(*old(table)).push(cell_models(cells@)),
        table_is_regular(*old(table)) ==> table_is_regular(*final(table)),
{
    table.add_row(cells);
}

/// `Cell::new`: a cell with the given text and no styling.
#[verifier::external_body]
pub(crate) fn new_cell(text: &str) -> (cell: comfy_table::Cell)
    ensures
        cell_model(cell) == plain(text@),
{
    comfy_table::Cell::new(text)
}

/// `Cell::fg`: the same cell with its foreground colour set.
#[verifier::external_body]
pub(crate) fn with_tint(cell: comfy_table::Cell, tint: Tint) -> (r: comfy_table::Cell)
    ensures
        cell_model(r) == (CellModel { tint: Some(tint), ..cell_model(cell) }),
{
    cell.fg(
        match tint {
            Tint::Cyan => comfy_table::Color::Cyan,
            Tint::Green => comfy_table::Color::Green,
            Tint::Red => comfy_table::Color::Red,
            Tint::Yellow => comfy_table::Color::Yellow,
            Tint::Blue => comfy_table::Color::Blue,
            Tint::Magenta => comfy_table::Color::Magenta,
        },
    )
}

/// `Cell::add_attribute` with `Bold`: the same cell, shown in bold.
#[verifier::external_body]
pub(crate) fn with_bold(cell: comfy_table::Cell) -> (r: comfy_table::Cell)
    ensures
        cell_model(r) == (CellModel { bold: true, ..cell_model(cell) }),
{
    cell.add_attribute(comfy_table::Attribute::Bold)
}

/// The `Display` form of a table: a drawing of its header and rows. Which
/// drawing depends on whether the output is a terminal and on how wide
/// that terminal is, so the text is related to the table, not named. The
/// drawing code indexes the columns by the cells of each row and cuts rows
/// that have a cap on their height; a regular table keeps it clear of both.
#[verifier::external_body]
pub(crate) fn draw(table: &comfy_table::Table) -> (r: String)
    requires
        table_is_regular(*table),
    ensures
        drawing_of(table_header(*table), table_rows(*table), r@),
{
    table.to_string()
}

/// A styled column heading.
pub fn heading_cell(text: &str) -> (cell: comfy_table::Cell)
    ensures
        cell_model(cell) == heading(text@),
{
    with_tint(with_bold(new_cell(text)), Tint::Cyan)
}

/// A cell in a colour.
pub fn tinted_cell(text: &str, tint: Tint) -> (cell: comfy_table::Cell)
    ensures
        cell_model(cell) == tinted(text@, tint),
{
    with_tint(new_cell(text), tint)
}

/// An empty table with full borders, fitted to the terminal when drawn.
pub fn bordered_table() -> (table: comfy_table::Table)
    ensures
        table_header(table) is None,
        table_rows(table) == Seq::<Seq<CellModel>>::empty(),
        table_is_regular(table),
{
    let mut table = new_table();
    use_full_borders(&mut table);
    use_dynamic_arrangement(&mut table);
    table
}

} // verus!
