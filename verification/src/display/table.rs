//! A table of parameter, value and unit, drawn by the `prettytable` crate.
//!
//! `prettytable` measures every text it is given, and its measuring fails
//! on some texts that hold the escape character. No such text is let into
//! a table: [`VehicleTable::add_row`] asks for texts without it, and
//! [`VehicleTable::try_add_row`] looks first.

use vstd::prelude::*;
use vstd::string::StrSliceExecFns;

verus! {

/// The escape character, which begins a colour sequence of a terminal.
pub const ESCAPE: char = '\u{1b}';

/// The text does not hold the escape character.
pub open spec fn free_of_escape(text: Seq<char>) -> bool {
    forall|i: int| 0 <= i < text.len() ==> text[i] != ESCAPE
}

/// The text holds no line end: neither a line feed nor a carriage return.
pub open spec fn single_line(text: Seq<char>) -> bool {
    forall|i: int| 0 <= i < text.len() ==> text[i] != '\n' && text[i] != '\r'
}

/// The lines of a text without a line end: the text itself, or no line at
/// all when the text is empty.
pub open spec fn one_line(text: Seq<char>) -> Seq<Seq<char>> {
    if text.len() == 0 {
        Seq::empty()
    } else {
        seq![text]
    }
}

/// Lines put together again, with a line feed between each two.
pub open spec fn joined(lines: Seq<Seq<char>>) -> Seq<char>
    decreases lines.len(),
{
    if lines.len() == 0 {
        Seq::empty()
    } else if lines.len() == 1 {
        lines[0]
    } else {
        joined(lines.drop_last()) + seq!['\n'] + lines.last()
    }
}

/// A text without a line end is what its lines give when they are put
/// together again.
pub proof fn lemma_one_line_joined(text: Seq<char>)
    ensures
        joined(one_line(text)) == text,
{
    assert(joined(one_line(text)) =~= text);
}

/// The table type of `prettytable`, opaque here.
#[verifier::external_type_specification]
#[verifier::external_body]
pub struct ExTable(prettytable::Table);

/// The rows of a table from top to bottom, each with its cells from left
/// to right, each cell with the lines of text it holds.
pub uninterp spec fn table_rows(table: prettytable::Table) -> Seq<Seq<Seq<Seq<char>>>>;

/// Whether a table is as `prettytable::Table::new` and
/// `prettytable::Cell::new` make it: without a title, in the default
/// format, and with cells that have no style of their own.
pub uninterp spec fn as_made(table: prettytable::Table) -> bool;

/// The lines that `prettytable::Cell::new` keeps of a text.
pub uninterp spec fn cell_lines(text: Seq<char>) -> Seq<Seq<char>>;

/// The text that `prettytable::Table::print` writes for a table that is as
/// made and has these rows.
pub uninterp spec fn drawing(rows: Seq<Seq<Seq<Seq<char>>>>) -> Seq<char>;

/// `prettytable::Table::new`: a table without rows, as made.
#[verifier::external_body]
fn table_new() -> (table: prettytable::Table)
    ensures
        table_rows(table) == Seq::<Seq<Seq<Seq<char>>>>::empty(),
        as_made(table),
{
    prettytable::Table::new()
}

/// `prettytable::Table::add_row`, with a row of three cells made by
/// `prettytable::Cell::new`: the table gains that row at its end and keeps
/// the rows it had, and stays as made if it was. A cell keeps its text line
/// by line; of a text without a line end it keeps the text as its one line.
/// `Cell::new` measures each line and fails on some lines that hold the
/// escape character, so no text may hold it.
#[verifier::external_body]
fn table_add_row(table: &mut prettytable::Table, parameter: &str, value: &str, unit: &str)
    requires
        free_of_escape(parameter@),
        free_of_escape(value@),
        free_of_escape(unit@),
    ensures
        table_rows(*final(table)) == table_rows(*old(table)).push(
            seq![cell_lines(parameter@), cell_lines(value@), cell_lines(unit@)],
        ),
        single_line(parameter@) ==> table_rows(*final(table)).last()[0] == one_line(parameter@),
        single_line(value@) ==> table_rows(*final(table)).last()[1] == one_line(value@),
        single_line(unit@) ==> table_rows(*final(table)).last()[2] == one_line(unit@),
        as_made(*final(table)) == as_made(*old(table)),
{
    table.add_row(
        prettytable::Row::new(
            vec![
                prettytable::Cell::new(parameter),
                prettytable::Cell::new(value),
                prettytable::Cell::new(unit),
            ],
        ),
    );
}

/// `prettytable::Table::get_row`, `Row::get_cell` and `Cell::get_content`:
/// the lines of the cell at a place, put together with line feeds, or
/// nothing where the table has no cell there.
#[verifier::external_body]
fn table_cell(table: &prettytable::Table, row: usize, column: usize) -> (content: Option<String>)
    ensures
        content is Some <==> (row < table_rows(*table).len() && column < table_rows(
            *table,
        )[row as int].len()),
        content matches Some(text) ==> text@ == joined(
            table_rows(*table)[row as int][column as int],
        ),
{
    Some(table.get_row(row)?.get_cell(column)?.get_content())
}

/// `prettytable::Table::print` into a buffer in memory, which takes every
/// write: the drawing of the table as text. For a table that is as made,
/// the drawing depends on nothing but the rows.
#[verifier::external_body]
fn table_print(table: &prettytable::Table) -> (text: String)
    ensures
        as_made(*table) ==> text@ == drawing(table_rows(*table)),
{
    let mut out: Vec<u8> = Vec::new();
    let _ = table.print(&mut out);
    String::from_utf8_lossy(&out).into_owned()
}

/// Looks through a text for the escape character.
pub fn is_free_of_escape(text: &str) -> (free: bool)
    ensures
        free == free_of_escape(text@),
{
    let length: usize = text.unicode_len();
    let mut i: usize = 0;
    while i < length
        invariant
            i <= length,
            length == text@.len(),
            forall|k: int| 0 <= k < i ==> text@[k] != ESCAPE,
        decreases length - i,
    {
        if text.get_char(i) == ESCAPE {
            return false;
        }
        i += 1;
    }
    true
}

/// A table with one row for each parameter shown.
pub struct VehicleTable {
    table: prettytable::Table,
}

impl VehicleTable {
    #[verifier::type_invariant]
    spec fn well_formed(self) -> bool {
        as_made(self.table)
    }

    /// The rows of the table, each with its three cells, each cell with the
    /// lines of text it holds.
    pub closed spec fn rows(&self) -> Seq<Seq<Seq<Seq<char>>>> {
        table_rows(self.table)
    }

    /// A table without rows.
    pub fn new() -> (table: VehicleTable)
        ensures
            table.rows() == Seq::<Seq<Seq<Seq<char>>>>::empty(),
    {
        let table = table_new();
        VehicleTable { table }
    }

    /// Adds a row at the end. A text without a line end stands in its cell
    /// as it is; any other text stands there line by line. No text may
    /// hold the escape character.
    pub fn add_row(&mut self, parameter: &str, value: &str, unit: &str)
        requires
            free_of_escape(parameter@),
            free_of_escape(value@),
            free_of_escape(unit@),
        ensures
            final(self).rows() == old(self).rows().push(
                seq![cell_lines(parameter@), cell_lines(value@), cell_lines(unit@)],
            ),
            single_line(parameter@) ==> final(self).rows().last()[0] == one_line(parameter@),
            single_line(value@) ==> final(self).rows().last()[1] == one_line(value@),
            single_line(unit@) ==> final(self).rows().last()[2] == one_line(unit@),
    {
        proof {
            use_type_invariant(&*self);
        }
        let mut table = table_new();
        core::mem::swap(&mut table, &mut self.table);
        table_add_row(&mut table, parameter, value, unit);
        core::mem::swap(&mut table, &mut self.table);
    }

    /// Adds a row at the end if none of the texts holds the escape
    /// character, and says whether it did. Otherwise the table stays as it
    /// is.
    pub fn try_add_row(&mut self, parameter: &str, value: &str, unit: &str) -> (added: bool)
        ensures
            added == (free_of_escape(parameter@) && free_of_escape(value@) && free_of_escape(
                unit@,
            )),
            !added ==> final(self).rows() == old(self).rows(),
            added ==> final(self).rows() == old(self).rows().push(
                seq![cell_lines(parameter@), cell_lines(value@), cell_lines(unit@)],
            ),
            added && single_line(parameter@) ==> final(self).rows().last()[0] == one_line(
                parameter@,
            ),
            added && single_line(value@) ==> final(self).rows().last()[1] == one_line(value@),
            added && single_line(unit@) ==> final(self).rows().last()[2] == one_line(unit@),
    {
        if is_free_of_escape(parameter) && is_free_of_escape(value) && is_free_of_escape(unit) {
            self.add_row(parameter, value, unit);
            true
        } else {
            false
        }
    }

    /// The content of one cell, its lines put together with line feeds, or
    /// nothing where the table has no cell at that place.
    pub fn cell(&self, row: usize, column: usize) -> (content: Option<String>)
        ensures
            content is Some <==> (row < self.rows().len() && column < self.rows()[row as int].len()),
            content matches Some(text) ==> text@ == joined(self.rows()[row as int][column as int]),
    {
        table_cell(&self.table, row, column)
    }

    /// Draws the table as text, for the caller to print. Tables with the
    /// same rows are drawn alike.
    pub fn display(&self) -> (text: String)
        ensures
            text@ == drawing(self.rows()),
    {
        proof {
            use_type_invariant(self);
        }
        table_print(&self.table)
    }

    /// Takes all rows out.
    pub fn clear(&mut self)
        ensures
            final(self).rows() == Seq::<Seq<Seq<Seq<char>>>>::empty(),
    {
        self.table = table_new();
    }
}

} // verus!
