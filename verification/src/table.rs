//! Tables for the operator, laid out by `comfy_table`.

use crate::text::texts;
use vstd::prelude::*;

verus! {

/// The text of the table that `comfy_table` lays out, with its default
/// settings, for these column titles and these rows of cells.
pub uninterp spec fn table_text(titles: Seq<Seq<char>>, rows: Seq<Seq<Seq<char>>>) -> Seq<char>;

/// The texts that the rows of a table hold, cell by cell.
pub open spec fn row_texts(rows: Seq<Vec<String>>) -> Seq<Seq<Seq<char>>> {
    Seq::new(rows.len(), |i: int| texts(rows[i]@))
}

/// Calls `comfy_table`: `Table::new`, `Table::set_header`, `Table::add_rows`
/// and the table's `to_string`. The contract claims that the text depends on
/// the titles and the cells alone. A table made this way carries no width,
/// no constraint and no cell style, so neither the terminal nor its size
/// enters into the layout.
#[verifier::external_body]
pub(crate) fn render(titles: Vec<String>, rows: Vec<Vec<String>>) -> (text: String)
    ensures
        text@ == table_text(texts(titles@), row_texts(rows@)),
{
    let mut table = comfy_table::Table::new();
    table.set_header(titles);
    table.add_rows(rows);
    table.to_string()
}

} // verus!
