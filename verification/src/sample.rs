//! The view of one table or view with a sample of its rows.

use vstd::prelude::*;
use comfy_table::presets::UTF8_FULL;
use crate::catalog::{CatalogError, Table};
use crate::dispatch::{
    lemma_line_under_heading, line_count, line_width, measure, mode_for, sample_output,
    OutputMode, Terminal,
};
use crate::escape::{escape_identifier, escaped};
use crate::size::{fmt_n_bytes, size_text};
use crate::style::{painted, push_painted, Accent, RenderOptions};
use crate::text::{decimal, i64_text, lemma_append_assoc, signed_decimal, texts, u64_text, usize_text};

verus! {

/// One value of a sampled row.
#[derive(Debug, PartialEq)]
pub enum Cell {
    Null,
    Integer(i64),
    /// A real number, in the notation that the caller gives it.
    Real(String),
    Text(String),
    Blob(Vec<u8>),
}

/// The rows that were read from a table, and what the engine counted.
#[derive(Debug, PartialEq)]
pub struct Sample {
    /// The names of the result's columns.
    pub columns: Vec<String>,
    pub rows: Vec<Vec<Cell>>,
    /// With a row filter, the number of rows that the filter selects.
    pub selected: Option<u64>,
}

/// The hexadecimal digit for `d`, in upper case.
pub open spec fn hex_digit(d: nat) -> char {
    if d < 10 {
        (('0' as u8) + d) as char
    } else {
        (('A' as u8) + (d - 10)) as char
    }
}

/// One byte inside a byte-string literal: itself where it is a printable
/// character from `(` to `~`, else `\x` and two hexadecimal digits.
pub open spec fn byte_text(b: u8) -> Seq<char> {
    if 40 <= b && b <= 126 {
        seq![b as char]
    } else {
        seq!['\\', 'x', hex_digit((b / 16) as nat), hex_digit((b % 16) as nat)]
    }
}

pub open spec fn bytes_text(bytes: Seq<u8>) -> Seq<char>
    decreases bytes.len(),
{
    if bytes.len() == 0 {
        Seq::empty()
    } else {
        bytes_text(bytes.drop_last()) + byte_text(bytes.last())
    }
}

/// The byte-string literal for `bytes`.
pub open spec fn byte_string_literal(bytes: Seq<u8>) -> Seq<char> {
    seq!['b', '"'] + bytes_text(bytes) + seq!['"']
}

/// How many bytes of a blob are shown in full.
pub const BLOB_SHOWN_WHOLE: usize = 8;

/// How many bytes of a longer blob are shown.
pub const BLOB_PREFIX: usize = 6;

/// A blob as shown in a cell: whole up to 8 bytes, else its first 6 bytes
/// and its size.
pub open spec fn blob_text(bytes: Seq<u8>) -> Seq<char> {
    if bytes.len() <= BLOB_SHOWN_WHOLE {
        byte_string_literal(bytes)
    } else {
        byte_string_literal(bytes.take(BLOB_PREFIX as int)) + ".. ("@ + size_text(bytes.len())
            + ")"@
    }
}

/// The text of a cell.
pub open spec fn cell_text(cell: Cell) -> Seq<char> {
    match cell {
        Cell::Null => Seq::empty(),
        Cell::Integer(i) => signed_decimal(i as int),
        Cell::Real(t) => t@,
        Cell::Text(s) => s@,
        Cell::Blob(v) => blob_text(v@),
    }
}

pub open spec fn row_texts(row: Seq<Cell>) -> Seq<Seq<char>> {
    row.map_values(|c: Cell| cell_text(c))
}

pub open spec fn rows_texts(rows: Seq<Vec<Cell>>) -> Seq<Seq<Seq<char>>> {
    rows.map_values(|r: Vec<Cell>| row_texts(r@))
}

pub open spec fn grid_rows(rows: Seq<Vec<String>>) -> Seq<Seq<Seq<char>>> {
    rows.map_values(|r: Vec<String>| texts(r@))
}

/// The grid that is drawn for a header and rows of cells: lines joined by
/// line feeds, the first of them the top border, no line feed at the end.
pub uninterp spec fn grid_text(header: Seq<Seq<char>>, rows: Seq<Seq<Seq<char>>>) -> Seq<char>;

/// Draws a grid with `comfy_table`: a new `Table` with the preset
/// `UTF8_FULL`, `header` set with `set_header`, each of `rows` added with
/// `add_row`, and the whole written by the table's `Display`. With no
/// arrangement, width or cell style set, what is drawn depends on the header
/// and the rows alone; the contract names it.
#[verifier::external_body]
fn draw_grid(header: &Vec<String>, rows: &Vec<Vec<String>>) -> (r: String)
    ensures
        r@ == grid_text(texts(header@), grid_rows(rows@)),
{
    let mut table = comfy_table::Table::new();
    table.load_preset(UTF8_FULL).set_header(header);
    for row in rows {
        table.add_row(row);
    }
    table.to_string()
}

fn hex_character(d: u8) -> (c: char)
    requires
        d < 16,
    ensures
        c == hex_digit(d as nat),
{
    if d < 10 {
        (48u8 + d) as char
    } else {
        (65u8 + (d - 10)) as char
    }
}

fn push_bytes(out: &mut String, bytes: &[u8], n: usize)
    requires
        n <= bytes@.len(),
    ensures
        final(out)@ == old(out)@ + byte_string_literal(bytes@.take(n as int)),
{
    let ghost start = out@;
    out.push('b');
    out.push('"');
    let ghost opened = out@;
    let mut i: usize = 0;
    assert(out@ =~= opened + bytes_text(bytes@.take(0)));
    while i < n
        invariant
            i <= n <= bytes@.len(),
            out@ == opened + bytes_text(bytes@.take(i as int)),
        decreases n - i,
    {
        let b = bytes[i];
        let ghost before = out@;
        proof {
            assert(bytes@.take(i + 1).drop_last() =~= bytes@.take(i as int));
            assert(bytes@.take(i + 1).last() == b);
        }
        if b >= 40 && b <= 126 {
            out.push(b as char);
        } else {
            out.push('\\');
            out.push('x');
            out.push(hex_character(b / 16));
            out.push(hex_character(b % 16));
        }
        assert(out@ =~= before + byte_text(b));
        i = i + 1;
        proof {
            lemma_append_assoc(opened, bytes_text(bytes@.take(i - 1)), byte_text(b));
        }
    }
    out.push('"');
    assert(out@ =~= start + byte_string_literal(bytes@.take(n as int)));
}

/// The byte-string literal for `bytes`: `b"`, each byte as itself where it
/// is a printable character from `(` to `~` and as `\x` with two
/// hexadecimal digits otherwise, and a closing `"`.
pub fn to_byte_string_literal(bytes: &[u8]) -> (r: String)
    ensures
        r@ == byte_string_literal(bytes@),
{
    let mut out = String::new();
    push_bytes(&mut out, bytes, bytes.len());
    assert(bytes@.take(bytes@.len() as int) =~= bytes@);
    assert(out@ =~= byte_string_literal(bytes@));
    out
}

/// The text that a cell shows.
pub fn format_cell(cell: &Cell) -> (r: String)
    ensures
        r@ == cell_text(*cell),
{
    match cell {
        Cell::Null => String::new(),
        Cell::Integer(i) => i64_text(*i),
        Cell::Real(t) => t.clone(),
        Cell::Text(s) => s.clone(),
        Cell::Blob(v) => {
            if v.len() <= BLOB_SHOWN_WHOLE {
                to_byte_string_literal(v.as_slice())
            } else {
                let mut out = String::new();
                push_bytes(&mut out, v.as_slice(), BLOB_PREFIX);
                out.append(".. (");
                out.append(fmt_n_bytes(v.len()).as_str());
                out.append(")");
                assert(out@ =~= blob_text(v@));
                out
            }
        },
    }
}

fn format_row(row: &Vec<Cell>) -> (r: Vec<String>)
    ensures
        texts(r@) == row_texts(row@),
{
    let mut r: Vec<String> = Vec::new();
    let mut i: usize = 0;
    assert(texts(r@) =~= row_texts(row@.take(0)));
    while i < row.len()
        invariant
            i <= row.len(),
            texts(r@) == row_texts(row@.take(i as int)),
        decreases row.len() - i,
    {
        let ghost seen = texts(r@);
        let text = format_cell(&row[i]);
        r.push(text);
        i = i + 1;
        proof {
            assert(texts(r@) =~= seen.push(text@));
            assert(row@.take(i as int) =~= row@.take(i - 1).push(row@[i - 1]));
            assert(texts(r@) =~= row_texts(row@.take(i as int)));
        }
    }
    assert(row@.take(i as int) =~= row@);
    r
}

fn format_rows(rows: &Vec<Vec<Cell>>) -> (r: Vec<Vec<String>>)
    ensures
        grid_rows(r@) == rows_texts(rows@),
{
    let mut r: Vec<Vec<String>> = Vec::new();
    let mut i: usize = 0;
    assert(grid_rows(r@) =~= rows_texts(rows@.take(0)));
    while i < rows.len()
        invariant
            i <= rows.len(),
            grid_rows(r@) == rows_texts(rows@.take(i as int)),
        decreases rows.len() - i,
    {
        let ghost seen = grid_rows(r@);
        let row = format_row(&rows[i]);
        r.push(row);
        i = i + 1;
        proof {
            assert(grid_rows(r@) =~= seen.push(texts(row@)));
            assert(rows@.take(i as int) =~= rows@.take(i - 1).push(rows@[i - 1]));
            assert(grid_rows(r@) =~= rows_texts(rows@.take(i as int)));
        }
    }
    assert(rows@.take(i as int) =~= rows@);
    r
}

/// The statement that reads the sample: every column of the object, the rows
/// that `where_clause` selects where one is given, and a bound on the number
/// of rows as the one parameter. `where_clause` goes into the text as it is.
pub open spec fn sample_query_text(name: Seq<char>, where_clause: Option<Seq<char>>) -> Seq<char> {
    "SELECT * FROM "@ + escaped(name) + " "@ + (match where_clause {
        Some(w) => "WHERE "@ + w,
        None => Seq::empty(),
    }) + " LIMIT ?"@
}

/// The statement that counts the rows of the object.
pub open spec fn count_query_text(name: Seq<char>) -> Seq<char> {
    "SELECT count(*) from "@ + escaped(name)
}

/// The statement that counts the rows that `where_clause` selects.
pub open spec fn selected_count_query_text(name: Seq<char>, where_clause: Seq<char>) -> Seq<char> {
    "SELECT count(*) from "@ + escaped(name) + " WHERE "@ + where_clause
}

/// The statement that reads a sample of the rows of the object called
/// `name`. The name is escaped; `where_clause` is trusted and goes in as it
/// is.
pub fn sample_query(name: &str, where_clause: Option<&str>) -> (r: String)
    ensures
        r@ == sample_query_text(
            name@,
            match where_clause {
                Some(w) => Some(w@),
                None => None,
            },
        ),
{
    let mut out = "SELECT * FROM ".to_owned();
    out.append(escape_identifier(name).as_str());
    out.append(" ");
    let ghost head = out@;
    match where_clause {
        Some(w) => {
            out.append("WHERE ");
            out.append(w);
            assert(out@ =~= head + ("WHERE "@ + w@));
        },
        None => {
            assert(out@ =~= head + Seq::<char>::empty());
        },
    }
    out.append(" LIMIT ?");
    out
}

/// The statement that counts the rows of the object called `name`.
pub fn count_query(name: &str) -> (r: String)
    ensures
        r@ == count_query_text(name@),
{
    let mut out = "SELECT count(*) from ".to_owned();
    out.append(escape_identifier(name).as_str());
    out
}

/// The statement that counts the rows of the object called `name` that
/// `where_clause` selects.
pub fn selected_count_query(name: &str, where_clause: &str) -> (r: String)
    ensures
        r@ == selected_count_query_text(name@, where_clause@),
{
    let mut out = "SELECT count(*) from ".to_owned();
    out.append(escape_identifier(name).as_str());
    out.append(" WHERE ");
    out.append(where_clause);
    out
}

/// The line under the grid: how many rows are shown, of how many.
pub open spec fn footer_text(shown: nat, selected: Option<u64>, total: nat) -> Seq<char> {
    match selected {
        Some(n) => decimal(shown) + " of "@ + decimal(n as nat) + " selected rows (of "@
            + decimal(total) + " in table)"@,
        None => decimal(shown) + " of "@ + decimal(total) + " rows"@,
    }
}

/// The first line: the file, the object and its kind.
pub open spec fn sample_heading(
    filename: Seq<char>,
    name: Seq<char>,
    kind: Seq<char>,
    color: bool,
) -> Seq<char> {
    filename + ": "@ + painted(escaped(name), Accent::BrightGreenBold, color) + " "@ + kind
        + "\n"@
}

/// What stands under the heading: the grid, its top border first, and the
/// footer.
pub open spec fn sample_body(sample: Sample, total: nat) -> Seq<char> {
    grid_text(texts(sample.columns@), rows_texts(sample.rows@)) + "\n"@ + footer_text(
        sample.rows@.len(),
        sample.selected,
        total,
    ) + "\n"@
}

/// The whole view of a sample: heading, grid, footer.
pub open spec fn sample_text(
    filename: Seq<char>,
    name: Seq<char>,
    kind: Seq<char>,
    sample: Sample,
    total: nat,
    color: bool,
) -> Seq<char> {
    sample_heading(filename, name, kind, color) + sample_body(sample, total)
}

/// A rendered sample and how it is to be shown.
#[derive(Debug, PartialEq)]
pub struct SampleView {
    pub text: String,
    pub mode: OutputMode,
}

fn push_footer(out: &mut String, shown: usize, selected: Option<u64>, total: u64)
    ensures
        final(out)@ == old(out)@ + footer_text(shown as nat, selected, total as nat),
{
    let ghost start = out@;
    out.append(usize_text(shown).as_str());
    out.append(" of ");
    match selected {
        Some(n) => {
            out.append(u64_text(n).as_str());
            out.append(" selected rows (of ");
            out.append(u64_text(total).as_str());
            out.append(" in table)");
        },
        None => {
            out.append(u64_text(total).as_str());
            out.append(" rows");
        },
    }
    assert(out@ =~= start + footer_text(shown as nat, selected, total as nat));
}

fn push_sample_heading(out: &mut String, filename: &str, name: &str, kind: &str, color: bool)
    ensures
        final(out)@ == old(out)@ + sample_heading(filename@, name@, kind@, color),
{
    let ghost start = out@;
    out.append(filename);
    out.append(": ");
    push_painted(out, escape_identifier(name).as_str(), Accent::BrightGreenBold, color);
    out.append(" ");
    out.append(kind);
    out.append("\n");
    assert(out@ =~= start + sample_heading(filename@, name@, kind@, color));
}

fn push_sample_body(out: &mut String, sample: &Sample, total: u64)
    ensures
        final(out)@ == old(out)@ + sample_body(*sample, total as nat),
{
    let ghost start = out@;
    let rows = format_rows(&sample.rows);
    out.append(draw_grid(&sample.columns, &rows).as_str());
    out.append("\n");
    push_footer(out, sample.rows.len(), sample.selected, total);
    out.append("\n");
    assert(out@ =~= start + sample_body(*sample, total as nat));
}

/// Writes the view of a sample: the heading with the file's name, the name
/// of the object and its kind; the grid of the sampled rows under the
/// column names; and the count of rows shown, selected and present.
pub fn render_sample(
    filename: &str,
    name: &str,
    kind: &str,
    sample: &Sample,
    total: u64,
    color: bool,
) -> (r: String)
    ensures
        r@ == sample_text(filename@, name@, kind@, *sample, total as nat, color),
{
    let mut out = String::new();
    push_sample_heading(&mut out, filename, name, kind, color);
    assert(out@ =~= sample_heading(filename@, name@, kind@, color));
    push_sample_body(&mut out, sample, total);
    out
}

/// The number of lines that the heading of a sample takes: one, and one more
/// for each line feed in the names that it holds.
pub fn heading_lines(filename: &str, name: &str, kind: &str, color: bool) -> (n: usize)
    ensures
        n == line_count(sample_heading(filename@, name@, kind@, color)),
{
    let mut heading = String::new();
    push_sample_heading(&mut heading, filename, name, kind, color);
    assert(heading@ =~= sample_heading(filename@, name@, kind@, color));
    measure(heading.as_str(), None).height
}

/// Shows sample rows of one table or view, and says whether the view goes to
/// the pager: on an interactive terminal it does where it has more lines
/// than the terminal has rows, or where the first line under the heading, the
/// top border of the grid, is wider than the terminal has columns. The object
/// must be listed in the catalog, and the snapshot must hold its row count.
pub fn inspect_table(
    table: &Table,
    filename: &str,
    sample: &Sample,
    opts: RenderOptions,
    terminal: Terminal,
) -> (r: Result<SampleView, CatalogError>)
    ensures
        match r {
            Ok(view) => table.listed() matches Some(row) && table.rows() matches Some(rows)
                && view.text@ == sample_text(
                filename@,
                table.name@,
                row.kind@,
                *sample,
                rows.nrows as nat,
                opts.color_enabled,
            ) && view.mode == mode_for(
                terminal.interactive,
                line_count(view.text@),
                line_width(sample_body(*sample, rows.nrows as nat), 0),
                terminal.cols as nat,
                terminal.rows as nat,
            ) && (!terminal.interactive ==> view.mode == OutputMode::Direct),
            Err(e) => if table.listed() is None {
                e == CatalogError::NotListed
            } else {
                e == CatalogError::NotRead && table.rows() is None
            },
        },
{
    let kind = match table.obj_type() {
        Ok(kind) => kind,
        Err(e) => {
            return Err(e);
        },
    };
    let total = match table.count_rows() {
        Ok(n) => n,
        Err(e) => {
            return Err(e);
        },
    };
    let name = table.name.as_str();
    let color = opts.color_enabled;
    let text = render_sample(filename, name, kind.as_str(), sample, total, color);
    let lines = heading_lines(filename, name, kind.as_str(), color);
    let mode = sample_output(text.as_str(), lines, terminal);
    proof {
        let heading = sample_heading(filename@, name@, kind@, color);
        reveal_strlit("\n");
        assert(heading.last() == '\n');
        lemma_line_under_heading(heading, sample_body(*sample, total as nat));
    }
    Ok(SampleView { text, mode })
}

} // verus!
