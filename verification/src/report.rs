//! The text of the schema report.

use vstd::prelude::*;
use crate::catalog::ColumnInfo;
use crate::descriptor::{
    TableColumn, TableDescriptor, TableKind, ViewDescriptor, GENERATED_STORED, GENERATED_VIRTUAL,
    HIDDEN, VISIBLE,
};
use crate::escape::{escape_identifier, escaped};
use crate::foreign_key::{
    first_on_column, is_multicolumn, ForeignKeyInfo, ForeignKeyInfoView, ForeignKeys,
};
use crate::index::{
    annotation_of, column_annotation, entry_views, Annotation, IndexEntry, IndexEntryView,
};
use crate::parse::no_expression;
use crate::style::{painted, push_painted, Accent, RenderOptions};
use crate::text::{decimal, lemma_append_assoc, texts, u64_text, usize_text};

verus! {

/// `names`, each in the style of a column name, with `, ` in between.
pub open spec fn joined_names(names: Seq<Seq<char>>, color: bool) -> Seq<char>
    decreases names.len(),
{
    if names.len() == 0 {
        Seq::empty()
    } else if names.len() == 1 {
        painted(names[0], Accent::Cyan, color)
    } else {
        joined_names(names.drop_last(), color) + ", "@ + painted(names.last(), Accent::Cyan, color)
    }
}

/// What the heading says of the table's kind.
pub open spec fn kind_text(kind: TableKind) -> Seq<char> {
    match kind {
        TableKind::Ordinary => "table"@,
        TableKind::Virtual { module } => "virtual table using "@ + module@,
        TableKind::Shadow => "shadow table"@,
    }
}

/// The table's attributes in square brackets, or nothing where it has none.
pub open spec fn attributes_text(strict: bool, without_rowid: bool, color: bool) -> Seq<char> {
    if strict && without_rowid {
        " ["@ + painted("STRICT"@, Accent::Bold, color) + ", "@ + painted(
            "WITHOUT ROWID"@,
            Accent::Bold,
            color,
        ) + "]"@
    } else if strict {
        " ["@ + painted("STRICT"@, Accent::Bold, color) + "]"@
    } else if without_rowid {
        " ["@ + painted("WITHOUT ROWID"@, Accent::Bold, color) + "]"@
    } else {
        Seq::empty()
    }
}

/// The first line of a table's section.
pub open spec fn table_heading(d: TableDescriptor, color: bool) -> Seq<char> {
    painted(escaped(d.name@), Accent::BrightGreenBold, color) + " "@ + kind_text(d.kind) + " ("@
        + decimal(d.nrows as nat) + " rows)"@ + attributes_text(d.strict, d.without_rowid, color)
        + ":\n"@
}

/// Whether a column is listed: a visible one always, any other only where
/// hidden columns are asked for.
pub open spec fn is_shown(col: ColumnInfo, include_hidden: bool) -> bool {
    col.hidden == VISIBLE || include_hidden
}

pub open spec fn type_text(col: ColumnInfo) -> Seq<char> {
    if col.dtype@.len() > 0 {
        " "@ + col.dtype@
    } else {
        Seq::empty()
    }
}

pub open spec fn not_null_text(col: ColumnInfo) -> Seq<char> {
    if col.notnull {
        " NOT NULL"@
    } else {
        Seq::empty()
    }
}

pub open spec fn annotation_text(a: Annotation) -> Seq<char> {
    match a {
        Annotation::PrimaryKey => " PRIMARY KEY"@,
        Annotation::Unique => " UNIQUE"@,
        Annotation::Indexed => " indexed"@,
        Annotation::Plain => Seq::empty(),
    }
}

/// Whether a constraint names no target column: it refers to the other
/// table's rowid or primary key.
pub open spec fn targets_key(c: ForeignKeyInfoView) -> bool {
    c.to.len() == 1 && c.to[0].len() == 0
}

/// What is written behind a column that a constraint of its own refers
/// elsewhere.
pub open spec fn reference_text(c: Option<ForeignKeyInfoView>, color: bool) -> Seq<char> {
    match c {
        Some(c) => " REFERENCES "@ + painted(c.to_table, Accent::BrightGreen, color) + (
        if targets_key(c) {
            Seq::empty()
        } else {
            " ("@ + joined_names(c.to, color) + ")"@
        }),
        None => Seq::empty(),
    }
}

/// The expression shown for a generated column.
pub open spec fn expression_of(col: TableColumn) -> Seq<char> {
    match col.generated_as {
        Some(e) => e@,
        None => no_expression(),
    }
}

/// What is written behind a generated or hidden column.
pub open spec fn generated_text(col: TableColumn) -> Seq<char> {
    if col.info.hidden == GENERATED_STORED {
        " AS ("@ + expression_of(col) + ")"@ + " STORED"@
    } else if col.info.hidden == GENERATED_VIRTUAL {
        " AS ("@ + expression_of(col) + ")"@
    } else if col.info.hidden == HIDDEN {
        " hidden"@
    } else {
        Seq::empty()
    }
}

/// The annotation of a column within its table.
pub open spec fn annotation_in(col: ColumnInfo, d: TableDescriptor) -> Annotation {
    annotation_of(
        col,
        texts(d.indexes.pk_cols@),
        texts(d.indexes.cols_unique@),
        texts(d.indexes.cols_w_index@),
    )
}

/// The line of one column.
pub open spec fn column_line(col: TableColumn, d: TableDescriptor, color: bool) -> Seq<char> {
    "  "@ + painted(col.info.name@, Accent::Cyan, color) + type_text(col.info) + not_null_text(
        col.info,
    ) + annotation_text(annotation_in(col.info, d)) + reference_text(
        first_on_column(d.foreign_keys@, col.info.name@),
        color,
    ) + generated_text(col) + "\n"@
}

/// The lines of the columns `cols` of the table `d` that are shown.
pub open spec fn column_lines(cols: Seq<TableColumn>, d: TableDescriptor, opts: RenderOptions) -> Seq<
    char,
>
    decreases cols.len(),
{
    if cols.len() == 0 {
        Seq::empty()
    } else if is_shown(cols.last().info, opts.include_hidden) {
        column_lines(cols.drop_last(), d, opts) + column_line(cols.last(), d, opts.color_enabled)
    } else {
        column_lines(cols.drop_last(), d, opts)
    }
}

/// The line of a primary key on several columns; nothing for any other key.
pub open spec fn key_line(pk: Seq<Seq<char>>, color: bool) -> Seq<char> {
    if pk.len() > 1 {
        "PRIMARY KEY ("@ + joined_names(pk, color) + ")\n"@
    } else {
        Seq::empty()
    }
}

/// The line of a constraint on several columns.
pub open spec fn constraint_line(c: ForeignKeyInfoView, color: bool) -> Seq<char> {
    "FOREIGN KEY ("@ + joined_names(c.from, color) + ") REFERENCES "@ + painted(
        c.to_table,
        Accent::BrightGreen,
        color,
    ) + " ("@ + joined_names(c.to, color) + ")\n"@
}

/// The lines of those constraints of `list` that span several columns.
pub open spec fn constraint_lines(list: Seq<ForeignKeyInfoView>, color: bool) -> Seq<char>
    decreases list.len(),
{
    if list.len() == 0 {
        Seq::empty()
    } else if is_multicolumn(list.last()) {
        constraint_lines(list.drop_last(), color) + constraint_line(list.last(), color)
    } else {
        constraint_lines(list.drop_last(), color)
    }
}

/// The line of an index that is listed by itself.
pub open spec fn index_line(e: IndexEntryView, color: bool) -> Seq<char> {
    "  "@ + e.name + " ("@ + joined_names(e.columns, color) + ")"@ + (if e.unique {
        " UNIQUE"@
    } else {
        Seq::empty()
    }) + "\n"@
}

pub open spec fn index_lines(list: Seq<IndexEntryView>, color: bool) -> Seq<char>
    decreases list.len(),
{
    if list.len() == 0 {
        Seq::empty()
    } else {
        index_lines(list.drop_last(), color) + index_line(list.last(), color)
    }
}

/// The list of indexes under its heading; nothing where the list is empty.
pub open spec fn index_section(list: Seq<IndexEntryView>, color: bool) -> Seq<char> {
    if list.len() > 0 {
        "Indexes:\n"@ + index_lines(list, color)
    } else {
        Seq::empty()
    }
}

pub open spec fn trigger_line(name: Seq<char>, color: bool) -> Seq<char> {
    "  "@ + painted(name, Accent::BrightMagenta, color) + "\n"@
}

pub open spec fn trigger_lines(names: Seq<Seq<char>>, color: bool) -> Seq<char>
    decreases names.len(),
{
    if names.len() == 0 {
        Seq::empty()
    } else {
        trigger_lines(names.drop_last(), color) + trigger_line(names.last(), color)
    }
}

/// The list of triggers under its heading; nothing where the list is empty.
pub open spec fn trigger_section(names: Seq<Seq<char>>, color: bool) -> Seq<char> {
    if names.len() > 0 {
        "Triggers:\n"@ + trigger_lines(names, color)
    } else {
        Seq::empty()
    }
}

/// The section of one table: heading, columns, the primary key where it has
/// several columns, the constraints on several columns, the indexes that are
/// listed by themselves, the triggers, and an empty line.
pub open spec fn table_text(d: TableDescriptor, opts: RenderOptions) -> Seq<char> {
    table_heading(d, opts.color_enabled) + column_lines(d.columns@, d, opts) + key_line(
        texts(d.indexes.pk_cols@),
        opts.color_enabled,
    ) + constraint_lines(d.foreign_keys@, opts.color_enabled) + index_section(
        entry_views(d.indexes.other_indexes@),
        opts.color_enabled,
    ) + trigger_section(texts(d.triggers@), opts.color_enabled) + "\n"@
}

pub open spec fn view_column_line(col: ColumnInfo, color: bool) -> Seq<char> {
    "  "@ + painted(col.name@, Accent::Cyan, color) + "\n"@
}

pub open spec fn view_column_lines(cols: Seq<ColumnInfo>, color: bool) -> Seq<char>
    decreases cols.len(),
{
    if cols.len() == 0 {
        Seq::empty()
    } else {
        view_column_lines(cols.drop_last(), color) + view_column_line(cols.last(), color)
    }
}

pub open spec fn select_text(select: Option<String>) -> Seq<char> {
    match select {
        Some(q) => "AS "@ + q@ + "\n"@,
        None => Seq::empty(),
    }
}

/// The section of one view: heading, columns, and the query where it is
/// known.
pub open spec fn view_text(v: ViewDescriptor, opts: RenderOptions) -> Seq<char> {
    painted(escaped(v.name@), Accent::BrightGreenBold, opts.color_enabled) + " view ("@ + decimal(
        v.nrows as nat,
    ) + " rows):\n"@ + view_column_lines(v.columns@, opts.color_enabled) + select_text(v.select)
}

pub open spec fn table_texts(tables: Seq<TableDescriptor>, opts: RenderOptions) -> Seq<char>
    decreases tables.len(),
{
    if tables.len() == 0 {
        Seq::empty()
    } else {
        table_texts(tables.drop_last(), opts) + table_text(tables.last(), opts)
    }
}

pub open spec fn view_texts(views: Seq<ViewDescriptor>, opts: RenderOptions) -> Seq<char>
    decreases views.len(),
{
    if views.len() == 0 {
        Seq::empty()
    } else {
        view_texts(views.drop_last(), opts) + view_text(views.last(), opts)
    }
}

/// The whole report: the file's name and the number of tables, an empty
/// line, the tables in the order given, then the views.
pub open spec fn schema_text(
    filename: Seq<char>,
    tables: Seq<TableDescriptor>,
    views: Seq<ViewDescriptor>,
    opts: RenderOptions,
) -> Seq<char> {
    painted(filename, Accent::Bold, opts.color_enabled) + " \u{2014} "@ + decimal(tables.len())
        + " tables\n\n"@ + table_texts(tables, opts) + view_texts(views, opts)
}

/// A primary key on several columns is written on a line of its own, its
/// columns in key order, and no column carries the key's annotation.
pub proof fn lemma_composite_key_rendered(
    col: ColumnInfo,
    pk: Seq<Seq<char>>,
    unique: Seq<Seq<char>>,
    indexed: Seq<Seq<char>>,
    color: bool,
)
    requires
        pk.len() > 1,
    ensures
        annotation_of(col, pk, unique, indexed) != Annotation::PrimaryKey,
        key_line(pk, color) == "PRIMARY KEY ("@ + joined_names(pk, color) + ")\n"@,
{
}

/// A primary key on one column is written behind that column, and there is no
/// line for the key.
pub proof fn lemma_single_key_rendered(
    col: ColumnInfo,
    pk: Seq<Seq<char>>,
    unique: Seq<Seq<char>>,
    indexed: Seq<Seq<char>>,
    color: bool,
)
    requires
        pk.len() == 1,
        col.pk > 0,
    ensures
        annotation_text(annotation_of(col, pk, unique, indexed)) == " PRIMARY KEY"@,
        key_line(pk, color) == Seq::<char>::empty(),
{
}

/// A column that is not visible is written only where hidden columns are
/// asked for.
pub proof fn lemma_hidden_columns_left_out(
    cols: Seq<TableColumn>,
    d: TableDescriptor,
    opts: RenderOptions,
)
    requires
        !opts.include_hidden,
        cols.len() > 0,
        cols.last().info.hidden != VISIBLE,
    ensures
        column_lines(cols, d, opts) == column_lines(cols.drop_last(), d, opts),
{
}

/// Appends `names` to `out`, each in the style of a column name, with `, `
/// in between.
pub fn push_col_names(out: &mut String, names: &Vec<String>, color: bool)
    ensures
        final(out)@ == old(out)@ + joined_names(texts(names@), color),
{
    let ghost start = out@;
    let ghost all = texts(names@);
    let mut i: usize = 0;
    assert(out@ =~= start + joined_names(all.take(0), color));
    while i < names.len()
        invariant
            i <= names.len(),
            all == texts(names@),
            out@ == start + joined_names(all.take(i as int), color),
        decreases names.len() - i,
    {
        let ghost before = out@;
        if i > 0 {
            out.append(", ");
        }
        push_painted(out, names[i].as_str(), Accent::Cyan, color);
        i = i + 1;
        proof {
            let upto = all.take(i as int);
            assert(upto.drop_last() =~= all.take(i - 1));
            assert(upto.last() == names@[i - 1]@);
            if i == 1 {
                assert(joined_names(all.take(0), color) =~= Seq::<char>::empty());
                assert(upto[0] == names@[0]@);
            }
            assert(out@ =~= start + joined_names(upto, color));
        }
    }
    assert(all.take(i as int) =~= all);
}

/// The names `names`, each in the style of a column name, with `, ` in
/// between.
pub fn fmt_col_names(names: &Vec<String>, color: bool) -> (r: String)
    ensures
        r@ == joined_names(texts(names@), color),
{
    let mut out = String::new();
    push_col_names(&mut out, names, color);
    assert(out@ =~= joined_names(texts(names@), color));
    out
}

fn push_attributes(out: &mut String, strict: bool, without_rowid: bool, color: bool)
    ensures
        final(out)@ == old(out)@ + attributes_text(strict, without_rowid, color),
{
    let ghost start = out@;
    if strict || without_rowid {
        out.append(" [");
        if strict {
            push_painted(out, "STRICT", Accent::Bold, color);
        }
        if strict && without_rowid {
            out.append(", ");
        }
        if without_rowid {
            push_painted(out, "WITHOUT ROWID", Accent::Bold, color);
        }
        out.append("]");
    }
    assert(out@ =~= start + attributes_text(strict, without_rowid, color));
}

fn push_kind(out: &mut String, kind: &TableKind)
    ensures
        final(out)@ == old(out)@ + kind_text(*kind),
{
    let ghost start = out@;
    match kind {
        TableKind::Ordinary => {
            out.append("table");
        },
        TableKind::Virtual { module } => {
            out.append("virtual table using ");
            out.append(module.as_str());
        },
        TableKind::Shadow => {
            out.append("shadow table");
        },
    }
    assert(out@ =~= start + kind_text(*kind));
}

fn push_heading(out: &mut String, d: &TableDescriptor, color: bool)
    ensures
        final(out)@ == old(out)@ + table_heading(*d, color),
{
    let ghost start = out@;
    push_painted(out, escape_identifier(d.name.as_str()).as_str(), Accent::BrightGreenBold, color);
    let ghost a1 = painted(escaped(d.name@), Accent::BrightGreenBold, color);
    out.append(" ");
    proof {
        lemma_append_assoc(start, a1, " "@);
    }
    let ghost a2 = a1 + " "@;
    push_kind(out, &d.kind);
    proof {
        lemma_append_assoc(start, a2, kind_text(d.kind));
    }
    let ghost a3 = a2 + kind_text(d.kind);
    out.append(" (");
    proof {
        lemma_append_assoc(start, a3, " ("@);
    }
    let ghost a4 = a3 + " ("@;
    out.append(u64_text(d.nrows).as_str());
    proof {
        lemma_append_assoc(start, a4, decimal(d.nrows as nat));
    }
    let ghost a5 = a4 + decimal(d.nrows as nat);
    out.append(" rows)");
    proof {
        lemma_append_assoc(start, a5, " rows)"@);
    }
    let ghost a6 = a5 + " rows)"@;
    push_attributes(out, d.strict, d.without_rowid, color);
    proof {
        lemma_append_assoc(start, a6, attributes_text(d.strict, d.without_rowid, color));
    }
    let ghost a7 = a6 + attributes_text(d.strict, d.without_rowid, color);
    out.append(":\n");
    proof {
        lemma_append_assoc(start, a7, ":\n"@);
    }
}

fn push_reference(out: &mut String, fk: &Option<ForeignKeyInfo>, color: bool)
    ensures
        final(out)@ == old(out)@ + reference_text(
            match *fk {
                Some(c) => Some(c@),
                None => None,
            },
            color,
        ),
{
    let ghost start = out@;
    match fk {
        Some(c) => {
            out.append(" REFERENCES ");
            push_painted(out, c.to_table.as_str(), Accent::BrightGreen, color);
            if !(c.to.len() == 1 && c.to[0].as_str().is_empty()) {
                out.append(" (");
                push_col_names(out, &c.to, color);
                out.append(")");
            } else {
                assert(c@.to[0] == c.to@[0]@);
            }
            assert(out@ =~= start + reference_text(Some(c@), color));
        },
        None => {
            assert(out@ =~= start + reference_text(None, color));
        },
    }
}

fn push_generated(out: &mut String, col: &TableColumn)
    ensures
        final(out)@ == old(out)@ + generated_text(*col),
{
    let ghost start = out@;
    if col.info.hidden == GENERATED_STORED || col.info.hidden == GENERATED_VIRTUAL {
        out.append(" AS (");
        match &col.generated_as {
            Some(e) => {
                out.append(e.as_str());
            },
            None => {
                out.append("<could not get AS expression>");
            },
        }
        out.append(")");
        if col.info.hidden == GENERATED_STORED {
            out.append(" STORED");
        }
    } else if col.info.hidden == HIDDEN {
        out.append(" hidden");
    }
    assert(out@ =~= start + generated_text(*col));
}

fn push_type(out: &mut String, col: &ColumnInfo)
    ensures
        final(out)@ == old(out)@ + type_text(*col),
{
    let ghost start = out@;
    if !col.dtype.as_str().is_empty() {
        out.append(" ");
        out.append(col.dtype.as_str());
    }
    assert(out@ =~= start + type_text(*col));
}

fn push_not_null(out: &mut String, col: &ColumnInfo)
    ensures
        final(out)@ == old(out)@ + not_null_text(*col),
{
    let ghost start = out@;
    if col.notnull {
        out.append(" NOT NULL");
    }
    assert(out@ =~= start + not_null_text(*col));
}

fn push_annotation(out: &mut String, a: Annotation)
    ensures
        final(out)@ == old(out)@ + annotation_text(a),
{
    let ghost start = out@;
    match a {
        Annotation::PrimaryKey => {
            out.append(" PRIMARY KEY");
        },
        Annotation::Unique => {
            out.append(" UNIQUE");
        },
        Annotation::Indexed => {
            out.append(" indexed");
        },
        Annotation::Plain => {},
    }
    assert(out@ =~= start + annotation_text(a));
}

fn push_column_line(out: &mut String, col: &TableColumn, d: &TableDescriptor, color: bool)
    ensures
        final(out)@ == old(out)@ + column_line(*col, *d, color),
{
    let ghost start = out@;
    out.append("  ");
    let ghost a1 = "  "@;
    push_painted(out, col.info.name.as_str(), Accent::Cyan, color);
    proof {
        lemma_append_assoc(start, a1, painted(col.info.name@, Accent::Cyan, color));
    }
    let ghost a2 = a1 + painted(col.info.name@, Accent::Cyan, color);
    push_type(out, &col.info);
    proof {
        lemma_append_assoc(start, a2, type_text(col.info));
    }
    let ghost a3 = a2 + type_text(col.info);
    push_not_null(out, &col.info);
    proof {
        lemma_append_assoc(start, a3, not_null_text(col.info));
    }
    let ghost a4 = a3 + not_null_text(col.info);
    push_annotation(out, column_annotation(&col.info, &d.indexes));
    proof {
        lemma_append_assoc(start, a4, annotation_text(annotation_in(col.info, *d)));
    }
    let ghost a5 = a4 + annotation_text(annotation_in(col.info, *d));
    let fk = d.foreign_keys.for_name(col.info.name.as_str());
    let ghost reference = reference_text(first_on_column(d.foreign_keys@, col.info.name@), color);
    push_reference(out, &fk, color);
    proof {
        lemma_append_assoc(start, a5, reference);
    }
    let ghost a6 = a5 + reference;
    push_generated(out, col);
    proof {
        lemma_append_assoc(start, a6, generated_text(*col));
    }
    let ghost a7 = a6 + generated_text(*col);
    out.append("\n");
    proof {
        lemma_append_assoc(start, a7, "\n"@);
    }
}

fn push_columns(out: &mut String, d: &TableDescriptor, opts: RenderOptions)
    ensures
        final(out)@ == old(out)@ + column_lines(d.columns@, *d, opts),
{
    let ghost start = out@;
    let mut i: usize = 0;
    assert(out@ =~= start + column_lines(d.columns@.take(0), *d, opts));
    while i < d.columns.len()
        invariant
            i <= d.columns.len(),
            out@ == start + column_lines(d.columns@.take(i as int), *d, opts),
        decreases d.columns.len() - i,
    {
        let col = &d.columns[i];
        proof {
            assert(d.columns@.take(i + 1).drop_last() =~= d.columns@.take(i as int));
            assert(d.columns@.take(i + 1).last() == *col);
        }
        if col.info.hidden == VISIBLE || opts.include_hidden {
            push_column_line(out, col, d, opts.color_enabled);
        }
        i = i + 1;
        assert(out@ =~= start + column_lines(d.columns@.take(i as int), *d, opts));
    }
    assert(d.columns@.take(i as int) =~= d.columns@);
}

fn push_key_line(out: &mut String, pk_cols: &Vec<String>, color: bool)
    ensures
        final(out)@ == old(out)@ + key_line(texts(pk_cols@), color),
{
    let ghost start = out@;
    if pk_cols.len() > 1 {
        out.append("PRIMARY KEY (");
        push_col_names(out, pk_cols, color);
        out.append(")\n");
    }
    assert(out@ =~= start + key_line(texts(pk_cols@), color));
}

fn push_constraint_line(out: &mut String, c: &ForeignKeyInfo, color: bool)
    ensures
        final(out)@ == old(out)@ + constraint_line(c@, color),
{
    let ghost start = out@;
    out.append("FOREIGN KEY (");
    let ghost a1 = "FOREIGN KEY ("@;
    push_col_names(out, &c.from, color);
    proof {
        lemma_append_assoc(start, a1, joined_names(c@.from, color));
    }
    let ghost a2 = a1 + joined_names(c@.from, color);
    out.append(") REFERENCES ");
    proof {
        lemma_append_assoc(start, a2, ") REFERENCES "@);
    }
    let ghost a3 = a2 + ") REFERENCES "@;
    push_painted(out, c.to_table.as_str(), Accent::BrightGreen, color);
    proof {
        lemma_append_assoc(start, a3, painted(c@.to_table, Accent::BrightGreen, color));
    }
    let ghost a4 = a3 + painted(c@.to_table, Accent::BrightGreen, color);
    out.append(" (");
    proof {
        lemma_append_assoc(start, a4, " ("@);
    }
    let ghost a5 = a4 + " ("@;
    push_col_names(out, &c.to, color);
    proof {
        lemma_append_assoc(start, a5, joined_names(c@.to, color));
    }
    let ghost a6 = a5 + joined_names(c@.to, color);
    out.append(")\n");
    proof {
        lemma_append_assoc(start, a6, ")\n"@);
    }
}

fn push_constraints(out: &mut String, fks: &ForeignKeys, color: bool)
    ensures
        final(out)@ == old(out)@ + constraint_lines(fks@, color),
{
    let ghost start = out@;
    let mut i: usize = 0;
    assert(out@ =~= start + constraint_lines(fks@.take(0), color));
    while i < fks.list.len()
        invariant
            i <= fks.list.len(),
            out@ == start + constraint_lines(fks@.take(i as int), color),
        decreases fks.list.len() - i,
    {
        let c = &fks.list[i];
        proof {
            assert(fks@.take(i + 1).drop_last() =~= fks@.take(i as int));
            assert(fks@.take(i + 1).last() == c@);
        }
        if c.from.len() > 1 {
            push_constraint_line(out, c, color);
        }
        i = i + 1;
        assert(out@ =~= start + constraint_lines(fks@.take(i as int), color));
    }
    assert(fks@.take(i as int) =~= fks@);
}

fn push_indexes(out: &mut String, list: &Vec<IndexEntry>, color: bool)
    ensures
        final(out)@ == old(out)@ + index_section(entry_views(list@), color),
{
    let ghost start = out@;
    let ghost all = entry_views(list@);
    if list.len() == 0 {
        assert(out@ =~= start + index_section(all, color));
        return ;
    }
    out.append("Indexes:\n");
    let ghost headed = out@;
    let mut i: usize = 0;
    assert(out@ =~= headed + index_lines(all.take(0), color));
    while i < list.len()
        invariant
            i <= list.len(),
            all == entry_views(list@),
            out@ == headed + index_lines(all.take(i as int), color),
        decreases list.len() - i,
    {
        let e = &list[i];
        let ghost before = out@;
        proof {
            assert(all.take(i + 1).drop_last() =~= all.take(i as int));
            assert(all.take(i + 1).last() == e@);
        }
        out.append("  ");
        out.append(e.info.name.as_str());
        out.append(" (");
        push_col_names(out, &e.columns, color);
        out.append(")");
        if e.info.unique {
            out.append(" UNIQUE");
        }
        out.append("\n");
        assert(out@ =~= before + index_line(e@, color));
        i = i + 1;
        assert(out@ =~= headed + index_lines(all.take(i as int), color));
    }
    assert(all.take(i as int) =~= all);
    assert(out@ =~= start + index_section(all, color));
}

fn push_triggers(out: &mut String, names: &Vec<String>, color: bool)
    ensures
        final(out)@ == old(out)@ + trigger_section(texts(names@), color),
{
    let ghost start = out@;
    let ghost all = texts(names@);
    if names.len() == 0 {
        assert(out@ =~= start + trigger_section(all, color));
        return ;
    }
    out.append("Triggers:\n");
    let ghost headed = out@;
    let mut i: usize = 0;
    assert(out@ =~= headed + trigger_lines(all.take(0), color));
    while i < names.len()
        invariant
            i <= names.len(),
            all == texts(names@),
            out@ == headed + trigger_lines(all.take(i as int), color),
        decreases names.len() - i,
    {
        let ghost before = out@;
        proof {
            assert(all.take(i + 1).drop_last() =~= all.take(i as int));
            assert(all.take(i + 1).last() == names@[i as int]@);
        }
        out.append("  ");
        push_painted(out, names[i].as_str(), Accent::BrightMagenta, color);
        out.append("\n");
        assert(out@ =~= before + trigger_line(names@[i as int]@, color));
        i = i + 1;
        assert(out@ =~= headed + trigger_lines(all.take(i as int), color));
    }
    assert(all.take(i as int) =~= all);
    assert(out@ =~= start + trigger_section(all, color));
}

/// Appends the section of the table `d` to `out`.
pub fn push_table(out: &mut String, d: &TableDescriptor, opts: RenderOptions)
    ensures
        final(out)@ == old(out)@ + table_text(*d, opts),
{
    let ghost start = out@;
    let color = opts.color_enabled;
    push_heading(out, d, color);
    let ghost a1 = table_heading(*d, color);
    push_columns(out, d, opts);
    proof {
        lemma_append_assoc(start, a1, column_lines(d.columns@, *d, opts));
    }
    let ghost a2 = a1 + column_lines(d.columns@, *d, opts);
    push_key_line(out, &d.indexes.pk_cols, color);
    proof {
        lemma_append_assoc(start, a2, key_line(texts(d.indexes.pk_cols@), color));
    }
    let ghost a3 = a2 + key_line(texts(d.indexes.pk_cols@), color);
    push_constraints(out, &d.foreign_keys, color);
    proof {
        lemma_append_assoc(start, a3, constraint_lines(d.foreign_keys@, color));
    }
    let ghost a4 = a3 + constraint_lines(d.foreign_keys@, color);
    push_indexes(out, &d.indexes.other_indexes, color);
    proof {
        lemma_append_assoc(start, a4, index_section(entry_views(d.indexes.other_indexes@), color));
    }
    let ghost a5 = a4 + index_section(entry_views(d.indexes.other_indexes@), color);
    push_triggers(out, &d.triggers, color);
    proof {
        lemma_append_assoc(start, a5, trigger_section(texts(d.triggers@), color));
    }
    let ghost a6 = a5 + trigger_section(texts(d.triggers@), color);
    out.append("\n");
    proof {
        lemma_append_assoc(start, a6, "\n"@);
    }
}

/// The section of the table `d`.
pub fn render_table(d: &TableDescriptor, opts: RenderOptions) -> (r: String)
    ensures
        r@ == table_text(*d, opts),
{
    let mut out = String::new();
    push_table(&mut out, d, opts);
    assert(out@ =~= table_text(*d, opts));
    out
}

fn push_view_columns(out: &mut String, columns: &Vec<ColumnInfo>, color: bool)
    ensures
        final(out)@ == old(out)@ + view_column_lines(columns@, color),
{
    let ghost start = out@;
    let mut i: usize = 0;
    assert(out@ =~= start + view_column_lines(columns@.take(0), color));
    while i < columns.len()
        invariant
            i <= columns.len(),
            out@ == start + view_column_lines(columns@.take(i as int), color),
        decreases columns.len() - i,
    {
        let ghost before = out@;
        proof {
            assert(columns@.take(i + 1).drop_last() =~= columns@.take(i as int));
            assert(columns@.take(i + 1).last() == columns@[i as int]);
        }
        out.append("  ");
        push_painted(out, columns[i].name.as_str(), Accent::Cyan, color);
        out.append("\n");
        assert(out@ =~= before + view_column_line(columns@[i as int], color));
        i = i + 1;
        proof {
            lemma_append_assoc(
                start,
                view_column_lines(columns@.take(i - 1), color),
                view_column_line(columns@[i - 1], color),
            );
        }
    }
    assert(columns@.take(i as int) =~= columns@);
}

fn push_select(out: &mut String, select: &Option<String>)
    ensures
        final(out)@ == old(out)@ + select_text(*select),
{
    let ghost start = out@;
    match select {
        Some(q) => {
            out.append("AS ");
            out.append(q.as_str());
            out.append("\n");
        },
        None => {},
    }
    assert(out@ =~= start + select_text(*select));
}

/// Appends the section of the view `v` to `out`.
pub fn push_view(out: &mut String, v: &ViewDescriptor, opts: RenderOptions)
    ensures
        final(out)@ == old(out)@ + view_text(*v, opts),
{
    let ghost start = out@;
    let color = opts.color_enabled;
    push_painted(out, escape_identifier(v.name.as_str()).as_str(), Accent::BrightGreenBold, color);
    let ghost a1 = painted(escaped(v.name@), Accent::BrightGreenBold, color);
    out.append(" view (");
    proof {
        lemma_append_assoc(start, a1, " view ("@);
    }
    let ghost a2 = a1 + " view ("@;
    out.append(u64_text(v.nrows).as_str());
    proof {
        lemma_append_assoc(start, a2, decimal(v.nrows as nat));
    }
    let ghost a3 = a2 + decimal(v.nrows as nat);
    out.append(" rows):\n");
    proof {
        lemma_append_assoc(start, a3, " rows):\n"@);
    }
    let ghost a4 = a3 + " rows):\n"@;
    push_view_columns(out, &v.columns, color);
    proof {
        lemma_append_assoc(start, a4, view_column_lines(v.columns@, color));
    }
    let ghost a5 = a4 + view_column_lines(v.columns@, color);
    push_select(out, &v.select);
    proof {
        lemma_append_assoc(start, a5, select_text(v.select));
    }
}

/// The section of the view `v`.
pub fn render_view(v: &ViewDescriptor, opts: RenderOptions) -> (r: String)
    ensures
        r@ == view_text(*v, opts),
{
    let mut out = String::new();
    push_view(&mut out, v, opts);
    assert(out@ =~= view_text(*v, opts));
    out
}

/// The whole report on a database: the file's name and the number of
/// tables, then every table in the order given, then every view.
pub fn render_schema(
    filename: &str,
    tables: &Vec<TableDescriptor>,
    views: &Vec<ViewDescriptor>,
    opts: RenderOptions,
) -> (r: String)
    ensures
        r@ == schema_text(filename@, tables@, views@, opts),
{
    let mut out = String::new();
    push_painted(&mut out, filename, Accent::Bold, opts.color_enabled);
    out.append(" \u{2014} ");
    out.append(usize_text(tables.len()).as_str());
    out.append(" tables\n\n");
    let ghost headed = out@;
    let mut i: usize = 0;
    assert(out@ =~= headed + table_texts(tables@.take(0), opts));
    while i < tables.len()
        invariant
            i <= tables.len(),
            out@ == headed + table_texts(tables@.take(i as int), opts),
        decreases tables.len() - i,
    {
        proof {
            assert(tables@.take(i + 1).drop_last() =~= tables@.take(i as int));
            assert(tables@.take(i + 1).last() == tables@[i as int]);
        }
        push_table(&mut out, &tables[i], opts);
        i = i + 1;
        assert(out@ =~= headed + table_texts(tables@.take(i as int), opts));
    }
    assert(tables@.take(i as int) =~= tables@);
    let ghost tabled = out@;
    let mut j: usize = 0;
    assert(out@ =~= tabled + view_texts(views@.take(0), opts));
    while j < views.len()
        invariant
            j <= views.len(),
            out@ == tabled + view_texts(views@.take(j as int), opts),
        decreases views.len() - j,
    {
        proof {
            assert(views@.take(j + 1).drop_last() =~= views@.take(j as int));
            assert(views@.take(j + 1).last() == views@[j as int]);
        }
        push_view(&mut out, &views[j], opts);
        j = j + 1;
        assert(out@ =~= tabled + view_texts(views@.take(j as int), opts));
    }
    assert(views@.take(j as int) =~= views@);
    assert(out@ =~= schema_text(filename@, tables@, views@, opts));
    out
}

} // verus!
