//! Building the descriptions of tables and views from a catalog snapshot.

use std::rc::Rc;
use vstd::prelude::*;
use crate::catalog::{
    error_message, error_text, first_named, has_system_prefix, get_table_names, get_view_names, key_column_texts, key_columns_named, listed,
    listed_names, object_rows, statement_of, trigger_names_of, view_names, Catalog,
    CatalogError, ColumnInfo, IndexColumnRow, IndexInfo, Table,
};
use crate::descriptor::{
    is_generated, TableColumn, TableDescriptor, TableKind, ViewDescriptor, GENERATED_STORED,
    GENERATED_VIRTUAL,
};
use crate::foreign_key::{grouped, row_views};
use crate::index::{
    classify_indexes, entry_views, indexed_columns, listed_indexes, pk_columns, unique_columns,
    IndexEntry, IndexEntryView,
};
use crate::parse::{
    gencol_expr_text, parse_of, view_query, view_select, virtual_module, Parse,
    ParseFailure,
};
use crate::dispatch::{schema_mode, schema_output, OutputMode, Terminal};
use crate::report::{render_schema, schema_text};
use crate::style::RenderOptions;
use crate::text::texts;

verus! {

/// Why a database could not be described.
#[derive(Debug, PartialEq)]
pub enum SchemaError {
    /// The snapshot lacks something of the object called `name`.
    Catalog { name: String, error: CatalogError },
    /// The creation statement of the view called `name` does not parse.
    Parse { name: String, failure: ParseFailure },
}

impl SchemaError {
    /// The message for the user: that of the lookup that failed, or the
    /// parser's own.
    pub fn message(&self) -> (r: String)
        ensures
            self matches SchemaError::Catalog { name, error } ==> r@ == error_text(*error, name@),
            self matches SchemaError::Parse { name, failure } ==> r@ == failure.message@,
    {
        match self {
            SchemaError::Catalog { name, error } => error_message(*error, name.as_str()),
            SchemaError::Parse { name, failure } => failure.message.clone(),
        }
    }
}

/// The descriptions of all tables and views of a database.
#[derive(Debug)]
pub struct Schema {
    pub tables: Vec<TableDescriptor>,
    pub views: Vec<ViewDescriptor>,
}

/// A described database, the text of the report on it, and how the report
/// is to be shown.
#[derive(Debug)]
pub struct Report {
    pub schema: Schema,
    pub text: String,
    pub mode: OutputMode,
}

/// The key rows that the snapshot holds for the index called `index`.
pub open spec fn key_rows(catalog: Catalog, index: Seq<char>) -> Seq<IndexColumnRow> {
    match first_named(catalog.index_columns@, index) {
        Some(key) => key.rows@,
        None => Seq::empty(),
    }
}

/// An index together with the names of its key columns.
pub open spec fn entry_of(catalog: Catalog, ix: IndexInfo) -> IndexEntryView {
    IndexEntryView {
        name: ix.name@,
        unique: ix.unique,
        origin: ix.origin@,
        partial: ix.partial,
        columns: key_column_texts(key_rows(catalog, ix.name@)),
    }
}

pub open spec fn entries_of(catalog: Catalog, indexes: Seq<IndexInfo>) -> Seq<IndexEntryView> {
    indexes.map_values(|ix: IndexInfo| entry_of(catalog, ix))
}

/// Whether every key column of every index has a name to show.
pub open spec fn keys_named(catalog: Catalog, indexes: Seq<IndexInfo>) -> bool {
    forall|i: int|
        0 <= i < indexes.len() ==> key_columns_named(
            key_rows(catalog, (#[trigger] indexes[i]).name@),
        )
}

/// Whether one of `columns` is a generated column.
pub open spec fn has_generated(columns: Seq<ColumnInfo>) -> bool {
    exists|i: int| 0 <= i < columns.len() && is_generated(#[trigger] columns[i])
}

/// Whether describing the table takes a look at its creation statement: it
/// does for every table but the engine's own, and for any table with a
/// generated column.
pub open spec fn needs_statement(catalog: Catalog, name: Seq<char>) -> bool {
    !has_system_prefix(name) || (object_rows(catalog, name) matches Some(rows) && has_generated(
        rows.columns@,
    ))
}

/// Why the table cannot be described, if it cannot.
pub open spec fn table_failure(catalog: Catalog, name: Seq<char>) -> Option<CatalogError> {
    if listed(catalog, name) is None {
        Some(CatalogError::NotListed)
    } else if object_rows(catalog, name) is None {
        Some(CatalogError::NotRead)
    } else if !keys_named(catalog, object_rows(catalog, name).unwrap().indexes@) {
        Some(CatalogError::NoColumnName)
    } else if needs_statement(catalog, name) && statement_of(catalog, name) is Err {
        Some(statement_of(catalog, name)->Err_0)
    } else {
        None
    }
}

/// The module of the table where its statement says that it is a virtual
/// one. The engine's own tables are never virtual.
pub open spec fn module_of(catalog: Catalog, name: Seq<char>) -> Option<Seq<char>> {
    if has_system_prefix(name) {
        None
    } else {
        match statement_of(catalog, name) {
            Ok(sql) => virtual_module(parse_of(sql)),
            Err(_) => None,
        }
    }
}

/// Whether `kind` is the kind of the table: virtual where its statement
/// names a module, else shadow where the table list says so, else ordinary.
pub open spec fn is_kind_of(kind: TableKind, catalog: Catalog, name: Seq<char>) -> bool {
    match kind {
        TableKind::Virtual { module } => module_of(catalog, name) == Some(module@),
        TableKind::Shadow => module_of(catalog, name) is None && listed(catalog, name).unwrap().kind@
            == "shadow"@,
        TableKind::Ordinary => module_of(catalog, name) is None && listed(catalog, name).unwrap().kind@
            != "shadow"@,
    }
}

/// Whether `col` describes the column `info` of the table: a generated
/// column carries the expression recovered from the creation statement, any
/// other column carries none.
pub open spec fn is_column_of(col: TableColumn, info: ColumnInfo, catalog: Catalog, name: Seq<char>) -> bool {
    &&& col.info == info
    &&& if is_generated(info) {
        col.generated_as matches Some(e) && statement_of(catalog, name) matches Ok(sql) && e@
            == gencol_expr_text(parse_of(sql), info.name@)
    } else {
        col.generated_as is None
    }
}

pub open spec fn are_columns_of(cols: Seq<TableColumn>, infos: Seq<ColumnInfo>, catalog: Catalog, name: Seq<char>) -> bool {
    &&& cols.len() == infos.len()
    &&& forall|i: int| 0 <= i < cols.len() ==> is_column_of(#[trigger] cols[i], infos[i], catalog, name)
}

/// Whether `d` is the description of `table`.
pub open spec fn describes(d: TableDescriptor, catalog: Catalog, name: Seq<char>) -> bool {
    &&& listed(catalog, name) matches Some(listed)
    &&& object_rows(catalog, name) matches Some(rows)
    &&& d.name@ == name
    &&& is_kind_of(d.kind, catalog, name)
    &&& d.strict == listed.strict
    &&& d.without_rowid == listed.without_rowid
    &&& are_columns_of(d.columns@, rows.columns@, catalog, name)
    &&& texts(d.indexes.pk_cols@) == pk_columns(
        entries_of(catalog, rows.indexes@),
        rows.columns@,
    )
    &&& texts(d.indexes.cols_unique@) == unique_columns(entries_of(catalog, rows.indexes@))
    &&& texts(d.indexes.cols_w_index@) == indexed_columns(
        entries_of(catalog, rows.indexes@),
    )
    &&& entry_views(d.indexes.other_indexes@) == listed_indexes(
        entries_of(catalog, rows.indexes@),
    )
    &&& d.foreign_keys@ == grouped(row_views(rows.foreign_keys@))
    &&& d.nrows == rows.nrows
    &&& texts(d.triggers@) == trigger_names_of(catalog.schema@, name)
}

/// The indexes of `table`, each with the names of its key columns.
fn index_entries(table: &Table) -> (r: Result<Vec<IndexEntry>, CatalogError>)
    requires
        table.rows() is Some,
    ensures
        match r {
            Ok(entries) => keys_named(*table.catalog, table.rows().unwrap().indexes@)
                && entry_views(entries@) == entries_of(
                *table.catalog,
                table.rows().unwrap().indexes@,
            ),
            Err(e) => e == CatalogError::NoColumnName && !keys_named(
                *table.catalog,
                table.rows().unwrap().indexes@,
            ),
        },
{
    let indexes = table.indexes_info();
    let ghost all = table.rows().unwrap().indexes@;
    let mut entries: Vec<IndexEntry> = Vec::new();
    let mut i: usize = 0;
    assert(entry_views(entries@) =~= entries_of(*table.catalog, all.take(0)));
    while i < indexes.len()
        invariant
            i <= indexes.len(),
            indexes@ == all,
            table.rows() is Some,
            all == table.rows().unwrap().indexes@,
            keys_named(*table.catalog, all.take(i as int)),
            entry_views(entries@) == entries_of(*table.catalog, all.take(i as int)),
        decreases indexes.len() - i,
    {
        let ghost seen = entry_views(entries@);
        match indexes[i].column_names(&table.catalog) {
            Ok(columns) => {
                let entry = IndexEntry { info: indexes[i].clone(), columns };
                proof {
                    assert(entry.info == all[i as int]);
                    assert(entry@.columns =~= entry_of(*table.catalog, all[i as int]).columns);
                    assert(entry@ == entry_of(*table.catalog, all[i as int]));
                }
                entries.push(entry);
                proof {
                    assert(entry_views(entries@) =~= seen.push(entry@));
                    assert(all.take(i + 1) =~= all.take(i as int).push(all[i as int]));
                    assert(entries_of(*table.catalog, all.take(i + 1)) =~= entries_of(
                        *table.catalog,
                        all.take(i as int),
                    ).push(entry_of(*table.catalog, all[i as int])));
                    assert forall|j: int| 0 <= j < i + 1 implies key_columns_named(
                        key_rows(*table.catalog, (#[trigger] all.take(i + 1)[j]).name@),
                    ) by {
                        if j < i {
                            assert(all.take(i + 1)[j] == all.take(i as int)[j]);
                        }
                    }
                }
            },
            Err(e) => {
                assert(!key_columns_named(key_rows(*table.catalog, all[i as int].name@)));
                return Err(e);
            },
        }
        i = i + 1;
    }
    assert(all.take(i as int) =~= all);
    Ok(entries)
}

/// The columns of `table`, each generated one with its expression.
fn table_columns(table: &Table) -> (r: Result<Vec<TableColumn>, CatalogError>)
    requires
        table.rows() is Some,
    ensures
        match r {
            Ok(cols) => are_columns_of(
                cols@,
                table.rows().unwrap().columns@,
                *table.catalog,
                table.name@,
            ),
            Err(e) => has_generated(table.rows().unwrap().columns@) && table.statement() == Err::<
                Seq<char>,
                CatalogError,
            >(e),
        },
{
    let infos = table.columns_info();
    let ghost all = table.rows().unwrap().columns@;
    let mut cols: Vec<TableColumn> = Vec::new();
    let mut i: usize = 0;
    while i < infos.len()
        invariant
            i <= infos.len(),
            infos@ == all,
            table.rows() is Some,
            all == table.rows().unwrap().columns@,
            cols@.len() == i,
            forall|j: int|
                0 <= j < i ==> is_column_of(#[trigger] cols@[j], all[j], *table.catalog, table.name@),
        decreases infos.len() - i,
    {
        let info = infos[i].clone();
        let generated_as = if info.hidden == GENERATED_VIRTUAL || info.hidden == GENERATED_STORED {
            match table.get_gencol_expr(info.name.as_str()) {
                Ok(e) => Some(e),
                Err(e) => {
                    assert(is_generated(all[i as int]));
                    return Err(e);
                },
            }
        } else {
            None
        };
        cols.push(TableColumn { info, generated_as });
        i = i + 1;
    }
    Ok(cols)
}

/// Composes the description of one table from the snapshot: its kind and
/// attributes, its columns, its sorted indexes, its whole foreign keys, its
/// row count and its triggers.
pub fn describe_table(table: &Table) -> (r: Result<TableDescriptor, CatalogError>)
    ensures
        match r {
            Ok(d) => table_failure(*table.catalog, table.name@) is None && describes(
                d,
                *table.catalog,
                table.name@,
            ),
            Err(e) => table_failure(*table.catalog, table.name@) == Some(e),
        },
{
    let strict = match table.is_strict() {
        Ok(b) => b,
        Err(e) => {
            return Err(e);
        },
    };
    let without_rowid = match table.is_without_row_id() {
        Ok(b) => b,
        Err(e) => {
            return Err(e);
        },
    };
    let shadow = match table.is_shadow() {
        Ok(b) => b,
        Err(e) => {
            return Err(e);
        },
    };
    let nrows = match table.count_rows() {
        Ok(n) => n,
        Err(e) => {
            return Err(e);
        },
    };
    let entries = match index_entries(table) {
        Ok(entries) => entries,
        Err(e) => {
            return Err(e);
        },
    };
    let infos = table.columns_info();
    let indexes = classify_indexes(&entries, &infos);
    let foreign_keys = table.foreign_key_info();
    let kind = match table.virtual_using() {
        Ok(Some(module)) => TableKind::Virtual { module },
        Ok(None) => if shadow {
            TableKind::Shadow
        } else {
            TableKind::Ordinary
        },
        Err(e) => {
            return Err(e);
        },
    };
    let columns = match table_columns(table) {
        Ok(columns) => columns,
        Err(e) => {
            return Err(e);
        },
    };
    let triggers = table.triggers_info();
    proof {
        let infos = table.rows().unwrap().columns@;
        if has_generated(infos) {
            let i = choose|i: int| 0 <= i < infos.len() && is_generated(#[trigger] infos[i]);
            assert(is_column_of(columns@[i], infos[i], *table.catalog, table.name@));
        }
    }
    Ok(
        TableDescriptor {
            name: table.name.clone(),
            kind,
            strict,
            without_rowid,
            columns,
            indexes,
            foreign_keys,
            nrows,
            triggers,
        },
    )
}

/// What went wrong with one object.
pub enum Failure {
    /// The snapshot lacks something.
    Catalog(CatalogError),
    /// The creation statement does not parse; the parser's message.
    Parse(Seq<char>),
}

/// Why the view cannot be described, if it cannot.
pub open spec fn view_failure(catalog: Catalog, name: Seq<char>) -> Option<Failure> {
    if object_rows(catalog, name) is None {
        Some(Failure::Catalog(CatalogError::NotRead))
    } else if statement_of(catalog, name) is Err {
        Some(Failure::Catalog(statement_of(catalog, name)->Err_0))
    } else {
        match parse_of(statement_of(catalog, name)->Ok_0) {
            Parse::Failed(message) => Some(Failure::Parse(message)),
            Parse::Statements(_) => None,
        }
    }
}

/// Whether `v` is the description of the view `table`.
pub open spec fn describes_view(v: ViewDescriptor, catalog: Catalog, name: Seq<char>) -> bool {
    &&& object_rows(catalog, name) matches Some(rows)
    &&& statement_of(catalog, name) matches Ok(sql)
    &&& v.name@ == name
    &&& v.columns@ == rows.columns@
    &&& v.nrows == rows.nrows
    &&& match v.select {
        Some(q) => view_query(parse_of(sql)) == Some(q@),
        None => view_query(parse_of(sql)) is None,
    }
}

/// Whether `e` reports the failure `f` for the object called `name`: the
/// same lookup error, or the parser's message word for word.
pub open spec fn reports(e: SchemaError, name: Seq<char>, f: Failure) -> bool {
    match e {
        SchemaError::Catalog { name: n, error } => n@ == name && f == Failure::Catalog(error),
        SchemaError::Parse { name: n, failure } => n@ == name && f == Failure::Parse(
            failure.message@,
        ),
    }
}

/// Composes the description of one view: its columns, its row count and its
/// query. A view whose creation statement does not parse is an error.
pub fn describe_view(table: &Table) -> (r: Result<ViewDescriptor, SchemaError>)
    ensures
        match r {
            Ok(v) => view_failure(*table.catalog, table.name@) is None && describes_view(
                v,
                *table.catalog,
                table.name@,
            ),
            Err(e) => view_failure(*table.catalog, table.name@) matches Some(f) && reports(
                e,
                table.name@,
                f,
            ),
        },
{
    let nrows = match table.count_rows() {
        Ok(n) => n,
        Err(error) => {
            return Err(SchemaError::Catalog { name: table.name.clone(), error });
        },
    };
    let columns = table.columns_info();
    let sql = match table.create_sql() {
        Ok(sql) => sql,
        Err(error) => {
            return Err(SchemaError::Catalog { name: table.name.clone(), error });
        },
    };
    let select = match view_select(sql.as_str()) {
        Ok(select) => select,
        Err(failure) => {
            return Err(SchemaError::Parse { name: table.name.clone(), failure });
        },
    };
    Ok(ViewDescriptor { name: table.name.clone(), columns, nrows, select })
}

/// Whether `tables` are the descriptions of the tables called `names`, one
/// for one.
pub open spec fn describe_all(
    tables: Seq<TableDescriptor>,
    catalog: Catalog,
    names: Seq<Seq<char>>,
) -> bool {
    &&& tables.len() == names.len()
    &&& forall|i: int|
        0 <= i < names.len() ==> table_failure(catalog, #[trigger] names[i]) is None && describes(
            tables[i],
            catalog,
            names[i],
        )
}

/// Whether `views` are the descriptions of the views called `names`, one for
/// one.
pub open spec fn describe_all_views(
    views: Seq<ViewDescriptor>,
    catalog: Catalog,
    names: Seq<Seq<char>>,
) -> bool {
    &&& views.len() == names.len()
    &&& forall|i: int|
        0 <= i < names.len() ==> view_failure(catalog, #[trigger] names[i]) is None
            && describes_view(views[i], catalog, names[i])
}

/// Whether `e` reports the first table among `names` that cannot be
/// described.
pub open spec fn reports_table(e: SchemaError, catalog: Catalog, names: Seq<Seq<char>>) -> bool {
    exists|i: int|
        0 <= i < names.len() && table_failure(catalog, #[trigger] names[i]) is Some && reports(
            e,
            names[i],
            Failure::Catalog(table_failure(catalog, names[i]).unwrap()),
        ) && forall|j: int| 0 <= j < i ==> table_failure(catalog, #[trigger] names[j]) is None
}

/// Whether `e` reports the first view among `names` that cannot be
/// described.
pub open spec fn reports_view(e: SchemaError, catalog: Catalog, names: Seq<Seq<char>>) -> bool {
    exists|i: int|
        0 <= i < names.len() && view_failure(catalog, #[trigger] names[i]) is Some && reports(
            e,
            names[i],
            view_failure(catalog, names[i]).unwrap(),
        ) && forall|j: int| 0 <= j < i ==> view_failure(catalog, #[trigger] names[j]) is None
}

/// Whether no table among `names` fails to be described.
pub open spec fn all_tables_fine(catalog: Catalog, names: Seq<Seq<char>>) -> bool {
    forall|i: int| 0 <= i < names.len() ==> table_failure(catalog, #[trigger] names[i]) is None
}

/// Describes the tables called `names`, in that order; the first that cannot
/// be described ends the work.
pub fn describe_tables(catalog: &Rc<Catalog>, names: &Vec<String>) -> (r: Result<
    Vec<TableDescriptor>,
    SchemaError,
>)
    ensures
        match r {
            Ok(tables) => describe_all(tables@, **catalog, texts(names@)),
            Err(e) => reports_table(e, **catalog, texts(names@)),
        },
{
    let ghost all = texts(names@);
    let mut tables: Vec<TableDescriptor> = Vec::new();
    let mut i: usize = 0;
    while i < names.len()
        invariant
            i <= names.len(),
            all == texts(names@),
            tables@.len() == i,
            forall|j: int|
                0 <= j < i ==> table_failure(**catalog, #[trigger] all[j]) is None && describes(
                    tables@[j],
                    **catalog,
                    all[j],
                ),
        decreases names.len() - i,
    {
        let table = Table::new(names[i].as_str(), catalog.clone());
        assert(table.name@ == all[i as int]);
        match describe_table(&table) {
            Ok(d) => {
                tables.push(d);
            },
            Err(error) => {
                let e = SchemaError::Catalog { name: table.name.clone(), error };
                assert(reports(
                    e,
                    all[i as int],
                    Failure::Catalog(table_failure(**catalog, all[i as int]).unwrap()),
                ));
                return Err(e);
            },
        }
        i = i + 1;
    }
    Ok(tables)
}

/// Describes the views called `names`, in that order; the first that cannot
/// be described ends the work.
pub fn describe_views(catalog: &Rc<Catalog>, names: &Vec<String>) -> (r: Result<
    Vec<ViewDescriptor>,
    SchemaError,
>)
    ensures
        match r {
            Ok(views) => describe_all_views(views@, **catalog, texts(names@)),
            Err(e) => reports_view(e, **catalog, texts(names@)),
        },
{
    let ghost all = texts(names@);
    let mut views: Vec<ViewDescriptor> = Vec::new();
    let mut i: usize = 0;
    while i < names.len()
        invariant
            i <= names.len(),
            all == texts(names@),
            views@.len() == i,
            forall|j: int|
                0 <= j < i ==> view_failure(**catalog, #[trigger] all[j]) is None
                    && describes_view(views@[j], **catalog, all[j]),
        decreases names.len() - i,
    {
        let table = Table::new(names[i].as_str(), catalog.clone());
        assert(table.name@ == all[i as int]);
        match describe_view(&table) {
            Ok(v) => {
                views.push(v);
            },
            Err(e) => {
                assert(view_failure(**catalog, all[i as int]) is Some);
                return Err(e);
            },
        }
        i = i + 1;
    }
    Ok(views)
}

/// Whether `schema` describes the database: its tables as the listing
/// names them, then its views.
pub open spec fn is_schema_of(schema: Schema, catalog: Catalog, inc_hidden: bool) -> bool {
    &&& describe_all(schema.tables@, catalog, listed_names(catalog.tables@, inc_hidden))
    &&& describe_all_views(schema.views@, catalog, view_names(catalog.schema@))
}

/// Whether `e` reports the first object of the database that cannot be
/// described: a table, or, where every table can, a view.
pub open spec fn is_failure_of(e: SchemaError, catalog: Catalog, inc_hidden: bool) -> bool {
    ||| reports_table(e, catalog, listed_names(catalog.tables@, inc_hidden))
    ||| (all_tables_fine(catalog, listed_names(catalog.tables@, inc_hidden)) && reports_view(
        e,
        catalog,
        view_names(catalog.schema@),
    ))
}

/// Describes every table and view of the database. Tables come in catalog
/// order; with `inc_hidden`, shadow tables and the engine's own tables follow
/// the user's tables as groups of their own.
pub fn describe_schema(catalog: &Rc<Catalog>, inc_hidden: bool) -> (r: Result<Schema, SchemaError>)
    ensures
        match r {
            Ok(schema) => is_schema_of(schema, **catalog, inc_hidden),
            Err(e) => is_failure_of(e, **catalog, inc_hidden),
        },
{
    let table_names = get_table_names(catalog, &inc_hidden);
    let tables = match describe_tables(catalog, &table_names) {
        Ok(tables) => tables,
        Err(e) => {
            return Err(e);
        },
    };
    let names = get_view_names(catalog);
    let views = match describe_views(catalog, &names) {
        Ok(views) => views,
        Err(e) => {
            return Err(e);
        },
    };
    Ok(Schema { tables, views })
}

/// Describes the database, writes the report on it, and says whether the
/// report goes to the pager: it does where the output is an interactive
/// terminal and the report has more lines than the terminal has rows.
pub fn inspect_schema(
    catalog: Rc<Catalog>,
    filename: &str,
    opts: RenderOptions,
    terminal: Terminal,
) -> (r: Result<Report, SchemaError>)
    ensures
        match r {
            Ok(report) => is_schema_of(report.schema, *catalog, opts.include_hidden)
                && report.text@ == schema_text(
                filename@,
                report.schema.tables@,
                report.schema.views@,
                opts,
            ) && report.mode == schema_mode(report.text@, terminal) && (!terminal.interactive
                ==> report.mode == OutputMode::Direct),
            Err(e) => is_failure_of(e, *catalog, opts.include_hidden),
        },
{
    let schema = match describe_schema(&catalog, opts.include_hidden) {
        Ok(schema) => schema,
        Err(e) => {
            return Err(e);
        },
    };
    let text = render_schema(filename, &schema.tables, &schema.views, opts);
    let mode = schema_output(text.as_str(), terminal);
    Ok(Report { schema, text, mode })
}

} // verus!
