//! The catalog of a database, as plain rows, and the lookups that the report
//! makes in it.
//!
//! A [`Catalog`] is a snapshot: the caller reads the engine's table list,
//! its master listing and the per-object metadata once and hands them over.
//! Nothing here talks to the database.

use std::rc::Rc;
use vstd::prelude::*;
use crate::foreign_key::ForeignKeyRow;
use crate::text::{chars_of, same_text, texts};

verus! {

/// One column of a table or view, as the catalog reports it.
#[derive(Debug, PartialEq)]
pub struct ColumnInfo {
    pub name: String,
    /// The declared type; may be empty.
    pub dtype: String,
    pub notnull: bool,
    /// 0 where the column is no part of the primary key.
    pub pk: u8,
    /// 0 for an ordinary column, 1 for a hidden column of a virtual table,
    /// 2 for a generated column computed on read, 3 for a stored one.
    pub hidden: u8,
}

/// One index of a table, as the catalog reports it.
#[derive(Debug, PartialEq)]
pub struct IndexInfo {
    pub name: String,
    pub unique: bool,
    /// `pk` for the index of the primary key, `u` for one made by a `UNIQUE`
    /// constraint, `c` for one made by `CREATE INDEX`.
    pub origin: String,
    pub partial: bool,
}

/// One key column of an index, as the catalog reports it.
#[derive(Debug, PartialEq)]
pub struct IndexColumnRow {
    /// The column's number in the table, -1 for the rowid, -2 for an
    /// expression.
    pub cid: i32,
    /// The column's name; the catalog gives none for rowid and expressions.
    pub name: Option<String>,
}

/// The key columns of one index, in key order.
#[derive(Debug, PartialEq)]
pub struct IndexColumns {
    pub index: String,
    pub rows: Vec<IndexColumnRow>,
}

/// One row of the engine's table list.
#[derive(Debug, PartialEq)]
pub struct TableListRow {
    pub schema: String,
    pub name: String,
    /// `table`, `view`, `shadow` or `virtual`.
    pub kind: String,
    pub without_rowid: bool,
    pub strict: bool,
}

/// One row of the master listing.
#[derive(Debug, PartialEq)]
pub struct SchemaRow {
    /// `table`, `view`, `index` or `trigger`.
    pub kind: String,
    pub name: String,
    /// The table that an index or a trigger belongs to.
    pub tbl_name: String,
    /// The stored creation statement.
    pub sql: Option<String>,
}

/// What the catalog reports of one table or view.
#[derive(Debug)]
pub struct ObjectRows {
    pub name: String,
    pub columns: Vec<ColumnInfo>,
    pub indexes: Vec<IndexInfo>,
    pub foreign_keys: Vec<ForeignKeyRow>,
    /// The number of rows, as counted when the snapshot was taken.
    pub nrows: u64,
}

/// A snapshot of the catalog.
#[derive(Debug)]
pub struct Catalog {
    pub tables: Vec<TableListRow>,
    pub schema: Vec<SchemaRow>,
    pub objects: Vec<ObjectRows>,
    pub index_columns: Vec<IndexColumns>,
}

/// Why a lookup in the catalog gave nothing.
#[derive(Clone, Copy, Debug, PartialEq, Eq, Structural)]
pub enum CatalogError {
    /// No table or view of that name is listed.
    NotListed,
    /// The object is listed without a creation statement.
    NoStatement,
    /// The snapshot holds no metadata for the object.
    NotRead,
    /// An index column that is neither rowid nor expression has no name.
    NoColumnName,
}

/// What is said to the user about a failed lookup of the object `name`.
pub open spec fn error_text(e: CatalogError, name: Seq<char>) -> Seq<char> {
    match e {
        CatalogError::NotListed => "No such table: "@ + name,
        CatalogError::NoStatement => "No creation statement is stored for "@ + name,
        CatalogError::NotRead => "No metadata was read for "@ + name,
        CatalogError::NoColumnName => "An index key column has no name in "@ + name,
    }
}

/// The message for a failed lookup of the object called `name`. A name that
/// is not in the catalog gives `No such table: ` and the name.
pub fn error_message(e: CatalogError, name: &str) -> (r: String)
    ensures
        r@ == error_text(e, name@),
{
    let mut out = match e {
        CatalogError::NotListed => "No such table: ".to_owned(),
        CatalogError::NoStatement => "No creation statement is stored for ".to_owned(),
        CatalogError::NotRead => "No metadata was read for ".to_owned(),
        CatalogError::NoColumnName => "An index key column has no name in ".to_owned(),
    };
    out.append(name);
    out
}

/// A table or a view of the database, by name.
pub struct Table {
    pub name: String,
    pub catalog: Rc<Catalog>,
}

/// A row that is looked up by its name.
pub trait Named {
    spec fn name_text(&self) -> Seq<char>;

    fn name_str(&self) -> (s: &str)
        ensures
            s@ == self.name_text(),
    ;
}

impl Named for TableListRow {
    open spec fn name_text(&self) -> Seq<char> {
        self.name@
    }

    fn name_str(&self) -> (s: &str) {
        self.name.as_str()
    }
}

impl Named for SchemaRow {
    open spec fn name_text(&self) -> Seq<char> {
        self.name@
    }

    fn name_str(&self) -> (s: &str) {
        self.name.as_str()
    }
}

impl Named for ObjectRows {
    open spec fn name_text(&self) -> Seq<char> {
        self.name@
    }

    fn name_str(&self) -> (s: &str) {
        self.name.as_str()
    }
}

impl Named for IndexColumns {
    open spec fn name_text(&self) -> Seq<char> {
        self.index@
    }

    fn name_str(&self) -> (s: &str) {
        self.index.as_str()
    }
}

/// Whether some row is called `name`.
pub open spec fn has_named<T: Named>(rows: Seq<T>, name: Seq<char>) -> bool {
    exists|i: int| 0 <= i < rows.len() && (#[trigger] rows[i]).name_text() == name
}

/// Whether row `i` is the first that is called `name`.
pub open spec fn is_first_named<T: Named>(rows: Seq<T>, name: Seq<char>, i: int) -> bool {
    &&& 0 <= i < rows.len()
    &&& rows[i].name_text() == name
    &&& forall|j: int| 0 <= j < i ==> (#[trigger] rows[j]).name_text() != name
}

/// The first row that is called `name`.
pub open spec fn first_named<T: Named>(rows: Seq<T>, name: Seq<char>) -> Option<T> {
    if has_named(rows, name) {
        Some(rows[choose|i: int| is_first_named(rows, name, i)])
    } else {
        None
    }
}

/// The position of the first row that is called `name`.
pub fn find_named<T: Named>(rows: &Vec<T>, name: &str) -> (r: Option<usize>)
    ensures
        match r {
            Some(i) => is_first_named(rows@, name@, i as int) && first_named(rows@, name@) == Some(
                rows@[i as int],
            ),
            None => !has_named(rows@, name@) && first_named(rows@, name@) is None,
        },
{
    let mut i: usize = 0;
    while i < rows.len()
        invariant
            i <= rows.len(),
            forall|j: int| 0 <= j < i ==> (#[trigger] rows@[j]).name_text() != name@,
        decreases rows.len() - i,
    {
        if same_text(rows[i].name_str(), name) {
            proof {
                let k = choose|k: int| is_first_named(rows@, name@, k);
                assert(is_first_named(rows@, name@, i as int));
                assert(k == i) by {
                    if k < i {
                        assert(rows@[k].name_text() != name@);
                    } else if k > i {
                        assert(rows@[i as int].name_text() == name@);
                    }
                }
            }
            return Some(i);
        }
        i = i + 1;
    }
    None
}

/// The row of the table list for the object called `name`.
pub open spec fn listed(catalog: Catalog, name: Seq<char>) -> Option<TableListRow> {
    first_named(catalog.tables@, name)
}

/// The metadata of the object called `name`.
pub open spec fn object_rows(catalog: Catalog, name: Seq<char>) -> Option<ObjectRows> {
    first_named(catalog.objects@, name)
}

/// The stored creation statement of the object called `name`, or why there
/// is none.
pub open spec fn statement_of(catalog: Catalog, name: Seq<char>) -> Result<Seq<char>, CatalogError> {
    match first_named(catalog.schema@, name) {
        Some(row) => match row.sql {
            Some(sql) => Ok(sql@),
            None => Err(CatalogError::NoStatement),
        },
        None => Err(CatalogError::NotListed),
    }
}

impl Clone for ColumnInfo {
    fn clone(&self) -> (c: Self)
        ensures
            c == *self,
    {
        ColumnInfo {
            name: self.name.clone(),
            dtype: self.dtype.clone(),
            notnull: self.notnull,
            pk: self.pk,
            hidden: self.hidden,
        }
    }
}

impl Clone for IndexInfo {
    fn clone(&self) -> (c: Self)
        ensures
            c == *self,
    {
        IndexInfo {
            name: self.name.clone(),
            unique: self.unique,
            origin: self.origin.clone(),
            partial: self.partial,
        }
    }
}

/// A copy of `v`, column by column.
pub fn clone_columns(v: &Vec<ColumnInfo>) -> (r: Vec<ColumnInfo>)
    ensures
        r@ == v@,
{
    let mut r: Vec<ColumnInfo> = Vec::new();
    let mut i: usize = 0;
    while i < v.len()
        invariant
            i <= v.len(),
            r@ == v@.take(i as int),
        decreases v.len() - i,
    {
        r.push(v[i].clone());
        i = i + 1;
        assert(r@ =~= v@.take(i as int));
    }
    assert(v@.take(i as int) =~= v@);
    r
}

/// A copy of `v`, index by index.
pub fn clone_indexes(v: &Vec<IndexInfo>) -> (r: Vec<IndexInfo>)
    ensures
        r@ == v@,
{
    let mut r: Vec<IndexInfo> = Vec::new();
    let mut i: usize = 0;
    while i < v.len()
        invariant
            i <= v.len(),
            r@ == v@.take(i as int),
        decreases v.len() - i,
    {
        r.push(v[i].clone());
        i = i + 1;
        assert(r@ =~= v@.take(i as int));
    }
    assert(v@.take(i as int) =~= v@);
    r
}

/// What stands for the rowid among the key columns of an index.
pub open spec fn rowid_text() -> Seq<char> {
    "<rowid>"@
}

/// What stands for an expression among the key columns of an index.
pub open spec fn expression_text() -> Seq<char> {
    "<expression>"@
}

/// The name shown for one key column; `None` where the catalog owes a name
/// and gives none.
pub open spec fn key_column_text(row: IndexColumnRow) -> Option<Seq<char>> {
    if row.cid == -1 {
        Some(rowid_text())
    } else if row.cid == -2 {
        Some(expression_text())
    } else {
        match row.name {
            Some(n) => Some(n@),
            None => None,
        }
    }
}

/// The names shown for the key columns `rows`, where each has one.
pub open spec fn key_column_texts(rows: Seq<IndexColumnRow>) -> Seq<Seq<char>> {
    rows.map_values(|r: IndexColumnRow| key_column_text(r).unwrap())
}

/// Whether each of the key columns `rows` has a name to show.
pub open spec fn key_columns_named(rows: Seq<IndexColumnRow>) -> bool {
    forall|i: int| 0 <= i < rows.len() ==> key_column_text(#[trigger] rows[i]) is Some
}

/// The names of the key columns `rows`, in key order: `<rowid>` for the
/// rowid, `<expression>` for an expression, else the column's name.
pub fn key_column_names(rows: &Vec<IndexColumnRow>) -> (r: Result<Vec<String>, CatalogError>)
    ensures
        match r {
            Ok(names) => key_columns_named(rows@) && texts(names@) == key_column_texts(rows@),
            Err(e) => e == CatalogError::NoColumnName && !key_columns_named(rows@),
        },
{
    let mut names: Vec<String> = Vec::new();
    let mut i: usize = 0;
    while i < rows.len()
        invariant
            i <= rows.len(),
            key_columns_named(rows@.take(i as int)),
            texts(names@) == key_column_texts(rows@.take(i as int)),
        decreases rows.len() - i,
    {
        let row = &rows[i];
        let name = if row.cid == -1 {
            "<rowid>".to_owned()
        } else if row.cid == -2 {
            "<expression>".to_owned()
        } else {
            match &row.name {
                Some(n) => n.clone(),
                None => {
                    assert(key_column_text(rows@[i as int]) is None);
                    return Err(CatalogError::NoColumnName);
                },
            }
        };
        let ghost seen = texts(names@);
        names.push(name);
        i = i + 1;
        proof {
            assert(rows@.take(i as int) =~= rows@.take(i - 1).push(rows@[i - 1]));
            assert(texts(names@) =~= seen.push(name@));
            assert(texts(names@) =~= key_column_texts(rows@.take(i as int)));
        }
    }
    assert(rows@.take(i as int) =~= rows@);
    Ok(names)
}

impl IndexInfo {
    /// The names of the key columns of this index, in key order. An index of
    /// which the snapshot holds no key has none.
    pub fn column_names(&self, catalog: &Catalog) -> (r: Result<Vec<String>, CatalogError>)
        ensures
            match first_named(catalog.index_columns@, self.name@) {
                Some(key) => match r {
                    Ok(names) => key_columns_named(key.rows@) && texts(names@) == key_column_texts(
                        key.rows@,
                    ),
                    Err(e) => e == CatalogError::NoColumnName && !key_columns_named(key.rows@),
                },
                None => r matches Ok(names) && names@.len() == 0,
            },
    {
        match find_named(&catalog.index_columns, self.name.as_str()) {
            Some(i) => key_column_names(&catalog.index_columns[i].rows),
            None => Ok(Vec::new()),
        }
    }
}

/// The groups in which tables are listed.
#[derive(Clone, Copy, Debug, PartialEq, Eq, Structural)]
pub enum Group {
    /// Ordinary and virtual tables that the user made.
    Regular,
    /// Tables that belong to a virtual table.
    Shadow,
    /// The engine's own tables.
    System,
}

/// The prefix of the names that the engine keeps for its own tables.
pub open spec fn system_prefix() -> Seq<char> {
    "sqlite_"@
}

/// Whether `name` starts with the prefix of the engine's own tables.
pub open spec fn has_system_prefix(name: Seq<char>) -> bool {
    system_prefix().is_prefix_of(name)
}

/// Whether the table list calls the row a table: an ordinary or a virtual
/// one, no view and no shadow table.
pub open spec fn is_table_kind(row: TableListRow) -> bool {
    row.kind@ == "table"@ || row.kind@ == "virtual"@
}

/// Whether a row of the table list belongs to `group`. The groups share no
/// row, and none of them holds a view.
pub open spec fn in_group(row: TableListRow, group: Group) -> bool {
    match group {
        Group::Regular => is_table_kind(row) && !has_system_prefix(row.name@),
        Group::Shadow => row.kind@ == "shadow"@,
        Group::System => is_table_kind(row) && has_system_prefix(row.name@) && row.schema@
            != "temp"@,
    }
}

/// The names of the rows of `group`, in list order.
pub open spec fn names_in(tables: Seq<TableListRow>, group: Group) -> Seq<Seq<char>> {
    tables.filter(|row: TableListRow| in_group(row, group)).map_values(|row: TableListRow| row.name@)
}

/// The names that the table listing shows: the user's tables first, then,
/// where hidden objects are asked for, shadow tables and the engine's own.
pub open spec fn listed_names(tables: Seq<TableListRow>, inc_hidden: bool) -> Seq<Seq<char>> {
    if inc_hidden {
        names_in(tables, Group::Regular) + names_in(tables, Group::Shadow) + names_in(
            tables,
            Group::System,
        )
    } else {
        names_in(tables, Group::Regular)
    }
}

/// The names of the views in the master listing, in list order.
pub open spec fn view_names(schema: Seq<SchemaRow>) -> Seq<Seq<char>> {
    schema.filter(|row: SchemaRow| row.kind@ == "view"@).map_values(|row: SchemaRow| row.name@)
}

/// The names of the triggers of the table `table`, in list order.
pub open spec fn trigger_names_of(schema: Seq<SchemaRow>, table: Seq<char>) -> Seq<Seq<char>> {
    schema.filter(|row: SchemaRow| row.kind@ == "trigger"@ && row.tbl_name@ == table).map_values(
        |row: SchemaRow| row.name@,
    )
}

/// Without hidden objects, every listed name is that of a table or virtual
/// table which the user made: no shadow table and none of the engine's own
/// tables is listed.
pub proof fn lemma_default_listing_is_regular(tables: Seq<TableListRow>, i: int)
    requires
        0 <= i < listed_names(tables, false).len(),
    ensures
        exists|k: int|
            0 <= k < tables.len() && (#[trigger] tables[k]).name@ == listed_names(tables, false)[i]
                && in_group(tables[k], Group::Regular),
{
    let pred = |row: TableListRow| in_group(row, Group::Regular);
    let kept = tables.filter(pred);
    assert(0 <= i < kept.len());
    tables.lemma_filter_pred(pred, i);
    assert(kept.contains(kept[i]));
    tables.lemma_filter_contains_rev(pred, kept[i]);
    let k = choose|k: int| 0 <= k < tables.len() && tables[k] == kept[i];
    assert(tables[k].name@ == listed_names(tables, false)[i]);
}

/// No row belongs to two groups: a table is listed once at most.
pub proof fn lemma_groups_share_no_row(row: TableListRow, first: Group, second: Group)
    requires
        in_group(row, first),
        in_group(row, second),
    ensures
        first == second,
{
    reveal_strlit("table");
    reveal_strlit("virtual");
    reveal_strlit("shadow");
    assert("table"@.len() == 5 && "virtual"@.len() == 7 && "shadow"@.len() == 6);
}

/// A name belongs to a listing only where the table list has a row of that
/// name which is a table, a virtual table or a shadow table: no view is
/// listed, with or without hidden objects.
pub proof fn lemma_listing_holds_no_view(tables: Seq<TableListRow>, inc_hidden: bool, i: int)
    requires
        0 <= i < listed_names(tables, inc_hidden).len(),
    ensures
        exists|k: int|
            0 <= k < tables.len() && (#[trigger] tables[k]).name@ == listed_names(
                tables,
                inc_hidden,
            )[i] && (is_table_kind(tables[k]) || tables[k].kind@ == "shadow"@),
{
    let regular = names_in(tables, Group::Regular);
    let shadow = names_in(tables, Group::Shadow);
    let group = if i < regular.len() {
        Group::Regular
    } else if i < regular.len() + shadow.len() {
        Group::Shadow
    } else {
        Group::System
    };
    let j = if i < regular.len() {
        i
    } else if i < regular.len() + shadow.len() {
        i - regular.len()
    } else {
        i - regular.len() - shadow.len()
    };
    let pred = |row: TableListRow| in_group(row, group);
    let kept = tables.filter(pred);
    assert(names_in(tables, group) == kept.map_values(|row: TableListRow| row.name@));
    assert(0 <= j < kept.len());
    assert(listed_names(tables, inc_hidden)[i] == kept[j].name@);
    tables.lemma_filter_pred(pred, j);
    assert(kept.contains(kept[j]));
    tables.lemma_filter_contains_rev(pred, kept[j]);
    let k = choose|k: int| 0 <= k < tables.len() && tables[k] == kept[j];
    assert(tables[k].name@ == listed_names(tables, inc_hidden)[i]);
}

/// With hidden objects, the listing is the default listing followed by the
/// shadow tables and then by the engine's own tables.
pub proof fn lemma_hidden_listing_appends(tables: Seq<TableListRow>)
    ensures
        listed_names(tables, true) == listed_names(tables, false) + names_in(tables, Group::Shadow)
            + names_in(tables, Group::System),
{
}

/// Whether `name` starts with the prefix of the engine's own tables.
pub fn is_system_name(name: &str) -> (r: bool)
    ensures
        r == has_system_prefix(name@),
{
    let prefix = chars_of("sqlite_");
    let chars = chars_of(name);
    if chars.len() < prefix.len() {
        return false;
    }
    let mut i: usize = 0;
    while i < prefix.len()
        invariant
            i <= prefix.len(),
            prefix.len() <= chars.len(),
            prefix@ == system_prefix(),
            chars@ == name@,
            forall|j: int| 0 <= j < i ==> prefix@[j] == chars@[j],
        decreases prefix.len() - i,
    {
        if prefix[i] != chars[i] {
            return false;
        }
        i = i + 1;
    }
    assert(name@.subrange(0, prefix@.len() as int) =~= prefix@);
    true
}

fn is_table_row(row: &TableListRow) -> (r: bool)
    ensures
        r == is_table_kind(*row),
{
    same_text(row.kind.as_str(), "table") || same_text(row.kind.as_str(), "virtual")
}

fn row_in_group(row: &TableListRow, group: Group) -> (r: bool)
    ensures
        r == in_group(*row, group),
{
    match group {
        Group::Regular => is_table_row(row) && !is_system_name(row.name.as_str()),
        Group::Shadow => same_text(row.kind.as_str(), "shadow"),
        Group::System => is_table_row(row) && is_system_name(row.name.as_str()) && !same_text(
            row.schema.as_str(),
            "temp",
        ),
    }
}

/// Appends to `out` the names of the rows of `group`, in list order.
fn push_group(out: &mut Vec<String>, tables: &Vec<TableListRow>, group: Group)
    ensures
        texts(final(out)@) == texts(old(out)@) + names_in(tables@, group),
{
    let ghost start = texts(out@);
    let ghost pred = |row: TableListRow| in_group(row, group);
    let ghost name = |row: TableListRow| row.name@;
    let mut i: usize = 0;
    proof {
        reveal(Seq::filter);
        assert(tables@.take(0).filter(pred) =~= Seq::empty());
        assert(texts(out@) =~= start + tables@.take(0).filter(pred).map_values(name));
    }
    while i < tables.len()
        invariant
            i <= tables.len(),
            pred == |row: TableListRow| in_group(row, group),
            name == |row: TableListRow| row.name@,
            texts(out@) == start + tables@.take(i as int).filter(pred).map_values(name),
        decreases tables.len() - i,
    {
        let row = &tables[i];
        let ghost seen = texts(out@);
        let ghost kept = tables@.take(i as int).filter(pred);
        proof {
            tables@.take(i as int).lemma_filter_push(tables@[i as int], pred);
            assert(tables@.take(i as int).push(tables@[i as int]) =~= tables@.take(i + 1));
        }
        if row_in_group(row, group) {
            out.push(row.name.clone());
            proof {
                assert(texts(out@) =~= seen.push(row.name@));
                assert(kept.push(*row).map_values(name) =~= kept.map_values(name).push(row.name@));
                assert(texts(out@) =~= start + kept.push(*row).map_values(name));
            }
        }
        i = i + 1;
    }
    proof {
        assert(tables@.take(i as int) =~= tables@);
    }
}

/// The names of the tables of the database, virtual tables among them, in
/// catalog order. With `inc_hidden`, the shadow tables follow as a second
/// group and the engine's own tables as a third. A table is the engine's own
/// where its name begins with `sqlite_`. No view is listed, and no table is
/// listed twice.
pub fn get_table_names(catalog: &Catalog, inc_hidden: &bool) -> (names: Vec<String>)
    ensures
        texts(names@) == listed_names(catalog.tables@, *inc_hidden),
{
    let mut names: Vec<String> = Vec::new();
    assert(texts(names@) =~= Seq::empty());
    push_group(&mut names, &catalog.tables, Group::Regular);
    assert(texts(names@) =~= names_in(catalog.tables@, Group::Regular));
    if *inc_hidden {
        push_group(&mut names, &catalog.tables, Group::Shadow);
        push_group(&mut names, &catalog.tables, Group::System);
    }
    names
}

/// The names of all views of the database, in catalog order.
pub fn get_view_names(catalog: &Catalog) -> (names: Vec<String>)
    ensures
        texts(names@) == view_names(catalog.schema@),
{
    let ghost pred = |row: SchemaRow| row.kind@ == "view"@;
    let ghost name = |row: SchemaRow| row.name@;
    let schema = &catalog.schema;
    let mut names: Vec<String> = Vec::new();
    let mut i: usize = 0;
    proof {
        reveal(Seq::filter);
        assert(schema@.take(0).filter(pred) =~= Seq::empty());
        assert(texts(names@) =~= schema@.take(0).filter(pred).map_values(name));
    }
    while i < schema.len()
        invariant
            i <= schema.len(),
            pred == |row: SchemaRow| row.kind@ == "view"@,
            name == |row: SchemaRow| row.name@,
            texts(names@) == schema@.take(i as int).filter(pred).map_values(name),
        decreases schema.len() - i,
    {
        let row = &schema[i];
        let ghost seen = texts(names@);
        let ghost kept = schema@.take(i as int).filter(pred);
        proof {
            schema@.take(i as int).lemma_filter_push(schema@[i as int], pred);
            assert(schema@.take(i as int).push(schema@[i as int]) =~= schema@.take(i + 1));
        }
        if same_text(row.kind.as_str(), "view") {
            names.push(row.name.clone());
            proof {
                assert(texts(names@) =~= seen.push(row.name@));
                assert(kept.push(*row).map_values(name) =~= kept.map_values(name).push(row.name@));
            }
        }
        i = i + 1;
    }
    proof {
        assert(schema@.take(i as int) =~= schema@);
    }
    names
}

} // verus!
