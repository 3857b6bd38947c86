//! One table or view, looked up by name in a catalog snapshot.

use std::rc::Rc;
use vstd::prelude::*;
use crate::catalog::{
    clone_columns, clone_indexes, find_named, has_named, has_system_prefix, is_system_name, listed,
    object_rows,
    statement_of, trigger_names_of, Catalog, CatalogError, ColumnInfo, IndexInfo, ObjectRows,
    SchemaRow, Table, TableListRow,
};
use crate::escape::{escape_identifier, escaped};
use crate::foreign_key::{grouped, row_views, ForeignKeys};
use crate::parse::{gencol_expr_text, get_gencol_expr, parse_of, virtual_module, virtual_using};
use crate::text::{same_text, texts};

verus! {

impl Table {
    /// The row of the table list for this object.
    pub open spec fn listed(&self) -> Option<TableListRow> {
        listed(*self.catalog, self.name@)
    }

    /// The metadata of this object.
    pub open spec fn rows(&self) -> Option<ObjectRows> {
        object_rows(*self.catalog, self.name@)
    }

    /// The stored creation statement of this object, or why there is none.
    pub open spec fn statement(&self) -> Result<Seq<char>, CatalogError> {
        statement_of(*self.catalog, self.name@)
    }

    /// The table or view called `name` in `catalog`. Whether there is one
    /// is what [`Table::in_db`] says.
    pub fn new(name: &str, catalog: Rc<Catalog>) -> (t: Table)
        ensures
            t.name@ == name@,
            t.catalog == catalog,
    {
        Table { name: name.to_owned(), catalog }
    }

    /// Does a table or view with this name exist in the database?
    pub fn in_db(&self) -> (r: bool)
        ensures
            r == has_named(self.catalog.tables@, self.name@),
    {
        find_named(&self.catalog.tables, self.name.as_str()).is_some()
    }

    /// The kind that the table list gives: `table`, `view`, `shadow` or
    /// `virtual`.
    pub fn obj_type(&self) -> (r: Result<String, CatalogError>)
        ensures
            match self.listed() {
                Some(row) => r matches Ok(kind) && kind@ == row.kind@,
                None => r == Err::<String, CatalogError>(CatalogError::NotListed),
            },
    {
        match find_named(&self.catalog.tables, self.name.as_str()) {
            Some(i) => Ok(self.catalog.tables[i].kind.clone()),
            None => Err(CatalogError::NotListed),
        }
    }

    /// The `CREATE TABLE` or `CREATE VIEW` statement of this object.
    pub fn create_sql(&self) -> (r: Result<String, CatalogError>)
        ensures
            match self.statement() {
                Ok(sql) => r matches Ok(s) && s@ == sql,
                Err(e) => r == Err::<String, CatalogError>(e),
            },
    {
        match find_named(&self.catalog.schema, self.name.as_str()) {
            Some(i) => match &self.catalog.schema[i].sql {
                Some(sql) => Ok(sql.clone()),
                None => Err(CatalogError::NoStatement),
            },
            None => Err(CatalogError::NotListed),
        }
    }

    /// The name of the module that a virtual table uses; `None` for any
    /// other table, and for the engine's own tables without a look at their
    /// statements.
    pub fn virtual_using(&self) -> (r: Result<Option<String>, CatalogError>)
        ensures
            has_system_prefix(self.name@) ==> r == Ok::<Option<String>, CatalogError>(None),
            !has_system_prefix(self.name@) ==> match self.statement() {
                Ok(sql) => r is Ok && match r->Ok_0 {
                    Some(m) => virtual_module(parse_of(sql)) == Some(m@),
                    None => virtual_module(parse_of(sql)) is None,
                },
                Err(e) => r == Err::<Option<String>, CatalogError>(e),
            },
    {
        if is_system_name(self.name.as_str()) {
            return Ok(None);
        }
        match self.create_sql() {
            Ok(sql) => Ok(virtual_using(self.name.as_str(), sql.as_str())),
            Err(e) => Err(e),
        }
    }

    /// Whether the table list calls this object a shadow table.
    pub fn is_shadow(&self) -> (r: Result<bool, CatalogError>)
        ensures
            match self.listed() {
                Some(row) => r == Ok::<bool, CatalogError>(row.kind@ == "shadow"@),
                None => r == Err::<bool, CatalogError>(CatalogError::NotListed),
            },
    {
        match find_named(&self.catalog.tables, self.name.as_str()) {
            Some(i) => Ok(same_text(self.catalog.tables[i].kind.as_str(), "shadow")),
            None => Err(CatalogError::NotListed),
        }
    }

    /// Whether the table was declared `STRICT`.
    pub fn is_strict(&self) -> (r: Result<bool, CatalogError>)
        ensures
            match self.listed() {
                Some(row) => r == Ok::<bool, CatalogError>(row.strict),
                None => r == Err::<bool, CatalogError>(CatalogError::NotListed),
            },
    {
        match find_named(&self.catalog.tables, self.name.as_str()) {
            Some(i) => Ok(self.catalog.tables[i].strict),
            None => Err(CatalogError::NotListed),
        }
    }

    /// Whether the table was declared `WITHOUT ROWID`.
    pub fn is_without_row_id(&self) -> (r: Result<bool, CatalogError>)
        ensures
            match self.listed() {
                Some(row) => r == Ok::<bool, CatalogError>(row.without_rowid),
                None => r == Err::<bool, CatalogError>(CatalogError::NotListed),
            },
    {
        match find_named(&self.catalog.tables, self.name.as_str()) {
            Some(i) => Ok(self.catalog.tables[i].without_rowid),
            None => Err(CatalogError::NotListed),
        }
    }

    /// The columns of this object, in catalog order; none where the snapshot
    /// holds no metadata for it.
    pub fn columns_info(&self) -> (r: Vec<ColumnInfo>)
        ensures
            match self.rows() {
                Some(rows) => r@ == rows.columns@,
                None => r@.len() == 0,
            },
    {
        match find_named(&self.catalog.objects, self.name.as_str()) {
            Some(i) => clone_columns(&self.catalog.objects[i].columns),
            None => Vec::new(),
        }
    }

    /// The indexes on this table, in catalog order; none where the snapshot
    /// holds no metadata for it.
    pub fn indexes_info(&self) -> (r: Vec<IndexInfo>)
        ensures
            match self.rows() {
                Some(rows) => r@ == rows.indexes@,
                None => r@.len() == 0,
            },
    {
        match find_named(&self.catalog.objects, self.name.as_str()) {
            Some(i) => clone_indexes(&self.catalog.objects[i].indexes),
            None => Vec::new(),
        }
    }

    /// The foreign-key constraints of this table, whole, in catalog order.
    pub fn foreign_key_info(&self) -> (r: ForeignKeys)
        ensures
            match self.rows() {
                Some(rows) => r@ == grouped(row_views(rows.foreign_keys@)),
                None => r@.len() == 0,
            },
    {
        match find_named(&self.catalog.objects, self.name.as_str()) {
            Some(i) => ForeignKeys::from_rows(&self.catalog.objects[i].foreign_keys),
            None => ForeignKeys { list: Vec::new() },
        }
    }

    /// The name, quoted where that is needed to make it a valid identifier.
    pub fn escaped_name(&self) -> (r: String)
        ensures
            r@ == escaped(self.name@),
    {
        escape_identifier(self.name.as_str())
    }

    /// The number of rows, as counted when the snapshot was taken.
    pub fn count_rows(&self) -> (r: Result<u64, CatalogError>)
        ensures
            match self.rows() {
                Some(rows) => r == Ok::<u64, CatalogError>(rows.nrows),
                None => r == Err::<u64, CatalogError>(CatalogError::NotRead),
            },
    {
        match find_named(&self.catalog.objects, self.name.as_str()) {
            Some(i) => Ok(self.catalog.objects[i].nrows),
            None => Err(CatalogError::NotRead),
        }
    }

    /// The expression of the generated column `col_name`, as text; a
    /// placeholder where it cannot be recovered from the creation statement.
    pub fn get_gencol_expr(&self, col_name: &str) -> (r: Result<String, CatalogError>)
        ensures
            match self.statement() {
                Ok(sql) => r matches Ok(e) && e@ == gencol_expr_text(parse_of(sql), col_name@),
                Err(e) => r == Err::<String, CatalogError>(e),
            },
    {
        match self.create_sql() {
            Ok(sql) => Ok(get_gencol_expr(sql.as_str(), col_name)),
            Err(e) => Err(e),
        }
    }

    /// The names of the triggers on this table, in catalog order.
    pub fn triggers_info(&self) -> (names: Vec<String>)
        ensures
            texts(names@) == trigger_names_of(self.catalog.schema@, self.name@),
    {
        let ghost pred = |row: SchemaRow| row.kind@ == "trigger"@ && row.tbl_name@ == self.name@;
        let ghost name = |row: SchemaRow| row.name@;
        let schema = &self.catalog.schema;
        let mut names: Vec<String> = Vec::new();
        let mut i: usize = 0;
        proof {
            reveal(Seq::filter);
            assert(schema@.take(0).filter(pred) =~= Seq::empty());
            assert(texts(names@) =~= schema@.take(0).filter(pred).map_values(name));
        }
        while i < schema.len()
            invariant
                i <= schema.len(),
                pred == |row: SchemaRow| row.kind@ == "trigger"@ && row.tbl_name@ == self.name@,
                name == |row: SchemaRow| row.name@,
                texts(names@) == schema@.take(i as int).filter(pred).map_values(name),
            decreases schema.len() - i,
        {
            let row = &schema[i];
            let ghost seen = texts(names@);
            let ghost kept = schema@.take(i as int).filter(pred);
            proof {
                schema@.take(i as int).lemma_filter_push(schema@[i as int], pred);
                assert(schema@.take(i as int).push(schema@[i as int]) =~= schema@.take(i + 1));
            }
            if same_text(row.kind.as_str(), "trigger") && same_text(
                row.tbl_name.as_str(),
                self.name.as_str(),
            ) {
                names.push(row.name.clone());
                proof {
                    assert(texts(names@) =~= seen.push(row.name@));
                    assert(kept.push(*row).map_values(name) =~= kept.map_values(name).push(
                        row.name@,
                    ));
                }
            }
            i = i + 1;
        }
        proof {
            assert(schema@.take(i as int) =~= schema@);
        }
        names
    }
}

} // verus!
