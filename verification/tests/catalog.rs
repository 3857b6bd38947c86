use std::rc::Rc;

use sqlite_glance::builder::{describe_table, describe_view, inspect_schema, SchemaError};
use sqlite_glance::catalog::{
    error_message, find_named, get_table_names, get_view_names, is_system_name,
    key_column_names, Catalog, CatalogError, ColumnInfo, IndexColumnRow, IndexColumns, IndexInfo,
    ObjectRows, SchemaRow, Table, TableListRow,
};
use sqlite_glance::descriptor::TableKind;
use sqlite_glance::dispatch::{OutputMode, Terminal};
use sqlite_glance::foreign_key::ForeignKeyRow;
use sqlite_glance::style::RenderOptions;

fn listed(schema: &str, name: &str, kind: &str) -> TableListRow {
    TableListRow {
        schema: schema.to_string(),
        name: name.to_string(),
        kind: kind.to_string(),
        without_rowid: false,
        strict: false,
    }
}

fn stored(kind: &str, name: &str, tbl_name: &str, sql: Option<&str>) -> SchemaRow {
    SchemaRow {
        kind: kind.to_string(),
        name: name.to_string(),
        tbl_name: tbl_name.to_string(),
        sql: sql.map(|s| s.to_string()),
    }
}

fn column(name: &str, dtype: &str, pk: u8, hidden: u8) -> ColumnInfo {
    ColumnInfo { name: name.to_string(), dtype: dtype.to_string(), notnull: false, pk, hidden }
}

fn object(name: &str, columns: Vec<ColumnInfo>, nrows: u64) -> ObjectRows {
    ObjectRows {
        name: name.to_string(),
        columns,
        indexes: Vec::new(),
        foreign_keys: Vec::new(),
        nrows,
    }
}

fn empty() -> Catalog {
    Catalog {
        tables: Vec::new(),
        schema: Vec::new(),
        objects: Vec::new(),
        index_columns: Vec::new(),
    }
}

fn listing() -> Catalog {
    let mut c = empty();
    c.tables = vec![
        listed("main", "docs", "virtual"),
        listed("main", "docs_data", "shadow"),
        listed("main", "sqlite_schema", "table"),
        listed("temp", "sqlite_temp_schema", "table"),
        listed("main", "people", "table"),
        listed("main", "recent", "view"),
        listed("main", "SQLite_odd", "table"),
        listed("main", "sqliteX", "table"),
        listed("main", "sqlite", "table"),
        listed("main", "sqlitexv", "view"),
        listed("main", "sqlite_view", "view"),
        listed("main", "sqlite_shadow", "shadow"),
        listed("main", "sqlite_stat1", "table"),
    ];
    c
}

#[test]
fn default_listing_has_the_users_tables_only() {
    assert_eq!(
        get_table_names(&listing(), &false),
        ["docs", "people", "SQLite_odd", "sqliteX", "sqlite"]
    );
}

#[test]
fn hidden_listing_appends_shadow_then_system_tables() {
    assert_eq!(
        get_table_names(&listing(), &true),
        [
            "docs",
            "people",
            "SQLite_odd",
            "sqliteX",
            "sqlite",
            "docs_data",
            "sqlite_shadow",
            "sqlite_schema",
            "sqlite_stat1"
        ]
    );
}

#[test]
fn table_whose_name_begins_with_the_letters_only_is_a_users_table() {
    let mut c = empty();
    c.tables = vec![listed("main", "sqlitex", "table")];
    assert_eq!(get_table_names(&c, &false), ["sqlitex"]);
    assert_eq!(get_table_names(&c, &true), ["sqlitex"]);
}

#[test]
fn no_view_is_listed_among_the_tables() {
    let c = listing();
    for hidden in [false, true] {
        let names = get_table_names(&c, &hidden);
        assert!(!names.contains(&"recent".to_string()));
        assert!(!names.contains(&"sqlitexv".to_string()));
        assert!(!names.contains(&"sqlite_view".to_string()));
    }
}

#[test]
fn default_listing_is_the_head_of_the_hidden_listing() {
    let c = listing();
    let shown = get_table_names(&c, &false);
    let all = get_table_names(&c, &true);
    assert_eq!(&all[..shown.len()], &shown[..]);
    let mut once = all.clone();
    once.sort();
    once.dedup();
    assert_eq!(once.len(), all.len());
}

#[test]
fn system_tables_are_told_by_their_prefix() {
    assert!(is_system_name("sqlite_schema"));
    assert!(is_system_name("sqlite_stat1"));
    assert!(is_system_name("sqlite_"));
    assert!(!is_system_name("sqliteX"));
    assert!(!is_system_name("sqlitex"));
    assert!(!is_system_name("sqlite"));
    assert!(!is_system_name("sqlit_e"));
    assert!(!is_system_name(""));
    assert!(!is_system_name("my_sqlite_table"));
}

#[test]
fn views_are_listed_from_the_master_listing() {
    let mut c = empty();
    c.schema = vec![
        stored("table", "t", "t", Some("CREATE TABLE t (a)")),
        stored("view", "v2", "v2", Some("CREATE VIEW v2 AS SELECT 1")),
        stored("index", "i", "t", None),
        stored("view", "v1", "v1", Some("CREATE VIEW v1 AS SELECT 2")),
    ];
    assert_eq!(get_view_names(&c), ["v2", "v1"]);
    assert!(get_view_names(&empty()).is_empty());
}

#[test]
fn rows_are_found_by_exact_name() {
    let c = listing();
    assert_eq!(find_named(&c.tables, "people"), Some(4));
    assert_eq!(find_named(&c.tables, "People"), None);
    assert_eq!(find_named(&c.tables, ""), None);
}

#[test]
fn key_columns_get_their_names() {
    let rows = vec![
        IndexColumnRow { cid: 2, name: Some("b".to_string()) },
        IndexColumnRow { cid: -1, name: None },
        IndexColumnRow { cid: -2, name: None },
        IndexColumnRow { cid: 0, name: Some("a".to_string()) },
    ];
    assert_eq!(key_column_names(&rows).unwrap(), ["b", "<rowid>", "<expression>", "a"]);
    assert!(key_column_names(&Vec::new()).unwrap().is_empty());
}

#[test]
fn key_column_without_a_name_is_an_error() {
    let rows = vec![IndexColumnRow { cid: 0, name: None }];
    assert_eq!(key_column_names(&rows), Err(CatalogError::NoColumnName));
}

#[test]
fn index_of_which_nothing_was_read_has_no_columns() {
    let ix = IndexInfo {
        name: "ix".to_string(),
        unique: false,
        origin: "c".to_string(),
        partial: false,
    };
    assert!(ix.column_names(&empty()).unwrap().is_empty());
    let mut c = empty();
    c.index_columns.push(IndexColumns {
        index: "ix".to_string(),
        rows: vec![IndexColumnRow { cid: -1, name: None }],
    });
    assert_eq!(ix.column_names(&c).unwrap(), ["<rowid>"]);
}

#[test]
fn lookups_in_an_empty_catalog_fail() {
    let t = Table::new("t", Rc::new(empty()));
    assert_eq!(t.name, "t");
    assert!(!t.in_db());
    assert_eq!(t.obj_type(), Err(CatalogError::NotListed));
    assert_eq!(t.create_sql(), Err(CatalogError::NotListed));
    assert_eq!(t.is_shadow(), Err(CatalogError::NotListed));
    assert_eq!(t.is_strict(), Err(CatalogError::NotListed));
    assert_eq!(t.is_without_row_id(), Err(CatalogError::NotListed));
    assert_eq!(t.count_rows(), Err(CatalogError::NotRead));
    assert_eq!(t.virtual_using(), Err(CatalogError::NotListed));
    assert_eq!(t.get_gencol_expr("a"), Err(CatalogError::NotListed));
    assert!(t.columns_info().is_empty());
    assert!(t.indexes_info().is_empty());
    assert!(t.foreign_key_info().list.is_empty());
    assert!(t.triggers_info().is_empty());
}

#[test]
fn object_without_a_statement() {
    let mut c = empty();
    c.schema = vec![stored("table", "t", "t", None)];
    let t = Table::new("t", Rc::new(c));
    assert_eq!(t.create_sql(), Err(CatalogError::NoStatement));
    assert_eq!(t.get_gencol_expr("a"), Err(CatalogError::NoStatement));
}

#[test]
fn system_tables_are_not_virtual_whatever_is_stored() {
    let t = Table::new("sqlite_sequence", Rc::new(empty()));
    assert_eq!(t.virtual_using(), Ok(None));
}

#[test]
fn messages_name_the_object() {
    assert_eq!(error_message(CatalogError::NotListed, "t"), "No such table: t");
    assert_eq!(
        error_message(CatalogError::NoStatement, "t"),
        "No creation statement is stored for t"
    );
    assert_eq!(error_message(CatalogError::NotRead, "t"), "No metadata was read for t");
    assert_eq!(
        error_message(CatalogError::NoColumnName, "t"),
        "An index key column has no name in t"
    );
}

fn described() -> Catalog {
    let mut c = empty();
    c.tables = vec![
        TableListRow {
            schema: "main".to_string(),
            name: "people".to_string(),
            kind: "table".to_string(),
            without_rowid: true,
            strict: true,
        },
        listed("main", "recent", "view"),
    ];
    c.schema = vec![
        stored("table", "people", "people", Some("CREATE TABLE people (id INTEGER PRIMARY KEY, name TEXT, shout AS (upper(name)))")),
        stored("trigger", "audit", "people", Some("CREATE TRIGGER audit AFTER INSERT ON people BEGIN SELECT 1; END")),
        stored("trigger", "elsewhere", "other", Some("CREATE TRIGGER elsewhere AFTER INSERT ON other BEGIN SELECT 1; END")),
        stored("view", "recent", "recent", Some("CREATE VIEW recent AS SELECT name FROM people")),
    ];
    let mut people = object(
        "people",
        vec![column("id", "INTEGER", 1, 0), column("name", "TEXT", 0, 0), column("shout", "", 0, 2)],
        3,
    );
    people.indexes = vec![
        IndexInfo { name: "by_name".to_string(), unique: false, origin: "c".to_string(), partial: false },
        IndexInfo { name: "both".to_string(), unique: true, origin: "c".to_string(), partial: false },
    ];
    people.foreign_keys = vec![ForeignKeyRow {
        id: 0,
        table: "groups".to_string(),
        from: "name".to_string(),
        to: None,
        on_update: "NO ACTION".to_string(),
        on_delete: "CASCADE".to_string(),
    }];
    c.objects = vec![people, object("recent", vec![column("name", "", 0, 0)], 2)];
    c.index_columns = vec![
        IndexColumns {
            index: "by_name".to_string(),
            rows: vec![IndexColumnRow { cid: 1, name: Some("name".to_string()) }],
        },
        IndexColumns {
            index: "both".to_string(),
            rows: vec![
                IndexColumnRow { cid: 1, name: Some("name".to_string()) },
                IndexColumnRow { cid: -2, name: None },
            ],
        },
    ];
    c
}

#[test]
fn table_is_described_from_the_snapshot() {
    let d = describe_table(&Table::new("people", Rc::new(described()))).unwrap();
    assert_eq!(d.name, "people");
    assert_eq!(d.kind, TableKind::Ordinary);
    assert!(d.strict);
    assert!(d.without_rowid);
    assert_eq!(d.nrows, 3);
    assert_eq!(d.columns.len(), 3);
    assert_eq!(d.columns[0].generated_as, None);
    assert_eq!(d.columns[2].generated_as, Some("upper(name)".to_string()));
    assert_eq!(d.indexes.pk_cols, ["id"]);
    assert!(d.indexes.cols_unique.is_empty());
    assert_eq!(d.indexes.cols_w_index, ["name"]);
    assert_eq!(d.indexes.other_indexes.len(), 1);
    assert_eq!(d.indexes.other_indexes[0].columns, ["name", "<expression>"]);
    assert_eq!(d.foreign_keys.list.len(), 1);
    assert_eq!(d.foreign_keys.list[0].to, [""]);
    assert_eq!(d.foreign_keys.list[0].on_delete, "CASCADE");
    assert_eq!(d.triggers, ["audit"]);
}

#[test]
fn view_is_described_from_the_snapshot() {
    let v = describe_view(&Table::new("recent", Rc::new(described()))).unwrap();
    assert_eq!(v.name, "recent");
    assert_eq!(v.nrows, 2);
    assert_eq!(v.columns.len(), 1);
    assert_eq!(v.select, Some("SELECT name FROM people".to_string()));
}

#[test]
fn description_fails_on_what_the_snapshot_lacks() {
    let mut c = described();
    c.objects.clear();
    let c = Rc::new(c);
    assert_eq!(
        describe_table(&Table::new("people", Rc::clone(&c))).unwrap_err(),
        CatalogError::NotRead
    );
    assert_eq!(
        describe_table(&Table::new("nonesuch", Rc::clone(&c))).unwrap_err(),
        CatalogError::NotListed
    );
    assert_eq!(
        describe_view(&Table::new("recent", Rc::clone(&c))).unwrap_err(),
        SchemaError::Catalog { name: "recent".to_string(), error: CatalogError::NotRead }
    );

    let mut c = described();
    c.index_columns[0].rows[0].name = None;
    assert_eq!(
        describe_table(&Table::new("people", Rc::new(c))).unwrap_err(),
        CatalogError::NoColumnName
    );

    let mut c = described();
    c.schema[0].sql = None;
    assert_eq!(
        describe_table(&Table::new("people", Rc::new(c))).unwrap_err(),
        CatalogError::NoStatement
    );
}

#[test]
fn view_that_does_not_parse_ends_the_report() {
    let mut c = described();
    c.schema[3].sql = Some("CREATE VIEW recent AS SELECT FROM FROM".to_string());
    let opts = RenderOptions { color_enabled: false, include_hidden: false };
    let e = inspect_schema(Rc::new(c), "f.db", opts, PIPE).unwrap_err();
    match &e {
        SchemaError::Parse { name, failure } => {
            assert_eq!(name, "recent");
            assert!(failure.message.starts_with("sql parser error: "));
            assert_eq!(e.message(), failure.message);
        }
        _ => unreachable!(),
    }
}

const PIPE: Terminal = Terminal { interactive: false, cols: 0, rows: 0 };

#[test]
fn report_is_paged_by_its_height_only() {
    let opts = RenderOptions { color_enabled: false, include_hidden: true };
    let lines = 14;
    let fits = Terminal { interactive: true, cols: 1, rows: lines };
    let report = inspect_schema(Rc::new(described()), "f.db", opts, fits).unwrap();
    assert_eq!(report.text.lines().count(), usize::from(lines));
    assert_eq!(report.mode, OutputMode::Direct);
    let short = Terminal { interactive: true, cols: 200, rows: lines - 1 };
    let report = inspect_schema(Rc::new(described()), "f.db", opts, short).unwrap();
    assert_eq!(report.mode, OutputMode::Paged);
    let piped = Terminal { interactive: false, cols: 1, rows: 1 };
    let report = inspect_schema(Rc::new(described()), "f.db", opts, piped).unwrap();
    assert_eq!(report.mode, OutputMode::Direct);
}

#[test]
fn report_of_a_snapshot() {
    let opts = RenderOptions { color_enabled: false, include_hidden: true };
    let report = inspect_schema(Rc::new(described()), "f.db", opts, PIPE).unwrap();
    assert_eq!(report.mode, OutputMode::Direct);
    assert_eq!(
        report.text,
        "f.db \u{2014} 1 tables\n\
\n\
people table (3 rows) [STRICT, WITHOUT ROWID]:\n\
\x20\x20id INTEGER PRIMARY KEY\n\
\x20\x20name TEXT indexed REFERENCES groups\n\
\x20\x20shout AS (upper(name))\n\
Indexes:\n\
\x20\x20both (name, <expression>) UNIQUE\n\
Triggers:\n\
\x20\x20audit\n\
\n\
recent view (2 rows):\n\
\x20\x20name\n\
AS SELECT name FROM people\n"
    );
}
