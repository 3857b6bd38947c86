use sqlite_glance::catalog::{ColumnInfo, IndexInfo};
use sqlite_glance::descriptor::{TableColumn, TableDescriptor, TableKind, ViewDescriptor};
use sqlite_glance::foreign_key::{ForeignKeyInfo, ForeignKeys};
use sqlite_glance::index::{IndexClasses, IndexEntry};
use sqlite_glance::report::{fmt_col_names, render_schema, render_table, render_view};
use sqlite_glance::style::RenderOptions;

const PLAIN: RenderOptions = RenderOptions { color_enabled: false, include_hidden: false };
const HIDDEN: RenderOptions = RenderOptions { color_enabled: false, include_hidden: true };
const COLOUR: RenderOptions = RenderOptions { color_enabled: true, include_hidden: false };

fn names(v: &[&str]) -> Vec<String> {
    v.iter().map(|s| s.to_string()).collect()
}

fn column(name: &str, dtype: &str, notnull: bool, pk: u8, hidden: u8) -> TableColumn {
    TableColumn {
        info: ColumnInfo { name: name.to_string(), dtype: dtype.to_string(), notnull, pk, hidden },
        generated_as: None,
    }
}

fn table(name: &str, columns: Vec<TableColumn>) -> TableDescriptor {
    TableDescriptor {
        name: name.to_string(),
        kind: TableKind::Ordinary,
        strict: false,
        without_rowid: false,
        columns,
        indexes: IndexClasses {
            pk_cols: Vec::new(),
            cols_unique: Vec::new(),
            cols_w_index: Vec::new(),
            other_indexes: Vec::new(),
        },
        foreign_keys: ForeignKeys { list: Vec::new() },
        nrows: 0,
        triggers: Vec::new(),
    }
}

fn constraint(to_table: &str, from: &[&str], to: &[&str]) -> ForeignKeyInfo {
    ForeignKeyInfo {
        to_table: to_table.to_string(),
        from: names(from),
        to: names(to),
        on_update: "NO ACTION".to_string(),
        on_delete: "NO ACTION".to_string(),
    }
}

#[test]
fn column_names_are_joined_with_commas() {
    assert_eq!(fmt_col_names(&names(&[]), false), "");
    assert_eq!(fmt_col_names(&names(&["a"]), false), "a");
    assert_eq!(fmt_col_names(&names(&["b", "a", "c"]), false), "b, a, c");
    assert_eq!(
        fmt_col_names(&names(&["b", "a"]), true),
        "\u{1b}[36mb\u{1b}[0m, \u{1b}[36ma\u{1b}[0m"
    );
}

#[test]
fn plain_table() {
    let d = table("t", vec![column("a", "", false, 0, 0), column("b", "TEXT", true, 0, 0)]);
    assert_eq!(render_table(&d, PLAIN), "t table (0 rows):\n  a\n  b TEXT NOT NULL\n\n");
}

#[test]
fn table_without_columns() {
    assert_eq!(render_table(&table("t", Vec::new()), PLAIN), "t table (0 rows):\n\n");
}

#[test]
fn table_name_is_escaped() {
    let mut d = table("order", Vec::new());
    d.nrows = 12;
    assert_eq!(render_table(&d, PLAIN), "\"order\" table (12 rows):\n\n");
}

#[test]
fn kinds_and_attributes() {
    let mut d = table("t", Vec::new());
    d.kind = TableKind::Virtual { module: "fts5".to_string() };
    assert_eq!(render_table(&d, PLAIN), "t virtual table using fts5 (0 rows):\n\n");
    d.kind = TableKind::Shadow;
    d.strict = true;
    assert_eq!(render_table(&d, PLAIN), "t shadow table (0 rows) [STRICT]:\n\n");
    d.strict = false;
    d.without_rowid = true;
    assert_eq!(render_table(&d, PLAIN), "t shadow table (0 rows) [WITHOUT ROWID]:\n\n");
    d.strict = true;
    assert_eq!(render_table(&d, PLAIN), "t shadow table (0 rows) [STRICT, WITHOUT ROWID]:\n\n");
}

#[test]
fn composite_primary_key_has_its_own_line() {
    let mut d = table(
        "multi_pk",
        vec![column("a", "", false, 2, 0), column("b", "", false, 1, 0), column("c", "", false, 0, 0)],
    );
    d.indexes.pk_cols = names(&["b", "a"]);
    assert_eq!(
        render_table(&d, PLAIN),
        "multi_pk table (0 rows):\n  a\n  b\n  c\nPRIMARY KEY (b, a)\n\n"
    );
}

#[test]
fn single_primary_key_is_written_on_its_column() {
    let mut d = table("t", vec![column("id", "INTEGER", false, 1, 0), column("a", "", false, 0, 0)]);
    d.indexes.pk_cols = names(&["id"]);
    let text = render_table(&d, PLAIN);
    assert_eq!(text, "t table (0 rows):\n  id INTEGER PRIMARY KEY\n  a\n\n");
    assert!(!text.contains("PRIMARY KEY ("));
}

#[test]
fn primary_key_is_written_before_unique_and_indexed() {
    let mut d = table(
        "t",
        vec![column("id", "", false, 1, 0), column("u", "", false, 0, 0), column("x", "", false, 0, 0)],
    );
    d.indexes.pk_cols = names(&["id"]);
    d.indexes.cols_unique = names(&["id", "u", "x"]);
    d.indexes.cols_w_index = names(&["id", "x"]);
    assert_eq!(
        render_table(&d, PLAIN),
        "t table (0 rows):\n  id PRIMARY KEY\n  u UNIQUE\n  x UNIQUE\n\n"
    );
    d.indexes.cols_unique = names(&["u"]);
    assert_eq!(
        render_table(&d, PLAIN),
        "t table (0 rows):\n  id PRIMARY KEY\n  u UNIQUE\n  x indexed\n\n"
    );
}

#[test]
fn single_column_references() {
    let mut d = table("t", vec![column("a", "", false, 0, 0), column("b", "", false, 0, 0)]);
    d.foreign_keys.list = vec![constraint("x", &["a"], &["p"]), constraint("y", &["b"], &[""])];
    assert_eq!(
        render_table(&d, PLAIN),
        "t table (0 rows):\n  a REFERENCES x (p)\n  b REFERENCES y\n\n"
    );
}

#[test]
fn constraints_on_several_columns_have_their_own_lines() {
    let mut d = table("t", vec![column("a", "", false, 0, 0), column("b", "", false, 0, 0)]);
    d.foreign_keys.list = vec![
        constraint("multi_pk", &["a", "b"], &["a", "b"]),
        constraint("x", &["b"], &["q"]),
        constraint("z", &["b", "a"], &["", ""]),
    ];
    assert_eq!(
        render_table(&d, PLAIN),
        "t table (0 rows):\n  a\n  b REFERENCES x (q)\n\
FOREIGN KEY (a, b) REFERENCES multi_pk (a, b)\n\
FOREIGN KEY (b, a) REFERENCES z (, )\n\n"
    );
}

#[test]
fn generated_and_hidden_columns_are_left_out_by_default() {
    let mut stored = column("square", "", false, 0, 3);
    stored.generated_as = Some("a * a".to_string());
    let mut computed = column("hexadec", "TEXT", false, 0, 2);
    computed.generated_as = Some("hex(a)".to_string());
    let d = table("t", vec![column("a", "NUMERIC", false, 0, 0), stored, computed, column("rank", "", false, 0, 1)]);
    assert_eq!(render_table(&d, PLAIN), "t table (0 rows):\n  a NUMERIC\n\n");
    assert_eq!(
        render_table(&d, HIDDEN),
        "t table (0 rows):\n  a NUMERIC\n  square AS (a * a) STORED\n  hexadec TEXT AS (hex(a))\n  rank hidden\n\n"
    );
}

#[test]
fn generated_column_without_an_expression_shows_the_placeholder() {
    let d = table("t", vec![column("g", "", false, 0, 2)]);
    assert_eq!(
        render_table(&d, HIDDEN),
        "t table (0 rows):\n  g AS (<could not get AS expression>)\n\n"
    );
}

#[test]
fn indexes_and_triggers_are_listed_under_headings() {
    let mut d = table("t", vec![column("a", "", false, 0, 0)]);
    d.indexes.other_indexes = vec![
        IndexEntry {
            info: IndexInfo {
                name: "both".to_string(),
                unique: true,
                origin: "c".to_string(),
                partial: false,
            },
            columns: names(&["a", "<expression>"]),
        },
        IndexEntry {
            info: IndexInfo {
                name: "none".to_string(),
                unique: false,
                origin: "c".to_string(),
                partial: true,
            },
            columns: Vec::new(),
        },
    ];
    d.triggers = names(&["audit", "log"]);
    assert_eq!(
        render_table(&d, PLAIN),
        "t table (0 rows):\n  a\nIndexes:\n  both (a, <expression>) UNIQUE\n  none ()\n\
Triggers:\n  audit\n  log\n\n"
    );
}

#[test]
fn styled_table() {
    let mut d = table("t", vec![column("a", "INT", false, 0, 0)]);
    d.strict = true;
    d.indexes.pk_cols = names(&["x", "y"]);
    d.foreign_keys.list = vec![constraint("o", &["a"], &["p"])];
    d.triggers = names(&["tr"]);
    assert_eq!(
        render_table(&d, COLOUR),
        "\u{1b}[1;92mt\u{1b}[0m table (0 rows) [\u{1b}[1mSTRICT\u{1b}[0m]:\n\
\x20\x20\u{1b}[36ma\u{1b}[0m INT REFERENCES \u{1b}[92mo\u{1b}[0m (\u{1b}[36mp\u{1b}[0m)\n\
PRIMARY KEY (\u{1b}[36mx\u{1b}[0m, \u{1b}[36my\u{1b}[0m)\n\
Triggers:\n\
\x20\x20\u{1b}[95mtr\u{1b}[0m\n\n"
    );
}

fn view(name: &str, columns: &[&str], select: Option<&str>) -> ViewDescriptor {
    ViewDescriptor {
        name: name.to_string(),
        columns: columns.iter().map(|c| column(c, "", false, 0, 0).info).collect(),
        nrows: 4,
        select: select.map(|s| s.to_string()),
    }
}

#[test]
fn view_with_its_query() {
    let v = view("v1", &["recip_a"], Some("SELECT (1 / a) FROM t1 WHERE a <> 0"));
    assert_eq!(
        render_view(&v, PLAIN),
        "v1 view (4 rows):\n  recip_a\nAS SELECT (1 / a) FROM t1 WHERE a <> 0\n"
    );
    assert_eq!(render_view(&view("v", &["a", "b"], None), PLAIN), "v view (4 rows):\n  a\n  b\n");
}

#[test]
fn whole_report() {
    let tables = vec![table("t", Vec::new()), table("u", Vec::new())];
    let views = vec![view("v", &["a"], None)];
    assert_eq!(
        render_schema("f.db", &tables, &views, PLAIN),
        "f.db \u{2014} 2 tables\n\nt table (0 rows):\n\nu table (0 rows):\n\nv view (4 rows):\n  a\n"
    );
    assert_eq!(
        render_schema("f.db", &Vec::new(), &Vec::new(), COLOUR),
        "\u{1b}[1mf.db\u{1b}[0m \u{2014} 0 tables\n\n"
    );
}
