use sqlite_glance::catalog::is_system_name;
use sqlite_glance::parse::{
    column_definition, first_parsed, gencol_expr_from, generated_expression, get_gencol_expr,
    view_query_from, view_select, virtual_module_from, virtual_using, ColumnDef, ColumnOption,
    ParseFailure, ParsedStatement,
};
use sqlparser::dialect::SQLiteDialect;
use sqlparser::parser::Parser;

const GEN_COLS: &str = "CREATE TABLE gen_cols (
    a NUMERIC,
    square AS (a * a) STORED,
    hexadec GENERATED ALWAYS AS (hex(a))
)";

const PLACEHOLDER: &str = "<could not get AS expression>";

#[test]
fn stored_expression_is_recovered() {
    assert_eq!(get_gencol_expr(GEN_COLS, "square"), "a * a");
}

#[test]
fn virtual_expression_is_recovered() {
    assert_eq!(get_gencol_expr(GEN_COLS, "hexadec"), "hex(a)");
}

#[test]
fn column_without_generation_gives_the_placeholder() {
    assert_eq!(get_gencol_expr(GEN_COLS, "a"), PLACEHOLDER);
}

#[test]
fn unknown_column_gives_the_placeholder() {
    assert_eq!(get_gencol_expr(GEN_COLS, "nonesuch"), PLACEHOLDER);
    assert_eq!(get_gencol_expr(GEN_COLS, "SQUARE"), PLACEHOLDER);
}

#[test]
fn text_that_does_not_parse_gives_the_placeholder() {
    assert_eq!(get_gencol_expr("CREATE TABLE (((", "a"), PLACEHOLDER);
    assert_eq!(get_gencol_expr("", "a"), PLACEHOLDER);
    assert_eq!(get_gencol_expr("SELECT 1", "a"), PLACEHOLDER);
}

#[test]
fn module_of_a_virtual_table() {
    let sql = "CREATE VIRTUAL TABLE email USING fts5(sender, title, body)";
    assert_eq!(virtual_using("email", sql), Some("fts5".to_owned()));
}

#[test]
fn ordinary_table_has_no_module() {
    assert_eq!(virtual_using("gen_cols", GEN_COLS), None);
    assert_eq!(virtual_using("broken", "CREATE VIRTUAL"), None);
}

#[test]
fn system_tables_are_never_parsed() {
    let sql = "CREATE VIRTUAL TABLE sqlite_x USING fts5(a)";
    assert_eq!(virtual_using("sqlite_x", sql), None);
    assert_eq!(virtual_using("other", sql), Some("fts5".to_owned()));
}

#[test]
fn system_prefix_is_exact() {
    assert!(is_system_name("sqlite_schema"));
    assert!(is_system_name("sqlite_"));
    assert!(!is_system_name("sqlite"));
    assert!(!is_system_name("SQLITE_schema"));
    assert!(!is_system_name("sqliteX"));
    assert!(!is_system_name(""));
}

#[test]
fn query_of_a_view() {
    let sql = "CREATE VIEW v1 (recip_a) AS SELECT (1/a) FROM t1 WHERE a != 0";
    assert_eq!(
        view_select(sql),
        Ok(Some("SELECT (1 / a) FROM t1 WHERE a <> 0".to_owned()))
    );
}

#[test]
fn statement_that_is_no_view_has_no_query() {
    assert_eq!(view_select(GEN_COLS), Ok(None));
    assert_eq!(view_select(""), Ok(None));
}

#[test]
fn view_that_does_not_parse_is_an_error() {
    let r = view_select("CREATE VIEW v AS SELECT FROM FROM");
    let failure = r.unwrap_err();
    assert!(failure.message.starts_with("sql parser error: "));
}

#[test]
fn parse_failure_carries_the_message_of_the_parser() {
    for sql in ["CREATE VIEW v AS SELECT FROM FROM", "CREATE TABLE (((", "SELECT 'unclosed"] {
        let own = Parser::parse_sql(&SQLiteDialect {}, sql).unwrap_err().to_string();
        assert!(!own.is_empty());
        assert_eq!(view_select(sql), Err(ParseFailure { message: own }));
    }
}

#[test]
fn only_the_first_statement_counts() {
    let sql = "SELECT 1; CREATE VIEW v AS SELECT 2";
    assert_eq!(view_select(sql), Ok(None));
    let sql = "CREATE VIEW v AS SELECT 2; SELECT 1";
    assert_eq!(view_select(sql), Ok(Some("SELECT 2".to_owned())));
    let sql = "SELECT 1; CREATE VIRTUAL TABLE e USING fts5(a)";
    assert_eq!(virtual_using("e", sql), None);
    let sql = "CREATE TABLE a (x); CREATE TABLE b (y AS (x + 1))";
    assert_eq!(get_gencol_expr(sql, "y"), PLACEHOLDER);
}

#[test]
fn answers_of_the_parser_are_read_by_their_first_statement() {
    let failed: Result<Vec<ParsedStatement>, String> = Err("boom".to_string());
    assert_eq!(first_parsed(&failed), None);
    assert_eq!(view_query_from(&failed), Err(ParseFailure { message: "boom".to_string() }));
    assert_eq!(virtual_module_from(&failed), None);
    assert_eq!(gencol_expr_from(&failed, "a"), PLACEHOLDER);

    let empty: Result<Vec<ParsedStatement>, String> = Ok(Vec::new());
    assert_eq!(first_parsed(&empty), None);
    assert_eq!(view_query_from(&empty), Ok(None));
    assert_eq!(virtual_module_from(&empty), None);
    assert_eq!(gencol_expr_from(&empty, "a"), PLACEHOLDER);

    let view = Ok(vec![ParsedStatement::View("SELECT 1".to_string()), ParsedStatement::Other]);
    assert_eq!(first_parsed(&view), Some(&ParsedStatement::View("SELECT 1".to_string())));
    assert_eq!(view_query_from(&view), Ok(Some("SELECT 1".to_string())));
    assert_eq!(virtual_module_from(&view), None);

    let later = Ok(vec![ParsedStatement::Other, ParsedStatement::View("SELECT 1".to_string())]);
    assert_eq!(view_query_from(&later), Ok(None));

    let module = Ok(vec![ParsedStatement::VirtualTable("fts5".to_string())]);
    assert_eq!(virtual_module_from(&module), Some("fts5".to_string()));
    assert_eq!(view_query_from(&module), Ok(None));

    let table = Ok(vec![ParsedStatement::Table(vec![column(
        "g",
        vec![ColumnOption::Generated(Some("a + 1".to_string()))],
    )])]);
    assert_eq!(gencol_expr_from(&table, "g"), "a + 1");
    assert_eq!(gencol_expr_from(&table, "h"), PLACEHOLDER);
}

fn column(name: &str, options: Vec<ColumnOption>) -> ColumnDef {
    ColumnDef { name: name.to_string(), options }
}

#[test]
fn first_definition_of_a_name_is_found() {
    let columns = vec![
        column("a", vec![]),
        column("b", vec![ColumnOption::Generated(Some("1".to_string()))]),
        column("b", vec![ColumnOption::Generated(Some("2".to_string()))]),
    ];
    assert_eq!(column_definition(&columns, "b"), Some(&columns[1]));
    assert_eq!(column_definition(&columns, "c"), None);
}

#[test]
fn first_generation_clause_with_an_expression_is_taken() {
    let def = column(
        "x",
        vec![
            ColumnOption::Other,
            ColumnOption::Generated(None),
            ColumnOption::Generated(Some("a + 1".to_string())),
            ColumnOption::Generated(Some("a + 2".to_string())),
        ],
    );
    assert_eq!(generated_expression(&def), Some("a + 1".to_owned()));
    assert_eq!(generated_expression(&column("y", vec![ColumnOption::Other])), None);
}
