//! What the report recovers from an object's stored creation statement: the
//! expression of a generated column, the module of a virtual table and the
//! query of a view.
//!
//! The statement text is parsed by the `sqlparser` crate. Of the syntax tree
//! this module keeps, as plain values, only what its rules read; the rules
//! themselves work on those values.

use vstd::prelude::*;
use sqlparser::ast::ColumnOption::Generated;
use sqlparser::ast::Statement::{CreateTable, CreateView, CreateVirtualTable};
use sqlparser::dialect::SQLiteDialect;
use sqlparser::parser::Parser;
use crate::catalog::{has_system_prefix, is_system_name};
use crate::text::same_text;

verus! {

/// One option of a column definition.
#[derive(Debug, PartialEq)]
pub enum ColumnOption {
    /// A generation clause, with the text of its expression where it has one.
    Generated(Option<String>),
    /// Any other option.
    Other,
}

/// One column definition of a `CREATE TABLE` statement.
#[derive(Debug, PartialEq)]
pub struct ColumnDef {
    pub name: String,
    pub options: Vec<ColumnOption>,
}

/// A parsed statement, as far as this crate looks into it.
#[derive(Debug, PartialEq)]
pub enum ParsedStatement {
    /// A `CREATE TABLE`, with its column definitions.
    Table(Vec<ColumnDef>),
    /// A `CREATE VIRTUAL TABLE`, with the name of its module.
    VirtualTable(String),
    /// A `CREATE VIEW`, with its query as text.
    View(String),
    /// Any other statement.
    Other,
}

pub enum ColumnOptionView {
    Generated(Option<Seq<char>>),
    Other,
}

pub struct ColumnDefView {
    pub name: Seq<char>,
    pub options: Seq<ColumnOptionView>,
}

pub enum StatementView {
    Table(Seq<ColumnDefView>),
    VirtualTable(Seq<char>),
    View(Seq<char>),
    Other,
}

impl View for ColumnOption {
    type V = ColumnOptionView;

    open spec fn view(&self) -> ColumnOptionView {
        match self {
            ColumnOption::Generated(Some(e)) => ColumnOptionView::Generated(Some(e@)),
            ColumnOption::Generated(None) => ColumnOptionView::Generated(None),
            ColumnOption::Other => ColumnOptionView::Other,
        }
    }
}

impl View for ColumnDef {
    type V = ColumnDefView;

    open spec fn view(&self) -> ColumnDefView {
        ColumnDefView {
            name: self.name@,
            options: self.options@.map_values(|o: ColumnOption| o@),
        }
    }
}

impl View for ParsedStatement {
    type V = StatementView;

    open spec fn view(&self) -> StatementView {
        match self {
            ParsedStatement::Table(columns) => StatementView::Table(column_views(columns@)),
            ParsedStatement::VirtualTable(module) => StatementView::VirtualTable(module@),
            ParsedStatement::View(query) => StatementView::View(query@),
            ParsedStatement::Other => StatementView::Other,
        }
    }
}

pub open spec fn column_views(columns: Seq<ColumnDef>) -> Seq<ColumnDefView> {
    columns.map_values(|c: ColumnDef| c@)
}

pub open spec fn statement_views(statements: Seq<ParsedStatement>) -> Seq<StatementView> {
    statements.map_values(|s: ParsedStatement| s@)
}

/// How parsing a text ended.
pub enum Parse {
    /// The text is not valid SQL of the dialect; the parser's message.
    Failed(Seq<char>),
    /// The statements of the text, in order.
    Statements(Seq<StatementView>),
}

/// The outcome of parsing `sql` in the SQLite dialect.
pub uninterp spec fn parse_of(sql: Seq<char>) -> Parse;

/// Calls `sqlparser::parser::Parser::parse_sql` with the SQLite dialect and
/// hands back every statement, reduced to what this crate reads of it: the
/// columns of a `CREATE TABLE` with their options (a generation expression
/// as the text that its `Display` writes), the module of a `CREATE VIRTUAL
/// TABLE`, the query of a `CREATE VIEW` as displayed text. A parser error
/// comes back as the message that its `Display` writes. The contract only
/// names the outcome: the same text parses the same way.
#[verifier::external_body]
fn parse_statements(sql: &str) -> (r: Result<Vec<ParsedStatement>, String>)
    ensures
        r matches Ok(statements) ==> parse_of(sql@) == Parse::Statements(
            statement_views(statements@),
        ),
        r matches Err(message) ==> parse_of(sql@) == Parse::Failed(message@),
{
    let ast = Parser::parse_sql(&SQLiteDialect {}, sql).map_err(|e| e.to_string())?;
    Ok(ast.into_iter().map(|s| match s {
        CreateTable(t) => ParsedStatement::Table(t.columns.into_iter().map(|c| ColumnDef {
            name: c.name.value,
            options: c.options.into_iter().map(|o| match o.option {
                Generated { generation_expr, .. } => ColumnOption::Generated(generation_expr.map(|e| e.to_string())),
                _ => ColumnOption::Other,
            }).collect(),
        }).collect()),
        CreateVirtualTable { module_name, .. } => ParsedStatement::VirtualTable(module_name.value),
        CreateView(v) => ParsedStatement::View(v.query.to_string()),
        _ => ParsedStatement::Other,
    }).collect())
}

/// What is shown where the expression of a generated column cannot be
/// recovered.
pub open spec fn no_expression() -> Seq<char> {
    "<could not get AS expression>"@
}

/// The first definition among `columns` of a column called `name`.
pub open spec fn definition_of(columns: Seq<ColumnDefView>, name: Seq<char>) -> Option<
    ColumnDefView,
>
    decreases columns.len(),
{
    if columns.len() == 0 {
        None
    } else if columns[0].name == name {
        Some(columns[0])
    } else {
        definition_of(columns.skip(1), name)
    }
}

/// The expression of the first option among `options` that is a generation
/// clause with an expression.
pub open spec fn generation_expr(options: Seq<ColumnOptionView>) -> Option<Seq<char>>
    decreases options.len(),
{
    if options.len() == 0 {
        None
    } else if let ColumnOptionView::Generated(Some(e)) = options[0] {
        Some(e)
    } else {
        generation_expr(options.skip(1))
    }
}

/// The first statement of a parsed text, where it parsed and holds one.
pub open spec fn first_statement(parse: Parse) -> Option<StatementView> {
    match parse {
        Parse::Statements(statements) => if statements.len() > 0 {
            Some(statements[0])
        } else {
            None
        },
        Parse::Failed(_) => None,
    }
}

/// The expression shown for the generated column `name` of a table whose
/// creation statement parsed to `parse`.
pub open spec fn gencol_expr_text(parse: Parse, name: Seq<char>) -> Seq<char> {
    match first_statement(parse) {
        Some(StatementView::Table(columns)) => match definition_of(columns, name) {
            Some(def) => match generation_expr(def.options) {
                Some(e) => e,
                None => no_expression(),
            },
            None => no_expression(),
        },
        _ => no_expression(),
    }
}

/// The module that a virtual table uses, where `parse` is the outcome for a
/// `CREATE VIRTUAL TABLE` statement.
pub open spec fn virtual_module(parse: Parse) -> Option<Seq<char>> {
    match first_statement(parse) {
        Some(StatementView::VirtualTable(module)) => Some(module),
        _ => None,
    }
}

/// The query of a view, where `parse` is the outcome for a `CREATE VIEW`
/// statement.
pub open spec fn view_query(parse: Parse) -> Option<Seq<char>> {
    match first_statement(parse) {
        Some(StatementView::View(query)) => Some(query),
        _ => None,
    }
}

/// The outcome of a parse, from what the parser returned.
pub open spec fn outcome(r: Result<Vec<ParsedStatement>, String>) -> Parse {
    match r {
        Ok(statements) => Parse::Statements(statement_views(statements@)),
        Err(message) => Parse::Failed(message@),
    }
}

/// The first statement that the parser returned, where it returned one.
pub fn first_parsed<'a>(parsed: &'a Result<Vec<ParsedStatement>, String>) -> (r: Option<
    &'a ParsedStatement,
>)
    ensures
        match r {
            Some(s) => first_statement(outcome(*parsed)) == Some(s@),
            None => first_statement(outcome(*parsed)) is None,
        },
{
    match parsed {
        Ok(statements) => if statements.len() > 0 {
            Some(&statements[0])
        } else {
            None
        },
        Err(_) => None,
    }
}

/// Finds the definition of the column `col_name`: the first one of that
/// name.
pub fn column_definition<'a>(columns: &'a Vec<ColumnDef>, col_name: &str) -> (r: Option<
    &'a ColumnDef,
>)
    ensures
        match r {
            Some(def) => definition_of(column_views(columns@), col_name@) == Some(def@),
            None => definition_of(column_views(columns@), col_name@) is None,
        },
{
    let ghost all = column_views(columns@);
    let mut i: usize = 0;
    assert(all.skip(0) =~= all);
    while i < columns.len()
        invariant
            i <= columns.len(),
            all == column_views(columns@),
            definition_of(all, col_name@) == definition_of(all.skip(i as int), col_name@),
        decreases columns.len() - i,
    {
        proof {
            assert(all.skip(i as int)[0] == columns@[i as int]@);
            assert(all.skip(i as int).skip(1) =~= all.skip(i + 1));
        }
        if same_text(columns[i].name.as_str(), col_name) {
            return Some(&columns[i]);
        }
        i = i + 1;
    }
    None
}

/// The text of the generation expression among the options of a column: that
/// of the first generation clause that carries one.
pub fn generated_expression(def: &ColumnDef) -> (r: Option<String>)
    ensures
        match r {
            Some(e) => generation_expr(def@.options) == Some(e@),
            None => generation_expr(def@.options) is None,
        },
{
    let ghost all = def@.options;
    let mut i: usize = 0;
    assert(all.skip(0) =~= all);
    while i < def.options.len()
        invariant
            i <= def.options.len(),
            all == def@.options,
            generation_expr(all) == generation_expr(all.skip(i as int)),
        decreases def.options.len() - i,
    {
        proof {
            assert(all.skip(i as int)[0] == def.options@[i as int]@);
            assert(all.skip(i as int).skip(1) =~= all.skip(i + 1));
        }
        if let ColumnOption::Generated(Some(e)) = &def.options[i] {
            return Some(e.clone());
        }
        i = i + 1;
    }
    None
}

/// The expression to show for the generated column `col_name`, given the
/// parser's answer for the table's creation statement. Where the statement
/// did not parse, is no `CREATE TABLE`, has no such column, or the column has
/// no generation clause with an expression, the result is the placeholder
/// `<could not get AS expression>`.
pub fn gencol_expr_from(parsed: &Result<Vec<ParsedStatement>, String>, col_name: &str) -> (r:
    String)
    ensures
        r@ == gencol_expr_text(outcome(*parsed), col_name@),
{
    if let Some(ParsedStatement::Table(columns)) = first_parsed(parsed) {
        if let Some(def) = column_definition(columns, col_name) {
            if let Some(e) = generated_expression(def) {
                return e;
            }
        }
    }
    "<could not get AS expression>".to_owned()
}

/// The module of a virtual table, given the parser's answer for its creation
/// statement; `None` where that is no `CREATE VIRTUAL TABLE`.
pub fn virtual_module_from(parsed: &Result<Vec<ParsedStatement>, String>) -> (r: Option<String>)
    ensures
        match r {
            Some(m) => virtual_module(outcome(*parsed)) == Some(m@),
            None => virtual_module(outcome(*parsed)) is None,
        },
{
    if let Some(ParsedStatement::VirtualTable(module)) = first_parsed(parsed) {
        Some(module.clone())
    } else {
        None
    }
}

/// Why the query of a view could not be read.
#[derive(Debug, PartialEq)]
pub struct ParseFailure {
    /// The parser's message.
    pub message: String,
}

/// The query of a view, given the parser's answer for its creation
/// statement; `None` where that is no `CREATE VIEW`. A statement that did not
/// parse is an error, which carries the parser's message.
pub fn view_query_from(parsed: &Result<Vec<ParsedStatement>, String>) -> (r: Result<
    Option<String>,
    ParseFailure,
>)
    ensures
        match r {
            Ok(Some(q)) => view_query(outcome(*parsed)) == Some(q@) && outcome(*parsed)
                is Statements,
            Ok(None) => view_query(outcome(*parsed)) is None && outcome(*parsed) is Statements,
            Err(f) => outcome(*parsed) == Parse::Failed(f.message@),
        },
{
    if let Err(message) = parsed {
        return Err(ParseFailure { message: message.clone() });
    }
    if let Some(ParsedStatement::View(query)) = first_parsed(parsed) {
        Ok(Some(query.clone()))
    } else {
        Ok(None)
    }
}

/// Finds and formats the expression of the generated column `col_name` in
/// the creation statement `create_sql`. Best effort: whatever goes wrong, the
/// result is the placeholder.
pub fn get_gencol_expr(create_sql: &str, col_name: &str) -> (r: String)
    ensures
        r@ == gencol_expr_text(parse_of(create_sql@), col_name@),
{
    let parsed = parse_statements(create_sql);
    gencol_expr_from(&parsed, col_name)
}

/// The name of the module that the virtual table `name` uses, read from its
/// creation statement. The engine's own tables are never looked at; for any
/// other table the statement is parsed, and a failure to parse counts as "not
/// virtual".
pub fn virtual_using(name: &str, create_sql: &str) -> (r: Option<String>)
    ensures
        match r {
            Some(m) => !has_system_prefix(name@) && virtual_module(parse_of(create_sql@))
                == Some(m@),
            None => has_system_prefix(name@) || virtual_module(parse_of(create_sql@)) is None,
        },
{
    if is_system_name(name) {
        return None;
    }
    let parsed = parse_statements(create_sql);
    virtual_module_from(&parsed)
}

/// The query of the view that `create_sql` creates, as text; `None` where the
/// statement is no `CREATE VIEW`. A text that does not parse is an error,
/// which carries the parser's message.
pub fn view_select(create_sql: &str) -> (r: Result<Option<String>, ParseFailure>)
    ensures
        match r {
            Ok(Some(q)) => view_query(parse_of(create_sql@)) == Some(q@) && parse_of(create_sql@)
                is Statements,
            Ok(None) => view_query(parse_of(create_sql@)) is None && parse_of(create_sql@)
                is Statements,
            Err(f) => parse_of(create_sql@) == Parse::Failed(f.message@),
        },
{
    let parsed = parse_statements(create_sql);
    view_query_from(&parsed)
}

} // verus!
