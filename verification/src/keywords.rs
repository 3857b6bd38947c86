//! The reserved words of the SQL dialect.

use vstd::prelude::*;
use crate::text::{ascii_upper, chars_of, same_text, string_of, to_ascii_upper};

verus! {

/// How many reserved words the dialect has.
pub const KEYWORD_COUNT: usize = 147;

/// The reserved word at position `i` of the dialect's alphabetical list, in
/// upper case; empty outside the list.
pub open spec fn keyword_at(i: usize) -> Seq<char> {
    match i {
        0 => "ABORT"@,
        1 => "ACTION"@,
        2 => "ADD"@,
        3 => "AFTER"@,
        4 => "ALL"@,
        5 => "ALTER"@,
        6 => "ALWAYS"@,
        7 => "ANALYZE"@,
        8 => "AND"@,
        9 => "AS"@,
        10 => "ASC"@,
        11 => "ATTACH"@,
        12 => "AUTOINCREMENT"@,
        13 => "BEFORE"@,
        14 => "BEGIN"@,
        15 => "BETWEEN"@,
        16 => "BY"@,
        17 => "CASCADE"@,
        18 => "CASE"@,
        19 => "CAST"@,
        20 => "CHECK"@,
        21 => "COLLATE"@,
        22 => "COLUMN"@,
        23 => "COMMIT"@,
        24 => "CONFLICT"@,
        25 => "CONSTRAINT"@,
        26 => "CREATE"@,
        27 => "CROSS"@,
        28 => "CURRENT"@,
        29 => "CURRENT_DATE"@,
        30 => "CURRENT_TIME"@,
        31 => "CURRENT_TIMESTAMP"@,
        32 => "DATABASE"@,
        33 => "DEFAULT"@,
        34 => "DEFERRABLE"@,
        35 => "DEFERRED"@,
        36 => "DELETE"@,
        37 => "DESC"@,
        38 => "DETACH"@,
        39 => "DISTINCT"@,
        40 => "DO"@,
        41 => "DROP"@,
        42 => "EACH"@,
        43 => "ELSE"@,
        44 => "END"@,
        45 => "ESCAPE"@,
        46 => "EXCEPT"@,
        47 => "EXCLUDE"@,
        48 => "EXCLUSIVE"@,
        49 => "EXISTS"@,
        50 => "EXPLAIN"@,
        51 => "FAIL"@,
        52 => "FILTER"@,
        53 => "FIRST"@,
        54 => "FOLLOWING"@,
        55 => "FOR"@,
        56 => "FOREIGN"@,
        57 => "FROM"@,
        58 => "FULL"@,
        59 => "GENERATED"@,
        60 => "GLOB"@,
        61 => "GROUP"@,
        62 => "GROUPS"@,
        63 => "HAVING"@,
        64 => "IF"@,
        65 => "IGNORE"@,
        66 => "IMMEDIATE"@,
        67 => "IN"@,
        68 => "INDEX"@,
        69 => "INDEXED"@,
        70 => "INITIALLY"@,
        71 => "INNER"@,
        72 => "INSERT"@,
        73 => "INSTEAD"@,
        74 => "INTERSECT"@,
        75 => "INTO"@,
        76 => "IS"@,
        77 => "ISNULL"@,
        78 => "JOIN"@,
        79 => "KEY"@,
        80 => "LAST"@,
        81 => "LEFT"@,
        82 => "LIKE"@,
        83 => "LIMIT"@,
        84 => "MATCH"@,
        85 => "MATERIALIZED"@,
        86 => "NATURAL"@,
        87 => "NO"@,
        88 => "NOT"@,
        89 => "NOTHING"@,
        90 => "NOTNULL"@,
        91 => "NULL"@,
        92 => "NULLS"@,
        93 => "OF"@,
        94 => "OFFSET"@,
        95 => "ON"@,
        96 => "OR"@,
        97 => "ORDER"@,
        98 => "OTHERS"@,
        99 => "OUTER"@,
        100 => "OVER"@,
        101 => "PARTITION"@,
        102 => "PLAN"@,
        103 => "PRAGMA"@,
        104 => "PRECEDING"@,
        105 => "PRIMARY"@,
        106 => "QUERY"@,
        107 => "RAISE"@,
        108 => "RANGE"@,
        109 => "RECURSIVE"@,
        110 => "REFERENCES"@,
        111 => "REGEXP"@,
        112 => "REINDEX"@,
        113 => "RELEASE"@,
        114 => "RENAME"@,
        115 => "REPLACE"@,
        116 => "RESTRICT"@,
        117 => "RETURNING"@,
        118 => "RIGHT"@,
        119 => "ROLLBACK"@,
        120 => "ROW"@,
        121 => "ROWS"@,
        122 => "SAVEPOINT"@,
        123 => "SELECT"@,
        124 => "SET"@,
        125 => "TABLE"@,
        126 => "TEMP"@,
        127 => "TEMPORARY"@,
        128 => "THEN"@,
        129 => "TIES"@,
        130 => "TO"@,
        131 => "TRANSACTION"@,
        132 => "TRIGGER"@,
        133 => "UNBOUNDED"@,
        134 => "UNION"@,
        135 => "UNIQUE"@,
        136 => "UPDATE"@,
        137 => "USING"@,
        138 => "VACUUM"@,
        139 => "VALUES"@,
        140 => "VIEW"@,
        141 => "VIRTUAL"@,
        142 => "WHEN"@,
        143 => "WHERE"@,
        144 => "WINDOW"@,
        145 => "WITH"@,
        146 => "WITHOUT"@,
        _ => Seq::empty(),
    }
}

/// `s` with every ASCII lower-case letter replaced by its upper-case form.
pub open spec fn upper(s: Seq<char>) -> Seq<char> {
    s.map_values(|c: char| ascii_upper(c))
}

/// Whether `s` is a reserved word, letter case ignored.
pub open spec fn is_keyword_text(s: Seq<char>) -> bool {
    exists|i: usize| i < KEYWORD_COUNT && #[trigger] keyword_at(i) == upper(s)
}

fn keyword(i: usize) -> (k: &'static str)
    requires
        i < KEYWORD_COUNT,
    ensures
        k@ == keyword_at(i),
{
    match i {
        0 => "ABORT",
        1 => "ACTION",
        2 => "ADD",
        3 => "AFTER",
        4 => "ALL",
        5 => "ALTER",
        6 => "ALWAYS",
        7 => "ANALYZE",
        8 => "AND",
        9 => "AS",
        10 => "ASC",
        11 => "ATTACH",
        12 => "AUTOINCREMENT",
        13 => "BEFORE",
        14 => "BEGIN",
        15 => "BETWEEN",
        16 => "BY",
        17 => "CASCADE",
        18 => "CASE",
        19 => "CAST",
        20 => "CHECK",
        21 => "COLLATE",
        22 => "COLUMN",
        23 => "COMMIT",
        24 => "CONFLICT",
        25 => "CONSTRAINT",
        26 => "CREATE",
        27 => "CROSS",
        28 => "CURRENT",
        29 => "CURRENT_DATE",
        30 => "CURRENT_TIME",
        31 => "CURRENT_TIMESTAMP",
        32 => "DATABASE",
        33 => "DEFAULT",
        34 => "DEFERRABLE",
        35 => "DEFERRED",
        36 => "DELETE",
        37 => "DESC",
        38 => "DETACH",
        39 => "DISTINCT",
        40 => "DO",
        41 => "DROP",
        42 => "EACH",
        43 => "ELSE",
        44 => "END",
        45 => "ESCAPE",
        46 => "EXCEPT",
        47 => "EXCLUDE",
        48 => "EXCLUSIVE",
        49 => "EXISTS",
        50 => "EXPLAIN",
        51 => "FAIL",
        52 => "FILTER",
        53 => "FIRST",
        54 => "FOLLOWING",
        55 => "FOR",
        56 => "FOREIGN",
        57 => "FROM",
        58 => "FULL",
        59 => "GENERATED",
        60 => "GLOB",
        61 => "GROUP",
        62 => "GROUPS",
        63 => "HAVING",
        64 => "IF",
        65 => "IGNORE",
        66 => "IMMEDIATE",
        67 => "IN",
        68 => "INDEX",
        69 => "INDEXED",
        70 => "INITIALLY",
        71 => "INNER",
        72 => "INSERT",
        73 => "INSTEAD",
        74 => "INTERSECT",
        75 => "INTO",
        76 => "IS",
        77 => "ISNULL",
        78 => "JOIN",
        79 => "KEY",
        80 => "LAST",
        81 => "LEFT",
        82 => "LIKE",
        83 => "LIMIT",
        84 => "MATCH",
        85 => "MATERIALIZED",
        86 => "NATURAL",
        87 => "NO",
        88 => "NOT",
        89 => "NOTHING",
        90 => "NOTNULL",
        91 => "NULL",
        92 => "NULLS",
        93 => "OF",
        94 => "OFFSET",
        95 => "ON",
        96 => "OR",
        97 => "ORDER",
        98 => "OTHERS",
        99 => "OUTER",
        100 => "OVER",
        101 => "PARTITION",
        102 => "PLAN",
        103 => "PRAGMA",
        104 => "PRECEDING",
        105 => "PRIMARY",
        106 => "QUERY",
        107 => "RAISE",
        108 => "RANGE",
        109 => "RECURSIVE",
        110 => "REFERENCES",
        111 => "REGEXP",
        112 => "REINDEX",
        113 => "RELEASE",
        114 => "RENAME",
        115 => "REPLACE",
        116 => "RESTRICT",
        117 => "RETURNING",
        118 => "RIGHT",
        119 => "ROLLBACK",
        120 => "ROW",
        121 => "ROWS",
        122 => "SAVEPOINT",
        123 => "SELECT",
        124 => "SET",
        125 => "TABLE",
        126 => "TEMP",
        127 => "TEMPORARY",
        128 => "THEN",
        129 => "TIES",
        130 => "TO",
        131 => "TRANSACTION",
        132 => "TRIGGER",
        133 => "UNBOUNDED",
        134 => "UNION",
        135 => "UNIQUE",
        136 => "UPDATE",
        137 => "USING",
        138 => "VACUUM",
        139 => "VALUES",
        140 => "VIEW",
        141 => "VIRTUAL",
        142 => "WHEN",
        143 => "WHERE",
        144 => "WINDOW",
        145 => "WITH",
        146 => "WITHOUT",
        _ => "",
    }
}

fn to_upper(name: &str) -> (r: String)
    ensures
        r@ == upper(name@),
{
    let chars = chars_of(name);
    let mut up: Vec<char> = Vec::new();
    let mut i: usize = 0;
    while i < chars.len()
        invariant
            i <= chars.len(),
            chars@ == name@,
            up@ == upper(name@.take(i as int)),
        decreases chars.len() - i,
    {
        up.push(to_ascii_upper(chars[i]));
        i = i + 1;
        assert(up@ =~= upper(name@.take(i as int)));
    }
    assert(name@.take(i as int) =~= name@);
    string_of(&up)
}

/// Whether `name` is a reserved word of the dialect, whatever the case of its
/// letters.
pub fn is_keyword(name: &str) -> (r: bool)
    ensures
        r == is_keyword_text(name@),
{
    let up = to_upper(name);
    let mut i: usize = 0;
    while i < KEYWORD_COUNT
        invariant
            i <= KEYWORD_COUNT,
            up@ == upper(name@),
            forall|j: usize| j < i ==> #[trigger] keyword_at(j) != upper(name@),
        decreases KEYWORD_COUNT - i,
    {
        if same_text(keyword(i), up.as_str()) {
            return true;
        }
        i = i + 1;
    }
    false
}

} // verus!
