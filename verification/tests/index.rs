use sqlite_glance::catalog::{ColumnInfo, IndexInfo};
use sqlite_glance::index::{
    classify_indexes, column_annotation, contains_name, flagged_columns, Annotation, IndexEntry,
};

fn column(name: &str, pk: u8) -> ColumnInfo {
    ColumnInfo { name: name.to_string(), dtype: String::new(), notnull: false, pk, hidden: 0 }
}

fn entry(name: &str, unique: bool, origin: &str, columns: &[&str]) -> IndexEntry {
    IndexEntry {
        info: IndexInfo {
            name: name.to_string(),
            unique,
            origin: origin.to_string(),
            partial: false,
        },
        columns: columns.iter().map(|s| s.to_string()).collect(),
    }
}

#[test]
fn composite_primary_key_keeps_declared_order() {
    let columns = vec![column("a", 2), column("b", 1), column("c", 0)];
    let entries = vec![entry("sqlite_autoindex_multi_pk_1", true, "pk", &["b", "a"])];
    let classes = classify_indexes(&entries, &columns);
    assert_eq!(classes.pk_cols, ["b", "a"]);
    assert!(classes.cols_unique.is_empty());
    assert!(classes.cols_w_index.is_empty());
    assert!(classes.other_indexes.is_empty());
    for col in &columns {
        assert_eq!(column_annotation(col, &classes), Annotation::Plain);
    }
}

#[test]
fn rowid_primary_key_falls_back_to_the_column_flag() {
    let columns = vec![column("id", 1), column("a", 0)];
    let classes = classify_indexes(&Vec::new(), &columns);
    assert_eq!(classes.pk_cols, ["id"]);
    assert_eq!(column_annotation(&columns[0], &classes), Annotation::PrimaryKey);
    assert_eq!(column_annotation(&columns[1], &classes), Annotation::Plain);
}

#[test]
fn no_fallback_with_several_flagged_columns() {
    let columns = vec![column("a", 1), column("b", 2)];
    let classes = classify_indexes(&Vec::new(), &columns);
    assert!(classes.pk_cols.is_empty());
    assert_eq!(column_annotation(&columns[0], &classes), Annotation::Plain);
    assert_eq!(column_annotation(&columns[1], &classes), Annotation::Plain);
}

#[test]
fn no_fallback_with_a_primary_key_index() {
    let columns = vec![column("a", 1), column("b", 0)];
    let entries = vec![entry("pk", true, "pk", &["b"])];
    let classes = classify_indexes(&entries, &columns);
    assert_eq!(classes.pk_cols, ["b"]);
}

#[test]
fn single_column_indexes_mark_their_column() {
    let columns = vec![column("a", 0), column("b", 0), column("c", 0)];
    let entries = vec![
        entry("u", true, "u", &["a"]),
        entry("c", false, "c", &["b"]),
    ];
    let classes = classify_indexes(&entries, &columns);
    assert!(classes.pk_cols.is_empty());
    assert_eq!(classes.cols_unique, ["a"]);
    assert_eq!(classes.cols_w_index, ["b"]);
    assert!(classes.other_indexes.is_empty());
    assert_eq!(column_annotation(&columns[0], &classes), Annotation::Unique);
    assert_eq!(column_annotation(&columns[1], &classes), Annotation::Indexed);
    assert_eq!(column_annotation(&columns[2], &classes), Annotation::Plain);
}

#[test]
fn other_indexes_keep_catalog_order() {
    let entries = vec![
        entry("second", false, "c", &["b", "a"]),
        entry("one", true, "c", &["a"]),
        entry("first", true, "u", &["a", "c"]),
        entry("expr", false, "c", &[]),
    ];
    let classes = classify_indexes(&entries, &Vec::new());
    let names: Vec<&str> = classes.other_indexes.iter().map(|e| e.info.name.as_str()).collect();
    assert_eq!(names, ["second", "first", "expr"]);
    assert_eq!(classes.other_indexes[0], entries[0]);
    assert_eq!(classes.cols_unique, ["a"]);
}

#[test]
fn last_primary_key_index_wins() {
    let entries = vec![entry("older", true, "pk", &["a"]), entry("newer", true, "pk", &["b", "c"])];
    let classes = classify_indexes(&entries, &Vec::new());
    assert_eq!(classes.pk_cols, ["b", "c"]);
}

#[test]
fn primary_key_takes_precedence_over_unique() {
    let columns = vec![column("a", 1)];
    let entries = vec![entry("pk", true, "pk", &["a"]), entry("u", true, "u", &["a"])];
    let classes = classify_indexes(&entries, &columns);
    assert_eq!(classes.cols_unique, ["a"]);
    assert_eq!(column_annotation(&columns[0], &classes), Annotation::PrimaryKey);
}

#[test]
fn unique_takes_precedence_over_indexed() {
    let columns = vec![column("a", 0)];
    let entries = vec![entry("c", false, "c", &["a"]), entry("u", true, "u", &["a"])];
    let classes = classify_indexes(&entries, &columns);
    assert_eq!(column_annotation(&columns[0], &classes), Annotation::Unique);
}

#[test]
fn names_are_found_by_exact_text() {
    let names = vec!["a".to_string(), "Bc".to_string()];
    assert!(contains_name(&names, "a"));
    assert!(contains_name(&names, "Bc"));
    assert!(!contains_name(&names, "bc"));
    assert!(!contains_name(&Vec::new(), "a"));
}

#[test]
fn flagged_columns_are_listed_in_column_order() {
    let columns = vec![column("a", 2), column("b", 0), column("c", 1)];
    assert_eq!(flagged_columns(&columns), ["a", "c"]);
}
