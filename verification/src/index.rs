//! Sorting a table's indexes into those that annotate a column, the one
//! that makes the primary key, and those that are listed by themselves.

use vstd::prelude::*;
use crate::catalog::{ColumnInfo, IndexInfo};
use crate::text::{clone_strings, same_text, texts};

verus! {

/// One index with the names of its key columns, in key order.
#[derive(Debug, PartialEq)]
pub struct IndexEntry {
    pub info: IndexInfo,
    pub columns: Vec<String>,
}

pub struct IndexEntryView {
    pub name: Seq<char>,
    pub unique: bool,
    pub origin: Seq<char>,
    pub partial: bool,
    pub columns: Seq<Seq<char>>,
}

impl View for IndexEntry {
    type V = IndexEntryView;

    open spec fn view(&self) -> IndexEntryView {
        IndexEntryView {
            name: self.info.name@,
            unique: self.info.unique,
            origin: self.info.origin@,
            partial: self.info.partial,
            columns: texts(self.columns@),
        }
    }
}

impl Clone for IndexEntry {
    fn clone(&self) -> (c: Self)
        ensures
            c@ == self@,
    {
        IndexEntry { info: self.info.clone(), columns: clone_strings(&self.columns) }
    }
}

pub open spec fn entry_views(entries: Seq<IndexEntry>) -> Seq<IndexEntryView> {
    entries.map_values(|e: IndexEntry| e@)
}

/// The indexes of one table, sorted.
#[derive(Debug, PartialEq)]
pub struct IndexClasses {
    /// The columns of the primary key, in key order.
    pub pk_cols: Vec<String>,
    /// The columns that a unique index covers alone.
    pub cols_unique: Vec<String>,
    /// The columns that an index which is not unique covers alone.
    pub cols_w_index: Vec<String>,
    /// The indexes on no or several columns, in catalog order.
    pub other_indexes: Vec<IndexEntry>,
}

/// The index that the primary key made.
pub open spec fn is_pk_index(e: IndexEntryView) -> bool {
    e.origin == "pk"@
}

/// A unique index on one column, other than the primary key's.
pub open spec fn marks_unique(e: IndexEntryView) -> bool {
    !is_pk_index(e) && e.columns.len() == 1 && e.unique
}

/// An index on one column that is neither unique nor the primary key's.
pub open spec fn marks_indexed(e: IndexEntryView) -> bool {
    !is_pk_index(e) && e.columns.len() == 1 && !e.unique
}

/// An index that is listed by itself.
pub open spec fn is_listed(e: IndexEntryView) -> bool {
    !is_pk_index(e) && e.columns.len() != 1
}

/// The columns of the primary-key index: of the last one, should the catalog
/// report several. `None` where it reports none.
pub open spec fn pk_index_columns(entries: Seq<IndexEntryView>) -> Option<Seq<Seq<char>>>
    decreases entries.len(),
{
    if entries.len() == 0 {
        None
    } else if is_pk_index(entries.last()) {
        Some(entries.last().columns)
    } else {
        pk_index_columns(entries.drop_last())
    }
}

/// The names of the columns that the catalog flags as part of the primary
/// key, in column order.
pub open spec fn key_members(columns: Seq<ColumnInfo>) -> Seq<Seq<char>> {
    columns.filter(|c: ColumnInfo| c.pk > 0).map_values(|c: ColumnInfo| c.name@)
}

/// The columns of the primary key: those of its index; without such an
/// index, the one column that the catalog flags, if it flags exactly one.
pub open spec fn pk_columns(entries: Seq<IndexEntryView>, columns: Seq<ColumnInfo>) -> Seq<
    Seq<char>,
> {
    match pk_index_columns(entries) {
        Some(cols) => cols,
        None => if key_members(columns).len() == 1 {
            key_members(columns)
        } else {
            Seq::empty()
        },
    }
}

/// The columns that are marked unique.
pub open spec fn unique_columns(entries: Seq<IndexEntryView>) -> Seq<Seq<char>> {
    entries.filter(|e: IndexEntryView| marks_unique(e)).map_values(|e: IndexEntryView| e.columns[0])
}

/// The columns that are marked indexed.
pub open spec fn indexed_columns(entries: Seq<IndexEntryView>) -> Seq<Seq<char>> {
    entries.filter(|e: IndexEntryView| marks_indexed(e)).map_values(
        |e: IndexEntryView| e.columns[0],
    )
}

/// The indexes that are listed by themselves, in catalog order.
pub open spec fn listed_indexes(entries: Seq<IndexEntryView>) -> Seq<IndexEntryView> {
    entries.filter(|e: IndexEntryView| is_listed(e))
}

/// What is written behind a column about keys and indexes.
#[derive(Clone, Copy, Debug, PartialEq, Eq, Structural)]
pub enum Annotation {
    PrimaryKey,
    Unique,
    Indexed,
    Plain,
}

/// The annotation of a column. The primary key comes first: a column that is
/// the whole primary key is never marked unique or indexed. A column of a
/// primary key on several columns is not marked as key: the key has a line
/// of its own.
pub open spec fn annotation_of(
    col: ColumnInfo,
    pk: Seq<Seq<char>>,
    unique: Seq<Seq<char>>,
    indexed: Seq<Seq<char>>,
) -> Annotation {
    if col.pk > 0 && pk.len() == 1 {
        Annotation::PrimaryKey
    } else if unique.contains(col.name@) {
        Annotation::Unique
    } else if indexed.contains(col.name@) {
        Annotation::Indexed
    } else {
        Annotation::Plain
    }
}

/// Whether the primary key gets a line of its own.
pub open spec fn has_composite_key(pk: Seq<Seq<char>>) -> bool {
    pk.len() > 1
}

/// With a primary key on several columns, no column is annotated as primary
/// key, and the key has its own line.
pub proof fn lemma_composite_key_has_its_own_line(
    col: ColumnInfo,
    pk: Seq<Seq<char>>,
    unique: Seq<Seq<char>>,
    indexed: Seq<Seq<char>>,
)
    requires
        pk.len() > 1,
    ensures
        annotation_of(col, pk, unique, indexed) != Annotation::PrimaryKey,
        has_composite_key(pk),
{
}

/// With a primary key on one column, every column that the catalog flags as
/// part of the key is annotated as primary key, whatever else indexes it, and
/// there is no line for the key.
pub proof fn lemma_single_key_is_annotated(
    col: ColumnInfo,
    pk: Seq<Seq<char>>,
    unique: Seq<Seq<char>>,
    indexed: Seq<Seq<char>>,
)
    requires
        pk.len() == 1,
        col.pk > 0,
    ensures
        annotation_of(col, pk, unique, indexed) == Annotation::PrimaryKey,
        !has_composite_key(pk),
{
}

/// A table without a primary-key index in which the catalog flags exactly
/// one column has that column as its primary key.
pub proof fn lemma_rowid_key_falls_back_to_flag(
    entries: Seq<IndexEntryView>,
    columns: Seq<ColumnInfo>,
)
    requires
        pk_index_columns(entries) is None,
        key_members(columns).len() == 1,
    ensures
        pk_columns(entries, columns) == key_members(columns),
        pk_columns(entries, columns).len() == 1,
{
}

/// Whether `name` is among `names`.
pub fn contains_name(names: &Vec<String>, name: &str) -> (r: bool)
    ensures
        r == texts(names@).contains(name@),
{
    let mut i: usize = 0;
    while i < names.len()
        invariant
            i <= names.len(),
            forall|j: int| 0 <= j < i ==> texts(names@)[j] != name@,
        decreases names.len() - i,
    {
        if same_text(names[i].as_str(), name) {
            assert(texts(names@)[i as int] == name@);
            return true;
        }
        i = i + 1;
    }
    false
}

/// The names of the columns that the catalog flags as part of the primary
/// key, in column order.
pub fn flagged_columns(columns: &Vec<ColumnInfo>) -> (r: Vec<String>)
    ensures
        texts(r@) == key_members(columns@),
{
    let ghost pred = |c: ColumnInfo| c.pk > 0;
    let ghost name = |c: ColumnInfo| c.name@;
    let mut r: Vec<String> = Vec::new();
    let mut i: usize = 0;
    proof {
        reveal(Seq::filter);
        assert(columns@.take(0).filter(pred) =~= Seq::empty());
        assert(texts(r@) =~= columns@.take(0).filter(pred).map_values(name));
    }
    while i < columns.len()
        invariant
            i <= columns.len(),
            pred == |c: ColumnInfo| c.pk > 0,
            name == |c: ColumnInfo| c.name@,
            texts(r@) == columns@.take(i as int).filter(pred).map_values(name),
        decreases columns.len() - i,
    {
        let col = &columns[i];
        let ghost seen = texts(r@);
        let ghost kept = columns@.take(i as int).filter(pred);
        proof {
            columns@.take(i as int).lemma_filter_push(columns@[i as int], pred);
            assert(columns@.take(i as int).push(columns@[i as int]) =~= columns@.take(i + 1));
        }
        if col.pk > 0 {
            r.push(col.name.clone());
            proof {
                assert(texts(r@) =~= seen.push(col.name@));
                assert(kept.push(*col).map_values(name) =~= kept.map_values(name).push(col.name@));
            }
        }
        i = i + 1;
    }
    proof {
        assert(columns@.take(i as int) =~= columns@);
    }
    r
}

/// Sorts the indexes of a table in one pass. The index that the primary key
/// made gives the key's columns (the last one wins, should there be
/// several); an index on one column marks that column unique or indexed;
/// every other index is listed by itself, in catalog order. Where no index
/// comes from the primary key and the catalog flags exactly one of `columns`
/// as part of the key, that column is the key.
pub fn classify_indexes(entries: &Vec<IndexEntry>, columns: &Vec<ColumnInfo>) -> (r: IndexClasses)
    ensures
        texts(r.pk_cols@) == pk_columns(entry_views(entries@), columns@),
        texts(r.cols_unique@) == unique_columns(entry_views(entries@)),
        texts(r.cols_w_index@) == indexed_columns(entry_views(entries@)),
        entry_views(r.other_indexes@) == listed_indexes(entry_views(entries@)),
{
    let ghost all = entry_views(entries@);
    let ghost p_unique = |e: IndexEntryView| marks_unique(e);
    let ghost p_indexed = |e: IndexEntryView| marks_indexed(e);
    let ghost p_listed = |e: IndexEntryView| is_listed(e);
    let ghost first = |e: IndexEntryView| e.columns[0];
    let mut pk_cols: Vec<String> = Vec::new();
    let mut has_pk_index = false;
    let mut cols_unique: Vec<String> = Vec::new();
    let mut cols_w_index: Vec<String> = Vec::new();
    let mut other_indexes: Vec<IndexEntry> = Vec::new();
    let mut i: usize = 0;
    proof {
        reveal(Seq::filter);
        assert(all.take(0).filter(p_unique) =~= Seq::empty());
        assert(all.take(0).filter(p_indexed) =~= Seq::empty());
        assert(all.take(0).filter(p_listed) =~= Seq::empty());
        assert(texts(cols_unique@) =~= all.take(0).filter(p_unique).map_values(first));
        assert(texts(cols_w_index@) =~= all.take(0).filter(p_indexed).map_values(first));
        assert(entry_views(other_indexes@) =~= all.take(0).filter(p_listed));
    }
    while i < entries.len()
        invariant
            i <= entries.len(),
            all == entry_views(entries@),
            p_unique == |e: IndexEntryView| marks_unique(e),
            p_indexed == |e: IndexEntryView| marks_indexed(e),
            p_listed == |e: IndexEntryView| is_listed(e),
            first == |e: IndexEntryView| e.columns[0],
            has_pk_index == (pk_index_columns(all.take(i as int)) is Some),
            has_pk_index ==> pk_index_columns(all.take(i as int)) == Some(texts(pk_cols@)),
            texts(cols_unique@) == all.take(i as int).filter(p_unique).map_values(first),
            texts(cols_w_index@) == all.take(i as int).filter(p_indexed).map_values(first),
            entry_views(other_indexes@) == all.take(i as int).filter(p_listed),
        decreases entries.len() - i,
    {
        let entry = &entries[i];
        let ghost e = entry@;
        let ghost seen = all.take(i as int);
        let ghost u = texts(cols_unique@);
        let ghost x = texts(cols_w_index@);
        let ghost o = entry_views(other_indexes@);
        proof {
            assert(all[i as int] == e);
            seen.lemma_filter_push(e, p_unique);
            seen.lemma_filter_push(e, p_indexed);
            seen.lemma_filter_push(e, p_listed);
            assert(seen.push(e) =~= all.take(i + 1));
            assert(all.take(i + 1).drop_last() =~= seen);
            assert(all.take(i + 1).last() == e);
        }
        if same_text(entry.info.origin.as_str(), "pk") {
            pk_cols = clone_strings(&entry.columns);
            has_pk_index = true;
        } else if entry.columns.len() == 1 {
            if entry.info.unique {
                cols_unique.push(entry.columns[0].clone());
                proof {
                    assert(texts(cols_unique@) =~= u.push(e.columns[0]));
                    assert(seen.filter(p_unique).push(e).map_values(first) =~= seen.filter(
                        p_unique,
                    ).map_values(first).push(e.columns[0]));
                }
            } else {
                cols_w_index.push(entry.columns[0].clone());
                proof {
                    assert(texts(cols_w_index@) =~= x.push(e.columns[0]));
                    assert(seen.filter(p_indexed).push(e).map_values(first) =~= seen.filter(
                        p_indexed,
                    ).map_values(first).push(e.columns[0]));
                }
            }
        } else {
            other_indexes.push(entry.clone());
            proof {
                assert(entry_views(other_indexes@) =~= o.push(e));
            }
        }
        i = i + 1;
    }
    proof {
        assert(all.take(i as int) =~= all);
    }
    if !has_pk_index {
        let flagged = flagged_columns(columns);
        if flagged.len() == 1 {
            pk_cols = flagged;
        } else {
            pk_cols = Vec::new();
            assert(texts(pk_cols@) =~= Seq::empty());
        }
    }
    IndexClasses { pk_cols, cols_unique, cols_w_index, other_indexes }
}

/// The annotation of `col` in a table whose indexes sorted to `classes`.
pub fn column_annotation(col: &ColumnInfo, classes: &IndexClasses) -> (r: Annotation)
    ensures
        r == annotation_of(
            *col,
            texts(classes.pk_cols@),
            texts(classes.cols_unique@),
            texts(classes.cols_w_index@),
        ),
{
    if col.pk > 0 && classes.pk_cols.len() == 1 {
        Annotation::PrimaryKey
    } else if contains_name(&classes.cols_unique, col.name.as_str()) {
        Annotation::Unique
    } else if contains_name(&classes.cols_w_index, col.name.as_str()) {
        Annotation::Indexed
    } else {
        Annotation::Plain
    }
}

} // verus!
