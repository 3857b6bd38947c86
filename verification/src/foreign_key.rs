//! Foreign-key constraints, rebuilt from the catalog's flat row list.
//!
//! The catalog reports one row per column per constraint, the rows of one
//! constraint next to each other. [`ForeignKeys::from_rows`] merges each run
//! of rows that share a constraint id into one [`ForeignKeyInfo`]; it does not
//! sort.

use vstd::prelude::*;
use crate::text::{clone_strings, same_text, texts};

verus! {

/// One row of the catalog's foreign-key list.
#[derive(Debug)]
pub struct ForeignKeyRow {
    /// The id that the catalog gave the constraint.
    pub id: i32,
    /// The table that the constraint refers to.
    pub table: String,
    /// The column of this table.
    pub from: String,
    /// The column of the other table; `None` for its rowid or primary key.
    pub to: Option<String>,
    pub on_update: String,
    pub on_delete: String,
}

pub struct ForeignKeyRowView {
    pub id: int,
    pub table: Seq<char>,
    pub from: Seq<char>,
    pub to: Option<Seq<char>>,
    pub on_update: Seq<char>,
    pub on_delete: Seq<char>,
}

impl View for ForeignKeyRow {
    type V = ForeignKeyRowView;

    open spec fn view(&self) -> ForeignKeyRowView {
        ForeignKeyRowView {
            id: self.id as int,
            table: self.table@,
            from: self.from@,
            to: match self.to {
                Some(t) => Some(t@),
                None => None,
            },
            on_update: self.on_update@,
            on_delete: self.on_delete@,
        }
    }
}

/// One whole constraint: the table it refers to and its column pairs, in
/// catalog order.
#[derive(Debug, PartialEq)]
pub struct ForeignKeyInfo {
    pub to_table: String,
    pub from: Vec<String>,
    /// The target columns; an empty text stands for the other table's rowid
    /// or primary key.
    pub to: Vec<String>,
    pub on_update: String,
    pub on_delete: String,
}

pub struct ForeignKeyInfoView {
    pub to_table: Seq<char>,
    pub from: Seq<Seq<char>>,
    pub to: Seq<Seq<char>>,
    pub on_update: Seq<char>,
    pub on_delete: Seq<char>,
}

impl View for ForeignKeyInfo {
    type V = ForeignKeyInfoView;

    open spec fn view(&self) -> ForeignKeyInfoView {
        ForeignKeyInfoView {
            to_table: self.to_table@,
            from: texts(self.from@),
            to: texts(self.to@),
            on_update: self.on_update@,
            on_delete: self.on_delete@,
        }
    }
}

/// The constraints of one table.
#[derive(Debug)]
pub struct ForeignKeys {
    pub list: Vec<ForeignKeyInfo>,
}

impl View for ForeignKeys {
    type V = Seq<ForeignKeyInfoView>;

    open spec fn view(&self) -> Seq<ForeignKeyInfoView> {
        constraint_views(self.list@)
    }
}

/// Whether every constraint of `list` has at least one column pair, and as
/// many target as source columns.
pub open spec fn well_formed(list: Seq<ForeignKeyInfoView>) -> bool {
    forall|i: int|
        0 <= i < list.len() ==> (#[trigger] list[i]).from.len() >= 1 && list[i].from.len()
            == list[i].to.len()
}

pub open spec fn row_views(rows: Seq<ForeignKeyRow>) -> Seq<ForeignKeyRowView> {
    rows.map_values(|r: ForeignKeyRow| r@)
}

pub open spec fn constraint_views(list: Seq<ForeignKeyInfo>) -> Seq<ForeignKeyInfoView> {
    list.map_values(|c: ForeignKeyInfo| c@)
}

/// The action that the catalog reports where none was declared.
pub open spec fn no_action() -> Seq<char> {
    "NO ACTION"@
}

/// A constraint with no column yet.
pub open spec fn placeholder() -> ForeignKeyInfoView {
    ForeignKeyInfoView {
        to_table: Seq::empty(),
        from: Seq::empty(),
        to: Seq::empty(),
        on_update: no_action(),
        on_delete: no_action(),
    }
}

/// The target column of a row, the empty text where the catalog names none.
pub open spec fn target(row: ForeignKeyRowView) -> Seq<char> {
    match row.to {
        Some(t) => t,
        None => Seq::empty(),
    }
}

/// The constraint `c` with the column pair of `row` added; table and actions
/// are those of `row`, the last row seen.
pub open spec fn extended(c: ForeignKeyInfoView, row: ForeignKeyRowView) -> ForeignKeyInfoView {
    ForeignKeyInfoView {
        to_table: row.table,
        from: c.from.push(row.from),
        to: c.to.push(target(row)),
        on_update: row.on_update,
        on_delete: row.on_delete,
    }
}

/// The constraints that `rows` describe: each maximal run of neighbouring
/// rows with one id is one constraint, runs and columns in row order.
pub open spec fn grouped(rows: Seq<ForeignKeyRowView>) -> Seq<ForeignKeyInfoView>
    decreases rows.len(),
{
    if rows.len() == 0 {
        Seq::empty()
    } else {
        let before = rows.drop_last();
        let row = rows.last();
        if before.len() > 0 && before.last().id == row.id {
            grouped(before).drop_last().push(extended(grouped(before).last(), row))
        } else {
            grouped(before).push(extended(placeholder(), row))
        }
    }
}

/// All source columns of `list`, constraint after constraint.
pub open spec fn source_columns(list: Seq<ForeignKeyInfoView>) -> Seq<Seq<char>>
    decreases list.len(),
{
    if list.len() == 0 {
        Seq::empty()
    } else {
        source_columns(list.drop_last()) + list.last().from
    }
}

/// All target columns of `list`, constraint after constraint.
pub open spec fn target_columns(list: Seq<ForeignKeyInfoView>) -> Seq<Seq<char>>
    decreases list.len(),
{
    if list.len() == 0 {
        Seq::empty()
    } else {
        target_columns(list.drop_last()) + list.last().to
    }
}

/// A constraint on the single column `name`.
pub open spec fn is_on_column(c: ForeignKeyInfoView, name: Seq<char>) -> bool {
    c.from.len() == 1 && c.from[0] == name
}

/// The first constraint of `list` that is on the single column `name`.
pub open spec fn first_on_column(list: Seq<ForeignKeyInfoView>, name: Seq<char>) -> Option<
    ForeignKeyInfoView,
>
    decreases list.len(),
{
    if list.len() == 0 {
        None
    } else if is_on_column(list[0], name) {
        Some(list[0])
    } else {
        first_on_column(list.skip(1), name)
    }
}

/// The constraints of `list` that span more than one column, in list order.
pub open spec fn multicolumn_of(list: Seq<ForeignKeyInfoView>) -> Seq<ForeignKeyInfoView> {
    list.filter(|c: ForeignKeyInfoView| is_multicolumn(c))
}

/// A constraint that spans more than one column.
pub open spec fn is_multicolumn(c: ForeignKeyInfoView) -> bool {
    c.from.len() > 1
}

/// Grouping is never empty-handed: there is a constraint as soon as there is
/// a row, every constraint has at least one column pair, and as many source
/// as target columns.
pub proof fn lemma_grouped_shape(rows: Seq<ForeignKeyRowView>)
    ensures
        rows.len() > 0 ==> grouped(rows).len() > 0,
        grouped(rows).len() <= rows.len(),
        well_formed(grouped(rows)),
    decreases rows.len(),
{
    if rows.len() > 0 {
        lemma_grouped_shape(rows.drop_last());
    }
}

/// Grouping keeps every column pair, in row order: read constraint after
/// constraint, the source columns are those of the rows, and so are the
/// target columns.
pub proof fn lemma_grouped_keeps_columns(rows: Seq<ForeignKeyRowView>)
    ensures
        source_columns(grouped(rows)) == rows.map_values(|r: ForeignKeyRowView| r.from),
        target_columns(grouped(rows)) == rows.map_values(|r: ForeignKeyRowView| target(r)),
    decreases rows.len(),
{
    let froms = rows.map_values(|r: ForeignKeyRowView| r.from);
    let tos = rows.map_values(|r: ForeignKeyRowView| target(r));
    if rows.len() == 0 {
        assert(source_columns(grouped(rows)) =~= froms);
        assert(target_columns(grouped(rows)) =~= tos);
    } else {
        let before = rows.drop_last();
        let row = rows.last();
        lemma_grouped_keeps_columns(before);
        lemma_grouped_shape(before);
        let g = grouped(before);
        let bf = before.map_values(|r: ForeignKeyRowView| r.from);
        let bt = before.map_values(|r: ForeignKeyRowView| target(r));
        assert(froms =~= bf.push(row.from));
        assert(tos =~= bt.push(target(row)));
        if before.len() > 0 && before.last().id == row.id {
            let h = g.drop_last().push(extended(g.last(), row));
            assert(h.drop_last() =~= g.drop_last());
            assert(source_columns(h) =~= source_columns(g).push(row.from));
            assert(target_columns(h) =~= target_columns(g).push(target(row)));
        } else {
            let h = g.push(extended(placeholder(), row));
            assert(h.drop_last() =~= g);
            assert(source_columns(h) =~= source_columns(g).push(row.from));
            assert(target_columns(h) =~= target_columns(g).push(target(row)));
        }
    }
}

/// Rows that all carry one id make one constraint: it holds every column
/// pair in row order, with the table and the actions of the last row.
pub proof fn lemma_one_id_one_constraint(rows: Seq<ForeignKeyRowView>)
    requires
        rows.len() > 0,
        forall|i: int| 0 <= i < rows.len() ==> (#[trigger] rows[i]).id == rows[0].id,
    ensures
        grouped(rows).len() == 1,
        grouped(rows)[0].from == rows.map_values(|r: ForeignKeyRowView| r.from),
        grouped(rows)[0].to == rows.map_values(|r: ForeignKeyRowView| target(r)),
        grouped(rows)[0].to_table == rows.last().table,
        grouped(rows)[0].on_update == rows.last().on_update,
        grouped(rows)[0].on_delete == rows.last().on_delete,
    decreases rows.len(),
{
    let froms = rows.map_values(|r: ForeignKeyRowView| r.from);
    let tos = rows.map_values(|r: ForeignKeyRowView| target(r));
    let before = rows.drop_last();
    if before.len() == 0 {
        assert(grouped(before) =~= Seq::empty());
        assert(grouped(rows)[0].from =~= froms);
        assert(grouped(rows)[0].to =~= tos);
    } else {
        assert(before[0] == rows[0]);
        assert forall|i: int| 0 <= i < before.len() implies (#[trigger] before[i]).id
            == before[0].id by {
            assert(before[i] == rows[i]);
        }
        lemma_one_id_one_constraint(before);
        assert(before.last() == rows[before.len() - 1]);
        assert(grouped(rows)[0].from =~= froms);
        assert(grouped(rows)[0].to =~= tos);
    }
}

impl Clone for ForeignKeyInfo {
    fn clone(&self) -> (c: Self)
        ensures
            c@ == self@,
    {
        ForeignKeyInfo {
            to_table: self.to_table.clone(),
            from: clone_strings(&self.from),
            to: clone_strings(&self.to),
            on_update: self.on_update.clone(),
            on_delete: self.on_delete.clone(),
        }
    }
}

impl ForeignKeyInfo {
    /// A constraint with no column yet, both actions `NO ACTION`.
    pub fn new() -> (c: ForeignKeyInfo)
        ensures
            c@ == placeholder(),
    {
        let c = ForeignKeyInfo {
            to_table: String::new(),
            from: Vec::new(),
            to: Vec::new(),
            on_update: "NO ACTION".to_owned(),
            on_delete: "NO ACTION".to_owned(),
        };
        assert(c@.from =~= placeholder().from);
        assert(c@.to =~= placeholder().to);
        c
    }
}

impl ForeignKeys {
    /// Merges the catalog's rows into whole constraints, in one pass and
    /// without sorting: a row opens a new constraint where its id differs from
    /// that of the row before it.
    pub fn from_rows(rows: &Vec<ForeignKeyRow>) -> (fks: ForeignKeys)
        ensures
            fks@ == grouped(row_views(rows@)),
            well_formed(fks@),
    {
        let mut list: Vec<ForeignKeyInfo> = Vec::new();
        let mut current = ForeignKeyInfo::new();
        let mut current_id: i32 = 0;
        let mut i: usize = 0;
        while i < rows.len()
            invariant
                i <= rows.len(),
                i == 0 ==> list@.len() == 0 && current@ == placeholder(),
                i > 0 ==> grouped(row_views(rows@).take(i as int)) == constraint_views(
                    list@,
                ).push(current@) && current_id == rows@[i - 1].id,
            decreases rows.len() - i,
        {
            let row = &rows[i];
            let ghost all = row_views(rows@);
            let ghost before = all.take(i as int);
            let ghost upto = all.take(i + 1);
            let ghost closed = constraint_views(list@);
            let ghost opened = current@;
            proof {
                assert(upto.drop_last() =~= before);
                assert(upto.last() == row@);
                if i > 0 {
                    assert(before.last() == rows@[i - 1]@);
                    lemma_grouped_shape(before);
                    assert(grouped(before).last() == opened);
                    assert(grouped(before).drop_last() =~= closed);
                    assert(opened.from.len() >= 1);
                } else {
                    assert(before.len() == 0);
                    assert(grouped(before) =~= Seq::empty());
                }
            }
            if row.id != current_id {
                if current.from.len() > 0 {
                    list.push(current);
                    proof {
                        assert(constraint_views(list@) =~= closed.push(opened));
                    }
                }
                current = ForeignKeyInfo::new();
                current_id = row.id;
            }
            // A first row with the id that `current_id` starts with lands here
            // with the placeholder still open, as one that opens a constraint.
            let ghost base = current@;
            let ghost kept = constraint_views(list@);
            current.to_table = row.table.clone();
            current.from.push(row.from.clone());
            current.to.push(
                match &row.to {
                    Some(t) => t.clone(),
                    None => String::new(),
                },
            );
            current.on_update = row.on_update.clone();
            current.on_delete = row.on_delete.clone();
            proof {
                assert(current@.from =~= base.from.push(row@.from));
                assert(current@.to =~= base.to.push(target(row@)));
                assert(current@ == extended(base, row@));
                if i > 0 && before.last().id == row@.id {
                    assert(base == opened);
                    assert(kept == closed);
                    assert(grouped(upto) == closed.push(current@));
                } else {
                    assert(base == placeholder());
                    assert(kept =~= grouped(before));
                    assert(grouped(upto) == kept.push(current@));
                }
            }
            i = i + 1;
        }
        let ghost all = row_views(rows@);
        let ghost closed = constraint_views(list@);
        let ghost opened = current@;
        proof {
            assert(all.take(i as int) =~= all);
            assert(texts(current.from@).len() == current.from@.len());
            if i > 0 {
                assert(grouped(all) == closed.push(opened));
                lemma_grouped_shape(all);
                assert(grouped(all).last() == opened);
                assert(opened.from.len() >= 1);
            } else {
                assert(all.len() == 0);
                assert(closed =~= grouped(all));
                assert(opened.from.len() == 0);
            }
        }
        if current.from.len() > 0 {
            list.push(current);
            proof {
                assert(constraint_views(list@) =~= closed.push(opened));
            }
        }
        ForeignKeys { list }
    }

    /// The constraint on exactly the one column `name`: the first such in the
    /// list, `None` where there is none. A constraint that spans several
    /// columns never matches.
    pub fn for_name(&self, name: &str) -> (r: Option<ForeignKeyInfo>)
        ensures
            match r {
                Some(c) => first_on_column(self@, name@) == Some(c@) && is_on_column(c@, name@),
                None => first_on_column(self@, name@) is None && forall|i: int|
                    0 <= i < self@.len() ==> !is_on_column(#[trigger] self@[i], name@),
            },
    {
        let ghost all = self@;
        let mut i: usize = 0;
        assert(all.skip(0) =~= all);
        while i < self.list.len()
            invariant
                i <= self.list.len(),
                all == self@,
                first_on_column(all, name@) == first_on_column(all.skip(i as int), name@),
                forall|j: int| 0 <= j < i ==> !is_on_column(#[trigger] self@[j], name@),
            decreases self.list.len() - i,
        {
            let fk = &self.list[i];
            proof {
                assert(all.skip(i as int)[0] == fk@);
                assert(all.skip(i as int).skip(1) =~= all.skip(i + 1));
            }
            if fk.from.len() == 1 && same_text(fk.from[0].as_str(), name) {
                return Some(fk.clone());
            }
            i = i + 1;
        }
        None
    }

    /// The constraints that span more than one column, in list order.
    pub fn multicolumn(&self) -> (r: Vec<ForeignKeyInfo>)
        ensures
            constraint_views(r@) == multicolumn_of(self@),
    {
        let ghost pred = |c: ForeignKeyInfoView| is_multicolumn(c);
        let mut res: Vec<ForeignKeyInfo> = Vec::new();
        let mut i: usize = 0;
        proof {
            reveal(Seq::filter);
            assert(self@.take(0).filter(pred) =~= Seq::empty());
        }
        while i < self.list.len()
            invariant
                i <= self.list.len(),
                pred == |c: ForeignKeyInfoView| is_multicolumn(c),
                constraint_views(res@) == self@.take(i as int).filter(pred),
            decreases self.list.len() - i,
        {
            let fk = &self.list[i];
            let ghost seen = constraint_views(res@);
            proof {
                self@.take(i as int).lemma_filter_push(self@[i as int], pred);
                assert(self@.take(i as int).push(self@[i as int]) =~= self@.take(i + 1));
            }
            if fk.from.len() > 1 {
                res.push(fk.clone());
                proof {
                    assert(constraint_views(res@) =~= seen.push(fk@));
                }
            }
            i = i + 1;
        }
        proof {
            assert(self@.take(i as int) =~= self@);
        }
        res
    }
}

/// A constraint on two or more columns is found as a whole and never under
/// one of its columns: where every row carries the same id, no column has a
/// constraint of its own, and the constraints on several columns are that
/// one constraint.
pub proof fn lemma_composite_constraint(rows: Seq<ForeignKeyRowView>, name: Seq<char>)
    requires
        rows.len() >= 2,
        forall|i: int| 0 <= i < rows.len() ==> (#[trigger] rows[i]).id == rows[0].id,
    ensures
        first_on_column(grouped(rows), name) is None,
        multicolumn_of(grouped(rows)) == grouped(rows),
        grouped(rows).len() == 1,
        grouped(rows)[0].from == rows.map_values(|r: ForeignKeyRowView| r.from),
        grouped(rows)[0].to == rows.map_values(|r: ForeignKeyRowView| target(r)),
{
    lemma_one_id_one_constraint(rows);
    let g = grouped(rows);
    let pred = |c: ForeignKeyInfoView| is_multicolumn(c);
    assert(g[0].from.len() == rows.len());
    assert(g.skip(1) =~= Seq::empty());
    assert(first_on_column(g.skip(1), name) is None);
    assert(g =~= Seq::<ForeignKeyInfoView>::empty().push(g[0]));
    Seq::<ForeignKeyInfoView>::empty().lemma_filter_push(g[0], pred);
    reveal(Seq::filter);
    assert(Seq::<ForeignKeyInfoView>::empty().filter(pred) =~= Seq::empty());
}

} // verus!
