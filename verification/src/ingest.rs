//! The import plan: from the records of an import file to the rows that go
//! into the store, in the batches in which they are sent.

use crate::duration::{iso_duration_text, Duration};
use crate::model::{
    clone_ingredients, clone_steps, clone_text, Author, AuthorView, Named, Recipe, RecipeView,
    ReferencePreparation, Timestamp,
};
use crate::schema::{
    AuthorRow, AuthorRowView, IngredientRow, IngredientUnitRow, IngredientUnitRowView,
    PreparationRow, RecipeRow, RecipeRowView, UnitRow, UnitRowView,
};
use crate::store::{
    lemma_link_in_parts, link_all_ignore, link_refers, with_authors, Store, StoreView,
};
use crate::table::{insert_all_ignore, lemma_insert_in_parts};
use vstd::hash_map::StringHashMap;
use vstd::pervasive::unreached;
use vstd::prelude::*;

verus! {

/// The number of rows that one insert statement carries at most.
pub const BATCH_SIZE: usize = 1000;

/// A unit named in an ingredient record as an allowed measurement.
#[derive(Debug, PartialEq, Eq)]
pub struct IngestIngredientUnit {
    pub id: String,
    pub name: String,
}

impl DeepView for IngestIngredientUnit {
    type V = Named;

    open spec fn deep_view(&self) -> Named {
        Named { id: self.id@, name: self.name@ }
    }
}

impl Clone for IngestIngredientUnit {
    fn clone(&self) -> (res: Self)
        ensures
            res.deep_view() == self.deep_view(),
    {
        IngestIngredientUnit { id: self.id.clone(), name: self.name.clone() }
    }
}

/// An ingredient record of an import file, with the units it may be measured
/// in.
#[derive(Debug, PartialEq, Eq)]
pub struct IngestIngredient {
    pub id: String,
    pub name: String,
    pub allowed_units: Vec<IngestIngredientUnit>,
}

/// What a [`IngestIngredient`] stands for: its texts as sequences of characters.
pub struct IngestIngredientView {
    pub id: Seq<char>,
    pub name: Seq<char>,
    pub allowed_units: Seq<Named>,
}

impl DeepView for IngestIngredient {
    type V = IngestIngredientView;

    open spec fn deep_view(&self) -> IngestIngredientView {
        IngestIngredientView {
            id: self.id@,
            name: self.name@,
            allowed_units: self.allowed_units.deep_view(),
        }
    }
}

impl Clone for IngestIngredient {
    fn clone(&self) -> (res: Self)
        ensures
            res.deep_view() == self.deep_view(),
    {
        let allowed_units = self.allowed_units.clone();
        assert(allowed_units.deep_view() =~= self.allowed_units.deep_view());
        IngestIngredient { id: self.id.clone(), name: self.name.clone(), allowed_units }
    }
}

/// The measurement system that a unit record belongs to.
#[derive(Debug, PartialEq, Eq)]
pub struct IngestMeasurementSystem {
    pub id: String,
    pub name: String,
}

impl DeepView for IngestMeasurementSystem {
    type V = Named;

    open spec fn deep_view(&self) -> Named {
        Named { id: self.id@, name: self.name@ }
    }
}

impl Clone for IngestMeasurementSystem {
    fn clone(&self) -> (res: Self)
        ensures
            res.deep_view() == self.deep_view(),
    {
        IngestMeasurementSystem { id: self.id.clone(), name: self.name.clone() }
    }
}

/// A unit record of an import file. Abbreviation, dimension and measurement
/// system may each be missing.
#[derive(Debug, PartialEq, Eq)]
pub struct IngestUnit {
    pub id: String,
    pub name: String,
    pub abbreviation: Option<String>,
    pub dimension: Option<String>,
    pub measurement_system: Option<IngestMeasurementSystem>,
}

/// What a [`IngestUnit`] stands for: its texts as sequences of characters.
pub struct IngestUnitView {
    pub id: Seq<char>,
    pub name: Seq<char>,
    pub abbreviation: Option<Seq<char>>,
    pub dimension: Option<Seq<char>>,
    pub measurement_system: Option<Named>,
}

impl DeepView for IngestUnit {
    type V = IngestUnitView;

    open spec fn deep_view(&self) -> IngestUnitView {
        IngestUnitView {
            id: self.id@,
            name: self.name@,
            abbreviation: self.abbreviation.deep_view(),
            dimension: self.dimension.deep_view(),
            measurement_system: self.measurement_system.deep_view(),
        }
    }
}

impl Clone for IngestUnit {
    fn clone(&self) -> (res: Self)
        ensures
            res.deep_view() == self.deep_view(),
    {
        let measurement_system = match &self.measurement_system {
            Some(m) => Some(m.clone()),
            None => None,
        };
        IngestUnit {
            id: self.id.clone(),
            name: self.name.clone(),
            abbreviation: clone_text(&self.abbreviation),
            dimension: clone_text(&self.dimension),
            measurement_system,
        }
    }
}

/// The ingredient row of an ingredient record: its id and name. The allowed
/// units go to the join table.
pub open spec fn ingredient_row(record: IngestIngredientView) -> Named {
    Named { id: record.id, name: record.name }
}

/// The unit row of a unit record. A missing abbreviation, dimension or
/// measurement system gives a null column; of a measurement system only the
/// id is kept.
pub open spec fn unit_row(record: IngestUnitView) -> UnitRowView {
    UnitRowView {
        id: record.id,
        name: record.name,
        abbreviation: record.abbreviation,
        dimension_id: record.dimension,
        measurement_system_id: match record.measurement_system {
            Some(system) => Some(system.id),
            None => None,
        },
    }
}

/// The join rows of one ingredient record: one for each allowed unit, in the
/// order of the record.
pub open spec fn links_of(record: IngestIngredientView) -> Seq<IngredientUnitRowView> {
    Seq::new(
        record.allowed_units.len(),
        |k: int|
            IngredientUnitRowView {
                ingredient_id: record.id,
                unit_id: record.allowed_units[k].id,
            },
    )
}

/// The join rows of a list of ingredient records: those of the first record,
/// then those of the second, and so on.
pub open spec fn links(records: Seq<IngestIngredientView>) -> Seq<IngredientUnitRowView>
    decreases records.len(),
{
    if records.len() == 0 {
        Seq::empty()
    } else {
        links(records.drop_last()) + links_of(records.last())
    }
}

/// The number of join rows of a list of ingredient records.
pub open spec fn link_count(records: Seq<IngestIngredientView>) -> nat
    decreases records.len(),
{
    if records.len() == 0 {
        0
    } else {
        link_count(records.drop_last()) + records.last().allowed_units.len()
    }
}

/// There are as many join rows as allowed units in all records together.
pub proof fn lemma_links_len(records: Seq<IngestIngredientView>)
    ensures
        links(records).len() == link_count(records),
    decreases records.len(),
{
    if records.len() > 0 {
        lemma_links_len(records.drop_last());
    }
}

/// The join rows of the first `k + 1` records are those of the first `k`
/// followed by those of record `k`.
pub proof fn lemma_links_step(records: Seq<IngestIngredientView>, k: int)
    requires
        0 <= k < records.len(),
    ensures
        links(records.take(k + 1)) == links(records.take(k)) + links_of(records[k]),
{
    assert(records.take(k + 1).drop_last() =~= records.take(k));
}

/// The ingredient rows of a list of ingredient records, one for each record
/// and in the same order.
pub fn ingredient_rows(ingredients: &[IngestIngredient]) -> (rows: Vec<IngredientRow>)
    ensures
        rows.deep_view() == ingredients.deep_view().map_values(
            |r: IngestIngredientView| ingredient_row(r),
        ),
{
    let mut rows: Vec<IngredientRow> = Vec::new();
    let mut k: usize = 0;
    while k < ingredients.len()
        invariant
            k <= ingredients.len(),
            rows.len() == k,
            forall|j: int|
                0 <= j < k ==> (#[trigger] rows[j]).deep_view() == ingredient_row(
                    ingredients[j].deep_view(),
                ),
        decreases ingredients.len() - k,
    {
        let record = &ingredients[k];
        rows.push(IngredientRow { id: record.id.clone(), name: record.name.clone() });
        k += 1;
    }
    assert(rows.deep_view() =~= ingredients.deep_view().map_values(
        |r: IngestIngredientView| ingredient_row(r),
    ));
    rows
}

/// The preparation rows of a list of preparations, one for each and in the
/// same order.
pub fn preparation_rows(preparations: &[ReferencePreparation]) -> (rows: Vec<PreparationRow>)
    ensures
        rows.deep_view() == preparations.deep_view(),
{
    let mut rows: Vec<PreparationRow> = Vec::new();
    let mut k: usize = 0;
    while k < preparations.len()
        invariant
            k <= preparations.len(),
            rows.len() == k,
            forall|j: int|
                0 <= j < k ==> (#[trigger] rows[j]).deep_view() == preparations[j].deep_view(),
        decreases preparations.len() - k,
    {
        let record = &preparations[k];
        rows.push(PreparationRow { id: record.id.clone(), name: record.name.clone() });
        k += 1;
    }
    assert(rows.deep_view() =~= preparations.deep_view());
    rows
}

/// The unit rows of a list of unit records, one for each record and in the
/// same order. A record with missing optional values gives a row with null
/// columns.
pub fn unit_rows(units: &[IngestUnit]) -> (rows: Vec<UnitRow>)
    ensures
        rows.deep_view() == units.deep_view().map_values(|r: IngestUnitView| unit_row(r)),
{
    let mut rows: Vec<UnitRow> = Vec::new();
    let mut k: usize = 0;
    while k < units.len()
        invariant
            k <= units.len(),
            rows.len() == k,
            forall|j: int|
                0 <= j < k ==> (#[trigger] rows[j]).deep_view() == unit_row(units[j].deep_view()),
        decreases units.len() - k,
    {
        let record = &units[k];
        let measurement_system_id = match &record.measurement_system {
            Some(system) => Some(system.id.clone()),
            None => None,
        };
        rows.push(
            UnitRow {
                id: record.id.clone(),
                name: record.name.clone(),
                abbreviation: clone_text(&record.abbreviation),
                dimension_id: clone_text(&record.dimension),
                measurement_system_id,
            },
        );
        k += 1;
    }
    assert(rows.deep_view() =~= units.deep_view().map_values(|r: IngestUnitView| unit_row(r)));
    rows
}

/// The join rows of a list of ingredient records: for each record in turn,
/// one row for each of its allowed units.
pub fn ingredient_unit_rows(ingredients: &[IngestIngredient]) -> (rows: Vec<IngredientUnitRow>)
    ensures
        rows.deep_view() == links(ingredients.deep_view()),
{
    let ghost records = ingredients.deep_view();
    let mut rows: Vec<IngredientUnitRow> = Vec::new();
    let mut k: usize = 0;
    while k < ingredients.len()
        invariant
            k <= ingredients.len(),
            records == ingredients.deep_view(),
            rows.deep_view() == links(records.take(k as int)),
        decreases ingredients.len() - k,
    {
        let record = &ingredients[k];
        let ghost before = rows.deep_view();
        let mut u: usize = 0;
        while u < record.allowed_units.len()
            invariant
                u <= record.allowed_units.len(),
                k < ingredients.len(),
                record == &ingredients[k as int],
                records == ingredients.deep_view(),
                rows.deep_view() == before + links_of(records[k as int]).take(u as int),
            decreases record.allowed_units.len() - u,
        {
            let ghost old_rows = rows.deep_view();
            rows.push(
                IngredientUnitRow {
                    ingredient_id: record.id.clone(),
                    unit_id: record.allowed_units[u].id.clone(),
                },
            );
            assert(rows.deep_view() =~= old_rows.push(links_of(records[k as int])[u as int]));
            assert(links_of(records[k as int]).take(u + 1) =~= links_of(records[k as int]).take(
                u as int,
            ).push(links_of(records[k as int])[u as int]));
            u += 1;
        }
        proof {
            assert(links_of(records[k as int]).take(u as int) =~= links_of(records[k as int]));
            lemma_links_step(records, k as int);
        }
        k += 1;
    }
    assert(records.take(k as int) =~= records);
    rows
}

/// How many batches `len` rows make when a batch holds `size` rows.
pub open spec fn batch_count(len: nat, size: nat) -> nat {
    if size == 0 {
        0
    } else {
        ((len + size - 1) / (size as int)) as nat
    }
}

/// Batch number `k` of `rows`: the rows from `k * size` up to the next
/// multiple of `size`, or up to the end where that comes first.
pub open spec fn batch<T>(rows: Seq<T>, size: nat, k: int) -> Seq<T> {
    rows.subrange(k * size, if (k + 1) * size <= rows.len() {
        (k + 1) * size
    } else {
        rows.len() as int
    })
}

/// `rows` cut into batches of `size`: every batch is full but the last, which
/// holds what is left, and no batch is empty.
pub open spec fn batched<T>(rows: Seq<T>, size: nat) -> Seq<Seq<T>> {
    Seq::new(batch_count(rows.len(), size), |k: int| batch(rows, size, k))
}

/// Full batches end on multiples of `size`: the product of the number of
/// a batch and `size`, one step further.
proof fn lemma_next_multiple(k: int, size: int)
    ensures
        (k + 1) * size == k * size + size,
{
    assert((k + 1) * size == k * size + size) by (nonlinear_arith);
}

/// With `full` full batches behind and `rest` rows in hand, `0 <= rest <
/// size`, the batches of `full * size + rest` rows are counted.
proof fn lemma_batch_count(full: int, rest: int, size: int)
    requires
        0 <= full,
        0 <= rest < size,
        full * size >= 0,
    ensures
        batch_count((full * size + rest) as nat, size as nat) == if rest == 0 {
            full
        } else {
            full + 1
        },
{
    let len = full * size + rest;
    if rest == 0 {
        assert((full * size + size - 1) / size == full) by (nonlinear_arith)
            requires
                size > 0,
                full >= 0,
        ;
    } else {
        assert((full * size + rest + size - 1) / size == full + 1) by (nonlinear_arith)
            requires
                0 < rest < size,
                full >= 0,
        ;
    }
}

/// Cuts `rows` into batches of `size` rows, in order. Every batch is full but
/// the last, which holds what is left; no batch is empty, and no rows give no
/// batch.
pub fn batches<T>(rows: Vec<T>, size: usize) -> (out: Vec<Vec<T>>)
    requires
        size > 0,
    ensures
        out@.map_values(|b: Vec<T>| b@) == batched(rows@, size as nat),
{
    let ghost all = rows@;
    let ghost mut done: int = 0;
    let mut out: Vec<Vec<T>> = Vec::new();
    let mut current: Vec<T> = Vec::new();
    assert(out.len() * size == 0) by (nonlinear_arith)
        requires
            out.len() == 0,
    ;
    for row in it: rows
        invariant
            size > 0,
            it.seq() == all,
            current.len() < size,
            done == out.len() * size,
            done + current.len() == it.index(),
            current@ == all.subrange(done, it.index() as int),
            forall|k: int| 0 <= k < out.len() ==> (#[trigger] out[k])@ == batch(all, size as nat, k),
    {
        current.push(row);
        if current.len() == size {
            proof {
                lemma_next_multiple(out.len() as int, size as int);
                done = done + size;
            }
            out.push(current);
            current = Vec::new();
        }
    }
    proof {
        lemma_next_multiple(out.len() as int, size as int);
        lemma_batch_count(out.len() as int, current.len() as int, size as int);
    }
    if current.len() > 0 {
        out.push(current);
    }
    assert(out@.map_values(|b: Vec<T>| b@) =~= batched(all, size as nat));
    out
}

/// The shape of the batches: there are `batch_count` of them, none is empty,
/// none holds more than `size` rows, and all but the last are full.
pub proof fn lemma_batched_shape<T>(rows: Seq<T>, size: nat)
    requires
        size > 0,
    ensures
        batched(rows, size).len() == batch_count(rows.len(), size),
        rows.len() == 0 <==> batched(rows, size).len() == 0,
        forall|k: int|
            0 <= k < batched(rows, size).len() ==> 0 < (#[trigger] batched(rows, size)[k]).len()
                <= size,
        forall|k: int|
            0 <= k < batched(rows, size).len() - 1 ==> (#[trigger] batched(rows, size)[k]).len()
                == size,
{
    let n = batch_count(rows.len(), size) as int;
    let len = rows.len() as int;
    let sz = size as int;
    assert(n == (len + sz - 1) / sz);
    assert((n - 1) * sz < len <= n * sz && (len == 0 <==> n == 0)) by (nonlinear_arith)
        requires
            n == (len + sz - 1) / sz,
            sz > 0,
            len >= 0,
    ;
    assert forall|k: int| 0 <= k < n implies 0 < (#[trigger] batched(rows, size)[k]).len() <= size
        && (k < n - 1 ==> batched(rows, size)[k].len() == size) by {
        assert(0 <= k * sz && k * sz <= (n - 1) * sz && (k + 1) * sz == k * sz + sz && (k < n - 1
            ==> (k + 1) * sz <= (n - 1) * sz)) by (nonlinear_arith)
            requires
                0 <= k < n,
                sz > 0,
        ;
    }
}

/// No row is lost or moved: row `i` is row `i % size` of batch `i / size`.
pub proof fn lemma_batched_rows<T>(rows: Seq<T>, size: nat, i: int)
    requires
        size > 0,
        0 <= i < rows.len(),
    ensures
        0 <= i / (size as int) < batched(rows, size).len(),
        0 <= i % (size as int) < batched(rows, size)[i / (size as int)].len(),
        batched(rows, size)[i / (size as int)][i % (size as int)] == rows[i],
{
    let n = batch_count(rows.len(), size) as int;
    let len = rows.len() as int;
    let sz = size as int;
    let k = i / sz;
    let r = i % sz;
    assert(0 <= k < n && 0 <= r < sz && k * sz + r == i && (k + 1) * sz == k * sz + sz) by (nonlinear_arith)
        requires
            n == (len + sz - 1) / sz,
            k == i / sz,
            r == i % sz,
            sz > 0,
            0 <= i < len,
    ;
}

/// Whether an author of the same name comes before place `i` of `authors`.
pub open spec fn named_before(authors: Seq<AuthorView>, i: int) -> bool {
    exists|j: int| 0 <= j < i && (#[trigger] authors[j]).name == authors[i].name
}

/// The authors of `authors` without repeated names: of the authors of one
/// name the first stays, and those that stay keep their order.
pub open spec fn distinct_by_name(authors: Seq<AuthorView>) -> Seq<AuthorView>
    decreases authors.len(),
{
    if authors.len() == 0 {
        Seq::empty()
    } else {
        let before = distinct_by_name(authors.drop_last());
        if named_before(authors, authors.len() - 1) {
            before
        } else {
            before.push(authors.last())
        }
    }
}

/// The authors of a list of recipes, one for each recipe.
pub open spec fn authors_of(recipes: Seq<RecipeView>) -> Seq<AuthorView> {
    recipes.map_values(|r: RecipeView| r.author)
}

/// Whether `name` is the name of one of `authors`.
pub open spec fn has_name(authors: Seq<AuthorView>, name: Seq<char>) -> bool {
    exists|j: int| 0 <= j < authors.len() && (#[trigger] authors[j]).name == name
}

/// Removing repeated names neither adds nor loses a name, and every author
/// that stays is one of the authors given.
pub proof fn lemma_distinct_names_kept(authors: Seq<AuthorView>)
    ensures
        forall|name: Seq<char>|
            has_name(distinct_by_name(authors), name) <==> has_name(authors, name),
        forall|k: int|
            0 <= k < distinct_by_name(authors).len() ==> authors.contains(
                #[trigger] distinct_by_name(authors)[k],
            ),
        distinct_by_name(authors).len() <= authors.len(),
    decreases authors.len(),
{
    if authors.len() > 0 {
        let init = authors.drop_last();
        let last = authors.len() - 1;
        lemma_distinct_names_kept(init);
        let before = distinct_by_name(init);
        let after = distinct_by_name(authors);
        assert forall|name: Seq<char>| has_name(after, name) <==> has_name(authors, name) by {
            if has_name(after, name) {
                let k = choose|k: int| 0 <= k < after.len() && (#[trigger] after[k]).name == name;
                if k < before.len() {
                    assert(before[k].name == name);
                    assert(has_name(before, name));
                    let j = choose|j: int| 0 <= j < init.len() && (#[trigger] init[j]).name == name;
                    assert(authors[j].name == name);
                } else {
                    assert(authors[last].name == name);
                }
            }
            if has_name(authors, name) {
                let j = choose|j: int| 0 <= j < authors.len() && (#[trigger] authors[j]).name == name;
                if j < last {
                    assert(init[j].name == name);
                    assert(has_name(init, name));
                    let k = choose|k: int| 0 <= k < before.len() && (#[trigger] before[k]).name == name;
                    assert(after[k].name == name);
                } else if named_before(authors, last) {
                    let j2 = choose|j2: int| 0 <= j2 < last && (#[trigger] authors[j2]).name == authors[last].name;
                    assert(init[j2].name == name);
                    assert(has_name(init, name));
                    let k = choose|k: int| 0 <= k < before.len() && (#[trigger] before[k]).name == name;
                    assert(after[k].name == name);
                } else {
                    assert(after[after.len() - 1].name == name);
                }
            }
        }
        assert forall|k: int| 0 <= k < after.len() implies authors.contains(#[trigger] after[k]) by {
            if k < before.len() {
                assert(init.contains(before[k]));
                let j = choose|j: int| 0 <= j < init.len() && init[j] == before[k];
                assert(authors[j] == after[k]);
            } else {
                assert(authors[last] == after[k]);
            }
        }
    }
}

/// At most one author stays for each name.
pub proof fn lemma_distinct_names_differ(authors: Seq<AuthorView>)
    ensures
        forall|a: int, b: int|
            0 <= a < b < distinct_by_name(authors).len() ==> (#[trigger] distinct_by_name(
                authors,
            )[a]).name != (#[trigger] distinct_by_name(authors)[b]).name,
    decreases authors.len(),
{
    if authors.len() > 0 {
        let init = authors.drop_last();
        let last = authors.len() - 1;
        lemma_distinct_names_differ(init);
        lemma_distinct_names_kept(init);
        let before = distinct_by_name(init);
        let after = distinct_by_name(authors);
        assert forall|a: int, b: int| 0 <= a < b < after.len() implies (#[trigger] after[a]).name
            != (#[trigger] after[b]).name by {
            if b >= before.len() {
                // the last author is new, so no earlier author bears its name
                if after[a].name == after[b].name {
                    assert(before[a].name == authors[last].name);
                    assert(has_name(before, authors[last].name));
                    assert(has_name(init, authors[last].name));
                    let j = choose|j: int| 0 <= j < init.len() && (#[trigger] init[j]).name == authors[last].name;
                    assert(authors[j].name == authors[last].name);
                    assert(named_before(authors, last));
                }
            } else {
                assert(before[a].name != before[b].name);
            }
        }
    }
}

/// The authors to insert for a list of recipes: the author of each recipe,
/// without those whose name an earlier recipe's author bears.
pub fn distinct_authors(recipes: &[Recipe]) -> (authors: Vec<Author>)
    ensures
        authors.deep_view() == distinct_by_name(authors_of(recipes.deep_view())),
{
    let ghost all = authors_of(recipes.deep_view());
    let mut seen: StringHashMap<bool> = StringHashMap::new();
    let mut authors: Vec<Author> = Vec::new();
    let mut k: usize = 0;
    while k < recipes.len()
        invariant
            k <= recipes.len(),
            all == authors_of(recipes.deep_view()),
            authors.deep_view() == distinct_by_name(all.take(k as int)),
            forall|name: Seq<char>| seen@.contains_key(name) <==> has_name(all.take(k as int), name),
        decreases recipes.len() - k,
    {
        let author = &recipes[k].author;
        let ghost prefix = all.take(k as int);
        let ghost next = all.take(k + 1);
        proof {
            assert(next.drop_last() =~= prefix);
            assert(next.last() == author.deep_view());
            if named_before(next, k as int) {
                let j = choose|j: int| 0 <= j < k && (#[trigger] next[j]).name == next[k as int].name;
                assert(prefix[j].name == author.name@);
            }
            if has_name(prefix, author.name@) {
                let j = choose|j: int| 0 <= j < prefix.len() && (#[trigger] prefix[j]).name == author.name@;
                assert(next[j].name == next[k as int].name);
            }
        }
        if !seen.contains_key(author.name.as_str()) {
            let ghost old_authors = authors.deep_view();
            seen.insert(author.name.clone(), true);
            authors.push(author.clone());
            assert(authors.deep_view() =~= old_authors.push(author.deep_view()));
        }
        proof {
            assert forall|name: Seq<char>| seen@.contains_key(name) <==> has_name(next, name) by {
                if has_name(next, name) {
                    let j = choose|j: int| 0 <= j < next.len() && (#[trigger] next[j]).name == name;
                    if j < k {
                        assert(prefix[j].name == name);
                    }
                }
                if has_name(prefix, name) {
                    let j = choose|j: int| 0 <= j < prefix.len() && (#[trigger] prefix[j]).name == name;
                    assert(next[j].name == name);
                }
                if name == author.name@ {
                    assert(next[k as int].name == name);
                }
            }
        }
        k += 1;
    }
    assert(all.take(k as int) =~= all);
    authors
}

/// The id under which each author's name is found: that of the last row of
/// that name.
pub open spec fn author_index(rows: Seq<AuthorRowView>) -> Map<Seq<char>, i64>
    decreases rows.len(),
{
    if rows.len() == 0 {
        Map::empty()
    } else {
        author_index(rows.drop_last()).insert(rows.last().name, rows.last().id)
    }
}

/// A name is found exactly when a row bears it, and the id found is that of
/// such a row.
pub proof fn lemma_author_index(rows: Seq<AuthorRowView>, name: Seq<char>)
    ensures
        author_index(rows).contains_key(name) <==> exists|j: int|
            0 <= j < rows.len() && (#[trigger] rows[j]).name == name,
        author_index(rows).contains_key(name) ==> exists|j: int|
            0 <= j < rows.len() && (#[trigger] rows[j]).name == name && rows[j].id
                == author_index(rows)[name],
    decreases rows.len(),
{
    if rows.len() > 0 {
        let init = rows.drop_last();
        lemma_author_index(init, name);
        if rows.last().name == name {
            assert(rows[rows.len() - 1].name == name);
        } else {
            if author_index(init).contains_key(name) {
                let j = choose|j: int|
                    0 <= j < init.len() && (#[trigger] init[j]).name == name && init[j].id
                        == author_index(init)[name];
                assert(rows[j].name == name);
            }
            if exists|j: int| 0 <= j < rows.len() && (#[trigger] rows[j]).name == name {
                let j = choose|j: int| 0 <= j < rows.len() && (#[trigger] rows[j]).name == name;
                assert(init[j].name == name);
            }
        }
    }
}

/// The ids of the authors of the store, by name.
pub struct AuthorIndex {
    ids: StringHashMap<i64>,
}

impl View for AuthorIndex {
    type V = Map<Seq<char>, i64>;

    closed spec fn view(&self) -> Map<Seq<char>, i64> {
        self.ids@
    }
}

impl AuthorIndex {
    /// Builds the index from all author rows of the store, in the order in
    /// which the store returned them. Where two rows bear one name, the later
    /// row is found.
    pub fn new(rows: &[AuthorRow]) -> (index: AuthorIndex)
        ensures
            index@ == author_index(rows.deep_view()),
    {
        let ghost all = rows.deep_view();
        let mut ids: StringHashMap<i64> = StringHashMap::new();
        let mut k: usize = 0;
        while k < rows.len()
            invariant
                k <= rows.len(),
                all == rows.deep_view(),
                ids@ == author_index(all.take(k as int)),
            decreases rows.len() - k,
        {
            assert(all.take(k + 1).drop_last() =~= all.take(k as int));
            ids.insert(rows[k].name.clone(), rows[k].id);
            k += 1;
        }
        assert(all.take(k as int) =~= all);
        AuthorIndex { ids }
    }

    /// The id of the author of the given name, if the index holds one.
    pub fn get(&self, name: &str) -> (id: Option<i64>)
        ensures
            id == if self@.contains_key(name@) {
                Some(self@[name@])
            } else {
                None
            },
    {
        match self.ids.get(name) {
            Some(id) => Some(*id),
            None => None,
        }
    }
}

/// Why a list of recipes cannot be imported. Where a recipe is at fault, the
/// error names the place of the first such recipe.
#[derive(Clone, Copy, Debug, PartialEq, Eq, Structural)]
pub enum IngestError {
    /// The author of the recipe is not among the authors of the store.
    UnknownAuthor { recipe: usize },
    /// The recipe has no date of publication.
    NotPublished { recipe: usize },
    /// The store has no number left for another author.
    StoreFull,
    /// A batch of allowed units names an ingredient or a unit that is not
    /// in the store.
    MissingReference { batch: usize },
}

impl IngestError {
    /// The place of the recipe at fault in the list that was to be imported,
    /// where a recipe is at fault.
    pub fn recipe(&self) -> (place: Option<usize>)
        ensures
            place == match *self {
                IngestError::UnknownAuthor { recipe } => Some(recipe),
                IngestError::NotPublished { recipe } => Some(recipe),
                IngestError::StoreFull => None,
                IngestError::MissingReference { .. } => None,
            },
    {
        match self {
            IngestError::UnknownAuthor { recipe } => Some(*recipe),
            IngestError::NotPublished { recipe } => Some(*recipe),
            IngestError::StoreFull => None,
            IngestError::MissingReference { .. } => None,
        }
    }

    /// What to tell the operator.
    pub fn message(&self) -> (text: String)
        ensures
            text@ == match *self {
                IngestError::UnknownAuthor { .. } => "Recipe author is missing from the store"@,
                IngestError::NotPublished { .. } => "Imported recipes should be published"@,
                IngestError::StoreFull => "No author id is left"@,
                IngestError::MissingReference { .. } => "FOREIGN KEY constraint failed"@,
            },
    {
        match self {
            IngestError::UnknownAuthor { .. } => "Recipe author is missing from the store".to_owned(),
            IngestError::NotPublished { .. } => "Imported recipes should be published".to_owned(),
            IngestError::StoreFull => "No author id is left".to_owned(),
            IngestError::MissingReference { .. } => "FOREIGN KEY constraint failed".to_owned(),
        }
    }
}

/// The text of an optional duration.
pub open spec fn optional_duration_text(duration: Option<Duration>) -> Option<Seq<char>> {
    match duration {
        Some(d) => Some(iso_duration_text(d.spec_secs(), d.spec_nanos())),
        None => None,
    }
}

/// The row of a recipe, given the id of its author, its date of publication
/// and whether it was written here. Times become ISO-8601 text, the documents
/// are carried over unchanged.
pub open spec fn recipe_row(
    recipe: RecipeView,
    author_id: i64,
    published_at: Timestamp,
    is_custom: bool,
) -> RecipeRowView {
    RecipeRowView {
        id: recipe.id,
        name: recipe.name,
        description: recipe.description,
        prep_time: optional_duration_text(recipe.prep_time),
        cook_time: optional_duration_text(recipe.cook_time),
        total_time: iso_duration_text(recipe.total_time.spec_secs(), recipe.total_time.spec_nanos()),
        author_id,
        serves: recipe.serves as i64,
        e_tag: recipe.etag,
        organisation_id: recipe.organization_id,
        locale: recipe.locale,
        created_at: recipe.created_at,
        modified_at: recipe.modified_at,
        published_at,
        created_by_id: recipe.created_by_id,
        steps: recipe.steps,
        ingredients: recipe.ingredients,
        is_custom,
    }
}

/// Whether a recipe can be imported with the given author ids: its author is
/// known and it has been published.
pub open spec fn importable(recipe: RecipeView, ids: Map<Seq<char>, i64>) -> bool {
    ids.contains_key(recipe.author.name) && recipe.published_at is Some
}

/// The row of an imported recipe: its author's id is looked up by name, and
/// the recipe is marked as not written here.
pub open spec fn imported_row(recipe: RecipeView, ids: Map<Seq<char>, i64>) -> RecipeRowView {
    recipe_row(recipe, ids[recipe.author.name], recipe.published_at->0, false)
}

fn duration_text(duration: &Option<Duration>) -> (text: Option<String>)
    ensures
        text.deep_view() == optional_duration_text(*duration),
{
    match duration {
        Some(d) => Some(d.to_text()),
        None => None,
    }
}

/// Builds the row of a recipe.
pub fn build_recipe_row(recipe: &Recipe, author_id: i64, published_at: Timestamp, is_custom: bool) -> (row:
    RecipeRow)
    ensures
        row.deep_view() == recipe_row(recipe.deep_view(), author_id, published_at, is_custom),
{
    RecipeRow {
        id: recipe.id.clone(),
        name: recipe.name.clone(),
        description: recipe.description.clone(),
        prep_time: duration_text(&recipe.prep_time),
        cook_time: duration_text(&recipe.cook_time),
        total_time: recipe.total_time.to_text(),
        author_id,
        serves: recipe.serves as i64,
        e_tag: recipe.etag.clone(),
        organisation_id: recipe.organization_id.clone(),
        locale: recipe.locale.clone(),
        created_at: recipe.created_at,
        modified_at: recipe.modified_at,
        published_at,
        created_by_id: recipe.created_by_id.clone(),
        steps: clone_steps(&recipe.steps),
        ingredients: clone_ingredients(&recipe.ingredients),
        is_custom,
    }
}

/// The rows of a list of recipes to import, one for each recipe and in the
/// same order, or the first recipe that cannot be imported. A recipe whose
/// author is not in the index is reported as such; one whose author is known
/// but which has no date of publication, as not published.
pub fn recipe_rows(recipes: &[Recipe], authors: &AuthorIndex) -> (res: Result<
    Vec<RecipeRow>,
    IngestError,
>)
    ensures
        match res {
            Ok(rows) => {
                &&& forall|i: int|
                    0 <= i < recipes.len() ==> importable(
                        (#[trigger] recipes[i]).deep_view(),
                        authors@,
                    )
                &&& rows.deep_view() == recipes.deep_view().map_values(
                    |r: RecipeView| imported_row(r, authors@),
                )
            },
            Err(IngestError::UnknownAuthor { recipe }) => {
                &&& recipe < recipes.len()
                &&& !authors@.contains_key(recipes[recipe as int].author.name@)
                &&& forall|i: int|
                    0 <= i < recipe ==> importable((#[trigger] recipes[i]).deep_view(), authors@)
            },
            Err(IngestError::NotPublished { recipe }) => {
                &&& recipe < recipes.len()
                &&& authors@.contains_key(recipes[recipe as int].author.name@)
                &&& recipes[recipe as int].published_at is None
                &&& forall|i: int|
                    0 <= i < recipe ==> importable((#[trigger] recipes[i]).deep_view(), authors@)
            },
            Err(IngestError::StoreFull) => false,
            Err(IngestError::MissingReference { .. }) => false,
        },
{
    let mut rows: Vec<RecipeRow> = Vec::new();
    let mut k: usize = 0;
    while k < recipes.len()
        invariant
            k <= recipes.len(),
            rows.len() == k,
            forall|i: int|
                0 <= i < k ==> importable((#[trigger] recipes[i]).deep_view(), authors@),
            forall|i: int|
                0 <= i < k ==> (#[trigger] rows[i]).deep_view() == imported_row(
                    recipes[i].deep_view(),
                    authors@,
                ),
        decreases recipes.len() - k,
    {
        let recipe = &recipes[k];
        let author_id = match authors.get(recipe.author.name.as_str()) {
            Some(id) => id,
            None => {
                return Err(IngestError::UnknownAuthor { recipe: k });
            },
        };
        let published_at = match recipe.published_at {
            Some(at) => at,
            None => {
                return Err(IngestError::NotPublished { recipe: k });
            },
        };
        rows.push(build_recipe_row(recipe, author_id, published_at, false));
        k += 1;
    }
    assert(rows.deep_view() =~= recipes.deep_view().map_values(
        |r: RecipeView| imported_row(r, authors@),
    ));
    Ok(rows)
}

/// Where the first `k` batches end: after `k * size` rows, or at the end of
/// the rows where that comes first.
pub open spec fn batches_end(len: nat, size: nat, k: int) -> int {
    if k * size <= len {
        k * size
    } else {
        len as int
    }
}

/// The batches follow one another without a gap: the rows before batch `k`
/// and batch `k` are the rows before batch `k + 1`. Before the first batch
/// there is no row, after the last there are all.
pub proof fn lemma_batches_follow<T>(rows: Seq<T>, size: nat, k: int)
    requires
        size > 0,
        0 <= k < batched(rows, size).len(),
    ensures
        0 <= batches_end(rows.len(), size, k) <= batches_end(rows.len(), size, k + 1) <= rows.len(),
        rows.take(batches_end(rows.len(), size, k)) + batched(rows, size)[k] == rows.take(
            batches_end(rows.len(), size, k + 1),
        ),
        batches_end(rows.len(), size, 0) == 0,
        batches_end(rows.len(), size, batched(rows, size).len() as int) == rows.len(),
{
    let n = batch_count(rows.len(), size) as int;
    let len = rows.len() as int;
    let sz = size as int;
    assert((n - 1) * sz < len <= n * sz && 0 * sz == 0) by (nonlinear_arith)
        requires
            n == (len + sz - 1) / sz,
            sz > 0,
            len >= 0,
    ;
    assert(0 <= k * sz && k * sz <= (n - 1) * sz && (k + 1) * sz == k * sz + sz && (k < n - 1 ==> (
    k + 1) * sz <= (n - 1) * sz)) by (nonlinear_arith)
        requires
            0 <= k < n,
            sz > 0,
    ;
    assert(rows.take(batches_end(rows.len(), size, k)) + batched(rows, size)[k] =~= rows.take(
        batches_end(rows.len(), size, k + 1),
    ));
}

/// No rows give no batches.
pub proof fn lemma_no_batches<T>(rows: Seq<T>, size: nat)
    requires
        size > 0,
        batched(rows, size).len() == 0,
    ensures
        rows.len() == 0,
{
    lemma_batched_shape(rows, size);
}

/// Imports ingredient records: one ingredient row for each, ignoring those
/// whose id is present.
pub fn insert_ingredients(store: &mut Store, ingredients: &[IngestIngredient])
    requires
        old(store).wf(),
    ensures
        final(store).wf(),
        final(store)@ == (StoreView {
            ingredients: insert_all_ignore::<IngredientRow>(
                old(store)@.ingredients,
                ingredients.deep_view().map_values(|r: IngestIngredientView| ingredient_row(r)),
            ),
            ..old(store)@
        }),
{
    store.insert_ingredient_rows(ingredient_rows(ingredients));
}

/// Imports preparations: one preparation row for each, ignoring those whose
/// id is present.
pub fn insert_preparations(store: &mut Store, preparations: &[ReferencePreparation])
    requires
        old(store).wf(),
    ensures
        final(store).wf(),
        final(store)@ == (StoreView {
            preparations: insert_all_ignore::<PreparationRow>(
                old(store)@.preparations,
                preparations.deep_view(),
            ),
            ..old(store)@
        }),
{
    store.insert_preparation_rows(preparation_rows(preparations));
}

/// Imports unit records: one unit row for each, ignoring those whose id is
/// present. Missing optional values give null columns.
pub fn insert_units(store: &mut Store, units: &[IngestUnit])
    requires
        old(store).wf(),
    ensures
        final(store).wf(),
        final(store)@ == (StoreView {
            units: insert_all_ignore::<UnitRow>(
                old(store)@.units,
                units.deep_view().map_values(|r: IngestUnitView| unit_row(r)),
            ),
            ..old(store)@
        }),
{
    store.insert_unit_rows(unit_rows(units));
}

/// Imports the allowed units of ingredient records: one pair for each
/// allowed unit of each record, sent in batches of `BATCH_SIZE` and ignoring
/// pairs that are present. Where the batches are cut makes no difference to
/// what the join table holds afterwards.
///
/// A batch with a pair whose ingredient or unit is not in the store is
/// refused as a whole, and the import stops there with the batches before it
/// in the store.
pub fn insert_ingredient_units(store: &mut Store, ingredients: &[IngestIngredient]) -> (res: Result<
    (),
    IngestError,
>)
    requires
        old(store).wf(),
    ensures
        final(store).wf(),
        res is Ok <==> forall|i: int|
            0 <= i < links(ingredients.deep_view()).len() ==> link_refers(
                old(store)@,
                #[trigger] links(ingredients.deep_view())[i],
            ),
        match res {
            Ok(()) => {
                &&& forall|i: int|
                    0 <= i < links(ingredients.deep_view()).len() ==> link_refers(
                        old(store)@,
                        #[trigger] links(ingredients.deep_view())[i],
                    )
                &&& final(store)@ == (StoreView {
                    ingredient_units: link_all_ignore(
                        old(store)@.ingredient_units,
                        links(ingredients.deep_view()),
                    ),
                    ..old(store)@
                })
            },
            Err(IngestError::MissingReference { batch }) => stopped_at(
                old(store)@,
                links(ingredients.deep_view()),
                batch as int,
                final(store)@,
            ),
            Err(_) => false,
        },
{
    let rows = ingredient_unit_rows(ingredients);
    let ghost all = rows.deep_view();
    let ghost before = store@.ingredient_units;
    let ghost exec_rows = rows@;
    let parts = batches(rows, BATCH_SIZE);
    let ghost cut = batched(exec_rows, BATCH_SIZE as nat);
    let ghost parts_seq = parts@;
    proof {
        assert(link_all_ignore(before, all.take(0)) == before);
        assert(batches_end(all.len(), BATCH_SIZE as nat, 0) == 0);
        if cut.len() == 0 {
            lemma_no_batches(exec_rows, BATCH_SIZE as nat);
        }
        assert(batched(all, BATCH_SIZE as nat).len() == cut.len());
        assert(parts_seq.len() == parts.len());
    }
    let mut k: usize = 0;
    for part in it: parts
        invariant
            it.seq() == parts_seq,
            parts_seq.len() <= usize::MAX,
            k == it.index(),
            parts_seq.map_values(|b: Vec<IngredientUnitRow>| b@) == cut,
            cut == batched(exec_rows, BATCH_SIZE as nat),
            cut.len() == batched(all, BATCH_SIZE as nat).len(),
            all == Seq::new(exec_rows.len(), |i: int| exec_rows[i].deep_view()),
            all == links(ingredients.deep_view()),
            store.wf(),
            store@ == (StoreView {
                ingredient_units: link_all_ignore(
                    before,
                    all.take(batches_end(all.len(), BATCH_SIZE as nat, it.index() as int)),
                ),
                ..old(store)@
            }),
            before == old(store)@.ingredient_units,
            forall|i: int|
                0 <= i < batches_end(all.len(), BATCH_SIZE as nat, it.index() as int)
                    ==> link_refers(old(store)@, #[trigger] all[i]),
            cut.len() == 0 ==> all.len() == 0,
    {
        let ghost done = batches_end(all.len(), BATCH_SIZE as nat, k as int);
        let ghost next = batches_end(all.len(), BATCH_SIZE as nat, k + 1);
        proof {
            assert(parts_seq.map_values(|b: Vec<IngredientUnitRow>| b@)[k as int] == part@);
            lemma_batches_follow(exec_rows, BATCH_SIZE as nat, k as int);
            assert(exec_rows.take(done) + part@ == exec_rows.take(next));
            assert forall|i: int| 0 <= i < part@.len() implies part.deep_view()[i] == all[done
                + i] by {
                assert((exec_rows.take(done) + part@)[done + i] == part@[i]);
            }
            assert(part@.len() == next - done) by {
                assert((exec_rows.take(done) + part@).len() == exec_rows.take(next).len());
            }
            assert(all.take(done) + part.deep_view() =~= all.take(next));
            lemma_link_in_parts(before, all.take(done), part.deep_view());
        }
        match store.insert_ingredient_unit_rows(part) {
            Ok(()) => {
                assert forall|i: int| 0 <= i < next implies link_refers(
                    old(store)@,
                    #[trigger] all[i],
                ) by {
                    if i >= done {
                        assert(part[i - done].deep_view() == all[i]);
                    }
                }
            },
            Err(_) => {
                proof {
                    let i = choose|i: int|
                        0 <= i < part.len() && !link_refers(
                            old(store)@,
                            (#[trigger] part[i]).deep_view(),
                        );
                    assert(!link_refers(old(store)@, all[done + i]));
                }
                return Err(IngestError::MissingReference { batch: k });
            },
        }
        k += 1;
    }
    proof {
        if cut.len() > 0 {
            lemma_batches_follow(exec_rows, BATCH_SIZE as nat, cut.len() - 1);
        }
        assert(all.take(all.len() as int) =~= all);
    }
    Ok(())
}

/// How an import of allowed units stands that stopped at batch `batch`: a
/// pair of that batch names an ingredient or a unit that is not in the store,
/// no pair of an earlier batch does, and the pairs of the earlier batches are
/// in the join table.
pub open spec fn stopped_at(
    before: StoreView,
    pairs: Seq<IngredientUnitRowView>,
    batch: int,
    after: StoreView,
) -> bool {
    let done = batches_end(pairs.len(), BATCH_SIZE as nat, batch);
    let next = batches_end(pairs.len(), BATCH_SIZE as nat, batch + 1);
    &&& 0 <= batch < batched(pairs, BATCH_SIZE as nat).len()
    &&& exists|i: int| done <= i < next && !link_refers(before, #[trigger] pairs[i])
    &&& forall|i: int| 0 <= i < done ==> link_refers(before, #[trigger] pairs[i])
    &&& after == (StoreView {
        ingredient_units: link_all_ignore(before.ingredient_units, pairs.take(done)),
        ..before
    })
}

/// Every author of a list of recipes is found by name once the authors that
/// the list gives rise to are in the store, and the id found is that of an
/// author of the store. So the author of no recipe of an import is unknown.
pub proof fn lemma_authors_known(authors: Seq<AuthorRowView>, recipes: Seq<RecipeView>, i: int)
    requires
        0 <= i < recipes.len(),
        forall|j: int| 0 <= j < authors.len() ==> (#[trigger] authors[j]).id == j + 1,
        authors.len() + distinct_by_name(authors_of(recipes)).len() <= i64::MAX,
    ensures
        author_index(
            with_authors(authors, distinct_by_name(authors_of(recipes))),
        ).contains_key(recipes[i].author.name),
        1 <= author_index(with_authors(authors, distinct_by_name(authors_of(recipes))))[recipes[i].author.name]
            <= authors.len() + distinct_by_name(authors_of(recipes)).len(),
{
    let given = authors_of(recipes);
    let kept = distinct_by_name(given);
    let rows = with_authors(authors, kept);
    let name = recipes[i].author.name;
    lemma_distinct_names_kept(given);
    assert(given[i].name == name);
    assert(has_name(given, name));
    assert(has_name(kept, name));
    let k = choose|k: int| 0 <= k < kept.len() && (#[trigger] kept[k]).name == name;
    assert(rows[authors.len() + k].name == name);
    lemma_author_index(rows, name);
    let j = choose|j: int|
        0 <= j < rows.len() && (#[trigger] rows[j]).name == name && rows[j].id == author_index(
            rows,
        )[name];
    if j < authors.len() {
        assert(rows[j] == authors[j]);
    }
}

/// Imports recipes.
///
/// The authors of the recipes, one for each name, are inserted first and
/// unconditionally. Then every recipe is given the id of the author of its
/// name, the last of that name in the store, and all recipes must have been
/// published: where one has not, no recipe is inserted and the first such
/// recipe is reported. The rows are sent in batches of `BATCH_SIZE`, ignoring
/// recipes whose id is present; they are marked as not written here.
pub fn insert_recipes(store: &mut Store, recipes: &[Recipe]) -> (res: Result<(), IngestError>)
    requires
        old(store).wf(),
    ensures
        final(store).wf(),
        res is Ok <==> authors_fit(old(store)@, recipes.deep_view()) && forall|i: int|
            0 <= i < recipes.len() ==> (#[trigger] recipes[i]).published_at is Some,
        match res {
            Ok(()) => {
                &&& forall|i: int|
                    0 <= i < recipes.len() ==> (#[trigger] recipes[i]).published_at is Some
                &&& final(store)@ == (StoreView {
                    authors: imported_authors(old(store)@.authors, recipes.deep_view()),
                    recipes: insert_all_ignore::<RecipeRow>(
                        old(store)@.recipes,
                        imported_rows(old(store)@.authors, recipes.deep_view()),
                    ),
                    ..old(store)@
                })
            },
            Err(IngestError::NotPublished { recipe }) => {
                &&& authors_fit(old(store)@, recipes.deep_view())
                &&& recipe < recipes.len()
                &&& recipes[recipe as int].published_at is None
                &&& forall|i: int|
                    0 <= i < recipe ==> (#[trigger] recipes[i]).published_at is Some
                &&& final(store)@ == (StoreView {
                    authors: imported_authors(old(store)@.authors, recipes.deep_view()),
                    ..old(store)@
                })
            },
            Err(IngestError::StoreFull) => {
                &&& !authors_fit(old(store)@, recipes.deep_view())
                &&& final(store)@ == old(store)@
            },
            Err(IngestError::UnknownAuthor { .. }) => false,
            Err(IngestError::MissingReference { .. }) => false,
        },
{
    let ghost records = recipes.deep_view();
    let ghost old_authors = store@.authors;
    let ghost old_recipes = store@.recipes;
    let authors = distinct_authors(recipes);
    match store.insert_authors(authors) {
        Ok(()) => {},
        Err(_) => {
            return Err(IngestError::StoreFull);
        },
    }
    let ghost new_authors = store@.authors;
    let index = AuthorIndex::new(store.authors().as_slice());
    proof {
        assert forall|i: int| 0 <= i < recipes.len() implies index@.contains_key(
            (#[trigger] recipes[i]).author.name@,
        ) && 1 <= index@[recipes[i].author.name@] <= new_authors.len() by {
            lemma_authors_known(old_authors, records, i);
            assert(records[i].author.name == recipes[i].author.name@);
        }
    }
    let rows = match recipe_rows(recipes, &index) {
        Ok(rows) => rows,
        Err(e) => {
            return Err(e);
        },
    };
    let ghost all = rows.deep_view();
    let ghost exec_rows = rows@;
    assert(all =~= imported_rows(old_authors, records));
    let parts = batches(rows, BATCH_SIZE);
    let ghost cut = batched(exec_rows, BATCH_SIZE as nat);
    let ghost parts_seq = parts@;
    proof {
        assert(insert_all_ignore::<RecipeRow>(old_recipes, all.take(0)) == old_recipes);
        assert(batches_end(all.len(), BATCH_SIZE as nat, 0) == 0);
        if cut.len() == 0 {
            lemma_no_batches(exec_rows, BATCH_SIZE as nat);
        }
    }
    for part in it: parts
        invariant
            it.seq() == parts_seq,
            parts_seq.map_values(|b: Vec<RecipeRow>| b@) == cut,
            cut == batched(exec_rows, BATCH_SIZE as nat),
            all == Seq::new(exec_rows.len(), |i: int| exec_rows[i].deep_view()),
            forall|i: int|
                0 <= i < all.len() ==> 1 <= (#[trigger] all[i]).author_id <= new_authors.len(),
            store.wf(),
            store@ == (StoreView {
                authors: new_authors,
                recipes: insert_all_ignore::<RecipeRow>(
                    old_recipes,
                    all.take(batches_end(all.len(), BATCH_SIZE as nat, it.index() as int)),
                ),
                ..old(store)@
            }),
            cut.len() == 0 ==> all.len() == 0,
    {
        let ghost k = it.index() as int;
        proof {
            assert(parts_seq.map_values(|b: Vec<RecipeRow>| b@)[k] == part@);
            lemma_batches_follow(exec_rows, BATCH_SIZE as nat, k);
            let done = batches_end(all.len(), BATCH_SIZE as nat, k);
            let next = batches_end(all.len(), BATCH_SIZE as nat, k + 1);
            assert(exec_rows.take(done) + part@ == exec_rows.take(next));
            assert forall|i: int| 0 <= i < part@.len() implies part.deep_view()[i] == all[done
                + i] by {
                assert((exec_rows.take(done) + part@)[done + i] == part@[i]);
            }
            assert(all.take(done) + part.deep_view() =~= all.take(next));
            lemma_insert_in_parts::<RecipeRow>(old_recipes, all.take(done), part.deep_view());
            assert forall|i: int| 0 <= i < part.len() implies 1 <= (#[trigger] part[i]).author_id
                <= new_authors.len() by {
                assert(part[i].deep_view() == all[done + i]);
            }
        }
        match store.insert_recipe_rows(part) {
            Ok(()) => {},
            Err(_) => {
                unreached::<()>();
            },
        }
    }
    proof {
        if cut.len() > 0 {
            lemma_batches_follow(exec_rows, BATCH_SIZE as nat, cut.len() - 1);
        }
        assert(all.take(all.len() as int) =~= all);
    }
    Ok(())
}

/// Whether the store has numbers left for the authors that a list of recipes
/// gives rise to: one for each name among them.
pub open spec fn authors_fit(store: StoreView, recipes: Seq<RecipeView>) -> bool {
    store.authors.len() + distinct_by_name(authors_of(recipes)).len() <= i64::MAX
}

/// The author table after the authors of a list of recipes are imported.
pub open spec fn imported_authors(authors: Seq<AuthorRowView>, recipes: Seq<RecipeView>) -> Seq<
    AuthorRowView,
> {
    with_authors(authors, distinct_by_name(authors_of(recipes)))
}

/// The recipe rows of an import into a store with the given authors: the
/// authors of the recipes are inserted, and each recipe gets the id under
/// which its author's name is then found.
pub open spec fn imported_rows(authors: Seq<AuthorRowView>, recipes: Seq<RecipeView>) -> Seq<
    RecipeRowView,
> {
    recipes.map_values(
        |r: RecipeView| imported_row(r, author_index(imported_authors(authors, recipes))),
    )
}

} // verus!
