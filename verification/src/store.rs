//! The store held in memory: the six tables of the relational schema and the
//! table of recipe pictures, with the statements that the importer and the
//! editor run against them.
//!
//! Ingredients, units, preparations, recipes and pictures are tables in the
//! order of their ids. The join table keeps the order of insertion and holds
//! no pair twice. Authors are numbered from 1 in the order of insertion and
//! never leave, and the author of every recipe row is one of them.

use crate::model::{Author, AuthorView, Named, Timestamp};
use crate::schema::{
    AuthorRow, AuthorRowView, ImageRow, ImageRowView, IngredientRow, IngredientUnitRow,
    IngredientUnitRowView, PreparationRow, RecipeRow, RecipeRowView, UnitRow, UnitRowView,
};
use crate::table::{
    ascending, has_key, insert_all_ignore, insert_rows, lemma_insert_all_ignore,
    lemma_insert_ignore, lemma_rank, locate, precedes, rank, str_equal, Keyed,
};
use vstd::prelude::*;

verus! {

/// The join table after a pair is inserted with conflicts ignored: a pair
/// that is present changes nothing, a new one goes to the end.
pub open spec fn link_ignore(rows: Seq<IngredientUnitRowView>, row: IngredientUnitRowView) -> Seq<
    IngredientUnitRowView,
> {
    if rows.contains(row) {
        rows
    } else {
        rows.push(row)
    }
}

/// The join table after a list of pairs is inserted one after the other with
/// conflicts ignored.
pub open spec fn link_all_ignore(
    rows: Seq<IngredientUnitRowView>,
    new: Seq<IngredientUnitRowView>,
) -> Seq<IngredientUnitRowView>
    decreases new.len(),
{
    if new.len() == 0 {
        rows
    } else {
        link_ignore(link_all_ignore(rows, new.drop_last()), new.last())
    }
}

/// The author table after new authors are inserted: each gets the next free
/// number, in the order given.
pub open spec fn with_authors(rows: Seq<AuthorRowView>, new: Seq<AuthorView>) -> Seq<
    AuthorRowView,
> {
    rows + Seq::new(
        new.len(),
        |k: int|
            AuthorRowView {
                id: (rows.len() + k + 1) as i64,
                name: new[k].name,
                image: new[k].image,
                url: new[k].url,
            },
    )
}

/// The picture table after a picture is stored: it replaces the picture of
/// the same id or takes its place in the order.
pub open spec fn with_image(rows: Seq<ImageRowView>, row: ImageRowView) -> Seq<ImageRowView> {
    if has_key::<ImageRow>(rows, row.id) {
        rows.update(rank::<ImageRow>(rows, row.id), row)
    } else {
        rows.insert(rank::<ImageRow>(rows, row.id), row)
    }
}

/// The place of the first author of the given name.
pub open spec fn first_named(authors: Seq<AuthorRowView>, name: Seq<char>) -> Option<int>
    decreases authors.len(),
{
    if authors.len() == 0 {
        None
    } else {
        match first_named(authors.drop_last(), name) {
            Some(place) => Some(place),
            None => if authors.last().name == name {
                Some(authors.len() - 1)
            } else {
                None
            },
        }
    }
}

/// The first author of a name bears that name and no author before it does;
/// where there is none, no author bears the name.
pub proof fn lemma_first_named(authors: Seq<AuthorRowView>, name: Seq<char>)
    ensures
        match first_named(authors, name) {
            Some(place) => {
                &&& 0 <= place < authors.len()
                &&& authors[place].name == name
                &&& forall|j: int| 0 <= j < place ==> (#[trigger] authors[j]).name != name
            },
            None => forall|j: int| 0 <= j < authors.len() ==> (#[trigger] authors[j]).name != name,
        },
    decreases authors.len(),
{
    if authors.len() > 0 {
        let init = authors.drop_last();
        lemma_first_named(init, name);
        match first_named(init, name) {
            Some(place) => {
                assert(init[place] == authors[place]);
                assert forall|j: int| 0 <= j < place implies (#[trigger] authors[j]).name
                    != name by {
                    assert(init[j] == authors[j]);
                }
            },
            None => {
                assert forall|j: int| 0 <= j < authors.len() - 1 implies (#[trigger] authors[j]).name
                    != name by {
                    assert(init[j] == authors[j]);
                }
            },
        }
    }
}

/// The author table once the given author has a row: the table itself where
/// an author of that name is present, else the table with the author added.
pub open spec fn authors_with(authors: Seq<AuthorRowView>, author: AuthorView) -> Seq<AuthorRowView> {
    if first_named(authors, author.name) is Some {
        authors
    } else {
        with_authors(authors, seq![author])
    }
}

/// The number of the first author of the given name, or the number that a
/// new author would get.
pub open spec fn author_id_for(authors: Seq<AuthorRowView>, name: Seq<char>) -> int {
    match first_named(authors, name) {
        Some(place) => place + 1,
        None => authors.len() as int + 1,
    }
}

/// The recipe table after the row of a recipe is replaced by `row`, changed
/// at `now`.
pub open spec fn with_recipe_updated(rows: Seq<RecipeRowView>, row: RecipeRowView, now: Timestamp) -> Seq<
    RecipeRowView,
> {
    rows.update(rank::<RecipeRow>(rows, row.id), RecipeRowView { modified_at: now, ..row })
}

/// Whether the ingredient and the unit of a pair are in the store.
pub open spec fn link_refers(store: StoreView, link: IngredientUnitRowView) -> bool {
    &&& has_key::<IngredientRow>(store.ingredients, link.ingredient_id)
    &&& has_key::<UnitRow>(store.units, link.unit_id)
}

/// What a store holds.
pub struct StoreView {
    pub ingredients: Seq<Named>,
    pub preparations: Seq<Named>,
    pub units: Seq<UnitRowView>,
    pub ingredient_units: Seq<IngredientUnitRowView>,
    pub authors: Seq<AuthorRowView>,
    pub recipes: Seq<RecipeRowView>,
    pub images: Seq<ImageRowView>,
}

impl StoreView {
    /// The constraints of the schema: ids are unique and tables are kept in
    /// their order, no pair is linked twice and every pair links an
    /// ingredient and a unit of the store, authors are numbered from 1
    /// without gaps, and every recipe has its author.
    pub open spec fn well_formed(self) -> bool {
        &&& ascending::<IngredientRow>(self.ingredients)
        &&& ascending::<PreparationRow>(self.preparations)
        &&& ascending::<UnitRow>(self.units)
        &&& ascending::<RecipeRow>(self.recipes)
        &&& ascending::<ImageRow>(self.images)
        &&& self.ingredient_units.no_duplicates()
        &&& forall|i: int|
            0 <= i < self.ingredient_units.len() ==> link_refers(
                self,
                #[trigger] self.ingredient_units[i],
            )
        &&& self.authors.len() <= i64::MAX
        &&& forall|i: int| 0 <= i < self.authors.len() ==> (#[trigger] self.authors[i]).id == i + 1
        &&& forall|i: int|
            0 <= i < self.recipes.len() ==> 1 <= (#[trigger] self.recipes[i]).author_id
                <= self.authors.len()
    }
}

/// Why the store refuses a statement.
#[derive(Clone, Copy, Debug, PartialEq, Eq, Structural)]
pub enum StoreError {
    /// No number is left for another author.
    Full,
    /// A recipe row names an author that the store does not hold.
    UnknownAuthor,
    /// A pair names an ingredient or a unit that the store does not hold.
    MissingReference,
    /// A recipe of this id is present already.
    DuplicateRecipe,
    /// No recipe of this id is present.
    RecipeNotFound,
    /// The recipe has no date of publication.
    NotPublished,
}

impl StoreError {
    /// What to tell the caller.
    pub fn message(&self) -> (text: String)
        ensures
            text@ == match *self {
                StoreError::Full => "No author id is left"@,
                StoreError::UnknownAuthor => "FOREIGN KEY constraint failed"@,
                StoreError::MissingReference => "FOREIGN KEY constraint failed"@,
                StoreError::DuplicateRecipe => "UNIQUE constraint failed: recipe.id"@,
                StoreError::RecipeNotFound => "None of the records are updated"@,
                StoreError::NotPublished => "Recipe has no date of publication"@,
            },
    {
        match self {
            StoreError::Full => "No author id is left".to_owned(),
            StoreError::UnknownAuthor => "FOREIGN KEY constraint failed".to_owned(),
            StoreError::MissingReference => "FOREIGN KEY constraint failed".to_owned(),
            StoreError::DuplicateRecipe => "UNIQUE constraint failed: recipe.id".to_owned(),
            StoreError::RecipeNotFound => "None of the records are updated".to_owned(),
            StoreError::NotPublished => "Recipe has no date of publication".to_owned(),
        }
    }
}

/// The tables.
pub struct Store {
    ingredients: Vec<IngredientRow>,
    preparations: Vec<PreparationRow>,
    units: Vec<UnitRow>,
    ingredient_units: Vec<IngredientUnitRow>,
    authors: Vec<AuthorRow>,
    recipes: Vec<RecipeRow>,
    images: Vec<ImageRow>,
}

impl View for Store {
    type V = StoreView;

    closed spec fn view(&self) -> StoreView {
        StoreView {
            ingredients: self.ingredients.deep_view(),
            preparations: self.preparations.deep_view(),
            units: self.units.deep_view(),
            ingredient_units: self.ingredient_units.deep_view(),
            authors: self.authors.deep_view(),
            recipes: self.recipes.deep_view(),
            images: self.images.deep_view(),
        }
    }
}

impl Store {
    /// Whether the store meets the constraints of the schema.
    pub open spec fn wf(&self) -> bool {
        self@.well_formed()
    }

    /// A store with all tables empty.
    pub fn new() -> (store: Store)
        ensures
            store.wf(),
            store@.ingredients.len() == 0,
            store@.preparations.len() == 0,
            store@.units.len() == 0,
            store@.ingredient_units.len() == 0,
            store@.authors.len() == 0,
            store@.recipes.len() == 0,
            store@.images.len() == 0,
    {
        Store {
            ingredients: Vec::new(),
            preparations: Vec::new(),
            units: Vec::new(),
            ingredient_units: Vec::new(),
            authors: Vec::new(),
            recipes: Vec::new(),
            images: Vec::new(),
        }
    }

    /// The ingredient table, in the order of its ids.
    pub fn ingredients(&self) -> (rows: &Vec<IngredientRow>)
        ensures
            rows.deep_view() == self@.ingredients,
    {
        &self.ingredients
    }

    /// The preparation table, in the order of its ids.
    pub fn preparations(&self) -> (rows: &Vec<PreparationRow>)
        ensures
            rows.deep_view() == self@.preparations,
    {
        &self.preparations
    }

    /// The unit table, in the order of its ids.
    pub fn units(&self) -> (rows: &Vec<UnitRow>)
        ensures
            rows.deep_view() == self@.units,
    {
        &self.units
    }

    /// The join table, in the order of insertion.
    pub fn ingredient_units(&self) -> (rows: &Vec<IngredientUnitRow>)
        ensures
            rows.deep_view() == self@.ingredient_units,
    {
        &self.ingredient_units
    }

    /// The author table, in the order of the authors' numbers.
    pub fn authors(&self) -> (rows: &Vec<AuthorRow>)
        ensures
            rows.deep_view() == self@.authors,
    {
        &self.authors
    }

    /// The recipe table, in the order of its ids.
    pub fn recipes(&self) -> (rows: &Vec<RecipeRow>)
        ensures
            rows.deep_view() == self@.recipes,
    {
        &self.recipes
    }

    /// Inserts ingredient rows, ignoring those whose id is present.
    pub fn insert_ingredient_rows(&mut self, rows: Vec<IngredientRow>)
        requires
            old(self).wf(),
        ensures
            final(self).wf(),
            final(self)@ == (StoreView {
                ingredients: insert_all_ignore::<IngredientRow>(
                    old(self)@.ingredients,
                    rows.deep_view(),
                ),
                ..old(self)@
            }),
    {
        proof {
            lemma_insert_all_ignore::<IngredientRow>(self@.ingredients, rows.deep_view());
        }
        insert_rows(&mut self.ingredients, rows);
    }

    /// Inserts preparation rows, ignoring those whose id is present.
    pub fn insert_preparation_rows(&mut self, rows: Vec<PreparationRow>)
        requires
            old(self).wf(),
        ensures
            final(self).wf(),
            final(self)@ == (StoreView {
                preparations: insert_all_ignore::<PreparationRow>(
                    old(self)@.preparations,
                    rows.deep_view(),
                ),
                ..old(self)@
            }),
    {
        insert_rows(&mut self.preparations, rows);
    }

    /// Inserts unit rows, ignoring those whose id is present.
    pub fn insert_unit_rows(&mut self, rows: Vec<UnitRow>)
        requires
            old(self).wf(),
        ensures
            final(self).wf(),
            final(self)@ == (StoreView {
                units: insert_all_ignore::<UnitRow>(old(self)@.units, rows.deep_view()),
                ..old(self)@
            }),
    {
        proof {
            lemma_insert_all_ignore::<UnitRow>(self@.units, rows.deep_view());
        }
        insert_rows(&mut self.units, rows);
    }

    /// Inserts pairs into the join table as one statement, ignoring those
    /// that are present. Where a pair names an ingredient or a unit that the
    /// store does not hold, nothing is inserted.
    pub fn insert_ingredient_unit_rows(&mut self, rows: Vec<IngredientUnitRow>) -> (res: Result<
        (),
        StoreError,
    >)
        requires
            old(self).wf(),
        ensures
            final(self).wf(),
            res is Ok <==> forall|i: int|
                0 <= i < rows.len() ==> link_refers(old(self)@, (#[trigger] rows[i]).deep_view()),
            res matches Err(e) ==> e == StoreError::MissingReference && final(self)@ == old(self)@,
            res is Ok ==> final(self)@ == (StoreView {
                ingredient_units: link_all_ignore(old(self)@.ingredient_units, rows.deep_view()),
                ..old(self)@
            }),
    {
        let mut c: usize = 0;
        while c < rows.len()
            invariant
                c <= rows.len(),
                self@ == old(self)@,
                self.wf(),
                forall|i: int| 0 <= i < c ==> link_refers(self@, (#[trigger] rows[i]).deep_view()),
            decreases rows.len() - c,
        {
            let known = self.ingredient(rows[c].ingredient_id.as_str()).is_some() && self.unit(
                rows[c].unit_id.as_str(),
            ).is_some();
            if !known {
                return Err(StoreError::MissingReference);
            }
            c += 1;
        }
        let ghost before = self@.ingredient_units;
        let ghost all = rows.deep_view();
        let ghost news = rows@;
        for row in it: rows
            invariant
                it.seq() == news,
                all == Seq::new(news.len(), |i: int| news[i].deep_view()),
                forall|i: int| 0 <= i < all.len() ==> link_refers(old(self)@, #[trigger] all[i]),
                self@ == (StoreView {
                    ingredient_units: link_all_ignore(before, all.take(it.index() as int)),
                    ..old(self)@
                }),
                self.wf(),
        {
            assert(all.take(it.index() + 1).drop_last() =~= all.take(it.index() as int));
            assert(row.deep_view() == all[it.index() as int]);
            let ghost links = self.ingredient_units.deep_view();
            let mut present = false;
            let mut k: usize = 0;
            while k < self.ingredient_units.len()
                invariant
                    k <= self.ingredient_units.len(),
                    links == self.ingredient_units.deep_view(),
                    present <==> exists|j: int| 0 <= j < k && links[j] == row.deep_view(),
                decreases self.ingredient_units.len() - k,
            {
                let other = &self.ingredient_units[k];
                if other.ingredient_id == row.ingredient_id && other.unit_id == row.unit_id {
                    assert(links[k as int] == row.deep_view());
                    present = true;
                }
                k += 1;
            }
            if !present {
                self.ingredient_units.push(row);
                assert(self.ingredient_units.deep_view() =~= links.push(row.deep_view()));
            }
        }
        assert(all.take(news.len() as int) =~= all);
        Ok(())
    }

    /// Inserts new authors. Each gets the next free number; authors of one
    /// name are not told apart, so an author that is present is inserted
    /// again. Nothing is inserted where the numbers run out.
    pub fn insert_authors(&mut self, new: Vec<Author>) -> (res: Result<(), StoreError>)
        requires
            old(self).wf(),
        ensures
            final(self).wf(),
            res is Ok <==> old(self)@.authors.len() + new.len() <= i64::MAX,
            res matches Err(e) ==> e == StoreError::Full && final(self)@ == old(self)@,
            res is Ok ==> final(self)@ == (StoreView {
                authors: with_authors(old(self)@.authors, new.deep_view()),
                ..old(self)@
            }),
    {
        let have: u128 = self.authors.len() as u128;
        let more: u128 = new.len() as u128;
        if have + more > i64::MAX as u128 {
            return Err(StoreError::Full);
        }
        let ghost before = self@.authors;
        let ghost all = new.deep_view();
        let ghost news = new@;
        for author in it: new
            invariant
                it.seq() == news,
                all == Seq::new(news.len(), |i: int| news[i].deep_view()),
                before.len() + news.len() <= i64::MAX,
                before == old(self)@.authors,
                self.authors.len() == before.len() + it.index(),
                self@ == (StoreView {
                    authors: with_authors(before, all.take(it.index() as int)),
                    ..old(self)@
                }),
                self.wf(),
        {
            let ghost rows = self.authors.deep_view();
            let ghost place = it.index() as int;
            assert(author.deep_view() == all[place]);
            let id: i64 = (self.authors.len() as u128 + 1) as i64;
            self.authors.push(
                AuthorRow { id, name: author.name, image: author.image, url: author.url },
            );
            assert(self.authors.deep_view() =~= rows.push(self.authors[before.len() + place].deep_view()));
            assert(self.authors.deep_view() =~= with_authors(before, all.take(place + 1)));
        }
        assert(all.take(news.len() as int) =~= all);
        Ok(())
    }

    /// Inserts recipe rows as one statement, ignoring those whose id is
    /// present. Where a row names an author that the store does not hold,
    /// nothing is inserted.
    pub fn insert_recipe_rows(&mut self, rows: Vec<RecipeRow>) -> (res: Result<(), StoreError>)
        requires
            old(self).wf(),
        ensures
            final(self).wf(),
            res is Ok <==> forall|i: int|
                0 <= i < rows.len() ==> 1 <= (#[trigger] rows[i]).author_id
                    <= old(self)@.authors.len(),
            res matches Err(e) ==> e == StoreError::UnknownAuthor && final(self)@ == old(self)@,
            res is Ok ==> final(self)@ == (StoreView {
                recipes: insert_all_ignore::<RecipeRow>(old(self)@.recipes, rows.deep_view()),
                ..old(self)@
            }),
    {
        let mut k: usize = 0;
        while k < rows.len()
            invariant
                k <= rows.len(),
                self@ == old(self)@,
                self.wf(),
                forall|i: int|
                    0 <= i < k ==> 1 <= (#[trigger] rows[i]).author_id <= self.authors.len(),
            decreases rows.len() - k,
        {
            let id = rows[k].author_id;
            if id < 1 || id as u128 > self.authors.len() as u128 {
                return Err(StoreError::UnknownAuthor);
            }
            k += 1;
        }
        proof {
            let before = self@.recipes;
            let new = rows.deep_view();
            lemma_recipes_keep_authors(before, new, self@.authors.len() as int);
        }
        insert_rows(&mut self.recipes, rows);
        Ok(())
    }

    /// The number of the first author of the given name.
    pub fn find_author(&self, name: &str) -> (id: Option<i64>)
        requires
            self.wf(),
        ensures
            id == match first_named(self@.authors, name@) {
                Some(place) => Some((place + 1) as i64),
                None => None,
            },
    {
        let ghost authors = self@.authors;
        let mut k: usize = 0;
        while k < self.authors.len()
            invariant
                k <= self.authors.len(),
                self.wf(),
                authors == self.authors.deep_view(),
                authors == self@.authors,
                forall|j: int| 0 <= j < k ==> (#[trigger] authors[j]).name != name@,
            decreases self.authors.len() - k,
        {
            assert(authors[k as int] == self.authors[k as int].deep_view());
            if str_equal(self.authors[k].name.as_str(), name) {
                proof {
                    lemma_first_named(authors, name@);
                }
                return Some(self.authors[k].id);
            }
            k += 1;
        }
        proof {
            lemma_first_named(authors, name@);
        }
        None
    }

    /// The author of the given number.
    pub fn author(&self, id: i64) -> (row: Option<&AuthorRow>)
        requires
            self.wf(),
        ensures
            row is Some <==> 1 <= id <= self@.authors.len(),
            row matches Some(r) ==> r.deep_view() == self@.authors[id - 1],
    {
        if id < 1 || id as u128 > self.authors.len() as u128 {
            None
        } else {
            let place = (id - 1) as usize;
            assert(self.authors.deep_view()[place as int] == self.authors[place as int].deep_view());
            Some(&self.authors[place])
        }
    }

    /// The row of the recipe of the given id.
    pub fn recipe(&self, id: &str) -> (row: Option<&RecipeRow>)
        requires
            self.wf(),
        ensures
            row is Some <==> has_key::<RecipeRow>(self@.recipes, id@),
            row is Some ==> 0 <= rank::<RecipeRow>(self@.recipes, id@) < self@.recipes.len(),
            row matches Some(r) ==> r.id@ == id@ && r.deep_view() == self@.recipes[rank::<
                RecipeRow,
            >(self@.recipes, id@)],
    {
        let (found, place) = locate(&self.recipes, id);
        if found {
            assert(self.recipes.deep_view()[place as int] == self.recipes[place as int].deep_view());
            Some(&self.recipes[place])
        } else {
            None
        }
    }

    /// The row of the ingredient of the given id.
    pub fn ingredient(&self, id: &str) -> (row: Option<&IngredientRow>)
        requires
            self.wf(),
        ensures
            row is Some <==> has_key::<IngredientRow>(self@.ingredients, id@),
            row is Some ==> 0 <= rank::<IngredientRow>(self@.ingredients, id@) < self@.ingredients.len(),
            row matches Some(r) ==> r.id@ == id@ && r.deep_view() == self@.ingredients[rank::<
                IngredientRow,
            >(self@.ingredients, id@)],
    {
        let (found, place) = locate(&self.ingredients, id);
        if found {
            assert(self.ingredients.deep_view()[place as int]
                == self.ingredients[place as int].deep_view());
            Some(&self.ingredients[place])
        } else {
            None
        }
    }

    /// The row of the unit of the given id.
    pub fn unit(&self, id: &str) -> (row: Option<&UnitRow>)
        requires
            self.wf(),
        ensures
            row is Some <==> has_key::<UnitRow>(self@.units, id@),
            row is Some ==> 0 <= rank::<UnitRow>(self@.units, id@) < self@.units.len(),
            row matches Some(r) ==> r.id@ == id@ && r.deep_view() == self@.units[rank::<UnitRow>(
                self@.units,
                id@,
            )],
    {
        let (found, place) = locate(&self.units, id);
        if found {
            assert(self.units.deep_view()[place as int] == self.units[place as int].deep_view());
            Some(&self.units[place])
        } else {
            None
        }
    }

    /// The picture of the given id.
    pub fn image(&self, id: &str) -> (data: Option<&Vec<u8>>)
        requires
            self.wf(),
        ensures
            data is Some <==> has_key::<ImageRow>(self@.images, id@),
            data is Some ==> 0 <= rank::<ImageRow>(self@.images, id@) < self@.images.len(),
            data matches Some(d) ==> d@ == self@.images[rank::<ImageRow>(self@.images, id@)].data,
    {
        let (found, place) = locate(&self.images, id);
        if found {
            assert(self.images.deep_view()[place as int] == self.images[place as int].deep_view());
            Some(&self.images[place].data)
        } else {
            None
        }
    }

    /// Stores a picture under the given id, in place of the picture that is
    /// there.
    pub fn put_image(&mut self, id: String, data: Vec<u8>)
        requires
            old(self).wf(),
        ensures
            final(self).wf(),
            final(self)@ == (StoreView {
                images: with_image(old(self)@.images, ImageRowView { id: id@, data: data@ }),
                ..old(self)@
            }),
    {
        let ghost before = self@.images;
        let ghost row = ImageRowView { id: id@, data: data@ };
        proof {
            lemma_rank::<ImageRow>(before, id@);
            lemma_insert_ignore::<ImageRow>(before, row);
        }
        let (found, place) = locate(&self.images, id.as_str());
        if found {
            self.images[place] = ImageRow { id, data };
            assert(self.images.deep_view() =~= before.update(place as int, row));
            assert forall|i: int, j: int| 0 <= i < j < before.len() implies precedes(
                ImageRow::key_of(#[trigger] before.update(place as int, row)[i]),
                ImageRow::key_of(#[trigger] before.update(place as int, row)[j]),
            ) by {
                assert(ImageRow::key_of(before[i]) == ImageRow::key_of(
                    before.update(place as int, row)[i],
                ));
                assert(ImageRow::key_of(before[j]) == ImageRow::key_of(
                    before.update(place as int, row)[j],
                ));
            }
        } else {
            self.images.insert(place, ImageRow { id, data });
            assert(self.images.deep_view() =~= before.insert(place as int, row));
        }
    }

    /// Makes sure that the given author has a row and returns its number: the
    /// number of the first author of that name, or of a new row for the
    /// author where there is none. Names the error where the numbers have run
    /// out.
    pub fn author_id(&mut self, author: Author) -> (res: Result<i64, StoreError>)
        requires
            old(self).wf(),
        ensures
            final(self).wf(),
            res is Err <==> first_named(old(self)@.authors, author.name@) is None && old(
                self,
            )@.authors.len() >= i64::MAX,
            res matches Err(e) ==> e == StoreError::Full && final(self)@ == old(self)@,
            res matches Ok(id) ==> id == author_id_for(old(self)@.authors, author.name@)
                && final(self)@ == (StoreView {
                authors: authors_with(old(self)@.authors, author.deep_view()),
                ..old(self)@
            }),
    {
        proof {
            lemma_first_named(self@.authors, author.name@);
        }
        match self.find_author(author.name.as_str()) {
            Some(id) => Ok(id),
            None => {
                let ghost before = self@.authors;
                let ghost view = author.deep_view();
                let mut one: Vec<Author> = Vec::new();
                one.push(author);
                assert(one.deep_view() =~= seq![view]);
                match self.insert_authors(one) {
                    Ok(()) => {
                        let id = (self.authors.len() as u128) as i64;
                        Ok(id)
                    },
                    Err(e) => Err(e),
                }
            },
        }
    }

    /// Inserts the row of a new recipe. Nothing is inserted where the row
    /// names an author that the store does not hold or a recipe of its id is
    /// present.
    pub fn create_recipe_row(&mut self, row: RecipeRow) -> (res: Result<(), StoreError>)
        requires
            old(self).wf(),
        ensures
            final(self).wf(),
            res == if !(1 <= row.author_id <= old(self)@.authors.len()) {
                Err::<(), StoreError>(StoreError::UnknownAuthor)
            } else if has_key::<RecipeRow>(old(self)@.recipes, row.id@) {
                Err(StoreError::DuplicateRecipe)
            } else {
                Ok(())
            },
            res is Err ==> final(self)@ == old(self)@,
            res is Ok ==> final(self)@ == (StoreView {
                recipes: old(self)@.recipes.insert(
                    rank::<RecipeRow>(old(self)@.recipes, row.id@),
                    row.deep_view(),
                ),
                ..old(self)@
            }),
    {
        if row.author_id < 1 || row.author_id as u128 > self.authors.len() as u128 {
            return Err(StoreError::UnknownAuthor);
        }
        let ghost before = self@.recipes;
        let ghost view = row.deep_view();
        proof {
            lemma_rank::<RecipeRow>(before, view.id);
            lemma_insert_ignore::<RecipeRow>(before, view);
        }
        let (found, place) = locate(&self.recipes, row.id.as_str());
        if found {
            return Err(StoreError::DuplicateRecipe);
        }
        self.recipes.insert(place, row);
        proof {
            let after = before.insert(place as int, view);
            assert(self.recipes.deep_view() =~= after);
            assert forall|i: int| 0 <= i < after.len() implies 1 <= (#[trigger] after[i]).author_id
                <= self@.authors.len() by {
                if i < place {
                    assert(after[i] == before[i]);
                } else if i > place {
                    assert(after[i] == before[i - 1]);
                }
            }
        }
        Ok(())
    }

    /// Replaces the row of a recipe by the given row and stamps it as changed
    /// at `now`. Nothing changes where the row names an author that the store
    /// does not hold or no recipe of its id is present.
    pub fn update_recipe_row(&mut self, row: RecipeRow, now: Timestamp) -> (res: Result<
        (),
        StoreError,
    >)
        requires
            old(self).wf(),
        ensures
            final(self).wf(),
            res == if !(1 <= row.author_id <= old(self)@.authors.len()) {
                Err::<(), StoreError>(StoreError::UnknownAuthor)
            } else if !has_key::<RecipeRow>(old(self)@.recipes, row.id@) {
                Err(StoreError::RecipeNotFound)
            } else {
                Ok(())
            },
            res is Err ==> final(self)@ == old(self)@,
            res is Ok ==> final(self)@ == (StoreView {
                recipes: with_recipe_updated(old(self)@.recipes, row.deep_view(), now),
                ..old(self)@
            }),
    {
        if row.author_id < 1 || row.author_id as u128 > self.authors.len() as u128 {
            return Err(StoreError::UnknownAuthor);
        }
        let ghost before = self@.recipes;
        let ghost view = RecipeRowView { modified_at: now, ..row.deep_view() };
        proof {
            lemma_rank::<RecipeRow>(before, view.id);
        }
        let (found, place) = locate(&self.recipes, row.id.as_str());
        if !found {
            return Err(StoreError::RecipeNotFound);
        }
        let mut row = row;
        row.modified_at = now;
        self.recipes[place] = row;
        proof {
            let after = before.update(place as int, view);
            assert(self.recipes.deep_view() =~= after);
            assert forall|i: int, j: int| 0 <= i < j < after.len() implies precedes(
                RecipeRow::key_of(#[trigger] after[i]),
                RecipeRow::key_of(#[trigger] after[j]),
            ) by {
                assert(RecipeRow::key_of(before[i]) == RecipeRow::key_of(after[i]));
                assert(RecipeRow::key_of(before[j]) == RecipeRow::key_of(after[j]));
            }
            assert forall|i: int| 0 <= i < after.len() implies 1 <= (#[trigger] after[i]).author_id
                <= self@.authors.len() by {
                if i != place {
                    assert(after[i] == before[i]);
                }
            }
        }
        Ok(())
    }
}

/// Rows that are inserted bring their authors with them: where the rows of
/// the table and the new rows all name authors up to `authors`, so do the
/// rows of the table afterwards.
pub proof fn lemma_recipes_keep_authors(
    rows: Seq<RecipeRowView>,
    new: Seq<RecipeRowView>,
    authors: int,
)
    requires
        ascending::<RecipeRow>(rows),
        forall|i: int| 0 <= i < rows.len() ==> 1 <= (#[trigger] rows[i]).author_id <= authors,
        forall|i: int| 0 <= i < new.len() ==> 1 <= (#[trigger] new[i]).author_id <= authors,
    ensures
        forall|i: int|
            0 <= i < insert_all_ignore::<RecipeRow>(rows, new).len() ==> 1 <= (
            #[trigger] insert_all_ignore::<RecipeRow>(rows, new)[i]).author_id <= authors,
    decreases new.len(),
{
    if new.len() > 0 {
        let init = new.drop_last();
        assert forall|i: int| 0 <= i < init.len() implies 1 <= (#[trigger] init[i]).author_id
            <= authors by {
            assert(init[i] == new[i]);
        }
        lemma_recipes_keep_authors(rows, init, authors);
        let mid = insert_all_ignore::<RecipeRow>(rows, init);
        let after = insert_all_ignore::<RecipeRow>(rows, new);
        let row = new.last();
        assert(row == new[new.len() - 1]);
        if !has_key::<RecipeRow>(mid, row.id) {
            let r = rank::<RecipeRow>(mid, row.id);
            lemma_insert_all_ignore::<RecipeRow>(rows, init);
            lemma_rank::<RecipeRow>(mid, row.id);
            assert forall|i: int| 0 <= i < after.len() implies 1 <= (#[trigger] after[i]).author_id
                <= authors by {
                if i < r {
                    assert(after[i] == mid[i]);
                } else if i > r {
                    assert(after[i] == mid[i - 1]);
                }
            }
        }
    }
}

/// Inserting one list of pairs and then another is inserting both lists at
/// once.
pub proof fn lemma_link_in_parts(
    rows: Seq<IngredientUnitRowView>,
    first: Seq<IngredientUnitRowView>,
    second: Seq<IngredientUnitRowView>,
)
    ensures
        link_all_ignore(link_all_ignore(rows, first), second) == link_all_ignore(
            rows,
            first + second,
        ),
    decreases second.len(),
{
    if second.len() == 0 {
        assert(first + second =~= first);
    } else {
        lemma_link_in_parts(rows, first, second.drop_last());
        assert((first + second).drop_last() =~= first + second.drop_last());
        assert((first + second).last() == second.last());
    }
}

/// After pairs are inserted, the pairs present are those that were present
/// and the new ones; none is present twice where none was.
pub proof fn lemma_link_all_ignore(
    rows: Seq<IngredientUnitRowView>,
    new: Seq<IngredientUnitRowView>,
)
    requires
        rows.no_duplicates(),
    ensures
        link_all_ignore(rows, new).no_duplicates(),
        forall|row: IngredientUnitRowView|
            link_all_ignore(rows, new).contains(row) <==> (rows.contains(row) || new.contains(
                row,
            )),
        rows.len() <= link_all_ignore(rows, new).len() <= rows.len() + new.len(),
    decreases new.len(),
{
    if new.len() > 0 {
        let init = new.drop_last();
        lemma_link_all_ignore(rows, init);
        let mid = link_all_ignore(rows, init);
        let after = link_all_ignore(rows, new);
        assert(new.last() == new[new.len() - 1]);
        assert forall|row: IngredientUnitRowView| after.contains(row) <==> (rows.contains(row)
            || new.contains(row)) by {
            if after.contains(row) {
                let i = choose|i: int| 0 <= i < after.len() && after[i] == row;
                if i < mid.len() {
                    assert(mid[i] == row);
                    assert(mid.contains(row));
                    if init.contains(row) {
                        let j = choose|j: int| 0 <= j < init.len() && init[j] == row;
                        assert(new[j] == row);
                    }
                }
            }
            if rows.contains(row) {
                assert(mid.contains(row));
                let i = choose|i: int| 0 <= i < mid.len() && mid[i] == row;
                assert(after[i] == row);
            }
            if new.contains(row) {
                let j = choose|j: int| 0 <= j < new.len() && new[j] == row;
                if j < init.len() {
                    assert(init[j] == row);
                    assert(init.contains(row));
                    let i = choose|i: int| 0 <= i < mid.len() && mid[i] == row;
                    assert(after[i] == row);
                } else if mid.contains(row) {
                } else {
                    assert(after[mid.len() as int] == row);
                }
            }
        }
    }
}

/// Importing links is idempotent: inserting the same pairs a second time
/// leaves the join table as the first time left it.
pub proof fn lemma_link_twice(rows: Seq<IngredientUnitRowView>, new: Seq<IngredientUnitRowView>)
    requires
        rows.no_duplicates(),
    ensures
        link_all_ignore(link_all_ignore(rows, new), new) == link_all_ignore(rows, new),
{
    lemma_link_all_ignore(rows, new);
    let once = link_all_ignore(rows, new);
    assert forall|i: int| 0 <= i < new.len() implies once.contains(#[trigger] new[i]) by {
        assert(new.contains(new[i]));
    }
    lemma_link_present(once, new);
}

/// An import of links that stopped part of the way can be run again: once
/// the first `done` of the pairs are in, inserting all pairs gives the join
/// table that inserting all pairs at once would have given.
pub proof fn lemma_link_resumed(
    rows: Seq<IngredientUnitRowView>,
    new: Seq<IngredientUnitRowView>,
    done: int,
)
    requires
        rows.no_duplicates(),
        0 <= done <= new.len(),
    ensures
        link_all_ignore(link_all_ignore(rows, new.take(done)), new) == link_all_ignore(rows, new),
{
    let first = new.take(done);
    let rest = new.skip(done);
    assert(first + rest =~= new);
    let some = link_all_ignore(rows, first);
    lemma_link_in_parts(some, first, rest);
    lemma_link_twice(rows, first);
    lemma_link_in_parts(rows, first, rest);
}

/// Inserting pairs that are all present changes nothing.
pub proof fn lemma_link_present(rows: Seq<IngredientUnitRowView>, new: Seq<IngredientUnitRowView>)
    requires
        forall|i: int| 0 <= i < new.len() ==> rows.contains(#[trigger] new[i]),
    ensures
        link_all_ignore(rows, new) == rows,
    decreases new.len(),
{
    if new.len() > 0 {
        let init = new.drop_last();
        assert forall|i: int| 0 <= i < init.len() implies rows.contains(#[trigger] init[i]) by {
            assert(init[i] == new[i]);
        }
        lemma_link_present(rows, init);
        assert(rows.contains(new[new.len() - 1]));
    }
}

} // verus!
