//! Reading the store: lists with offset and limit, single records, and the
//! way back from a recipe row to a recipe. Writing a recipe from the editor.

use crate::duration::Duration;
use crate::ingest::{build_recipe_row, recipe_row};
use crate::model::{
    clone_ingredients, clone_steps, clone_text, Author, AuthorView, Ingredient,
    IngredientAllowedUnit, IngredientAllowedUnitView, Recipe, RecipeItem, RecipeItemView,
    RecipeView, ReferencePreparation, Timestamp,
};
use crate::schema::{
    AuthorRow, AuthorRowView, ImageRow, ImageRowView, IngredientRow, IngredientUnitRowView,
    RecipeRow, RecipeRowView, UnitRow, UnitRowView,
};
use crate::store::{
    author_id_for, authors_with, first_named, with_image, with_recipe_updated, Store, StoreError,
    StoreView,
};
use crate::table::{has_key, rank, str_equal};
use vstd::prelude::*;

verus! {

/// Why a query gives no result.
#[derive(Clone, Copy, Debug, PartialEq, Eq, Structural)]
pub enum QueryError {
    /// No ingredient has the id asked for.
    IngredientNotFound,
    /// No recipe has the id asked for.
    RecipeNotFound,
    /// No picture has the id asked for.
    ImageNotFound,
    /// The total time of a recipe row is no duration.
    BadTotalTime,
}

impl QueryError {
    /// What to tell the caller.
    pub fn message(&self) -> (text: String)
        ensures
            text@ == match *self {
                QueryError::IngredientNotFound => "Couldn't find ingredient"@,
                QueryError::RecipeNotFound => "Recipe not found"@,
                QueryError::ImageNotFound => "Image not found"@,
                QueryError::BadTotalTime => "Parsing an iso8601_duration"@,
            },
    {
        match self {
            QueryError::IngredientNotFound => "Couldn't find ingredient".to_owned(),
            QueryError::RecipeNotFound => "Recipe not found".to_owned(),
            QueryError::ImageNotFound => "Image not found".to_owned(),
            QueryError::BadTotalTime => "Parsing an iso8601_duration".to_owned(),
        }
    }
}

/// Where a page begins in a list of `len` rows: after `offset` rows, or at
/// the end of the list where it has no more.
pub open spec fn page_start(len: nat, offset: Option<u64>) -> int {
    match offset {
        Some(o) => if o >= len {
            len as int
        } else {
            o as int
        },
        None => 0,
    }
}

/// Where a page ends in a list of `len` rows: `limit` rows after its start,
/// or at the end of the list where it has no more.
pub open spec fn page_end(len: nat, offset: Option<u64>, limit: Option<u64>) -> int {
    match limit {
        Some(l) => if l >= len - page_start(len, offset) {
            len as int
        } else {
            page_start(len, offset) + l
        },
        None => len as int,
    }
}

/// The rows of a list after `offset` rows are skipped and at most `limit`
/// rows are taken. Without an offset no row is skipped, without a limit all
/// rows are taken.
pub open spec fn page<T>(rows: Seq<T>, offset: Option<u64>, limit: Option<u64>) -> Seq<T> {
    rows.subrange(page_start(rows.len(), offset), page_end(rows.len(), offset, limit))
}

/// Where a page begins and ends in a list of `len` rows.
pub fn page_bounds(len: usize, offset: Option<u64>, limit: Option<u64>) -> (bounds: (usize, usize))
    ensures
        bounds.0 <= bounds.1 <= len,
        bounds.0 == page_start(len as nat, offset),
        bounds.1 == page_end(len as nat, offset, limit),
{
    let start: usize = match offset {
        Some(o) => if o >= len as u64 {
            len
        } else {
            o as usize
        },
        None => 0,
    };
    let left: usize = len - start;
    let end: usize = match limit {
        Some(l) => if l >= left as u64 {
            len
        } else {
            start + l as usize
        },
        None => len,
    };
    (start, end)
}

/// The ingredient that an ingredient row stands for.
pub fn ingredient_of(row: &IngredientRow) -> (ingredient: Ingredient)
    ensures
        ingredient.deep_view() == row.deep_view(),
{
    Ingredient { id: row.id.clone(), name: row.name.clone() }
}

/// The unit of a unit row as one of the allowed units of an ingredient.
pub open spec fn allowed_unit(row: UnitRowView) -> IngredientAllowedUnitView {
    IngredientAllowedUnitView {
        id: row.id,
        name: row.name,
        abbreviation: row.abbreviation,
        dimension: row.dimension_id,
    }
}

/// The unit of a unit row as one of the allowed units of an ingredient. The
/// measurement system is left out.
pub fn allowed_unit_of(row: &UnitRow) -> (unit: IngredientAllowedUnit)
    ensures
        unit.deep_view() == allowed_unit(row.deep_view()),
{
    IngredientAllowedUnit {
        id: row.id.clone(),
        name: row.name.clone(),
        abbreviation: clone_text(&row.abbreviation),
        dimension: clone_text(&row.dimension_id),
    }
}

/// The low eight bits of a number, as the number of people it serves is read
/// back from the store.
pub open spec fn low_byte(n: i64) -> u8 {
    (n % 256) as u8
}

/// The duration that an optional text stands for. A text that is no duration
/// counts as missing.
pub open spec fn optional_parsed(text: Option<Seq<char>>) -> Option<Duration> {
    match text {
        Some(t) => Duration::parsed(t),
        None => None,
    }
}

/// The recipe that a recipe row and the row of its author stand for, given
/// the three times of the recipe. The recipe counts as published and visible
/// to all users; organisation, tags and forks are not kept in the store and
/// come back empty.
pub open spec fn recipe_of(
    row: RecipeRowView,
    author: AuthorRowView,
    total_time: Duration,
    cook_time: Option<Duration>,
    prep_time: Option<Duration>,
) -> RecipeView {
    RecipeView {
        author: AuthorView { image: author.image, name: author.name, url: author.url },
        created_at: row.created_at,
        created_by_id: row.created_by_id,
        description: row.description,
        etag: row.e_tag,
        forked_into_other_locales: Seq::empty(),
        id: row.id,
        ingredients: row.ingredients,
        locale: row.locale,
        modified_at: row.modified_at,
        name: row.name,
        organization_id: Seq::empty(),
        published_at: Some(row.published_at),
        reference_tags: Seq::empty(),
        serves: low_byte(row.serves),
        state: "published"@,
        steps: row.steps,
        total_time,
        visibility: "all-users"@,
        cook_time,
        prep_time,
        referenced: None,
        requester_role: None,
    }
}

/// The recipe that a row read from the store stands for: its times are read
/// from their text. Without a total time there is no recipe.
pub open spec fn read_recipe(row: RecipeRowView, author: AuthorRowView) -> Option<RecipeView> {
    match Duration::parsed(row.total_time) {
        Some(total_time) => Some(
            recipe_of(
                row,
                author,
                total_time,
                optional_parsed(row.cook_time),
                optional_parsed(row.prep_time),
            ),
        ),
        None => None,
    }
}

/// The list entry that a row read from the store stands for.
pub open spec fn read_item(row: RecipeRowView, author: AuthorRowView) -> Option<RecipeItemView> {
    match Duration::parsed(row.total_time) {
        Some(total_time) => Some(
            RecipeItemView { id: row.id, name: row.name, author_name: author.name, total_time },
        ),
        None => None,
    }
}

fn low_byte_of(n: i64) -> (b: u8)
    ensures
        b == low_byte(n),
{
    if n >= 0 {
        (n % 256) as u8
    } else {
        let m: i64 = (-(n + 1)) % 256;
        (255 - m) as u8
    }
}

fn parse_optional(text: &Option<String>) -> (d: Option<Duration>)
    ensures
        d == optional_parsed(text.deep_view()),
{
    match text {
        Some(t) => Duration::parse(t.as_str()),
        None => None,
    }
}

/// Builds a recipe from its row, the row of its author and its three times.
pub fn recipe_from_parts(
    row: &RecipeRow,
    author: &AuthorRow,
    total_time: Duration,
    cook_time: Option<Duration>,
    prep_time: Option<Duration>,
) -> (recipe: Recipe)
    ensures
        recipe.deep_view() == recipe_of(
            row.deep_view(),
            author.deep_view(),
            total_time,
            cook_time,
            prep_time,
        ),
{
    let forked_into_other_locales = Vec::new();
    let reference_tags = Vec::new();
    let recipe = Recipe {
        author: Author {
            image: author.image.clone(),
            name: author.name.clone(),
            url: author.url.clone(),
        },
        created_at: row.created_at,
        created_by_id: row.created_by_id.clone(),
        description: row.description.clone(),
        etag: row.e_tag.clone(),
        forked_into_other_locales,
        id: row.id.clone(),
        ingredients: clone_ingredients(&row.ingredients),
        locale: row.locale.clone(),
        modified_at: row.modified_at,
        name: row.name.clone(),
        organization_id: String::new(),
        published_at: Some(row.published_at),
        reference_tags,
        serves: low_byte_of(row.serves),
        state: "published".to_owned(),
        steps: clone_steps(&row.steps),
        total_time,
        visibility: "all-users".to_owned(),
        cook_time,
        prep_time,
        referenced: None,
        requester_role: None,
    };
    assert(recipe.forked_into_other_locales.deep_view() =~= Seq::empty());
    assert(recipe.reference_tags.deep_view() =~= Seq::empty());
    recipe
}

/// Reads a recipe from its row and the row of its author. The total time
/// must be a duration; a cook or prep time that is none counts as missing.
pub fn recipe_from_row(row: &RecipeRow, author: &AuthorRow) -> (res: Result<Recipe, QueryError>)
    ensures
        match read_recipe(row.deep_view(), author.deep_view()) {
            Some(recipe) => res matches Ok(r) && r.deep_view() == recipe,
            None => res == Err::<Recipe, QueryError>(QueryError::BadTotalTime),
        },
{
    match Duration::parse(row.total_time.as_str()) {
        Some(total_time) => Ok(
            recipe_from_parts(
                row,
                author,
                total_time,
                parse_optional(&row.cook_time),
                parse_optional(&row.prep_time),
            ),
        ),
        None => Err(QueryError::BadTotalTime),
    }
}

/// Builds a list entry from a recipe row, the name of its author and its
/// total time.
pub fn item_from_parts(row: &RecipeRow, author: &AuthorRow, total_time: Duration) -> (item:
    RecipeItem)
    ensures
        item.deep_view() == (RecipeItemView {
            id: row.id@,
            name: row.name@,
            author_name: author.name@,
            total_time,
        }),
{
    RecipeItem {
        id: row.id.clone(),
        name: row.name.clone(),
        author_name: author.name.clone(),
        total_time,
    }
}

/// Reads a list entry from a recipe row and the row of its author.
pub fn item_from_row(row: &RecipeRow, author: &AuthorRow) -> (res: Result<RecipeItem, QueryError>)
    ensures
        match read_item(row.deep_view(), author.deep_view()) {
            Some(item) => res matches Ok(r) && r.deep_view() == item,
            None => res == Err::<RecipeItem, QueryError>(QueryError::BadTotalTime),
        },
{
    match Duration::parse(row.total_time.as_str()) {
        Some(total_time) => Ok(item_from_parts(row, author, total_time)),
        None => Err(QueryError::BadTotalTime),
    }
}

/// The ingredients in the order of their ids, from `offset` on and at most
/// `limit` of them.
pub fn list_ingredients(store: &Store, offset: Option<u64>, limit: Option<u64>) -> (list: Vec<
    Ingredient,
>)
    requires
        store.wf(),
    ensures
        list.deep_view() == page(store@.ingredients, offset, limit),
{
    let rows = store.ingredients();
    let ghost views = rows.deep_view();
    let (start, end) = page_bounds(rows.len(), offset, limit);
    let mut list: Vec<Ingredient> = Vec::new();
    let mut k: usize = start;
    while k < end
        invariant
            start <= k <= end <= rows.len(),
            views == rows.deep_view(),
            list.deep_view() == views.subrange(start as int, k as int),
        decreases end - k,
    {
        let ghost before = list.deep_view();
        list.push(ingredient_of(&rows[k]));
        assert(list.deep_view() =~= before.push(views[k as int]));
        assert(views.subrange(start as int, k + 1) =~= views.subrange(start as int, k as int).push(
            views[k as int],
        ));
        k += 1;
    }
    list
}

/// The preparation that a preparation row stands for.
pub fn preparation_of(row: &crate::schema::PreparationRow) -> (preparation: ReferencePreparation)
    ensures
        preparation.deep_view() == row.deep_view(),
{
    ReferencePreparation { id: row.id.clone(), name: row.name.clone() }
}

/// The preparations in the order of their ids, from `offset` on and at most
/// `limit` of them.
pub fn list_preparations(store: &Store, offset: Option<u64>, limit: Option<u64>) -> (list: Vec<
    ReferencePreparation,
>)
    requires
        store.wf(),
    ensures
        list.deep_view() == page(store@.preparations, offset, limit),
{
    let rows = store.preparations();
    let ghost views = rows.deep_view();
    let (start, end) = page_bounds(rows.len(), offset, limit);
    let mut list: Vec<ReferencePreparation> = Vec::new();
    let mut k: usize = start;
    while k < end
        invariant
            start <= k <= end <= rows.len(),
            views == rows.deep_view(),
            list.deep_view() == views.subrange(start as int, k as int),
        decreases end - k,
    {
        let ghost before = list.deep_view();
        list.push(preparation_of(&rows[k]));
        assert(list.deep_view() =~= before.push(views[k as int]));
        assert(views.subrange(start as int, k + 1) =~= views.subrange(start as int, k as int).push(
            views[k as int],
        ));
        k += 1;
    }
    list
}

/// The units that the join table allows for the ingredient of the given id,
/// in the order of the join table. A pair whose unit the store does not hold
/// gives no unit.
pub open spec fn allowed_units(
    links: Seq<IngredientUnitRowView>,
    units: Seq<UnitRowView>,
    id: Seq<char>,
) -> Seq<IngredientAllowedUnitView>
    decreases links.len(),
{
    if links.len() == 0 {
        Seq::empty()
    } else {
        let before = allowed_units(links.drop_last(), units, id);
        let link = links.last();
        if link.ingredient_id == id && has_key::<UnitRow>(units, link.unit_id) {
            before.push(allowed_unit(units[rank::<UnitRow>(units, link.unit_id)]))
        } else {
            before
        }
    }
}

/// The units in which the ingredient of the given id may be measured.
pub fn list_ingredient_allowed(store: &Store, id: &str) -> (res: Result<
    Vec<IngredientAllowedUnit>,
    QueryError,
>)
    requires
        store.wf(),
    ensures
        match res {
            Ok(list) => has_key::<IngredientRow>(store@.ingredients, id@) && list.deep_view()
                == allowed_units(store@.ingredient_units, store@.units, id@),
            Err(e) => e == QueryError::IngredientNotFound && !has_key::<IngredientRow>(
                store@.ingredients,
                id@,
            ),
        },
{
    if store.ingredient(id).is_none() {
        return Err(QueryError::IngredientNotFound);
    }
    let links = store.ingredient_units();
    let ghost views = links.deep_view();
    let mut list: Vec<IngredientAllowedUnit> = Vec::new();
    let mut k: usize = 0;
    while k < links.len()
        invariant
            k <= links.len(),
            store.wf(),
            views == links.deep_view(),
            list.deep_view() == allowed_units(views.take(k as int), store@.units, id@),
        decreases links.len() - k,
    {
        let link = &links[k];
        assert(views.take(k + 1).drop_last() =~= views.take(k as int));
        assert(views.take(k + 1).last() == link.deep_view());
        if str_equal(link.ingredient_id.as_str(), id) {
            match store.unit(link.unit_id.as_str()) {
                Some(unit) => {
                    let ghost before = list.deep_view();
                    list.push(allowed_unit_of(unit));
                    assert(list.deep_view() =~= before.push(allowed_unit(unit.deep_view())));
                },
                None => {},
            }
        }
        k += 1;
    }
    assert(views.take(k as int) =~= views);
    Ok(list)
}

/// The recipe rows that a list shows: all of them, or only those written
/// here.
pub open spec fn visible(rows: Seq<RecipeRowView>, all: bool) -> Seq<RecipeRowView>
    decreases rows.len(),
{
    if rows.len() == 0 {
        Seq::empty()
    } else {
        let before = visible(rows.drop_last(), all);
        if all || rows.last().is_custom {
            before.push(rows.last())
        } else {
            before
        }
    }
}

/// The rows of one page of the recipe list, in the order of their ids.
pub open spec fn listed(store: StoreView, offset: Option<u64>, limit: Option<u64>, all: bool) -> Seq<
    RecipeRowView,
> {
    page(visible(store.recipes, all), offset, limit)
}

/// The row of the author of a recipe row.
pub open spec fn author_of(store: StoreView, row: RecipeRowView) -> AuthorRowView {
    store.authors[row.author_id - 1]
}

/// Every row that a list shows is a row of the table, and an imported row is
/// shown only where all rows are asked for.
pub proof fn lemma_visible(rows: Seq<RecipeRowView>, all: bool)
    ensures
        visible(rows, all).len() <= rows.len(),
        forall|i: int|
            0 <= i < visible(rows, all).len() ==> rows.contains(#[trigger] visible(rows, all)[i])
                && (all || visible(rows, all)[i].is_custom),
        all ==> visible(rows, all) == rows,
    decreases rows.len(),
{
    if rows.len() > 0 {
        let init = rows.drop_last();
        lemma_visible(init, all);
        let before = visible(init, all);
        let after = visible(rows, all);
        assert forall|i: int| 0 <= i < after.len() implies rows.contains(#[trigger] after[i]) && (
        all || after[i].is_custom) by {
            if i < before.len() {
                assert(init.contains(before[i]));
                let j = choose|j: int| 0 <= j < init.len() && init[j] == before[i];
                assert(rows[j] == after[i]);
            } else {
                assert(rows[rows.len() - 1] == after[i]);
            }
        }
        if all {
            assert(after =~= rows);
        }
    }
}

/// The places in the recipe table of the rows of one page of the list.
fn listed_places(store: &Store, offset: Option<u64>, limit: Option<u64>, all: bool) -> (places: Vec<
    usize,
>)
    requires
        store.wf(),
    ensures
        places.len() == listed(store@, offset, limit, all).len(),
        forall|j: int|
            0 <= j < places.len() ==> (#[trigger] places[j]) < store@.recipes.len()
                && store@.recipes[places[j] as int] == listed(store@, offset, limit, all)[j],
{
    let rows = store.recipes();
    let ghost views = rows.deep_view();
    let mut shown: Vec<usize> = Vec::new();
    let mut k: usize = 0;
    while k < rows.len()
        invariant
            k <= rows.len(),
            views == rows.deep_view(),
            shown.len() == visible(views.take(k as int), all).len(),
            forall|j: int|
                0 <= j < shown.len() ==> (#[trigger] shown[j]) < k && views[shown[j] as int]
                    == visible(views.take(k as int), all)[j],
        decreases rows.len() - k,
    {
        assert(views.take(k + 1).drop_last() =~= views.take(k as int));
        assert(views.take(k + 1).last() == rows[k as int].deep_view());
        if all || rows[k].is_custom {
            shown.push(k);
        }
        k += 1;
    }
    assert(views.take(k as int) =~= views);
    let (start, end) = page_bounds(shown.len(), offset, limit);
    let mut places: Vec<usize> = Vec::new();
    let mut p: usize = start;
    while p < end
        invariant
            start <= p <= end <= shown.len(),
            places.len() == p - start,
            forall|j: int| 0 <= j < places.len() ==> (#[trigger] places[j]) == shown[start + j],
        decreases end - p,
    {
        places.push(shown[p]);
        p += 1;
    }
    places
}

/// The recipes in the order of their ids, from `offset` on and at most
/// `limit` of them: all recipes, or only those written here. Where the total
/// time of one of them is no duration there is no list.
pub fn list_recipes(store: &Store, offset: Option<u64>, limit: Option<u64>, all: bool) -> (res:
    Result<Vec<Recipe>, QueryError>)
    requires
        store.wf(),
    ensures
        match res {
            Ok(list) => {
                &&& list.len() == listed(store@, offset, limit, all).len()
                &&& forall|i: int|
                    0 <= i < list.len() ==> read_recipe(
                        listed(store@, offset, limit, all)[i],
                        author_of(store@, listed(store@, offset, limit, all)[i]),
                    ) == Some((#[trigger] list[i]).deep_view())
            },
            Err(e) => e == QueryError::BadTotalTime && exists|i: int|
                0 <= i < listed(store@, offset, limit, all).len() && read_recipe(
                    #[trigger] listed(store@, offset, limit, all)[i],
                    author_of(store@, listed(store@, offset, limit, all)[i]),
                ) is None,
        },
{
    let places = listed_places(store, offset, limit, all);
    let rows = store.recipes();
    let ghost shown = listed(store@, offset, limit, all);
    let mut list: Vec<Recipe> = Vec::new();
    let mut k: usize = 0;
    while k < places.len()
        invariant
            k <= places.len(),
            store.wf(),
            rows.deep_view() == store@.recipes,
            shown == listed(store@, offset, limit, all),
            places.len() == shown.len(),
            forall|j: int|
                0 <= j < places.len() ==> (#[trigger] places[j]) < store@.recipes.len()
                    && store@.recipes[places[j] as int] == shown[j],
            list.len() == k,
            forall|i: int|
                0 <= i < k ==> read_recipe(shown[i], author_of(store@, shown[i])) == Some(
                    (#[trigger] list[i]).deep_view(),
                ),
        decreases places.len() - k,
    {
        let row = &rows[places[k]];
        assert(row.deep_view() == shown[k as int]);
        let author = match store.author(row.author_id) {
            Some(author) => author,
            None => vstd::pervasive::unreached(),
        };
        match recipe_from_row(row, author) {
            Ok(recipe) => {
                list.push(recipe);
            },
            Err(e) => {
                assert(read_recipe(shown[k as int], author_of(store@, shown[k as int])) is None);
                return Err(e);
            },
        }
        k += 1;
    }
    Ok(list)
}

/// The entries of the recipe list in the order of their ids, from `offset`
/// on and at most `limit` of them: all recipes, or only those written here.
/// Where the total time of one of them is no duration there is no list.
pub fn list_recipe_items(store: &Store, offset: Option<u64>, limit: Option<u64>, all: bool) -> (res:
    Result<Vec<RecipeItem>, QueryError>)
    requires
        store.wf(),
    ensures
        match res {
            Ok(list) => {
                &&& list.len() == listed(store@, offset, limit, all).len()
                &&& forall|i: int|
                    0 <= i < list.len() ==> read_item(
                        listed(store@, offset, limit, all)[i],
                        author_of(store@, listed(store@, offset, limit, all)[i]),
                    ) == Some((#[trigger] list[i]).deep_view())
            },
            Err(e) => e == QueryError::BadTotalTime && exists|i: int|
                0 <= i < listed(store@, offset, limit, all).len() && read_item(
                    #[trigger] listed(store@, offset, limit, all)[i],
                    author_of(store@, listed(store@, offset, limit, all)[i]),
                ) is None,
        },
{
    let places = listed_places(store, offset, limit, all);
    let rows = store.recipes();
    let ghost shown = listed(store@, offset, limit, all);
    let mut list: Vec<RecipeItem> = Vec::new();
    let mut k: usize = 0;
    while k < places.len()
        invariant
            k <= places.len(),
            store.wf(),
            rows.deep_view() == store@.recipes,
            shown == listed(store@, offset, limit, all),
            places.len() == shown.len(),
            forall|j: int|
                0 <= j < places.len() ==> (#[trigger] places[j]) < store@.recipes.len()
                    && store@.recipes[places[j] as int] == shown[j],
            list.len() == k,
            forall|i: int|
                0 <= i < k ==> read_item(shown[i], author_of(store@, shown[i])) == Some(
                    (#[trigger] list[i]).deep_view(),
                ),
        decreases places.len() - k,
    {
        let row = &rows[places[k]];
        assert(row.deep_view() == shown[k as int]);
        let author = match store.author(row.author_id) {
            Some(author) => author,
            None => vstd::pervasive::unreached(),
        };
        match item_from_row(row, author) {
            Ok(item) => {
                list.push(item);
            },
            Err(e) => {
                assert(read_item(shown[k as int], author_of(store@, shown[k as int])) is None);
                return Err(e);
            },
        }
        k += 1;
    }
    Ok(list)
}

/// The recipe of the given id, whether imported or written here.
pub fn get_recipe(store: &Store, id: &str) -> (res: Result<Recipe, QueryError>)
    requires
        store.wf(),
    ensures
        match res {
            Ok(recipe) => {
                &&& has_key::<RecipeRow>(store@.recipes, id@)
                &&& read_recipe(
                    store@.recipes[rank::<RecipeRow>(store@.recipes, id@)],
                    author_of(store@, store@.recipes[rank::<RecipeRow>(store@.recipes, id@)]),
                ) == Some(recipe.deep_view())
            },
            Err(QueryError::RecipeNotFound) => !has_key::<RecipeRow>(store@.recipes, id@),
            Err(QueryError::BadTotalTime) => {
                &&& has_key::<RecipeRow>(store@.recipes, id@)
                &&& read_recipe(
                    store@.recipes[rank::<RecipeRow>(store@.recipes, id@)],
                    author_of(store@, store@.recipes[rank::<RecipeRow>(store@.recipes, id@)]),
                ) is None
            },
            Err(_) => false,
        },
{
    let row = match store.recipe(id) {
        Some(row) => row,
        None => {
            return Err(QueryError::RecipeNotFound);
        },
    };
    proof {
        crate::table::lemma_rank::<RecipeRow>(store@.recipes, id@);
    }
    let author = match store.author(row.author_id) {
        Some(author) => author,
        None => vstd::pervasive::unreached(),
    };
    recipe_from_row(row, author)
}

/// What saving a recipe from the editor does to the store, and how it ends.
///
/// A recipe without a date of publication is refused. Else the recipe gets
/// the first author of its author's name, who is inserted where there is
/// none, and its row is marked as written here. A new recipe is inserted
/// unless its id is present; a changed recipe replaces the row of its id and
/// is stamped as changed at `now`. The author stays where the row is refused.
pub open spec fn saved(store: StoreView, recipe: RecipeView, create: bool, now: Timestamp) -> (
    Result<(), StoreError>,
    StoreView,
) {
    if recipe.published_at is None {
        (Err(StoreError::NotPublished), store)
    } else if first_named(store.authors, recipe.author.name) is None && store.authors.len()
        >= i64::MAX {
        (Err(StoreError::Full), store)
    } else {
        let with_author = StoreView { authors: authors_with(store.authors, recipe.author), ..store };
        let row = recipe_row(
            recipe,
            author_id_for(store.authors, recipe.author.name) as i64,
            recipe.published_at->0,
            true,
        );
        let present = has_key::<RecipeRow>(store.recipes, recipe.id);
        let place = rank::<RecipeRow>(store.recipes, recipe.id);
        if create {
            if present {
                (Err(StoreError::DuplicateRecipe), with_author)
            } else {
                (Ok(()), StoreView { recipes: store.recipes.insert(place, row), ..with_author })
            }
        } else {
            if present {
                (
                    Ok(()),
                    StoreView {
                        recipes: with_recipe_updated(store.recipes, row, now),
                        ..with_author
                    },
                )
            } else {
                (Err(StoreError::RecipeNotFound), with_author)
            }
        }
    }
}

/// Saves a recipe from the editor: inserts it where `create` is set, else
/// replaces the recipe of its id, at the time `now`.
pub fn set_recipe(store: &mut Store, r: Recipe, create: bool, now: Timestamp) -> (res: Result<
    (),
    StoreError,
>)
    requires
        old(store).wf(),
    ensures
        final(store).wf(),
        (res, final(store)@) == saved(old(store)@, r.deep_view(), create, now),
{
    let published_at = match r.published_at {
        Some(at) => at,
        None => {
            return Err(StoreError::NotPublished);
        },
    };
    proof {
        crate::store::lemma_first_named(store@.authors, r.author.name@);
    }
    let author_id = match store.author_id(r.author.clone()) {
        Ok(id) => id,
        Err(e) => {
            return Err(e);
        },
    };
    let row = build_recipe_row(&r, author_id, published_at, true);
    if create {
        store.create_recipe_row(row)
    } else {
        store.update_recipe_row(row, now)
    }
}

/// The picture of the recipe of the given id.
pub fn get_image(store: &Store, image_id: &str) -> (res: Result<Vec<u8>, QueryError>)
    requires
        store.wf(),
    ensures
        match res {
            Ok(data) => has_key::<ImageRow>(store@.images, image_id@) && data@
                == store@.images[rank::<ImageRow>(store@.images, image_id@)].data,
            Err(e) => e == QueryError::ImageNotFound && !has_key::<ImageRow>(
                store@.images,
                image_id@,
            ),
        },
{
    match store.image(image_id) {
        Some(data) => {
            let copy = data.clone();
            assert(copy@ =~= data@);
            Ok(copy)
        },
        None => Err(QueryError::ImageNotFound),
    }
}

/// Stores the picture of the recipe of the given id, in place of the picture
/// that is there.
pub fn set_image(store: &mut Store, image_id: &str, data: Vec<u8>)
    requires
        old(store).wf(),
    ensures
        final(store).wf(),
        final(store)@ == (StoreView {
            images: with_image(old(store)@.images, ImageRowView { id: image_id@, data: data@ }),
            ..old(store)@
        }),
{
    store.put_image(image_id.to_owned(), data);
}

/// What is stored of a recipe is what is read back: the row that a recipe
/// is stored as stands for a recipe with the same steps, ingredients, names
/// and dates, whatever the author's number and the times read back are.
pub proof fn lemma_stored_recipe_read_back(
    recipe: RecipeView,
    author_id: i64,
    published_at: Timestamp,
    is_custom: bool,
    author: AuthorRowView,
    total_time: Duration,
    cook_time: Option<Duration>,
    prep_time: Option<Duration>,
)
    ensures
        ({
            let read = recipe_of(
                recipe_row(recipe, author_id, published_at, is_custom),
                author,
                total_time,
                cook_time,
                prep_time,
            );
            &&& read.steps == recipe.steps
            &&& read.ingredients == recipe.ingredients
            &&& read.id == recipe.id
            &&& read.name == recipe.name
            &&& read.description == recipe.description
            &&& read.etag == recipe.etag
            &&& read.locale == recipe.locale
            &&& read.created_at == recipe.created_at
            &&& read.modified_at == recipe.modified_at
            &&& read.created_by_id == recipe.created_by_id
            &&& read.published_at == Some(published_at)
            &&& read.serves == recipe.serves
        }),
{
}

} // verus!
