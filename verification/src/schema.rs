//! The rows of the relational store, one type for each table.
//!
//! Ingredients, units and preparations are keyed by their natural `id`; a
//! link between an ingredient and a unit by the pair of both ids; an author
//! by a number that the store hands out; a recipe by its natural `id`.

use crate::model::{
    clone_ingredients, clone_steps, clone_text, Named, RecipeIngredient, RecipeIngredientView,
    RecipeStep, RecipeStepView, Timestamp,
};
use crate::table::Keyed;
use vstd::prelude::*;

verus! {

/// A row of the ingredient table.
#[derive(Debug, PartialEq, Eq)]
pub struct IngredientRow {
    pub id: String,
    pub name: String,
}

impl DeepView for IngredientRow {
    type V = Named;

    open spec fn deep_view(&self) -> Named {
        Named { id: self.id@, name: self.name@ }
    }
}

impl Clone for IngredientRow {
    fn clone(&self) -> (res: Self)
        ensures
            res.deep_view() == self.deep_view(),
    {
        IngredientRow { id: self.id.clone(), name: self.name.clone() }
    }
}

/// A row of the preparation table.
#[derive(Debug, PartialEq, Eq)]
pub struct PreparationRow {
    pub id: String,
    pub name: String,
}

impl DeepView for PreparationRow {
    type V = Named;

    open spec fn deep_view(&self) -> Named {
        Named { id: self.id@, name: self.name@ }
    }
}

impl Clone for PreparationRow {
    fn clone(&self) -> (res: Self)
        ensures
            res.deep_view() == self.deep_view(),
    {
        PreparationRow { id: self.id.clone(), name: self.name.clone() }
    }
}

/// A row of the unit table. The three optional columns are null where the
/// unit has no such value.
#[derive(Debug, PartialEq, Eq)]
pub struct UnitRow {
    pub id: String,
    pub name: String,
    pub abbreviation: Option<String>,
    pub dimension_id: Option<String>,
    pub measurement_system_id: Option<String>,
}

/// What a [`UnitRow`] stands for: its texts as sequences of characters.
pub struct UnitRowView {
    pub id: Seq<char>,
    pub name: Seq<char>,
    pub abbreviation: Option<Seq<char>>,
    pub dimension_id: Option<Seq<char>>,
    pub measurement_system_id: Option<Seq<char>>,
}

impl DeepView for UnitRow {
    type V = UnitRowView;

    open spec fn deep_view(&self) -> UnitRowView {
        UnitRowView {
            id: self.id@,
            name: self.name@,
            abbreviation: self.abbreviation.deep_view(),
            dimension_id: self.dimension_id.deep_view(),
            measurement_system_id: self.measurement_system_id.deep_view(),
        }
    }
}

impl Clone for UnitRow {
    fn clone(&self) -> (res: Self)
        ensures
            res.deep_view() == self.deep_view(),
    {
        UnitRow {
            id: self.id.clone(),
            name: self.name.clone(),
            abbreviation: clone_text(&self.abbreviation),
            dimension_id: clone_text(&self.dimension_id),
            measurement_system_id: clone_text(&self.measurement_system_id),
        }
    }
}

/// A row of the join table: `unit_id` is an allowed measurement for
/// `ingredient_id`.
#[derive(Debug, PartialEq, Eq)]
pub struct IngredientUnitRow {
    pub ingredient_id: String,
    pub unit_id: String,
}

/// What a [`IngredientUnitRow`] stands for: its texts as sequences of characters.
pub struct IngredientUnitRowView {
    pub ingredient_id: Seq<char>,
    pub unit_id: Seq<char>,
}

impl DeepView for IngredientUnitRow {
    type V = IngredientUnitRowView;

    open spec fn deep_view(&self) -> IngredientUnitRowView {
        IngredientUnitRowView { ingredient_id: self.ingredient_id@, unit_id: self.unit_id@ }
    }
}

impl Clone for IngredientUnitRow {
    fn clone(&self) -> (res: Self)
        ensures
            res.deep_view() == self.deep_view(),
    {
        IngredientUnitRow {
            ingredient_id: self.ingredient_id.clone(),
            unit_id: self.unit_id.clone(),
        }
    }
}

/// A row of the author table. The store hands out `id` when the row is
/// inserted.
#[derive(Debug, PartialEq, Eq)]
pub struct AuthorRow {
    pub id: i64,
    pub name: String,
    pub image: String,
    pub url: String,
}

/// What a [`AuthorRow`] stands for: its texts as sequences of characters.
pub struct AuthorRowView {
    pub id: i64,
    pub name: Seq<char>,
    pub image: Seq<char>,
    pub url: Seq<char>,
}

impl DeepView for AuthorRow {
    type V = AuthorRowView;

    open spec fn deep_view(&self) -> AuthorRowView {
        AuthorRowView { id: self.id, name: self.name@, image: self.image@, url: self.url@ }
    }
}

impl Clone for AuthorRow {
    fn clone(&self) -> (res: Self)
        ensures
            res.deep_view() == self.deep_view(),
    {
        AuthorRow {
            id: self.id,
            name: self.name.clone(),
            image: self.image.clone(),
            url: self.url.clone(),
        }
    }
}

/// A row of the recipe table. The three times are ISO-8601 durations; steps
/// and ingredients are the two nested documents of the recipe.
#[derive(Debug, PartialEq, Eq)]
pub struct RecipeRow {
    pub id: String,
    pub name: String,
    pub description: String,
    pub prep_time: Option<String>,
    pub cook_time: Option<String>,
    pub total_time: String,
    pub author_id: i64,
    pub serves: i64,
    pub e_tag: String,
    pub organisation_id: String,
    pub locale: String,
    pub created_at: Timestamp,
    pub modified_at: Timestamp,
    pub published_at: Timestamp,
    pub created_by_id: String,
    pub steps: Vec<RecipeStep>,
    pub ingredients: Vec<RecipeIngredient>,
    pub is_custom: bool,
}

/// What a [`RecipeRow`] stands for: its texts as sequences of characters.
pub struct RecipeRowView {
    pub id: Seq<char>,
    pub name: Seq<char>,
    pub description: Seq<char>,
    pub prep_time: Option<Seq<char>>,
    pub cook_time: Option<Seq<char>>,
    pub total_time: Seq<char>,
    pub author_id: i64,
    pub serves: i64,
    pub e_tag: Seq<char>,
    pub organisation_id: Seq<char>,
    pub locale: Seq<char>,
    pub created_at: Timestamp,
    pub modified_at: Timestamp,
    pub published_at: Timestamp,
    pub created_by_id: Seq<char>,
    pub steps: Seq<RecipeStepView>,
    pub ingredients: Seq<RecipeIngredientView>,
    pub is_custom: bool,
}

impl DeepView for RecipeRow {
    type V = RecipeRowView;

    open spec fn deep_view(&self) -> RecipeRowView {
        RecipeRowView {
            id: self.id@,
            name: self.name@,
            description: self.description@,
            prep_time: self.prep_time.deep_view(),
            cook_time: self.cook_time.deep_view(),
            total_time: self.total_time@,
            author_id: self.author_id,
            serves: self.serves,
            e_tag: self.e_tag@,
            organisation_id: self.organisation_id@,
            locale: self.locale@,
            created_at: self.created_at,
            modified_at: self.modified_at,
            published_at: self.published_at,
            created_by_id: self.created_by_id@,
            steps: self.steps.deep_view(),
            ingredients: self.ingredients.deep_view(),
            is_custom: self.is_custom,
        }
    }
}

impl Clone for RecipeRow {
    fn clone(&self) -> (res: Self)
        ensures
            res.deep_view() == self.deep_view(),
    {
        RecipeRow {
            id: self.id.clone(),
            name: self.name.clone(),
            description: self.description.clone(),
            prep_time: clone_text(&self.prep_time),
            cook_time: clone_text(&self.cook_time),
            total_time: self.total_time.clone(),
            author_id: self.author_id,
            serves: self.serves,
            e_tag: self.e_tag.clone(),
            organisation_id: self.organisation_id.clone(),
            locale: self.locale.clone(),
            created_at: self.created_at,
            modified_at: self.modified_at,
            published_at: self.published_at,
            created_by_id: self.created_by_id.clone(),
            steps: clone_steps(&self.steps),
            ingredients: clone_ingredients(&self.ingredients),
            is_custom: self.is_custom,
        }
    }
}

/// A row of the image table: the picture of a recipe, keyed by the recipe's
/// id.
#[derive(Debug, PartialEq, Eq)]
pub struct ImageRow {
    pub id: String,
    pub data: Vec<u8>,
}

/// What a [`ImageRow`] stands for: its texts as sequences of characters.
pub struct ImageRowView {
    pub id: Seq<char>,
    pub data: Seq<u8>,
}

impl DeepView for ImageRow {
    type V = ImageRowView;

    open spec fn deep_view(&self) -> ImageRowView {
        ImageRowView { id: self.id@, data: self.data@ }
    }
}

impl Keyed for IngredientRow {
    open spec fn key_of(row: Named) -> Seq<char> {
        row.id
    }

    fn key(&self) -> (key: &str) {
        self.id.as_str()
    }
}

impl Keyed for PreparationRow {
    open spec fn key_of(row: Named) -> Seq<char> {
        row.id
    }

    fn key(&self) -> (key: &str) {
        self.id.as_str()
    }
}

impl Keyed for UnitRow {
    open spec fn key_of(row: UnitRowView) -> Seq<char> {
        row.id
    }

    fn key(&self) -> (key: &str) {
        self.id.as_str()
    }
}

impl Keyed for RecipeRow {
    open spec fn key_of(row: RecipeRowView) -> Seq<char> {
        row.id
    }

    fn key(&self) -> (key: &str) {
        self.id.as_str()
    }
}

impl Keyed for ImageRow {
    open spec fn key_of(row: ImageRowView) -> Seq<char> {
        row.id
    }

    fn key(&self) -> (key: &str) {
        self.id.as_str()
    }
}

} // verus!
