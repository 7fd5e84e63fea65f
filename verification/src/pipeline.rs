//! The import run: its stages in their fixed order, and the run itself
//! against the store held in memory.

use crate::ingest::{
    authors_fit, imported_authors, imported_rows, ingredient_row, insert_ingredient_units, insert_ingredients,
    insert_preparations, insert_recipes, insert_units, links, stopped_at, unit_row, IngestError,
    IngestIngredient, IngestIngredientView, IngestUnit, IngestUnitView,
};
use crate::model::{Named, Recipe, RecipeView, ReferencePreparation};
use crate::schema::{IngredientRow, PreparationRow, RecipeRow, UnitRow};
use crate::store::{lemma_link_twice, link_all_ignore, link_refers, Store, StoreView};
use crate::table::{insert_all_ignore, lemma_insert_twice};
use vstd::prelude::*;

verus! {

/// The four files of an import, by their paths.
#[derive(Debug, PartialEq, Eq)]
pub struct IngestData {
    pub ingredients: String,
    pub preparations: String,
    pub units: String,
    pub recipes: String,
}

/// A stage of the import run. Each stage is complete before the next begins:
/// the join rows refer to ingredients and units, the recipes to all of them.
#[derive(Clone, Copy, Debug, PartialEq, Eq, Structural)]
pub enum Stage {
    Ingredients,
    Preparations,
    Units,
    IngredientUnits,
    Recipes,
}

impl Stage {
    /// The place of the stage in the run, from 0.
    pub open spec fn position(self) -> nat {
        match self {
            Stage::Ingredients => 0,
            Stage::Preparations => 1,
            Stage::Units => 2,
            Stage::IngredientUnits => 3,
            Stage::Recipes => 4,
        }
    }

    /// What an error of the stage is reported under.
    pub open spec fn context_text(self) -> Seq<char> {
        match self {
            Stage::Ingredients => "Ingesting ingredients"@,
            Stage::Preparations => "Ingesting preparations"@,
            Stage::Units => "Ingesting units"@,
            Stage::IngredientUnits => "Ingesting ingredient allowed units"@,
            Stage::Recipes => "Ingesting recipes"@,
        }
    }

    /// The stage that a run begins with.
    pub fn first() -> (stage: Stage)
        ensures
            stage.position() == 0,
    {
        Stage::Ingredients
    }

    /// The stage that follows this one, if any does.
    pub fn next(self) -> (following: Option<Stage>)
        ensures
            match following {
                Some(stage) => stage.position() == self.position() + 1,
                None => self == Stage::Recipes,
            },
    {
        match self {
            Stage::Ingredients => Some(Stage::Preparations),
            Stage::Preparations => Some(Stage::Units),
            Stage::Units => Some(Stage::IngredientUnits),
            Stage::IngredientUnits => Some(Stage::Recipes),
            Stage::Recipes => None,
        }
    }

    /// What an error of the stage is reported under.
    pub fn context(self) -> (text: String)
        ensures
            text@ == self.context_text(),
    {
        match self {
            Stage::Ingredients => "Ingesting ingredients".to_owned(),
            Stage::Preparations => "Ingesting preparations".to_owned(),
            Stage::Units => "Ingesting units".to_owned(),
            Stage::IngredientUnits => "Ingesting ingredient allowed units".to_owned(),
            Stage::Recipes => "Ingesting recipes".to_owned(),
        }
    }
}

/// The stage at which a run stopped, and why.
#[derive(Clone, Copy, Debug, PartialEq, Eq, Structural)]
pub struct RunError {
    pub stage: Stage,
    pub cause: IngestError,
}

/// The store after the reference data of an import is in: ingredients,
/// preparations, units and the allowed units of the ingredients, each
/// inserted with conflicts ignored.
pub open spec fn with_reference_data(
    store: StoreView,
    ingredients: Seq<IngestIngredientView>,
    preparations: Seq<Named>,
    units: Seq<IngestUnitView>,
) -> StoreView {
    StoreView {
        ingredients: insert_all_ignore::<IngredientRow>(
            store.ingredients,
            ingredients.map_values(|r: IngestIngredientView| ingredient_row(r)),
        ),
        preparations: insert_all_ignore::<PreparationRow>(store.preparations, preparations),
        units: insert_all_ignore::<UnitRow>(
            store.units,
            units.map_values(|r: IngestUnitView| unit_row(r)),
        ),
        ingredient_units: link_all_ignore(store.ingredient_units, links(ingredients)),
        ..store
    }
}

/// The store after ingredients, preparations and units of an import are in,
/// before the allowed units of the ingredients.
pub open spec fn with_vocabulary(
    store: StoreView,
    ingredients: Seq<IngestIngredientView>,
    preparations: Seq<Named>,
    units: Seq<IngestUnitView>,
) -> StoreView {
    StoreView {
        ingredients: insert_all_ignore::<IngredientRow>(
            store.ingredients,
            ingredients.map_values(|r: IngestIngredientView| ingredient_row(r)),
        ),
        preparations: insert_all_ignore::<PreparationRow>(store.preparations, preparations),
        units: insert_all_ignore::<UnitRow>(
            store.units,
            units.map_values(|r: IngestUnitView| unit_row(r)),
        ),
        ..store
    }
}

/// Whether the allowed units of an import can be linked once its
/// ingredients and units are in: every allowed unit of every ingredient is
/// then a unit of the store.
pub open spec fn linkable(
    store: StoreView,
    ingredients: Seq<IngestIngredientView>,
    preparations: Seq<Named>,
    units: Seq<IngestUnitView>,
) -> bool {
    forall|i: int|
        0 <= i < links(ingredients).len() ==> link_refers(
            with_vocabulary(store, ingredients, preparations, units),
            #[trigger] links(ingredients)[i],
        )
}

/// The store after the authors of an import are in.
pub open spec fn with_imported_authors(store: StoreView, recipes: Seq<RecipeView>) -> StoreView {
    StoreView { authors: imported_authors(store.authors, recipes), ..store }
}

/// The store after the recipes of an import are in, authors first.
pub open spec fn with_imported_recipes(store: StoreView, recipes: Seq<RecipeView>) -> StoreView {
    StoreView {
        authors: imported_authors(store.authors, recipes),
        recipes: insert_all_ignore::<RecipeRow>(
            store.recipes,
            imported_rows(store.authors, recipes),
        ),
        ..store
    }
}

/// Importing the same reference data a second time changes nothing: the
/// store holds the same rows, and so as many, as after the first time.
pub proof fn lemma_reference_data_twice(
    store: StoreView,
    ingredients: Seq<IngestIngredientView>,
    preparations: Seq<Named>,
    units: Seq<IngestUnitView>,
)
    requires
        store.well_formed(),
    ensures
        with_reference_data(
            with_reference_data(store, ingredients, preparations, units),
            ingredients,
            preparations,
            units,
        ) == with_reference_data(store, ingredients, preparations, units),
{
    lemma_insert_twice::<IngredientRow>(
        store.ingredients,
        ingredients.map_values(|r: IngestIngredientView| ingredient_row(r)),
    );
    lemma_insert_twice::<PreparationRow>(store.preparations, preparations);
    lemma_insert_twice::<UnitRow>(store.units, units.map_values(|r: IngestUnitView| unit_row(r)));
    lemma_link_twice(store.ingredient_units, links(ingredients));
}

/// Runs an import against the store: ingredients, preparations, units, the
/// allowed units of the ingredients, then the recipes.
///
/// The run succeeds exactly where every allowed unit of every ingredient is
/// a unit of the store once ingredients and units are in, the store has
/// numbers left for the authors of the recipes, and every recipe has been
/// published.
///
/// Ingredients, preparations and units always go in. The run stops at the
/// allowed units where one of them is no unit of the store, with the batches
/// before the one at fault in the store. It stops at the recipes where the
/// store has no numbers left for their authors or one of them has not been
/// published; where only a date of publication is missing, the authors are
/// in the store all the same.
pub fn run(
    store: &mut Store,
    ingredients: &[IngestIngredient],
    preparations: &[ReferencePreparation],
    units: &[IngestUnit],
    recipes: &[Recipe],
) -> (res: Result<(), RunError>)
    requires
        old(store).wf(),
    ensures
        final(store).wf(),
        res is Ok <==> {
            &&& linkable(
                old(store)@,
                ingredients.deep_view(),
                preparations.deep_view(),
                units.deep_view(),
            )
            &&& authors_fit(old(store)@, recipes.deep_view())
            &&& forall|i: int|
                0 <= i < recipes.len() ==> (#[trigger] recipes[i]).published_at is Some
        },
        match res {
            Ok(()) => {
                &&& linkable(
                    old(store)@,
                    ingredients.deep_view(),
                    preparations.deep_view(),
                    units.deep_view(),
                )
                &&& forall|i: int|
                    0 <= i < recipes.len() ==> (#[trigger] recipes[i]).published_at is Some
                &&& final(store)@ == with_imported_recipes(
                    with_reference_data(
                        old(store)@,
                        ingredients.deep_view(),
                        preparations.deep_view(),
                        units.deep_view(),
                    ),
                    recipes.deep_view(),
                )
            },
            Err(RunError { stage, cause: IngestError::MissingReference { batch } }) => {
                &&& stage == Stage::IngredientUnits
                &&& stopped_at(
                    with_vocabulary(
                        old(store)@,
                        ingredients.deep_view(),
                        preparations.deep_view(),
                        units.deep_view(),
                    ),
                    links(ingredients.deep_view()),
                    batch as int,
                    final(store)@,
                )
            },
            Err(RunError { stage, cause: IngestError::NotPublished { recipe } }) => {
                &&& stage == Stage::Recipes
                &&& authors_fit(old(store)@, recipes.deep_view())
                &&& linkable(
                    old(store)@,
                    ingredients.deep_view(),
                    preparations.deep_view(),
                    units.deep_view(),
                )
                &&& recipe < recipes.len()
                &&& recipes[recipe as int].published_at is None
                &&& forall|i: int|
                    0 <= i < recipe ==> (#[trigger] recipes[i]).published_at is Some
                &&& final(store)@ == with_imported_authors(
                    with_reference_data(
                        old(store)@,
                        ingredients.deep_view(),
                        preparations.deep_view(),
                        units.deep_view(),
                    ),
                    recipes.deep_view(),
                )
            },
            Err(RunError { stage, cause: IngestError::StoreFull }) => {
                &&& stage == Stage::Recipes
                &&& !authors_fit(old(store)@, recipes.deep_view())
                &&& linkable(
                    old(store)@,
                    ingredients.deep_view(),
                    preparations.deep_view(),
                    units.deep_view(),
                )
                &&& final(store)@ == with_reference_data(
                    old(store)@,
                    ingredients.deep_view(),
                    preparations.deep_view(),
                    units.deep_view(),
                )
            },
            Err(RunError { stage, cause: IngestError::UnknownAuthor { .. } }) => false,
        },
{
    insert_ingredients(store, ingredients);
    insert_preparations(store, preparations);
    insert_units(store, units);
    match insert_ingredient_units(store, ingredients) {
        Ok(()) => {},
        Err(cause) => {
            return Err(RunError { stage: Stage::IngredientUnits, cause });
        },
    }
    match insert_recipes(store, recipes) {
        Ok(()) => Ok(()),
        Err(cause) => Err(RunError { stage: Stage::Recipes, cause }),
    }
}

} // verus!
