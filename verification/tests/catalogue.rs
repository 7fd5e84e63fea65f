use cookbook::duration::Duration;
use cookbook::ingest::{
    IngestError, IngestIngredient, IngestIngredientUnit, IngestMeasurementSystem, IngestUnit,
};
use cookbook::model::{
    Author, Ingredient, IngredientAllowedUnit, Number, Quantity, Recipe, RecipeIngredient,
    RecipeStep, ReferencePreparation, ReferenceUnit, StepIngredient, Timestamp,
};
use cookbook::pipeline::{run, RunError, Stage};
use cookbook::query::{
    get_image, get_recipe, item_from_row, list_ingredient_allowed, list_ingredients,
    list_preparations, list_recipe_items, list_recipes, page_bounds, recipe_from_parts,
    recipe_from_row, set_image, set_recipe, QueryError,
};
use cookbook::schema::{AuthorRow, RecipeRow};
use cookbook::store::{Store, StoreError};

fn at(secs: i64) -> Timestamp {
    Timestamp { secs, nanos: 0 }
}

fn flour_quantity() -> Quantity {
    Quantity {
        amount: Some(Number { bits: 250.0f64.to_bits() }),
        reference_unit: ReferenceUnit {
            abbreviation: "g".to_owned(),
            id: "g".to_owned(),
            name: "gram".to_owned(),
        },
        text: "250 g".to_owned(),
    }
}

fn recipe_by(id: &str, author: &str) -> Recipe {
    Recipe {
        author: Author {
            image: "https://img.example/chef.png".to_owned(),
            name: author.to_owned(),
            url: "https://example/chef".to_owned(),
        },
        created_at: at(100),
        created_by_id: "importer".to_owned(),
        description: "Plain bread".to_owned(),
        etag: "etag-1".to_owned(),
        forked_into_other_locales: vec![],
        id: id.to_owned(),
        ingredients: vec![RecipeIngredient {
            quantity: flour_quantity(),
            reference_ingredient: Ingredient { id: "flour".to_owned(), name: "Flour".to_owned() },
            reference_preparations: vec![ReferencePreparation {
                id: "sifted".to_owned(),
                name: "Sifted".to_owned(),
            }],
            source_text: Some("250 g flour, sifted".to_owned()),
        }],
        locale: "en-GB".to_owned(),
        modified_at: at(200),
        name: "Bread".to_owned(),
        organization_id: "org".to_owned(),
        published_at: Some(at(300)),
        reference_tags: vec![],
        serves: 2,
        state: "published".to_owned(),
        steps: vec![RecipeStep {
            capability: None,
            ingredients: vec![StepIngredient { ingredient_idx: 0, quantity: flour_quantity() }],
            source_text: None,
            text: "Mix".to_owned(),
        }],
        total_time: Duration::from_mins(45).unwrap(),
        visibility: "all-users".to_owned(),
        cook_time: Some(Duration::from_mins(30).unwrap()),
        prep_time: Some(Duration::from_mins(15).unwrap()),
        referenced: None,
        requester_role: None,
    }
}

fn flour() -> IngestIngredient {
    IngestIngredient {
        id: "flour".to_owned(),
        name: "Flour".to_owned(),
        allowed_units: vec![IngestIngredientUnit { id: "g".to_owned(), name: "gram".to_owned() }],
    }
}

fn gram() -> IngestUnit {
    IngestUnit {
        id: "g".to_owned(),
        name: "gram".to_owned(),
        abbreviation: None,
        dimension: None,
        measurement_system: None,
    }
}

#[test]
fn import_then_query_returns_the_recipe_of_chef_a() {
    let mut store = Store::new();
    let recipes = vec![recipe_by("bread", "Chef A")];
    assert_eq!(run(&mut store, &[flour()], &[], &[gram()], &recipes), Ok(()));

    let listed = list_recipes(&store, None, None, true).unwrap();
    assert_eq!(listed.len(), 1);
    assert_eq!(listed[0].author.name, "Chef A");
    assert_eq!(listed[0].id, "bread");
    assert_eq!(store.recipes().len(), 1);
    assert!(!store.recipes()[0].is_custom);

    assert_eq!(list_recipes(&store, None, None, false).unwrap().len(), 0);
    assert_eq!(store.ingredients().len(), 1);
    assert_eq!(store.units().len(), 1);
    assert_eq!(store.preparations().len(), 0);
    assert_eq!(store.ingredient_units().len(), 1);
    assert_eq!(store.authors().len(), 1);
}

#[test]
fn the_documents_of_a_recipe_come_back_as_they_went_in() {
    let mut store = Store::new();
    let recipe = recipe_by("bread", "Chef A");
    run(&mut store, &[], &[], &[], &[recipe.clone()]).unwrap();
    let read = get_recipe(&store, "bread").unwrap();
    assert_eq!(read.steps, recipe.steps);
    assert_eq!(read.ingredients, recipe.ingredients);
    assert_eq!(read.total_time, recipe.total_time);
    assert_eq!(read.cook_time, recipe.cook_time);
    assert_eq!(read.prep_time, recipe.prep_time);
    assert_eq!(read.author, recipe.author);
}

#[test]
fn a_recipe_read_back_has_the_fixed_values_of_the_store() {
    let mut store = Store::new();
    run(&mut store, &[], &[], &[], &[recipe_by("bread", "Chef A")]).unwrap();
    let read = get_recipe(&store, "bread").unwrap();
    assert_eq!(read.organization_id, "");
    assert_eq!(read.state, "published");
    assert_eq!(read.visibility, "all-users");
    assert_eq!(read.published_at, Some(at(300)));
    assert_eq!(read.serves, 2);
    assert_eq!(read.etag, "etag-1");
    assert!(read.forked_into_other_locales.is_empty());
    assert!(read.reference_tags.is_empty());
    assert_eq!(read.referenced, None);
    assert_eq!(read.requester_role, None);
}

#[test]
fn the_run_stops_at_the_recipes_without_a_date_of_publication() {
    let mut store = Store::new();
    let mut draft = recipe_by("draft", "Chef A");
    draft.published_at = None;
    let res = run(&mut store, &[flour()], &[], &[gram()], &[recipe_by("bread", "Chef A"), draft]);
    assert_eq!(
        res,
        Err(RunError { stage: Stage::Recipes, cause: IngestError::NotPublished { recipe: 1 } })
    );
    assert_eq!(store.ingredients().len(), 1);
    assert_eq!(store.recipes().len(), 0);
    assert_eq!(store.authors().len(), 1);
}

#[test]
fn the_run_stops_at_the_allowed_units_without_their_unit() {
    let mut store = Store::new();
    let res = run(&mut store, &[flour()], &[], &[], &[recipe_by("bread", "Chef A")]);
    assert_eq!(
        res,
        Err(RunError {
            stage: Stage::IngredientUnits,
            cause: IngestError::MissingReference { batch: 0 }
        })
    );
    assert_eq!(store.ingredients().len(), 1);
    assert_eq!(store.ingredient_units().len(), 0);
    assert_eq!(store.authors().len(), 0);
    assert_eq!(store.recipes().len(), 0);
    assert_eq!(Stage::IngredientUnits.context(), "Ingesting ingredient allowed units");
}

#[test]
fn stages_follow_in_their_order() {
    let mut stage = Stage::first();
    let mut contexts = vec![stage.context()];
    while let Some(next) = stage.next() {
        contexts.push(next.context());
        stage = next;
    }
    assert_eq!(
        contexts,
        vec![
            "Ingesting ingredients",
            "Ingesting preparations",
            "Ingesting units",
            "Ingesting ingredient allowed units",
            "Ingesting recipes",
        ]
    );
}

#[test]
fn a_second_run_adds_no_rows_but_authors() {
    let mut store = Store::new();
    let recipes = vec![recipe_by("bread", "Chef A"), recipe_by("cake", "Chef A")];
    let preparations = vec![ReferencePreparation { id: "diced".to_owned(), name: "Diced".to_owned() }];
    for round in 1..=2 {
        run(&mut store, &[flour()], &preparations, &[gram()], &recipes).unwrap();
        assert_eq!(store.ingredients().len(), 1);
        assert_eq!(store.preparations().len(), 1);
        assert_eq!(store.units().len(), 1);
        assert_eq!(store.ingredient_units().len(), 1);
        assert_eq!(store.recipes().len(), 2);
        assert_eq!(store.authors().len(), round);
    }
    assert_eq!(store.recipes()[0].author_id, 1);
}

#[test]
fn lists_are_in_the_order_of_the_ids_and_paged() {
    let mut store = Store::new();
    let ingredients: Vec<IngestIngredient> = ["pear", "apple", "fig", "date"]
        .iter()
        .map(|id| IngestIngredient { id: (*id).to_owned(), name: id.to_uppercase(), allowed_units: vec![] })
        .collect();
    run(&mut store, &ingredients, &[], &[], &[]).unwrap();
    let ids = |list: Vec<Ingredient>| list.into_iter().map(|i| i.id).collect::<Vec<_>>();
    assert_eq!(ids(list_ingredients(&store, None, None)), vec!["apple", "date", "fig", "pear"]);
    assert_eq!(ids(list_ingredients(&store, Some(1), Some(2))), vec!["date", "fig"]);
    assert_eq!(ids(list_ingredients(&store, Some(3), None)), vec!["pear"]);
    assert_eq!(ids(list_ingredients(&store, Some(4), Some(1))), Vec::<String>::new());
    assert_eq!(ids(list_ingredients(&store, Some(9), None)), Vec::<String>::new());
    assert_eq!(ids(list_ingredients(&store, None, Some(0))), Vec::<String>::new());
    assert_eq!(ids(list_ingredients(&store, None, Some(9))), vec!["apple", "date", "fig", "pear"]);
}

#[test]
fn page_bounds_stay_within_the_list() {
    assert_eq!(page_bounds(10, None, None), (0, 10));
    assert_eq!(page_bounds(10, Some(3), Some(4)), (3, 7));
    assert_eq!(page_bounds(10, Some(8), Some(4)), (8, 10));
    assert_eq!(page_bounds(10, Some(10), Some(4)), (10, 10));
    assert_eq!(page_bounds(10, Some(u64::MAX), Some(u64::MAX)), (10, 10));
    assert_eq!(page_bounds(0, Some(0), Some(5)), (0, 0));
}

#[test]
fn preparations_are_listed() {
    let mut store = Store::new();
    let preparations = vec![
        ReferencePreparation { id: "minced".to_owned(), name: "Minced".to_owned() },
        ReferencePreparation { id: "diced".to_owned(), name: "Diced".to_owned() },
    ];
    run(&mut store, &[], &preparations, &[], &[]).unwrap();
    let listed = list_preparations(&store, None, Some(1));
    assert_eq!(listed, vec![ReferencePreparation { id: "diced".to_owned(), name: "Diced".to_owned() }]);
}

#[test]
fn allowed_units_of_an_ingredient() {
    let mut store = Store::new();
    let ingredient = IngestIngredient {
        id: "milk".to_owned(),
        name: "Milk".to_owned(),
        allowed_units: vec![
            IngestIngredientUnit { id: "ml".to_owned(), name: "millilitre".to_owned() },
            IngestIngredientUnit { id: "cup".to_owned(), name: "cup".to_owned() },
        ],
    };
    let units = vec![
        IngestUnit {
            id: "cup".to_owned(),
            name: "cup".to_owned(),
            abbreviation: Some("c".to_owned()),
            dimension: Some("volume".to_owned()),
            measurement_system: Some(IngestMeasurementSystem {
                id: "imperial".to_owned(),
                name: "Imperial".to_owned(),
            }),
        },
        IngestUnit {
            id: "ml".to_owned(),
            name: "millilitre".to_owned(),
            abbreviation: None,
            dimension: None,
            measurement_system: None,
        },
        gram(),
    ];
    let sugar =
        IngestIngredient { id: "sugar".to_owned(), name: "Sugar".to_owned(), allowed_units: vec![] };
    run(&mut store, &[ingredient, flour(), sugar], &[], &units, &[]).unwrap();
    let allowed = list_ingredient_allowed(&store, "milk").unwrap();
    assert_eq!(
        allowed,
        vec![
            IngredientAllowedUnit {
                id: "ml".to_owned(),
                name: "millilitre".to_owned(),
                abbreviation: None,
                dimension: None,
            },
            IngredientAllowedUnit {
                id: "cup".to_owned(),
                name: "cup".to_owned(),
                abbreviation: Some("c".to_owned()),
                dimension: Some("volume".to_owned()),
            },
        ]
    );
    assert_eq!(list_ingredient_allowed(&store, "flour").unwrap().len(), 1);
    assert_eq!(list_ingredient_allowed(&store, "sugar").unwrap(), vec![]);
    assert_eq!(list_ingredient_allowed(&store, "honey"), Err(QueryError::IngredientNotFound));
    assert_eq!(QueryError::IngredientNotFound.message(), "Couldn't find ingredient");
}

#[test]
fn a_missing_recipe_is_reported() {
    let store = Store::new();
    assert_eq!(get_recipe(&store, "nothing"), Err(QueryError::RecipeNotFound));
    assert_eq!(QueryError::RecipeNotFound.message(), "Recipe not found");
}

fn row_with_total_time(total_time: &str) -> RecipeRow {
    RecipeRow {
        id: "r".to_owned(),
        name: "R".to_owned(),
        description: String::new(),
        prep_time: Some("nonsense".to_owned()),
        cook_time: Some("PT20M".to_owned()),
        total_time: total_time.to_owned(),
        author_id: 1,
        serves: 260,
        e_tag: "e".to_owned(),
        organisation_id: "kept in the row only".to_owned(),
        locale: "en-GB".to_owned(),
        created_at: at(1),
        modified_at: at(2),
        published_at: at(3),
        created_by_id: "c".to_owned(),
        steps: vec![],
        ingredients: vec![],
        is_custom: true,
    }
}

fn chef() -> AuthorRow {
    AuthorRow { id: 1, name: "Chef A".to_owned(), image: "i".to_owned(), url: "u".to_owned() }
}

#[test]
fn a_row_without_a_readable_total_time_is_no_recipe() {
    assert_eq!(recipe_from_row(&row_with_total_time("soon"), &chef()), Err(QueryError::BadTotalTime));
    assert_eq!(item_from_row(&row_with_total_time(""), &chef()), Err(QueryError::BadTotalTime));
    assert_eq!(QueryError::BadTotalTime.message(), "Parsing an iso8601_duration");
}

#[test]
fn an_unreadable_cook_or_prep_time_counts_as_missing() {
    let recipe = recipe_from_row(&row_with_total_time("PT1H"), &chef()).unwrap();
    assert_eq!(recipe.total_time, Duration::from_secs(3600));
    assert_eq!(recipe.cook_time, Some(Duration::from_secs(1200)));
    assert_eq!(recipe.prep_time, None);
    assert_eq!(recipe.serves, 4);
    assert_eq!(recipe.author.url, "u");
    let item = item_from_row(&row_with_total_time("P1DT1S"), &chef()).unwrap();
    assert_eq!(item.total_time, Duration::from_secs(86_401));
    assert_eq!(item.author_name, "Chef A");
}

#[test]
fn the_number_served_is_read_back_by_its_low_byte() {
    let mut row = row_with_total_time("PT1H");
    row.serves = -1;
    let recipe = recipe_from_parts(&row, &chef(), Duration::zero(), None, None);
    assert_eq!(recipe.serves, 255);
    row.serves = 256;
    assert_eq!(recipe_from_parts(&row, &chef(), Duration::zero(), None, None).serves, 0);
    row.serves = i64::MIN;
    assert_eq!(recipe_from_parts(&row, &chef(), Duration::zero(), None, None).serves, 0);
}

#[test]
fn saving_a_new_recipe_marks_it_as_written_here() {
    let mut store = Store::new();
    run(&mut store, &[], &[], &[], &[recipe_by("bread", "Chef A")]).unwrap();
    assert_eq!(set_recipe(&mut store, recipe_by("cake", "Chef A"), true, at(900)), Ok(()));
    assert_eq!(store.authors().len(), 1);
    assert_eq!(set_recipe(&mut store, recipe_by("pie", "Chef B"), true, at(900)), Ok(()));
    assert_eq!(store.authors().len(), 2);
    assert_eq!(store.authors()[1].name, "Chef B");
    assert_eq!(store.authors()[1].url, "https://example/chef");

    let custom = list_recipes(&store, None, None, false).unwrap();
    assert_eq!(custom.iter().map(|r| r.id.as_str()).collect::<Vec<_>>(), vec!["cake", "pie"]);
    let all = list_recipe_items(&store, None, None, true).unwrap();
    assert_eq!(all.iter().map(|r| r.id.as_str()).collect::<Vec<_>>(), vec!["bread", "cake", "pie"]);
    assert_eq!(all[2].author_name, "Chef B");
    assert_eq!(all[0].total_time, Duration::from_mins(45).unwrap());
    let second = list_recipe_items(&store, Some(1), Some(1), true).unwrap();
    assert_eq!(second.len(), 1);
    assert_eq!(second[0].id, "cake");
    assert_eq!(store.recipes()[1].modified_at, at(200));
}

#[test]
fn saving_refuses_duplicates_and_missing_recipes() {
    let mut store = Store::new();
    assert_eq!(
        set_recipe(&mut store, recipe_by("cake", "Chef A"), false, at(900)),
        Err(StoreError::RecipeNotFound)
    );
    assert_eq!(store.authors().len(), 1);
    assert_eq!(set_recipe(&mut store, recipe_by("cake", "Chef A"), true, at(900)), Ok(()));
    assert_eq!(
        set_recipe(&mut store, recipe_by("cake", "Chef A"), true, at(900)),
        Err(StoreError::DuplicateRecipe)
    );
    let mut draft = recipe_by("tart", "Chef C");
    draft.published_at = None;
    assert_eq!(set_recipe(&mut store, draft, true, at(900)), Err(StoreError::NotPublished));
    assert_eq!(store.authors().len(), 1);
    assert_eq!(store.recipes().len(), 1);
}

#[test]
fn updating_a_recipe_stamps_it() {
    let mut store = Store::new();
    set_recipe(&mut store, recipe_by("cake", "Chef A"), true, at(900)).unwrap();
    let mut changed = recipe_by("cake", "Chef A");
    changed.name = "Better cake".to_owned();
    assert_eq!(set_recipe(&mut store, changed, false, at(1234)), Ok(()));
    let read = get_recipe(&store, "cake").unwrap();
    assert_eq!(read.name, "Better cake");
    assert_eq!(read.modified_at, at(1234));
    assert_eq!(read.created_at, at(100));
    assert_eq!(store.recipes().len(), 1);
    assert!(store.recipes()[0].is_custom);
}

#[test]
fn pictures_are_stored_and_replaced() {
    let mut store = Store::new();
    assert_eq!(get_image(&store, "bread"), Err(QueryError::ImageNotFound));
    set_image(&mut store, "bread", vec![1, 2, 3]);
    set_image(&mut store, "apple", vec![9]);
    assert_eq!(get_image(&store, "bread"), Ok(vec![1, 2, 3]));
    set_image(&mut store, "bread", vec![4]);
    assert_eq!(get_image(&store, "bread"), Ok(vec![4]));
    assert_eq!(get_image(&store, "apple"), Ok(vec![9]));
    assert_eq!(QueryError::ImageNotFound.message(), "Image not found");
}

#[test]
fn rows_that_name_no_author_are_refused() {
    let mut store = Store::new();
    assert_eq!(store.insert_recipe_rows(vec![row_with_total_time("PT1H")]), Err(StoreError::UnknownAuthor));
    assert_eq!(store.create_recipe_row(row_with_total_time("PT1H")), Err(StoreError::UnknownAuthor));
    assert_eq!(
        store.update_recipe_row(row_with_total_time("PT1H"), at(5)),
        Err(StoreError::UnknownAuthor)
    );
    assert_eq!(store.recipes().len(), 0);
    assert_eq!(store.author_id(Author { image: "i".into(), name: "Chef A".into(), url: "u".into() }), Ok(1));
    assert_eq!(store.author_id(Author { image: "x".into(), name: "Chef A".into(), url: "y".into() }), Ok(1));
    assert_eq!(store.find_author("Chef A"), Some(1));
    assert_eq!(store.find_author("Chef B"), None);
    assert_eq!(store.insert_recipe_rows(vec![row_with_total_time("PT1H")]), Ok(()));
    assert_eq!(store.recipes().len(), 1);
}

#[test]
fn the_store_says_why_it_refuses() {
    assert_eq!(StoreError::NotPublished.message(), "Recipe has no date of publication");
    assert_eq!(StoreError::DuplicateRecipe.message(), "UNIQUE constraint failed: recipe.id");
    assert_eq!(StoreError::RecipeNotFound.message(), "None of the records are updated");
    assert_eq!(StoreError::UnknownAuthor.message(), "FOREIGN KEY constraint failed");
    assert_eq!(StoreError::MissingReference.message(), "FOREIGN KEY constraint failed");
    assert_eq!(StoreError::Full.message(), "No author id is left");
}

#[test]
fn a_run_that_the_store_accepts_succeeds() {
    let mut store = Store::new();
    let recipes = vec![recipe_by("bread", "Chef A"), recipe_by("cake", "Chef B")];
    let preparations = vec![ReferencePreparation { id: "diced".to_owned(), name: "Diced".to_owned() }];
    assert_eq!(run(&mut store, &[flour()], &preparations, &[gram()], &recipes), Ok(()));
    assert_eq!(store.ingredients().len(), 1);
    assert_eq!(store.preparations().len(), 1);
    assert_eq!(store.units().len(), 1);
    assert_eq!(store.ingredient_units().len(), 1);
    assert_eq!(store.ingredient_units()[0].ingredient_id, "flour");
    assert_eq!(store.ingredient_units()[0].unit_id, "g");
    assert_eq!(store.authors().len(), 2);
    assert_eq!(store.recipes().len(), 2);
}
