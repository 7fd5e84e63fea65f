use cookbook::duration::Duration;
use cookbook::ingest::{
    batches, distinct_authors, ingredient_unit_rows, insert_ingredient_units, insert_ingredients,
    insert_preparations, insert_recipes, insert_units, recipe_rows, unit_rows, AuthorIndex,
    IngestError, IngestIngredient, IngestIngredientUnit, IngestMeasurementSystem, IngestUnit,
    BATCH_SIZE,
};
use cookbook::model::{Author, Recipe, ReferencePreparation, Timestamp};
use cookbook::schema::AuthorRow;
use cookbook::store::Store;

fn author(name: &str) -> Author {
    Author {
        image: format!("https://img.example/{name}.png"),
        name: name.to_owned(),
        url: format!("https://example/{name}"),
    }
}

fn recipe(id: &str, author_name: &str, published: bool) -> Recipe {
    Recipe {
        author: author(author_name),
        created_at: Timestamp { secs: 1_700_000_000, nanos: 0 },
        created_by_id: "importer".to_owned(),
        description: "A thing to eat".to_owned(),
        etag: "v1".to_owned(),
        forked_into_other_locales: vec![],
        id: id.to_owned(),
        ingredients: vec![],
        locale: "en-GB".to_owned(),
        modified_at: Timestamp { secs: 1_700_000_100, nanos: 0 },
        name: format!("Recipe {id}"),
        organization_id: "org".to_owned(),
        published_at: if published { Some(Timestamp { secs: 1_700_000_200, nanos: 5 }) } else { None },
        reference_tags: vec![],
        serves: 4,
        state: "published".to_owned(),
        steps: vec![],
        total_time: Duration::from_mins(90).unwrap(),
        visibility: "all-users".to_owned(),
        cook_time: Some(Duration::from_mins(60).unwrap()),
        prep_time: None,
        referenced: None,
        requester_role: None,
    }
}

fn ingredient_with_units(id: &str, units: usize) -> IngestIngredient {
    IngestIngredient {
        id: id.to_owned(),
        name: id.to_uppercase(),
        allowed_units: (0..units)
            .map(|u| IngestIngredientUnit { id: format!("u{u}"), name: format!("unit {u}") })
            .collect(),
    }
}

#[test]
fn batches_cut_at_the_batch_size() {
    let rows: Vec<u32> = (0..2500).collect();
    let parts = batches(rows.clone(), BATCH_SIZE);
    assert_eq!(parts.len(), 3);
    assert_eq!(parts[0].len(), 1000);
    assert_eq!(parts[1].len(), 1000);
    assert_eq!(parts[2].len(), 500);
    assert_eq!(parts.concat(), rows);
}

#[test]
fn batches_of_nothing_are_none() {
    let parts = batches(Vec::<u8>::new(), 3);
    assert!(parts.is_empty());
}

#[test]
fn batch_edges_one_thousand_rows() {
    let parts = batches((0..1000).collect::<Vec<u32>>(), BATCH_SIZE);
    assert_eq!(parts.len(), 1);
    assert_eq!(parts[0].len(), 1000);
}

#[test]
fn batch_edges_one_thousand_and_one_rows() {
    let parts = batches((0..1001).collect::<Vec<u32>>(), BATCH_SIZE);
    assert_eq!(parts.len(), 2);
    assert_eq!(parts[0].len(), 1000);
    assert_eq!(parts[1], vec![1000]);
}

#[test]
fn batch_edges_two_thousand_rows() {
    let parts = batches((0..2000).collect::<Vec<u32>>(), BATCH_SIZE);
    assert_eq!(parts.len(), 2);
    assert_eq!(parts[0].len(), 1000);
    assert_eq!(parts[1].len(), 1000);
    assert_eq!(parts[1][0], 1000);
}

fn units(count: usize) -> Vec<IngestUnit> {
    (0..count)
        .map(|u| IngestUnit {
            id: format!("u{u}"),
            name: format!("unit {u}"),
            abbreviation: None,
            dimension: None,
            measurement_system: None,
        })
        .collect()
}

fn import_links(count: usize) -> usize {
    let mut store = Store::new();
    let ingredients = vec![ingredient_with_units("flour", count)];
    insert_ingredients(&mut store, &ingredients);
    insert_units(&mut store, &units(count));
    assert_eq!(insert_ingredient_units(&mut store, &ingredients), Ok(()));
    let first = store.ingredient_units().len();
    assert_eq!(insert_ingredient_units(&mut store, &ingredients), Ok(()));
    assert_eq!(store.ingredient_units().len(), first);
    first
}

#[test]
fn links_need_their_ingredient_and_their_unit() {
    let mut store = Store::new();
    let ingredients = vec![ingredient_with_units("flour", 1)];
    assert_eq!(
        insert_ingredient_units(&mut store, &ingredients),
        Err(IngestError::MissingReference { batch: 0 })
    );
    insert_ingredients(&mut store, &ingredients);
    assert_eq!(
        insert_ingredient_units(&mut store, &ingredients),
        Err(IngestError::MissingReference { batch: 0 })
    );
    insert_units(&mut store, &units(1));
    assert_eq!(insert_ingredient_units(&mut store, &ingredients), Ok(()));
    assert_eq!(store.ingredient_units().len(), 1);
    assert_eq!(
        IngestError::MissingReference { batch: 0 }.message(),
        "FOREIGN KEY constraint failed"
    );
    assert_eq!(IngestError::MissingReference { batch: 2 }.recipe(), None);
}

#[test]
fn an_import_of_links_that_stopped_can_be_run_again() {
    let mut store = Store::new();
    let ingredients = vec![ingredient_with_units("flour", 2500)];
    insert_ingredients(&mut store, &ingredients);
    insert_units(&mut store, &units(1500));
    assert_eq!(
        insert_ingredient_units(&mut store, &ingredients),
        Err(IngestError::MissingReference { batch: 1 })
    );
    assert_eq!(store.ingredient_units().len(), 1000);
    insert_units(&mut store, &units(2500));
    assert_eq!(insert_ingredient_units(&mut store, &ingredients), Ok(()));
    assert_eq!(store.ingredient_units().len(), 2500);

    let mut clean = Store::new();
    insert_ingredients(&mut clean, &ingredients);
    insert_units(&mut clean, &units(2500));
    assert_eq!(insert_ingredient_units(&mut clean, &ingredients), Ok(()));
    assert_eq!(clean.ingredient_units(), store.ingredient_units());
}

#[test]
fn importing_one_thousand_links_succeeds() {
    assert_eq!(import_links(1000), 1000);
}

#[test]
fn importing_one_thousand_and_one_links_succeeds() {
    assert_eq!(import_links(1001), 1001);
}

#[test]
fn importing_two_thousand_links_succeeds() {
    assert_eq!(import_links(2000), 2000);
}

#[test]
fn links_follow_the_records() {
    let rows = ingredient_unit_rows(&[ingredient_with_units("a", 2), ingredient_with_units("b", 1)]);
    let pairs: Vec<(String, String)> =
        rows.into_iter().map(|r| (r.ingredient_id, r.unit_id)).collect();
    assert_eq!(
        pairs,
        vec![
            ("a".to_owned(), "u0".to_owned()),
            ("a".to_owned(), "u1".to_owned()),
            ("b".to_owned(), "u0".to_owned()),
        ]
    );
}

#[test]
fn reference_data_import_is_idempotent() {
    let mut store = Store::new();
    let ingredients = vec![ingredient_with_units("salt", 2), ingredient_with_units("flour", 1)];
    let preparations = vec![
        ReferencePreparation { id: "diced".to_owned(), name: "Diced".to_owned() },
        ReferencePreparation { id: "minced".to_owned(), name: "Minced".to_owned() },
    ];
    let mut units = units(2);
    units.push(IngestUnit {
        id: "g".to_owned(),
        name: "gram".to_owned(),
        abbreviation: Some("g".to_owned()),
        dimension: Some("mass".to_owned()),
        measurement_system: Some(IngestMeasurementSystem {
            id: "metric".to_owned(),
            name: "Metric".to_owned(),
        }),
    });
    for _ in 0..2 {
        insert_ingredients(&mut store, &ingredients);
        insert_preparations(&mut store, &preparations);
        insert_units(&mut store, &units);
        assert_eq!(insert_ingredient_units(&mut store, &ingredients), Ok(()));
        assert_eq!(store.ingredients().len(), 2);
        assert_eq!(store.preparations().len(), 2);
        assert_eq!(store.units().len(), 3);
        assert_eq!(store.ingredient_units().len(), 3);
    }
    let ids: Vec<&str> = store.ingredients().iter().map(|r| r.id.as_str()).collect();
    assert_eq!(ids, vec!["flour", "salt"]);
}

#[test]
fn reimport_does_not_overwrite() {
    let mut store = Store::new();
    insert_preparations(
        &mut store,
        &[ReferencePreparation { id: "diced".to_owned(), name: "Diced".to_owned() }],
    );
    insert_preparations(
        &mut store,
        &[ReferencePreparation { id: "diced".to_owned(), name: "Chopped".to_owned() }],
    );
    assert_eq!(store.preparations().len(), 1);
    assert_eq!(store.preparations()[0].name, "Diced");
}

#[test]
fn a_unit_without_optional_values_gives_null_columns() {
    let rows = unit_rows(&[IngestUnit {
        id: "g".to_owned(),
        name: "gram".to_owned(),
        abbreviation: None,
        dimension: None,
        measurement_system: None,
    }]);
    assert_eq!(rows.len(), 1);
    assert_eq!(rows[0].id, "g");
    assert_eq!(rows[0].name, "gram");
    assert_eq!(rows[0].abbreviation, None);
    assert_eq!(rows[0].dimension_id, None);
    assert_eq!(rows[0].measurement_system_id, None);
    let mut store = Store::new();
    insert_units(
        &mut store,
        &[IngestUnit {
            id: "g".to_owned(),
            name: "gram".to_owned(),
            abbreviation: None,
            dimension: None,
            measurement_system: None,
        }],
    );
    assert_eq!(store.units().len(), 1);
    assert_eq!(store.units()[0].measurement_system_id, None);
}

#[test]
fn a_unit_keeps_the_id_of_its_measurement_system() {
    let rows = unit_rows(&[IngestUnit {
        id: "cup".to_owned(),
        name: "cup".to_owned(),
        abbreviation: Some("c".to_owned()),
        dimension: Some("volume".to_owned()),
        measurement_system: Some(IngestMeasurementSystem {
            id: "imperial".to_owned(),
            name: "Imperial".to_owned(),
        }),
    }]);
    assert_eq!(rows[0].abbreviation.as_deref(), Some("c"));
    assert_eq!(rows[0].dimension_id.as_deref(), Some("volume"));
    assert_eq!(rows[0].measurement_system_id.as_deref(), Some("imperial"));
}

#[test]
fn authors_are_deduplicated_by_name() {
    let recipes = vec![
        recipe("r1", "Chef A", true),
        recipe("r2", "Chef B", true),
        recipe("r3", "Chef A", true),
    ];
    let authors = distinct_authors(&recipes);
    let names: Vec<&str> = authors.iter().map(|a| a.name.as_str()).collect();
    assert_eq!(names, vec!["Chef A", "Chef B"]);
}

#[test]
fn a_stale_author_map_aborts_the_import() {
    let index = AuthorIndex::new(&[AuthorRow {
        id: 1,
        name: "Chef A".to_owned(),
        image: String::new(),
        url: String::new(),
    }]);
    let recipes = vec![recipe("r1", "Chef A", true), recipe("r2", "Chef B", true)];
    assert_eq!(recipe_rows(&recipes, &index).unwrap_err(), IngestError::UnknownAuthor { recipe: 1 });
}

#[test]
fn an_unpublished_recipe_fails_the_import() {
    let index = AuthorIndex::new(&[AuthorRow {
        id: 7,
        name: "Chef A".to_owned(),
        image: String::new(),
        url: String::new(),
    }]);
    let recipes = vec![recipe("r1", "Chef A", true), recipe("r2", "Chef A", false)];
    let err = recipe_rows(&recipes, &index).unwrap_err();
    assert_eq!(err, IngestError::NotPublished { recipe: 1 });
    assert_eq!(err.message(), "Imported recipes should be published");

    let mut store = Store::new();
    assert_eq!(insert_recipes(&mut store, &recipes), Err(IngestError::NotPublished { recipe: 1 }));
    assert_eq!(store.recipes().len(), 0);
    assert_eq!(store.authors().len(), 1);
}

#[test]
fn an_unknown_author_is_reported_before_a_missing_date() {
    let index = AuthorIndex::new(&[]);
    let recipes = vec![recipe("r1", "Chef A", false)];
    assert_eq!(recipe_rows(&recipes, &index).unwrap_err(), IngestError::UnknownAuthor { recipe: 0 });
}

#[test]
fn the_last_author_of_a_name_is_found() {
    let index = AuthorIndex::new(&[
        AuthorRow { id: 1, name: "Chef A".to_owned(), image: String::new(), url: String::new() },
        AuthorRow { id: 2, name: "Chef B".to_owned(), image: String::new(), url: String::new() },
        AuthorRow { id: 3, name: "Chef A".to_owned(), image: String::new(), url: String::new() },
    ]);
    assert_eq!(index.get("Chef A"), Some(3));
    assert_eq!(index.get("Chef B"), Some(2));
    assert_eq!(index.get("Chef C"), None);
}

#[test]
fn recipe_rows_carry_the_recipe() {
    let index = AuthorIndex::new(&[AuthorRow {
        id: 7,
        name: "Chef A".to_owned(),
        image: String::new(),
        url: String::new(),
    }]);
    let rows = recipe_rows(&[recipe("r1", "Chef A", true)], &index).unwrap();
    assert_eq!(rows.len(), 1);
    let row = &rows[0];
    assert_eq!(row.id, "r1");
    assert_eq!(row.name, "Recipe r1");
    assert_eq!(row.author_id, 7);
    assert_eq!(row.serves, 4);
    assert_eq!(row.e_tag, "v1");
    assert_eq!(row.organisation_id, "org");
    assert_eq!(row.total_time, "PT1H30M");
    assert_eq!(row.cook_time.as_deref(), Some("PT1H"));
    assert_eq!(row.prep_time, None);
    assert_eq!(row.published_at, Timestamp { secs: 1_700_000_200, nanos: 5 });
    assert!(!row.is_custom);
}

#[test]
fn reimporting_recipes_duplicates_authors_but_not_recipes() {
    let mut store = Store::new();
    let recipes = vec![recipe("r2", "Chef A", true), recipe("r1", "Chef B", true)];
    assert_eq!(insert_recipes(&mut store, &recipes), Ok(()));
    assert_eq!(store.authors().len(), 2);
    assert_eq!(store.recipes().len(), 2);
    assert_eq!(store.recipes()[0].id, "r1");
    assert_eq!(store.recipes()[0].author_id, 2);
    assert_eq!(store.recipes()[1].author_id, 1);
    assert_eq!(store.authors()[0].url, "https://example/Chef A");

    assert_eq!(insert_recipes(&mut store, &recipes), Ok(()));
    assert_eq!(store.authors().len(), 4);
    assert_eq!(store.recipes().len(), 2);
    assert_eq!(store.recipes()[1].author_id, 1);
}

#[test]
fn errors_name_the_recipe_at_fault() {
    assert_eq!(IngestError::UnknownAuthor { recipe: 3 }.recipe(), Some(3));
    assert_eq!(IngestError::NotPublished { recipe: 0 }.recipe(), Some(0));
    assert_eq!(IngestError::StoreFull.recipe(), None);
    assert_eq!(IngestError::StoreFull.message(), "No author id is left");
    assert_eq!(
        IngestError::UnknownAuthor { recipe: 3 }.message(),
        "Recipe author is missing from the store"
    );
}

#[test]
fn distinct_authors_keep_the_first_of_each_name() {
    let mut second = recipe("r2", "Chef A", true);
    second.author.url = "https://example/other".to_owned();
    let authors = distinct_authors(&[recipe("r1", "Chef A", true), second]);
    assert_eq!(authors.len(), 1);
    assert_eq!(authors[0].url, "https://example/Chef A");
    assert!(distinct_authors(&[]).is_empty());
}
