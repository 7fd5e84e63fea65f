use cookbook::duration::Duration;
use cookbook::model::{Author, Recipe, RecipeItem, Timestamp};
use cookbook::proxy::{
    answer_hero, answer_hero_found, answer_recipe, answer_recipe_found, decimal_text, hero_url,
    merge_saved, preview_len, recipe_url, saved_recipes_url, upstream_url, Answer, ProxyError,
};
use cookbook::query::{set_image, set_recipe};
use cookbook::store::Store;

fn item(id: &str) -> RecipeItem {
    RecipeItem {
        id: id.to_owned(),
        name: id.to_uppercase(),
        author_name: "Chef A".to_owned(),
        total_time: Duration::from_secs(60),
    }
}

fn custom_recipe(id: &str) -> Recipe {
    Recipe {
        author: Author { image: "i".to_owned(), name: "Chef A".to_owned(), url: "u".to_owned() },
        created_at: Timestamp { secs: 1, nanos: 0 },
        created_by_id: "me".to_owned(),
        description: String::new(),
        etag: "e".to_owned(),
        forked_into_other_locales: vec![],
        id: id.to_owned(),
        ingredients: vec![],
        locale: "en-GB".to_owned(),
        modified_at: Timestamp { secs: 1, nanos: 0 },
        name: "Soup".to_owned(),
        organization_id: String::new(),
        published_at: Some(Timestamp { secs: 1, nanos: 0 }),
        reference_tags: vec![],
        serves: 1,
        state: "published".to_owned(),
        steps: vec![],
        total_time: Duration::zero(),
        visibility: "all-users".to_owned(),
        cook_time: None,
        prep_time: None,
        referenced: None,
        requester_role: None,
    }
}

#[test]
fn numbers_are_written_in_decimal() {
    assert_eq!(decimal_text(0), "0");
    assert_eq!(decimal_text(7), "7");
    assert_eq!(decimal_text(10), "10");
    assert_eq!(decimal_text(1180), "1180");
    assert_eq!(decimal_text(u32::MAX), "4294967295");
}

#[test]
fn upstream_addresses() {
    assert_eq!(recipe_url("api.example.com", "r-1"), "https://api.example.com/recipes/r-1");
    assert_eq!(
        hero_url("api.example.com", "r-1", 640, 480),
        "https://api.example.com/media/images/recipes/r-1/hero?width=640&height=480"
    );
    assert_eq!(
        saved_recipes_url("api.example.com"),
        "https://api.example.com/collections/saved-recipes"
    );
    assert_eq!(upstream_url("api.example.com"), "https://api.example.com");
}

#[test]
fn the_preview_of_an_answer_is_short() {
    assert_eq!(preview_len(0), 0);
    assert_eq!(preview_len(199), 199);
    assert_eq!(preview_len(200), 200);
    assert_eq!(preview_len(201), 200);
    assert_eq!(preview_len(usize::MAX), 200);
}

#[test]
fn recipes_written_here_come_before_those_from_upstream() {
    let merged = merge_saved(vec![item("a"), item("b")], vec![item("c")]);
    assert_eq!(merged, vec![item("a"), item("b"), item("c")]);
    assert_eq!(merge_saved(vec![], vec![item("c")]), vec![item("c")]);
    assert_eq!(merge_saved(vec![item("a")], vec![]), vec![item("a")]);
}

#[test]
fn a_recipe_of_the_store_is_answered_from_the_store() {
    let mut store = Store::new();
    set_recipe(&mut store, custom_recipe("soup"), true, Timestamp { secs: 2, nanos: 0 }).unwrap();
    match answer_recipe(&store, "soup", None) {
        Ok(Answer::Custom(recipe)) => assert_eq!(recipe.name, "Soup"),
        other => panic!("unexpected answer: {other:?}"),
    }
    assert_eq!(
        answer_recipe(&store, "stew", Some("up.example")),
        Ok(Answer::Upstream { url: "https://up.example/recipes/stew".to_owned() })
    );
    assert_eq!(answer_recipe(&store, "stew", None), Err(ProxyError::NoHost));
    assert_eq!(ProxyError::NoHost.message(), "Expected a host header");
}

#[test]
fn a_picture_of_the_store_is_answered_from_the_store() {
    let mut store = Store::new();
    set_image(&mut store, "soup", vec![7, 7]);
    assert_eq!(answer_hero(&store, "soup", 10, 20, None), Ok(Answer::Custom(vec![7, 7])));
    assert_eq!(
        answer_hero(&store, "stew", 10, 20, Some("up.example")),
        Ok(Answer::Upstream {
            url: "https://up.example/media/images/recipes/stew/hero?width=10&height=20".to_owned()
        })
    );
    assert_eq!(answer_hero(&store, "stew", 10, 20, None), Err(ProxyError::NoHost));
}

#[test]
fn what_was_found_is_the_answer() {
    let soup = custom_recipe("soup");
    assert_eq!(
        answer_recipe_found(Some(soup.clone()), "soup", Some("up.example")),
        Ok(Answer::Custom(soup.clone()))
    );
    assert_eq!(answer_recipe_found(Some(soup.clone()), "soup", None), Ok(Answer::Custom(soup)));
    assert_eq!(
        answer_recipe_found(None, "soup", Some("up.example")),
        Ok(Answer::Upstream { url: "https://up.example/recipes/soup".to_owned() })
    );
    assert_eq!(answer_recipe_found(None, "soup", None), Err(ProxyError::NoHost));

    assert_eq!(
        answer_hero_found(Some(vec![1, 2]), "soup", 3, 4, None),
        Ok(Answer::Custom(vec![1, 2]))
    );
    assert_eq!(
        answer_hero_found(None, "soup", 3, 4, Some("up.example")),
        Ok(Answer::Upstream {
            url: "https://up.example/media/images/recipes/soup/hero?width=3&height=4".to_owned()
        })
    );
    assert_eq!(answer_hero_found(None, "soup", 3, 4, None), Err(ProxyError::NoHost));
}
