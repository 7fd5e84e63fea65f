//! What the server answers from the store and what it hands on to the
//! upstream service: which of the two is asked, and under which address.

use crate::model::{Recipe, RecipeItem};
use crate::query::{author_of, get_image, get_recipe, read_recipe};
use crate::schema::{ImageRow, RecipeRow};
use crate::store::StoreView;
use crate::table::{has_key, rank};
use crate::store::Store;
use vstd::prelude::*;
use vstd::string::*;

verus! {

/// The longest part of an upstream answer that is written to the log, in
/// bytes.
pub const PREVIEW_LEN: usize = 200;

/// The text of a decimal digit.
pub open spec fn digit_text(d: int) -> Seq<char> {
    if d == 0 {
        "0"@
    } else if d == 1 {
        "1"@
    } else if d == 2 {
        "2"@
    } else if d == 3 {
        "3"@
    } else if d == 4 {
        "4"@
    } else if d == 5 {
        "5"@
    } else if d == 6 {
        "6"@
    } else if d == 7 {
        "7"@
    } else if d == 8 {
        "8"@
    } else {
        "9"@
    }
}

/// The decimal text of a number, without leading zeros.
pub open spec fn decimal(n: nat) -> Seq<char>
    decreases n,
{
    if n < 10 {
        digit_text(n as int)
    } else {
        decimal(n / 10) + digit_text((n % 10) as int)
    }
}

fn digit(d: u32) -> (text: &'static str)
    requires
        d < 10,
    ensures
        text@ == digit_text(d as int),
{
    if d == 0 {
        "0"
    } else if d == 1 {
        "1"
    } else if d == 2 {
        "2"
    } else if d == 3 {
        "3"
    } else if d == 4 {
        "4"
    } else if d == 5 {
        "5"
    } else if d == 6 {
        "6"
    } else if d == 7 {
        "7"
    } else if d == 8 {
        "8"
    } else {
        "9"
    }
}

/// Writes a number in decimal.
pub fn decimal_text(n: u32) -> (text: String)
    ensures
        text@ == decimal(n as nat),
    decreases n,
{
    if n < 10 {
        String::from_str(digit(n))
    } else {
        let mut text = decimal_text(n / 10);
        text.append(digit(n % 10));
        text
    }
}

/// The address of a recipe at the upstream service of the given host.
pub open spec fn recipe_address(host: Seq<char>, recipe_id: Seq<char>) -> Seq<char> {
    "https://"@ + host + "/recipes/"@ + recipe_id
}

/// The address of the picture of a recipe at the upstream service, in the
/// given size.
pub open spec fn hero_address(host: Seq<char>, recipe_id: Seq<char>, width: u32, height: u32) -> Seq<
    char,
> {
    "https://"@ + host + "/media/images/recipes/"@ + recipe_id + "/hero?width="@ + decimal(
        width as nat,
    ) + "&height="@ + decimal(height as nat)
}

/// The address of the saved recipes at the upstream service.
pub open spec fn saved_recipes_address(host: Seq<char>) -> Seq<char> {
    "https://"@ + host + "/collections/saved-recipes"@
}

/// The address of the upstream service itself.
pub open spec fn upstream_address(host: Seq<char>) -> Seq<char> {
    "https://"@ + host
}

/// The address of a recipe at the upstream service of the given host.
pub fn recipe_url(host: &str, recipe_id: &str) -> (url: String)
    ensures
        url@ == recipe_address(host@, recipe_id@),
{
    let mut url = String::from_str("https://");
    url.append(host);
    url.append("/recipes/");
    url.append(recipe_id);
    url
}

/// The address of the picture of a recipe at the upstream service, in the
/// given size.
pub fn hero_url(host: &str, recipe_id: &str, width: u32, height: u32) -> (url: String)
    ensures
        url@ == hero_address(host@, recipe_id@, width, height),
{
    let mut url = String::from_str("https://");
    url.append(host);
    url.append("/media/images/recipes/");
    url.append(recipe_id);
    url.append("/hero?width=");
    url.append(decimal_text(width).as_str());
    url.append("&height=");
    url.append(decimal_text(height).as_str());
    url
}

/// The address of the saved recipes at the upstream service.
pub fn saved_recipes_url(host: &str) -> (url: String)
    ensures
        url@ == saved_recipes_address(host@),
{
    let mut url = String::from_str("https://");
    url.append(host);
    url.append("/collections/saved-recipes");
    url
}

/// The address of the upstream service itself, to which the path and query
/// of a request that the server does not handle are added.
pub fn upstream_url(host: &str) -> (url: String)
    ensures
        url@ == upstream_address(host@),
{
    let mut url = String::from_str("https://");
    url.append(host);
    url
}

/// How many bytes of an upstream answer of `len` bytes are written to the
/// log.
pub fn preview_len(len: usize) -> (shown: usize)
    ensures
        shown == if len <= PREVIEW_LEN {
            len
        } else {
            PREVIEW_LEN
        },
{
    if len <= PREVIEW_LEN {
        len
    } else {
        PREVIEW_LEN
    }
}

/// Why a request cannot be handed on.
#[derive(Clone, Copy, Debug, PartialEq, Eq, Structural)]
pub enum ProxyError {
    /// The request names no host.
    NoHost,
}

impl ProxyError {
    /// What to tell the caller.
    pub fn message(&self) -> (text: String)
        ensures
            text@ == "Expected a host header"@,
    {
        "Expected a host header".to_owned()
    }
}

/// Where the answer to a request comes from: the store, or the upstream
/// service at the given address.
#[derive(Debug, PartialEq, Eq)]
pub enum Answer<T> {
    Custom(T),
    Upstream { url: String },
}

/// The recipe of the given id as the store gives it out, where it holds one
/// that can be read.
pub open spec fn stored_recipe(store: StoreView, id: Seq<char>) -> Option<crate::model::RecipeView> {
    if has_key::<RecipeRow>(store.recipes, id) {
        read_recipe(
            store.recipes[rank::<RecipeRow>(store.recipes, id)],
            author_of(store, store.recipes[rank::<RecipeRow>(store.recipes, id)]),
        )
    } else {
        None
    }
}

/// Answers a request for a recipe, given what the store was found to hold:
/// with the recipe found, else from the upstream service of the host that
/// the request names. Without a recipe and without a host there is no
/// answer.
pub fn answer_recipe_found(found: Option<Recipe>, recipe_id: &str, host: Option<&str>) -> (res:
    Result<Answer<Recipe>, ProxyError>)
    ensures
        match res {
            Ok(Answer::Custom(recipe)) => found == Some(recipe),
            Ok(Answer::Upstream { url }) => {
                &&& found is None
                &&& host matches Some(h) && url@ == recipe_address(h@, recipe_id@)
            },
            Err(e) => found is None && host is None && e == ProxyError::NoHost,
        },
{
    match found {
        Some(recipe) => Ok(Answer::Custom(recipe)),
        None => match host {
            Some(h) => Ok(Answer::Upstream { url: recipe_url(h, recipe_id) }),
            None => Err(ProxyError::NoHost),
        },
    }
}

/// Answers a request for the picture of a recipe, given what the store was
/// found to hold: with the picture found, else from the upstream service of
/// the host that the request names, in the size asked for. Without a picture
/// and without a host there is no answer.
pub fn answer_hero_found(
    found: Option<Vec<u8>>,
    recipe_id: &str,
    width: u32,
    height: u32,
    host: Option<&str>,
) -> (res: Result<Answer<Vec<u8>>, ProxyError>)
    ensures
        match res {
            Ok(Answer::Custom(data)) => found == Some(data),
            Ok(Answer::Upstream { url }) => {
                &&& found is None
                &&& host matches Some(h) && url@ == hero_address(h@, recipe_id@, width, height)
            },
            Err(e) => found is None && host is None && e == ProxyError::NoHost,
        },
{
    match found {
        Some(data) => Ok(Answer::Custom(data)),
        None => match host {
            Some(h) => Ok(Answer::Upstream { url: hero_url(h, recipe_id, width, height) }),
            None => Err(ProxyError::NoHost),
        },
    }
}

/// Answers a request for a recipe: from the store where the store holds a
/// recipe of that id that can be read, else from the upstream service of the
/// host that the request names.
pub fn answer_recipe(store: &Store, recipe_id: &str, host: Option<&str>) -> (res: Result<
    Answer<Recipe>,
    ProxyError,
>)
    requires
        store.wf(),
    ensures
        match res {
            Ok(Answer::Custom(recipe)) => stored_recipe(store@, recipe_id@) == Some(
                recipe.deep_view(),
            ),
            Ok(Answer::Upstream { url }) => {
                &&& stored_recipe(store@, recipe_id@) is None
                &&& host matches Some(h) && url@ == recipe_address(h@, recipe_id@)
            },
            Err(e) => {
                &&& stored_recipe(store@, recipe_id@) is None
                &&& host is None
                &&& e == ProxyError::NoHost
            },
        },
{
    let found = match get_recipe(store, recipe_id) {
        Ok(recipe) => Some(recipe),
        Err(_) => None,
    };
    answer_recipe_found(found, recipe_id, host)
}

/// Answers a request for the picture of a recipe: from the store where the
/// store holds one, else from the upstream service of the host that the
/// request names.
pub fn answer_hero(
    store: &Store,
    recipe_id: &str,
    width: u32,
    height: u32,
    host: Option<&str>,
) -> (res: Result<Answer<Vec<u8>>, ProxyError>)
    requires
        store.wf(),
    ensures
        match res {
            Ok(Answer::Custom(data)) => has_key::<ImageRow>(store@.images, recipe_id@) && data@
                == store@.images[rank::<ImageRow>(store@.images, recipe_id@)].data,
            Ok(Answer::Upstream { url }) => {
                &&& !has_key::<ImageRow>(store@.images, recipe_id@)
                &&& host matches Some(h) && url@ == hero_address(h@, recipe_id@, width, height)
            },
            Err(e) => {
                &&& !has_key::<ImageRow>(store@.images, recipe_id@)
                &&& host is None
                &&& e == ProxyError::NoHost
            },
        },
{
    let found = match get_image(store, recipe_id) {
        Ok(data) => Some(data),
        Err(_) => None,
    };
    answer_hero_found(found, recipe_id, width, height, host)
}

/// The saved recipes to show: those written here first, then those of the
/// upstream service.
pub fn merge_saved(custom: Vec<RecipeItem>, upstream: Vec<RecipeItem>) -> (items: Vec<RecipeItem>)
    ensures
        items.deep_view() == custom.deep_view() + upstream.deep_view(),
{
    let mut items = custom;
    let mut rest = upstream;
    let ghost first = items@;
    let ghost second = rest@;
    items.append(&mut rest);
    assert(items@ =~= first + second);
    assert(items.deep_view() =~= custom.deep_view() + upstream.deep_view());
    items
}

} // verus!
