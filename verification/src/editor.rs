//! The decisions of the recipe editor that do not depend on how it is drawn:
//! what a new recipe and a new step start with, how the ingredient of a step
//! follows its ingredient when the list changes, and what a control shows.

use crate::duration::Duration;
use crate::model::{
    Author, AuthorView, Recipe, RecipeStep, RecipeStepView, RecipeView, ReferenceUnit,
    ReferenceValue, SettingValue, SettingValueView, Timestamp,
};
use crate::table::str_equal;
use vstd::prelude::*;
use vstd::string::*;

verus! {

/// How a button looks.
#[derive(Clone, Copy, Debug, PartialEq, Eq, Structural)]
pub enum ButtonVariant {
    Primary,
    Secondary,
    Destructive,
    Outline,
    Faint,
}

impl ButtonVariant {
    /// The style name of the variant.
    pub open spec fn class_name(self) -> Seq<char> {
        match self {
            ButtonVariant::Primary => "primary"@,
            ButtonVariant::Secondary => "secondary"@,
            ButtonVariant::Destructive => "destructive"@,
            ButtonVariant::Outline => "outline"@,
            ButtonVariant::Faint => "ghost"@,
        }
    }

    /// The style name of the variant.
    pub fn class(&self) -> (name: &'static str)
        ensures
            name@ == self.class_name(),
    {
        match self {
            ButtonVariant::Primary => "primary",
            ButtonVariant::Secondary => "secondary",
            ButtonVariant::Destructive => "destructive",
            ButtonVariant::Outline => "outline",
            ButtonVariant::Faint => "ghost",
        }
    }
}

impl Default for ButtonVariant {
    fn default() -> (variant: ButtonVariant)
        ensures
            variant == ButtonVariant::Primary,
    {
        ButtonVariant::Primary
    }
}

/// The place of the first of `ids` that equals `id`.
pub open spec fn first_place(ids: Seq<Seq<char>>, id: Seq<char>) -> Option<int>
    decreases ids.len(),
{
    if ids.len() == 0 {
        None
    } else {
        match first_place(ids.drop_last(), id) {
            Some(place) => Some(place),
            None => if ids.last() == id {
                Some(ids.len() - 1)
            } else {
                None
            },
        }
    }
}

/// The first place of an id holds the id and no earlier place does; where
/// there is none, no place holds it.
pub proof fn lemma_first_place(ids: Seq<Seq<char>>, id: Seq<char>)
    ensures
        match first_place(ids, id) {
            Some(place) => 0 <= place < ids.len() && ids[place] == id && forall|j: int|
                0 <= j < place ==> ids[j] != id,
            None => forall|j: int| 0 <= j < ids.len() ==> ids[j] != id,
        },
    decreases ids.len(),
{
    if ids.len() > 0 {
        let init = ids.drop_last();
        lemma_first_place(init, id);
        match first_place(init, id) {
            Some(place) => {
                assert(init[place] == ids[place]);
                assert forall|j: int| 0 <= j < place implies ids[j] != id by {
                    assert(init[j] == ids[j]);
                }
            },
            None => {
                assert forall|j: int| 0 <= j < ids.len() - 1 implies ids[j] != id by {
                    assert(init[j] == ids[j]);
                }
            },
        }
    }
}

/// Finds the first of `ids` that equals `id`.
pub fn find_position(ids: &Vec<String>, id: &str) -> (place: Option<usize>)
    ensures
        match place {
            Some(p) => p < ids.len() && first_place(ids.deep_view(), id@) == Some(p as int),
            None => first_place(ids.deep_view(), id@) is None,
        },
{
    let ghost all = ids.deep_view();
    let mut k: usize = 0;
    while k < ids.len()
        invariant
            k <= ids.len(),
            all == ids.deep_view(),
            forall|j: int| 0 <= j < k ==> all[j] != id@,
        decreases ids.len() - k,
    {
        assert(all[k as int] == ids[k as int]@);
        if str_equal(ids[k].as_str(), id) {
            proof {
                lemma_first_place(all, id@);
            }
            return Some(k);
        }
        k += 1;
    }
    proof {
        lemma_first_place(all, id@);
    }
    None
}

/// What becomes of the ingredient that a step remembers.
#[derive(Clone, Copy, Debug, PartialEq, Eq, Structural)]
pub enum Remembered {
    /// It stays as it is.
    Kept,
    /// The ingredient that was found at the step's place is remembered in
    /// its stead.
    Replaced,
    /// Nothing is remembered any more.
    Forgotten,
}

/// How the ingredient of a step follows its ingredient: the place that the
/// step is to point at, where that changes, and what becomes of the
/// ingredient that it remembers.
#[derive(Clone, Copy, Debug, PartialEq, Eq, Structural)]
pub struct Reconciled {
    pub ingredient_idx: Option<u8>,
    pub remembered: Remembered,
}

/// The low eight bits of a place, as a step keeps it.
pub open spec fn low_bits(place: int) -> u8 {
    (place % 256) as u8
}

/// How a step follows its ingredient when the ingredient list of the recipe
/// has changed.
///
/// `remembered` is the id of the ingredient that the step meant when it was
/// last looked at, `current` the id of the ingredient now at the step's
/// place, if there is one, and `ids` the ids of the ingredient list.
///
/// Where the ingredient at the step's place is still the one remembered,
/// nothing changes. Else the step is to point at the first place of the
/// remembered ingredient in the list, if it has one. Where the step's place
/// held another ingredient, that one is remembered from now on. Where the
/// step's place held none and the remembered ingredient has left the list,
/// nothing is remembered any more.
pub open spec fn reconciled(remembered: Seq<char>, current: Option<Seq<char>>, ids: Seq<Seq<char>>) -> Reconciled {
    let moved_to = match first_place(ids, remembered) {
        Some(place) => Some(low_bits(place)),
        None => None,
    };
    match current {
        Some(id) => if id == remembered {
            Reconciled { ingredient_idx: None, remembered: Remembered::Kept }
        } else {
            Reconciled { ingredient_idx: moved_to, remembered: Remembered::Replaced }
        },
        None => Reconciled {
            ingredient_idx: moved_to,
            remembered: if moved_to is Some {
                Remembered::Kept
            } else {
                Remembered::Forgotten
            },
        },
    }
}

/// Decides how a step follows its ingredient when the ingredient list of the
/// recipe has changed.
pub fn reconcile(remembered: &str, current: Option<&str>, ids: &Vec<String>) -> (change: Reconciled)
    ensures
        change == reconciled(
            remembered@,
            match current {
                Some(id) => Some(id@),
                None => None,
            },
            ids.deep_view(),
        ),
{
    match current {
        Some(id) => {
            if str_equal(id, remembered) {
                return Reconciled { ingredient_idx: None, remembered: Remembered::Kept };
            }
            let moved_to = match find_position(ids, remembered) {
                Some(place) => Some((place % 256) as u8),
                None => None,
            };
            Reconciled { ingredient_idx: moved_to, remembered: Remembered::Replaced }
        },
        None => {
            match find_position(ids, remembered) {
                Some(place) => Reconciled {
                    ingredient_idx: Some((place % 256) as u8),
                    remembered: Remembered::Kept,
                },
                None => Reconciled { ingredient_idx: None, remembered: Remembered::Forgotten },
            }
        },
    }
}

/// Finds the option to select when the user confirms: the first option that
/// has the focus, where the list is open and an option has it.
pub fn select_current_item(open: bool, focused: Option<usize>, tab_indices: &Vec<usize>) -> (place:
    Option<usize>)
    ensures
        match place {
            Some(p) => {
                &&& open
                &&& p < tab_indices.len()
                &&& focused == Some(tab_indices[p as int])
                &&& forall|j: int| 0 <= j < p ==> focused != Some(#[trigger] tab_indices[j])
            },
            None => !open || focused is None || forall|j: int|
                0 <= j < tab_indices.len() ==> focused != Some(#[trigger] tab_indices[j]),
        },
{
    if !open {
        return None;
    }
    let focus = match focused {
        Some(focus) => focus,
        None => {
            return None;
        },
    };
    let mut k: usize = 0;
    while k < tab_indices.len()
        invariant
            k <= tab_indices.len(),
            open,
            focused == Some(focus),
            forall|j: int| 0 <= j < k ==> focused != Some(#[trigger] tab_indices[j]),
        decreases tab_indices.len() - k,
    {
        if tab_indices[k] == focus {
            return Some(k);
        }
        k += 1;
    }
    None
}

/// The total time of a recipe: prep time and cook time together, each
/// counting as nothing where it is missing. There is none where the sum does
/// not fit a duration.
pub fn total_time(prep_time: Option<Duration>, cook_time: Option<Duration>) -> (total: Option<
    Duration,
>)
    ensures
        total is Some <==> i64::MIN * 1_000_000_000 - 1_000_000_000 < nanos_or_zero(prep_time)
            + nanos_or_zero(cook_time) < (i64::MAX + 1) * 1_000_000_000,
        total matches Some(t) ==> t.total_nanos() == nanos_or_zero(prep_time) + nanos_or_zero(
            cook_time,
        ),
{
    broadcast use Duration::lemma_parts;

    let prep = match prep_time {
        Some(d) => d,
        None => Duration::zero(),
    };
    let cook = match cook_time {
        Some(d) => d,
        None => Duration::zero(),
    };
    prep.checked_add(&cook)
}

/// The length of an optional duration in nanoseconds, 0 where it is missing.
pub open spec fn nanos_or_zero(duration: Option<Duration>) -> int {
    match duration {
        Some(d) => d.total_nanos(),
        None => 0,
    }
}

/// What the keep-warm box shows for a setting: ticked or not for a switch,
/// undecided for anything else.
pub fn keep_warm_state(value: &SettingValue) -> (ticked: Option<bool>)
    ensures
        ticked == match value.deep_view() {
            SettingValueView::Boolean { value: v, .. } => Some(v),
            _ => None,
        },
{
    match value {
        SettingValue::Boolean { value: v, .. } => Some(*v),
        _ => None,
    }
}

/// The setting that ticking the keep-warm box gives.
pub fn keep_warm_value(ticked: bool) -> (value: SettingValue)
    ensures
        value.deep_view() == (SettingValueView::Boolean { text: "placeholder"@, value: ticked }),
{
    SettingValue::Boolean { text: "placeholder".to_owned(), value: ticked }
}

/// The speed that a setting stands for, where it stands for a named value.
pub fn speed_of(value: &SettingValue) -> (speed: Option<ReferenceValue>)
    ensures
        speed.deep_view() == match value.deep_view() {
            SettingValueView::Nominal { reference_value, .. } => Some(reference_value),
            _ => None,
        },
{
    match value {
        SettingValue::Nominal { reference_value, .. } => Some(reference_value.clone()),
        _ => None,
    }
}

/// The setting that choosing a speed gives: the speed, shown under its name.
pub fn speed_value(speed: ReferenceValue) -> (value: SettingValue)
    ensures
        value.deep_view() == (SettingValueView::Nominal {
            text: speed.name@,
            reference_value: speed.deep_view(),
        }),
{
    SettingValue::Nominal { text: speed.name.clone(), reference_value: speed }
}

/// The step that "add step" adds.
pub fn blank_step() -> (step: RecipeStep)
    ensures
        step.deep_view() == (RecipeStepView {
            capability: None,
            ingredients: Seq::empty(),
            source_text: None,
            text: "Do something"@,
        }),
{
    let step = RecipeStep {
        capability: None,
        ingredients: Vec::new(),
        source_text: None,
        text: "Do something".to_owned(),
    };
    assert(step.ingredients.deep_view() =~= Seq::empty());
    step
}

/// The recipe that the editor starts a new recipe with.
pub open spec fn blank_recipe_view(id: Seq<char>, now: Timestamp) -> RecipeView {
    RecipeView {
        author: AuthorView {
            name: "Kenwood"@,
            image: "https://configs.fresco-kitchenos.com/fresco-1180x1180.svg"@,
            url: "https://configs.fresco-kitchenos.com/fresco-1180x1180.svg"@,
        },
        name: Seq::empty(),
        description: Seq::empty(),
        prep_time: None,
        cook_time: None,
        total_time: Duration::of_parts(0, 0),
        created_at: now,
        created_by_id: "toad"@,
        etag: id,
        forked_into_other_locales: Seq::empty(),
        ingredients: Seq::empty(),
        locale: "en-GB"@,
        modified_at: now,
        organization_id: "toads"@,
        published_at: Some(now),
        reference_tags: Seq::empty(),
        serves: 1,
        state: "published"@,
        steps: Seq::empty(),
        visibility: "all-users"@,
        referenced: None,
        requester_role: None,
        id,
    }
}

/// The recipe that the editor starts a new recipe with: empty, for one
/// person, published now, with the given id as its id and its etag.
pub fn blank_recipe(id: String, now: Timestamp) -> (recipe: Recipe)
    ensures
        recipe.deep_view() == blank_recipe_view(id@, now),
{
    let recipe = Recipe {
        author: Author {
            name: "Kenwood".to_owned(),
            image: "https://configs.fresco-kitchenos.com/fresco-1180x1180.svg".to_owned(),
            url: "https://configs.fresco-kitchenos.com/fresco-1180x1180.svg".to_owned(),
        },
        name: String::new(),
        description: String::new(),
        prep_time: None,
        cook_time: None,
        total_time: Duration::zero(),
        created_at: now,
        created_by_id: "toad".to_owned(),
        etag: id.clone(),
        forked_into_other_locales: Vec::new(),
        ingredients: Vec::new(),
        locale: "en-GB".to_owned(),
        modified_at: now,
        organization_id: "toads".to_owned(),
        published_at: Some(now),
        reference_tags: Vec::new(),
        serves: 1,
        state: "published".to_owned(),
        steps: Vec::new(),
        visibility: "all-users".to_owned(),
        referenced: None,
        requester_role: None,
        id,
    };
    assert(recipe.forked_into_other_locales.deep_view() =~= Seq::empty());
    assert(recipe.ingredients.deep_view() =~= Seq::empty());
    assert(recipe.reference_tags.deep_view() =~= Seq::empty());
    assert(recipe.steps.deep_view() =~= Seq::empty());
    recipe
}

/// The word that `english` writes for `count` things called `noun`: its
/// singular for one thing, its plural for any other number.
pub uninterp spec fn counted_noun(noun: Seq<char>, count: u32) -> Seq<char>;

/// Inflects a noun with `english::count`, which gives the singular for a
/// count of 1 and the plural for every other count. The contract names the
/// word.
#[verifier::external_body]
fn count_noun(noun: &str, count: u32) -> (word: String)
    ensures
        word@ == counted_noun(noun@, count),
{
    english::count(noun, count)
}

/// Whether a character is white space, as the Unicode property `White_Space`
/// has it: the characters that `str::trim` strips.
pub open spec fn is_white_space(c: char) -> bool {
    let n = c as u32;
    ||| 0x09 <= n <= 0x0D
    ||| n == 0x20
    ||| n == 0x85
    ||| n == 0xA0
    ||| n == 0x1680
    ||| 0x2000 <= n <= 0x200A
    ||| n == 0x2028
    ||| n == 0x2029
    ||| n == 0x202F
    ||| n == 0x205F
    ||| n == 0x3000
}

/// Whether a text is blank: it holds nothing but white space, so that
/// stripping it leaves nothing.
pub open spec fn blank(text: Seq<char>) -> bool {
    forall|i: int| 0 <= i < text.len() ==> is_white_space(#[trigger] text[i])
}

/// Whether a character is white space.
pub fn white_space(c: char) -> (white: bool)
    ensures
        white == is_white_space(c),
{
    let n: u32 = c as u32;
    (0x09 <= n && n <= 0x0D) || n == 0x20 || n == 0x85 || n == 0xA0 || n == 0x1680 || (0x2000 <= n
        && n <= 0x200A) || n == 0x2028 || n == 0x2029 || n == 0x202F || n == 0x205F || n == 0x3000
}

/// Whether a text is blank.
pub fn is_blank(text: &str) -> (none: bool)
    ensures
        none == blank(text@),
{
    let len = text.unicode_len();
    let mut k: usize = 0;
    while k < len
        invariant
            k <= len,
            len == text@.len(),
            forall|i: int| 0 <= i < k ==> is_white_space(#[trigger] text@[i]),
        decreases len - k,
    {
        if !white_space(text.get_char(k)) {
            return false;
        }
        k += 1;
    }
    true
}

/// The text of a quantity, from what its parts were found to be: the amount
/// as it is shown, if there is one, and the unit. The unit is shown by its
/// abbreviation, or by its counted name where the abbreviation is blank;
/// without an amount the abbreviation stands alone.
pub open spec fn quantity_text_of(
    abbreviation: Seq<char>,
    blank: bool,
    counted_name: Seq<char>,
    amount: Option<Seq<char>>,
) -> Seq<char> {
    match amount {
        Some(shown) => shown + " "@ + if blank {
            counted_name
        } else {
            abbreviation
        },
        None => abbreviation,
    }
}

/// Builds the text of a quantity from what its parts were found to be.
pub fn quantity_text_with(abbreviation: &str, blank: bool, counted_name: &str, amount: Option<&str>) -> (text:
    String)
    ensures
        text@ == quantity_text_of(
            abbreviation@,
            blank,
            counted_name@,
            match amount {
                Some(shown) => Some(shown@),
                None => None,
            },
        ),
{
    match amount {
        Some(shown) => {
            let mut text = String::from_str(shown);
            text.append(" ");
            if blank {
                text.append(counted_name);
            } else {
                text.append(abbreviation);
            }
            text
        },
        None => String::from_str(abbreviation),
    }
}

/// The text of a quantity in the given unit. `amount` is the amount as it is
/// shown together with the whole number that it counts as, or nothing where
/// the quantity has no amount.
pub fn quantity_text(unit: &ReferenceUnit, amount: Option<(&str, u32)>) -> (text: String)
    ensures
        text@ == match amount {
            Some((shown, count)) => quantity_text_of(
                unit.abbreviation@,
                blank(unit.abbreviation@),
                counted_noun(unit.name@, count),
                Some(shown@),
            ),
            None => unit.abbreviation@,
        },
{
    match amount {
        Some((shown, count)) => {
            let blank = is_blank(unit.abbreviation.as_str());
            let counted = count_noun(unit.name.as_str(), count);
            quantity_text_with(unit.abbreviation.as_str(), blank, counted.as_str(), Some(shown))
        },
        None => unit.abbreviation.clone(),
    }
}

} // verus!
