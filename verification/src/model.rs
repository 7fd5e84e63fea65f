//! The recipe vocabulary: ingredients, units, preparations, appliance
//! capabilities and the values that a recipe document is made of.
//!
//! Every type has a deep view, a value made of sequences of characters and
//! integers alone, and contracts are stated over those views. Each `clone`
//! is written out so that its contract can say that the view is kept.

use crate::duration::Duration;
use vstd::prelude::*;

verus! {

/// What a record with an identifier and a display name stands for.
pub struct Named {
    pub id: Seq<char>,
    pub name: Seq<char>,
}

/// A decimal number, kept as the bit pattern of its IEEE-754 double.
///
/// Two numbers are equal when their bits are equal; the library never does
/// arithmetic on them.
#[derive(Clone, Copy, Debug, PartialEq, Eq, Structural)]
pub struct Number {
    pub bits: u64,
}

/// An instant as whole seconds since the Unix epoch and a sub-second part in
/// nanoseconds.
#[derive(Clone, Copy, Debug, PartialEq, Eq, Structural)]
pub struct Timestamp {
    pub secs: i64,
    pub nanos: u32,
}

/// A unit in which an ingredient may be measured.
#[derive(Debug, PartialEq, Eq)]
pub struct IngredientAllowedUnit {
    pub id: String,
    pub name: String,
    pub abbreviation: Option<String>,
    pub dimension: Option<String>,
}

/// What a [`IngredientAllowedUnit`] stands for: its texts as sequences of characters.
pub struct IngredientAllowedUnitView {
    pub id: Seq<char>,
    pub name: Seq<char>,
    pub abbreviation: Option<Seq<char>>,
    pub dimension: Option<Seq<char>>,
}

impl DeepView for IngredientAllowedUnit {
    type V = IngredientAllowedUnitView;

    open spec fn deep_view(&self) -> IngredientAllowedUnitView {
        IngredientAllowedUnitView {
            id: self.id@,
            name: self.name@,
            abbreviation: self.abbreviation.deep_view(),
            dimension: self.dimension.deep_view(),
        }
    }
}

/// Copies an optional string.
pub fn clone_text(text: &Option<String>) -> (res: Option<String>)
    ensures
        res.deep_view() == text.deep_view(),
{
    match text {
        Some(t) => Some(t.clone()),
        None => None,
    }
}

impl Clone for IngredientAllowedUnit {
    fn clone(&self) -> (res: Self)
        ensures
            res.deep_view() == self.deep_view(),
    {
        IngredientAllowedUnit {
            id: self.id.clone(),
            name: self.name.clone(),
            abbreviation: clone_text(&self.abbreviation),
            dimension: clone_text(&self.dimension),
        }
    }
}

impl IngredientAllowedUnit {
    /// The unit as a recipe document refers to it: a missing abbreviation
    /// becomes the empty string and the dimension is dropped.
    pub fn as_reference_unit(self) -> (unit: ReferenceUnit)
        ensures
            unit.id@ == self.id@,
            unit.name@ == self.name@,
            unit.abbreviation@ == match self.abbreviation {
                Some(a) => a@,
                None => Seq::<char>::empty(),
            },
    {
        let abbreviation = match self.abbreviation {
            Some(a) => a,
            None => String::new(),
        };
        ReferenceUnit { abbreviation, id: self.id, name: self.name }
    }
}

/// An ingredient of the reference vocabulary.
#[derive(Debug, PartialEq, Eq)]
pub struct Ingredient {
    pub id: String,
    pub name: String,
}

impl DeepView for Ingredient {
    type V = Named;

    open spec fn deep_view(&self) -> Named {
        Named { id: self.id@, name: self.name@ }
    }
}

impl Clone for Ingredient {
    fn clone(&self) -> (res: Self)
        ensures
            res.deep_view() == self.deep_view(),
    {
        Ingredient { id: self.id.clone(), name: self.name.clone() }
    }
}

/// Who wrote a recipe. Authors are told apart by `name`.
#[derive(Debug, PartialEq, Eq)]
pub struct Author {
    pub image: String,
    pub name: String,
    pub url: String,
}

/// What a [`Author`] stands for: its texts as sequences of characters.
pub struct AuthorView {
    pub image: Seq<char>,
    pub name: Seq<char>,
    pub url: Seq<char>,
}

impl DeepView for Author {
    type V = AuthorView;

    open spec fn deep_view(&self) -> AuthorView {
        AuthorView { image: self.image@, name: self.name@, url: self.url@ }
    }
}

impl Clone for Author {
    fn clone(&self) -> (res: Self)
        ensures
            res.deep_view() == self.deep_view(),
    {
        Author { image: self.image.clone(), name: self.name.clone(), url: self.url.clone() }
    }
}

/// A copy of a recipe in another locale.
#[derive(Debug, PartialEq, Eq)]
pub struct ForkedIntoOtherLocale {
    pub id: String,
    pub locale: String,
}

/// What a [`ForkedIntoOtherLocale`] stands for: its texts as sequences of characters.
pub struct ForkedIntoOtherLocaleView {
    pub id: Seq<char>,
    pub locale: Seq<char>,
}

impl DeepView for ForkedIntoOtherLocale {
    type V = ForkedIntoOtherLocaleView;

    open spec fn deep_view(&self) -> ForkedIntoOtherLocaleView {
        ForkedIntoOtherLocaleView { id: self.id@, locale: self.locale@ }
    }
}

impl Clone for ForkedIntoOtherLocale {
    fn clone(&self) -> (res: Self)
        ensures
            res.deep_view() == self.deep_view(),
    {
        ForkedIntoOtherLocale { id: self.id.clone(), locale: self.locale.clone() }
    }
}

/// A unit as a recipe document refers to it.
#[derive(Debug, PartialEq, Eq)]
pub struct ReferenceUnit {
    pub abbreviation: String,
    pub id: String,
    pub name: String,
}

/// What a [`ReferenceUnit`] stands for: its texts as sequences of characters.
pub struct ReferenceUnitView {
    pub abbreviation: Seq<char>,
    pub id: Seq<char>,
    pub name: Seq<char>,
}

impl DeepView for ReferenceUnit {
    type V = ReferenceUnitView;

    open spec fn deep_view(&self) -> ReferenceUnitView {
        ReferenceUnitView { abbreviation: self.abbreviation@, id: self.id@, name: self.name@ }
    }
}

impl Clone for ReferenceUnit {
    fn clone(&self) -> (res: Self)
        ensures
            res.deep_view() == self.deep_view(),
    {
        ReferenceUnit {
            abbreviation: self.abbreviation.clone(),
            id: self.id.clone(),
            name: self.name.clone(),
        }
    }
}

/// An entry of the preparation vocabulary, such as "diced" or "minced".
#[derive(Debug, PartialEq, Eq)]
pub struct ReferencePreparation {
    pub id: String,
    pub name: String,
}

impl DeepView for ReferencePreparation {
    type V = Named;

    open spec fn deep_view(&self) -> Named {
        Named { id: self.id@, name: self.name@ }
    }
}

impl Clone for ReferencePreparation {
    fn clone(&self) -> (res: Self)
        ensures
            res.deep_view() == self.deep_view(),
    {
        ReferencePreparation { id: self.id.clone(), name: self.name.clone() }
    }
}

/// How much of something: an optional amount, its unit and the text shown.
#[derive(Debug, PartialEq, Eq)]
pub struct Quantity {
    pub amount: Option<Number>,
    pub reference_unit: ReferenceUnit,
    pub text: String,
}

/// What a [`Quantity`] stands for: its texts as sequences of characters.
pub struct QuantityView {
    pub amount: Option<Number>,
    pub reference_unit: ReferenceUnitView,
    pub text: Seq<char>,
}

impl DeepView for Quantity {
    type V = QuantityView;

    open spec fn deep_view(&self) -> QuantityView {
        QuantityView {
            amount: self.amount,
            reference_unit: self.reference_unit.deep_view(),
            text: self.text@,
        }
    }
}

impl Clone for Quantity {
    fn clone(&self) -> (res: Self)
        ensures
            res.deep_view() == self.deep_view(),
    {
        Quantity {
            amount: self.amount,
            reference_unit: self.reference_unit.clone(),
            text: self.text.clone(),
        }
    }
}

/// One line of a recipe's ingredient list.
#[derive(Debug, PartialEq, Eq)]
pub struct RecipeIngredient {
    pub quantity: Quantity,
    pub reference_ingredient: Ingredient,
    pub reference_preparations: Vec<ReferencePreparation>,
    pub source_text: Option<String>,
}

/// What a [`RecipeIngredient`] stands for: its texts as sequences of characters.
pub struct RecipeIngredientView {
    pub quantity: QuantityView,
    pub reference_ingredient: Named,
    pub reference_preparations: Seq<Named>,
    pub source_text: Option<Seq<char>>,
}

impl DeepView for RecipeIngredient {
    type V = RecipeIngredientView;

    open spec fn deep_view(&self) -> RecipeIngredientView {
        RecipeIngredientView {
            quantity: self.quantity.deep_view(),
            reference_ingredient: self.reference_ingredient.deep_view(),
            reference_preparations: self.reference_preparations.deep_view(),
            source_text: self.source_text.deep_view(),
        }
    }
}

impl Clone for RecipeIngredient {
    fn clone(&self) -> (res: Self)
        ensures
            res.deep_view() == self.deep_view(),
    {
        let reference_preparations = self.reference_preparations.clone();
        assert(reference_preparations.deep_view() =~= self.reference_preparations.deep_view());
        RecipeIngredient {
            quantity: self.quantity.clone(),
            reference_ingredient: self.reference_ingredient.clone(),
            reference_preparations,
            source_text: clone_text(&self.source_text),
        }
    }
}

/// A tag attached to a recipe.
#[derive(Debug, PartialEq, Eq)]
pub struct ReferenceTag {
    pub category: String,
    pub id: String,
    pub name: String,
}

/// What a [`ReferenceTag`] stands for: its texts as sequences of characters.
pub struct ReferenceTagView {
    pub category: Seq<char>,
    pub id: Seq<char>,
    pub name: Seq<char>,
}

impl DeepView for ReferenceTag {
    type V = ReferenceTagView;

    open spec fn deep_view(&self) -> ReferenceTagView {
        ReferenceTagView { category: self.category@, id: self.id@, name: self.name@ }
    }
}

impl Clone for ReferenceTag {
    fn clone(&self) -> (res: Self)
        ensures
            res.deep_view() == self.deep_view(),
    {
        ReferenceTag {
            category: self.category.clone(),
            id: self.id.clone(),
            name: self.name.clone(),
        }
    }
}

/// A phase of an appliance programme, with the phases it may come after.
#[derive(Debug, PartialEq, Eq)]
pub struct CapabilityPhase {
    pub can_follow_phases: Vec<String>,
    pub id: String,
    pub name: String,
}

/// What a [`CapabilityPhase`] stands for: its texts as sequences of characters.
pub struct CapabilityPhaseView {
    pub can_follow_phases: Seq<Seq<char>>,
    pub id: Seq<char>,
    pub name: Seq<char>,
}

impl DeepView for CapabilityPhase {
    type V = CapabilityPhaseView;

    open spec fn deep_view(&self) -> CapabilityPhaseView {
        CapabilityPhaseView {
            can_follow_phases: self.can_follow_phases.deep_view(),
            id: self.id@,
            name: self.name@,
        }
    }
}

impl Clone for CapabilityPhase {
    fn clone(&self) -> (res: Self)
        ensures
            res.deep_view() == self.deep_view(),
    {
        let can_follow_phases = self.can_follow_phases.clone();
        assert(can_follow_phases.deep_view() =~= self.can_follow_phases.deep_view());
        CapabilityPhase { can_follow_phases, id: self.id.clone(), name: self.name.clone() }
    }
}

/// Something an appliance can do, such as "bake" or "knead".
#[derive(Debug, PartialEq, Eq)]
pub struct ReferenceCapability {
    pub id: String,
    pub name: String,
}

impl DeepView for ReferenceCapability {
    type V = Named;

    open spec fn deep_view(&self) -> Named {
        Named { id: self.id@, name: self.name@ }
    }
}

impl Clone for ReferenceCapability {
    fn clone(&self) -> (res: Self)
        ensures
            res.deep_view() == self.deep_view(),
    {
        ReferenceCapability { id: self.id.clone(), name: self.name.clone() }
    }
}

/// The kinds of setting that a capability can carry.
#[derive(Clone, Copy, Debug, PartialEq, Eq, Structural)]
pub enum ReferenceSettingId {
    KeepWarm,
    Temperature,
    Speed,
    Time,
}

/// A kind of setting together with its display name.
#[derive(Debug, PartialEq, Eq)]
pub struct ReferenceSetting {
    pub id: ReferenceSettingId,
    pub name: String,
}

/// What a [`ReferenceSetting`] stands for: its texts as sequences of characters.
pub struct ReferenceSettingView {
    pub id: ReferenceSettingId,
    pub name: Seq<char>,
}

impl DeepView for ReferenceSetting {
    type V = ReferenceSettingView;

    open spec fn deep_view(&self) -> ReferenceSettingView {
        ReferenceSettingView { id: self.id, name: self.name@ }
    }
}

impl Clone for ReferenceSetting {
    fn clone(&self) -> (res: Self)
        ensures
            res.deep_view() == self.deep_view(),
    {
        ReferenceSetting { id: self.id, name: self.name.clone() }
    }
}

/// A named value that a nominal setting can take.
#[derive(Debug, PartialEq, Eq)]
pub struct ReferenceValue {
    pub id: String,
    pub name: String,
}

impl DeepView for ReferenceValue {
    type V = Named;

    open spec fn deep_view(&self) -> Named {
        Named { id: self.id@, name: self.name@ }
    }
}

impl Clone for ReferenceValue {
    fn clone(&self) -> (res: Self)
        ensures
            res.deep_view() == self.deep_view(),
    {
        ReferenceValue { id: self.id.clone(), name: self.name.clone() }
    }
}

/// The value of a setting: a number with an optional unit, a switch, or one
/// of a list of named values.
#[allow(inconsistent_fields)]
#[derive(Debug, PartialEq, Eq)]
pub enum SettingValue {
    Numeric { reference_unit: Option<ReferenceUnit>, text: String, value: Number },
    Boolean { text: String, value: bool },
    Nominal { text: String, reference_value: ReferenceValue },
}

/// What a [`SettingValue`] stands for: its texts as sequences of characters.
#[allow(inconsistent_fields)]
pub enum SettingValueView {
    Numeric { reference_unit: Option<ReferenceUnitView>, text: Seq<char>, value: Number },
    Boolean { text: Seq<char>, value: bool },
    Nominal { text: Seq<char>, reference_value: Named },
}

impl DeepView for SettingValue {
    type V = SettingValueView;

    open spec fn deep_view(&self) -> SettingValueView {
        match self {
            SettingValue::Numeric { reference_unit, text, value } => SettingValueView::Numeric {
                reference_unit: reference_unit.deep_view(),
                text: text@,
                value: *value,
            },
            SettingValue::Boolean { text, value } => SettingValueView::Boolean {
                text: text@,
                value: *value,
            },
            SettingValue::Nominal { text, reference_value } => SettingValueView::Nominal {
                text: text@,
                reference_value: reference_value.deep_view(),
            },
        }
    }
}

impl Clone for SettingValue {
    fn clone(&self) -> (res: Self)
        ensures
            res.deep_view() == self.deep_view(),
    {
        match self {
            SettingValue::Numeric { reference_unit, text, value } => {
                let unit = match reference_unit {
                    Some(u) => Some(u.clone()),
                    None => None,
                };
                SettingValue::Numeric { reference_unit: unit, text: text.clone(), value: *value }
            },
            SettingValue::Boolean { text, value } => SettingValue::Boolean {
                text: text.clone(),
                value: *value,
            },
            SettingValue::Nominal { text, reference_value } => SettingValue::Nominal {
                text: text.clone(),
                reference_value: reference_value.clone(),
            },
        }
    }
}

/// One setting of a capability: which setting, and its value.
#[derive(Debug, PartialEq, Eq)]
pub struct CapabilitySetting {
    pub reference_setting: ReferenceSetting,
    pub value: SettingValue,
}

/// What a [`CapabilitySetting`] stands for: its texts as sequences of characters.
pub struct CapabilitySettingView {
    pub reference_setting: ReferenceSettingView,
    pub value: SettingValueView,
}

impl DeepView for CapabilitySetting {
    type V = CapabilitySettingView;

    open spec fn deep_view(&self) -> CapabilitySettingView {
        CapabilitySettingView {
            reference_setting: self.reference_setting.deep_view(),
            value: self.value.deep_view(),
        }
    }
}

impl Clone for CapabilitySetting {
    fn clone(&self) -> (res: Self)
        ensures
            res.deep_view() == self.deep_view(),
    {
        CapabilitySetting {
            reference_setting: self.reference_setting.clone(),
            value: self.value.clone(),
        }
    }
}

/// What the appliance does in a step.
#[derive(Debug, PartialEq, Eq)]
pub struct StepCapability {
    pub phase: CapabilityPhase,
    pub reference_capability: ReferenceCapability,
    pub settings: Vec<CapabilitySetting>,
}

/// What a [`StepCapability`] stands for: its texts as sequences of characters.
pub struct StepCapabilityView {
    pub phase: CapabilityPhaseView,
    pub reference_capability: Named,
    pub settings: Seq<CapabilitySettingView>,
}

impl DeepView for StepCapability {
    type V = StepCapabilityView;

    open spec fn deep_view(&self) -> StepCapabilityView {
        StepCapabilityView {
            phase: self.phase.deep_view(),
            reference_capability: self.reference_capability.deep_view(),
            settings: self.settings.deep_view(),
        }
    }
}

impl Clone for StepCapability {
    fn clone(&self) -> (res: Self)
        ensures
            res.deep_view() == self.deep_view(),
    {
        let settings = self.settings.clone();
        assert(settings.deep_view() =~= self.settings.deep_view());
        StepCapability {
            phase: self.phase.clone(),
            reference_capability: self.reference_capability.clone(),
            settings,
        }
    }
}

/// An ingredient used in a step: its place in the recipe's ingredient list
/// and how much of it the step takes.
#[derive(Debug, PartialEq, Eq)]
pub struct StepIngredient {
    pub ingredient_idx: u8,
    pub quantity: Quantity,
}

/// What a [`StepIngredient`] stands for: its texts as sequences of characters.
pub struct StepIngredientView {
    pub ingredient_idx: u8,
    pub quantity: QuantityView,
}

impl DeepView for StepIngredient {
    type V = StepIngredientView;

    open spec fn deep_view(&self) -> StepIngredientView {
        StepIngredientView {
            ingredient_idx: self.ingredient_idx,
            quantity: self.quantity.deep_view(),
        }
    }
}

impl Clone for StepIngredient {
    fn clone(&self) -> (res: Self)
        ensures
            res.deep_view() == self.deep_view(),
    {
        StepIngredient { ingredient_idx: self.ingredient_idx, quantity: self.quantity.clone() }
    }
}

/// One step of a recipe.
#[derive(Debug, PartialEq, Eq)]
pub struct RecipeStep {
    pub capability: Option<StepCapability>,
    pub ingredients: Vec<StepIngredient>,
    pub source_text: Option<String>,
    pub text: String,
}

/// What a [`RecipeStep`] stands for: its texts as sequences of characters.
pub struct RecipeStepView {
    pub capability: Option<StepCapabilityView>,
    pub ingredients: Seq<StepIngredientView>,
    pub source_text: Option<Seq<char>>,
    pub text: Seq<char>,
}

impl DeepView for RecipeStep {
    type V = RecipeStepView;

    open spec fn deep_view(&self) -> RecipeStepView {
        RecipeStepView {
            capability: self.capability.deep_view(),
            ingredients: self.ingredients.deep_view(),
            source_text: self.source_text.deep_view(),
            text: self.text@,
        }
    }
}

impl Clone for RecipeStep {
    fn clone(&self) -> (res: Self)
        ensures
            res.deep_view() == self.deep_view(),
    {
        let capability = match &self.capability {
            Some(c) => Some(c.clone()),
            None => None,
        };
        let ingredients = self.ingredients.clone();
        assert(ingredients.deep_view() =~= self.ingredients.deep_view());
        RecipeStep {
            capability,
            ingredients,
            source_text: clone_text(&self.source_text),
            text: self.text.clone(),
        }
    }
}

/// Copies a list of steps.
pub fn clone_steps(steps: &Vec<RecipeStep>) -> (res: Vec<RecipeStep>)
    ensures
        res.deep_view() == steps.deep_view(),
{
    let res = steps.clone();
    assert(res.deep_view() =~= steps.deep_view());
    res
}

/// Copies an ingredient list.
pub fn clone_ingredients(ingredients: &Vec<RecipeIngredient>) -> (res: Vec<RecipeIngredient>)
    ensures
        res.deep_view() == ingredients.deep_view(),
{
    let res = ingredients.clone();
    assert(res.deep_view() =~= ingredients.deep_view());
    res
}

/// A recipe as it is exchanged: the record of its author, its times, its
/// steps and its ingredient list.
///
/// `published_at` is absent while a recipe is a draft.
#[derive(Debug, PartialEq, Eq)]
pub struct Recipe {
    pub author: Author,
    pub created_at: Timestamp,
    pub created_by_id: String,
    pub description: String,
    pub etag: String,
    pub forked_into_other_locales: Vec<ForkedIntoOtherLocale>,
    pub id: String,
    pub ingredients: Vec<RecipeIngredient>,
    pub locale: String,
    pub modified_at: Timestamp,
    pub name: String,
    pub organization_id: String,
    pub published_at: Option<Timestamp>,
    pub reference_tags: Vec<ReferenceTag>,
    pub serves: u8,
    pub state: String,
    pub steps: Vec<RecipeStep>,
    pub total_time: Duration,
    pub visibility: String,
    pub cook_time: Option<Duration>,
    pub prep_time: Option<Duration>,
    pub referenced: Option<bool>,
    pub requester_role: Option<String>,
}

/// What a [`Recipe`] stands for: its texts as sequences of characters.
pub struct RecipeView {
    pub author: AuthorView,
    pub created_at: Timestamp,
    pub created_by_id: Seq<char>,
    pub description: Seq<char>,
    pub etag: Seq<char>,
    pub forked_into_other_locales: Seq<ForkedIntoOtherLocaleView>,
    pub id: Seq<char>,
    pub ingredients: Seq<RecipeIngredientView>,
    pub locale: Seq<char>,
    pub modified_at: Timestamp,
    pub name: Seq<char>,
    pub organization_id: Seq<char>,
    pub published_at: Option<Timestamp>,
    pub reference_tags: Seq<ReferenceTagView>,
    pub serves: u8,
    pub state: Seq<char>,
    pub steps: Seq<RecipeStepView>,
    pub total_time: Duration,
    pub visibility: Seq<char>,
    pub cook_time: Option<Duration>,
    pub prep_time: Option<Duration>,
    pub referenced: Option<bool>,
    pub requester_role: Option<Seq<char>>,
}

impl DeepView for Recipe {
    type V = RecipeView;

    open spec fn deep_view(&self) -> RecipeView {
        RecipeView {
            author: self.author.deep_view(),
            created_at: self.created_at,
            created_by_id: self.created_by_id@,
            description: self.description@,
            etag: self.etag@,
            forked_into_other_locales: self.forked_into_other_locales.deep_view(),
            id: self.id@,
            ingredients: self.ingredients.deep_view(),
            locale: self.locale@,
            modified_at: self.modified_at,
            name: self.name@,
            organization_id: self.organization_id@,
            published_at: self.published_at,
            reference_tags: self.reference_tags.deep_view(),
            serves: self.serves,
            state: self.state@,
            steps: self.steps.deep_view(),
            total_time: self.total_time,
            visibility: self.visibility@,
            cook_time: self.cook_time,
            prep_time: self.prep_time,
            referenced: self.referenced,
            requester_role: self.requester_role.deep_view(),
        }
    }
}

impl Clone for Recipe {
    fn clone(&self) -> (res: Self)
        ensures
            res.deep_view() == self.deep_view(),
    {
        let forked_into_other_locales = self.forked_into_other_locales.clone();
        assert(forked_into_other_locales.deep_view()
            =~= self.forked_into_other_locales.deep_view());
        let reference_tags = self.reference_tags.clone();
        assert(reference_tags.deep_view() =~= self.reference_tags.deep_view());
        Recipe {
            author: self.author.clone(),
            created_at: self.created_at,
            created_by_id: self.created_by_id.clone(),
            description: self.description.clone(),
            etag: self.etag.clone(),
            forked_into_other_locales,
            id: self.id.clone(),
            ingredients: clone_ingredients(&self.ingredients),
            locale: self.locale.clone(),
            modified_at: self.modified_at,
            name: self.name.clone(),
            organization_id: self.organization_id.clone(),
            published_at: self.published_at,
            reference_tags,
            serves: self.serves,
            state: self.state.clone(),
            steps: clone_steps(&self.steps),
            total_time: self.total_time,
            visibility: self.visibility.clone(),
            cook_time: self.cook_time,
            prep_time: self.prep_time,
            referenced: self.referenced,
            requester_role: clone_text(&self.requester_role),
        }
    }
}

/// A recipe as a list shows it.
#[derive(Debug, PartialEq, Eq)]
pub struct RecipeItem {
    pub id: String,
    pub name: String,
    pub author_name: String,
    pub total_time: Duration,
}

/// What a [`RecipeItem`] stands for: its texts as sequences of characters.
pub struct RecipeItemView {
    pub id: Seq<char>,
    pub name: Seq<char>,
    pub author_name: Seq<char>,
    pub total_time: Duration,
}

impl DeepView for RecipeItem {
    type V = RecipeItemView;

    open spec fn deep_view(&self) -> RecipeItemView {
        RecipeItemView {
            id: self.id@,
            name: self.name@,
            author_name: self.author_name@,
            total_time: self.total_time,
        }
    }
}

impl Clone for RecipeItem {
    fn clone(&self) -> (res: Self)
        ensures
            res.deep_view() == self.deep_view(),
    {
        RecipeItem {
            id: self.id.clone(),
            name: self.name.clone(),
            author_name: self.author_name.clone(),
            total_time: self.total_time,
        }
    }
}

} // verus!
