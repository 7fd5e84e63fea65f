use cookbook::duration::Duration;
use cookbook::editor::{
    blank_recipe, blank_step, find_position, is_blank, keep_warm_state, keep_warm_value,
    quantity_text, quantity_text_with, reconcile, select_current_item, speed_of, speed_value,
    white_space, ButtonVariant, Reconciled, Remembered,
};
use cookbook::model::{
    CapabilityPhase, IngredientAllowedUnit, Number, ReferenceCapability, ReferenceSettingId,
    ReferenceUnit, ReferenceValue, SettingValue, Timestamp,
};
use cookbook::values::KnownOptions;

fn ids(list: &[&str]) -> Vec<String> {
    list.iter().map(|s| (*s).to_owned()).collect()
}

#[test]
fn button_classes() {
    assert_eq!(ButtonVariant::Primary.class(), "primary");
    assert_eq!(ButtonVariant::Secondary.class(), "secondary");
    assert_eq!(ButtonVariant::Destructive.class(), "destructive");
    assert_eq!(ButtonVariant::Outline.class(), "outline");
    assert_eq!(ButtonVariant::Faint.class(), "ghost");
    assert_eq!(ButtonVariant::default(), ButtonVariant::Primary);
}

#[test]
fn the_first_place_of_an_id_is_found() {
    let list = ids(&["flour", "salt", "flour"]);
    assert_eq!(find_position(&list, "flour"), Some(0));
    assert_eq!(find_position(&list, "salt"), Some(1));
    assert_eq!(find_position(&list, "sugar"), None);
    assert_eq!(find_position(&vec![], "sugar"), None);
}

#[test]
fn a_step_keeps_its_ingredient_while_nothing_moves() {
    let list = ids(&["flour", "salt"]);
    assert_eq!(
        reconcile("salt", Some("salt"), &list),
        Reconciled { ingredient_idx: None, remembered: Remembered::Kept }
    );
}

#[test]
fn a_step_follows_its_ingredient_to_its_new_place() {
    let list = ids(&["butter", "flour", "salt"]);
    assert_eq!(
        reconcile("salt", Some("flour"), &list),
        Reconciled { ingredient_idx: Some(2), remembered: Remembered::Replaced }
    );
    assert_eq!(
        reconcile("salt", None, &list),
        Reconciled { ingredient_idx: Some(2), remembered: Remembered::Kept }
    );
}

#[test]
fn a_step_lets_go_of_an_ingredient_that_left() {
    let list = ids(&["butter", "flour"]);
    assert_eq!(
        reconcile("salt", Some("flour"), &list),
        Reconciled { ingredient_idx: None, remembered: Remembered::Replaced }
    );
    assert_eq!(
        reconcile("salt", None, &list),
        Reconciled { ingredient_idx: None, remembered: Remembered::Forgotten }
    );
}

#[test]
fn a_far_place_is_kept_by_its_low_byte() {
    let mut list: Vec<String> = (0..300).map(|i| format!("i{i}")).collect();
    list[299] = "salt".to_owned();
    assert_eq!(reconcile("salt", None, &list).ingredient_idx, Some(43));
}

#[test]
fn the_focused_option_is_selected() {
    let tabs = vec![4, 7, 9, 7];
    assert_eq!(select_current_item(true, Some(7), &tabs), Some(1));
    assert_eq!(select_current_item(true, Some(9), &tabs), Some(2));
    assert_eq!(select_current_item(true, Some(5), &tabs), None);
    assert_eq!(select_current_item(true, None, &tabs), None);
    assert_eq!(select_current_item(false, Some(7), &tabs), None);
}

#[test]
fn keep_warm_and_speed_settings() {
    assert_eq!(keep_warm_state(&keep_warm_value(true)), Some(true));
    assert_eq!(keep_warm_state(&keep_warm_value(false)), Some(false));
    assert_eq!(
        keep_warm_value(true),
        SettingValue::Boolean { text: "placeholder".to_owned(), value: true }
    );
    let max = ReferenceValue { id: "kitchenos:Kenwood:SpeedMax".to_owned(), name: "Max".to_owned() };
    let chosen = speed_value(max.clone());
    assert_eq!(chosen, SettingValue::Nominal { text: "Max".to_owned(), reference_value: max.clone() });
    assert_eq!(speed_of(&chosen), Some(max));
    assert_eq!(keep_warm_state(&chosen), None);
    let numeric =
        SettingValue::Numeric { reference_unit: None, text: "1".to_owned(), value: Number { bits: 0 } };
    assert_eq!(speed_of(&numeric), None);
    assert_eq!(keep_warm_state(&numeric), None);
}

#[test]
fn a_new_step_and_a_new_recipe() {
    let step = blank_step();
    assert_eq!(step.text, "Do something");
    assert!(step.capability.is_none() && step.ingredients.is_empty() && step.source_text.is_none());

    let now = Timestamp { secs: 1_800_000_000, nanos: 12 };
    let recipe = blank_recipe("a1B2c3D4e5".to_owned(), now);
    assert_eq!(recipe.id, "a1B2c3D4e5");
    assert_eq!(recipe.etag, "a1B2c3D4e5");
    assert_eq!(recipe.author.name, "Kenwood");
    assert_eq!(recipe.author.image, "https://configs.fresco-kitchenos.com/fresco-1180x1180.svg");
    assert_eq!(recipe.author.url, recipe.author.image);
    assert_eq!(recipe.created_by_id, "toad");
    assert_eq!(recipe.organization_id, "toads");
    assert_eq!(recipe.locale, "en-GB");
    assert_eq!(recipe.serves, 1);
    assert_eq!(recipe.state, "published");
    assert_eq!(recipe.visibility, "all-users");
    assert_eq!(recipe.total_time, Duration::zero());
    assert_eq!((recipe.created_at, recipe.modified_at, recipe.published_at), (now, now, Some(now)));
    assert!(recipe.name.is_empty() && recipe.steps.is_empty() && recipe.ingredients.is_empty());
}

#[test]
fn quantities_are_shown_with_their_unit() {
    let gram = ReferenceUnit { abbreviation: "g".to_owned(), id: "g".to_owned(), name: "gram".to_owned() };
    assert_eq!(quantity_text(&gram, Some(("250", 250))), "250 g");
    assert_eq!(quantity_text(&gram, None), "g");
    let clove =
        ReferenceUnit { abbreviation: "  ".to_owned(), id: "clove".to_owned(), name: "clove".to_owned() };
    assert_eq!(quantity_text(&clove, Some(("2", 2))), "2 cloves");
    assert_eq!(quantity_text(&clove, Some(("1", 1))), "1 clove");
    assert_eq!(quantity_text(&clove, Some(("0.5", 0))), "0.5 cloves");
    assert_eq!(quantity_text(&clove, None), "  ");
    let pinch =
        ReferenceUnit { abbreviation: String::new(), id: "pinch".to_owned(), name: "pinch".to_owned() };
    assert_eq!(quantity_text(&pinch, Some(("3", 3))), "3 pinches");
}

#[test]
fn quantity_texts_from_their_parts() {
    assert_eq!(quantity_text_with("g", false, "grams", Some("2")), "2 g");
    assert_eq!(quantity_text_with("", true, "grams", Some("2")), "2 grams");
    assert_eq!(quantity_text_with("g", true, "grams", None), "g");
}

#[test]
fn an_allowed_unit_becomes_a_reference_unit() {
    let unit = IngredientAllowedUnit {
        id: "g".to_owned(),
        name: "gram".to_owned(),
        abbreviation: Some("g".to_owned()),
        dimension: Some("mass".to_owned()),
    };
    assert_eq!(
        unit.as_reference_unit(),
        ReferenceUnit { abbreviation: "g".to_owned(), id: "g".to_owned(), name: "gram".to_owned() }
    );
    let bare = IngredientAllowedUnit {
        id: "cup".to_owned(),
        name: "cup".to_owned(),
        abbreviation: None,
        dimension: None,
    };
    assert_eq!(bare.as_reference_unit().abbreviation, "");
}

#[test]
fn known_phases() {
    let phases = CapabilityPhase::known_options();
    assert_eq!(phases.len(), 5);
    let names: Vec<&str> = phases.iter().map(|p| p.name.as_str()).collect();
    assert_eq!(names, vec!["run", "preheat", "set up", "take down", "modify"]);
    assert_eq!(phases[0].id, "cckg:ExecutionPhase");
    assert_eq!(phases[0].can_follow_phases, vec!["cckg:PreheatInitializationPhase", "cckg:SetUpPhase"]);
    assert_eq!(phases[1].can_follow_phases, vec!["cckg:SetUpPhase"]);
    assert_eq!(phases[2].can_follow_phases, vec!["cckg:PreheatInitializationPhase"]);
    assert_eq!(phases[4].can_follow_phases, vec!["cckg:ExecutionPhase", "cckg:UpdatePhase"]);
}

#[test]
fn known_capabilities() {
    let capabilities = ReferenceCapability::known_options();
    assert_eq!(capabilities.len(), 57);
    assert_eq!(capabilities[0], ReferenceCapability { id: "cckg:Bake".to_owned(), name: "bake".to_owned() });
    assert_eq!(capabilities[5].id, "cckg:Prove");
    assert_eq!(capabilities[5].name, "proof");
    assert_eq!(capabilities[54].name, "Vegetable Sauté 1");
    assert_eq!(capabilities[56].id, "kitchenos:Kenwood:Whisk");
    let mut sorted: Vec<&str> = capabilities.iter().map(|c| c.id.as_str()).collect();
    sorted.sort();
    sorted.dedup();
    assert_eq!(sorted.len(), 57);
}

#[test]
fn known_speeds_and_settings() {
    let speeds = ReferenceValue::stir_settings();
    assert_eq!(speeds.len(), 13);
    assert_eq!(speeds[0].id, "kitchenos:Kenwood:Speed1");
    assert_eq!(speeds[0].name, "Speed level 1");
    assert_eq!(speeds[8].name, "No stir");
    assert_eq!(speeds[12].id, "kitchenos:Kenwood:SpeedStir4");
    assert_eq!(speeds[12].name, "Stir 4");
    let off = ReferenceValue::temperature_off();
    assert_eq!(off.id, "kitchenos:Kenwood:TemperatureOff");
    assert_eq!(off.name, "No temperature");

    assert_eq!(ReferenceSettingId::KeepWarm.reference_setting().name, "Keep warm");
    assert_eq!(ReferenceSettingId::Temperature.reference_setting().name, "Temperature");
    assert_eq!(ReferenceSettingId::Speed.reference_setting().name, "Speed");
    let time = ReferenceSettingId::Time.reference_setting();
    assert_eq!(time.name, "Time");
    assert_eq!(time.id, ReferenceSettingId::Time);

    let default = cookbook::model::CapabilitySetting::keep_warm_default();
    assert_eq!(default.reference_setting.id, ReferenceSettingId::KeepWarm);
    assert_eq!(default.reference_setting.name, "Keep warm");
    assert_eq!(default.value, SettingValue::Boolean { text: "placeholder".to_owned(), value: false });
}

#[test]
fn setting_ids_by_name() {
    for id in [
        ReferenceSettingId::KeepWarm,
        ReferenceSettingId::Temperature,
        ReferenceSettingId::Speed,
        ReferenceSettingId::Time,
    ] {
        assert_eq!(ReferenceSettingId::from_text(&id.to_text()), Some(id));
        assert_eq!(ReferenceSettingId::from_document_id(id.to_document_id()), Some(id));
    }
    assert_eq!(ReferenceSettingId::KeepWarm.to_text(), "KeepWarm");
    assert_eq!(ReferenceSettingId::from_text("keepwarm"), None);
    assert_eq!(ReferenceSettingId::Speed.to_document_id(), "kitchenos:Kenwood:SpeedSetting");
    assert_eq!(
        ReferenceSettingId::from_document_id("cckg:InternalTemperatureSetting"),
        Some(ReferenceSettingId::Temperature)
    );
    assert_eq!(
        ReferenceSettingId::from_document_id("cckg:TemperatureSetting"),
        Some(ReferenceSettingId::Temperature)
    );
    assert_eq!(ReferenceSettingId::from_document_id("cckg:TimeSetting"), Some(ReferenceSettingId::Time));
    assert_eq!(ReferenceSettingId::from_document_id("cckg:SpeedSetting"), None);
}

#[test]
fn white_space_is_what_trimming_strips() {
    for code in 0..=0x10FFFFu32 {
        if let Some(c) = char::from_u32(code) {
            assert_eq!(white_space(c), c.is_whitespace(), "U+{code:04X}");
        }
    }
}

#[test]
fn blank_texts() {
    for text in ["", " ", "\t \n", "\u{a0}\u{3000}\u{2003}", "\u{85}\u{1680}\u{205f}"] {
        assert!(is_blank(text), "{text:?}");
        assert!(text.trim().is_empty());
    }
    for text in [" g ", "g", "\u{200b}", " \u{feff}", "\u{180e}"] {
        assert!(!is_blank(text), "{text:?}");
        assert!(!text.trim().is_empty());
    }
}

#[test]
fn a_unit_with_a_blank_abbreviation_is_shown_by_its_name() {
    let spoon = ReferenceUnit {
        abbreviation: "\u{2003}\t".to_owned(),
        id: "spoon".to_owned(),
        name: "spoon".to_owned(),
    };
    assert_eq!(quantity_text(&spoon, Some(("2", 2))), "2 spoons");
    let zero_width = ReferenceUnit {
        abbreviation: "\u{200b}".to_owned(),
        id: "spoon".to_owned(),
        name: "spoon".to_owned(),
    };
    assert_eq!(quantity_text(&zero_width, Some(("2", 2))), "2 \u{200b}");
}
