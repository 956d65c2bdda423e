use telegram_bot_deck_of_cards::process::{
    card_image, deletes_previous_message, language_after, make_descriptions_keyboard,
    make_keyboard, make_languages_keyboard, make_main_keyboard, make_menu_keyboard,
    make_settings_keyboard, menu_of, message_key, replacement_key, respond, Action, Button, Card,
    CardData, DescriptionsFormat, ImageSource, Keyboard, Language, Menu, FULL_DESCRIPTIONS,
    NAMES_ONLY, NO_DESCRIPTIONS,
};
use telegram_bot_deck_of_cards::telegram_interactions::Command;
use telegram_bot_deck_of_cards::translations::{MissingTranslation, Translation};

fn the_fool() -> Card {
    Card {
        id: 1,
        filename: "fool.jpg".to_string(),
        name_en: "The Fool".to_string(),
        description_en: "A leap into the unknown.".to_string(),
        name_ru: "Шут".to_string(),
        description_ru: "Прыжок в неизвестность.".to_string(),
        telegram_file_id_en: Some("AgAD-en".to_string()),
        telegram_file_id_ru: None,
    }
}

fn labels(keyboard: &Keyboard) -> Vec<String> {
    keyboard
        .inline_keyboard
        .iter()
        .map(|row| {
            assert_eq!(row.len(), 1);
            assert_eq!(row[0].text, row[0].callback_data);
            row[0].text.clone()
        })
        .collect()
}

const KEYS: [&str; 16] = [
    "start",
    "help",
    "choose_your_action",
    "description",
    "no_cards_left",
    "cards_shuffled_back",
    "settings",
    "language_settings",
    "descriptions_settings",
    "language_set_to_english",
    "language_set_to_russian",
    "full_descriptions_will_be_shown",
    "names_only_will_be_shown",
    "no_descriptions",
    "command_not_found",
    "text_expected",
];

fn texts() -> Translation {
    let mut translation = Translation::new();
    for key in KEYS {
        translation.insert(Language::En, key.to_string(), format!("en:{}", key));
        translation.insert(Language::Ru, key.to_string(), format!("ru:{}", key));
    }
    translation
}

#[test]
fn language_codes() {
    assert_eq!(Language::En.to_string(), "en");
    assert_eq!(Language::Ru.to_string(), "ru");
    assert_eq!(Language::from_code("en"), Some(Language::En));
    assert_eq!(Language::from_code("ru"), Some(Language::Ru));
    assert_eq!(Language::from_code("EN"), None);
    assert_eq!(Language::from_code(""), None);
    assert_eq!(Language::from_code("de"), None);
}

#[test]
fn descriptions_format_codes_round_trip() {
    assert_eq!(FULL_DESCRIPTIONS, 0);
    assert_eq!(NAMES_ONLY, 1);
    assert_eq!(NO_DESCRIPTIONS, 2);
    for format in [
        DescriptionsFormat::Full,
        DescriptionsFormat::NamesOnly,
        DescriptionsFormat::NoDescriptions,
    ] {
        assert_eq!(DescriptionsFormat::from_code(format.code()), Some(format));
    }
    assert_eq!(DescriptionsFormat::Full.code(), 0);
    assert_eq!(DescriptionsFormat::NamesOnly.code(), 1);
    assert_eq!(DescriptionsFormat::NoDescriptions.code(), 2);
}

#[test]
fn descriptions_format_rejects_unknown_codes() {
    assert_eq!(DescriptionsFormat::from_code(3), None);
    assert_eq!(DescriptionsFormat::from_code(-1), None);
    assert_eq!(DescriptionsFormat::from_code(i32::MAX), None);
    assert_eq!(DescriptionsFormat::from_code(i32::MIN), None);
}

#[test]
fn card_getters_follow_the_language() {
    let card = the_fool();
    assert_eq!(card.get_name(Language::En), "The Fool");
    assert_eq!(card.get_name(Language::Ru), "Шут");
    assert_eq!(card.get_description(Language::En), "A leap into the unknown.");
    assert_eq!(card.get_description(Language::Ru), "Прыжок в неизвестность.");
    assert_eq!(card.get_file_id(Language::En), Some("AgAD-en".to_string()));
    assert_eq!(card.get_file_id(Language::Ru), None);
    assert_eq!(card.duplicate(), card);
}

#[test]
fn message_text_follows_the_descriptions_format() {
    let card = the_fool();
    assert_eq!(
        card.message_text(Language::En, DescriptionsFormat::Full),
        "The Fool\nA leap into the unknown."
    );
    assert_eq!(
        card.message_text(Language::Ru, DescriptionsFormat::Full),
        "Шут\nПрыжок в неизвестность."
    );
    assert_eq!(card.message_text(Language::En, DescriptionsFormat::NamesOnly), "The Fool");
    assert_eq!(card.message_text(Language::Ru, DescriptionsFormat::NamesOnly), "Шут");
    assert_eq!(card.message_text(Language::En, DescriptionsFormat::NoDescriptions), "");
    assert_eq!(card.message_text(Language::Ru, DescriptionsFormat::NoDescriptions), "");
}

#[test]
fn message_text_in_full_keeps_empty_parts() {
    let mut card = the_fool();
    card.description_en = String::new();
    assert_eq!(card.message_text(Language::En, DescriptionsFormat::Full), "The Fool\n");
    card.name_en = String::new();
    assert_eq!(card.message_text(Language::En, DescriptionsFormat::Full), "\n");
}

#[test]
fn card_data_holds_the_cached_file_of_the_language() {
    let card = the_fool();
    assert_eq!(
        card.card_data(Language::En, DescriptionsFormat::NamesOnly),
        CardData {
            file_id: Some("AgAD-en".to_string()),
            filename: "fool.jpg".to_string(),
            message_text: "The Fool".to_string(),
        }
    );
    assert_eq!(
        card.card_data(Language::Ru, DescriptionsFormat::NoDescriptions),
        CardData { file_id: None, filename: "fool.jpg".to_string(), message_text: String::new() }
    );
}

#[test]
fn make_keyboard_puts_each_option_in_a_row_of_its_own() {
    let keyboard = make_keyboard(&vec!["one", "two", "three"]);
    assert_eq!(
        keyboard.inline_keyboard,
        vec![
            vec![Button { text: "one".to_string(), callback_data: "one".to_string() }],
            vec![Button { text: "two".to_string(), callback_data: "two".to_string() }],
            vec![Button { text: "three".to_string(), callback_data: "three".to_string() }],
        ]
    );
    assert!(make_keyboard(&vec![]).inline_keyboard.is_empty());
}

#[test]
fn menus_in_english() {
    assert_eq!(
        labels(&make_main_keyboard(Language::En)),
        vec!["Draw a card", "Shuffle drawn cards back", "Settings", "About"]
    );
    assert_eq!(
        labels(&make_settings_keyboard(Language::En)),
        vec!["Language", "Descriptions", "Main menu"]
    );
    assert_eq!(
        labels(&make_languages_keyboard(Language::En)),
        vec!["English", "Русский", "Settings"]
    );
    assert_eq!(
        labels(&make_descriptions_keyboard(Language::En)),
        vec!["Full descriptions", "Names only", "No descriptions", "Settings"]
    );
}

#[test]
fn menus_in_russian() {
    assert_eq!(
        labels(&make_main_keyboard(Language::Ru)),
        vec!["Вытянуть карту", "Замешать вытянутые карты в колоду", "Настройки", "О проекте"]
    );
    assert_eq!(
        labels(&make_settings_keyboard(Language::Ru)),
        vec!["Язык", "Описания", "Главное меню"]
    );
    assert_eq!(
        labels(&make_languages_keyboard(Language::Ru)),
        vec!["English", "Русский", "Настройки"]
    );
    assert_eq!(
        labels(&make_descriptions_keyboard(Language::Ru)),
        vec!["Полные описания", "Только имена", "Без описаний", "Настройки"]
    );
}

#[test]
fn make_menu_keyboard_picks_the_menu() {
    for language in [Language::En, Language::Ru] {
        assert_eq!(make_menu_keyboard(Menu::Main, language), make_main_keyboard(language));
        assert_eq!(make_menu_keyboard(Menu::Settings, language), make_settings_keyboard(language));
        assert_eq!(
            make_menu_keyboard(Menu::Languages, language),
            make_languages_keyboard(language)
        );
        assert_eq!(
            make_menu_keyboard(Menu::Descriptions, language),
            make_descriptions_keyboard(language)
        );
    }
}

#[test]
fn action_builders_set_one_field_each() {
    let keyboard = make_main_keyboard(Language::En);
    let action = Action::new("text".to_string(), keyboard.clone());
    assert_eq!(
        action,
        Action {
            image_data: None,
            delete_previous_message: false,
            replacement_text: None,
            new_message_text: "text".to_string(),
            keyboard: keyboard.clone(),
            filename: None,
        }
    );
    let action = action
        .set_delete_previous_message(true)
        .set_replacement_text("new".to_string())
        .set_filename("fool.jpg".to_string())
        .set_image_data((ImageSource::FileId("AgAD".to_string()), "caption".to_string()));
    assert_eq!(
        action,
        Action {
            image_data: Some((ImageSource::FileId("AgAD".to_string()), "caption".to_string())),
            delete_previous_message: true,
            replacement_text: Some("new".to_string()),
            new_message_text: "text".to_string(),
            keyboard,
            filename: Some("fool.jpg".to_string()),
        }
    );
}

#[test]
fn command_tables() {
    assert_eq!(language_after(Command::En, Language::Ru), Language::En);
    assert_eq!(language_after(Command::Ru, Language::En), Language::Ru);
    assert_eq!(language_after(Command::Card, Language::Ru), Language::Ru);
    assert_eq!(menu_of(Command::Start), Menu::Main);
    assert_eq!(menu_of(Command::Settings), Menu::Settings);
    assert_eq!(menu_of(Command::Ru), Menu::Languages);
    assert_eq!(menu_of(Command::NamesOnly), Menu::Descriptions);
    assert_eq!(message_key(Command::Card, true), "choose_your_action");
    assert_eq!(message_key(Command::Card, false), "no_cards_left");
    assert_eq!(message_key(Command::Start, false), "start");
    assert_eq!(replacement_key(Command::About), Some("description"));
    assert_eq!(replacement_key(Command::Start), None);
    assert!(deletes_previous_message(Command::Help));
    assert!(!deletes_previous_message(Command::Start));
    assert!(!deletes_previous_message(Command::Shuffle));
}

#[test]
fn card_image_prefers_the_cached_file() {
    let cached = CardData {
        file_id: Some("AgAD".to_string()),
        filename: "fool.jpg".to_string(),
        message_text: String::new(),
    };
    assert_eq!(card_image(&cached, Language::Ru), ImageSource::FileId("AgAD".to_string()));
    let fresh = CardData { file_id: None, ..cached };
    assert_eq!(
        card_image(&fresh, Language::Ru),
        ImageSource::File("pictures/ru/fool.jpg".to_string())
    );
    assert_eq!(
        card_image(&fresh, Language::En),
        ImageSource::File("pictures/en/fool.jpg".to_string())
    );
}

fn plain(text: &str, keyboard: Keyboard) -> Action {
    Action::new(text.to_string(), keyboard)
}

#[test]
fn respond_to_each_command_that_shows_a_menu() {
    let t = texts();
    let en = Language::En;
    assert_eq!(respond(Command::Start, en, None, &t), Ok(plain("en:start", make_main_keyboard(en))));
    assert_eq!(
        respond(Command::Help, en, None, &t),
        Ok(plain("en:help", make_main_keyboard(en)).set_delete_previous_message(true))
    );
    assert_eq!(
        respond(Command::About, en, None, &t),
        Ok(plain("en:choose_your_action", make_main_keyboard(en))
            .set_replacement_text("en:description".to_string()))
    );
    assert_eq!(
        respond(Command::MainMenu, en, None, &t),
        Ok(plain("en:choose_your_action", make_main_keyboard(en)).set_delete_previous_message(true))
    );
    assert_eq!(
        respond(Command::Settings, en, None, &t),
        Ok(plain("en:settings", make_settings_keyboard(en)).set_delete_previous_message(true))
    );
    assert_eq!(
        respond(Command::Language, en, None, &t),
        Ok(plain("en:language_settings", make_languages_keyboard(en))
            .set_delete_previous_message(true))
    );
    assert_eq!(
        respond(Command::Description, en, None, &t),
        Ok(plain("en:descriptions_settings", make_descriptions_keyboard(en))
            .set_delete_previous_message(true))
    );
}

#[test]
fn respond_to_each_command_that_changes_something() {
    let t = texts();
    let ru = Language::Ru;
    assert_eq!(
        respond(Command::Shuffle, ru, None, &t),
        Ok(plain("ru:choose_your_action", make_main_keyboard(ru))
            .set_replacement_text("ru:cards_shuffled_back".to_string()))
    );
    assert_eq!(
        respond(Command::FullDescription, ru, None, &t),
        Ok(plain("ru:descriptions_settings", make_descriptions_keyboard(ru))
            .set_replacement_text("ru:full_descriptions_will_be_shown".to_string()))
    );
    assert_eq!(
        respond(Command::NamesOnly, ru, None, &t),
        Ok(plain("ru:descriptions_settings", make_descriptions_keyboard(ru))
            .set_replacement_text("ru:names_only_will_be_shown".to_string()))
    );
    assert_eq!(
        respond(Command::NoDescription, ru, None, &t),
        Ok(plain("ru:descriptions_settings", make_descriptions_keyboard(ru))
            .set_replacement_text("ru:no_descriptions".to_string()))
    );
}

#[test]
fn respond_to_a_change_of_language_in_the_new_language() {
    let t = texts();
    assert_eq!(
        respond(Command::En, Language::Ru, None, &t),
        Ok(plain("en:language_settings", make_languages_keyboard(Language::En))
            .set_replacement_text("en:language_set_to_english".to_string()))
    );
    assert_eq!(
        respond(Command::Ru, Language::En, None, &t),
        Ok(plain("ru:language_settings", make_languages_keyboard(Language::Ru))
            .set_replacement_text("ru:language_set_to_russian".to_string()))
    );
}

#[test]
fn respond_to_a_dealt_card() {
    let t = texts();
    let card = the_fool();
    let cached = card.card_data(Language::En, DescriptionsFormat::Full);
    assert_eq!(
        respond(Command::Card, Language::En, Some(cached), &t),
        Ok(plain("en:choose_your_action", make_main_keyboard(Language::En))
            .set_delete_previous_message(true)
            .set_image_data((
                ImageSource::FileId("AgAD-en".to_string()),
                "The Fool\nA leap into the unknown.".to_string()
            ))
            .set_filename("fool.jpg".to_string()))
    );
    let fresh = card.card_data(Language::Ru, DescriptionsFormat::NamesOnly);
    assert_eq!(
        respond(Command::Card, Language::Ru, Some(fresh), &t),
        Ok(plain("ru:choose_your_action", make_main_keyboard(Language::Ru))
            .set_delete_previous_message(true)
            .set_image_data((
                ImageSource::File("pictures/ru/fool.jpg".to_string()),
                "Шут".to_string()
            ))
            .set_filename("fool.jpg".to_string()))
    );
}

#[test]
fn respond_when_no_card_is_left() {
    let t = texts();
    assert_eq!(
        respond(Command::Card, Language::En, None, &t),
        Ok(plain("en:no_cards_left", make_main_keyboard(Language::En))
            .set_delete_previous_message(true))
    );
}

#[test]
fn respond_passes_over_a_card_that_no_one_asked_for() {
    let t = texts();
    let data = the_fool().card_data(Language::En, DescriptionsFormat::Full);
    assert_eq!(
        respond(Command::Start, Language::En, Some(data), &t),
        Ok(plain("en:start", make_main_keyboard(Language::En)))
    );
}

#[test]
fn respond_fails_on_a_missing_text() {
    let mut t = Translation::new();
    t.insert(Language::En, "choose_your_action".to_string(), "Choose".to_string());
    assert_eq!(respond(Command::Start, Language::En, None, &t), Err(MissingTranslation));
    assert_eq!(respond(Command::About, Language::En, None, &t), Err(MissingTranslation));
    assert_eq!(respond(Command::MainMenu, Language::Ru, None, &t), Err(MissingTranslation));
    assert!(respond(Command::MainMenu, Language::En, None, &t).is_ok());
    t.insert(Language::En, "description".to_string(), "About the deck".to_string());
    assert!(respond(Command::About, Language::En, None, &t).is_ok());
}
