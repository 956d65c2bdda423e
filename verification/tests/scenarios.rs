use telegram_bot_deck_of_cards::database_interactions::{
    check_cards_table, get_descriptions_format, get_language, get_subscriber_id, Store, StoreError,
};
use telegram_bot_deck_of_cards::process::{
    apply, apply_chosen, check_subscriber, check_subscriber_at, make_languages_keyboard,
    make_main_keyboard, perform, process_message, process_message_at, run, Action, Card, Chance,
    DescriptionsFormat, ImageSource, Language, ProcessError,
};
use telegram_bot_deck_of_cards::resolver::{Reply, Request};
use telegram_bot_deck_of_cards::telegram_interactions::{
    process_action, Command, Delivery, Mutation,
};
use telegram_bot_deck_of_cards::translations::{translation, MissingTranslation, Translation};

const EN: &str = "\
start: Welcome
help: Press a button
choose_your_action: Choose your action
description: A deck of cards
no_cards_left: No cards left
cards_shuffled_back: The cards are shuffled back
settings: Settings
language_settings: Choose a language
descriptions_settings: Choose what to show
language_set_to_english: English it is
language_set_to_russian: never shown
full_descriptions_will_be_shown: Full descriptions will be shown
names_only_will_be_shown: Names only will be shown
no_descriptions: No descriptions will be shown
";

const RU: &str = "\
start: Добро пожаловать
help: Нажмите кнопку
choose_your_action: Выберите действие
description: Колода карт
no_cards_left: Карт больше нет
cards_shuffled_back: Карты замешаны в колоду
settings: Настройки
language_settings: Выберите язык
descriptions_settings: Выберите, что показывать
language_set_to_english: never shown
language_set_to_russian: Теперь по-русски
full_descriptions_will_be_shown: Будут показаны полные описания
names_only_will_be_shown: Будут показаны только имена
no_descriptions: Описаний не будет
";

const DECK: &str = "\
filename,name_en,description_en,name_ru,description_ru
fool.jpg,The Fool,Beginnings,Шут,Начало
magician.jpg,The Magician,Skill,Маг,Мастерство
empress.jpg,The Empress,Abundance,Императрица,Изобилие
";

fn interface() -> Translation {
    translation(RU, EN).expect("the interface texts are maps of strings")
}

fn table() -> Store {
    let mut store = Store::new();
    assert_eq!(check_cards_table(DECK.as_bytes(), &mut store), Ok(()));
    store
}

fn card_by_id(store: &Store, id: i32) -> Card {
    store.cards().into_iter().find(|card| card.id == id).expect("a drawn card is in the catalog")
}

fn send(command: Command, chat: &str, store: &mut Store) -> Action {
    process_message(command, chat.to_string(), store, &interface()).expect("the command is answered")
}

#[test]
fn a_new_chat_draws_its_first_card() {
    let mut store = table();
    let action = send(Command::Card, "42", &mut store);
    let id = get_subscriber_id("42", &store).expect("the chat has a record now");
    assert_eq!(store.subscriber_count(), 1);
    assert_eq!(get_language(id, &store), Ok(Language::En));
    assert_eq!(get_descriptions_format(id, &store), Ok(DescriptionsFormat::Full));
    let drawn = store.drawn_cards(id).unwrap();
    assert_eq!(drawn.len(), 1);
    let card = card_by_id(&store, drawn[0]);
    assert_eq!(
        action,
        Action {
            image_data: Some((
                ImageSource::File(format!("pictures/en/{}", card.filename)),
                format!("{}\n{}", card.name_en, card.description_en)
            )),
            delete_previous_message: true,
            replacement_text: None,
            new_message_text: "Choose your action".to_string(),
            keyboard: make_main_keyboard(Language::En),
            filename: Some(card.filename.clone()),
        }
    );
}

#[test]
fn a_chat_that_has_drawn_every_card_is_told_so() {
    let mut store = table();
    for _ in 0..3 {
        assert!(send(Command::Card, "42", &mut store).image_data.is_some());
    }
    let id = get_subscriber_id("42", &store).unwrap();
    let mut drawn = store.drawn_cards(id).unwrap();
    let action = send(Command::Card, "42", &mut store);
    assert_eq!(
        action,
        Action::new("No cards left".to_string(), make_main_keyboard(Language::En))
            .set_delete_previous_message(true)
    );
    assert_eq!(store.drawn_cards(id), Ok(drawn.clone()));
    drawn.sort();
    assert_eq!(drawn, vec![1, 2, 3]);
}

#[test]
fn without_descriptions_the_picture_still_goes_out() {
    let mut store = table();
    let confirmed = send(Command::NoDescription, "42", &mut store);
    assert_eq!(confirmed.replacement_text, Some("No descriptions will be shown".to_string()));
    let id = get_subscriber_id("42", &store).unwrap();
    assert_eq!(get_descriptions_format(id, &store), Ok(DescriptionsFormat::NoDescriptions));
    let action = send(Command::Card, "42", &mut store);
    let (image, caption) = action.image_data.clone().expect("a card was dealt");
    assert_eq!(caption, "");
    let card = card_by_id(&store, store.drawn_cards(id).unwrap()[0]);
    assert_eq!(image, ImageSource::File(format!("pictures/en/{}", card.filename)));
    assert_eq!(
        process_action(action, true),
        vec![
            Delivery::AnswerCallbackQuery,
            Delivery::DeleteMessage,
            Delivery::SendPhoto { photo: image, filename: Some(card.filename) },
            Delivery::SendMenu {
                text: "Choose your action".to_string(),
                keyboard: make_main_keyboard(Language::En)
            },
        ]
    );
}

#[test]
fn names_only_shows_the_name_alone() {
    let mut store = table();
    send(Command::NamesOnly, "42", &mut store);
    let action = send(Command::Card, "42", &mut store);
    let id = get_subscriber_id("42", &store).unwrap();
    let card = card_by_id(&store, store.drawn_cards(id).unwrap()[0]);
    assert_eq!(action.image_data.unwrap().1, card.name_en);
}

#[test]
fn a_change_of_language_is_honoured_at_once() {
    let mut store = table();
    let switched = send(Command::Ru, "42", &mut store);
    assert_eq!(
        switched,
        Action::new("Выберите язык".to_string(), make_languages_keyboard(Language::Ru))
            .set_replacement_text("Теперь по-русски".to_string())
    );
    let id = get_subscriber_id("42", &store).unwrap();
    assert_eq!(get_language(id, &store), Ok(Language::Ru));
    let action = send(Command::Card, "42", &mut store);
    let card = card_by_id(&store, store.drawn_cards(id).unwrap()[0]);
    assert_eq!(
        action.image_data,
        Some((
            ImageSource::File(format!("pictures/ru/{}", card.filename)),
            format!("{}\n{}", card.name_ru, card.description_ru)
        ))
    );
    assert_eq!(action.new_message_text, "Выберите действие");
    let back = send(Command::En, "42", &mut store);
    assert_eq!(back.replacement_text, Some("English it is".to_string()));
    assert_eq!(get_language(id, &store), Ok(Language::En));
}

#[test]
fn a_reshuffle_brings_every_card_back() {
    let mut store = table();
    for _ in 0..3 {
        send(Command::Card, "42", &mut store);
    }
    let id = get_subscriber_id("42", &store).unwrap();
    let shuffled = send(Command::Shuffle, "42", &mut store);
    assert_eq!(
        shuffled,
        Action::new("Choose your action".to_string(), make_main_keyboard(Language::En))
            .set_replacement_text("The cards are shuffled back".to_string())
    );
    assert_eq!(store.drawn_cards(id), Ok(vec![]));
    let mut again = Vec::new();
    for _ in 0..3 {
        let action = send(Command::Card, "42", &mut store);
        again.push(action.filename.expect("a card was dealt"));
    }
    again.sort();
    assert_eq!(again, vec!["empress.jpg", "fool.jpg", "magician.jpg"]);
}

#[test]
fn commands_that_only_show_something_change_nothing() {
    let mut store = table();
    send(Command::Card, "42", &mut store);
    send(Command::Ru, "42", &mut store);
    let id = get_subscriber_id("42", &store).unwrap();
    let drawn = store.drawn_cards(id).unwrap();
    for command in [
        Command::Start,
        Command::Help,
        Command::About,
        Command::MainMenu,
        Command::Settings,
        Command::Language,
        Command::Description,
    ] {
        send(command, "42", &mut store);
        assert_eq!(store.subscriber_count(), 1);
        assert_eq!(get_language(id, &store), Ok(Language::Ru));
        assert_eq!(get_descriptions_format(id, &store), Ok(DescriptionsFormat::Full));
        assert_eq!(store.drawn_cards(id), Ok(drawn.clone()));
    }
}

#[test]
fn one_chat_never_changes_the_record_of_another() {
    let mut store = table();
    send(Command::Ru, "b", &mut store);
    send(Command::NamesOnly, "b", &mut store);
    send(Command::Card, "b", &mut store);
    let b = get_subscriber_id("b", &store).unwrap();
    let drawn = store.drawn_cards(b).unwrap();
    for command in [
        Command::Start,
        Command::En,
        Command::NoDescription,
        Command::Card,
        Command::Card,
        Command::Card,
        Command::Card,
        Command::Shuffle,
        Command::FullDescription,
    ] {
        send(command, "a", &mut store);
        assert_eq!(get_language(b, &store), Ok(Language::Ru));
        assert_eq!(get_descriptions_format(b, &store), Ok(DescriptionsFormat::NamesOnly));
        assert_eq!(store.drawn_cards(b), Ok(drawn.clone()));
    }
    assert_eq!(store.subscriber_count(), 2);
}

#[test]
fn first_contact_twice_gives_one_record() {
    let mut store = table();
    let first = check_subscriber("42".to_string(), &mut store);
    let second = check_subscriber("42".to_string(), &mut store);
    assert_eq!(first, Ok(1));
    assert_eq!(second, Ok(1));
    assert_eq!(store.subscriber_count(), 1);
    assert_eq!(check_subscriber_at("43".to_string(), 5, &mut store), Ok(2));
    assert_eq!(check_subscriber_at("43".to_string(), 6, &mut store), Ok(2));
    assert_eq!(check_subscriber_at("42".to_string(), 7, &mut store), Ok(1));
    assert_eq!(store.subscriber_count(), 2);
}

#[test]
fn a_given_choice_gives_a_given_card() {
    let mut store = table();
    let t = interface();
    let action =
        process_message_at(Command::Card, "42".to_string(), &mut store, &t, 1_700_000_000, Some(1))
            .expect("the command is answered");
    assert_eq!(
        action.image_data,
        Some((
            ImageSource::File("pictures/en/magician.jpg".to_string()),
            "The Magician\nSkill".to_string()
        ))
    );
    assert_eq!(action.filename, Some("magician.jpg".to_string()));
    assert_eq!(store.drawn_cards(1), Ok(vec![2]));
    let again =
        process_message_at(Command::Card, "42".to_string(), &mut store, &t, 1_700_000_001, Some(1))
            .expect("the command is answered");
    assert_eq!(again.new_message_text, "No cards left");
    assert_eq!(again.image_data, None);
    assert_eq!(store.drawn_cards(1), Ok(vec![2]));
}

#[test]
fn a_missing_text_fails_the_request_after_the_mutation() {
    let mut store = table();
    let mut t = Translation::new();
    t.insert(Language::En, "start".to_string(), "Welcome".to_string());
    assert_eq!(
        process_message(Command::Card, "42".to_string(), &mut store, &t),
        Err(ProcessError::Translation(MissingTranslation))
    );
    assert_eq!(store.drawn_cards(1).map(|drawn| drawn.len()), Ok(1));
    assert_eq!(
        process_message(Command::Ru, "42".to_string(), &mut store, &t),
        Err(ProcessError::Translation(MissingTranslation))
    );
    assert_eq!(get_language(1, &store), Ok(Language::Ru));
    assert_eq!(
        process_message(Command::Start, "42".to_string(), &mut store, &t),
        Err(ProcessError::Translation(MissingTranslation))
    );
    t.insert(Language::Ru, "start".to_string(), "Добро пожаловать".to_string());
    assert_eq!(
        process_message(Command::Start, "42".to_string(), &mut store, &t)
            .map(|action| action.new_message_text),
        Ok("Добро пожаловать".to_string())
    );
}

#[test]
fn apply_does_what_the_mutation_says() {
    let mut store = table();
    let id = check_subscriber_at("42".to_string(), 1, &mut store).unwrap();
    let en = Language::En;
    let full = DescriptionsFormat::Full;
    assert_eq!(apply(Mutation::Nothing, en, full, id, &mut store), Ok(None));
    assert_eq!(apply(Mutation::SetLanguage(Language::Ru), en, full, id, &mut store), Ok(None));
    assert_eq!(get_language(id, &store), Ok(Language::Ru));
    assert_eq!(
        apply(Mutation::SetDescription(DescriptionsFormat::NamesOnly), en, full, id, &mut store),
        Ok(None)
    );
    assert_eq!(get_descriptions_format(id, &store), Ok(DescriptionsFormat::NamesOnly));
    let card = apply(Mutation::Draw, en, full, id, &mut store).unwrap().expect("cards are left");
    let drawn = card_by_id(&store, store.drawn_cards(id).unwrap()[0]);
    assert_eq!(card.filename, drawn.filename);
    assert_eq!(card.message_text, format!("{}\n{}", drawn.name_en, drawn.description_en));
    assert_eq!(apply_chosen(Mutation::ShuffleCardsBack, en, full, id, None, &mut store), Ok(None));
    assert_eq!(store.drawn_cards(id), Ok(vec![]));
    assert_eq!(
        apply_chosen(Mutation::Draw, Language::Ru, full, id, Some(0), &mut store)
            .map(|card| card.map(|data| data.message_text)),
        Ok(Some("Шут\nНачало".to_string()))
    );
    assert_eq!(apply(Mutation::Draw, en, full, id + 1, &mut store), Err(StoreError::RowNotFound));
    assert_eq!(
        apply_chosen(Mutation::Draw, en, full, 0, Some(1), &mut store),
        Err(StoreError::RowNotFound)
    );
}

#[test]
fn perform_answers_each_request_from_the_store() {
    let mut store = table();
    let chat = "42".to_string();
    let given = Chance::Given { created_at: 9, chosen: Some(2) };
    assert_eq!(perform(Request::FindSubscriber, &chat, &mut store, given), Ok(Reply::Subscriber(None)));
    assert_eq!(perform(Request::CreateSubscriber, &chat, &mut store, given), Ok(Reply::Created(1)));
    assert_eq!(store.subscriber(1).map(|record| record.created_at), Ok(9));
    assert_eq!(
        perform(Request::CreateSubscriber, &chat, &mut store, Chance::Open),
        Err(StoreError::DuplicateChat)
    );
    assert_eq!(
        perform(Request::FindSubscriber, &chat, &mut store, Chance::Open),
        Ok(Reply::Subscriber(Some(1)))
    );
    assert_eq!(
        perform(Request::LoadLanguage { subscriber_id: 1 }, &chat, &mut store, given),
        Ok(Reply::Language(Language::En))
    );
    assert_eq!(
        perform(Request::LoadDescriptionsFormat { subscriber_id: 1 }, &chat, &mut store, given),
        Ok(Reply::DescriptionsFormat(DescriptionsFormat::Full))
    );
    assert_eq!(
        perform(Request::LoadLanguage { subscriber_id: 2 }, &chat, &mut store, given),
        Err(StoreError::RowNotFound)
    );
    let draw = Request::Apply {
        mutation: Mutation::Draw,
        language: Language::En,
        descriptions_format: DescriptionsFormat::NamesOnly,
        subscriber_id: 1,
    };
    let dealt = perform(draw, &chat, &mut store, given).unwrap();
    match dealt {
        Reply::Applied(Some(card)) => {
            assert_eq!(card.filename, "empress.jpg");
            assert_eq!(card.message_text, "The Empress");
        }
        other => panic!("a card was to be dealt, not {:?}", other),
    }
    assert_eq!(perform(draw, &chat, &mut store, given), Ok(Reply::Applied(None)));
    assert_eq!(store.drawn_cards(1), Ok(vec![3]));
}

#[test]
fn run_with_a_given_chance_is_process_message_at() {
    let t = interface();
    let mut one = table();
    let mut other = table();
    let given = Chance::Given { created_at: 5, chosen: Some(0) };
    for command in [Command::Start, Command::Card, Command::Card, Command::Ru, Command::Shuffle] {
        let left = run(command, "42".to_string(), &mut one, &t, given);
        let right = process_message_at(command, "42".to_string(), &mut other, &t, 5, Some(0));
        assert_eq!(left, right);
        assert_eq!(one.subscriber(1), other.subscriber(1));
    }
}
