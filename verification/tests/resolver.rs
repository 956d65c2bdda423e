use telegram_bot_deck_of_cards::process::{
    make_main_keyboard, make_settings_keyboard, Action, CardData, DescriptionsFormat, ImageSource,
    Language,
};
use telegram_bot_deck_of_cards::resolver::{
    Progress, Reply, Request, ResolveError, Resolver, Stage,
};
use telegram_bot_deck_of_cards::telegram_interactions::{Command, Mutation};
use telegram_bot_deck_of_cards::translations::{MissingTranslation, Translation};

fn few_texts() -> Translation {
    let mut translation = Translation::new();
    for key in ["settings", "choose_your_action", "no_cards_left", "cards_shuffled_back"] {
        translation.insert(Language::En, key.to_string(), format!("en:{}", key));
        translation.insert(Language::Ru, key.to_string(), format!("ru:{}", key));
    }
    translation
}

fn up_to_the_mutation(command: Command, t: &Translation) -> (Resolver, Progress) {
    let mut resolver = Resolver::new(command);
    assert_eq!(resolver.first_request(), Request::FindSubscriber);
    assert_eq!(
        resolver.advance(Reply::Subscriber(Some(7)), t),
        Progress::Ask(Request::LoadLanguage { subscriber_id: 7 })
    );
    assert_eq!(
        resolver.advance(Reply::Language(Language::Ru), t),
        Progress::Ask(Request::LoadDescriptionsFormat { subscriber_id: 7 })
    );
    let progress = resolver.advance(Reply::DescriptionsFormat(DescriptionsFormat::NamesOnly), t);
    (resolver, progress)
}

#[test]
fn a_new_resolver_looks_for_the_subscriber() {
    let resolver = Resolver::new(Command::Card);
    assert_eq!(resolver, Resolver { command: Command::Card, stage: Stage::FindingSubscriber });
    assert_eq!(resolver.first_request(), Request::FindSubscriber);
}

#[test]
fn an_unknown_chat_gets_a_record_before_anything_is_read() {
    let t = few_texts();
    let mut resolver = Resolver::new(Command::Settings);
    assert_eq!(resolver.advance(Reply::Subscriber(None), &t), Progress::Ask(Request::CreateSubscriber));
    assert_eq!(resolver.stage, Stage::CreatingSubscriber);
    assert_eq!(
        resolver.advance(Reply::Created(3), &t),
        Progress::Ask(Request::LoadLanguage { subscriber_id: 3 })
    );
    assert_eq!(resolver.stage, Stage::LoadingLanguage { subscriber_id: 3 });
}

#[test]
fn a_command_that_changes_nothing_asks_for_no_mutation() {
    let t = few_texts();
    let (resolver, progress) = up_to_the_mutation(Command::Settings, &t);
    assert_eq!(
        progress,
        Progress::Done(Ok(Action::new(
            "ru:settings".to_string(),
            make_settings_keyboard(Language::Ru)
        )
        .set_delete_previous_message(true)))
    );
    assert_eq!(resolver.stage, Stage::Done);
}

#[test]
fn a_draw_is_asked_for_before_the_answer_is_built() {
    let t = few_texts();
    let (mut resolver, progress) = up_to_the_mutation(Command::Card, &t);
    assert_eq!(
        progress,
        Progress::Ask(Request::Apply {
            mutation: Mutation::Draw,
            language: Language::Ru,
            descriptions_format: DescriptionsFormat::NamesOnly,
            subscriber_id: 7,
        })
    );
    assert_eq!(resolver.stage, Stage::Applying { language: Language::Ru });
    let card = CardData {
        file_id: Some("AgAD".to_string()),
        filename: "fool.jpg".to_string(),
        message_text: "Шут".to_string(),
    };
    assert_eq!(
        resolver.advance(Reply::Applied(Some(card)), &t),
        Progress::Done(Ok(Action::new(
            "ru:choose_your_action".to_string(),
            make_main_keyboard(Language::Ru)
        )
        .set_delete_previous_message(true)
        .set_image_data((ImageSource::FileId("AgAD".to_string()), "Шут".to_string()))
        .set_filename("fool.jpg".to_string())))
    );
    assert_eq!(resolver.stage, Stage::Done);
}

#[test]
fn a_draw_that_deals_nothing_is_answered_with_no_cards_left() {
    let t = few_texts();
    let (mut resolver, _) = up_to_the_mutation(Command::Card, &t);
    assert_eq!(
        resolver.advance(Reply::Applied(None), &t),
        Progress::Done(Ok(Action::new(
            "ru:no_cards_left".to_string(),
            make_main_keyboard(Language::Ru)
        )
        .set_delete_previous_message(true)))
    );
}

#[test]
fn each_mutation_is_asked_for_as_the_command_says() {
    let t = few_texts();
    for command in [
        Command::Shuffle,
        Command::En,
        Command::Ru,
        Command::FullDescription,
        Command::NamesOnly,
        Command::NoDescription,
    ] {
        let (_, progress) = up_to_the_mutation(command, &t);
        assert_eq!(
            progress,
            Progress::Ask(Request::Apply {
                mutation: command.mutation(),
                language: Language::Ru,
                descriptions_format: DescriptionsFormat::NamesOnly,
                subscriber_id: 7,
            })
        );
    }
}

#[test]
fn a_missing_text_ends_the_resolver_with_an_error() {
    let t = few_texts();
    let (mut resolver, _) = up_to_the_mutation(Command::Ru, &t);
    assert_eq!(
        resolver.advance(Reply::Applied(None), &t),
        Progress::Done(Err(ResolveError::Translation(MissingTranslation)))
    );
    assert_eq!(resolver.stage, Stage::Done);
}

#[test]
fn a_reply_out_of_turn_ends_the_resolver() {
    let t = few_texts();
    let replies = [
        Reply::Created(1),
        Reply::Language(Language::En),
        Reply::DescriptionsFormat(DescriptionsFormat::Full),
        Reply::Applied(None),
    ];
    for reply in replies {
        let mut resolver = Resolver::new(Command::Start);
        assert_eq!(resolver.advance(reply, &t), Progress::Done(Err(ResolveError::OutOfTurn)));
        assert_eq!(resolver.stage, Stage::Done);
        assert_eq!(
            resolver.advance(Reply::Subscriber(Some(1)), &t),
            Progress::Done(Err(ResolveError::OutOfTurn))
        );
    }
    let (mut resolver, _) = up_to_the_mutation(Command::Shuffle, &t);
    assert_eq!(
        resolver.advance(Reply::Language(Language::En), &t),
        Progress::Done(Err(ResolveError::OutOfTurn))
    );
}

#[test]
fn resolve_error_messages() {
    assert_eq!(ResolveError::Translation(MissingTranslation).message(), "Missing translation!");
    assert_eq!(ResolveError::OutOfTurn.message(), "Reply out of turn!");
}
