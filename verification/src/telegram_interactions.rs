//! What the bot understands and what it sends: the commands, the buttons
//! that stand for them, and the order in which an action goes out.

use crate::database_interactions::{
    get_language, get_subscriber_id, lemma_subscriber_id, set_file_id, Store, StoreView,
};
use crate::process;
use crate::process::{
    Action, ActionView, ButtonView, DescriptionsFormat, ImageSource, ImageSourceView, Keyboard,
};
use crate::translations;
use crate::translations::{MissingTranslation, Translation, TranslationView};
use vstd::prelude::*;

verus! {

/// The commands of the bot.
#[derive(Debug, Clone, Copy, PartialEq, Eq, Structural)]
pub enum Command {
    /// Get a list of actions.
    Start,
    /// Get a list of actions.
    Help,
    /// Show settings.
    Settings,
    /// Main menu.
    MainMenu,
    /// Get a description of project.
    About,
    /// Send me a random card.
    Card,
    /// Shuffle the drawn cards back into deck.
    Shuffle,
    /// Choose language.
    Language,
    /// Set English language.
    En,
    /// Set Russian language.
    Ru,
    /// Choose description settings.
    Description,
    /// Set full description.
    FullDescription,
    /// Set names only.
    NamesOnly,
    /// No descriptions.
    NoDescription,
}

/// What a command changes in the record of the subscriber who sent it.
#[derive(Debug, Clone, Copy, PartialEq, Eq, Structural)]
pub enum Mutation {
    /// Nothing: the command only shows something.
    Nothing,
    /// One card is dealt and joins the drawn cards.
    Draw,
    /// The drawn cards go back into the deck.
    ShuffleCardsBack,
    /// The language is set.
    SetLanguage(process::Language),
    /// The descriptions format is set.
    SetDescription(DescriptionsFormat),
}

impl Command {
    /// The one change that the command makes to the store.
    pub open spec fn spec_mutation(self) -> Mutation {
        match self {
            Command::Card => Mutation::Draw,
            Command::Shuffle => Mutation::ShuffleCardsBack,
            Command::En => Mutation::SetLanguage(process::Language::En),
            Command::Ru => Mutation::SetLanguage(process::Language::Ru),
            Command::FullDescription => Mutation::SetDescription(DescriptionsFormat::Full),
            Command::NamesOnly => Mutation::SetDescription(DescriptionsFormat::NamesOnly),
            Command::NoDescription => Mutation::SetDescription(DescriptionsFormat::NoDescriptions),
            _ => Mutation::Nothing,
        }
    }

    #[verifier::when_used_as_spec(spec_mutation)]
    pub fn mutation(self) -> (mutation: Mutation)
        ensures
            mutation == self.spec_mutation(),
    {
        match self {
            Command::Card => Mutation::Draw,
            Command::Shuffle => Mutation::ShuffleCardsBack,
            Command::En => Mutation::SetLanguage(process::Language::En),
            Command::Ru => Mutation::SetLanguage(process::Language::Ru),
            Command::FullDescription => Mutation::SetDescription(DescriptionsFormat::Full),
            Command::NamesOnly => Mutation::SetDescription(DescriptionsFormat::NamesOnly),
            Command::NoDescription => Mutation::SetDescription(DescriptionsFormat::NoDescriptions),
            _ => Mutation::Nothing,
        }
    }
}

/// The label of the button that stands for a command in a language. The
/// names of the two languages read the same in every language; `Start` and
/// `Help` have no button.
pub open spec fn spec_label(command: Command, language: process::Language) -> Option<Seq<char>> {
    match (command, language) {
        (Command::Start, _) | (Command::Help, _) => None,
        (Command::About, process::Language::En) => Some(translations::ABOUT_EN@),
        (Command::About, process::Language::Ru) => Some(translations::ABOUT_RU@),
        (Command::MainMenu, process::Language::En) => Some(translations::MAIN_MENU_EN@),
        (Command::MainMenu, process::Language::Ru) => Some(translations::MAIN_MENU_RU@),
        (Command::Card, process::Language::En) => Some(translations::CARD_EN@),
        (Command::Card, process::Language::Ru) => Some(translations::CARD_RU@),
        (Command::Shuffle, process::Language::En) => Some(translations::SHUFFLE_EN@),
        (Command::Shuffle, process::Language::Ru) => Some(translations::SHUFFLE_RU@),
        (Command::Settings, process::Language::En) => Some(translations::SETTINGS_EN@),
        (Command::Settings, process::Language::Ru) => Some(translations::SETTINGS_RU@),
        (Command::Language, process::Language::En) => Some(translations::LANGUAGE_EN@),
        (Command::Language, process::Language::Ru) => Some(translations::LANGUAGE_RU@),
        (Command::Description, process::Language::En) => Some(translations::DESCRIPTIONS_EN@),
        (Command::Description, process::Language::Ru) => Some(translations::DESCRIPTIONS_RU@),
        (Command::En, _) => Some(translations::EN_EN@),
        (Command::Ru, _) => Some(translations::RU_RU@),
        (Command::FullDescription, process::Language::En) => Some(
            translations::FULL_DESCRIPTIONS_EN@,
        ),
        (Command::FullDescription, process::Language::Ru) => Some(
            translations::FULL_DESCRIPTIONS_RU@,
        ),
        (Command::NamesOnly, process::Language::En) => Some(translations::NAMES_ONLY_EN@),
        (Command::NamesOnly, process::Language::Ru) => Some(translations::NAMES_ONLY_RU@),
        (Command::NoDescription, process::Language::En) => Some(translations::NO_DESCRIPTIONS_EN@),
        (Command::NoDescription, process::Language::Ru) => Some(translations::NO_DESCRIPTIONS_RU@),
    }
}

/// The command that each button stands for, by the label of the button in
/// either language. A text that is no label stands for no command.
pub open spec fn command_of_label(label: Seq<char>) -> Option<Command> {
    if label == translations::ABOUT_EN@ || label == translations::ABOUT_RU@ {
        Some(Command::About)
    } else if label == translations::MAIN_MENU_EN@ || label == translations::MAIN_MENU_RU@ {
        Some(Command::MainMenu)
    } else if label == translations::CARD_EN@ || label == translations::CARD_RU@ {
        Some(Command::Card)
    } else if label == translations::SHUFFLE_EN@ || label == translations::SHUFFLE_RU@ {
        Some(Command::Shuffle)
    } else if label == translations::SETTINGS_EN@ || label == translations::SETTINGS_RU@ {
        Some(Command::Settings)
    } else if label == translations::LANGUAGE_EN@ || label == translations::LANGUAGE_RU@ {
        Some(Command::Language)
    } else if label == translations::DESCRIPTIONS_EN@ || label == translations::DESCRIPTIONS_RU@ {
        Some(Command::Description)
    } else if label == translations::EN_EN@ {
        Some(Command::En)
    } else if label == translations::RU_RU@ {
        Some(Command::Ru)
    } else if label == translations::FULL_DESCRIPTIONS_EN@ || label
        == translations::FULL_DESCRIPTIONS_RU@ {
        Some(Command::FullDescription)
    } else if label == translations::NAMES_ONLY_EN@ || label == translations::NAMES_ONLY_RU@ {
        Some(Command::NamesOnly)
    } else if label == translations::NO_DESCRIPTIONS_EN@ || label
        == translations::NO_DESCRIPTIONS_RU@ {
        Some(Command::NoDescription)
    } else {
        None
    }
}

/// Reads the data of a pressed button as a command.
pub fn command_from_label(label: &str) -> (command: Option<Command>)
    ensures
        command == command_of_label(label@),
{
    if label.eq(translations::ABOUT_EN) || label.eq(translations::ABOUT_RU) {
        Some(Command::About)
    } else if label.eq(translations::MAIN_MENU_EN) || label.eq(translations::MAIN_MENU_RU) {
        Some(Command::MainMenu)
    } else if label.eq(translations::CARD_EN) || label.eq(translations::CARD_RU) {
        Some(Command::Card)
    } else if label.eq(translations::SHUFFLE_EN) || label.eq(translations::SHUFFLE_RU) {
        Some(Command::Shuffle)
    } else if label.eq(translations::SETTINGS_EN) || label.eq(translations::SETTINGS_RU) {
        Some(Command::Settings)
    } else if label.eq(translations::LANGUAGE_EN) || label.eq(translations::LANGUAGE_RU) {
        Some(Command::Language)
    } else if label.eq(translations::DESCRIPTIONS_EN) || label.eq(translations::DESCRIPTIONS_RU) {
        Some(Command::Description)
    } else if label.eq(translations::EN_EN) {
        Some(Command::En)
    } else if label.eq(translations::RU_RU) {
        Some(Command::Ru)
    } else if label.eq(translations::FULL_DESCRIPTIONS_EN) || label.eq(
        translations::FULL_DESCRIPTIONS_RU,
    ) {
        Some(Command::FullDescription)
    } else if label.eq(translations::NAMES_ONLY_EN) || label.eq(translations::NAMES_ONLY_RU) {
        Some(Command::NamesOnly)
    } else if label.eq(translations::NO_DESCRIPTIONS_EN) || label.eq(
        translations::NO_DESCRIPTIONS_RU,
    ) {
        Some(Command::NoDescription)
    } else {
        None
    }
}

/// Every button is read back as the command it stands for, in either
/// language, and what is read as a command is the label of its button in
/// one of the languages: no two commands share a label.
pub proof fn lemma_label_round_trip(command: Command, language: process::Language, label: Seq<char>)
    ensures
        spec_label(command, language) matches Some(l) ==> command_of_label(l) == Some(command),
        command_of_label(label) matches Some(c) ==> spec_label(c, process::Language::En) == Some(
            label,
        ) || spec_label(c, process::Language::Ru) == Some(label),
{
    reveal_strlit("About");
    reveal_strlit("О проекте");
    reveal_strlit("Main menu");
    reveal_strlit("Главное меню");
    reveal_strlit("Draw a card");
    reveal_strlit("Вытянуть карту");
    reveal_strlit("Shuffle drawn cards back");
    reveal_strlit("Замешать вытянутые карты в колоду");
    reveal_strlit("Settings");
    reveal_strlit("Настройки");
    reveal_strlit("Language");
    reveal_strlit("Язык");
    reveal_strlit("Descriptions");
    reveal_strlit("Описания");
    reveal_strlit("English");
    reveal_strlit("Русский");
    reveal_strlit("Full descriptions");
    reveal_strlit("Полные описания");
    reveal_strlit("Names only");
    reveal_strlit("Только имена");
    reveal_strlit("No descriptions");
    reveal_strlit("Без описаний");
    // Labels of different lengths differ.
    assert(translations::ABOUT_EN@.len() == 5);
    assert(translations::ABOUT_RU@.len() == 9);
    assert(translations::MAIN_MENU_EN@.len() == 9);
    assert(translations::MAIN_MENU_RU@.len() == 12);
    assert(translations::CARD_EN@.len() == 11);
    assert(translations::CARD_RU@.len() == 14);
    assert(translations::SHUFFLE_EN@.len() == 24);
    assert(translations::SHUFFLE_RU@.len() == 33);
    assert(translations::SETTINGS_EN@.len() == 8);
    assert(translations::SETTINGS_RU@.len() == 9);
    assert(translations::LANGUAGE_EN@.len() == 8);
    assert(translations::LANGUAGE_RU@.len() == 4);
    assert(translations::DESCRIPTIONS_EN@.len() == 12);
    assert(translations::DESCRIPTIONS_RU@.len() == 8);
    assert(translations::EN_EN@.len() == 7);
    assert(translations::RU_RU@.len() == 7);
    assert(translations::FULL_DESCRIPTIONS_EN@.len() == 17);
    assert(translations::FULL_DESCRIPTIONS_RU@.len() == 15);
    assert(translations::NAMES_ONLY_EN@.len() == 10);
    assert(translations::NAMES_ONLY_RU@.len() == 12);
    assert(translations::NO_DESCRIPTIONS_EN@.len() == 15);
    assert(translations::NO_DESCRIPTIONS_RU@.len() == 12);
    // Labels of one length differ in a character.
    assert(translations::ABOUT_RU@[0] != translations::MAIN_MENU_EN@[0]);
    assert(translations::ABOUT_RU@[0] != translations::SETTINGS_RU@[0]);
    assert(translations::MAIN_MENU_EN@[0] != translations::SETTINGS_RU@[0]);
    assert(translations::MAIN_MENU_RU@[0] != translations::DESCRIPTIONS_EN@[0]);
    assert(translations::MAIN_MENU_RU@[0] != translations::NAMES_ONLY_RU@[0]);
    assert(translations::MAIN_MENU_RU@[0] != translations::NO_DESCRIPTIONS_RU@[0]);
    assert(translations::SETTINGS_EN@[0] != translations::LANGUAGE_EN@[0]);
    assert(translations::SETTINGS_EN@[0] != translations::DESCRIPTIONS_RU@[0]);
    assert(translations::LANGUAGE_EN@[0] != translations::DESCRIPTIONS_RU@[0]);
    assert(translations::DESCRIPTIONS_EN@[0] != translations::NAMES_ONLY_RU@[0]);
    assert(translations::DESCRIPTIONS_EN@[0] != translations::NO_DESCRIPTIONS_RU@[0]);
    assert(translations::EN_EN@[0] != translations::RU_RU@[0]);
    assert(translations::FULL_DESCRIPTIONS_RU@[0] != translations::NO_DESCRIPTIONS_EN@[0]);
    assert(translations::NAMES_ONLY_RU@[0] != translations::NO_DESCRIPTIONS_RU@[0]);
}

/// Key of the text sent when a message or a button names no command.
pub const COMMAND_NOT_FOUND: &'static str = "command_not_found";

/// Key of the text sent when a message holds no text.
pub const TEXT_EXPECTED: &'static str = "text_expected";

/// Key of the text sent when answering a command failed.
pub const UNKNOWN_ERROR: &'static str = "unknown_error";

/// What is done about something that came in.
#[derive(Debug, Clone, Copy, PartialEq, Eq)]
pub enum Reaction {
    /// The command is processed and answered.
    Process(Command),
    /// The text under this key is sent, and nothing is processed.
    Report(&'static str),
}

/// What is done about an incoming message. `text` is `None` for a message
/// without text; otherwise it holds the command that the text was read as,
/// if it could be read as one.
pub fn message_handler(text: Option<Option<Command>>) -> (reaction: Reaction)
    ensures
        reaction == match text {
            Some(Some(command)) => Reaction::Process(command),
            Some(None) => Reaction::Report(COMMAND_NOT_FOUND),
            None => Reaction::Report(TEXT_EXPECTED),
        },
{
    match text {
        Some(Some(command)) => Reaction::Process(command),
        Some(None) => Reaction::Report(COMMAND_NOT_FOUND),
        None => Reaction::Report(TEXT_EXPECTED),
    }
}

/// What is done about a pressed button. A button without data is passed
/// over, and so is one whose message is gone; data that is the label of no
/// button is reported as an unknown command.
pub fn callback_handler(data: Option<&str>, has_message: bool) -> (reaction: Option<Reaction>)
    ensures
        reaction == match data {
            Some(label) if has_message => Some(
                match command_of_label(label@) {
                    Some(command) => Reaction::Process(command),
                    None => Reaction::Report(COMMAND_NOT_FOUND),
                },
            ),
            _ => None,
        },
{
    match data {
        Some(label) => {
            if has_message {
                match command_from_label(label) {
                    Some(command) => Some(Reaction::Process(command)),
                    None => Some(Reaction::Report(COMMAND_NOT_FOUND)),
                }
            } else {
                None
            }
        },
        None => None,
    }
}

/// The language in which something is reported to a chat: its own, or
/// English while it has no record.
pub open spec fn report_language(language: Option<process::Language>) -> process::Language {
    match language {
        Some(l) => l,
        None => process::Language::En,
    }
}

/// The text under `message_key` for a chat whose language is `language`,
/// if it has one.
pub fn error_message(
    message_key: &str,
    language: Option<process::Language>,
    translation: &Translation,
) -> (text: Result<String, MissingTranslation>)
    ensures
        match text {
            Ok(t) => translation@.lookup(message_key@, report_language(language)) == Some(t@),
            Err(_) => translation@.lookup(message_key@, report_language(language)) is None,
        },
{
    let language = match language {
        Some(l) => l,
        None => process::Language::En,
    };
    translation.get(message_key, language)
}

/// The language of the chat `chat_id`, if it has a record.
pub open spec fn language_of(store: StoreView, chat_id: Seq<char>) -> Option<
    process::Language,
> {
    match store.subscriber_id(chat_id) {
        Some(id) => Some(store.subscriber(id).language),
        None => None,
    }
}

/// The text that reports `message_key` to the chat `chat_id`, in the
/// language of the chat.
pub fn send_error_message(
    message_key: &str,
    chat_id: &str,
    store: &Store,
    translation: &Translation,
) -> (text: Result<String, MissingTranslation>)
    requires
        store.wf(),
    ensures
        match text {
            Ok(t) => translation@.lookup(
                message_key@,
                report_language(language_of(store@, chat_id@)),
            ) == Some(t@),
            Err(_) => translation@.lookup(
                message_key@,
                report_language(language_of(store@, chat_id@)),
            ) is None,
        },
{
    let language = chat_language(chat_id, store);
    error_message(message_key, language, translation)
}

/// One step of sending an action, as the contracts see it.
pub enum DeliveryView {
    AnswerCallbackQuery,
    DeleteMessage,
    EditMessageText { text: Seq<char> },
    SendPhoto { photo: ImageSourceView, filename: Option<Seq<char>> },
    SendMessage { text: Seq<char> },
    SendMenu { text: Seq<char>, keyboard: Seq<Seq<ButtonView>> },
}

/// One step of sending an action.
#[derive(Debug, Clone, PartialEq, Eq)]
pub enum Delivery {
    /// Tell the transport that the pressed button was handled.
    AnswerCallbackQuery,
    /// Delete the message the command came from.
    DeleteMessage,
    /// Put `text` in place of the message the command came from.
    EditMessageText { text: String },
    /// Send the picture. Once it is delivered, the file id that the
    /// transport gave it is remembered for the file `filename`.
    SendPhoto { photo: ImageSource, filename: Option<String> },
    /// Send `text` as a message of its own.
    SendMessage { text: String },
    /// Send `text` with the keyboard under it.
    SendMenu { text: String, keyboard: Keyboard },
}

impl View for Delivery {
    type V = DeliveryView;

    open spec fn view(&self) -> DeliveryView {
        match self {
            Delivery::AnswerCallbackQuery => DeliveryView::AnswerCallbackQuery,
            Delivery::DeleteMessage => DeliveryView::DeleteMessage,
            Delivery::EditMessageText { text } => DeliveryView::EditMessageText { text: text@ },
            Delivery::SendPhoto { photo, filename } => DeliveryView::SendPhoto {
                photo: photo@,
                filename: process::text_of(*filename),
            },
            Delivery::SendMessage { text } => DeliveryView::SendMessage { text: text@ },
            Delivery::SendMenu { text, keyboard } => DeliveryView::SendMenu {
                text: text@,
                keyboard: keyboard@,
            },
        }
    }
}

/// The steps as the contracts see them.
pub open spec fn deliveries_view(deliveries: Seq<Delivery>) -> Seq<DeliveryView> {
    deliveries.map_values(|delivery: Delivery| delivery@)
}

/// What happens to the message the command came from: it is deleted if the
/// action says so, whatever else the action holds; else it is replaced if
/// there is a replacement; else it stays.
pub open spec fn previous_message_steps(action: ActionView) -> Seq<DeliveryView> {
    if action.delete_previous_message {
        seq![DeliveryView::DeleteMessage]
    } else {
        match action.replacement_text {
            Some(text) => seq![DeliveryView::EditMessageText { text }],
            None => seq![],
        }
    }
}

/// The picture, and its caption as a message of its own unless the caption is empty.
pub open spec fn image_steps(action: ActionView) -> Seq<DeliveryView> {
    match action.image_data {
        Some((photo, caption)) => {
            let picture = seq![DeliveryView::SendPhoto { photo, filename: action.filename }];
            if caption.len() == 0 {
                picture
            } else {
                picture.push(DeliveryView::SendMessage { text: caption })
            }
        },
        None => seq![],
    }
}

/// The steps in which an action goes out: the answer to the pressed
/// button, if a button was pressed; what happens to the previous message;
/// the picture; and last, always, the message with its keyboard.
pub open spec fn deliveries(action: ActionView, answers_query: bool) -> Seq<DeliveryView> {
    let answer = if answers_query {
        seq![DeliveryView::AnswerCallbackQuery]
    } else {
        seq![]
    };
    answer + previous_message_steps(action) + image_steps(action) + seq![
        DeliveryView::SendMenu { text: action.new_message_text, keyboard: action.keyboard },
    ]
}

/// The message with its keyboard goes out on every action, and last; a
/// deletion rules out a replacement; and the pressed button is answered
/// first, if and only if a button was pressed.
pub proof fn lemma_deliveries(action: ActionView, answers_query: bool)
    ensures
        deliveries(action, answers_query).len() >= 1,
        deliveries(action, answers_query).last() == (DeliveryView::SendMenu {
            text: action.new_message_text,
            keyboard: action.keyboard,
        }),
        forall|i: int|
            0 <= i < deliveries(action, answers_query).len() - 1 ==> !(#[trigger] deliveries(
                action,
                answers_query,
            )[i] is SendMenu),
        action.delete_previous_message ==> forall|i: int|
            0 <= i < deliveries(action, answers_query).len() ==> !(#[trigger] deliveries(
                action,
                answers_query,
            )[i] is EditMessageText),
        answers_query <==> deliveries(action, answers_query)[0] is AnswerCallbackQuery,
{
}

/// Lays out the steps in which `action` goes out. `answers_query` says
/// whether the command came from a pressed button.
pub fn process_action(action: Action, answers_query: bool) -> (steps: Vec<Delivery>)
    ensures
        deliveries_view(steps@) == deliveries(action@, answers_query),
{
    let mut steps: Vec<Delivery> = Vec::new();
    let Action {
        image_data,
        delete_previous_message,
        replacement_text,
        new_message_text,
        keyboard,
        filename,
    } = action;
    if answers_query {
        steps.push(Delivery::AnswerCallbackQuery);
    }
    if delete_previous_message {
        steps.push(Delivery::DeleteMessage);
    } else {
        match replacement_text {
            Some(text) => {
                steps.push(Delivery::EditMessageText { text });
            },
            None => {},
        }
    }
    match image_data {
        Some((photo, caption)) => {
            steps.push(Delivery::SendPhoto { photo, filename });
            if !caption.as_str().is_empty() {
                steps.push(Delivery::SendMessage { text: caption });
            }
        },
        None => {},
    }
    steps.push(Delivery::SendMenu { text: new_message_text, keyboard });
    proof {
        assert(deliveries_view(steps@) =~= deliveries(action@, answers_query));
    }
    steps
}

/// What is done when the transport refuses a step, as the contracts see it.
pub enum RecoveryView {
    Ignore,
    Instead(DeliveryView),
    Abort,
}

/// What is done when the transport refuses a step.
#[derive(Debug, Clone, PartialEq, Eq)]
pub enum Recovery {
    /// Nothing: the next step follows as if the step had gone through.
    Ignore,
    /// This step is taken in its place.
    Instead(Delivery),
    /// The action is given up.
    Abort,
}

impl View for Recovery {
    type V = RecoveryView;

    open spec fn view(&self) -> RecoveryView {
        match self {
            Recovery::Ignore => RecoveryView::Ignore,
            Recovery::Instead(delivery) => RecoveryView::Instead(delivery@),
            Recovery::Abort => RecoveryView::Abort,
        }
    }
}

/// A message that cannot be deleted is left where it is; a text that cannot
/// be put in place of the previous message goes out as a message of its
/// own; the refusal of any other step gives the action up.
pub open spec fn recovery_of(delivery: DeliveryView) -> RecoveryView {
    match delivery {
        DeliveryView::DeleteMessage => RecoveryView::Ignore,
        DeliveryView::EditMessageText { text } => RecoveryView::Instead(
            DeliveryView::SendMessage { text },
        ),
        _ => RecoveryView::Abort,
    }
}

impl Delivery {
    /// What is done when the transport refuses this step.
    pub fn on_failure(&self) -> (recovery: Recovery)
        ensures
            recovery@ == recovery_of(self@),
    {
        match self {
            Delivery::DeleteMessage => Recovery::Ignore,
            Delivery::EditMessageText { text } => Recovery::Instead(
                Delivery::SendMessage { text: text.clone() },
            ),
            _ => Recovery::Abort,
        }
    }
}

/// What is to be remembered once a picture is delivered: the file, the
/// language of the chat, and the file id that the transport gave. There is
/// nothing to remember where the action named no file, the transport gave
/// no id, or the chat has no record.
pub open spec fn spec_file_to_remember(
    filename: Option<Seq<char>>,
    file_id: Option<Seq<char>>,
    language: Option<process::Language>,
) -> Option<(Seq<char>, process::Language, Seq<char>)> {
    match (filename, file_id, language) {
        (Some(name), Some(id), Some(language)) => Some((name, language, id)),
        _ => None,
    }
}

/// The view of what is to be remembered.
pub open spec fn remembered_view(remembered: Option<(String, process::Language, String)>) -> Option<
    (Seq<char>, process::Language, Seq<char>),
> {
    match remembered {
        Some((name, language, id)) => Some((name@, language, id@)),
        None => None,
    }
}

/// Decides what is to be remembered once a picture is delivered.
pub fn file_to_remember(
    filename: Option<String>,
    file_id: Option<String>,
    language: Option<process::Language>,
) -> (remembered: Option<(String, process::Language, String)>)
    ensures
        remembered_view(remembered) == spec_file_to_remember(
            process::text_of(filename),
            process::text_of(file_id),
            language,
        ),
{
    match (filename, file_id, language) {
        (Some(name), Some(id), Some(language)) => Some((name, language, id)),
        _ => None,
    }
}

/// The store after the picture of the file `filename` was delivered to the
/// chat `chat_id` and got the file id `file_id` from the transport: the id
/// is cached for the language of the chat, if there is anything to remember.
pub open spec fn photo_remembered(
    store: StoreView,
    filename: Option<Seq<char>>,
    file_id: Option<Seq<char>>,
    chat_id: Seq<char>,
) -> StoreView {
    match spec_file_to_remember(filename, file_id, language_of(store, chat_id)) {
        Some((name, language, id)) => store.with_file_id(name, language, id),
        None => store,
    }
}

/// The language of the chat `chat_id`, if it has a record.
pub fn chat_language(chat_id: &str, store: &Store) -> (language: Option<process::Language>)
    requires
        store.wf(),
    ensures
        language == language_of(store@, chat_id@),
{
    match get_subscriber_id(chat_id, store) {
        Some(subscriber_id) => {
            proof {
                lemma_subscriber_id(store@, chat_id@);
            }
            match get_language(subscriber_id, store) {
                Ok(language) => Some(language),
                Err(_) => None,
            }
        },
        None => None,
    }
}

/// Records that the picture of the file `filename` was delivered to the
/// chat `chat_id` and got the file id `file_id`.
pub fn photo_delivered(
    filename: Option<String>,
    file_id: Option<String>,
    chat_id: &str,
    store: &mut Store,
)
    requires
        old(store).wf(),
    ensures
        final(store).wf(),
        final(store)@ == photo_remembered(
            old(store)@,
            process::text_of(filename),
            process::text_of(file_id),
            chat_id@,
        ),
{
    let language = chat_language(chat_id, store);
    match file_to_remember(filename, file_id, language) {
        Some((name, language, id)) => {
            set_file_id(name.as_str(), language, id, store);
        },
        None => {},
    }
}

} // verus!
