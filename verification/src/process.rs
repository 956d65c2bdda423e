//! The resolver and what it works with: languages, description formats and
//! cards; keyboards and actions; and the answer to each command, first as a
//! function of what the store held, then against the store itself.

use crate::database_interactions::{
    create_subscriber, create_subscriber_at, created, draw_chosen, get_descriptions_format,
    get_language, get_subscriber_id, lemma_draw, lemma_isolation, lemma_subscriber_id,
    lemma_with_subscriber, random_card_file_name, set_description, set_language,
    shuffle_cards_back, Store, StoreError, StoreView,
};
use crate::dealer::{can_deal, exhausted};
use crate::resolver::{
    Progress, Reply, ReplyView, Request, ResolveError, Resolver, Stage,
};
use crate::telegram_interactions::{Command, Mutation};
use crate::translations;
use crate::translations::{MissingTranslation, Translation, TranslationView};
use vstd::prelude::*;
use vstd::string::StringExecFns;

verus! {

/// The languages a subscriber can choose between.
#[derive(Debug, Clone, Copy, Hash, PartialEq, Eq, Structural)]
pub enum Language {
    En,
    Ru,
}

impl Language {
    /// The short code of the language; picture files live in a directory of that name.
    pub open spec fn code(self) -> Seq<char> {
        match self {
            Language::En => "en"@,
            Language::Ru => "ru"@,
        }
    }

    pub fn to_string(&self) -> (code: String)
        ensures
            code@ == self.code(),
    {
        match self {
            Language::En => "en".to_owned(),
            Language::Ru => "ru".to_owned(),
        }
    }

    /// The language with the given code, if the code is that of a language.
    pub open spec fn spec_from_code(code: Seq<char>) -> Option<Language> {
        if code == "en"@ {
            Some(Language::En)
        } else if code == "ru"@ {
            Some(Language::Ru)
        } else {
            None
        }
    }

    /// Reads a stored language code. Any text but the two codes is rejected.
    pub fn from_code(code: &str) -> (language: Option<Language>)
        ensures
            language == Self::spec_from_code(code@),
    {
        if code.eq("en") {
            Some(Language::En)
        } else if code.eq("ru") {
            Some(Language::Ru)
        } else {
            None
        }
    }

    /// Every language is read back from its own code.
    pub proof fn lemma_code_round_trip(language: Language)
        ensures
            Self::spec_from_code(language.code()) == Some(language),
    {
        reveal_strlit("en");
        reveal_strlit("ru");
        assert("en"@[0] != "ru"@[0]);
    }
}

/// Stored code of [`DescriptionsFormat::Full`].
pub const FULL_DESCRIPTIONS: i32 = 0;

/// Stored code of [`DescriptionsFormat::NamesOnly`].
pub const NAMES_ONLY: i32 = 1;

/// Stored code of [`DescriptionsFormat::NoDescriptions`].
pub const NO_DESCRIPTIONS: i32 = 2;

/// How much text accompanies a dealt card.
#[derive(Debug, Clone, Copy, Hash, PartialEq, Eq, Structural)]
pub enum DescriptionsFormat {
    /// The name, a line break, the description.
    Full,
    /// The name alone.
    NamesOnly,
    /// No text at all.
    NoDescriptions,
}

impl DescriptionsFormat {
    /// The integer under which the format is stored.
    pub open spec fn spec_code(self) -> int {
        match self {
            DescriptionsFormat::Full => FULL_DESCRIPTIONS as int,
            DescriptionsFormat::NamesOnly => NAMES_ONLY as int,
            DescriptionsFormat::NoDescriptions => NO_DESCRIPTIONS as int,
        }
    }

    /// The format stored under `code`, if `code` is one of the three known codes.
    pub open spec fn spec_from_code(code: int) -> Option<DescriptionsFormat> {
        if code == FULL_DESCRIPTIONS {
            Some(DescriptionsFormat::Full)
        } else if code == NAMES_ONLY {
            Some(DescriptionsFormat::NamesOnly)
        } else if code == NO_DESCRIPTIONS {
            Some(DescriptionsFormat::NoDescriptions)
        } else {
            None
        }
    }

    pub fn code(self) -> (code: i32)
        ensures
            code == self.spec_code(),
    {
        match self {
            DescriptionsFormat::Full => FULL_DESCRIPTIONS,
            DescriptionsFormat::NamesOnly => NAMES_ONLY,
            DescriptionsFormat::NoDescriptions => NO_DESCRIPTIONS,
        }
    }

    /// Reads a stored code. Any code but the three known ones is rejected, never coerced.
    pub fn from_code(code: i32) -> (format: Option<DescriptionsFormat>)
        ensures
            format == Self::spec_from_code(code as int),
    {
        if code == FULL_DESCRIPTIONS {
            Some(DescriptionsFormat::Full)
        } else if code == NAMES_ONLY {
            Some(DescriptionsFormat::NamesOnly)
        } else if code == NO_DESCRIPTIONS {
            Some(DescriptionsFormat::NoDescriptions)
        } else {
            None
        }
    }

    /// Every format is read back from its own code, and a code that is read
    /// back is the code of the format it gives.
    pub proof fn lemma_code_round_trip(format: DescriptionsFormat, code: int)
        ensures
            Self::spec_from_code(format.spec_code()) == Some(format),
            Self::spec_from_code(code) matches Some(f) ==> f.spec_code() == code,
    {
    }
}

/// The text of an optional string.
pub open spec fn text_of(text: Option<String>) -> Option<Seq<char>> {
    match text {
        Some(t) => Some(t@),
        None => None,
    }
}

pub fn clone_text(text: &Option<String>) -> (copy: Option<String>)
    ensures
        copy == *text,
{
    match text {
        Some(t) => Some(t.clone()),
        None => None,
    }
}

/// A catalog entry as the contracts see it.
pub struct CardView {
    pub id: i32,
    pub filename: Seq<char>,
    pub name_en: Seq<char>,
    pub description_en: Seq<char>,
    pub name_ru: Seq<char>,
    pub description_ru: Seq<char>,
    pub telegram_file_id_en: Option<Seq<char>>,
    pub telegram_file_id_ru: Option<Seq<char>>,
}

impl CardView {
    pub open spec fn name(self, language: Language) -> Seq<char> {
        match language {
            Language::En => self.name_en,
            Language::Ru => self.name_ru,
        }
    }

    pub open spec fn description(self, language: Language) -> Seq<char> {
        match language {
            Language::En => self.description_en,
            Language::Ru => self.description_ru,
        }
    }

    pub open spec fn file_id(self, language: Language) -> Option<Seq<char>> {
        match language {
            Language::En => self.telegram_file_id_en,
            Language::Ru => self.telegram_file_id_ru,
        }
    }

    /// The text that goes out with the card: name, line break and description
    /// in full, the name alone, or nothing.
    pub open spec fn message_text(
        self,
        language: Language,
        descriptions: DescriptionsFormat,
    ) -> Seq<char> {
        match descriptions {
            DescriptionsFormat::Full => self.name(language) + seq!['\n'] + self.description(
                language,
            ),
            DescriptionsFormat::NamesOnly => self.name(language),
            DescriptionsFormat::NoDescriptions => Seq::empty(),
        }
    }

    /// What the subscriber gets when this card is dealt.
    pub open spec fn data(
        self,
        language: Language,
        descriptions: DescriptionsFormat,
    ) -> CardDataView {
        CardDataView {
            file_id: self.file_id(language),
            filename: self.filename,
            message_text: self.message_text(language, descriptions),
        }
    }
}

/// One entry of the catalog. Only the two cached file ids ever change.
#[derive(Debug, Clone, PartialEq, Eq)]
pub struct Card {
    pub id: i32,
    pub filename: String,
    pub name_en: String,
    pub description_en: String,
    pub name_ru: String,
    pub description_ru: String,
    pub telegram_file_id_en: Option<String>,
    pub telegram_file_id_ru: Option<String>,
}

impl View for Card {
    type V = CardView;

    open spec fn view(&self) -> CardView {
        CardView {
            id: self.id,
            filename: self.filename@,
            name_en: self.name_en@,
            description_en: self.description_en@,
            name_ru: self.name_ru@,
            description_ru: self.description_ru@,
            telegram_file_id_en: text_of(self.telegram_file_id_en),
            telegram_file_id_ru: text_of(self.telegram_file_id_ru),
        }
    }
}

impl Card {
    pub fn get_name(&self, language: Language) -> (name: String)
        ensures
            name@ == self@.name(language),
    {
        match language {
            Language::En => self.name_en.clone(),
            Language::Ru => self.name_ru.clone(),
        }
    }

    pub fn get_description(&self, language: Language) -> (description: String)
        ensures
            description@ == self@.description(language),
    {
        match language {
            Language::En => self.description_en.clone(),
            Language::Ru => self.description_ru.clone(),
        }
    }

    pub fn get_file_id(&self, language: Language) -> (file_id: Option<String>)
        ensures
            text_of(file_id) == self@.file_id(language),
    {
        match language {
            Language::En => clone_text(&self.telegram_file_id_en),
            Language::Ru => clone_text(&self.telegram_file_id_ru),
        }
    }

    /// A copy of the card.
    pub fn duplicate(&self) -> (copy: Card)
        ensures
            copy@ == self@,
    {
        Card {
            id: self.id,
            filename: self.filename.clone(),
            name_en: self.name_en.clone(),
            description_en: self.description_en.clone(),
            name_ru: self.name_ru.clone(),
            description_ru: self.description_ru.clone(),
            telegram_file_id_en: clone_text(&self.telegram_file_id_en),
            telegram_file_id_ru: clone_text(&self.telegram_file_id_ru),
        }
    }

    /// The text that accompanies the card in `language` under `descriptions`.
    pub fn message_text(&self, language: Language, descriptions: DescriptionsFormat) -> (text:
        String)
        ensures
            text@ == self@.message_text(language, descriptions),
    {
        match descriptions {
            DescriptionsFormat::Full => {
                let name = self.get_name(language);
                let description = self.get_description(language);
                proof {
                    reveal_strlit("\n");
                    assert("\n"@ =~= seq!['\n']);
                }
                name.concat("\n").concat(description.as_str())
            },
            DescriptionsFormat::NamesOnly => self.get_name(language),
            DescriptionsFormat::NoDescriptions => String::new(),
        }
    }

    /// The payload of the card once it is dealt: the cached file id of the
    /// language if there is one, the file name, and the text.
    pub fn card_data(&self, language: Language, descriptions: DescriptionsFormat) -> (data:
        CardData)
        ensures
            data@ == self@.data(language, descriptions),
    {
        CardData {
            file_id: self.get_file_id(language),
            filename: self.filename.clone(),
            message_text: self.message_text(language, descriptions),
        }
    }
}

/// A dealt card as the contracts see it.
pub struct CardDataView {
    pub file_id: Option<Seq<char>>,
    pub filename: Seq<char>,
    pub message_text: Seq<char>,
}

/// What is shown of a dealt card.
#[derive(Debug, Clone, PartialEq, Eq)]
pub struct CardData {
    pub file_id: Option<String>,
    pub filename: String,
    pub message_text: String,
}

impl View for CardData {
    type V = CardDataView;

    open spec fn view(&self) -> CardDataView {
        CardDataView {
            file_id: text_of(self.file_id),
            filename: self.filename@,
            message_text: self.message_text@,
        }
    }
}

/// The payload of an optional dealt card as the contracts see it.
pub open spec fn card_data_view(data: Option<CardData>) -> Option<CardDataView> {
    match data {
        Some(d) => Some(d@),
        None => None,
    }
}

/// A keyboard button as the contracts see it.
pub struct ButtonView {
    pub text: Seq<char>,
    pub callback_data: Seq<char>,
}

/// A button of an inline keyboard: the text it shows, and the data that
/// comes back when it is pressed.
#[derive(Debug, Clone, PartialEq, Eq)]
pub struct Button {
    pub text: String,
    pub callback_data: String,
}

impl View for Button {
    type V = ButtonView;

    open spec fn view(&self) -> ButtonView {
        ButtonView { text: self.text@, callback_data: self.callback_data@ }
    }
}

/// The buttons of a row.
pub open spec fn row_view(row: Seq<Button>) -> Seq<ButtonView> {
    row.map_values(|button: Button| button@)
}

/// An inline keyboard: rows of buttons, from top to bottom.
#[derive(Debug, Clone, PartialEq, Eq)]
pub struct Keyboard {
    pub inline_keyboard: Vec<Vec<Button>>,
}

impl View for Keyboard {
    type V = Seq<Seq<ButtonView>>;

    open spec fn view(&self) -> Seq<Seq<ButtonView>> {
        self.inline_keyboard@.map_values(|row: Vec<Button>| row_view(row@))
    }
}

/// The keyboard with one row for each option, in order; the row holds one
/// button, which shows the option and sends it back when pressed.
pub open spec fn keyboard_of(options: Seq<Seq<char>>) -> Seq<Seq<ButtonView>> {
    Seq::new(
        options.len(),
        |i: int| seq![ButtonView { text: options[i], callback_data: options[i] }],
    )
}

/// The texts of a list of options.
pub open spec fn options_view(options: Seq<&'static str>) -> Seq<Seq<char>> {
    options.map_values(|option: &'static str| option@)
}

pub fn make_keyboard(options: &Vec<&'static str>) -> (keyboard: Keyboard)
    ensures
        keyboard@ == keyboard_of(options_view(options@)),
{
    let mut rows: Vec<Vec<Button>> = Vec::new();
    let mut i: usize = 0;
    while i < options.len()
        invariant
            i <= options.len(),
            rows@.len() == i,
            forall|k: int|
                0 <= k < i ==> row_view((#[trigger] rows@[k])@) == seq![
                    ButtonView { text: options@[k]@, callback_data: options@[k]@ },
                ],
        decreases options.len() - i,
    {
        let option = options[i];
        let button = Button { text: option.to_owned(), callback_data: option.to_owned() };
        let mut row: Vec<Button> = Vec::new();
        row.push(button);
        proof {
            assert(row_view(row@) =~= seq![
                ButtonView { text: options@[i as int]@, callback_data: options@[i as int]@ },
            ]);
        }
        rows.push(row);
        i += 1;
    }
    let keyboard = Keyboard { inline_keyboard: rows };
    proof {
        assert(keyboard@ =~= keyboard_of(options_view(options@)));
    }
    keyboard
}

/// The menus of the bot.
#[derive(Debug, Clone, Copy, PartialEq, Eq, Structural)]
pub enum Menu {
    Main,
    Settings,
    Languages,
    Descriptions,
}

/// The options of a menu in a language, from top to bottom. The names of
/// the two languages read the same in every language.
pub open spec fn menu_options(menu: Menu, language: Language) -> Seq<Seq<char>> {
    match (menu, language) {
        (Menu::Main, Language::Ru) => seq![
            translations::CARD_RU@,
            translations::SHUFFLE_RU@,
            translations::SETTINGS_RU@,
            translations::ABOUT_RU@,
        ],
        (Menu::Main, Language::En) => seq![
            translations::CARD_EN@,
            translations::SHUFFLE_EN@,
            translations::SETTINGS_EN@,
            translations::ABOUT_EN@,
        ],
        (Menu::Settings, Language::Ru) => seq![
            translations::LANGUAGE_RU@,
            translations::DESCRIPTIONS_RU@,
            translations::MAIN_MENU_RU@,
        ],
        (Menu::Settings, Language::En) => seq![
            translations::LANGUAGE_EN@,
            translations::DESCRIPTIONS_EN@,
            translations::MAIN_MENU_EN@,
        ],
        (Menu::Languages, Language::Ru) => seq![
            translations::EN_EN@,
            translations::RU_RU@,
            translations::SETTINGS_RU@,
        ],
        (Menu::Languages, Language::En) => seq![
            translations::EN_EN@,
            translations::RU_RU@,
            translations::SETTINGS_EN@,
        ],
        (Menu::Descriptions, Language::Ru) => seq![
            translations::FULL_DESCRIPTIONS_RU@,
            translations::NAMES_ONLY_RU@,
            translations::NO_DESCRIPTIONS_RU@,
            translations::SETTINGS_RU@,
        ],
        (Menu::Descriptions, Language::En) => seq![
            translations::FULL_DESCRIPTIONS_EN@,
            translations::NAMES_ONLY_EN@,
            translations::NO_DESCRIPTIONS_EN@,
            translations::SETTINGS_EN@,
        ],
    }
}

pub fn make_main_keyboard(language: Language) -> (keyboard: Keyboard)
    ensures
        keyboard@ == keyboard_of(menu_options(Menu::Main, language)),
{
    let v = match language {
        Language::Ru => {
            vec![
                translations::CARD_RU,
                translations::SHUFFLE_RU,
                translations::SETTINGS_RU,
                translations::ABOUT_RU,
            ]
        },
        Language::En => {
            vec![
                translations::CARD_EN,
                translations::SHUFFLE_EN,
                translations::SETTINGS_EN,
                translations::ABOUT_EN,
            ]
        },
    };
    proof {
        assert(options_view(v@) =~= menu_options(Menu::Main, language));
    }
    make_keyboard(&v)
}

pub fn make_settings_keyboard(language: Language) -> (keyboard: Keyboard)
    ensures
        keyboard@ == keyboard_of(menu_options(Menu::Settings, language)),
{
    let v = match language {
        Language::Ru => {
            vec![
                translations::LANGUAGE_RU,
                translations::DESCRIPTIONS_RU,
                translations::MAIN_MENU_RU,
            ]
        },
        Language::En => {
            vec![
                translations::LANGUAGE_EN,
                translations::DESCRIPTIONS_EN,
                translations::MAIN_MENU_EN,
            ]
        },
    };
    proof {
        assert(options_view(v@) =~= menu_options(Menu::Settings, language));
    }
    make_keyboard(&v)
}

pub fn make_languages_keyboard(language: Language) -> (keyboard: Keyboard)
    ensures
        keyboard@ == keyboard_of(menu_options(Menu::Languages, language)),
{
    let v = match language {
        Language::Ru => {
            vec![translations::EN_EN, translations::RU_RU, translations::SETTINGS_RU]
        },
        Language::En => {
            vec![translations::EN_EN, translations::RU_RU, translations::SETTINGS_EN]
        },
    };
    proof {
        assert(options_view(v@) =~= menu_options(Menu::Languages, language));
    }
    make_keyboard(&v)
}

pub fn make_descriptions_keyboard(language: Language) -> (keyboard: Keyboard)
    ensures
        keyboard@ == keyboard_of(menu_options(Menu::Descriptions, language)),
{
    let v = match language {
        Language::Ru => {
            vec![
                translations::FULL_DESCRIPTIONS_RU,
                translations::NAMES_ONLY_RU,
                translations::NO_DESCRIPTIONS_RU,
                translations::SETTINGS_RU,
            ]
        },
        Language::En => {
            vec![
                translations::FULL_DESCRIPTIONS_EN,
                translations::NAMES_ONLY_EN,
                translations::NO_DESCRIPTIONS_EN,
                translations::SETTINGS_EN,
            ]
        },
    };
    proof {
        assert(options_view(v@) =~= menu_options(Menu::Descriptions, language));
    }
    make_keyboard(&v)
}

/// Where a picture comes from, as the contracts see it.
pub enum ImageSourceView {
    FileId(Seq<char>),
    File(Seq<char>),
}

/// Where the picture of a card comes from.
#[derive(Debug, Clone, PartialEq, Eq)]
pub enum ImageSource {
    /// A file that the transport holds already, by the id it gave.
    FileId(String),
    /// A file of this machine, by its path.
    File(String),
}

impl View for ImageSource {
    type V = ImageSourceView;

    open spec fn view(&self) -> ImageSourceView {
        match self {
            ImageSource::FileId(id) => ImageSourceView::FileId(id@),
            ImageSource::File(path) => ImageSourceView::File(path@),
        }
    }
}

/// The path of the picture file `filename` in `language`.
pub open spec fn picture_path(language: Language, filename: Seq<char>) -> Seq<char> {
    "pictures/"@ + language.code() + "/"@ + filename
}

/// The picture of a dealt card: the cached file if there is one, else the
/// file of the language.
pub open spec fn image_of(card: CardDataView, language: Language) -> ImageSourceView {
    match card.file_id {
        Some(id) => ImageSourceView::FileId(id),
        None => ImageSourceView::File(picture_path(language, card.filename)),
    }
}

/// An action as the contracts see it.
pub struct ActionView {
    pub image_data: Option<(ImageSourceView, Seq<char>)>,
    pub delete_previous_message: bool,
    pub replacement_text: Option<Seq<char>>,
    pub new_message_text: Seq<char>,
    pub keyboard: Seq<Seq<ButtonView>>,
    pub filename: Option<Seq<char>>,
}

/// What the bot does in answer to one command.
#[derive(Debug, Clone, PartialEq, Eq)]
pub struct Action {
    /// A picture and its caption, to be sent before the message.
    pub image_data: Option<(ImageSource, String)>,
    /// The message that the command came from goes away.
    pub delete_previous_message: bool,
    /// The message that the command came from gets this text instead.
    pub replacement_text: Option<String>,
    /// The text of the message that always goes out last.
    pub new_message_text: String,
    /// The keyboard under that message.
    pub keyboard: Keyboard,
    /// The file of the card sent, whose file id is to be remembered once
    /// the picture is delivered.
    pub filename: Option<String>,
}

/// The picture and caption of an action.
pub open spec fn image_data_view(image_data: Option<(ImageSource, String)>) -> Option<
    (ImageSourceView, Seq<char>),
> {
    match image_data {
        Some((source, caption)) => Some((source@, caption@)),
        None => None,
    }
}

impl View for Action {
    type V = ActionView;

    open spec fn view(&self) -> ActionView {
        ActionView {
            image_data: image_data_view(self.image_data),
            delete_previous_message: self.delete_previous_message,
            replacement_text: text_of(self.replacement_text),
            new_message_text: self.new_message_text@,
            keyboard: self.keyboard@,
            filename: text_of(self.filename),
        }
    }
}

impl Action {
    /// An action that sends one message with its keyboard and nothing else.
    pub fn new(new_message_text: String, keyboard: Keyboard) -> (action: Action)
        ensures
            action@ == (ActionView {
                image_data: None,
                delete_previous_message: false,
                replacement_text: None,
                new_message_text: new_message_text@,
                keyboard: keyboard@,
                filename: None,
            }),
    {
        Action {
            image_data: None,
            delete_previous_message: false,
            replacement_text: None,
            new_message_text: new_message_text,
            keyboard: keyboard,
            filename: None,
        }
    }

    pub fn set_image_data(self, image_data: (ImageSource, String)) -> (action: Action)
        ensures
            action@ == (ActionView {
                image_data: Some((image_data.0@, image_data.1@)),
                ..self@
            }),
    {
        let mut action = self;
        action.image_data = Some(image_data);
        action
    }

    pub fn set_delete_previous_message(self, delete_previous_message: bool) -> (action: Action)
        ensures
            action@ == (ActionView { delete_previous_message, ..self@ }),
    {
        let mut action = self;
        action.delete_previous_message = delete_previous_message;
        action
    }

    pub fn set_replacement_text(self, replacement_text: String) -> (action: Action)
        ensures
            action@ == (ActionView { replacement_text: Some(replacement_text@), ..self@ }),
    {
        let mut action = self;
        action.replacement_text = Some(replacement_text);
        action
    }

    pub fn set_filename(self, filename: String) -> (action: Action)
        ensures
            action@ == (ActionView { filename: Some(filename@), ..self@ }),
    {
        let mut action = self;
        action.filename = Some(filename);
        action
    }
}

/// The language in which a command is answered: the one it sets, if it
/// sets one, else the language of the subscriber.
pub open spec fn spec_language_after(command: Command, language: Language) -> Language {
    match command {
        Command::En => Language::En,
        Command::Ru => Language::Ru,
        _ => language,
    }
}

/// The menu that is shown under the answer to a command.
pub open spec fn spec_menu_of(command: Command) -> Menu {
    match command {
        Command::Settings => Menu::Settings,
        Command::Language | Command::En | Command::Ru => Menu::Languages,
        Command::Description
        | Command::FullDescription
        | Command::NamesOnly
        | Command::NoDescription => Menu::Descriptions,
        _ => Menu::Main,
    }
}

/// The key of the text of the message that answers a command. A request
/// for a card is answered differently when no card is left.
pub open spec fn spec_message_key(command: Command, dealt: bool) -> Seq<char> {
    match command {
        Command::Start => "start"@,
        Command::Help => "help"@,
        Command::About | Command::MainMenu | Command::Shuffle => "choose_your_action"@,
        Command::Card => if dealt {
            "choose_your_action"@
        } else {
            "no_cards_left"@
        },
        Command::Settings => "settings"@,
        Command::Language | Command::En | Command::Ru => "language_settings"@,
        Command::Description
        | Command::FullDescription
        | Command::NamesOnly
        | Command::NoDescription => "descriptions_settings"@,
    }
}

/// The key of the text that replaces the message a command came from, for
/// the commands that confirm what they did in this way.
pub open spec fn spec_replacement_key(command: Command) -> Option<Seq<char>> {
    match command {
        Command::About => Some("description"@),
        Command::Shuffle => Some("cards_shuffled_back"@),
        Command::En => Some("language_set_to_english"@),
        Command::Ru => Some("language_set_to_russian"@),
        Command::FullDescription => Some("full_descriptions_will_be_shown"@),
        Command::NamesOnly => Some("names_only_will_be_shown"@),
        Command::NoDescription => Some("no_descriptions"@),
        _ => None,
    }
}

/// Whether the message a command came from is deleted: it is for the
/// commands that open a menu or deal a card.
pub open spec fn spec_deletes_previous_message(command: Command) -> bool {
    match command {
        Command::Help
        | Command::MainMenu
        | Command::Card
        | Command::Settings
        | Command::Language
        | Command::Description => true,
        _ => false,
    }
}

/// The answer to `command` from a subscriber whose language was `language`
/// when the command came, after the store has been changed as the command
/// asks; `card` is what was dealt, for a request for a card. Both texts are
/// looked up in the language in which the command is answered, and a key
/// that is missing there fails the whole answer.
pub open spec fn action_of(
    command: Command,
    language: Language,
    card: Option<CardDataView>,
    translation: TranslationView,
) -> Result<ActionView, MissingTranslation> {
    let language = spec_language_after(command, language);
    let dealt = command == Command::Card && card is Some;
    let text = translation.lookup(spec_message_key(command, dealt), language);
    let replacement = match spec_replacement_key(command) {
        Some(key) => translation.lookup(key, language),
        None => None,
    };
    if text is None || (spec_replacement_key(command) is Some && replacement is None) {
        Err(MissingTranslation)
    } else {
        Ok(
            ActionView {
                image_data: if dealt {
                    Some((image_of(card->0, language), card->0.message_text))
                } else {
                    None
                },
                delete_previous_message: spec_deletes_previous_message(command),
                replacement_text: replacement,
                new_message_text: text->0,
                keyboard: keyboard_of(menu_options(spec_menu_of(command), language)),
                filename: if dealt {
                    Some(card->0.filename)
                } else {
                    None
                },
            },
        )
    }
}

#[verifier::when_used_as_spec(spec_language_after)]
pub fn language_after(command: Command, language: Language) -> (after: Language)
    ensures
        after == spec_language_after(command, language),
{
    match command {
        Command::En => Language::En,
        Command::Ru => Language::Ru,
        _ => language,
    }
}

#[verifier::when_used_as_spec(spec_menu_of)]
pub fn menu_of(command: Command) -> (menu: Menu)
    ensures
        menu == spec_menu_of(command),
{
    match command {
        Command::Settings => Menu::Settings,
        Command::Language | Command::En | Command::Ru => Menu::Languages,
        Command::Description
        | Command::FullDescription
        | Command::NamesOnly
        | Command::NoDescription => Menu::Descriptions,
        _ => Menu::Main,
    }
}

pub fn message_key(command: Command, dealt: bool) -> (key: &'static str)
    ensures
        key@ == spec_message_key(command, dealt),
{
    match command {
        Command::Start => "start",
        Command::Help => "help",
        Command::About | Command::MainMenu | Command::Shuffle => "choose_your_action",
        Command::Card => if dealt {
            "choose_your_action"
        } else {
            "no_cards_left"
        },
        Command::Settings => "settings",
        Command::Language | Command::En | Command::Ru => "language_settings",
        Command::Description
        | Command::FullDescription
        | Command::NamesOnly
        | Command::NoDescription => "descriptions_settings",
    }
}

/// The key of an optional key.
pub open spec fn key_view(key: Option<&'static str>) -> Option<Seq<char>> {
    match key {
        Some(k) => Some(k@),
        None => None,
    }
}

pub fn replacement_key(command: Command) -> (key: Option<&'static str>)
    ensures
        key_view(key) == spec_replacement_key(command),
{
    match command {
        Command::About => Some("description"),
        Command::Shuffle => Some("cards_shuffled_back"),
        Command::En => Some("language_set_to_english"),
        Command::Ru => Some("language_set_to_russian"),
        Command::FullDescription => Some("full_descriptions_will_be_shown"),
        Command::NamesOnly => Some("names_only_will_be_shown"),
        Command::NoDescription => Some("no_descriptions"),
        _ => None,
    }
}

#[verifier::when_used_as_spec(spec_deletes_previous_message)]
pub fn deletes_previous_message(command: Command) -> (deletes: bool)
    ensures
        deletes == spec_deletes_previous_message(command),
{
    match command {
        Command::Help
        | Command::MainMenu
        | Command::Card
        | Command::Settings
        | Command::Language
        | Command::Description => true,
        _ => false,
    }
}

/// The keyboard of a menu in a language.
pub fn make_menu_keyboard(menu: Menu, language: Language) -> (keyboard: Keyboard)
    ensures
        keyboard@ == keyboard_of(menu_options(menu, language)),
{
    match menu {
        Menu::Main => make_main_keyboard(language),
        Menu::Settings => make_settings_keyboard(language),
        Menu::Languages => make_languages_keyboard(language),
        Menu::Descriptions => make_descriptions_keyboard(language),
    }
}

/// The picture of a dealt card.
pub fn card_image(card: &CardData, language: Language) -> (image: ImageSource)
    ensures
        image@ == image_of(card@, language),
{
    match &card.file_id {
        Some(file_id) => ImageSource::FileId(file_id.clone()),
        None => {
            let code = language.to_string();
            let path = "pictures/".to_owned().concat(code.as_str()).concat("/").concat(
                card.filename.as_str(),
            );
            ImageSource::File(path)
        },
    }
}

/// The view of the outcome of an answer.
pub open spec fn action_view(action: Result<Action, MissingTranslation>) -> Result<
    ActionView,
    MissingTranslation,
> {
    match action {
        Ok(a) => Ok(a@),
        Err(e) => Err(e),
    }
}

/// Builds the answer to a command once the store has been changed as the
/// command asks. `language` is the language of the subscriber when the
/// command came; `card` is what was dealt, and counts only for a request
/// for a card.
pub fn respond(
    command: Command,
    language: Language,
    card: Option<CardData>,
    translation: &Translation,
) -> (action: Result<Action, MissingTranslation>)
    ensures
        action_view(action) == action_of(command, language, card_data_view(card), translation@),
{
    let language = language_after(command, language);
    let card = match command {
        Command::Card => card,
        _ => None,
    };
    let text = match translation.get(message_key(command, card.is_some()), language) {
        Ok(text) => text,
        Err(e) => {
            return Err(e);
        },
    };
    let mut action = Action::new(text, make_menu_keyboard(menu_of(command), language));
    action = action.set_delete_previous_message(deletes_previous_message(command));
    match replacement_key(command) {
        Some(key) => {
            match translation.get(key, language) {
                Ok(replacement) => {
                    action = action.set_replacement_text(replacement);
                },
                Err(e) => {
                    return Err(e);
                },
            }
        },
        None => {},
    }
    match card {
        Some(card_data) => {
            let input_file = card_image(&card_data, language);
            action = action.set_image_data((input_file, card_data.message_text)).set_filename(
                card_data.filename,
            );
        },
        None => {},
    }
    Ok(action)
}

/// What first contact with the chat `chat_id` gives: the identifier of its
/// record, which is created at the moment `created_at` if the chat had none.
pub open spec fn registered(store: StoreView, chat_id: Seq<char>, created_at: i64) -> (
    StoreView,
    Result<i32, StoreError>,
) {
    match store.subscriber_id(chat_id) {
        Some(id) => (store, Ok(id)),
        None => created(store, chat_id, created_at),
    }
}

/// Finds the record of the chat, or creates it with `created_at` as its
/// moment of creation.
pub fn check_subscriber_at(chat_id: String, created_at: i64, store: &mut Store) -> (id: Result<
    i32,
    StoreError,
>)
    requires
        old(store).wf(),
    ensures
        final(store).wf(),
        (final(store)@, id) == registered(old(store)@, chat_id@, created_at),
{
    match get_subscriber_id(chat_id.as_str(), store) {
        Some(id) => Ok(id),
        None => create_subscriber_at(chat_id, created_at, store),
    }
}

/// Finds the record of the chat, or creates it at the present moment.
pub fn check_subscriber(chat_id: String, store: &mut Store) -> (id: Result<i32, StoreError>)
    requires
        old(store).wf(),
    ensures
        final(store).wf(),
        exists|created_at: i64|
            (final(store)@, id) == #[trigger] registered(old(store)@, chat_id@, created_at),
{
    match get_subscriber_id(chat_id.as_str(), store) {
        Some(id) => {
            proof {
                assert((store@, Ok::<i32, StoreError>(id)) == registered(old(store)@, chat_id@, 0));
            }
            Ok(id)
        },
        None => {
            let id = create_subscriber(chat_id, store);
            proof {
                let created_at = choose|created_at: i64|
                    (store@, id) == #[trigger] created(old(store)@, chat_id@, created_at);
                assert((store@, id) == registered(old(store)@, chat_id@, created_at));
            }
            id
        },
    }
}

/// The store after `mutation` was applied for `subscriber_id`, and the card
/// that was dealt, if the mutation is a draw and the card at `position`
/// could be dealt. No mutation touches the record of another subscriber.
pub open spec fn applied(
    store: StoreView,
    mutation: Mutation,
    subscriber_id: i32,
    position: int,
    language: Language,
    descriptions: DescriptionsFormat,
) -> (StoreView, Option<CardDataView>) {
    match mutation {
        Mutation::Nothing => (store, None),
        Mutation::Draw => store.draw(subscriber_id, position, language, descriptions),
        Mutation::ShuffleCardsBack => (store.with_drawn_cards(subscriber_id, Seq::empty()), None),
        Mutation::SetLanguage(l) => (store.with_language(subscriber_id, l), None),
        Mutation::SetDescription(f) => (store.with_descriptions_format(subscriber_id, f), None),
    }
}

/// The position of a card that `subscriber_id` has not drawn, or any
/// position at all if it has drawn them all.
pub open spec fn fairly_chosen(store: StoreView, subscriber_id: i32, position: int) -> bool {
    let drawn = store.subscriber(subscriber_id).drawn_cards;
    can_deal(store.cards, drawn, position) || exhausted(store.cards, drawn)
}

/// The position that a choice names.
pub open spec fn position_of(chosen: Option<usize>) -> int {
    match chosen {
        Some(position) => position as int,
        None => -1,
    }
}

/// Applies `mutation` for `subscriber_id`; for a draw, the card at the
/// chosen position is dealt if it can be.
pub fn apply_chosen(
    mutation: Mutation,
    language: Language,
    descriptions: DescriptionsFormat,
    subscriber_id: i32,
    chosen: Option<usize>,
    store: &mut Store,
) -> (card: Result<Option<CardData>, StoreError>)
    requires
        old(store).wf(),
    ensures
        final(store).wf(),
        match card {
            Ok(data) => (final(store)@, card_data_view(data)) == applied(
                old(store)@,
                mutation,
                subscriber_id,
                position_of(chosen),
                language,
                descriptions,
            ) && (mutation == Mutation::Draw ==> old(store)@.has_subscriber(subscriber_id)),
            Err(e) => mutation == Mutation::Draw && !old(store)@.has_subscriber(subscriber_id) && e
                == StoreError::RowNotFound && final(store)@ == old(store)@,
        },
{
    match mutation {
        Mutation::Nothing => Ok(None),
        Mutation::Draw => draw_chosen(language, descriptions, subscriber_id, chosen, store),
        Mutation::ShuffleCardsBack => {
            shuffle_cards_back(subscriber_id, store);
            Ok(None)
        },
        Mutation::SetLanguage(l) => {
            set_language(l, subscriber_id, store);
            Ok(None)
        },
        Mutation::SetDescription(f) => {
            set_description(f, subscriber_id, store);
            Ok(None)
        },
    }
}

/// Applies `mutation` for `subscriber_id`; for a draw, one of the cards
/// not drawn is dealt, each with the same chance.
pub fn apply(
    mutation: Mutation,
    language: Language,
    descriptions: DescriptionsFormat,
    subscriber_id: i32,
    store: &mut Store,
) -> (card: Result<Option<CardData>, StoreError>)
    requires
        old(store).wf(),
    ensures
        final(store).wf(),
        match card {
            Ok(data) => (mutation == Mutation::Draw ==> old(store)@.has_subscriber(subscriber_id))
                && exists|position: int|
                fairly_chosen(old(store)@, subscriber_id, position) && (
                    final(store)@,
                    card_data_view(data),
                ) == #[trigger] applied(
                    old(store)@,
                    mutation,
                    subscriber_id,
                    position,
                    language,
                    descriptions,
                ),
            Err(e) => mutation == Mutation::Draw && !old(store)@.has_subscriber(subscriber_id) && e
                == StoreError::RowNotFound && final(store)@ == old(store)@,
        },
{
    match mutation {
        Mutation::Draw => {
            let card = random_card_file_name(language, descriptions, subscriber_id, store);
            proof {
                if card is Ok {
                    let data = card->Ok_0;
                    let position = choose|position: int|
                        (store@, card_data_view(data)) == #[trigger] old(store)@.draw(
                            subscriber_id,
                            position,
                            language,
                            descriptions,
                        );
                    assert((store@, card_data_view(data)) == applied(
                        old(store)@,
                        mutation,
                        subscriber_id,
                        position,
                        language,
                        descriptions,
                    ));
                    assert(fairly_chosen(old(store)@, subscriber_id, position));
                }
            }
            card
        },
        _ => {
            let card = apply_chosen(mutation, language, descriptions, subscriber_id, None, store);
            proof {
                let drawn = old(store)@.subscriber(subscriber_id).drawn_cards;
                let position = if exhausted(old(store)@.cards, drawn) {
                    -1
                } else {
                    choose|position: int| can_deal(old(store)@.cards, drawn, position)
                };
                assert(fairly_chosen(old(store)@, subscriber_id, position));
                assert(applied(
                    old(store)@,
                    mutation,
                    subscriber_id,
                    position,
                    language,
                    descriptions,
                ) == applied(old(store)@, mutation, subscriber_id, -1, language, descriptions));
            }
            card
        },
    }
}

/// Why a command could not be answered.
#[derive(Debug, Clone, Copy, PartialEq, Eq, Structural)]
pub enum ProcessError {
    /// The store refused.
    Store(StoreError),
    /// A text of the answer is missing in the language of the answer.
    Translation(MissingTranslation),
    /// The resolver was handed a reply that answers nothing it asked.
    OutOfTurn,
}

/// The view of the outcome of a command.
pub open spec fn outcome_view(action: Result<Action, ProcessError>) -> Result<
    ActionView,
    ProcessError,
> {
    match action {
        Ok(a) => Ok(a@),
        Err(e) => Err(e),
    }
}

/// What `command` from the chat `chat_id` does to the store and what it
/// is answered with, given the moment at which a new record would be
/// created and the position chosen for a draw. The record is found or
/// created first; language and descriptions format are read from it as
/// they stand then; the one mutation of the command is applied; and the
/// answer is built last, so that it speaks of the store as it is left.
pub open spec fn processed(
    store: StoreView,
    command: Command,
    chat_id: Seq<char>,
    translation: TranslationView,
    created_at: i64,
    position: int,
) -> (StoreView, Result<ActionView, ProcessError>) {
    let (known, id) = registered(store, chat_id, created_at);
    match id {
        Err(e) => (known, Err(ProcessError::Store(e))),
        Ok(id) => {
            let language = known.subscriber(id).language;
            let descriptions = known.subscriber(id).descriptions_format;
            let (after, card) = applied(
                known,
                command.spec_mutation(),
                id,
                position,
                language,
                descriptions,
            );
            (
                after,
                match action_of(command, language, card, translation) {
                    Ok(action) => Ok(action),
                    Err(e) => Err(ProcessError::Translation(e)),
                },
            )
        },
    }
}

/// The position chosen for a draw is that of a card that the subscriber of
/// the chat has not drawn, unless it has drawn them all.
pub open spec fn fair(
    store: StoreView,
    chat_id: Seq<char>,
    created_at: i64,
    position: int,
) -> bool {
    let (known, id) = registered(store, chat_id, created_at);
    id matches Ok(id) ==> fairly_chosen(known, id, position)
}

/// What is left to chance in answering a command: the moment at which a
/// new record is created, and the card that a draw deals.
#[derive(Debug, Clone, Copy, PartialEq, Eq, Structural)]
pub enum Chance {
    /// The clock and the random choice decide.
    Open,
    /// The moment and the choice are given.
    Given { created_at: i64, chosen: Option<usize> },
}

impl Chance {
    /// Whether the moment `created_at` and the position `position` are what
    /// this chance admits for a command from `chat_id`: the given ones, or
    /// else any moment, and a position that is fair.
    pub open spec fn admits(
        self,
        store: StoreView,
        chat_id: Seq<char>,
        created_at: i64,
        position: int,
    ) -> bool {
        match self {
            Chance::Open => fair(store, chat_id, created_at, position),
            Chance::Given { created_at: moment, chosen } => created_at == moment && position
                == position_of(chosen),
        }
    }

    /// Whether `position` is what this chance admits for a draw of `subscriber_id`.
    pub open spec fn admits_choice(
        self,
        store: StoreView,
        subscriber_id: i32,
        position: int,
    ) -> bool {
        match self {
            Chance::Open => fairly_chosen(store, subscriber_id, position),
            Chance::Given { chosen, .. } => position == position_of(chosen),
        }
    }

    /// Whether `created_at` is a moment that this chance admits.
    pub open spec fn admits_moment(self, created_at: i64) -> bool {
        match self {
            Chance::Open => true,
            Chance::Given { created_at: moment, .. } => created_at == moment,
        }
    }

    /// A moment that this chance admits.
    pub open spec fn a_moment(self) -> i64 {
        match self {
            Chance::Open => 0,
            Chance::Given { created_at, .. } => created_at,
        }
    }

    /// A position that this chance admits for a draw of `subscriber_id`.
    pub open spec fn a_choice(self, store: StoreView, subscriber_id: i32) -> int {
        match self {
            Chance::Open => {
                let drawn = store.subscriber(subscriber_id).drawn_cards;
                if exhausted(store.cards, drawn) {
                    0
                } else {
                    choose|position: int| can_deal(store.cards, drawn, position)
                }
            },
            Chance::Given { chosen, .. } => position_of(chosen),
        }
    }

    /// The moment and the position that are admitted in any case are admitted.
    pub proof fn lemma_admitted(self, store: StoreView, subscriber_id: i32)
        ensures
            self.admits_moment(self.a_moment()),
            self.admits_choice(store, subscriber_id, self.a_choice(store, subscriber_id)),
    {
    }
}

/// The view of a reply or the refusal of the store.
pub open spec fn reply_view(reply: Result<Reply, StoreError>) -> Result<ReplyView, StoreError> {
    match reply {
        Ok(r) => Ok(r@),
        Err(e) => Err(e),
    }
}

/// What the store answers to a request of the resolver for the chat
/// `chat_id`, and what it holds afterwards.
pub open spec fn performed(
    store: StoreView,
    request: Request,
    chat_id: Seq<char>,
    created_at: i64,
    position: int,
) -> (StoreView, Result<ReplyView, StoreError>) {
    match request {
        Request::FindSubscriber => (store, Ok(ReplyView::Subscriber(store.subscriber_id(chat_id)))),
        Request::CreateSubscriber => match created(store, chat_id, created_at) {
            (after, Ok(id)) => (after, Ok(ReplyView::Created(id))),
            (after, Err(e)) => (after, Err(e)),
        },
        Request::LoadLanguage { subscriber_id } => if store.has_subscriber(subscriber_id) {
            (store, Ok(ReplyView::Language(store.subscriber(subscriber_id).language)))
        } else {
            (store, Err(StoreError::RowNotFound))
        },
        Request::LoadDescriptionsFormat { subscriber_id } => if store.has_subscriber(
            subscriber_id,
        ) {
            (
                store,
                Ok(
                    ReplyView::DescriptionsFormat(
                        store.subscriber(subscriber_id).descriptions_format,
                    ),
                ),
            )
        } else {
            (store, Err(StoreError::RowNotFound))
        },
        Request::Apply { mutation, language, descriptions_format, subscriber_id } => if mutation
            == Mutation::Draw && !store.has_subscriber(subscriber_id) {
            (store, Err(StoreError::RowNotFound))
        } else {
            match applied(store, mutation, subscriber_id, position, language, descriptions_format) {
                (after, card) => (after, Ok(ReplyView::Applied(card))),
            }
        },
    }
}

/// Performs one request of the resolver on the store.
pub fn perform(request: Request, chat_id: &String, store: &mut Store, chance: Chance) -> (reply:
    Result<Reply, StoreError>)
    requires
        old(store).wf(),
    ensures
        final(store).wf(),
        exists|created_at: i64, position: int|
            {
                &&& chance.admits_moment(created_at)
                &&& request matches Request::Apply { subscriber_id, .. } ==> chance.admits_choice(
                    old(store)@,
                    subscriber_id,
                    position,
                )
                &&& (final(store)@, reply_view(reply)) == #[trigger] performed(
                    old(store)@,
                    request,
                    chat_id@,
                    created_at,
                    position,
                )
            },
{
    match request {
        Request::FindSubscriber => {
            let id = get_subscriber_id(chat_id.as_str(), store);
            proof {
                let moment = chance.a_moment();
                assert((store@, reply_view(Ok(Reply::Subscriber(id)))) == performed(
                    old(store)@,
                    request,
                    chat_id@,
                    moment,
                    0,
                ));
            }
            Ok(Reply::Subscriber(id))
        },
        Request::CreateSubscriber => {
            let created_id = match chance {
                Chance::Open => create_subscriber(chat_id.clone(), store),
                Chance::Given { created_at, .. } => create_subscriber_at(
                    chat_id.clone(),
                    created_at,
                    store,
                ),
            };
            let reply = match created_id {
                Ok(id) => Ok(Reply::Created(id)),
                Err(e) => Err(e),
            };
            proof {
                let moment = choose|moment: i64|
                    chance.admits_moment(moment) && (store@, created_id) == #[trigger] created(
                        old(store)@,
                        chat_id@,
                        moment,
                    );
                assert((store@, reply_view(reply)) == performed(
                    old(store)@,
                    request,
                    chat_id@,
                    moment,
                    0,
                ));
            }
            reply
        },
        Request::LoadLanguage { subscriber_id } => {
            let reply = match get_language(subscriber_id, store) {
                Ok(language) => Ok(Reply::Language(language)),
                Err(e) => Err(e),
            };
            proof {
                let moment = chance.a_moment();
                assert((store@, reply_view(reply)) == performed(
                    old(store)@,
                    request,
                    chat_id@,
                    moment,
                    0,
                ));
            }
            reply
        },
        Request::LoadDescriptionsFormat { subscriber_id } => {
            let reply = match get_descriptions_format(subscriber_id, store) {
                Ok(descriptions_format) => Ok(Reply::DescriptionsFormat(descriptions_format)),
                Err(e) => Err(e),
            };
            proof {
                let moment = chance.a_moment();
                assert((store@, reply_view(reply)) == performed(
                    old(store)@,
                    request,
                    chat_id@,
                    moment,
                    0,
                ));
            }
            reply
        },
        Request::Apply { mutation, language, descriptions_format, subscriber_id } => {
            let card = match chance {
                Chance::Open => apply(
                    mutation,
                    language,
                    descriptions_format,
                    subscriber_id,
                    store,
                ),
                Chance::Given { chosen, .. } => apply_chosen(
                    mutation,
                    language,
                    descriptions_format,
                    subscriber_id,
                    chosen,
                    store,
                ),
            };
            let reply = match card {
                Ok(card) => Ok(Reply::Applied(card)),
                Err(e) => Err(e),
            };
            proof {
                let moment = chance.a_moment();
                let position = if card is Ok {
                    choose|position: int|
                        chance.admits_choice(old(store)@, subscriber_id, position) && (
                            store@,
                            card_data_view(card->Ok_0),
                        ) == #[trigger] applied(
                            old(store)@,
                            mutation,
                            subscriber_id,
                            position,
                            language,
                            descriptions_format,
                        )
                } else {
                    chance.a_choice(old(store)@, subscriber_id)
                };
                chance.lemma_admitted(old(store)@, subscriber_id);
                assert(chance.admits_choice(old(store)@, subscriber_id, position));
                assert((store@, reply_view(reply)) == performed(
                    old(store)@,
                    request,
                    chat_id@,
                    moment,
                    position,
                ));
            }
            reply
        },
    }
}

/// The resolver and the store agree: what the resolver has asked last is
/// what its stage says, and the store holds what the steps so far have left.
pub open spec fn in_step(
    before: StoreView,
    now: StoreView,
    chat_id: Seq<char>,
    resolver: Resolver,
    request: Request,
    created_at: i64,
) -> bool {
    match resolver.stage {
        Stage::FindingSubscriber => request == Request::FindSubscriber && now == before,
        Stage::CreatingSubscriber => request == Request::CreateSubscriber && now == before
            && before.subscriber_id(chat_id) is None,
        Stage::LoadingLanguage { subscriber_id } => request == (Request::LoadLanguage {
            subscriber_id,
        }) && (now, Ok::<i32, StoreError>(subscriber_id)) == registered(
            before,
            chat_id,
            created_at,
        ),
        Stage::LoadingDescriptionsFormat { subscriber_id, language } => request == (
        Request::LoadDescriptionsFormat { subscriber_id }) && (
            now,
            Ok::<i32, StoreError>(subscriber_id),
        ) == registered(before, chat_id, created_at) && language == now.subscriber(
            subscriber_id,
        ).language,
        Stage::Applying { language } => request matches Request::Apply {
            mutation,
            language: l,
            descriptions_format,
            subscriber_id,
        } && mutation == resolver.command.spec_mutation() && mutation != Mutation::Nothing && l
            == language && (now, Ok::<i32, StoreError>(subscriber_id)) == registered(
            before,
            chat_id,
            created_at,
        ) && language == now.subscriber(subscriber_id).language && descriptions_format
            == now.subscriber(subscriber_id).descriptions_format,
        Stage::Done => false,
    }
}

/// Runs the resolver of `command` against the store until it is done. The
/// store answers every request in turn, so the run never ends out of turn.
pub fn run(
    command: Command,
    chat_id: String,
    store: &mut Store,
    translation: &Translation,
    chance: Chance,
) -> (action: Result<Action, ProcessError>)
    requires
        old(store).wf(),
    ensures
        final(store).wf(),
        action != Err::<Action, ProcessError>(ProcessError::OutOfTurn),
        exists|created_at: i64, position: int|
            chance.admits(old(store)@, chat_id@, created_at, position) && (
                final(store)@,
                outcome_view(action),
            ) == #[trigger] processed(
                old(store)@,
                command,
                chat_id@,
                translation@,
                created_at,
                position,
            ),
{
    let mut resolver = Resolver::new(command);
    let mut request = resolver.first_request();
    let ghost mut moment: i64 = chance.a_moment();
    loop
        invariant
            old(store).wf(),
            store.wf(),
            resolver.command == command,
            chance.admits_moment(moment),
            in_step(old(store)@, store@, chat_id@, resolver, request, moment),
        decreases resolver.stage.remaining(),
    {
        let ghost reached = store@;
        let ghost stage = resolver.stage;
        let performed_reply = perform(request, &chat_id, store, chance);
        let ghost (created_at, position) = choose|created_at: i64, position: int|
            {
                &&& chance.admits_moment(created_at)
                &&& request matches Request::Apply { subscriber_id, .. } ==> chance.admits_choice(
                    reached,
                    subscriber_id,
                    position,
                )
                &&& (store@, reply_view(performed_reply)) == #[trigger] performed(
                    reached,
                    request,
                    chat_id@,
                    created_at,
                    position,
                )
            };
        proof {
            lemma_subscriber_id(old(store)@, chat_id@);
            lemma_registered(old(store)@, chat_id@, moment);
            if stage == Stage::CreatingSubscriber {
                moment = created_at;
                lemma_registered(old(store)@, chat_id@, moment);
            }
        }
        let reply = match performed_reply {
            Ok(reply) => reply,
            Err(e) => {
                proof {
                    lemma_closing(old(store)@, chat_id@, chance, moment);
                    let fair_position = choose|fair_position: int|
                        chance.admits(old(store)@, chat_id@, moment, fair_position);
                    assert((store@, outcome_view(Err(ProcessError::Store(e)))) == processed(
                        old(store)@,
                        command,
                        chat_id@,
                        translation@,
                        moment,
                        fair_position,
                    ));
                }
                return Err(ProcessError::Store(e));
            },
        };
        match resolver.advance(reply, translation) {
            Progress::Ask(next) => {
                request = next;
            },
            Progress::Done(done) => {
                let action = match done {
                    Ok(action) => Ok(action),
                    Err(ResolveError::Translation(e)) => Err(ProcessError::Translation(e)),
                    Err(ResolveError::OutOfTurn) => Err(ProcessError::OutOfTurn),
                };
                proof {
                    lemma_closing(old(store)@, chat_id@, chance, moment);
                    let final_position = if stage is Applying {
                        position
                    } else {
                        choose|fair_position: int|
                            chance.admits(old(store)@, chat_id@, moment, fair_position)
                    };
                    assert(chance.admits(old(store)@, chat_id@, moment, final_position));
                    assert((store@, outcome_view(action)) == processed(
                        old(store)@,
                        command,
                        chat_id@,
                        translation@,
                        moment,
                        final_position,
                    ));
                }
                return action;
            },
        }
    }
}

/// Whatever the moment, some position is admitted with it.
pub proof fn lemma_closing(store: StoreView, chat_id: Seq<char>, chance: Chance, created_at: i64)
    requires
        chance.admits_moment(created_at),
    ensures
        exists|position: int| chance.admits(store, chat_id, created_at, position),
{
    match chance {
        Chance::Open => {
            let (known, id) = registered(store, chat_id, created_at);
            if id is Ok {
                let drawn = known.subscriber(id->Ok_0).drawn_cards;
                if exhausted(known.cards, drawn) {
                    assert(chance.admits(store, chat_id, created_at, 0));
                } else {
                    let position = choose|position: int| can_deal(known.cards, drawn, position);
                    assert(chance.admits(store, chat_id, created_at, position));
                }
            } else {
                assert(chance.admits(store, chat_id, created_at, 0));
            }
        },
        Chance::Given { chosen, .. } => {
            assert(chance.admits(store, chat_id, created_at, position_of(chosen)));
        },
    }
}

/// Answers one command from one chat, with the moment of a first contact
/// and the choice of the card given from outside.
pub fn process_message_at(
    command: Command,
    chat_id: String,
    store: &mut Store,
    translation: &Translation,
    created_at: i64,
    chosen: Option<usize>,
) -> (action: Result<Action, ProcessError>)
    requires
        old(store).wf(),
    ensures
        final(store).wf(),
        (final(store)@, outcome_view(action)) == processed(
            old(store)@,
            command,
            chat_id@,
            translation@,
            created_at,
            position_of(chosen),
        ),
{
    run(command, chat_id, store, translation, Chance::Given { created_at, chosen })
}

/// Answers one command from one chat. A chat that is new gets its record
/// first; a request for a card deals one of the cards not drawn, each with
/// the same chance.
pub fn process_message(
    command: Command,
    chat_id: String,
    store: &mut Store,
    translation: &Translation,
) -> (action: Result<Action, ProcessError>)
    requires
        old(store).wf(),
    ensures
        final(store).wf(),
        exists|created_at: i64, position: int|
            fair(old(store)@, chat_id@, created_at, position) && (
                final(store)@,
                outcome_view(action),
            ) == #[trigger] processed(
                old(store)@,
                command,
                chat_id@,
                translation@,
                created_at,
                position,
            ),
{
    run(command, chat_id, store, translation, Chance::Open)
}

/// After first contact the chat has a record, and the identifier handed
/// out is the one under which it is found.
pub proof fn lemma_registered(store: StoreView, chat_id: Seq<char>, created_at: i64)
    requires
        store.wf(),
    ensures
        registered(store, chat_id, created_at).1 matches Ok(id) ==> registered(
            store,
            chat_id,
            created_at,
        ).0.has_subscriber(id),
{
    lemma_subscriber_id(store, chat_id);
}

/// The chat `chat_id` has exactly one record in `store`.
pub open spec fn has_one_record(store: StoreView, chat_id: Seq<char>) -> bool {
    &&& store.knows(chat_id)
    &&& forall|i: int, j: int|
        0 <= i < store.subscribers.len() && 0 <= j < store.subscribers.len() && (
        #[trigger] store.subscribers[i]).chat_id == chat_id && (
        #[trigger] store.subscribers[j]).chat_id == chat_id ==> i == j
}

/// First contact is idempotent: once a chat has made contact, it has
/// exactly one record, and a second contact finds the same identifier and
/// leaves the store as it is. A first contact adds one record if the chat
/// was new, and none if it was known.
pub proof fn lemma_first_contact(store: StoreView, chat_id: Seq<char>, first: i64, second: i64)
    requires
        store.wf(),
        registered(store, chat_id, first).1 is Ok,
    ensures
        registered(store, chat_id, first).0.wf(),
        has_one_record(registered(store, chat_id, first).0, chat_id),
        registered(registered(store, chat_id, first).0, chat_id, second) == registered(
            store,
            chat_id,
            first,
        ),
        registered(store, chat_id, first).0.subscribers.len() == store.subscribers.len() + (
        if store.knows(chat_id) {
            0int
        } else {
            1int
        }),
{
    if !store.knows(chat_id) {
        lemma_with_subscriber(store, chat_id, first);
    }
}

/// A command from one chat never alters the record of another subscriber:
/// its language, its descriptions format and its drawn cards stay as they
/// were, whatever the command, the moment and the choice.
pub proof fn lemma_commands_isolated(
    store: StoreView,
    command: Command,
    chat_id: Seq<char>,
    translation: TranslationView,
    created_at: i64,
    position: int,
    other: i32,
)
    requires
        store.wf(),
        store.has_subscriber(other),
        store.subscriber(other).chat_id != chat_id,
    ensures
        processed(store, command, chat_id, translation, created_at, position).0.has_subscriber(
            other,
        ),
        processed(store, command, chat_id, translation, created_at, position).0.subscriber(other)
            == store.subscriber(other),
{
    lemma_subscriber_id(store, chat_id);
    let (known, id) = registered(store, chat_id, created_at);
    if !store.knows(chat_id) && store.subscribers.len() < i32::MAX {
        lemma_with_subscriber(store, chat_id, created_at);
    }
    if let Ok(id) = id {
        lemma_registered(store, chat_id, created_at);
        assert(known.wf());
        assert(known.subscriber(other) == store.subscriber(other));
        assert(id != other);
        let language = known.subscriber(id).language;
        let descriptions = known.subscriber(id).descriptions_format;
        lemma_draw(known, id, position, language, descriptions);
        lemma_isolation(known, id, other, language, descriptions, Seq::empty());
    }
}

} // verus!
