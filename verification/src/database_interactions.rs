//! The store: the card catalog and one record per subscriber, with the
//! operations the bot performs on them. The store lives in memory; its rules
//! are those that any persistent store behind the bot has to keep.

use crate::dealer::{
    can_deal, cards_view, deal, deal_at, deal_chosen, dealt_view, drawn_with, exhausted, Dealt,
};
use crate::process::{
    card_data_view, Card, CardData, CardDataView, CardView, DescriptionsFormat, Language,
};
use crate::seed::{read_seed, seed_of, SeedError};
use vstd::prelude::*;

verus! {

/// A subscriber record as the contracts see it.
pub struct SubscriberView {
    pub id: i32,
    pub chat_id: Seq<char>,
    pub created_at: i64,
    pub language: Language,
    pub descriptions_format: DescriptionsFormat,
    pub drawn_cards: Seq<i32>,
}

/// One subscriber: its identity, its preferences and the cards it has drawn
/// since the last reshuffle.
#[derive(Debug, Clone, PartialEq, Eq)]
pub struct Subscriber {
    pub id: i32,
    pub chat_id: String,
    pub created_at: i64,
    pub language: Language,
    pub descriptions_format: DescriptionsFormat,
    pub drawn_cards: Vec<i32>,
}

impl View for Subscriber {
    type V = SubscriberView;

    open spec fn view(&self) -> SubscriberView {
        SubscriberView {
            id: self.id,
            chat_id: self.chat_id@,
            created_at: self.created_at,
            language: self.language,
            descriptions_format: self.descriptions_format,
            drawn_cards: self.drawn_cards@,
        }
    }
}

impl Subscriber {
    /// The record of a subscriber that has just been created: English, full
    /// descriptions, no card drawn.
    pub fn new(id: i32, chat_id: String, created_at: i64) -> (subscriber: Subscriber)
        ensures
            subscriber@ == new_subscriber(id, chat_id@, created_at),
    {
        Subscriber {
            id,
            chat_id,
            created_at,
            language: Language::En,
            descriptions_format: DescriptionsFormat::Full,
            drawn_cards: Vec::new(),
        }
    }
}

/// The records as the contracts see them.
pub open spec fn subscribers_view(subscribers: Seq<Subscriber>) -> Seq<SubscriberView> {
    subscribers.map_values(|subscriber: Subscriber| subscriber@)
}

/// The record a subscriber starts with: English, full descriptions, no card drawn.
pub open spec fn new_subscriber(id: i32, chat_id: Seq<char>, created_at: i64) -> SubscriberView {
    SubscriberView {
        id,
        chat_id,
        created_at,
        language: Language::En,
        descriptions_format: DescriptionsFormat::Full,
        drawn_cards: Seq::empty(),
    }
}

/// A card with `file_id` cached for `language`, if the card has the file
/// name `filename` and nothing is cached for that language yet.
pub open spec fn cached(
    card: CardView,
    filename: Seq<char>,
    language: Language,
    file_id: Seq<char>,
) -> CardView {
    if card.filename == filename && card.file_id(language) is None {
        match language {
            Language::En => CardView { telegram_file_id_en: Some(file_id), ..card },
            Language::Ru => CardView { telegram_file_id_ru: Some(file_id), ..card },
        }
    } else {
        card
    }
}

/// The whole store as the contracts see it.
pub struct StoreView {
    pub cards: Seq<CardView>,
    pub subscribers: Seq<SubscriberView>,
}

impl StoreView {
    /// Identifiers count up from one in both tables, no chat has two
    /// records, and every drawn card is a card of the catalog, drawn once.
    pub open spec fn wf(self) -> bool {
        &&& self.cards.len() <= i32::MAX
        &&& self.subscribers.len() <= i32::MAX
        &&& forall|i: int| 0 <= i < self.cards.len() ==> (#[trigger] self.cards[i]).id == i + 1
        &&& forall|i: int|
            0 <= i < self.subscribers.len() ==> (#[trigger] self.subscribers[i]).id == i + 1
        &&& forall|i: int, j: int|
            0 <= i < j < self.subscribers.len() ==> (#[trigger] self.subscribers[i]).chat_id != (
            #[trigger] self.subscribers[j]).chat_id
        &&& forall|i: int|
            0 <= i < self.subscribers.len() ==> (
            #[trigger] self.subscribers[i]).drawn_cards.no_duplicates()
        &&& forall|i: int, k: int|
            0 <= i < self.subscribers.len() && 0 <= k < self.subscribers[i].drawn_cards.len() ==> 1
                <= #[trigger] self.subscribers[i].drawn_cards[k] <= self.cards.len()
    }

    pub open spec fn has_subscriber(self, id: i32) -> bool {
        1 <= id <= self.subscribers.len()
    }

    /// The record with the identifier `id`.
    pub open spec fn subscriber(self, id: i32) -> SubscriberView
        recommends
            self.has_subscriber(id),
    {
        self.subscribers[id - 1]
    }

    /// Some record belongs to the chat `chat_id`.
    pub open spec fn knows(self, chat_id: Seq<char>) -> bool {
        exists|i: int|
            0 <= i < self.subscribers.len() && (#[trigger] self.subscribers[i]).chat_id == chat_id
    }

    /// The identifier of the record of the chat `chat_id`.
    pub open spec fn subscriber_id(self, chat_id: Seq<char>) -> Option<i32> {
        if self.knows(chat_id) {
            let i = choose|i: int|
                0 <= i < self.subscribers.len() && (#[trigger] self.subscribers[i]).chat_id
                    == chat_id;
            Some(self.subscribers[i].id)
        } else {
            None
        }
    }

    /// The identifier that the next new record gets.
    pub open spec fn next_subscriber_id(self) -> int {
        self.subscribers.len() as int + 1
    }

    /// The store with one more record, for the chat `chat_id`.
    pub open spec fn with_subscriber(self, chat_id: Seq<char>, created_at: i64) -> StoreView {
        StoreView {
            subscribers: self.subscribers.push(
                new_subscriber(self.next_subscriber_id() as i32, chat_id, created_at),
            ),
            ..self
        }
    }

    /// The store with `language` set for `id`; unchanged if there is no such record.
    pub open spec fn with_language(self, id: i32, language: Language) -> StoreView {
        if self.has_subscriber(id) {
            StoreView {
                subscribers: self.subscribers.update(
                    id - 1,
                    SubscriberView { language, ..self.subscriber(id) },
                ),
                ..self
            }
        } else {
            self
        }
    }

    /// The store with `descriptions_format` set for `id`; unchanged if there is no such record.
    pub open spec fn with_descriptions_format(
        self,
        id: i32,
        descriptions_format: DescriptionsFormat,
    ) -> StoreView {
        if self.has_subscriber(id) {
            StoreView {
                subscribers: self.subscribers.update(
                    id - 1,
                    SubscriberView { descriptions_format, ..self.subscriber(id) },
                ),
                ..self
            }
        } else {
            self
        }
    }

    /// The store with `drawn_cards` as the drawn cards of `id`; unchanged if
    /// there is no such record.
    pub open spec fn with_drawn_cards(self, id: i32, drawn_cards: Seq<i32>) -> StoreView {
        if self.has_subscriber(id) {
            StoreView {
                subscribers: self.subscribers.update(
                    id - 1,
                    SubscriberView { drawn_cards, ..self.subscriber(id) },
                ),
                ..self
            }
        } else {
            self
        }
    }

    /// The store with `file_id` cached for `language` on the cards named
    /// `filename` that had nothing cached for that language.
    pub open spec fn with_file_id(
        self,
        filename: Seq<char>,
        language: Language,
        file_id: Seq<char>,
    ) -> StoreView {
        StoreView {
            cards: Seq::new(
                self.cards.len(),
                |i: int| cached(self.cards[i], filename, language, file_id),
            ),
            ..self
        }
    }

    /// The store and the card after `id` was dealt the card at `position`:
    /// the card joins the drawn ones if it can be dealt, and nothing changes
    /// otherwise.
    pub open spec fn draw(
        self,
        id: i32,
        position: int,
        language: Language,
        descriptions: DescriptionsFormat,
    ) -> (StoreView, Option<CardDataView>) {
        match deal_at(
            self.cards,
            self.subscriber(id).drawn_cards,
            position,
            language,
            descriptions,
        ) {
            Some(dealt) => (
                self.with_drawn_cards(id, self.subscriber(id).drawn_cards.push(dealt.card_id)),
                Some(dealt.card_data),
            ),
            None => (self, None),
        }
    }
}

/// Why the store could not do what was asked.
#[derive(Debug, Clone, Copy, PartialEq, Eq, Structural)]
pub enum StoreError {
    /// No record has the identifier that was given.
    RowNotFound,
    /// The chat has a record already.
    DuplicateChat,
    /// The table is full: no identifier is left.
    OutOfIds,
}

/// The catalog and the subscriber records.
pub struct Store {
    cards: Vec<Card>,
    subscribers: Vec<Subscriber>,
}

impl View for Store {
    type V = StoreView;

    closed spec fn view(&self) -> StoreView {
        StoreView {
            cards: cards_view(self.cards@),
            subscribers: subscribers_view(self.subscribers@),
        }
    }
}

impl Store {
    pub open spec fn wf(&self) -> bool {
        self@.wf()
    }

    /// A store with no card and no subscriber.
    pub fn new() -> (store: Store)
        ensures
            store.wf(),
            store@.cards.len() == 0,
            store@.subscribers.len() == 0,
    {
        Store { cards: Vec::new(), subscribers: Vec::new() }
    }

    /// Adds a card to the catalog and returns its identifier, the next one
    /// in line. Nothing is cached for the new card.
    pub fn insert_card(
        &mut self,
        filename: String,
        name_en: String,
        description_en: String,
        name_ru: String,
        description_ru: String,
    ) -> (id: Result<i32, StoreError>)
        requires
            old(self).wf(),
        ensures
            final(self).wf(),
            match id {
                Ok(id) => old(self)@.cards.len() < i32::MAX && id == old(self)@.cards.len() + 1
                    && final(self)@ == (StoreView {
                    cards: old(self)@.cards.push(
                        CardView {
                            id,
                            filename: filename@,
                            name_en: name_en@,
                            description_en: description_en@,
                            name_ru: name_ru@,
                            description_ru: description_ru@,
                            telegram_file_id_en: None,
                            telegram_file_id_ru: None,
                        },
                    ),
                    ..old(self)@
                }),
                Err(e) => old(self)@.cards.len() == i32::MAX && e == StoreError::OutOfIds
                    && final(self)@ == old(self)@,
            },
    {
        if self.cards.len() >= i32::MAX as usize {
            return Err(StoreError::OutOfIds);
        }
        let id: i32 = (self.cards.len() + 1) as i32;
        let card = Card {
            id,
            filename,
            name_en,
            description_en,
            name_ru,
            description_ru,
            telegram_file_id_en: None,
            telegram_file_id_ru: None,
        };
        self.cards.push(card);
        proof {
            assert(cards_view(self.cards@) =~= cards_view(old(self).cards@).push(card@));
        }
        Ok(id)
    }

    /// The number of cards in the catalog.
    pub fn card_count(&self) -> (count: usize)
        ensures
            count == self@.cards.len(),
    {
        self.cards.len()
    }

    /// The number of subscriber records.
    pub fn subscriber_count(&self) -> (count: usize)
        ensures
            count == self@.subscribers.len(),
    {
        self.subscribers.len()
    }

    /// A copy of the whole catalog, in the order of the identifiers.
    pub fn cards(&self) -> (cards: Vec<Card>)
        ensures
            cards_view(cards@) == self@.cards,
    {
        let mut cards: Vec<Card> = Vec::new();
        let mut i: usize = 0;
        while i < self.cards.len()
            invariant
                i <= self.cards.len(),
                cards_view(cards@) == cards_view(self.cards@).take(i as int),
            decreases self.cards.len() - i,
        {
            let card = self.cards[i].duplicate();
            let ghost copied = cards@;
            cards.push(card);
            proof {
                assert(cards_view(cards@) =~= cards_view(copied).push(card@));
                assert(cards_view(self.cards@).take(i + 1) =~= cards_view(self.cards@).take(
                    i as int,
                ).push(self.cards@[i as int]@));
            }
            i += 1;
        }
        proof {
            assert(cards_view(self.cards@).take(i as int) =~= cards_view(self.cards@));
        }
        cards
    }

    /// A copy of the record of `subscriber_id`.
    pub fn subscriber(&self, subscriber_id: i32) -> (record: Result<Subscriber, StoreError>)
        requires
            self.wf(),
        ensures
            match record {
                Ok(r) => self@.has_subscriber(subscriber_id) && r@ == self@.subscriber(
                    subscriber_id,
                ),
                Err(e) => !self@.has_subscriber(subscriber_id) && e == StoreError::RowNotFound,
            },
    {
        match self.row(subscriber_id) {
            Some(i) => {
                let source = &self.subscribers[i];
                let mut drawn_cards: Vec<i32> = Vec::new();
                let mut k: usize = 0;
                while k < source.drawn_cards.len()
                    invariant
                        k <= source.drawn_cards.len(),
                        drawn_cards@ == source.drawn_cards@.take(k as int),
                    decreases source.drawn_cards.len() - k,
                {
                    drawn_cards.push(source.drawn_cards[k]);
                    proof {
                        assert(drawn_cards@ =~= source.drawn_cards@.take(k + 1));
                    }
                    k += 1;
                }
                proof {
                    assert(source.drawn_cards@.take(k as int) =~= source.drawn_cards@);
                }
                Ok(
                    Subscriber {
                        id: source.id,
                        chat_id: source.chat_id.clone(),
                        created_at: source.created_at,
                        language: source.language,
                        descriptions_format: source.descriptions_format,
                        drawn_cards,
                    },
                )
            },
            None => Err(StoreError::RowNotFound),
        }
    }

    /// A copy of the cards that `subscriber_id` has drawn since its last
    /// reshuffle, in the order in which they were dealt.
    pub fn drawn_cards(&self, subscriber_id: i32) -> (drawn: Result<Vec<i32>, StoreError>)
        requires
            self.wf(),
        ensures
            match drawn {
                Ok(d) => self@.has_subscriber(subscriber_id) && d@ == self@.subscriber(
                    subscriber_id,
                ).drawn_cards,
                Err(e) => !self@.has_subscriber(subscriber_id) && e == StoreError::RowNotFound,
            },
    {
        match self.subscriber(subscriber_id) {
            Ok(record) => Ok(record.drawn_cards),
            Err(e) => Err(e),
        }
    }

    /// The place of the record `subscriber_id` in the table, if there is such a record.
    fn row(&self, subscriber_id: i32) -> (row: Option<usize>)
        requires
            self.wf(),
        ensures
            match row {
                Some(i) => self@.has_subscriber(subscriber_id) && i == subscriber_id - 1 && i
                    < self.subscribers@.len(),
                None => !self@.has_subscriber(subscriber_id),
            },
    {
        if subscriber_id >= 1 && (subscriber_id as usize) <= self.subscribers.len() {
            Some((subscriber_id - 1) as usize)
        } else {
            None
        }
    }
}

/// The identifier of the record that belongs to the chat `chat_id`, if the
/// chat has one.
pub fn get_subscriber_id(chat_id: &str, store: &Store) -> (id: Option<i32>)
    requires
        store.wf(),
    ensures
        id == store@.subscriber_id(chat_id@),
{
    let mut i: usize = 0;
    while i < store.subscribers.len()
        invariant
            i <= store.subscribers.len(),
            store.wf(),
            forall|k: int| 0 <= k < i ==> (#[trigger] store@.subscribers[k]).chat_id != chat_id@,
        decreases store.subscribers.len() - i,
    {
        if store.subscribers[i].chat_id.as_str().eq(chat_id) {
            proof {
                assert(store@.subscribers[i as int].chat_id == chat_id@);
                let j = choose|j: int|
                    0 <= j < store@.subscribers.len() && (#[trigger] store@.subscribers[j]).chat_id
                        == chat_id@;
                assert(j == i);
            }
            return Some(store.subscribers[i].id);
        }
        i += 1;
    }
    None
}

/// The language of `subscriber_id`.
pub fn get_language(subscriber_id: i32, store: &Store) -> (language: Result<Language, StoreError>)
    requires
        store.wf(),
    ensures
        match language {
            Ok(l) => store@.has_subscriber(subscriber_id) && l == store@.subscriber(
                subscriber_id,
            ).language,
            Err(e) => !store@.has_subscriber(subscriber_id) && e == StoreError::RowNotFound,
        },
{
    match store.row(subscriber_id) {
        Some(i) => Ok(store.subscribers[i].language),
        None => Err(StoreError::RowNotFound),
    }
}

/// The descriptions format of `subscriber_id`.
pub fn get_descriptions_format(subscriber_id: i32, store: &Store) -> (descriptions_format: Result<
    DescriptionsFormat,
    StoreError,
>)
    requires
        store.wf(),
    ensures
        match descriptions_format {
            Ok(f) => store@.has_subscriber(subscriber_id) && f == store@.subscriber(
                subscriber_id,
            ).descriptions_format,
            Err(e) => !store@.has_subscriber(subscriber_id) && e == StoreError::RowNotFound,
        },
{
    match store.row(subscriber_id) {
        Some(i) => Ok(store.subscribers[i].descriptions_format),
        None => Err(StoreError::RowNotFound),
    }
}

/// What creating a record for `chat_id` at the moment `created_at` gives:
/// the store with the new record and its identifier, or the store as it was
/// and the reason.
pub open spec fn created(store: StoreView, chat_id: Seq<char>, created_at: i64) -> (
    StoreView,
    Result<i32, StoreError>,
) {
    if store.knows(chat_id) {
        (store, Err(StoreError::DuplicateChat))
    } else if store.subscribers.len() >= i32::MAX {
        (store, Err(StoreError::OutOfIds))
    } else {
        (store.with_subscriber(chat_id, created_at), Ok(store.next_subscriber_id() as i32))
    }
}

/// Creates the record of a chat that has none yet, with `created_at` as its
/// moment of creation: English, full descriptions, no card drawn.
pub fn create_subscriber_at(chat_id: String, created_at: i64, store: &mut Store) -> (id: Result<
    i32,
    StoreError,
>)
    requires
        old(store).wf(),
    ensures
        final(store).wf(),
        (final(store)@, id) == created(old(store)@, chat_id@, created_at),
{
    if get_subscriber_id(chat_id.as_str(), store).is_some() {
        return Err(StoreError::DuplicateChat);
    }
    if store.subscribers.len() >= i32::MAX as usize {
        return Err(StoreError::OutOfIds);
    }
    let id: i32 = (store.subscribers.len() + 1) as i32;
    let subscriber = Subscriber::new(id, chat_id, created_at);
    store.subscribers.push(subscriber);
    proof {
        assert(subscribers_view(store.subscribers@) =~= subscribers_view(
            old(store).subscribers@,
        ).push(subscriber@));
        assert(subscriber@ == new_subscriber(id, chat_id@, created_at));
        assert(final(store)@ == old(store)@.with_subscriber(chat_id@, created_at));
        let before = old(store)@;
        let after = store@;
        assert forall|i: int, j: int| 0 <= i < j < after.subscribers.len() implies (
        #[trigger] after.subscribers[i]).chat_id != (#[trigger] after.subscribers[j]).chat_id by {
            if j == before.subscribers.len() {
                assert(before.subscribers[i].chat_id != chat_id@);
            }
        }
    }
    Ok(id)
}

/// The clock of the machine, read with `std::time::SystemTime::now` and
/// turned by `time::OffsetDateTime` into seconds since the Unix epoch.
/// Trusted to return; nothing is claimed of the moment that comes back.
#[verifier::external_body]
fn unix_now() -> i64 {
    time::OffsetDateTime::from(std::time::SystemTime::now()).unix_timestamp()
}

/// Creates the record of a chat that has none yet, at the present moment.
pub fn create_subscriber(chat_id: String, store: &mut Store) -> (id: Result<i32, StoreError>)
    requires
        old(store).wf(),
    ensures
        final(store).wf(),
        exists|created_at: i64|
            (final(store)@, id) == #[trigger] created(old(store)@, chat_id@, created_at),
{
    let created_at = unix_now();
    create_subscriber_at(chat_id, created_at, store)
}

/// Sets the descriptions format of `subscriber_id`. No other record
/// changes, and nothing changes if there is no such record.
pub fn set_description(value: DescriptionsFormat, subscriber_id: i32, store: &mut Store)
    requires
        old(store).wf(),
    ensures
        final(store).wf(),
        final(store)@ == old(store)@.with_descriptions_format(subscriber_id, value),
{
    match store.row(subscriber_id) {
        Some(i) => {
            store.subscribers[i].descriptions_format = value;
            proof {
                assert(store@.subscribers =~= old(store)@.subscribers.update(
                    i as int,
                    SubscriberView {
                        descriptions_format: value,
                        ..old(store)@.subscriber(subscriber_id)
                    },
                ));
            }
        },
        None => {},
    }
}

/// Sets the language of `subscriber_id`. No other record changes, and
/// nothing changes if there is no such record.
pub fn set_language(language: Language, subscriber_id: i32, store: &mut Store)
    requires
        old(store).wf(),
    ensures
        final(store).wf(),
        final(store)@ == old(store)@.with_language(subscriber_id, language),
{
    match store.row(subscriber_id) {
        Some(i) => {
            store.subscribers[i].language = language;
            proof {
                assert(store@.subscribers =~= old(store)@.subscribers.update(
                    i as int,
                    SubscriberView { language, ..old(store)@.subscriber(subscriber_id) },
                ));
            }
        },
        None => {},
    }
}

/// Puts every drawn card of `subscriber_id` back into its deck. No other
/// record changes, and nothing changes if there is no such record.
pub fn shuffle_cards_back(subscriber_id: i32, store: &mut Store)
    requires
        old(store).wf(),
    ensures
        final(store).wf(),
        final(store)@ == old(store)@.with_drawn_cards(subscriber_id, Seq::empty()),
{
    match store.row(subscriber_id) {
        Some(i) => {
            store.subscribers[i].drawn_cards = Vec::new();
            proof {
                assert(store@.subscribers =~= old(store)@.subscribers.update(
                    i as int,
                    SubscriberView {
                        drawn_cards: Seq::empty(),
                        ..old(store)@.subscriber(subscriber_id)
                    },
                ));
            }
        },
        None => {},
    }
}

/// Remembers `id` as the file id in `language` of the cards whose file is
/// `filename`. A card that has a file id for that language keeps it, so a
/// second delivery changes nothing.
pub fn set_file_id(filename: &str, language: Language, id: String, store: &mut Store)
    requires
        old(store).wf(),
    ensures
        final(store).wf(),
        final(store)@ == old(store)@.with_file_id(filename@, language, id@),
{
    let mut i: usize = 0;
    while i < store.cards.len()
        invariant
            i <= store.cards.len(),
            store.cards@.len() == old(store).cards@.len(),
            store.subscribers == old(store).subscribers,
            forall|k: int|
                0 <= k < i ==> (#[trigger] store.cards@[k])@ == cached(
                    old(store).cards@[k]@,
                    filename@,
                    language,
                    id@,
                ),
            forall|k: int| i <= k < store.cards@.len() ==> store.cards@[k] == old(store).cards@[k],
        decreases store.cards.len() - i,
    {
        if store.cards[i].filename.as_str().eq(filename) {
            match language {
                Language::En => {
                    if store.cards[i].telegram_file_id_en.is_none() {
                        store.cards[i].telegram_file_id_en = Some(id.clone());
                    }
                },
                Language::Ru => {
                    if store.cards[i].telegram_file_id_ru.is_none() {
                        store.cards[i].telegram_file_id_ru = Some(id.clone());
                    }
                },
            }
        }
        i += 1;
    }
    proof {
        assert(store@.cards =~= old(store)@.with_file_id(filename@, language, id@).cards);
    }
}

/// Deals `subscriber_id` the card at the chosen position of the catalog and
/// adds it to its drawn cards. A choice that names no card, or a card that
/// is already drawn, deals nothing and changes nothing.
pub fn draw_chosen(
    language: Language,
    descriptions: DescriptionsFormat,
    subscriber_id: i32,
    chosen: Option<usize>,
    store: &mut Store,
) -> (card: Result<Option<CardData>, StoreError>)
    requires
        old(store).wf(),
    ensures
        final(store).wf(),
        match card {
            Ok(data) => old(store)@.has_subscriber(subscriber_id) && (
                final(store)@,
                card_data_view(data),
            ) == old(store)@.draw(
                subscriber_id,
                match chosen {
                    Some(position) => position as int,
                    None => -1,
                },
                language,
                descriptions,
            ),
            Err(e) => !old(store)@.has_subscriber(subscriber_id) && e == StoreError::RowNotFound
                && final(store)@ == old(store)@,
        },
{
    match store.row(subscriber_id) {
        Some(i) => {
            let dealt = deal_chosen(
                &store.cards,
                &store.subscribers[i].drawn_cards,
                chosen,
                language,
                descriptions,
            );
            Ok(store.take(i, dealt))
        },
        None => Err(StoreError::RowNotFound),
    }
}

/// Deals `subscriber_id` one of the cards it has not drawn, each with the
/// same chance, and adds it to its drawn cards: the card is spent from this
/// moment on. With every card drawn nothing is dealt and nothing changes.
pub fn random_card_file_name(
    language: Language,
    descriptions: DescriptionsFormat,
    subscriber_id: i32,
    store: &mut Store,
) -> (card: Result<Option<CardData>, StoreError>)
    requires
        old(store).wf(),
    ensures
        final(store).wf(),
        match card {
            Ok(data) => {
                &&& old(store)@.has_subscriber(subscriber_id)
                &&& data is None <==> exhausted(
                    old(store)@.cards,
                    old(store)@.subscriber(subscriber_id).drawn_cards,
                )
                &&& exists|position: int|
                    (final(store)@, card_data_view(data)) == #[trigger] old(store)@.draw(
                        subscriber_id,
                        position,
                        language,
                        descriptions,
                    )
            },
            Err(e) => !old(store)@.has_subscriber(subscriber_id) && e == StoreError::RowNotFound
                && final(store)@ == old(store)@,
        },
{
    match store.row(subscriber_id) {
        Some(i) => {
            let dealt = deal(
                &store.cards,
                &store.subscribers[i].drawn_cards,
                language,
                descriptions,
            );
            let ghost position = if dealt is Some {
                choose|position: int|
                    deal_at(
                        old(store)@.cards,
                        old(store)@.subscriber(subscriber_id).drawn_cards,
                        position,
                        language,
                        descriptions,
                    ) == dealt_view(dealt)
            } else {
                -1
            };
            let data = store.take(i, dealt);
            proof {
                assert((store@, card_data_view(data)) == old(store)@.draw(
                    subscriber_id,
                    position,
                    language,
                    descriptions,
                ));
            }
            Ok(data)
        },
        None => Err(StoreError::RowNotFound),
    }
}

impl Store {
    /// Adds a dealt card to the drawn cards of the record at `row` and hands
    /// out what is shown of it.
    fn take(&mut self, row: usize, dealt: Option<Dealt>) -> (data: Option<CardData>)
        requires
            old(self).wf(),
            row < old(self)@.subscribers.len(),
            dealt matches Some(d) ==> exists|position: int|
                can_deal(old(self)@.cards, old(self)@.subscribers[row as int].drawn_cards, position)
                    && d.card_id == #[trigger] old(self)@.cards[position].id,
        ensures
            final(self).wf(),
            card_data_view(data) == match dealt {
                Some(d) => Some(d.card_data@),
                None => None,
            },
            final(self)@ == match dealt {
                Some(d) => old(self)@.with_drawn_cards(
                    (row + 1) as i32,
                    old(self)@.subscribers[row as int].drawn_cards.push(d.card_id),
                ),
                None => old(self)@,
            },
    {
        match dealt {
            Some(d) => {
                self.subscribers[row].drawn_cards.push(d.card_id);
                proof {
                    let before = old(self)@;
                    let drawn = before.subscribers[row as int].drawn_cards;
                    assert(self@.subscribers =~= before.subscribers.update(
                        row as int,
                        SubscriberView {
                            drawn_cards: drawn.push(d.card_id),
                            ..before.subscribers[row as int]
                        },
                    ));
                    let position = choose|position: int|
                        can_deal(before.cards, drawn, position) && d.card_id
                            == #[trigger] before.cards[position].id;
                    assert(d.card_id == position + 1);
                    assert(drawn.push(d.card_id).no_duplicates());
                    assert forall|i: int, k: int|
                        0 <= i < self@.subscribers.len() && 0 <= k
                            < self@.subscribers[i].drawn_cards.len() implies 1
                        <= #[trigger] self@.subscribers[i].drawn_cards[k] <= self@.cards.len() by {
                        if i == row && k == drawn.len() {
                        } else if i == row {
                            assert(self@.subscribers[i].drawn_cards[k] == drawn[k]);
                        } else {
                            assert(self@.subscribers[i] == before.subscribers[i]);
                        }
                    }
                }
                Some(d.card_data)
            },
            None => None,
        }
    }
}

/// Fills an empty catalog from the seed `data`: every card of the seed or,
/// if the seed cannot be read, none. A catalog that holds cards is left as
/// it is, and the seed is not looked at.
pub fn check_cards_table(data: &[u8], store: &mut Store) -> (done: Result<(), SeedError>)
    requires
        old(store).wf(),
    ensures
        final(store).wf(),
        old(store)@.cards.len() > 0 ==> done is Ok && final(store)@ == old(store)@,
        old(store)@.cards.len() == 0 ==> match seed_of(data@) {
            Ok(cards) => done is Ok && final(store)@ == (StoreView { cards, ..old(store)@ }),
            Err(e) => done == Err::<(), SeedError>(e) && final(store)@ == old(store)@,
        },
{
    if store.cards.len() == 0 {
        match read_seed(data) {
            Ok(cards) => {
                store.cards = cards;
                Ok(())
            },
            Err(e) => Err(e),
        }
    } else {
        Ok(())
    }
}

/// In a well-formed store the record of a chat is found under the
/// identifier that the lookup by chat gives.
pub proof fn lemma_subscriber_id(store: StoreView, chat_id: Seq<char>)
    requires
        store.wf(),
    ensures
        store.subscriber_id(chat_id) matches Some(id) ==> store.has_subscriber(id)
            && store.subscriber(id).chat_id == chat_id,
        store.subscriber_id(chat_id) is None ==> forall|id: i32|
            store.has_subscriber(id) ==> (#[trigger] store.subscriber(id)).chat_id != chat_id,
{
    if store.subscriber_id(chat_id) is None {
        assert forall|id: i32| store.has_subscriber(id) implies (#[trigger] store.subscriber(
            id,
        )).chat_id != chat_id by {
            assert(store.subscribers[id - 1] == store.subscriber(id));
        }
    }
}

/// A new record keeps the store well-formed, is found under the
/// identifier it got, and leaves every older record as it was.
pub proof fn lemma_with_subscriber(store: StoreView, chat_id: Seq<char>, created_at: i64)
    requires
        store.wf(),
        !store.knows(chat_id),
        store.subscribers.len() < i32::MAX,
    ensures
        store.with_subscriber(chat_id, created_at).wf(),
        store.with_subscriber(chat_id, created_at).subscriber_id(chat_id) == Some(
            store.next_subscriber_id() as i32,
        ),
        store.with_subscriber(chat_id, created_at).subscriber(store.next_subscriber_id() as i32)
            == new_subscriber(store.next_subscriber_id() as i32, chat_id, created_at),
        forall|id: i32| #[trigger]
            store.has_subscriber(id) ==> store.with_subscriber(chat_id, created_at).subscriber(id)
                == store.subscriber(id),
{
    let after = store.with_subscriber(chat_id, created_at);
    let last = store.subscribers.len() as int;
    assert forall|i: int, j: int| 0 <= i < j < after.subscribers.len() implies (
    #[trigger] after.subscribers[i]).chat_id != (#[trigger] after.subscribers[j]).chat_id by {
        if j == last {
            assert(store.subscribers[i].chat_id != chat_id);
        }
    }
    assert(after.subscribers[last].chat_id == chat_id);
    assert(after.knows(chat_id));
    let found = choose|i: int|
        0 <= i < after.subscribers.len() && (#[trigger] after.subscribers[i]).chat_id == chat_id;
    if found != last {
        assert(store.subscribers[found].chat_id == chat_id);
    }
}

/// Changing the language, the descriptions format or the drawn cards of
/// one subscriber leaves the catalog and the record of every other
/// subscriber as they were; a changed preference keeps the store well-formed.
pub proof fn lemma_isolation(
    store: StoreView,
    changed: i32,
    other: i32,
    language: Language,
    descriptions_format: DescriptionsFormat,
    drawn_cards: Seq<i32>,
)
    requires
        store.wf(),
        store.has_subscriber(other),
        changed != other,
    ensures
        store.with_language(changed, language).subscriber(other) == store.subscriber(other),
        store.with_descriptions_format(changed, descriptions_format).subscriber(other)
            == store.subscriber(other),
        store.with_drawn_cards(changed, drawn_cards).subscriber(other) == store.subscriber(other),
        store.with_language(changed, language).cards == store.cards,
        store.with_descriptions_format(changed, descriptions_format).cards == store.cards,
        store.with_drawn_cards(changed, drawn_cards).cards == store.cards,
        store.with_language(changed, language).wf(),
        store.with_descriptions_format(changed, descriptions_format).wf(),
{
}

/// Setting a preference changes that preference of that subscriber and
/// nothing else of its record.
pub proof fn lemma_preference_set(
    store: StoreView,
    id: i32,
    language: Language,
    descriptions_format: DescriptionsFormat,
)
    requires
        store.wf(),
        store.has_subscriber(id),
    ensures
        store.with_language(id, language).subscriber(id) == (SubscriberView {
            language,
            ..store.subscriber(id)
        }),
        store.with_descriptions_format(id, descriptions_format).subscriber(id) == (SubscriberView {
            descriptions_format,
            ..store.subscriber(id)
        }),
{
}

/// A draw adds the dealt card to the drawn cards of the subscriber as the
/// dealer says, keeps the store well-formed, and leaves the catalog and
/// every other record as they were. Only a card that was not drawn is
/// dealt; a draw that deals nothing changes nothing, and once every card of
/// the catalog is drawn no draw deals anything.
pub proof fn lemma_draw(
    store: StoreView,
    id: i32,
    position: int,
    language: Language,
    descriptions: DescriptionsFormat,
)
    requires
        store.wf(),
        store.has_subscriber(id),
    ensures
        store.draw(id, position, language, descriptions).0.wf(),
        store.draw(id, position, language, descriptions).0.cards == store.cards,
        store.draw(id, position, language, descriptions).0.subscriber(id).drawn_cards
            == drawn_with(store.cards, store.subscriber(id).drawn_cards, position),
        store.draw(id, position, language, descriptions).1 is Some <==> can_deal(
            store.cards,
            store.subscriber(id).drawn_cards,
            position,
        ),
        store.draw(id, position, language, descriptions).1 is None ==> store.draw(
            id,
            position,
            language,
            descriptions,
        ).0 == store,
        exhausted(store.cards, store.subscriber(id).drawn_cards) ==> store.draw(
            id,
            position,
            language,
            descriptions,
        ) == (store, None::<CardDataView>),
        forall|other: i32| #[trigger]
            store.has_subscriber(other) && other != id ==> store.draw(
                id,
                position,
                language,
                descriptions,
            ).0.subscriber(other) == store.subscriber(other),
{
    let drawn = store.subscriber(id).drawn_cards;
    if can_deal(store.cards, drawn, position) {
        let card_id = store.cards[position].id;
        let after = store.with_drawn_cards(id, drawn.push(card_id));
        assert(card_id == position + 1);
        assert(drawn.push(card_id).no_duplicates());
        assert forall|i: int, k: int|
            0 <= i < after.subscribers.len() && 0 <= k
                < after.subscribers[i].drawn_cards.len() implies 1
            <= #[trigger] after.subscribers[i].drawn_cards[k] <= after.cards.len() by {
            if i == id - 1 && k == drawn.len() {
            } else if i == id - 1 {
                assert(after.subscribers[i].drawn_cards[k] == drawn[k]);
            } else {
                assert(after.subscribers[i] == store.subscribers[i]);
            }
        }
    }
}

/// A reshuffle empties the drawn cards of the subscriber, so that every
/// card of the catalog can be dealt again; it keeps the store well-formed;
/// doing it twice is doing it once; and where no card was drawn it changes nothing.
pub proof fn lemma_reshuffle(store: StoreView, id: i32, position: int)
    requires
        store.wf(),
        store.has_subscriber(id),
    ensures
        store.with_drawn_cards(id, Seq::empty()).wf(),
        store.with_drawn_cards(id, Seq::empty()).subscriber(id).drawn_cards == Seq::<i32>::empty(),
        0 <= position < store.cards.len() ==> can_deal(
            store.with_drawn_cards(id, Seq::empty()).cards,
            store.with_drawn_cards(id, Seq::empty()).subscriber(id).drawn_cards,
            position,
        ),
        store.with_drawn_cards(id, Seq::empty()).with_drawn_cards(id, Seq::empty())
            == store.with_drawn_cards(id, Seq::empty()),
        store.subscriber(id).drawn_cards.len() == 0 ==> store.with_drawn_cards(id, Seq::empty())
            == store,
{
    let after = store.with_drawn_cards(id, Seq::empty());
    assert(after.with_drawn_cards(id, Seq::empty()).subscribers =~= after.subscribers);
    if store.subscriber(id).drawn_cards.len() == 0 {
        assert(store.subscriber(id).drawn_cards =~= Seq::<i32>::empty());
        assert(after.subscribers =~= store.subscribers);
    }
}

} // verus!
