//! The resolver of one command as a state machine. It never touches the
//! store itself: it says what it needs from the store next, takes the
//! answer, and in the end hands out the action. Who runs it performs each
//! request and hands back the reply.

use crate::process::{
    action_of, card_data_view, respond, Action, ActionView, CardData, CardDataView,
    DescriptionsFormat, Language,
};
use crate::telegram_interactions::{Command, Mutation};
use crate::translations::{MissingTranslation, Translation, TranslationView};
use vstd::prelude::*;

verus! {

/// What the resolver needs from the store next.
#[derive(Debug, Clone, Copy, PartialEq, Eq, Structural)]
pub enum Request {
    /// The identifier of the record of the chat, if it has one.
    FindSubscriber,
    /// A new record for the chat, and its identifier.
    CreateSubscriber,
    /// The language of the subscriber.
    LoadLanguage { subscriber_id: i32 },
    /// The descriptions format of the subscriber.
    LoadDescriptionsFormat { subscriber_id: i32 },
    /// The mutation, applied for the subscriber; for a draw, the card dealt
    /// in the given language and descriptions format.
    Apply {
        mutation: Mutation,
        language: Language,
        descriptions_format: DescriptionsFormat,
        subscriber_id: i32,
    },
}

/// A reply as the contracts see it.
pub enum ReplyView {
    Subscriber(Option<i32>),
    Created(i32),
    Language(Language),
    DescriptionsFormat(DescriptionsFormat),
    Applied(Option<CardDataView>),
}

/// What the store answered to a request.
#[derive(Debug, Clone, PartialEq, Eq)]
pub enum Reply {
    /// To `FindSubscriber`.
    Subscriber(Option<i32>),
    /// To `CreateSubscriber`.
    Created(i32),
    /// To `LoadLanguage`.
    Language(Language),
    /// To `LoadDescriptionsFormat`.
    DescriptionsFormat(DescriptionsFormat),
    /// To `Apply`: the card dealt, if the mutation was a draw and a card was left.
    Applied(Option<CardData>),
}

impl View for Reply {
    type V = ReplyView;

    open spec fn view(&self) -> ReplyView {
        match self {
            Reply::Subscriber(id) => ReplyView::Subscriber(*id),
            Reply::Created(id) => ReplyView::Created(*id),
            Reply::Language(language) => ReplyView::Language(*language),
            Reply::DescriptionsFormat(format) => ReplyView::DescriptionsFormat(*format),
            Reply::Applied(card) => ReplyView::Applied(card_data_view(*card)),
        }
    }
}

/// Why the resolver gave no action.
#[derive(Debug, Clone, Copy, PartialEq, Eq, Structural)]
pub enum ResolveError {
    /// A text of the answer is missing in the language of the answer.
    Translation(MissingTranslation),
    /// The reply is none that answers what was asked.
    OutOfTurn,
}

impl ResolveError {
    pub open spec fn spec_message(self) -> Seq<char> {
        match self {
            ResolveError::Translation(_) => "Missing translation!"@,
            ResolveError::OutOfTurn => "Reply out of turn!"@,
        }
    }

    pub fn message(&self) -> (text: String)
        ensures
            text@ == self.spec_message(),
    {
        match self {
            ResolveError::Translation(e) => e.message(),
            ResolveError::OutOfTurn => "Reply out of turn!".to_owned(),
        }
    }
}

/// The way the resolver goes on, as the contracts see it.
pub enum ProgressView {
    Ask(Request),
    Done(Result<ActionView, ResolveError>),
}

/// The way the resolver goes on after a reply.
#[derive(Debug, PartialEq, Eq)]
pub enum Progress {
    /// It needs this from the store.
    Ask(Request),
    /// It is done: this is the action, or why there is none.
    Done(Result<Action, ResolveError>),
}

impl View for Progress {
    type V = ProgressView;

    open spec fn view(&self) -> ProgressView {
        match self {
            Progress::Ask(request) => ProgressView::Ask(*request),
            Progress::Done(Ok(action)) => ProgressView::Done(Ok(action@)),
            Progress::Done(Err(e)) => ProgressView::Done(Err(*e)),
        }
    }
}

/// Where the resolver stands.
#[derive(Debug, Clone, Copy, PartialEq, Eq, Structural)]
pub enum Stage {
    /// It has asked for the record of the chat.
    FindingSubscriber,
    /// The chat had no record; it has asked for one.
    CreatingSubscriber,
    /// It knows the subscriber and has asked for its language.
    LoadingLanguage { subscriber_id: i32 },
    /// It knows the language and has asked for the descriptions format.
    LoadingDescriptionsFormat { subscriber_id: i32, language: Language },
    /// It has asked for the mutation of the command.
    Applying { language: Language },
    /// It has handed out its result.
    Done,
}

impl Stage {
    /// The number of replies that the resolver can still take at most.
    pub open spec fn remaining(self) -> nat {
        match self {
            Stage::FindingSubscriber => 5,
            Stage::CreatingSubscriber => 4,
            Stage::LoadingLanguage { .. } => 3,
            Stage::LoadingDescriptionsFormat { .. } => 2,
            Stage::Applying { .. } => 1,
            Stage::Done => 0,
        }
    }
}

/// The action that answers the command, or why there is none.
pub open spec fn answer_of(
    command: Command,
    language: Language,
    card: Option<CardDataView>,
    translation: TranslationView,
) -> ProgressView {
    ProgressView::Done(
        match action_of(command, language, card, translation) {
            Ok(action) => Ok(action),
            Err(e) => Err(ResolveError::Translation(e)),
        },
    )
}

/// The resolver of one command.
#[derive(Debug, Clone, Copy, PartialEq, Eq, Structural)]
pub struct Resolver {
    pub command: Command,
    pub stage: Stage,
}

impl Resolver {
    /// The resolver after `reply`, and how it goes on. The record is found
    /// or created first; then language and descriptions format are read,
    /// in this order; then the mutation of the command is asked for, if it
    /// has one; and only after that is the answer built, from the language
    /// that was read and the card that the mutation gave. A reply that
    /// does not answer what was asked ends the resolver.
    pub open spec fn after(self, reply: ReplyView, translation: TranslationView) -> (
        Resolver,
        ProgressView,
    ) {
        let out_of_turn = (
            Resolver { stage: Stage::Done, ..self },
            ProgressView::Done(Err(ResolveError::OutOfTurn)),
        );
        match (self.stage, reply) {
            (Stage::FindingSubscriber, ReplyView::Subscriber(Some(subscriber_id))) => (
                Resolver { stage: Stage::LoadingLanguage { subscriber_id }, ..self },
                ProgressView::Ask(Request::LoadLanguage { subscriber_id }),
            ),
            (Stage::FindingSubscriber, ReplyView::Subscriber(None)) => (
                Resolver { stage: Stage::CreatingSubscriber, ..self },
                ProgressView::Ask(Request::CreateSubscriber),
            ),
            (Stage::CreatingSubscriber, ReplyView::Created(subscriber_id)) => (
                Resolver { stage: Stage::LoadingLanguage { subscriber_id }, ..self },
                ProgressView::Ask(Request::LoadLanguage { subscriber_id }),
            ),
            (Stage::LoadingLanguage { subscriber_id }, ReplyView::Language(language)) => (
                Resolver {
                    stage: Stage::LoadingDescriptionsFormat { subscriber_id, language },
                    ..self
                },
                ProgressView::Ask(Request::LoadDescriptionsFormat { subscriber_id }),
            ),
            (
                Stage::LoadingDescriptionsFormat { subscriber_id, language },
                ReplyView::DescriptionsFormat(descriptions_format),
            ) => if self.command.spec_mutation() == Mutation::Nothing {
                (
                    Resolver { stage: Stage::Done, ..self },
                    answer_of(self.command, language, None, translation),
                )
            } else {
                (
                    Resolver { stage: Stage::Applying { language }, ..self },
                    ProgressView::Ask(
                        Request::Apply {
                            mutation: self.command.spec_mutation(),
                            language,
                            descriptions_format,
                            subscriber_id,
                        },
                    ),
                )
            },
            (Stage::Applying { language }, ReplyView::Applied(card)) => (
                Resolver { stage: Stage::Done, ..self },
                answer_of(self.command, language, card, translation),
            ),
            _ => out_of_turn,
        }
    }

    /// A resolver for `command`. Its first request is [`Request::FindSubscriber`].
    pub fn new(command: Command) -> (resolver: Resolver)
        ensures
            resolver == (Resolver { command, stage: Stage::FindingSubscriber }),
    {
        Resolver { command, stage: Stage::FindingSubscriber }
    }

    /// What a new resolver asks first.
    pub fn first_request(&self) -> (request: Request)
        ensures
            request == Request::FindSubscriber,
    {
        Request::FindSubscriber
    }

    /// Takes the reply to what was asked last and says how it goes on.
    pub fn advance(&mut self, reply: Reply, translation: &Translation) -> (progress: Progress)
        ensures
            (*final(self), progress@) == old(self).after(reply@, translation@),
            final(self).stage.remaining() < old(self).stage.remaining() || old(self).stage
                == Stage::Done,
            progress is Done <==> final(self).stage == Stage::Done,
    {
        let stage = self.stage;
        match (stage, reply) {
            (Stage::FindingSubscriber, Reply::Subscriber(Some(subscriber_id))) => {
                self.stage = Stage::LoadingLanguage { subscriber_id };
                Progress::Ask(Request::LoadLanguage { subscriber_id })
            },
            (Stage::FindingSubscriber, Reply::Subscriber(None)) => {
                self.stage = Stage::CreatingSubscriber;
                Progress::Ask(Request::CreateSubscriber)
            },
            (Stage::CreatingSubscriber, Reply::Created(subscriber_id)) => {
                self.stage = Stage::LoadingLanguage { subscriber_id };
                Progress::Ask(Request::LoadLanguage { subscriber_id })
            },
            (Stage::LoadingLanguage { subscriber_id }, Reply::Language(language)) => {
                self.stage = Stage::LoadingDescriptionsFormat { subscriber_id, language };
                Progress::Ask(Request::LoadDescriptionsFormat { subscriber_id })
            },
            (
                Stage::LoadingDescriptionsFormat { subscriber_id, language },
                Reply::DescriptionsFormat(descriptions_format),
            ) => {
                let mutation = self.command.mutation();
                match mutation {
                    Mutation::Nothing => {
                        self.stage = Stage::Done;
                        answer(self.command, language, None, translation)
                    },
                    _ => {
                        self.stage = Stage::Applying { language };
                        Progress::Ask(
                            Request::Apply {
                                mutation,
                                language,
                                descriptions_format,
                                subscriber_id,
                            },
                        )
                    },
                }
            },
            (Stage::Applying { language }, Reply::Applied(card)) => {
                self.stage = Stage::Done;
                answer(self.command, language, card, translation)
            },
            _ => {
                self.stage = Stage::Done;
                Progress::Done(Err(ResolveError::OutOfTurn))
            },
        }
    }
}

/// Builds the answer and wraps it as the last step of the resolver.
fn answer(
    command: Command,
    language: Language,
    card: Option<CardData>,
    translation: &Translation,
) -> (progress: Progress)
    ensures
        progress@ == answer_of(command, language, card_data_view(card), translation@),
{
    match respond(command, language, card, translation) {
        Ok(action) => Progress::Done(Ok(action)),
        Err(e) => Progress::Done(Err(ResolveError::Translation(e))),
    }
}

} // verus!
