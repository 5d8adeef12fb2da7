use vstd::prelude::*;

use crate::external_api::pokemon::{PokeError, Pokemon};
use crate::external_api::shakespeare::TranslateError;
use crate::storage::db;

verus! {

/// The body of a successful answer.
#[derive(Debug, PartialEq, Eq)]
pub struct Response {
    pub name: String,
    pub description: String,
}

/// The body of an error answer.
#[derive(Debug, PartialEq, Eq)]
pub struct ErrorResponse {
    pub code: u16,
    pub message: String,
    pub error: String,
}

/// An outside service that the service calls.
#[derive(Debug, Clone, Copy, PartialEq, Eq, Structural)]
pub enum ExternalAPI {
    PokeAPI,
    Shakespeare,
}

/// Why a request for a description failed.
#[derive(Debug, Clone, Copy, PartialEq, Eq, Structural)]
pub enum ResponseError {
    NotFound,
    ExternalAPIError(ExternalAPI),
    StorageError,
}

/// The HTTP status of an answer naming an unknown Pokémon.
pub const NOT_FOUND: u16 = 404;

/// The HTTP status of an answer to a request that failed on the service's side.
pub const INTERNAL_SERVER_ERROR: u16 = 500;

/// How an outside service is written.
pub open spec fn external_api_text(api: ExternalAPI) -> Seq<char> {
    match api {
        ExternalAPI::PokeAPI => "PokeAPI"@,
        ExternalAPI::Shakespeare => "Shakespeare"@,
    }
}

/// The name of each error's kind.
pub open spec fn error_name(e: ResponseError) -> Seq<char> {
    match e {
        ResponseError::NotFound => "NotFound"@,
        ResponseError::ExternalAPIError(_) => "ExternalAPIError"@,
        ResponseError::StorageError => "StorageError"@,
    }
}

/// The text that describes each error.
pub open spec fn error_message(e: ResponseError) -> Seq<char> {
    match e {
        ResponseError::NotFound => "Pokemon not found"@,
        ResponseError::ExternalAPIError(api) => "Call to external API `"@ + external_api_text(api)
            + "` failed"@,
        ResponseError::StorageError => "Storage failed"@,
    }
}

/// The HTTP status with which each error is answered.
pub open spec fn error_status(e: ResponseError) -> u16 {
    match e {
        ResponseError::NotFound => NOT_FOUND,
        _ => INTERNAL_SERVER_ERROR,
    }
}

impl ExternalAPI {
    /// How the service is written.
    pub fn to_string(&self) -> (r: String)
        ensures
            r@ == external_api_text(*self),
    {
        match self {
            ExternalAPI::PokeAPI => String::from_str("PokeAPI"),
            ExternalAPI::Shakespeare => String::from_str("Shakespeare"),
        }
    }
}

impl ResponseError {
    /// The name of the error's kind.
    pub fn name(&self) -> (r: String)
        ensures
            r@ == error_name(*self),
    {
        match self {
            ResponseError::NotFound => String::from_str("NotFound"),
            ResponseError::ExternalAPIError(_) => String::from_str("ExternalAPIError"),
            ResponseError::StorageError => String::from_str("StorageError"),
        }
    }

    /// The text that describes the error.
    pub fn to_string(&self) -> (r: String)
        ensures
            r@ == error_message(*self),
    {
        match self {
            ResponseError::NotFound => String::from_str("Pokemon not found"),
            ResponseError::ExternalAPIError(api) => {
                let mut text = String::from_str("Call to external API `");
                let api_text = api.to_string();
                text.append(api_text.as_str());
                text.append("` failed");
                text
            },
            ResponseError::StorageError => String::from_str("Storage failed"),
        }
    }

    /// The HTTP status of the answer: 404 for an unknown Pokémon, 500 for
    /// any other failure.
    pub fn status_code(&self) -> (r: u16)
        ensures
            r == error_status(*self),
            r == NOT_FOUND <==> *self == ResponseError::NotFound,
    {
        match self {
            ResponseError::NotFound => NOT_FOUND,
            _ => INTERNAL_SERVER_ERROR,
        }
    }

    /// The body of the answer: the status, the error's text and its kind.
    pub fn error_response(&self) -> (r: ErrorResponse)
        ensures
            r.code == error_status(*self),
            r.message@ == error_message(*self),
            r.error@ == error_name(*self),
    {
        let code = self.status_code();
        ErrorResponse { code, message: self.to_string(), error: self.name() }
    }
}

/// Where the answer to one request for a description stands.
pub enum DescriptionFlow {
    /// Storage is being read for the named Pokémon.
    LookingUp { pokemon_name: String },
    /// The Pokédex is being asked for the Pokémon.
    Fetching,
    /// The Pokémon's description is being translated.
    Translating { id: i32, name: String, description: String },
    /// The Pokémon and its translation are being stored.
    Storing { name: String, translation: String },
    /// The request has been answered.
    Finished,
}

/// What came back of the outside work that an action asked for.
pub enum FlowEvent {
    /// The stored row of the Pokémon; `None` where reading failed or found none.
    StorageRead(Option<db::Pokemon>),
    /// What the Pokédex gave.
    PokemonFetched(Result<Pokemon, PokeError>),
    /// What the translation service gave.
    Translated(Result<String, TranslateError>),
    /// Whether storing succeeded.
    Stored(bool),
}

/// The outside work to do next, or the answer.
pub enum FlowAction {
    /// Read the stored row of the named Pokémon.
    ReadStorage { pokemon_name: String },
    /// Ask the Pokédex for the named Pokémon.
    FetchPokemon { pokemon_name: String },
    /// Ask the translation service to translate the text.
    Translate { text: String },
    /// Store the Pokémon with its description and its translation.
    Store { id: i32, name: String, description: String, shakespeare_description: String },
    /// Answer the request.
    Respond(Result<Response, ResponseError>),
}

/// How far the flow has gone: each step moves it further.
pub open spec fn flow_rank(state: DescriptionFlow) -> int {
    match state {
        DescriptionFlow::LookingUp { .. } => 0,
        DescriptionFlow::Fetching => 1,
        DescriptionFlow::Translating { .. } => 2,
        DescriptionFlow::Storing { .. } => 3,
        DescriptionFlow::Finished => 4,
    }
}

/// The event is what the state waits for.
pub open spec fn flow_accepts(state: DescriptionFlow, event: FlowEvent) -> bool {
    match state {
        DescriptionFlow::LookingUp { .. } => event is StorageRead,
        DescriptionFlow::Fetching => event is PokemonFetched,
        DescriptionFlow::Translating { .. } => event is Translated,
        DescriptionFlow::Storing { .. } => event is Stored,
        DescriptionFlow::Finished => false,
    }
}

/// The flow's first state and action for a request naming `pokemon_name`:
/// storage is read first.
pub open spec fn flow_start(pokemon_name: String) -> (DescriptionFlow, FlowAction) {
    (
        DescriptionFlow::LookingUp { pokemon_name },
        FlowAction::ReadStorage { pokemon_name },
    )
}

/// The next state and action on an event the state waits for.
///
/// A stored translation is answered at once. Otherwise the Pokédex is asked;
/// an unknown Pokémon is answered `NotFound`, any other Pokédex failure
/// `ExternalAPIError(PokeAPI)`. The description is translated; a failed
/// translation is answered `ExternalAPIError(Shakespeare)`. The Pokémon is
/// stored with both descriptions; a failed store is answered `StorageError`,
/// a successful one with the Pokémon's name and its translation.
pub open spec fn flow_next(state: DescriptionFlow, event: FlowEvent) -> (DescriptionFlow, FlowAction) {
    match state {
        DescriptionFlow::LookingUp { pokemon_name } => match event {
            FlowEvent::StorageRead(Some(record)) if record.shakespeare_description is Some => (
                DescriptionFlow::Finished,
                FlowAction::Respond(
                    Ok(
                        Response {
                            name: record.name,
                            description: record.shakespeare_description->0,
                        },
                    ),
                ),
            ),
            _ => (DescriptionFlow::Fetching, FlowAction::FetchPokemon { pokemon_name }),
        },
        DescriptionFlow::Fetching => match event {
            FlowEvent::PokemonFetched(Ok(p)) => (
                DescriptionFlow::Translating { id: p.id, name: p.name, description: p.description },
                FlowAction::Translate { text: p.description },
            ),
            FlowEvent::PokemonFetched(Err(PokeError::NotFound)) => (
                DescriptionFlow::Finished,
                FlowAction::Respond(Err(ResponseError::NotFound)),
            ),
            _ => (
                DescriptionFlow::Finished,
                FlowAction::Respond(Err(ResponseError::ExternalAPIError(ExternalAPI::PokeAPI))),
            ),
        },
        DescriptionFlow::Translating { id, name, description } => match event {
            FlowEvent::Translated(Ok(translation)) => (
                DescriptionFlow::Storing { name, translation },
                FlowAction::Store { id, name, description, shakespeare_description: translation },
            ),
            _ => (
                DescriptionFlow::Finished,
                FlowAction::Respond(
                    Err(ResponseError::ExternalAPIError(ExternalAPI::Shakespeare)),
                ),
            ),
        },
        DescriptionFlow::Storing { name, translation } => match event {
            FlowEvent::Stored(true) => (
                DescriptionFlow::Finished,
                FlowAction::Respond(Ok(Response { name, description: translation })),
            ),
            _ => (DescriptionFlow::Finished, FlowAction::Respond(Err(ResponseError::StorageError))),
        },
        // A finished flow waits for no event; `step` is never called on it.
        DescriptionFlow::Finished => (DescriptionFlow::Finished, FlowAction::Respond(
            Err(ResponseError::StorageError),
        )),
    }
}

/// A stored translation is answered at once, with the stored name and
/// translation, and no outside service is called.
pub proof fn lemma_stored_translation_is_answered_at_once(
    pokemon_name: String,
    record: db::Pokemon,
)
    requires
        record.shakespeare_description is Some,
    ensures
        flow_next(flow_start(pokemon_name).0, FlowEvent::StorageRead(Some(record))) == (
            DescriptionFlow::Finished,
            FlowAction::Respond(
                Ok(
                    Response {
                        name: record.name,
                        description: record.shakespeare_description->0,
                    },
                ),
            ),
        ),
{
}

/// A request that finds no stored translation, whose Pokémon is found and
/// translated and stored, is answered with the Pokémon's name and the
/// translation; and a later request to which storage gives back the row that
/// the first request stored is answered the same.
pub proof fn lemma_stored_translation_answers_again(
    pokemon_name: String,
    missed: Option<db::Pokemon>,
    pokemon: Pokemon,
    translation: String,
)
    requires
        missed matches Some(row) ==> row.shakespeare_description is None,
    ensures
        ({
            let s0 = flow_start(pokemon_name).0;
            let n1 = flow_next(s0, FlowEvent::StorageRead(missed));
            let n2 = flow_next(n1.0, FlowEvent::PokemonFetched(Ok(pokemon)));
            let n3 = flow_next(n2.0, FlowEvent::Translated(Ok(translation)));
            let n4 = flow_next(n3.0, FlowEvent::Stored(true));
            let answer = FlowAction::Respond(
                Ok(Response { name: pokemon.name, description: translation }),
            );
            &&& n4 == (DescriptionFlow::Finished, answer)
            &&& n3.1 matches FlowAction::Store { id, name, description, shakespeare_description }
                && flow_next(
                s0,
                FlowEvent::StorageRead(
                    Some(db::stored_row(id, name, description, shakespeare_description)),
                ),
            ) == (DescriptionFlow::Finished, answer)
        }),
{
}

/// The flow waits for what its last action asked for: a request starts by
/// taking any storage read, with or without a row; after asking to read
/// storage, the Pokédex, the translation service or to store, it takes any
/// outcome of that work; and it takes nothing once it has answered.
pub proof fn lemma_flow_accepts_what_it_asked_for(
    pokemon_name: String,
    state: DescriptionFlow,
    event: FlowEvent,
    read: Option<db::Pokemon>,
    fetched: Result<Pokemon, PokeError>,
    translated: Result<String, TranslateError>,
    stored: bool,
)
    requires
        flow_accepts(state, event),
    ensures
        flow_start(pokemon_name).1 is ReadStorage,
        flow_accepts(flow_start(pokemon_name).0, FlowEvent::StorageRead(read)),
        flow_accepts(DescriptionFlow::LookingUp { pokemon_name }, FlowEvent::StorageRead(read)),
        flow_next(state, event).1 is ReadStorage ==> flow_accepts(
            flow_next(state, event).0,
            FlowEvent::StorageRead(read),
        ),
        flow_next(state, event).1 is FetchPokemon ==> flow_accepts(
            flow_next(state, event).0,
            FlowEvent::PokemonFetched(fetched),
        ),
        flow_next(state, event).1 is Translate ==> flow_accepts(
            flow_next(state, event).0,
            FlowEvent::Translated(translated),
        ),
        flow_next(state, event).1 is Store ==> flow_accepts(
            flow_next(state, event).0,
            FlowEvent::Stored(stored),
        ),
        flow_next(state, event).1 is Respond ==> !flow_accepts(
            flow_next(state, event).0,
            FlowEvent::Stored(stored),
        ) && !flow_accepts(flow_next(state, event).0, FlowEvent::StorageRead(read)),
{
}

/// Whatever went wrong with the translation, the request is answered
/// `ExternalAPIError(Shakespeare)` and nothing is stored.
pub proof fn lemma_failed_translation_answers_shakespeare_error(
    id: i32,
    name: String,
    description: String,
    error: TranslateError,
)
    ensures
        flow_next(
            DescriptionFlow::Translating { id, name, description },
            FlowEvent::Translated(Err(error)),
        ) == (
            DescriptionFlow::Finished,
            FlowAction::Respond(
                Err::<Response, ResponseError>(
                    ResponseError::ExternalAPIError(ExternalAPI::Shakespeare),
                ),
            ),
        ),
{
}

/// Each answer and each store comes from the step that the service describes:
/// `NotFound` only when the Pokédex said it does not know the Pokémon;
/// `ExternalAPIError(PokeAPI)` only on another Pokédex failure;
/// `ExternalAPIError(Shakespeare)` only on a failed translation; `StorageError`
/// only on a failed store; a store only of a translation that the service
/// gave, with the Pokémon's id, name and description; and a successful answer
/// only of a stored translation or of one just stored.
pub proof fn lemma_answers_come_from_their_causes(state: DescriptionFlow, event: FlowEvent)
    requires
        flow_accepts(state, event),
    ensures
        flow_next(state, event).1 == FlowAction::Respond(
            Err::<Response, ResponseError>(ResponseError::NotFound),
        ) <==> (state is Fetching && event == FlowEvent::PokemonFetched(
            Err::<Pokemon, PokeError>(PokeError::NotFound),
        )),
        flow_next(state, event).1 == FlowAction::Respond(
            Err::<Response, ResponseError>(ResponseError::ExternalAPIError(ExternalAPI::PokeAPI)),
        ) <==> (state is Fetching && (event matches FlowEvent::PokemonFetched(Err(e))
            && e != PokeError::NotFound)),
        flow_next(state, event).1 == FlowAction::Respond(
            Err::<Response, ResponseError>(
                ResponseError::ExternalAPIError(ExternalAPI::Shakespeare),
            ),
        ) <==> (state is Translating && event matches FlowEvent::Translated(Err(_))),
        flow_next(state, event).1 == FlowAction::Respond(
            Err::<Response, ResponseError>(ResponseError::StorageError),
        ) <==> (state is Storing && event == FlowEvent::Stored(false)),
        flow_next(state, event).1 matches FlowAction::Store {
            id,
            name,
            description,
            shakespeare_description,
        } ==> (state == DescriptionFlow::Translating { id, name, description }
            && event == FlowEvent::Translated(
            Ok::<String, TranslateError>(shakespeare_description),
        )),
        flow_next(state, event).1 matches FlowAction::Respond(Ok(response)) ==> ((
        event matches FlowEvent::StorageRead(Some(row)) && row.name == response.name
            && row.shakespeare_description == Some(response.description)) || (state
            == DescriptionFlow::Storing { name: response.name, translation: response.description }
            && event == FlowEvent::Stored(true))),
{
}

/// The outside work that the flow asks for follows from what came before:
/// the Pokédex is asked for the requested name exactly when storage holds no
/// translation for it; the text sent for translation is the description that
/// the Pokédex gave, and the flow then keeps that Pokémon; after a store it
/// keeps the stored name and translation.
pub proof fn lemma_work_follows_from_what_came_before(state: DescriptionFlow, event: FlowEvent)
    requires
        flow_accepts(state, event),
    ensures
        flow_next(state, event).1 matches FlowAction::FetchPokemon { pokemon_name } ==> (state
            == (DescriptionFlow::LookingUp { pokemon_name }) && (event matches FlowEvent::StorageRead(
            read,
        ) && (read is None || read->0.shakespeare_description is None))),
        flow_next(state, event).1 matches FlowAction::Translate { text } ==> (state is Fetching && (
        event matches FlowEvent::PokemonFetched(Ok(p)) && p.description == text
            && flow_next(state, event).0 == (DescriptionFlow::Translating {
            id: p.id,
            name: p.name,
            description: p.description,
        }))),
        flow_next(state, event).1 matches FlowAction::Store {
            name,
            shakespeare_description,
            ..
        } ==> flow_next(state, event).0 == (DescriptionFlow::Storing {
            name,
            translation: shakespeare_description,
        }),
        flow_next(state, event).1 is ReadStorage ==> false,
{
}

/// How each failure is answered: 404 for an unknown Pokémon, 500 for any
/// other, with these texts and kinds.
pub proof fn lemma_error_answers(e: ResponseError)
    ensures
        error_status(e) == (if e == ResponseError::NotFound {
            404u16
        } else {
            500u16
        }),
        e == ResponseError::NotFound ==> error_message(e) == "Pokemon not found"@ && error_name(e)
            == "NotFound"@,
        e == ResponseError::ExternalAPIError(ExternalAPI::PokeAPI) ==> error_message(e)
            == "Call to external API `"@ + "PokeAPI"@ + "` failed"@ && error_name(e)
            == "ExternalAPIError"@,
        e == ResponseError::ExternalAPIError(ExternalAPI::Shakespeare) ==> error_message(e)
            == "Call to external API `"@ + "Shakespeare"@ + "` failed"@ && error_name(e)
            == "ExternalAPIError"@,
        e == ResponseError::StorageError ==> error_message(e) == "Storage failed"@ && error_name(e)
            == "StorageError"@,
{
}

impl DescriptionFlow {
    /// Starts answering a request naming `pokemon_name`: read storage first.
    pub fn start(pokemon_name: String) -> (r: (DescriptionFlow, FlowAction))
        ensures
            r == flow_start(pokemon_name),
            r.0 == (DescriptionFlow::LookingUp { pokemon_name }),
            r.1 == (FlowAction::ReadStorage { pokemon_name }),
    {
        let action = FlowAction::ReadStorage { pokemon_name: pokemon_name.clone() };
        (DescriptionFlow::LookingUp { pokemon_name }, action)
    }

    /// Whether the event is the one this state waits for.
    pub fn accepts(&self, event: &FlowEvent) -> (r: bool)
        ensures
            r == flow_accepts(*self, *event),
            self is LookingUp ==> (r <==> event is StorageRead),
            self is Fetching ==> (r <==> event is PokemonFetched),
            self is Translating ==> (r <==> event is Translated),
            self is Storing ==> (r <==> event is Stored),
            self is Finished ==> !r,
    {
        match self {
            DescriptionFlow::LookingUp { .. } => matches!(event, FlowEvent::StorageRead(_)),
            DescriptionFlow::Fetching => matches!(event, FlowEvent::PokemonFetched(_)),
            DescriptionFlow::Translating { .. } => matches!(event, FlowEvent::Translated(_)),
            DescriptionFlow::Storing { .. } => matches!(event, FlowEvent::Stored(_)),
            DescriptionFlow::Finished => false,
        }
    }

    /// Takes the event that the state waits for to the next state and action.
    /// The flow moves forward on every step, and it answers exactly when it
    /// finishes.
    pub fn step(self, event: FlowEvent) -> (r: (DescriptionFlow, FlowAction))
        requires
            flow_accepts(self, event),
        ensures
            r == flow_next(self, event),
            flow_rank(r.0) > flow_rank(self),
            r.0 is Finished <==> r.1 is Respond,
            (self is Translating && event matches FlowEvent::Translated(Err(_))) ==> r.1
                == FlowAction::Respond(
                Err::<Response, ResponseError>(ResponseError::ExternalAPIError(ExternalAPI::Shakespeare)),
            ),
            r.1 == FlowAction::Respond(Err::<Response, ResponseError>(ResponseError::NotFound)) <==> (
            self is Fetching && event == FlowEvent::PokemonFetched(
                Err::<Pokemon, PokeError>(PokeError::NotFound),
            )),
            r.1 matches FlowAction::Store { shakespeare_description, .. } ==> (self is Translating
                && event == FlowEvent::Translated(
                Ok::<String, TranslateError>(shakespeare_description),
            )),
    {
        match self {
            DescriptionFlow::LookingUp { pokemon_name } => match event {
                FlowEvent::StorageRead(Some(record)) => {
                    let db::Pokemon { id: _, name, description: _, shakespeare_description } =
                        record;
                    match shakespeare_description {
                        Some(description) => (
                            DescriptionFlow::Finished,
                            FlowAction::Respond(Ok(Response { name, description })),
                        ),
                        None => (DescriptionFlow::Fetching, FlowAction::FetchPokemon { pokemon_name }),
                    }
                },
                _ => (DescriptionFlow::Fetching, FlowAction::FetchPokemon { pokemon_name }),
            },
            DescriptionFlow::Fetching => match event {
                FlowEvent::PokemonFetched(Ok(p)) => {
                    let Pokemon { id, name, description } = p;
                    let text = description.clone();
                    (
                        DescriptionFlow::Translating { id, name, description },
                        FlowAction::Translate { text },
                    )
                },
                FlowEvent::PokemonFetched(Err(PokeError::NotFound)) => (
                    DescriptionFlow::Finished,
                    FlowAction::Respond(Err(ResponseError::NotFound)),
                ),
                _ => (
                    DescriptionFlow::Finished,
                    FlowAction::Respond(Err(ResponseError::ExternalAPIError(ExternalAPI::PokeAPI))),
                ),
            },
            DescriptionFlow::Translating { id, name, description } => match event {
                FlowEvent::Translated(Ok(translation)) => {
                    let stored_name = name.clone();
                    let stored_translation = translation.clone();
                    (
                        DescriptionFlow::Storing { name, translation },
                        FlowAction::Store {
                            id,
                            name: stored_name,
                            description,
                            shakespeare_description: stored_translation,
                        },
                    )
                },
                _ => (
                    DescriptionFlow::Finished,
                    FlowAction::Respond(
                        Err(ResponseError::ExternalAPIError(ExternalAPI::Shakespeare)),
                    ),
                ),
            },
            DescriptionFlow::Storing { name, translation } => match event {
                FlowEvent::Stored(true) => (
                    DescriptionFlow::Finished,
                    FlowAction::Respond(Ok(Response { name, description: translation })),
                ),
                _ => (
                    DescriptionFlow::Finished,
                    FlowAction::Respond(Err(ResponseError::StorageError)),
                ),
            },
            DescriptionFlow::Finished => (
                DescriptionFlow::Finished,
                FlowAction::Respond(Err(ResponseError::StorageError)),
            ),
        }
    }
}

} // verus!
