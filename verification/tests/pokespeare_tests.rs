use pokespeare::external_api::pokemon::{
    clean_flavour_text, english_flavour_index, pokemon_from_entry, pokemon_from_reply,
    FlavourTextEntry, Language, PokeError, PokedexEntry,
};
use pokespeare::external_api::shakespeare::{
    translation_from_reply, ApiResponse, Contents, SuccessFlag, TranslateError,
};
use pokespeare::routes::pokemon_description::{
    DescriptionFlow, ErrorResponse, FlowAction, FlowEvent, Response,
};
use pokespeare::routes::{ExternalAPI, ResponseError};
use pokespeare::storage::db;

fn flavour(text: &str, language: &str) -> FlavourTextEntry {
    FlavourTextEntry {
        flavor_text: text.to_string(),
        language: Language { name: language.to_string() },
    }
}

fn charizard_entry() -> PokedexEntry {
    PokedexEntry {
        id: 6,
        name: "charizard".to_string(),
        flavor_text_entries: vec![
            flavour("岩石をも 溶かしてしまうほど 高熱の 炎を 吐く。", "ja"),
            flavour(
                "Spits fire that\nis hot enough to\u{c}melt boulders.\nKnown to cause\nforest fires\u{c}unintentionally.",
                "en",
            ),
            flavour("When expelling a blast of super hot fire, the red flame at the tip of its tail burns more intensely.", "en"),
        ],
    }
}

fn translation_reply(total: i32, translated: &str) -> ApiResponse {
    ApiResponse {
        success: SuccessFlag { total },
        contents: Contents { translated: translated.to_string() },
    }
}

const CHARIZARD_TRANSLATION: &str = "Spits fire yond is hot enow to melt boulders. Known to cause forest fires unintentionally.";

#[test]
fn pokemon_test_success_response() {
    match pokemon_from_reply(Some(200), Some(charizard_entry())) {
        Ok(pokemon) => {
            assert_eq!(pokemon.id, 6);
            assert_eq!(pokemon.name, "charizard");
            assert_eq!(
                pokemon.description,
                "Spits fire that is hot enough to melt boulders. Known to cause forest fires unintentionally."
            );
        }
        Err(err) => panic!("{}", err.message()),
    }
}

#[test]
fn pokemon_test_bad_input() {
    let result = pokemon_from_reply(Some(404), None);
    assert!(result.is_err());
    assert_eq!(result.err().unwrap(), PokeError::NotFound);
}

#[test]
fn pokemon_test_malformed_output() {
    let result = pokemon_from_reply(Some(200), None);
    assert!(result.is_err());
    assert_eq!(result.err().unwrap(), PokeError::APIError);
}

#[test]
fn test_empty_output() {
    let entry = PokedexEntry {
        id: 6,
        name: "charizard".to_string(),
        flavor_text_entries: vec![flavour("Crache du feu.", "fr")],
    };
    let result = pokemon_from_reply(Some(200), Some(entry));
    assert!(result.is_err());
    assert_eq!(result.err().unwrap(), PokeError::NoFlavourText);
}

#[test]
fn pokemon_error_messages() {
    assert_eq!(PokeError::NotFound.message(), "Not Found");
    assert_eq!(PokeError::NoFlavourText.message(), "No Flavour Text");
    assert_eq!(PokeError::APIError.message(), "APIError");
}

#[test]
fn pokemon_reply_without_answer_is_api_error() {
    assert_eq!(pokemon_from_reply(None, Some(charizard_entry())).err().unwrap(), PokeError::APIError);
}

#[test]
fn pokemon_not_found_ignores_body() {
    assert_eq!(
        pokemon_from_reply(Some(404), Some(charizard_entry())).err().unwrap(),
        PokeError::NotFound
    );
}

#[test]
fn pokemon_other_status_with_entry_is_read() {
    let pokemon = pokemon_from_reply(Some(500), Some(charizard_entry())).ok().unwrap();
    assert_eq!(pokemon.id, 6);
}

#[test]
fn entry_without_flavour_texts_has_no_description() {
    let entry = PokedexEntry { id: 3, name: "venusaur".to_string(), flavor_text_entries: vec![] };
    assert_eq!(pokemon_from_entry(entry).err().unwrap(), PokeError::NoFlavourText);
}

#[test]
fn first_english_flavour_is_chosen() {
    let entries = charizard_entry().flavor_text_entries;
    assert_eq!(english_flavour_index(&entries), Some(1));
    let none = vec![flavour("a", "de"), flavour("b", "EN"), flavour("c", "en-gb")];
    assert_eq!(english_flavour_index(&none), None);
    assert_eq!(english_flavour_index(&vec![]), None);
}

#[test]
fn cleaning_replaces_form_and_line_feeds() {
    assert_eq!(clean_flavour_text("a\nb\u{c}c\rd\te"), "a b c\rd\te");
    assert_eq!(clean_flavour_text(""), "");
    assert_eq!(clean_flavour_text("\n\n"), "  ");
    assert_eq!(clean_flavour_text("pokémon\u{c}"), "pokémon ");
}

#[test]
fn cleaning_twice_is_cleaning_once() {
    let once = clean_flavour_text("x\ny\u{c}z");
    assert_eq!(clean_flavour_text(&once), once);
    assert!(!once.contains('\n') && !once.contains('\u{c}'));
}

#[test]
fn shakespeare_test_success_response() {
    let translation = translation_from_reply(
        Ok(200),
        Ok(translation_reply(1, "Thee did giveth mr. Tim a hearty meal,  but unfortunately what he did doth englut did maketh him kicketh the bucket.")),
    );
    match translation {
        Ok(translation) => {
            assert_eq!(translation, "Thee did giveth mr. Tim a hearty meal,  but unfortunately what he did doth englut did maketh him kicketh the bucket.");
        }
        Err(err) => panic!("{}", err.message()),
    }
}

#[test]
fn shakespeare_test_bad_input() {
    let result = translation_from_reply(Ok(404), Err(String::new()));
    assert!(result.is_err());
    assert_eq!(result.err().unwrap(), TranslateError::NonOkStatus);
}

#[test]
fn shakespeare_test_malformed_output() {
    let reading_error = "error decoding response body: missing field `contents`".to_string();
    let result = translation_from_reply(Ok(200), Err(reading_error.clone()));
    assert!(result.is_err());
    let err = result.err().unwrap();
    assert_eq!(err.message(), reading_error);
    assert_eq!(err, TranslateError::Malformed(reading_error));
}

#[test]
fn untranslated_reply_is_an_error() {
    let result = translation_from_reply(Ok(200), Ok(translation_reply(0, "ignored")));
    assert_eq!(result.err().unwrap(), TranslateError::NotTranslated);
    let result = translation_from_reply(Ok(200), Ok(translation_reply(-1, "ignored")));
    assert_eq!(result.err().unwrap(), TranslateError::NotTranslated);
}

#[test]
fn translation_errors() {
    let request_error = "error sending request for url (https://api.funtranslations.com/translate/shakespeare.json)".to_string();
    let err = translation_from_reply(Err(request_error.clone()), Ok(translation_reply(1, "x")))
        .err()
        .unwrap();
    assert_eq!(err.message(), request_error);
    assert_eq!(err, TranslateError::RequestFailed(request_error));
    assert_eq!(
        translation_from_reply(Ok(201), Ok(translation_reply(1, "x"))).err().unwrap(),
        TranslateError::NonOkStatus
    );
    assert_eq!(TranslateError::NonOkStatus.message(), "Received non-200 response");
    assert_eq!(TranslateError::NotTranslated.message(), "Failed to translate");
}

#[test]
fn error_names() {
    assert_eq!(ResponseError::NotFound.name(), "NotFound");
    assert_eq!(ResponseError::ExternalAPIError(ExternalAPI::PokeAPI).name(), "ExternalAPIError");
    assert_eq!(ResponseError::ExternalAPIError(ExternalAPI::Shakespeare).name(), "ExternalAPIError");
    assert_eq!(ResponseError::StorageError.name(), "StorageError");
}

#[test]
fn error_messages() {
    assert_eq!(ResponseError::NotFound.to_string(), "Pokemon not found");
    assert_eq!(
        ResponseError::ExternalAPIError(ExternalAPI::PokeAPI).to_string(),
        "Call to external API `PokeAPI` failed"
    );
    assert_eq!(
        ResponseError::ExternalAPIError(ExternalAPI::Shakespeare).to_string(),
        "Call to external API `Shakespeare` failed"
    );
    assert_eq!(ResponseError::StorageError.to_string(), "Storage failed");
    assert_eq!(ExternalAPI::PokeAPI.to_string(), "PokeAPI");
    assert_eq!(ExternalAPI::Shakespeare.to_string(), "Shakespeare");
}

#[test]
fn error_status_codes() {
    assert_eq!(ResponseError::NotFound.status_code(), 404);
    assert_eq!(ResponseError::ExternalAPIError(ExternalAPI::PokeAPI).status_code(), 500);
    assert_eq!(ResponseError::ExternalAPIError(ExternalAPI::Shakespeare).status_code(), 500);
    assert_eq!(ResponseError::StorageError.status_code(), 500);
}

#[test]
fn error_bodies() {
    assert_eq!(
        ResponseError::NotFound.error_response(),
        ErrorResponse {
            code: 404,
            message: "Pokemon not found".to_string(),
            error: "NotFound".to_string(),
        }
    );
    assert_eq!(
        ResponseError::ExternalAPIError(ExternalAPI::Shakespeare).error_response(),
        ErrorResponse {
            code: 500,
            message: "Call to external API `Shakespeare` failed".to_string(),
            error: "ExternalAPIError".to_string(),
        }
    );
}

fn expect_answer(action: FlowAction) -> Result<Response, ResponseError> {
    match action {
        FlowAction::Respond(answer) => answer,
        _ => panic!("expected an answer"),
    }
}

fn run_fresh(
    fetched: Result<pokespeare::external_api::pokemon::Pokemon, PokeError>,
    translated: Result<String, TranslateError>,
    stored: bool,
) -> (Vec<FlowAction>, Result<Response, ResponseError>) {
    let mut actions = Vec::new();
    let (state, action) = DescriptionFlow::start("charizard".to_string());
    actions.push(action);
    let mut events = vec![
        FlowEvent::StorageRead(None),
        FlowEvent::PokemonFetched(fetched),
        FlowEvent::Translated(translated),
        FlowEvent::Stored(stored),
    ]
    .into_iter();
    let mut state = state;
    loop {
        let event = events.next().expect("flow asked for more work than there is");
        assert!(state.accepts(&event));
        let (next, action) = state.step(event);
        state = next;
        if let FlowAction::Respond(answer) = action {
            assert!(matches!(state, DescriptionFlow::Finished));
            return (actions, answer);
        }
        actions.push(action);
    }
}

fn charizard() -> pokespeare::external_api::pokemon::Pokemon {
    pokemon_from_entry(charizard_entry()).ok().unwrap()
}

#[test]
fn flow_starts_by_reading_storage() {
    let (state, action) = DescriptionFlow::start("pikachu".to_string());
    assert!(matches!(action, FlowAction::ReadStorage { ref pokemon_name } if pokemon_name == "pikachu"));
    assert!(matches!(state, DescriptionFlow::LookingUp { .. }));
    assert!(state.accepts(&FlowEvent::StorageRead(None)));
    assert!(!state.accepts(&FlowEvent::Stored(true)));
}

#[test]
fn stored_translation_is_answered_at_once() {
    let (state, _) = DescriptionFlow::start("pikachu".to_string());
    let row = db::Pokemon {
        id: 25,
        name: "pikachu".to_string(),
        description: Some("When several of these POKéMON gather, their electricity could build and cause lightning storms.".to_string()),
        shakespeare_description: Some("At which hour several of these pokémon gather,  their electricity couldst buildeth and cause lightning storms.".to_string()),
    };
    let (state, action) = state.step(FlowEvent::StorageRead(Some(row)));
    assert!(matches!(state, DescriptionFlow::Finished));
    assert_eq!(
        expect_answer(action),
        Ok(Response {
            name: "pikachu".to_string(),
            description: "At which hour several of these pokémon gather,  their electricity couldst buildeth and cause lightning storms.".to_string(),
        })
    );
}

#[test]
fn row_without_translation_is_a_miss() {
    let (state, _) = DescriptionFlow::start("pikachu".to_string());
    let row = db::Pokemon {
        id: 25,
        name: "pikachu".to_string(),
        description: Some("Electric.".to_string()),
        shakespeare_description: None,
    };
    let (state, action) = state.step(FlowEvent::StorageRead(Some(row)));
    assert!(matches!(state, DescriptionFlow::Fetching));
    assert!(matches!(action, FlowAction::FetchPokemon { ref pokemon_name } if pokemon_name == "pikachu"));
}

#[test]
fn pokemon_fetch_works() {
    let (actions, answer) = run_fresh(Ok(charizard()), Ok(CHARIZARD_TRANSLATION.to_string()), true);
    let response = answer.ok().unwrap();
    assert_eq!(response.name, "charizard");
    assert_eq!(response.description, CHARIZARD_TRANSLATION);
    assert_eq!(actions.len(), 4);
    assert!(matches!(&actions[2], FlowAction::Translate { text } if text == "Spits fire that is hot enough to melt boulders. Known to cause forest fires unintentionally."));
    match &actions[3] {
        FlowAction::Store { id, name, description, shakespeare_description } => {
            assert_eq!(*id, 6);
            assert_eq!(name, "charizard");
            assert_eq!(description, "Spits fire that is hot enough to melt boulders. Known to cause forest fires unintentionally.");
            assert_eq!(shakespeare_description, CHARIZARD_TRANSLATION);
        }
        _ => panic!("expected a store"),
    }
}

#[test]
fn stored_row_answers_the_next_request_the_same() {
    let (actions, first) = run_fresh(Ok(charizard()), Ok(CHARIZARD_TRANSLATION.to_string()), true);
    let row = match actions.into_iter().nth(3).unwrap() {
        FlowAction::Store { id, name, description, shakespeare_description } => db::Pokemon {
            id,
            name,
            description: Some(description),
            shakespeare_description: Some(shakespeare_description),
        },
        _ => panic!("expected a store"),
    };
    let (state, _) = DescriptionFlow::start("charizard".to_string());
    let (_, action) = state.step(FlowEvent::StorageRead(Some(row)));
    assert_eq!(expect_answer(action), first);
}

#[test]
fn unknown_pokemon_is_not_found() {
    let (actions, answer) = run_fresh(Err(PokeError::NotFound), Ok(String::new()), true);
    assert_eq!(actions.len(), 2);
    let error = answer.err().unwrap();
    assert_eq!(error, ResponseError::NotFound);
    assert_eq!(error.status_code(), 404);
}

#[test]
fn pokedex_failure_is_a_pokeapi_error() {
    for err in [PokeError::APIError, PokeError::NoFlavourText] {
        let (_, answer) = run_fresh(Err(err), Ok(String::new()), true);
        assert_eq!(answer.err().unwrap(), ResponseError::ExternalAPIError(ExternalAPI::PokeAPI));
    }
}

#[test]
fn translation_failure_is_a_shakespeare_error() {
    let (actions, answer) = run_fresh(Ok(charizard()), Err(TranslateError::NotTranslated), true);
    assert_eq!(actions.len(), 3);
    assert_eq!(answer.err().unwrap(), ResponseError::ExternalAPIError(ExternalAPI::Shakespeare));
}

#[test]
fn failed_store_is_a_storage_error() {
    let (_, answer) = run_fresh(Ok(charizard()), Ok(CHARIZARD_TRANSLATION.to_string()), false);
    let error = answer.err().unwrap();
    assert_eq!(error, ResponseError::StorageError);
    assert_eq!(error.status_code(), 500);
}

#[test]
fn finished_flow_accepts_nothing() {
    let state = DescriptionFlow::Finished;
    assert!(!state.accepts(&FlowEvent::Stored(true)));
    assert!(!state.accepts(&FlowEvent::StorageRead(None)));
}
