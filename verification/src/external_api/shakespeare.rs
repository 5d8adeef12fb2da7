use vstd::prelude::*;

verus! {

/// The `success` block of a translation reply.
pub struct SuccessFlag {
    pub total: i32,
}

/// The `contents` block of a translation reply.
pub struct Contents {
    pub translated: String,
}

/// The part of a translation reply that the service reads.
pub struct ApiResponse {
    pub success: SuccessFlag,
    pub contents: Contents,
}

/// Why a text could not be translated.
#[derive(Debug, PartialEq, Eq)]
pub enum TranslateError {
    /// No reply came from the translation service; the text is the request's error.
    RequestFailed(String),
    /// The reply's status was not 200.
    NonOkStatus,
    /// The reply's body could not be read as a translation reply; the text is
    /// the reading error.
    Malformed(String),
    /// The reply counts no translated text.
    NotTranslated,
}

/// The HTTP status of a reply that carries a translation.
pub const OK_STATUS: u16 = 200;

/// The text of each error: that of the request's or the reading error where
/// one of them failed.
pub open spec fn translate_error_message(e: TranslateError) -> Seq<char> {
    match e {
        TranslateError::RequestFailed(text) => text@,
        TranslateError::NonOkStatus => "Received non-200 response"@,
        TranslateError::Malformed(text) => text@,
        TranslateError::NotTranslated => "Failed to translate"@,
    }
}

impl TranslateError {
    /// The error's text.
    pub fn message(&self) -> (r: String)
        ensures
            r@ == translate_error_message(*self),
    {
        match self {
            TranslateError::RequestFailed(text) => text.clone(),
            TranslateError::NonOkStatus => String::from_str("Received non-200 response"),
            TranslateError::Malformed(text) => text.clone(),
            TranslateError::NotTranslated => String::from_str("Failed to translate"),
        }
    }
}

/// The texts of the translation errors: a failed request and an unreadable
/// reply give the text of the outside error they carry.
pub proof fn lemma_translate_error_texts(text: String)
    ensures
        translate_error_message(TranslateError::RequestFailed(text)) == text@,
        translate_error_message(TranslateError::Malformed(text)) == text@,
        translate_error_message(TranslateError::NonOkStatus) == "Received non-200 response"@,
        translate_error_message(TranslateError::NotTranslated) == "Failed to translate"@,
{
}

/// What a reply of the translation service gives. `status` is the reply's
/// HTTP status, or the request's error text where no reply came; `body` is
/// the reply's body read as a translation reply, or the reading error's text.
/// The body is looked at only where the status is 200. The translation is had
/// only from a 200 reply that counts a translated text.
pub fn translation_from_reply(
    status: Result<u16, String>,
    body: Result<ApiResponse, String>,
) -> (r: Result<String, TranslateError>)
    ensures
        match status {
            Err(text) => r == Err::<String, TranslateError>(TranslateError::RequestFailed(text)),
            Ok(s) => if s != OK_STATUS {
                r == Err::<String, TranslateError>(TranslateError::NonOkStatus)
            } else {
                match body {
                    Err(text) => r == Err::<String, TranslateError>(
                        TranslateError::Malformed(text),
                    ),
                    Ok(reply) => if reply.success.total <= 0 {
                        r == Err::<String, TranslateError>(TranslateError::NotTranslated)
                    } else {
                        r matches Ok(t) && t@ == reply.contents.translated@
                    },
                }
            },
        },
{
    match status {
        Err(text) => Err(TranslateError::RequestFailed(text)),
        Ok(s) => {
            if s != OK_STATUS {
                Err(TranslateError::NonOkStatus)
            } else {
                match body {
                    Err(text) => Err(TranslateError::Malformed(text)),
                    Ok(reply) => {
                        if reply.success.total <= 0 {
                            Err(TranslateError::NotTranslated)
                        } else {
                            Ok(reply.contents.translated)
                        }
                    },
                }
            }
        },
    }
}

} // verus!
