//! The reply side of the protocol: the parsed response shape, the failure
//! taxonomy, and the decision taken on a raw HTTP outcome.

use vstd::prelude::*;

verus! {

/// One alternative translation of a text element.
#[derive(Debug)]
pub struct Alternative {
    pub text: String,
}

/// The translations returned for one text element: a primary translation
/// and zero or more alternatives.
#[derive(Debug)]
pub struct TranslatedText {
    pub alternatives: Vec<Alternative>,
    pub text: String,
}

/// One entry of the detected-language map. The confidence score is
/// carried as the decimal text of the wire value, which this crate only
/// transports and never computes with.
#[derive(Debug)]
pub struct DetectedLanguage {
    pub language: String,
    pub confidence: String,
}

/// The result block of a reply: translated texts plus detected-language
/// metadata.
#[derive(Debug)]
pub struct DeeplResult {
    pub texts: Vec<TranslatedText>,
    pub lang: String,
    pub lang_is_confident: bool,
    pub detected_languages: Vec<DetectedLanguage>,
}

/// A full reply envelope.
#[derive(Debug)]
pub struct DeepLResponse {
    pub jsonrpc: String,
    pub id: i64,
    pub result: DeeplResult,
}

/// A non-success HTTP outcome, kept raw for the caller's inspection.
#[derive(Debug)]
pub struct TransportFailure {
    pub status: u16,
    pub body: String,
}

/// Everything a translate call can fail with: a non-success status
/// carrying the raw response, or a success status whose body did not
/// decode to the expected shape (the raw body and the decoder's reason
/// are both kept).
#[derive(Debug)]
pub enum TranslateError {
    Transport(TransportFailure),
    Decode(String, String),
}

/// The HTTP status that counts as success.
pub const STATUS_OK: u16 = 200;

/// Decides what is done with the raw outcome of the HTTP exchange: a
/// success status hands the body on to decoding, and any other status is
/// a transport failure that carries the original status code and body
/// unchanged.
pub fn interpret_exchange(status: u16, body: String) -> (r: Result<String, TransportFailure>)
    ensures
        status == STATUS_OK <==> r is Ok,
        r is Ok ==> r->Ok_0@ == body@,
        r is Err ==> r->Err_0.status == status && r->Err_0.body@ == body@,
{
    if status == STATUS_OK {
        Ok(body)
    } else {
        Err(TransportFailure { status, body })
    }
}

} // verus!
