//! Client-side request construction for a JSON-RPC translation endpoint.
//!
//! The heart of the crate is the request-fidelity logic: a synthesized
//! numeric request id, a timestamp aligned to a text-derived modulus, and a
//! canonical JSON rendering of the request envelope whose method-key spacing
//! is varied deterministically from the id. All of that is verified here;
//! the HTTP exchange itself is left to unverified callers, which hand the
//! raw status and body back to [`response::interpret_exchange`].

pub mod clock;
pub mod encoding;
pub mod envelope;
pub mod flow;
pub mod ident;
pub mod response;
pub mod timing;

pub use envelope::{
    dump_post_data, padded_variant, serialized_request, CommonJobParams, Lang, Params, PostData,
    Text,
};
pub use flow::{prepare_request, PreparedRequest};
pub use ident::random_number_id;
pub use response::{
    interpret_exchange, Alternative, DeepLResponse, DeeplResult, DetectedLanguage,
    TranslateError, TranslatedText, TransportFailure, STATUS_OK,
};
pub use timing::{align_timestamp, alignment_count, timestamp_for_i_count};
