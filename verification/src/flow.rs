//! The translate operation's computational flow: everything up to (and the
//! interpretation after) the HTTP exchange itself.

use crate::envelope::{
    serialized_request, spec_obfuscated, spec_request_envelope, CommonJobParams, Lang, Params,
    PostData, Text,
};
use crate::ident::random_number_id;
use crate::clock::MILLIS_CLOCK_BOUND;
use crate::timing::{
    alignment_count, lemma_lf_count_le_len, spec_aligned_timestamp, spec_lf_count,
    timestamp_for_i_count,
};
use vstd::prelude::*;
use vstd::string::StringExecFns;
use vstd::string::StringSliceAdditionalSpecFns;

verus! {

/// A fully built outbound request: the wire payload together with the id,
/// the aligned timestamp and the alignment count that were baked into it.
#[derive(Debug)]
pub struct PreparedRequest {
    pub payload: String,
    pub id: i64,
    pub timestamp: u128,
    pub count: u128,
}

/// Builds the wire payload for one translate call: derives the alignment
/// count from a provisional timestamp and the text's line-feed bytes,
/// synthesizes the id, aligns the timestamp to the count, fills the
/// envelope and renders it with the id-keyed spacing variant.
pub fn prepare_request(text: &str, src_lang: &str, target_lang: &str) -> (r: PreparedRequest)
    ensures
        8_300_000_000 <= r.id < 8_399_998_000,
        r.id % 1000 == 0,
        r.count >= spec_lf_count(text.spec_bytes()),
        r.count < MILLIS_CLOCK_BOUND + 1 + spec_lf_count(text.spec_bytes()),
        exists|raw: u128|
            raw < MILLIS_CLOCK_BOUND && r.timestamp == spec_aligned_timestamp(
                raw as int,
                r.count as int,
            ),
        r.count != 0 ==> (r.timestamp as int) % (r.count as int + 1) == 0,
        r.payload@ == spec_obfuscated(
            spec_request_envelope(
                r.id as int,
                r.timestamp as nat,
                text@,
                src_lang@,
                target_lang@,
            ),
        ),
{
    let provisional = timestamp_for_i_count(0);
    let count = alignment_count(text, provisional);
    let id = random_number_id();
    proof {
        lemma_lf_count_le_len(text.spec_bytes());
    }
    let timestamp = timestamp_for_i_count(count);
    let mut texts: Vec<Text> = Vec::new();
    texts.push(Text { text: String::from_str(text), request_alternatives: 0 });
    let post_data = PostData {
        jsonrpc: String::from_str("2.0"),
        method: String::from_str("LMT_handle_texts"),
        id,
        params: Params {
            texts,
            splitting: String::from_str("newlines"),
            lang: Lang {
                source_lang_user_selected: String::from_str(src_lang),
                target_lang: String::from_str(target_lang),
            },
            timestamp,
            common_job_params: CommonJobParams {
                was_spoken: false,
                transcribe_as: String::from_str(""),
            },
        },
    };
    proof {
        let ghost env = spec_request_envelope(
            id as int,
            timestamp as nat,
            text@,
            src_lang@,
            target_lang@,
        );
        assert(post_data@.params.texts.len() == 1);
        assert(post_data@.params.texts[0] =~= env.params.texts[0]);
        assert(post_data@.params.texts =~= env.params.texts);
        assert(post_data@.params =~= env.params);
        assert(post_data@ =~= env);
    }
    let payload = serialized_request(&post_data);
    PreparedRequest { payload, id, timestamp, count }
}

} // verus!
