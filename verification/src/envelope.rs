//! The outbound request envelope and its canonical JSON rendering.
//!
//! The envelope is rendered to the exact byte shape the upstream endpoint
//! expects: fixed key order, no whitespace, except for a deliberate,
//! id-keyed variation in the spacing around the `method` key's colon.

use crate::encoding::{
    append_dec_i64, append_dec_u128, append_escaped, spec_dec_digits, spec_escape,
    spec_int_digits,
};
use vstd::arithmetic::div_mod::{lemma_fundamental_div_mod, lemma_mod_multiples_basic};
use vstd::prelude::*;
use vstd::string::StringExecFns;

verus! {

/// The language pair of one request.
#[derive(Debug)]
pub struct Lang {
    pub source_lang_user_selected: String,
    pub target_lang: String,
}

/// Fixed job parameters sent with every request.
#[derive(Debug)]
pub struct CommonJobParams {
    pub was_spoken: bool,
    pub transcribe_as: String,
}

/// One text element of a request, with its "alternatives requested" count.
#[derive(Debug)]
pub struct Text {
    pub text: String,
    pub request_alternatives: i32,
}

/// The parameters block of the envelope.
#[derive(Debug)]
pub struct Params {
    pub texts: Vec<Text>,
    pub splitting: String,
    pub lang: Lang,
    pub timestamp: u128,
    pub common_job_params: CommonJobParams,
}

/// The full outbound payload: protocol version, method name, synthesized
/// id and the parameters block.
#[derive(Debug)]
pub struct PostData {
    pub jsonrpc: String,
    pub method: String,
    pub id: i64,
    pub params: Params,
}

/// Mathematical model of a language pair.
#[verifier::ext_equal]
pub ghost struct LangView {
    pub source_lang_user_selected: Seq<char>,
    pub target_lang: Seq<char>,
}

/// Mathematical model of the fixed job parameters.
#[verifier::ext_equal]
pub ghost struct CommonJobParamsView {
    pub was_spoken: bool,
    pub transcribe_as: Seq<char>,
}

/// Mathematical model of one text element.
#[verifier::ext_equal]
pub ghost struct TextView {
    pub text: Seq<char>,
    pub request_alternatives: int,
}

/// Mathematical model of the parameters block.
#[verifier::ext_equal]
pub ghost struct ParamsView {
    pub texts: Seq<TextView>,
    pub splitting: Seq<char>,
    pub lang: LangView,
    pub timestamp: nat,
    pub common_job_params: CommonJobParamsView,
}

/// Mathematical model of the full envelope.
#[verifier::ext_equal]
pub ghost struct PostDataView {
    pub jsonrpc: Seq<char>,
    pub method: Seq<char>,
    pub id: int,
    pub params: ParamsView,
}

impl View for Lang {
    type V = LangView;

    open spec fn view(&self) -> LangView {
        LangView {
            source_lang_user_selected: self.source_lang_user_selected@,
            target_lang: self.target_lang@,
        }
    }
}

impl View for CommonJobParams {
    type V = CommonJobParamsView;

    open spec fn view(&self) -> CommonJobParamsView {
        CommonJobParamsView { was_spoken: self.was_spoken, transcribe_as: self.transcribe_as@ }
    }
}

impl View for Text {
    type V = TextView;

    open spec fn view(&self) -> TextView {
        TextView { text: self.text@, request_alternatives: self.request_alternatives as int }
    }
}

impl View for Params {
    type V = ParamsView;

    open spec fn view(&self) -> ParamsView {
        ParamsView {
            texts: self.texts@.map_values(|t: Text| t@),
            splitting: self.splitting@,
            lang: self.lang@,
            timestamp: self.timestamp as nat,
            common_job_params: self.common_job_params@,
        }
    }
}

impl View for PostData {
    type V = PostDataView;

    open spec fn view(&self) -> PostDataView {
        PostDataView {
            jsonrpc: self.jsonrpc@,
            method: self.method@,
            id: self.id as int,
            params: self.params@,
        }
    }
}

/// A well-formed envelope carries exactly one text element.
pub open spec fn post_data_wf(pd: PostDataView) -> bool {
    pd.params.texts.len() == 1
}

/// The envelope that one translate call sends: every field but the text,
/// the language pair, the id and the timestamp is a fixed literal.
pub open spec fn spec_request_envelope(
    id: int,
    ts: nat,
    text: Seq<char>,
    src: Seq<char>,
    tgt: Seq<char>,
) -> PostDataView {
    PostDataView {
        jsonrpc: "2.0"@,
        method: "LMT_handle_texts"@,
        id,
        params: ParamsView {
            texts: seq![TextView { text, request_alternatives: 0 }],
            splitting: "newlines"@,
            lang: LangView { source_lang_user_selected: src, target_lang: tgt },
            timestamp: ts,
            common_job_params: CommonJobParamsView { was_spoken: false, transcribe_as: ""@ },
        },
    }
}

impl Default for PostData {
    /// The envelope skeleton: all fixed literals in place, id and
    /// timestamp zero, one empty text element, auto-detected source.
    fn default() -> (r: Self)
        ensures
            r@ == spec_request_envelope(0, 0, ""@, "auto"@, "ZH"@),
    {
        let mut texts: Vec<Text> = Vec::new();
        texts.push(Text { text: String::from_str(""), request_alternatives: 0 });
        let r = PostData {
            jsonrpc: String::from_str("2.0"),
            method: String::from_str("LMT_handle_texts"),
            id: 0,
            params: Params {
                texts,
                splitting: String::from_str("newlines"),
                lang: Lang {
                    source_lang_user_selected: String::from_str("auto"),
                    target_lang: String::from_str("ZH"),
                },
                timestamp: 0,
                common_job_params: CommonJobParams {
                    was_spoken: false,
                    transcribe_as: String::from_str(""),
                },
            },
        };
        proof {
            assert(r@.params.texts =~= spec_request_envelope(0, 0, ""@, "auto"@, "ZH"@)
                .params.texts);
            assert(r@ =~= spec_request_envelope(0, 0, ""@, "auto"@, "ZH"@));
        }
        r
    }
}

/// A JSON string literal: quotes around the escaped body.
pub open spec fn spec_json_string(s: Seq<char>) -> Seq<char> {
    seq!['"'] + spec_escape(s) + seq!['"']
}

/// The JSON rendering of a boolean.
pub open spec fn spec_bool_digits(b: bool) -> Seq<char> {
    if b {
        "true"@
    } else {
        "false"@
    }
}

/// The canonical rendering of one text element.
pub open spec fn spec_render_text(t: TextView) -> Seq<char> {
    "{\"text\":"@ + spec_json_string(t.text) + ",\"request_alternatives\":"@ + spec_int_digits(
        t.request_alternatives,
    ) + "}"@
}

/// The canonical rendering of the parameters block (one text element).
pub open spec fn spec_render_params(p: ParamsView) -> Seq<char> {
    "{\"texts\":["@ + spec_render_text(p.texts[0]) + "],\"splitting\":"@ + spec_json_string(
        p.splitting,
    ) + ",\"lang\":{\"source_lang_user_selected\":"@ + spec_json_string(
        p.lang.source_lang_user_selected,
    ) + ",\"target_lang\":"@ + spec_json_string(p.lang.target_lang) + "},\"timestamp\":"@
        + spec_dec_digits(p.timestamp) + ",\"commonJobParams\":{\"was_spoken\":"@
        + spec_bool_digits(p.common_job_params.was_spoken) + ",\"transcribe_as\":"@
        + spec_json_string(p.common_job_params.transcribe_as) + "}}"@
}

/// Everything of the rendering that comes before the method key's
/// delimiter.
pub open spec fn spec_render_prefix(pd: PostDataView) -> Seq<char> {
    "{\"jsonrpc\":"@ + spec_json_string(pd.jsonrpc) + ",\"method\""@
}

/// Everything of the rendering that comes after the method key's
/// delimiter.
pub open spec fn spec_render_suffix(pd: PostDataView) -> Seq<char> {
    spec_json_string(pd.method) + ",\"id\":"@ + spec_int_digits(pd.id) + ",\"params\":"@
        + spec_render_params(pd.params) + "}"@
}

/// The rendering of the whole envelope, parameterized by the delimiter
/// that stands between the `"method"` key and its value (`":"` in the
/// canonical form; a spaced variant in the obfuscated form).
pub open spec fn spec_render(pd: PostDataView, delim: Seq<char>) -> Seq<char> {
    spec_render_prefix(pd) + delim + spec_render_suffix(pd)
}

/// Whether the id selects the space-padded delimiter variant.
pub open spec fn spec_padded_variant(id: int) -> bool {
    (id + 5) % 29 == 0 || (id + 3) % 13 == 0
}

/// The method-key delimiter chosen for an id: a space on both sides of
/// the colon for ids meeting either congruence, a space after it
/// otherwise.
pub open spec fn spec_method_delim(id: int) -> Seq<char> {
    if spec_padded_variant(id) {
        " : "@
    } else {
        ": "@
    }
}

/// The rendering that actually goes over the wire: the canonical form
/// with the id-keyed delimiter variant in place of the bare colon.
pub open spec fn spec_obfuscated(pd: PostDataView) -> Seq<char> {
    spec_render(pd, spec_method_delim(pd.id))
}

proof fn lemma_neg_divisible(a: int, m: int)
    requires
        m > 0,
    ensures
        (a % m == 0) <==> ((-a) % m == 0),
{
    if a % m == 0 {
        lemma_fundamental_div_mod(a, m);
        assert(-a == (-(a / m)) * m) by (nonlinear_arith)
            requires
                a == m * (a / m),
        ;
        lemma_mod_multiples_basic(-(a / m), m);
    }
    if (-a) % m == 0 {
        lemma_fundamental_div_mod(-a, m);
        assert(a == (-((-a) / m)) * m) by (nonlinear_arith)
            requires
                -a == m * ((-a) / m),
        ;
        lemma_mod_multiples_basic(-((-a) / m), m);
    }
}

/// Decides, from the id alone, which spacing variant the rendering uses.
pub fn padded_variant(id: i64) -> (r: bool)
    ensures
        r == spec_padded_variant(id as int),
{
    let a: i128 = id as i128 + 5;
    let b: i128 = id as i128 + 3;
    let div29: bool = if a >= 0 {
        (a as u128) % 29 == 0
    } else {
        proof {
            lemma_neg_divisible(a as int, 29);
        }
        ((-a) as u128) % 29 == 0
    };
    let div13: bool = if b >= 0 {
        (b as u128) % 13 == 0
    } else {
        proof {
            lemma_neg_divisible(b as int, 13);
        }
        ((-b) as u128) % 13 == 0
    };
    div29 || div13
}

/// Appends a JSON string literal (quotes around the escaped body).
fn append_json_string(out: &mut String, s: &str)
    ensures
        final(out)@ == old(out)@ + spec_json_string(s@),
{
    out.append("\"");
    append_escaped(out, s);
    out.append("\"");
    proof {
        reveal_strlit("\"");
        assert("\""@ =~= seq!['"']);
        assert(final(out)@ =~= old(out)@ + spec_json_string(s@));
    }
}

/// Appends the JSON rendering of a boolean.
fn append_bool(out: &mut String, b: bool)
    ensures
        final(out)@ == old(out)@ + spec_bool_digits(b),
{
    if b {
        out.append("true");
    } else {
        out.append("false");
    }
}

/// Appends the rendering of one text element.
fn append_text_element(out: &mut String, t: &Text)
    ensures
        final(out)@ == old(out)@ + spec_render_text(t@),
{
    out.append("{\"text\":");
    append_json_string(out, t.text.as_str());
    out.append(",\"request_alternatives\":");
    append_dec_i64(out, t.request_alternatives as i64);
    out.append("}");
    proof {
        assert(final(out)@ =~= old(out)@ + spec_render_text(t@));
    }
}

/// Appends the rendering of the parameters block.
#[verifier::rlimit(50)]
fn append_params(out: &mut String, p: &Params)
    requires
        p.texts@.len() == 1,
    ensures
        final(out)@ == old(out)@ + spec_render_params(p@),
{
    out.append("{\"texts\":[");
    append_text_element(out, &p.texts[0]);
    out.append("],\"splitting\":");
    append_json_string(out, p.splitting.as_str());
    out.append(",\"lang\":{\"source_lang_user_selected\":");
    append_json_string(out, p.lang.source_lang_user_selected.as_str());
    out.append(",\"target_lang\":");
    append_json_string(out, p.lang.target_lang.as_str());
    out.append("},\"timestamp\":");
    append_dec_u128(out, p.timestamp);
    out.append(",\"commonJobParams\":{\"was_spoken\":");
    append_bool(out, p.common_job_params.was_spoken);
    out.append(",\"transcribe_as\":");
    append_json_string(out, p.common_job_params.transcribe_as.as_str());
    out.append("}}");
    proof {
        assert(p@.texts[0] == p.texts@[0]@);
        assert(final(out)@ =~= old(out)@ + spec_render_params(p@));
    }
}

/// Renders the whole envelope with the given method-key delimiter.
fn render_post_data(post_data: &PostData, delim: &str) -> (r: String)
    requires
        post_data_wf(post_data@),
    ensures
        r@ == spec_render(post_data@, delim@),
{
    let mut out = String::new();
    out.append("{\"jsonrpc\":");
    append_json_string(&mut out, post_data.jsonrpc.as_str());
    out.append(",\"method\"");
    proof {
        assert(out@ =~= spec_render_prefix(post_data@));
    }
    out.append(delim);
    append_json_string(&mut out, post_data.method.as_str());
    out.append(",\"id\":");
    append_dec_i64(&mut out, post_data.id);
    out.append(",\"params\":");
    append_params(&mut out, &post_data.params);
    out.append("}");
    proof {
        assert(out@ =~= spec_render_prefix(post_data@) + delim@ + spec_render_suffix(
            post_data@,
        ));
    }
    out
}

/// The canonical serialization of an envelope: fixed key order, no added
/// whitespace, the method key followed by a bare colon.
pub fn dump_post_data(post_data: PostData) -> (r: String)
    requires
        post_data_wf(post_data@),
    ensures
        r@ == spec_render(post_data@, ":"@),
{
    render_post_data(&post_data, ":")
}

/// The wire serialization of an envelope: the canonical form with the
/// method key's delimiter replaced by the spacing variant that the
/// envelope's id selects.
pub fn serialized_request(post_data: &PostData) -> (r: String)
    requires
        post_data_wf(post_data@),
    ensures
        r@ == spec_obfuscated(post_data@),
{
    if padded_variant(post_data.id) {
        render_post_data(post_data, " : ")
    } else {
        render_post_data(post_data, ": ")
    }
}

/// Law: the spacing obfuscation is a pure function of the id. Two
/// envelopes with the same id always get the same delimiter; the padded
/// variant is chosen exactly when `(id + 5) % 29 == 0` or
/// `(id + 3) % 13 == 0`; and the choice touches nothing but the
/// delimiter between the method key and its value.
pub proof fn lemma_obfuscation_pure_in_id(pd1: PostDataView, pd2: PostDataView)
    requires
        pd1.id == pd2.id,
    ensures
        spec_method_delim(pd1.id) == spec_method_delim(pd2.id),
        spec_padded_variant(pd1.id) ==> spec_method_delim(pd1.id) == " : "@,
        !spec_padded_variant(pd1.id) ==> spec_method_delim(pd1.id) == ": "@,
        spec_obfuscated(pd1) == spec_render_prefix(pd1) + spec_method_delim(pd1.id)
            + spec_render_suffix(pd1),
{
}

} // verus!
