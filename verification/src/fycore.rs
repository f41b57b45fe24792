//! The translation client's protocol: signing a request, and turning the
//! service's reply into the translated text or a failure message.

use vstd::prelude::*;
use vstd::string::StringExecFns;
use vstd::utf8::{encode_utf8, encode_utf8_decode_utf8};
use crate::hex::{hex_lower, is_lower_hex, lemma_hex_lower_injective, to_hex_lower};
use crate::fyerrcodes::{query_msg, resolve};
use crate::json::{Json, JsonValue, json_document, parse_json, parsed_view};
use crate::numeral::{decimal, u32_to_decimal, lemma_decimal_injective};
use crate::reply::{
    ErrorResponse, TranslationResponseView, error_code, error_shape, lemma_error_code_forms_agree,
    read_error_response, read_translation_response, translation_shape,
};
use crate::text::{contains, is_substring};

verus! {

/// The address of the translation service.
pub const HOST: &'static str = "https://fanyi-api.baidu.com/api/trans/vip/translate";

/// The content type under which a request is posted: a URL-encoded form.
pub const CONTENT_TYPE: &'static str = "application/x-www-form-urlencoded";

/// The pause before each request, in milliseconds, which keeps the client
/// below the request rate that the service allows.
pub const THROTTLE_MILLIS: u64 = 100;

/// The MD5 digest of `data`.
pub uninterp spec fn md5_digest(data: Seq<u8>) -> Seq<u8>;

/// `md5::compute`: the sixteen bytes of the MD5 digest of `data`, which
/// depend on `data` alone.
#[verifier::external_body]
fn md5_of(data: &[u8]) -> (digest: [u8; 16])
    ensures
        digest@ == md5_digest(data@),
{
    md5::compute(data).0
}

/// `rand::random::<u32>`: a number drawn from the thread's generator.
/// Nothing is promised of it.
#[verifier::external_body]
fn random_salt() -> (salt: u32)
{
    rand::random::<u32>()
}

/// The text whose digest signs a request: application identifier, query,
/// salt and secret key, in that order and with nothing between them.
pub open spec fn signing_input(
    appid: Seq<char>,
    q: Seq<char>,
    salt: Seq<char>,
    secret_key: Seq<char>,
) -> Seq<char> {
    appid + q + salt + secret_key
}

/// The signature of a request: the MD5 digest of the UTF-8 bytes of its
/// signing input, in lower-case hexadecimal notation.
pub open spec fn signature(
    appid: Seq<char>,
    q: Seq<char>,
    salt: Seq<char>,
    secret_key: Seq<char>,
) -> Seq<char> {
    hex_lower(md5_digest(encode_utf8(signing_input(appid, q, salt, secret_key))))
}

/// Computes the signature of a request.
pub fn calculate_sign(appid: &str, q: &str, salt: &str, secret_key: &str) -> (sign: String)
    ensures
        sign@ == signature(appid@, q@, salt@, secret_key@),
        sign@.len() == 32,
        forall|i: int| 0 <= i < sign@.len() ==> is_lower_hex(#[trigger] sign@[i]),
{
    let mut input = String::new();
    input.append(appid);
    input.append(q);
    input.append(salt);
    input.append(secret_key);
    assert(input@ == signing_input(appid@, q@, salt@, secret_key@));
    let digest: [u8; 16] = md5_of(input.as_str().as_bytes());
    to_hex_lower(digest.as_slice())
}

/// Signing is a function of its four inputs: the same application
/// identifier, query, salt and secret key always give the same signature.
pub proof fn lemma_sign_deterministic(
    appid: Seq<char>,
    q: Seq<char>,
    salt: Seq<char>,
    secret_key: Seq<char>,
    appid2: Seq<char>,
    q2: Seq<char>,
    salt2: Seq<char>,
    secret_key2: Seq<char>,
)
    requires
        appid == appid2,
        q == q2,
        salt == salt2,
        secret_key == secret_key2,
    ensures
        signature(appid, q, salt, secret_key) == signature(appid2, q2, salt2, secret_key2),
{
}

/// Two signatures are the same only where the digests of their signing
/// inputs are the same.
pub proof fn lemma_same_signature_same_digest(
    appid: Seq<char>,
    q: Seq<char>,
    salt: Seq<char>,
    secret_key: Seq<char>,
    appid2: Seq<char>,
    q2: Seq<char>,
    salt2: Seq<char>,
    secret_key2: Seq<char>,
)
    requires
        signature(appid, q, salt, secret_key) == signature(appid2, q2, salt2, secret_key2),
    ensures
        md5_digest(encode_utf8(signing_input(appid, q, salt, secret_key))) == md5_digest(
            encode_utf8(signing_input(appid2, q2, salt2, secret_key2)),
        ),
{
    lemma_hex_lower_injective(
        md5_digest(encode_utf8(signing_input(appid, q, salt, secret_key))),
        md5_digest(encode_utf8(signing_input(appid2, q2, salt2, secret_key2))),
    );
}

/// Two salts that differ give signing inputs whose bytes differ, all else
/// being equal: the digest is then taken of different data.
pub proof fn lemma_salt_changes_digest_input(
    appid: Seq<char>,
    q: Seq<char>,
    salt: Seq<char>,
    other_salt: Seq<char>,
    secret_key: Seq<char>,
)
    requires
        salt != other_salt,
    ensures
        encode_utf8(signing_input(appid, q, salt, secret_key)) != encode_utf8(
            signing_input(appid, q, other_salt, secret_key),
        ),
{
    let a = signing_input(appid, q, salt, secret_key);
    let b = signing_input(appid, q, other_salt, secret_key);
    let start = (appid.len() + q.len()) as int;
    if a == b {
        assert(a.len() == b.len());
        assert(salt.len() == other_salt.len());
        assert(a.subrange(start, start + salt.len()) == salt);
        assert(b.subrange(start, start + salt.len()) == other_salt);
    }
    encode_utf8_decode_utf8(a);
    encode_utf8_decode_utf8(b);
}

/// The salts of two different numbers differ.
pub proof fn lemma_salts_differ(n: u32, m: u32)
    requires
        n != m,
    ensures
        decimal(n as nat) != decimal(m as nat),
{
    if decimal(n as nat) == decimal(m as nat) {
        lemma_decimal_injective(n as nat, m as nat);
    }
}

/// One request to the translation service, with its salt and signature.
#[derive(Debug, Clone)]
pub struct TranslationRequest {
    pub appid: String,
    pub from: String,
    pub to: String,
    pub q: String,
    pub salt: String,
    pub sign: String,
}

impl TranslationRequest {
    /// The request's form fields by name and value, in the order in which
    /// they are sent.
    pub open spec fn form(&self) -> Seq<(Seq<char>, Seq<char>)> {
        seq![
            ("appid"@, self.appid@),
            ("from"@, self.from@),
            ("to"@, self.to@),
            ("q"@, self.q@),
            ("salt"@, self.salt@),
            ("sign"@, self.sign@),
        ]
    }

    /// Whether this is the request for the given texts, salted with `salt`
    /// and signed with `secret_key`.
    pub open spec fn is_for(
        &self,
        appid: Seq<char>,
        from: Seq<char>,
        to: Seq<char>,
        q: Seq<char>,
        secret_key: Seq<char>,
        salt: u32,
    ) -> bool {
        &&& self.appid@ == appid
        &&& self.from@ == from
        &&& self.to@ == to
        &&& self.q@ == q
        &&& self.salt@ == decimal(salt as nat)
        &&& self.sign@ == signature(appid, q, decimal(salt as nat), secret_key)
    }

    /// The fields of the form to post: `appid`, `from`, `to`, `q`, `salt`
    /// and `sign`, each with its value.
    pub fn form_fields(&self) -> (fields: Vec<(String, String)>)
        ensures
            fields@.len() == 6,
            forall|i: int|
                0 <= i < 6 ==> ((#[trigger] fields@[i]).0@, fields@[i].1@) == self.form()[i],
    {
        let mut fields: Vec<(String, String)> = Vec::new();
        fields.push(("appid".to_owned(), self.appid.clone()));
        fields.push(("from".to_owned(), self.from.clone()));
        fields.push(("to".to_owned(), self.to.clone()));
        fields.push(("q".to_owned(), self.q.clone()));
        fields.push(("salt".to_owned(), self.salt.clone()));
        fields.push(("sign".to_owned(), self.sign.clone()));
        fields
    }
}

/// Builds the request for the given texts with the salt `salt`: the salt is
/// written in decimal, and the signature is computed over it.
pub fn build_request(
    appid: &str,
    from: &str,
    to: &str,
    q: &str,
    secret_key: &str,
    salt: u32,
) -> (request: TranslationRequest)
    ensures
        request.is_for(appid@, from@, to@, q@, secret_key@, salt),
{
    let salt_text = u32_to_decimal(salt);
    let sign = calculate_sign(appid, q, salt_text.as_str(), secret_key);
    TranslationRequest {
        appid: appid.to_owned(),
        from: from.to_owned(),
        to: to.to_owned(),
        q: q.to_owned(),
        salt: salt_text,
        sign,
    }
}

/// Builds the request for the given texts with a salt drawn at random.
pub fn prepare_request(appid: &str, from: &str, to: &str, q: &str, secret_key: &str) -> (request:
    TranslationRequest)
    ensures
        exists|salt: u32| request.is_for(appid@, from@, to@, q@, secret_key@, salt),
{
    let salt = random_salt();
    build_request(appid, from, to, q, secret_key, salt)
}

/// The text whose presence in a reply marks the reply as an error report.
pub const ERROR_MARKER: &'static str = "error_msg";

/// Opens the failure that tells of a request that could not be sent.
pub const SEND_FAILED: &'static str = ":( error sending request: ";

/// Opens the failure that tells of an error report that could not be read.
pub const BAD_ERROR_REPLY: &'static str = ":( Failed to parse error response: ";

/// The failure that tells of an error report whose code could not be read.
pub const BAD_ERROR_CODE: &'static str = ":( failed to parse error code";

/// Opens the failure that passes on what the service reported.
pub const SERVER_SAID: &'static str = ":( We asked, but server said: ";

/// Opens the failure that tells of a reply that could not be read.
pub const BAD_REPLY: &'static str = ":( Failed to parse successful response: ";

/// The failure that tells of a reply without translations.
pub const NO_RESULTS: &'static str = ":( Response contains no translation results";

/// The texts of an outcome: the translation, or the failure message.
pub open spec fn result_view(outcome: Result<String, String>) -> Result<Seq<char>, Seq<char>> {
    match outcome {
        Ok(text) => Ok(text@),
        Err(message) => Err(message@),
    }
}

/// `opening` followed by `detail`.
fn failure(opening: &str, detail: &str) -> (message: String)
    ensures
        message@ == opening@ + detail@,
{
    let mut message = String::from_str(opening);
    message.append(detail);
    message
}

/// The outcome of a reply that carries translations: the translation of
/// its first passage, or `NO_RESULTS` where it has none.
pub open spec fn first_translation(response: TranslationResponseView) -> Result<
    Seq<char>,
    Seq<char>,
> {
    if response.trans_result.len() > 0 {
        Ok(response.trans_result[0].1)
    } else {
        Err(NO_RESULTS@)
    }
}

/// The outcome of a reply that is taken to carry translations, given what
/// reading it as JSON gave: `BAD_REPLY` with the reason where it is no JSON
/// or not of the shape of such a reply, else its first translation.
pub open spec fn translation_outcome(parsed: Result<JsonValue, Seq<char>>) -> Result<
    Seq<char>,
    Seq<char>,
> {
    match parsed {
        Err(detail) => Err(BAD_REPLY@ + detail),
        Ok(doc) => match translation_shape(doc) {
            Err(detail) => Err(BAD_REPLY@ + detail),
            Ok(response) => first_translation(response),
        },
    }
}

/// The failure that tells of a reply without translations is none of those
/// that tell of a reply that could not be read.
pub proof fn lemma_no_results_is_no_parse_failure(detail: Seq<char>)
    ensures
        NO_RESULTS@ != BAD_REPLY@ + detail,
{
    reveal_strlit(":( Response contains no translation results");
    reveal_strlit(":( Failed to parse successful response: ");
    assert(NO_RESULTS@[3] == 'R');
    assert((BAD_REPLY@ + detail)[3] == 'F');
}

/// Gives the outcome of a reply that is taken to carry translations, from
/// what reading it as JSON gave.
pub fn translation_of(parsed: Result<Json, String>) -> (outcome: Result<String, String>)
    ensures
        result_view(outcome) == translation_outcome(parsed_view(parsed)),
{
    match parsed {
        Err(detail) => Err(failure(BAD_REPLY, detail.as_str())),
        Ok(doc) => match read_translation_response(&doc) {
            Err(detail) => Err(failure(BAD_REPLY, detail.as_str())),
            Ok(response) => {
                if response.trans_result.len() > 0 {
                    Ok(response.trans_result[0].dst.clone())
                } else {
                    Err(String::from_str(NO_RESULTS))
                }
            },
        },
    }
}

/// Reads a reply that is taken to carry translations, and gives the
/// translation of its first passage.
pub fn patch_raw(content: &str) -> (outcome: Result<String, String>)
    ensures
        result_view(outcome) == translation_outcome(json_document(content@)),
{
    translation_of(parse_json(content))
}

/// The error that a reply reports, given what reading the reply as JSON
/// gave: `BAD_ERROR_REPLY` with the reason where it is no JSON or not of the
/// shape of an error report.
pub open spec fn reported_error(parsed: Result<JsonValue, Seq<char>>) -> Result<
    (Option<usize>, Seq<char>),
    Seq<char>,
> {
    match parsed {
        Err(detail) => Err(BAD_ERROR_REPLY@ + detail),
        Ok(doc) => match error_shape(doc) {
            Err(detail) => Err(BAD_ERROR_REPLY@ + detail),
            Ok(report) => Ok(report),
        },
    }
}

/// Gives the error that a reply reports, from what reading the reply as
/// JSON gave.
pub fn error_response_of(parsed: Result<Json, String>) -> (r: Result<ErrorResponse, String>)
    ensures
        match r {
            Ok(response) => reported_error(parsed_view(parsed)) == Ok::<_, Seq<char>>(response@),
            Err(message) => reported_error(parsed_view(parsed)) == Err::<
                (Option<usize>, Seq<char>),
                _,
            >(message@),
        },
{
    match parsed {
        Err(detail) => Err(failure(BAD_ERROR_REPLY, detail.as_str())),
        Ok(doc) => match read_error_response(&doc) {
            Err(detail) => Err(failure(BAD_ERROR_REPLY, detail.as_str())),
            Ok(response) => Ok(response),
        },
    }
}

/// Reads a reply that is taken to report an error.
pub fn patch_error(body_content: &str) -> (r: Result<ErrorResponse, String>)
    ensures
        match r {
            Ok(response) => reported_error(json_document(body_content@)) == Ok::<_, Seq<char>>(
                response@,
            ),
            Err(message) => reported_error(json_document(body_content@)) == Err::<
                (Option<usize>, Seq<char>),
                _,
            >(message@),
        },
{
    error_response_of(parse_json(body_content))
}

/// The failure message for a reported error: what the catalog says of its
/// code after `SERVER_SAID`, or `BAD_ERROR_CODE` where the code could not
/// be read.
pub open spec fn server_failure(code: Option<usize>) -> Seq<char> {
    match code {
        Some(code) => SERVER_SAID@ + resolve(code)@,
        None => BAD_ERROR_CODE@,
    }
}

/// A reply that gives its error code as a number and one that gives it as
/// the string of that number's decimal numeral lead to the same failure
/// message.
pub proof fn lemma_code_forms_same_failure(n: u64)
    requires
        n <= usize::MAX,
    ensures
        server_failure(error_code(JsonValue::Text(decimal(n as nat)))) == server_failure(
            error_code(JsonValue::Number(Some(n))),
        ),
        server_failure(error_code(JsonValue::Number(Some(n)))) == SERVER_SAID@ + resolve(
            n as usize,
        )@,
{
    lemma_error_code_forms_agree(n);
}

/// The outcome of a reply that is taken to report an error, given what
/// reading it as JSON gave. It is always a failure.
pub open spec fn error_outcome(parsed: Result<JsonValue, Seq<char>>) -> Result<
    Seq<char>,
    Seq<char>,
> {
    match reported_error(parsed) {
        Err(message) => Err(message),
        Ok(report) => Err(server_failure(report.0)),
    }
}

/// The outcome of a reply with the text `body`, given what reading it as
/// JSON gave: that of an error report where `body` holds `ERROR_MARKER`,
/// whatever else it holds; that of a reply with translations otherwise.
pub open spec fn reply_outcome(has_marker: bool, parsed: Result<JsonValue, Seq<char>>) -> Result<
    Seq<char>,
    Seq<char>,
> {
    if has_marker {
        error_outcome(parsed)
    } else {
        translation_outcome(parsed)
    }
}

/// Gives the outcome of a reply, from whether its text holds the error
/// marker and what reading it as JSON gave.
pub fn classify_parsed(has_marker: bool, parsed: Result<Json, String>) -> (outcome: Result<
    String,
    String,
>)
    ensures
        result_view(outcome) == reply_outcome(has_marker, parsed_view(parsed)),
        has_marker ==> outcome is Err,
        parsed is Err ==> outcome is Err,
{
    if has_marker {
        match error_response_of(parsed) {
            Err(message) => Err(message),
            Ok(response) => match response.error_code {
                Some(code) => Err(failure(SERVER_SAID, query_msg(code))),
                None => Err(String::from_str(BAD_ERROR_CODE)),
            },
        }
    } else {
        translation_of(parsed)
    }
}

/// Gives the outcome of the reply `body`: the translated text, or the
/// failure that the reply reports or gives rise to.
pub fn classify_response(body: &str) -> (outcome: Result<String, String>)
    ensures
        result_view(outcome) == reply_outcome(
            is_substring(body@, ERROR_MARKER@),
            json_document(body@),
        ),
        is_substring(body@, ERROR_MARKER@) ==> outcome is Err,
        json_document(body@) is Err ==> outcome is Err,
{
    let has_marker = contains(body, ERROR_MARKER);
    classify_parsed(has_marker, parse_json(body))
}

/// The outcome of one exchange with the service. `sent` is what the
/// transport gave: the reply's text, or the reason why there is none.
pub open spec fn exchange_outcome(sent: Result<Seq<char>, Seq<char>>) -> Result<
    Seq<char>,
    Seq<char>,
> {
    match sent {
        Err(detail) => Err(SEND_FAILED@ + detail),
        Ok(body) => reply_outcome(is_substring(body, ERROR_MARKER@), json_document(body)),
    }
}

/// Concludes one exchange with the service: a failure of the transport is
/// reported as such, and a reply is classified.
pub fn interpret_reply(sent: Result<String, String>) -> (outcome: Result<String, String>)
    ensures
        result_view(outcome) == exchange_outcome(result_view(sent)),
        sent is Err ==> outcome is Err,
{
    match sent {
        Err(detail) => Err(failure(SEND_FAILED, detail.as_str())),
        Ok(body) => classify_response(body.as_str()),
    }
}

} // verus!
