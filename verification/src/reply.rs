//! The two shapes of the translation service's replies, read from a JSON
//! document: a list of translations, or an error with its code.

use vstd::prelude::*;
use vstd::string::StringExecFns;
use crate::json::{Json, JsonValue, find_member, find_text, items_view, member, text_member};
use crate::numeral::{decimal, lemma_decimal_round_trip, parse_usize, usize_numeral};

verus! {

/// What is said of a reply that is not a JSON object where one is due.
pub const NOT_AN_OBJECT: &'static str = "expected a JSON object";

/// What is said of a reply that lacks a member or holds it in another type;
/// the member's name and a closing quote follow.
pub const FIELD_PROBLEM: &'static str = "missing or invalid field `";

/// The text that reports a problem with the member `name`.
pub open spec fn field_problem(name: Seq<char>) -> Seq<char> {
    FIELD_PROBLEM@ + name + "`"@
}

/// Writes the text that reports a problem with the member `name`.
fn report_field(name: &str) -> (detail: String)
    ensures
        detail@ == field_problem(name@),
{
    let mut detail = String::from_str(FIELD_PROBLEM);
    detail.append(name);
    detail.append("`");
    detail
}

/// One translated passage: the source text and its translation.
#[derive(Debug, Clone)]
pub struct TranslationItem {
    pub src: String,
    pub dst: String,
}

impl View for TranslationItem {
    type V = (Seq<char>, Seq<char>);

    open spec fn view(&self) -> (Seq<char>, Seq<char>) {
        (self.src@, self.dst@)
    }
}

/// The contents of a list of passages.
pub open spec fn item_views(items: Seq<TranslationItem>) -> Seq<(Seq<char>, Seq<char>)> {
    items.map_values(|item: TranslationItem| item@)
}

/// A reply that carries translations.
#[derive(Debug, Clone)]
pub struct TranslationResponse {
    pub from: String,
    pub to: String,
    pub trans_result: Vec<TranslationItem>,
}

/// The content of a `TranslationResponse`.
pub ghost struct TranslationResponseView {
    pub from: Seq<char>,
    pub to: Seq<char>,
    pub trans_result: Seq<(Seq<char>, Seq<char>)>,
}

impl View for TranslationResponse {
    type V = TranslationResponseView;

    open spec fn view(&self) -> TranslationResponseView {
        TranslationResponseView {
            from: self.from@,
            to: self.to@,
            trans_result: item_views(self.trans_result@),
        }
    }
}

/// A reply that reports an error.
#[derive(Debug, Clone)]
pub struct ErrorResponse {
    /// The error's code as an unsigned integer, where the reply gives it as
    /// one or as a decimal numeral.
    pub error_code: Option<usize>,
    pub error_msg: String,
}

impl View for ErrorResponse {
    type V = (Option<usize>, Seq<char>);

    open spec fn view(&self) -> (Option<usize>, Seq<char>) {
        (self.error_code, self.error_msg@)
    }
}

/// The error code that a JSON value stands for: the value itself where it is
/// an unsigned integer, cut to the machine word; the number it denotes where
/// it is a string that holds an unsigned decimal numeral within the machine
/// word; none otherwise.
pub open spec fn error_code(value: JsonValue) -> Option<usize> {
    match value {
        JsonValue::Number(Some(n)) => Some(n as usize),
        JsonValue::Text(s) => usize_numeral(s),
        _ => None,
    }
}

/// Brings an error code to an unsigned integer, whether the reply gives it
/// as a number or as a string.
pub fn normalize_error_code(value: &Json) -> (code: Option<usize>)
    ensures
        code == error_code(value@),
{
    match value {
        Json::Number(Some(n)) => Some(#[verifier::truncate] (*n as usize)),
        Json::Text(s) => parse_usize(s.as_str()),
        _ => None,
    }
}

/// An error code stands for the same number whether the reply gives it as
/// a number or as the string that holds the number's decimal numeral.
pub proof fn lemma_error_code_forms_agree(n: u64)
    requires
        n <= usize::MAX,
    ensures
        error_code(JsonValue::Number(Some(n))) == Some(n as usize),
        error_code(JsonValue::Text(decimal(n as nat))) == error_code(JsonValue::Number(Some(n))),
{
    lemma_decimal_round_trip(n as nat);
}

/// The error that `doc` reports: `doc` is to be an object with a member
/// `error_code` and a string member `error_msg`. Otherwise, what is wrong.
pub open spec fn error_shape(doc: JsonValue) -> Result<(Option<usize>, Seq<char>), Seq<char>> {
    match doc {
        JsonValue::Object(members) => match member(members, "error_code"@) {
            None => Err(field_problem("error_code"@)),
            Some(code) => match text_member(members, "error_msg"@) {
                None => Err(field_problem("error_msg"@)),
                Some(msg) => Ok((error_code(code), msg)),
            },
        },
        _ => Err(NOT_AN_OBJECT@),
    }
}

/// Reads `doc` as a reply that reports an error.
pub fn read_error_response(doc: &Json) -> (r: Result<ErrorResponse, String>)
    ensures
        match r {
            Ok(response) => error_shape(doc@) == Ok::<_, Seq<char>>(response@),
            Err(detail) => error_shape(doc@) == Err::<(Option<usize>, Seq<char>), _>(detail@),
        },
{
    match doc {
        Json::Object(members) => {
            let code = match find_member(members, "error_code") {
                Some(value) => normalize_error_code(value),
                None => {
                    return Err(report_field("error_code"));
                },
            };
            match find_text(members, "error_msg") {
                Some(msg) => Ok(ErrorResponse { error_code: code, error_msg: msg.clone() }),
                None => Err(report_field("error_msg")),
            }
        },
        _ => Err(String::from_str(NOT_AN_OBJECT)),
    }
}

/// The passage that `value` holds: `value` is to be an object with string
/// members `src` and `dst`. Otherwise, what is wrong.
pub open spec fn item_shape(value: JsonValue) -> Result<(Seq<char>, Seq<char>), Seq<char>> {
    match value {
        JsonValue::Object(members) => match text_member(members, "src"@) {
            None => Err(field_problem("src"@)),
            Some(src) => match text_member(members, "dst"@) {
                None => Err(field_problem("dst"@)),
                Some(dst) => Ok((src, dst)),
            },
        },
        _ => Err(NOT_AN_OBJECT@),
    }
}

/// The passages that `values` hold, in order; or what is wrong with the
/// first of them that is not a passage.
pub open spec fn items_shape(values: Seq<JsonValue>) -> Result<
    Seq<(Seq<char>, Seq<char>)>,
    Seq<char>,
>
    decreases values.len(),
{
    if values.len() == 0 {
        Ok(Seq::empty())
    } else {
        match items_shape(values.drop_last()) {
            Err(detail) => Err(detail),
            Ok(items) => match item_shape(values.last()) {
                Err(detail) => Err(detail),
                Ok(item) => Ok(items.push(item)),
            },
        }
    }
}

/// The translations that `doc` carries: `doc` is to be an object with
/// string members `from` and `to` and a member `trans_result` that is an
/// array of passages. Otherwise, what is wrong.
pub open spec fn translation_shape(doc: JsonValue) -> Result<TranslationResponseView, Seq<char>> {
    match doc {
        JsonValue::Object(members) => match text_member(members, "from"@) {
            None => Err(field_problem("from"@)),
            Some(from) => match text_member(members, "to"@) {
                None => Err(field_problem("to"@)),
                Some(to) => match member(members, "trans_result"@) {
                    Some(JsonValue::Array(values)) => match items_shape(values) {
                        Err(detail) => Err(detail),
                        Ok(items) => Ok(TranslationResponseView { from, to, trans_result: items }),
                    },
                    _ => Err(field_problem("trans_result"@)),
                },
            },
        },
        _ => Err(NOT_AN_OBJECT@),
    }
}

/// Reads `value` as one translated passage.
fn read_item(value: &Json) -> (r: Result<TranslationItem, String>)
    ensures
        match r {
            Ok(item) => item_shape(value@) == Ok::<_, Seq<char>>(item@),
            Err(detail) => item_shape(value@) == Err::<(Seq<char>, Seq<char>), _>(detail@),
        },
{
    match value {
        Json::Object(members) => {
            let src = match find_text(members, "src") {
                Some(s) => s.clone(),
                None => {
                    return Err(report_field("src"));
                },
            };
            match find_text(members, "dst") {
                Some(dst) => Ok(TranslationItem { src, dst: dst.clone() }),
                None => Err(report_field("dst")),
            }
        },
        _ => Err(String::from_str(NOT_AN_OBJECT)),
    }
}

/// What is wrong with a leading part of `values` is wrong with the whole.
proof fn lemma_items_shape_err(values: Seq<JsonValue>, k: int)
    requires
        0 <= k <= values.len(),
        items_shape(values.take(k)) is Err,
    ensures
        items_shape(values) == items_shape(values.take(k)),
    decreases values.len(),
{
    if k == values.len() {
        assert(values.take(k) == values);
    } else {
        assert(values.drop_last().take(k) == values.take(k));
        lemma_items_shape_err(values.drop_last(), k);
    }
}

/// Reads `values` as translated passages.
fn read_items(values: &Vec<Json>) -> (r: Result<Vec<TranslationItem>, String>)
    ensures
        match r {
            Ok(items) => items_shape(items_view(values@)) == Ok::<_, Seq<char>>(item_views(items@)),
            Err(detail) => items_shape(items_view(values@)) == Err::<
                Seq<(Seq<char>, Seq<char>)>,
                _,
            >(detail@),
        },
{
    let ghost all = items_view(values@);
    let mut items: Vec<TranslationItem> = Vec::new();
    let mut i: usize = 0;
    assert(item_views(items@) == Seq::<(Seq<char>, Seq<char>)>::empty());
    while i < values.len()
        invariant
            i <= values@.len(),
            all == items_view(values@),
            items_shape(all.take(i as int)) == Ok::<_, Seq<char>>(item_views(items@)),
        decreases values@.len() - i,
    {
        assert(all.take(i + 1).drop_last() == all.take(i as int));
        assert(all.take(i + 1).last() == values@[i as int]@);
        match read_item(&values[i]) {
            Ok(item) => {
                let ghost before = item_views(items@);
                items.push(item);
                assert(item_views(items@) == before.push(item@));
            },
            Err(detail) => {
                proof {
                    lemma_items_shape_err(all, i + 1);
                }
                return Err(detail);
            },
        }
        i += 1;
    }
    assert(all.take(i as int) == all);
    Ok(items)
}

/// Reads `doc` as a reply that carries translations.
pub fn read_translation_response(doc: &Json) -> (r: Result<TranslationResponse, String>)
    ensures
        match r {
            Ok(response) => translation_shape(doc@) == Ok::<_, Seq<char>>(response@),
            Err(detail) => translation_shape(doc@) == Err::<TranslationResponseView, _>(detail@),
        },
{
    match doc {
        Json::Object(members) => {
            let from = match find_text(members, "from") {
                Some(s) => s.clone(),
                None => {
                    return Err(report_field("from"));
                },
            };
            let to = match find_text(members, "to") {
                Some(s) => s.clone(),
                None => {
                    return Err(report_field("to"));
                },
            };
            match find_member(members, "trans_result") {
                Some(Json::Array(values)) => match read_items(values) {
                    Ok(trans_result) => Ok(TranslationResponse { from, to, trans_result }),
                    Err(detail) => Err(detail),
                },
                _ => Err(report_field("trans_result")),
            }
        },
        _ => Err(String::from_str(NOT_AN_OBJECT)),
    }
}

} // verus!
