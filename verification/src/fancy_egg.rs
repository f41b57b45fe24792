//! The hidden extras: an encoded greeting and the verses of good wishes.

use vstd::prelude::*;
use vstd::string::StringExecFns;
use vstd::utf8::{decode_utf8, valid_utf8};
use crate::text::option_view;

verus! {

/// The greeting, in Base64.
pub const EGG_CODE: &'static str = "U2Fs5Zac5qyiQ3lyYQ==";

/// The verses of good wishes.
pub const BLESSINGS: [&'static str; 25] = [
    "星河入梦夜无尘，愿君心事皆成真",
    "松风拂面春常在，竹影摇窗月自明",
    "云卷千峰秀，水涵万顷清",
    "落花不扫春犹在，流水无声韵自长",
    "晨露润青苔，幽兰自吐芳",
    "行路不问归期远，心灯长照夜航船",
    "半卷诗书藏岁月，一壶清茶话平生",
    "不争朝夕争朝暮，但守初心守岁寒",
    "浮名散作千林雪，真意凝成一砚冰",
    "世事如棋局局新，心安即是旧时邻",
    "笔底波澜生万象，胸中丘壑纳千峰",
    "云程发轫春山外，星轨初开夜海深",
    "织锦当从经纬始，凌云先自寸心谋",
    "商海浮沉持舵稳，文峰登览踏云轻",
    "创新不惧千山阻，破茧方知一羽轻",
    "相逢何必曾相识，一笑能消万古愁",
    "情若幽兰深谷里，香随明月到君前",
    "两心相照如明镜，半世同行胜管弦",
    "家书不寄千行字，灯火相依便是春",
    "故人如月常相伴，新友如星渐满天",
    "身似青松经岁寒，心如止水映天宽",
    "茶烟轻袅春常在，竹影婆娑病自消",
    "行路不辞山水远，看花长伴岁时新",
    "一枕清风眠自在，半窗明月梦无边",
    "食有粗茶淡饭味，居无闹市远尘喧",
];

/// The bytes that `text` stands for in standard Base64 with padding, where
/// it is well formed.
pub uninterp spec fn base64_decoded(text: Seq<char>) -> Option<Seq<u8>>;

/// `base64::engine::general_purpose::STANDARD.decode`: the decoded bytes,
/// or nothing where the text is not well-formed Base64; either way a
/// function of the text alone.
#[verifier::external_body]
fn base64_decode(text: &str) -> (bytes: Option<Vec<u8>>)
    ensures
        match bytes {
            Some(b) => base64_decoded(text@) == Some(b@),
            None => base64_decoded(text@) is None,
        },
{
    base64::Engine::decode(&base64::engine::general_purpose::STANDARD, text).ok()
}

/// `String::from_utf8`: the text that the bytes encode, where they are
/// valid UTF-8, and nothing where they are not.
#[verifier::external_body]
fn utf8_text(bytes: Vec<u8>) -> (text: Option<String>)
    ensures
        text is Some <==> valid_utf8(bytes@),
        text is Some ==> text->0@ == decode_utf8(bytes@),
{
    String::from_utf8(bytes).ok()
}

/// `rand::Rng::random_range` on the thread's generator, over `0..bound`: an
/// index below `bound`.
#[verifier::external_body]
fn random_index(bound: usize) -> (index: usize)
    requires
        bound > 0,
    ensures
        index < bound,
{
    rand::Rng::random_range(&mut rand::rng(), 0..bound)
}

/// The text that `bytes` hold, where they are valid UTF-8.
pub open spec fn text_of(bytes: Option<Seq<u8>>) -> Option<Seq<char>> {
    match bytes {
        Some(b) => if valid_utf8(b) {
            Some(decode_utf8(b))
        } else {
            None
        },
        None => None,
    }
}

/// Reads decoded bytes as text.
pub fn text_from(bytes: Option<Vec<u8>>) -> (text: Option<String>)
    ensures
        option_view(text) == text_of(
            match bytes {
                Some(b) => Some(b@),
                None => None,
            },
        ),
{
    match bytes {
        Some(b) => utf8_text(b),
        None => None,
    }
}

/// Decodes a Base64 text and reads the bytes as UTF-8. Gives nothing where
/// the text is not well-formed Base64 or the bytes are not valid UTF-8.
pub fn decrypt(encoded_str: &str) -> (text: Option<String>)
    ensures
        option_view(text) == text_of(base64_decoded(encoded_str@)),
{
    text_from(base64_decode(encoded_str))
}

/// The verse at `index`.
pub fn blessing_at(index: usize) -> (verse: &'static str)
    requires
        index < 25,
    ensures
        verse == BLESSINGS@[index as int],
{
    BLESSINGS[index]
}

/// One of the verses, picked at random.
pub fn get_random_blessing() -> (verse: String)
    ensures
        exists|i: int| 0 <= i < 25 && verse@ == (#[trigger] BLESSINGS@[i])@,
{
    let index = random_index(25);
    String::from_str(blessing_at(index))
}

} // verus!
