//! The catalog of the translation service's error codes: for each code a
//! fixed message that names the problem and a remedy.

use vstd::prelude::*;
use std::collections::HashMap;

verus! {

broadcast use vstd::std_specs::hash::group_hash_axioms;

/// The message for a code that the catalog does not list.
pub const UNKNOWN_ERROR: &'static str = "未知错误";

/// The catalog's table: each code the service may report, with its message.
pub const ERRORS_KEYPAIR: [(usize, &'static str); 22] = [
    (52000, "成功"),
    (
        52001,
        "请求超时\n检查传入的 q 参数是否是正常文本，以及 from 或 to 参数是否在支持的语种列表中",
    ),
    (52002, "系统错误\n请重试"),
    (
        52003,
        "未授权用户\n请检查appid是否正确，或是否已开通对应服务服务是否开通",
    ),
    (54000, "必填参数为空\n请检查是否漏传、误传参数"),
    (
        54001,
        "签名错误或token错误\n请检查签名生成方法，或token填写是否正确",
    ),
    (
        54003,
        "访问频率受限\n请降低您的调用频率，或在管理控制台进行身份认证后切换为高级版/尊享版",
    ),
    (
        54004,
        "账户余额不足\n请前往管理控制台为账户充值。如后台显示还有余额，说明当天用量计费金额已超过账户余额",
    ),
    (
        54005,
        "长query请求频繁\n请降低长度大于1万字节query的发送频率，3s后再试",
    ),
    (
        58000,
        "客户端IP非法\n检查开发者信息页面填写的对应服务器IP地址是否正确，如服务器为动态IP，建议留空不填",
    ),
    (
        58001,
        "译文语言方向不支持\n检查译文语言是否在语言列表里，个人标准版和高级版支持28个常见语种，企业尊享版支持全部语种",
    ),
    (58002, "服务当前已关闭\n请前往管理控制台开启服务"),
    (
        58003,
        "此IP已被封禁\n同一IP当日使用多个APPID发送翻译请求，则该IP将被封禁当日请求权限，次日解封。请勿将APPID和密钥填写到第三方软件中。",
    ),
    (58004, "模型参数错误\n检查model_tyep是否为\"llm\"或\"nmt\""),
    (59002, "翻译指令过长\nreference参数超过500字符上限"),
    (59003, "请求文本过长\nq参数超过6000字符上限"),
    (59004, "QPS超限\n当前接口QPS已触及上限"),
    (59005, "tag_handling 参数非法\n确认参数为0或1"),
    (59006, "标签解析失败\n标签未闭合或为空"),
    (59007, "ignore_tags长度超限\n长度上限为20"),
    (90107, "认证未通过或未生效\n请前往我的认证查看认证进度"),
    (
        20003,
        "请求内容存在安全风险\n请检查请求文本是否涉及反动，暴力等相关内容",
    ),
];

/// The mapping that a table of entries stands for; where a code occurs more
/// than once, the later entry counts.
pub open spec fn table_map(entries: Seq<(usize, &'static str)>) -> Map<usize, &'static str>
    decreases entries.len(),
{
    if entries.len() == 0 {
        Map::empty()
    } else {
        table_map(entries.drop_last()).insert(entries.last().0, entries.last().1)
    }
}

/// The catalog as a mapping from code to message.
pub open spec fn catalog() -> Map<usize, &'static str> {
    table_map(ERRORS_KEYPAIR@)
}

/// The message that the catalog gives for `code`: that of its entry, or
/// `UNKNOWN_ERROR` where it has none.
pub open spec fn resolve(code: usize) -> &'static str {
    if catalog().contains_key(code) {
        catalog()[code]
    } else {
        UNKNOWN_ERROR
    }
}

/// Whether the table has an entry for `code`.
pub open spec fn listed(code: usize) -> bool {
    exists|i: int| 0 <= i < ERRORS_KEYPAIR@.len() && (#[trigger] ERRORS_KEYPAIR@[i]).0 == code
}

/// A table's mapping has exactly the codes of the table's entries.
proof fn lemma_table_map_keys(entries: Seq<(usize, &'static str)>, code: usize)
    ensures
        table_map(entries).contains_key(code) <==> exists|i: int|
            0 <= i < entries.len() && (#[trigger] entries[i]).0 == code,
    decreases entries.len(),
{
    if entries.len() > 0 {
        let shorter = entries.drop_last();
        lemma_table_map_keys(shorter, code);
        if table_map(entries).contains_key(code) {
            if entries.last().0 == code {
                assert(entries[entries.len() - 1].0 == code);
            } else {
                let i = choose|i: int| 0 <= i < shorter.len() && (#[trigger] shorter[i]).0 == code;
                assert(entries[i].0 == code);
            }
        }
        if exists|i: int| 0 <= i < entries.len() && (#[trigger] entries[i]).0 == code {
            let i = choose|i: int| 0 <= i < entries.len() && (#[trigger] entries[i]).0 == code;
            if i < shorter.len() {
                assert(shorter[i].0 == code);
            }
        }
    }
}

/// A table's mapping sends the code of an entry to that entry's message,
/// where no later entry has the same code.
proof fn lemma_table_map_value(entries: Seq<(usize, &'static str)>, i: int)
    requires
        0 <= i < entries.len(),
        forall|j: int| i < j < entries.len() ==> (#[trigger] entries[j]).0 != entries[i].0,
    ensures
        table_map(entries).contains_key(entries[i].0),
        table_map(entries)[entries[i].0] == entries[i].1,
    decreases entries.len(),
{
    if i < entries.len() - 1 {
        let shorter = entries.drop_last();
        assert(entries[entries.len() - 1].0 != entries[i].0);
        assert forall|j: int| i < j < shorter.len() implies (#[trigger] shorter[j]).0
            != shorter[i].0 by {
            assert(entries[j].0 != entries[i].0);
        }
        lemma_table_map_value(shorter, i);
    }
}

/// No code occurs twice in the catalog's table.
pub proof fn lemma_codes_unique()
    ensures
        forall|i: int, j: int|
            0 <= i < j < ERRORS_KEYPAIR@.len() ==> (#[trigger] ERRORS_KEYPAIR@[i]).0 != (
            #[trigger] ERRORS_KEYPAIR@[j]).0,
{
}

/// A code of the table resolves to the message of its entry.
pub proof fn lemma_resolve_listed(i: int)
    requires
        0 <= i < ERRORS_KEYPAIR@.len(),
    ensures
        resolve(ERRORS_KEYPAIR@[i].0) == ERRORS_KEYPAIR@[i].1,
{
    lemma_codes_unique();
    lemma_table_map_value(ERRORS_KEYPAIR@, i);
}

/// A code that the table does not list resolves to `UNKNOWN_ERROR`.
pub proof fn lemma_resolve_unlisted(code: usize)
    requires
        !listed(code),
    ensures
        resolve(code) == UNKNOWN_ERROR,
{
    lemma_table_map_keys(ERRORS_KEYPAIR@, code);
}

/// Builds the catalog as a hash map.
pub fn gen_err_map() -> (m: HashMap<usize, &'static str>)
    ensures
        m@ == catalog(),
{
    let mut m: HashMap<usize, &'static str> = HashMap::new();
    let mut i: usize = 0;
    while i < 22
        invariant
            i <= 22,
            m@ == table_map(ERRORS_KEYPAIR@.take(i as int)),
        decreases 22 - i,
    {
        let entry: (usize, &'static str) = ERRORS_KEYPAIR[i];
        assert(ERRORS_KEYPAIR@.take(i + 1).drop_last() == ERRORS_KEYPAIR@.take(i as int));
        m.insert(entry.0, entry.1);
        i += 1;
    }
    assert(ERRORS_KEYPAIR@.take(22) == ERRORS_KEYPAIR@);
    m
}

/// The catalog's message for `code`. Total: a code without an entry gets
/// `UNKNOWN_ERROR`.
pub fn query_msg(code: usize) -> (msg: &'static str)
    ensures
        msg == resolve(code),
{
    let m = gen_err_map();
    match m.get(&code) {
        Some(found) => *found,
        None => UNKNOWN_ERROR,
    }
}

} // verus!
