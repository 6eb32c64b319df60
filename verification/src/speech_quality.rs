//! Transcript filtering: decides whether a recognizer's output is real speech or one
//! of the sentinels, fillers and hallucinations that ASR models emit on near-silence.

use crate::text::{
    ascii_alpha, ascii_lower_chars, ascii_lower_seq, char_alphanumeric, char_whitespace, chars_eq_str,
    chars_of, contains_chars, contains_seq, is_alphanumeric, is_ascii_alpha, is_whitespace,
    lemma_trim_idempotent, lowercase,
    occurs_at, occurs_at_exec, string_of, sub_chars, to_lowercase, trim, trim_end_set,
    trim_end_set_chars, trim_str,
};
use vstd::prelude::*;

verus! {

// ================================================================ specification

/// CJK ideographs: Extension A, the Unified block and Extension B.
pub open spec fn is_cjk(c: char) -> bool {
    let u = c as u32;
    (0x3400 <= u <= 0x4DBF) || (0x4E00 <= u <= 0x9FFF) || (0x20000 <= u <= 0x2A6DF)
}

/// A character that carries content: alphanumeric or a CJK ideograph.
pub open spec fn meaningful(c: char) -> bool {
    char_alphanumeric(c) || is_cjk(c)
}

/// Number of meaningful characters in `s`.
pub open spec fn count_meaningful(s: Seq<char>) -> nat
    decreases s.len(),
{
    if s.len() == 0 {
        0
    } else {
        count_meaningful(s.drop_last()) + if meaningful(s.last()) { 1nat } else { 0nat }
    }
}

/// Number of CJK ideographs in `s`.
pub open spec fn count_cjk(s: Seq<char>) -> nat
    decreases s.len(),
{
    if s.len() == 0 {
        0
    } else {
        count_cjk(s.drop_last()) + if is_cjk(s.last()) { 1nat } else { 0nat }
    }
}

/// Whether some string of `list` holds exactly the characters `w`.
pub open spec fn listed(list: Seq<&str>, w: Seq<char>) -> bool {
    exists|k: int| 0 <= k < list.len() && list[k]@ == w
}

/// Whether some string of `list` occurs inside `s`.
pub open spec fn contains_listed(list: Seq<&str>, s: Seq<char>) -> bool {
    exists|k: int| 0 <= k < list.len() && contains_seq(s, list[k]@)
}

/// Language settings under which the Chinese-service filters apply.
pub open spec fn chinese_filter_language(lang: Seq<char>) -> bool {
    let t = ascii_lower_seq(trim(lang));
    t == ""@ || t == "auto"@ || t == "zh"@ || t == "zh-cn"@ || t == "cmn"@ || t == "yue"@
}

/// Characters stripped from the end of a transcript before it is matched.
pub open spec fn match_tail_set() -> Seq<char> {
    seq!['.', '。', '!', '！', '?', '？', ',', '，', ' ']
}

/// The form in which a transcript is matched against the known hallucinations:
/// trimmed, lowercased, without trailing punctuation.
pub open spec fn normalized(s: Seq<char>) -> Seq<char> {
    trim_end_set(lowercase(trim(s)), match_tail_set())
}

/// `[i, j)` is the one run of ASCII letters in `t`: every letter of `t` lies in it and
/// every character in it is a letter.
pub open spec fn word_span(t: Seq<char>, i: int, j: int) -> bool {
    &&& 0 <= i < j <= t.len()
    &&& forall|k: int| 0 <= k < t.len() ==> (ascii_alpha(#[trigger] t[k]) <==> (i <= k < j))
}

/// Single short Latin words that recognizers produce on near-silence.
pub open spec fn short_latin_words() -> Seq<&'static str> {
    seq!["a", "an", "the", "uh", "um", "er", "ah", "oh", "you"]
}

/// The normalized form of `s` is non-empty, holds no CJK ideograph, and its only ASCII
/// word is one of `short_latin_words()`.
pub open spec fn short_latin_hallucination(s: Seq<char>) -> bool {
    let n = normalized(s);
    &&& n.len() > 0
    &&& forall|k: int| 0 <= k < n.len() ==> !is_cjk(#[trigger] n[k])
    &&& exists|i: int, j: int| word_span(n, i, j) && listed(short_latin_words(), n.subrange(i, j))
}

/// Whole transcripts that are fillers or fragments rather than speech.
pub open spec fn exact_hallucinations() -> Seq<&'static str> {
    seq![
        "o", "i", "l", "0", "1",
        "yeah", "no", "嗯", "啊", "哦", "唉", "噢", "呃", "额", "mm", "hmm",
        "好的好的",
    ]
}

/// Phrases that mark a transcript as a video closer, subtitle credit or prompt echo.
pub open spec fn substring_hallucinations() -> Seq<&'static str> {
    seq![
        "謝謝大家收看", "谢谢大家收看", "謝謝觀看", "谢谢观看", "謝謝觀賞", "谢谢观赏",
        "請訂閱", "请订阅", "訂閱我的頻道", "订阅我的频道", "謝謝大家", "谢谢大家",
        "感謝觀看", "感谢观看", "多謝收看", "多谢收看", "请不吝点赞", "請不吝點讚",
        "點贊訂閱", "点赞订阅", "一鍵三連", "一键三连", "点赞关注转发", "點贊關注轉發",
        "打赏", "字幕志愿者", "字幕志願者", "字幕由", "字幕組", "字幕组", "字幕制作",
        "字幕製作", "翻译志愿者", "翻譯志願者", "中文字幕", "繁體字幕", "简体字幕",
        "字幕提供", "翻譯：", "翻译：", "校對：", "校对：", "mediaclub",
        "以下是普通话的简体中文内容", "这些是普通话的简体中文内容",
        "下面是普通话的简体中文内容", "普通话的简体中文内容",
        "thanks for watching", "thank you for watching", "thanks for listening",
        "please subscribe", "subscribe to my channel", "like and subscribe",
        "see you next time",
    ]
}

/// Number of positions `q < n` at which `t` occurs in `s`.
pub open spec fn count_occurrences(s: Seq<char>, t: Seq<char>, n: int) -> nat
    decreases n,
{
    if n <= 0 {
        0
    } else {
        count_occurrences(s, t, n - 1) + if occurs_at(s, t, n - 1) { 1nat } else { 0nat }
    }
}

/// Whether `t` holds at least one meaningful character.
pub open spec fn token_meaningful(t: Seq<char>) -> bool {
    exists|k: int| 0 <= k < t.len() && meaningful(t[k])
}

/// The `w`-character token of `s` at position `p` is meaningful and occurs at least six
/// times in `s`, for a window `w` of two to four characters that fits six times.
pub open spec fn repeated_token(s: Seq<char>, w: int, p: int) -> bool {
    &&& 2 <= w <= 4
    &&& s.len() >= 6 * w
    &&& 0 <= p && p + w <= s.len()
    &&& token_meaningful(s.subrange(p, p + w))
    &&& count_occurrences(s, s.subrange(p, p + w), s.len() - w + 1) >= 6
}

/// A hallucination loop: a transcript of 8 to 60 characters in which one short
/// meaningful token repeats six times or more.
pub open spec fn has_repetition(s: Seq<char>) -> bool {
    &&& 8 <= s.len() <= 60
    &&& exists|w: int, p: int| repeated_token(s, w, p)
}

/// Known hallucinations: fillers, closers, credits and repetition loops.
pub open spec fn known_hallucination(s: Seq<char>, lang: Seq<char>) -> bool {
    let n = normalized(s);
    ||| listed(exact_hallucinations(), n)
    ||| (chinese_filter_language(lang) && short_latin_hallucination(n))
    ||| contains_listed(substring_hallucinations(), n)
    ||| has_repetition(n)
}

/// Too little content to be speech.
pub open spec fn noise_transcript(s: Seq<char>, lang: Seq<char>) -> bool {
    ||| count_meaningful(s) <= 1
    ||| (count_cjk(s) == 0 && count_meaningful(s) <= 2)
    ||| (chinese_filter_language(lang) && count_cjk(s) == 0 && short_latin_hallucination(s))
}

/// Some non-whitespace character is present and none of them is meaningful.
pub open spec fn punctuation_only(s: Seq<char>) -> bool {
    &&& exists|k: int| 0 <= k < s.len() && !char_whitespace(s[k])
    &&& forall|k: int| 0 <= k < s.len() && !char_whitespace(s[k]) ==> !meaningful(#[trigger] s[k])
}

/// Enclosed in `[..]`, `(..)`, `*..*` or `<..>` (recognizer sentinels such as `[BLANK_AUDIO]`).
pub open spec fn bracketed(s: Seq<char>) -> bool {
    &&& s.len() >= 2
    &&& {
        ||| (s[0] == '[' && s.last() == ']')
        ||| (s[0] == '(' && s.last() == ')')
        ||| (s[0] == '*' && s.last() == '*')
        ||| (s[0] == '<' && s.last() == '>')
    }
}

/// A segment that must not reach history or the user's document.
pub open spec fn silence_marker(segment: Seq<char>, lang: Seq<char>) -> bool {
    let s = trim(segment);
    ||| s.len() == 0
    ||| punctuation_only(s)
    ||| noise_transcript(s, lang)
    ||| bracketed(s)
    ||| known_hallucination(s, lang)
}

/// The text kept from a raw transcript: its trimmed form, unless that is empty or a
/// silence marker.
pub open spec fn finalized(raw: Seq<char>, lang: Seq<char>) -> Option<Seq<char>> {
    let t = trim(raw);
    if t.len() == 0 || silence_marker(t, lang) {
        None
    } else {
        Some(t)
    }
}

// ================================================================ implementation

/// Whether `c` is a CJK ideograph.
pub fn is_cjk_char(c: char) -> (r: bool)
    ensures
        r == is_cjk(c),
{
    let u = c as u32;
    (0x3400 <= u && u <= 0x4DBF) || (0x4E00 <= u && u <= 0x9FFF) || (0x20000 <= u && u <= 0x2A6DF)
}

/// Whether `c` carries content.
pub fn is_meaningful(c: char) -> (r: bool)
    ensures
        r == meaningful(c),
{
    is_alphanumeric(c) || is_cjk_char(c)
}

fn count_meaningful_chars(v: &Vec<char>) -> (n: usize)
    ensures
        n == count_meaningful(v@),
{
    let mut n: usize = 0;
    let mut i: usize = 0;
    while i < v.len()
        invariant
            i <= v.len(),
            n == count_meaningful(v@.take(i as int)),
            n <= i,
        decreases v.len() - i,
    {
        assert(v@.take(i + 1).drop_last() =~= v@.take(i as int));
        if is_meaningful(v[i]) {
            n = n + 1;
        }
        i = i + 1;
    }
    assert(v@.take(v.len() as int) =~= v@);
    n
}

fn count_cjk_chars(v: &Vec<char>) -> (n: usize)
    ensures
        n == count_cjk(v@),
{
    let mut n: usize = 0;
    let mut i: usize = 0;
    while i < v.len()
        invariant
            i <= v.len(),
            n == count_cjk(v@.take(i as int)),
            n <= i,
        decreases v.len() - i,
    {
        assert(v@.take(i + 1).drop_last() =~= v@.take(i as int));
        if is_cjk_char(v[i]) {
            n = n + 1;
        }
        i = i + 1;
    }
    assert(v@.take(v.len() as int) =~= v@);
    n
}

fn is_listed(list: &[&str], w: &Vec<char>) -> (r: bool)
    ensures
        r == listed(list@, w@),
{
    let mut k: usize = 0;
    while k < list.len()
        invariant
            k <= list.len(),
            forall|m: int| 0 <= m < k ==> list@[m]@ != w@,
        decreases list.len() - k,
    {
        if chars_eq_str(w, list[k]) {
            return true;
        }
        k = k + 1;
    }
    false
}

fn contains_any_listed(list: &[&str], s: &Vec<char>) -> (r: bool)
    ensures
        r == contains_listed(list@, s@),
{
    let mut k: usize = 0;
    while k < list.len()
        invariant
            k <= list.len(),
            forall|m: int| 0 <= m < k ==> !contains_seq(s@, list@[m]@),
        decreases list.len() - k,
    {
        if contains_chars(s, &chars_of(list[k])) {
            return true;
        }
        k = k + 1;
    }
    false
}

fn match_tail_chars() -> (r: Vec<char>)
    ensures
        r@ == match_tail_set(),
{
    let r = vec!['.', '。', '!', '！', '?', '？', ',', '，', ' '];
    assert(r@ =~= match_tail_set());
    r
}

/// Whether the language setting selects the Chinese-service filters
/// (`""`, `auto`, `zh`, `zh-cn`, `cmn` or `yue`, ignoring ASCII case and surrounding
/// whitespace).
pub fn language_prefers_chinese_filter(language: &str) -> (r: bool)
    ensures
        r == chinese_filter_language(language@),
{
    let t = ascii_lower_chars(&trim_str(language));
    chars_eq_str(&t, "") || chars_eq_str(&t, "auto") || chars_eq_str(&t, "zh")
        || chars_eq_str(&t, "zh-cn") || chars_eq_str(&t, "cmn") || chars_eq_str(&t, "yue")
}

/// The characters of `s` trimmed, lowercased, and without trailing punctuation.
pub fn normalize_for_match(s: &str) -> (r: Vec<char>)
    ensures
        r@ == normalized(s@),
{
    let trimmed = string_of(&trim_str(s));
    let lower = chars_of(&to_lowercase(&trimmed));
    trim_end_set_chars(&lower, &match_tail_chars())
}

proof fn lemma_span_unique(t: Seq<char>, i: int, j: int, i2: int, j2: int)
    requires
        word_span(t, i, j),
        word_span(t, i2, j2),
    ensures
        i == i2 && j == j2,
{
    assert(ascii_alpha(t[i]));
    assert(ascii_alpha(t[i2]));
    assert(ascii_alpha(t[j - 1]));
    assert(ascii_alpha(t[j2 - 1]));
}

/// Whether `s`, once normalized, is a lone short Latin word (`a`, `the`, `you`, ...).
#[verifier::loop_isolation(false)]
pub fn is_short_latin_hallucination(s: &str) -> (r: bool)
    ensures
        r == short_latin_hallucination(s@),
{
    let n = normalize_for_match(s);
    if n.len() == 0 {
        return false;
    }
    let mut k: usize = 0;
    while k < n.len()
        invariant
            k <= n.len(),
            forall|m: int| 0 <= m < k ==> !is_cjk(#[trigger] n@[m]),
        decreases n.len() - k,
    {
        if is_cjk_char(n[k]) {
            assert(is_cjk(n@[k as int]));
            return false;
        }
        k = k + 1;
    }
    // first letter
    let mut i: usize = 0;
    while i < n.len() && !is_ascii_alpha(n[i])
        invariant
            i <= n.len(),
            forall|m: int| 0 <= m < i ==> !ascii_alpha(#[trigger] n@[m]),
        decreases n.len() - i,
    {
        i = i + 1;
    }
    if i == n.len() {
        proof {
            assert forall|a: int, b: int| !word_span(n@, a, b) by {
                if word_span(n@, a, b) {
                    assert(ascii_alpha(n@[a]));
                }
            }
        }
        return false;
    }
    // end of the run
    let mut j: usize = i + 1;
    while j < n.len() && is_ascii_alpha(n[j])
        invariant
            i < j <= n.len(),
            forall|m: int| 0 <= m < i ==> !ascii_alpha(#[trigger] n@[m]),
            forall|m: int| i <= m < j ==> ascii_alpha(#[trigger] n@[m]),
        decreases n.len() - j,
    {
        j = j + 1;
    }
    // no letter after the run
    let mut m: usize = j;
    while m < n.len()
        invariant
            i < j <= m <= n.len(),
            forall|q: int| 0 <= q < i ==> !ascii_alpha(#[trigger] n@[q]),
            forall|q: int| i <= q < j ==> ascii_alpha(#[trigger] n@[q]),
            j < n.len() ==> !ascii_alpha(n@[j as int]),
            forall|q: int| j <= q < m ==> !ascii_alpha(#[trigger] n@[q]),
        decreases n.len() - m,
    {
        if is_ascii_alpha(n[m]) {
            proof {
                assert forall|a: int, b: int| !word_span(n@, a, b) by {
                    if word_span(n@, a, b) {
                        assert(ascii_alpha(n@[i as int]));
                        if a < i {
                            assert(ascii_alpha(n@[a]));
                        }
                        assert(ascii_alpha(n@[m as int]));
                    }
                }
            }
            return false;
        }
        m = m + 1;
    }
    assert(word_span(n@, i as int, j as int));
    let word = sub_chars(&n, i, j);
    let list: [&str; 9] = ["a", "an", "the", "uh", "um", "er", "ah", "oh", "you"];
    assert(list@ =~= short_latin_words());
    let r = is_listed(&list, &word);
    proof {
        if !r {
            assert forall|a: int, b: int| !(word_span(n@, a, b) && listed(short_latin_words(), n@.subrange(a, b))) by {
                if word_span(n@, a, b) {
                    lemma_span_unique(n@, a, b, i as int, j as int);
                }
            }
        }
    }
    r
}

/// Whether `s` is empty of content: some non-whitespace character, none of them
/// meaningful.
pub fn is_punctuation_or_symbol_only(s: &Vec<char>) -> (r: bool)
    ensures
        r == punctuation_only(s@),
{
    let mut saw_any = false;
    let mut k: usize = 0;
    while k < s.len()
        invariant
            k <= s.len(),
            saw_any == exists|m: int| 0 <= m < k && !char_whitespace(s@[m]),
            forall|m: int| 0 <= m < k && !char_whitespace(s@[m]) ==> !meaningful(#[trigger] s@[m]),
        decreases s.len() - k,
    {
        if !is_whitespace(s[k]) {
            saw_any = true;
            if is_meaningful(s[k]) {
                return false;
            }
        }
        k = k + 1;
    }
    saw_any
}

fn is_token_meaningful(t: &Vec<char>) -> (r: bool)
    ensures
        r == token_meaningful(t@),
{
    let mut k: usize = 0;
    while k < t.len()
        invariant
            k <= t.len(),
            forall|m: int| 0 <= m < k ==> !meaningful(#[trigger] t@[m]),
        decreases t.len() - k,
    {
        if is_meaningful(t[k]) {
            return true;
        }
        k = k + 1;
    }
    false
}

fn occurrences(s: &Vec<char>, t: &Vec<char>, n: usize) -> (c: usize)
    requires
        n <= s.len(),
    ensures
        c == count_occurrences(s@, t@, n as int),
{
    let mut c: usize = 0;
    let mut q: usize = 0;
    while q < n
        invariant
            q <= n <= s.len(),
            c == count_occurrences(s@, t@, q as int),
            c <= q,
        decreases n - q,
    {
        if occurs_at_exec(s, t, q) {
            c = c + 1;
        }
        q = q + 1;
    }
    c
}

/// Whether `s` is a repetition loop (see `has_repetition`).
pub fn has_repetition_chars(s: &Vec<char>) -> (r: bool)
    ensures
        r == has_repetition(s@),
{
    let len = s.len();
    if len < 8 || len > 60 {
        return false;
    }
    let mut w: usize = 2;
    while w <= 4
        invariant
            8 <= len <= 60,
            len == s.len(),
            2 <= w <= 5,
            forall|w2: int, p2: int| 2 <= w2 < w ==> !#[trigger] repeated_token(s@, w2, p2),
        decreases 5 - w,
    {
        if len >= 6 * w {
            let mut p: usize = 0;
            while p + w <= len
                invariant
                    8 <= len <= 60,
                    len == s.len(),
                    2 <= w <= 4,
                    len >= 6 * w,
                    p <= len,
                    forall|p2: int| 0 <= p2 < p ==> !#[trigger] repeated_token(s@, w as int, p2),
                decreases len - p,
            {
                let tok = sub_chars(s, p, p + w);
                if is_token_meaningful(&tok) {
                    let c = occurrences(s, &tok, len - w + 1);
                    if c >= 6 {
                        assert(repeated_token(s@, w as int, p as int));
                        return true;
                    }
                }
                p = p + 1;
            }
            assert forall|p2: int| !#[trigger] repeated_token(s@, w as int, p2) by {
                if p2 >= p as int {
                }
            }
        }
        w = w + 1;
    }
    false
}

/// Whether `s` is a known hallucination under the language setting `language`.
pub fn is_known_hallucination(s: &str, language: &str) -> (r: bool)
    ensures
        r == known_hallucination(s@, language@),
{
    let norm = normalize_for_match(s);
    let exact: [&str; 17] = [
        "o", "i", "l", "0", "1",
        "yeah", "no", "嗯", "啊", "哦", "唉", "噢", "呃", "额", "mm", "hmm",
        "好的好的",
    ];
    assert(exact@ =~= exact_hallucinations());
    if is_listed(&exact, &norm) {
        return true;
    }
    if language_prefers_chinese_filter(language) {
        let norm_str = string_of(&norm);
        if is_short_latin_hallucination(&norm_str) {
            return true;
        }
    }
    let phrases: [&str; 54] = [
        "謝謝大家收看", "谢谢大家收看", "謝謝觀看", "谢谢观看", "謝謝觀賞", "谢谢观赏",
        "請訂閱", "请订阅", "訂閱我的頻道", "订阅我的频道", "謝謝大家", "谢谢大家",
        "感謝觀看", "感谢观看", "多謝收看", "多谢收看", "请不吝点赞", "請不吝點讚",
        "點贊訂閱", "点赞订阅", "一鍵三連", "一键三连", "点赞关注转发", "點贊關注轉發",
        "打赏", "字幕志愿者", "字幕志願者", "字幕由", "字幕組", "字幕组", "字幕制作",
        "字幕製作", "翻译志愿者", "翻譯志願者", "中文字幕", "繁體字幕", "简体字幕",
        "字幕提供", "翻譯：", "翻译：", "校對：", "校对：", "mediaclub",
        "以下是普通话的简体中文内容", "这些是普通话的简体中文内容",
        "下面是普通话的简体中文内容", "普通话的简体中文内容",
        "thanks for watching", "thank you for watching", "thanks for listening",
        "please subscribe", "subscribe to my channel", "like and subscribe",
        "see you next time",
    ];
    assert(phrases@ =~= substring_hallucinations());
    if contains_any_listed(&phrases, &norm) {
        return true;
    }
    has_repetition_chars(&norm)
}

/// Whether `s` holds too little content to be speech.
pub fn looks_like_noise_transcript(s: &str, language: &str) -> (r: bool)
    ensures
        r == noise_transcript(s@, language@),
{
    let v = chars_of(s);
    let meaningful_n = count_meaningful_chars(&v);
    if meaningful_n <= 1 {
        return true;
    }
    let cjk = count_cjk_chars(&v);
    if cjk == 0 && meaningful_n <= 2 {
        return true;
    }
    language_prefers_chinese_filter(language) && cjk == 0 && is_short_latin_hallucination(s)
}

fn is_bracketed(s: &Vec<char>) -> (r: bool)
    ensures
        r == bracketed(s@),
{
    if s.len() < 2 {
        return false;
    }
    let first = s[0];
    let last = s[s.len() - 1];
    (first == '[' && last == ']') || (first == '(' && last == ')') || (first == '*' && last == '*')
        || (first == '<' && last == '>')
}

/// Whether `segment` is a sentinel (`[BLANK_AUDIO]`, `(silence)`), a filler, noise or a
/// known hallucination, rather than speech.
pub fn is_silence_marker(segment: &str, language: &str) -> (r: bool)
    ensures
        r == silence_marker(segment@, language@),
{
    let s = trim_str(segment);
    if s.len() == 0 || is_punctuation_or_symbol_only(&s) {
        return true;
    }
    let st = string_of(&s);
    if looks_like_noise_transcript(&st, language) {
        return true;
    }
    if is_bracketed(&s) {
        return true;
    }
    is_known_hallucination(&st, language)
}

/// The text to keep from a raw transcript: `Some` of the trimmed text, or `None` when
/// it is empty or a silence marker.
pub fn finalize_transcript(raw: &str, language: &str) -> (r: Option<String>)
    ensures
        r matches Some(t) ==> finalized(raw@, language@) == Some(t@),
        r is None <==> finalized(raw@, language@) is None,
{
    let t = trim_str(raw);
    let ts = string_of(&t);
    if t.len() == 0 || is_silence_marker(&ts, language) {
        None
    } else {
        Some(ts)
    }
}

// ================================================================ laws

/// A transcript that was kept passes the filter again, unchanged.
pub proof fn law_finalized_is_stable(raw: Seq<char>, lang: Seq<char>)
    requires
        finalized(raw, lang) is Some,
    ensures
        finalized(finalized(raw, lang)->0, lang) == finalized(raw, lang),
{
    lemma_trim_idempotent(raw);
}

/// A kept transcript is its trimmed text and holds at least two characters of content.
pub proof fn law_kept_has_content(raw: Seq<char>, lang: Seq<char>)
    requires
        finalized(raw, lang) is Some,
    ensures
        finalized(raw, lang)->0 == trim(raw),
        count_meaningful(trim(raw)) >= 2,
{
    lemma_trim_idempotent(raw);
}

/// A transcript that is only punctuation and symbols is dropped.
pub proof fn law_punctuation_dropped(raw: Seq<char>, lang: Seq<char>)
    requires
        punctuation_only(trim(raw)),
    ensures
        finalized(raw, lang) is None,
{
    lemma_trim_idempotent(raw);
}

/// A recognizer sentinel enclosed in brackets (`[BLANK_AUDIO]`, `(silence)`, `*music*`,
/// `<noise>`) is dropped.
pub proof fn law_bracketed_dropped(raw: Seq<char>, lang: Seq<char>)
    requires
        bracketed(trim(raw)),
    ensures
        finalized(raw, lang) is None,
{
    lemma_trim_idempotent(raw);
}

/// A transcript holding a video closer, subtitle credit or prompt echo is dropped,
/// whatever else it says.
pub proof fn law_closers_dropped(raw: Seq<char>, lang: Seq<char>)
    requires
        contains_listed(substring_hallucinations(), normalized(raw)),
    ensures
        finalized(raw, lang) is None,
{
    lemma_trim_idempotent(raw);
    lemma_trim_idempotent(trim(raw));
}

/// A hallucination loop, one short token repeated six times or more, is dropped.
pub proof fn law_repetition_dropped(raw: Seq<char>, lang: Seq<char>)
    requires
        has_repetition(normalized(raw)),
    ensures
        finalized(raw, lang) is None,
{
    lemma_trim_idempotent(raw);
    lemma_trim_idempotent(trim(raw));
}


/// Every CJK ideograph is a meaningful character, so a text holds at least as many
/// meaningful characters as ideographs.
pub proof fn lemma_cjk_counted_as_meaningful(s: Seq<char>)
    ensures
        count_cjk(s) <= count_meaningful(s),
        count_cjk(s) <= s.len(),
    decreases s.len(),
{
    if s.len() > 0 {
        lemma_cjk_counted_as_meaningful(s.drop_last());
    }
}

/// Short Chinese speech is kept: a transcript whose trimmed text holds two or more
/// CJK ideographs is kept as that trimmed text, unless it is punctuation only,
/// bracketed, a listed filler, a lone short Latin filler, holds a listed closer or
/// credit, or is a repetition loop.
pub proof fn law_short_chinese_speech_kept(raw: Seq<char>, lang: Seq<char>)
    requires
        count_cjk(trim(raw)) >= 2,
        !punctuation_only(trim(raw)),
        !bracketed(trim(raw)),
        !listed(exact_hallucinations(), normalized(raw)),
        !short_latin_hallucination(normalized(raw)),
        !contains_listed(substring_hallucinations(), normalized(raw)),
        !has_repetition(normalized(raw)),
    ensures
        finalized(raw, lang) == Some(trim(raw)),
{
    lemma_trim_idempotent(raw);
    lemma_cjk_counted_as_meaningful(trim(raw));
}

} // verus!
