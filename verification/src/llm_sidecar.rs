//! The local language-model assistant: its settings and counters, the fast
//! path that answers known commands without the model, and the text
//! handling around the model's replies.

use vstd::prelude::*;
use vstd::string::*;
use crate::text::{all_ascii, ascii_lower, owned, push_char, push_decimal, push_str, str_chars, decimal};
use crate::kyc::{digits_value, is_digit};

verus! {

/// A chat message sent to the assistant.
#[derive(Debug, Clone)]
pub struct ChatRequest {
    pub message: String,
}

/// The system prompt that teaches the model the venue's API.
pub const SYSTEM_PROMPT: &'static str = "أنت المساعد الذكي لنظام THE-BRIDGE — محرك المطابقة المالي السيادي.\nأنت متصل بـ API محلي على http://127.0.0.1:3001.\n\n## قدراتك:\nيمكنك تنفيذ الأوامر التالية بإخراج [ACTION] blocks:\n\n### ضريبة السيادة (Ghost Tax):\n- عرض الضريبة: GET /api/v1/ghost/stats\n- تعيين النسبة: POST /api/v1/ghost/tax/rate  body: {\"rate_bps\": <number>}\n- عرض الخزنة: POST /api/v1/ghost/treasury\n\n### العناوين المحظورة:\n- إضافة حظر: POST /api/v1/ghost/prohibited/<address>\n- إزالة حظر: DELETE /api/v1/ghost/prohibited/<address>\n- عرض المحظورين: GET /api/v1/ghost/prohibited\n\n### عملاء المخابرة (Sleeper Agents):\n- مراقبة: POST /api/v1/ghost/sleeper/<address>  body: {\"label\": \"...\"}\n- إزالة: DELETE /api/v1/ghost/sleeper/<address>\n- تجميد: POST /api/v1/ghost/sleeper/<address>/freeze\n- مصادرة: POST /api/v1/ghost/sleeper/<address>/seize\n\n### الجسر (Bridge):\n- عرض المشاريع: GET /api/v1/bridge/projects\n- تسجيل مشروع: POST /api/v1/bridge/projects  body: {\"name\":\"...\",\"endpoint\":\"...\",\"auth_key\":\"...\",\"capabilities\":[...]}\n\n### النسخ الاحتياطي:\n- نسخ يدوي: POST /api/v1/backup/trigger\n- الحالة: GET /api/v1/backup/status\n\n### النظام:\n- الصحة: GET /api/v1/health\n- الإحصائيات: GET /api/v1/consensus/stats\n- دفتر الأوامر: GET /api/v1/orderbook/<pair>\n\n## تعليمات:\n1. أجب بالعربية دائماً.\n2. لتنفيذ أمر، أضف [ACTION] في نهاية ردك بالصيغة:\n   [ACTION] {\"method\":\"POST\",\"path\":\"/api/v1/ghost/sleeper/user:666/freeze\"} [/ACTION]\n3. يمكنك تنفيذ عدة أوامر في رد واحد.\n4. إذا احتاج المستخدم معلومات، استخدم GET وتابع في ردك.\n5. كن موجزاً وفعالاً.\n";

/// What `str::to_lowercase` returns for a text.
pub uninterp spec fn str_to_lowercase(s: Seq<char>) -> Seq<char>;

/// A line without the `\r` of a `\r\n` ending.
pub open spec fn strip_cr(line: Seq<char>) -> Seq<char> {
    if line.len() > 0 && line.last() == '\r' { line.drop_last() } else { line }
}

/// The lines ended within the first `n` characters, and the line begun
/// after the last of them.
pub open spec fn lines_upto(s: Seq<char>, n: int) -> (Seq<Seq<char>>, Seq<char>)
    decreases n,
{
    if n <= 0 {
        (Seq::empty(), Seq::empty())
    } else {
        let prev = lines_upto(s, n - 1);
        if s[n - 1] == '\n' {
            (prev.0.push(strip_cr(prev.1)), Seq::empty())
        } else {
            (prev.0, prev.1.push(s[n - 1]))
        }
    }
}

/// What `str::lines` returns for a text, as its documentation gives it:
/// lines end at `\n` or `\r\n`, which are not part of them (a bare `\r`
/// is no line ending), and the final line ending is optional, so a text that
/// ends with one has no empty last line.
pub open spec fn str_lines(s: Seq<char>) -> Seq<Seq<char>> {
    let acc = lines_upto(s, s.len() as int);
    if acc.1.len() == 0 { acc.0 } else { acc.0.push(acc.1) }
}

/// Whether a character has the Unicode White_Space property, which
/// `char::is_whitespace`, `str::trim` and `str::split_whitespace` go by: tab,
/// line feed, vertical tab, form feed, carriage return, space, next line,
/// no-break space, Ogham space mark, the spaces U+2000 to U+200A, line and
/// paragraph separators, narrow no-break space, medium mathematical space
/// and ideographic space.
pub open spec fn is_white_space(c: char) -> bool {
    let n = c as u32;
    ||| 0x09 <= n <= 0x0D
    ||| n == 0x20
    ||| n == 0x85
    ||| n == 0xA0
    ||| n == 0x1680
    ||| 0x2000 <= n <= 0x200A
    ||| n == 0x2028
    ||| n == 0x2029
    ||| n == 0x202F
    ||| n == 0x205F
    ||| n == 0x3000
}

/// The index of the first character at or after `i` that is not white
/// space (the length when there is none).
pub open spec fn first_non_space(s: Seq<char>, i: int) -> int
    decreases s.len() - i,
{
    if i >= s.len() {
        s.len() as int
    } else if !is_white_space(s[i]) {
        i
    } else {
        first_non_space(s, i + 1)
    }
}

/// The end of the text up to `j` once trailing white space is dropped (0
/// when all of it is white space).
pub open spec fn end_non_space(s: Seq<char>, j: int) -> int
    decreases j,
{
    if j <= 0 {
        0
    } else if !is_white_space(s[j - 1]) {
        j
    } else {
        end_non_space(s, j - 1)
    }
}

/// What `str::trim` returns for a text: the text without leading and
/// trailing white space.
pub open spec fn str_trim(s: Seq<char>) -> Seq<char> {
    let a = first_non_space(s, 0);
    let e = end_non_space(s, s.len() as int);
    if a < e { s.subrange(a, e) } else { Seq::empty() }
}

/// The words ended within the first `n` characters, and the word begun
/// after the last white space among them.
pub open spec fn words_upto(s: Seq<char>, n: int) -> (Seq<Seq<char>>, Seq<char>)
    decreases n,
{
    if n <= 0 {
        (Seq::empty(), Seq::empty())
    } else {
        let prev = words_upto(s, n - 1);
        if is_white_space(s[n - 1]) {
            if prev.1.len() > 0 { (prev.0.push(prev.1), Seq::empty()) } else { (prev.0, Seq::empty()) }
        } else {
            (prev.0, prev.1.push(s[n - 1]))
        }
    }
}

/// What `str::split_whitespace` returns for a text: its non-empty runs
/// between white space, in order.
pub open spec fn str_split_whitespace(s: Seq<char>) -> Seq<Seq<char>> {
    let acc = words_upto(s, s.len() as int);
    if acc.1.len() == 0 { acc.0 } else { acc.0.push(acc.1) }
}

/// Whether a character is white space.
fn char_is_white_space(c: char) -> (r: bool)
    ensures
        r == is_white_space(c),
{
    let n = c as u32;
    (0x09 <= n && n <= 0x0D) || n == 0x20 || n == 0x85 || n == 0xA0 || n == 0x1680
        || (0x2000 <= n && n <= 0x200A) || n == 0x2028 || n == 0x2029 || n == 0x202F
        || n == 0x205F || n == 0x3000
}

/// `str::to_lowercase`; its result is named by `str_to_lowercase`. On
/// ASCII text the Unicode mapping takes `A`-`Z` to `a`-`z` and keeps every
/// other character, as `to_ascii_lowercase` does.
#[verifier::external_body]
fn to_lowercase(s: &str) -> (r: String)
    ensures
        r@ == str_to_lowercase(s@),
        all_ascii(s@) ==> r@ == s@.map_values(|c: char| ascii_lower(c)),
{
    s.to_lowercase()
}

/// The first `n` characters as a string.
fn string_of(chars: &Vec<char>, n: usize) -> (r: String)
    requires
        n <= chars@.len(),
    ensures
        r@ == chars@.take(n as int),
{
    let mut out = String::new();
    let mut i: usize = 0;
    while i < n
        invariant
            i <= n,
            n <= chars@.len(),
            out@ == chars@.take(i as int),
        decreases n - i,
    {
        push_char(&mut out, chars[i]);
        assert(chars@.take(i + 1) =~= chars@.take(i as int).push(chars@[i as int]));
        i = i + 1;
    }
    out
}

/// The lines of a text, each copied out, as `str::lines` gives them.
fn lines_of(s: &str) -> (r: Vec<String>)
    ensures
        r@.map_values(|l: String| l@) == str_lines(s@),
{
    let sc = str_chars(s);
    let mut done: Vec<String> = Vec::new();
    let mut cur: Vec<char> = Vec::new();
    let mut i: usize = 0;
    while i < sc.len()
        invariant
            i <= sc@.len(),
            sc@ == s@,
            done@.map_values(|l: String| l@) == lines_upto(sc@, i as int).0,
            cur@ == lines_upto(sc@, i as int).1,
        decreases sc@.len() - i,
    {
        let c = sc[i];
        let ghost prev = lines_upto(sc@, i as int);
        if c == '\n' {
            let m = if cur.len() > 0 && cur[cur.len() - 1] == '\r' { cur.len() - 1 } else { cur.len() };
            let line = string_of(&cur, m);
            proof {
                assert(cur@.take(m as int) =~= strip_cr(prev.1));
            }
            done.push(line);
            cur = Vec::new();
            proof {
                assert(done@.map_values(|l: String| l@) =~= prev.0.push(strip_cr(prev.1)));
            }
        } else {
            cur.push(c);
        }
        i = i + 1;
    }
    if cur.len() > 0 {
        let line = string_of(&cur, cur.len());
        let ghost before = done@.map_values(|l: String| l@);
        done.push(line);
        proof {
            assert(cur@.take(cur@.len() as int) =~= cur@);
            assert(done@.map_values(|l: String| l@) =~= before.push(cur@));
        }
    }
    done
}

/// The characters from `a` up to `e` as a string.
fn string_between(chars: &Vec<char>, a: usize, e: usize) -> (r: String)
    requires
        a <= e <= chars@.len(),
    ensures
        r@ == chars@.subrange(a as int, e as int),
{
    let mut out = String::new();
    let mut i: usize = a;
    while i < e
        invariant
            a <= i <= e,
            e <= chars@.len(),
            out@ == chars@.subrange(a as int, i as int),
        decreases e - i,
    {
        push_char(&mut out, chars[i]);
        assert(chars@.subrange(a as int, i + 1) =~= chars@.subrange(a as int, i as int).push(chars@[i as int]));
        i = i + 1;
    }
    out
}

/// The text without leading and trailing white space, as `str::trim` gives
/// it.
fn trim(s: &str) -> (r: String)
    ensures
        r@ == str_trim(s@),
{
    let sc = str_chars(s);
    let n = sc.len();
    let mut a: usize = 0;
    while a < n && char_is_white_space(sc[a])
        invariant
            a <= n,
            n == sc@.len(),
            first_non_space(sc@, a as int) == first_non_space(sc@, 0),
        decreases n - a,
    {
        a = a + 1;
    }
    let mut e: usize = n;
    while e > 0 && char_is_white_space(sc[e - 1])
        invariant
            e <= n,
            n == sc@.len(),
            end_non_space(sc@, e as int) == end_non_space(sc@, n as int),
        decreases e,
    {
        e = e - 1;
    }
    assert(first_non_space(sc@, 0) == a);
    assert(end_non_space(sc@, n as int) == e);
    if a < e {
        string_between(&sc, a, e)
    } else {
        let r = String::new();
        assert(r@ =~= Seq::<char>::empty());
        r
    }
}

/// The non-empty runs of a text between white space, each copied out, as
/// `str::split_whitespace` gives them.
fn words_of(s: &str) -> (r: Vec<String>)
    ensures
        r@.map_values(|w: String| w@) == str_split_whitespace(s@),
{
    let sc = str_chars(s);
    let mut done: Vec<String> = Vec::new();
    let mut cur: Vec<char> = Vec::new();
    let mut i: usize = 0;
    while i < sc.len()
        invariant
            i <= sc@.len(),
            sc@ == s@,
            done@.map_values(|w: String| w@) == words_upto(sc@, i as int).0,
            cur@ == words_upto(sc@, i as int).1,
        decreases sc@.len() - i,
    {
        let c = sc[i];
        let ghost prev = words_upto(sc@, i as int);
        if char_is_white_space(c) {
            if cur.len() > 0 {
                let word = string_of(&cur, cur.len());
                proof {
                    assert(cur@.take(cur@.len() as int) =~= cur@);
                }
                done.push(word);
                cur = Vec::new();
                proof {
                    assert(done@.map_values(|w: String| w@) =~= prev.0.push(prev.1));
                }
            }
        } else {
            cur.push(c);
        }
        i = i + 1;
    }
    if cur.len() > 0 {
        let word = string_of(&cur, cur.len());
        let ghost before = done@.map_values(|w: String| w@);
        done.push(word);
        proof {
            assert(cur@.take(cur@.len() as int) =~= cur@);
            assert(done@.map_values(|w: String| w@) =~= before.push(cur@));
        }
    }
    done
}

/// Whether `pat` occurs in `s` as a contiguous run.
pub open spec fn contains_seq(s: Seq<char>, pat: Seq<char>) -> bool {
    exists|i: int| 0 <= i <= s.len() - pat.len() && #[trigger] s.subrange(i, i + pat.len()) == pat
}

pub open spec fn starts_with_seq(s: Seq<char>, pat: Seq<char>) -> bool {
    pat.len() <= s.len() && s.take(pat.len() as int) == pat
}

pub open spec fn ends_with_seq(s: Seq<char>, pat: Seq<char>) -> bool {
    pat.len() <= s.len() && s.skip(s.len() - pat.len()) == pat
}

/// Whether `pc` occurs in `sc` at `i`.
fn matches_at(sc: &Vec<char>, pc: &Vec<char>, i: usize) -> (r: bool)
    requires
        i + pc@.len() <= sc@.len(),
    ensures
        r == (sc@.subrange(i as int, i + pc@.len()) == pc@),
{
    let n = sc.len();
    let mut k: usize = 0;
    while k < pc.len()
        invariant
            k <= pc@.len(),
            i + pc@.len() <= sc@.len(),
            n == sc@.len(),
            forall|j: int| 0 <= j < k ==> sc@[i + j] == pc@[j],
        decreases pc@.len() - k,
    {
        if sc[i + k] != pc[k] {
            assert(sc@.subrange(i as int, i + pc@.len())[k as int] != pc@[k as int]);
            return false;
        }
        k = k + 1;
    }
    assert(sc@.subrange(i as int, i + pc@.len()) =~= pc@);
    true
}

/// Whether `pat` occurs in `s`, as `str::contains` with a text pattern.
fn contains(s: &str, pat: &str) -> (r: bool)
    ensures
        r == contains_seq(s@, pat@),
{
    let sc = str_chars(s);
    let pc = str_chars(pat);
    if pc.len() > sc.len() {
        return false;
    }
    let last = sc.len() - pc.len();
    let mut i: usize = 0;
    while i < last
        invariant
            sc@ == s@,
            pc@ == pat@,
            last == sc@.len() - pc@.len(),
            i <= last,
            forall|j: int| 0 <= j < i ==> #[trigger] sc@.subrange(j, j + pc@.len()) != pc@,
        decreases last - i,
    {
        if matches_at(&sc, &pc, i) {
            return true;
        }
        i = i + 1;
    }
    matches_at(&sc, &pc, last)
}

/// Whether `s` begins with `pat`, as `str::starts_with` with a text pattern.
fn starts_with(s: &str, pat: &str) -> (r: bool)
    ensures
        r == starts_with_seq(s@, pat@),
{
    let sc = str_chars(s);
    let pc = str_chars(pat);
    if pc.len() > sc.len() {
        return false;
    }
    let r = matches_at(&sc, &pc, 0);
    assert(sc@.subrange(0, pc@.len() as int) =~= sc@.take(pc@.len() as int));
    r
}

/// Whether `s` ends with `pat`, as `str::ends_with` with a text pattern.
fn ends_with(s: &str, pat: &str) -> (r: bool)
    ensures
        r == ends_with_seq(s@, pat@),
{
    let sc = str_chars(s);
    let pc = str_chars(pat);
    if pc.len() > sc.len() {
        return false;
    }
    let start = sc.len() - pc.len();
    let r = matches_at(&sc, &pc, start);
    assert(sc@.subrange(start as int, start + pc@.len()) =~= sc@.skip(sc@.len() - pc@.len()));
    r
}

/// The ASCII digits of a text, in order.
pub open spec fn ascii_digits(s: Seq<char>) -> Seq<char>
    decreases s.len(),
{
    if s.len() == 0 {
        Seq::empty()
    } else {
        let init = ascii_digits(s.drop_last());
        if is_digit(s.last()) { init.push(s.last()) } else { init }
    }
}

/// The number spelled by the digits of a text: nothing when there are none
/// or when it does not fit in 64 bits.
pub open spec fn spec_extract_number(s: Seq<char>) -> Option<u64> {
    let d = ascii_digits(s);
    if d.len() == 0 || digits_value(d) > u64::MAX {
        None
    } else {
        Some(digits_value(d) as u64)
    }
}

/// A run of digits never spells a negative number.
pub proof fn lemma_digits_value_nonneg(s: Seq<char>)
    requires
        forall|i: int| 0 <= i < s.len() ==> is_digit(#[trigger] s[i]),
    ensures
        digits_value(s) >= 0,
    decreases s.len(),
{
    if s.len() > 0 {
        assert forall|i: int| 0 <= i < s.drop_last().len() implies is_digit(#[trigger] s.drop_last()[i]) by {
            assert(s.drop_last()[i] == s[i]);
        }
        lemma_digits_value_nonneg(s.drop_last());
    }
}

/// A prefix of a digit run never spells more than the whole run.
pub proof fn lemma_digits_value_prefix(s: Seq<char>, n: int)
    requires
        0 <= n <= s.len(),
        forall|i: int| 0 <= i < s.len() ==> is_digit(#[trigger] s[i]),
    ensures
        digits_value(s.take(n)) <= digits_value(s),
    decreases s.len(),
{
    if n < s.len() {
        let init = s.drop_last();
        assert forall|i: int| 0 <= i < init.len() implies is_digit(#[trigger] init[i]) by {
            assert(init[i] == s[i]);
        }
        lemma_digits_value_prefix(init, n);
        assert(init.take(n) =~= s.take(n));
        lemma_digits_value_nonneg(init);
    } else {
        assert(s.take(n) =~= s);
    }
}

proof fn lemma_ascii_digits_are_digits(s: Seq<char>)
    ensures
        forall|i: int| 0 <= i < ascii_digits(s).len() ==> is_digit(#[trigger] ascii_digits(s)[i]),
    decreases s.len(),
{
    if s.len() > 0 {
        lemma_ascii_digits_are_digits(s.drop_last());
        let init = ascii_digits(s.drop_last());
        if is_digit(s.last()) {
            assert forall|i: int| 0 <= i < ascii_digits(s).len() implies is_digit(#[trigger] ascii_digits(s)[i]) by {
                if i < init.len() {
                    assert(ascii_digits(s)[i] == init[i]);
                }
            }
        }
    }
}

/// Reads the number spelled by the ASCII digits of a text, ignoring every
/// other character.
pub fn extract_number(s: &str) -> (r: Option<u64>)
    ensures
        r == spec_extract_number(s@),
{
    let chars = str_chars(s);
    let mut digits: Vec<char> = Vec::new();
    let mut i: usize = 0;
    while i < chars.len()
        invariant
            i <= chars@.len(),
            chars@ == s@,
            digits@ == ascii_digits(chars@.take(i as int)),
        decreases chars@.len() - i,
    {
        assert(chars@.take(i + 1).drop_last() =~= chars@.take(i as int));
        let c = chars[i];
        if '0' <= c && c <= '9' {
            digits.push(c);
        }
        i = i + 1;
    }
    assert(chars@.take(chars@.len() as int) =~= chars@);
    proof {
        lemma_ascii_digits_are_digits(s@);
    }
    if digits.len() == 0 {
        return None;
    }
    let mut v: u64 = 0;
    let mut k: usize = 0;
    while k < digits.len()
        invariant
            k <= digits@.len(),
            digits@ == ascii_digits(s@),
            forall|j: int| 0 <= j < digits@.len() ==> is_digit(#[trigger] digits@[j]),
            v == digits_value(digits@.take(k as int)),
        decreases digits@.len() - k,
    {
        assert(digits@.take(k + 1).drop_last() =~= digits@.take(k as int));
        let d: u64 = (digits[k] as u32 - 48) as u64;
        match v.checked_mul(10) {
            Some(m) => match m.checked_add(d) {
                Some(n) => {
                    v = n;
                },
                None => {
                    proof {
                        lemma_digits_value_prefix(digits@, k + 1);
                    }
                    return None;
                },
            },
            None => {
                proof {
                    lemma_digits_value_prefix(digits@, k + 1);
                    lemma_digits_value_nonneg(digits@.take(k as int));
                }
                return None;
            },
        }
        k = k + 1;
    }
    assert(digits@.take(digits@.len() as int) =~= digits@);
    Some(v)
}

pub open spec fn is_ascii_punct(c: char) -> bool {
    ('!' <= c <= '/') || (':' <= c <= '@') || ('[' <= c <= '`') || ('{' <= c <= '~')
}

/// A word without its leading ASCII punctuation.
pub open spec fn trim_punct_front(w: Seq<char>) -> Seq<char>
    decreases w.len(),
{
    if w.len() > 0 && is_ascii_punct(w[0]) { trim_punct_front(w.drop_first()) } else { w }
}

/// A word without its trailing ASCII punctuation.
pub open spec fn trim_punct_back(w: Seq<char>) -> Seq<char>
    decreases w.len(),
{
    if w.len() > 0 && is_ascii_punct(w.last()) { trim_punct_back(w.drop_last()) } else { w }
}

/// `str::trim_matches` with ASCII punctuation: both ends stripped.
pub open spec fn trim_punct(w: Seq<char>) -> Seq<char> {
    trim_punct_back(trim_punct_front(w))
}

fn is_punct(c: char) -> (r: bool)
    ensures
        r == is_ascii_punct(c),
{
    ('!' <= c && c <= '/') || (':' <= c && c <= '@') || ('[' <= c && c <= '`') || ('{' <= c && c <= '~')
}

fn trim_punct_of(w: &str) -> (r: String)
    ensures
        r@ == trim_punct(w@),
{
    let chars = str_chars(w);
    let mut a: usize = 0;
    assert(chars@.skip(0) =~= chars@);
    while a < chars.len() && is_punct(chars[a])
        invariant
            a <= chars@.len(),
            trim_punct_front(chars@) == trim_punct_front(chars@.skip(a as int)),
        decreases chars@.len() - a,
    {
        assert(chars@.skip(a as int).drop_first() =~= chars@.skip(a + 1));
        a = a + 1;
    }
    let ghost front = chars@.skip(a as int);
    assert(trim_punct_front(chars@) == front);
    let mut b: usize = chars.len();
    while b > a && is_punct(chars[b - 1])
        invariant
            a <= b <= chars@.len(),
            front == chars@.skip(a as int),
            trim_punct_back(front) == trim_punct_back(chars@.subrange(a as int, b as int)),
        decreases b,
    {
        assert(chars@.subrange(a as int, b as int).drop_last() =~= chars@.subrange(a as int, b - 1));
        b = b - 1;
    }
    assert(chars@.skip(a as int) =~= chars@.subrange(a as int, chars@.len() as int));
    let mut out = String::new();
    let mut i: usize = a;
    while i < b
        invariant
            a <= i <= b,
            b <= chars@.len(),
            out@ == chars@.subrange(a as int, i as int),
        decreases b - i,
    {
        push_char(&mut out, chars[i]);
        assert(out@ =~= chars@.subrange(a as int, i + 1));
        i = i + 1;
    }
    assert(w@ == chars@);
    out
}

/// The address the message names: the first word that, stripped of ASCII
/// punctuation, starts with `user:`, `addr:` or `0x`.
pub open spec fn address_from(words: Seq<Seq<char>>, i: int) -> Seq<char>
    decreases words.len() - i,
{
    if i >= words.len() || i < 0 {
        "user:unknown"@
    } else {
        let clean = trim_punct(words[i]);
        if starts_with_seq(clean, "user:"@) || starts_with_seq(clean, "addr:"@) || starts_with_seq(clean, "0x"@) {
            clean
        } else {
            address_from(words, i + 1)
        }
    }
}

/// Finds an address of the form `user:...`, `addr:...` or `0x...` in a
/// message; `user:unknown` when there is none.
pub fn extract_address(msg: &str) -> (r: String)
    ensures
        r@ == address_from(str_split_whitespace(msg@), 0),
{
    let words = words_of(msg);
    let ghost ws = words@.map_values(|w: String| w@);
    let mut i: usize = 0;
    while i < words.len()
        invariant
            i <= words@.len(),
            ws == words@.map_values(|w: String| w@),
            ws == str_split_whitespace(msg@),
            address_from(ws, 0) == address_from(ws, i as int),
        decreases words@.len() - i,
    {
        let clean = trim_punct_of(words[i].as_str());
        assert(ws[i as int] == words@[i as int]@);
        if starts_with(clean.as_str(), "user:") || starts_with(clean.as_str(), "addr:") || starts_with(clean.as_str(), "0x") {
            return clean;
        }
        i = i + 1;
    }
    owned("user:unknown")
}

/// A kept line of a model reply: neither opening nor closing an action block.
pub open spec fn keep_line(l: Seq<char>) -> bool {
    !starts_with_seq(str_trim(l), "[ACTION]"@) && !ends_with_seq(str_trim(l), "[/ACTION]"@)
}

/// The first `n` lines, without the action lines, joined by newlines.
pub open spec fn kept_text(lines: Seq<Seq<char>>, n: int) -> Seq<char>
    decreases n,
{
    if n <= 0 {
        Seq::empty()
    } else {
        let prev = kept_text(lines, n - 1);
        if keep_line(lines[n - 1]) {
            if kept_count(lines, n - 1) == 0 { lines[n - 1] } else { prev + "\n"@ + lines[n - 1] }
        } else {
            prev
        }
    }
}

/// How many of the first `n` lines are kept.
pub open spec fn kept_count(lines: Seq<Seq<char>>, n: int) -> int
    decreases n,
{
    if n <= 0 { 0 } else { kept_count(lines, n - 1) + if keep_line(lines[n - 1]) { 1int } else { 0 } }
}

/// The text inside an action line: the trimmed line without its opening and
/// closing markers, trimmed; nothing when the line is not an action line
/// (one is at least 17 characters long, since the two markers cannot
/// overlap).
pub open spec fn action_inner(line: Seq<char>) -> Option<Seq<char>> {
    let t = str_trim(line);
    if starts_with_seq(t, "[ACTION]"@) && ends_with_seq(t, "[/ACTION]"@) && t.len() >= 17 {
        Some(str_trim(t.subrange(8, t.len() - 9)))
    } else {
        None
    }
}

/// The action texts of the first `n` lines, in order.
pub open spec fn action_texts_upto(lines: Seq<Seq<char>>, n: int) -> Seq<Seq<char>>
    decreases n,
{
    if n <= 0 {
        Seq::empty()
    } else {
        match action_inner(lines[n - 1]) {
            Some(a) => action_texts_upto(lines, n - 1).push(a),
            None => action_texts_upto(lines, n - 1),
        }
    }
}

/// The texts of the action blocks of a model reply, in order.
pub open spec fn spec_action_texts(response: Seq<char>) -> Seq<Seq<char>> {
    let lines = str_lines(response);
    action_texts_upto(lines, lines.len() as int)
}

/// What the user sees of a model reply: the non-action lines joined by
/// newlines, trimmed.
pub open spec fn spec_strip_action_blocks(response: Seq<char>) -> Seq<char> {
    let lines = str_lines(response);
    str_trim(kept_text(lines, lines.len() as int))
}

/// The four known commands answered without the model.
pub open spec fn spec_fast_path(msg: Seq<char>) -> Option<Seq<char>> {
    fast_path_with(msg, str_to_lowercase(msg))
}

/// The fast-path answer to a message whose lowercase form is `lower`.
pub open spec fn fast_path_with(msg: Seq<char>, lower: Seq<char>) -> Option<Seq<char>> {
    if contains_seq(lower, "\u{636}\u{631}\u{64a}\u{628}\u{629}"@) || (contains_seq(lower, "tax"@) && contains_seq(lower, "rate"@)) {
        let rate: u64 = match spec_extract_number(lower) { Some(n) => n, None => 10 };
        Some("\u{7406}\u{89e3}\u{4e86}. \u{633}\u{623}\u{641}\u{631}\u{636} \u{636}\u{631}\u{64a}\u{628}\u{629} "@ + decimal(rate as nat)
            + " bps. \u{646}\u{641}\u{630}:\nPOST /api/v1/ghost/tax/rate\n[ACTION] {\"method\":\"POST\",\"path\":\"/api/v1/ghost/tax/rate\",\"body\":{\"rate_bps\":"@
            + decimal(rate as nat) + "}} [/ACTION]"@)
    } else if contains_seq(lower, "\u{62c}\u{645}\u{62f}"@) || contains_seq(lower, "\u{62c}\u{645}\u{651}\u{62f}"@) || contains_seq(lower, "freeze"@) {
        let addr = address_from(str_split_whitespace(msg), 0);
        Some("\u{633}\u{623}\u{62c}\u{645}\u{62f} \u{627}\u{644}\u{639}\u{646}\u{648}\u{627}\u{646} "@ + addr
            + ".\n[ACTION] {\"method\":\"POST\",\"path\":\"/api/v1/ghost/sleeper/"@ + addr + "/freeze\"} [/ACTION]"@)
    } else if contains_seq(lower, "\u{635}\u{627}\u{62f}\u{631}"@) || contains_seq(lower, "seize"@) {
        let addr = address_from(str_split_whitespace(msg), 0);
        Some("\u{633}\u{623}\u{635}\u{627}\u{62f}\u{631} \u{627}\u{644}\u{639}\u{646}\u{648}\u{627}\u{646} "@ + addr
            + ".\n[ACTION] {\"method\":\"POST\",\"path\":\"/api/v1/ghost/sleeper/"@ + addr + "/seize\"} [/ACTION]"@)
    } else if contains_seq(lower, "\u{627}\u{644}\u{62d}\u{627}\u{644}\u{629}"@) || contains_seq(lower, "\u{627}\u{644}\u{648}\u{636}\u{639}"@)
        || contains_seq(lower, "health"@) || contains_seq(lower, "status"@) {
        Some("\u{633}\u{623}\u{62a}\u{62d}\u{642}\u{642} \u{645}\u{646} \u{62d}\u{627}\u{644}\u{629} \u{627}\u{644}\u{646}\u{638}\u{627}\u{645}..."@)
    } else {
        None
    }
}

/// What changes the assistant's state: a health probe's outcome, or one
/// query counted.
#[derive(Debug, Clone, Copy)]
pub enum SidecarEvent {
    Probe(bool),
    Query,
}

/// The availability and query count after one event.
pub open spec fn sidecar_step(s: (bool, u64), e: SidecarEvent) -> (bool, u64) {
    match e {
        SidecarEvent::Probe(up) => (up, s.1),
        SidecarEvent::Query => (s.0, vstd::wrapping::u64_specs::wrapping_add(s.1, 1)),
    }
}

/// The availability and query count after a run of events.
pub open spec fn sidecar_after(s: (bool, u64), events: Seq<SidecarEvent>) -> (bool, u64)
    decreases events.len(),
{
    if events.len() == 0 {
        s
    } else {
        sidecar_step(sidecar_after(s, events.drop_last()), events.last())
    }
}

/// The outcome of the last probe of a run, or `default` when there was none.
pub open spec fn last_probe(events: Seq<SidecarEvent>, default: bool) -> bool
    decreases events.len(),
{
    if events.len() == 0 {
        default
    } else {
        match events.last() {
            SidecarEvent::Probe(up) => up,
            SidecarEvent::Query => last_probe(events.drop_last(), default),
        }
    }
}

/// How many events of a run are queries.
pub open spec fn query_count(events: Seq<SidecarEvent>) -> nat
    decreases events.len(),
{
    if events.len() == 0 {
        0
    } else {
        query_count(events.drop_last()) + if events.last() is Query { 1nat } else { 0nat }
    }
}

/// Over any run of probes and queries, the assistant is available exactly
/// when the last probe said so (or as it was, when there was no probe), and
/// the query count has grown by the number of queries (modulo 2^64).
pub proof fn lemma_sidecar_run(s: (bool, u64), events: Seq<SidecarEvent>)
    ensures
        sidecar_after(s, events).0 == last_probe(events, s.0),
        sidecar_after(s, events).1 as int == (s.1 + query_count(events)) % 0x1_0000_0000_0000_0000,
    decreases events.len(),
{
    if events.len() > 0 {
        lemma_sidecar_run(s, events.drop_last());
        let q = (s.1 + query_count(events.drop_last())) as int;
        assert(((q % 0x1_0000_0000_0000_0000) + 1) % 0x1_0000_0000_0000_0000 == (q + 1) % 0x1_0000_0000_0000_0000)
            by (nonlinear_arith);
    }
}

/// The assistant: where the model runs, which model, whether it was last
/// seen reachable, how many queries it answered, and its system prompt.
pub struct LlmSidecar {
    ollama_url: String,
    model: String,
    ollama_available: bool,
    total_queries: u64,
    system_prompt: String,
}

impl LlmSidecar {
    pub closed spec fn spec_url(&self) -> Seq<char> { self.ollama_url@ }
    pub closed spec fn spec_model(&self) -> Seq<char> { self.model@ }
    pub closed spec fn spec_available(&self) -> bool { self.ollama_available }
    pub closed spec fn spec_total_queries(&self) -> u64 { self.total_queries }
    pub closed spec fn spec_system_prompt(&self) -> Seq<char> { self.system_prompt@ }

    /// Whether the endpoint was last seen reachable, and the queries counted.
    pub open spec fn sidecar_state(&self) -> (bool, u64) {
        (self.spec_available(), self.spec_total_queries())
    }

    /// An assistant for the given endpoint and model (defaults: the local
    /// Ollama on port 11434 and `llama3.2`), not yet seen reachable.
    pub fn new(ollama_url: Option<String>, model: Option<String>) -> (r: LlmSidecar)
        ensures
            r.spec_url() == (match ollama_url { Some(u) => u@, None => "http://localhost:11434"@ }),
            r.spec_model() == (match model { Some(m) => m@, None => "llama3.2"@ }),
            !r.spec_available(),
            r.spec_total_queries() == 0,
            r.spec_system_prompt() == SYSTEM_PROMPT@,
    {
        LlmSidecar {
            ollama_url: match ollama_url { Some(u) => u, None => owned("http://localhost:11434") },
            model: match model { Some(m) => m, None => owned("llama3.2") },
            ollama_available: false,
            total_queries: 0,
            system_prompt: Self::build_system_prompt(),
        }
    }

    pub fn ollama_url(&self) -> (r: &str)
        ensures
            r@ == self.spec_url(),
    {
        self.ollama_url.as_str()
    }

    pub fn model(&self) -> (r: &str)
        ensures
            r@ == self.spec_model(),
    {
        self.model.as_str()
    }

    pub fn system_prompt(&self) -> (r: &str)
        ensures
            r@ == self.spec_system_prompt(),
    {
        self.system_prompt.as_str()
    }

    pub fn is_available(&self) -> (r: bool)
        ensures
            r == self.spec_available(),
    {
        self.ollama_available
    }

    /// Records whether the model endpoint answered the last health probe.
    pub fn set_available(&mut self, up: bool)
        ensures
            final(self).spec_available() == up,
            final(self).spec_total_queries() == old(self).spec_total_queries(),
            final(self).sidecar_state() == sidecar_step(old(self).sidecar_state(), SidecarEvent::Probe(up)),
            final(self).spec_url() == old(self).spec_url(),
            final(self).spec_model() == old(self).spec_model(),
            final(self).spec_system_prompt() == old(self).spec_system_prompt(),
    {
        self.ollama_available = up;
    }

    pub fn total_queries(&self) -> (r: u64)
        ensures
            r == self.spec_total_queries(),
    {
        self.total_queries
    }

    /// Counts one query (wrapping, as an atomic counter does).
    pub fn record_query(&mut self)
        ensures
            final(self).spec_total_queries() == vstd::wrapping::u64_specs::wrapping_add(old(self).spec_total_queries(), 1),
            final(self).spec_available() == old(self).spec_available(),
            final(self).sidecar_state() == sidecar_step(old(self).sidecar_state(), SidecarEvent::Query),
            final(self).spec_url() == old(self).spec_url(),
            final(self).spec_model() == old(self).spec_model(),
            final(self).spec_system_prompt() == old(self).spec_system_prompt(),
    {
        self.total_queries = self.total_queries.wrapping_add(1);
    }

    /// Answers a known command (tax rate, freeze, seize, status) without the
    /// model; nothing for any other message.
    pub fn try_fast_path(&self, msg: &str) -> (r: Option<String>)
        ensures
            match (r, spec_fast_path(msg@)) {
                (Some(a), Some(b)) => a@ == b,
                (None, None) => true,
                _ => false,
            },
            all_ascii(msg@) ==> match (r, fast_path_with(msg@, msg@.map_values(|c: char| ascii_lower(c)))) {
                (Some(a), Some(b)) => a@ == b,
                (None, None) => true,
                _ => false,
            },
    {
        let lower = to_lowercase(msg);
        let l = lower.as_str();
        if contains(l, "\u{636}\u{631}\u{64a}\u{628}\u{629}") || (contains(l, "tax") && contains(l, "rate")) {
            let rate: u64 = match extract_number(l) { Some(n) => n, None => 10 };
            let mut s = owned("\u{7406}\u{89e3}\u{4e86}. \u{633}\u{623}\u{641}\u{631}\u{636} \u{636}\u{631}\u{64a}\u{628}\u{629} ");
            push_decimal(&mut s, rate);
            push_str(&mut s, " bps. \u{646}\u{641}\u{630}:\nPOST /api/v1/ghost/tax/rate\n[ACTION] {\"method\":\"POST\",\"path\":\"/api/v1/ghost/tax/rate\",\"body\":{\"rate_bps\":");
            push_decimal(&mut s, rate);
            push_str(&mut s, "}} [/ACTION]");
            return Some(s);
        }
        if contains(l, "\u{62c}\u{645}\u{62f}") || contains(l, "\u{62c}\u{645}\u{651}\u{62f}") || contains(l, "freeze") {
            let addr = extract_address(msg);
            let mut s = owned("\u{633}\u{623}\u{62c}\u{645}\u{62f} \u{627}\u{644}\u{639}\u{646}\u{648}\u{627}\u{646} ");
            push_str(&mut s, addr.as_str());
            push_str(&mut s, ".\n[ACTION] {\"method\":\"POST\",\"path\":\"/api/v1/ghost/sleeper/");
            push_str(&mut s, addr.as_str());
            push_str(&mut s, "/freeze\"} [/ACTION]");
            return Some(s);
        }
        if contains(l, "\u{635}\u{627}\u{62f}\u{631}") || contains(l, "seize") {
            let addr = extract_address(msg);
            let mut s = owned("\u{633}\u{623}\u{635}\u{627}\u{62f}\u{631} \u{627}\u{644}\u{639}\u{646}\u{648}\u{627}\u{646} ");
            push_str(&mut s, addr.as_str());
            push_str(&mut s, ".\n[ACTION] {\"method\":\"POST\",\"path\":\"/api/v1/ghost/sleeper/");
            push_str(&mut s, addr.as_str());
            push_str(&mut s, "/seize\"} [/ACTION]");
            return Some(s);
        }
        if contains(l, "\u{627}\u{644}\u{62d}\u{627}\u{644}\u{629}") || contains(l, "\u{627}\u{644}\u{648}\u{636}\u{639}")
            || contains(l, "health") || contains(l, "status") {
            return Some(owned("\u{633}\u{623}\u{62a}\u{62d}\u{642}\u{642} \u{645}\u{646} \u{62d}\u{627}\u{644}\u{629} \u{627}\u{644}\u{646}\u{638}\u{627}\u{645}..."));
        }
        None
    }

    /// Removes the action lines from a model reply.
    pub fn strip_action_blocks(&self, response: &str) -> (r: String)
        ensures
            r@ == spec_strip_action_blocks(response@),
    {
        let lines = lines_of(response);
        let ghost ls = lines@.map_values(|l: String| l@);
        let mut joined = String::new();
        let mut count: usize = 0;
        let mut i: usize = 0;
        while i < lines.len()
            invariant
                i <= lines@.len(),
                ls == lines@.map_values(|l: String| l@),
                ls == str_lines(response@),
                joined@ == kept_text(ls, i as int),
                count == kept_count(ls, i as int),
                count <= i,
                count == 0 ==> joined@ == Seq::<char>::empty(),
            decreases lines@.len() - i,
        {
            let line = lines[i].as_str();
            assert(ls[i as int] == line@);
            let t = trim(line);
            if !starts_with(t.as_str(), "[ACTION]") && !ends_with(t.as_str(), "[/ACTION]") {
                if count != 0 {
                    push_str(&mut joined, "\n");
                }
                push_str(&mut joined, line);
                count = count + 1;
            }
            i = i + 1;
        }
        trim(joined.as_str())
    }

    /// The system prompt.
    pub fn build_system_prompt() -> (r: String)
        ensures
            r@ == SYSTEM_PROMPT@,
    {
        owned(SYSTEM_PROMPT)
    }
}


/// The texts of the action blocks of a model reply: each line that, trimmed,
/// opens with `[ACTION]` and closes with `[/ACTION]` gives what lies between,
/// trimmed.
pub fn action_texts(response: &str) -> (r: Vec<String>)
    ensures
        r@.map_values(|a: String| a@) == spec_action_texts(response@),
{
    let lines = lines_of(response);
    let ghost ls = lines@.map_values(|l: String| l@);
    let mut out: Vec<String> = Vec::new();
    let mut i: usize = 0;
    while i < lines.len()
        invariant
            i <= lines@.len(),
            ls == lines@.map_values(|l: String| l@),
            ls == str_lines(response@),
            out@.map_values(|a: String| a@) == action_texts_upto(ls, i as int),
        decreases lines@.len() - i,
    {
        let line = lines[i].as_str();
        assert(ls[i as int] == line@);
        let t = trim(line);
        let ghost tv = t@;
        if starts_with(t.as_str(), "[ACTION]") && ends_with(t.as_str(), "[/ACTION]") {
            let cs = str_chars(t.as_str());
            let n = cs.len();
            if n >= 17 {
                let mut inner = String::new();
                let mut k: usize = 8;
                while k < n - 9
                    invariant
                        8 <= k <= n - 9,
                        n == tv.len(),
                        cs@ == tv,
                        inner@ == tv.subrange(8, k as int),
                    decreases n - 9 - k,
                {
                    push_char(&mut inner, cs[k]);
                    proof {
                        assert(inner@ =~= tv.subrange(8, k + 1));
                    }
                    k = k + 1;
                }
                let a = trim(inner.as_str());
                let ghost before = out@;
                out.push(a);
                proof {
                    assert(out@.map_values(|a: String| a@) =~= before.map_values(|a: String| a@).push(a@));
                }
            }
        }
        i = i + 1;
    }
    out
}

} // verus!
