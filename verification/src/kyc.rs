//! Compliance rules: LEI validation, FATF jurisdiction classes, Soundex codes
//! for fuzzy name matching, the sanctions reference lists, AML risk grading
//! and the disclosure ladder.

use vstd::prelude::*;
use vstd::string::*;
use vstd::utf8::*;
use crate::text::{owned, push_char, str_chars, str_eq, str_to_uppercase, texts, to_uppercase};
use crate::types::DisclosureLevel;

verus! {

/// Validator of Legal Entity Identifiers (ISO 17442).
#[derive(Debug)]
pub struct LeiValidator;

pub open spec fn is_digit(c: char) -> bool {
    '0' <= c <= '9'
}

pub open spec fn is_upper(c: char) -> bool {
    'A' <= c <= 'Z'
}

pub open spec fn is_lower(c: char) -> bool {
    'a' <= c <= 'z'
}

pub open spec fn is_alpha(c: char) -> bool {
    is_upper(c) || is_lower(c)
}

pub open spec fn is_alnum(c: char) -> bool {
    is_digit(c) || is_alpha(c)
}

fn char_is_digit(c: char) -> (r: bool)
    ensures
        r == is_digit(c),
{
    '0' <= c && c <= '9'
}

fn char_is_upper(c: char) -> (r: bool)
    ensures
        r == is_upper(c),
{
    'A' <= c && c <= 'Z'
}

fn char_is_alpha(c: char) -> (r: bool)
    ensures
        r == is_alpha(c),
{
    ('A' <= c && c <= 'Z') || ('a' <= c && c <= 'z')
}

/// The value of a run of decimal digits.
pub open spec fn digits_value(s: Seq<char>) -> int
    decreases s.len(),
{
    if s.len() == 0 {
        0
    } else {
        digits_value(s.drop_last()) * 10 + (s.last() as int - 48)
    }
}

/// The value of an LEI character in the checksum: digits count as 0-9,
/// letters as their code less 55 (A-Z are 10-35).
pub open spec fn lei_char_value(c: char) -> int {
    if is_digit(c) { c as int - 48 } else { c as int - 55 }
}

/// The checksum contribution of a character, doubled (and digit-summed) when
/// `double`.
pub open spec fn luhn_term(c: char, double: bool) -> int {
    let v = lei_char_value(c);
    if double { (2 * v) / 10 + (2 * v) % 10 } else { v }
}

/// The checksum sum over characters `i..`, doubling every other character
/// counted from the last one (which is doubled).
pub open spec fn luhn_from(s: Seq<char>, i: int) -> int
    decreases s.len() - i,
{
    if i >= s.len() || i < 0 {
        0
    } else {
        luhn_term(s[i], (s.len() - 1 - i) % 2 == 0) + luhn_from(s, i + 1)
    }
}

/// The full LEI rule applied by `LeiValidator::validate`.
pub open spec fn spec_valid_lei(s: Seq<char>) -> bool {
    &&& s.len() == 20
    &&& forall|i: int| 0 <= i < s.len() ==> is_alnum(#[trigger] s[i])
    &&& forall|i: int| 0 <= i < 4 ==> is_upper(#[trigger] s[i])
    &&& is_digit(s[18])
    &&& is_digit(s[19])
    &&& luhn_from(s, 0) % 10 == 0
}

impl LeiValidator {
    /// Validates an LEI (ISO 17442): exactly 20 ASCII letters and digits, a
    /// registrar (LOU) prefix of four uppercase letters, an alphanumeric
    /// entity part, two check digits, and a Luhn checksum (letters valued
    /// 10-35) that is a multiple of ten.
    pub fn validate(&self, lei: &str) -> (r: bool)
        ensures
            r == spec_valid_lei(lei@),
    {
        let chars = str_chars(lei);
        let mut all_alnum = true;
        let mut i: usize = 0;
        while i < chars.len()
            invariant
                i <= chars@.len(),
                chars@ == lei@,
                all_alnum == (forall|j: int| 0 <= j < i ==> is_alnum(#[trigger] chars@[j])),
            decreases chars@.len() - i,
        {
            let c = chars[i];
            if !(char_is_digit(c) || char_is_alpha(c)) {
                all_alnum = false;
            }
            i = i + 1;
        }
        if all_alnum {
            assert(is_ascii_chars(lei@));
            proof {
                is_ascii_chars_encode_utf8(lei@);
            }
        }
        if lei.len() != 20 {
            return false;
        }
        if !all_alnum {
            return false;
        }
        let mut k: usize = 0;
        while k < 4
            invariant
                k <= 4,
                chars@.len() == 20,
                chars@ == lei@,
                forall|j: int| 0 <= j < k ==> is_upper(#[trigger] chars@[j]),
            decreases 4 - k,
        {
            if !char_is_upper(chars[k]) {
                return false;
            }
            k = k + 1;
        }
        if !char_is_digit(chars[18]) || !char_is_digit(chars[19]) {
            return false;
        }
        self.luhn_checksum(&chars)
    }

    /// Whether the Luhn sum over the characters is a multiple of ten.
    fn luhn_checksum(&self, chars: &Vec<char>) -> (r: bool)
        requires
            chars@.len() <= 1000,
            forall|i: int| 0 <= i < chars@.len() ==> is_alnum(#[trigger] chars@[i]),
        ensures
            r == (luhn_from(chars@, 0) % 10 == 0),
    {
        let n = chars.len();
        let mut sum: u64 = 0;
        let mut i: usize = n;
        let mut double = true;
        while i > 0
            invariant
                i <= n,
                n == chars@.len(),
                n <= 1000,
                forall|j: int| 0 <= j < chars@.len() ==> is_alnum(#[trigger] chars@[j]),
                sum == luhn_from(chars@, i as int),
                sum <= 200 * (n - i),
                double == ((n - i) % 2 == 0),
            decreases i,
        {
            i = i - 1;
            let c = chars[i];
            let val: u64 = if char_is_digit(c) { c as u64 - 48 } else { c as u64 - 55 };
            if double {
                let doubled = val * 2;
                sum = sum + doubled / 10 + doubled % 10;
            } else {
                sum = sum + val;
            }
            double = !double;
        }
        sum % 10 == 0
    }
}

/// A listed person, organisation, vessel, aircraft or country.
#[derive(Debug, Clone)]
pub struct SanctionedEntity {
    pub name: String,
    pub aliases: Vec<String>,
    pub sanction_type: SanctionType,
    pub jurisdiction: Option<String>,
    pub program: String,
    pub listed_at: i64,
}

#[derive(Debug, Clone, Copy, PartialEq, Eq, Structural)]
pub enum SanctionType {
    Individual,
    Entity,
    Vessel,
    Aircraft,
    Country,
}

#[derive(Debug, Clone, Copy, PartialEq, Eq, Structural)]
pub enum MatchType {
    Exact,
    Fuzzy,
    Jurisdiction,
    Alias,
}

/// FATF jurisdiction classes.
#[derive(Debug, Clone, Copy, PartialEq, Eq, Structural)]
pub enum JurisdictionRisk {
    Blacklist,
    Greylist,
    High,
    Medium,
    Low,
}

/// The outcome of the AML screen of one transaction.
#[derive(Debug, Clone)]
pub struct AmlCheck {
    pub passed: bool,
    pub risk_score: u8,
    pub risk_level: String,
    pub flags: Vec<String>,
    pub sar_required: bool,
    pub checked_at: i64,
}

/// The AML verdict for an accumulated risk score: the score capped at 100,
/// its level, whether the transaction passes (below 60) and whether a
/// suspicious activity report is due (80 or more).
pub open spec fn spec_grade_aml_risk(risk_score: u8) -> (u8, Seq<char>, bool, bool) {
    let s: u8 = if risk_score > 100 { 100 } else { risk_score };
    let level = if s >= 80 { "CRITICAL"@ } else if s >= 60 { "HIGH"@ } else if s >= 35 { "MEDIUM"@ } else { "LOW"@ };
    (s, level, s < 60, s >= 80)
}

pub fn grade_aml_risk(risk_score: u8) -> (r: (u8, &'static str, bool, bool))
    ensures
        r.0 == spec_grade_aml_risk(risk_score).0,
        r.1@ == spec_grade_aml_risk(risk_score).1,
        r.2 == spec_grade_aml_risk(risk_score).2,
        r.3 == spec_grade_aml_risk(risk_score).3,
{
    let s: u8 = if risk_score > 100 { 100 } else { risk_score };
    let level = if s >= 80 { "CRITICAL" } else if s >= 60 { "HIGH" } else if s >= 35 { "MEDIUM" } else { "LOW" };
    (s, level, s < 60, s >= 80)
}

/// The next rung of the disclosure ladder a participant qualifies for, if
/// any: public to verified with a verified LEI, verified to institutional
/// with an NDA, institutional to sovereign for a sovereign fund.
pub open spec fn spec_upgrade_disclosure(current: DisclosureLevel, verified_lei: bool, has_nda: bool, is_sovereign_fund: bool) -> Option<DisclosureLevel> {
    match current {
        DisclosureLevel::Public => if verified_lei { Some(DisclosureLevel::Verified) } else { None },
        DisclosureLevel::Verified => if has_nda { Some(DisclosureLevel::Institutional) } else { None },
        DisclosureLevel::Institutional => if is_sovereign_fund { Some(DisclosureLevel::Sovereign) } else { None },
        DisclosureLevel::Sovereign => None,
    }
}

pub fn upgrade_disclosure(current: &DisclosureLevel, verified_lei: bool, has_nda: bool, is_sovereign_fund: bool) -> (r: Option<DisclosureLevel>)
    ensures
        r == spec_upgrade_disclosure(*current, verified_lei, has_nda, is_sovereign_fund),
{
    match current {
        DisclosureLevel::Public if verified_lei => Some(DisclosureLevel::Verified),
        DisclosureLevel::Verified if has_nda => Some(DisclosureLevel::Institutional),
        DisclosureLevel::Institutional if is_sovereign_fund => Some(DisclosureLevel::Sovereign),
        _ => None,
    }
}

/// The rank of a disclosure level, from public (0) to sovereign (3).
pub open spec fn disclosure_rank(d: DisclosureLevel) -> int {
    match d {
        DisclosureLevel::Public => 0,
        DisclosureLevel::Verified => 1,
        DisclosureLevel::Institutional => 2,
        DisclosureLevel::Sovereign => 3,
    }
}

/// An upgrade always climbs exactly one rung, and sovereign is the top.
pub proof fn lemma_upgrade_climbs_one_rung(current: DisclosureLevel, verified_lei: bool, has_nda: bool, is_sovereign_fund: bool)
    ensures
        spec_upgrade_disclosure(current, verified_lei, has_nda, is_sovereign_fund) matches Some(next)
            ==> disclosure_rank(next) == disclosure_rank(current) + 1,
        current == DisclosureLevel::Sovereign ==> spec_upgrade_disclosure(current, verified_lei, has_nda, is_sovereign_fund) is None,
{
}

/// Each rung is climbed on its own condition alone: public to verified
/// exactly when the LEI is verified, verified to institutional exactly when
/// there is an NDA, institutional to sovereign exactly for a sovereign fund;
/// the other two conditions never matter, and nothing lies above sovereign.
pub proof fn lemma_upgrade_conditions(verified_lei: bool, has_nda: bool, is_sovereign_fund: bool)
    ensures
        (spec_upgrade_disclosure(DisclosureLevel::Public, verified_lei, has_nda, is_sovereign_fund) == Some(DisclosureLevel::Verified)) <==> verified_lei,
        spec_upgrade_disclosure(DisclosureLevel::Public, verified_lei, has_nda, is_sovereign_fund) is None <==> !verified_lei,
        (spec_upgrade_disclosure(DisclosureLevel::Verified, verified_lei, has_nda, is_sovereign_fund) == Some(DisclosureLevel::Institutional)) <==> has_nda,
        spec_upgrade_disclosure(DisclosureLevel::Verified, verified_lei, has_nda, is_sovereign_fund) is None <==> !has_nda,
        (spec_upgrade_disclosure(DisclosureLevel::Institutional, verified_lei, has_nda, is_sovereign_fund) == Some(DisclosureLevel::Sovereign)) <==> is_sovereign_fund,
        spec_upgrade_disclosure(DisclosureLevel::Institutional, verified_lei, has_nda, is_sovereign_fund) is None <==> !is_sovereign_fund,
        spec_upgrade_disclosure(DisclosureLevel::Sovereign, verified_lei, has_nda, is_sovereign_fund) is None,
        forall|l2: bool, n2: bool, s2: bool|
            #[trigger] spec_upgrade_disclosure(DisclosureLevel::Verified, l2, n2, s2) == spec_upgrade_disclosure(DisclosureLevel::Verified, verified_lei, n2, is_sovereign_fund),
{
}

/// The disclosure level a newly onboarded entity starts at: verified for a
/// jurisdiction scoring under 20, public otherwise.
pub fn initial_disclosure(jurisdiction_risk_score: u8) -> (r: DisclosureLevel)
    ensures
        r == (if jurisdiction_risk_score < 20 { DisclosureLevel::Verified } else { DisclosureLevel::Public }),
{
    if jurisdiction_risk_score < 20 { DisclosureLevel::Verified } else { DisclosureLevel::Public }
}

/// Responses are not filtered by disclosure level: the data comes back as is.
pub fn filter_response_by_disclosure<T>(data: T, _disclosure: &DisclosureLevel) -> (r: Result<T, String>)
    ensures
        r == Ok::<T, String>(data),
{
    Ok(data)
}

/// The ASCII letters of `s`, in order.
pub open spec fn ascii_letters(s: Seq<char>) -> Seq<char>
    decreases s.len(),
{
    if s.len() == 0 {
        Seq::empty()
    } else {
        let init = ascii_letters(s.drop_last());
        if is_alpha(s.last()) { init.push(s.last()) } else { init }
    }
}

/// The Soundex digit of an uppercase consonant; vowels, H, W, Y and
/// everything else have none.
pub open spec fn soundex_digit(c: char) -> Option<char> {
    if c == 'B' || c == 'F' || c == 'P' || c == 'V' { Some('1') }
    else if c == 'C' || c == 'G' || c == 'J' || c == 'K' || c == 'Q' || c == 'S' || c == 'X' || c == 'Z' { Some('2') }
    else if c == 'D' || c == 'T' { Some('3') }
    else if c == 'L' { Some('4') }
    else if c == 'M' || c == 'N' { Some('5') }
    else if c == 'R' { Some('6') }
    else { None }
}

/// The Soundex digits are the standard table: B F P V are 1; C G J K Q S
/// X Z are 2; D T are 3; L is 4; M N are 5; R is 6; the vowels, H, W and Y
/// have none. So names differing only in letters of one group, such as
/// HEZBOLLAH and HESBOLLAH (both H214), sound alike.
pub proof fn lemma_soundex_table(c: char)
    ensures
        soundex_digit(c) == Some('1') <==> (c == 'B' || c == 'F' || c == 'P' || c == 'V'),
        soundex_digit(c) == Some('2') <==> (c == 'C' || c == 'G' || c == 'J' || c == 'K' || c == 'Q' || c == 'S' || c == 'X' || c == 'Z'),
        soundex_digit(c) == Some('3') <==> (c == 'D' || c == 'T'),
        soundex_digit(c) == Some('4') <==> c == 'L',
        soundex_digit(c) == Some('5') <==> (c == 'M' || c == 'N'),
        soundex_digit(c) == Some('6') <==> c == 'R',
        soundex_digit(c) is None <==> !('A' <= c <= 'Z') || c == 'A' || c == 'E' || c == 'I' || c == 'O' || c == 'U' || c == 'H' || c == 'W' || c == 'Y',
        soundex_digit('Z') == soundex_digit('S'),
        soundex_prefix(seq!['H', 'E', 'Z', 'B', 'O', 'L', 'L', 'A', 'H'], 9) == seq!['H', '2', '1', '4'],
        soundex_prefix(seq!['H', 'E', 'S', 'B', 'O', 'L', 'L', 'A', 'H'], 9) == seq!['H', '2', '1', '4'],
{
    reveal_with_fuel(soundex_prefix, 10);
    assert(soundex_prefix(seq!['H', 'E', 'Z', 'B', 'O', 'L', 'L', 'A', 'H'], 9) =~= seq!['H', '2', '1', '4']);
    assert(soundex_prefix(seq!['H', 'E', 'S', 'B', 'O', 'L', 'L', 'A', 'H'], 9) =~= seq!['H', '2', '1', '4']);
}

fn soundex_digit_of(c: char) -> (r: Option<char>)
    ensures
        r == soundex_digit(c),
{
    if c == 'B' || c == 'F' || c == 'P' || c == 'V' { Some('1') }
    else if c == 'C' || c == 'G' || c == 'J' || c == 'K' || c == 'Q' || c == 'S' || c == 'X' || c == 'Z' { Some('2') }
    else if c == 'D' || c == 'T' { Some('3') }
    else if c == 'L' { Some('4') }
    else if c == 'M' || c == 'N' { Some('5') }
    else if c == 'R' { Some('6') }
    else { None }
}

/// The code after the first `n` letters: the first letter, then each new
/// digit that differs from the last character, up to four characters.
pub open spec fn soundex_prefix(letters: Seq<char>, n: int) -> Seq<char>
    decreases n,
{
    if n <= 1 {
        seq![letters[0]]
    } else {
        let acc = soundex_prefix(letters, n - 1);
        match soundex_digit(letters[n - 1]) {
            Some(d) => if acc.last() != d && acc.len() < 4 { acc.push(d) } else { acc },
            None => acc,
        }
    }
}

/// Whether a character is a Soundex digit.
pub open spec fn is_soundex_digit(c: char) -> bool {
    c == '1' || c == '2' || c == '3' || c == '4' || c == '5' || c == '6'
}

/// A Soundex code keeps the first letter, then at most three digits, never
/// the same digit twice in a row; a letter with no digit adds nothing, and a
/// digit is taken while there is room.
pub proof fn lemma_soundex_prefix_shape(letters: Seq<char>, n: int)
    requires
        1 <= n <= letters.len(),
    ensures
        1 <= soundex_prefix(letters, n).len() <= 4,
        soundex_prefix(letters, n)[0] == letters[0],
        forall|i: int| 1 <= i < soundex_prefix(letters, n).len() ==> is_soundex_digit(#[trigger] soundex_prefix(letters, n)[i]),
        forall|i: int| 1 <= i < soundex_prefix(letters, n).len() - 1 ==>
            #[trigger] soundex_prefix(letters, n)[i] != soundex_prefix(letters, n)[i + 1],
        n >= 2 && soundex_digit(letters[n - 1]) is None ==> soundex_prefix(letters, n) == soundex_prefix(letters, n - 1),
        n >= 2 ==> (soundex_digit(letters[n - 1]) matches Some(d) ==> (soundex_prefix(letters, n - 1).len() < 4
            && soundex_prefix(letters, n - 1).last() != d
            ==> soundex_prefix(letters, n) == soundex_prefix(letters, n - 1).push(d))),
        pad_zeros(soundex_prefix(letters, n)).len() == 4,
    decreases n,
{
    if n > 1 {
        lemma_soundex_prefix_shape(letters, n - 1);
        let acc = soundex_prefix(letters, n - 1);
        match soundex_digit(letters[n - 1]) {
            Some(d) => {
                if acc.last() != d && acc.len() < 4 {
                    let r = acc.push(d);
                    assert forall|i: int| 1 <= i < r.len() implies is_soundex_digit(#[trigger] r[i]) by {
                        if i < acc.len() {
                            assert(r[i] == acc[i]);
                        }
                    }
                    assert forall|i: int| 1 <= i < r.len() - 1 implies #[trigger] r[i] != r[i + 1] by {
                        if i + 1 < acc.len() {
                            assert(r[i] == acc[i] && r[i + 1] == acc[i + 1]);
                        } else {
                            assert(r[i] == acc.last());
                        }
                    }
                }
            },
            None => {},
        }
    }
}

/// A code padded with zeros to four characters.
pub open spec fn pad_zeros(acc: Seq<char>) -> Seq<char> {
    acc + Seq::new((4 - acc.len()) as nat, |_i: int| '0')
}

/// The Soundex code of a name: taken over the ASCII letters of its uppercase
/// form; empty when there are none.
pub open spec fn spec_soundex(s: Seq<char>) -> Seq<char> {
    let letters = ascii_letters(str_to_uppercase(s));
    if letters.len() == 0 {
        Seq::empty()
    } else {
        pad_zeros(soundex_prefix(letters, letters.len() as int))
    }
}

/// The Soundex code of a name, for fuzzy matching against the sanctions list.
pub fn soundex(s: &str) -> (r: String)
    ensures
        r@ == spec_soundex(s@),
{
    let upper = to_uppercase(s);
    let all = str_chars(upper.as_str());
    let mut letters: Vec<char> = Vec::new();
    let mut i: usize = 0;
    while i < all.len()
        invariant
            i <= all@.len(),
            all@ == str_to_uppercase(s@),
            letters@ == ascii_letters(all@.take(i as int)),
        decreases all@.len() - i,
    {
        assert(all@.take(i + 1).drop_last() =~= all@.take(i as int));
        if char_is_alpha(all[i]) {
            letters.push(all[i]);
        }
        i = i + 1;
    }
    assert(all@.take(all@.len() as int) =~= all@);
    if letters.len() == 0 {
        return String::new();
    }
    let mut acc: Vec<char> = Vec::new();
    acc.push(letters[0]);
    let mut k: usize = 1;
    while k < letters.len()
        invariant
            1 <= k <= letters@.len(),
            acc@ == soundex_prefix(letters@, k as int),
            1 <= acc@.len() <= 4,
        decreases letters@.len() - k,
    {
        match soundex_digit_of(letters[k]) {
            Some(d) => {
                if acc[acc.len() - 1] != d && acc.len() < 4 {
                    acc.push(d);
                }
            },
            None => {},
        }
        k = k + 1;
    }
    let mut out = String::new();
    let mut j: usize = 0;
    while j < acc.len()
        invariant
            j <= acc@.len(),
            out@ == acc@.take(j as int),
        decreases acc@.len() - j,
    {
        push_char(&mut out, acc[j]);
        assert(out@ =~= acc@.take(j + 1));
        j = j + 1;
    }
    let ghost full = out@;
    while j < 4
        invariant
            acc@.len() <= j <= 4,
            out@ == acc@ + Seq::new((j - acc@.len()) as nat, |_i: int| '0'),
        decreases 4 - j,
    {
        push_char(&mut out, '0');
        assert(out@ =~= acc@ + Seq::new((j + 1 - acc@.len()) as nat, |_i: int| '0'));
        j = j + 1;
    }
    assert(out@ =~= pad_zeros(acc@));
    out
}

/// The FATF class and risk score of a jurisdiction code; unknown codes are
/// medium risk at 50.
pub open spec fn spec_classify_jurisdiction(code: Seq<char>) -> (JurisdictionRisk, u8) {
    if code == "IR"@ || code == "PRK"@ || code == "KP"@ {
        (JurisdictionRisk::Blacklist, 95)
    } else if code == "MM"@ || code == "KY"@ || code == "PA"@ || code == "BZ"@ || code == "UZ"@ || code == "PH"@ || code == "ZA"@ || code == "SS"@ || code == "NG"@ || code == "YE"@ {
        (JurisdictionRisk::Greylist, 70)
    } else if code == "CU"@ || code == "SY"@ || code == "SD"@ || code == "BY"@ || code == "RU"@ || code == "VE"@ || code == "CF"@ || code == "CD"@ || code == "IQ"@ || code == "LB"@ || code == "LR"@ || code == "SO"@ || code == "ZW"@ {
        (JurisdictionRisk::High, 80)
    } else if code == "AE"@ || code == "SA"@ || code == "QA"@ || code == "OM"@ || code == "BH"@ || code == "KW"@ || code == "JO"@ || code == "EG"@ || code == "MA"@ || code == "TN"@ || code == "DZ"@ || code == "LY"@ {
        (JurisdictionRisk::Medium, 40)
    } else if code == "US"@ || code == "GB"@ || code == "DE"@ || code == "FR"@ || code == "CH"@ || code == "SG"@ || code == "HK"@ || code == "JP"@ || code == "KR"@ || code == "AU"@ || code == "CA"@ || code == "NL"@ || code == "SE"@ || code == "NO"@ || code == "DK"@ || code == "FI"@ || code == "IE"@ || code == "BE"@ || code == "AT"@ || code == "LU"@ || code == "IT"@ || code == "ES"@ || code == "PT"@ {
        (JurisdictionRisk::Low, 10)
    } else {
        (JurisdictionRisk::Medium, 50)
    }
}

/// Classifies a jurisdiction code against the FATF lists.
pub fn classify_jurisdiction(code: &str) -> (r: (JurisdictionRisk, u8))
    ensures
        r == spec_classify_jurisdiction(code@),
{
    if str_eq(code, "IR") || str_eq(code, "PRK") || str_eq(code, "KP") {
        (JurisdictionRisk::Blacklist, 95)
    } else if str_eq(code, "MM") || str_eq(code, "KY") || str_eq(code, "PA") || str_eq(code, "BZ") || str_eq(code, "UZ") || str_eq(code, "PH") || str_eq(code, "ZA") || str_eq(code, "SS") || str_eq(code, "NG") || str_eq(code, "YE") {
        (JurisdictionRisk::Greylist, 70)
    } else if str_eq(code, "CU") || str_eq(code, "SY") || str_eq(code, "SD") || str_eq(code, "BY") || str_eq(code, "RU") || str_eq(code, "VE") || str_eq(code, "CF") || str_eq(code, "CD") || str_eq(code, "IQ") || str_eq(code, "LB") || str_eq(code, "LR") || str_eq(code, "SO") || str_eq(code, "ZW") {
        (JurisdictionRisk::High, 80)
    } else if str_eq(code, "AE") || str_eq(code, "SA") || str_eq(code, "QA") || str_eq(code, "OM") || str_eq(code, "BH") || str_eq(code, "KW") || str_eq(code, "JO") || str_eq(code, "EG") || str_eq(code, "MA") || str_eq(code, "TN") || str_eq(code, "DZ") || str_eq(code, "LY") {
        (JurisdictionRisk::Medium, 40)
    } else if str_eq(code, "US") || str_eq(code, "GB") || str_eq(code, "DE") || str_eq(code, "FR") || str_eq(code, "CH") || str_eq(code, "SG") || str_eq(code, "HK") || str_eq(code, "JP") || str_eq(code, "KR") || str_eq(code, "AU") || str_eq(code, "CA") || str_eq(code, "NL") || str_eq(code, "SE") || str_eq(code, "NO") || str_eq(code, "DK") || str_eq(code, "FI") || str_eq(code, "IE") || str_eq(code, "BE") || str_eq(code, "AT") || str_eq(code, "LU") || str_eq(code, "IT") || str_eq(code, "ES") || str_eq(code, "PT") {
        (JurisdictionRisk::Low, 10)
    } else {
        (JurisdictionRisk::Medium, 50)
    }
}

/// The countries under OFAC comprehensive sanctions that are on neither
/// FATF list.
pub open spec fn ofac_sanctioned_codes() -> Seq<Seq<char>> {
    seq!["CU"@, "SY"@, "SD"@, "BY"@, "RU"@, "VE"@, "CF"@, "CD"@, "IQ"@, "LB"@, "LR"@, "SO"@, "ZW"@]
}

/// Every OFAC-sanctioned country that is on neither FATF list is high risk
/// at 80: Cuba, Syria, Sudan, Belarus, Russia, Venezuela, the Central
/// African Republic, the Democratic Republic of the Congo, Iraq, Lebanon,
/// Liberia, Somalia and Zimbabwe.
pub proof fn lemma_ofac_sanctioned_are_high(i: int)
    requires
        0 <= i < ofac_sanctioned_codes().len(),
    ensures
        spec_classify_jurisdiction(ofac_sanctioned_codes()[i]) == (JurisdictionRisk::High, 80u8),
{
    lemma_classification_table();
}

/// Every country on the sanctions list the screen uses is classified at 70
/// or more, on the FATF blacklist, the greylist or the high-risk list;
/// never medium or low.
pub proof fn lemma_sanctioned_countries_are_risky(i: int)
    requires
        0 <= i < sanctioned_country_codes().len(),
    ensures
        spec_classify_jurisdiction(sanctioned_country_codes()[i]).1 >= 70,
        spec_classify_jurisdiction(sanctioned_country_codes()[i]).0 != JurisdictionRisk::Medium,
        spec_classify_jurisdiction(sanctioned_country_codes()[i]).0 != JurisdictionRisk::Low,
{
    lemma_classification_table();
}

/// The FATF lists as the classifier holds them: Iran and North Korea (IR,
/// PRK, KP) blacklisted at 95; Myanmar, the Cayman Islands, Panama, Belize,
/// Uzbekistan, the Philippines, South Africa, South Sudan, Nigeria and Yemen
/// greylisted at 70; the OFAC-sanctioned CU, SY, SD, BY, RU, VE, CF, CD, IQ,
/// LB, LR, SO and ZW high at 80; twelve Gulf and North African states medium
/// at 40; and twenty-three low-risk jurisdictions at 10.
pub proof fn lemma_classification_table()
    ensures
        spec_classify_jurisdiction("IR"@) == (JurisdictionRisk::Blacklist, 95u8),
        spec_classify_jurisdiction("PRK"@) == (JurisdictionRisk::Blacklist, 95u8),
        spec_classify_jurisdiction("KP"@) == (JurisdictionRisk::Blacklist, 95u8),
        spec_classify_jurisdiction("MM"@) == (JurisdictionRisk::Greylist, 70u8),
        spec_classify_jurisdiction("KY"@) == (JurisdictionRisk::Greylist, 70u8),
        spec_classify_jurisdiction("PA"@) == (JurisdictionRisk::Greylist, 70u8),
        spec_classify_jurisdiction("BZ"@) == (JurisdictionRisk::Greylist, 70u8),
        spec_classify_jurisdiction("UZ"@) == (JurisdictionRisk::Greylist, 70u8),
        spec_classify_jurisdiction("PH"@) == (JurisdictionRisk::Greylist, 70u8),
        spec_classify_jurisdiction("ZA"@) == (JurisdictionRisk::Greylist, 70u8),
        spec_classify_jurisdiction("SS"@) == (JurisdictionRisk::Greylist, 70u8),
        spec_classify_jurisdiction("NG"@) == (JurisdictionRisk::Greylist, 70u8),
        spec_classify_jurisdiction("YE"@) == (JurisdictionRisk::Greylist, 70u8),
        spec_classify_jurisdiction("CU"@) == (JurisdictionRisk::High, 80u8),
        spec_classify_jurisdiction("SY"@) == (JurisdictionRisk::High, 80u8),
        spec_classify_jurisdiction("SD"@) == (JurisdictionRisk::High, 80u8),
        spec_classify_jurisdiction("BY"@) == (JurisdictionRisk::High, 80u8),
        spec_classify_jurisdiction("RU"@) == (JurisdictionRisk::High, 80u8),
        spec_classify_jurisdiction("VE"@) == (JurisdictionRisk::High, 80u8),
        spec_classify_jurisdiction("CF"@) == (JurisdictionRisk::High, 80u8),
        spec_classify_jurisdiction("CD"@) == (JurisdictionRisk::High, 80u8),
        spec_classify_jurisdiction("IQ"@) == (JurisdictionRisk::High, 80u8),
        spec_classify_jurisdiction("LB"@) == (JurisdictionRisk::High, 80u8),
        spec_classify_jurisdiction("LR"@) == (JurisdictionRisk::High, 80u8),
        spec_classify_jurisdiction("SO"@) == (JurisdictionRisk::High, 80u8),
        spec_classify_jurisdiction("ZW"@) == (JurisdictionRisk::High, 80u8),
        spec_classify_jurisdiction("AE"@) == (JurisdictionRisk::Medium, 40u8),
        spec_classify_jurisdiction("SA"@) == (JurisdictionRisk::Medium, 40u8),
        spec_classify_jurisdiction("QA"@) == (JurisdictionRisk::Medium, 40u8),
        spec_classify_jurisdiction("OM"@) == (JurisdictionRisk::Medium, 40u8),
        spec_classify_jurisdiction("BH"@) == (JurisdictionRisk::Medium, 40u8),
        spec_classify_jurisdiction("KW"@) == (JurisdictionRisk::Medium, 40u8),
        spec_classify_jurisdiction("JO"@) == (JurisdictionRisk::Medium, 40u8),
        spec_classify_jurisdiction("EG"@) == (JurisdictionRisk::Medium, 40u8),
        spec_classify_jurisdiction("MA"@) == (JurisdictionRisk::Medium, 40u8),
        spec_classify_jurisdiction("TN"@) == (JurisdictionRisk::Medium, 40u8),
        spec_classify_jurisdiction("DZ"@) == (JurisdictionRisk::Medium, 40u8),
        spec_classify_jurisdiction("LY"@) == (JurisdictionRisk::Medium, 40u8),
        spec_classify_jurisdiction("US"@) == (JurisdictionRisk::Low, 10u8),
        spec_classify_jurisdiction("GB"@) == (JurisdictionRisk::Low, 10u8),
        spec_classify_jurisdiction("DE"@) == (JurisdictionRisk::Low, 10u8),
        spec_classify_jurisdiction("FR"@) == (JurisdictionRisk::Low, 10u8),
        spec_classify_jurisdiction("CH"@) == (JurisdictionRisk::Low, 10u8),
        spec_classify_jurisdiction("SG"@) == (JurisdictionRisk::Low, 10u8),
        spec_classify_jurisdiction("HK"@) == (JurisdictionRisk::Low, 10u8),
        spec_classify_jurisdiction("JP"@) == (JurisdictionRisk::Low, 10u8),
        spec_classify_jurisdiction("KR"@) == (JurisdictionRisk::Low, 10u8),
        spec_classify_jurisdiction("AU"@) == (JurisdictionRisk::Low, 10u8),
        spec_classify_jurisdiction("CA"@) == (JurisdictionRisk::Low, 10u8),
        spec_classify_jurisdiction("NL"@) == (JurisdictionRisk::Low, 10u8),
        spec_classify_jurisdiction("SE"@) == (JurisdictionRisk::Low, 10u8),
        spec_classify_jurisdiction("NO"@) == (JurisdictionRisk::Low, 10u8),
        spec_classify_jurisdiction("DK"@) == (JurisdictionRisk::Low, 10u8),
        spec_classify_jurisdiction("FI"@) == (JurisdictionRisk::Low, 10u8),
        spec_classify_jurisdiction("IE"@) == (JurisdictionRisk::Low, 10u8),
        spec_classify_jurisdiction("BE"@) == (JurisdictionRisk::Low, 10u8),
        spec_classify_jurisdiction("AT"@) == (JurisdictionRisk::Low, 10u8),
        spec_classify_jurisdiction("LU"@) == (JurisdictionRisk::Low, 10u8),
        spec_classify_jurisdiction("IT"@) == (JurisdictionRisk::Low, 10u8),
        spec_classify_jurisdiction("ES"@) == (JurisdictionRisk::Low, 10u8),
        spec_classify_jurisdiction("PT"@) == (JurisdictionRisk::Low, 10u8),
{
    assert(spec_classify_jurisdiction("IR"@) == (JurisdictionRisk::Blacklist, 95u8)) by {
        reveal_strlit("IR");
    }
    assert(spec_classify_jurisdiction("PRK"@) == (JurisdictionRisk::Blacklist, 95u8)) by {
        reveal_strlit("PRK");
    }
    assert(spec_classify_jurisdiction("KP"@) == (JurisdictionRisk::Blacklist, 95u8)) by {
        reveal_strlit("KP");
    }
    assert(spec_classify_jurisdiction("MM"@) == (JurisdictionRisk::Greylist, 70u8)) by {
        reveal_strlit("MM");
        reveal_strlit("IR");
        assert("MM"@[0] != "IR"@[0]);
        reveal_strlit("PRK");
        assert("MM"@[0] != "PRK"@[0]);
        reveal_strlit("KP");
        assert("MM"@[0] != "KP"@[0]);
    }
    assert(spec_classify_jurisdiction("KY"@) == (JurisdictionRisk::Greylist, 70u8)) by {
        reveal_strlit("KY");
        reveal_strlit("IR");
        assert("KY"@[0] != "IR"@[0]);
        reveal_strlit("PRK");
        assert("KY"@[0] != "PRK"@[0]);
        reveal_strlit("KP");
        assert("KY"@[1] != "KP"@[1]);
    }
    assert(spec_classify_jurisdiction("PA"@) == (JurisdictionRisk::Greylist, 70u8)) by {
        reveal_strlit("PA");
        reveal_strlit("IR");
        assert("PA"@[0] != "IR"@[0]);
        reveal_strlit("PRK");
        assert("PA"@[1] != "PRK"@[1]);
        reveal_strlit("KP");
        assert("PA"@[0] != "KP"@[0]);
    }
    assert(spec_classify_jurisdiction("BZ"@) == (JurisdictionRisk::Greylist, 70u8)) by {
        reveal_strlit("BZ");
        reveal_strlit("IR");
        assert("BZ"@[0] != "IR"@[0]);
        reveal_strlit("PRK");
        assert("BZ"@[0] != "PRK"@[0]);
        reveal_strlit("KP");
        assert("BZ"@[0] != "KP"@[0]);
    }
    assert(spec_classify_jurisdiction("UZ"@) == (JurisdictionRisk::Greylist, 70u8)) by {
        reveal_strlit("UZ");
        reveal_strlit("IR");
        assert("UZ"@[0] != "IR"@[0]);
        reveal_strlit("PRK");
        assert("UZ"@[0] != "PRK"@[0]);
        reveal_strlit("KP");
        assert("UZ"@[0] != "KP"@[0]);
    }
    assert(spec_classify_jurisdiction("PH"@) == (JurisdictionRisk::Greylist, 70u8)) by {
        reveal_strlit("PH");
        reveal_strlit("IR");
        assert("PH"@[0] != "IR"@[0]);
        reveal_strlit("PRK");
        assert("PH"@[1] != "PRK"@[1]);
        reveal_strlit("KP");
        assert("PH"@[0] != "KP"@[0]);
    }
    assert(spec_classify_jurisdiction("ZA"@) == (JurisdictionRisk::Greylist, 70u8)) by {
        reveal_strlit("ZA");
        reveal_strlit("IR");
        assert("ZA"@[0] != "IR"@[0]);
        reveal_strlit("PRK");
        assert("ZA"@[0] != "PRK"@[0]);
        reveal_strlit("KP");
        assert("ZA"@[0] != "KP"@[0]);
    }
    assert(spec_classify_jurisdiction("SS"@) == (JurisdictionRisk::Greylist, 70u8)) by {
        reveal_strlit("SS");
        reveal_strlit("IR");
        assert("SS"@[0] != "IR"@[0]);
        reveal_strlit("PRK");
        assert("SS"@[0] != "PRK"@[0]);
        reveal_strlit("KP");
        assert("SS"@[0] != "KP"@[0]);
    }
    assert(spec_classify_jurisdiction("NG"@) == (JurisdictionRisk::Greylist, 70u8)) by {
        reveal_strlit("NG");
        reveal_strlit("IR");
        assert("NG"@[0] != "IR"@[0]);
        reveal_strlit("PRK");
        assert("NG"@[0] != "PRK"@[0]);
        reveal_strlit("KP");
        assert("NG"@[0] != "KP"@[0]);
    }
    assert(spec_classify_jurisdiction("YE"@) == (JurisdictionRisk::Greylist, 70u8)) by {
        reveal_strlit("YE");
        reveal_strlit("IR");
        assert("YE"@[0] != "IR"@[0]);
        reveal_strlit("PRK");
        assert("YE"@[0] != "PRK"@[0]);
        reveal_strlit("KP");
        assert("YE"@[0] != "KP"@[0]);
    }
    assert(spec_classify_jurisdiction("CU"@) == (JurisdictionRisk::High, 80u8)) by {
        reveal_strlit("CU");
        reveal_strlit("IR");
        assert("CU"@[0] != "IR"@[0]);
        reveal_strlit("PRK");
        assert("CU"@[0] != "PRK"@[0]);
        reveal_strlit("KP");
        assert("CU"@[0] != "KP"@[0]);
        reveal_strlit("MM");
        assert("CU"@[0] != "MM"@[0]);
        reveal_strlit("KY");
        assert("CU"@[0] != "KY"@[0]);
        reveal_strlit("PA");
        assert("CU"@[0] != "PA"@[0]);
        reveal_strlit("BZ");
        assert("CU"@[0] != "BZ"@[0]);
        reveal_strlit("UZ");
        assert("CU"@[0] != "UZ"@[0]);
        reveal_strlit("PH");
        assert("CU"@[0] != "PH"@[0]);
        reveal_strlit("ZA");
        assert("CU"@[0] != "ZA"@[0]);
        reveal_strlit("SS");
        assert("CU"@[0] != "SS"@[0]);
        reveal_strlit("NG");
        assert("CU"@[0] != "NG"@[0]);
        reveal_strlit("YE");
        assert("CU"@[0] != "YE"@[0]);
    }
    assert(spec_classify_jurisdiction("SY"@) == (JurisdictionRisk::High, 80u8)) by {
        reveal_strlit("SY");
        reveal_strlit("IR");
        assert("SY"@[0] != "IR"@[0]);
        reveal_strlit("PRK");
        assert("SY"@[0] != "PRK"@[0]);
        reveal_strlit("KP");
        assert("SY"@[0] != "KP"@[0]);
        reveal_strlit("MM");
        assert("SY"@[0] != "MM"@[0]);
        reveal_strlit("KY");
        assert("SY"@[0] != "KY"@[0]);
        reveal_strlit("PA");
        assert("SY"@[0] != "PA"@[0]);
        reveal_strlit("BZ");
        assert("SY"@[0] != "BZ"@[0]);
        reveal_strlit("UZ");
        assert("SY"@[0] != "UZ"@[0]);
        reveal_strlit("PH");
        assert("SY"@[0] != "PH"@[0]);
        reveal_strlit("ZA");
        assert("SY"@[0] != "ZA"@[0]);
        reveal_strlit("SS");
        assert("SY"@[1] != "SS"@[1]);
        reveal_strlit("NG");
        assert("SY"@[0] != "NG"@[0]);
        reveal_strlit("YE");
        assert("SY"@[0] != "YE"@[0]);
    }
    assert(spec_classify_jurisdiction("SD"@) == (JurisdictionRisk::High, 80u8)) by {
        reveal_strlit("SD");
        reveal_strlit("IR");
        assert("SD"@[0] != "IR"@[0]);
        reveal_strlit("PRK");
        assert("SD"@[0] != "PRK"@[0]);
        reveal_strlit("KP");
        assert("SD"@[0] != "KP"@[0]);
        reveal_strlit("MM");
        assert("SD"@[0] != "MM"@[0]);
        reveal_strlit("KY");
        assert("SD"@[0] != "KY"@[0]);
        reveal_strlit("PA");
        assert("SD"@[0] != "PA"@[0]);
        reveal_strlit("BZ");
        assert("SD"@[0] != "BZ"@[0]);
        reveal_strlit("UZ");
        assert("SD"@[0] != "UZ"@[0]);
        reveal_strlit("PH");
        assert("SD"@[0] != "PH"@[0]);
        reveal_strlit("ZA");
        assert("SD"@[0] != "ZA"@[0]);
        reveal_strlit("SS");
        assert("SD"@[1] != "SS"@[1]);
        reveal_strlit("NG");
        assert("SD"@[0] != "NG"@[0]);
        reveal_strlit("YE");
        assert("SD"@[0] != "YE"@[0]);
    }
    assert(spec_classify_jurisdiction("BY"@) == (JurisdictionRisk::High, 80u8)) by {
        reveal_strlit("BY");
        reveal_strlit("IR");
        assert("BY"@[0] != "IR"@[0]);
        reveal_strlit("PRK");
        assert("BY"@[0] != "PRK"@[0]);
        reveal_strlit("KP");
        assert("BY"@[0] != "KP"@[0]);
        reveal_strlit("MM");
        assert("BY"@[0] != "MM"@[0]);
        reveal_strlit("KY");
        assert("BY"@[0] != "KY"@[0]);
        reveal_strlit("PA");
        assert("BY"@[0] != "PA"@[0]);
        reveal_strlit("BZ");
        assert("BY"@[1] != "BZ"@[1]);
        reveal_strlit("UZ");
        assert("BY"@[0] != "UZ"@[0]);
        reveal_strlit("PH");
        assert("BY"@[0] != "PH"@[0]);
        reveal_strlit("ZA");
        assert("BY"@[0] != "ZA"@[0]);
        reveal_strlit("SS");
        assert("BY"@[0] != "SS"@[0]);
        reveal_strlit("NG");
        assert("BY"@[0] != "NG"@[0]);
        reveal_strlit("YE");
        assert("BY"@[0] != "YE"@[0]);
    }
    assert(spec_classify_jurisdiction("RU"@) == (JurisdictionRisk::High, 80u8)) by {
        reveal_strlit("RU");
        reveal_strlit("IR");
        assert("RU"@[0] != "IR"@[0]);
        reveal_strlit("PRK");
        assert("RU"@[0] != "PRK"@[0]);
        reveal_strlit("KP");
        assert("RU"@[0] != "KP"@[0]);
        reveal_strlit("MM");
        assert("RU"@[0] != "MM"@[0]);
        reveal_strlit("KY");
        assert("RU"@[0] != "KY"@[0]);
        reveal_strlit("PA");
        assert("RU"@[0] != "PA"@[0]);
        reveal_strlit("BZ");
        assert("RU"@[0] != "BZ"@[0]);
        reveal_strlit("UZ");
        assert("RU"@[0] != "UZ"@[0]);
        reveal_strlit("PH");
        assert("RU"@[0] != "PH"@[0]);
        reveal_strlit("ZA");
        assert("RU"@[0] != "ZA"@[0]);
        reveal_strlit("SS");
        assert("RU"@[0] != "SS"@[0]);
        reveal_strlit("NG");
        assert("RU"@[0] != "NG"@[0]);
        reveal_strlit("YE");
        assert("RU"@[0] != "YE"@[0]);
    }
    assert(spec_classify_jurisdiction("VE"@) == (JurisdictionRisk::High, 80u8)) by {
        reveal_strlit("VE");
        reveal_strlit("IR");
        assert("VE"@[0] != "IR"@[0]);
        reveal_strlit("PRK");
        assert("VE"@[0] != "PRK"@[0]);
        reveal_strlit("KP");
        assert("VE"@[0] != "KP"@[0]);
        reveal_strlit("MM");
        assert("VE"@[0] != "MM"@[0]);
        reveal_strlit("KY");
        assert("VE"@[0] != "KY"@[0]);
        reveal_strlit("PA");
        assert("VE"@[0] != "PA"@[0]);
        reveal_strlit("BZ");
        assert("VE"@[0] != "BZ"@[0]);
        reveal_strlit("UZ");
        assert("VE"@[0] != "UZ"@[0]);
        reveal_strlit("PH");
        assert("VE"@[0] != "PH"@[0]);
        reveal_strlit("ZA");
        assert("VE"@[0] != "ZA"@[0]);
        reveal_strlit("SS");
        assert("VE"@[0] != "SS"@[0]);
        reveal_strlit("NG");
        assert("VE"@[0] != "NG"@[0]);
        reveal_strlit("YE");
        assert("VE"@[0] != "YE"@[0]);
    }
    assert(spec_classify_jurisdiction("CF"@) == (JurisdictionRisk::High, 80u8)) by {
        reveal_strlit("CF");
        reveal_strlit("IR");
        assert("CF"@[0] != "IR"@[0]);
        reveal_strlit("PRK");
        assert("CF"@[0] != "PRK"@[0]);
        reveal_strlit("KP");
        assert("CF"@[0] != "KP"@[0]);
        reveal_strlit("MM");
        assert("CF"@[0] != "MM"@[0]);
        reveal_strlit("KY");
        assert("CF"@[0] != "KY"@[0]);
        reveal_strlit("PA");
        assert("CF"@[0] != "PA"@[0]);
        reveal_strlit("BZ");
        assert("CF"@[0] != "BZ"@[0]);
        reveal_strlit("UZ");
        assert("CF"@[0] != "UZ"@[0]);
        reveal_strlit("PH");
        assert("CF"@[0] != "PH"@[0]);
        reveal_strlit("ZA");
        assert("CF"@[0] != "ZA"@[0]);
        reveal_strlit("SS");
        assert("CF"@[0] != "SS"@[0]);
        reveal_strlit("NG");
        assert("CF"@[0] != "NG"@[0]);
        reveal_strlit("YE");
        assert("CF"@[0] != "YE"@[0]);
    }
    assert(spec_classify_jurisdiction("CD"@) == (JurisdictionRisk::High, 80u8)) by {
        reveal_strlit("CD");
        reveal_strlit("IR");
        assert("CD"@[0] != "IR"@[0]);
        reveal_strlit("PRK");
        assert("CD"@[0] != "PRK"@[0]);
        reveal_strlit("KP");
        assert("CD"@[0] != "KP"@[0]);
        reveal_strlit("MM");
        assert("CD"@[0] != "MM"@[0]);
        reveal_strlit("KY");
        assert("CD"@[0] != "KY"@[0]);
        reveal_strlit("PA");
        assert("CD"@[0] != "PA"@[0]);
        reveal_strlit("BZ");
        assert("CD"@[0] != "BZ"@[0]);
        reveal_strlit("UZ");
        assert("CD"@[0] != "UZ"@[0]);
        reveal_strlit("PH");
        assert("CD"@[0] != "PH"@[0]);
        reveal_strlit("ZA");
        assert("CD"@[0] != "ZA"@[0]);
        reveal_strlit("SS");
        assert("CD"@[0] != "SS"@[0]);
        reveal_strlit("NG");
        assert("CD"@[0] != "NG"@[0]);
        reveal_strlit("YE");
        assert("CD"@[0] != "YE"@[0]);
    }
    assert(spec_classify_jurisdiction("IQ"@) == (JurisdictionRisk::High, 80u8)) by {
        reveal_strlit("IQ");
        reveal_strlit("IR");
        assert("IQ"@[1] != "IR"@[1]);
        reveal_strlit("PRK");
        assert("IQ"@[0] != "PRK"@[0]);
        reveal_strlit("KP");
        assert("IQ"@[0] != "KP"@[0]);
        reveal_strlit("MM");
        assert("IQ"@[0] != "MM"@[0]);
        reveal_strlit("KY");
        assert("IQ"@[0] != "KY"@[0]);
        reveal_strlit("PA");
        assert("IQ"@[0] != "PA"@[0]);
        reveal_strlit("BZ");
        assert("IQ"@[0] != "BZ"@[0]);
        reveal_strlit("UZ");
        assert("IQ"@[0] != "UZ"@[0]);
        reveal_strlit("PH");
        assert("IQ"@[0] != "PH"@[0]);
        reveal_strlit("ZA");
        assert("IQ"@[0] != "ZA"@[0]);
        reveal_strlit("SS");
        assert("IQ"@[0] != "SS"@[0]);
        reveal_strlit("NG");
        assert("IQ"@[0] != "NG"@[0]);
        reveal_strlit("YE");
        assert("IQ"@[0] != "YE"@[0]);
    }
    assert(spec_classify_jurisdiction("LB"@) == (JurisdictionRisk::High, 80u8)) by {
        reveal_strlit("LB");
        reveal_strlit("IR");
        assert("LB"@[0] != "IR"@[0]);
        reveal_strlit("PRK");
        assert("LB"@[0] != "PRK"@[0]);
        reveal_strlit("KP");
        assert("LB"@[0] != "KP"@[0]);
        reveal_strlit("MM");
        assert("LB"@[0] != "MM"@[0]);
        reveal_strlit("KY");
        assert("LB"@[0] != "KY"@[0]);
        reveal_strlit("PA");
        assert("LB"@[0] != "PA"@[0]);
        reveal_strlit("BZ");
        assert("LB"@[0] != "BZ"@[0]);
        reveal_strlit("UZ");
        assert("LB"@[0] != "UZ"@[0]);
        reveal_strlit("PH");
        assert("LB"@[0] != "PH"@[0]);
        reveal_strlit("ZA");
        assert("LB"@[0] != "ZA"@[0]);
        reveal_strlit("SS");
        assert("LB"@[0] != "SS"@[0]);
        reveal_strlit("NG");
        assert("LB"@[0] != "NG"@[0]);
        reveal_strlit("YE");
        assert("LB"@[0] != "YE"@[0]);
    }
    assert(spec_classify_jurisdiction("LR"@) == (JurisdictionRisk::High, 80u8)) by {
        reveal_strlit("LR");
        reveal_strlit("IR");
        assert("LR"@[0] != "IR"@[0]);
        reveal_strlit("PRK");
        assert("LR"@[0] != "PRK"@[0]);
        reveal_strlit("KP");
        assert("LR"@[0] != "KP"@[0]);
        reveal_strlit("MM");
        assert("LR"@[0] != "MM"@[0]);
        reveal_strlit("KY");
        assert("LR"@[0] != "KY"@[0]);
        reveal_strlit("PA");
        assert("LR"@[0] != "PA"@[0]);
        reveal_strlit("BZ");
        assert("LR"@[0] != "BZ"@[0]);
        reveal_strlit("UZ");
        assert("LR"@[0] != "UZ"@[0]);
        reveal_strlit("PH");
        assert("LR"@[0] != "PH"@[0]);
        reveal_strlit("ZA");
        assert("LR"@[0] != "ZA"@[0]);
        reveal_strlit("SS");
        assert("LR"@[0] != "SS"@[0]);
        reveal_strlit("NG");
        assert("LR"@[0] != "NG"@[0]);
        reveal_strlit("YE");
        assert("LR"@[0] != "YE"@[0]);
    }
    assert(spec_classify_jurisdiction("SO"@) == (JurisdictionRisk::High, 80u8)) by {
        reveal_strlit("SO");
        reveal_strlit("IR");
        assert("SO"@[0] != "IR"@[0]);
        reveal_strlit("PRK");
        assert("SO"@[0] != "PRK"@[0]);
        reveal_strlit("KP");
        assert("SO"@[0] != "KP"@[0]);
        reveal_strlit("MM");
        assert("SO"@[0] != "MM"@[0]);
        reveal_strlit("KY");
        assert("SO"@[0] != "KY"@[0]);
        reveal_strlit("PA");
        assert("SO"@[0] != "PA"@[0]);
        reveal_strlit("BZ");
        assert("SO"@[0] != "BZ"@[0]);
        reveal_strlit("UZ");
        assert("SO"@[0] != "UZ"@[0]);
        reveal_strlit("PH");
        assert("SO"@[0] != "PH"@[0]);
        reveal_strlit("ZA");
        assert("SO"@[0] != "ZA"@[0]);
        reveal_strlit("SS");
        assert("SO"@[1] != "SS"@[1]);
        reveal_strlit("NG");
        assert("SO"@[0] != "NG"@[0]);
        reveal_strlit("YE");
        assert("SO"@[0] != "YE"@[0]);
    }
    assert(spec_classify_jurisdiction("ZW"@) == (JurisdictionRisk::High, 80u8)) by {
        reveal_strlit("ZW");
        reveal_strlit("IR");
        assert("ZW"@[0] != "IR"@[0]);
        reveal_strlit("PRK");
        assert("ZW"@[0] != "PRK"@[0]);
        reveal_strlit("KP");
        assert("ZW"@[0] != "KP"@[0]);
        reveal_strlit("MM");
        assert("ZW"@[0] != "MM"@[0]);
        reveal_strlit("KY");
        assert("ZW"@[0] != "KY"@[0]);
        reveal_strlit("PA");
        assert("ZW"@[0] != "PA"@[0]);
        reveal_strlit("BZ");
        assert("ZW"@[0] != "BZ"@[0]);
        reveal_strlit("UZ");
        assert("ZW"@[0] != "UZ"@[0]);
        reveal_strlit("PH");
        assert("ZW"@[0] != "PH"@[0]);
        reveal_strlit("ZA");
        assert("ZW"@[1] != "ZA"@[1]);
        reveal_strlit("SS");
        assert("ZW"@[0] != "SS"@[0]);
        reveal_strlit("NG");
        assert("ZW"@[0] != "NG"@[0]);
        reveal_strlit("YE");
        assert("ZW"@[0] != "YE"@[0]);
    }
    assert(spec_classify_jurisdiction("AE"@) == (JurisdictionRisk::Medium, 40u8)) by {
        reveal_strlit("AE");
        reveal_strlit("IR");
        assert("AE"@[0] != "IR"@[0]);
        reveal_strlit("PRK");
        assert("AE"@[0] != "PRK"@[0]);
        reveal_strlit("KP");
        assert("AE"@[0] != "KP"@[0]);
        reveal_strlit("MM");
        assert("AE"@[0] != "MM"@[0]);
        reveal_strlit("KY");
        assert("AE"@[0] != "KY"@[0]);
        reveal_strlit("PA");
        assert("AE"@[0] != "PA"@[0]);
        reveal_strlit("BZ");
        assert("AE"@[0] != "BZ"@[0]);
        reveal_strlit("UZ");
        assert("AE"@[0] != "UZ"@[0]);
        reveal_strlit("PH");
        assert("AE"@[0] != "PH"@[0]);
        reveal_strlit("ZA");
        assert("AE"@[0] != "ZA"@[0]);
        reveal_strlit("SS");
        assert("AE"@[0] != "SS"@[0]);
        reveal_strlit("NG");
        assert("AE"@[0] != "NG"@[0]);
        reveal_strlit("YE");
        assert("AE"@[0] != "YE"@[0]);
        reveal_strlit("CU");
        assert("AE"@[0] != "CU"@[0]);
        reveal_strlit("SY");
        assert("AE"@[0] != "SY"@[0]);
        reveal_strlit("SD");
        assert("AE"@[0] != "SD"@[0]);
        reveal_strlit("BY");
        assert("AE"@[0] != "BY"@[0]);
        reveal_strlit("RU");
        assert("AE"@[0] != "RU"@[0]);
        reveal_strlit("VE");
        assert("AE"@[0] != "VE"@[0]);
        reveal_strlit("CF");
        assert("AE"@[0] != "CF"@[0]);
        reveal_strlit("CD");
        assert("AE"@[0] != "CD"@[0]);
        reveal_strlit("IQ");
        assert("AE"@[0] != "IQ"@[0]);
        reveal_strlit("LB");
        assert("AE"@[0] != "LB"@[0]);
        reveal_strlit("LR");
        assert("AE"@[0] != "LR"@[0]);
        reveal_strlit("SO");
        assert("AE"@[0] != "SO"@[0]);
        reveal_strlit("ZW");
        assert("AE"@[0] != "ZW"@[0]);
    }
    assert(spec_classify_jurisdiction("SA"@) == (JurisdictionRisk::Medium, 40u8)) by {
        reveal_strlit("SA");
        reveal_strlit("IR");
        assert("SA"@[0] != "IR"@[0]);
        reveal_strlit("PRK");
        assert("SA"@[0] != "PRK"@[0]);
        reveal_strlit("KP");
        assert("SA"@[0] != "KP"@[0]);
        reveal_strlit("MM");
        assert("SA"@[0] != "MM"@[0]);
        reveal_strlit("KY");
        assert("SA"@[0] != "KY"@[0]);
        reveal_strlit("PA");
        assert("SA"@[0] != "PA"@[0]);
        reveal_strlit("BZ");
        assert("SA"@[0] != "BZ"@[0]);
        reveal_strlit("UZ");
        assert("SA"@[0] != "UZ"@[0]);
        reveal_strlit("PH");
        assert("SA"@[0] != "PH"@[0]);
        reveal_strlit("ZA");
        assert("SA"@[0] != "ZA"@[0]);
        reveal_strlit("SS");
        assert("SA"@[1] != "SS"@[1]);
        reveal_strlit("NG");
        assert("SA"@[0] != "NG"@[0]);
        reveal_strlit("YE");
        assert("SA"@[0] != "YE"@[0]);
        reveal_strlit("CU");
        assert("SA"@[0] != "CU"@[0]);
        reveal_strlit("SY");
        assert("SA"@[1] != "SY"@[1]);
        reveal_strlit("SD");
        assert("SA"@[1] != "SD"@[1]);
        reveal_strlit("BY");
        assert("SA"@[0] != "BY"@[0]);
        reveal_strlit("RU");
        assert("SA"@[0] != "RU"@[0]);
        reveal_strlit("VE");
        assert("SA"@[0] != "VE"@[0]);
        reveal_strlit("CF");
        assert("SA"@[0] != "CF"@[0]);
        reveal_strlit("CD");
        assert("SA"@[0] != "CD"@[0]);
        reveal_strlit("IQ");
        assert("SA"@[0] != "IQ"@[0]);
        reveal_strlit("LB");
        assert("SA"@[0] != "LB"@[0]);
        reveal_strlit("LR");
        assert("SA"@[0] != "LR"@[0]);
        reveal_strlit("SO");
        assert("SA"@[1] != "SO"@[1]);
        reveal_strlit("ZW");
        assert("SA"@[0] != "ZW"@[0]);
    }
    assert(spec_classify_jurisdiction("QA"@) == (JurisdictionRisk::Medium, 40u8)) by {
        reveal_strlit("QA");
        reveal_strlit("IR");
        assert("QA"@[0] != "IR"@[0]);
        reveal_strlit("PRK");
        assert("QA"@[0] != "PRK"@[0]);
        reveal_strlit("KP");
        assert("QA"@[0] != "KP"@[0]);
        reveal_strlit("MM");
        assert("QA"@[0] != "MM"@[0]);
        reveal_strlit("KY");
        assert("QA"@[0] != "KY"@[0]);
        reveal_strlit("PA");
        assert("QA"@[0] != "PA"@[0]);
        reveal_strlit("BZ");
        assert("QA"@[0] != "BZ"@[0]);
        reveal_strlit("UZ");
        assert("QA"@[0] != "UZ"@[0]);
        reveal_strlit("PH");
        assert("QA"@[0] != "PH"@[0]);
        reveal_strlit("ZA");
        assert("QA"@[0] != "ZA"@[0]);
        reveal_strlit("SS");
        assert("QA"@[0] != "SS"@[0]);
        reveal_strlit("NG");
        assert("QA"@[0] != "NG"@[0]);
        reveal_strlit("YE");
        assert("QA"@[0] != "YE"@[0]);
        reveal_strlit("CU");
        assert("QA"@[0] != "CU"@[0]);
        reveal_strlit("SY");
        assert("QA"@[0] != "SY"@[0]);
        reveal_strlit("SD");
        assert("QA"@[0] != "SD"@[0]);
        reveal_strlit("BY");
        assert("QA"@[0] != "BY"@[0]);
        reveal_strlit("RU");
        assert("QA"@[0] != "RU"@[0]);
        reveal_strlit("VE");
        assert("QA"@[0] != "VE"@[0]);
        reveal_strlit("CF");
        assert("QA"@[0] != "CF"@[0]);
        reveal_strlit("CD");
        assert("QA"@[0] != "CD"@[0]);
        reveal_strlit("IQ");
        assert("QA"@[0] != "IQ"@[0]);
        reveal_strlit("LB");
        assert("QA"@[0] != "LB"@[0]);
        reveal_strlit("LR");
        assert("QA"@[0] != "LR"@[0]);
        reveal_strlit("SO");
        assert("QA"@[0] != "SO"@[0]);
        reveal_strlit("ZW");
        assert("QA"@[0] != "ZW"@[0]);
    }
    assert(spec_classify_jurisdiction("OM"@) == (JurisdictionRisk::Medium, 40u8)) by {
        reveal_strlit("OM");
        reveal_strlit("IR");
        assert("OM"@[0] != "IR"@[0]);
        reveal_strlit("PRK");
        assert("OM"@[0] != "PRK"@[0]);
        reveal_strlit("KP");
        assert("OM"@[0] != "KP"@[0]);
        reveal_strlit("MM");
        assert("OM"@[0] != "MM"@[0]);
        reveal_strlit("KY");
        assert("OM"@[0] != "KY"@[0]);
        reveal_strlit("PA");
        assert("OM"@[0] != "PA"@[0]);
        reveal_strlit("BZ");
        assert("OM"@[0] != "BZ"@[0]);
        reveal_strlit("UZ");
        assert("OM"@[0] != "UZ"@[0]);
        reveal_strlit("PH");
        assert("OM"@[0] != "PH"@[0]);
        reveal_strlit("ZA");
        assert("OM"@[0] != "ZA"@[0]);
        reveal_strlit("SS");
        assert("OM"@[0] != "SS"@[0]);
        reveal_strlit("NG");
        assert("OM"@[0] != "NG"@[0]);
        reveal_strlit("YE");
        assert("OM"@[0] != "YE"@[0]);
        reveal_strlit("CU");
        assert("OM"@[0] != "CU"@[0]);
        reveal_strlit("SY");
        assert("OM"@[0] != "SY"@[0]);
        reveal_strlit("SD");
        assert("OM"@[0] != "SD"@[0]);
        reveal_strlit("BY");
        assert("OM"@[0] != "BY"@[0]);
        reveal_strlit("RU");
        assert("OM"@[0] != "RU"@[0]);
        reveal_strlit("VE");
        assert("OM"@[0] != "VE"@[0]);
        reveal_strlit("CF");
        assert("OM"@[0] != "CF"@[0]);
        reveal_strlit("CD");
        assert("OM"@[0] != "CD"@[0]);
        reveal_strlit("IQ");
        assert("OM"@[0] != "IQ"@[0]);
        reveal_strlit("LB");
        assert("OM"@[0] != "LB"@[0]);
        reveal_strlit("LR");
        assert("OM"@[0] != "LR"@[0]);
        reveal_strlit("SO");
        assert("OM"@[0] != "SO"@[0]);
        reveal_strlit("ZW");
        assert("OM"@[0] != "ZW"@[0]);
    }
    assert(spec_classify_jurisdiction("BH"@) == (JurisdictionRisk::Medium, 40u8)) by {
        reveal_strlit("BH");
        reveal_strlit("IR");
        assert("BH"@[0] != "IR"@[0]);
        reveal_strlit("PRK");
        assert("BH"@[0] != "PRK"@[0]);
        reveal_strlit("KP");
        assert("BH"@[0] != "KP"@[0]);
        reveal_strlit("MM");
        assert("BH"@[0] != "MM"@[0]);
        reveal_strlit("KY");
        assert("BH"@[0] != "KY"@[0]);
        reveal_strlit("PA");
        assert("BH"@[0] != "PA"@[0]);
        reveal_strlit("BZ");
        assert("BH"@[1] != "BZ"@[1]);
        reveal_strlit("UZ");
        assert("BH"@[0] != "UZ"@[0]);
        reveal_strlit("PH");
        assert("BH"@[0] != "PH"@[0]);
        reveal_strlit("ZA");
        assert("BH"@[0] != "ZA"@[0]);
        reveal_strlit("SS");
        assert("BH"@[0] != "SS"@[0]);
        reveal_strlit("NG");
        assert("BH"@[0] != "NG"@[0]);
        reveal_strlit("YE");
        assert("BH"@[0] != "YE"@[0]);
        reveal_strlit("CU");
        assert("BH"@[0] != "CU"@[0]);
        reveal_strlit("SY");
        assert("BH"@[0] != "SY"@[0]);
        reveal_strlit("SD");
        assert("BH"@[0] != "SD"@[0]);
        reveal_strlit("BY");
        assert("BH"@[1] != "BY"@[1]);
        reveal_strlit("RU");
        assert("BH"@[0] != "RU"@[0]);
        reveal_strlit("VE");
        assert("BH"@[0] != "VE"@[0]);
        reveal_strlit("CF");
        assert("BH"@[0] != "CF"@[0]);
        reveal_strlit("CD");
        assert("BH"@[0] != "CD"@[0]);
        reveal_strlit("IQ");
        assert("BH"@[0] != "IQ"@[0]);
        reveal_strlit("LB");
        assert("BH"@[0] != "LB"@[0]);
        reveal_strlit("LR");
        assert("BH"@[0] != "LR"@[0]);
        reveal_strlit("SO");
        assert("BH"@[0] != "SO"@[0]);
        reveal_strlit("ZW");
        assert("BH"@[0] != "ZW"@[0]);
    }
    assert(spec_classify_jurisdiction("KW"@) == (JurisdictionRisk::Medium, 40u8)) by {
        reveal_strlit("KW");
        reveal_strlit("IR");
        assert("KW"@[0] != "IR"@[0]);
        reveal_strlit("PRK");
        assert("KW"@[0] != "PRK"@[0]);
        reveal_strlit("KP");
        assert("KW"@[1] != "KP"@[1]);
        reveal_strlit("MM");
        assert("KW"@[0] != "MM"@[0]);
        reveal_strlit("KY");
        assert("KW"@[1] != "KY"@[1]);
        reveal_strlit("PA");
        assert("KW"@[0] != "PA"@[0]);
        reveal_strlit("BZ");
        assert("KW"@[0] != "BZ"@[0]);
        reveal_strlit("UZ");
        assert("KW"@[0] != "UZ"@[0]);
        reveal_strlit("PH");
        assert("KW"@[0] != "PH"@[0]);
        reveal_strlit("ZA");
        assert("KW"@[0] != "ZA"@[0]);
        reveal_strlit("SS");
        assert("KW"@[0] != "SS"@[0]);
        reveal_strlit("NG");
        assert("KW"@[0] != "NG"@[0]);
        reveal_strlit("YE");
        assert("KW"@[0] != "YE"@[0]);
        reveal_strlit("CU");
        assert("KW"@[0] != "CU"@[0]);
        reveal_strlit("SY");
        assert("KW"@[0] != "SY"@[0]);
        reveal_strlit("SD");
        assert("KW"@[0] != "SD"@[0]);
        reveal_strlit("BY");
        assert("KW"@[0] != "BY"@[0]);
        reveal_strlit("RU");
        assert("KW"@[0] != "RU"@[0]);
        reveal_strlit("VE");
        assert("KW"@[0] != "VE"@[0]);
        reveal_strlit("CF");
        assert("KW"@[0] != "CF"@[0]);
        reveal_strlit("CD");
        assert("KW"@[0] != "CD"@[0]);
        reveal_strlit("IQ");
        assert("KW"@[0] != "IQ"@[0]);
        reveal_strlit("LB");
        assert("KW"@[0] != "LB"@[0]);
        reveal_strlit("LR");
        assert("KW"@[0] != "LR"@[0]);
        reveal_strlit("SO");
        assert("KW"@[0] != "SO"@[0]);
        reveal_strlit("ZW");
        assert("KW"@[0] != "ZW"@[0]);
    }
    assert(spec_classify_jurisdiction("JO"@) == (JurisdictionRisk::Medium, 40u8)) by {
        reveal_strlit("JO");
        reveal_strlit("IR");
        assert("JO"@[0] != "IR"@[0]);
        reveal_strlit("PRK");
        assert("JO"@[0] != "PRK"@[0]);
        reveal_strlit("KP");
        assert("JO"@[0] != "KP"@[0]);
        reveal_strlit("MM");
        assert("JO"@[0] != "MM"@[0]);
        reveal_strlit("KY");
        assert("JO"@[0] != "KY"@[0]);
        reveal_strlit("PA");
        assert("JO"@[0] != "PA"@[0]);
        reveal_strlit("BZ");
        assert("JO"@[0] != "BZ"@[0]);
        reveal_strlit("UZ");
        assert("JO"@[0] != "UZ"@[0]);
        reveal_strlit("PH");
        assert("JO"@[0] != "PH"@[0]);
        reveal_strlit("ZA");
        assert("JO"@[0] != "ZA"@[0]);
        reveal_strlit("SS");
        assert("JO"@[0] != "SS"@[0]);
        reveal_strlit("NG");
        assert("JO"@[0] != "NG"@[0]);
        reveal_strlit("YE");
        assert("JO"@[0] != "YE"@[0]);
        reveal_strlit("CU");
        assert("JO"@[0] != "CU"@[0]);
        reveal_strlit("SY");
        assert("JO"@[0] != "SY"@[0]);
        reveal_strlit("SD");
        assert("JO"@[0] != "SD"@[0]);
        reveal_strlit("BY");
        assert("JO"@[0] != "BY"@[0]);
        reveal_strlit("RU");
        assert("JO"@[0] != "RU"@[0]);
        reveal_strlit("VE");
        assert("JO"@[0] != "VE"@[0]);
        reveal_strlit("CF");
        assert("JO"@[0] != "CF"@[0]);
        reveal_strlit("CD");
        assert("JO"@[0] != "CD"@[0]);
        reveal_strlit("IQ");
        assert("JO"@[0] != "IQ"@[0]);
        reveal_strlit("LB");
        assert("JO"@[0] != "LB"@[0]);
        reveal_strlit("LR");
        assert("JO"@[0] != "LR"@[0]);
        reveal_strlit("SO");
        assert("JO"@[0] != "SO"@[0]);
        reveal_strlit("ZW");
        assert("JO"@[0] != "ZW"@[0]);
    }
    assert(spec_classify_jurisdiction("EG"@) == (JurisdictionRisk::Medium, 40u8)) by {
        reveal_strlit("EG");
        reveal_strlit("IR");
        assert("EG"@[0] != "IR"@[0]);
        reveal_strlit("PRK");
        assert("EG"@[0] != "PRK"@[0]);
        reveal_strlit("KP");
        assert("EG"@[0] != "KP"@[0]);
        reveal_strlit("MM");
        assert("EG"@[0] != "MM"@[0]);
        reveal_strlit("KY");
        assert("EG"@[0] != "KY"@[0]);
        reveal_strlit("PA");
        assert("EG"@[0] != "PA"@[0]);
        reveal_strlit("BZ");
        assert("EG"@[0] != "BZ"@[0]);
        reveal_strlit("UZ");
        assert("EG"@[0] != "UZ"@[0]);
        reveal_strlit("PH");
        assert("EG"@[0] != "PH"@[0]);
        reveal_strlit("ZA");
        assert("EG"@[0] != "ZA"@[0]);
        reveal_strlit("SS");
        assert("EG"@[0] != "SS"@[0]);
        reveal_strlit("NG");
        assert("EG"@[0] != "NG"@[0]);
        reveal_strlit("YE");
        assert("EG"@[0] != "YE"@[0]);
        reveal_strlit("CU");
        assert("EG"@[0] != "CU"@[0]);
        reveal_strlit("SY");
        assert("EG"@[0] != "SY"@[0]);
        reveal_strlit("SD");
        assert("EG"@[0] != "SD"@[0]);
        reveal_strlit("BY");
        assert("EG"@[0] != "BY"@[0]);
        reveal_strlit("RU");
        assert("EG"@[0] != "RU"@[0]);
        reveal_strlit("VE");
        assert("EG"@[0] != "VE"@[0]);
        reveal_strlit("CF");
        assert("EG"@[0] != "CF"@[0]);
        reveal_strlit("CD");
        assert("EG"@[0] != "CD"@[0]);
        reveal_strlit("IQ");
        assert("EG"@[0] != "IQ"@[0]);
        reveal_strlit("LB");
        assert("EG"@[0] != "LB"@[0]);
        reveal_strlit("LR");
        assert("EG"@[0] != "LR"@[0]);
        reveal_strlit("SO");
        assert("EG"@[0] != "SO"@[0]);
        reveal_strlit("ZW");
        assert("EG"@[0] != "ZW"@[0]);
    }
    assert(spec_classify_jurisdiction("MA"@) == (JurisdictionRisk::Medium, 40u8)) by {
        reveal_strlit("MA");
        reveal_strlit("IR");
        assert("MA"@[0] != "IR"@[0]);
        reveal_strlit("PRK");
        assert("MA"@[0] != "PRK"@[0]);
        reveal_strlit("KP");
        assert("MA"@[0] != "KP"@[0]);
        reveal_strlit("MM");
        assert("MA"@[1] != "MM"@[1]);
        reveal_strlit("KY");
        assert("MA"@[0] != "KY"@[0]);
        reveal_strlit("PA");
        assert("MA"@[0] != "PA"@[0]);
        reveal_strlit("BZ");
        assert("MA"@[0] != "BZ"@[0]);
        reveal_strlit("UZ");
        assert("MA"@[0] != "UZ"@[0]);
        reveal_strlit("PH");
        assert("MA"@[0] != "PH"@[0]);
        reveal_strlit("ZA");
        assert("MA"@[0] != "ZA"@[0]);
        reveal_strlit("SS");
        assert("MA"@[0] != "SS"@[0]);
        reveal_strlit("NG");
        assert("MA"@[0] != "NG"@[0]);
        reveal_strlit("YE");
        assert("MA"@[0] != "YE"@[0]);
        reveal_strlit("CU");
        assert("MA"@[0] != "CU"@[0]);
        reveal_strlit("SY");
        assert("MA"@[0] != "SY"@[0]);
        reveal_strlit("SD");
        assert("MA"@[0] != "SD"@[0]);
        reveal_strlit("BY");
        assert("MA"@[0] != "BY"@[0]);
        reveal_strlit("RU");
        assert("MA"@[0] != "RU"@[0]);
        reveal_strlit("VE");
        assert("MA"@[0] != "VE"@[0]);
        reveal_strlit("CF");
        assert("MA"@[0] != "CF"@[0]);
        reveal_strlit("CD");
        assert("MA"@[0] != "CD"@[0]);
        reveal_strlit("IQ");
        assert("MA"@[0] != "IQ"@[0]);
        reveal_strlit("LB");
        assert("MA"@[0] != "LB"@[0]);
        reveal_strlit("LR");
        assert("MA"@[0] != "LR"@[0]);
        reveal_strlit("SO");
        assert("MA"@[0] != "SO"@[0]);
        reveal_strlit("ZW");
        assert("MA"@[0] != "ZW"@[0]);
    }
    assert(spec_classify_jurisdiction("TN"@) == (JurisdictionRisk::Medium, 40u8)) by {
        reveal_strlit("TN");
        reveal_strlit("IR");
        assert("TN"@[0] != "IR"@[0]);
        reveal_strlit("PRK");
        assert("TN"@[0] != "PRK"@[0]);
        reveal_strlit("KP");
        assert("TN"@[0] != "KP"@[0]);
        reveal_strlit("MM");
        assert("TN"@[0] != "MM"@[0]);
        reveal_strlit("KY");
        assert("TN"@[0] != "KY"@[0]);
        reveal_strlit("PA");
        assert("TN"@[0] != "PA"@[0]);
        reveal_strlit("BZ");
        assert("TN"@[0] != "BZ"@[0]);
        reveal_strlit("UZ");
        assert("TN"@[0] != "UZ"@[0]);
        reveal_strlit("PH");
        assert("TN"@[0] != "PH"@[0]);
        reveal_strlit("ZA");
        assert("TN"@[0] != "ZA"@[0]);
        reveal_strlit("SS");
        assert("TN"@[0] != "SS"@[0]);
        reveal_strlit("NG");
        assert("TN"@[0] != "NG"@[0]);
        reveal_strlit("YE");
        assert("TN"@[0] != "YE"@[0]);
        reveal_strlit("CU");
        assert("TN"@[0] != "CU"@[0]);
        reveal_strlit("SY");
        assert("TN"@[0] != "SY"@[0]);
        reveal_strlit("SD");
        assert("TN"@[0] != "SD"@[0]);
        reveal_strlit("BY");
        assert("TN"@[0] != "BY"@[0]);
        reveal_strlit("RU");
        assert("TN"@[0] != "RU"@[0]);
        reveal_strlit("VE");
        assert("TN"@[0] != "VE"@[0]);
        reveal_strlit("CF");
        assert("TN"@[0] != "CF"@[0]);
        reveal_strlit("CD");
        assert("TN"@[0] != "CD"@[0]);
        reveal_strlit("IQ");
        assert("TN"@[0] != "IQ"@[0]);
        reveal_strlit("LB");
        assert("TN"@[0] != "LB"@[0]);
        reveal_strlit("LR");
        assert("TN"@[0] != "LR"@[0]);
        reveal_strlit("SO");
        assert("TN"@[0] != "SO"@[0]);
        reveal_strlit("ZW");
        assert("TN"@[0] != "ZW"@[0]);
    }
    assert(spec_classify_jurisdiction("DZ"@) == (JurisdictionRisk::Medium, 40u8)) by {
        reveal_strlit("DZ");
        reveal_strlit("IR");
        assert("DZ"@[0] != "IR"@[0]);
        reveal_strlit("PRK");
        assert("DZ"@[0] != "PRK"@[0]);
        reveal_strlit("KP");
        assert("DZ"@[0] != "KP"@[0]);
        reveal_strlit("MM");
        assert("DZ"@[0] != "MM"@[0]);
        reveal_strlit("KY");
        assert("DZ"@[0] != "KY"@[0]);
        reveal_strlit("PA");
        assert("DZ"@[0] != "PA"@[0]);
        reveal_strlit("BZ");
        assert("DZ"@[0] != "BZ"@[0]);
        reveal_strlit("UZ");
        assert("DZ"@[0] != "UZ"@[0]);
        reveal_strlit("PH");
        assert("DZ"@[0] != "PH"@[0]);
        reveal_strlit("ZA");
        assert("DZ"@[0] != "ZA"@[0]);
        reveal_strlit("SS");
        assert("DZ"@[0] != "SS"@[0]);
        reveal_strlit("NG");
        assert("DZ"@[0] != "NG"@[0]);
        reveal_strlit("YE");
        assert("DZ"@[0] != "YE"@[0]);
        reveal_strlit("CU");
        assert("DZ"@[0] != "CU"@[0]);
        reveal_strlit("SY");
        assert("DZ"@[0] != "SY"@[0]);
        reveal_strlit("SD");
        assert("DZ"@[0] != "SD"@[0]);
        reveal_strlit("BY");
        assert("DZ"@[0] != "BY"@[0]);
        reveal_strlit("RU");
        assert("DZ"@[0] != "RU"@[0]);
        reveal_strlit("VE");
        assert("DZ"@[0] != "VE"@[0]);
        reveal_strlit("CF");
        assert("DZ"@[0] != "CF"@[0]);
        reveal_strlit("CD");
        assert("DZ"@[0] != "CD"@[0]);
        reveal_strlit("IQ");
        assert("DZ"@[0] != "IQ"@[0]);
        reveal_strlit("LB");
        assert("DZ"@[0] != "LB"@[0]);
        reveal_strlit("LR");
        assert("DZ"@[0] != "LR"@[0]);
        reveal_strlit("SO");
        assert("DZ"@[0] != "SO"@[0]);
        reveal_strlit("ZW");
        assert("DZ"@[0] != "ZW"@[0]);
    }
    assert(spec_classify_jurisdiction("LY"@) == (JurisdictionRisk::Medium, 40u8)) by {
        reveal_strlit("LY");
        reveal_strlit("IR");
        assert("LY"@[0] != "IR"@[0]);
        reveal_strlit("PRK");
        assert("LY"@[0] != "PRK"@[0]);
        reveal_strlit("KP");
        assert("LY"@[0] != "KP"@[0]);
        reveal_strlit("MM");
        assert("LY"@[0] != "MM"@[0]);
        reveal_strlit("KY");
        assert("LY"@[0] != "KY"@[0]);
        reveal_strlit("PA");
        assert("LY"@[0] != "PA"@[0]);
        reveal_strlit("BZ");
        assert("LY"@[0] != "BZ"@[0]);
        reveal_strlit("UZ");
        assert("LY"@[0] != "UZ"@[0]);
        reveal_strlit("PH");
        assert("LY"@[0] != "PH"@[0]);
        reveal_strlit("ZA");
        assert("LY"@[0] != "ZA"@[0]);
        reveal_strlit("SS");
        assert("LY"@[0] != "SS"@[0]);
        reveal_strlit("NG");
        assert("LY"@[0] != "NG"@[0]);
        reveal_strlit("YE");
        assert("LY"@[0] != "YE"@[0]);
        reveal_strlit("CU");
        assert("LY"@[0] != "CU"@[0]);
        reveal_strlit("SY");
        assert("LY"@[0] != "SY"@[0]);
        reveal_strlit("SD");
        assert("LY"@[0] != "SD"@[0]);
        reveal_strlit("BY");
        assert("LY"@[0] != "BY"@[0]);
        reveal_strlit("RU");
        assert("LY"@[0] != "RU"@[0]);
        reveal_strlit("VE");
        assert("LY"@[0] != "VE"@[0]);
        reveal_strlit("CF");
        assert("LY"@[0] != "CF"@[0]);
        reveal_strlit("CD");
        assert("LY"@[0] != "CD"@[0]);
        reveal_strlit("IQ");
        assert("LY"@[0] != "IQ"@[0]);
        reveal_strlit("LB");
        assert("LY"@[1] != "LB"@[1]);
        reveal_strlit("LR");
        assert("LY"@[1] != "LR"@[1]);
        reveal_strlit("SO");
        assert("LY"@[0] != "SO"@[0]);
        reveal_strlit("ZW");
        assert("LY"@[0] != "ZW"@[0]);
    }
    assert(spec_classify_jurisdiction("US"@) == (JurisdictionRisk::Low, 10u8)) by {
        reveal_strlit("US");
        reveal_strlit("IR");
        assert("US"@[0] != "IR"@[0]);
        reveal_strlit("PRK");
        assert("US"@[0] != "PRK"@[0]);
        reveal_strlit("KP");
        assert("US"@[0] != "KP"@[0]);
        reveal_strlit("MM");
        assert("US"@[0] != "MM"@[0]);
        reveal_strlit("KY");
        assert("US"@[0] != "KY"@[0]);
        reveal_strlit("PA");
        assert("US"@[0] != "PA"@[0]);
        reveal_strlit("BZ");
        assert("US"@[0] != "BZ"@[0]);
        reveal_strlit("UZ");
        assert("US"@[1] != "UZ"@[1]);
        reveal_strlit("PH");
        assert("US"@[0] != "PH"@[0]);
        reveal_strlit("ZA");
        assert("US"@[0] != "ZA"@[0]);
        reveal_strlit("SS");
        assert("US"@[0] != "SS"@[0]);
        reveal_strlit("NG");
        assert("US"@[0] != "NG"@[0]);
        reveal_strlit("YE");
        assert("US"@[0] != "YE"@[0]);
        reveal_strlit("CU");
        assert("US"@[0] != "CU"@[0]);
        reveal_strlit("SY");
        assert("US"@[0] != "SY"@[0]);
        reveal_strlit("SD");
        assert("US"@[0] != "SD"@[0]);
        reveal_strlit("BY");
        assert("US"@[0] != "BY"@[0]);
        reveal_strlit("RU");
        assert("US"@[0] != "RU"@[0]);
        reveal_strlit("VE");
        assert("US"@[0] != "VE"@[0]);
        reveal_strlit("CF");
        assert("US"@[0] != "CF"@[0]);
        reveal_strlit("CD");
        assert("US"@[0] != "CD"@[0]);
        reveal_strlit("IQ");
        assert("US"@[0] != "IQ"@[0]);
        reveal_strlit("LB");
        assert("US"@[0] != "LB"@[0]);
        reveal_strlit("LR");
        assert("US"@[0] != "LR"@[0]);
        reveal_strlit("SO");
        assert("US"@[0] != "SO"@[0]);
        reveal_strlit("ZW");
        assert("US"@[0] != "ZW"@[0]);
        reveal_strlit("AE");
        assert("US"@[0] != "AE"@[0]);
        reveal_strlit("SA");
        assert("US"@[0] != "SA"@[0]);
        reveal_strlit("QA");
        assert("US"@[0] != "QA"@[0]);
        reveal_strlit("OM");
        assert("US"@[0] != "OM"@[0]);
        reveal_strlit("BH");
        assert("US"@[0] != "BH"@[0]);
        reveal_strlit("KW");
        assert("US"@[0] != "KW"@[0]);
        reveal_strlit("JO");
        assert("US"@[0] != "JO"@[0]);
        reveal_strlit("EG");
        assert("US"@[0] != "EG"@[0]);
        reveal_strlit("MA");
        assert("US"@[0] != "MA"@[0]);
        reveal_strlit("TN");
        assert("US"@[0] != "TN"@[0]);
        reveal_strlit("DZ");
        assert("US"@[0] != "DZ"@[0]);
        reveal_strlit("LY");
        assert("US"@[0] != "LY"@[0]);
    }
    assert(spec_classify_jurisdiction("GB"@) == (JurisdictionRisk::Low, 10u8)) by {
        reveal_strlit("GB");
        reveal_strlit("IR");
        assert("GB"@[0] != "IR"@[0]);
        reveal_strlit("PRK");
        assert("GB"@[0] != "PRK"@[0]);
        reveal_strlit("KP");
        assert("GB"@[0] != "KP"@[0]);
        reveal_strlit("MM");
        assert("GB"@[0] != "MM"@[0]);
        reveal_strlit("KY");
        assert("GB"@[0] != "KY"@[0]);
        reveal_strlit("PA");
        assert("GB"@[0] != "PA"@[0]);
        reveal_strlit("BZ");
        assert("GB"@[0] != "BZ"@[0]);
        reveal_strlit("UZ");
        assert("GB"@[0] != "UZ"@[0]);
        reveal_strlit("PH");
        assert("GB"@[0] != "PH"@[0]);
        reveal_strlit("ZA");
        assert("GB"@[0] != "ZA"@[0]);
        reveal_strlit("SS");
        assert("GB"@[0] != "SS"@[0]);
        reveal_strlit("NG");
        assert("GB"@[0] != "NG"@[0]);
        reveal_strlit("YE");
        assert("GB"@[0] != "YE"@[0]);
        reveal_strlit("CU");
        assert("GB"@[0] != "CU"@[0]);
        reveal_strlit("SY");
        assert("GB"@[0] != "SY"@[0]);
        reveal_strlit("SD");
        assert("GB"@[0] != "SD"@[0]);
        reveal_strlit("BY");
        assert("GB"@[0] != "BY"@[0]);
        reveal_strlit("RU");
        assert("GB"@[0] != "RU"@[0]);
        reveal_strlit("VE");
        assert("GB"@[0] != "VE"@[0]);
        reveal_strlit("CF");
        assert("GB"@[0] != "CF"@[0]);
        reveal_strlit("CD");
        assert("GB"@[0] != "CD"@[0]);
        reveal_strlit("IQ");
        assert("GB"@[0] != "IQ"@[0]);
        reveal_strlit("LB");
        assert("GB"@[0] != "LB"@[0]);
        reveal_strlit("LR");
        assert("GB"@[0] != "LR"@[0]);
        reveal_strlit("SO");
        assert("GB"@[0] != "SO"@[0]);
        reveal_strlit("ZW");
        assert("GB"@[0] != "ZW"@[0]);
        reveal_strlit("AE");
        assert("GB"@[0] != "AE"@[0]);
        reveal_strlit("SA");
        assert("GB"@[0] != "SA"@[0]);
        reveal_strlit("QA");
        assert("GB"@[0] != "QA"@[0]);
        reveal_strlit("OM");
        assert("GB"@[0] != "OM"@[0]);
        reveal_strlit("BH");
        assert("GB"@[0] != "BH"@[0]);
        reveal_strlit("KW");
        assert("GB"@[0] != "KW"@[0]);
        reveal_strlit("JO");
        assert("GB"@[0] != "JO"@[0]);
        reveal_strlit("EG");
        assert("GB"@[0] != "EG"@[0]);
        reveal_strlit("MA");
        assert("GB"@[0] != "MA"@[0]);
        reveal_strlit("TN");
        assert("GB"@[0] != "TN"@[0]);
        reveal_strlit("DZ");
        assert("GB"@[0] != "DZ"@[0]);
        reveal_strlit("LY");
        assert("GB"@[0] != "LY"@[0]);
    }
    assert(spec_classify_jurisdiction("DE"@) == (JurisdictionRisk::Low, 10u8)) by {
        reveal_strlit("DE");
        reveal_strlit("IR");
        assert("DE"@[0] != "IR"@[0]);
        reveal_strlit("PRK");
        assert("DE"@[0] != "PRK"@[0]);
        reveal_strlit("KP");
        assert("DE"@[0] != "KP"@[0]);
        reveal_strlit("MM");
        assert("DE"@[0] != "MM"@[0]);
        reveal_strlit("KY");
        assert("DE"@[0] != "KY"@[0]);
        reveal_strlit("PA");
        assert("DE"@[0] != "PA"@[0]);
        reveal_strlit("BZ");
        assert("DE"@[0] != "BZ"@[0]);
        reveal_strlit("UZ");
        assert("DE"@[0] != "UZ"@[0]);
        reveal_strlit("PH");
        assert("DE"@[0] != "PH"@[0]);
        reveal_strlit("ZA");
        assert("DE"@[0] != "ZA"@[0]);
        reveal_strlit("SS");
        assert("DE"@[0] != "SS"@[0]);
        reveal_strlit("NG");
        assert("DE"@[0] != "NG"@[0]);
        reveal_strlit("YE");
        assert("DE"@[0] != "YE"@[0]);
        reveal_strlit("CU");
        assert("DE"@[0] != "CU"@[0]);
        reveal_strlit("SY");
        assert("DE"@[0] != "SY"@[0]);
        reveal_strlit("SD");
        assert("DE"@[0] != "SD"@[0]);
        reveal_strlit("BY");
        assert("DE"@[0] != "BY"@[0]);
        reveal_strlit("RU");
        assert("DE"@[0] != "RU"@[0]);
        reveal_strlit("VE");
        assert("DE"@[0] != "VE"@[0]);
        reveal_strlit("CF");
        assert("DE"@[0] != "CF"@[0]);
        reveal_strlit("CD");
        assert("DE"@[0] != "CD"@[0]);
        reveal_strlit("IQ");
        assert("DE"@[0] != "IQ"@[0]);
        reveal_strlit("LB");
        assert("DE"@[0] != "LB"@[0]);
        reveal_strlit("LR");
        assert("DE"@[0] != "LR"@[0]);
        reveal_strlit("SO");
        assert("DE"@[0] != "SO"@[0]);
        reveal_strlit("ZW");
        assert("DE"@[0] != "ZW"@[0]);
        reveal_strlit("AE");
        assert("DE"@[0] != "AE"@[0]);
        reveal_strlit("SA");
        assert("DE"@[0] != "SA"@[0]);
        reveal_strlit("QA");
        assert("DE"@[0] != "QA"@[0]);
        reveal_strlit("OM");
        assert("DE"@[0] != "OM"@[0]);
        reveal_strlit("BH");
        assert("DE"@[0] != "BH"@[0]);
        reveal_strlit("KW");
        assert("DE"@[0] != "KW"@[0]);
        reveal_strlit("JO");
        assert("DE"@[0] != "JO"@[0]);
        reveal_strlit("EG");
        assert("DE"@[0] != "EG"@[0]);
        reveal_strlit("MA");
        assert("DE"@[0] != "MA"@[0]);
        reveal_strlit("TN");
        assert("DE"@[0] != "TN"@[0]);
        reveal_strlit("DZ");
        assert("DE"@[1] != "DZ"@[1]);
        reveal_strlit("LY");
        assert("DE"@[0] != "LY"@[0]);
    }
    assert(spec_classify_jurisdiction("FR"@) == (JurisdictionRisk::Low, 10u8)) by {
        reveal_strlit("FR");
        reveal_strlit("IR");
        assert("FR"@[0] != "IR"@[0]);
        reveal_strlit("PRK");
        assert("FR"@[0] != "PRK"@[0]);
        reveal_strlit("KP");
        assert("FR"@[0] != "KP"@[0]);
        reveal_strlit("MM");
        assert("FR"@[0] != "MM"@[0]);
        reveal_strlit("KY");
        assert("FR"@[0] != "KY"@[0]);
        reveal_strlit("PA");
        assert("FR"@[0] != "PA"@[0]);
        reveal_strlit("BZ");
        assert("FR"@[0] != "BZ"@[0]);
        reveal_strlit("UZ");
        assert("FR"@[0] != "UZ"@[0]);
        reveal_strlit("PH");
        assert("FR"@[0] != "PH"@[0]);
        reveal_strlit("ZA");
        assert("FR"@[0] != "ZA"@[0]);
        reveal_strlit("SS");
        assert("FR"@[0] != "SS"@[0]);
        reveal_strlit("NG");
        assert("FR"@[0] != "NG"@[0]);
        reveal_strlit("YE");
        assert("FR"@[0] != "YE"@[0]);
        reveal_strlit("CU");
        assert("FR"@[0] != "CU"@[0]);
        reveal_strlit("SY");
        assert("FR"@[0] != "SY"@[0]);
        reveal_strlit("SD");
        assert("FR"@[0] != "SD"@[0]);
        reveal_strlit("BY");
        assert("FR"@[0] != "BY"@[0]);
        reveal_strlit("RU");
        assert("FR"@[0] != "RU"@[0]);
        reveal_strlit("VE");
        assert("FR"@[0] != "VE"@[0]);
        reveal_strlit("CF");
        assert("FR"@[0] != "CF"@[0]);
        reveal_strlit("CD");
        assert("FR"@[0] != "CD"@[0]);
        reveal_strlit("IQ");
        assert("FR"@[0] != "IQ"@[0]);
        reveal_strlit("LB");
        assert("FR"@[0] != "LB"@[0]);
        reveal_strlit("LR");
        assert("FR"@[0] != "LR"@[0]);
        reveal_strlit("SO");
        assert("FR"@[0] != "SO"@[0]);
        reveal_strlit("ZW");
        assert("FR"@[0] != "ZW"@[0]);
        reveal_strlit("AE");
        assert("FR"@[0] != "AE"@[0]);
        reveal_strlit("SA");
        assert("FR"@[0] != "SA"@[0]);
        reveal_strlit("QA");
        assert("FR"@[0] != "QA"@[0]);
        reveal_strlit("OM");
        assert("FR"@[0] != "OM"@[0]);
        reveal_strlit("BH");
        assert("FR"@[0] != "BH"@[0]);
        reveal_strlit("KW");
        assert("FR"@[0] != "KW"@[0]);
        reveal_strlit("JO");
        assert("FR"@[0] != "JO"@[0]);
        reveal_strlit("EG");
        assert("FR"@[0] != "EG"@[0]);
        reveal_strlit("MA");
        assert("FR"@[0] != "MA"@[0]);
        reveal_strlit("TN");
        assert("FR"@[0] != "TN"@[0]);
        reveal_strlit("DZ");
        assert("FR"@[0] != "DZ"@[0]);
        reveal_strlit("LY");
        assert("FR"@[0] != "LY"@[0]);
    }
    assert(spec_classify_jurisdiction("CH"@) == (JurisdictionRisk::Low, 10u8)) by {
        reveal_strlit("CH");
        reveal_strlit("IR");
        assert("CH"@[0] != "IR"@[0]);
        reveal_strlit("PRK");
        assert("CH"@[0] != "PRK"@[0]);
        reveal_strlit("KP");
        assert("CH"@[0] != "KP"@[0]);
        reveal_strlit("MM");
        assert("CH"@[0] != "MM"@[0]);
        reveal_strlit("KY");
        assert("CH"@[0] != "KY"@[0]);
        reveal_strlit("PA");
        assert("CH"@[0] != "PA"@[0]);
        reveal_strlit("BZ");
        assert("CH"@[0] != "BZ"@[0]);
        reveal_strlit("UZ");
        assert("CH"@[0] != "UZ"@[0]);
        reveal_strlit("PH");
        assert("CH"@[0] != "PH"@[0]);
        reveal_strlit("ZA");
        assert("CH"@[0] != "ZA"@[0]);
        reveal_strlit("SS");
        assert("CH"@[0] != "SS"@[0]);
        reveal_strlit("NG");
        assert("CH"@[0] != "NG"@[0]);
        reveal_strlit("YE");
        assert("CH"@[0] != "YE"@[0]);
        reveal_strlit("CU");
        assert("CH"@[1] != "CU"@[1]);
        reveal_strlit("SY");
        assert("CH"@[0] != "SY"@[0]);
        reveal_strlit("SD");
        assert("CH"@[0] != "SD"@[0]);
        reveal_strlit("BY");
        assert("CH"@[0] != "BY"@[0]);
        reveal_strlit("RU");
        assert("CH"@[0] != "RU"@[0]);
        reveal_strlit("VE");
        assert("CH"@[0] != "VE"@[0]);
        reveal_strlit("CF");
        assert("CH"@[1] != "CF"@[1]);
        reveal_strlit("CD");
        assert("CH"@[1] != "CD"@[1]);
        reveal_strlit("IQ");
        assert("CH"@[0] != "IQ"@[0]);
        reveal_strlit("LB");
        assert("CH"@[0] != "LB"@[0]);
        reveal_strlit("LR");
        assert("CH"@[0] != "LR"@[0]);
        reveal_strlit("SO");
        assert("CH"@[0] != "SO"@[0]);
        reveal_strlit("ZW");
        assert("CH"@[0] != "ZW"@[0]);
        reveal_strlit("AE");
        assert("CH"@[0] != "AE"@[0]);
        reveal_strlit("SA");
        assert("CH"@[0] != "SA"@[0]);
        reveal_strlit("QA");
        assert("CH"@[0] != "QA"@[0]);
        reveal_strlit("OM");
        assert("CH"@[0] != "OM"@[0]);
        reveal_strlit("BH");
        assert("CH"@[0] != "BH"@[0]);
        reveal_strlit("KW");
        assert("CH"@[0] != "KW"@[0]);
        reveal_strlit("JO");
        assert("CH"@[0] != "JO"@[0]);
        reveal_strlit("EG");
        assert("CH"@[0] != "EG"@[0]);
        reveal_strlit("MA");
        assert("CH"@[0] != "MA"@[0]);
        reveal_strlit("TN");
        assert("CH"@[0] != "TN"@[0]);
        reveal_strlit("DZ");
        assert("CH"@[0] != "DZ"@[0]);
        reveal_strlit("LY");
        assert("CH"@[0] != "LY"@[0]);
    }
    assert(spec_classify_jurisdiction("SG"@) == (JurisdictionRisk::Low, 10u8)) by {
        reveal_strlit("SG");
        reveal_strlit("IR");
        assert("SG"@[0] != "IR"@[0]);
        reveal_strlit("PRK");
        assert("SG"@[0] != "PRK"@[0]);
        reveal_strlit("KP");
        assert("SG"@[0] != "KP"@[0]);
        reveal_strlit("MM");
        assert("SG"@[0] != "MM"@[0]);
        reveal_strlit("KY");
        assert("SG"@[0] != "KY"@[0]);
        reveal_strlit("PA");
        assert("SG"@[0] != "PA"@[0]);
        reveal_strlit("BZ");
        assert("SG"@[0] != "BZ"@[0]);
        reveal_strlit("UZ");
        assert("SG"@[0] != "UZ"@[0]);
        reveal_strlit("PH");
        assert("SG"@[0] != "PH"@[0]);
        reveal_strlit("ZA");
        assert("SG"@[0] != "ZA"@[0]);
        reveal_strlit("SS");
        assert("SG"@[1] != "SS"@[1]);
        reveal_strlit("NG");
        assert("SG"@[0] != "NG"@[0]);
        reveal_strlit("YE");
        assert("SG"@[0] != "YE"@[0]);
        reveal_strlit("CU");
        assert("SG"@[0] != "CU"@[0]);
        reveal_strlit("SY");
        assert("SG"@[1] != "SY"@[1]);
        reveal_strlit("SD");
        assert("SG"@[1] != "SD"@[1]);
        reveal_strlit("BY");
        assert("SG"@[0] != "BY"@[0]);
        reveal_strlit("RU");
        assert("SG"@[0] != "RU"@[0]);
        reveal_strlit("VE");
        assert("SG"@[0] != "VE"@[0]);
        reveal_strlit("CF");
        assert("SG"@[0] != "CF"@[0]);
        reveal_strlit("CD");
        assert("SG"@[0] != "CD"@[0]);
        reveal_strlit("IQ");
        assert("SG"@[0] != "IQ"@[0]);
        reveal_strlit("LB");
        assert("SG"@[0] != "LB"@[0]);
        reveal_strlit("LR");
        assert("SG"@[0] != "LR"@[0]);
        reveal_strlit("SO");
        assert("SG"@[1] != "SO"@[1]);
        reveal_strlit("ZW");
        assert("SG"@[0] != "ZW"@[0]);
        reveal_strlit("AE");
        assert("SG"@[0] != "AE"@[0]);
        reveal_strlit("SA");
        assert("SG"@[1] != "SA"@[1]);
        reveal_strlit("QA");
        assert("SG"@[0] != "QA"@[0]);
        reveal_strlit("OM");
        assert("SG"@[0] != "OM"@[0]);
        reveal_strlit("BH");
        assert("SG"@[0] != "BH"@[0]);
        reveal_strlit("KW");
        assert("SG"@[0] != "KW"@[0]);
        reveal_strlit("JO");
        assert("SG"@[0] != "JO"@[0]);
        reveal_strlit("EG");
        assert("SG"@[0] != "EG"@[0]);
        reveal_strlit("MA");
        assert("SG"@[0] != "MA"@[0]);
        reveal_strlit("TN");
        assert("SG"@[0] != "TN"@[0]);
        reveal_strlit("DZ");
        assert("SG"@[0] != "DZ"@[0]);
        reveal_strlit("LY");
        assert("SG"@[0] != "LY"@[0]);
    }
    assert(spec_classify_jurisdiction("HK"@) == (JurisdictionRisk::Low, 10u8)) by {
        reveal_strlit("HK");
        reveal_strlit("IR");
        assert("HK"@[0] != "IR"@[0]);
        reveal_strlit("PRK");
        assert("HK"@[0] != "PRK"@[0]);
        reveal_strlit("KP");
        assert("HK"@[0] != "KP"@[0]);
        reveal_strlit("MM");
        assert("HK"@[0] != "MM"@[0]);
        reveal_strlit("KY");
        assert("HK"@[0] != "KY"@[0]);
        reveal_strlit("PA");
        assert("HK"@[0] != "PA"@[0]);
        reveal_strlit("BZ");
        assert("HK"@[0] != "BZ"@[0]);
        reveal_strlit("UZ");
        assert("HK"@[0] != "UZ"@[0]);
        reveal_strlit("PH");
        assert("HK"@[0] != "PH"@[0]);
        reveal_strlit("ZA");
        assert("HK"@[0] != "ZA"@[0]);
        reveal_strlit("SS");
        assert("HK"@[0] != "SS"@[0]);
        reveal_strlit("NG");
        assert("HK"@[0] != "NG"@[0]);
        reveal_strlit("YE");
        assert("HK"@[0] != "YE"@[0]);
        reveal_strlit("CU");
        assert("HK"@[0] != "CU"@[0]);
        reveal_strlit("SY");
        assert("HK"@[0] != "SY"@[0]);
        reveal_strlit("SD");
        assert("HK"@[0] != "SD"@[0]);
        reveal_strlit("BY");
        assert("HK"@[0] != "BY"@[0]);
        reveal_strlit("RU");
        assert("HK"@[0] != "RU"@[0]);
        reveal_strlit("VE");
        assert("HK"@[0] != "VE"@[0]);
        reveal_strlit("CF");
        assert("HK"@[0] != "CF"@[0]);
        reveal_strlit("CD");
        assert("HK"@[0] != "CD"@[0]);
        reveal_strlit("IQ");
        assert("HK"@[0] != "IQ"@[0]);
        reveal_strlit("LB");
        assert("HK"@[0] != "LB"@[0]);
        reveal_strlit("LR");
        assert("HK"@[0] != "LR"@[0]);
        reveal_strlit("SO");
        assert("HK"@[0] != "SO"@[0]);
        reveal_strlit("ZW");
        assert("HK"@[0] != "ZW"@[0]);
        reveal_strlit("AE");
        assert("HK"@[0] != "AE"@[0]);
        reveal_strlit("SA");
        assert("HK"@[0] != "SA"@[0]);
        reveal_strlit("QA");
        assert("HK"@[0] != "QA"@[0]);
        reveal_strlit("OM");
        assert("HK"@[0] != "OM"@[0]);
        reveal_strlit("BH");
        assert("HK"@[0] != "BH"@[0]);
        reveal_strlit("KW");
        assert("HK"@[0] != "KW"@[0]);
        reveal_strlit("JO");
        assert("HK"@[0] != "JO"@[0]);
        reveal_strlit("EG");
        assert("HK"@[0] != "EG"@[0]);
        reveal_strlit("MA");
        assert("HK"@[0] != "MA"@[0]);
        reveal_strlit("TN");
        assert("HK"@[0] != "TN"@[0]);
        reveal_strlit("DZ");
        assert("HK"@[0] != "DZ"@[0]);
        reveal_strlit("LY");
        assert("HK"@[0] != "LY"@[0]);
    }
    assert(spec_classify_jurisdiction("JP"@) == (JurisdictionRisk::Low, 10u8)) by {
        reveal_strlit("JP");
        reveal_strlit("IR");
        assert("JP"@[0] != "IR"@[0]);
        reveal_strlit("PRK");
        assert("JP"@[0] != "PRK"@[0]);
        reveal_strlit("KP");
        assert("JP"@[0] != "KP"@[0]);
        reveal_strlit("MM");
        assert("JP"@[0] != "MM"@[0]);
        reveal_strlit("KY");
        assert("JP"@[0] != "KY"@[0]);
        reveal_strlit("PA");
        assert("JP"@[0] != "PA"@[0]);
        reveal_strlit("BZ");
        assert("JP"@[0] != "BZ"@[0]);
        reveal_strlit("UZ");
        assert("JP"@[0] != "UZ"@[0]);
        reveal_strlit("PH");
        assert("JP"@[0] != "PH"@[0]);
        reveal_strlit("ZA");
        assert("JP"@[0] != "ZA"@[0]);
        reveal_strlit("SS");
        assert("JP"@[0] != "SS"@[0]);
        reveal_strlit("NG");
        assert("JP"@[0] != "NG"@[0]);
        reveal_strlit("YE");
        assert("JP"@[0] != "YE"@[0]);
        reveal_strlit("CU");
        assert("JP"@[0] != "CU"@[0]);
        reveal_strlit("SY");
        assert("JP"@[0] != "SY"@[0]);
        reveal_strlit("SD");
        assert("JP"@[0] != "SD"@[0]);
        reveal_strlit("BY");
        assert("JP"@[0] != "BY"@[0]);
        reveal_strlit("RU");
        assert("JP"@[0] != "RU"@[0]);
        reveal_strlit("VE");
        assert("JP"@[0] != "VE"@[0]);
        reveal_strlit("CF");
        assert("JP"@[0] != "CF"@[0]);
        reveal_strlit("CD");
        assert("JP"@[0] != "CD"@[0]);
        reveal_strlit("IQ");
        assert("JP"@[0] != "IQ"@[0]);
        reveal_strlit("LB");
        assert("JP"@[0] != "LB"@[0]);
        reveal_strlit("LR");
        assert("JP"@[0] != "LR"@[0]);
        reveal_strlit("SO");
        assert("JP"@[0] != "SO"@[0]);
        reveal_strlit("ZW");
        assert("JP"@[0] != "ZW"@[0]);
        reveal_strlit("AE");
        assert("JP"@[0] != "AE"@[0]);
        reveal_strlit("SA");
        assert("JP"@[0] != "SA"@[0]);
        reveal_strlit("QA");
        assert("JP"@[0] != "QA"@[0]);
        reveal_strlit("OM");
        assert("JP"@[0] != "OM"@[0]);
        reveal_strlit("BH");
        assert("JP"@[0] != "BH"@[0]);
        reveal_strlit("KW");
        assert("JP"@[0] != "KW"@[0]);
        reveal_strlit("JO");
        assert("JP"@[1] != "JO"@[1]);
        reveal_strlit("EG");
        assert("JP"@[0] != "EG"@[0]);
        reveal_strlit("MA");
        assert("JP"@[0] != "MA"@[0]);
        reveal_strlit("TN");
        assert("JP"@[0] != "TN"@[0]);
        reveal_strlit("DZ");
        assert("JP"@[0] != "DZ"@[0]);
        reveal_strlit("LY");
        assert("JP"@[0] != "LY"@[0]);
    }
    assert(spec_classify_jurisdiction("KR"@) == (JurisdictionRisk::Low, 10u8)) by {
        reveal_strlit("KR");
        reveal_strlit("IR");
        assert("KR"@[0] != "IR"@[0]);
        reveal_strlit("PRK");
        assert("KR"@[0] != "PRK"@[0]);
        reveal_strlit("KP");
        assert("KR"@[1] != "KP"@[1]);
        reveal_strlit("MM");
        assert("KR"@[0] != "MM"@[0]);
        reveal_strlit("KY");
        assert("KR"@[1] != "KY"@[1]);
        reveal_strlit("PA");
        assert("KR"@[0] != "PA"@[0]);
        reveal_strlit("BZ");
        assert("KR"@[0] != "BZ"@[0]);
        reveal_strlit("UZ");
        assert("KR"@[0] != "UZ"@[0]);
        reveal_strlit("PH");
        assert("KR"@[0] != "PH"@[0]);
        reveal_strlit("ZA");
        assert("KR"@[0] != "ZA"@[0]);
        reveal_strlit("SS");
        assert("KR"@[0] != "SS"@[0]);
        reveal_strlit("NG");
        assert("KR"@[0] != "NG"@[0]);
        reveal_strlit("YE");
        assert("KR"@[0] != "YE"@[0]);
        reveal_strlit("CU");
        assert("KR"@[0] != "CU"@[0]);
        reveal_strlit("SY");
        assert("KR"@[0] != "SY"@[0]);
        reveal_strlit("SD");
        assert("KR"@[0] != "SD"@[0]);
        reveal_strlit("BY");
        assert("KR"@[0] != "BY"@[0]);
        reveal_strlit("RU");
        assert("KR"@[0] != "RU"@[0]);
        reveal_strlit("VE");
        assert("KR"@[0] != "VE"@[0]);
        reveal_strlit("CF");
        assert("KR"@[0] != "CF"@[0]);
        reveal_strlit("CD");
        assert("KR"@[0] != "CD"@[0]);
        reveal_strlit("IQ");
        assert("KR"@[0] != "IQ"@[0]);
        reveal_strlit("LB");
        assert("KR"@[0] != "LB"@[0]);
        reveal_strlit("LR");
        assert("KR"@[0] != "LR"@[0]);
        reveal_strlit("SO");
        assert("KR"@[0] != "SO"@[0]);
        reveal_strlit("ZW");
        assert("KR"@[0] != "ZW"@[0]);
        reveal_strlit("AE");
        assert("KR"@[0] != "AE"@[0]);
        reveal_strlit("SA");
        assert("KR"@[0] != "SA"@[0]);
        reveal_strlit("QA");
        assert("KR"@[0] != "QA"@[0]);
        reveal_strlit("OM");
        assert("KR"@[0] != "OM"@[0]);
        reveal_strlit("BH");
        assert("KR"@[0] != "BH"@[0]);
        reveal_strlit("KW");
        assert("KR"@[1] != "KW"@[1]);
        reveal_strlit("JO");
        assert("KR"@[0] != "JO"@[0]);
        reveal_strlit("EG");
        assert("KR"@[0] != "EG"@[0]);
        reveal_strlit("MA");
        assert("KR"@[0] != "MA"@[0]);
        reveal_strlit("TN");
        assert("KR"@[0] != "TN"@[0]);
        reveal_strlit("DZ");
        assert("KR"@[0] != "DZ"@[0]);
        reveal_strlit("LY");
        assert("KR"@[0] != "LY"@[0]);
    }
    assert(spec_classify_jurisdiction("AU"@) == (JurisdictionRisk::Low, 10u8)) by {
        reveal_strlit("AU");
        reveal_strlit("IR");
        assert("AU"@[0] != "IR"@[0]);
        reveal_strlit("PRK");
        assert("AU"@[0] != "PRK"@[0]);
        reveal_strlit("KP");
        assert("AU"@[0] != "KP"@[0]);
        reveal_strlit("MM");
        assert("AU"@[0] != "MM"@[0]);
        reveal_strlit("KY");
        assert("AU"@[0] != "KY"@[0]);
        reveal_strlit("PA");
        assert("AU"@[0] != "PA"@[0]);
        reveal_strlit("BZ");
        assert("AU"@[0] != "BZ"@[0]);
        reveal_strlit("UZ");
        assert("AU"@[0] != "UZ"@[0]);
        reveal_strlit("PH");
        assert("AU"@[0] != "PH"@[0]);
        reveal_strlit("ZA");
        assert("AU"@[0] != "ZA"@[0]);
        reveal_strlit("SS");
        assert("AU"@[0] != "SS"@[0]);
        reveal_strlit("NG");
        assert("AU"@[0] != "NG"@[0]);
        reveal_strlit("YE");
        assert("AU"@[0] != "YE"@[0]);
        reveal_strlit("CU");
        assert("AU"@[0] != "CU"@[0]);
        reveal_strlit("SY");
        assert("AU"@[0] != "SY"@[0]);
        reveal_strlit("SD");
        assert("AU"@[0] != "SD"@[0]);
        reveal_strlit("BY");
        assert("AU"@[0] != "BY"@[0]);
        reveal_strlit("RU");
        assert("AU"@[0] != "RU"@[0]);
        reveal_strlit("VE");
        assert("AU"@[0] != "VE"@[0]);
        reveal_strlit("CF");
        assert("AU"@[0] != "CF"@[0]);
        reveal_strlit("CD");
        assert("AU"@[0] != "CD"@[0]);
        reveal_strlit("IQ");
        assert("AU"@[0] != "IQ"@[0]);
        reveal_strlit("LB");
        assert("AU"@[0] != "LB"@[0]);
        reveal_strlit("LR");
        assert("AU"@[0] != "LR"@[0]);
        reveal_strlit("SO");
        assert("AU"@[0] != "SO"@[0]);
        reveal_strlit("ZW");
        assert("AU"@[0] != "ZW"@[0]);
        reveal_strlit("AE");
        assert("AU"@[1] != "AE"@[1]);
        reveal_strlit("SA");
        assert("AU"@[0] != "SA"@[0]);
        reveal_strlit("QA");
        assert("AU"@[0] != "QA"@[0]);
        reveal_strlit("OM");
        assert("AU"@[0] != "OM"@[0]);
        reveal_strlit("BH");
        assert("AU"@[0] != "BH"@[0]);
        reveal_strlit("KW");
        assert("AU"@[0] != "KW"@[0]);
        reveal_strlit("JO");
        assert("AU"@[0] != "JO"@[0]);
        reveal_strlit("EG");
        assert("AU"@[0] != "EG"@[0]);
        reveal_strlit("MA");
        assert("AU"@[0] != "MA"@[0]);
        reveal_strlit("TN");
        assert("AU"@[0] != "TN"@[0]);
        reveal_strlit("DZ");
        assert("AU"@[0] != "DZ"@[0]);
        reveal_strlit("LY");
        assert("AU"@[0] != "LY"@[0]);
    }
    assert(spec_classify_jurisdiction("CA"@) == (JurisdictionRisk::Low, 10u8)) by {
        reveal_strlit("CA");
        reveal_strlit("IR");
        assert("CA"@[0] != "IR"@[0]);
        reveal_strlit("PRK");
        assert("CA"@[0] != "PRK"@[0]);
        reveal_strlit("KP");
        assert("CA"@[0] != "KP"@[0]);
        reveal_strlit("MM");
        assert("CA"@[0] != "MM"@[0]);
        reveal_strlit("KY");
        assert("CA"@[0] != "KY"@[0]);
        reveal_strlit("PA");
        assert("CA"@[0] != "PA"@[0]);
        reveal_strlit("BZ");
        assert("CA"@[0] != "BZ"@[0]);
        reveal_strlit("UZ");
        assert("CA"@[0] != "UZ"@[0]);
        reveal_strlit("PH");
        assert("CA"@[0] != "PH"@[0]);
        reveal_strlit("ZA");
        assert("CA"@[0] != "ZA"@[0]);
        reveal_strlit("SS");
        assert("CA"@[0] != "SS"@[0]);
        reveal_strlit("NG");
        assert("CA"@[0] != "NG"@[0]);
        reveal_strlit("YE");
        assert("CA"@[0] != "YE"@[0]);
        reveal_strlit("CU");
        assert("CA"@[1] != "CU"@[1]);
        reveal_strlit("SY");
        assert("CA"@[0] != "SY"@[0]);
        reveal_strlit("SD");
        assert("CA"@[0] != "SD"@[0]);
        reveal_strlit("BY");
        assert("CA"@[0] != "BY"@[0]);
        reveal_strlit("RU");
        assert("CA"@[0] != "RU"@[0]);
        reveal_strlit("VE");
        assert("CA"@[0] != "VE"@[0]);
        reveal_strlit("CF");
        assert("CA"@[1] != "CF"@[1]);
        reveal_strlit("CD");
        assert("CA"@[1] != "CD"@[1]);
        reveal_strlit("IQ");
        assert("CA"@[0] != "IQ"@[0]);
        reveal_strlit("LB");
        assert("CA"@[0] != "LB"@[0]);
        reveal_strlit("LR");
        assert("CA"@[0] != "LR"@[0]);
        reveal_strlit("SO");
        assert("CA"@[0] != "SO"@[0]);
        reveal_strlit("ZW");
        assert("CA"@[0] != "ZW"@[0]);
        reveal_strlit("AE");
        assert("CA"@[0] != "AE"@[0]);
        reveal_strlit("SA");
        assert("CA"@[0] != "SA"@[0]);
        reveal_strlit("QA");
        assert("CA"@[0] != "QA"@[0]);
        reveal_strlit("OM");
        assert("CA"@[0] != "OM"@[0]);
        reveal_strlit("BH");
        assert("CA"@[0] != "BH"@[0]);
        reveal_strlit("KW");
        assert("CA"@[0] != "KW"@[0]);
        reveal_strlit("JO");
        assert("CA"@[0] != "JO"@[0]);
        reveal_strlit("EG");
        assert("CA"@[0] != "EG"@[0]);
        reveal_strlit("MA");
        assert("CA"@[0] != "MA"@[0]);
        reveal_strlit("TN");
        assert("CA"@[0] != "TN"@[0]);
        reveal_strlit("DZ");
        assert("CA"@[0] != "DZ"@[0]);
        reveal_strlit("LY");
        assert("CA"@[0] != "LY"@[0]);
    }
    assert(spec_classify_jurisdiction("NL"@) == (JurisdictionRisk::Low, 10u8)) by {
        reveal_strlit("NL");
        reveal_strlit("IR");
        assert("NL"@[0] != "IR"@[0]);
        reveal_strlit("PRK");
        assert("NL"@[0] != "PRK"@[0]);
        reveal_strlit("KP");
        assert("NL"@[0] != "KP"@[0]);
        reveal_strlit("MM");
        assert("NL"@[0] != "MM"@[0]);
        reveal_strlit("KY");
        assert("NL"@[0] != "KY"@[0]);
        reveal_strlit("PA");
        assert("NL"@[0] != "PA"@[0]);
        reveal_strlit("BZ");
        assert("NL"@[0] != "BZ"@[0]);
        reveal_strlit("UZ");
        assert("NL"@[0] != "UZ"@[0]);
        reveal_strlit("PH");
        assert("NL"@[0] != "PH"@[0]);
        reveal_strlit("ZA");
        assert("NL"@[0] != "ZA"@[0]);
        reveal_strlit("SS");
        assert("NL"@[0] != "SS"@[0]);
        reveal_strlit("NG");
        assert("NL"@[1] != "NG"@[1]);
        reveal_strlit("YE");
        assert("NL"@[0] != "YE"@[0]);
        reveal_strlit("CU");
        assert("NL"@[0] != "CU"@[0]);
        reveal_strlit("SY");
        assert("NL"@[0] != "SY"@[0]);
        reveal_strlit("SD");
        assert("NL"@[0] != "SD"@[0]);
        reveal_strlit("BY");
        assert("NL"@[0] != "BY"@[0]);
        reveal_strlit("RU");
        assert("NL"@[0] != "RU"@[0]);
        reveal_strlit("VE");
        assert("NL"@[0] != "VE"@[0]);
        reveal_strlit("CF");
        assert("NL"@[0] != "CF"@[0]);
        reveal_strlit("CD");
        assert("NL"@[0] != "CD"@[0]);
        reveal_strlit("IQ");
        assert("NL"@[0] != "IQ"@[0]);
        reveal_strlit("LB");
        assert("NL"@[0] != "LB"@[0]);
        reveal_strlit("LR");
        assert("NL"@[0] != "LR"@[0]);
        reveal_strlit("SO");
        assert("NL"@[0] != "SO"@[0]);
        reveal_strlit("ZW");
        assert("NL"@[0] != "ZW"@[0]);
        reveal_strlit("AE");
        assert("NL"@[0] != "AE"@[0]);
        reveal_strlit("SA");
        assert("NL"@[0] != "SA"@[0]);
        reveal_strlit("QA");
        assert("NL"@[0] != "QA"@[0]);
        reveal_strlit("OM");
        assert("NL"@[0] != "OM"@[0]);
        reveal_strlit("BH");
        assert("NL"@[0] != "BH"@[0]);
        reveal_strlit("KW");
        assert("NL"@[0] != "KW"@[0]);
        reveal_strlit("JO");
        assert("NL"@[0] != "JO"@[0]);
        reveal_strlit("EG");
        assert("NL"@[0] != "EG"@[0]);
        reveal_strlit("MA");
        assert("NL"@[0] != "MA"@[0]);
        reveal_strlit("TN");
        assert("NL"@[0] != "TN"@[0]);
        reveal_strlit("DZ");
        assert("NL"@[0] != "DZ"@[0]);
        reveal_strlit("LY");
        assert("NL"@[0] != "LY"@[0]);
    }
    assert(spec_classify_jurisdiction("SE"@) == (JurisdictionRisk::Low, 10u8)) by {
        reveal_strlit("SE");
        reveal_strlit("IR");
        assert("SE"@[0] != "IR"@[0]);
        reveal_strlit("PRK");
        assert("SE"@[0] != "PRK"@[0]);
        reveal_strlit("KP");
        assert("SE"@[0] != "KP"@[0]);
        reveal_strlit("MM");
        assert("SE"@[0] != "MM"@[0]);
        reveal_strlit("KY");
        assert("SE"@[0] != "KY"@[0]);
        reveal_strlit("PA");
        assert("SE"@[0] != "PA"@[0]);
        reveal_strlit("BZ");
        assert("SE"@[0] != "BZ"@[0]);
        reveal_strlit("UZ");
        assert("SE"@[0] != "UZ"@[0]);
        reveal_strlit("PH");
        assert("SE"@[0] != "PH"@[0]);
        reveal_strlit("ZA");
        assert("SE"@[0] != "ZA"@[0]);
        reveal_strlit("SS");
        assert("SE"@[1] != "SS"@[1]);
        reveal_strlit("NG");
        assert("SE"@[0] != "NG"@[0]);
        reveal_strlit("YE");
        assert("SE"@[0] != "YE"@[0]);
        reveal_strlit("CU");
        assert("SE"@[0] != "CU"@[0]);
        reveal_strlit("SY");
        assert("SE"@[1] != "SY"@[1]);
        reveal_strlit("SD");
        assert("SE"@[1] != "SD"@[1]);
        reveal_strlit("BY");
        assert("SE"@[0] != "BY"@[0]);
        reveal_strlit("RU");
        assert("SE"@[0] != "RU"@[0]);
        reveal_strlit("VE");
        assert("SE"@[0] != "VE"@[0]);
        reveal_strlit("CF");
        assert("SE"@[0] != "CF"@[0]);
        reveal_strlit("CD");
        assert("SE"@[0] != "CD"@[0]);
        reveal_strlit("IQ");
        assert("SE"@[0] != "IQ"@[0]);
        reveal_strlit("LB");
        assert("SE"@[0] != "LB"@[0]);
        reveal_strlit("LR");
        assert("SE"@[0] != "LR"@[0]);
        reveal_strlit("SO");
        assert("SE"@[1] != "SO"@[1]);
        reveal_strlit("ZW");
        assert("SE"@[0] != "ZW"@[0]);
        reveal_strlit("AE");
        assert("SE"@[0] != "AE"@[0]);
        reveal_strlit("SA");
        assert("SE"@[1] != "SA"@[1]);
        reveal_strlit("QA");
        assert("SE"@[0] != "QA"@[0]);
        reveal_strlit("OM");
        assert("SE"@[0] != "OM"@[0]);
        reveal_strlit("BH");
        assert("SE"@[0] != "BH"@[0]);
        reveal_strlit("KW");
        assert("SE"@[0] != "KW"@[0]);
        reveal_strlit("JO");
        assert("SE"@[0] != "JO"@[0]);
        reveal_strlit("EG");
        assert("SE"@[0] != "EG"@[0]);
        reveal_strlit("MA");
        assert("SE"@[0] != "MA"@[0]);
        reveal_strlit("TN");
        assert("SE"@[0] != "TN"@[0]);
        reveal_strlit("DZ");
        assert("SE"@[0] != "DZ"@[0]);
        reveal_strlit("LY");
        assert("SE"@[0] != "LY"@[0]);
    }
    assert(spec_classify_jurisdiction("NO"@) == (JurisdictionRisk::Low, 10u8)) by {
        reveal_strlit("NO");
        reveal_strlit("IR");
        assert("NO"@[0] != "IR"@[0]);
        reveal_strlit("PRK");
        assert("NO"@[0] != "PRK"@[0]);
        reveal_strlit("KP");
        assert("NO"@[0] != "KP"@[0]);
        reveal_strlit("MM");
        assert("NO"@[0] != "MM"@[0]);
        reveal_strlit("KY");
        assert("NO"@[0] != "KY"@[0]);
        reveal_strlit("PA");
        assert("NO"@[0] != "PA"@[0]);
        reveal_strlit("BZ");
        assert("NO"@[0] != "BZ"@[0]);
        reveal_strlit("UZ");
        assert("NO"@[0] != "UZ"@[0]);
        reveal_strlit("PH");
        assert("NO"@[0] != "PH"@[0]);
        reveal_strlit("ZA");
        assert("NO"@[0] != "ZA"@[0]);
        reveal_strlit("SS");
        assert("NO"@[0] != "SS"@[0]);
        reveal_strlit("NG");
        assert("NO"@[1] != "NG"@[1]);
        reveal_strlit("YE");
        assert("NO"@[0] != "YE"@[0]);
        reveal_strlit("CU");
        assert("NO"@[0] != "CU"@[0]);
        reveal_strlit("SY");
        assert("NO"@[0] != "SY"@[0]);
        reveal_strlit("SD");
        assert("NO"@[0] != "SD"@[0]);
        reveal_strlit("BY");
        assert("NO"@[0] != "BY"@[0]);
        reveal_strlit("RU");
        assert("NO"@[0] != "RU"@[0]);
        reveal_strlit("VE");
        assert("NO"@[0] != "VE"@[0]);
        reveal_strlit("CF");
        assert("NO"@[0] != "CF"@[0]);
        reveal_strlit("CD");
        assert("NO"@[0] != "CD"@[0]);
        reveal_strlit("IQ");
        assert("NO"@[0] != "IQ"@[0]);
        reveal_strlit("LB");
        assert("NO"@[0] != "LB"@[0]);
        reveal_strlit("LR");
        assert("NO"@[0] != "LR"@[0]);
        reveal_strlit("SO");
        assert("NO"@[0] != "SO"@[0]);
        reveal_strlit("ZW");
        assert("NO"@[0] != "ZW"@[0]);
        reveal_strlit("AE");
        assert("NO"@[0] != "AE"@[0]);
        reveal_strlit("SA");
        assert("NO"@[0] != "SA"@[0]);
        reveal_strlit("QA");
        assert("NO"@[0] != "QA"@[0]);
        reveal_strlit("OM");
        assert("NO"@[0] != "OM"@[0]);
        reveal_strlit("BH");
        assert("NO"@[0] != "BH"@[0]);
        reveal_strlit("KW");
        assert("NO"@[0] != "KW"@[0]);
        reveal_strlit("JO");
        assert("NO"@[0] != "JO"@[0]);
        reveal_strlit("EG");
        assert("NO"@[0] != "EG"@[0]);
        reveal_strlit("MA");
        assert("NO"@[0] != "MA"@[0]);
        reveal_strlit("TN");
        assert("NO"@[0] != "TN"@[0]);
        reveal_strlit("DZ");
        assert("NO"@[0] != "DZ"@[0]);
        reveal_strlit("LY");
        assert("NO"@[0] != "LY"@[0]);
    }
    assert(spec_classify_jurisdiction("DK"@) == (JurisdictionRisk::Low, 10u8)) by {
        reveal_strlit("DK");
        reveal_strlit("IR");
        assert("DK"@[0] != "IR"@[0]);
        reveal_strlit("PRK");
        assert("DK"@[0] != "PRK"@[0]);
        reveal_strlit("KP");
        assert("DK"@[0] != "KP"@[0]);
        reveal_strlit("MM");
        assert("DK"@[0] != "MM"@[0]);
        reveal_strlit("KY");
        assert("DK"@[0] != "KY"@[0]);
        reveal_strlit("PA");
        assert("DK"@[0] != "PA"@[0]);
        reveal_strlit("BZ");
        assert("DK"@[0] != "BZ"@[0]);
        reveal_strlit("UZ");
        assert("DK"@[0] != "UZ"@[0]);
        reveal_strlit("PH");
        assert("DK"@[0] != "PH"@[0]);
        reveal_strlit("ZA");
        assert("DK"@[0] != "ZA"@[0]);
        reveal_strlit("SS");
        assert("DK"@[0] != "SS"@[0]);
        reveal_strlit("NG");
        assert("DK"@[0] != "NG"@[0]);
        reveal_strlit("YE");
        assert("DK"@[0] != "YE"@[0]);
        reveal_strlit("CU");
        assert("DK"@[0] != "CU"@[0]);
        reveal_strlit("SY");
        assert("DK"@[0] != "SY"@[0]);
        reveal_strlit("SD");
        assert("DK"@[0] != "SD"@[0]);
        reveal_strlit("BY");
        assert("DK"@[0] != "BY"@[0]);
        reveal_strlit("RU");
        assert("DK"@[0] != "RU"@[0]);
        reveal_strlit("VE");
        assert("DK"@[0] != "VE"@[0]);
        reveal_strlit("CF");
        assert("DK"@[0] != "CF"@[0]);
        reveal_strlit("CD");
        assert("DK"@[0] != "CD"@[0]);
        reveal_strlit("IQ");
        assert("DK"@[0] != "IQ"@[0]);
        reveal_strlit("LB");
        assert("DK"@[0] != "LB"@[0]);
        reveal_strlit("LR");
        assert("DK"@[0] != "LR"@[0]);
        reveal_strlit("SO");
        assert("DK"@[0] != "SO"@[0]);
        reveal_strlit("ZW");
        assert("DK"@[0] != "ZW"@[0]);
        reveal_strlit("AE");
        assert("DK"@[0] != "AE"@[0]);
        reveal_strlit("SA");
        assert("DK"@[0] != "SA"@[0]);
        reveal_strlit("QA");
        assert("DK"@[0] != "QA"@[0]);
        reveal_strlit("OM");
        assert("DK"@[0] != "OM"@[0]);
        reveal_strlit("BH");
        assert("DK"@[0] != "BH"@[0]);
        reveal_strlit("KW");
        assert("DK"@[0] != "KW"@[0]);
        reveal_strlit("JO");
        assert("DK"@[0] != "JO"@[0]);
        reveal_strlit("EG");
        assert("DK"@[0] != "EG"@[0]);
        reveal_strlit("MA");
        assert("DK"@[0] != "MA"@[0]);
        reveal_strlit("TN");
        assert("DK"@[0] != "TN"@[0]);
        reveal_strlit("DZ");
        assert("DK"@[1] != "DZ"@[1]);
        reveal_strlit("LY");
        assert("DK"@[0] != "LY"@[0]);
    }
    assert(spec_classify_jurisdiction("FI"@) == (JurisdictionRisk::Low, 10u8)) by {
        reveal_strlit("FI");
        reveal_strlit("IR");
        assert("FI"@[0] != "IR"@[0]);
        reveal_strlit("PRK");
        assert("FI"@[0] != "PRK"@[0]);
        reveal_strlit("KP");
        assert("FI"@[0] != "KP"@[0]);
        reveal_strlit("MM");
        assert("FI"@[0] != "MM"@[0]);
        reveal_strlit("KY");
        assert("FI"@[0] != "KY"@[0]);
        reveal_strlit("PA");
        assert("FI"@[0] != "PA"@[0]);
        reveal_strlit("BZ");
        assert("FI"@[0] != "BZ"@[0]);
        reveal_strlit("UZ");
        assert("FI"@[0] != "UZ"@[0]);
        reveal_strlit("PH");
        assert("FI"@[0] != "PH"@[0]);
        reveal_strlit("ZA");
        assert("FI"@[0] != "ZA"@[0]);
        reveal_strlit("SS");
        assert("FI"@[0] != "SS"@[0]);
        reveal_strlit("NG");
        assert("FI"@[0] != "NG"@[0]);
        reveal_strlit("YE");
        assert("FI"@[0] != "YE"@[0]);
        reveal_strlit("CU");
        assert("FI"@[0] != "CU"@[0]);
        reveal_strlit("SY");
        assert("FI"@[0] != "SY"@[0]);
        reveal_strlit("SD");
        assert("FI"@[0] != "SD"@[0]);
        reveal_strlit("BY");
        assert("FI"@[0] != "BY"@[0]);
        reveal_strlit("RU");
        assert("FI"@[0] != "RU"@[0]);
        reveal_strlit("VE");
        assert("FI"@[0] != "VE"@[0]);
        reveal_strlit("CF");
        assert("FI"@[0] != "CF"@[0]);
        reveal_strlit("CD");
        assert("FI"@[0] != "CD"@[0]);
        reveal_strlit("IQ");
        assert("FI"@[0] != "IQ"@[0]);
        reveal_strlit("LB");
        assert("FI"@[0] != "LB"@[0]);
        reveal_strlit("LR");
        assert("FI"@[0] != "LR"@[0]);
        reveal_strlit("SO");
        assert("FI"@[0] != "SO"@[0]);
        reveal_strlit("ZW");
        assert("FI"@[0] != "ZW"@[0]);
        reveal_strlit("AE");
        assert("FI"@[0] != "AE"@[0]);
        reveal_strlit("SA");
        assert("FI"@[0] != "SA"@[0]);
        reveal_strlit("QA");
        assert("FI"@[0] != "QA"@[0]);
        reveal_strlit("OM");
        assert("FI"@[0] != "OM"@[0]);
        reveal_strlit("BH");
        assert("FI"@[0] != "BH"@[0]);
        reveal_strlit("KW");
        assert("FI"@[0] != "KW"@[0]);
        reveal_strlit("JO");
        assert("FI"@[0] != "JO"@[0]);
        reveal_strlit("EG");
        assert("FI"@[0] != "EG"@[0]);
        reveal_strlit("MA");
        assert("FI"@[0] != "MA"@[0]);
        reveal_strlit("TN");
        assert("FI"@[0] != "TN"@[0]);
        reveal_strlit("DZ");
        assert("FI"@[0] != "DZ"@[0]);
        reveal_strlit("LY");
        assert("FI"@[0] != "LY"@[0]);
    }
    assert(spec_classify_jurisdiction("IE"@) == (JurisdictionRisk::Low, 10u8)) by {
        reveal_strlit("IE");
        reveal_strlit("IR");
        assert("IE"@[1] != "IR"@[1]);
        reveal_strlit("PRK");
        assert("IE"@[0] != "PRK"@[0]);
        reveal_strlit("KP");
        assert("IE"@[0] != "KP"@[0]);
        reveal_strlit("MM");
        assert("IE"@[0] != "MM"@[0]);
        reveal_strlit("KY");
        assert("IE"@[0] != "KY"@[0]);
        reveal_strlit("PA");
        assert("IE"@[0] != "PA"@[0]);
        reveal_strlit("BZ");
        assert("IE"@[0] != "BZ"@[0]);
        reveal_strlit("UZ");
        assert("IE"@[0] != "UZ"@[0]);
        reveal_strlit("PH");
        assert("IE"@[0] != "PH"@[0]);
        reveal_strlit("ZA");
        assert("IE"@[0] != "ZA"@[0]);
        reveal_strlit("SS");
        assert("IE"@[0] != "SS"@[0]);
        reveal_strlit("NG");
        assert("IE"@[0] != "NG"@[0]);
        reveal_strlit("YE");
        assert("IE"@[0] != "YE"@[0]);
        reveal_strlit("CU");
        assert("IE"@[0] != "CU"@[0]);
        reveal_strlit("SY");
        assert("IE"@[0] != "SY"@[0]);
        reveal_strlit("SD");
        assert("IE"@[0] != "SD"@[0]);
        reveal_strlit("BY");
        assert("IE"@[0] != "BY"@[0]);
        reveal_strlit("RU");
        assert("IE"@[0] != "RU"@[0]);
        reveal_strlit("VE");
        assert("IE"@[0] != "VE"@[0]);
        reveal_strlit("CF");
        assert("IE"@[0] != "CF"@[0]);
        reveal_strlit("CD");
        assert("IE"@[0] != "CD"@[0]);
        reveal_strlit("IQ");
        assert("IE"@[1] != "IQ"@[1]);
        reveal_strlit("LB");
        assert("IE"@[0] != "LB"@[0]);
        reveal_strlit("LR");
        assert("IE"@[0] != "LR"@[0]);
        reveal_strlit("SO");
        assert("IE"@[0] != "SO"@[0]);
        reveal_strlit("ZW");
        assert("IE"@[0] != "ZW"@[0]);
        reveal_strlit("AE");
        assert("IE"@[0] != "AE"@[0]);
        reveal_strlit("SA");
        assert("IE"@[0] != "SA"@[0]);
        reveal_strlit("QA");
        assert("IE"@[0] != "QA"@[0]);
        reveal_strlit("OM");
        assert("IE"@[0] != "OM"@[0]);
        reveal_strlit("BH");
        assert("IE"@[0] != "BH"@[0]);
        reveal_strlit("KW");
        assert("IE"@[0] != "KW"@[0]);
        reveal_strlit("JO");
        assert("IE"@[0] != "JO"@[0]);
        reveal_strlit("EG");
        assert("IE"@[0] != "EG"@[0]);
        reveal_strlit("MA");
        assert("IE"@[0] != "MA"@[0]);
        reveal_strlit("TN");
        assert("IE"@[0] != "TN"@[0]);
        reveal_strlit("DZ");
        assert("IE"@[0] != "DZ"@[0]);
        reveal_strlit("LY");
        assert("IE"@[0] != "LY"@[0]);
    }
    assert(spec_classify_jurisdiction("BE"@) == (JurisdictionRisk::Low, 10u8)) by {
        reveal_strlit("BE");
        reveal_strlit("IR");
        assert("BE"@[0] != "IR"@[0]);
        reveal_strlit("PRK");
        assert("BE"@[0] != "PRK"@[0]);
        reveal_strlit("KP");
        assert("BE"@[0] != "KP"@[0]);
        reveal_strlit("MM");
        assert("BE"@[0] != "MM"@[0]);
        reveal_strlit("KY");
        assert("BE"@[0] != "KY"@[0]);
        reveal_strlit("PA");
        assert("BE"@[0] != "PA"@[0]);
        reveal_strlit("BZ");
        assert("BE"@[1] != "BZ"@[1]);
        reveal_strlit("UZ");
        assert("BE"@[0] != "UZ"@[0]);
        reveal_strlit("PH");
        assert("BE"@[0] != "PH"@[0]);
        reveal_strlit("ZA");
        assert("BE"@[0] != "ZA"@[0]);
        reveal_strlit("SS");
        assert("BE"@[0] != "SS"@[0]);
        reveal_strlit("NG");
        assert("BE"@[0] != "NG"@[0]);
        reveal_strlit("YE");
        assert("BE"@[0] != "YE"@[0]);
        reveal_strlit("CU");
        assert("BE"@[0] != "CU"@[0]);
        reveal_strlit("SY");
        assert("BE"@[0] != "SY"@[0]);
        reveal_strlit("SD");
        assert("BE"@[0] != "SD"@[0]);
        reveal_strlit("BY");
        assert("BE"@[1] != "BY"@[1]);
        reveal_strlit("RU");
        assert("BE"@[0] != "RU"@[0]);
        reveal_strlit("VE");
        assert("BE"@[0] != "VE"@[0]);
        reveal_strlit("CF");
        assert("BE"@[0] != "CF"@[0]);
        reveal_strlit("CD");
        assert("BE"@[0] != "CD"@[0]);
        reveal_strlit("IQ");
        assert("BE"@[0] != "IQ"@[0]);
        reveal_strlit("LB");
        assert("BE"@[0] != "LB"@[0]);
        reveal_strlit("LR");
        assert("BE"@[0] != "LR"@[0]);
        reveal_strlit("SO");
        assert("BE"@[0] != "SO"@[0]);
        reveal_strlit("ZW");
        assert("BE"@[0] != "ZW"@[0]);
        reveal_strlit("AE");
        assert("BE"@[0] != "AE"@[0]);
        reveal_strlit("SA");
        assert("BE"@[0] != "SA"@[0]);
        reveal_strlit("QA");
        assert("BE"@[0] != "QA"@[0]);
        reveal_strlit("OM");
        assert("BE"@[0] != "OM"@[0]);
        reveal_strlit("BH");
        assert("BE"@[1] != "BH"@[1]);
        reveal_strlit("KW");
        assert("BE"@[0] != "KW"@[0]);
        reveal_strlit("JO");
        assert("BE"@[0] != "JO"@[0]);
        reveal_strlit("EG");
        assert("BE"@[0] != "EG"@[0]);
        reveal_strlit("MA");
        assert("BE"@[0] != "MA"@[0]);
        reveal_strlit("TN");
        assert("BE"@[0] != "TN"@[0]);
        reveal_strlit("DZ");
        assert("BE"@[0] != "DZ"@[0]);
        reveal_strlit("LY");
        assert("BE"@[0] != "LY"@[0]);
    }
    assert(spec_classify_jurisdiction("AT"@) == (JurisdictionRisk::Low, 10u8)) by {
        reveal_strlit("AT");
        reveal_strlit("IR");
        assert("AT"@[0] != "IR"@[0]);
        reveal_strlit("PRK");
        assert("AT"@[0] != "PRK"@[0]);
        reveal_strlit("KP");
        assert("AT"@[0] != "KP"@[0]);
        reveal_strlit("MM");
        assert("AT"@[0] != "MM"@[0]);
        reveal_strlit("KY");
        assert("AT"@[0] != "KY"@[0]);
        reveal_strlit("PA");
        assert("AT"@[0] != "PA"@[0]);
        reveal_strlit("BZ");
        assert("AT"@[0] != "BZ"@[0]);
        reveal_strlit("UZ");
        assert("AT"@[0] != "UZ"@[0]);
        reveal_strlit("PH");
        assert("AT"@[0] != "PH"@[0]);
        reveal_strlit("ZA");
        assert("AT"@[0] != "ZA"@[0]);
        reveal_strlit("SS");
        assert("AT"@[0] != "SS"@[0]);
        reveal_strlit("NG");
        assert("AT"@[0] != "NG"@[0]);
        reveal_strlit("YE");
        assert("AT"@[0] != "YE"@[0]);
        reveal_strlit("CU");
        assert("AT"@[0] != "CU"@[0]);
        reveal_strlit("SY");
        assert("AT"@[0] != "SY"@[0]);
        reveal_strlit("SD");
        assert("AT"@[0] != "SD"@[0]);
        reveal_strlit("BY");
        assert("AT"@[0] != "BY"@[0]);
        reveal_strlit("RU");
        assert("AT"@[0] != "RU"@[0]);
        reveal_strlit("VE");
        assert("AT"@[0] != "VE"@[0]);
        reveal_strlit("CF");
        assert("AT"@[0] != "CF"@[0]);
        reveal_strlit("CD");
        assert("AT"@[0] != "CD"@[0]);
        reveal_strlit("IQ");
        assert("AT"@[0] != "IQ"@[0]);
        reveal_strlit("LB");
        assert("AT"@[0] != "LB"@[0]);
        reveal_strlit("LR");
        assert("AT"@[0] != "LR"@[0]);
        reveal_strlit("SO");
        assert("AT"@[0] != "SO"@[0]);
        reveal_strlit("ZW");
        assert("AT"@[0] != "ZW"@[0]);
        reveal_strlit("AE");
        assert("AT"@[1] != "AE"@[1]);
        reveal_strlit("SA");
        assert("AT"@[0] != "SA"@[0]);
        reveal_strlit("QA");
        assert("AT"@[0] != "QA"@[0]);
        reveal_strlit("OM");
        assert("AT"@[0] != "OM"@[0]);
        reveal_strlit("BH");
        assert("AT"@[0] != "BH"@[0]);
        reveal_strlit("KW");
        assert("AT"@[0] != "KW"@[0]);
        reveal_strlit("JO");
        assert("AT"@[0] != "JO"@[0]);
        reveal_strlit("EG");
        assert("AT"@[0] != "EG"@[0]);
        reveal_strlit("MA");
        assert("AT"@[0] != "MA"@[0]);
        reveal_strlit("TN");
        assert("AT"@[0] != "TN"@[0]);
        reveal_strlit("DZ");
        assert("AT"@[0] != "DZ"@[0]);
        reveal_strlit("LY");
        assert("AT"@[0] != "LY"@[0]);
    }
    assert(spec_classify_jurisdiction("LU"@) == (JurisdictionRisk::Low, 10u8)) by {
        reveal_strlit("LU");
        reveal_strlit("IR");
        assert("LU"@[0] != "IR"@[0]);
        reveal_strlit("PRK");
        assert("LU"@[0] != "PRK"@[0]);
        reveal_strlit("KP");
        assert("LU"@[0] != "KP"@[0]);
        reveal_strlit("MM");
        assert("LU"@[0] != "MM"@[0]);
        reveal_strlit("KY");
        assert("LU"@[0] != "KY"@[0]);
        reveal_strlit("PA");
        assert("LU"@[0] != "PA"@[0]);
        reveal_strlit("BZ");
        assert("LU"@[0] != "BZ"@[0]);
        reveal_strlit("UZ");
        assert("LU"@[0] != "UZ"@[0]);
        reveal_strlit("PH");
        assert("LU"@[0] != "PH"@[0]);
        reveal_strlit("ZA");
        assert("LU"@[0] != "ZA"@[0]);
        reveal_strlit("SS");
        assert("LU"@[0] != "SS"@[0]);
        reveal_strlit("NG");
        assert("LU"@[0] != "NG"@[0]);
        reveal_strlit("YE");
        assert("LU"@[0] != "YE"@[0]);
        reveal_strlit("CU");
        assert("LU"@[0] != "CU"@[0]);
        reveal_strlit("SY");
        assert("LU"@[0] != "SY"@[0]);
        reveal_strlit("SD");
        assert("LU"@[0] != "SD"@[0]);
        reveal_strlit("BY");
        assert("LU"@[0] != "BY"@[0]);
        reveal_strlit("RU");
        assert("LU"@[0] != "RU"@[0]);
        reveal_strlit("VE");
        assert("LU"@[0] != "VE"@[0]);
        reveal_strlit("CF");
        assert("LU"@[0] != "CF"@[0]);
        reveal_strlit("CD");
        assert("LU"@[0] != "CD"@[0]);
        reveal_strlit("IQ");
        assert("LU"@[0] != "IQ"@[0]);
        reveal_strlit("LB");
        assert("LU"@[1] != "LB"@[1]);
        reveal_strlit("LR");
        assert("LU"@[1] != "LR"@[1]);
        reveal_strlit("SO");
        assert("LU"@[0] != "SO"@[0]);
        reveal_strlit("ZW");
        assert("LU"@[0] != "ZW"@[0]);
        reveal_strlit("AE");
        assert("LU"@[0] != "AE"@[0]);
        reveal_strlit("SA");
        assert("LU"@[0] != "SA"@[0]);
        reveal_strlit("QA");
        assert("LU"@[0] != "QA"@[0]);
        reveal_strlit("OM");
        assert("LU"@[0] != "OM"@[0]);
        reveal_strlit("BH");
        assert("LU"@[0] != "BH"@[0]);
        reveal_strlit("KW");
        assert("LU"@[0] != "KW"@[0]);
        reveal_strlit("JO");
        assert("LU"@[0] != "JO"@[0]);
        reveal_strlit("EG");
        assert("LU"@[0] != "EG"@[0]);
        reveal_strlit("MA");
        assert("LU"@[0] != "MA"@[0]);
        reveal_strlit("TN");
        assert("LU"@[0] != "TN"@[0]);
        reveal_strlit("DZ");
        assert("LU"@[0] != "DZ"@[0]);
        reveal_strlit("LY");
        assert("LU"@[1] != "LY"@[1]);
    }
    assert(spec_classify_jurisdiction("IT"@) == (JurisdictionRisk::Low, 10u8)) by {
        reveal_strlit("IT");
        reveal_strlit("IR");
        assert("IT"@[1] != "IR"@[1]);
        reveal_strlit("PRK");
        assert("IT"@[0] != "PRK"@[0]);
        reveal_strlit("KP");
        assert("IT"@[0] != "KP"@[0]);
        reveal_strlit("MM");
        assert("IT"@[0] != "MM"@[0]);
        reveal_strlit("KY");
        assert("IT"@[0] != "KY"@[0]);
        reveal_strlit("PA");
        assert("IT"@[0] != "PA"@[0]);
        reveal_strlit("BZ");
        assert("IT"@[0] != "BZ"@[0]);
        reveal_strlit("UZ");
        assert("IT"@[0] != "UZ"@[0]);
        reveal_strlit("PH");
        assert("IT"@[0] != "PH"@[0]);
        reveal_strlit("ZA");
        assert("IT"@[0] != "ZA"@[0]);
        reveal_strlit("SS");
        assert("IT"@[0] != "SS"@[0]);
        reveal_strlit("NG");
        assert("IT"@[0] != "NG"@[0]);
        reveal_strlit("YE");
        assert("IT"@[0] != "YE"@[0]);
        reveal_strlit("CU");
        assert("IT"@[0] != "CU"@[0]);
        reveal_strlit("SY");
        assert("IT"@[0] != "SY"@[0]);
        reveal_strlit("SD");
        assert("IT"@[0] != "SD"@[0]);
        reveal_strlit("BY");
        assert("IT"@[0] != "BY"@[0]);
        reveal_strlit("RU");
        assert("IT"@[0] != "RU"@[0]);
        reveal_strlit("VE");
        assert("IT"@[0] != "VE"@[0]);
        reveal_strlit("CF");
        assert("IT"@[0] != "CF"@[0]);
        reveal_strlit("CD");
        assert("IT"@[0] != "CD"@[0]);
        reveal_strlit("IQ");
        assert("IT"@[1] != "IQ"@[1]);
        reveal_strlit("LB");
        assert("IT"@[0] != "LB"@[0]);
        reveal_strlit("LR");
        assert("IT"@[0] != "LR"@[0]);
        reveal_strlit("SO");
        assert("IT"@[0] != "SO"@[0]);
        reveal_strlit("ZW");
        assert("IT"@[0] != "ZW"@[0]);
        reveal_strlit("AE");
        assert("IT"@[0] != "AE"@[0]);
        reveal_strlit("SA");
        assert("IT"@[0] != "SA"@[0]);
        reveal_strlit("QA");
        assert("IT"@[0] != "QA"@[0]);
        reveal_strlit("OM");
        assert("IT"@[0] != "OM"@[0]);
        reveal_strlit("BH");
        assert("IT"@[0] != "BH"@[0]);
        reveal_strlit("KW");
        assert("IT"@[0] != "KW"@[0]);
        reveal_strlit("JO");
        assert("IT"@[0] != "JO"@[0]);
        reveal_strlit("EG");
        assert("IT"@[0] != "EG"@[0]);
        reveal_strlit("MA");
        assert("IT"@[0] != "MA"@[0]);
        reveal_strlit("TN");
        assert("IT"@[0] != "TN"@[0]);
        reveal_strlit("DZ");
        assert("IT"@[0] != "DZ"@[0]);
        reveal_strlit("LY");
        assert("IT"@[0] != "LY"@[0]);
    }
    assert(spec_classify_jurisdiction("ES"@) == (JurisdictionRisk::Low, 10u8)) by {
        reveal_strlit("ES");
        reveal_strlit("IR");
        assert("ES"@[0] != "IR"@[0]);
        reveal_strlit("PRK");
        assert("ES"@[0] != "PRK"@[0]);
        reveal_strlit("KP");
        assert("ES"@[0] != "KP"@[0]);
        reveal_strlit("MM");
        assert("ES"@[0] != "MM"@[0]);
        reveal_strlit("KY");
        assert("ES"@[0] != "KY"@[0]);
        reveal_strlit("PA");
        assert("ES"@[0] != "PA"@[0]);
        reveal_strlit("BZ");
        assert("ES"@[0] != "BZ"@[0]);
        reveal_strlit("UZ");
        assert("ES"@[0] != "UZ"@[0]);
        reveal_strlit("PH");
        assert("ES"@[0] != "PH"@[0]);
        reveal_strlit("ZA");
        assert("ES"@[0] != "ZA"@[0]);
        reveal_strlit("SS");
        assert("ES"@[0] != "SS"@[0]);
        reveal_strlit("NG");
        assert("ES"@[0] != "NG"@[0]);
        reveal_strlit("YE");
        assert("ES"@[0] != "YE"@[0]);
        reveal_strlit("CU");
        assert("ES"@[0] != "CU"@[0]);
        reveal_strlit("SY");
        assert("ES"@[0] != "SY"@[0]);
        reveal_strlit("SD");
        assert("ES"@[0] != "SD"@[0]);
        reveal_strlit("BY");
        assert("ES"@[0] != "BY"@[0]);
        reveal_strlit("RU");
        assert("ES"@[0] != "RU"@[0]);
        reveal_strlit("VE");
        assert("ES"@[0] != "VE"@[0]);
        reveal_strlit("CF");
        assert("ES"@[0] != "CF"@[0]);
        reveal_strlit("CD");
        assert("ES"@[0] != "CD"@[0]);
        reveal_strlit("IQ");
        assert("ES"@[0] != "IQ"@[0]);
        reveal_strlit("LB");
        assert("ES"@[0] != "LB"@[0]);
        reveal_strlit("LR");
        assert("ES"@[0] != "LR"@[0]);
        reveal_strlit("SO");
        assert("ES"@[0] != "SO"@[0]);
        reveal_strlit("ZW");
        assert("ES"@[0] != "ZW"@[0]);
        reveal_strlit("AE");
        assert("ES"@[0] != "AE"@[0]);
        reveal_strlit("SA");
        assert("ES"@[0] != "SA"@[0]);
        reveal_strlit("QA");
        assert("ES"@[0] != "QA"@[0]);
        reveal_strlit("OM");
        assert("ES"@[0] != "OM"@[0]);
        reveal_strlit("BH");
        assert("ES"@[0] != "BH"@[0]);
        reveal_strlit("KW");
        assert("ES"@[0] != "KW"@[0]);
        reveal_strlit("JO");
        assert("ES"@[0] != "JO"@[0]);
        reveal_strlit("EG");
        assert("ES"@[1] != "EG"@[1]);
        reveal_strlit("MA");
        assert("ES"@[0] != "MA"@[0]);
        reveal_strlit("TN");
        assert("ES"@[0] != "TN"@[0]);
        reveal_strlit("DZ");
        assert("ES"@[0] != "DZ"@[0]);
        reveal_strlit("LY");
        assert("ES"@[0] != "LY"@[0]);
    }
    assert(spec_classify_jurisdiction("PT"@) == (JurisdictionRisk::Low, 10u8)) by {
        reveal_strlit("PT");
        reveal_strlit("IR");
        assert("PT"@[0] != "IR"@[0]);
        reveal_strlit("PRK");
        assert("PT"@[1] != "PRK"@[1]);
        reveal_strlit("KP");
        assert("PT"@[0] != "KP"@[0]);
        reveal_strlit("MM");
        assert("PT"@[0] != "MM"@[0]);
        reveal_strlit("KY");
        assert("PT"@[0] != "KY"@[0]);
        reveal_strlit("PA");
        assert("PT"@[1] != "PA"@[1]);
        reveal_strlit("BZ");
        assert("PT"@[0] != "BZ"@[0]);
        reveal_strlit("UZ");
        assert("PT"@[0] != "UZ"@[0]);
        reveal_strlit("PH");
        assert("PT"@[1] != "PH"@[1]);
        reveal_strlit("ZA");
        assert("PT"@[0] != "ZA"@[0]);
        reveal_strlit("SS");
        assert("PT"@[0] != "SS"@[0]);
        reveal_strlit("NG");
        assert("PT"@[0] != "NG"@[0]);
        reveal_strlit("YE");
        assert("PT"@[0] != "YE"@[0]);
        reveal_strlit("CU");
        assert("PT"@[0] != "CU"@[0]);
        reveal_strlit("SY");
        assert("PT"@[0] != "SY"@[0]);
        reveal_strlit("SD");
        assert("PT"@[0] != "SD"@[0]);
        reveal_strlit("BY");
        assert("PT"@[0] != "BY"@[0]);
        reveal_strlit("RU");
        assert("PT"@[0] != "RU"@[0]);
        reveal_strlit("VE");
        assert("PT"@[0] != "VE"@[0]);
        reveal_strlit("CF");
        assert("PT"@[0] != "CF"@[0]);
        reveal_strlit("CD");
        assert("PT"@[0] != "CD"@[0]);
        reveal_strlit("IQ");
        assert("PT"@[0] != "IQ"@[0]);
        reveal_strlit("LB");
        assert("PT"@[0] != "LB"@[0]);
        reveal_strlit("LR");
        assert("PT"@[0] != "LR"@[0]);
        reveal_strlit("SO");
        assert("PT"@[0] != "SO"@[0]);
        reveal_strlit("ZW");
        assert("PT"@[0] != "ZW"@[0]);
        reveal_strlit("AE");
        assert("PT"@[0] != "AE"@[0]);
        reveal_strlit("SA");
        assert("PT"@[0] != "SA"@[0]);
        reveal_strlit("QA");
        assert("PT"@[0] != "QA"@[0]);
        reveal_strlit("OM");
        assert("PT"@[0] != "OM"@[0]);
        reveal_strlit("BH");
        assert("PT"@[0] != "BH"@[0]);
        reveal_strlit("KW");
        assert("PT"@[0] != "KW"@[0]);
        reveal_strlit("JO");
        assert("PT"@[0] != "JO"@[0]);
        reveal_strlit("EG");
        assert("PT"@[0] != "EG"@[0]);
        reveal_strlit("MA");
        assert("PT"@[0] != "MA"@[0]);
        reveal_strlit("TN");
        assert("PT"@[0] != "TN"@[0]);
        reveal_strlit("DZ");
        assert("PT"@[0] != "DZ"@[0]);
        reveal_strlit("LY");
        assert("PT"@[0] != "LY"@[0]);
    }
}

/// The countries under comprehensive sanctions.
pub open spec fn sanctioned_country_codes() -> Seq<Seq<char>> {
    seq!["IR"@, "PRK"@, "KP"@, "CU"@, "SY"@, "SD"@, "BY"@, "RU"@, "VE"@, "CF"@, "CD"@, "IQ"@, "LB"@, "LR"@, "SO"@, "SS"@, "ZW"@, "YE"@, "MM"@, "KY"@]
}

/// The names of the sanctioned entities on the reference list, in order.
pub open spec fn sanctioned_entity_names() -> Seq<Seq<char>> {
    seq!["AL QAEDA"@, "TALIBAN"@, "ISLAMIC STATE OF IRAQ AND SYRIA"@, "HAMAS"@, "HEZBOLLAH"@, "KOREAN PEOPLE'S ARMY"@, "IRANIAN REVOLUTIONARY GUARD CORPS"@, "RUSSIAN FEDERATION CENTRAL BANK"@, "GRU"@, "FSB"@, "VLADIMIR PUTIN"@, "KIM JONG UN"@, "BASHAR AL ASSAD"@]
}

/// The sanctions program each listed entity falls under, in list order.
pub open spec fn sanctioned_entity_programs() -> Seq<Seq<char>> {
    seq!["OFAC_SDN"@, "OFAC_SDN"@, "OFAC_SDN"@, "OFAC_SDN"@, "OFAC_SDN"@, "OFAC_SDN"@, "OFAC_SDN"@, "OFAC_UKRAINE_RELATED"@, "OFAC_UKRAINE_RELATED"@, "OFAC_UKRAINE_RELATED"@, "OFAC_UKRAINE_RELATED"@, "OFAC_SDN"@, "OFAC_SDN"@]
}

/// The aliases of each listed entity, in list order.
pub open spec fn sanctioned_entity_aliases() -> Seq<Seq<Seq<char>>> {
    seq![seq!["AL QAIDA"@, "THE BASE"@, "ISLAMIC ARMY"@],
        seq!["ISLAMIC EMIRATE OF AFGHANISTAN"@, "IEA"@],
        seq!["ISIS"@, "ISIL"@, "DAESH"@, "ISLAMIC STATE"@],
        seq!["HARAKAT AL-MUQAWAMAH AL-ISLAMIYAH"@, "ISLAMIC RESISTANCE MOVEMENT"@],
        seq!["HIZBALLAH"@, "PARTY OF GOD"@, "ISLAMIC JIHAD ORGANIZATION"@],
        seq!["KPA"@, "NORTH KOREAN ARMY"@],
        seq!["IRGC"@, "PASDARAN"@, "SEPAH"@],
        seq!["BANK OF RUSSIA"@, "ЦБ РФ"@],
        seq!["MAIN INTELLIGENCE DIRECTORATE"@, "ГРУ"@, "GU"@],
        seq!["FEDERAL SECURITY SERVICE"@, "ФСБ"@, "KGB"@],
        seq!["VLADIMIR VLADIMIROVICH PUTIN"@, "PUTIN V V"@],
        seq!["KIM JONG-EUN"@, "KIM JONG UN"@, "KIM JONG WUN"@],
        seq!["BASHAR HAFEZ AL-ASSAD"@, "BASHAR AL-ASSAD"@, "DR BASHAR AL ASSAD"@]]
}

/// The kind of each listed entity, in list order.
pub open spec fn sanctioned_entity_types() -> Seq<SanctionType> {
    seq![SanctionType::Entity, SanctionType::Entity, SanctionType::Entity, SanctionType::Entity, SanctionType::Entity, SanctionType::Entity, SanctionType::Entity, SanctionType::Entity, SanctionType::Entity, SanctionType::Entity, SanctionType::Individual, SanctionType::Individual, SanctionType::Individual]
}

/// The jurisdiction of each listed entity (none for one listed without a
/// country), in list order.
pub open spec fn sanctioned_entity_jurisdictions() -> Seq<Option<Seq<char>>> {
    seq![None, Some("AF"@), Some("IQ"@), Some("PS"@), Some("LB"@), Some("KP"@), Some("IR"@), Some("RU"@), Some("RU"@), Some("RU"@), Some("RU"@), Some("KP"@), Some("SY"@)]
}

/// When each listed entity was listed, in milliseconds since the Unix
/// epoch, in list order.
pub open spec fn sanctioned_entity_dates() -> Seq<i64> {
    seq![946684800000i64, 946684800000i64, 1388534400000i64, 946684800000i64, 946684800000i64, 946684800000i64, 1262304000000i64, 1646198400000i64, 1643691600000i64, 1643691600000i64, 1646198400000i64, 1325376000000i64, 1341100800000i64]
}

/// The text of each `&str` of a list.
pub open spec fn strs_view(v: Seq<&str>) -> Seq<Seq<char>> {
    v.map_values(|x: &str| x@)
}

/// The text of an optional string.
pub open spec fn opt_text(o: Option<String>) -> Option<Seq<char>> {
    match o {
        Some(t) => Some(t@),
        None => None,
    }
}

/// Whether an entity is entry `i` of the reference list: its name, aliases,
/// kind, jurisdiction, program and listing date.
pub open spec fn listed_as(e: SanctionedEntity, i: int) -> bool {
    &&& e.name@ == sanctioned_entity_names()[i]
    &&& texts(e.aliases@) == sanctioned_entity_aliases()[i]
    &&& e.sanction_type == sanctioned_entity_types()[i]
    &&& opt_text(e.jurisdiction) == sanctioned_entity_jurisdictions()[i]
    &&& e.program@ == sanctioned_entity_programs()[i]
    &&& e.listed_at == sanctioned_entity_dates()[i]
}

/// The countries under comprehensive sanctions.
pub fn default_sanctioned_countries() -> (r: Vec<&'static str>)
    ensures
        r@.len() == sanctioned_country_codes().len(),
        forall|i: int| 0 <= i < r@.len() ==> #[trigger] r@[i]@ == sanctioned_country_codes()[i],
{
    let mut v: Vec<&'static str> = Vec::new();
    v.push("IR");
    v.push("PRK");
    v.push("KP");
    v.push("CU");
    v.push("SY");
    v.push("SD");
    v.push("BY");
    v.push("RU");
    v.push("VE");
    v.push("CF");
    v.push("CD");
    v.push("IQ");
    v.push("LB");
    v.push("LR");
    v.push("SO");
    v.push("SS");
    v.push("ZW");
    v.push("YE");
    v.push("MM");
    v.push("KY");
    v
}

fn owned_all(items: &[&str]) -> (r: Vec<String>)
    ensures
        r@.len() == items@.len(),
        forall|i: int| 0 <= i < r@.len() ==> #[trigger] r@[i]@ == items@[i]@,
{
    let mut v: Vec<String> = Vec::new();
    let mut i: usize = 0;
    while i < items.len()
        invariant
            i <= items@.len(),
            v@.len() == i,
            forall|j: int| 0 <= j < i ==> #[trigger] v@[j]@ == items@[j]@,
        decreases items@.len() - i,
    {
        v.push(owned(items[i]));
        i = i + 1;
    }
    v
}

fn entity(name: &str, aliases: &[&str], sanction_type: SanctionType, jurisdiction: Option<&str>, program: &str, listed_at: i64) -> (r: SanctionedEntity)
    ensures
        r.name@ == name@,
        r.program@ == program@,
        r.sanction_type == sanction_type,
        r.listed_at == listed_at,
        texts(r.aliases@) == strs_view(aliases@),
        opt_text(r.jurisdiction) == match jurisdiction {
            Some(j) => Some(j@),
            None => None::<Seq<char>>,
        },
{
    let names = owned_all(aliases);
    assert(texts(names@) =~= strs_view(aliases@));
    SanctionedEntity {
        name: owned(name),
        aliases: names,
        sanction_type,
        jurisdiction: match jurisdiction {
            Some(j) => Some(owned(j)),
            None => None,
        },
        program: owned(program),
        listed_at,
    }
}

/// The reference list of sanctioned entities and individuals (a
/// representative subset of the OFAC SDN list).
pub fn default_sanctioned_entities() -> (r: Vec<SanctionedEntity>)
    ensures
        r@.len() == sanctioned_entity_names().len(),
        forall|i: int| 0 <= i < r@.len() ==> #[trigger] r@[i].name@ == sanctioned_entity_names()[i],
        forall|i: int| 0 <= i < r@.len() ==> #[trigger] r@[i].program@ == sanctioned_entity_programs()[i],
        forall|i: int| 0 <= i < r@.len() ==> #[trigger] listed_as(r@[i], i),
{
    let mut v: Vec<SanctionedEntity> = Vec::new();
    let a0: [&str; 3] = ["AL QAIDA", "THE BASE", "ISLAMIC ARMY"];
    proof {
        assert(strs_view(a0@) =~= seq!["AL QAIDA"@, "THE BASE"@, "ISLAMIC ARMY"@]);
    }
    v.push(entity("AL QAEDA", &a0, SanctionType::Entity, None, "OFAC_SDN", 946684800000));
    assert(listed_as(v@[0], 0));
    let a1: [&str; 2] = ["ISLAMIC EMIRATE OF AFGHANISTAN", "IEA"];
    proof {
        assert(strs_view(a1@) =~= seq!["ISLAMIC EMIRATE OF AFGHANISTAN"@, "IEA"@]);
    }
    v.push(entity("TALIBAN", &a1, SanctionType::Entity, Some("AF"), "OFAC_SDN", 946684800000));
    assert(listed_as(v@[1], 1));
    let a2: [&str; 4] = ["ISIS", "ISIL", "DAESH", "ISLAMIC STATE"];
    proof {
        assert(strs_view(a2@) =~= seq!["ISIS"@, "ISIL"@, "DAESH"@, "ISLAMIC STATE"@]);
    }
    v.push(entity("ISLAMIC STATE OF IRAQ AND SYRIA", &a2, SanctionType::Entity, Some("IQ"), "OFAC_SDN", 1388534400000));
    assert(listed_as(v@[2], 2));
    let a3: [&str; 2] = ["HARAKAT AL-MUQAWAMAH AL-ISLAMIYAH", "ISLAMIC RESISTANCE MOVEMENT"];
    proof {
        assert(strs_view(a3@) =~= seq!["HARAKAT AL-MUQAWAMAH AL-ISLAMIYAH"@, "ISLAMIC RESISTANCE MOVEMENT"@]);
    }
    v.push(entity("HAMAS", &a3, SanctionType::Entity, Some("PS"), "OFAC_SDN", 946684800000));
    assert(listed_as(v@[3], 3));
    let a4: [&str; 3] = ["HIZBALLAH", "PARTY OF GOD", "ISLAMIC JIHAD ORGANIZATION"];
    proof {
        assert(strs_view(a4@) =~= seq!["HIZBALLAH"@, "PARTY OF GOD"@, "ISLAMIC JIHAD ORGANIZATION"@]);
    }
    v.push(entity("HEZBOLLAH", &a4, SanctionType::Entity, Some("LB"), "OFAC_SDN", 946684800000));
    assert(listed_as(v@[4], 4));
    let a5: [&str; 2] = ["KPA", "NORTH KOREAN ARMY"];
    proof {
        assert(strs_view(a5@) =~= seq!["KPA"@, "NORTH KOREAN ARMY"@]);
    }
    v.push(entity("KOREAN PEOPLE'S ARMY", &a5, SanctionType::Entity, Some("KP"), "OFAC_SDN", 946684800000));
    assert(listed_as(v@[5], 5));
    let a6: [&str; 3] = ["IRGC", "PASDARAN", "SEPAH"];
    proof {
        assert(strs_view(a6@) =~= seq!["IRGC"@, "PASDARAN"@, "SEPAH"@]);
    }
    v.push(entity("IRANIAN REVOLUTIONARY GUARD CORPS", &a6, SanctionType::Entity, Some("IR"), "OFAC_SDN", 1262304000000));
    assert(listed_as(v@[6], 6));
    let a7: [&str; 2] = ["BANK OF RUSSIA", "ЦБ РФ"];
    proof {
        assert(strs_view(a7@) =~= seq!["BANK OF RUSSIA"@, "ЦБ РФ"@]);
    }
    v.push(entity("RUSSIAN FEDERATION CENTRAL BANK", &a7, SanctionType::Entity, Some("RU"), "OFAC_UKRAINE_RELATED", 1646198400000));
    assert(listed_as(v@[7], 7));
    let a8: [&str; 3] = ["MAIN INTELLIGENCE DIRECTORATE", "ГРУ", "GU"];
    proof {
        assert(strs_view(a8@) =~= seq!["MAIN INTELLIGENCE DIRECTORATE"@, "ГРУ"@, "GU"@]);
    }
    v.push(entity("GRU", &a8, SanctionType::Entity, Some("RU"), "OFAC_UKRAINE_RELATED", 1643691600000));
    assert(listed_as(v@[8], 8));
    let a9: [&str; 3] = ["FEDERAL SECURITY SERVICE", "ФСБ", "KGB"];
    proof {
        assert(strs_view(a9@) =~= seq!["FEDERAL SECURITY SERVICE"@, "ФСБ"@, "KGB"@]);
    }
    v.push(entity("FSB", &a9, SanctionType::Entity, Some("RU"), "OFAC_UKRAINE_RELATED", 1643691600000));
    assert(listed_as(v@[9], 9));
    let a10: [&str; 2] = ["VLADIMIR VLADIMIROVICH PUTIN", "PUTIN V V"];
    proof {
        assert(strs_view(a10@) =~= seq!["VLADIMIR VLADIMIROVICH PUTIN"@, "PUTIN V V"@]);
    }
    v.push(entity("VLADIMIR PUTIN", &a10, SanctionType::Individual, Some("RU"), "OFAC_UKRAINE_RELATED", 1646198400000));
    assert(listed_as(v@[10], 10));
    let a11: [&str; 3] = ["KIM JONG-EUN", "KIM JONG UN", "KIM JONG WUN"];
    proof {
        assert(strs_view(a11@) =~= seq!["KIM JONG-EUN"@, "KIM JONG UN"@, "KIM JONG WUN"@]);
    }
    v.push(entity("KIM JONG UN", &a11, SanctionType::Individual, Some("KP"), "OFAC_SDN", 1325376000000));
    assert(listed_as(v@[11], 11));
    let a12: [&str; 3] = ["BASHAR HAFEZ AL-ASSAD", "BASHAR AL-ASSAD", "DR BASHAR AL ASSAD"];
    proof {
        assert(strs_view(a12@) =~= seq!["BASHAR HAFEZ AL-ASSAD"@, "BASHAR AL-ASSAD"@, "DR BASHAR AL ASSAD"@]);
    }
    v.push(entity("BASHAR AL ASSAD", &a12, SanctionType::Individual, Some("SY"), "OFAC_SDN", 1341100800000));
    assert(listed_as(v@[12], 12));
    proof {
        assert forall|i: int| 0 <= i < v@.len() implies #[trigger] listed_as(v@[i], i) by {}
    }
    v
}

/// The verdict of a sanctions check on its points: cleared when under 60,
/// and the score reported capped at 100.
pub fn sanctions_verdict(points: u8) -> (r: (bool, u8))
    ensures
        r.0 == (points < 60),
        r.1 == (if points < 100 { points } else { 100u8 }),
{
    let cleared = points < 60;
    let score = if points < 100 { points } else { 100 };
    (cleared, score)
}

/// One step of a sanctions screen that can match a name, in the order the
/// screen takes them. Indices are into the entity list and its aliases.
#[derive(Debug, Clone, Copy, PartialEq, Eq, Structural)]
pub enum ScreenStep {
    /// The name is a listed entity's name, ignoring case.
    Exact { entity: usize },
    /// The name has the Soundex code of a listed entity's name.
    SoundsLike { entity: usize },
    /// The name has the Soundex code of one of a listed entity's aliases.
    SoundsLikeAlias { entity: usize, alias: usize },
}

/// What a sanctions screen finds before names are compared for similarity:
/// the jurisdiction code as screened (uppercase), whether it is under
/// comprehensive sanctions, the matching steps, and the points so far (90 for
/// a sanctioned country, 100 per exact match and half the FATF risk of the
/// code, added with saturation at 255).
#[derive(Debug, Clone)]
pub struct SanctionsScreen {
    pub jurisdiction: String,
    pub sanctioned_jurisdiction: bool,
    pub steps: Vec<ScreenStep>,
    pub points: u8,
}

/// The steps for the aliases of entity `k`, among the first `n`, whose code
/// is `code`.
pub open spec fn alias_steps(aliases: Seq<String>, k: int, code: Seq<char>, n: int) -> Seq<ScreenStep>
    decreases n,
{
    if n <= 0 {
        Seq::empty()
    } else {
        let init = alias_steps(aliases, k, code, n - 1);
        if spec_soundex(aliases[n - 1]@) == code {
            init.push(ScreenStep::SoundsLikeAlias { entity: k as usize, alias: (n - 1) as usize })
        } else {
            init
        }
    }
}

/// The steps a name takes against entity `k`: an exact match alone, or a
/// match by sound on the name followed by those on the aliases.
pub open spec fn entity_steps(e: SanctionedEntity, k: int, name: Seq<char>) -> Seq<ScreenStep> {
    if str_to_uppercase(e.name@) == str_to_uppercase(name) {
        seq![ScreenStep::Exact { entity: k as usize }]
    } else {
        let code = spec_soundex(name);
        (if spec_soundex(e.name@) == code { seq![ScreenStep::SoundsLike { entity: k as usize }] } else { Seq::empty() })
            + alias_steps(e.aliases@, k, code, e.aliases@.len() as int)
    }
}

/// The steps a name takes against the first `n` entities.
pub open spec fn screen_steps(entities: Seq<SanctionedEntity>, name: Seq<char>, n: int) -> Seq<ScreenStep>
    decreases n,
{
    if n <= 0 {
        Seq::empty()
    } else {
        screen_steps(entities, name, n - 1) + entity_steps(entities[n - 1], n - 1, name)
    }
}

/// The number of exact matches among steps.
pub open spec fn exact_count(steps: Seq<ScreenStep>) -> nat
    decreases steps.len(),
{
    if steps.len() == 0 {
        0
    } else {
        exact_count(steps.drop_last()) + if steps.last() is Exact { 1nat } else { 0nat }
    }
}

/// Exact counts add over concatenation.
pub proof fn lemma_exact_count_add(a: Seq<ScreenStep>, b: Seq<ScreenStep>)
    ensures
        exact_count(a + b) == exact_count(a) + exact_count(b),
    decreases b.len(),
{
    if b.len() > 0 {
        lemma_exact_count_add(a, b.drop_last());
        assert((a + b).drop_last() =~= a + b.drop_last());
    }
}

/// Matches by sound on aliases are never exact.
pub proof fn lemma_alias_steps_not_exact(aliases: Seq<String>, k: int, code: Seq<char>, n: int)
    ensures
        exact_count(alias_steps(aliases, k, code, n)) == 0,
    decreases n,
{
    if n > 0 {
        lemma_alias_steps_not_exact(aliases, k, code, n - 1);
        let init = alias_steps(aliases, k, code, n - 1);
        if spec_soundex(aliases[n - 1]@) == code {
            assert(init.push(ScreenStep::SoundsLikeAlias { entity: k as usize, alias: (n - 1) as usize }).drop_last() =~= init);
        }
    }
}

/// Whether a list of codes holds `code`.
pub open spec fn lists_code(codes: Seq<&'static str>, code: Seq<char>) -> bool {
    exists|i: int| 0 <= i < codes.len() && #[trigger] codes[i]@ == code
}

/// The screen of a name from a jurisdiction against the lists.
pub open spec fn screen_points_of(hit: bool, exact: nat, jurisdiction: Seq<char>) -> u8 {
    let total = (if hit { 90nat } else { 0nat }) + 100 * exact + (spec_classify_jurisdiction(jurisdiction).1 / 2) as nat;
    if total > 255 { 255 } else { total as u8 }
}

/// `u8::saturating_add`, on a running total: adding to the total capped at
/// 255 gives the larger total capped at 255.
proof fn lemma_saturating_total(capped: u8, total: nat, add: nat)
    requires
        capped == (if total > 255 { 255 } else { total }),
        add <= 255,
    ensures
        (if capped + add > 255 { 255 } else { capped + add }) == (if total + add > 255 { 255 } else { total + add }),
{
}

/// The sanctioned countries and entities, and the name screen against them.
#[derive(Debug)]
pub struct SanctionsChecker {
    sanctioned_countries: Vec<&'static str>,
    sanctioned_entities: Vec<SanctionedEntity>,
}

impl SanctionsChecker {
    /// The sanctioned country codes.
    pub closed spec fn countries(&self) -> Seq<&'static str> {
        self.sanctioned_countries@
    }

    /// The sanctioned entities.
    pub closed spec fn entities(&self) -> Seq<SanctionedEntity> {
        self.sanctioned_entities@
    }

    /// The checker over the reference lists.
    pub fn new() -> (r: SanctionsChecker)
        ensures
            r.countries().len() == sanctioned_country_codes().len(),
            forall|i: int| 0 <= i < r.countries().len() ==> #[trigger] r.countries()[i]@ == sanctioned_country_codes()[i],
            r.entities().len() == sanctioned_entity_names().len(),
            forall|i: int| 0 <= i < r.entities().len() ==> #[trigger] r.entities()[i].name@ == sanctioned_entity_names()[i],
            forall|i: int| 0 <= i < r.entities().len() ==> #[trigger] listed_as(r.entities()[i], i),
    {
        SanctionsChecker {
            sanctioned_countries: default_sanctioned_countries(),
            sanctioned_entities: default_sanctioned_entities(),
        }
    }

    /// The sanctioned country codes.
    pub fn sanctioned_countries(&self) -> (r: &Vec<&'static str>)
        ensures
            r@ == self.countries(),
    {
        &self.sanctioned_countries
    }

    /// The sanctioned entities.
    pub fn sanctioned_entities(&self) -> (r: &Vec<SanctionedEntity>)
        ensures
            r@ == self.entities(),
    {
        &self.sanctioned_entities
    }

    /// The steps of entity `k` for a name that is not its exact match.
    fn sound_steps(&self, k: usize, code: &String, out: &mut Vec<ScreenStep>)
        requires
            k < self.entities().len(),
        ensures
            final(out)@ == old(out)@
                + (if spec_soundex(self.entities()[k as int].name@) == code@ { seq![ScreenStep::SoundsLike { entity: k }] } else { Seq::empty() })
                + alias_steps(self.entities()[k as int].aliases@, k as int, code@, self.entities()[k as int].aliases@.len() as int),
    {
        let e = &self.sanctioned_entities[k];
        let entity_code = soundex(e.name.as_str());
        let ghost start = out@;
        if str_eq(entity_code.as_str(), code.as_str()) {
            out.push(ScreenStep::SoundsLike { entity: k });
        }
        let ghost mid = out@;
        let mut m: usize = 0;
        while m < e.aliases.len()
            invariant
                m <= e.aliases@.len(),
                out@ == mid + alias_steps(e.aliases@, k as int, code@, m as int),
            decreases e.aliases@.len() - m,
        {
            let alias_code = soundex(e.aliases[m].as_str());
            if str_eq(alias_code.as_str(), code.as_str()) {
                out.push(ScreenStep::SoundsLikeAlias { entity: k, alias: m });
            }
            proof {
                assert(out@ =~= mid + alias_steps(e.aliases@, k as int, code@, m + 1));
            }
            m = m + 1;
        }
        proof {
            assert(out@ =~= start
                + (if spec_soundex(e.name@) == code@ { seq![ScreenStep::SoundsLike { entity: k }] } else { Seq::empty() })
                + alias_steps(e.aliases@, k as int, code@, e.aliases@.len() as int));
        }
    }

    /// Screens a name from a jurisdiction: the code is taken in uppercase and
    /// looked up among the sanctioned countries; a non-empty name is matched
    /// against each entity, exactly (ignoring case) or else by the Soundex
    /// codes of the entity's name and aliases.
    pub fn screen(&self, jurisdiction: &str, legal_name: &str) -> (r: SanctionsScreen)
        ensures
            r.jurisdiction@ == str_to_uppercase(jurisdiction@),
            r.sanctioned_jurisdiction == lists_code(self.countries(), r.jurisdiction@),
            r.steps@ == (if legal_name@.len() == 0 { Seq::empty() }
                else { screen_steps(self.entities(), legal_name@, self.entities().len() as int) }),
            r.points == screen_points_of(r.sanctioned_jurisdiction, exact_count(r.steps@), r.jurisdiction@),
    {
        let j = to_uppercase(jurisdiction);
        let mut hit = false;
        let mut c: usize = 0;
        while c < self.sanctioned_countries.len()
            invariant
                c <= self.countries().len(),
                hit == exists|i: int| 0 <= i < c && #[trigger] self.countries()[i]@ == j@,
            decreases self.countries().len() - c,
        {
            if str_eq(self.sanctioned_countries[c], j.as_str()) {
                hit = true;
            }
            c = c + 1;
        }
        let mut steps: Vec<ScreenStep> = Vec::new();
        let mut exact: usize = 0;
        let name_chars = str_chars(legal_name);
        if name_chars.len() > 0 {
            let name_upper = to_uppercase(legal_name);
            let code = soundex(legal_name);
            let mut k: usize = 0;
            while k < self.sanctioned_entities.len()
                invariant
                    k <= self.entities().len(),
                    legal_name@.len() > 0,
                    name_upper@ == str_to_uppercase(legal_name@),
                    code@ == spec_soundex(legal_name@),
                    steps@ == screen_steps(self.entities(), legal_name@, k as int),
                    exact == exact_count(steps@),
                    exact <= k,
                decreases self.entities().len() - k,
            {
                let ghost before = steps@;
                let ghost e = self.entities()[k as int];
                let upper = to_uppercase(self.sanctioned_entities[k].name.as_str());
                if str_eq(upper.as_str(), name_upper.as_str()) {
                    steps.push(ScreenStep::Exact { entity: k });
                    exact = exact + 1;
                    proof {
                        assert(seq![ScreenStep::Exact { entity: k }].drop_last() =~= Seq::<ScreenStep>::empty());
                        assert(exact_count(Seq::<ScreenStep>::empty()) == 0);
                        assert(exact_count(seq![ScreenStep::Exact { entity: k }]) == 1);
                        lemma_exact_count_add(before, seq![ScreenStep::Exact { entity: k }]);
                        assert(steps@ =~= before + seq![ScreenStep::Exact { entity: k }]);
                    }
                } else {
                    self.sound_steps(k, &code, &mut steps);
                    proof {
                        let first: Seq<ScreenStep> = if spec_soundex(e.name@) == code@ { seq![ScreenStep::SoundsLike { entity: k }] } else { Seq::empty() };
                        let rest = alias_steps(e.aliases@, k as int, code@, e.aliases@.len() as int);
                        assert(exact_count(Seq::<ScreenStep>::empty()) == 0);
                        if first.len() > 0 {
                            assert(first.drop_last() =~= Seq::<ScreenStep>::empty());
                        }
                        assert(exact_count(first) == 0);
                        lemma_alias_steps_not_exact(e.aliases@, k as int, code@, e.aliases@.len() as int);
                        lemma_exact_count_add(first, rest);
                        lemma_exact_count_add(before, first + rest);
                        assert(steps@ =~= before + (first + rest));
                    }
                }
                k = k + 1;
            }
        }
        let (_, j_risk) = classify_jurisdiction(j.as_str());
        let mut points: u8 = if hit { 90 } else { 0 };
        let ghost base: nat = if hit { 90nat } else { 0nat };
        let mut e: usize = 0;
        while e < exact
            invariant
                e <= exact,
                points == (if base + 100 * e > 255 { 255 } else { base + 100 * e }),
            decreases exact - e,
        {
            proof {
                lemma_saturating_total(points, (base + 100 * e) as nat, 100);
            }
            points = points.saturating_add(100);
            e = e + 1;
        }
        proof {
            lemma_saturating_total(points, (base + 100 * exact) as nat, (j_risk / 2) as nat);
        }
        points = points.saturating_add(j_risk / 2);
        SanctionsScreen { jurisdiction: j, sanctioned_jurisdiction: hit, steps, points }
    }
}


impl Default for SanctionsChecker {
    /// The checker over the reference lists.
    fn default() -> (r: SanctionsChecker)
        ensures
            r.countries().len() == sanctioned_country_codes().len(),
            forall|i: int| 0 <= i < r.countries().len() ==> #[trigger] r.countries()[i]@ == sanctioned_country_codes()[i],
            r.entities().len() == sanctioned_entity_names().len(),
            forall|i: int| 0 <= i < r.entities().len() ==> #[trigger] r.entities()[i].name@ == sanctioned_entity_names()[i],
            forall|i: int| 0 <= i < r.entities().len() ==> #[trigger] listed_as(r.entities()[i], i),
    {
        SanctionsChecker::new()
    }
}

} // verus!
