use vstd::prelude::*;
use vstd::utf8::{decode_utf8, encode_utf8};
use crate::types::PIIType;

verus! {

pub const SSN_PATTERN: &'static str = r"\b\d{3}-\d{2}-\d{4}\b";

pub const CREDIT_CARD_PATTERN: &'static str = r"\b\d{4}[-\s]?\d{4}[-\s]?\d{4}[-\s]?\d{4}\b";

pub const EMAIL_PATTERN: &'static str = r"\b[A-Za-z0-9._%+-]+@[A-Za-z0-9.-]+\.[A-Za-z]{2,}\b";

pub const PHONE_PATTERN: &'static str = r"\b(?:\+?1[-.\s]?)?\(?\d{3}\)?[-.\s]?\d{3}[-.\s]?\d{4}\b";

pub const ADDRESS_PATTERN: &'static str = r"(?i)\b\d{1,5}\s+\w+(?:\s+\w+)*\s+(?:Street|St|Avenue|Ave|Road|Rd|Boulevard|Blvd|Drive|Dr|Lane|Ln|Court|Ct|Way|Place|Pl)\b";

pub const IP_ADDRESS_PATTERN: &'static str = r"\b(?:(?:25[0-5]|2[0-4][0-9]|[01]?[0-9][0-9]?)\.){3}(?:25[0-5]|2[0-4][0-9]|[01]?[0-9][0-9]?)\b";

pub const DATE_OF_BIRTH_PATTERN: &'static str = r"\b(?:0[1-9]|1[0-2])/(?:0[1-9]|[12]\d|3[01])/(?:19|20)\d{2}\b";

pub const PASSPORT_PATTERN: &'static str = r"\b[A-Z]{1,2}\d{6,9}\b";

pub const DRIVERS_LICENSE_PATTERN: &'static str = r"\b[A-Z]\d{7,14}\b";

pub const BANK_ACCOUNT_PATTERN: &'static str = r"\b\d{8,17}\b";

/// Whether the regex crate accepts `pattern` (what `regex::Regex::new` decides).
pub uninterp spec fn regex_valid(pattern: Seq<char>) -> bool;

/// The matches that `regex::Regex::find_iter` reports for `pattern` in `text`:
/// byte start, byte end and matched text of each, left to right.
pub uninterp spec fn regex_find(pattern: Seq<char>, text: Seq<char>) -> Seq<(int, int, Seq<char>)>;

/// `bytes` with each of the byte ranges of `spans` (ordered, disjoint) replaced by `rep`.
pub open spec fn splice_bytes(bytes: Seq<u8>, spans: Seq<(int, int, Seq<char>)>, rep: Seq<u8>) -> Seq<u8>
    decreases spans.len(),
{
    if spans.len() == 0 {
        bytes
    } else {
        let last = spans.last();
        splice_bytes(bytes.subrange(0, last.0), spans.drop_last(), rep) + rep + bytes.subrange(
            last.1,
            bytes.len() as int,
        )
    }
}

/// `text` with every match of `pattern` replaced by `rep`.
pub open spec fn replace_matches(pattern: Seq<char>, text: Seq<char>, rep: Seq<char>) -> Seq<char> {
    decode_utf8(splice_bytes(encode_utf8(text), regex_find(pattern, text), encode_utf8(rep)))
}

/// A compiled pattern together with the text it was compiled from.
/// It is only ever built by `compile`, so `regex` always runs `source`.
pub struct Matcher {
    source: String,
    regex: regex::Regex,
}

#[verifier::external_type_specification]
#[verifier::external_body]
pub struct ExRegex(regex::Regex);

impl Matcher {
    /// The pattern text this matcher runs.
    pub closed spec fn source(&self) -> Seq<char> {
        self.source@
    }
}

/// Relies on regex::Regex::new: it compiles `source`, and fails exactly when
/// the regex crate does not accept it.
#[verifier::external_body]
pub(crate) fn compile(source: &str) -> (r: Option<Matcher>)
    ensures
        r is Some <==> regex_valid(source@),
        r matches Some(m) ==> m.source() == source@,
{
    match regex::Regex::new(source) {
        Ok(regex) => Some(Matcher { source: source.to_string(), regex }),
        Err(_) => None,
    }
}

/// Relies on regex::Regex::find_iter and regex::Match: the successive
/// non-overlapping matches in `text`, each as byte start, byte end and text.
#[verifier::external_body]
pub(crate) fn find_all(m: &Matcher, text: &str) -> (r: Vec<(usize, usize, String)>)
    ensures
        r@.map_values(|f: (usize, usize, String)| (f.0 as int, f.1 as int, f.2@)) == regex_find(
            m.source(),
            text@,
        ),
{
    m.regex.find_iter(text).map(|f| (f.start(), f.end(), f.as_str().to_string())).collect()
}

/// Relies on regex::Regex::replace_all with regex::NoExpand: each match that
/// find_iter reports in `text` is replaced by `rep`, taken literally; with no
/// match the text comes back unchanged.
#[verifier::external_body]
pub(crate) fn replace_all(m: &Matcher, text: &str, rep: &str) -> (r: String)
    ensures
        r@ == replace_matches(m.source(), text@, rep@),
        regex_find(m.source(), text@).len() == 0 ==> r@ == text@,
{
    m.regex.replace_all(text, regex::NoExpand(rep)).into_owned()
}

} // verus!

verus! {

/// The registry as category and pattern text, in the order the patterns apply.
pub open spec fn catalog() -> Seq<(PIIType, Seq<char>)> {
    seq![
        (PIIType::Ssn, SSN_PATTERN@),
        (PIIType::CreditCard, CREDIT_CARD_PATTERN@),
        (PIIType::Email, EMAIL_PATTERN@),
        (PIIType::Phone, PHONE_PATTERN@),
        (PIIType::Address, ADDRESS_PATTERN@),
        (PIIType::IpAddress, IP_ADDRESS_PATTERN@),
        (PIIType::DateOfBirth, DATE_OF_BIRTH_PATTERN@),
        (PIIType::Passport, PASSPORT_PATTERN@),
        (PIIType::DriversLicense, DRIVERS_LICENSE_PATTERN@),
        (PIIType::BankAccount, BANK_ACCOUNT_PATTERN@),
    ]
}

/// The first `n` entries of the catalog that the regex crate accepts.
pub open spec fn accepted_upto(n: nat) -> Seq<(PIIType, Seq<char>)>
    decreases n,
{
    if n == 0 {
        seq![]
    } else {
        let rest = accepted_upto((n - 1) as nat);
        let e = catalog()[n - 1];
        if regex_valid(e.1) {
            rest.push(e)
        } else {
            rest
        }
    }
}

/// The patterns a scan applies: every catalog entry that compiles, in catalog order.
pub open spec fn registry() -> Seq<(PIIType, Seq<char>)> {
    accepted_upto(10)
}

fn catalog_entry(i: usize) -> (r: (PIIType, &'static str))
    requires
        i < 10,
    ensures
        (r.0, r.1@) == catalog()[i as int],
{
    match i {
        0 => (PIIType::Ssn, SSN_PATTERN),
        1 => (PIIType::CreditCard, CREDIT_CARD_PATTERN),
        2 => (PIIType::Email, EMAIL_PATTERN),
        3 => (PIIType::Phone, PHONE_PATTERN),
        4 => (PIIType::Address, ADDRESS_PATTERN),
        5 => (PIIType::IpAddress, IP_ADDRESS_PATTERN),
        6 => (PIIType::DateOfBirth, DATE_OF_BIRTH_PATTERN),
        7 => (PIIType::Passport, PASSPORT_PATTERN),
        8 => (PIIType::DriversLicense, DRIVERS_LICENSE_PATTERN),
        _ => (PIIType::BankAccount, BANK_ACCOUNT_PATTERN),
    }
}

/// A category with the compiled pattern that recognises it.
pub struct PIIPattern {
    pub pii_type: PIIType,
    pub matcher: Matcher,
}

impl View for PIIPattern {
    type V = (PIIType, Seq<char>);

    open spec fn view(&self) -> Self::V {
        (self.pii_type, self.matcher.source())
    }
}

/// The views of a sequence of patterns.
pub open spec fn patterns_view(ps: Seq<PIIPattern>) -> Seq<(PIIType, Seq<char>)> {
    ps.map_values(|p: PIIPattern| p@)
}

/// Compile the registry.
pub fn get_pii_patterns() -> (r: Vec<PIIPattern>)
    ensures
        patterns_view(r@) == registry(),
{
    let mut r: Vec<PIIPattern> = Vec::new();
    let mut i: usize = 0;
    while i < 10
        invariant
            i <= 10,
            patterns_view(r@) == accepted_upto(i as nat),
        decreases 10 - i,
    {
        let (pii_type, source) = catalog_entry(i);
        let compiled = compile(source);
        match compiled {
            Some(matcher) => {
                r.push(PIIPattern { pii_type, matcher });
                assert(patterns_view(r@) =~= accepted_upto((i + 1) as nat));
            },
            None => {
                assert(patterns_view(r@) =~= accepted_upto((i + 1) as nat));
            },
        }
        i = i + 1;
    }
    r
}

} // verus!
