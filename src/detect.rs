use vstd::prelude::*;
use crate::patterns::{
    accepted_upto, catalog, find_all, get_pii_patterns, patterns_view, regex_find, regex_valid,
    registry, replace_all, replace_matches, PIIPattern, SSN_PATTERN,
};
use crate::types::{matches_view, PIIDetectionResult, PIIMatch, PIIType};

verus! {

/// The matches one pattern reports in `text`, as match views.
pub open spec fn found_by(p: (PIIType, Seq<char>), text: Seq<char>) -> Seq<(PIIType, Seq<char>, int, int)> {
    regex_find(p.1, text).map_values(|f: (int, int, Seq<char>)| (p.0, f.2, f.0, f.1))
}

/// All matches of `pats` in the original `text`, pattern by pattern.
pub open spec fn scan_matches(pats: Seq<(PIIType, Seq<char>)>, text: Seq<char>) -> Seq<
    (PIIType, Seq<char>, int, int),
>
    decreases pats.len(),
{
    if pats.len() == 0 {
        seq![]
    } else {
        scan_matches(pats.drop_last(), text) + found_by(pats.last(), text)
    }
}

/// The text after each pattern in turn has replaced its matches in the
/// running result with its category's placeholder.
pub open spec fn scan_redacted(pats: Seq<(PIIType, Seq<char>)>, text: Seq<char>) -> Seq<char>
    decreases pats.len(),
{
    if pats.len() == 0 {
        text
    } else {
        let p = pats.last();
        replace_matches(p.1, scan_redacted(pats.drop_last(), text), p.0.placeholder())
    }
}

/// Whether `k` is the category of one of `ms`.
pub open spec fn has_kind(ms: Seq<(PIIType, Seq<char>, int, int)>, k: PIIType) -> bool {
    exists|i: int| 0 <= i < ms.len() && #[trigger] ms[i].0 == k
}

/// `r` is the result of scanning `text` with `pats`.
pub open spec fn describes(r: PIIDetectionResult, pats: Seq<(PIIType, Seq<char>)>, text: Seq<char>) -> bool {
    let ms = scan_matches(pats, text);
    &&& matches_view(r.matches@) == ms
    &&& r.count == ms.len()
    &&& r.has_pii == (ms.len() > 0)
    &&& r.types@.no_duplicates()
    &&& forall|k: PIIType| #[trigger] r.types@.contains(k) <==> has_kind(ms, k)
    &&& r.redacted_text@ == scan_redacted(pats, text)
}

fn contains_type(v: &Vec<PIIType>, k: PIIType) -> (r: bool)
    ensures
        r == v@.contains(k),
{
    let mut i: usize = 0;
    while i < v.len()
        invariant
            i <= v.len(),
            forall|j: int| 0 <= j < i ==> v@[j] != k,
        decreases v.len() - i,
    {
        if v[i] == k {
            return true;
        }
        i = i + 1;
    }
    false
}

/// Scan `text` with the given patterns.
pub fn scan(patterns: &Vec<PIIPattern>, text: &str) -> (r: PIIDetectionResult)
    ensures
        describes(r, patterns_view(patterns@), text@),
{
    let ghost pats = patterns_view(patterns@);
    let mut matches: Vec<PIIMatch> = Vec::new();
    let mut types: Vec<PIIType> = Vec::new();
    let mut redacted = text.to_string();
    let mut i: usize = 0;
    while i < patterns.len()
        invariant
            i <= patterns.len(),
            pats == patterns_view(patterns@),
            matches_view(matches@) == scan_matches(pats.take(i as int), text@),
            types@.no_duplicates(),
            forall|k: PIIType|
                #[trigger] types@.contains(k) <==> has_kind(matches_view(matches@), k),
            redacted@ == scan_redacted(pats.take(i as int), text@),
        decreases patterns.len() - i,
    {
        let pattern = &patterns[i];
        let kind = pattern.pii_type;
        let found = find_all(&pattern.matcher, text);
        let ghost before = matches_view(matches@);
        let ghost fb = found_by(pats[i as int], text@);
        assert(fb.len() == found@.len());
        let mut j: usize = 0;
        while j < found.len()
            invariant
                j <= found.len(),
                i < patterns.len(),
                pats == patterns_view(patterns@),
                kind == pats[i as int].0,
                fb == found_by(pats[i as int], text@),
                fb.len() == found@.len(),
                found@.map_values(|f: (usize, usize, String)| (f.0 as int, f.1 as int, f.2@))
                    == regex_find(pats[i as int].1, text@),
                matches_view(matches@) == before + fb.take(j as int),
                types@.no_duplicates(),
                forall|k: PIIType|
                    #[trigger] types@.contains(k) <==> has_kind(matches_view(matches@), k),
            decreases found.len() - j,
        {
            let m = PIIMatch {
                pii_type: kind,
                value: found[j].2.clone(),
                start_index: found[j].0,
                end_index: found[j].1,
            };
            let ghost old_ms = matches_view(matches@);
            matches.push(m);
            assert(matches_view(matches@) =~= old_ms.push(m@));
            assert(fb.take(j as int + 1) =~= fb.take(j as int).push(fb[j as int]));
            assert(matches_view(matches@) =~= before + fb.take(j as int + 1));
            let ghost new_ms = matches_view(matches@);
            let ghost old_types = types@;
            if !contains_type(&types, kind) {
                types.push(kind);
                assert(types@[types@.len() - 1] == kind);
            }
            assert(types@ == old_types || types@ == old_types.push(kind));
            assert(types@.contains(kind));
            assert(new_ms[new_ms.len() - 1].0 == kind);
            assert forall|k: PIIType| #[trigger] types@.contains(k) <==> has_kind(new_ms, k) by {
                if has_kind(old_ms, k) {
                    let w = choose|w: int| 0 <= w < old_ms.len() && #[trigger] old_ms[w].0 == k;
                    assert(new_ms[w].0 == k);
                }
                if has_kind(new_ms, k) && k != kind {
                    let w = choose|w: int| 0 <= w < new_ms.len() && #[trigger] new_ms[w].0 == k;
                    assert(old_ms[w].0 == k);
                }
                if old_types.contains(k) {
                    let w = choose|w: int| 0 <= w < old_types.len() && old_types[w] == k;
                    assert(types@[w] == k);
                }
                if types@.contains(k) && k != kind {
                    let w = choose|w: int| 0 <= w < types@.len() && types@[w] == k;
                    assert(old_types[w] == k);
                }
            }
            j = j + 1;
        }
        assert(fb.take(j as int) =~= fb);
        assert(pats.take(i as int + 1).drop_last() =~= pats.take(i as int));
        assert(pats.take(i as int + 1).last() == pats[i as int]);
        redacted = replace_all(&pattern.matcher, &redacted, kind.redaction());
        i = i + 1;
    }
    assert(pats.take(i as int) =~= pats);
    let count = matches.len();
    PIIDetectionResult { has_pii: count > 0, types, count, matches, redacted_text: redacted }
}

/// Detect personally identifiable information in `text`, and redact it.
pub fn detect_pii(text: &str) -> (r: PIIDetectionResult)
    ensures
        describes(r, registry(), text@),
{
    let patterns = get_pii_patterns();
    scan(&patterns, text)
}

} // verus!

verus! {

proof fn lemma_first_accepted(n: nat)
    requires
        n >= 1,
        regex_valid(catalog()[0].1),
    ensures
        accepted_upto(n).len() >= 1,
        accepted_upto(n)[0] == catalog()[0],
    decreases n,
{
    let rest = accepted_upto((n - 1) as nat);
    if n > 1 {
        lemma_first_accepted((n - 1) as nat);
        if regex_valid(catalog()[n - 1].1) {
            assert(accepted_upto(n) == rest.push(catalog()[n - 1]));
            assert(accepted_upto(n)[0] == rest[0]);
        }
    } else {
        assert(accepted_upto(n) == rest.push(catalog()[0]));
    }
}

proof fn lemma_first_pattern_leads(pats: Seq<(PIIType, Seq<char>)>, text: Seq<char>)
    requires
        pats.len() >= 1,
    ensures
        scan_matches(pats, text).len() >= found_by(pats[0], text).len(),
        forall|i: int|
            0 <= i < found_by(pats[0], text).len() ==> #[trigger] scan_matches(pats, text)[i]
                == found_by(pats[0], text)[i],
    decreases pats.len(),
{
    if pats.len() == 1 {
        assert(pats.drop_last().len() == 0);
        assert(scan_matches(pats, text) =~= found_by(pats[0], text));
    } else {
        lemma_first_pattern_leads(pats.drop_last(), text);
        assert(pats.drop_last()[0] == pats[0]);
    }
}

/// Text in which the SSN pattern finds a match is reported as holding personal
/// information, with SSN among its categories (the SSN pattern being one the
/// regex crate accepts).
pub proof fn lemma_ssn_detected(text: Seq<char>, r: PIIDetectionResult)
    requires
        regex_valid(SSN_PATTERN@),
        regex_find(SSN_PATTERN@, text).len() > 0,
        describes(r, registry(), text),
    ensures
        r.has_pii,
        r.types@.contains(PIIType::Ssn),
{
    lemma_first_accepted(10);
    let pats = registry();
    lemma_first_pattern_leads(pats, text);
    let ms = scan_matches(pats, text);
    assert(found_by(pats[0], text)[0].0 == PIIType::Ssn);
    assert(ms[0].0 == PIIType::Ssn);
    assert(has_kind(ms, PIIType::Ssn));
}

} // verus!
