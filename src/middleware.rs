use vstd::prelude::*;
use vstd::string::{StrSliceExecFns, StringExecFns};
use crate::engine::{GovernanceResult, Tork, action_for, output_for};
use crate::detect::describes;
use crate::patterns::registry;
use crate::types::{GovernanceAction, PIIType};

verus! {

/// Which requests are governed, and where in a JSON body the text is.
#[derive(Debug, Clone)]
pub struct MiddlewareConfig {
    /// Path prefixes that are governed.
    pub protected_paths: Vec<String>,
    /// Path prefixes that are never governed.
    pub skip_paths: Vec<String>,
    /// Member names of the JSON body that may hold the text, first match wins.
    pub content_fields: Vec<String>,
}

/// The texts of a sequence of strings.
pub open spec fn strings_view(v: Seq<String>) -> Seq<Seq<char>> {
    v.map_values(|s: String| s@)
}

impl Default for MiddlewareConfig {
    fn default() -> (r: Self)
        ensures
            strings_view(r.protected_paths@) == seq!["/api/"@],
            r.skip_paths@.len() == 0,
            strings_view(r.content_fields@) == seq![
                "content"@,
                "message"@,
                "text"@,
                "prompt"@,
                "query"@,
                "input"@,
            ],
    {
        let mut protected_paths: Vec<String> = Vec::new();
        protected_paths.push(String::from_str("/api/"));
        let mut content_fields: Vec<String> = Vec::new();
        content_fields.push(String::from_str("content"));
        content_fields.push(String::from_str("message"));
        content_fields.push(String::from_str("text"));
        content_fields.push(String::from_str("prompt"));
        content_fields.push(String::from_str("query"));
        content_fields.push(String::from_str("input"));
        let r = MiddlewareConfig { protected_paths, skip_paths: Vec::new(), content_fields };
        assert(strings_view(r.protected_paths@) =~= seq!["/api/"@]);
        assert(strings_view(r.content_fields@) =~= seq![
            "content"@,
            "message"@,
            "text"@,
            "prompt"@,
            "query"@,
            "input"@,
        ]);
        r
    }
}

/// Whether `s` begins with `prefix`.
pub open spec fn has_prefix(s: Seq<char>, prefix: Seq<char>) -> bool {
    prefix.len() <= s.len() && s.take(prefix.len() as int) == prefix
}

/// Whether `s` begins with one of `prefixes`.
pub open spec fn has_any_prefix(s: Seq<char>, prefixes: Seq<String>) -> bool {
    exists|i: int| 0 <= i < prefixes.len() && has_prefix(s, #[trigger] prefixes[i]@)
}

fn starts_with(s: &str, prefix: &str) -> (r: bool)
    ensures
        r == has_prefix(s@, prefix@),
{
    let n = prefix.unicode_len();
    if n > s.unicode_len() {
        return false;
    }
    let mut i: usize = 0;
    while i < n
        invariant
            n == prefix@.len(),
            n <= s@.len(),
            i <= n,
            forall|j: int| 0 <= j < i ==> s@[j] == prefix@[j],
        decreases n - i,
    {
        if s.get_char(i) != prefix.get_char(i) {
            return false;
        }
        i = i + 1;
    }
    assert(s@.take(n as int) =~= prefix@);
    true
}

fn starts_with_any(path: &str, prefixes: &Vec<String>) -> (r: bool)
    ensures
        r == has_any_prefix(path@, prefixes@),
{
    let mut i: usize = 0;
    while i < prefixes.len()
        invariant
            i <= prefixes.len(),
            forall|j: int| 0 <= j < i ==> !has_prefix(path@, #[trigger] prefixes@[j]@),
        decreases prefixes.len() - i,
    {
        if starts_with(path, prefixes[i].as_str()) {
            return true;
        }
        i = i + 1;
    }
    false
}

/// Whether `path` begins with one of the skipped prefixes.
pub fn should_skip_path(path: &str, config: &MiddlewareConfig) -> (r: bool)
    ensures
        r == has_any_prefix(path@, config.skip_paths@),
{
    starts_with_any(path, &config.skip_paths)
}

/// Whether `path` begins with one of the protected prefixes.
pub fn should_protect_path(path: &str, config: &MiddlewareConfig) -> (r: bool)
    ensures
        r == has_any_prefix(path@, config.protected_paths@),
{
    starts_with_any(path, &config.protected_paths)
}

/// Whether `method` carries a body worth governing: POST, PUT or PATCH.
pub open spec fn is_mutating(method: Seq<char>) -> bool {
    method == "POST"@ || method == "PUT"@ || method == "PATCH"@
}

fn str_eq(a: &str, b: &str) -> (r: bool)
    ensures
        r == (a@ == b@),
{
    let n = a.unicode_len();
    if n != b.unicode_len() {
        return false;
    }
    let r = starts_with(a, b);
    assert(a@ =~= a@.take(n as int));
    r
}

/// Whether a request with `method` on `path` is governed at all.
pub fn governs_request(method: &str, path: &str, config: &MiddlewareConfig) -> (r: bool)
    ensures
        r == (is_mutating(method@) && !has_any_prefix(path@, config.skip_paths@) && has_any_prefix(
            path@,
            config.protected_paths@,
        )),
{
    let mutating = str_eq(method, "POST") || str_eq(method, "PUT") || str_eq(method, "PATCH");
    if !mutating {
        return false;
    }
    if should_skip_path(path, config) {
        return false;
    }
    should_protect_path(path, config)
}

} // verus!

verus! {

/// The members of the top-level JSON object that `serde_json` reads from
/// `body`: each key with the text of its value where that value is a string;
/// `None` where `body` is not JSON or not an object.
pub uninterp spec fn json_object_members(body: Seq<char>) -> Option<Seq<(Seq<char>, Option<Seq<char>>)>>;

/// The views of parsed object members.
pub open spec fn members_view(v: Seq<(String, Option<String>)>) -> Seq<(Seq<char>, Option<Seq<char>>)> {
    v.map_values(
        |m: (String, Option<String>)|
            (
                m.0@,
                match m.1 {
                    Some(s) => Some(s@),
                    None => None,
                },
            ),
    )
}

/// Relies on serde_json::from_str into serde_json::Value: the members of a
/// top-level object, each key with its value's text where the value is a string.
#[verifier::external_body]
fn parse_object_members(body: &str) -> (r: Option<Vec<(String, Option<String>)>>)
    ensures
        r is None <==> json_object_members(body@) is None,
        r matches Some(v) ==> json_object_members(body@) == Some(members_view(v@)),
{
    match serde_json::from_str::<serde_json::Value>(body) {
        Ok(serde_json::Value::Object(map)) => Some(
            map.into_iter().map(|(k, v)| (k, v.as_str().map(|s| s.to_string()))).collect(),
        ),
        _ => None,
    }
}

/// The value of the first member named `key`, if any.
pub open spec fn member(members: Seq<(Seq<char>, Option<Seq<char>>)>, key: Seq<char>) -> Option<
    Option<Seq<char>>,
>
    decreases members.len(),
{
    if members.len() == 0 {
        None
    } else if members[0].0 == key {
        Some(members[0].1)
    } else {
        member(members.skip(1), key)
    }
}

/// The first of `fields` whose member holds a non-empty string, as that string.
pub open spec fn first_text(members: Seq<(Seq<char>, Option<Seq<char>>)>, fields: Seq<Seq<char>>) -> Option<
    Seq<char>,
>
    decreases fields.len(),
{
    if fields.len() == 0 {
        None
    } else {
        match member(members, fields[0]) {
            Some(Some(s)) if s.len() > 0 => Some(s),
            _ => first_text(members, fields.skip(1)),
        }
    }
}

/// The text that a request body offers for governance.
pub open spec fn content_of(body: Seq<char>, fields: Seq<String>) -> Option<Seq<char>> {
    match json_object_members(body) {
        Some(members) => first_text(members, strings_view(fields)),
        None => None,
    }
}

fn string_eq(a: &String, b: &String) -> (r: bool)
    ensures
        r == (a@ == b@),
{
    str_eq(a.as_str(), b.as_str())
}

fn find_member(members: &Vec<(String, Option<String>)>, key: &String) -> (r: Option<usize>)
    ensures
        match member(members_view(members@), key@) {
            None => r is None,
            Some(v) => r matches Some(i) && i < members@.len() && members_view(members@)[i as int].1
                == v,
        },
{
    let ghost ms = members_view(members@);
    let mut i: usize = 0;
    assert(ms.skip(0) =~= ms);
    while i < members.len()
        invariant
            i <= members.len(),
            ms == members_view(members@),
            member(ms, key@) == member(ms.skip(i as int), key@),
        decreases members.len() - i,
    {
        assert(ms.skip(i as int)[0] == ms[i as int]);
        assert(ms.skip(i as int).skip(1) =~= ms.skip(i as int + 1));
        if string_eq(&members[i].0, key) {
            return Some(i);
        }
        i = i + 1;
    }
    None
}

/// The first non-empty string held by one of the configured member names of
/// a JSON object body.
pub fn extract_content(body: &str, config: &MiddlewareConfig) -> (r: Option<String>)
    ensures
        match content_of(body@, config.content_fields@) {
            None => r is None,
            Some(t) => r matches Some(s) && s@ == t,
        },
{
    let members = match parse_object_members(body) {
        Some(m) => m,
        None => return None,
    };
    let ghost ms = members_view(members@);
    let ghost fs = strings_view(config.content_fields@);
    let mut i: usize = 0;
    assert(fs.skip(0) =~= fs);
    while i < config.content_fields.len()
        invariant
            i <= config.content_fields.len(),
            json_object_members(body@) == Some(ms),
            ms == members_view(members@),
            fs == strings_view(config.content_fields@),
            first_text(ms, fs) == first_text(ms, fs.skip(i as int)),
        decreases config.content_fields.len() - i,
    {
        assert(fs.skip(i as int)[0] == fs[i as int]);
        assert(fs.skip(i as int).skip(1) =~= fs.skip(i as int + 1));
        match find_member(&members, &config.content_fields[i]) {
            Some(j) => {
                match &members[j].1 {
                    Some(s) => {
                        if s.unicode_len() > 0 {
                            return Some(s.clone());
                        }
                    },
                    None => {},
                }
            },
            None => {},
        }
        i = i + 1;
    }
    assert(fs.skip(i as int).len() == 0);
    None
}

/// Response for a request that the policy blocked.
#[derive(Debug, Clone)]
pub struct ErrorResponse {
    pub error: String,
    pub receipt_id: String,
    pub pii_types: Vec<String>,
}

impl ErrorResponse {
    /// The response for `result`: a fixed message, the receipt id and the
    /// names of the categories found.
    pub fn from_result(result: &GovernanceResult) -> (r: Self)
        ensures
            r.error@ == "Request blocked by governance policy"@,
            r.receipt_id@ == result.receipt.receipt_id@,
            strings_view(r.pii_types@) == result.pii.types@.map_values(
                |t: PIIType| t.lowercase_name_spec(),
            ),
    {
        let mut pii_types: Vec<String> = Vec::new();
        let mut i: usize = 0;
        while i < result.pii.types.len()
            invariant
                i <= result.pii.types.len(),
                strings_view(pii_types@) == result.pii.types@.take(i as int).map_values(
                    |t: PIIType| t.lowercase_name_spec(),
                ),
            decreases result.pii.types.len() - i,
        {
            let name = String::from_str(result.pii.types[i].lowercase_name());
            let ghost before = pii_types@;
            pii_types.push(name);
            assert(pii_types@ =~= before.push(name));
            assert(strings_view(pii_types@) =~= strings_view(before).push(name@));
            assert(name@ == result.pii.types@[i as int].lowercase_name_spec());
            assert(result.pii.types@.take(i as int + 1) =~= result.pii.types@.take(i as int).push(
                result.pii.types@[i as int],
            ));
            assert(strings_view(pii_types@) =~= result.pii.types@.take(i as int + 1).map_values(
                |t: PIIType| t.lowercase_name_spec(),
            ));
            i = i + 1;
        }
        assert(result.pii.types@.take(i as int) =~= result.pii.types@);
        ErrorResponse {
            error: String::from_str("Request blocked by governance policy"),
            receipt_id: result.receipt.receipt_id.clone(),
            pii_types,
        }
    }
}

/// Whether `result` blocks the request: exactly when its action is `Deny`.
pub fn should_block(result: &GovernanceResult) -> (r: bool)
    ensures
        r == (result.action == GovernanceAction::Deny),
{
    result.action == GovernanceAction::Deny
}

} // verus!

verus! {

/// Govern the text of a request: nothing happens, and `None` comes back,
/// unless the request is governed and its body offers a text.
pub fn process_request(
    tork: &mut Tork,
    config: &MiddlewareConfig,
    method: &str,
    path: &str,
    body: &str,
) -> (r: Option<GovernanceResult>)
    requires
        old(tork).wf(),
    ensures
        final(tork).wf(),
        r is Some <==> (is_mutating(method@) && !has_any_prefix(path@, config.skip_paths@)
            && has_any_prefix(path@, config.protected_paths@) && content_of(
            body@,
            config.content_fields@,
        ) is Some),
        r is None ==> *final(tork) == *old(tork),
        r matches Some(g) ==> {
            let text = content_of(body@, config.content_fields@)->0;
            &&& describes(g.pii, registry(), text)
            &&& g.action == action_for(g.pii.has_pii, old(tork).config().default_action)
            &&& g.output@ == output_for(g.action, text, g.pii.redacted_text@)
            &&& final(tork).config() == old(tork).config()
            &&& final(tork).stats() == old(tork).stats().recorded(
                g.pii.has_pii,
                g.action,
                g.receipt.processing_time_ns,
            )
        },
{
    if !governs_request(method, path, config) {
        return None;
    }
    match extract_content(body, config) {
        Some(content) => Some(tork.govern(content.as_str())),
        None => None,
    }
}

/// What a request handler learns of the governance of its request.
pub struct TorkGuard {
    result: Option<GovernanceResult>,
}

impl TorkGuard {
    pub closed spec fn held(self) -> Option<GovernanceResult> {
        self.result
    }

    /// A guard holding `result`.
    pub fn new(result: Option<GovernanceResult>) -> (r: Self)
        ensures
            r.held() == result,
    {
        TorkGuard { result }
    }

    /// The governance result, if governance was applied.
    pub fn result(&self) -> (r: Option<&GovernanceResult>)
        ensures
            match self.held() {
                Some(g) => r matches Some(x) && *x == g,
                None => r is None,
            },
    {
        match &self.result {
            Some(g) => Some(g),
            None => None,
        }
    }

    /// Take the governance result out of the guard.
    pub fn into_result(self) -> (r: Option<GovernanceResult>)
        ensures
            r == self.held(),
    {
        self.result
    }

    /// Whether governance was applied.
    pub fn has_result(&self) -> (r: bool)
        ensures
            r == self.held() is Some,
    {
        self.result.is_some()
    }

    /// Whether the request may go on: with no result, or with the action `Allow`.
    pub fn is_allowed(&self) -> (r: bool)
        ensures
            r == match self.held() {
                Some(g) => g.action == GovernanceAction::Allow,
                None => true,
            },
    {
        match &self.result {
            Some(g) => g.action == GovernanceAction::Allow,
            None => true,
        }
    }

    /// Whether the request was denied.
    pub fn is_denied(&self) -> (r: bool)
        ensures
            r == match self.held() {
                Some(g) => g.action == GovernanceAction::Deny,
                None => false,
            },
    {
        match &self.result {
            Some(g) => g.action == GovernanceAction::Deny,
            None => false,
        }
    }

    /// Whether the text was redacted.
    pub fn is_redacted(&self) -> (r: bool)
        ensures
            r == match self.held() {
                Some(g) => g.action == GovernanceAction::Redact,
                None => false,
            },
    {
        match &self.result {
            Some(g) => g.action == GovernanceAction::Redact,
            None => false,
        }
    }

    /// The text handed back by governance, if any.
    pub fn output(&self) -> (r: Option<&str>)
        ensures
            match self.held() {
                Some(g) => r matches Some(s) && s@ == g.output@,
                None => r is None,
            },
    {
        match &self.result {
            Some(g) => Some(g.output.as_str()),
            None => None,
        }
    }

    /// The receipt id, if governance was applied.
    pub fn receipt_id(&self) -> (r: Option<&str>)
        ensures
            match self.held() {
                Some(g) => r matches Some(s) && s@ == g.receipt.receipt_id@,
                None => r is None,
            },
    {
        match &self.result {
            Some(g) => Some(g.receipt.receipt_id.as_str()),
            None => None,
        }
    }
}

} // verus!
