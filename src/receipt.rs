use vstd::prelude::*;
use vstd::string::StringExecFns;
use crate::types::GovernanceAction;

verus! {

/// What SHA-256 gives for the UTF-8 encoding of `text`.
pub uninterp spec fn sha256_of(text: Seq<char>) -> Seq<u8>;

/// What chrono prints for the UTC instant `secs` seconds and `nanos`
/// nanoseconds after the Unix epoch, or `None` where chrono has no such instant.
pub uninterp spec fn chrono_utc_text(secs: int, nanos: int) -> Option<Seq<char>>;

/// The lowercase hexadecimal digit for `n` (below 16).
pub open spec fn hex_digit(n: int) -> char {
    "0123456789abcdef"@[n]
}

/// Two lowercase hexadecimal digits per byte, high digit first.
pub open spec fn hex_of(bytes: Seq<u8>) -> Seq<char>
    decreases bytes.len(),
{
    if bytes.len() == 0 {
        seq![]
    } else {
        let b = bytes.last() as int;
        hex_of(bytes.drop_last()) + seq![hex_digit(b / 16), hex_digit(b % 16)]
    }
}

/// The digest text of `text`: the algorithm name, a colon, and the
/// SHA-256 digest in lowercase hexadecimal.
pub open spec fn hash_view(text: Seq<char>) -> Seq<char> {
    "sha256:"@ + hex_of(sha256_of(text))
}

/// Whether `c` is a lowercase hexadecimal digit.
pub open spec fn is_lower_hex(c: char) -> bool {
    ('0' <= c && c <= '9') || ('a' <= c && c <= 'f')
}

/// Relies on sha2::Sha256 through sha2::Digest::digest: the 32-byte SHA-256
/// digest of the UTF-8 bytes of `text`.
#[verifier::external_body]
fn sha256_digest(text: &str) -> (r: Vec<u8>)
    ensures
        r@ == sha256_of(text@),
        r@.len() == 32,
{
    <sha2::Sha256 as sha2::Digest>::digest(text.as_bytes()).to_vec()
}

/// Relies on hex::encode: two lowercase hexadecimal digits per byte, in order.
#[verifier::external_body]
fn hex_encode(bytes: &Vec<u8>) -> (r: String)
    ensures
        r@ == hex_of(bytes@),
{
    hex::encode(bytes)
}

/// Relies on uuid::Uuid::new_v4 printed in its simple form: a random
/// identifier as 32 lowercase hexadecimal digits with no separators.
#[verifier::external_body]
fn random_uuid_simple() -> (r: String)
    ensures
        r@.len() == 32,
        forall|i: int| 0 <= i < r@.len() ==> is_lower_hex(#[trigger] r@[i]),
{
    uuid::Uuid::new_v4().simple().to_string()
}

/// Relies on chrono::Utc::now: the current time as seconds since the Unix
/// epoch and nanoseconds past that second (beyond 999,999,999 only within a
/// leap second).
#[verifier::external_body]
fn utc_now() -> (r: UtcTimestamp)
    ensures
        r.nanos < 2_000_000_000,
{
    let now = chrono::Utc::now();
    UtcTimestamp { secs: now.timestamp(), nanos: now.timestamp_subsec_nanos() }
}

/// Relies on chrono::DateTime::<Utc>::from_timestamp and its Display impl.
#[verifier::external_body]
fn utc_text(secs: i64, nanos: u32) -> (r: Option<String>)
    ensures
        r is None <==> chrono_utc_text(secs as int, nanos as int) is None,
        r matches Some(s) ==> chrono_utc_text(secs as int, nanos as int) == Some(s@),
{
    chrono::DateTime::from_timestamp(secs, nanos).map(|t| t.to_string())
}

#[verifier::external_type_specification]
#[verifier::external_body]
pub struct ExInstant(std::time::Instant);

/// Relies on std::time::Instant::now: a reading of the monotonic clock.
#[verifier::external_body]
pub(crate) fn clock_now() -> (r: std::time::Instant) {
    std::time::Instant::now()
}

/// Relies on std::time::Instant::elapsed: the time since `start`, in
/// nanoseconds cut to 64 bits.
#[verifier::external_body]
pub(crate) fn elapsed_ns(start: &std::time::Instant) -> (r: u64) {
    start.elapsed().as_nanos() as u64
}

/// A UTC instant: seconds since the Unix epoch and nanoseconds past that second.
#[derive(Debug, Clone, Copy, PartialEq, Eq, Structural)]
pub struct UtcTimestamp {
    pub secs: i64,
    pub nanos: u32,
}

impl UtcTimestamp {
    /// The current time.
    pub fn now() -> (r: UtcTimestamp)
        ensures
            r.nanos < 2_000_000_000,
    {
        utc_now()
    }

    /// The instant as chrono prints it (`2015-05-15 00:00:00 UTC`); empty
    /// where chrono cannot represent it.
    pub fn to_string(&self) -> (r: String)
        ensures
            r@ == match chrono_utc_text(self.secs as int, self.nanos as int) {
                Some(t) => t,
                None => Seq::<char>::empty(),
            },
    {
        match utc_text(self.secs, self.nanos) {
            Some(s) => s,
            None => String::new(),
        }
    }
}

/// Hash `text` to `sha256:` followed by its SHA-256 digest in lowercase hexadecimal.
pub fn hash_text(text: &str) -> (r: String)
    ensures
        r@ == hash_view(text@),
        r@.len() == 71,
{
    let digest = sha256_digest(text);
    let hex = hex_encode(&digest);
    proof {
        lemma_hex_len(digest@);
    }
    let r = String::from_str("sha256:").concat(hex.as_str());
    proof {
        reveal_strlit("sha256:");
    }
    r
}

/// A new receipt identifier: `rcpt_` followed by 32 lowercase hexadecimal
/// digits of a random UUID.
pub fn generate_receipt_id() -> (r: String)
    ensures
        r@.len() == 37,
        r@.take(5) == "rcpt_"@,
        forall|i: int| 5 <= i < r@.len() ==> is_lower_hex(#[trigger] r@[i]),
{
    let id = random_uuid_simple();
    let r = String::from_str("rcpt_").concat(id.as_str());
    proof {
        reveal_strlit("rcpt_");
        assert(r@.take(5) =~= "rcpt_"@);
        assert forall|i: int| 5 <= i < r@.len() implies is_lower_hex(#[trigger] r@[i]) by {
            assert(r@[i] == id@[i - 5]);
        }
    }
    r
}

proof fn lemma_hex_len(bytes: Seq<u8>)
    ensures
        hex_of(bytes).len() == 2 * bytes.len(),
    decreases bytes.len(),
{
    if bytes.len() > 0 {
        lemma_hex_len(bytes.drop_last());
    }
}

/// Audit record of one governance decision.
#[derive(Debug, Clone)]
pub struct GovernanceReceipt {
    pub receipt_id: String,
    pub timestamp: UtcTimestamp,
    pub input_hash: String,
    pub output_hash: String,
    pub action: GovernanceAction,
    pub policy_version: String,
    pub processing_time_ns: u64,
}

} // verus!

verus! {

proof fn lemma_hex_digit_injective(a: int, b: int)
    requires
        0 <= a < 16,
        0 <= b < 16,
        hex_digit(a) == hex_digit(b),
    ensures
        a == b,
{
    reveal_strlit("0123456789abcdef");
}

proof fn lemma_hex_injective(x: Seq<u8>, y: Seq<u8>)
    requires
        hex_of(x) == hex_of(y),
    ensures
        x == y,
    decreases x.len(),
{
    lemma_hex_len(x);
    lemma_hex_len(y);
    if x.len() > 0 {
        let (hx, hy) = (hex_of(x), hex_of(y));
        let n = hx.len();
        let (bx, by) = (x.last() as int, y.last() as int);
        assert(hx[n - 2] == hex_digit(bx / 16));
        assert(hy[n - 2] == hex_digit(by / 16));
        assert(hx[n - 1] == hex_digit(bx % 16));
        assert(hy[n - 1] == hex_digit(by % 16));
        lemma_hex_digit_injective(bx / 16, by / 16);
        lemma_hex_digit_injective(bx % 16, by % 16);
        assert(bx == by);
        lemma_hex_len(x.drop_last());
        lemma_hex_len(y.drop_last());
        assert(hex_of(x.drop_last()) =~= hx.take(n - 2));
        assert(hex_of(y.drop_last()) =~= hy.take(n - 2));
        lemma_hex_injective(x.drop_last(), y.drop_last());
        assert(x =~= x.drop_last().push(x.last()));
        assert(y =~= y.drop_last().push(y.last()));
    }
}

/// The digest text is a function of the input, and two digest texts are equal
/// exactly when the SHA-256 digests are: rendering adds no collision.
pub proof fn lemma_hash_text_collisions(a: Seq<char>, b: Seq<char>)
    ensures
        a == b ==> hash_view(a) == hash_view(b),
        hash_view(a) == hash_view(b) <==> sha256_of(a) == sha256_of(b),
{
    if hash_view(a) == hash_view(b) {
        let p = "sha256:"@;
        assert(hex_of(sha256_of(a)) =~= hash_view(a).skip(p.len() as int));
        assert(hex_of(sha256_of(b)) =~= hash_view(b).skip(p.len() as int));
        lemma_hex_injective(sha256_of(a), sha256_of(b));
    }
}

} // verus!
