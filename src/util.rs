use rand::RngCore;
use vstd::prelude::*;

use crate::error::ShortyError;
use crate::store::{ids_exhausted, taken, LinkStore};

verus! {

/// `s` begins with `prefix`.
pub open spec fn has_prefix(s: Seq<char>, prefix: Seq<char>) -> bool {
    prefix.len() <= s.len() && s.subrange(0, prefix.len() as int) == prefix
}

/// A character of the URL-safe base64 alphabet: `A`-`Z`, `a`-`z`, `0`-`9`,
/// `-` and `_`.
pub open spec fn is_url_safe_char(c: char) -> bool {
    ('A' <= c && c <= 'Z') || ('a' <= c && c <= 'z') || ('0' <= c && c <= '9') || c == '-'
        || c == '_'
}

/// The text with every space replaced by an underscore.
pub open spec fn spaces_replaced(s: Seq<char>) -> Seq<char> {
    s.map_values(|c: char| if c == ' ' { '_' } else { c })
}

/// The unpadded URL-safe base64 encoding of `b`.
pub uninterp spec fn base64_url_of(b: Seq<u8>) -> Seq<char>;

/// Whether `s` begins with `prefix`.
pub fn starts_with(s: &str, prefix: &str) -> (r: bool)
    ensures
        r == has_prefix(s@, prefix@),
{
    let n = s.unicode_len();
    let m = prefix.unicode_len();
    if m > n {
        return false;
    }
    let mut i: usize = 0;
    while i < m
        invariant
            n == s@.len(),
            m == prefix@.len(),
            m <= n,
            i <= m,
            forall|j: int| 0 <= j < i ==> s@[j] == prefix@[j],
        decreases m - i,
    {
        if s.get_char(i) != prefix.get_char(i) {
            assert(s@.subrange(0, m as int)[i as int] != prefix@[i as int]);
            return false;
        }
        i = i + 1;
    }
    assert(s@.subrange(0, m as int) =~= prefix@);
    true
}

/// Prepends `http://` to a URL that starts with neither `http://` nor
/// `https://`, so that a browser does not take the redirect for a path on
/// this server.
pub fn ensure_http_prefix(url: String) -> (r: String)
    ensures
        r@ == if has_prefix(url@, "http://"@) || has_prefix(url@, "https://"@) {
            url@
        } else {
            "http://"@ + url@
        },
{
    if starts_with(url.as_str(), "http://") || starts_with(url.as_str(), "https://") {
        return url;
    }
    let mut r = String::from_str("http://");
    r.append(url.as_str());
    r
}

/// Replaces the characters that cannot stand in a URL: every space becomes an
/// underscore.
pub fn replace_illegal_url_chars(s: &str) -> (r: String)
    ensures
        r@ == spaces_replaced(s@),
{
    let n = s.unicode_len();
    let mut r = String::new();
    let mut i: usize = 0;
    while i < n
        invariant
            n == s@.len(),
            i <= n,
            r@ == spaces_replaced(s@.subrange(0, i as int)),
        decreases n - i,
    {
        let c = s.get_char(i);
        if c == ' ' {
            r.append("_");
            proof {
                reveal_strlit("_");
            }
        } else {
            r.append(s.substring_char(i, i + 1));
        }
        assert(s@.subrange(0, i + 1) =~= s@.subrange(0, i as int).push(c));
        assert(spaces_replaced(s@.subrange(0, i + 1)) =~= spaces_replaced(
            s@.subrange(0, i as int),
        ).push(if c == ' ' { '_' } else { c }));
        i = i + 1;
    }
    assert(s@.subrange(0, n as int) =~= s@);
    r
}

/// Turns the path of a request into the URL it carries: the path without its
/// leading character, which is the `/`.
pub fn uri_to_url(uri: &str) -> (r: String)
    ensures
        r@ == if uri@.len() == 0 {
            uri@
        } else {
            uri@.drop_first()
        },
{
    let n = uri.unicode_len();
    if n == 0 {
        return String::from_str(uri);
    }
    let rest = uri.substring_char(1, n);
    assert(rest@ =~= uri@.drop_first());
    String::from_str(rest)
}

/// Relies on chrono's `Local::now` and `DateTime::timestamp_millis`: the
/// current time in milliseconds since the epoch. Nothing is promised of the
/// value.
#[verifier::external_body]
pub fn time_now() -> (r: i64) {
    chrono::Local::now().timestamp_millis()
}

/// Relies on rand's `thread_rng` and `RngCore::fill_bytes`: four bytes drawn
/// from the thread's generator. Nothing is promised of the values.
#[verifier::external_body]
fn random_bytes() -> (r: [u8; 4]) {
    let mut bytes: [u8; 4] = [0;4];
    rand::thread_rng().fill_bytes(&mut bytes);
    bytes
}

/// Relies on base64's `encode_config` with `URL_SAFE_NO_PAD`: the unpadded
/// URL-safe encoding, six characters for four bytes, each from the URL-safe
/// alphabet.
#[verifier::external_body]
fn encode_url_safe(bytes: &[u8; 4]) -> (r: String)
    ensures
        r@ == base64_url_of(bytes@),
        r@.len() == 6,
        forall|i: int| 0 <= i < r@.len() ==> is_url_safe_char(#[trigger] r@[i]),
{
    base64::encode_config(bytes, base64::URL_SAFE_NO_PAD)
}

/// Draws a candidate identifier: four random bytes in URL-safe base64, six
/// characters long. Nothing makes it unique; the store checks it.
pub fn generate_random_chars() -> (r: String)
    ensures
        exists|b: Seq<u8>| b.len() == 4 && r@ == base64_url_of(b),
        r@.len() == 6,
        forall|i: int| 0 <= i < r@.len() ==> is_url_safe_char(#[trigger] r@[i]),
{
    let bytes = random_bytes();
    let r = encode_url_safe(&bytes);
    assert(bytes@.len() == 4);
    r
}

/// How many random identifiers are tried before a create gives up.
pub const RANDOM_ID_RETRIES: u32 = 3;

/// Draws up to [`RANDOM_ID_RETRIES`] random identifiers and returns the first
/// that belongs to no link resolving at `now`.
pub fn get_random_id(store: &LinkStore, now: i64) -> (r: Result<String, ShortyError>)
    requires
        store.wf(),
    ensures
        r matches Ok(id) ==> !taken(store@, id@, now as int) && id@.len() == 6 && forall|i: int|
            0 <= i < id@.len() ==> is_url_safe_char(#[trigger] id@[i]),
        r is Err ==> r == Err::<String, ShortyError>(ShortyError::RandomIDMaxRetriesExceeded)
            && ids_exhausted(store@, now as int),
{
    let mut candidates: Vec<String> = Vec::new();
    let mut n: u32 = 0;
    while n < RANDOM_ID_RETRIES
        invariant
            n <= RANDOM_ID_RETRIES,
            candidates@.len() == n,
            forall|k: int|
                0 <= k < candidates@.len() ==> (#[trigger] candidates@[k])@.len() == 6 && forall|
                    i: int,
                | 0 <= i < candidates@[k]@.len() ==> is_url_safe_char(#[trigger] candidates@[k]@[i]),
        decreases RANDOM_ID_RETRIES - n,
    {
        candidates.push(generate_random_chars());
        n = n + 1;
    }
    let ghost drawn = candidates@.map_values(|c: String| c@);
    let r = store.pick_free_id(candidates, now);
    proof {
        if r is Err {
            assert forall|j: int| 0 <= j < drawn.len() implies (#[trigger] drawn[j]).len() == 6
                && taken(store@, drawn[j], now as int) by {
                assert(drawn[j] == candidates@[j]@);
            }
        }
    }
    r
}

} // verus!
