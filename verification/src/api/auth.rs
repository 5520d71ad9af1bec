use vstd::prelude::*;
use crate::api::codec::{
    base64_encoding, encode_base64_standard, encode_base64_url_safe, is_url_safe_base64_char,
    random_seed, sha256, sha256_digest, unpadded_base64_len,
};
use crate::text::{
    after_char, before_char, chars_of, find_char, first_line, lemma_before_char_at, range_equals,
    split_bounds, split_char, ws_token_bounds, ws_tokens,
};

verus! {

// ---------------------------------------------------------------------------
// Clock
// ---------------------------------------------------------------------------

/// The system clock's time type, carried through unchanged.
#[verifier::external_type_specification]
#[verifier::external_body]
pub struct ExSystemTime(std::time::SystemTime);

/// `SystemTime::now`. Nothing is claimed of the result: it is whatever the
/// clock reads.
#[verifier::external_body]
fn clock_now() -> std::time::SystemTime {
    std::time::SystemTime::now()
}

/// `SystemTime::duration_since(UNIX_EPOCH)`, `None` when `t` lies before the
/// epoch. Nothing is claimed of the result, as `t` is opaque here.
#[verifier::external_body]
fn since_epoch(t: &std::time::SystemTime) -> Option<std::time::Duration> {
    t.duration_since(std::time::UNIX_EPOCH).ok()
}

/// `Duration::as_secs`: the whole seconds of `d`. Nothing is claimed of the
/// result, as `d` is opaque here.
#[verifier::external_body]
fn whole_seconds(d: &std::time::Duration) -> u64 {
    d.as_secs()
}

/// Seconds since the Unix epoch by the system clock, 0 if the clock reads
/// earlier than the epoch.
pub fn unix_now() -> u64 {
    match since_epoch(&clock_now()) {
        Some(d) => whole_seconds(&d),
        None => 0,
    }
}

// ---------------------------------------------------------------------------
// PKCE helpers
// ---------------------------------------------------------------------------

/// The S256 code challenge of a PKCE code verifier: the URL-safe, unpadded
/// base64 text of the SHA-256 digest of the verifier's UTF-8 bytes.
pub open spec fn pkce_challenge(verifier: Seq<char>) -> Seq<char> {
    base64_encoding(true, sha256_digest(vstd::utf8::encode_utf8(verifier)))
}

/// The PKCE pair made from the random bytes `seed`: the verifier is their
/// URL-safe, unpadded base64 text, the challenge is derived from it.
pub fn pkce_from_seed(seed: &[u8]) -> (r: (String, String))
    requires
        seed@.len() <= usize::MAX / 2,
    ensures
        r.0@ == base64_encoding(true, seed@),
        r.1@ == pkce_challenge(r.0@),
        r.0@.len() == unpadded_base64_len(seed@.len()),
        r.1@.len() == 43,
        forall|i: int| 0 <= i < r.0@.len() ==> is_url_safe_base64_char(#[trigger] r.0@[i]),
        forall|i: int| 0 <= i < r.1@.len() ==> is_url_safe_base64_char(#[trigger] r.1@[i]),
{
    let verifier = encode_base64_url_safe(seed);
    let hash = sha256(verifier.as_str().as_bytes());
    let challenge = encode_base64_url_safe(hash.as_slice());
    (verifier, challenge)
}

/// Generate a PKCE (code_verifier, code_challenge) pair using S256, from 32
/// random bytes; `None` when the operating system's random source fails.
/// Both texts are 43 characters of the URL-safe base64 alphabet.
pub fn generate_pkce() -> (r: Option<(String, String)>)
    ensures
        r matches Some(p) ==> {
            &&& exists|seed: Seq<u8>| seed.len() == 32 && p.0@ == base64_encoding(true, seed)
            &&& p.1@ == pkce_challenge(p.0@)
            &&& p.0@.len() == 43
            &&& p.1@.len() == 43
            &&& forall|i: int| 0 <= i < p.0@.len() ==> is_url_safe_base64_char(#[trigger] p.0@[i])
            &&& forall|i: int| 0 <= i < p.1@.len() ==> is_url_safe_base64_char(#[trigger] p.1@[i])
        },
{
    match random_seed() {
        Some(seed) => Some(pkce_from_seed(seed.as_slice())),
        None => None,
    }
}

// ---------------------------------------------------------------------------
// Redirect URI
// ---------------------------------------------------------------------------

/// The decimal digit for `d` (below ten).
pub open spec fn digit_char(d: nat) -> char {
    if d == 0 {
        '0'
    } else if d == 1 {
        '1'
    } else if d == 2 {
        '2'
    } else if d == 3 {
        '3'
    } else if d == 4 {
        '4'
    } else if d == 5 {
        '5'
    } else if d == 6 {
        '6'
    } else if d == 7 {
        '7'
    } else if d == 8 {
        '8'
    } else {
        '9'
    }
}

/// `n` written in decimal, most significant digit first, with no leading
/// zero (zero itself is `0`).
pub open spec fn decimal_text(n: nat) -> Seq<char>
    decreases n,
{
    if n < 10 {
        seq![digit_char(n)]
    } else {
        decimal_text(n / 10).push(digit_char(n % 10))
    }
}

/// Append the decimal digit `d` to `out`.
fn append_digit(out: &mut String, d: u16)
    requires
        d < 10,
    ensures
        final(out)@ == old(out)@.push(digit_char(d as nat)),
{
    proof {
        reveal_strlit("0");
        reveal_strlit("1");
        reveal_strlit("2");
        reveal_strlit("3");
        reveal_strlit("4");
        reveal_strlit("5");
        reveal_strlit("6");
        reveal_strlit("7");
        reveal_strlit("8");
        reveal_strlit("9");
    }
    let digit = if d == 0 {
        "0"
    } else if d == 1 {
        "1"
    } else if d == 2 {
        "2"
    } else if d == 3 {
        "3"
    } else if d == 4 {
        "4"
    } else if d == 5 {
        "5"
    } else if d == 6 {
        "6"
    } else if d == 7 {
        "7"
    } else if d == 8 {
        "8"
    } else {
        "9"
    };
    assert(digit@ =~= seq![digit_char(d as nat)]);
    out.append(digit);
}

/// Append `n` in decimal to `out`.
fn append_decimal(out: &mut String, n: u16)
    ensures
        final(out)@ == old(out)@ + decimal_text(n as nat),
    decreases n,
{
    if n >= 10 {
        append_decimal(out, n / 10);
    }
    append_digit(out, n % 10);
    assert(out@ =~= old(out)@ + decimal_text(n as nat));
}

/// The redirect URI that the local login server listens on.
pub open spec fn redirect_uri_text(port: u16) -> Seq<char> {
    "http://localhost:"@ + decimal_text(port as nat) + "/callback"@
}

/// The OAuth2 redirect URI for a login server on `port` of this machine:
/// `http://localhost:<port>/callback`.
pub fn redirect_uri(port: u16) -> (r: String)
    ensures
        r@ == redirect_uri_text(port),
{
    let mut uri = String::from_str("http://localhost:");
    append_decimal(&mut uri, port);
    uri.append("/callback");
    uri
}

// ---------------------------------------------------------------------------
// Authorization URL
// ---------------------------------------------------------------------------

/// `parts` joined with `sep` between each two of them (what `[&str]::join` gives).
pub open spec fn join(parts: Seq<Seq<char>>, sep: Seq<char>) -> Seq<char>
    decreases parts.len(),
{
    if parts.len() == 0 {
        Seq::empty()
    } else if parts.len() == 1 {
        parts[0]
    } else {
        join(parts.drop_last(), sep) + sep + parts.last()
    }
}

/// The TIDAL authorization URL for the given parameters and scope text.
pub open spec fn auth_url(
    client_id: Seq<char>,
    redirect_uri: Seq<char>,
    code_challenge: Seq<char>,
    state: Seq<char>,
    scope: Seq<char>,
) -> Seq<char> {
    "https://login.tidal.com/authorize?response_type=code&client_id="@ + client_id
        + "&redirect_uri="@ + redirect_uri + "&scope="@ + scope
        + "&code_challenge_method=S256&code_challenge="@ + code_challenge + "&state="@ + state
}

/// The texts of a slice of string slices.
pub open spec fn texts(scopes: Seq<&str>) -> Seq<Seq<char>> {
    scopes.map_values(|s: &str| s@)
}

/// Build the TIDAL authorization URL that the user must open in a browser;
/// the scopes are joined with `%20`.
pub fn build_auth_url(
    client_id: &str,
    redirect_uri: &str,
    code_challenge: &str,
    state: &str,
    scopes: &[&str],
) -> (url: String)
    ensures
        url@ == auth_url(
            client_id@,
            redirect_uri@,
            code_challenge@,
            state@,
            join(texts(scopes@), "%20"@),
        ),
{
    let mut scope_str = String::new();
    let ghost parts = texts(scopes@);
    let n = scopes.len();
    let mut i: usize = 0;
    assert(parts.take(0) =~= Seq::<Seq<char>>::empty());
    while i < n
        invariant
            n == scopes@.len(),
            parts == texts(scopes@),
            i <= n,
            scope_str@ == join(parts.take(i as int), "%20"@),
        decreases n - i,
    {
        if i != 0 {
            scope_str.append("%20");
        }
        scope_str.append(scopes[i]);
        assert(parts.take(i + 1).drop_last() =~= parts.take(i as int));
        i = i + 1;
    }
    assert(parts.take(n as int) =~= parts);
    let mut url = String::from_str("https://login.tidal.com/authorize?response_type=code&client_id=");
    url.append(client_id);
    url.append("&redirect_uri=");
    url.append(redirect_uri);
    url.append("&scope=");
    url.append(scope_str.as_str());
    url.append("&code_challenge_method=S256&code_challenge=");
    url.append(code_challenge);
    url.append("&state=");
    url.append(state);
    url
}

// ---------------------------------------------------------------------------
// Client credentials
// ---------------------------------------------------------------------------

/// The `Authorization` header value of the Client Credentials flow:
/// `Basic ` and the standard base64 text of `client_id:client_secret`.
pub fn basic_credentials_header(client_id: &str, client_secret: &str) -> (h: String)
    requires
        client_id@.len() + client_secret@.len() < usize::MAX / 8,
    ensures
        h@ == "Basic "@ + base64_encoding(
            false,
            vstd::utf8::encode_utf8(client_id@ + ":"@ + client_secret@),
        ),
{
    let mut pair = String::from_str(client_id);
    pair.append(":");
    pair.append(client_secret);
    let bytes = pair.as_str().as_bytes();
    proof {
        lemma_utf8_len_bound(pair@);
        assert(bytes@ == vstd::utf8::encode_utf8(pair@));
        assert(pair@ == client_id@ + ":"@ + client_secret@);
        reveal_strlit(":");
    }
    let credentials = encode_base64_standard(bytes);
    let mut h = String::from_str("Basic ");
    h.append(credentials.as_str());
    h
}

// ---------------------------------------------------------------------------
// Redirect request parsing
// ---------------------------------------------------------------------------

/// The value of query parameter `key` among `pairs` (each `key=value`, or
/// just `key` for an empty value): that of the first pair whose key matches.
pub open spec fn lookup_param(pairs: Seq<Seq<char>>, key: Seq<char>) -> Option<Seq<char>>
    decreases pairs.len(),
{
    if pairs.len() == 0 {
        None
    } else if before_char(pairs[0], '=') == key {
        Some(
            match after_char(pairs[0], '=') {
                Some(v) => v,
                None => Seq::empty(),
            },
        )
    } else {
        lookup_param(pairs.drop_first(), key)
    }
}

/// The value of query parameter `key` in an HTTP request such as
/// `GET /callback?code=XXX&state=YYY HTTP/1.1`: take the first line, its
/// second white-space separated word, the text after its first `?`, split it
/// at `&`, and look the key up.
pub open spec fn query_param(request: Seq<char>, key: Seq<char>) -> Option<Seq<char>> {
    match first_line(request) {
        None => None,
        Some(line) => if ws_tokens(line).len() < 2 {
            None
        } else {
            match after_char(ws_tokens(line)[1], '?') {
                None => None,
                Some(query) => lookup_param(split_char(query, '&'), key),
            }
        },
    }
}

/// Extract the value of query parameter `key` from the request line of an
/// HTTP request.
pub fn extract_query_param(request: &str, key: &str) -> (r: Option<String>)
    ensures
        match query_param(request@, key@) {
            Some(v) => r matches Some(s) && s@ == v,
            None => r is None,
        },
{
    let v = chars_of(request);
    let n = v.len();
    if n == 0 {
        return None;
    }
    assert(v@.subrange(0, n as int) =~= v@);
    let nl = find_char(&v, 0, n, '\n');
    proof {
        lemma_before_char_at(v@, '\n', nl as int);
    }
    let mut le = nl;
    if nl < n && nl > 0 && v[nl - 1] == '\r' {
        le = nl - 1;
    }
    let ghost line = v@.subrange(0, le as int);
    assert(first_line(request@) == Some(line)) by {
        assert(before_char(v@, '\n') =~= v@.take(nl as int));
        if nl < n && nl > 0 && v@[nl - 1] == '\r' {
            assert(v@.take(nl as int).drop_last() =~= line);
        } else {
            assert(v@.take(nl as int) =~= line);
        }
    }
    let toks = ws_token_bounds(&v, 0, le);
    if toks.len() < 2 {
        return None;
    }
    let (ps, pe) = toks[1];
    let ghost path = v@.subrange(ps as int, pe as int);
    assert(ws_tokens(line)[1] == path);
    let q = find_char(&v, ps, pe, '?');
    proof {
        lemma_before_char_at(path, '?', q - ps);
    }
    if q == pe {
        return None;
    }
    let ghost query = v@.subrange(q + 1, pe as int);
    assert(path.skip(q - ps + 1) =~= query);
    let pairs = split_bounds(&v, q + 1, pe, '&');
    let ghost all = split_char(query, '&');
    assert(query_param(request@, key@) == lookup_param(all, key@));
    let kv = chars_of(key);
    let mut i: usize = 0;
    assert(all.skip(0) =~= all);
    while i < pairs.len()
        invariant
            v@ == request@,
            kv@ == key@,
            query_param(request@, key@) == lookup_param(all, key@),
            all == split_char(query, '&'),
            query == v@.subrange(q + 1, pe as int),
            q + 1 <= pe <= v@.len(),
            pairs@.len() == all.len(),
            forall|k: int|
                0 <= k < pairs@.len() ==> {
                    &&& q + 1 <= (#[trigger] pairs@[k]).0 <= pairs@[k].1 <= pe
                    &&& v@.subrange(pairs@[k].0 as int, pairs@[k].1 as int) == all[k]
                },
            i <= pairs@.len(),
            lookup_param(all, key@) == lookup_param(all.skip(i as int), key@),
        decreases pairs.len() - i,
    {
        let (a, b) = pairs[i];
        let ghost pair = v@.subrange(a as int, b as int);
        assert(all.skip(i as int)[0] == pair);
        let eq = find_char(&v, a, b, '=');
        proof {
            lemma_before_char_at(pair, '=', eq - a);
            assert(before_char(pair, '=') =~= v@.subrange(a as int, eq as int));
        }
        assert(all.skip(i as int).len() > 0);
        if range_equals(&v, a, eq, &kv) {
            if eq < b {
                assert(pair.skip(eq - a + 1) =~= v@.subrange(eq + 1, b as int));
                assert(lookup_param(all.skip(i as int), key@) == Some(v@.subrange(eq + 1, b as int)));
                let value = request.substring_char(eq + 1, b);
                return Some(String::from_str(value));
            } else {
                assert(lookup_param(all.skip(i as int), key@) == Some(Seq::<char>::empty()));
                return Some(String::new());
            }
        }
        assert(all.skip(i as int).drop_first() =~= all.skip(i + 1));
        i = i + 1;
    }
    None
}

/// UTF-8 takes at most four bytes per character.
pub proof fn lemma_utf8_len_bound(s: Seq<char>)
    ensures
        vstd::utf8::encode_utf8(s).len() <= 4 * s.len(),
    decreases s.len(),
{
    if s.len() > 0 {
        lemma_utf8_len_bound(s.drop_first());
        assert(vstd::utf8::encode_scalar(s[0] as u32).len() <= 4);
    }
}

} // verus!
