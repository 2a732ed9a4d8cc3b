//! Pure pieces of the browser sign-in flow: percent-encoding for the
//! authorization URL, parsing of the query string the local redirect
//! listener receives, and extraction of that query from the request line.
//! The listener socket itself lives outside the library.

use vstd::prelude::*;
use vstd::string::StringSliceAdditionalSpecFns;

use crate::text::{
    find_char, first_index_of, is_space, is_space_char, plus_to_space, replace_plus, seq_views,
    spec_split, split_char, str_eq,
};

verus! {

/// The result of the sign-in flow: the authorization code and the redirect
/// address it was delivered to.
pub struct OAuthResult {
    pub code: String,
    pub redirect_uri: String,
}

/// Bytes that percent-encoding passes through unchanged: ASCII letters,
/// digits, `-`, `_`, `.` and `~`.
pub open spec fn is_unreserved(b: u8) -> bool {
    (65u8 <= b <= 90u8) || (97u8 <= b <= 122u8) || (48u8 <= b <= 57u8) || b == 45u8 || b == 95u8
        || b == 46u8 || b == 126u8
}

/// The ASCII code of the uppercase hexadecimal digit `d`.
pub open spec fn hex_upper(d: u8) -> u8 {
    if d < 10 {
        (48u8 + d) as u8
    } else {
        (65u8 + (d - 10)) as u8
    }
}

/// The ASCII codes that encode one byte: the byte itself if unreserved,
/// else a percent sign and two uppercase hexadecimal digits.
pub open spec fn encoded_byte(b: u8) -> Seq<u8> {
    if is_unreserved(b) {
        seq![b]
    } else {
        seq![37u8, hex_upper(b / 16), hex_upper(b % 16)]
    }
}

/// The ASCII codes of the percent-encoded form of `bytes`.
pub open spec fn percent_encoded_bytes(bytes: Seq<u8>) -> Seq<u8>
    decreases bytes.len(),
{
    if bytes.len() == 0 {
        Seq::empty()
    } else {
        encoded_byte(bytes[0]) + percent_encoded_bytes(bytes.drop_first())
    }
}

/// ASCII codes read as characters.
pub open spec fn ascii_chars_of(bytes: Seq<u8>) -> Seq<char> {
    Seq::new(bytes.len(), |i: int| bytes[i] as char)
}

/// The percent-encoded form of `bytes`, as characters.
pub open spec fn percent_encoded(bytes: Seq<u8>) -> Seq<char> {
    ascii_chars_of(percent_encoded_bytes(bytes))
}

proof fn lemma_percent_encoded_snoc(bytes: Seq<u8>, b: u8)
    ensures
        percent_encoded_bytes(bytes.push(b)) == percent_encoded_bytes(bytes) + encoded_byte(b),
    decreases bytes.len(),
{
    if bytes.len() == 0 {
        assert(bytes.push(b).drop_first() =~= Seq::<u8>::empty());
        assert(percent_encoded_bytes(Seq::<u8>::empty()) =~= Seq::<u8>::empty());
        assert(percent_encoded_bytes(bytes.push(b)) =~= percent_encoded_bytes(bytes)
            + encoded_byte(b));
    } else {
        assert(bytes.push(b).drop_first() =~= bytes.drop_first().push(b));
        lemma_percent_encoded_snoc(bytes.drop_first(), b);
        assert(percent_encoded_bytes(bytes.push(b)) =~= percent_encoded_bytes(bytes)
            + encoded_byte(b));
    }
}

proof fn lemma_percent_encoded_ascii(bytes: Seq<u8>)
    ensures
        forall|i: int|
            0 <= i < percent_encoded_bytes(bytes).len() ==> percent_encoded_bytes(bytes)[i] < 128,
    decreases bytes.len(),
{
    if bytes.len() > 0 {
        lemma_percent_encoded_ascii(bytes.drop_first());
        let enc = encoded_byte(bytes[0]);
        let rest = percent_encoded_bytes(bytes.drop_first());
        assert(forall|i: int| 0 <= i < enc.len() ==> enc[i] < 128);
        assert forall|i: int|
            0 <= i < percent_encoded_bytes(bytes).len() implies percent_encoded_bytes(bytes)[i]
            < 128 by {
            if i < enc.len() {
                assert(percent_encoded_bytes(bytes)[i] == enc[i]);
            } else {
                assert(percent_encoded_bytes(bytes)[i] == rest[i - enc.len()]);
            }
        }
    }
}

/// Relies on `String::from_utf8`: a sequence of ASCII bytes is valid UTF-8
/// and decodes to exactly those characters.
#[verifier::external_body]
fn string_from_ascii(bytes: &Vec<u8>) -> (r: String)
    requires
        forall|i: int| 0 <= i < bytes@.len() ==> bytes@[i] < 128,
    ensures
        r@ == ascii_chars_of(bytes@),
{
    match String::from_utf8(bytes.clone()) {
        Ok(s) => s,
        Err(_) => String::new(),
    }
}

fn push_encoded_byte(out: &mut Vec<u8>, b: u8)
    ensures
        final(out)@ == old(out)@ + encoded_byte(b),
{
    let unreserved = (65u8 <= b && b <= 90u8) || (97u8 <= b && b <= 122u8) || (48u8 <= b && b
        <= 57u8) || b == 45u8 || b == 95u8 || b == 46u8 || b == 126u8;
    if unreserved {
        out.push(b);
        proof {
            assert(out@ =~= old(out)@ + encoded_byte(b));
        }
    } else {
        out.push(37u8);
        let hi = b / 16;
        let lo = b % 16;
        out.push(if hi < 10 {
            48u8 + hi
        } else {
            65u8 + (hi - 10)
        });
        out.push(if lo < 10 {
            48u8 + lo
        } else {
            65u8 + (lo - 10)
        });
        proof {
            assert(out@ =~= old(out)@ + encoded_byte(b));
        }
    }
}

/// Percent-encodes the UTF-8 bytes of `s`, keeping unreserved ASCII bytes
/// and writing every other byte as `%` followed by two uppercase
/// hexadecimal digits.
pub fn simple_percent_encode(s: &str) -> (r: String)
    ensures
        r@ == percent_encoded(s.spec_bytes()),
{
    let bytes: Vec<u8> = s.as_bytes_vec();
    let len = bytes.len();
    let mut out: Vec<u8> = Vec::new();
    let mut i: usize = 0;
    proof {
        assert(bytes@.take(0) =~= Seq::<u8>::empty());
    }
    while i < len
        invariant
            len == bytes@.len(),
            i <= len,
            out@ == percent_encoded_bytes(bytes@.take(i as int)),
        decreases len - i,
    {
        push_encoded_byte(&mut out, bytes[i]);
        proof {
            lemma_percent_encoded_snoc(bytes@.take(i as int), bytes@[i as int]);
            assert(bytes@.take(i as int).push(bytes@[i as int]) =~= bytes@.take(i + 1));
        }
        i = i + 1;
    }
    proof {
        assert(bytes@.take(len as int) =~= bytes@);
        lemma_percent_encoded_ascii(bytes@);
    }
    string_from_ascii(&out)
}

/// The key and value of one query segment, split at the first `=`; a
/// segment without `=` carries no value.
pub open spec fn spec_pair(seg: Seq<char>) -> Option<(Seq<char>, Seq<char>)> {
    let e = first_index_of(seg, '=');
    if e == seg.len() {
        None
    } else {
        Some((seg.take(e), seg.skip(e + 1)))
    }
}

/// The value of the first query segment whose key is `key`, with `+`
/// decoded to a space.
pub open spec fn find_param(segs: Seq<Seq<char>>, key: Seq<char>) -> Option<Seq<char>>
    decreases segs.len(),
{
    if segs.len() == 0 {
        None
    } else {
        match spec_pair(segs[0]) {
            Some(kv) => if kv.0 == key {
                Some(plus_to_space(kv.1))
            } else {
                find_param(segs.drop_first(), key)
            },
            None => find_param(segs.drop_first(), key),
        }
    }
}

/// The value of `key` in the `&`-separated query string `query`, if any.
pub open spec fn spec_query_param(query: Seq<char>, key: Seq<char>) -> Option<Seq<char>> {
    find_param(spec_split(query, '&'), key)
}

/// Looks `key` up in the `&`-separated query string: the first segment of
/// the form `key=value` yields its value with `+` decoded to spaces.
pub fn parse_query_param(query: &str, key: &str) -> (r: Option<String>)
    ensures
        r matches Some(v) ==> spec_query_param(query@, key@) == Some(v@),
        r is None ==> spec_query_param(query@, key@) is None,
{
    let segments = split_char(query, '&');
    let n = segments.len();
    let mut k: usize = 0;
    proof {
        assert(seq_views(segments@).skip(0) =~~= seq_views(segments@));
    }
    while k < n
        invariant
            n == segments@.len(),
            k <= n,
            seq_views(segments@) == spec_split(query@, '&'),
            spec_query_param(query@, key@) == find_param(
                seq_views(segments@).skip(k as int),
                key@,
            ),
        decreases n - k,
    {
        let seg: &String = &segments[k];
        proof {
            assert(seq_views(segments@).skip(k as int)[0] == seg@);
            assert(seq_views(segments@).skip(k as int).drop_first() =~~= seq_views(
                segments@,
            ).skip(k + 1));
        }
        match find_char(seg.as_str(), '=') {
            None => {},
            Some(e) => {
                let seg_len = seg.as_str().unicode_len();
                let key_part = seg.as_str().substring_char(0, e);
                proof {
                    assert(seg@.subrange(0, e as int) =~= seg@.take(e as int));
                }
                if str_eq(key_part, key) {
                    let value_part = seg.as_str().substring_char(e + 1, seg_len);
                    proof {
                        assert(seg@.subrange(e + 1, seg@.len() as int) =~= seg@.skip(e + 1));
                    }
                    let replaced = replace_plus(value_part);
                    return Some(replaced);
                }
            },
        }
        k = k + 1;
    }
    None
}

/// The first `\n`-terminated line of `s`, without a trailing `\r`.
pub open spec fn spec_first_line(s: Seq<char>) -> Seq<char> {
    let line = s.take(first_index_of(s, '\n'));
    if line.len() > 0 && line.last() == '\r' {
        line.drop_last()
    } else {
        line
    }
}

/// The first index `j >= i` where `is_space(s[j]) == want_space`, or the
/// length of `s`.
pub open spec fn scan_to(s: Seq<char>, i: int, want_space: bool) -> int
    decreases s.len() - i,
{
    if i < 0 || i >= s.len() {
        s.len() as int
    } else if is_space(s[i]) == want_space {
        i
    } else {
        scan_to(s, i + 1, want_space)
    }
}

/// The second whitespace-separated token of `s`.
pub open spec fn spec_second_token(s: Seq<char>) -> Seq<char> {
    let a = scan_to(s, 0, false);
    let b = scan_to(s, a, true);
    let c = scan_to(s, b, false);
    let d = scan_to(s, c, true);
    s.subrange(c, d)
}

/// The query part of an HTTP request target: what follows the first `?`,
/// or nothing when there is no `?`.
pub open spec fn spec_query_of_target(path: Seq<char>) -> Seq<char> {
    let q = first_index_of(path, '?');
    if q == path.len() {
        Seq::empty()
    } else {
        path.skip(q + 1)
    }
}

/// The query string carried by a raw HTTP request: the part after `?` in
/// the request target, the second token of the first request line.
pub open spec fn spec_redirect_query(request: Seq<char>) -> Seq<char> {
    spec_query_of_target(spec_second_token(spec_first_line(request)))
}

proof fn lemma_scan_to_at(s: Seq<char>, i: int, j: int, want_space: bool)
    requires
        0 <= i <= j <= s.len(),
        forall|t: int| i <= t < j ==> is_space(s[t]) != want_space,
        j < s.len() ==> is_space(s[j]) == want_space,
    ensures
        scan_to(s, i, want_space) == if j < s.len() {
            j
        } else {
            s.len() as int
        },
    decreases j - i,
{
    if i < j {
        lemma_scan_to_at(s, i + 1, j, want_space);
    }
}

fn scan_exec(s: &str, from: usize, len: usize, want_space: bool) -> (r: usize)
    requires
        len == s@.len(),
        from <= len,
    ensures
        r == scan_to(s@, from as int, want_space),
        from <= r <= len,
    decreases len - from,
{
    let mut j: usize = from;
    while j < len
        invariant
            len == s@.len(),
            from <= j <= len,
            forall|t: int| from <= t < j ==> is_space(s@[t]) != want_space,
        decreases len - j,
    {
        if is_space_char(s.get_char(j)) == want_space {
            proof {
                lemma_scan_to_at(s@, from as int, j as int, want_space);
            }
            return j;
        }
        j = j + 1;
    }
    proof {
        lemma_scan_to_at(s@, from as int, len as int, want_space);
    }
    len
}

/// Extracts the query string from a raw HTTP request: the part after `?`
/// of the request target on the first line.
pub fn redirect_query(request: &str) -> (r: String)
    ensures
        r@ == spec_redirect_query(request@),
{
    let nl = match find_char(request, '\n') {
        Some(i) => i,
        None => request.unicode_len(),
    };
    let mut line = request.substring_char(0, nl);
    proof {
        assert(request@.subrange(0, nl as int) =~= request@.take(first_index_of(request@, '\n')));
    }
    let mut line_len = line.unicode_len();
    if line_len > 0 && line.get_char(line_len - 1) == '\r' {
        line = line.substring_char(0, line_len - 1);
        proof {
            assert(line@ =~= spec_first_line(request@));
        }
        line_len = line_len - 1;
    }
    proof {
        assert(line@ =~= spec_first_line(request@));
    }
    let a = scan_exec(line, 0, line_len, false);
    let b = scan_exec(line, a, line_len, true);
    let c = scan_exec(line, b, line_len, false);
    let d = scan_exec(line, c, line_len, true);
    let target = line.substring_char(c, d);
    proof {
        assert(target@ =~= spec_second_token(line@));
    }
    let target_len = target.unicode_len();
    match find_char(target, '?') {
        Some(q) => {
            let query = target.substring_char(q + 1, target_len);
            proof {
                assert(query@ =~= spec_query_of_target(target@));
            }
            String::from_str(query)
        },
        None => {
            proof {
                assert(spec_query_of_target(target@) =~= Seq::<char>::empty());
            }
            String::new()
        },
    }
}

/// Builds the Google authorization URL for the local-redirect sign-in flow,
/// percent-encoding the redirect address and the scope list.
pub fn build_auth_url(client_id: &str, redirect_uri: &str, scopes: &str, state: &str) -> (url:
    String)
    ensures
        url@ == "https://accounts.google.com/o/oauth2/v2/auth?client_id="@ + client_id@
            + "&redirect_uri="@ + percent_encoded(redirect_uri.spec_bytes())
            + "&response_type=code&scope="@ + percent_encoded(scopes.spec_bytes()) + "&state="@
            + state@ + "&access_type=offline&prompt=consent"@,
{
    let mut url = String::from_str("https://accounts.google.com/o/oauth2/v2/auth?client_id=");
    url.append(client_id);
    url.append("&redirect_uri=");
    let encoded_redirect = simple_percent_encode(redirect_uri);
    url.append(encoded_redirect.as_str());
    url.append("&response_type=code&scope=");
    let encoded_scopes = simple_percent_encode(scopes);
    url.append(encoded_scopes.as_str());
    url.append("&state=");
    url.append(state);
    url.append("&access_type=offline&prompt=consent");
    url
}

} // verus!
