//! Construction of the provider's authorization URL.
//!
//! The URL is the one side-effect-free piece of the identity-provider
//! client: endpoint, `response_type=code`, client id, redirect URI, the
//! requested scopes joined with one space, and the CSRF `state`, with
//! every query value percent-encoded (RFC 3986: unreserved characters
//! pass, every other character becomes `%XX` per UTF-8 byte).

use vstd::prelude::*;

verus! {

/// An RFC 3986 unreserved character: letters, digits, `-` `.` `_` `~`.
pub open spec fn is_unreserved(c: char) -> bool {
    ||| 65 <= c as int <= 90  // 'A'..='Z'
    ||| 97 <= c as int <= 122  // 'a'..='z'
    ||| 48 <= c as int <= 57  // '0'..='9'
    ||| c == '-'
    ||| c == '.'
    ||| c == '_'
    ||| c == '~'
}

/// The upper-case hex digit of a value below 16.
pub open spec fn hex_digit(n: int) -> char {
    if n < 10 {
        ((48 + n) as u8) as char
    } else {
        ((55 + n) as u8) as char
    }
}

/// The UTF-8 encoding of one character.
pub open spec fn utf8_bytes(c: char) -> Seq<u8> {
    let v = c as int;
    if v < 0x80 {
        seq![v as u8]
    } else if v < 0x800 {
        seq![(0xC0 + v / 0x40) as u8, (0x80 + v % 0x40) as u8]
    } else if v < 0x10000 {
        seq![
            (0xE0 + v / 0x1000) as u8,
            (0x80 + (v / 0x40) % 0x40) as u8,
            (0x80 + v % 0x40) as u8,
        ]
    } else {
        seq![
            (0xF0 + v / 0x40000) as u8,
            (0x80 + (v / 0x1000) % 0x40) as u8,
            (0x80 + (v / 0x40) % 0x40) as u8,
            (0x80 + v % 0x40) as u8,
        ]
    }
}

/// `%XX` for one byte.
pub open spec fn encode_byte(b: u8) -> Seq<char> {
    seq!['%', hex_digit(b as int / 16), hex_digit(b as int % 16)]
}

/// How one character is rendered in a query value: unreserved characters
/// stand as they are, every other one as `%XX` per UTF-8 byte.
pub open spec fn encoded_char(c: char) -> Seq<char> {
    if is_unreserved(c) {
        seq![c]
    } else {
        let bs = utf8_bytes(c);
        if bs.len() == 1 {
            encode_byte(bs[0])
        } else if bs.len() == 2 {
            encode_byte(bs[0]) + encode_byte(bs[1])
        } else if bs.len() == 3 {
            encode_byte(bs[0]) + encode_byte(bs[1]) + encode_byte(bs[2])
        } else {
            encode_byte(bs[0]) + encode_byte(bs[1]) + encode_byte(bs[2]) + encode_byte(bs[3])
        }
    }
}

/// The percent-encoding of a whole value.
pub open spec fn percent_encoded(s: Seq<char>) -> Seq<char>
    decreases s.len(),
{
    if s.len() == 0 {
        Seq::empty()
    } else {
        percent_encoded(s.drop_last()) + encoded_char(s.last())
    }
}

/// Percent-encoding distributes over concatenation.
pub proof fn lemma_percent_encoded_concat(a: Seq<char>, b: Seq<char>)
    ensures
        percent_encoded(a + b) == percent_encoded(a) + percent_encoded(b),
    decreases b.len(),
{
    if b.len() == 0 {
        assert(a + b =~= a);
        assert(percent_encoded(b) =~= Seq::empty());
        assert(percent_encoded(a) + percent_encoded(b) =~= percent_encoded(a));
    } else {
        lemma_percent_encoded_concat(a, b.drop_last());
        assert((a + b).drop_last() =~= a + b.drop_last());
        assert((a + b).last() == b.last());
        assert(percent_encoded(a + b) =~= percent_encoded(a) + percent_encoded(b));
    }
}

/// The scope list as one value: scopes joined with a single space.
pub open spec fn scopes_joined(scopes: Seq<Seq<char>>) -> Seq<char>
    decreases scopes.len(),
{
    if scopes.len() == 0 {
        Seq::empty()
    } else if scopes.len() == 1 {
        scopes[0]
    } else {
        scopes_joined(scopes.drop_last()) + seq![' '] + scopes.last()
    }
}

/// The provider's authorization URL for one login attempt.
pub open spec fn authorization_url(
    endpoint: Seq<char>,
    client_id: Seq<char>,
    redirect_uri: Seq<char>,
    scopes: Seq<Seq<char>>,
    state: Seq<char>,
) -> Seq<char> {
    endpoint + "?response_type=code&client_id="@ + percent_encoded(client_id)
        + "&redirect_uri="@ + percent_encoded(redirect_uri) + "&scope="@ + percent_encoded(
        scopes_joined(scopes),
    ) + "&state="@ + percent_encoded(state)
}

/// The upper-case hex digit of a value below 16.
fn hex_char(n: u8) -> (c: char)
    requires
        n < 16,
    ensures
        c == hex_digit(n as int),
{
    if n < 10 {
        (48 + n) as char
    } else {
        (55 + n) as char
    }
}

/// Append `%XX` for one byte.
fn push_percent(out: &mut Vec<char>, b: u8)
    ensures
        final(out)@ == old(out)@ + encode_byte(b),
{
    out.push('%');
    out.push(hex_char(b / 16));
    out.push(hex_char(b % 16));
    proof {
        assert(out@ =~= old(out)@ + encode_byte(b));
    }
}

/// Append a string as it stands.
fn append_str(out: &mut Vec<char>, s: &str)
    ensures
        final(out)@ == old(out)@ + s@,
{
    let n = s.unicode_len();
    let mut i: usize = 0;
    while i < n
        invariant
            n == s@.len(),
            0 <= i <= n,
            out@ == old(out)@ + s@.take(i as int),
        decreases n - i,
    {
        let c = s.get_char(i);
        out.push(c);
        proof {
            assert(s@.take(i as int + 1) =~= s@.take(i as int).push(s@[i as int]));
            assert(out@ =~= old(out)@ + s@.take(i as int + 1));
        }
        i += 1;
    }
    proof {
        assert(s@.take(n as int) =~= s@);
    }
}

/// Append one character percent-encoded.
fn push_encoded_char(out: &mut Vec<char>, c: char)
    ensures
        final(out)@ == old(out)@ + encoded_char(c),
{
    let v = c as u32;
    let unreserved = (65 <= v && v <= 90) || (97 <= v && v <= 122) || (48 <= v && v <= 57) || c
        == '-' || c == '.' || c == '_' || c == '~';
    if unreserved {
        out.push(c);
        proof {
            assert(out@ =~= old(out)@ + seq![c]);
        }
    } else if v < 0x80 {
        push_percent(out, v as u8);
        proof {
            assert(utf8_bytes(c) =~= seq![(c as int) as u8]);
            assert(out@ =~= old(out)@ + encoded_char(c));
        }
    } else if v < 0x800 {
        push_percent(out, (0xC0 + v / 0x40) as u8);
        push_percent(out, (0x80 + v % 0x40) as u8);
        proof {
            assert(out@ =~= old(out)@ + encoded_char(c));
        }
    } else if v < 0x10000 {
        push_percent(out, (0xE0 + v / 0x1000) as u8);
        push_percent(out, (0x80 + (v / 0x40) % 0x40) as u8);
        push_percent(out, (0x80 + v % 0x40) as u8);
        proof {
            assert(out@ =~= old(out)@ + encoded_char(c));
        }
    } else {
        push_percent(out, (0xF0 + v / 0x40000) as u8);
        push_percent(out, (0x80 + (v / 0x1000) % 0x40) as u8);
        push_percent(out, (0x80 + (v / 0x40) % 0x40) as u8);
        push_percent(out, (0x80 + v % 0x40) as u8);
        proof {
            assert(out@ =~= old(out)@ + encoded_char(c));
        }
    }
}

/// Append a whole value percent-encoded.
fn append_encoded(out: &mut Vec<char>, s: &str)
    ensures
        final(out)@ == old(out)@ + percent_encoded(s@),
{
    let n = s.unicode_len();
    let mut i: usize = 0;
    while i < n
        invariant
            n == s@.len(),
            0 <= i <= n,
            out@ == old(out)@ + percent_encoded(s@.take(i as int)),
        decreases n - i,
    {
        let c = s.get_char(i);
        push_encoded_char(out, c);
        proof {
            assert(s@.take(i as int + 1).drop_last() =~= s@.take(i as int));
            assert(s@.take(i as int + 1).last() == s@[i as int]);
            assert(percent_encoded(s@.take(i as int + 1)) == percent_encoded(s@.take(i as int))
                + encoded_char(s@[i as int]));
            assert(out@ =~= old(out)@ + percent_encoded(s@.take(i as int + 1)));
        }
        i += 1;
    }
    proof {
        assert(s@.take(n as int) =~= s@);
    }
}

/// Relies on String's FromIterator over chars: collecting characters
/// yields the string of exactly those characters in order.
#[verifier::external_body]
fn chars_to_string(v: &Vec<char>) -> (r: String)
    ensures
        r@ == v@,
{
    v.iter().collect()
}

/// Build the authorization URL: endpoint, `response_type=code`, client
/// id, redirect URI, scopes joined with one space, and the CSRF `state`,
/// all query values percent-encoded.  Pure: no I/O is performed.
pub fn build_authorization_url(
    endpoint: &str,
    client_id: &str,
    redirect_uri: &str,
    scopes: &Vec<String>,
    state: &str,
) -> (r: String)
    ensures
        r@ == authorization_url(endpoint@, client_id@, redirect_uri@, scopes.deep_view(), state@),
{
    let mut out: Vec<char> = Vec::new();
    append_str(&mut out, endpoint);
    append_str(&mut out, "?response_type=code&client_id=");
    append_encoded(&mut out, client_id);
    append_str(&mut out, "&redirect_uri=");
    append_encoded(&mut out, redirect_uri);
    append_str(&mut out, "&scope=");
    let ghost scope_views: Seq<Seq<char>> = scopes.deep_view();
    let ghost before_scopes: Seq<char> = out@;
    let n = scopes.len();
    let mut i: usize = 0;
    while i < n
        invariant
            n == scopes.len(),
            0 <= i <= n,
            scope_views == scopes.deep_view(),
            out@ == before_scopes + percent_encoded(scopes_joined(scope_views.take(i as int))),
        decreases n - i,
    {
        if i > 0 {
            push_percent(&mut out, 32);
            proof {
                assert(utf8_bytes(' ') =~= seq![32u8]);
                assert(encoded_char(' ') == encode_byte(32));
            }
        }
        append_encoded(&mut out, scopes[i].as_str());
        proof {
            let taken = scope_views.take(i as int + 1);
            assert(scope_views[i as int] == scopes@[i as int]@);
            if i == 0 {
                assert(taken =~= seq![scope_views[0]]);
                assert(scopes_joined(taken) == scope_views[0]);
                assert(percent_encoded(scopes_joined(scope_views.take(0))) =~= Seq::empty());
                assert(out@ =~= before_scopes + percent_encoded(scopes_joined(taken)));
            } else {
                assert(taken.drop_last() =~= scope_views.take(i as int));
                assert(taken.last() == scope_views[i as int]);
                assert(scopes_joined(taken) == scopes_joined(scope_views.take(i as int))
                    + seq![' '] + scope_views[i as int]);
                lemma_percent_encoded_concat(
                    scopes_joined(scope_views.take(i as int)) + seq![' '],
                    scope_views[i as int],
                );
                lemma_percent_encoded_concat(scopes_joined(scope_views.take(i as int)), seq![' ']);
                assert(seq![' '].drop_last() =~= Seq::<char>::empty());
                assert(seq![' '].last() == ' ');
                assert(percent_encoded(Seq::<char>::empty()) =~= Seq::<char>::empty());
                assert(percent_encoded(seq![' ']) =~= Seq::<char>::empty() + encoded_char(' '));
                assert(percent_encoded(seq![' ']) =~= encoded_char(' '));
                assert(out@ =~= before_scopes + percent_encoded(scopes_joined(taken)));
            }
        }
        i += 1;
    }
    proof {
        assert(scope_views.take(n as int) =~= scope_views);
    }
    append_str(&mut out, "&state=");
    append_encoded(&mut out, state);
    proof {
        assert(out@ =~= authorization_url(
            endpoint@,
            client_id@,
            redirect_uri@,
            scopes.deep_view(),
            state@,
        ));
    }
    chars_to_string(&out)
}

} // verus!
