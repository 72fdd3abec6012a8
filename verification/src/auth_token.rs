//! Extracting the auth token from a connection's handshake data.
//!
//! A client may present the token directly in a `token` field, or in an
//! `authorization` field with or without a `Bearer` prefix. The `token`
//! field wins; blank fields count as absent.

use vstd::prelude::*;

verus! {

/// ASCII whitespace, as trimmed from handshake fields.
pub open spec fn spec_is_space(c: char) -> bool {
    c == ' ' || c == '\t' || c == '\n' || c == '\r' || c == '\u{b}' || c == '\u{c}'
}

fn is_space_char(c: char) -> (r: bool)
    ensures
        r == spec_is_space(c),
{
    c == ' ' || c == '\t' || c == '\n' || c == '\r' || c == '\u{b}' || c == '\u{c}'
}

/// A string with its leading whitespace dropped.
pub open spec fn spec_trim_start(s: Seq<char>) -> Seq<char>
    decreases s.len(),
{
    if s.len() == 0 {
        s
    } else if spec_is_space(s[0]) {
        spec_trim_start(s.drop_first())
    } else {
        s
    }
}

/// A string with its trailing whitespace dropped.
pub open spec fn spec_trim_end(s: Seq<char>) -> Seq<char>
    decreases s.len(),
{
    if s.len() == 0 {
        s
    } else if spec_is_space(s.last()) {
        spec_trim_end(s.drop_last())
    } else {
        s
    }
}

/// A string with whitespace dropped on both sides.
pub open spec fn spec_trim(s: Seq<char>) -> Seq<char> {
    spec_trim_end(spec_trim_start(s))
}

proof fn lemma_trim_start_at(s: Seq<char>, a: int)
    requires
        0 <= a <= s.len(),
        forall|j: int| 0 <= j < a ==> spec_is_space(s[j]),
        a == s.len() || !spec_is_space(s[a]),
    ensures
        spec_trim_start(s) == s.subrange(a, s.len() as int),
    decreases s.len(),
{
    if a == 0 {
        if s.len() == 0 || !spec_is_space(s[0]) {
            assert(s =~= s.subrange(0, s.len() as int));
        }
    } else {
        let d = s.drop_first();
        lemma_trim_start_at(d, a - 1);
        assert(d.subrange(a - 1, d.len() as int) =~= s.subrange(a, s.len() as int));
    }
}

proof fn lemma_trim_end_at(s: Seq<char>, b: int)
    requires
        0 <= b <= s.len(),
        forall|j: int| b <= j < s.len() ==> spec_is_space(s[j]),
        b == 0 || !spec_is_space(s[b - 1]),
    ensures
        spec_trim_end(s) == s.subrange(0, b),
    decreases s.len(),
{
    if b == s.len() {
        if s.len() == 0 || !spec_is_space(s.last()) {
            assert(s =~= s.subrange(0, s.len() as int));
        } else {
            assert(!spec_is_space(s[b - 1]));
        }
    } else {
        let d = s.drop_last();
        lemma_trim_end_at(d, b);
        assert(d.subrange(0, b) =~= s.subrange(0, b));
    }
}

/// Drops whitespace from both ends of a string.
pub fn trim(s: &str) -> (r: String)
    ensures
        r@ == spec_trim(s@),
{
    let n = s.unicode_len();
    let mut a: usize = 0;
    while a < n && is_space_char(s.get_char(a))
        invariant
            n == s@.len(),
            a <= n,
            forall|j: int| 0 <= j < a ==> spec_is_space(s@[j]),
        decreases n - a,
    {
        a += 1;
    }
    let mut b: usize = n;
    while b > a && is_space_char(s.get_char(b - 1))
        invariant
            n == s@.len(),
            a <= b <= n,
            forall|j: int| b <= j < n ==> spec_is_space(s@[j]),
        decreases b,
    {
        b -= 1;
    }
    let out = s.substring_char(a, b).to_owned();
    proof {
        lemma_trim_start_at(s@, a as int);
        let t = s@.subrange(a as int, n as int);
        lemma_trim_end_at(t, b - a);
        assert(t.subrange(0, b - a) =~= s@.subrange(a as int, b as int));
        assert(out@ == spec_trim(s@));
    }
    out
}

/// The ASCII-lowercase form of a character; everything else is untouched.
pub open spec fn spec_ascii_lower(c: char) -> char {
    if 'A' <= c && c <= 'Z' {
        ((c as u8) + 32) as char
    } else {
        c
    }
}

fn ascii_lower(c: char) -> (r: char)
    ensures
        r == spec_ascii_lower(c),
{
    if c >= 'A' && c <= 'Z' {
        ((c as u8) + 32) as char
    } else {
        c
    }
}

/// Character-wise equality up to ASCII case.
pub open spec fn spec_eq_ignore_ascii_case(a: Seq<char>, b: Seq<char>) -> bool {
    a.len() == b.len() && forall|i: int|
        0 <= i < a.len() ==> spec_ascii_lower(a[i]) == spec_ascii_lower(#[trigger] b[i])
}

fn eq_ignore_ascii_case(a: &str, b: &str) -> (r: bool)
    ensures
        r == spec_eq_ignore_ascii_case(a@, b@),
{
    let na = a.unicode_len();
    let nb = b.unicode_len();
    if na != nb {
        return false;
    }
    let mut i: usize = 0;
    while i < na
        invariant
            na == a@.len(),
            na == b@.len(),
            i <= na,
            forall|j: int|
                0 <= j < i ==> spec_ascii_lower(a@[j]) == spec_ascii_lower(#[trigger] b@[j]),
        decreases na - i,
    {
        if ascii_lower(a.get_char(i)) != ascii_lower(b.get_char(i)) {
            return false;
        }
        i += 1;
    }
    true
}

/// The token a handshake carries: the trimmed `token` field when it is
/// non-blank; else the trimmed `authorization` field, with a
/// case-insensitive `Bearer ` prefix stripped and the remainder trimmed
/// again; a blank outcome counts as no token.
pub open spec fn spec_extract_token(
    token: Option<Seq<char>>,
    authorization: Option<Seq<char>>,
) -> Option<Seq<char>> {
    if token is Some && spec_trim(token->0).len() > 0 {
        Some(spec_trim(token->0))
    } else {
        match authorization {
            None => None,
            Some(auth) => {
                let a = spec_trim(auth);
                if a.len() == 0 {
                    None
                } else if a.len() >= 7 && spec_eq_ignore_ascii_case(
                    a.subrange(0, 7),
                    "Bearer "@,
                ) {
                    let bearer = spec_trim(a.subrange(7, a.len() as int));
                    if bearer.len() == 0 {
                        None
                    } else {
                        Some(bearer)
                    }
                } else {
                    Some(a)
                }
            },
        }
    }
}

/// Extracts the auth token from the handshake's `token` and `authorization`
/// fields.
pub fn extract_auth_token(token: Option<&str>, authorization: Option<&str>) -> (r: Option<String>)
    ensures
        match r {
            Some(s) => Some(s@) == spec_extract_token(
                match token {
                    Some(t) => Some(t@),
                    None => None,
                },
                match authorization {
                    Some(a) => Some(a@),
                    None => None,
                },
            ),
            None => spec_extract_token(
                match token {
                    Some(t) => Some(t@),
                    None => None,
                },
                match authorization {
                    Some(a) => Some(a@),
                    None => None,
                },
            ) is None,
        },
{
    if let Some(t) = token {
        let trimmed = trim(t);
        if trimmed.unicode_len() > 0 {
            return Some(trimmed);
        }
    }
    let auth = match authorization {
        Some(a) => a,
        None => {
            return None;
        },
    };
    let a = trim(auth);
    let an = a.unicode_len();
    if an == 0 {
        return None;
    }
    let has_bearer = an >= 7 && {
        let head = a.as_str().substring_char(0, 7);
        eq_ignore_ascii_case(head, "Bearer ")
    };
    if has_bearer {
        let rest = a.as_str().substring_char(7, an);
        let bearer = trim(rest);
        if bearer.unicode_len() == 0 {
            None
        } else {
            Some(bearer)
        }
    } else {
        Some(a)
    }
}

} // verus!
