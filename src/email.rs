use vstd::prelude::*;
use crate::error::{BrokerError, ErrorModel};

verus! {

/// The position of the last `c` in `s` before position `i`, or -1.
pub open spec fn rfind_before(s: Seq<char>, i: int, c: char) -> int
    decreases i,
{
    if i <= 0 {
        -1
    } else if s[i - 1] == c {
        i - 1
    } else {
        rfind_before(s, i - 1, c)
    }
}

/// Whether `c` may stand in a domain name.
pub open spec fn is_domain_char(c: char) -> bool {
    ('a' <= c <= 'z') || ('A' <= c <= 'Z') || ('0' <= c <= '9') || c == '-' || c == '.'
}

/// `c` with ASCII upper case letters mapped to lower case.
pub open spec fn lower_char(c: char) -> char {
    if 'A' <= c <= 'Z' {
        ((c as u8) + 32u8) as char
    } else {
        c
    }
}

/// `s` with ASCII upper case letters mapped to lower case.
pub open spec fn ascii_lower(s: Seq<char>) -> Seq<char> {
    Seq::new(s.len(), |i: int| lower_char(s[i]))
}

/// Whether `d` is a domain name: non-empty, made of letters, digits, `-` and
/// `.`, and neither starting nor ending with `.`.
pub open spec fn valid_domain(d: Seq<char>) -> bool {
    &&& d.len() > 0
    &&& forall|i: int| 0 <= i < d.len() ==> is_domain_char(#[trigger] d[i])
    &&& d[0] != '.'
    &&& d.last() != '.'
}

/// The normalized form of the address `s` (local part kept, domain in lower
/// case), or `None` where `s` is not `local@domain` with a non-empty local
/// part and a valid domain after the last `@`.
pub open spec fn email_spec(s: Seq<char>) -> Option<Seq<char>> {
    let k = rfind_before(s, s.len() as int, '@');
    let local = s.subrange(0, k);
    let domain = s.subrange(k + 1, s.len() as int);
    if k <= 0 || !valid_domain(domain) {
        None
    } else {
        Some(local + "@"@ + ascii_lower(domain))
    }
}

/// Relies on std's `str::to_ascii_lowercase`: ASCII letters 'A' to 'Z' become
/// 'a' to 'z', every other character is kept.
#[verifier::external_body]
fn to_ascii_lowercase(s: &str) -> (r: String)
    ensures
        r@ == ascii_lower(s@),
{
    s.to_ascii_lowercase()
}

/// A syntactically valid, normalized email address.
pub struct EmailAddress {
    normalized: String,
}

impl View for EmailAddress {
    type V = Seq<char>;

    closed spec fn view(&self) -> Seq<char> {
        self.normalized@
    }
}

/// The message of the error for a login hint that is not an email address.
pub open spec fn bad_email_msg() -> Seq<char> {
    "login_hint is not a valid email address"@
}

/// One past the position of the last `c` in `s`, or 0 where there is none.
fn rfind_char(s: &str, c: char) -> (r: usize)
    ensures
        r as int == rfind_before(s@, s@.len() as int, c) + 1,
        r <= s@.len(),
{
    let n = s.unicode_len();
    let mut i: usize = n;
    while i > 0
        invariant
            n == s@.len(),
            i <= n,
            rfind_before(s@, n as int, c) == rfind_before(s@, i as int, c),
        decreases i,
    {
        if s.get_char(i - 1) == c {
            return i;
        }
        i = i - 1;
    }
    0
}

impl EmailAddress {
    /// Parses and normalizes an email address.
    pub fn parse(s: &str) -> (r: Result<EmailAddress, BrokerError>)
        ensures
            match r {
                Ok(a) => email_spec(s@) == Some(a@),
                Err(e) => email_spec(s@).is_none() && e@ == ErrorModel::Input(bad_email_msg()),
            },
    {
        let n = s.unicode_len();
        let k1 = rfind_char(s, '@');
        if k1 <= 1 {
            return Err(BrokerError::Input("login_hint is not a valid email address".to_owned()));
        }
        let k = k1 - 1;
        let domain = s.substring_char(k + 1, n);
        let dn = n - (k + 1);
        let mut ok = dn > 0;
        let mut i: usize = 0;
        while ok && i < dn
            invariant
                dn == domain@.len(),
                i <= dn,
                ok ==> dn > 0,
                !ok ==> !valid_domain(domain@),
                ok ==> forall|j: int| 0 <= j < i ==> is_domain_char(#[trigger] domain@[j]),
            decreases dn - i,
        {
            let c = domain.get_char(i);
            if !(('a' <= c && c <= 'z') || ('A' <= c && c <= 'Z') || ('0' <= c && c <= '9') || c == '-'
                || c == '.') {
                assert(!is_domain_char(domain@[i as int]));
                ok = false;
            }
            i = i + 1;
        }
        if !ok || domain.get_char(0) == '.' || domain.get_char(dn - 1) == '.' {
            return Err(BrokerError::Input("login_hint is not a valid email address".to_owned()));
        }
        let local = s.substring_char(0, k);
        let lower = to_ascii_lowercase(domain);
        let normalized = local.to_owned().concat("@").concat(lower.as_str());
        Ok(EmailAddress { normalized })
    }

    /// A copy of the address.
    pub fn duplicate(&self) -> (r: EmailAddress)
        ensures
            r@ == self@,
    {
        EmailAddress { normalized: self.normalized.clone() }
    }

    /// The normalized address.
    pub fn as_str(&self) -> (r: &str)
        ensures
            r@ == self@,
    {
        self.normalized.as_str()
    }
}

} // verus!
