//! Normalising the address that the operator types for the remote service.

use crate::text::{same_text, starts_with, trim, trimmed};
use vstd::prelude::*;
use vstd::string::*;

verus! {

/// The characters of `https://`.
pub open spec fn secure_prefix() -> Seq<char> {
    seq!['h', 't', 't', 'p', 's', ':', '/', '/']
}

/// The characters of `http://`.
pub open spec fn plain_prefix() -> Seq<char> {
    seq!['h', 't', 't', 'p', ':', '/', '/']
}

/// The characters of `https`.
pub open spec fn secure_scheme() -> Seq<char> {
    seq!['h', 't', 't', 'p', 's']
}

/// How an address names its scheme.
#[derive(Clone, Copy, Debug, PartialEq, Eq, Structural)]
pub enum Scheme {
    /// The address begins with `https://`.
    Secure,
    /// The address begins with `http://`.
    Plain,
    /// The address begins with neither.
    Absent,
}

/// The scheme that `url` begins with.
pub open spec fn scheme_of(url: Seq<char>) -> Scheme {
    if secure_prefix().is_prefix_of(url) {
        Scheme::Secure
    } else if plain_prefix().is_prefix_of(url) {
        Scheme::Plain
    } else {
        Scheme::Absent
    }
}

/// Whether `://` stands at index `i` of `s`.
pub open spec fn separator_at(s: Seq<char>, i: int) -> bool {
    0 <= i && i + 3 <= s.len() && s[i] == ':' && s[i + 1] == '/' && s[i + 2] == '/'
}

/// The index of the first `://` in `s` at or after `from`, or the length of
/// `s` where there is none.
pub open spec fn scheme_end(s: Seq<char>, from: int) -> int
    decreases s.len() - from,
{
    if from < 0 || from >= s.len() {
        s.len() as int
    } else if separator_at(s, from) {
        from
    } else {
        scheme_end(s, from + 1)
    }
}

/// `url` with everything before its first `://` replaced by `https`.
pub open spec fn upgraded(url: Seq<char>) -> Seq<char> {
    secure_scheme() + url.subrange(scheme_end(url, 0), url.len() as int)
}

/// The address that is probed for what the operator typed: an `https://`
/// address as it is, an `http://` address as it is if the operator keeps it
/// and upgraded otherwise, anything else behind `https://`.
pub open spec fn normalized(url: Seq<char>, keep_plain: bool) -> Seq<char> {
    match scheme_of(url) {
        Scheme::Secure => url,
        Scheme::Plain => if keep_plain {
            url
        } else {
            upgraded(url)
        },
        Scheme::Absent => secure_prefix() + url,
    }
}

/// Whether an answer to the upgrade question declines it: only `n` does.
pub open spec fn declines(answer: Seq<char>) -> bool {
    trimmed(answer) == seq!['n']
}

/// `scheme_end` finds a separator, the first one from `from` on, or the end.
pub proof fn lemma_scheme_end_first(s: Seq<char>, from: int)
    requires
        0 <= from <= s.len(),
    ensures
        from <= scheme_end(s, from) <= s.len(),
        scheme_end(s, from) < s.len() ==> separator_at(s, scheme_end(s, from)),
        forall|i: int| from <= i < scheme_end(s, from) ==> !separator_at(s, i),
    decreases s.len() - from,
{
    if from < s.len() && !separator_at(s, from) {
        lemma_scheme_end_first(s, from + 1);
    }
}

/// Upgrading an `http://` address swaps that prefix for `https://`.
pub proof fn lemma_upgrade_plain(url: Seq<char>)
    requires
        plain_prefix().is_prefix_of(url),
    ensures
        upgraded(url) == secure_prefix() + url.subrange(7, url.len() as int),
        scheme_of(upgraded(url)) == Scheme::Secure,
{
    let head = url.subrange(0, 7);
    assert(head == plain_prefix());
    assert(forall|i: int| 0 <= i < 7 ==> url[i] == head[i]);
    assert(url[0] == 'h' && url[1] == 't' && url[2] == 't' && url[3] == 'p');
    assert(url[4] == ':' && url[5] == '/' && url[6] == '/');
    lemma_scheme_end_first(url, 0);
    assert(separator_at(url, 4));
    assert(!separator_at(url, 0) && !separator_at(url, 1) && !separator_at(url, 2)
        && !separator_at(url, 3));
    let k = scheme_end(url, 0);
    if k > 4 {
        assert(!separator_at(url, 4));
    }
    if k < 4 {
        assert(separator_at(url, k));
    }
    assert(k == 4);
    let rest = url.subrange(7, url.len() as int);
    assert(upgraded(url) =~= secure_prefix() + rest);
    assert(secure_prefix() =~= (secure_prefix() + rest).subrange(0, 8));
}

/// What is probed begins with `https://`, unless the operator kept an
/// `http://` address.
pub proof fn lemma_normalized_scheme(url: Seq<char>, keep_plain: bool)
    ensures
        scheme_of(normalized(url, keep_plain)) == if scheme_of(url) == Scheme::Plain
            && keep_plain {
            Scheme::Plain
        } else {
            Scheme::Secure
        },
{
    match scheme_of(url) {
        Scheme::Secure => {},
        Scheme::Plain => {
            if !keep_plain {
                lemma_upgrade_plain(url);
            }
        },
        Scheme::Absent => {
            assert(secure_prefix() =~= (secure_prefix() + url).subrange(0, 8));
        },
    }
}

/// Normalising twice gives what normalising once gives.
pub proof fn lemma_normalized_idempotent(url: Seq<char>, keep_plain: bool)
    ensures
        normalized(normalized(url, keep_plain), keep_plain) == normalized(url, keep_plain),
{
    lemma_normalized_scheme(url, keep_plain);
}

/// The scheme that `url` begins with.
pub fn classify(url: &str) -> (scheme: Scheme)
    ensures
        scheme == scheme_of(url@),
{
    proof {
        reveal_strlit("https://");
        reveal_strlit("http://");
        assert("https://"@ =~= secure_prefix());
        assert("http://"@ =~= plain_prefix());
    }
    if starts_with(url, "https://") {
        Scheme::Secure
    } else if starts_with(url, "http://") {
        Scheme::Plain
    } else {
        Scheme::Absent
    }
}

/// `url` with everything before its first `://` replaced by `https`.
pub fn upgrade(url: &str) -> (secure: String)
    ensures
        secure@ == upgraded(url@),
{
    let n: usize = url.unicode_len();
    let mut i: usize = 0;
    while i < n && !(n - i >= 3 && url.get_char(i) == ':' && url.get_char(i + 1) == '/'
        && url.get_char(i + 2) == '/')
        invariant
            i <= n,
            n == url@.len(),
            scheme_end(url@, 0) == scheme_end(url@, i as int),
        decreases n - i,
    {
        i += 1;
    }
    let mut secure = String::from_str("https");
    secure.append(url.substring_char(i, n));
    proof {
        reveal_strlit("https");
        assert("https"@ =~= secure_scheme());
    }
    secure
}

/// The address to probe for the address `url` that the operator typed.
pub fn normalize(url: &str, keep_plain: bool) -> (probe: String)
    ensures
        probe@ == normalized(url@, keep_plain),
{
    match classify(url) {
        Scheme::Secure => String::from_str(url),
        Scheme::Plain => {
            if keep_plain {
                String::from_str(url)
            } else {
                upgrade(url)
            }
        },
        Scheme::Absent => {
            let mut probe = String::from_str("https://");
            probe.append(url);
            proof {
                reveal_strlit("https://");
                assert("https://"@ =~= secure_prefix());
            }
            probe
        },
    }
}

/// Whether the operator's answer to the upgrade question declines it.
pub fn is_decline(answer: &str) -> (decline: bool)
    ensures
        decline == declines(answer@),
{
    proof {
        reveal_strlit("n");
        assert("n"@ =~= seq!['n']);
    }
    same_text(trim(answer), "n")
}

} // verus!
