//! Removing `/` from the ends of a path.

use vstd::prelude::*;
use vstd::string::*;

verus! {

/// `s` without its first character, if that character is `/`.
pub open spec fn without_leading_slash(s: Seq<char>) -> Seq<char> {
    if s.len() > 0 && s[0] == '/' {
        s.subrange(1, s.len() as int)
    } else {
        s
    }
}

/// `s` without its last character, if that character is `/`.
pub open spec fn without_trailing_slash(s: Seq<char>) -> Seq<char> {
    if s.len() > 0 && s[s.len() - 1] == '/' {
        s.subrange(0, s.len() - 1)
    } else {
        s
    }
}

/// The number of `/` that `s` starts with.
pub open spec fn leading_slashes(s: Seq<char>) -> nat
    decreases s.len(),
{
    if s.len() > 0 && s[0] == '/' {
        1 + leading_slashes(s.subrange(1, s.len() as int))
    } else {
        0
    }
}

/// The number of `/` that `s` ends with.
pub open spec fn trailing_slashes(s: Seq<char>) -> nat
    decreases s.len(),
{
    if s.len() > 0 && s[s.len() - 1] == '/' {
        1 + trailing_slashes(s.subrange(0, s.len() - 1))
    } else {
        0
    }
}

/// `s` without any of the `/` it starts with.
pub open spec fn without_leading_slashes(s: Seq<char>) -> Seq<char> {
    s.subrange(leading_slashes(s) as int, s.len() as int)
}

/// `s` without any of the `/` it ends with.
pub open spec fn without_trailing_slashes(s: Seq<char>) -> Seq<char> {
    s.subrange(0, s.len() - trailing_slashes(s))
}

/// The leading run of `/` is a prefix of `s`, made of `/` only, and is
/// followed by another character or by the end of `s`.
pub proof fn lemma_leading_slashes(s: Seq<char>)
    ensures
        leading_slashes(s) <= s.len(),
        forall|i: int| 0 <= i < leading_slashes(s) ==> s[i] == '/',
        leading_slashes(s) < s.len() ==> s[leading_slashes(s) as int] != '/',
    decreases s.len(),
{
    if s.len() > 0 && s[0] == '/' {
        let rest = s.subrange(1, s.len() as int);
        lemma_leading_slashes(rest);
        assert forall|i: int| 0 <= i < leading_slashes(s) implies s[i] == '/' by {
            if i > 0 {
                assert(rest[i - 1] == s[i]);
            }
        }
        if leading_slashes(s) < s.len() {
            assert(rest[leading_slashes(rest) as int] == s[leading_slashes(s) as int]);
        }
    }
}

/// The trailing run of `/` is a suffix of `s`, made of `/` only, and is
/// preceded by another character or by the start of `s`.
pub proof fn lemma_trailing_slashes(s: Seq<char>)
    ensures
        trailing_slashes(s) <= s.len(),
        forall|i: int| s.len() - trailing_slashes(s) <= i < s.len() ==> s[i] == '/',
        trailing_slashes(s) < s.len() ==> s[s.len() - trailing_slashes(s) - 1] != '/',
    decreases s.len(),
{
    if s.len() > 0 && s[s.len() - 1] == '/' {
        let rest = s.subrange(0, s.len() - 1);
        lemma_trailing_slashes(rest);
        assert forall|i: int| s.len() - trailing_slashes(s) <= i < s.len() implies s[i]
            == '/' by {
            if i < s.len() - 1 {
                assert(rest[i] == s[i]);
            }
        }
        if trailing_slashes(s) < s.len() {
            assert(rest[rest.len() - trailing_slashes(rest) - 1] == s[s.len() - trailing_slashes(s)
                - 1]);
        }
    }
}

/// A run of `/` from the start of `s` that ends before another character, or
/// at the end of `s`, is the whole leading run.
pub proof fn lemma_leading_slashes_is(s: Seq<char>, n: nat)
    requires
        n <= s.len(),
        forall|i: int| 0 <= i < n ==> s[i] == '/',
        n < s.len() ==> s[n as int] != '/',
    ensures
        leading_slashes(s) == n,
    decreases s.len(),
{
    if n > 0 {
        let rest = s.subrange(1, s.len() as int);
        assert forall|i: int| 0 <= i < n - 1 implies rest[i] == '/' by {
            assert(rest[i] == s[i + 1]);
        }
        if n < s.len() {
            assert(rest[n - 1] == s[n as int]);
        }
        lemma_leading_slashes_is(rest, (n - 1) as nat);
    }
}

/// A run of `/` up to the end of `s` that starts after another character, or
/// at the start of `s`, is the whole trailing run.
pub proof fn lemma_trailing_slashes_is(s: Seq<char>, n: nat)
    requires
        n <= s.len(),
        forall|i: int| s.len() - n <= i < s.len() ==> s[i] == '/',
        n < s.len() ==> s[s.len() - n - 1] != '/',
    ensures
        trailing_slashes(s) == n,
    decreases s.len(),
{
    if n > 0 {
        let rest = s.subrange(0, s.len() - 1);
        assert forall|i: int| rest.len() - (n - 1) <= i < rest.len() implies rest[i] == '/' by {
            assert(rest[i] == s[i]);
        }
        if n < s.len() {
            assert(rest[rest.len() - (n - 1) - 1] == s[s.len() - n - 1]);
        }
        lemma_trailing_slashes_is(rest, (n - 1) as nat);
    }
}

/// Whether `s` does not start with `/`.
pub open spec fn no_slash_at_start(s: Seq<char>) -> bool {
    s.len() == 0 || s[0] != '/'
}

/// Whether `s` does not end with `/`.
pub open spec fn no_slash_at_end(s: Seq<char>) -> bool {
    s.len() == 0 || s[s.len() - 1] != '/'
}

/// What is left when every leading `/` is removed does not start with `/`.
pub proof fn lemma_leading_trimmed(s: Seq<char>)
    ensures
        no_slash_at_start(without_leading_slashes(s)),
{
    lemma_leading_slashes(s);
}

/// What is left when every trailing `/` is removed does not end with `/`.
pub proof fn lemma_trailing_trimmed(s: Seq<char>)
    ensures
        no_slash_at_end(without_trailing_slashes(s)),
{
    lemma_trailing_slashes(s);
}

/// What is left when every `/` is removed from both ends of `s` neither
/// starts nor ends with `/`.
pub proof fn lemma_both_ends_trimmed(s: Seq<char>)
    ensures
        no_slash_at_start(without_leading_slashes(without_trailing_slashes(s))),
        no_slash_at_end(without_leading_slashes(without_trailing_slashes(s))),
{
    let inner = without_trailing_slashes(s);
    lemma_trailing_trimmed(s);
    lemma_leading_trimmed(inner);
    lemma_leading_slashes(inner);
}

/// Removes one `/` from the start of `s`, if there is one.
pub fn strip_leading_slash(s: &str) -> (r: &str)
    ensures
        r@ == without_leading_slash(s@),
{
    let n: usize = s.unicode_len();
    if n > 0 && s.get_char(0) == '/' {
        s.substring_char(1, n)
    } else {
        s
    }
}

/// Removes one `/` from the end of `s`, if there is one.
pub fn strip_trailing_slash(s: &str) -> (r: &str)
    ensures
        r@ == without_trailing_slash(s@),
{
    let n: usize = s.unicode_len();
    if n > 0 && s.get_char(n - 1) == '/' {
        s.substring_char(0, n - 1)
    } else {
        s
    }
}

/// Removes every `/` that `s` starts with.
pub fn trim_leading_slashes(s: &str) -> (r: &str)
    ensures
        r@ == without_leading_slashes(s@),
{
    let n: usize = s.unicode_len();
    let mut i: usize = 0;
    while i < n && s.get_char(i) == '/'
        invariant
            n == s@.len(),
            i <= n,
            forall|k: int| 0 <= k < i ==> s@[k] == '/',
        decreases n - i,
    {
        i = i + 1;
    }
    proof {
        lemma_leading_slashes_is(s@, i as nat);
    }
    s.substring_char(i, n)
}

/// Removes every `/` that `s` ends with.
pub fn trim_trailing_slashes(s: &str) -> (r: &str)
    ensures
        r@ == without_trailing_slashes(s@),
{
    let n: usize = s.unicode_len();
    let mut end: usize = n;
    while end > 0 && s.get_char(end - 1) == '/'
        invariant
            n == s@.len(),
            end <= n,
            forall|k: int| end <= k < n ==> s@[k] == '/',
        decreases end,
    {
        end = end - 1;
    }
    proof {
        lemma_trailing_slashes_is(s@, (n - end) as nat);
    }
    s.substring_char(0, end)
}

} // verus!
