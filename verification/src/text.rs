//! Whitespace handling for credential strings: a trimming function with an
//! exact specification, and the notion of a blank (empty or whitespace-only)
//! string that the credential resolver is specified with.

use vstd::prelude::*;
use vstd::string::*;

verus! {

/// The whitespace characters recognised when a token is trimmed: the ASCII
/// whitespace that shows up around tokens typed or piped on standard input.
pub open spec fn is_ws(c: char) -> bool {
    c == ' ' || c == '\t' || c == '\n' || c == '\r'
}

/// A blank string: empty or whitespace-only.
pub open spec fn blank(s: Seq<char>) -> bool {
    forall|i: int| 0 <= i < s.len() ==> is_ws(#[trigger] s[i])
}

/// The string with its leading whitespace removed.
pub open spec fn trim_front(s: Seq<char>) -> Seq<char>
    decreases s.len(),
{
    if s.len() > 0 && is_ws(s[0]) {
        trim_front(s.drop_first())
    } else {
        s
    }
}

/// The string with its trailing whitespace removed.
pub open spec fn trim_back(s: Seq<char>) -> Seq<char>
    decreases s.len(),
{
    if s.len() > 0 && is_ws(s.last()) {
        trim_back(s.drop_last())
    } else {
        s
    }
}

/// The string with whitespace removed from both ends.
pub open spec fn trimmed(s: Seq<char>) -> Seq<char> {
    trim_back(trim_front(s))
}

proof fn lemma_trim_front_blank(s: Seq<char>)
    ensures
        blank(s) <==> trim_front(s).len() == 0,
        trim_front(s).len() > 0 ==> !blank(trim_front(s)),
    decreases s.len(),
{
    if s.len() > 0 && is_ws(s[0]) {
        lemma_trim_front_blank(s.drop_first());
        assert(blank(s.drop_first()) ==> blank(s)) by {
            if blank(s.drop_first()) {
                assert forall|i: int| 0 <= i < s.len() implies is_ws(#[trigger] s[i]) by {
                    if i > 0 {
                        assert(s[i] == s.drop_first()[i - 1]);
                    }
                }
            }
        }
        assert(blank(s) ==> blank(s.drop_first())) by {
            if blank(s) {
                assert forall|i: int| 0 <= i < s.drop_first().len()
                    implies is_ws(#[trigger] s.drop_first()[i]) by {
                    assert(s.drop_first()[i] == s[i + 1]);
                }
            }
        }
    } else {
        if s.len() > 0 {
            assert(!is_ws(s[0]));
        }
    }
}

proof fn lemma_trim_back_blank(s: Seq<char>)
    ensures
        blank(s) <==> trim_back(s).len() == 0,
    decreases s.len(),
{
    if s.len() > 0 && is_ws(s.last()) {
        lemma_trim_back_blank(s.drop_last());
        assert(blank(s.drop_last()) ==> blank(s)) by {
            if blank(s.drop_last()) {
                assert forall|i: int| 0 <= i < s.len() implies is_ws(#[trigger] s[i]) by {
                    if i < s.len() - 1 {
                        assert(s[i] == s.drop_last()[i]);
                    }
                }
            }
        }
        assert(blank(s) ==> blank(s.drop_last())) by {
            if blank(s) {
                assert forall|i: int| 0 <= i < s.drop_last().len()
                    implies is_ws(#[trigger] s.drop_last()[i]) by {
                    assert(s.drop_last()[i] == s[i]);
                }
            }
        }
    } else {
        if s.len() > 0 {
            assert(!is_ws(s.last()));
        }
    }
}

/// A string trims to nothing exactly when it is blank.
pub proof fn lemma_trimmed_empty_iff_blank(s: Seq<char>)
    ensures
        trimmed(s).len() == 0 <==> blank(s),
{
    lemma_trim_front_blank(s);
    lemma_trim_back_blank(trim_front(s));
    if trim_front(s).len() > 0 {
        assert(!blank(trim_front(s)));
    }
}

fn is_ws_char(c: char) -> (r: bool)
    ensures
        r == is_ws(c),
{
    c == ' ' || c == '\t' || c == '\n' || c == '\r'
}

/// Removes leading and trailing whitespace from a string.
pub fn trim_text(s: &str) -> (r: String)
    ensures
        r@ == trimmed(s@),
{
    let n = s.unicode_len();
    let ghost whole: Seq<char> = s@;
    let mut a: usize = 0;
    proof {
        assert(whole.subrange(0, n as int) =~= whole);
    }
    loop
        invariant
            a <= n,
            n == whole.len(),
            s@ == whole,
            trim_front(whole) == trim_front(whole.subrange(a as int, n as int)),
        ensures
            a <= n,
            trim_front(whole) == trim_front(whole.subrange(a as int, n as int)),
            a == n || !is_ws(whole[a as int]),
        decreases n - a,
    {
        if a >= n {
            break;
        }
        let c = s.get_char(a);
        if !is_ws_char(c) {
            break;
        }
        proof {
            let tail = whole.subrange(a as int, n as int);
            assert(tail[0] == whole[a as int]);
            assert(tail.drop_first() =~= whole.subrange(a as int + 1, n as int));
        }
        a = a + 1;
    }
    let mut b: usize = n;
    proof {
        let front = whole.subrange(a as int, n as int);
        if a < n {
            assert(!is_ws(front[0]));
        }
        assert(trim_front(front) == front);
        assert(trim_back(front) == trim_back(whole.subrange(a as int, b as int)));
    }
    loop
        invariant
            a <= b <= n,
            n == whole.len(),
            s@ == whole,
            trimmed(whole) == trim_back(whole.subrange(a as int, b as int)),
        ensures
            a <= b <= n,
            trimmed(whole) == trim_back(whole.subrange(a as int, b as int)),
            a == b || !is_ws(whole[b as int - 1]),
        decreases b,
    {
        if b <= a {
            break;
        }
        let c = s.get_char(b - 1);
        if !is_ws_char(c) {
            break;
        }
        proof {
            let part = whole.subrange(a as int, b as int);
            assert(part.last() == whole[b as int - 1]);
            assert(part.drop_last() =~= whole.subrange(a as int, b as int - 1));
        }
        b = b - 1;
    }
    proof {
        let part = whole.subrange(a as int, b as int);
        if a < b {
            assert(part.last() == whole[b as int - 1]);
            assert(!is_ws(part.last()));
        }
        assert(trim_back(part) == part);
    }
    let piece = s.substring_char(a, b);
    String::from_str(piece)
}

/// Relies on std's `String::push`: appends the given character to the end of
/// the string.
#[verifier::external_body]
pub(crate) fn push_char(s: &mut String, c: char)
    ensures
        final(s)@ == old(s)@ + seq![c],
{
    s.push(c);
}

} // verus!
