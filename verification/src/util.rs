//! Small helpers: the percentage input pair and string utilities.

use core::str::Utf8Error;
use vstd::prelude::*;
use vstd::string::StrSliceExecFns;

verus! {

/// A numerator/denominator pair destined for a percentage calculation.
#[derive(Clone, Copy, Debug, Default, Eq, Hash, Ord, PartialEq, PartialOrd, Structural)]
pub struct Percentage {
    pub number: usize,
    pub total: usize,
}

impl Percentage {
    /// Builds the pair.
    pub fn new(number: usize, total: usize) -> (r: Self)
        ensures
            r.number == number,
            r.total == total,
    {
        Self { number, total }
    }
}

/// `s` with every `'+'` turned into a space.
pub open spec fn plus_to_space(s: Seq<char>) -> Seq<char>
    decreases s.len(),
{
    if s.len() == 0 {
        Seq::empty()
    } else {
        plus_to_space(s.drop_last()).push(
            if s.last() == '+' {
                ' '
            } else {
                s.last()
            },
        )
    }
}

/// `s` with every space removed.
pub open spec fn without_spaces(s: Seq<char>) -> Seq<char>
    decreases s.len(),
{
    if s.len() == 0 {
        Seq::empty()
    } else if s.last() == ' ' {
        without_spaces(s.drop_last())
    } else {
        without_spaces(s.drop_last()).push(s.last())
    }
}

/// `s` with a space inserted before every character whose index is a positive
/// multiple of `on`.
pub open spec fn space_every(s: Seq<char>, on: nat) -> Seq<char>
    decreases s.len(),
{
    if s.len() <= 1 {
        s
    } else if (s.len() - 1) % (on as int) == 0 {
        space_every(s.drop_last(), on) + seq![' ', s.last()]
    } else {
        space_every(s.drop_last(), on).push(s.last())
    }
}

/// The characters of the given string after percent-decoding its `%XX`
/// escapes and re-validating the bytes as UTF-8, or nothing when the decoded
/// bytes are not valid UTF-8. The outcome depends on the input alone.
pub uninterp spec fn percent_decoded(s: Seq<char>) -> Option<Seq<char>>;

/// The `parts`, joined back together with `sep` between consecutive parts.
pub open spec fn join_with(parts: Seq<Seq<char>>, sep: Seq<char>) -> Seq<char>
    decreases parts.len(),
{
    if parts.len() == 0 {
        Seq::empty()
    } else if parts.len() == 1 {
        parts[0]
    } else {
        join_with(parts.drop_last(), sep) + sep + parts.last()
    }
}

/// Whether `s` holds a `'%'` anywhere.
pub open spec fn has_percent(s: Seq<char>) -> bool {
    exists|i: int| 0 <= i < s.len() && #[trigger] s[i] == '%'
}

/// Whether `sub` occurs contiguously anywhere inside `s`.
pub open spec fn contains_seq(s: Seq<char>, sub: Seq<char>) -> bool {
    exists|k: int|
        0 <= k && k + sub.len() <= s.len() && #[trigger] s.subrange(k, k + sub.len()) == sub
}

#[verifier::external_type_specification]
#[verifier::external_body]
pub struct ExUtf8Error(Utf8Error);

/// Relies on `String::push`: appends one character at the end.
#[verifier::external_body]
fn push_char(s: &mut String, c: char)
    ensures
        final(s)@ == old(s)@.push(c),
{
    s.push(c);
}

/// Home of misfit utility functions; it carries no state of its own.
pub struct Util;

impl Util {
    /// Relies on `percent_encoding::percent_decode_str` and
    /// `PercentDecode::decode_utf8`: every `%XX` escape (`X` a hex digit)
    /// becomes the byte `XX`, the rest of the bytes pass through unchanged,
    /// and the decoded bytes are validated as UTF-8. A string without `'%'`
    /// decodes to itself.
    #[verifier::external_body]
    pub fn percent_decode(s: &str) -> (r: Result<String, Utf8Error>)
        ensures
            r matches Ok(t) ==> percent_decoded(s@) == Some(t@),
            r is Err ==> percent_decoded(s@) is None,
            r matches Ok(t) ==> t@ == s@ || has_percent(s@),
            r is Err ==> has_percent(s@),
    {
        Ok(percent_encoding::percent_decode_str(s).decode_utf8()?.to_string())
    }

    /// Every `'+'` becomes a space, e.g. to undo the `+`-for-space habit of
    /// query strings.
    pub fn replace_plus(s: &str) -> (r: String)
        ensures
            r@ == plus_to_space(s@),
    {
        let n: usize = s.unicode_len();
        let mut r = String::new();
        let mut i: usize = 0;
        while i < n
            invariant
                i <= n == s@.len(),
                r@ == plus_to_space(s@.take(i as int)),
            decreases n - i,
        {
            let c = s.get_char(i);
            if c == '+' {
                push_char(&mut r, ' ');
            } else {
                push_char(&mut r, c);
            }
            i = i + 1;
            proof {
                assert(s@.take(i as int).drop_last() =~= s@.take(i - 1));
            }
        }
        proof {
            assert(s@.take(n as int) =~= s@);
        }
        r
    }

    /// Strips every space from `s`.
    pub fn str_remove_spaces(s: &str) -> (r: String)
        ensures
            r@ == without_spaces(s@),
    {
        let n: usize = s.unicode_len();
        let mut r = String::new();
        let mut i: usize = 0;
        while i < n
            invariant
                i <= n == s@.len(),
                r@ == without_spaces(s@.take(i as int)),
            decreases n - i,
        {
            let c = s.get_char(i);
            if c != ' ' {
                push_char(&mut r, c);
            }
            i = i + 1;
            proof {
                assert(s@.take(i as int).drop_last() =~= s@.take(i - 1));
            }
        }
        proof {
            assert(s@.take(n as int) =~= s@);
        }
        r
    }

    /// Relies on `str::split`: the pieces of `s` between occurrences of the
    /// separator, in order. Joining the pieces with the separator restores
    /// `s`, and no piece contains the separator.
    #[verifier::external_body]
    pub fn str_splitter(s: &str, splitter: &str) -> (r: Vec<String>)
        ensures
            splitter@.len() > 0 ==> r@.len() >= 1,
            splitter@.len() > 0 ==> join_with(r@.map_values(|t: String| t@), splitter@) == s@,
            splitter@.len() > 0 ==> (forall|j: int|
                0 <= j < r@.len() ==> !contains_seq((#[trigger] r@[j])@, splitter@)),
    {
        s.split(splitter).map(|part: &str| part.to_string()).collect()
    }

    /// Inserts a space before every `on`-th character, counting from the
    /// start; e.g. grouping a run of digits four by four.
    pub fn str_len_splitter(s: &str, on: usize) -> (r: String)
        requires
            on > 0 || s@.len() <= 1,
        ensures
            r@ == space_every(s@, on as nat),
    {
        let n: usize = s.unicode_len();
        let mut r = String::new();
        let mut i: usize = 0;
        while i < n
            invariant
                i <= n == s@.len(),
                on > 0 || s@.len() <= 1,
                r@ == space_every(s@.take(i as int), on as nat),
            decreases n - i,
        {
            let c = s.get_char(i);
            if i != 0 && i % on == 0 {
                push_char(&mut r, ' ');
            }
            push_char(&mut r, c);
            i = i + 1;
            proof {
                assert(s@.take(i as int).drop_last() =~= s@.take(i - 1));
                if i == 1 {
                    assert(s@.take(1int) =~= Seq::empty().push(s@[0]));
                    assert(r@ =~= space_every(s@.take(1int), on as nat));
                } else {
                    assert(r@ =~= space_every(s@.take(i as int), on as nat));
                }
            }
        }
        proof {
            assert(s@.take(n as int) =~= s@);
        }
        r
    }
}

} // verus!
