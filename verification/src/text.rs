//! Small text-building helpers shared by both backends: indentation,
//! space-separated tokenization, and string comparison.

use vstd::prelude::*;
use vstd::string::StringExecFns;

verus! {

/// One indentation unit repeated `n` times (four spaces per unit).
pub open spec fn indent_text(n: nat) -> Seq<char>
    decreases n,
{
    if n == 0 {
        Seq::<char>::empty()
    } else {
        indent_text((n - 1) as nat) + "    "@
    }
}

/// Builds the indentation string for depth `n`.
pub fn indent(n: usize) -> (r: String)
    ensures
        r@ == indent_text(n as nat),
{
    let mut out = String::new();
    let mut i: usize = 0;
    while i < n
        invariant
            i <= n,
            out@ == indent_text(i as nat),
        decreases n - i,
    {
        out.append("    ");
        i = i + 1;
    }
    out
}

/// Whether `s` contains a space anywhere.
pub open spec fn has_space(s: Seq<char>) -> bool {
    exists|i: int| 0 <= i < s.len() && s[i] == ' '
}

/// Compares two string slices by contents.
pub fn str_eq(a: &str, b: &str) -> (r: bool)
    ensures
        r == (a@ == b@),
{
    let a_string = String::from_str(a);
    let b_string = String::from_str(b);
    a_string == b_string
}

/// Tests whether `s` contains a space.
pub fn contains_space(s: &str) -> (r: bool)
    ensures
        r == has_space(s@),
{
    let n = s.unicode_len();
    let mut i: usize = 0;
    while i < n
        invariant
            i <= n,
            n == s@.len(),
            forall|j: int| 0 <= j < i ==> s@[j] != ' ',
        decreases n - i,
    {
        if s.get_char(i) == ' ' {
            return true;
        }
        i = i + 1;
    }
    false
}

/// The space-separated token decomposition of `s`, as `str::split(' ')`
/// yields it: always at least one token, and empty tokens around adjacent,
/// leading or trailing spaces.
pub open spec fn split_spaces(s: Seq<char>) -> Seq<Seq<char>>
    decreases s.len(),
{
    if s.len() == 0 {
        seq![Seq::<char>::empty()]
    } else if s[0] == ' ' {
        seq![Seq::<char>::empty()] + split_spaces(s.drop_first())
    } else {
        let rest = split_spaces(s.drop_first());
        seq![seq![s[0]] + rest[0]] + rest.drop_first()
    }
}

/// Splitting always yields at least one token.
pub proof fn lemma_split_spaces_len(s: Seq<char>)
    ensures
        split_spaces(s).len() >= 1,
    decreases s.len(),
{
    if s.len() > 0 {
        lemma_split_spaces_len(s.drop_first());
    }
}

/// A string without spaces is its own single token.
pub proof fn lemma_split_spaces_no_space(s: Seq<char>)
    requires
        !has_space(s),
    ensures
        split_spaces(s) == seq![s],
    decreases s.len(),
{
    if s.len() == 0 {
        assert(split_spaces(s) =~~= seq![s]);
    } else {
        let t = s.drop_first();
        assert forall|j: int| 0 <= j < t.len() implies t[j] != ' ' by {
            assert(t[j] == s[j + 1]);
        }
        lemma_split_spaces_no_space(t);
        assert(seq![s[0]] + t =~= s);
        assert(split_spaces(s) =~~= seq![s]);
    }
}

/// Splitting at the first space: the part before it is the first token,
/// and the rest of the tokens come from the part after it.
pub proof fn lemma_split_spaces_first(s: Seq<char>, i: int)
    requires
        0 <= i < s.len(),
        s[i] == ' ',
        forall|j: int| 0 <= j < i ==> s[j] != ' ',
    ensures
        split_spaces(s) == seq![s.take(i)] + split_spaces(s.skip(i + 1)),
    decreases i,
{
    if i == 0 {
        assert(s.take(0) =~= Seq::<char>::empty());
        assert(s.drop_first() =~= s.skip(1));
        assert(split_spaces(s) =~~= seq![s.take(0)] + split_spaces(s.skip(1)));
    } else {
        let t = s.drop_first();
        assert(t[i - 1] == s[i]);
        assert forall|j: int| 0 <= j < i - 1 implies t[j] != ' ' by {
            assert(t[j] == s[j + 1]);
        }
        lemma_split_spaces_first(t, i - 1);
        let rest = split_spaces(t);
        assert(rest == seq![t.take(i - 1)] + split_spaces(t.skip(i)));
        assert(rest[0] == t.take(i - 1));
        assert(rest.drop_first() =~~= split_spaces(t.skip(i)));
        assert(seq![s[0]] + t.take(i - 1) =~= s.take(i));
        assert(t.skip(i) =~= s.skip(i + 1));
        assert(split_spaces(s) =~~= seq![s.take(i)] + split_spaces(s.skip(i + 1)));
    }
}

/// A string splits into more than one token exactly when it contains a
/// space.
pub proof fn lemma_split_spaces_count(s: Seq<char>)
    ensures
        split_spaces(s).len() > 1 <==> has_space(s),
    decreases s.len(),
{
    if s.len() == 0 {
    } else if s[0] == ' ' {
        lemma_split_spaces_len(s.drop_first());
        assert(has_space(s));
    } else {
        let t = s.drop_first();
        lemma_split_spaces_count(t);
        lemma_split_spaces_len(t);
        if has_space(t) {
            let i = choose|i: int| 0 <= i < t.len() && t[i] == ' ';
            assert(s[i + 1] == ' ');
            assert(has_space(s));
        }
        if has_space(s) {
            let i = choose|i: int| 0 <= i < s.len() && s[i] == ' ';
            assert(t[i - 1] == ' ');
            assert(has_space(t));
        }
    }
}

/// Returns the index of the first space in `s`, or its length if there is
/// none.
fn find_space(s: &str) -> (r: usize)
    ensures
        r <= s@.len(),
        forall|j: int| 0 <= j < r ==> s@[j] != ' ',
        r < s@.len() ==> s@[r as int] == ' ',
{
    let n = s.unicode_len();
    let mut i: usize = 0;
    while i < n
        invariant
            i <= n,
            n == s@.len(),
            forall|j: int| 0 <= j < i ==> s@[j] != ' ',
        decreases n - i,
    {
        if s.get_char(i) == ' ' {
            return i;
        }
        i = i + 1;
    }
    n
}

/// Splits `s` on single spaces into its token strings.
pub fn split_tokens(s: &str) -> (r: Vec<String>)
    ensures
        r.deep_view() == split_spaces(s@),
    decreases s@.len(),
{
    let n = s.unicode_len();
    let i = find_space(s);
    if i == n {
        proof {
            assert(!has_space(s@));
            lemma_split_spaces_no_space(s@);
        }
        let mut r: Vec<String> = Vec::new();
        r.push(String::from_str(s));
        proof {
            assert(r.deep_view() =~~= seq![s@]);
        }
        r
    } else {
        let head = s.substring_char(0, i);
        let tail = s.substring_char(i + 1, n);
        proof {
            assert(tail@ =~= s@.skip(i as int + 1));
        }
        let mut r = split_tokens(tail);
        r.insert(0, String::from_str(head));
        proof {
            lemma_split_spaces_first(s@, i as int);
            assert(head@ =~= s@.take(i as int));
            assert(r.deep_view() =~~= seq![s@.take(i as int)] + split_spaces(
                s@.skip(i as int + 1),
            ));
        }
        r
    }
}

/// Whether `s` begins with the nullable-container keyword followed by a
/// space.
pub open spec fn spec_starts_with_maybe(s: Seq<char>) -> bool {
    s.len() >= 6 && s.subrange(0, 6) == "Maybe "@
}

/// Tests whether `s` starts with the six characters of `"Maybe "`.
pub fn starts_with_maybe(s: &str) -> (r: bool)
    ensures
        r == spec_starts_with_maybe(s@),
{
    let n = s.unicode_len();
    if n < 6 {
        false
    } else {
        let head = s.substring_char(0, 6);
        str_eq(head, "Maybe ")
    }
}

} // verus!
