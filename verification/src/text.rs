//! Character-level helpers over `str` views.
use vstd::prelude::*;

verus! {

/// The pieces of `s` between the occurrences of `sep`, in order, exactly as
/// `str::split` with a `char` pattern yields them (an empty string gives one
/// empty piece).
pub open spec fn split_on(s: Seq<char>, sep: char) -> Seq<Seq<char>>
    decreases s.len(),
{
    if s.len() == 0 {
        seq![Seq::<char>::empty()]
    } else {
        let rest = split_on(s.drop_first(), sep);
        if s[0] == sep {
            seq![Seq::<char>::empty()] + rest
        } else {
            rest.update(0, seq![s[0]] + rest[0])
        }
    }
}

/// `s` holds no occurrence of `c`.
pub open spec fn free_of(s: Seq<char>, c: char) -> bool {
    forall|k: int| 0 <= k < s.len() ==> s[k] != c
}

/// `split_on` always yields at least one piece.
pub proof fn lemma_split_on_nonempty(s: Seq<char>, sep: char)
    ensures
        split_on(s, sep).len() >= 1,
    decreases s.len(),
{
    if s.len() > 0 {
        lemma_split_on_nonempty(s.drop_first(), sep);
    }
}

/// A prefix free of the separator extends the first piece and leaves the
/// later pieces alone.
pub proof fn lemma_split_on_free_prefix(p: Seq<char>, t: Seq<char>, sep: char)
    requires
        free_of(p, sep),
    ensures
        split_on(p + t, sep).len() == split_on(t, sep).len(),
        split_on(p + t, sep)[0] == p + split_on(t, sep)[0],
        split_on(p + t, sep).drop_first() == split_on(t, sep).drop_first(),
    decreases p.len(),
{
    lemma_split_on_nonempty(t, sep);
    if p.len() == 0 {
        assert(p + t =~= t);
        assert(p + split_on(t, sep)[0] =~= split_on(t, sep)[0]);
    } else {
        let p1 = p.drop_first();
        assert(free_of(p1, sep));
        lemma_split_on_free_prefix(p1, t, sep);
        assert((p + t).drop_first() =~= p1 + t);
        lemma_split_on_nonempty(p1 + t, sep);
        let rest = split_on(p1 + t, sep);
        assert(split_on(p + t, sep) == rest.update(0, seq![p[0]] + rest[0]));
        assert(seq![p[0]] + (p1 + split_on(t, sep)[0]) =~= p + split_on(t, sep)[0]);
        assert(rest.update(0, seq![p[0]] + rest[0]).drop_first() =~= rest.drop_first());
    }
}

/// A leading separator closes an empty first piece.
pub proof fn lemma_split_on_leading_sep(t: Seq<char>, sep: char)
    ensures
        split_on(seq![sep] + t, sep) == seq![Seq::<char>::empty()] + split_on(t, sep),
{
    assert((seq![sep] + t).drop_first() =~= t);
}

/// A string free of the separator is a single piece.
pub proof fn lemma_split_on_free(s: Seq<char>, sep: char)
    requires
        free_of(s, sep),
    ensures
        split_on(s, sep) == seq![s],
{
    lemma_split_on_free_prefix(s, Seq::<char>::empty(), sep);
    assert(s + Seq::<char>::empty() =~= s);
    assert(split_on(s, sep).drop_first() =~= Seq::<Seq<char>>::empty());
    assert(split_on(s, sep) =~= seq![s]);
}

/// In `first.second.third`, with none of the three parts holding a dot, the
/// second piece is `second`: the payload of a `header.payload.signature`
/// token is its middle part.
pub proof fn lemma_split_on_middle(first: Seq<char>, second: Seq<char>, third: Seq<char>, sep: char)
    requires
        free_of(first, sep),
        free_of(second, sep),
        free_of(third, sep),
    ensures
        split_on(first + seq![sep] + second + seq![sep] + third, sep) == seq![first, second, third],
{
    let s = first + seq![sep] + second + seq![sep] + third;
    assert(s =~= first + (seq![sep] + (second + (seq![sep] + third))));
    lemma_split_on_free_prefix(first, seq![sep] + (second + (seq![sep] + third)), sep);
    lemma_split_on_leading_sep(second + (seq![sep] + third), sep);
    lemma_split_on_free_prefix(second, seq![sep] + third, sep);
    lemma_split_on_leading_sep(third, sep);
    lemma_split_on_free(third, sep);
    let a = split_on(seq![sep] + third, sep);
    assert(a == seq![Seq::<char>::empty(), third]);
    assert(second + a[0] =~= second);
    assert(a.drop_first() =~= seq![third]);
    let b = split_on(second + (seq![sep] + third), sep);
    assert(b.len() == 2);
    assert(b[0] == second);
    assert(b[1] == b.drop_first()[0]);
    assert(b =~= seq![second, third]);
    let c = split_on(seq![sep] + (second + (seq![sep] + third)), sep);
    assert(c =~= seq![Seq::<char>::empty(), second, third]);
    assert(first + c[0] =~= first);
    assert(c.drop_first() =~= seq![second, third]);
    let d = split_on(s, sep);
    assert(d.len() == 3);
    assert(d[0] == first);
    assert(d[1] == d.drop_first()[0]);
    assert(d[2] == d.drop_first()[1]);
    assert(d =~= seq![first, second, third]);
}

/// Compares two string slices character by character.
pub fn str_equals(a: &str, b: &str) -> (res: bool)
    ensures
        res == (a@ == b@),
{
    let n = a.unicode_len();
    let m = b.unicode_len();
    if n != m {
        return false;
    }
    let mut i: usize = 0;
    while i < n
        invariant
            n == a@.len(),
            m == b@.len(),
            n == m,
            i <= n,
            forall|k: int| 0 <= k < i ==> a@[k] == b@[k],
        decreases n - i,
    {
        if a.get_char(i) != b.get_char(i) {
            return false;
        }
        i = i + 1;
    }
    assert(a@ =~= b@);
    true
}

/// The text that `{:?}` formats a string slice to: quoted, with quotes,
/// backslashes and control characters escaped.
pub uninterp spec fn debug_escaped(s: Seq<char>) -> Seq<char>;

/// Formats `s` with `{:?}` (std's `Debug` for `str`). Claimed: the result is
/// the debug-escaped text of `s`, a function of `s` alone.
#[verifier::external_body]
pub(crate) fn debug_text(s: &str) -> (res: String)
    ensures
        res@ == debug_escaped(s@),
{
    format!("{:?}", s)
}

} // verus!
