use vstd::prelude::*;
use vstd::string::*;

verus! {

/// The character sequence that `str::trim` returns for a given input.
pub uninterp spec fn trimmed_of(s: Seq<char>) -> Seq<char>;

/// The character sequence that `str::to_lowercase` returns for a given input.
pub uninterp spec fn lower_of(s: Seq<char>) -> Seq<char>;

/// Relies on str::trim: drops leading and trailing whitespace; the result
/// depends on the input characters alone, and an empty input stays empty.
#[verifier::external_body]
pub fn trim_str(s: &str) -> (r: String)
    ensures
        r@ == trimmed_of(s@),
        s@.len() == 0 ==> r@.len() == 0,
{
    s.trim().to_owned()
}

/// Relies on str::to_lowercase: Unicode lowercasing; the result depends on
/// the input characters alone, and an empty input stays empty.
#[verifier::external_body]
pub fn lower_str(s: &str) -> (r: String)
    ensures
        r@ == lower_of(s@),
        s@.len() == 0 ==> r@.len() == 0,
{
    s.to_lowercase()
}

/// The views of a sequence of owned strings.
pub open spec fn texts_view(v: Seq<String>) -> Seq<Seq<char>> {
    v.map_values(|t: String| t@)
}

/// Splitting a character sequence at every occurrence of `sep`.
/// The result always has one more element than there are separators;
/// in particular an empty input yields one empty field.
pub open spec fn split_text(s: Seq<char>, sep: char) -> Seq<Seq<char>>
    decreases s.len(),
{
    if s.len() == 0 {
        seq![Seq::<char>::empty()]
    } else if s[0] == sep {
        seq![Seq::<char>::empty()] + split_text(s.drop_first(), sep)
    } else {
        let rest = split_text(s.drop_first(), sep);
        seq![seq![s[0]] + rest[0]] + rest.drop_first()
    }
}

pub proof fn lemma_split_text_nonempty(s: Seq<char>, sep: char)
    ensures
        split_text(s, sep).len() >= 1,
    decreases s.len(),
{
    if s.len() == 0 {
    } else {
        lemma_split_text_nonempty(s.drop_first(), sep);
    }
}

/// A sequence without the separator splits into itself alone.
pub proof fn lemma_split_text_no_sep(s: Seq<char>, sep: char)
    requires
        forall|k: int| 0 <= k < s.len() ==> s[k] != sep,
    ensures
        split_text(s, sep) == seq![s],
    decreases s.len(),
{
    if s.len() == 0 {
        assert(split_text(s, sep) =~~= seq![s]);
    } else {
        assert(s[0] != sep);
        lemma_split_text_no_sep(s.drop_first(), sep);
        lemma_split_text_nonempty(s.drop_first(), sep);
        assert(seq![s[0]] + s.drop_first() =~= s);
        assert(split_text(s, sep) =~~= seq![s]);
    }
}

/// Splitting at the first separator: everything before it is the first
/// field, and the remaining fields are those of the tail after it.
pub proof fn lemma_split_text_first_sep(s: Seq<char>, sep: char, i: int)
    requires
        0 <= i < s.len(),
        s[i] == sep,
        forall|k: int| 0 <= k < i ==> s[k] != sep,
    ensures
        split_text(s, sep) == seq![s.take(i)] + split_text(s.skip(i + 1), sep),
    decreases i,
{
    if i == 0 {
        assert(s.take(0) =~= Seq::<char>::empty());
        assert(s.skip(1) =~= s.drop_first());
        assert(split_text(s, sep) =~~= seq![s.take(0)] + split_text(s.skip(1), sep));
    } else {
        assert(s[0] != sep);
        let t = s.drop_first();
        assert(t[i - 1] == sep);
        assert(forall|k: int| 0 <= k < i - 1 ==> t[k] != sep);
        lemma_split_text_first_sep(t, sep, i - 1);
        lemma_split_text_nonempty(t.skip(i), sep);
        let rest = split_text(t, sep);
        assert(rest == seq![t.take(i - 1)] + split_text(t.skip(i), sep));
        assert(rest[0] == t.take(i - 1));
        assert(seq![s[0]] + t.take(i - 1) =~= s.take(i));
        assert(rest.drop_first() =~~= split_text(t.skip(i), sep));
        assert(t.skip(i) =~= s.skip(i + 1));
        assert(split_text(s, sep) =~~= seq![s.take(i)] + split_text(s.skip(i + 1), sep));
    }
}

/// Splits a string at every occurrence of `sep`, yielding the fields in
/// order; the number of fields is one more than the number of separators.
pub fn split_str(s: &str, sep: char) -> (r: Vec<String>)
    ensures
        texts_view(r@) == split_text(s@, sep),
{
    let n: usize = s.unicode_len();
    let mut fields: Vec<String> = Vec::new();
    let mut start: usize = 0;
    let mut i: usize = 0;
    proof {
        assert(texts_view(fields@) =~~= Seq::<Seq<char>>::empty());
        assert(s@.skip(0) =~= s@);
        assert(split_text(s@, sep) =~~= texts_view(fields@) + split_text(s@.skip(0), sep));
    }
    while i < n
        invariant
            0 <= start <= i <= n,
            n == s@.len(),
            forall|k: int| start <= k < i ==> s@[k] != sep,
            split_text(s@, sep) == texts_view(fields@) + split_text(s@.skip(start as int), sep),
        decreases n - i,
    {
        if s.get_char(i) == sep {
            let field = String::from_str(s.substring_char(start, i));
            proof {
                let t = s@.skip(start as int);
                assert(t[i - start] == sep);
                assert(forall|k: int| 0 <= k < i - start ==> t[k] != sep);
                lemma_split_text_first_sep(t, sep, i - start);
                assert(t.take(i - start) =~= s@.subrange(start as int, i as int));
                assert(t.skip(i - start + 1) =~= s@.skip(i + 1));
                assert(texts_view(fields@.push(field)) =~~= texts_view(fields@) + seq![field@]);
                assert(texts_view(fields@) + (seq![field@] + split_text(s@.skip(i + 1), sep))
                    =~~= (texts_view(fields@) + seq![field@]) + split_text(s@.skip(i + 1), sep));
            }
            fields.push(field);
            start = i + 1;
        }
        i += 1;
    }
    let last = String::from_str(s.substring_char(start, n));
    proof {
        let t = s@.skip(start as int);
        assert(forall|k: int| 0 <= k < t.len() ==> t[k] != sep);
        lemma_split_text_no_sep(t, sep);
        assert(t =~= s@.subrange(start as int, n as int));
        assert(texts_view(fields@.push(last)) =~~= texts_view(fields@) + seq![last@]);
        assert(texts_view(fields@.push(last)) =~~= split_text(s@, sep));
    }
    fields.push(last);
    fields
}

/// `p` occurs as a contiguous run somewhere inside `s`.
pub open spec fn text_contains(s: Seq<char>, p: Seq<char>) -> bool {
    exists|i: int| 0 <= i && i + p.len() <= s.len() && #[trigger] s.subrange(i, i + p.len()) == p
}

/// Substring search: whether `p` occurs contiguously inside `s`.
pub fn str_contains_text(s: &str, p: &str) -> (r: bool)
    ensures
        r == text_contains(s@, p@),
{
    let n: usize = s.unicode_len();
    let m: usize = p.unicode_len();
    if m > n {
        proof {
            assert forall|i: int| !(0 <= i && i + p@.len() <= s@.len()
                && #[trigger] s@.subrange(i, i + p@.len()) == p@) by {
            }
        }
        return false;
    }
    if m == 0 {
        proof {
            assert(s@.subrange(0, 0 + p@.len() as int) =~= p@);
            assert(text_contains(s@, p@));
        }
        return true;
    }
    let mut i: usize = 0;
    while i <= n - m
        invariant
            1 <= m <= n,
            n == s@.len(),
            m == p@.len(),
            0 <= i <= n - m + 1,
            forall|ii: int| 0 <= ii < i ==> #[trigger] s@.subrange(ii, ii + p@.len()) != p@,
        decreases n - m + 1 - i,
    {
        let mut j: usize = 0;
        let mut mismatch: bool = false;
        while j < m
            invariant
                m <= n,
                n == s@.len(),
                m == p@.len(),
                0 <= i <= n - m,
                0 <= j <= m,
                !mismatch ==> forall|k: int| 0 <= k < j ==> s@[i + k] == p@[k],
                mismatch ==> s@.subrange(i as int, i + p@.len()) != p@,
            decreases m - j,
        {
            if s.get_char(i + j) != p.get_char(j) {
                proof {
                    assert(s@.subrange(i as int, i + p@.len())[j as int] != p@[j as int]);
                }
                mismatch = true;
                j = m;
            } else {
                j += 1;
            }
        }
        if !mismatch {
            proof {
                assert(s@.subrange(i as int, i + p@.len()) =~= p@);
            }
            return true;
        }
        i += 1;
    }
    proof {
        assert forall|ii: int| !(0 <= ii && ii + p@.len() <= s@.len()
            && #[trigger] s@.subrange(ii, ii + p@.len()) == p@) by {
            if 0 <= ii && ii + p@.len() <= s@.len() {
                assert(ii < i);
            }
        }
    }
    false
}

} // verus!
