use vstd::prelude::*;

verus! {

/// Relies on String::push: appends exactly the given character.
#[verifier::external_body]
pub fn push_char(s: &mut String, c: char)
    ensures
        final(s)@ == old(s)@.push(c),
{
    s.push(c);
}

/// Character-for-character equality of two string slices.
pub fn str_eq(a: &str, b: &str) -> (r: bool)
    ensures
        r == (a@ == b@),
{
    let a_len = a.unicode_len();
    let b_len = b.unicode_len();
    if a_len != b_len {
        return false;
    }
    let mut i: usize = 0;
    while i < a_len
        invariant
            a_len == a@.len(),
            b_len == b@.len(),
            a_len == b_len,
            0 <= i <= a_len,
            forall|k: int| 0 <= k < i ==> a@[k] == b@[k],
        decreases a_len - i,
    {
        if a.get_char(i) != b.get_char(i) {
            return false;
        }
        i += 1;
    }
    proof {
        assert(a@ =~= b@);
    }
    true
}

/// Strict lexicographic order on character sequences, comparing the
/// suffixes that start at position `i`.
pub open spec fn lex_lt_from(a: Seq<char>, b: Seq<char>, i: int) -> bool
    decreases a.len() - i,
{
    if i >= b.len() {
        false
    } else if i >= a.len() {
        true
    } else if a[i] != b[i] {
        a[i] < b[i]
    } else {
        lex_lt_from(a, b, i + 1)
    }
}

/// Strict lexicographic order on character sequences, by code point; for
/// the identifiers this crate sorts it agrees with the byte order of the
/// UTF-8 encodings.
pub open spec fn lex_lt(a: Seq<char>, b: Seq<char>) -> bool {
    lex_lt_from(a, b, 0)
}

fn str_lt_from(a: &str, b: &str, a_len: usize, b_len: usize, i: usize) -> (r: bool)
    requires
        a_len == a@.len(),
        b_len == b@.len(),
        i <= a_len,
        i <= b_len,
    ensures
        r == lex_lt_from(a@, b@, i as int),
    decreases a_len - i,
{
    if i >= b_len {
        false
    } else if i >= a_len {
        true
    } else {
        let ca = a.get_char(i);
        let cb = b.get_char(i);
        if ca != cb {
            ca < cb
        } else {
            str_lt_from(a, b, a_len, b_len, i + 1)
        }
    }
}

/// Decides the strict lexicographic order `lex_lt` on two strings.
pub fn str_lt(a: &str, b: &str) -> (r: bool)
    ensures
        r == lex_lt(a@, b@),
{
    str_lt_from(a, b, a.unicode_len(), b.unicode_len(), 0)
}

/// Names the result of str::to_lowercase, a pure function of the
/// characters of its input.
pub uninterp spec fn lower_of(s: Seq<char>) -> Seq<char>;

/// Relies on str::to_lowercase: the Unicode lowercase form of the
/// string, depending on its characters alone.
#[verifier::external_body]
pub fn lowercase(s: &str) -> (r: String)
    ensures
        r@ == lower_of(s@),
{
    s.to_lowercase()
}

/// Whether the pattern occurs in `s` at position `i`.
pub open spec fn match_at(s: Seq<char>, pat: Seq<char>, i: int) -> bool {
    0 <= i && i + pat.len() <= s.len() && s.subrange(i, i + pat.len()) == pat
}

/// An occurrence of `pat` anywhere in `s`.
pub open spec fn contains_seq(s: Seq<char>, pat: Seq<char>) -> bool {
    exists|i: int| match_at(s, pat, i)
}

/// Replacement of an empty pattern: the replacement stands before every
/// character and at the end.
pub open spec fn spec_interleave(s: Seq<char>, to: Seq<char>) -> Seq<char>
    decreases s.len(),
{
    if s.len() == 0 {
        to
    } else {
        to + seq![s[0]] + spec_interleave(s.subrange(1, s.len() as int), to)
    }
}

/// Left-to-right replacement of the non-overlapping occurrences of a
/// non-empty pattern.
pub open spec fn spec_replace_scan(s: Seq<char>, pat: Seq<char>, to: Seq<char>) -> Seq<char>
    decreases s.len(),
{
    if s.len() == 0 {
        Seq::empty()
    } else if pat.len() > 0 && match_at(s, pat, 0) {
        to + spec_replace_scan(s.subrange(pat.len() as int, s.len() as int), pat, to)
    } else {
        seq![s[0]] + spec_replace_scan(s.subrange(1, s.len() as int), pat, to)
    }
}

/// Replacement of every occurrence of `pat` in `s` by `to`, with the
/// empty pattern matching at every position.
pub open spec fn spec_replace(s: Seq<char>, pat: Seq<char>, to: Seq<char>) -> Seq<char> {
    if pat.len() == 0 {
        spec_interleave(s, to)
    } else {
        spec_replace_scan(s, pat, to)
    }
}

/// Whether the pattern occurs at position `i`, decided by characters.
#[verifier::loop_isolation(false)]
fn has_match_at(s: &str, s_len: usize, pat: &str, p_len: usize, i: usize) -> (r: bool)
    requires
        s_len == s@.len(),
        p_len == pat@.len(),
        i + p_len <= s_len,
    ensures
        r == match_at(s@, pat@, i as int),
{
    let mut k: usize = 0;
    while k < p_len
        invariant
            0 <= k <= p_len,
            forall|m: int| 0 <= m < k ==> s@[i + m] == pat@[m],
        decreases p_len - k,
    {
        if s.get_char(i + k) != pat.get_char(k) {
            proof {
                assert(s@.subrange(i as int, i + p_len)[k as int] != pat@[k as int]);
            }
            return false;
        }
        k += 1;
    }
    proof {
        assert(s@.subrange(i as int, i + p_len) =~= pat@);
    }
    true
}

/// Replaces every occurrence of `pat` in `s` by `to`, scanning left to
/// right over non-overlapping occurrences.
#[verifier::loop_isolation(false)]
pub fn replace_all(s: &str, pat: &str, to: &str) -> (r: String)
    ensures
        r@ == spec_replace(s@, pat@, to@),
{
    let s_len = s.unicode_len();
    let p_len = pat.unicode_len();
    let mut out = String::new();
    if p_len == 0 {
        let mut i: usize = 0;
        proof {
            assert(s@.subrange(0, s_len as int) =~= s@);
            assert(out@ + spec_interleave(s@, to@) =~= spec_interleave(s@, to@));
        }
        while i < s_len
            invariant
                s_len == s@.len(),
                0 <= i <= s_len,
                out@ + spec_interleave(s@.subrange(i as int, s_len as int), to@) == spec_interleave(
                    s@,
                    to@,
                ),
            decreases s_len - i,
        {
            let ghost prev = out@;
            let ghost suffix = s@.subrange(i as int, s_len as int);
            out.append(to);
            push_char(&mut out, s.get_char(i));
            proof {
                assert(suffix.subrange(1, suffix.len() as int) =~= s@.subrange(
                    i + 1,
                    s_len as int,
                ));
                assert(out@ + spec_interleave(s@.subrange(i + 1, s_len as int), to@) =~= prev
                    + spec_interleave(suffix, to@));
            }
            i += 1;
        }
        out.append(to);
        proof {
            assert(s@.subrange(s_len as int, s_len as int) =~= Seq::<char>::empty());
            assert(out@ =~= spec_interleave(s@, to@));
        }
        out
    } else {
        let mut i: usize = 0;
        proof {
            assert(s@.subrange(0, s_len as int) =~= s@);
            assert(out@ + spec_replace_scan(s@, pat@, to@) =~= spec_replace_scan(s@, pat@, to@));
        }
        while i < s_len
            invariant
                s_len == s@.len(),
                p_len == pat@.len(),
                p_len > 0,
                0 <= i <= s_len,
                out@ + spec_replace_scan(s@.subrange(i as int, s_len as int), pat@, to@)
                    == spec_replace_scan(s@, pat@, to@),
            decreases s_len - i,
        {
            let ghost prev = out@;
            let ghost suffix = s@.subrange(i as int, s_len as int);
            if p_len <= s_len - i && has_match_at(s, s_len, pat, p_len, i) {
                out.append(to);
                proof {
                    assert(suffix.subrange(0, p_len as int) =~= s@.subrange(i as int, i + p_len));
                    assert(match_at(suffix, pat@, 0));
                    assert(suffix.subrange(p_len as int, suffix.len() as int) =~= s@.subrange(
                        i + p_len,
                        s_len as int,
                    ));
                    assert(out@ + spec_replace_scan(s@.subrange(i + p_len, s_len as int), pat@, to@)
                        =~= prev + spec_replace_scan(suffix, pat@, to@));
                }
                i += p_len;
            } else {
                push_char(&mut out, s.get_char(i));
                proof {
                    if i + p_len <= s_len as int {
                        assert(suffix.subrange(0, p_len as int) =~= s@.subrange(
                            i as int,
                            i + p_len,
                        ));
                        assert(!match_at(suffix, pat@, 0));
                    } else {
                        assert(!match_at(suffix, pat@, 0));
                    }
                    assert(suffix.subrange(1, suffix.len() as int) =~= s@.subrange(
                        i + 1,
                        s_len as int,
                    ));
                    assert(out@ + spec_replace_scan(s@.subrange(i + 1, s_len as int), pat@, to@)
                        =~= prev + spec_replace_scan(suffix, pat@, to@));
                }
                i += 1;
            }
        }
        proof {
            assert(s@.subrange(s_len as int, s_len as int) =~= Seq::<char>::empty());
            assert(out@ =~= spec_replace_scan(s@, pat@, to@));
        }
        out
    }
}

/// Whether `s` starts with the prefix `p`.
pub open spec fn spec_starts_with(s: Seq<char>, p: Seq<char>) -> bool {
    s.len() >= p.len() && s.subrange(0, p.len() as int) == p
}

pub fn str_starts_with(s: &str, p: &str) -> (r: bool)
    ensures
        r == spec_starts_with(s@, p@),
{
    let s_len = s.unicode_len();
    let p_len = p.unicode_len();
    if p_len > s_len {
        return false;
    }
    has_match_at(s, s_len, p, p_len, 0)
}

/// The first position at or after `from` where `c` stands, or the length
/// of `s` when there is none.
pub open spec fn spec_find_char(s: Seq<char>, c: char, from: int) -> int
    decreases s.len() - from,
{
    if from < 0 || from >= s.len() {
        s.len() as int
    } else if s[from] == c {
        from
    } else {
        spec_find_char(s, c, from + 1)
    }
}

pub proof fn lemma_find_char_range(s: Seq<char>, c: char, from: int)
    requires
        0 <= from <= s.len(),
    ensures
        from <= spec_find_char(s, c, from) <= s.len(),
    decreases s.len() - from,
{
    if from < s.len() && s[from] != c {
        lemma_find_char_range(s, c, from + 1);
    }
}

#[verifier::loop_isolation(false)]
pub fn find_char_from(s: &str, s_len: usize, c: char, from: usize) -> (r: usize)
    requires
        s_len == s@.len(),
        from <= s_len,
    ensures
        r == spec_find_char(s@, c, from as int),
        from <= r <= s_len,
    decreases s_len - from,
{
    if from == s_len {
        s_len
    } else if s.get_char(from) == c {
        from
    } else {
        find_char_from(s, s_len, c, from + 1)
    }
}

// ---------------------------------------------------------------------------
// Sorted, deduplicated name lists.
// ---------------------------------------------------------------------------

/// Insertion of a name into a sorted list without duplicates: an equal
/// entry leaves the list unchanged.
pub open spec fn insert_sorted(x: Seq<char>, s: Seq<Seq<char>>) -> Seq<Seq<char>>
    decreases s.len(),
{
    if s.len() == 0 {
        seq![x]
    } else if x == s[0] {
        s
    } else if lex_lt(x, s[0]) {
        seq![x] + s
    } else {
        seq![s[0]] + insert_sorted(x, s.subrange(1, s.len() as int))
    }
}

/// The sorted list of the distinct elements of `s`: the result of
/// sorting and then removing equal neighbours.
pub open spec fn sort_dedup(s: Seq<Seq<char>>) -> Seq<Seq<char>>
    decreases s.len(),
{
    if s.len() == 0 {
        Seq::empty()
    } else {
        insert_sorted(s[0], sort_dedup(s.subrange(1, s.len() as int)))
    }
}

fn insert_sorted_string(x: String, v: Vec<String>) -> (r: Vec<String>)
    ensures
        crate::model::view_strings(r@) == insert_sorted(x@, crate::model::view_strings(v@)),
    decreases v@.len(),
{
    let ghost vv = v@;
    proof {
        crate::model::lemma_view_strings_index(vv);
    }
    if v.len() == 0 {
        let mut r: Vec<String> = Vec::new();
        r.push(x);
        proof {
            crate::model::lemma_view_strings_index(r@);
            assert(crate::model::view_strings(r@) =~= seq![x@]);
        }
        r
    } else if str_eq(x.as_str(), v[0].as_str()) {
        proof {
            assert(x@ == v@[0]@);
        }
        v
    } else if str_lt(x.as_str(), v[0].as_str()) {
        let mut r = v;
        let ghost prev = r@;
        r.insert(0, x);
        proof {
            crate::model::lemma_view_strings_index(r@);
            assert(crate::model::view_strings(r@) =~= seq![x@] + crate::model::view_strings(prev));
        }
        r
    } else {
        let mut rest = v;
        let head = rest.remove(0);
        proof {
            assert(rest@ =~= vv.subrange(1, vv.len() as int));
            crate::model::lemma_view_strings_index(rest@);
            assert(crate::model::view_strings(rest@) =~= crate::model::view_strings(vv).subrange(
                1,
                vv.len() as int,
            ));
        }
        let mut r = insert_sorted_string(x, rest);
        let ghost mid = r@;
        r.insert(0, head);
        proof {
            crate::model::lemma_view_strings_index(mid);
            crate::model::lemma_view_strings_index(r@);
            assert(crate::model::view_strings(r@) =~= seq![head@] + crate::model::view_strings(
                mid,
            ));
            assert(head@ == crate::model::view_strings(vv)[0]);
        }
        r
    }
}

/// Sorts a list of names and removes duplicates, as sorting followed by
/// removing equal neighbours would.
pub fn sort_dedup_strings(v: Vec<String>) -> (r: Vec<String>)
    ensures
        crate::model::view_strings(r@) == sort_dedup(crate::model::view_strings(v@)),
    decreases v@.len(),
{
    let ghost vv = v@;
    proof {
        crate::model::lemma_view_strings_index(vv);
    }
    if v.len() == 0 {
        let r: Vec<String> = Vec::new();
        proof {
            assert(crate::model::view_strings(r@) =~= Seq::<Seq<char>>::empty());
        }
        r
    } else {
        let mut rest = v;
        let head = rest.remove(0);
        proof {
            assert(rest@ =~= vv.subrange(1, vv.len() as int));
            crate::model::lemma_view_strings_index(rest@);
            assert(crate::model::view_strings(rest@) =~= crate::model::view_strings(vv).subrange(
                1,
                vv.len() as int,
            ));
            assert(head@ == crate::model::view_strings(vv)[0]);
        }
        let sorted = sort_dedup_strings(rest);
        insert_sorted_string(head, sorted)
    }
}

} // verus!
