use vstd::prelude::*;

verus! {

/// `pat` occurs in `s` starting at character `i`.
pub open spec fn occurs_at(s: Seq<char>, pat: Seq<char>, i: int) -> bool {
    0 <= i && i + pat.len() <= s.len() && s.subrange(i, i + pat.len()) == pat
}

/// `pat` occurs somewhere in `s`.
pub open spec fn contains_seq(s: Seq<char>, pat: Seq<char>) -> bool {
    exists|i: int| #[trigger] occurs_at(s, pat, i)
}

/// `s` with every occurrence of `pat` taken out, scanning left to right
/// and never letting two removed occurrences overlap.
pub open spec fn removed(s: Seq<char>, pat: Seq<char>) -> Seq<char>
    decreases s.len(),
{
    if pat.len() == 0 || s.len() < pat.len() {
        s
    } else if s.subrange(0, pat.len() as int) == pat {
        removed(s.subrange(pat.len() as int, s.len() as int), pat)
    } else {
        seq![s[0]] + removed(s.subrange(1, s.len() as int), pat)
    }
}

/// The chunks written one after another.
pub open spec fn joined(chunks: Seq<Seq<char>>) -> Seq<char>
    decreases chunks.len(),
{
    if chunks.len() == 0 {
        Seq::empty()
    } else {
        joined(chunks.drop_last()) + chunks.last()
    }
}

/// What `str::to_lowercase` gives for a text.
pub uninterp spec fn lowered(s: Seq<char>) -> Seq<char>;

/// What `str::trim` gives for a text.
pub uninterp spec fn trimmed(s: Seq<char>) -> Seq<char>;

/// Relies on `str::to_lowercase`: the Unicode lower case of the text, a
/// function of its characters alone.
#[verifier::external_body]
pub(crate) fn to_lowercase(s: &str) -> (r: String)
    ensures
        r@ == lowered(s@),
{
    s.to_lowercase()
}

/// Relies on `str::trim`: the text without leading and trailing white space,
/// a function of its characters alone.
#[verifier::external_body]
pub(crate) fn trim(s: &str) -> (r: String)
    ensures
        r@ == trimmed(s@),
{
    s.trim().to_string()
}

/// Character-wise equality of two texts.
pub fn str_eq(a: &str, b: &str) -> (r: bool)
    ensures
        r == (a@ == b@),
{
    let n = a.unicode_len();
    if n != b.unicode_len() {
        return false;
    }
    let mut i: usize = 0;
    while i < n
        invariant
            n == a@.len(),
            n == b@.len(),
            i <= n,
            a@.subrange(0, i as int) == b@.subrange(0, i as int),
        decreases n - i,
    {
        if a.get_char(i) != b.get_char(i) {
            assert(a@[i as int] != b@[i as int]);
            return false;
        }
        assert(a@.subrange(0, i + 1) == a@.subrange(0, i as int).push(a@[i as int]));
        assert(b@.subrange(0, i + 1) == b@.subrange(0, i as int).push(b@[i as int]));
        i = i + 1;
    }
    assert(a@ == a@.subrange(0, n as int));
    assert(b@ == b@.subrange(0, n as int));
    true
}

/// Whether `pat` occurs in `s` starting at character `i`.
fn occurs_at_exec(s: &str, pat: &str, i: usize, s_len: usize, pat_len: usize) -> (r: bool)
    requires
        s_len == s@.len(),
        pat_len == pat@.len(),
    ensures
        r == occurs_at(s@, pat@, i as int),
{
    if i > s_len || pat_len > s_len - i {
        return false;
    }
    let mut k: usize = 0;
    while k < pat_len
        invariant
            s_len == s@.len(),
            pat_len == pat@.len(),
            i + pat_len <= s_len,
            k <= pat_len,
            s@.subrange(i as int, i + k) == pat@.subrange(0, k as int),
        decreases pat_len - k,
    {
        if s.get_char(i + k) != pat.get_char(k) {
            assert(s@.subrange(i as int, i + pat_len)[k as int] != pat@[k as int]);
            return false;
        }
        assert(s@.subrange(i as int, i + k + 1) == s@.subrange(i as int, i + k).push(
            s@[i + k],
        ));
        assert(pat@.subrange(0, k + 1) == pat@.subrange(0, k as int).push(pat@[k as int]));
        k = k + 1;
    }
    assert(pat@ == pat@.subrange(0, pat_len as int));
    true
}

/// Whether `pat` occurs anywhere in `s`.
pub fn contains(s: &str, pat: &str) -> (r: bool)
    ensures
        r == contains_seq(s@, pat@),
{
    let s_len = s.unicode_len();
    let pat_len = pat.unicode_len();
    if pat_len > s_len {
        assert forall|j: int| !occurs_at(s@, pat@, j) by {}
        return false;
    }
    let last = s_len - pat_len;
    let mut i: usize = 0;
    while i < last
        invariant
            s_len == s@.len(),
            pat_len == pat@.len(),
            last == s_len - pat_len,
            i <= last,
            forall|j: int| 0 <= j < i ==> !#[trigger] occurs_at(s@, pat@, j),
        decreases last - i,
    {
        if occurs_at_exec(s, pat, i, s_len, pat_len) {
            return true;
        }
        i = i + 1;
    }
    if occurs_at_exec(s, pat, last, s_len, pat_len) {
        return true;
    }
    assert forall|j: int| !#[trigger] occurs_at(s@, pat@, j) by {
        if 0 <= j <= last {
        }
    }
    false
}

proof fn lemma_removed_step(s: Seq<char>, pat: Seq<char>, i: int)
    requires
        pat.len() > 0,
        0 <= i <= s.len(),
    ensures
        i + pat.len() <= s.len() && occurs_at(s, pat, i) ==> removed(s.subrange(i, s.len() as int), pat)
            == removed(s.subrange(i + pat.len(), s.len() as int), pat),
        i < s.len() && !(i + pat.len() <= s.len() && occurs_at(s, pat, i)) ==> removed(
            s.subrange(i, s.len() as int),
            pat,
        ) == seq![s[i]] + removed(s.subrange(i + 1, s.len() as int), pat),
{
    let t = s.subrange(i, s.len() as int);
    if i + pat.len() <= s.len() {
        assert(t.subrange(0, pat.len() as int) == s.subrange(i, i + pat.len()));
        assert(t.subrange(pat.len() as int, t.len() as int) == s.subrange(
            i + pat.len(),
            s.len() as int,
        ));
    }
    if i < s.len() {
        assert(t.subrange(1, t.len() as int) == s.subrange(i + 1, s.len() as int));
    }
}

/// `s` with every occurrence of a non-empty `pat` taken out, as
/// `str::replace(s, pat, "")` does.
pub fn remove_all(s: &str, pat: &str) -> (r: String)
    requires
        pat@.len() > 0,
    ensures
        r@ == removed(s@, pat@),
{
    let s_len = s.unicode_len();
    let pat_len = pat.unicode_len();
    let mut out = String::new();
    let mut i: usize = 0;
    assert(s@.subrange(0, s_len as int) == s@);
    while i < s_len
        invariant
            s_len == s@.len(),
            pat_len == pat@.len(),
            pat_len > 0,
            i <= s_len,
            removed(s@, pat@) == out@ + removed(s@.subrange(i as int, s_len as int), pat@),
        decreases s_len - i,
    {
        proof {
            lemma_removed_step(s@, pat@, i as int);
        }
        if occurs_at_exec(s, pat, i, s_len, pat_len) {
            i = i + pat_len;
        } else {
            let c = s.substring_char(i, i + 1);
            assert(c@ == seq![s@[i as int]]);
            let ghost before = out@;
            out.append(c);
            assert(out@ + removed(s@.subrange(i + 1, s_len as int), pat@) == before + (seq![
                s@[i as int],
            ] + removed(s@.subrange(i + 1, s_len as int), pat@)));
            i = i + 1;
        }
    }
    assert(s@.subrange(s_len as int, s_len as int).len() == 0);
    assert(out@ + Seq::<char>::empty() == out@);
    out
}

/// The chunks written one after another into one text.
pub fn join_all(chunks: &Vec<String>) -> (r: String)
    ensures
        r@ == joined(chunks.deep_view()),
{
    let mut out = String::new();
    let mut i: usize = 0;
    while i < chunks.len()
        invariant
            i <= chunks.len(),
            out@ == joined(chunks.deep_view().subrange(0, i as int)),
        decreases chunks.len() - i,
    {
        let ghost before = out@;
        out.append(chunks[i].as_str());
        proof {
            let cs = chunks.deep_view();
            assert(cs.subrange(0, i + 1).drop_last() == cs.subrange(0, i as int));
            assert(cs.subrange(0, i + 1).last() == chunks[i as int]@);
        }
        i = i + 1;
    }
    assert(chunks.deep_view().subrange(0, chunks.len() as int) == chunks.deep_view());
    out
}

} // verus!
