//! Byte- and character-level text utilities: ASCII lowercasing, whitespace
//! trimming, prefix and substring tests. Provider identifiers are handled as
//! UTF-8 byte sequences; prompts are trimmed at the character level.

use vstd::prelude::*;

verus! {

/// ASCII whitespace, the bytes stripped when an identifier is trimmed.
pub open spec fn is_space_byte(b: u8) -> bool {
    b == 32 || (9 <= b && b <= 13)
}

/// ASCII whitespace at the character level, for trimming prompt text.
pub open spec fn is_space_char(c: char) -> bool {
    c == ' ' || c == '\t' || c == '\n' || c == '\r' || c == '\u{b}' || c == '\u{c}'
}

/// Lowercase an ASCII letter; leave every other byte unchanged.
pub open spec fn lower_byte(b: u8) -> u8 {
    if 65 <= b && b <= 90 {
        (b + 32) as u8
    } else {
        b
    }
}

/// Bytewise ASCII lowercasing.
pub open spec fn lower_bytes(s: Seq<u8>) -> Seq<u8> {
    s.map_values(|b: u8| lower_byte(b))
}

/// The sequence with leading ASCII whitespace removed.
pub open spec fn trim_start_bytes(s: Seq<u8>) -> Seq<u8>
    decreases s.len(),
{
    if s.len() > 0 && is_space_byte(s[0]) {
        trim_start_bytes(s.skip(1))
    } else {
        s
    }
}

/// The sequence with trailing ASCII whitespace removed.
pub open spec fn trim_end_bytes(s: Seq<u8>) -> Seq<u8>
    decreases s.len(),
{
    if s.len() > 0 && is_space_byte(s[s.len() - 1]) {
        trim_end_bytes(s.take(s.len() - 1))
    } else {
        s
    }
}

/// The sequence with whitespace removed on both ends.
pub open spec fn trim_bytes(s: Seq<u8>) -> Seq<u8> {
    trim_end_bytes(trim_start_bytes(s))
}

/// Identifier normalization: trim, then lowercase. Applied exactly once
/// before any alias or prefix comparison.
pub open spec fn norm_id(s: Seq<u8>) -> Seq<u8> {
    lower_bytes(trim_bytes(s))
}

/// `p` occurs as a contiguous subsequence of `s`.
pub open spec fn contains_seq(s: Seq<u8>, p: Seq<u8>) -> bool {
    exists|i: int|
        0 <= i && i + p.len() <= s.len() && #[trigger] s.subrange(i, i + p.len()) == p
}

/// Characters of `s` with leading whitespace removed.
pub open spec fn trim_start_chars(s: Seq<char>) -> Seq<char>
    decreases s.len(),
{
    if s.len() > 0 && is_space_char(s[0]) {
        trim_start_chars(s.skip(1))
    } else {
        s
    }
}

/// Characters of `s` with trailing whitespace removed.
pub open spec fn trim_end_chars(s: Seq<char>) -> Seq<char>
    decreases s.len(),
{
    if s.len() > 0 && is_space_char(s[s.len() - 1]) {
        trim_end_chars(s.take(s.len() - 1))
    } else {
        s
    }
}

/// Characters of `s` with whitespace removed on both ends.
pub open spec fn trim_chars(s: Seq<char>) -> Seq<char> {
    trim_end_chars(trim_start_chars(s))
}

proof fn lemma_trim_start_bytes_skip(s: Seq<u8>, i: int)
    requires
        0 <= i <= s.len(),
        forall|j: int| 0 <= j < i ==> is_space_byte(s[j]),
    ensures
        trim_start_bytes(s) == trim_start_bytes(s.skip(i)),
    decreases i,
{
    if i > 0 {
        assert(trim_start_bytes(s) == trim_start_bytes(s.skip(1)));
        lemma_trim_start_bytes_skip(s.skip(1), i - 1);
        assert(s.skip(1).skip(i - 1) =~= s.skip(i));
    } else {
        assert(s.skip(0) =~= s);
    }
}

proof fn lemma_trim_end_bytes_take(s: Seq<u8>, i: int)
    requires
        0 <= i <= s.len(),
        forall|j: int| i <= j < s.len() ==> is_space_byte(s[j]),
    ensures
        trim_end_bytes(s) == trim_end_bytes(s.take(i)),
    decreases s.len() - i,
{
    if i < s.len() {
        assert(trim_end_bytes(s) == trim_end_bytes(s.take(s.len() - 1)));
        assert(forall|j: int|
            i <= j < s.take(s.len() - 1).len() ==> is_space_byte(#[trigger] s.take(s.len() - 1)[j]));
        lemma_trim_end_bytes_take(s.take(s.len() - 1), i);
        assert(s.take(s.len() - 1).take(i) =~= s.take(i));
    } else {
        assert(s.take(s.len() as int) =~= s);
    }
}

proof fn lemma_trim_start_bytes_head(s: Seq<u8>)
    ensures
        trim_start_bytes(s).len() == 0 || !is_space_byte(trim_start_bytes(s)[0]),
    decreases s.len(),
{
    if s.len() > 0 && is_space_byte(s[0]) {
        lemma_trim_start_bytes_head(s.skip(1));
    }
}

proof fn lemma_trim_end_bytes_prefix(s: Seq<u8>)
    ensures
        trim_end_bytes(s).len() <= s.len(),
        trim_end_bytes(s) == s.take(trim_end_bytes(s).len() as int),
    decreases s.len(),
{
    if s.len() > 0 && is_space_byte(s[s.len() - 1]) {
        lemma_trim_end_bytes_prefix(s.take(s.len() - 1));
        assert(s.take(s.len() - 1).take(trim_end_bytes(s).len() as int) =~= s.take(
            trim_end_bytes(s).len() as int,
        ));
    } else {
        assert(s.take(s.len() as int) =~= s);
    }
}

proof fn lemma_trim_end_bytes_last(s: Seq<u8>)
    ensures
        trim_end_bytes(s).len() == 0 || !is_space_byte(trim_end_bytes(s)[trim_end_bytes(
            s,
        ).len() - 1]),
    decreases s.len(),
{
    if s.len() > 0 && is_space_byte(s[s.len() - 1]) {
        lemma_trim_end_bytes_last(s.take(s.len() - 1));
    }
}

/// Normalization applied twice gives what it gives once: a normalized
/// identifier is already trimmed and lowercased.
pub proof fn lemma_norm_id_idempotent(s: Seq<u8>)
    ensures
        norm_id(norm_id(s)) == norm_id(s),
{
    let u = trim_start_bytes(s);
    let t = trim_bytes(s);
    let v = lower_bytes(t);
    lemma_trim_start_bytes_head(s);
    lemma_trim_end_bytes_prefix(u);
    lemma_trim_end_bytes_last(u);
    assert(v.len() == t.len());
    assert forall|i: int| 0 <= i < t.len() implies v[i] == lower_byte(t[i]) by {}
    assert forall|i: int| 0 <= i < t.len() implies is_space_byte(v[i]) == is_space_byte(t[i]) by {}
    if v.len() > 0 {
        assert(t[0] == u[0]);
        assert(!is_space_byte(v[0]));
        assert(!is_space_byte(v[v.len() - 1]));
    }
    assert(trim_start_bytes(v) == v);
    assert(trim_end_bytes(v) == v);
    assert(lower_bytes(v) =~= v);
}

proof fn lemma_trim_start_bytes_case(a: Seq<u8>, b: Seq<u8>)
    requires
        a.len() == b.len(),
        forall|i: int| 0 <= i < a.len() ==> lower_byte(a[i]) == lower_byte(b[i]),
    ensures
        trim_start_bytes(a).len() == trim_start_bytes(b).len(),
        forall|i: int|
            0 <= i < trim_start_bytes(a).len() ==> lower_byte(trim_start_bytes(a)[i])
                == lower_byte(trim_start_bytes(b)[i]),
    decreases a.len(),
{
    if a.len() > 0 {
        assert(is_space_byte(a[0]) == is_space_byte(b[0]));
        if is_space_byte(a[0]) {
            assert forall|i: int| 0 <= i < a.skip(1).len() implies lower_byte(a.skip(1)[i])
                == lower_byte(b.skip(1)[i]) by {
                assert(a.skip(1)[i] == a[i + 1]);
                assert(b.skip(1)[i] == b[i + 1]);
            }
            lemma_trim_start_bytes_case(a.skip(1), b.skip(1));
        }
    }
}

proof fn lemma_trim_end_bytes_case(a: Seq<u8>, b: Seq<u8>)
    requires
        a.len() == b.len(),
        forall|i: int| 0 <= i < a.len() ==> lower_byte(a[i]) == lower_byte(b[i]),
    ensures
        trim_end_bytes(a).len() == trim_end_bytes(b).len(),
        forall|i: int|
            0 <= i < trim_end_bytes(a).len() ==> lower_byte(trim_end_bytes(a)[i]) == lower_byte(
                trim_end_bytes(b)[i],
            ),
    decreases a.len(),
{
    if a.len() > 0 {
        assert(is_space_byte(a[a.len() - 1]) == is_space_byte(b[b.len() - 1]));
        if is_space_byte(a[a.len() - 1]) {
            assert forall|i: int|
                0 <= i < a.take(a.len() - 1).len() implies lower_byte(
                #[trigger] a.take(a.len() - 1)[i],
            ) == lower_byte(b.take(b.len() - 1)[i]) by {}
            lemma_trim_end_bytes_case(a.take(a.len() - 1), b.take(b.len() - 1));
        }
    }
}

/// Identifiers that differ only by letter case normalize identically.
pub proof fn lemma_norm_id_ignores_case(a: Seq<u8>, b: Seq<u8>)
    requires
        a.len() == b.len(),
        forall|i: int| 0 <= i < a.len() ==> lower_byte(a[i]) == lower_byte(b[i]),
    ensures
        norm_id(a) == norm_id(b),
{
    lemma_trim_start_bytes_case(a, b);
    lemma_trim_end_bytes_case(trim_start_bytes(a), trim_start_bytes(b));
    let ta = trim_bytes(a);
    let tb = trim_bytes(b);
    assert forall|i: int| 0 <= i < ta.len() implies lower_bytes(ta)[i] == lower_bytes(tb)[i] by {
        assert(lower_bytes(ta)[i] == lower_byte(ta[i]));
        assert(lower_bytes(tb)[i] == lower_byte(tb[i]));
    }
    assert(lower_bytes(ta) =~= lower_bytes(tb));
}

proof fn lemma_trim_start_bytes_concat(s: Seq<u8>, q: Seq<u8>)
    requires
        forall|j: int| 0 <= j < q.len() ==> is_space_byte(q[j]),
    ensures
        trim_start_bytes(s + q) == if trim_start_bytes(s).len() > 0 {
            trim_start_bytes(s) + q
        } else {
            trim_start_bytes(q)
        },
    decreases s.len(),
{
    if s.len() == 0 {
        assert(s + q =~= q);
    } else if is_space_byte(s[0]) {
        assert((s + q)[0] == s[0]);
        lemma_trim_start_bytes_concat(s.skip(1), q);
        assert((s + q).skip(1) =~= s.skip(1) + q);
    } else {
        assert((s + q)[0] == s[0]);
        assert(trim_start_bytes(s + q) == s + q);
    }
}

proof fn lemma_trim_end_bytes_all_space(s: Seq<u8>)
    requires
        forall|j: int| 0 <= j < s.len() ==> is_space_byte(s[j]),
    ensures
        trim_end_bytes(s).len() == 0,
{
    lemma_trim_end_bytes_take(s, 0);
    assert(s.take(0) =~= Seq::<u8>::empty());
}

/// Normalization erases surrounding whitespace: padding an identifier with
/// whitespace on either side leaves its normalized form unchanged.
pub proof fn lemma_norm_id_ignores_padding(p: Seq<u8>, s: Seq<u8>, q: Seq<u8>)
    requires
        forall|j: int| 0 <= j < p.len() ==> is_space_byte(p[j]),
        forall|j: int| 0 <= j < q.len() ==> is_space_byte(q[j]),
    ensures
        norm_id(p + s + q) == norm_id(s),
{
    let whole = p + s + q;
    assert forall|j: int| 0 <= j < p.len() implies is_space_byte(whole[j]) by {
        assert(whole[j] == p[j]);
    }
    lemma_trim_start_bytes_skip(whole, p.len() as int);
    assert(whole.skip(p.len() as int) =~= s + q);
    lemma_trim_start_bytes_concat(s, q);
    if trim_start_bytes(s).len() > 0 {
        let u = trim_start_bytes(s);
        assert forall|j: int|
            u.len() <= j < (u + q).len() implies is_space_byte(#[trigger] (u + q)[j]) by {
            assert((u + q)[j] == q[j - u.len()]);
        }
        lemma_trim_end_bytes_take(u + q, u.len() as int);
        assert((u + q).take(u.len() as int) =~= u);
    } else {
        let tq = trim_start_bytes(q);
        lemma_trim_start_bytes_head(q);
        assert forall|j: int| 0 <= j < tq.len() implies is_space_byte(tq[j]) by {
            lemma_trim_start_is_suffix(q, j);
        }
        lemma_trim_end_bytes_all_space(tq);
        assert(trim_bytes(whole).len() == 0);
        assert(trim_bytes(s).len() == 0);
        assert(trim_bytes(whole) =~= trim_bytes(s));
        assert(lower_bytes(trim_bytes(whole)) =~= lower_bytes(trim_bytes(s)));
    }
}

proof fn lemma_trim_start_is_suffix(s: Seq<u8>, j: int)
    requires
        0 <= j < trim_start_bytes(s).len(),
        forall|i: int| 0 <= i < s.len() ==> is_space_byte(s[i]),
    ensures
        is_space_byte(trim_start_bytes(s)[j]),
    decreases s.len(),
{
    if s.len() > 0 && is_space_byte(s[0]) {
        lemma_trim_start_is_suffix(s.skip(1), j);
    }
}

proof fn lemma_trim_start_chars_skip(s: Seq<char>, i: int)
    requires
        0 <= i <= s.len(),
        forall|j: int| 0 <= j < i ==> is_space_char(s[j]),
    ensures
        trim_start_chars(s) == trim_start_chars(s.skip(i)),
    decreases i,
{
    if i > 0 {
        assert(trim_start_chars(s) == trim_start_chars(s.skip(1)));
        lemma_trim_start_chars_skip(s.skip(1), i - 1);
        assert(s.skip(1).skip(i - 1) =~= s.skip(i));
    } else {
        assert(s.skip(0) =~= s);
    }
}

proof fn lemma_trim_end_chars_take(s: Seq<char>, i: int)
    requires
        0 <= i <= s.len(),
        forall|j: int| i <= j < s.len() ==> is_space_char(s[j]),
    ensures
        trim_end_chars(s) == trim_end_chars(s.take(i)),
    decreases s.len() - i,
{
    if i < s.len() {
        assert(trim_end_chars(s) == trim_end_chars(s.take(s.len() - 1)));
        assert(forall|j: int|
            i <= j < s.take(s.len() - 1).len() ==> is_space_char(
                #[trigger] s.take(s.len() - 1)[j],
            ));
        lemma_trim_end_chars_take(s.take(s.len() - 1), i);
        assert(s.take(s.len() - 1).take(i) =~= s.take(i));
    } else {
        assert(s.take(s.len() as int) =~= s);
    }
}

/// Exec counterpart of `is_space_char`.
pub fn is_space_char_exec(c: char) -> (r: bool)
    ensures
        r == is_space_char(c),
{
    c == ' ' || c == '\t' || c == '\n' || c == '\r' || c == '\u{b}' || c == '\u{c}'
}

/// Copy of `s` with whitespace removed from both ends.
pub fn trim_str(s: &str) -> (r: String)
    ensures
        r@ == trim_chars(s@),
{
    let len = s.unicode_len();
    let mut lo: usize = 0;
    while lo < len && is_space_char_exec(s.get_char(lo))
        invariant
            0 <= lo <= len,
            len == s@.len(),
            forall|j: int| 0 <= j < lo ==> is_space_char(s@[j]),
        decreases len - lo,
    {
        lo = lo + 1;
    }
    proof {
        lemma_trim_start_chars_skip(s@, lo as int);
        if lo < len {
            assert(!is_space_char(s@.skip(lo as int)[0]));
        }
        assert(trim_start_chars(s@) == s@.skip(lo as int));
    }
    let mut hi: usize = len;
    while hi > lo && is_space_char_exec(s.get_char(hi - 1))
        invariant
            lo <= hi <= len,
            len == s@.len(),
            forall|j: int| hi <= j < len ==> is_space_char(s@[j]),
        decreases hi,
    {
        hi = hi - 1;
    }
    proof {
        let tail = s@.skip(lo as int);
        assert(forall|j: int| hi - lo <= j < tail.len() ==> is_space_char(#[trigger] tail[j]));
        lemma_trim_end_chars_take(tail, hi - lo);
        if hi > lo {
            assert(tail.take(hi - lo)[hi - lo - 1] == s@[hi - 1]);
            assert(!is_space_char(tail.take(hi - lo)[hi - lo - 1]));
        }
        assert(trim_end_chars(tail.take(hi - lo)) == tail.take(hi - lo));
        assert(tail.take(hi - lo) =~= s@.subrange(lo as int, hi as int));
    }
    let sub = s.substring_char(lo, hi);
    String::from_str(sub)
}

/// Exec counterpart of `lower_byte`.
pub fn lower_byte_exec(b: u8) -> (r: u8)
    ensures
        r == lower_byte(b),
{
    if 65 <= b && b <= 90 {
        b + 32
    } else {
        b
    }
}

/// Exec counterpart of `is_space_byte`.
pub fn is_space_byte_exec(b: u8) -> (r: bool)
    ensures
        r == is_space_byte(b),
{
    b == 32 || (9 <= b && b <= 13)
}

/// Copy of `v` with ASCII whitespace removed from both ends.
pub fn trim_vec(v: &Vec<u8>) -> (r: Vec<u8>)
    ensures
        r@ == trim_bytes(v@),
{
    let len = v.len();
    let mut lo: usize = 0;
    while lo < len && is_space_byte_exec(v[lo])
        invariant
            0 <= lo <= len,
            len == v@.len(),
            forall|j: int| 0 <= j < lo ==> is_space_byte(v@[j]),
        decreases len - lo,
    {
        lo = lo + 1;
    }
    proof {
        lemma_trim_start_bytes_skip(v@, lo as int);
        if lo < len {
            assert(!is_space_byte(v@.skip(lo as int)[0]));
        }
        assert(trim_start_bytes(v@) == v@.skip(lo as int));
    }
    let mut hi: usize = len;
    while hi > lo && is_space_byte_exec(v[hi - 1])
        invariant
            lo <= hi <= len,
            len == v@.len(),
            forall|j: int| hi <= j < len ==> is_space_byte(v@[j]),
        decreases hi,
    {
        hi = hi - 1;
    }
    proof {
        let tail = v@.skip(lo as int);
        assert(forall|j: int|
            hi - lo <= j < tail.len() ==> is_space_byte(#[trigger] tail[j]));
        lemma_trim_end_bytes_take(tail, hi - lo);
        if hi > lo {
            assert(tail.take(hi - lo)[hi - lo - 1] == v@[hi - 1]);
            assert(!is_space_byte(tail.take(hi - lo)[hi - lo - 1]));
        }
        assert(trim_end_bytes(tail.take(hi - lo)) == tail.take(hi - lo));
        assert(tail.take(hi - lo) =~= v@.subrange(lo as int, hi as int));
    }
    let mut r: Vec<u8> = Vec::new();
    let mut i: usize = lo;
    while i < hi
        invariant
            lo <= i <= hi <= len,
            len == v@.len(),
            r@ =~= v@.subrange(lo as int, i as int),
        decreases hi - i,
    {
        r.push(v[i]);
        i = i + 1;
    }
    proof {
        assert(r@ =~= v@.subrange(lo as int, hi as int));
    }
    r
}

/// Copy of `v` with ASCII letters lowercased.
pub fn lower_vec(v: &Vec<u8>) -> (r: Vec<u8>)
    ensures
        r@ == lower_bytes(v@),
{
    let mut r: Vec<u8> = Vec::new();
    let mut i: usize = 0;
    while i < v.len()
        invariant
            0 <= i <= v@.len(),
            r@.len() == i,
            forall|j: int| 0 <= j < i ==> r@[j] == lower_byte(v@[j]),
        decreases v@.len() - i,
    {
        r.push(lower_byte_exec(v[i]));
        i = i + 1;
    }
    proof {
        assert(r@ =~= lower_bytes(v@));
    }
    r
}

/// Normalize an identifier: trim whitespace, then lowercase.
pub fn normalize_bytes(v: &Vec<u8>) -> (r: Vec<u8>)
    ensures
        r@ == norm_id(v@),
{
    let t = trim_vec(v);
    lower_vec(&t)
}

/// Whether `v` starts with the bytes `p`.
pub fn starts_with_bytes(v: &Vec<u8>, p: &[u8]) -> (r: bool)
    ensures
        r == (v@.len() >= p@.len() && v@.take(p@.len() as int) == p@),
{
    if v.len() < p.len() {
        return false;
    }
    let mut i: usize = 0;
    while i < p.len()
        invariant
            0 <= i <= p@.len() <= v@.len(),
            forall|j: int| 0 <= j < i ==> v@[j] == p@[j],
        decreases p@.len() - i,
    {
        if v[i] != p[i] {
            assert(v@.take(p@.len() as int)[i as int] != p@[i as int]);
            return false;
        }
        i = i + 1;
    }
    proof {
        assert(v@.take(p@.len() as int) =~= p@);
    }
    true
}

/// Whether `v` and `p` hold the same bytes.
pub fn bytes_eq(v: &Vec<u8>, p: &[u8]) -> (r: bool)
    ensures
        r == (v@ == p@),
{
    if v.len() != p.len() {
        return false;
    }
    let mut i: usize = 0;
    while i < p.len()
        invariant
            0 <= i <= p@.len() == v@.len(),
            forall|j: int| 0 <= j < i ==> v@[j] == p@[j],
        decreases p@.len() - i,
    {
        if v[i] != p[i] {
            return false;
        }
        i = i + 1;
    }
    proof {
        assert(v@ =~= p@);
    }
    true
}

/// Copy of the bytes of `v` from `lo` (inclusive) to `hi` (exclusive).
pub fn subvec(v: &Vec<u8>, lo: usize, hi: usize) -> (r: Vec<u8>)
    requires
        lo <= hi <= v@.len(),
    ensures
        r@ == v@.subrange(lo as int, hi as int),
{
    let mut r: Vec<u8> = Vec::new();
    let mut i: usize = lo;
    while i < hi
        invariant
            lo <= i <= hi <= v@.len(),
            r@ =~= v@.subrange(lo as int, i as int),
        decreases hi - i,
    {
        r.push(v[i]);
        i = i + 1;
    }
    proof {
        assert(r@ =~= v@.subrange(lo as int, hi as int));
    }
    r
}

/// Whether `p` occurs as a contiguous run of bytes inside `v`.
pub fn contains_bytes(v: &Vec<u8>, p: &[u8]) -> (r: bool)
    ensures
        r == contains_seq(v@, p@),
{
    if p.len() > v.len() {
        assert(!contains_seq(v@, p@));
        return false;
    }
    if p.len() == 0 {
        assert(contains_seq(v@, p@)) by {
            assert(v@.subrange(0, 0 + p@.len() as int) =~= p@);
        }
        return true;
    }
    let last = v.len() - p.len();
    let mut i: usize = 0;
    while i <= last
        invariant
            0 <= i <= last + 1,
            last == v@.len() - p@.len(),
            1 <= p@.len() <= v@.len(),
            v@.len() <= usize::MAX,
            forall|k: int|
                0 <= k < i ==> #[trigger] v@.subrange(k, k + p@.len() as int) != p@,
        decreases last + 1 - i,
    {
        let mut j: usize = 0;
        let mut matched = true;
        while j < p.len() && matched
            invariant
                0 <= j <= p@.len(),
                i <= last,
                last == v@.len() - p@.len(),
                1 <= p@.len() <= v@.len(),
                v@.len() <= usize::MAX,
                matched ==> forall|t: int| 0 <= t < j ==> v@[i + t] == p@[t],
                !matched ==> v@.subrange(i as int, i + p@.len() as int) != p@,
            decreases p@.len() - j, (if matched { 1int } else { 0int }),
        {
            if v[i + j] != p[j] {
                matched = false;
                assert(v@.subrange(i as int, i + p@.len() as int)[j as int] != p@[j as int]);
            } else {
                j = j + 1;
            }
        }
        if matched {
            proof {
                assert(v@.subrange(i as int, i + p@.len() as int) =~= p@);
            }
            return true;
        }
        i = i + 1;
    }
    proof {
        assert(forall|k: int|
            0 <= k && k + p@.len() <= v@.len() ==> #[trigger] v@.subrange(k, k + p@.len() as int) != p@);
    }
    false
}

} // verus!
