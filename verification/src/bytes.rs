//! Byte-string helpers shared by the whole library.
//!
//! All text that the library computes is handled as UTF-8 bytes in `Vec<u8>`,
//! so that lengths, truncation and searching can be specified exactly.

use vstd::prelude::*;

verus! {

/// The bytes of an ASCII character sequence, one byte per character.
pub open spec fn ascii_of(s: Seq<char>) -> Seq<u8> {
    Seq::new(s.len(), |i: int| s[i] as u8)
}

/// Copies the bytes of an ASCII string literal into a vector.
pub fn lit(s: &str) -> (r: Vec<u8>)
    requires
        vstd::string::is_ascii(s),
    ensures
        r@ == ascii_of(s@),
{
    proof {
        vstd::string::is_ascii_spec_bytes(s);
    }
    let bs = s.as_bytes();
    let mut r: Vec<u8> = Vec::new();
    let mut i: usize = 0;
    while i < bs.len()
        invariant
            i <= bs.len(),
            bs@ == ascii_of(s@),
            r@ == bs@.take(i as int),
        decreases bs.len() - i,
    {
        r.push(bs[i]);
        i = i + 1;
    }
    assert(r@ =~= bs@);
    r
}

/// Appends the bytes of an ASCII string literal to `dst`.
pub fn push_lit(dst: &mut Vec<u8>, s: &str)
    requires
        vstd::string::is_ascii(s),
    ensures
        final(dst)@ == old(dst)@ + ascii_of(s@),
{
    let mut tail = lit(s);
    dst.append(&mut tail);
}

/// Appends a copy of `src` to `dst`.
pub fn push_bytes(dst: &mut Vec<u8>, src: &Vec<u8>)
    ensures
        final(dst)@ == old(dst)@ + src@,
{
    let ghost start = dst@;
    let mut i: usize = 0;
    while i < src.len()
        invariant
            i <= src.len(),
            dst@ == start + src@.take(i as int),
        decreases src.len() - i,
    {
        dst.push(src[i]);
        i = i + 1;
    }
    assert(dst@ =~= start + src@);
}

/// A copy of `src` with the same contents.
pub fn copy_bytes(src: &Vec<u8>) -> (r: Vec<u8>)
    ensures
        r@ == src@,
{
    let mut r: Vec<u8> = Vec::new();
    push_bytes(&mut r, src);
    assert(r@ =~= src@);
    r
}

/// The decimal digits of `n`, most significant first.
pub open spec fn dec_of(n: nat) -> Seq<u8>
    decreases n,
{
    if n < 10 {
        seq![(48 + n) as u8]
    } else {
        dec_of(n / 10).push((48 + n % 10) as u8)
    }
}

/// Renders `n` in decimal.
pub fn u64_dec(n: u64) -> (r: Vec<u8>)
    ensures
        r@ == dec_of(n as nat),
    decreases n,
{
    if n < 10 {
        let mut v: Vec<u8> = Vec::new();
        v.push(48 + (n as u8));
        v
    } else {
        let mut v = u64_dec(n / 10);
        v.push(48 + ((n % 10) as u8));
        v
    }
}

/// Appends the decimal rendering of `n` to `dst`.
pub fn push_u64_dec(dst: &mut Vec<u8>, n: u64)
    ensures
        final(dst)@ == old(dst)@ + dec_of(n as nat),
{
    let mut tail = u64_dec(n);
    dst.append(&mut tail);
}

/// Powers of ten.
pub open spec fn pow10(k: nat) -> nat
    decreases k,
{
    if k == 0 {
        1
    } else {
        10 * pow10((k - 1) as nat)
    }
}

/// A decimal rendering has at least one digit, and one digit per power of ten.
pub proof fn lemma_dec_of_len(n: nat, k: nat)
    requires
        1 <= k,
        n < pow10(k),
    ensures
        1 <= dec_of(n).len() <= k,
    decreases k,
{
    if n < 10 {
    } else {
        assert(pow10(k) == 10 * pow10((k - 1) as nat));
        lemma_dec_of_len(n / 10, (k - 1) as nat);
    }
}

/// Any `u64` renders to at most 20 digits.
pub proof fn lemma_dec_of_len_u64(n: u64)
    ensures
        1 <= dec_of(n as nat).len() <= 20,
{
    assert(pow10(20) > u64::MAX) by {
        reveal_with_fuel(pow10, 21);
    }
    lemma_dec_of_len(n as nat, 20);
}

/// `needle` occurs in `hay` starting at index `i`.
pub open spec fn match_at(hay: Seq<u8>, needle: Seq<u8>, i: int) -> bool {
    &&& 0 <= i
    &&& i + needle.len() <= hay.len()
    &&& forall|j: int| 0 <= j < needle.len() ==> hay[i + j] == needle[j]
}

/// `needle` occurs somewhere in `hay`.
pub open spec fn contains_seq(hay: Seq<u8>, needle: Seq<u8>) -> bool {
    exists|i: int| match_at(hay, needle, i)
}

/// Naive substring search.
pub fn contains_bytes(hay: &Vec<u8>, needle: &Vec<u8>) -> (r: bool)
    ensures
        r == contains_seq(hay@, needle@),
{
    if needle.len() > hay.len() {
        assert(forall|i: int| !match_at(hay@, needle@, i));
        return false;
    }
    if needle.len() == 0 {
        assert(match_at(hay@, needle@, 0));
        return true;
    }
    let mut i: usize = 0;
    while i <= hay.len() - needle.len()
        invariant
            1 <= needle.len() <= hay.len(),
            i <= hay.len() - needle.len() + 1,
            forall|ii: int| 0 <= ii < i ==> !match_at(hay@, needle@, ii),
        decreases hay.len() - i,
    {
        let mut j: usize = 0;
        let mut hit = true;
        while j < needle.len()
            invariant
                i + needle.len() <= hay.len(),
                j <= needle.len(),
                hit ==> forall|jj: int| 0 <= jj < j ==> hay@[i + jj] == needle@[jj],
                !hit ==> !match_at(hay@, needle@, i as int),
            decreases needle.len() - j,
        {
            if hay[i + j] != needle[j] {
                hit = false;
                j = needle.len();
            } else {
                j = j + 1;
            }
        }
        if hit {
            assert(match_at(hay@, needle@, i as int));
            return true;
        }
        i = i + 1;
    }
    assert(forall|ii: int| i <= ii ==> !match_at(hay@, needle@, ii));
    false
}

/// Exact byte-string equality.
pub fn eq_bytes(a: &Vec<u8>, b: &Vec<u8>) -> (r: bool)
    ensures
        r == (a@ == b@),
{
    if a.len() != b.len() {
        return false;
    }
    let mut i: usize = 0;
    while i < a.len()
        invariant
            a.len() == b.len(),
            i <= a.len(),
            forall|k: int| 0 <= k < i ==> a@[k] == b@[k],
        decreases a.len() - i,
    {
        if a[i] != b[i] {
            return false;
        }
        i = i + 1;
    }
    assert(a@ =~= b@);
    true
}

/// The UTF-8 bytes of the "cross mark" symbol that prefixes error replies.
pub open spec fn cross_of() -> Seq<u8> {
    seq![226u8, 157u8, 140u8]
}

/// Appends the cross-mark symbol.
pub fn push_cross(dst: &mut Vec<u8>)
    ensures
        final(dst)@ == old(dst)@ + cross_of(),
{
    dst.push(226);
    dst.push(157);
    dst.push(140);
    assert(dst@ =~= old(dst)@ + cross_of());
}

/// The UTF-8 bytes of the "check mark" symbol that prefixes success replies.
pub open spec fn check_of() -> Seq<u8> {
    seq![226u8, 156u8, 133u8]
}

/// Appends the check-mark symbol.
pub fn push_check(dst: &mut Vec<u8>)
    ensures
        final(dst)@ == old(dst)@ + check_of(),
{
    dst.push(226);
    dst.push(156);
    dst.push(133);
    assert(dst@ =~= old(dst)@ + check_of());
}

/// The UTF-8 bytes of the en dash used in upstream-error reports.
pub open spec fn endash_of() -> Seq<u8> {
    seq![226u8, 128u8, 147u8]
}

/// Appends the en dash.
pub fn push_endash(dst: &mut Vec<u8>)
    ensures
        final(dst)@ == old(dst)@ + endash_of(),
{
    dst.push(226);
    dst.push(128);
    dst.push(147);
    assert(dst@ =~= old(dst)@ + endash_of());
}

/// The UTF-8 bytes of the middle dot.
pub open spec fn middot_of() -> Seq<u8> {
    seq![194u8, 183u8]
}

/// Appends the middle dot.
pub fn push_middot(dst: &mut Vec<u8>)
    ensures
        final(dst)@ == old(dst)@ + middot_of(),
{
    dst.push(194);
    dst.push(183);
    assert(dst@ =~= old(dst)@ + middot_of());
}

/// The UTF-8 bytes of the em dash used in prompt text.
pub open spec fn emdash_of() -> Seq<u8> {
    seq![226u8, 128u8, 148u8]
}

/// Appends the em dash.
pub fn push_emdash(dst: &mut Vec<u8>)
    ensures
        final(dst)@ == old(dst)@ + emdash_of(),
{
    dst.push(226);
    dst.push(128);
    dst.push(148);
    assert(dst@ =~= old(dst)@ + emdash_of());
}

/// The UTF-8 bytes of the rightwards arrow used in prompt text.
pub open spec fn arrow_of() -> Seq<u8> {
    seq![226u8, 134u8, 146u8]
}

/// Appends the rightwards arrow.
pub fn push_arrow(dst: &mut Vec<u8>)
    ensures
        final(dst)@ == old(dst)@ + arrow_of(),
{
    dst.push(226);
    dst.push(134);
    dst.push(146);
    assert(dst@ =~= old(dst)@ + arrow_of());
}

/// The index of the first occurrence of `pat` in `s`, or `-1` when there is
/// none.
pub open spec fn first_match(s: Seq<u8>, pat: Seq<u8>) -> int
    decreases s.len(),
{
    if pat.len() == 0 {
        0
    } else if s.len() < pat.len() {
        -1
    } else if s.take(pat.len() as int) == pat {
        0
    } else if first_match(s.drop_first(), pat) == -1 {
        -1
    } else {
        1 + first_match(s.drop_first(), pat)
    }
}

proof fn lemma_first_match_at(s: Seq<u8>, pat: Seq<u8>, i: int)
    requires
        pat.len() >= 1,
        0 <= i,
        i + pat.len() <= s.len() + 1,
        forall|k: int| 0 <= k < i ==> !starts_with(s.skip(k), pat),
        i + pat.len() <= s.len() ==> starts_with(s.skip(i), pat),
    ensures
        i + pat.len() <= s.len() ==> first_match(s, pat) == i,
        i + pat.len() == s.len() + 1 ==> first_match(s, pat) == -1,
    decreases i + 1,
{
    if s.len() < pat.len() {
    } else if i == 0 {
        if starts_with(s.skip(0), pat) {
            assert(s.skip(0) =~= s);
            assert(s.take(pat.len() as int) =~= s.skip(0).take(pat.len() as int));
        }
    } else {
        assert(!starts_with(s.skip(0), pat));
        assert(s.skip(0) =~= s);
        assert(s.take(pat.len() as int) =~= s.skip(0).take(pat.len() as int));
        assert forall|k: int| 0 <= k < i - 1 implies !starts_with(
            s.drop_first().skip(k),
            pat,
        ) by {
            assert(s.drop_first().skip(k) =~= s.skip(k + 1));
            assert(!starts_with(s.skip(k + 1), pat));
        }
        if i - 1 + pat.len() <= s.drop_first().len() {
            assert(s.drop_first().skip(i - 1) =~= s.skip(i));
            assert(starts_with(s.skip(i), pat));
        }
        lemma_first_match_at(s.drop_first(), pat, i - 1);
    }
}

/// Finds the first occurrence of `pat` in `s`.
pub fn find_match(s: &Vec<u8>, pat: &Vec<u8>) -> (r: Option<usize>)
    requires
        pat@.len() >= 1,
    ensures
        match r {
            Some(i) => first_match(s@, pat@) == i && i + pat@.len() <= s@.len(),
            None => first_match(s@, pat@) == -1,
        },
{
    if pat.len() > s.len() {
        return None;
    }
    let mut i: usize = 0;
    while i <= s.len() - pat.len()
        invariant
            1 <= pat@.len() <= s@.len(),
            i <= s@.len() - pat@.len() + 1,
            forall|k: int| 0 <= k < i ==> !starts_with(s@.skip(k), pat@),
        decreases s.len() - i,
    {
        let mut j: usize = 0;
        let mut hit = true;
        while j < pat.len()
            invariant
                i + pat@.len() <= s@.len(),
                j <= pat@.len(),
                hit ==> forall|k: int| 0 <= k < j ==> s@[i + k] == pat@[k],
                !hit ==> !starts_with(s@.skip(i as int), pat@),
            decreases pat.len() - j,
        {
            if s[i + j] != pat[j] {
                proof {
                    assert(s@.skip(i as int)[j as int] == s@[i + j]);
                    assert(s@.skip(i as int).take(pat@.len() as int)[j as int] == s@[i + j]);
                }
                hit = false;
                j = pat.len();
            } else {
                j = j + 1;
            }
        }
        if hit {
            proof {
                assert(s@.skip(i as int).take(pat@.len() as int) =~= pat@);
                lemma_first_match_at(s@, pat@, i as int);
            }
            return Some(i);
        }
        i = i + 1;
    }
    proof {
        lemma_first_match_at(s@, pat@, s@.len() - pat@.len() + 1);
    }
    None
}

/// `s` with every occurrence of `pat` replaced by `rep`, left to right; a
/// pattern that never occurs, or an empty pattern, leaves `s` unchanged.
pub open spec fn replace_of(s: Seq<u8>, pat: Seq<u8>, rep: Seq<u8>) -> Seq<u8>
    decreases s.len(),
{
    if pat.len() == 0 {
        s
    } else {
        let m = first_match(s, pat);
        if 0 <= m && m + pat.len() <= s.len() {
            s.take(m) + rep + replace_of(s.skip(m + pat.len()), pat, rep)
        } else {
            s
        }
    }
}

/// Replaces every occurrence of `pat` by `rep`.
pub fn replace_bytes(s: &Vec<u8>, pat: &Vec<u8>, rep: &Vec<u8>) -> (r: Vec<u8>)
    ensures
        r@ == replace_of(s@, pat@, rep@),
    decreases s@.len(),
{
    if pat.len() == 0 {
        return copy_bytes(s);
    }
    match find_match(s, pat) {
        Some(m) => {
            proof {
                lemma_first_match_bounds(s@, pat@);
            }
            let n = s.len();
            assert(m + pat@.len() <= n);
            let mut r = sub_bytes(s, 0, m);
            assert(r@ =~= s@.take(m as int));
            push_bytes(&mut r, rep);
            let tail = sub_bytes(s, m + pat.len(), n);
            assert(tail@ =~= s@.skip(m + pat@.len()));
            let mut rest = replace_bytes(&tail, pat, rep);
            r.append(&mut rest);
            r
        },
        None => copy_bytes(s),
    }
}

proof fn lemma_first_match_bounds(s: Seq<u8>, pat: Seq<u8>)
    ensures
        first_match(s, pat) >= 0 ==> first_match(s, pat) + pat.len() <= s.len(),
        first_match(s, pat) >= -1,
    decreases s.len(),
{
    if pat.len() >= 1 && s.len() >= pat.len() && !(s.take(pat.len() as int) == pat) {
        lemma_first_match_bounds(s.drop_first(), pat);
    }
}

/// The ASCII lower-case image of one byte.
pub open spec fn lower_byte(b: u8) -> u8 {
    if 65 <= b <= 90 {
        (b + 32) as u8
    } else {
        b
    }
}

/// Equal up to ASCII case.
pub open spec fn eq_icase(a: Seq<u8>, b: Seq<u8>) -> bool {
    &&& a.len() == b.len()
    &&& forall|i: int| 0 <= i < a.len() ==> lower_byte(a[i]) == lower_byte(b[i])
}

/// Byte-wise comparison ignoring ASCII case.
pub fn eq_ignore_case(a: &Vec<u8>, b: &Vec<u8>) -> (r: bool)
    ensures
        r == eq_icase(a@, b@),
{
    if a.len() != b.len() {
        return false;
    }
    let mut i: usize = 0;
    while i < a.len()
        invariant
            a.len() == b.len(),
            i <= a.len(),
            forall|ii: int| 0 <= ii < i ==> lower_byte(a@[ii]) == lower_byte(b@[ii]),
        decreases a.len() - i,
    {
        let mut x = a[i];
        let mut y = b[i];
        if 65 <= x && x <= 90 {
            x = x + 32;
        }
        if 65 <= y && y <= 90 {
            y = y + 32;
        }
        if x != y {
            return false;
        }
        i = i + 1;
    }
    true
}

/// ASCII whitespace, as `u8::is_ascii_whitespace` has it.
pub open spec fn is_ws(b: u8) -> bool {
    b == 32 || b == 9 || b == 10 || b == 12 || b == 13
}

/// `s` with leading ASCII whitespace removed.
pub open spec fn trim_front_of(s: Seq<u8>) -> Seq<u8>
    decreases s.len(),
{
    if s.len() > 0 && is_ws(s[0]) {
        trim_front_of(s.drop_first())
    } else {
        s
    }
}

/// `s` with trailing ASCII whitespace removed.
pub open spec fn trim_back_of(s: Seq<u8>) -> Seq<u8>
    decreases s.len(),
{
    if s.len() > 0 && is_ws(s[s.len() - 1]) {
        trim_back_of(s.drop_last())
    } else {
        s
    }
}

/// `s` with whitespace removed at both ends.
pub open spec fn trim_of(s: Seq<u8>) -> Seq<u8> {
    trim_back_of(trim_front_of(s))
}

/// The front trim drops exactly the leading whitespace run.
pub proof fn lemma_trim_front_skip(s: Seq<u8>, i: int)
    requires
        0 <= i <= s.len(),
        forall|k: int| 0 <= k < i ==> is_ws(s[k]),
        i < s.len() ==> !is_ws(s[i]),
    ensures
        trim_front_of(s) == s.skip(i),
    decreases i,
{
    if i == 0 {
        assert(s.skip(0) =~= s);
    } else {
        assert(is_ws(s[0]));
        assert(s.len() > 0);
        lemma_trim_front_skip(s.drop_first(), i - 1);
        assert(s.drop_first().skip(i - 1) =~= s.skip(i));
    }
}

proof fn lemma_trim_back_take(s: Seq<u8>, j: int)
    requires
        0 <= j <= s.len(),
        forall|k: int| j <= k < s.len() ==> is_ws(s[k]),
        j > 0 ==> !is_ws(s[j - 1]),
    ensures
        trim_back_of(s) == s.take(j),
    decreases s.len() - j,
{
    if j == s.len() {
        assert(s.take(j) =~= s);
    } else {
        assert(is_ws(s[s.len() - 1]));
        lemma_trim_back_take(s.drop_last(), j);
        assert(s.drop_last().take(j) =~= s.take(j));
    }
}

/// Removes ASCII whitespace from both ends.
pub fn trim_bytes(s: &Vec<u8>) -> (r: Vec<u8>)
    ensures
        r@ == trim_of(s@),
{
    let mut i: usize = 0;
    while i < s.len() && (s[i] == 32 || s[i] == 9 || s[i] == 10 || s[i] == 12 || s[i] == 13)
        invariant
            i <= s.len(),
            forall|k: int| 0 <= k < i ==> is_ws(s@[k]),
        decreases s.len() - i,
    {
        i = i + 1;
    }
    proof {
        lemma_trim_front_skip(s@, i as int);
    }
    let ghost f = s@.skip(i as int);
    let mut j: usize = s.len();
    while j > i && (s[j - 1] == 32 || s[j - 1] == 9 || s[j - 1] == 10 || s[j - 1] == 12 || s[j
        - 1] == 13)
        invariant
            i <= j <= s.len(),
            forall|k: int| j <= k < s.len() ==> is_ws(s@[k]),
        decreases j,
    {
        j = j - 1;
    }
    proof {
        if j == i {
            assert(f.take(0) =~= Seq::<u8>::empty());
            lemma_trim_back_take(f, 0);
        } else {
            assert(f[j - i - 1] == s@[j - 1]);
            assert(forall|k: int| j - i <= k < f.len() ==> f[k] == s@[#[trigger] (k + i)]);
            lemma_trim_back_take(f, j - i);
        }
    }
    let mut r: Vec<u8> = Vec::new();
    let mut k: usize = i;
    while k < j
        invariant
            i <= k <= j <= s.len(),
            r@ == s@.subrange(i as int, k as int),
        decreases j - k,
    {
        r.push(s[k]);
        assert(r@ =~= s@.subrange(i as int, k + 1));
        k = k + 1;
    }
    assert(r@ =~= f.take(j - i));
    r
}

proof fn lemma_trim_front_blank(s: Seq<u8>)
    requires
        forall|i: int| 0 <= i < s.len() ==> is_ws(s[i]),
    ensures
        trim_front_of(s).len() == 0,
    decreases s.len(),
{
    if s.len() > 0 {
        lemma_trim_front_blank(s.drop_first());
    }
}

proof fn lemma_trim_front_nonblank(s: Seq<u8>)
    requires
        exists|i: int| 0 <= i < s.len() && !is_ws(s[i]),
    ensures
        trim_front_of(s).len() > 0,
        !is_ws(trim_front_of(s)[0]),
    decreases s.len(),
{
    let k = choose|k: int| 0 <= k < s.len() && !is_ws(s[k]);
    if is_ws(s[0]) {
        assert(s.drop_first()[k - 1] == s[k]);
        lemma_trim_front_nonblank(s.drop_first());
    }
}

proof fn lemma_trim_back_head_kept(s: Seq<u8>)
    requires
        s.len() > 0,
        !is_ws(s[0]),
    ensures
        trim_back_of(s).len() > 0,
    decreases s.len(),
{
    if is_ws(s[s.len() - 1]) {
        assert(s.len() >= 2);
        assert(s.drop_last()[0] == s[0]);
        lemma_trim_back_head_kept(s.drop_last());
    }
}

/// A byte string trims to nothing exactly when it is all whitespace.
pub proof fn lemma_blank_iff_trim_empty(s: Seq<u8>)
    ensures
        is_blank(s) <==> trim_of(s).len() == 0,
{
    if is_blank(s) {
        lemma_trim_front_blank(s);
        assert(trim_front_of(s) =~= Seq::<u8>::empty());
        assert(trim_back_of(Seq::<u8>::empty()).len() == 0);
    } else {
        assert(exists|i: int| 0 <= i < s.len() && !is_ws(s[i]));
        lemma_trim_front_nonblank(s);
        lemma_trim_back_head_kept(trim_front_of(s));
    }
}

/// True when `s` trims to nothing: it holds only ASCII whitespace.
pub open spec fn is_blank(s: Seq<u8>) -> bool {
    forall|i: int| 0 <= i < s.len() ==> is_ws(s[i])
}

/// All-whitespace test.
pub fn blank_bytes(s: &Vec<u8>) -> (r: bool)
    ensures
        r == is_blank(s@),
{
    let mut i: usize = 0;
    while i < s.len()
        invariant
            i <= s.len(),
            forall|k: int| 0 <= k < i ==> is_ws(s@[k]),
        decreases s.len() - i,
    {
        let b = s[i];
        if !(b == 32 || b == 9 || b == 10 || b == 12 || b == 13) {
            return false;
        }
        i = i + 1;
    }
    true
}

/// The index of the first occurrence of `b` in `s`, or `s.len()` when `b`
/// does not occur.
pub open spec fn idx_of(s: Seq<u8>, b: u8) -> int
    decreases s.len(),
{
    if s.len() == 0 {
        0
    } else if s[0] == b {
        0
    } else {
        1 + idx_of(s.drop_first(), b)
    }
}

/// `idx_of` names the first occurrence.
pub proof fn lemma_idx_of(s: Seq<u8>, b: u8)
    ensures
        0 <= idx_of(s, b) <= s.len(),
        idx_of(s, b) < s.len() ==> s[idx_of(s, b)] == b,
        forall|k: int| 0 <= k < idx_of(s, b) ==> s[k] != b,
    decreases s.len(),
{
    if s.len() > 0 && s[0] != b {
        lemma_idx_of(s.drop_first(), b);
        assert forall|k: int| 0 <= k < idx_of(s, b) implies s[k] != b by {
            if k >= 1 {
                assert(s.drop_first()[k - 1] != b);
                assert(s[k] == s.drop_first()[k - 1]);
            }
        }
    }
}

/// Finds the first occurrence of `b`, or returns the length.
pub fn find_byte(s: &Vec<u8>, b: u8) -> (r: usize)
    ensures
        r == idx_of(s@, b),
{
    proof {
        lemma_idx_of(s@, b);
    }
    let mut i: usize = 0;
    while i < s.len()
        invariant
            i <= s.len(),
            forall|k: int| 0 <= k < i ==> s@[k] != b,
        decreases s.len() - i,
    {
        if s[i] == b {
            proof {
                lemma_idx_at(s@, b, i as int);
            }
            return i;
        }
        i = i + 1;
    }
    proof {
        lemma_idx_at(s@, b, s@.len() as int);
    }
    s.len()
}

proof fn lemma_idx_at(s: Seq<u8>, b: u8, i: int)
    requires
        0 <= i <= s.len(),
        forall|k: int| 0 <= k < i ==> s[k] != b,
        i < s.len() ==> s[i] == b,
    ensures
        idx_of(s, b) == i,
    decreases i + 1,
{
    if s.len() == 0 {
    } else if i == 0 {
    } else {
        assert(forall|k: int| 0 <= k < i - 1 ==> s.drop_first()[k] != b);
        assert(i - 1 < s.drop_first().len() ==> s.drop_first()[i - 1] == b);
        lemma_idx_at(s.drop_first(), b, i - 1);
    }
}

/// A copy of `s[from..to]`.
pub fn sub_bytes(s: &Vec<u8>, from: usize, to: usize) -> (r: Vec<u8>)
    requires
        from <= to <= s@.len(),
    ensures
        r@ == s@.subrange(from as int, to as int),
{
    let mut r: Vec<u8> = Vec::new();
    let mut i: usize = from;
    while i < to
        invariant
            from <= i <= to,
            r@ == s@.subrange(from as int, i as int),
        decreases to - i,
    {
        r.push(s[i]);
        assert(r@ =~= s@.subrange(from as int, i + 1));
        i = i + 1;
    }
    r
}

/// The segments of `s` between occurrences of `sep`: always one more
/// segment than separators, possibly empty ones.
pub open spec fn split_of(s: Seq<u8>, sep: u8) -> Seq<Seq<u8>>
    decreases s.len(),
{
    let i = idx_of(s, sep);
    if 0 <= i < s.len() {
        seq![s.take(i)] + split_of(s.skip(i + 1), sep)
    } else {
        seq![s]
    }
}

/// Splits on a separator byte.
pub fn split_byte(s: &Vec<u8>, sep: u8) -> (parts: Vec<Vec<u8>>)
    ensures
        parts@.map_values(|p: Vec<u8>| p@) == split_of(s@, sep),
    decreases s@.len(),
{
    proof {
        lemma_idx_of(s@, sep);
    }
    let i = find_byte(s, sep);
    if i == s.len() {
        let mut parts: Vec<Vec<u8>> = Vec::new();
        parts.push(copy_bytes(s));
        assert(parts@.map_values(|p: Vec<u8>| p@) =~= split_of(s@, sep));
        parts
    } else {
        let head = sub_bytes(s, 0, i);
        let tail = sub_bytes(s, i + 1, s.len());
        let mut rest = split_byte(&tail, sep);
        let ghost restm = rest@.map_values(|p: Vec<u8>| p@);
        let mut parts: Vec<Vec<u8>> = Vec::new();
        parts.push(head);
        parts.append(&mut rest);
        proof {
            assert(s@.take(i as int) =~= s@.subrange(0, i as int));
            assert(s@.skip(i + 1) =~= s@.subrange(i + 1, s@.len() as int));
            assert(parts@.map_values(|p: Vec<u8>| p@) =~= seq![s@.take(i as int)] + restm);
        }
        parts
    }
}

/// `s` begins with `p`.
pub open spec fn starts_with(s: Seq<u8>, p: Seq<u8>) -> bool {
    s.len() >= p.len() && s.take(p.len() as int) == p
}

/// Prefix test.
pub fn starts_with_bytes(s: &Vec<u8>, p: &Vec<u8>) -> (r: bool)
    ensures
        r == starts_with(s@, p@),
{
    if s.len() < p.len() {
        return false;
    }
    let mut i: usize = 0;
    while i < p.len()
        invariant
            p.len() <= s.len(),
            i <= p.len(),
            forall|k: int| 0 <= k < i ==> s@[k] == p@[k],
        decreases p.len() - i,
    {
        if s[i] != p[i] {
            assert(s@.take(p@.len() as int)[i as int] != p@[i as int]);
            return false;
        }
        i = i + 1;
    }
    assert(s@.take(p@.len() as int) =~= p@);
    true
}

/// The value of the first `key`-prefixed entry of `params`, with the prefix
/// removed; nothing when no entry has the prefix.
pub open spec fn param_value_of(params: Seq<Seq<u8>>, key: Seq<u8>) -> Option<Seq<u8>>
    decreases params.len(),
{
    if params.len() == 0 {
        None
    } else if starts_with(params[0], key) {
        Some(params[0].skip(key.len() as int))
    } else {
        param_value_of(params.drop_first(), key)
    }
}

/// Looks up the first parameter carrying `key` as its prefix.
pub fn find_param(params: &Vec<Vec<u8>>, key: &Vec<u8>) -> (r: Option<Vec<u8>>)
    ensures
        match r {
            Some(v) => param_value_of(params@.map_values(|p: Vec<u8>| p@), key@) == Some(v@),
            None => param_value_of(params@.map_values(|p: Vec<u8>| p@), key@) is None,
        },
{
    let ghost pm = params@.map_values(|p: Vec<u8>| p@);
    proof {
        assert(pm.skip(0) =~= pm);
    }
    let mut i: usize = 0;
    while i < params.len()
        invariant
            i <= params.len(),
            pm == params@.map_values(|p: Vec<u8>| p@),
            param_value_of(pm, key@) == param_value_of(pm.skip(i as int), key@),
        decreases params.len() - i,
    {
        let p = &params[i];
        proof {
            assert(pm.skip(i as int)[0] == pm[i as int]);
            assert(pm.skip(i as int).drop_first() =~= pm.skip(i + 1));
        }
        if starts_with_bytes(p, key) {
            let v = sub_bytes(p, key.len(), p.len());
            assert(v@ =~= pm.skip(i as int)[0].skip(key@.len() as int));
            return Some(v);
        }
        i = i + 1;
    }
    proof {
        assert(pm.skip(params@.len() as int).len() == 0);
    }
    None
}

/// The parts joined with `sep` between consecutive parts.
pub open spec fn join_of(parts: Seq<Seq<u8>>, sep: Seq<u8>) -> Seq<u8>
    decreases parts.len(),
{
    if parts.len() == 0 {
        Seq::empty()
    } else if parts.len() == 1 {
        parts[0]
    } else {
        parts[0] + sep + join_of(parts.drop_first(), sep)
    }
}

/// Joins byte strings with a separator.
pub fn join_bytes(parts: &Vec<Vec<u8>>, sep: &Vec<u8>) -> (r: Vec<u8>)
    ensures
        r@ == join_of(parts@.map_values(|p: Vec<u8>| p@), sep@),
{
    let ghost views = parts@.map_values(|p: Vec<u8>| p@);
    let mut r: Vec<u8> = Vec::new();
    let mut i: usize = 0;
    while i < parts.len()
        invariant
            i <= parts.len(),
            views == parts@.map_values(|p: Vec<u8>| p@),
            r@ == join_of(views.take(i as int), sep@),
            i < parts.len() && i > 0 ==> r@ == join_of(views.take(i as int), sep@),
        decreases parts.len() - i,
    {
        if i > 0 {
            push_bytes(&mut r, sep);
        }
        push_bytes(&mut r, &parts[i]);
        proof {
            lemma_join_step(views, sep@, i as int);
        }
        i = i + 1;
    }
    assert(views.take(parts@.len() as int) =~= views);
    r
}

proof fn lemma_join_step(views: Seq<Seq<u8>>, sep: Seq<u8>, i: int)
    requires
        0 <= i < views.len(),
    ensures
        i == 0 ==> join_of(views.take(1), sep) == views[0],
        i > 0 ==> join_of(views.take(i + 1), sep) == join_of(views.take(i), sep) + sep
            + views[i],
    decreases i,
{
    if i == 0 {
        assert(views.take(1).len() == 1);
        assert(views.take(1)[0] == views[0]);
    } else {
        lemma_join_concat(views.take(i + 1), sep);
        assert(views.take(i + 1).drop_last() =~= views.take(i));
        assert(views.take(i + 1).last() == views[i]);
    }
}

/// Peeling the last part off a join of two or more parts.
pub proof fn lemma_join_concat(views: Seq<Seq<u8>>, sep: Seq<u8>)
    requires
        views.len() >= 2,
    ensures
        join_of(views, sep) == join_of(views.drop_last(), sep) + sep + views.last(),
    decreases views.len(),
{
    if views.len() == 2 {
        assert(views.drop_first().len() == 1);
        assert(join_of(views.drop_first(), sep) == views.drop_first()[0]);
        assert(views.drop_first()[0] == views[1]);
        assert(views.drop_last().len() == 1);
        assert(join_of(views.drop_last(), sep) == views.drop_last()[0]);
        assert(views.drop_last()[0] == views[0]);
        assert(views.last() == views[1]);
    } else {
        lemma_join_concat(views.drop_first(), sep);
        assert(views.drop_first().drop_last() =~= views.drop_last().drop_first());
        assert(views.drop_first().last() == views.last());
        assert(join_of(views, sep) == views[0] + sep + join_of(views.drop_first(), sep));
        assert(views.drop_last()[0] == views[0]);
        assert(join_of(views.drop_last(), sep) == views.drop_last()[0] + sep + join_of(
            views.drop_last().drop_first(),
            sep,
        ));
        assert(views[0] + sep + (join_of(views.drop_last().drop_first(), sep) + sep
            + views.last()) =~= (views[0] + sep + join_of(views.drop_last().drop_first(), sep))
            + sep + views.last());
    }
}

} // verus!
