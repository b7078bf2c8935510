//! Character-level text helpers shared by the whole library.
//!
//! Every helper works on the `Seq<char>` view of a string, so the
//! contracts elsewhere can be phrased over plain sequences.
use vstd::prelude::*;

verus! {

// ---------------------------------------------------------------------------
// Conversions between strings and character vectors
// ---------------------------------------------------------------------------

/// Appends one character to a `String` (std `String::push`).
#[verifier::external_body]
pub(crate) fn push_char(s: &mut String, c: char)
    ensures
        final(s)@ == old(s)@.push(c),
{
    s.push(c);
}

/// What `String::from_utf8_lossy` makes of a byte sequence: the bytes
/// decoded as UTF-8, each invalid sequence replaced by U+FFFD.
pub uninterp spec fn utf8_lossy(bytes: Seq<u8>) -> Seq<char>;

/// Decodes bytes as UTF-8, replacing invalid sequences (std
/// `String::from_utf8_lossy`); the result is named, not stated.
#[verifier::external_body]
pub(crate) fn lossy_text(bytes: &[u8]) -> (r: String)
    ensures
        r@ == utf8_lossy(bytes@),
{
    String::from_utf8_lossy(bytes).into_owned()
}

/// The characters of `s`, in order.
pub fn chars_of(s: &str) -> (r: Vec<char>)
    ensures
        r@ == s@,
{
    let mut v: Vec<char> = Vec::new();
    for c in it: s.chars()
        invariant
            v@ == it.seq().take(it.index() as int),
            it.seq() == s@,
    {
        v.push(c);
    }
    v
}

/// Builds a `String` from a character slice.
pub fn string_of(cs: &[char]) -> (r: String)
    ensures
        r@ == cs@,
{
    let mut s = String::new();
    let n = cs.len();
    for i in 0..n
        invariant
            n == cs@.len(),
            s@ == cs@.take(i as int),
    {
        push_char(&mut s, cs[i]);
        assert(cs@.take(i + 1) =~= cs@.take(i as int).push(cs@[i as int]));
    }
    assert(cs@.take(n as int) =~= cs@);
    s
}

/// A fresh `String` with the characters of `s`.
pub fn owned(s: &str) -> (r: String)
    ensures
        r@ == s@,
{
    s.to_owned()
}

/// Concatenation of two strings.
pub fn concat2(a: &str, b: &str) -> (r: String)
    ensures
        r@ == a@ + b@,
{
    let mut s = a.to_owned();
    s.append(b);
    s
}

/// Concatenation of three strings.
pub fn concat3(a: &str, b: &str, c: &str) -> (r: String)
    ensures
        r@ == a@ + b@ + c@,
{
    let mut s = a.to_owned();
    s.append(b);
    s.append(c);
    s
}

/// Character equality of two strings.
pub fn str_eq(a: &str, b: &str) -> (r: bool)
    ensures
        r == (a@ == b@),
{
    let x = chars_of(a);
    let y = chars_of(b);
    seq_eq(&x, &y)
}

/// Element-wise equality of two character slices.
pub fn seq_eq(x: &[char], y: &[char]) -> (r: bool)
    ensures
        r == (x@ == y@),
{
    if x.len() != y.len() {
        return false;
    }
    let n = x.len();
    for i in 0..n
        invariant
            n == x@.len(),
            n == y@.len(),
            forall|j: int| 0 <= j < i ==> x@[j] == y@[j],
    {
        if x[i] != y[i] {
            return false;
        }
    }
    assert(x@ =~= y@);
    true
}

// ---------------------------------------------------------------------------
// Whitespace and trimming
// ---------------------------------------------------------------------------

/// The Unicode `White_Space` property, which is what `char::is_whitespace`
/// tests.
pub open spec fn is_ws(c: char) -> bool {
    ||| ('\u{9}' <= c && c <= '\u{d}')
    ||| c == ' '
    ||| c == '\u{85}'
    ||| c == '\u{a0}'
    ||| c == '\u{1680}'
    ||| ('\u{2000}' <= c && c <= '\u{200a}')
    ||| c == '\u{2028}'
    ||| c == '\u{2029}'
    ||| c == '\u{202f}'
    ||| c == '\u{205f}'
    ||| c == '\u{3000}'
}

/// Whether `c` is whitespace.
pub fn is_whitespace(c: char) -> (r: bool)
    ensures
        r == is_ws(c),
{
    ('\u{9}' <= c && c <= '\u{d}') || c == ' ' || c == '\u{85}' || c == '\u{a0}' || c
        == '\u{1680}' || ('\u{2000}' <= c && c <= '\u{200a}') || c == '\u{2028}' || c
        == '\u{2029}' || c == '\u{202f}' || c == '\u{205f}' || c == '\u{3000}'
}

/// `s` without its leading whitespace.
pub open spec fn trim_start(s: Seq<char>) -> Seq<char>
    decreases s.len(),
{
    if s.len() > 0 && is_ws(s[0]) {
        trim_start(s.drop_first())
    } else {
        s
    }
}

/// `s` without its trailing whitespace.
pub open spec fn trim_end(s: Seq<char>) -> Seq<char>
    decreases s.len(),
{
    if s.len() > 0 && is_ws(s.last()) {
        trim_end(s.drop_last())
    } else {
        s
    }
}

/// `s` without leading and trailing whitespace (`str::trim`).
pub open spec fn trim(s: Seq<char>) -> Seq<char> {
    trim_end(trim_start(s))
}

/// Every character of `s` is whitespace.
pub open spec fn is_blank(s: Seq<char>) -> bool {
    forall|i: int| 0 <= i < s.len() ==> is_ws(#[trigger] s[i])
}

/// Skipping a whitespace character does not change the trimmed start.
proof fn lemma_trim_start_step(s: Seq<char>, i: int)
    requires
        0 <= i < s.len(),
        is_ws(s[i]),
    ensures
        trim_start(s.skip(i)) == trim_start(s.skip(i + 1)),
{
    assert(s.skip(i).drop_first() =~= s.skip(i + 1));
}

/// Dropping a trailing whitespace character does not change the trimmed end.
proof fn lemma_trim_end_step(s: Seq<char>, j: int)
    requires
        0 < j <= s.len(),
        is_ws(s[j - 1]),
    ensures
        trim_end(s.take(j)) == trim_end(s.take(j - 1)),
{
    assert(s.take(j).drop_last() =~= s.take(j - 1));
}

/// `trim_start` yields a suffix of its argument that begins with a non-blank
/// character, and everything it removed is whitespace.
pub proof fn lemma_trim_start_shape(s: Seq<char>)
    ensures
        trim_start(s).len() <= s.len(),
        trim_start(s) =~= s.skip(s.len() - trim_start(s).len()),
        forall|i: int| 0 <= i < s.len() - trim_start(s).len() ==> is_ws(#[trigger] s[i]),
        trim_start(s).len() > 0 ==> !is_ws(trim_start(s)[0]),
    decreases s.len(),
{
    if s.len() > 0 && is_ws(s[0]) {
        lemma_trim_start_shape(s.drop_first());
        let t = trim_start(s.drop_first());
        assert forall|i: int| 0 <= i < s.len() - t.len() implies is_ws(#[trigger] s[i]) by {
            if i > 0 {
                assert(s[i] == s.drop_first()[i - 1]);
            }
        }
        assert(s.drop_first().skip(s.drop_first().len() - t.len()) =~= s.skip(s.len() - t.len()));
    } else {
        assert(s.skip(0) =~= s);
    }
}

/// `trim_end` yields a prefix of its argument that ends with a non-blank
/// character, and everything it removed is whitespace.
pub proof fn lemma_trim_end_shape(s: Seq<char>)
    ensures
        trim_end(s).len() <= s.len(),
        trim_end(s) =~= s.take(trim_end(s).len() as int),
        forall|i: int| trim_end(s).len() <= i < s.len() ==> is_ws(#[trigger] s[i]),
        trim_end(s).len() > 0 ==> !is_ws(trim_end(s).last()),
    decreases s.len(),
{
    if s.len() > 0 && is_ws(s.last()) {
        lemma_trim_end_shape(s.drop_last());
        let t = trim_end(s.drop_last());
        assert forall|i: int| t.len() <= i < s.len() implies is_ws(#[trigger] s[i]) by {
            if i < s.len() - 1 {
                assert(s[i] == s.drop_last()[i]);
            }
        }
        assert(s.drop_last().take(t.len() as int) =~= s.take(t.len() as int));
    } else {
        assert(s.take(s.len() as int) =~= s);
    }
}

/// A string trims to nothing exactly when it is blank.
pub proof fn lemma_trim_empty_iff_blank(s: Seq<char>)
    ensures
        (trim(s).len() == 0) == is_blank(s),
{
    lemma_trim_start_shape(s);
    lemma_trim_end_shape(trim_start(s));
    let t = trim_start(s);
    if trim(s).len() == 0 {
        assert forall|i: int| 0 <= i < s.len() implies is_ws(#[trigger] s[i]) by {
            if i >= s.len() - t.len() {
                assert(s[i] == t[i - (s.len() - t.len())]);
            }
        }
    } else {
        if t.len() > 0 {
            assert(s[s.len() - t.len()] == t[0]);
        }
    }
}

/// Position of the first non-blank character of `s` (or its length).
pub fn trim_start_index(s: &[char]) -> (i: usize)
    ensures
        i <= s@.len(),
        trim_start(s@) == s@.skip(i as int),
{
    let mut i: usize = 0;
    assert(s@.skip(0) =~= s@);
    while i < s.len() && is_whitespace(s[i])
        invariant
            i <= s@.len(),
            trim_start(s@) == trim_start(s@.skip(i as int)),
        decreases s@.len() - i,
    {
        proof {
            lemma_trim_start_step(s@, i as int);
        }
        i = i + 1;
    }
    proof {
        if i < s@.len() {
            assert(s@.skip(i as int)[0] == s@[i as int]);
        }
    }
    i
}

/// Position just past the last non-blank character of `s` (or 0).
pub fn trim_end_index(s: &[char]) -> (j: usize)
    ensures
        j <= s@.len(),
        trim_end(s@) == s@.take(j as int),
{
    let mut j: usize = s.len();
    assert(s@.take(s@.len() as int) =~= s@);
    while j > 0 && is_whitespace(s[j - 1])
        invariant
            j <= s@.len(),
            trim_end(s@) == trim_end(s@.take(j as int)),
        decreases j,
    {
        proof {
            lemma_trim_end_step(s@, j as int);
        }
        j = j - 1;
    }
    proof {
        if j > 0 {
            assert(s@.take(j as int).last() == s@[j - 1]);
        }
    }
    j
}

/// A copy of `s[lo..hi]`.
pub fn slice_to_vec(s: &[char], lo: usize, hi: usize) -> (r: Vec<char>)
    requires
        lo <= hi <= s@.len(),
    ensures
        r@ == s@.subrange(lo as int, hi as int),
{
    let mut r: Vec<char> = Vec::new();
    let mut k = lo;
    while k < hi
        invariant
            lo <= k <= hi <= s@.len(),
            r@ == s@.subrange(lo as int, k as int),
        decreases hi - k,
    {
        r.push(s[k]);
        assert(s@.subrange(lo as int, k + 1) =~= s@.subrange(lo as int, k as int).push(s@[k as int]));
        k = k + 1;
    }
    r
}

/// `s` with leading and trailing whitespace removed.
pub fn trim_chars(s: &[char]) -> (r: Vec<char>)
    ensures
        r@ == trim(s@),
{
    let i = trim_start_index(s);
    let rest = slice_to_vec(s, i, s.len());
    assert(rest@ =~= s@.skip(i as int));
    let j = trim_end_index(&rest);
    slice_to_vec(&rest, 0, j)
}

/// `str::trim`, as a new `String`.
pub fn trim_str(s: &str) -> (r: String)
    ensures
        r@ == trim(s@),
{
    let cs = chars_of(s);
    let t = trim_chars(&cs);
    string_of(&t)
}

/// Whether `s` is blank (`s.trim().is_empty()`).
pub fn is_blank_str(s: &str) -> (r: bool)
    ensures
        r == is_blank(s@),
        r == (trim(s@).len() == 0),
{
    let cs = chars_of(s);
    proof {
        lemma_trim_empty_iff_blank(s@);
    }
    let n = cs.len();
    for i in 0..n
        invariant
            n == cs@.len(),
            cs@ == s@,
            (trim(s@).len() == 0) == is_blank(s@),
            forall|j: int| 0 <= j < i ==> is_ws(#[trigger] cs@[j]),
    {
        if !is_whitespace(cs[i]) {
            return false;
        }
    }
    true
}


// ---------------------------------------------------------------------------
// ASCII case mapping
// ---------------------------------------------------------------------------

/// `char::to_ascii_lowercase`.
pub open spec fn lower_char(c: char) -> char {
    if 'A' <= c && c <= 'Z' {
        ((c as u8 + 32) as u8) as char
    } else {
        c
    }
}

/// `char::to_ascii_uppercase`.
pub open spec fn upper_char(c: char) -> char {
    if 'a' <= c && c <= 'z' {
        ((c as u8 - 32) as u8) as char
    } else {
        c
    }
}

/// `str::to_ascii_lowercase` on a character sequence.
pub open spec fn lower(s: Seq<char>) -> Seq<char> {
    Seq::new(s.len(), |i: int| lower_char(s[i]))
}

/// `str::to_ascii_uppercase` on a character sequence.
pub open spec fn upper(s: Seq<char>) -> Seq<char> {
    Seq::new(s.len(), |i: int| upper_char(s[i]))
}

/// ASCII lower-casing of one character.
pub fn to_lower_char(c: char) -> (r: char)
    ensures
        r == lower_char(c),
{
    if 'A' <= c && c <= 'Z' {
        ((c as u8) + 32) as char
    } else {
        c
    }
}

/// ASCII upper-casing of one character.
pub fn to_upper_char(c: char) -> (r: char)
    ensures
        r == upper_char(c),
{
    if 'a' <= c && c <= 'z' {
        ((c as u8) - 32) as char
    } else {
        c
    }
}

/// ASCII lower-casing of a character slice.
pub fn to_lower_chars(s: &[char]) -> (r: Vec<char>)
    ensures
        r@ == lower(s@),
{
    let mut r: Vec<char> = Vec::new();
    let n = s.len();
    for i in 0..n
        invariant
            n == s@.len(),
            r@.len() == i,
            forall|j: int| 0 <= j < i ==> r@[j] == lower_char(s@[j]),
    {
        r.push(to_lower_char(s[i]));
    }
    assert(r@ =~= lower(s@));
    r
}

/// ASCII upper-casing of a character slice.
pub fn to_upper_chars(s: &[char]) -> (r: Vec<char>)
    ensures
        r@ == upper(s@),
{
    let mut r: Vec<char> = Vec::new();
    let n = s.len();
    for i in 0..n
        invariant
            n == s@.len(),
            r@.len() == i,
            forall|j: int| 0 <= j < i ==> r@[j] == upper_char(s@[j]),
    {
        r.push(to_upper_char(s[i]));
    }
    assert(r@ =~= upper(s@));
    r
}

// ---------------------------------------------------------------------------
// Substring search
// ---------------------------------------------------------------------------

/// `n` occurs in `h` starting at position `i`.
pub open spec fn occurs_at(h: Seq<char>, n: Seq<char>, i: int) -> bool {
    0 <= i && i + n.len() <= h.len() && h.subrange(i, i + n.len()) == n
}

/// `n` occurs somewhere in `h` (`str::contains`).
pub open spec fn has_substr(h: Seq<char>, n: Seq<char>) -> bool {
    exists|i: int| occurs_at(h, n, i)
}

/// `n` first occurs in `h` at `i`.
pub open spec fn first_at(h: Seq<char>, n: Seq<char>, i: int) -> bool {
    occurs_at(h, n, i) && forall|j: int| 0 <= j < i ==> !occurs_at(h, n, j)
}

/// The position where `n` first occurs in `h`.
pub open spec fn first_index(h: Seq<char>, n: Seq<char>) -> int {
    choose|i: int| first_at(h, n, i)
}

/// An occurrence found by a left-to-right search is the first one.
pub proof fn lemma_first_index(h: Seq<char>, n: Seq<char>, i: int)
    requires
        first_at(h, n, i),
    ensures
        first_index(h, n) == i,
{
    let k = first_index(h, n);
    assert(first_at(h, n, k));
    if k < i {
        assert(!occurs_at(h, n, k));
    } else if i < k {
        assert(!occurs_at(h, n, i));
    }
}

/// Where `n` occurs in `h` at all, it has a first occurrence, no later
/// than any given one.
pub proof fn lemma_first_at_exists(h: Seq<char>, n: Seq<char>, k: int)
    requires
        occurs_at(h, n, k),
    ensures
        first_at(h, n, first_index(h, n)),
        first_index(h, n) <= k,
    decreases k,
{
    if exists|j: int| 0 <= j < k && occurs_at(h, n, j) {
        let j = choose|j: int| 0 <= j < k && occurs_at(h, n, j);
        lemma_first_at_exists(h, n, j);
    } else {
        assert(first_at(h, n, k));
        lemma_first_index(h, n, k);
    }
}

/// Whether `n` occurs in `h` at position `i`.
pub fn matches_at(h: &[char], n: &[char], i: usize) -> (r: bool)
    ensures
        r == occurs_at(h@, n@, i as int),
{
    if i > h.len() || n.len() > h.len() - i {
        return false;
    }
    let m = n.len();
    for k in 0..m
        invariant
            m == n@.len(),
            i + m <= h.len(),
            forall|j: int| 0 <= j < k ==> h@[i + j] == n@[j],
    {
        if h[i + k] != n[k] {
            assert(h@.subrange(i as int, i + m)[k as int] == h@[i + k]);
            return false;
        }
    }
    assert(h@.subrange(i as int, i + m) =~= n@);
    true
}

/// First position at which `n` occurs in `h` (`str::find`).
pub fn find(h: &[char], n: &[char]) -> (r: Option<usize>)
    ensures
        match r {
            Some(i) => occurs_at(h@, n@, i as int) && forall|j: int|
                0 <= j < i ==> !occurs_at(h@, n@, j),
            None => !has_substr(h@, n@),
        },
{
    if n.len() > h.len() {
        return None;
    }
    let last = h.len() - n.len();
    let mut i: usize = 0;
    loop
        invariant
            last == h@.len() - n@.len(),
            i <= last,
            forall|j: int| 0 <= j < i ==> !occurs_at(h@, n@, j),
        decreases last - i,
    {
        if matches_at(h, n, i) {
            return Some(i);
        }
        if i == last {
            return None;
        }
        i = i + 1;
    }
}

/// Whether `n` occurs in `h`.
pub fn contains(h: &[char], n: &[char]) -> (r: bool)
    ensures
        r == has_substr(h@, n@),
{
    match find(h, n) {
        Some(_) => true,
        None => false,
    }
}

/// Whether the string `n` occurs in the string `h`.
pub fn str_contains(h: &str, n: &str) -> (r: bool)
    ensures
        r == has_substr(h@, n@),
{
    let hc = chars_of(h);
    let nc = chars_of(n);
    contains(&hc, &nc)
}

/// Whether `c` occurs in `s`.
pub fn contains_char(s: &[char], c: char) -> (r: bool)
    ensures
        r == s@.contains(c),
{
    let n = s.len();
    for i in 0..n
        invariant
            n == s@.len(),
            forall|j: int| 0 <= j < i ==> s@[j] != c,
    {
        if s[i] == c {
            assert(s@[i as int] == c);
            return true;
        }
    }
    false
}

/// Whether `p` is a prefix of `s`.
pub fn starts_with(s: &[char], p: &[char]) -> (r: bool)
    ensures
        r == p@.is_prefix_of(s@),
{
    let r = matches_at(s, p, 0);
    proof {
        if r {
            assert forall|i: int| 0 <= i < p@.len() implies p@[i] == s@[i] by {
                assert(s@.subrange(0, p@.len() as int)[i] == s@[i]);
            }
        } else if p@.len() <= s@.len() {
            if p@.is_prefix_of(s@) {
                assert(s@.subrange(0, p@.len() as int) =~= p@);
            }
        }
    }
    r
}

/// Whether `p` is a suffix of `s`.
pub fn ends_with(s: &[char], p: &[char]) -> (r: bool)
    ensures
        r == p@.is_suffix_of(s@),
{
    if p.len() > s.len() {
        return false;
    }
    let off = s.len() - p.len();
    let m = p.len();
    for k in 0..m
        invariant
            m == p@.len(),
            off + m == s.len(),
            forall|j: int| 0 <= j < k ==> p@[j] == s@[off + j],
    {
        if p[k] != s[off + k] {
            return false;
        }
    }
    true
}


// ---------------------------------------------------------------------------
// Splitting and joining
// ---------------------------------------------------------------------------

/// The character views of a vector of character vectors.
pub open spec fn views(v: Seq<Vec<char>>) -> Seq<Seq<char>> {
    v.map_values(|x: Vec<char>| x@)
}

/// The character views of a vector of strings.
pub open spec fn str_views(v: Seq<String>) -> Seq<Seq<char>> {
    v.map_values(|x: String| x@)
}

/// `str::split` with a set of separator characters: the pieces between
/// separators, empty pieces included.
pub open spec fn split(s: Seq<char>, seps: Seq<char>) -> Seq<Seq<char>>
    decreases s.len(),
{
    if s.len() == 0 {
        seq![Seq::<char>::empty()]
    } else {
        let r = split(s.drop_last(), seps);
        if seps.contains(s.last()) {
            r.push(Seq::<char>::empty())
        } else {
            r.update(r.len() - 1, r.last().push(s.last()))
        }
    }
}

/// `split` always yields at least one piece.
pub proof fn lemma_split_nonempty(s: Seq<char>, seps: Seq<char>)
    ensures
        split(s, seps).len() >= 1,
    decreases s.len(),
{
    if s.len() > 0 {
        lemma_split_nonempty(s.drop_last(), seps);
    }
}

/// `str::split_whitespace`: the maximal runs of non-whitespace characters.
pub open spec fn words(s: Seq<char>) -> Seq<Seq<char>>
    decreases s.len(),
{
    if s.len() == 0 {
        Seq::<Seq<char>>::empty()
    } else {
        let r = words(s.drop_last());
        let c = s.last();
        if is_ws(c) {
            r
        } else if s.len() >= 2 && !is_ws(s[s.len() - 2]) {
            r.update(r.len() - 1, r.last().push(c))
        } else {
            r.push(seq![c])
        }
    }
}

/// A sequence that ends with a non-blank character has at least one word.
pub proof fn lemma_words_nonempty(s: Seq<char>)
    requires
        s.len() > 0,
        !is_ws(s.last()),
    ensures
        words(s).len() >= 1,
    decreases s.len(),
{
    if s.len() >= 2 && !is_ws(s[s.len() - 2]) {
        assert(s.drop_last().last() == s[s.len() - 2]);
        lemma_words_nonempty(s.drop_last());
    }
}

/// `parts` joined with `sep` between consecutive parts.
pub open spec fn join(parts: Seq<Seq<char>>, sep: Seq<char>) -> Seq<char>
    decreases parts.len(),
{
    if parts.len() == 0 {
        Seq::<char>::empty()
    } else if parts.len() == 1 {
        parts[0]
    } else {
        join(parts.drop_last(), sep) + sep + parts.last()
    }
}

/// Joining two non-empty lists one after the other puts the separator
/// between their joins.
pub proof fn lemma_join_append(a: Seq<Seq<char>>, b: Seq<Seq<char>>, sep: Seq<char>)
    requires
        a.len() > 0,
        b.len() > 0,
    ensures
        join(a + b, sep) == join(a, sep) + sep + join(b, sep),
    decreases b.len(),
{
    if b.len() == 1 {
        assert((a + b).drop_last() =~= a);
        assert((a + b).last() == b[0]);
    } else {
        assert((a + b).drop_last() =~= a + b.drop_last());
        assert((a + b).last() == b.last());
        lemma_join_append(a, b.drop_last(), sep);
        assert(join(a + b, sep) =~= join(a, sep) + sep + (join(b.drop_last(), sep) + sep + b.last()));
    }
}

/// Splits `s` at every character of `seps`.
pub fn split_chars(s: &[char], seps: &[char]) -> (r: Vec<Vec<char>>)
    ensures
        views(r@) == split(s@, seps@),
{
    let mut parts: Vec<Vec<char>> = Vec::new();
    let mut cur: Vec<char> = Vec::new();
    let n = s.len();
    assert(s@.take(0) =~= Seq::<char>::empty());
    assert(views(parts@).push(cur@) =~= split(s@.take(0), seps@));
    for i in 0..n
        invariant
            n == s@.len(),
            views(parts@).push(cur@) == split(s@.take(i as int), seps@),
    {
        let c = s[i];
        let ghost prev = s@.take(i as int);
        let ghost old_views = views(parts@);
        let ghost old_cur = cur@;
        assert(s@.take(i + 1).drop_last() =~= prev);
        assert(s@.take(i + 1).last() == c);
        if contains_char(seps, c) {
            parts.push(cur);
            cur = Vec::new();
            assert(views(parts@) =~= old_views.push(old_cur));
        } else {
            cur.push(c);
            assert(old_views.push(old_cur).update(old_views.len() as int, old_cur.push(c))
                =~= old_views.push(old_cur.push(c)));
        }
        assert(views(parts@).push(cur@) =~= split(s@.take(i + 1), seps@));
    }
    assert(s@.take(n as int) =~= s@);
    parts.push(cur);
    assert(views(parts@) =~= split(s@, seps@));
    parts
}


/// Appends the characters of `s` to `out`.
pub fn append_chars(out: &mut Vec<char>, s: &[char])
    ensures
        final(out)@ == old(out)@ + s@,
{
    let n = s.len();
    for i in 0..n
        invariant
            n == s@.len(),
            out@ == old(out)@ + s@.take(i as int),
    {
        out.push(s[i]);
        assert(s@.take(i + 1) =~= s@.take(i as int).push(s@[i as int]));
    }
    assert(s@.take(n as int) =~= s@);
}

/// Splits `s` into its whitespace-separated words.
pub fn words_of(s: &[char]) -> (r: Vec<Vec<char>>)
    ensures
        views(r@) == words(s@),
{
    let mut parts: Vec<Vec<char>> = Vec::new();
    let n = s.len();
    assert(s@.take(0) =~= Seq::<char>::empty());
    assert(views(parts@) =~= words(s@.take(0)));
    for i in 0..n
        invariant
            n == s@.len(),
            views(parts@) == words(s@.take(i as int)),
    {
        let c = s[i];
        let ghost prev = s@.take(i as int);
        let ghost old_views = views(parts@);
        assert(s@.take(i + 1).drop_last() =~= prev);
        assert(s@.take(i + 1).last() == c);
        if is_whitespace(c) {
        } else if i >= 1 && !is_whitespace(s[i - 1]) {
            proof {
                assert(prev.last() == s@[i - 1]);
                lemma_words_nonempty(prev);
                assert(s@.take(i + 1)[i - 1] == s@[i - 1]);
            }
            let mut w = parts.pop().unwrap();
            w.push(c);
            parts.push(w);
            assert(views(parts@) =~= old_views.update(old_views.len() - 1, old_views.last().push(c)));
        } else {
            proof {
                if i >= 1 {
                    assert(s@.take(i + 1)[i - 1] == s@[i - 1]);
                }
            }
            let mut nw: Vec<char> = Vec::new();
            nw.push(c);
            assert(nw@ =~= seq![c]);
            parts.push(nw);
            assert(views(parts@) =~= old_views.push(seq![c]));
        }
        assert(views(parts@) =~= words(s@.take(i + 1)));
    }
    assert(s@.take(n as int) =~= s@);
    parts
}

/// Joins `parts` with `sep` between consecutive parts.
pub fn join_chars(parts: &Vec<Vec<char>>, sep: &[char]) -> (r: Vec<char>)
    ensures
        r@ == join(views(parts@), sep@),
{
    let mut out: Vec<char> = Vec::new();
    let n = parts.len();
    assert(views(parts@).take(0) =~= Seq::<Seq<char>>::empty());
    for i in 0..n
        invariant
            n == parts@.len(),
            out@ == join(views(parts@).take(i as int), sep@),
    {
        let ghost t1 = views(parts@).take(i + 1);
        assert(t1.drop_last() =~= views(parts@).take(i as int));
        assert(t1.last() == parts@[i as int]@);
        if i > 0 {
            append_chars(&mut out, sep);
        }
        append_chars(&mut out, parts[i].as_slice());
        proof {
            if i == 0 {
                assert(out@ =~= t1[0]);
            }
        }
    }
    assert(views(parts@).take(n as int) =~= views(parts@));
    out
}

/// `parts` joined with `sep`, as a `String`.
pub fn join_strings(parts: &Vec<String>, sep: &str) -> (r: String)
    ensures
        r@ == join(str_views(parts@), sep@),
{
    let mut cs: Vec<Vec<char>> = Vec::new();
    let n = parts.len();
    for i in 0..n
        invariant
            n == parts@.len(),
            views(cs@) == str_views(parts@).take(i as int),
    {
        let c = chars_of(parts[i].as_str());
        let ghost old_cs = views(cs@);
        cs.push(c);
        assert(views(cs@) =~= old_cs.push(parts@[i as int]@));
        assert(str_views(parts@).take(i + 1) =~= str_views(parts@).take(i as int).push(
            parts@[i as int]@,
        ));
    }
    assert(str_views(parts@).take(n as int) =~= str_views(parts@));
    let sc = chars_of(sep);
    let r = join_chars(&cs, &sc);
    string_of(&r)
}

/// Converts character vectors to strings.
pub fn strings_of(parts: &Vec<Vec<char>>) -> (r: Vec<String>)
    ensures
        str_views(r@) == views(parts@),
{
    let mut out: Vec<String> = Vec::new();
    let n = parts.len();
    for i in 0..n
        invariant
            n == parts@.len(),
            str_views(out@) == views(parts@).take(i as int),
    {
        let s = string_of(parts[i].as_slice());
        let ghost old_out = str_views(out@);
        out.push(s);
        assert(str_views(out@) =~= old_out.push(parts@[i as int]@));
        assert(views(parts@).take(i + 1) =~= views(parts@).take(i as int).push(parts@[i as int]@));
    }
    assert(views(parts@).take(n as int) =~= views(parts@));
    out
}

// ---------------------------------------------------------------------------
// Replacement
// ---------------------------------------------------------------------------

/// `str::replace`: every non-overlapping occurrence of `f`, scanning from the
/// left, replaced by `t`.
pub open spec fn replace_all(s: Seq<char>, f: Seq<char>, t: Seq<char>) -> Seq<char>
    decreases s.len(),
{
    if f.len() == 0 || s.len() < f.len() {
        s
    } else if s.take(f.len() as int) == f {
        t + replace_all(s.skip(f.len() as int), f, t)
    } else {
        seq![s[0]] + replace_all(s.drop_first(), f, t)
    }
}

/// Replaces every occurrence of `f` in `s` by `t`.
pub fn replace_chars(s: &[char], f: &[char], t: &[char]) -> (r: Vec<char>)
    requires
        f@.len() > 0,
    ensures
        r@ == replace_all(s@, f@, t@),
{
    let mut out: Vec<char> = Vec::new();
    let n = s.len();
    let mut i: usize = 0;
    assert(s@.skip(0) =~= s@);
    while i < n
        invariant
            n == s@.len(),
            i <= n,
            f@.len() > 0,
            out@ + replace_all(s@.skip(i as int), f@, t@) == replace_all(s@, f@, t@),
        decreases n - i,
    {
        let ghost rest = s@.skip(i as int);
        if f.len() <= n - i && matches_at(s, f, i) {
            assert(rest.take(f@.len() as int) =~= s@.subrange(i as int, i + f@.len()));
            assert(rest.skip(f@.len() as int) =~= s@.skip(i + f@.len()));
            append_chars(&mut out, t);
            i = i + f.len();
        } else {
            proof {
                if f@.len() <= rest.len() {
                    assert(rest.take(f@.len() as int) =~= s@.subrange(i as int, i + f@.len()));
                } else {
                    assert(rest.drop_first().len() < f@.len());
                    assert(rest =~= seq![rest[0]] + rest.drop_first());
                }
            }
            assert(rest.drop_first() =~= s@.skip(i + 1));
            out.push(s[i]);
            i = i + 1;
        }
    }
    assert(s@.skip(n as int) =~= Seq::<char>::empty());
    out
}

// ---------------------------------------------------------------------------
// Lines and prefixes
// ---------------------------------------------------------------------------

/// A line without the `'\r'` of a `"\r\n"` terminator.
pub open spec fn strip_cr(l: Seq<char>) -> Seq<char> {
    if l.len() > 0 && l.last() == '\r' {
        l.drop_last()
    } else {
        l
    }
}

/// `str::lines`: pieces between `'\n'` terminators, the final terminator
/// optional, a `'\r'` before a `'\n'` removed.
pub open spec fn lines(s: Seq<char>) -> Seq<Seq<char>> {
    let parts = split(s, seq!['\n']);
    let terminated = parts.drop_last().map_values(|l: Seq<char>| strip_cr(l));
    if s.len() == 0 || s.last() == '\n' {
        terminated
    } else {
        terminated.push(parts.last())
    }
}

/// The lines of `s`.
pub fn lines_of(s: &[char]) -> (r: Vec<Vec<char>>)
    ensures
        views(r@) == lines(s@),
{
    let parts = split_chars(s, &['\n']);
    proof {
        lemma_split_nonempty(s@, seq!['\n']);
        assert(seq!['\n'] =~= (['\n'])@);
    }
    let ghost pv = split(s@, seq!['\n']);
    assert(views(parts@) == pv);
    let n = parts.len() - 1;
    let mut out: Vec<Vec<char>> = Vec::new();
    for i in 0..n
        invariant
            n == parts@.len() - 1,
            views(parts@) == pv,
            views(out@) == pv.drop_last().map_values(|l: Seq<char>| strip_cr(l)).take(i as int),
    {
        let p = &parts[i];
        let l = if p.len() > 0 && p[p.len() - 1] == '\r' {
            slice_to_vec(p.as_slice(), 0, p.len() - 1)
        } else {
            slice_to_vec(p.as_slice(), 0, p.len())
        };
        proof {
            assert(pv[i as int] == p@);
            if p@.len() > 0 && p@[p@.len() - 1] == '\r' {
                assert(l@ =~= p@.drop_last());
            } else {
                assert(l@ =~= p@);
            }
        }
        let ghost old_out = views(out@);
        let ghost sl = pv.drop_last().map_values(|l: Seq<char>| strip_cr(l));
        out.push(l);
        assert(views(out@) =~= old_out.push(strip_cr(p@)));
        assert(sl[i as int] == strip_cr(p@));
        assert(sl.take(i + 1) =~= sl.take(i as int).push(sl[i as int]));
    }
    assert(pv.drop_last().map_values(|l: Seq<char>| strip_cr(l)).take(n as int)
        =~= pv.drop_last().map_values(|l: Seq<char>| strip_cr(l)));
    if s.len() == 0 || s[s.len() - 1] == '\n' {
        out
    } else {
        let last = slice_to_vec(parts[n].as_slice(), 0, parts[n].len());
        assert(last@ =~= pv.last());
        out.push(last);
        assert(views(out@) =~= lines(s@));
        out
    }
}

/// `s` without the prefix `p`, when `s` starts with `p` (`str::strip_prefix`).
pub fn strip_prefix(s: &[char], p: &[char]) -> (r: Option<Vec<char>>)
    ensures
        match r {
            Some(rest) => p@.is_prefix_of(s@) && rest@ == s@.skip(p@.len() as int),
            None => !p@.is_prefix_of(s@),
        },
{
    if starts_with(s, p) {
        let rest = slice_to_vec(s, p.len(), s.len());
        assert(rest@ =~= s@.skip(p@.len() as int));
        Some(rest)
    } else {
        None
    }
}

/// `s` without leading whitespace (`str::trim_start`).
pub fn trim_start_chars(s: &[char]) -> (r: Vec<char>)
    ensures
        r@ == trim_start(s@),
{
    let i = trim_start_index(s);
    slice_to_vec(s, i, s.len())
}


/// Whether the string list `v` holds a string equal to `s`.
pub fn strings_contain(v: &Vec<String>, s: &str) -> (r: bool)
    ensures
        r == str_views(v@).contains(s@),
{
    let n = v.len();
    for i in 0..n
        invariant
            n == v@.len(),
            forall|j: int| 0 <= j < i ==> str_views(v@)[j] != s@,
    {
        if str_eq(v[i].as_str(), s) {
            assert(str_views(v@)[i as int] == s@);
            return true;
        }
    }
    proof {
        if str_views(v@).contains(s@) {
            let k = choose|k: int| 0 <= k < str_views(v@).len() && str_views(v@)[k] == s@;
            assert(str_views(v@)[k] != s@);
        }
    }
    false
}


/// A sequence that does not begin with whitespace is its own trimmed start.
pub proof fn lemma_trim_start_noop(s: Seq<char>)
    requires
        s.len() == 0 || !is_ws(s[0]),
    ensures
        trim_start(s) == s,
{
}

/// A sequence that does not end with whitespace is its own trimmed end.
pub proof fn lemma_trim_end_noop(s: Seq<char>)
    requires
        s.len() == 0 || !is_ws(s.last()),
    ensures
        trim_end(s) == s,
{
}

/// A trimmed sequence neither begins nor ends with whitespace.
pub proof fn lemma_trim_ends(s: Seq<char>)
    ensures
        trim(s).len() > 0 ==> !is_ws(trim(s)[0]) && !is_ws(trim(s).last()),
{
    lemma_trim_start_shape(s);
    lemma_trim_end_shape(trim_start(s));
    let t = trim_start(s);
    if trim(s).len() > 0 {
        assert(trim(s)[0] == t[0]);
    }
}

/// Trimming twice is trimming once.
pub proof fn lemma_trim_idempotent(s: Seq<char>)
    ensures
        trim(trim(s)) == trim(s),
{
    lemma_trim_ends(s);
    lemma_trim_start_noop(trim(s));
    lemma_trim_end_noop(trim(s));
}


/// Replacing a pattern by text no longer than it never lengthens, and
/// shortens whenever the pattern occurs and the replacement is shorter.
pub proof fn lemma_replace_len(s: Seq<char>, f: Seq<char>, t: Seq<char>)
    requires
        f.len() > 0,
        t.len() <= f.len(),
    ensures
        replace_all(s, f, t).len() <= s.len(),
        has_substr(s, f) && t.len() < f.len() ==> replace_all(s, f, t).len() < s.len(),
    decreases s.len(),
{
    if s.len() < f.len() {
        if has_substr(s, f) {
            let i = choose|i: int| occurs_at(s, f, i);
        }
    } else if s.take(f.len() as int) == f {
        lemma_replace_len(s.skip(f.len() as int), f, t);
    } else {
        lemma_replace_len(s.drop_first(), f, t);
        if has_substr(s, f) {
            let i = choose|i: int| occurs_at(s, f, i);
            if i == 0 {
                assert(s.subrange(0, f.len() as int) =~= s.take(f.len() as int));
            } else {
                assert(s.drop_first().subrange(i - 1, i - 1 + f.len()) =~= s.subrange(
                    i,
                    i + f.len(),
                ));
                assert(occurs_at(s.drop_first(), f, i - 1));
            }
        }
    }
}

/// `str::replace` applied until the pattern no longer occurs (the pattern
/// being longer than its replacement, this ends).
pub open spec fn collapse(s: Seq<char>, f: Seq<char>, t: Seq<char>) -> Seq<char>
    decreases s.len(),
{
    if f.len() > t.len() && has_substr(s, f) {
        proof {
            lemma_replace_len(s, f, t);
        }
        collapse(replace_all(s, f, t), f, t)
    } else {
        s
    }
}

/// Replaces `f` by `t` until `f` no longer occurs.
pub fn collapse_chars(s: Vec<char>, f: &[char], t: &[char]) -> (r: Vec<char>)
    requires
        f@.len() > t@.len(),
    ensures
        r@ == collapse(s@, f@, t@),
{
    let mut cur = s;
    while contains(&cur, f)
        invariant
            f@.len() > t@.len(),
            collapse(cur@, f@, t@) == collapse(s@, f@, t@),
        decreases cur@.len(),
    {
        proof {
            lemma_replace_len(cur@, f@, t@);
        }
        cur = replace_chars(&cur, f, t);
    }
    cur
}

} // verus!
