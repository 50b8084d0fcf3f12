//! Character-level text handling shared by the plugins: splitting into words
//! and pieces, substring search, decimal integer parsing and printing.
use vstd::prelude::*;

verus! {

/// `String::push` appends one character to the end of the string.
pub assume_specification[ String::push ](s: &mut String, ch: char)
    ensures
        final(s)@ == old(s)@.push(ch),
;

// ---------------------------------------------------------------------------
// Basic conversions
// ---------------------------------------------------------------------------

/// The characters of `s`, in order.
pub fn chars_of(s: &str) -> (v: Vec<char>)
    ensures
        v@ == s@,
{
    let mut v: Vec<char> = Vec::new();
    for c in it: s.chars()
        invariant
            v@ == it.seq().take(it.index() as int),
    {
        v.push(c);
    }
    v
}

/// A `String` holding exactly the characters `v[lo..hi]`.
pub fn string_from_range(v: &Vec<char>, lo: usize, hi: usize) -> (s: String)
    requires
        lo <= hi <= v.len(),
    ensures
        s@ == v@.subrange(lo as int, hi as int),
{
    let mut s = String::new();
    let mut i = lo;
    while i < hi
        invariant
            lo <= i <= hi <= v.len(),
            s@ == v@.subrange(lo as int, i as int),
        decreases hi - i,
    {
        s.push(v[i]);
        i = i + 1;
        assert(s@ =~= v@.subrange(lo as int, i as int));
    }
    s
}

/// A `String` holding exactly the characters of `v`.
pub fn string_from_chars(v: &Vec<char>) -> (s: String)
    ensures
        s@ == v@,
{
    let s = string_from_range(v, 0, v.len());
    assert(v@.subrange(0, v@.len() as int) =~= v@);
    s
}

/// The views of a sequence of strings.
pub open spec fn strings_view(v: Seq<String>) -> Seq<Seq<char>> {
    v.map_values(|s: String| s@)
}

/// Pushing a string onto a vector pushes its view onto the views.
pub proof fn lemma_strings_view_push(v: Seq<String>, s: String)
    ensures
        strings_view(v.push(s)) == strings_view(v).push(s@),
{
    assert(strings_view(v.push(s)) =~= strings_view(v).push(s@));
}

// ---------------------------------------------------------------------------
// White space and words
// ---------------------------------------------------------------------------

/// Unicode `White_Space`, the property that `char::is_whitespace` tests.
pub open spec fn is_white_space(c: char) -> bool {
    let u = c as u32;
    ||| 0x09 <= u <= 0x0D
    ||| u == 0x20
    ||| u == 0x85
    ||| u == 0xA0
    ||| u == 0x1680
    ||| 0x2000 <= u <= 0x200A
    ||| u == 0x2028
    ||| u == 0x2029
    ||| u == 0x202F
    ||| u == 0x205F
    ||| u == 0x3000
}

/// Whether `c` is white space in the sense of `char::is_whitespace`.
pub fn is_whitespace(c: char) -> (b: bool)
    ensures
        b == is_white_space(c),
{
    let u = c as u32;
    (0x09 <= u && u <= 0x0D) || u == 0x20 || u == 0x85 || u == 0xA0 || u == 0x1680 || (0x2000
        <= u && u <= 0x200A) || u == 0x2028 || u == 0x2029 || u == 0x202F || u == 0x205F || u
        == 0x3000
}

/// The word under construction, as a list of at most one word.
pub open spec fn flush(cur: Seq<char>) -> Seq<Seq<char>> {
    if cur.len() == 0 {
        Seq::empty()
    } else {
        seq![cur]
    }
}

/// The words of `s`, when `cur` holds the characters of a word already begun.
pub open spec fn words_from(s: Seq<char>, cur: Seq<char>) -> Seq<Seq<char>>
    decreases s.len(),
{
    if s.len() == 0 {
        flush(cur)
    } else if is_white_space(s[0]) {
        flush(cur) + words_from(s.drop_first(), Seq::empty())
    } else {
        words_from(s.drop_first(), cur.push(s[0]))
    }
}

/// The maximal runs of non-white-space characters of `s`, in order: what
/// `str::split_whitespace` yields.
pub open spec fn words(s: Seq<char>) -> Seq<Seq<char>> {
    words_from(s, Seq::empty())
}

/// `w` is a word: non-empty, without white space.
pub open spec fn is_word(w: Seq<char>) -> bool {
    w.len() > 0 && forall|k: int| 0 <= k < w.len() ==> !is_white_space(#[trigger] w[k])
}

/// Every word of `s` is non-empty and holds no white space, when the word
/// already begun holds none.
pub proof fn lemma_words_from_shape(s: Seq<char>, cur: Seq<char>)
    requires
        forall|k: int| 0 <= k < cur.len() ==> !is_white_space(#[trigger] cur[k]),
    ensures
        forall|w: int| 0 <= w < words_from(s, cur).len() ==> is_word(#[trigger] words_from(s, cur)[w]),
    decreases s.len(),
{
    if s.len() == 0 {
        if cur.len() > 0 {
            assert(words_from(s, cur) == seq![cur]);
            assert(is_word(cur));
        }
    } else if is_white_space(s[0]) {
        lemma_words_from_shape(s.drop_first(), Seq::empty());
        let a = flush(cur);
        let b = words_from(s.drop_first(), Seq::empty());
        assert forall|w: int| 0 <= w < (a + b).len() implies is_word(#[trigger] (a + b)[w]) by {
            if w < a.len() {
                assert((a + b)[w] == cur);
            } else {
                assert((a + b)[w] == b[w - a.len()]);
            }
        }
    } else {
        let c2 = cur.push(s[0]);
        assert forall|k: int| 0 <= k < c2.len() implies !is_white_space(#[trigger] c2[k]) by {
            if k < cur.len() {
                assert(c2[k] == cur[k]);
            }
        }
        lemma_words_from_shape(s.drop_first(), c2);
        assert(words_from(s, cur) == words_from(s.drop_first(), c2));
    }
}

/// Every word of `s` is non-empty and holds no white space.
pub proof fn lemma_words_shape(s: Seq<char>)
    ensures
        forall|w: int| 0 <= w < words(s).len() ==> is_word(#[trigger] words(s)[w]),
{
    lemma_words_from_shape(s, Seq::empty());
}

/// A word already begun is never lost.
proof fn lemma_words_from_begun(s: Seq<char>, cur: Seq<char>)
    requires
        cur.len() > 0,
    ensures
        words_from(s, cur).len() > 0,
    decreases s.len(),
{
    if s.len() > 0 && !is_white_space(s[0]) {
        lemma_words_from_begun(s.drop_first(), cur.push(s[0]));
    }
}

/// A text whose first character is not white space holds a word.
pub proof fn lemma_words_non_empty(s: Seq<char>)
    requires
        s.len() > 0,
        !is_white_space(s[0]),
    ensures
        words(s).len() > 0,
{
    lemma_words_from_begun(s.drop_first(), seq![s[0]]);
    assert(Seq::<char>::empty().push(s[0]) =~= seq![s[0]]);
}

/// The words of `s`, as `str::split_whitespace` gives them.
pub fn split_whitespace(s: &str) -> (out: Vec<String>)
    ensures
        strings_view(out@) == words(s@),
{
    let cs = chars_of(s);
    let n = cs.len();
    let mut out: Vec<String> = Vec::new();
    let mut cur: Vec<char> = Vec::new();
    let mut i: usize = 0;
    assert(cs@.subrange(0, n as int) =~= cs@);
    while i < n
        invariant
            n == cs.len(),
            cs@ == s@,
            i <= n,
            strings_view(out@) + words_from(cs@.subrange(i as int, n as int), cur@) == words(
                s@,
            ),
        decreases n - i,
    {
        let ghost t = cs@.subrange(i as int, n as int);
        assert(t.drop_first() =~= cs@.subrange(i + 1, n as int));
        let c = cs[i];
        if is_whitespace(c) {
            if cur.len() > 0 {
                let w = string_from_chars(&cur);
                proof {
                    lemma_strings_view_push(out@, w);
                }
                let ghost before = strings_view(out@);
                out.push(w);
                assert(before + (flush(cur@) + words_from(t.drop_first(), Seq::empty()))
                    =~= before.push(cur@) + words_from(t.drop_first(), Seq::empty()));
            } else {
                assert(flush(cur@) + words_from(t.drop_first(), Seq::empty()) =~= words_from(
                    t.drop_first(),
                    Seq::empty(),
                ));
            }
            cur = Vec::new();
            assert(cur@ =~= Seq::<char>::empty());
        } else {
            cur.push(c);
        }
        i = i + 1;
    }
    assert(cs@.subrange(n as int, n as int) =~= Seq::<char>::empty());
    if cur.len() > 0 {
        let w = string_from_chars(&cur);
        proof {
            lemma_strings_view_push(out@, w);
        }
        let ghost before = strings_view(out@);
        out.push(w);
        assert(before + flush(cur@) =~= before.push(cur@));
    } else {
        assert(strings_view(out@) + flush(cur@) =~= strings_view(out@));
    }
    out
}

/// The strings `ss` joined with `sep` between each two: what `join` gives.
pub open spec fn join_with(ss: Seq<Seq<char>>, sep: Seq<char>) -> Seq<char>
    decreases ss.len(),
{
    if ss.len() == 0 {
        Seq::empty()
    } else if ss.len() == 1 {
        ss[0]
    } else {
        join_with(ss.drop_last(), sep) + sep + ss.last()
    }
}

/// The strings of `v` joined with `sep` between each two, as `[String]::join` gives them.
pub fn join(v: &Vec<String>, sep: &str) -> (r: String)
    ensures
        r@ == join_with(strings_view(v@), sep@),
{
    let mut r = String::new();
    let mut i: usize = 0;
    while i < v.len()
        invariant
            i <= v.len(),
            r@ == join_with(strings_view(v@).take(i as int), sep@),
        decreases v.len() - i,
    {
        let ghost t = strings_view(v@).take(i + 1);
        assert(t.drop_last() =~= strings_view(v@).take(i as int));
        assert(t.last() == v@[i as int]@);
        if i > 0 {
            r.append(sep);
        } else {
            assert(t.len() == 1);
        }
        r.append(v[i].as_str());
        i = i + 1;
    }
    assert(strings_view(v@).take(v.len() as int) =~= strings_view(v@));
    r
}

// ---------------------------------------------------------------------------
// Substrings
// ---------------------------------------------------------------------------

/// `needle` occurs in `hay` starting at index `i`.
pub open spec fn occurs_at(hay: Seq<char>, needle: Seq<char>, i: int) -> bool {
    0 <= i && i + needle.len() <= hay.len() && hay.subrange(i, i + needle.len()) == needle
}

/// `needle` occurs somewhere in `hay` (the empty needle occurs everywhere).
pub open spec fn contains_seq(hay: Seq<char>, needle: Seq<char>) -> bool {
    exists|i: int| occurs_at(hay, needle, i)
}

/// Whether `needle` occurs in `hay` at position `i`, on character vectors.
fn occurs_at_exec(hay: &Vec<char>, needle: &Vec<char>, i: usize) -> (b: bool)
    ensures
        b == occurs_at(hay@, needle@, i as int),
{
    if i > hay.len() || needle.len() > hay.len() - i {
        return false;
    }
    let mut k: usize = 0;
    while k < needle.len()
        invariant
            i + needle.len() <= hay.len(),
            k <= needle.len(),
            forall|j: int| 0 <= j < k ==> hay@[i + j] == needle@[j],
        decreases needle.len() - k,
    {
        if hay[i + k] != needle[k] {
            assert(hay@.subrange(i as int, i + needle.len())[k as int] != needle@[k as int]);
            return false;
        }
        k = k + 1;
    }
    assert(hay@.subrange(i as int, i + needle.len()) =~= needle@);
    true
}

/// Whether `a` and `b` hold the same characters, as `==` on strings answers it.
pub fn same_text(a: &str, b: &str) -> (r: bool)
    ensures
        r == (a@ == b@),
{
    let x = chars_of(a);
    let y = chars_of(b);
    if x.len() != y.len() {
        return false;
    }
    let r = occurs_at_exec(&x, &y, 0);
    assert(r ==> x@.subrange(0, y@.len() as int) =~= x@);
    assert(a@ == b@ ==> x@.subrange(0, y@.len() as int) =~= y@);
    r
}

/// Whether `hay` starts with `prefix`, as `str::starts_with` answers it.
pub fn starts_with(hay: &str, prefix: &str) -> (b: bool)
    ensures
        b == occurs_at(hay@, prefix@, 0),
{
    let h = chars_of(hay);
    let p = chars_of(prefix);
    occurs_at_exec(&h, &p, 0)
}

/// Whether `needle` occurs in `hay`, as `str::contains` answers it.
pub fn contains(hay: &str, needle: &str) -> (b: bool)
    ensures
        b == contains_seq(hay@, needle@),
{
    let h = chars_of(hay);
    let p = chars_of(needle);
    if p.len() > h.len() {
        assert forall|i: int| !occurs_at(hay@, needle@, i) by {}
        return false;
    }
    let last = h.len() - p.len();
    let mut i: usize = 0;
    loop
        invariant
            h@ == hay@,
            p@ == needle@,
            last == h.len() - p.len(),
            p.len() <= h.len(),
            i <= last,
            forall|j: int| 0 <= j < i ==> !occurs_at(hay@, needle@, j),
        ensures
            forall|j: int| 0 <= j <= last ==> !occurs_at(hay@, needle@, j),
        decreases last - i,
    {
        if occurs_at_exec(&h, &p, i) {
            return true;
        }
        if i == last {
            break;
        }
        i = i + 1;
    }
    assert forall|j: int| !occurs_at(hay@, needle@, j) by {
        if 0 <= j <= last {
        }
    }
    false
}

// ---------------------------------------------------------------------------
// Splitting by a separator
// ---------------------------------------------------------------------------

/// The pieces of `s` between the occurrences of `sep`, scanned from the left
/// without overlap, when `cur` holds the piece already begun: what
/// `str::split` yields for a non-empty separator.
pub open spec fn split_from(s: Seq<char>, sep: Seq<char>, cur: Seq<char>) -> Seq<Seq<char>>
    decreases s.len(),
{
    if s.len() == 0 {
        seq![cur]
    } else if sep.len() > 0 && occurs_at(s, sep, 0) {
        seq![cur] + split_from(s.skip(sep.len() as int), sep, Seq::empty())
    } else {
        split_from(s.drop_first(), sep, cur.push(s[0]))
    }
}

/// What `str::split` yields for the separator `sep`: for the empty separator,
/// an empty piece, then each character on its own, then an empty piece.
pub open spec fn split_pieces(s: Seq<char>, sep: Seq<char>) -> Seq<Seq<char>> {
    if sep.len() == 0 {
        seq![Seq::<char>::empty()] + s.map_values(|c: char| seq![c]) + seq![Seq::<char>::empty()]
    } else {
        split_from(s, sep, Seq::empty())
    }
}

/// The pieces of `ss` that are not empty, in order.
pub open spec fn non_empty(ss: Seq<Seq<char>>) -> Seq<Seq<char>>
    decreases ss.len(),
{
    if ss.len() == 0 {
        Seq::empty()
    } else {
        flush(ss[0]) + non_empty(ss.drop_first())
    }
}

/// Dropping empty pieces distributes over concatenation.
pub proof fn lemma_non_empty_append(a: Seq<Seq<char>>, b: Seq<Seq<char>>)
    ensures
        non_empty(a + b) == non_empty(a) + non_empty(b),
    decreases a.len(),
{
    if a.len() == 0 {
        assert(a + b =~= b);
        assert(non_empty(a) + non_empty(b) =~= non_empty(b));
    } else {
        assert((a + b).drop_first() =~= a.drop_first() + b);
        assert((a + b)[0] == a[0]);
        lemma_non_empty_append(a.drop_first(), b);
        assert(flush(a[0]) + (non_empty(a.drop_first()) + non_empty(b)) =~= (flush(a[0])
            + non_empty(a.drop_first())) + non_empty(b));
    }
}

/// A single piece is kept exactly when it is not empty.
proof fn lemma_non_empty_single(x: Seq<char>)
    ensures
        non_empty(seq![x]) == flush(x),
{
    let e = seq![x];
    assert(e.drop_first() =~= Seq::<Seq<char>>::empty());
    assert(non_empty(Seq::<Seq<char>>::empty()) =~= Seq::<Seq<char>>::empty());
    assert(flush(x) + Seq::<Seq<char>>::empty() =~= flush(x));
}

/// The non-empty pieces of `s.skip(i)` split by `sep`, when `cur` is begun.
spec fn rest_pieces(s: Seq<char>, i: int, sep: Seq<char>, cur: Seq<char>) -> Seq<Seq<char>> {
    non_empty(split_from(s.subrange(i, s.len() as int), sep, cur))
}

/// The non-empty pieces of `s` between occurrences of `sep`.
pub open spec fn split_non_empty(s: Seq<char>, sep: Seq<char>) -> Seq<Seq<char>> {
    non_empty(split_pieces(s, sep))
}

/// Every piece kept is non-empty.
proof fn lemma_non_empty_pieces(ss: Seq<Seq<char>>)
    ensures
        forall|i: int| 0 <= i < non_empty(ss).len() ==> (#[trigger] non_empty(ss)[i]).len() > 0,
    decreases ss.len(),
{
    if ss.len() > 0 {
        lemma_non_empty_pieces(ss.drop_first());
        let a = flush(ss[0]);
        let b = non_empty(ss.drop_first());
        assert forall|i: int| 0 <= i < (a + b).len() implies (#[trigger] (a + b)[i]).len() > 0 by {
            if i < a.len() {
                assert((a + b)[i] == ss[0]);
            } else {
                assert((a + b)[i] == b[i - a.len()]);
            }
        }
    }
}

/// Every piece a reply is cut into is non-empty.
pub proof fn law_split_pieces_non_empty(s: Seq<char>, sep: Seq<char>)
    ensures
        forall|i: int|
            0 <= i < split_non_empty(s, sep).len() ==> (#[trigger] split_non_empty(s, sep)[i]).len()
                > 0,
{
    lemma_non_empty_pieces(split_pieces(s, sep));
}

/// For the empty separator the non-empty pieces are the single characters.
proof fn lemma_split_empty_sep(s: Seq<char>)
    ensures
        split_non_empty(s, Seq::empty()) == s.map_values(|c: char| seq![c]),
{
    let m = s.map_values(|c: char| seq![c]);
    let e = seq![Seq::<char>::empty()];
    lemma_non_empty_append(e + m, e);
    lemma_non_empty_append(e, m);
    lemma_non_empty_single(Seq::<char>::empty());
    lemma_non_empty_all(m);
    assert(split_pieces(s, Seq::empty()) == e + m + e);
}

/// A list of non-empty pieces is its own list of non-empty pieces.
proof fn lemma_non_empty_all(m: Seq<Seq<char>>)
    requires
        forall|k: int| 0 <= k < m.len() ==> (#[trigger] m[k]).len() > 0,
    ensures
        non_empty(m) == m,
    decreases m.len(),
{
    if m.len() > 0 {
        lemma_non_empty_all(m.drop_first());
        assert(flush(m[0]) + m.drop_first() =~= m);
    }
}

/// The non-empty pieces of `s` between the occurrences of `sep`: the pieces
/// that `str::split` yields, without the empty ones.
pub fn split_non_empty_pieces(s: &str, sep: &str) -> (out: Vec<String>)
    ensures
        strings_view(out@) == split_non_empty(s@, sep@),
{
    let cs = chars_of(s);
    let sp = chars_of(sep);
    let n = cs.len();
    let mut out: Vec<String> = Vec::new();
    if sp.len() == 0 {
        let mut i: usize = 0;
        while i < n
            invariant
                n == cs.len(),
                i <= n,
                strings_view(out@) == cs@.take(i as int).map_values(|c: char| seq![c]),
            decreases n - i,
        {
            let w = string_from_range(&cs, i, i + 1);
            proof {
                lemma_strings_view_push(out@, w);
                assert(cs@.subrange(i as int, i + 1) =~= seq![cs@[i as int]]);
                assert(cs@.take(i + 1) =~= cs@.take(i as int).push(cs@[i as int]));
            }
            out.push(w);
            i = i + 1;
            assert(strings_view(out@) =~= cs@.take(i as int).map_values(|c: char| seq![c]));
        }
        proof {
            assert(cs@.take(n as int) =~= cs@);
            lemma_split_empty_sep(s@);
            assert(sep@ =~= Seq::<char>::empty());
        }
        return out;
    }
    let m = sp.len();
    let mut start: usize = 0;
    let mut i: usize = 0;
    assert(cs@.subrange(0, n as int) =~= cs@);
    assert(cs@.subrange(0, 0) =~= Seq::<char>::empty());
    while i < n
        invariant
            n == cs.len(),
            cs@ == s@,
            sp@ == sep@,
            m == sp.len(),
            m > 0,
            start <= i <= n,
            strings_view(out@) + rest_pieces(cs@, i as int, sep@, cs@.subrange(
                start as int,
                i as int,
            )) == split_non_empty(s@, sep@),
        decreases n - i,
    {
        let ghost t = cs@.subrange(i as int, n as int);
        let ghost cur = cs@.subrange(start as int, i as int);
        if occurs_at_exec(&cs, &sp, i) {
            proof {
                assert(t.subrange(0, m as int) =~= cs@.subrange(i as int, i + m));
                assert(occurs_at(t, sep@, 0));
                assert(t.skip(m as int) =~= cs@.subrange(i + m, n as int));
                lemma_non_empty_append(
                    seq![cur],
                    split_from(t.skip(m as int), sep@, Seq::empty()),
                );
                lemma_non_empty_single(cur);
            }
            if start < i {
                let w = string_from_range(&cs, start, i);
                proof {
                    lemma_strings_view_push(out@, w);
                }
                let ghost before = strings_view(out@);
                out.push(w);
                assert(before + (flush(cur) + rest_pieces(cs@, i + m, sep@, Seq::empty()))
                    =~= before.push(cur) + rest_pieces(cs@, i + m, sep@, Seq::empty()));
            } else {
                assert(flush(cur) + rest_pieces(cs@, i + m, sep@, Seq::empty()) =~= rest_pieces(
                    cs@,
                    i + m,
                    sep@,
                    Seq::empty(),
                ));
            }
            i = i + m;
            start = i;
            assert(cs@.subrange(start as int, i as int) =~= Seq::<char>::empty());
        } else {
            proof {
                assert(!occurs_at(t, sep@, 0)) by {
                    if occurs_at(t, sep@, 0) {
                        assert(t.subrange(0, m as int) =~= cs@.subrange(i as int, i + m));
                    }
                }
                assert(t.drop_first() =~= cs@.subrange(i + 1, n as int));
                assert(cur.push(t[0]) =~= cs@.subrange(start as int, i + 1));
            }
            i = i + 1;
        }
    }
    let ghost cur = cs@.subrange(start as int, n as int);
    assert(cs@.subrange(n as int, n as int) =~= Seq::<char>::empty());
    proof {
        lemma_non_empty_single(cur);
    }
    if start < n {
        let w = string_from_range(&cs, start, n);
        proof {
            lemma_strings_view_push(out@, w);
        }
        let ghost before = strings_view(out@);
        out.push(w);
        assert(before + flush(cur) =~= before.push(cur));
    } else {
        assert(strings_view(out@) + flush(cur) =~= strings_view(out@));
    }
    out
}

// ---------------------------------------------------------------------------
// Decimal integers
// ---------------------------------------------------------------------------

/// `c` is one of the ASCII digits `0` to `9`.
pub open spec fn is_digit(c: char) -> bool {
    48 <= (c as u32) <= 57
}

/// The value of the ASCII digit `c`.
pub open spec fn digit_value(c: char) -> int {
    (c as u32) - 48
}

/// Every character of `s` is an ASCII digit.
pub open spec fn all_digits(s: Seq<char>) -> bool {
    forall|i: int| 0 <= i < s.len() ==> is_digit(#[trigger] s[i])
}

/// The value of the digits `s`, read in base ten.
pub open spec fn digits_value(s: Seq<char>) -> int
    decreases s.len(),
{
    if s.len() == 0 {
        0
    } else {
        digits_value(s.drop_last()) * 10 + digit_value(s.last())
    }
}

/// The integer that `s` writes the way Rust's `FromStr` for integers reads
/// it: an optional `+` or `-`, then one or more ASCII digits.
pub open spec fn decimal_literal(s: Seq<char>) -> Option<int> {
    if s.len() == 0 {
        None
    } else if s[0] == '+' || s[0] == '-' {
        let d = s.drop_first();
        if d.len() > 0 && all_digits(d) {
            Some(
                if s[0] == '-' {
                    -digits_value(d)
                } else {
                    digits_value(d)
                },
            )
        } else {
            None
        }
    } else if all_digits(s) {
        Some(digits_value(s))
    } else {
        None
    }
}

/// What `str::parse::<i64>` gives, `None` standing for its error.
pub open spec fn parse_i64_spec(s: Seq<char>) -> Option<i64> {
    match decimal_literal(s) {
        Some(v) => if i64::MIN <= v <= i64::MAX {
            Some(v as i64)
        } else {
            None
        },
        None => None,
    }
}

/// What `str::parse::<i32>` gives, `None` standing for its error.
pub open spec fn parse_i32_spec(s: Seq<char>) -> Option<i32> {
    match decimal_literal(s) {
        Some(v) => if i32::MIN <= v <= i32::MAX {
            Some(v as i32)
        } else {
            None
        },
        None => None,
    }
}

proof fn lemma_digits_value_nonneg(s: Seq<char>)
    requires
        all_digits(s),
    ensures
        digits_value(s) >= 0,
    decreases s.len(),
{
    if s.len() > 0 {
        assert(is_digit(s[s.len() - 1]));
        assert(all_digits(s.drop_last())) by {
            assert forall|i: int| 0 <= i < s.drop_last().len() implies is_digit(
                #[trigger] s.drop_last()[i],
            ) by {
                assert(s.drop_last()[i] == s[i]);
            }
        }
        lemma_digits_value_nonneg(s.drop_last());
    }
}

/// A prefix of a digit string is worth no more than the whole string.
proof fn lemma_digits_value_prefix(s: Seq<char>, k: int)
    requires
        all_digits(s),
        0 <= k <= s.len(),
    ensures
        digits_value(s.take(k)) <= digits_value(s),
    decreases s.len(),
{
    if k < s.len() {
        let p = s.drop_last();
        assert(all_digits(p)) by {
            assert forall|i: int| 0 <= i < p.len() implies is_digit(#[trigger] p[i]) by {
                assert(p[i] == s[i]);
            }
        }
        assert(p.take(k) =~= s.take(k));
        lemma_digits_value_prefix(p, k);
        lemma_digits_value_nonneg(p);
        assert(is_digit(s[s.len() - 1]));
    } else {
        assert(s.take(k) =~= s);
    }
}

/// The value of the decimal literal `s` when it lies in `lo..=hi`; `None` when
/// `s` is no decimal literal or its value lies outside that range.
pub fn parse_decimal(s: &str, lo: i128, hi: i128) -> (r: Option<i128>)
    requires
        -0x1_0000_0000_0000_0000 <= lo <= 0 <= hi <= 0x1_0000_0000_0000_0000,
    ensures
        r == (match decimal_literal(s@) {
            Some(v) => if lo <= v <= hi {
                Some(v as i128)
            } else {
                None
            },
            None => None,
        }),
{
    let cs = chars_of(s);
    let n = cs.len();
    if n == 0 {
        return None;
    }
    let neg = cs[0] == '-';
    let start: usize = if cs[0] == '+' || cs[0] == '-' {
        1
    } else {
        0
    };
    if start == n {
        return None;
    }
    let ghost d = cs@.subrange(start as int, n as int);
    proof {
        if start == 1 {
            assert(d =~= s@.drop_first());
            assert(s@[0] == '+' || s@[0] == '-');
        } else {
            assert(d =~= s@);
            assert(!(s@[0] == '+' || s@[0] == '-'));
        }
    }
    let bound: i128 = if neg {
        -lo
    } else {
        hi
    };
    let mut acc: i128 = 0;
    let mut i: usize = start;
    let mut over = false;
    while i < n
        invariant
            n == cs.len(),
            cs@ == s@,
            start <= i <= n,
            d == cs@.subrange(start as int, n as int),
            start < n,
            start <= 1,
            start == 1 ==> d == s@.drop_first() && (s@[0] == '+' || s@[0] == '-'),
            start == 0 ==> d == s@ && !(s@[0] == '+' || s@[0] == '-'),
            neg == (s@[0] == '-'),
            bound == (if neg {
                -lo
            } else {
                hi as int
            }),
            0 <= bound <= 0x1_0000_0000_0000_0000,
            all_digits(d.take(i - start)),
            over ==> acc == 0 && digits_value(d.take(i - start)) > bound,
            !over ==> acc == digits_value(d.take(i - start)) && 0 <= acc <= bound,
        decreases n - i,
    {
        let c = cs[i];
        let u = c as u32;
        if u < 48 || u > 57 {
            assert(d[i - start] == c);
            assert(!is_digit(c));
            assert(!all_digits(d));
            return None;
        }
        let ghost j = i - start;
        assert(d.take(j + 1).drop_last() =~= d.take(j));
        assert(d.take(j + 1).last() == c);
        assert(all_digits(d.take(j + 1))) by {
            assert forall|k: int| 0 <= k < d.take(j + 1).len() implies is_digit(
                #[trigger] d.take(j + 1)[k],
            ) by {
                if k < j {
                    assert(d.take(j + 1)[k] == d.take(j)[k]);
                }
            }
        }
        if !over {
            let v = acc * 10 + (u as i128 - 48);
            if v > bound {
                over = true;
                acc = 0;
            } else {
                acc = v;
            }
        } else {
            proof {
                lemma_digits_value_nonneg(d.take(j));
            }
        }
        i = i + 1;
    }
    assert(d.take(n - start) =~= d);
    proof {
        if start == 1 {
            assert(decimal_literal(s@) == Some(
                if neg {
                    -digits_value(d)
                } else {
                    digits_value(d)
                },
            ));
        }
    }
    if over {
        return None;
    }
    if neg {
        Some(-acc)
    } else {
        Some(acc)
    }
}

/// `str::parse::<i64>`, with `None` in place of its error.
pub fn parse_i64(s: &str) -> (r: Option<i64>)
    ensures
        r == parse_i64_spec(s@),
{
    match parse_decimal(s, i64::MIN as i128, i64::MAX as i128) {
        Some(v) => Some(v as i64),
        None => None,
    }
}

/// `str::parse::<i32>`, with `None` in place of its error.
pub fn parse_i32(s: &str) -> (r: Option<i32>)
    ensures
        r == parse_i32_spec(s@),
{
    match parse_decimal(s, i32::MIN as i128, i32::MAX as i128) {
        Some(v) => Some(v as i32),
        None => None,
    }
}

/// The ASCII digit for `d`, which lies in `0..10`.
pub open spec fn digit_char(d: int) -> char {
    ((d + 48) as u32) as char
}

/// The decimal digits of `n`, most significant first, without leading zeros.
pub open spec fn decimal_digits(n: nat) -> Seq<char>
    decreases n,
{
    if n < 10 {
        seq![digit_char(n as int)]
    } else {
        decimal_digits(n / 10).push(digit_char((n % 10) as int))
    }
}

/// `n` written in decimal, with a leading `-` when it is negative: what
/// `Display` prints for an integer.
pub open spec fn decimal_text(n: int) -> Seq<char> {
    if n < 0 {
        seq!['-'] + decimal_digits((-n) as nat)
    } else {
        decimal_digits(n as nat)
    }
}

fn digit_to_char(d: u64) -> (c: char)
    requires
        d < 10,
    ensures
        c == digit_char(d as int),
{
    let c = if d == 0 {
        '0'
    } else if d == 1 {
        '1'
    } else if d == 2 {
        '2'
    } else if d == 3 {
        '3'
    } else if d == 4 {
        '4'
    } else if d == 5 {
        '5'
    } else if d == 6 {
        '6'
    } else if d == 7 {
        '7'
    } else if d == 8 {
        '8'
    } else {
        '9'
    };
    c
}

fn push_digits(out: &mut String, n: u64)
    ensures
        final(out)@ == old(out)@ + decimal_digits(n as nat),
    decreases n,
{
    if n < 10 {
        let c = digit_to_char(n);
        out.push(c);
        assert(out@ =~= old(out)@ + decimal_digits(n as nat));
    } else {
        push_digits(out, n / 10);
        let c = digit_to_char(n % 10);
        out.push(c);
        assert(out@ =~= old(out)@ + decimal_digits(n as nat));
    }
}

/// Appends `n` in decimal to `out`, as `write!(out, "{}", n)` would.
pub fn push_decimal(out: &mut String, n: i64)
    ensures
        final(out)@ == old(out)@ + decimal_text(n as int),
{
    if n < 0 {
        out.push('-');
        let m: u64 = (-(n as i128)) as u64;
        push_digits(out, m);
        assert(out@ =~= old(out)@ + decimal_text(n as int));
    } else {
        push_digits(out, n as u64);
    }
}

/// Appends the non-negative `n` in decimal to `out`.
pub fn push_decimal_u64(out: &mut String, n: u64)
    ensures
        final(out)@ == old(out)@ + decimal_text(n as int),
{
    push_digits(out, n);
}

} // verus!
