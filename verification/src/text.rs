//! Character-level helpers on string slices, with their specifications.
use vstd::prelude::*;
use vstd::string::*;

verus! {

/// ASCII lower-casing of one character; every other character is unchanged.
pub open spec fn ascii_lower(c: char) -> char {
    if 'A' <= c && c <= 'Z' {
        ((c as u32) + 32) as char
    } else {
        c
    }
}

/// Two texts are equal when ASCII letters are compared without regard to case.
pub open spec fn eq_ignore_ascii_case(a: Seq<char>, b: Seq<char>) -> bool {
    &&& a.len() == b.len()
    &&& forall|i: int| 0 <= i < a.len() ==> ascii_lower(#[trigger] a[i]) == ascii_lower(b[i])
}

/// Texts that match without regard to ASCII case match the same words.
pub proof fn lemma_eq_ignore_ascii_case_same_words(s: Seq<char>, t: Seq<char>, w: Seq<char>)
    requires
        eq_ignore_ascii_case(s, t),
    ensures
        eq_ignore_ascii_case(s, w) <==> eq_ignore_ascii_case(t, w),
{
    if eq_ignore_ascii_case(s, w) {
        assert forall|i: int| 0 <= i < t.len() implies ascii_lower(#[trigger] t[i]) == ascii_lower(
            w[i],
        ) by {
            assert(ascii_lower(s[i]) == ascii_lower(t[i]));
        }
    }
    if eq_ignore_ascii_case(t, w) {
        assert forall|i: int| 0 <= i < s.len() implies ascii_lower(#[trigger] s[i]) == ascii_lower(
            w[i],
        ) by {
            assert(ascii_lower(s[i]) == ascii_lower(t[i]));
        }
    }
}

pub fn lower_char(c: char) -> (r: char)
    ensures
        r == ascii_lower(c),
{
    if 'A' <= c && c <= 'Z' {
        let code: u32 = c as u32;
        let lowered: u8 = (code + 32) as u8;
        lowered as char
    } else {
        c
    }
}

/// Compares two string slices, ignoring the case of ASCII letters.
pub fn str_eq_ignore_ascii_case(a: &str, b: &str) -> (r: bool)
    ensures
        r == eq_ignore_ascii_case(a@, b@),
{
    let n = a.unicode_len();
    if n != b.unicode_len() {
        return false;
    }
    let mut i: usize = 0;
    while i < n
        invariant
            n == a@.len(),
            n == b@.len(),
            i <= n,
            forall|j: int| 0 <= j < i ==> ascii_lower(#[trigger] a@[j]) == ascii_lower(b@[j]),
        decreases n - i,
    {
        if lower_char(a.get_char(i)) != lower_char(b.get_char(i)) {
            return false;
        }
        i = i + 1;
    }
    true
}


/// Whether `p` begins the text `s`.
pub fn str_starts_with(s: &str, p: &str) -> (r: bool)
    ensures
        r == p@.is_prefix_of(s@),
{
    let n = s.unicode_len();
    let m = p.unicode_len();
    if m > n {
        return false;
    }
    let mut i: usize = 0;
    while i < m
        invariant
            n == s@.len(),
            m == p@.len(),
            m <= n,
            i <= m,
            forall|j: int| 0 <= j < i ==> #[trigger] p@[j] == s@[j],
        decreases m - i,
    {
        if p.get_char(i) != s.get_char(i) {
            return false;
        }
        i = i + 1;
    }
    assert(p@ =~= s@.subrange(0, m as int));
    true
}

/// A prefix fixes the characters at its positions.
pub proof fn lemma_prefix_char(p: Seq<char>, s: Seq<char>, i: int)
    requires
        p.is_prefix_of(s),
        0 <= i < p.len(),
    ensures
        s[i] == p[i],
{
    assert(p[i] == s.subrange(0, p.len() as int)[i]);
}

/// The rest of `s` after the prefix `p`, when `s` begins with `p`.
pub fn str_strip_prefix<'a>(s: &'a str, p: &str) -> (r: Option<&'a str>)
    ensures
        r is Some <==> p@.is_prefix_of(s@),
        r matches Some(rest) ==> rest@ == s@.skip(p@.len() as int),
{
    if str_starts_with(s, p) {
        let n = s.unicode_len();
        let m = p.unicode_len();
        Some(s.substring_char(m, n))
    } else {
        None
    }
}

/// Whether the character `c` occurs in `s`.
pub fn str_contains_char(s: &str, c: char) -> (r: bool)
    ensures
        r == s@.contains(c),
{
    let n = s.unicode_len();
    let mut i: usize = 0;
    while i < n
        invariant
            n == s@.len(),
            i <= n,
            forall|j: int| 0 <= j < i ==> #[trigger] s@[j] != c,
        decreases n - i,
    {
        if s.get_char(i) == c {
            assert(s@[i as int] == c);
            return true;
        }
        i = i + 1;
    }
    false
}

/// The pieces of `s` between occurrences of the separator `d`, from left to right.
/// A text without `d` is one piece; every separator starts a new piece.
pub open spec fn split_on(s: Seq<char>, d: char) -> Seq<Seq<char>>
    decreases s.len(),
{
    if s.len() == 0 {
        seq![Seq::<char>::empty()]
    } else {
        let before = split_on(s.drop_last(), d);
        if s.last() == d {
            before.push(Seq::<char>::empty())
        } else {
            before.update(before.len() - 1, before.last().push(s.last()))
        }
    }
}

/// A text without the separator is a single piece.
pub proof fn lemma_split_on_without_separator(s: Seq<char>, d: char)
    requires
        !s.contains(d),
    ensures
        split_on(s, d) == seq![s],
    decreases s.len(),
{
    if s.len() > 0 {
        assert(!s.drop_last().contains(d)) by {
            if s.drop_last().contains(d) {
                let j = choose|j: int| 0 <= j < s.drop_last().len() && s.drop_last()[j] == d;
                assert(s[j] == d);
            }
        };
        lemma_split_on_without_separator(s.drop_last(), d);
        assert(s.drop_last().push(s.last()) =~= s);
        assert(s[s.len() - 1] != d);
    } else {
        assert(s =~= Seq::<char>::empty());
    }
}

/// A separator at the end of a text starts a new, empty piece.
pub proof fn lemma_split_on_push_separator(p: Seq<char>, d: char)
    ensures
        split_on(p.push(d), d) == split_on(p, d).push(Seq::<char>::empty()),
{
    assert(p.push(d).drop_last() =~= p);
}

/// Appending a text without the separator extends the last piece.
pub proof fn lemma_split_on_append_piece(p: Seq<char>, y: Seq<char>, d: char)
    requires
        !y.contains(d),
    ensures
        split_on(p + y, d) == split_on(p, d).update(
            split_on(p, d).len() - 1,
            split_on(p, d).last() + y,
        ),
    decreases y.len(),
{
    lemma_split_on_nonempty(p, d);
    let sp = split_on(p, d);
    if y.len() == 0 {
        assert(p + y =~= p);
        assert(sp.last() + y =~= sp.last());
        assert(sp.update(sp.len() - 1, sp.last()) =~= sp);
    } else {
        let y0 = y.drop_last();
        assert(!y0.contains(d)) by {
            if y0.contains(d) {
                let j = choose|j: int| 0 <= j < y0.len() && y0[j] == d;
                assert(y[j] == d);
            }
        };
        lemma_split_on_append_piece(p, y0, d);
        assert((p + y).drop_last() =~= p + y0);
        assert((p + y).last() == y.last());
        assert(y[y.len() - 1] != d);
        assert((sp.last() + y0).push(y.last()) =~= sp.last() + y);
        let mid = sp.update(sp.len() - 1, sp.last() + y0);
        assert(mid.update(mid.len() - 1, mid.last().push(y.last())) =~= sp.update(
            sp.len() - 1,
            sp.last() + y,
        ));
    }
}

/// Three texts without the separator, joined by it, split back into the three.
pub proof fn lemma_split_on_three(a: Seq<char>, b: Seq<char>, c: Seq<char>, d: char)
    requires
        !a.contains(d),
        !b.contains(d),
        !c.contains(d),
    ensures
        split_on(a + seq![d] + b + seq![d] + c, d) == seq![a, b, c],
{
    let e = Seq::<char>::empty();
    lemma_split_on_without_separator(a, d);
    assert(a + seq![d] =~= a.push(d));
    lemma_split_on_push_separator(a, d);
    lemma_split_on_append_piece(a.push(d), b, d);
    assert(seq![a].push(e).update(1, e + b) =~= seq![a, b]) by {
        assert(e + b =~= b);
    };
    let ab = a.push(d) + b;
    assert(a + seq![d] + b + seq![d] =~= ab.push(d));
    lemma_split_on_push_separator(ab, d);
    lemma_split_on_append_piece(ab.push(d), c, d);
    assert(seq![a, b].push(e).update(2, e + c) =~= seq![a, b, c]) by {
        assert(e + c =~= c);
    };
}

/// A text of length `n` splits into at most `n + 1` pieces.
pub proof fn lemma_split_on_len(s: Seq<char>, d: char)
    ensures
        split_on(s, d).len() <= s.len() + 1,
    decreases s.len(),
{
    if s.len() > 0 {
        lemma_split_on_len(s.drop_last(), d);
        lemma_split_on_nonempty(s.drop_last(), d);
    }
}

/// The views of a vector of string slices.
pub open spec fn str_views(v: Seq<&str>) -> Seq<Seq<char>> {
    v.map_values(|x: &str| x@)
}

pub proof fn lemma_split_on_nonempty(s: Seq<char>, d: char)
    ensures
        split_on(s, d).len() >= 1,
    decreases s.len(),
{
    if s.len() > 0 {
        lemma_split_on_nonempty(s.drop_last(), d);
    }
}

/// Splits `s` at every occurrence of `d`.
pub fn str_split<'a>(s: &'a str, d: char) -> (r: Vec<&'a str>)
    ensures
        str_views(r@) == split_on(s@, d),
{
    let n = s.unicode_len();
    let mut done: Vec<&'a str> = Vec::new();
    let mut start: usize = 0;
    let mut i: usize = 0;
    assert(s@.take(0) =~= Seq::<char>::empty());
    assert(str_views(done@).push(s@.subrange(0, 0)) =~= seq![Seq::<char>::empty()]);
    while i < n
        invariant
            n == s@.len(),
            start <= i <= n,
            split_on(s@.take(i as int), d) == str_views(done@).push(s@.subrange(start as int, i as int)),
        decreases n - i,
    {
        let c = s.get_char(i);
        proof {
            assert(s@.take(i + 1).drop_last() =~= s@.take(i as int));
            assert(s@.take(i + 1).last() == c);
            lemma_split_on_nonempty(s@.take(i as int), d);
        }
        let ghost before = done@;
        if c == d {
            let piece = s.substring_char(start, i);
            done.push(piece);
            start = i + 1;
            assert(str_views(done@) =~= str_views(before).push(piece@));
            assert(s@.subrange(start as int, i + 1) =~= Seq::<char>::empty());
        } else {
            assert(s@.subrange(start as int, i + 1) =~= s@.subrange(start as int, i as int).push(c));
            assert(str_views(done@).push(s@.subrange(start as int, i + 1)) =~= str_views(done@).push(
                s@.subrange(start as int, i as int),
            ).update(str_views(done@).len() as int, s@.subrange(start as int, i + 1)));
        }
        i = i + 1;
    }
    let last = s.substring_char(start, n);
    done.push(last);
    assert(s@.take(n as int) =~= s@);
    assert(str_views(done@) =~= split_on(s@, d));
    done
}


/// The Unicode `White_Space` characters, which `str::trim` removes.
pub open spec fn is_white_space(c: char) -> bool {
    let v = c as u32;
    ||| 0x9 <= v <= 0xD
    ||| v == 0x20
    ||| v == 0x85
    ||| v == 0xA0
    ||| v == 0x1680
    ||| 0x2000 <= v <= 0x200A
    ||| v == 0x2028
    ||| v == 0x2029
    ||| v == 0x202F
    ||| v == 0x205F
    ||| v == 0x3000
}

pub fn char_is_white_space(c: char) -> (r: bool)
    ensures
        r == is_white_space(c),
{
    let v: u32 = c as u32;
    (0x9 <= v && v <= 0xD) || v == 0x20 || v == 0x85 || v == 0xA0 || v == 0x1680 || (0x2000 <= v
        && v <= 0x200A) || v == 0x2028 || v == 0x2029 || v == 0x202F || v == 0x205F || v == 0x3000
}

/// `s` without its leading white space.
pub open spec fn trim_start(s: Seq<char>) -> Seq<char>
    decreases s.len(),
{
    if s.len() > 0 && is_white_space(s[0]) {
        trim_start(s.drop_first())
    } else {
        s
    }
}

/// `s` without its trailing white space.
pub open spec fn trim_end(s: Seq<char>) -> Seq<char>
    decreases s.len(),
{
    if s.len() > 0 && is_white_space(s.last()) {
        trim_end(s.drop_last())
    } else {
        s
    }
}

/// `s` without leading and trailing white space.
pub open spec fn trim(s: Seq<char>) -> Seq<char> {
    trim_end(trim_start(s))
}

/// A text that neither begins nor ends with white space is its own trimmed form.
pub proof fn lemma_trim_unchanged(s: Seq<char>)
    requires
        s.len() > 0 ==> !is_white_space(s[0]) && !is_white_space(s.last()),
    ensures
        trim(s) == s,
{
}

/// The characters of the Unicode `White_Space` property, which
/// `char::is_whitespace` accepts: tab, line feed, vertical tab, form feed,
/// carriage return, space, next line, no-break space, ogham space mark, the
/// spaces from en quad to hair space, line and paragraph separators, narrow
/// no-break space, medium mathematical space and ideographic space.
pub open spec fn unicode_white_space(c: char) -> bool {
    let v = c as u32;
    ||| v == 0x09 || v == 0x0A || v == 0x0B || v == 0x0C || v == 0x0D
    ||| v == 0x20 || v == 0x85 || v == 0xA0 || v == 0x1680
    ||| v == 0x2000 || v == 0x2001 || v == 0x2002 || v == 0x2003 || v == 0x2004 || v == 0x2005
    ||| v == 0x2006 || v == 0x2007 || v == 0x2008 || v == 0x2009 || v == 0x200A
    ||| v == 0x2028 || v == 0x2029 || v == 0x202F || v == 0x205F || v == 0x3000
}

proof fn lemma_trim_start_push(s: Seq<char>, c: char)
    requires
        is_white_space(c),
    ensures
        trim_start(s.push(c)) == (if trim_start(s).len() == 0 {
            Seq::<char>::empty()
        } else {
            trim_start(s).push(c)
        }),
    decreases s.len(),
{
    let e = Seq::<char>::empty();
    assert(trim_start(e) == e);
    if s.len() == 0 {
        assert(s.push(c).drop_first() =~= e);
        assert(trim_start(s.push(c)) == trim_start(e));
    } else {
        assert(s.push(c)[0] == s[0]);
        if is_white_space(s[0]) {
            assert(s.push(c).drop_first() =~= s.drop_first().push(c));
            lemma_trim_start_push(s.drop_first(), c);
        }
    }
}

/// Trimming takes off every white space character, as `str::trim` does: a
/// white space character before or after a text leaves its trimmed form
/// unchanged.
pub proof fn lemma_trim_ignores_white_space(s: Seq<char>, c: char)
    requires
        unicode_white_space(c),
    ensures
        trim(s.push(c)) == trim(s),
        trim(seq![c] + s) == trim(s),
        trim(seq![c]).len() == 0,
{
    lemma_trim_start_push(s, c);
    let ts = trim_start(s);
    if ts.len() > 0 {
        assert(ts.push(c).drop_last() =~= ts);
    }
    assert((seq![c] + s)[0] == c);
    assert((seq![c] + s).drop_first() =~= s);
    let e = Seq::<char>::empty();
    assert(seq![c].drop_first() =~= e);
    assert(trim_start(e) == e);
    assert(trim_start(seq![c]) == e);
    assert(trim_end(e) == e);
}

/// Removes leading and trailing white space.
pub fn str_trim<'a>(s: &'a str) -> (r: &'a str)
    ensures
        r@ == trim(s@),
{
    let n = s.unicode_len();
    let mut i: usize = 0;
    assert(s@.skip(0) =~= s@);
    while i < n && char_is_white_space(s.get_char(i))
        invariant
            n == s@.len(),
            i <= n,
            trim_start(s@) == trim_start(s@.skip(i as int)),
        decreases n - i,
    {
        assert(s@.skip(i as int).drop_first() =~= s@.skip(i + 1));
        i = i + 1;
    }
    assert(trim_start(s@) == s@.subrange(i as int, n as int)) by {
        assert(s@.skip(i as int) =~= s@.subrange(i as int, n as int));
    }
    let mut j: usize = n;
    while j > i && char_is_white_space(s.get_char(j - 1))
        invariant
            n == s@.len(),
            i <= j <= n,
            trim(s@) == trim_end(s@.subrange(i as int, j as int)),
        decreases j,
    {
        assert(s@.subrange(i as int, j as int).drop_last() =~= s@.subrange(i as int, j - 1));
        j = j - 1;
    }
    s.substring_char(i, j)
}


/// Appends one character to a `String` (`String::push`).
#[verifier::external_body]
pub(crate) fn push_char(s: &mut String, c: char)
    ensures
        final(s)@ == old(s)@.push(c),
{
    s.push(c);
}

/// Whether two texts are equal.
pub(crate) fn str_eq(a: &str, b: &str) -> (r: bool)
    ensures
        r == (a@ == b@),
{
    let n = a.unicode_len();
    if n != b.unicode_len() {
        return false;
    }
    let mut i: usize = 0;
    while i < n
        invariant
            n == a@.len(),
            n == b@.len(),
            i <= n,
            forall|j: int| 0 <= j < i ==> #[trigger] a@[j] == b@[j],
        decreases n - i,
    {
        if a.get_char(i) != b.get_char(i) {
            return false;
        }
        i = i + 1;
    }
    assert(a@ =~= b@);
    true
}

} // verus!
