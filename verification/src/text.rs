//! Character-level string operations, each stated over `Seq<char>`.
use vstd::prelude::*;

verus! {

/// Appends one character to a `String` (std `String::push`).
#[verifier::external_body]
pub(crate) fn push_char(s: &mut String, c: char)
    ensures
        final(s)@ == old(s)@.push(c),
{
    s.push(c);
}

/// The characters of a string slice, in order.
pub fn chars_of(s: &str) -> (v: Vec<char>)
    ensures
        v@ == s@,
{
    let mut v: Vec<char> = Vec::new();
    for c in it: s.chars()
        invariant
            v@ == it.seq().take(it.index() as int),
    {
        v.push(c);
    }
    v
}

/// A `String` holding exactly the given characters.
pub fn string_of(v: &Vec<char>) -> (s: String)
    ensures
        s@ == v@,
{
    let mut s = String::new();
    let mut i: usize = 0;
    while i < v.len()
        invariant
            i <= v.len(),
            s@ == v@.take(i as int),
        decreases v.len() - i,
    {
        push_char(&mut s, v[i]);
        assert(v@.take(i + 1) == v@.take(i as int).push(v@[i as int]));
        i = i + 1;
    }
    assert(v@.take(v.len() as int) == v@);
    s
}

/// Appends all characters of `src` to `dst`.
pub fn extend_chars(dst: &mut Vec<char>, src: &Vec<char>)
    ensures
        final(dst)@ == old(dst)@ + src@,
{
    let mut i: usize = 0;
    while i < src.len()
        invariant
            i <= src.len(),
            dst@ == old(dst)@ + src@.take(i as int),
        decreases src.len() - i,
    {
        dst.push(src[i]);
        assert(src@.take(i + 1) == src@.take(i as int).push(src@[i as int]));
        i = i + 1;
    }
    assert(src@.take(src.len() as int) == src@);
}

/// Appends the characters of a string slice to `dst`.
pub fn extend_str(dst: &mut Vec<char>, src: &str)
    ensures
        final(dst)@ == old(dst)@ + src@,
{
    let v = chars_of(src);
    extend_chars(dst, &v);
}

/// Unicode `White_Space`, the set that `char::is_whitespace` and `str::trim` use.
pub open spec fn is_ws(c: char) -> bool {
    let u = c as u32;
    ||| 0x09 <= u <= 0x0d
    ||| u == 0x20
    ||| u == 0x85
    ||| u == 0xa0
    ||| u == 0x1680
    ||| 0x2000 <= u <= 0x200a
    ||| u == 0x2028
    ||| u == 0x2029
    ||| u == 0x202f
    ||| u == 0x205f
    ||| u == 0x3000
}

pub fn is_whitespace(c: char) -> (r: bool)
    ensures
        r == is_ws(c),
{
    let u = c as u32;
    (0x09 <= u && u <= 0x0d) || u == 0x20 || u == 0x85 || u == 0xa0 || u == 0x1680 || (0x2000
        <= u && u <= 0x200a) || u == 0x2028 || u == 0x2029 || u == 0x202f || u == 0x205f || u
        == 0x3000
}

/// `s` without its leading whitespace.
pub open spec fn trim_start(s: Seq<char>) -> Seq<char>
    decreases s.len(),
{
    if s.len() > 0 && is_ws(s[0]) {
        trim_start(s.drop_first())
    } else {
        s
    }
}

/// `s` without its trailing whitespace.
pub open spec fn trim_end(s: Seq<char>) -> Seq<char>
    decreases s.len(),
{
    if s.len() > 0 && is_ws(s.last()) {
        trim_end(s.drop_last())
    } else {
        s
    }
}

/// `s` without leading and trailing whitespace (`str::trim`).
pub open spec fn trim(s: Seq<char>) -> Seq<char> {
    trim_end(trim_start(s))
}

/// `s` without trailing occurrences of `c` (`str::trim_end_matches` with a char).
pub open spec fn trim_end_char(s: Seq<char>, c: char) -> Seq<char>
    decreases s.len(),
{
    if s.len() > 0 && s.last() == c {
        trim_end_char(s.drop_last(), c)
    } else {
        s
    }
}

/// `s` without leading occurrences of `c` (`str::trim_start_matches` with a char).
pub open spec fn trim_start_char(s: Seq<char>, c: char) -> Seq<char>
    decreases s.len(),
{
    if s.len() > 0 && s[0] == c {
        trim_start_char(s.drop_first(), c)
    } else {
        s
    }
}

pub open spec fn starts_with(s: Seq<char>, p: Seq<char>) -> bool {
    p.len() <= s.len() && s.take(p.len() as int) == p
}

pub fn trim_end_ws_range(s: &Vec<char>, start: usize) -> (end: usize)
    requires
        start <= s.len(),
    ensures
        start <= end <= s.len(),
        trim_end(s@.subrange(start as int, s.len() as int)) == s@.subrange(
            start as int,
            end as int,
        ),
{
    let mut j = s.len();
    while j > start && is_whitespace(s[j - 1])
        invariant
            start <= j <= s.len(),
            trim_end(s@.subrange(start as int, s.len() as int)) == trim_end(
                s@.subrange(start as int, j as int),
            ),
        decreases j,
    {
        assert(s@.subrange(start as int, j as int).drop_last() == s@.subrange(
            start as int,
            j - 1,
        ));
        j = j - 1;
    }
    j
}

/// The characters of `s` with surrounding whitespace removed (`str::trim`).
pub fn trim_chars(s: &Vec<char>) -> (r: Vec<char>)
    ensures
        r@ == trim(s@),
{
    let mut i: usize = 0;
    assert(s@.subrange(0, s.len() as int) == s@);
    while i < s.len() && is_whitespace(s[i])
        invariant
            i <= s.len(),
            trim_start(s@) == trim_start(s@.subrange(i as int, s.len() as int)),
        decreases s.len() - i,
    {
        assert(s@.subrange(i as int, s.len() as int).drop_first() == s@.subrange(
            i + 1,
            s.len() as int,
        ));
        i = i + 1;
    }
    assert(trim_start(s@) == s@.subrange(i as int, s.len() as int));
    let j = trim_end_ws_range(s, i);
    slice_to_vec(s, i, j)
}

/// The characters of `s` with trailing whitespace removed (`str::trim_end`).
pub fn trim_end_chars(s: &Vec<char>) -> (r: Vec<char>)
    ensures
        r@ == trim_end(s@),
{
    let j = trim_end_ws_range(s, 0);
    assert(s@.subrange(0, s.len() as int) == s@);
    slice_to_vec(s, 0, j)
}

/// A copy of `s[from..to]`.
pub fn slice_to_vec(s: &Vec<char>, from: usize, to: usize) -> (r: Vec<char>)
    requires
        from <= to <= s.len(),
    ensures
        r@ == s@.subrange(from as int, to as int),
{
    let mut r: Vec<char> = Vec::new();
    let mut k = from;
    while k < to
        invariant
            from <= k <= to <= s.len(),
            r@ == s@.subrange(from as int, k as int),
        decreases to - k,
    {
        r.push(s[k]);
        assert(s@.subrange(from as int, k + 1) == s@.subrange(from as int, k as int).push(
            s@[k as int],
        ));
        k = k + 1;
    }
    r
}

/// `s` without trailing occurrences of `c`.
pub fn trim_end_char_chars(s: &Vec<char>, c: char) -> (r: Vec<char>)
    ensures
        r@ == trim_end_char(s@, c),
{
    let mut j = s.len();
    assert(s@.take(s.len() as int) == s@);
    while j > 0 && s[j - 1] == c
        invariant
            j <= s.len(),
            trim_end_char(s@, c) == trim_end_char(s@.take(j as int), c),
        decreases j,
    {
        assert(s@.take(j as int).drop_last() == s@.take(j - 1));
        j = j - 1;
    }
    assert(trim_end_char(s@.take(j as int), c) == s@.take(j as int));
    slice_to_vec(s, 0, j)
}

/// `s` without leading occurrences of `c`.
pub fn trim_start_char_chars(s: &Vec<char>, c: char) -> (r: Vec<char>)
    ensures
        r@ == trim_start_char(s@, c),
{
    let mut i: usize = 0;
    assert(s@.skip(0) == s@);
    while i < s.len() && s[i] == c
        invariant
            i <= s.len(),
            trim_start_char(s@, c) == trim_start_char(s@.skip(i as int), c),
        decreases s.len() - i,
    {
        assert(s@.skip(i as int).drop_first() == s@.skip(i + 1));
        i = i + 1;
    }
    slice_to_vec(s, i, s.len())
}

/// Whether `s` begins with `p`.
pub fn starts_with_chars(s: &Vec<char>, p: &Vec<char>) -> (r: bool)
    ensures
        r == starts_with(s@, p@),
{
    if p.len() > s.len() {
        return false;
    }
    matches_at(s, 0, p)
}

/// Whether `p` occurs in `s` at position `i`.
pub fn matches_at(s: &Vec<char>, i: usize, p: &Vec<char>) -> (r: bool)
    requires
        i + p.len() <= s.len(),
    ensures
        r == (s@.subrange(i as int, i + p.len()) == p@),
        r == (s@.skip(i as int).take(p.len() as int) == p@),
{
    assert(s@.skip(i as int).take(p.len() as int) == s@.subrange(i as int, i + p.len()));
    let mut k: usize = 0;
    while k < p.len()
        invariant
            k <= p.len(),
            i + p.len() <= s.len(),
            forall|m: int| 0 <= m < k ==> s@[i + m] == p@[m],
        decreases p.len() - k,
    {
        if s[i + k] != p[k] {
            assert(s@.subrange(i as int, i + p.len())[k as int] != p@[k as int]);
            return false;
        }
        k = k + 1;
    }
    assert(s@.subrange(i as int, i + p.len()) == p@);
    true
}


/// Every non-overlapping occurrence of `p` in `s`, scanned from the left,
/// replaced by `r` (`str::replace`).
pub open spec fn replace_all(s: Seq<char>, p: Seq<char>, r: Seq<char>) -> Seq<char>
    decreases s.len(),
{
    if s.len() == 0 {
        s
    } else if p.len() > 0 && starts_with(s, p) {
        r + replace_all(s.skip(p.len() as int), p, r)
    } else {
        seq![s[0]] + replace_all(s.drop_first(), p, r)
    }
}

/// `s` with every occurrence of `p` replaced by `r`.
pub fn replace_chars(s: &Vec<char>, p: &Vec<char>, r: &Vec<char>) -> (out: Vec<char>)
    requires
        p.len() > 0,
    ensures
        out@ == replace_all(s@, p@, r@),
{
    let mut out: Vec<char> = Vec::new();
    let mut i: usize = 0;
    assert(s@.skip(0) == s@);
    while i < s.len()
        invariant
            i <= s.len(),
            p.len() > 0,
            out@ + replace_all(s@.skip(i as int), p@, r@) == replace_all(s@, p@, r@),
        decreases s.len() - i,
    {
        let ghost rest = s@.skip(i as int);
        if p.len() <= s.len() - i && matches_at(s, i, p) {
            assert(starts_with(rest, p@));
            assert(rest.skip(p.len() as int) == s@.skip(i + p.len()));
            let ghost before = out@;
            extend_chars(&mut out, r);
            assert(before + (r@ + replace_all(s@.skip(i + p.len()), p@, r@)) == out@
                + replace_all(s@.skip(i + p.len()), p@, r@));
            i = i + p.len();
        } else {
            assert(!starts_with(rest, p@)) by {
                if p.len() <= rest.len() {
                    assert(rest.take(p.len() as int) == s@.skip(i as int).take(p.len() as int));
                }
            }
            assert(rest.drop_first() == s@.skip(i + 1));
            assert(rest[0] == s@[i as int]);
            let ghost before = out@;
            out.push(s[i]);
            assert(before + (seq![s@[i as int]] + replace_all(s@.skip(i + 1), p@, r@)) == out@
                + replace_all(s@.skip(i + 1), p@, r@));
            i = i + 1;
        }
    }
    assert(s@.skip(s.len() as int).len() == 0);
    assert(out@ + replace_all(s@.skip(i as int), p@, r@) == out@);
    out
}

/// `s` with every occurrence of the string `p` replaced by the string `r`.
pub fn replace_str(s: &Vec<char>, p: &str, r: &str) -> (out: Vec<char>)
    requires
        p@.len() > 0,
    ensures
        out@ == replace_all(s@, p@, r@),
{
    let pv = chars_of(p);
    let rv = chars_of(r);
    replace_chars(s, &pv, &rv)
}

/// The pieces of `s` between occurrences of `sep` (`str::split` with a char);
/// there is always at least one piece.
pub open spec fn split_on(s: Seq<char>, sep: char) -> Seq<Seq<char>>
    decreases s.len(),
{
    if s.len() == 0 {
        seq![Seq::<char>::empty()]
    } else {
        let init = split_on(s.drop_last(), sep);
        if s.last() == sep {
            init.push(Seq::<char>::empty())
        } else {
            init.update(init.len() - 1, init.last().push(s.last()))
        }
    }
}

pub proof fn lemma_split_on_nonempty(s: Seq<char>, sep: char)
    ensures
        split_on(s, sep).len() >= 1,
    decreases s.len(),
{
    if s.len() > 0 {
        lemma_split_on_nonempty(s.drop_last(), sep);
    }
}

/// `c` does not occur in `s`.
pub open spec fn free_of(s: Seq<char>, c: char) -> bool {
    forall|i: int| 0 <= i < s.len() ==> #[trigger] s[i] != c
}

/// No piece of a split holds the separator.
pub proof fn lemma_split_pieces_free(s: Seq<char>, sep: char)
    ensures
        forall|k: int|
            0 <= k < split_on(s, sep).len() ==> free_of(#[trigger] split_on(s, sep)[k], sep),
    decreases s.len(),
{
    if s.len() > 0 {
        lemma_split_pieces_free(s.drop_last(), sep);
        lemma_split_on_nonempty(s.drop_last(), sep);
        let init = split_on(s.drop_last(), sep);
        if s.last() != sep {
            let l = init.last().push(s.last());
            assert(free_of(l, sep)) by {
                assert forall|i: int| 0 <= i < l.len() implies #[trigger] l[i] != sep by {
                    if i < l.len() - 1 {
                        assert(free_of(init[init.len() - 1], sep));
                    }
                }
            }
        }
    }
}

/// Appending text without the separator extends the last piece.
proof fn lemma_split_append_free(a: Seq<char>, b: Seq<char>, sep: char)
    requires
        free_of(b, sep),
    ensures
        split_on(a + b, sep) == split_on(a, sep).update(
            split_on(a, sep).len() - 1,
            split_on(a, sep).last() + b,
        ),
    decreases b.len(),
{
    lemma_split_on_nonempty(a, sep);
    let sa = split_on(a, sep);
    if b.len() == 0 {
        assert(a + b =~= a);
        assert(sa.last() + b =~= sa.last());
        assert(sa.update(sa.len() - 1, sa.last()) =~= sa);
    } else {
        let b1 = b.drop_last();
        assert(free_of(b1, sep)) by {
            assert forall|i: int| 0 <= i < b1.len() implies #[trigger] b1[i] != sep by {
                assert(b1[i] == b[i]);
            }
        }
        lemma_split_append_free(a, b1, sep);
        assert((a + b).drop_last() =~= a + b1);
        assert((a + b).last() == b.last());
        assert(b[b.len() - 1] != sep);
        let init = split_on(a + b1, sep);
        assert(init.last() == sa.last() + b1);
        assert((sa.last() + b1).push(b.last()) =~= sa.last() + b);
        assert(init.update(init.len() - 1, init.last().push(b.last())) =~= sa.update(
            sa.len() - 1,
            sa.last() + b,
        ));
    }
}

/// Splitting joined pieces that do not hold the separator gives the
/// pieces back.
pub proof fn lemma_split_join(list: Seq<Seq<char>>, sep: char)
    requires
        list.len() >= 1,
        forall|k: int| 0 <= k < list.len() ==> free_of(#[trigger] list[k], sep),
    ensures
        split_on(join(list, seq![sep]), sep) == list,
    decreases list.len(),
{
    if list.len() == 1 {
        assert(free_of(list[0], sep));
        lemma_split_append_free(Seq::<char>::empty(), list[0], sep);
        assert(Seq::<char>::empty() + list[0] =~= list[0]);
        assert(split_on(Seq::<char>::empty(), sep) =~= seq![Seq::<char>::empty()]);
        assert(seq![Seq::<char>::empty()].update(0, Seq::<char>::empty() + list[0]) =~= list);
    } else {
        let init = list.drop_last();
        lemma_split_join(init, sep);
        let a = join(init, seq![sep]) + seq![sep];
        assert(a.drop_last() =~= join(init, seq![sep]));
        assert(a.last() == sep);
        assert(split_on(a, sep) == init.push(Seq::<char>::empty()));
        assert(free_of(list.last(), sep));
        lemma_split_append_free(a, list.last(), sep);
        assert(join(list, seq![sep]) == a + list.last());
        assert(init.push(Seq::<char>::empty()).update(
            init.len() as int,
            Seq::<char>::empty() + list.last(),
        ) =~= list);
    }
}

/// The pieces of `s` between occurrences of `sep`.
pub fn split_chars(s: &Vec<char>, sep: char) -> (parts: Vec<Vec<char>>)
    ensures
        parts@.len() >= 1,
        parts@.map_values(|v: Vec<char>| v@) == split_on(s@, sep),
{
    let mut parts: Vec<Vec<char>> = Vec::new();
    let mut cur: Vec<char> = Vec::new();
    let mut i: usize = 0;
    assert(s@.take(0) == Seq::<char>::empty());
    while i < s.len()
        invariant
            i <= s.len(),
            parts@.map_values(|v: Vec<char>| v@).push(cur@) == split_on(s@.take(i as int), sep),
        decreases s.len() - i,
    {
        let ghost prefix = s@.take(i as int);
        assert(s@.take(i + 1).drop_last() == prefix);
        assert(s@.take(i + 1).last() == s@[i as int]);
        proof {
            lemma_split_on_nonempty(prefix, sep);
        }
        if s[i] == sep {
            let done = cur;
            parts.push(done);
            cur = Vec::new();
            assert(parts@.map_values(|v: Vec<char>| v@) == split_on(prefix, sep));
        } else {
            let ghost old_parts = parts@.map_values(|v: Vec<char>| v@);
            cur.push(s[i]);
            assert(parts@.map_values(|v: Vec<char>| v@).push(cur@) == split_on(prefix, sep).update(
                split_on(prefix, sep).len() - 1,
                split_on(prefix, sep).last().push(s@[i as int]),
            ));
        }
        i = i + 1;
    }
    assert(s@.take(s.len() as int) == s@);
    parts.push(cur);
    parts
}

/// The pieces of `list` joined with `sep` between consecutive pieces.
pub open spec fn join(list: Seq<Seq<char>>, sep: Seq<char>) -> Seq<char>
    decreases list.len(),
{
    if list.len() == 0 {
        Seq::<char>::empty()
    } else if list.len() == 1 {
        list[0]
    } else {
        join(list.drop_last(), sep) + sep + list.last()
    }
}

/// The pieces of `list` joined with `sep`.
pub fn join_chars(list: &Vec<Vec<char>>, sep: &Vec<char>) -> (out: Vec<char>)
    ensures
        out@ == join(list@.map_values(|v: Vec<char>| v@), sep@),
{
    let ghost view = list@.map_values(|v: Vec<char>| v@);
    let mut out: Vec<char> = Vec::new();
    let mut i: usize = 0;
    while i < list.len()
        invariant
            i <= list.len(),
            view == list@.map_values(|v: Vec<char>| v@),
            out@ == join(view.take(i as int), sep@),
        decreases list.len() - i,
    {
        assert(view.take(i + 1).drop_last() == view.take(i as int));
        assert(view.take(i + 1).last() == list@[i as int]@);
        if i > 0 {
            extend_chars(&mut out, sep);
        } else {
            assert(view.take(1) == seq![view[0]]);
        }
        extend_chars(&mut out, &list[i]);
        i = i + 1;
    }
    assert(view.take(list.len() as int) == view);
    out
}

/// The non-empty pieces of `list`, in order.
pub open spec fn non_empty_pieces(list: Seq<Seq<char>>) -> Seq<Seq<char>>
    decreases list.len(),
{
    if list.len() == 0 {
        list
    } else {
        let init = non_empty_pieces(list.drop_last());
        if list.last().len() > 0 {
            init.push(list.last())
        } else {
            init
        }
    }
}

pub open spec fn is_ascii_lower(c: char) -> bool {
    'a' <= c <= 'z'
}

pub open spec fn is_ascii_upper(c: char) -> bool {
    'A' <= c <= 'Z'
}

pub open spec fn is_ascii_digit(c: char) -> bool {
    '0' <= c <= '9'
}

/// `char::is_ascii_alphanumeric`.
pub open spec fn is_ascii_alnum(c: char) -> bool {
    is_ascii_lower(c) || is_ascii_upper(c) || is_ascii_digit(c)
}

/// `char::is_ascii_hexdigit`.
pub open spec fn is_ascii_hex(c: char) -> bool {
    is_ascii_digit(c) || 'a' <= c <= 'f' || 'A' <= c <= 'F'
}

/// `char::to_ascii_uppercase`.
pub open spec fn ascii_upper(c: char) -> char {
    if is_ascii_lower(c) {
        ((c as u32) - 32) as char
    } else {
        c
    }
}

/// `char::to_ascii_lowercase`.
pub open spec fn ascii_lower(c: char) -> char {
    if is_ascii_upper(c) {
        ((c as u32) + 32) as char
    } else {
        c
    }
}

pub fn is_ascii_alphanumeric(c: char) -> (r: bool)
    ensures
        r == is_ascii_alnum(c),
{
    ('a' <= c && c <= 'z') || ('A' <= c && c <= 'Z') || ('0' <= c && c <= '9')
}

pub fn is_ascii_hexdigit(c: char) -> (r: bool)
    ensures
        r == is_ascii_hex(c),
{
    ('0' <= c && c <= '9') || ('a' <= c && c <= 'f') || ('A' <= c && c <= 'F')
}

pub fn to_ascii_uppercase(c: char) -> (r: char)
    ensures
        r == ascii_upper(c),
{
    if 'a' <= c && c <= 'z' {
        let u = (c as u32) - 32;
        assert(0x41 <= u <= 0x5a);
        char_from_ascii(u)
    } else {
        c
    }
}

pub fn to_ascii_lowercase(c: char) -> (r: char)
    ensures
        r == ascii_lower(c),
{
    if 'A' <= c && c <= 'Z' {
        let u = (c as u32) + 32;
        char_from_ascii(u)
    } else {
        c
    }
}

/// The character with an ASCII code point.
fn char_from_ascii(u: u32) -> (c: char)
    requires
        u < 128,
    ensures
        c == u as char,
        c as u32 == u,
{
    let b = u as u8;
    b as char
}

/// Every character of `s` lowered to ASCII lower case (`str::to_ascii_lowercase`).
pub open spec fn ascii_lowercase(s: Seq<char>) -> Seq<char> {
    s.map_values(|c: char| ascii_lower(c))
}

pub fn to_ascii_lowercase_chars(s: &Vec<char>) -> (r: Vec<char>)
    ensures
        r@ == ascii_lowercase(s@),
{
    let mut r: Vec<char> = Vec::new();
    let mut i: usize = 0;
    while i < s.len()
        invariant
            i <= s.len(),
            r@ == ascii_lowercase(s@.take(i as int)),
        decreases s.len() - i,
    {
        r.push(to_ascii_lowercase(s[i]));
        assert(ascii_lowercase(s@.take(i + 1)) == ascii_lowercase(s@.take(i as int)).push(
            ascii_lower(s@[i as int]),
        ));
        i = i + 1;
    }
    assert(s@.take(s.len() as int) == s@);
    r
}

/// The decimal digits of a natural number.
pub open spec fn nat_text(n: nat) -> Seq<char>
    decreases n,
{
    if n < 10 {
        seq![(('0' as u32) + n) as char]
    } else {
        nat_text(n / 10) + seq![(('0' as u32) + (n % 10)) as char]
    }
}

/// The decimal text of an integer, with a leading `-` when negative.
pub open spec fn int_text(n: int) -> Seq<char> {
    if n < 0 {
        seq!['-'] + nat_text((-n) as nat)
    } else {
        nat_text(n as nat)
    }
}

/// The decimal digits of a natural number below 2^64.
pub fn u64_text(n: u64) -> (r: Vec<char>)
    ensures
        r@ == nat_text(n as nat),
    decreases n,
{
    let digit = char_from_ascii(48 + (n % 10) as u32);
    if n < 10 {
        let mut r: Vec<char> = Vec::new();
        r.push(digit);
        assert(r@ == seq![digit]);
        r
    } else {
        let mut r = u64_text(n / 10);
        r.push(digit);
        r
    }
}

/// The decimal text of an integer, as `ToString` writes it.
pub fn i64_text(n: i64) -> (r: Vec<char>)
    ensures
        r@ == int_text(n as int),
{
    if n < 0 {
        let m: u64 = (0i128 - n as i128) as u64;
        let digits = u64_text(m);
        let mut r: Vec<char> = Vec::new();
        r.push('-');
        extend_chars(&mut r, &digits);
        assert(r@ =~= seq!['-'] + nat_text((-n) as nat));
        r
    } else {
        u64_text(n as u64)
    }
}

/// Whether two character sequences are equal.
pub fn chars_eq(a: &Vec<char>, b: &Vec<char>) -> (r: bool)
    ensures
        r == (a@ == b@),
{
    if a.len() != b.len() {
        return false;
    }
    let mut k: usize = 0;
    while k < a.len()
        invariant
            k <= a.len(),
            a.len() == b.len(),
            forall|m: int| 0 <= m < k ==> a@[m] == b@[m],
        decreases a.len() - k,
    {
        if a[k] != b[k] {
            return false;
        }
        k = k + 1;
    }
    assert(a@ == b@);
    true
}

/// Whether the characters `a` spell the string `b`.
pub fn chars_eq_str(a: &Vec<char>, b: &str) -> (r: bool)
    ensures
        r == (a@ == b@),
{
    let bv = chars_of(b);
    chars_eq(a, &bv)
}

/// The offset at which `trim_start` begins.
pub proof fn trim_start_offset(s: Seq<char>) -> (k: int)
    ensures
        0 <= k <= s.len(),
        trim_start(s) == s.subrange(k, s.len() as int),
    decreases s.len(),
{
    if s.len() > 0 && is_ws(s[0]) {
        let k = trim_start_offset(s.drop_first());
        assert(s.drop_first().subrange(k, s.len() - 1) == s.subrange(k + 1, s.len() as int));
        k + 1
    } else {
        assert(s.subrange(0, s.len() as int) == s);
        0
    }
}

/// The length that `trim_end` keeps.
pub proof fn trim_end_length(s: Seq<char>) -> (k: int)
    ensures
        0 <= k <= s.len(),
        trim_end(s) == s.subrange(0, k),
    decreases s.len(),
{
    if s.len() > 0 && is_ws(s.last()) {
        let k = trim_end_length(s.drop_last());
        assert(s.drop_last().subrange(0, k) == s.subrange(0, k));
        k
    } else {
        assert(s.subrange(0, s.len() as int) == s);
        s.len() as int
    }
}

/// Trimmed text is a contiguous piece of the text it was cut from.
pub proof fn trim_bounds(s: Seq<char>) -> (r: (int, int))
    ensures
        0 <= r.0 <= r.1 <= s.len(),
        trim(s) == s.subrange(r.0, r.1),
{
    let a = trim_start_offset(s);
    let t = s.subrange(a, s.len() as int);
    let k = trim_end_length(t);
    assert(t.subrange(0, k) == s.subrange(a, a + k));
    (a, a + k)
}

/// Trimming twice is trimming once.
pub proof fn lemma_trim_idempotent(s: Seq<char>)
    ensures
        trim(trim(s)) == trim(s),
{
    let t = trim(s);
    if t.len() > 0 {
        assert(!is_ws(t[0]) && !is_ws(t.last())) by {
            lemma_trim_ends(s);
        }
    }
    lemma_trim_fixed(t);
}

proof fn lemma_trim_start_fixed(s: Seq<char>)
    requires
        s.len() == 0 || !is_ws(s[0]),
    ensures
        trim_start(s) == s,
{
}

proof fn lemma_trim_end_fixed(s: Seq<char>)
    requires
        s.len() == 0 || !is_ws(s.last()),
    ensures
        trim_end(s) == s,
{
}

pub proof fn lemma_trim_fixed(t: Seq<char>)
    requires
        t.len() == 0 || (!is_ws(t[0]) && !is_ws(t.last())),
    ensures
        trim(t) == t,
{
    lemma_trim_start_fixed(t);
    lemma_trim_end_fixed(t);
}

proof fn lemma_trim_start_ends(s: Seq<char>)
    ensures
        trim_start(s).len() == 0 || !is_ws(trim_start(s)[0]),
    decreases s.len(),
{
    if s.len() > 0 && is_ws(s[0]) {
        lemma_trim_start_ends(s.drop_first());
    }
}

proof fn lemma_trim_end_ends(s: Seq<char>)
    ensures
        trim_end(s).len() == 0 || !is_ws(trim_end(s).last()),
        s.len() == 0 || !is_ws(s[0]) ==> (trim_end(s).len() == 0
            || trim_end(s)[0] == s[0]),
    decreases s.len(),
{
    if s.len() > 0 && is_ws(s.last()) {
        lemma_trim_end_ends(s.drop_last());
    }
}

/// A trimmed text neither starts nor ends with whitespace.
pub proof fn lemma_trim_ends(s: Seq<char>)
    ensures
        trim(s).len() == 0 || (!is_ws(trim(s)[0]) && !is_ws(
            trim(s).last(),
        )),
{
    lemma_trim_start_ends(s);
    lemma_trim_end_ends(trim_start(s));
}

} // verus!
