//! Character-level text handling shared by the parsers of this crate.
//!
//! Strings are processed as sequences of `char`s; every operation here is
//! specified over `Seq<char>` so that callers can state their own contracts
//! in the same terms.

use vstd::prelude::*;

verus! {

// ---------------------------------------------------------------------------
// Conversions between `str`/`String` and character vectors
// ---------------------------------------------------------------------------

/// The characters of `s`, in order.
pub fn chars_of(s: &str) -> (r: Vec<char>)
    ensures
        r@ == s@,
{
    let mut r: Vec<char> = Vec::new();
    for c in it: s.chars()
        invariant
            r@ == it.seq().take(it.index() as int),
            it.seq() == s@,
    {
        r.push(c);
    }
    r
}

/// `String::push`: appends one character to the end of the string.
#[verifier::external_body]
fn push_char(s: &mut String, c: char)
    ensures
        final(s)@ == old(s)@.push(c),
{
    s.push(c)
}

/// A `String` holding exactly the characters of `v`.
pub fn string_of(v: &[char]) -> (r: String)
    ensures
        r@ == v@,
{
    let mut r = String::new();
    let mut i: usize = 0;
    while i < v.len()
        invariant
            i <= v@.len(),
            r@ == v@.take(i as int),
        decreases v@.len() - i,
    {
        push_char(&mut r, v[i]);
        assert(v@.take(i + 1) =~= v@.take(i as int).push(v@[i as int]));
        i = i + 1;
    }
    assert(v@.take(i as int) =~= v@);
    r
}

/// The characters of `s`, as an owned `String`.
pub fn to_string(s: &str) -> (r: String)
    ensures
        r@ == s@,
{
    let v = chars_of(s);
    string_of(v.as_slice())
}

// ---------------------------------------------------------------------------
// Prefixes, equality
// ---------------------------------------------------------------------------

/// `s` begins with `p`.
pub open spec fn has_prefix(s: Seq<char>, p: Seq<char>) -> bool {
    p.len() <= s.len() && s.take(p.len() as int) == p
}

/// `s` ends with `p`.
pub open spec fn has_suffix(s: Seq<char>, p: Seq<char>) -> bool {
    p.len() <= s.len() && s.skip(s.len() - p.len()) == p
}

/// Whether `s[from..]` begins with `p`.
pub fn starts_with_at(s: &[char], from: usize, p: &[char]) -> (r: bool)
    requires
        from <= s@.len(),
    ensures
        r == has_prefix(s@.skip(from as int), p@),
{
    if s.len() - from < p.len() {
        return false;
    }
    let mut i: usize = 0;
    while i < p.len()
        invariant
            s@.len() <= usize::MAX,
            from <= s@.len(),
            p@.len() <= s@.len() - from,
            i <= p@.len(),
            forall|j: int| 0 <= j < i ==> s@[from + j] == p@[j],
        decreases p@.len() - i,
    {
        if s[from + i] != p[i] {
            assert(s@.skip(from as int).take(p@.len() as int)[i as int] != p@[i as int]);
            return false;
        }
        i = i + 1;
    }
    assert(s@.skip(from as int).take(p@.len() as int) =~= p@);
    true
}

/// Whether the two character slices are equal.
pub fn chars_eq(a: &[char], b: &[char]) -> (r: bool)
    ensures
        r == (a@ == b@),
{
    if a.len() != b.len() {
        return false;
    }
    let r = starts_with_at(a, 0, b);
    assert(a@.skip(0) =~= a@);
    assert(a@.take(b@.len() as int) =~= a@);
    r
}

/// Whether the characters of `a` spell the string `b`.
pub fn chars_eq_str(a: &[char], b: &str) -> (r: bool)
    ensures
        r == (a@ == b@),
{
    let bv = chars_of(b);
    chars_eq(a, bv.as_slice())
}

/// `s` without its first `p.len()` characters when it begins with `p`.
pub open spec fn strip_prefix_spec(s: Seq<char>, p: Seq<char>) -> Option<Seq<char>> {
    if has_prefix(s, p) {
        Some(s.skip(p.len() as int))
    } else {
        None
    }
}

/// `s` without its last `p.len()` characters when it ends with `p`.
pub open spec fn strip_suffix_spec(s: Seq<char>, p: Seq<char>) -> Option<Seq<char>> {
    if has_suffix(s, p) {
        Some(s.take(s.len() - p.len()))
    } else {
        None
    }
}

/// `str::strip_prefix` on character vectors.
pub fn strip_prefix(s: &[char], p: &[char]) -> (r: Option<Vec<char>>)
    ensures
        r matches Some(v) ==> strip_prefix_spec(s@, p@) == Some(v@),
        r is None ==> strip_prefix_spec(s@, p@) is None,
{
    assert(s@.skip(0) =~= s@);
    if starts_with_at(s, 0, p) {
        Some(slice_range(s, p.len(), s.len()))
    } else {
        None
    }
}

/// `str::strip_suffix` on character vectors.
pub fn strip_suffix(s: &[char], p: &[char]) -> (r: Option<Vec<char>>)
    ensures
        r matches Some(v) ==> strip_suffix_spec(s@, p@) == Some(v@),
        r is None ==> strip_suffix_spec(s@, p@) is None,
{
    if p.len() > s.len() {
        return None;
    }
    let start = s.len() - p.len();
    if starts_with_at(s, start, p) {
        assert(s@.skip(start as int).take(p@.len() as int) =~= s@.skip(start as int));
        Some(slice_range(s, 0, start))
    } else {
        assert(s@.skip(start as int).take(p@.len() as int) =~= s@.skip(start as int));
        None
    }
}

/// A copy of `s[from..to]`.
pub fn slice_range(s: &[char], from: usize, to: usize) -> (r: Vec<char>)
    requires
        from <= to <= s@.len(),
    ensures
        r@ == s@.subrange(from as int, to as int),
{
    let mut r: Vec<char> = Vec::new();
    let mut i: usize = from;
    while i < to
        invariant
            from <= i <= to <= s@.len(),
            r@ == s@.subrange(from as int, i as int),
        decreases to - i,
    {
        r.push(s[i]);
        assert(s@.subrange(from as int, i + 1) =~= s@.subrange(from as int, i as int).push(
            s@[i as int],
        ));
        i = i + 1;
    }
    r
}

// ---------------------------------------------------------------------------
// Splitting and joining
// ---------------------------------------------------------------------------

/// The pieces of `s` between occurrences of `sep`, as `str::split(sep)`
/// yields them: always at least one piece, empty pieces included.
pub open spec fn split_spec(s: Seq<char>, sep: char) -> Seq<Seq<char>>
    decreases s.len(),
{
    if s.len() == 0 {
        seq![Seq::<char>::empty()]
    } else {
        let p = split_spec(s.drop_last(), sep);
        if s.last() == sep {
            p.push(Seq::<char>::empty())
        } else {
            p.update(p.len() - 1, p.last().push(s.last()))
        }
    }
}

/// `split_spec` always yields at least one piece.
pub proof fn lemma_split_nonempty(s: Seq<char>, sep: char)
    ensures
        split_spec(s, sep).len() >= 1,
    decreases s.len(),
{
    if s.len() > 0 {
        lemma_split_nonempty(s.drop_last(), sep);
    }
}

/// The first piece of a split is no longer than the text, and shorter when
/// a separator follows it.
pub proof fn lemma_split_first_part(s: Seq<char>, sep: char)
    ensures
        split_spec(s, sep)[0].len() <= s.len(),
        split_spec(s, sep).len() >= 2 ==> split_spec(s, sep)[0].len() < s.len(),
    decreases s.len(),
{
    lemma_split_nonempty(s, sep);
    if s.len() > 0 {
        lemma_split_first_part(s.drop_last(), sep);
        lemma_split_nonempty(s.drop_last(), sep);
    }
}

/// Text without a separator extends the last piece of a split.
pub proof fn lemma_split_concat_plain(a: Seq<char>, b: Seq<char>, sep: char)
    requires
        !b.contains(sep),
    ensures
        split_spec(a + b, sep) == split_spec(a, sep).update(
            split_spec(a, sep).len() - 1,
            split_spec(a, sep).last() + b,
        ),
    decreases b.len(),
{
    lemma_split_nonempty(a, sep);
    if b.len() == 0 {
        assert(a + b =~= a);
        assert(split_spec(a, sep).last() + b =~= split_spec(a, sep).last());
        assert(split_spec(a, sep).update(split_spec(a, sep).len() - 1, split_spec(a, sep).last())
            =~= split_spec(a, sep));
    } else {
        let b0 = b.drop_last();
        assert(!b0.contains(sep)) by {
            if b0.contains(sep) {
                let j = choose|j: int| 0 <= j < b0.len() && b0[j] == sep;
                assert(b[j] == sep);
            }
        }
        assert(b[b.len() - 1] != sep);
        lemma_split_concat_plain(a, b0, sep);
        assert((a + b).drop_last() =~= a + b0);
        assert((a + b).last() == b.last());
        let p = split_spec(a, sep);
        assert((p.last() + b0).push(b.last()) =~= p.last() + b);
        assert(split_spec(a + b, sep) =~= p.update(p.len() - 1, p.last() + b));
    }
}

/// A separator followed by text without one adds that text as a new piece.
pub proof fn lemma_split_after_sep(a: Seq<char>, b: Seq<char>, sep: char)
    requires
        !b.contains(sep),
    ensures
        split_spec(a + seq![sep] + b, sep) == split_spec(a, sep).push(b),
{
    let a1 = a + seq![sep];
    assert(a1.drop_last() =~= a);
    assert(a1.last() == sep);
    assert(split_spec(a1, sep) == split_spec(a, sep).push(Seq::<char>::empty()));
    lemma_split_concat_plain(a1, b, sep);
    let p = split_spec(a, sep).push(Seq::<char>::empty());
    assert(Seq::<char>::empty() + b =~= b);
    assert(p.update(p.len() - 1, p.last() + b) =~= split_spec(a, sep).push(b));
}

/// Text without a separator splits into itself.
pub proof fn lemma_split_plain(a: Seq<char>, sep: char)
    requires
        !a.contains(sep),
    ensures
        split_spec(a, sep) == seq![a],
{
    lemma_split_concat_plain(Seq::<char>::empty(), a, sep);
    assert(Seq::<char>::empty() + a =~= a);
    assert(split_spec(Seq::<char>::empty(), sep) == seq![Seq::<char>::empty()]);
    assert(Seq::<char>::empty() + a =~= a);
    assert(seq![Seq::<char>::empty()].update(0, a) =~= seq![a]);
}

/// The character sequences held by a vector of character vectors.
pub open spec fn views(v: Seq<Vec<char>>) -> Seq<Seq<char>> {
    v.map_values(|x: Vec<char>| x@)
}

/// Splits `s` at every occurrence of `sep`.
pub fn split_chars(s: &[char], sep: char) -> (r: Vec<Vec<char>>)
    ensures
        views(r@) == split_spec(s@, sep),
        r@.len() >= 1,
{
    let mut parts: Vec<Vec<char>> = Vec::new();
    let mut cur: Vec<char> = Vec::new();
    let mut i: usize = 0;
    assert(s@.take(0) =~= Seq::<char>::empty());
    assert(views(parts@).push(cur@) =~= split_spec(s@.take(0), sep));
    while i < s.len()
        invariant
            i <= s@.len(),
            views(parts@).push(cur@) == split_spec(s@.take(i as int), sep),
        decreases s@.len() - i,
    {
        let c = s[i];
        let ghost pre = s@.take(i as int);
        let ghost prev_parts = views(parts@);
        let ghost prev_cur = cur@;
        assert(s@.take(i + 1).drop_last() =~= pre);
        assert(s@.take(i + 1).last() == c);
        proof {
            lemma_split_nonempty(pre, sep);
        }
        if c == sep {
            parts.push(cur);
            cur = Vec::new();
            assert(views(parts@) =~= prev_parts.push(prev_cur));
            assert(views(parts@).push(cur@) =~= split_spec(s@.take(i + 1), sep));
        } else {
            cur.push(c);
            assert(views(parts@).push(cur@) =~= split_spec(s@.take(i + 1), sep));
        }
        i = i + 1;
    }
    assert(s@.take(i as int) =~= s@);
    let ghost prev_parts = views(parts@);
    let ghost last = cur@;
    parts.push(cur);
    assert(views(parts@) =~= prev_parts.push(last));
    parts
}

/// The pieces of `parts` joined with `sep` between consecutive pieces.
pub open spec fn join_spec(parts: Seq<Seq<char>>, sep: char) -> Seq<char>
    decreases parts.len(),
{
    if parts.len() == 0 {
        Seq::empty()
    } else if parts.len() == 1 {
        parts[0]
    } else {
        join_spec(parts.drop_last(), sep).push(sep) + parts.last()
    }
}

/// Joins the pieces with `sep`, as `[String]::join` does.
pub fn join_strings(parts: &Vec<String>, sep: char) -> (r: String)
    ensures
        r@ == join_spec(parts.deep_view(), sep),
{
    let mut out: Vec<char> = Vec::new();
    let mut i: usize = 0;
    while i < parts.len()
        invariant
            i <= parts@.len(),
            out@ == join_spec(parts.deep_view().take(i as int), sep),
        decreases parts@.len() - i,
    {
        let piece = chars_of(parts[i].as_str());
        if i > 0 {
            out.push(sep);
        }
        let mut j: usize = 0;
        let ghost before = out@;
        while j < piece.len()
            invariant
                j <= piece@.len(),
                out@ == before + piece@.take(j as int),
            decreases piece@.len() - j,
        {
            out.push(piece[j]);
            assert(piece@.take(j + 1) =~= piece@.take(j as int).push(piece@[j as int]));
            j = j + 1;
        }
        assert(piece@.take(j as int) =~= piece@);
        assert(parts.deep_view().take(i + 1).drop_last() =~= parts.deep_view().take(i as int));
        assert(parts.deep_view().take(i + 1).last() == parts@[i as int]@);
        i = i + 1;
    }
    assert(parts.deep_view().take(i as int) =~= parts.deep_view());
    string_of(out.as_slice())
}

// ---------------------------------------------------------------------------
// Trimming
// ---------------------------------------------------------------------------

/// `char::is_whitespace`: the Unicode `White_Space` property.
pub open spec fn is_white_space(c: char) -> bool {
    let v = c as u32;
    (0x9 <= v && v <= 0xd) || v == 0x20 || v == 0x85 || v == 0xa0 || v == 0x1680 || (0x2000 <= v
        && v <= 0x200a) || v == 0x2028 || v == 0x2029 || v == 0x202f || v == 0x205f || v == 0x3000
}

/// Executable form of [`is_white_space`].
pub fn white_space(c: char) -> (r: bool)
    ensures
        r == is_white_space(c),
{
    let v = c as u32;
    (0x9 <= v && v <= 0xd) || v == 0x20 || v == 0x85 || v == 0xa0 || v == 0x1680 || (0x2000 <= v
        && v <= 0x200a) || v == 0x2028 || v == 0x2029 || v == 0x202f || v == 0x205f || v == 0x3000
}

/// The first index at or after `i` whose character does not satisfy `pred`.
pub open spec fn skip_while(s: Seq<char>, i: int, pred: spec_fn(char) -> bool) -> int
    decreases s.len() - i,
{
    if 0 <= i < s.len() && pred(s[i]) {
        skip_while(s, i + 1, pred)
    } else {
        i
    }
}

/// The end, at or before `j`, of the part of `s` left when trailing
/// characters satisfying `pred` are dropped.
pub open spec fn keep_until(s: Seq<char>, j: int, pred: spec_fn(char) -> bool) -> int
    decreases j,
{
    if 0 < j <= s.len() && pred(s[j - 1]) {
        keep_until(s, j - 1, pred)
    } else {
        j
    }
}

/// `s` without leading and trailing characters satisfying `pred`.
pub open spec fn trim_by(s: Seq<char>, pred: spec_fn(char) -> bool) -> Seq<char> {
    let t = s.skip(skip_while(s, 0, pred));
    t.take(keep_until(t, t.len() as int, pred))
}

/// The white-space test as a predicate.
pub open spec fn white_space_pred() -> spec_fn(char) -> bool {
    |c: char| is_white_space(c)
}

/// The test for a double quote as a predicate.
pub open spec fn quote_pred() -> spec_fn(char) -> bool {
    |c: char| c == '"'
}

/// `str::trim`: `s` without leading and trailing white space.
pub open spec fn trim_spec(s: Seq<char>) -> Seq<char> {
    trim_by(s, white_space_pred())
}

/// `str::trim_matches('"')`.
pub open spec fn trim_quotes_spec(s: Seq<char>) -> Seq<char> {
    trim_by(s, quote_pred())
}

proof fn lemma_skip_while_bounds(s: Seq<char>, i: int, pred: spec_fn(char) -> bool)
    requires
        0 <= i <= s.len(),
    ensures
        i <= skip_while(s, i, pred) <= s.len(),
    decreases s.len() - i,
{
    if i < s.len() && pred(s[i]) {
        lemma_skip_while_bounds(s, i + 1, pred);
    }
}

proof fn lemma_keep_until_bounds(s: Seq<char>, j: int, pred: spec_fn(char) -> bool)
    requires
        0 <= j <= s.len(),
    ensures
        0 <= keep_until(s, j, pred) <= j,
    decreases j,
{
    if 0 < j && pred(s[j - 1]) {
        lemma_keep_until_bounds(s, j - 1, pred);
    }
}

/// The characters of `s` with leading and trailing white space removed.
pub fn trim(s: &[char]) -> (r: Vec<char>)
    ensures
        r@ == trim_spec(s@),
{
    let ghost pred = white_space_pred();
    let mut i: usize = 0;
    while i < s.len() && white_space(s[i])
        invariant
            pred == white_space_pred(),
            i <= s@.len(),
            skip_while(s@, i as int, pred) == skip_while(s@, 0, pred),
        decreases s@.len() - i,
    {
        assert(pred(s@[i as int]));
        assert(skip_while(s@, i as int, pred) == skip_while(s@, i + 1, pred));
        i = i + 1;
    }
    let t = slice_range(s, i, s.len());
    assert(t@ =~= s@.skip(i as int));
    let mut j: usize = t.len();
    while j > 0 && white_space(t[j - 1])
        invariant
            pred == white_space_pred(),
            j <= t@.len(),
            keep_until(t@, j as int, pred) == keep_until(t@, t@.len() as int, pred),
        decreases j,
    {
        assert(pred(t@[j - 1]));
        assert(keep_until(t@, j as int, pred) == keep_until(t@, j - 1, pred));
        j = j - 1;
    }
    let r = slice_range(t.as_slice(), 0, j);
    assert(r@ =~= t@.take(j as int));
    r
}

/// The characters of `s` with leading and trailing `"` removed.
pub fn trim_quotes(s: &[char]) -> (r: Vec<char>)
    ensures
        r@ == trim_quotes_spec(s@),
{
    let ghost pred = quote_pred();
    let mut i: usize = 0;
    while i < s.len() && s[i] == '"'
        invariant
            pred == quote_pred(),
            i <= s@.len(),
            skip_while(s@, i as int, pred) == skip_while(s@, 0, pred),
        decreases s@.len() - i,
    {
        assert(pred(s@[i as int]));
        assert(skip_while(s@, i as int, pred) == skip_while(s@, i + 1, pred));
        i = i + 1;
    }
    let t = slice_range(s, i, s.len());
    assert(t@ =~= s@.skip(i as int));
    let mut j: usize = t.len();
    while j > 0 && t[j - 1] == '"'
        invariant
            pred == quote_pred(),
            j <= t@.len(),
            keep_until(t@, j as int, pred) == keep_until(t@, t@.len() as int, pred),
        decreases j,
    {
        assert(pred(t@[j - 1]));
        assert(keep_until(t@, j as int, pred) == keep_until(t@, j - 1, pred));
        j = j - 1;
    }
    let r = slice_range(t.as_slice(), 0, j);
    assert(r@ =~= t@.take(j as int));
    r
}

/// `str::trim_start_matches(p)`: every leading copy of `p` removed.
pub open spec fn trim_start_matches_spec(s: Seq<char>, p: Seq<char>) -> Seq<char>
    decreases s.len(),
{
    if p.len() > 0 && has_prefix(s, p) {
        trim_start_matches_spec(s.skip(p.len() as int), p)
    } else {
        s
    }
}

/// Removes every leading copy of `p` from `s`.
pub fn trim_start_matches(s: &[char], p: &[char]) -> (r: Vec<char>)
    ensures
        r@ == trim_start_matches_spec(s@, p@),
{
    let mut i: usize = 0;
    let n = s.len();
    assert(s@.skip(0) =~= s@);
    while p.len() > 0 && starts_with_at(s, i, p)
        invariant
            n == s@.len(),
            i <= s@.len(),
            trim_start_matches_spec(s@.skip(i as int), p@) == trim_start_matches_spec(s@, p@),
        decreases s@.len() - i,
    {
        assert(s@.skip(i as int).skip(p@.len() as int) =~= s@.skip(i + p@.len()));
        i = i + p.len();
    }
    slice_range(s, i, s.len())
}

/// `s` with every `c` removed, as `str::replace(c, "")` gives it.
pub open spec fn remove_char_spec(s: Seq<char>, c: char) -> Seq<char> {
    s.filter(|x: char| x != c)
}

/// Removes every occurrence of `c` from `s`.
pub fn remove_char(s: &[char], c: char) -> (r: Vec<char>)
    ensures
        r@ == remove_char_spec(s@, c),
{
    let mut r: Vec<char> = Vec::new();
    let mut i: usize = 0;
    while i < s.len()
        invariant
            i <= s@.len(),
            r@ == remove_char_spec(s@.take(i as int), c),
        decreases s@.len() - i,
    {
        let x = s[i];
        proof {
            reveal(Seq::filter);
            assert(s@.take(i + 1).drop_last() =~= s@.take(i as int));
            assert(s@.take(i + 1).last() == x);
        }
        if x != c {
            r.push(x);
        }
        i = i + 1;
    }
    assert(s@.take(i as int) =~= s@);
    r
}

/// ASCII upper-case letters mapped to lower case; every other character
/// unchanged.
pub open spec fn ascii_lower_char(c: char) -> char {
    if 'A' <= c && c <= 'Z' {
        ((c as u32) + 32) as char
    } else {
        c
    }
}

/// `s` with ASCII upper-case letters mapped to lower case.
pub open spec fn ascii_lower(s: Seq<char>) -> Seq<char> {
    s.map_values(|c: char| ascii_lower_char(c))
}

/// Maps the ASCII upper-case letters of `s` to lower case.
pub fn to_ascii_lower(s: &[char]) -> (r: Vec<char>)
    ensures
        r@ == ascii_lower(s@),
{
    let mut r: Vec<char> = Vec::new();
    let mut i: usize = 0;
    while i < s.len()
        invariant
            i <= s@.len(),
            r@ == ascii_lower(s@.take(i as int)),
        decreases s@.len() - i,
    {
        let c = s[i];
        let l = if 'A' <= c && c <= 'Z' {
            ((c as u8) + 32) as char
        } else {
            c
        };
        assert(l == ascii_lower_char(c));
        r.push(l);
        assert(ascii_lower(s@.take(i + 1)) =~= ascii_lower(s@.take(i as int)).push(l));
        i = i + 1;
    }
    assert(s@.take(i as int) =~= s@);
    r
}

// ---------------------------------------------------------------------------
// Numbers
// ---------------------------------------------------------------------------

/// An ASCII decimal digit.
pub open spec fn is_digit(c: char) -> bool {
    '0' <= c && c <= '9'
}

/// The value of a string of decimal digits.
pub open spec fn digits_value(d: Seq<char>) -> nat
    decreases d.len(),
{
    if d.len() == 0 {
        0
    } else {
        digits_value(d.drop_last()) * 10 + ((d.last() as u32) - ('0' as u32)) as nat
    }
}

/// The digits of an unsigned number: `s` without one leading `+`.
pub open spec fn unsigned_digits(s: Seq<char>) -> Seq<char> {
    if s.len() > 0 && s[0] == '+' {
        s.drop_first()
    } else {
        s
    }
}

/// What `str::parse` gives for an unsigned integer type whose largest value
/// is `max`: an optional `+`, then one or more decimal digits, of value at
/// most `max`.
pub open spec fn parse_unsigned_spec(s: Seq<char>, max: nat) -> Option<nat> {
    let d = unsigned_digits(s);
    if d.len() > 0 && (forall|i: int| 0 <= i < d.len() ==> is_digit(#[trigger] d[i]))
        && digits_value(d) <= max {
        Some(digits_value(d))
    } else {
        None
    }
}

/// Parses an unsigned decimal number no larger than `max`.
pub fn parse_unsigned(s: &[char], max: u64) -> (r: Option<u64>)
    ensures
        match parse_unsigned_spec(s@, max as nat) {
            Some(v) => r == Some(v as u64),
            None => r is None,
        },
{
    let start: usize = if s.len() > 0 && s[0] == '+' {
        1
    } else {
        0
    };
    let ghost d = s@.skip(start as int);
    assert(d =~= unsigned_digits(s@));
    if start >= s.len() {
        assert(d.len() == 0);
        return None;
    }
    let mut acc: u128 = 0;
    let mut i: usize = start;
    let cap: u128 = max as u128 + 1;
    while i < s.len()
        invariant
            start <= i <= s@.len(),
            d == s@.skip(start as int),
            d == unsigned_digits(s@),
            cap == max as u128 + 1,
            forall|k: int| 0 <= k < i - start ==> is_digit(#[trigger] d[k]),
            acc == if digits_value(d.take(i - start)) < cap {
                digits_value(d.take(i - start))
            } else {
                cap as nat
            },
        decreases s@.len() - i,
    {
        let c = s[i];
        if !('0' <= c && c <= '9') {
            assert(!is_digit(d[i - start]));
            assert(!(forall|k: int| 0 <= k < d.len() ==> is_digit(#[trigger] d[k])));
            return None;
        }
        let dig: u128 = (c as u32 - '0' as u32) as u128;
        let ghost pre = d.take(i - start);
        assert(d.take(i + 1 - start).drop_last() =~= pre);
        assert(d.take(i + 1 - start).last() == c);
        let ghost nv = digits_value(pre) * 10 + dig;
        assert(digits_value(d.take(i + 1 - start)) == nv);
        if acc >= cap {
            assert(nv >= cap) by (nonlinear_arith)
                requires
                    digits_value(pre) >= cap,
                    nv == digits_value(pre) * 10 + dig,
                    dig >= 0,
            ;
        } else {
            let next = acc * 10 + dig;
            if next >= cap {
                acc = cap;
            } else {
                acc = next;
            }
        }
        i = i + 1;
    }
    assert(d.take(i - start) =~= d);
    if acc >= cap {
        None
    } else {
        Some(acc as u64)
    }
}


/// The ASCII digit of a value below ten.
pub open spec fn digit_char(d: nat) -> char {
    (d + 48) as char
}

/// The decimal text of `n`: its digits, most significant first, without
/// leading zeros.
pub open spec fn decimal(n: nat) -> Seq<char>
    decreases n,
{
    if n < 10 {
        seq![digit_char(n)]
    } else {
        decimal(n / 10).push(digit_char(n % 10))
    }
}

/// Appends the decimal text of `n` to `out`.
pub fn push_decimal(out: &mut String, n: u64)
    ensures
        final(out)@ == old(out)@ + decimal(n as nat),
    decreases n,
{
    if n >= 10 {
        push_decimal(out, n / 10);
    }
    let d: u8 = (n % 10) as u8;
    let c: char = (d + 48u8) as char;
    push_char(out, c);
    assert(decimal(n as nat) == if n < 10 {
        seq![digit_char(n as nat)]
    } else {
        decimal((n / 10) as nat).push(digit_char((n % 10) as nat))
    });
}

/// The decimal text of a number reads back as that number: it is a
/// non-empty string of digits whose value is the number.
pub proof fn law_decimal_reads_back(n: nat)
    ensures
        decimal(n).len() > 0,
        forall|i: int| 0 <= i < decimal(n).len() ==> is_digit(#[trigger] decimal(n)[i]),
        digits_value(decimal(n)) == n,
        parse_unsigned_spec(decimal(n), n) == Some(n),
    decreases n,
{
    let d = decimal(n);
    assert(('0' as u32) == 48);
    if n < 10 {
        assert(d.drop_last() =~= Seq::<char>::empty());
        assert(digits_value(Seq::<char>::empty()) == 0);
        assert(d.last() == digit_char(n));
        assert((digit_char(n) as u32) == n + 48);
        assert(digits_value(d) == digits_value(d.drop_last()) * 10 + ((d.last() as u32) - ('0' as u32)) as nat);
    } else {
        law_decimal_reads_back(n / 10);
        assert(d.drop_last() =~= decimal(n / 10));
        assert(d.last() == digit_char(n % 10));
        assert((digit_char(n % 10) as u32) == n % 10 + 48);
        assert(digits_value(d) == digits_value(d.drop_last()) * 10 + ((d.last() as u32) - ('0' as u32)) as nat);
        assert(n == (n / 10) * 10 + n % 10);
        assert(forall|i: int| 0 <= i < d.len() - 1 ==> d[i] == decimal(n / 10)[i]);
    }
    assert(d.len() > 0 && d[0] != '+');
    assert(unsigned_digits(d) =~= d);
}

/// The lines of `lines` joined by line breaks.
pub open spec fn joined_lines(lines: Seq<Seq<char>>) -> Seq<char>
    decreases lines.len(),
{
    if lines.len() == 0 {
        Seq::empty()
    } else if lines.len() == 1 {
        lines[0]
    } else {
        lines[0] + seq!['\n'] + joined_lines(lines.drop_first())
    }
}

/// Every character of `s` is white space.
pub open spec fn all_white_space(s: Seq<char>) -> bool {
    forall|i: int| 0 <= i < s.len() ==> #[trigger] is_white_space(s[i])
}

/// No line of `lines` is empty, and none holds white space.
pub open spec fn solid_lines(lines: Seq<Seq<char>>) -> bool {
    &&& forall|i: int| 0 <= i < lines.len() ==> #[trigger] lines[i].len() > 0
    &&& forall|i: int, j: int|
        0 <= i < lines.len() && 0 <= j < lines[i].len() ==> !is_white_space(#[trigger] lines[i][j])
}

proof fn lemma_skip_white_lead(s: Seq<char>, n: int, i: int)
    requires
        0 <= i <= n < s.len(),
        forall|k: int| 0 <= k < n ==> #[trigger] is_white_space(s[k]),
        !is_white_space(s[n]),
    ensures
        skip_while(s, i, white_space_pred()) == n,
    decreases n - i,
{
    if i < n {
        lemma_skip_white_lead(s, n, i + 1);
    }
}

proof fn lemma_keep_white_tail(t: Seq<char>, n: int, j: int)
    requires
        0 < n <= j <= t.len(),
        forall|k: int| n <= k < t.len() ==> #[trigger] is_white_space(t[k]),
        !is_white_space(t[n - 1]),
    ensures
        keep_until(t, j, white_space_pred()) == n,
    decreases j,
{
    if j > n {
        lemma_keep_white_tail(t, n, j - 1);
    }
}

/// Trimming `lead + a + tail`, where `lead` and `tail` are white space and
/// `a` neither begins nor ends with white space, gives `a`.
pub proof fn lemma_trim_framed(lead: Seq<char>, a: Seq<char>, tail: Seq<char>)
    requires
        a.len() > 0,
        !is_white_space(a[0]),
        !is_white_space(a.last()),
        all_white_space(lead),
        all_white_space(tail),
    ensures
        trim_spec(lead + a + tail) == a,
{
    let s = lead + a + tail;
    let n = lead.len() as int;
    assert forall|k: int| 0 <= k < n implies #[trigger] is_white_space(s[k]) by {
        assert(s[k] == lead[k]);
    }
    assert(s[n] == a[0]);
    lemma_skip_white_lead(s, n, 0);
    let t = s.skip(n);
    assert(t =~= a + tail);
    let m = a.len() as int;
    assert forall|k: int| m <= k < t.len() implies #[trigger] is_white_space(t[k]) by {
        assert(t[k] == tail[k - m]);
    }
    assert(t[m - 1] == a.last());
    lemma_keep_white_tail(t, m, t.len() as int);
    assert(t.take(m) =~= a);
}

proof fn lemma_remove_absent(s: Seq<char>, c: char)
    requires
        !s.contains(c),
    ensures
        remove_char_spec(s, c) == s,
    decreases s.len(),
{
    reveal(Seq::filter);
    if s.len() > 0 {
        assert(!s.drop_last().contains(c)) by {
            if s.drop_last().contains(c) {
                let k = choose|k: int| 0 <= k < s.drop_last().len() && s.drop_last()[k] == c;
                assert(s[k] == c);
            }
        }
        lemma_remove_absent(s.drop_last(), c);
        assert(s.last() != c) by {
            assert(s[s.len() - 1] == s.last());
        }
        assert(s.drop_last().push(s.last()) =~= s);
    }
}

/// Lines without white space, joined by line breaks: the joined text
/// neither begins nor ends with white space, and removing its line breaks
/// gives the lines put together.
pub proof fn lemma_joined_lines(lines: Seq<Seq<char>>)
    requires
        lines.len() > 0,
        solid_lines(lines),
    ensures
        joined_lines(lines).len() > 0,
        joined_lines(lines)[0] == lines[0][0],
        joined_lines(lines).last() == lines.last().last(),
        remove_char_spec(joined_lines(lines), '\n') == lines.flatten(),
    decreases lines.len(),
{
    let first = lines[0];
    assert(first.len() > 0);
    assert(!first.contains('\n')) by {
        if first.contains('\n') {
            let k = choose|k: int| 0 <= k < first.len() && first[k] == '\n';
            assert(!is_white_space(lines[0][k]));
        }
    }
    lemma_remove_absent(first, '\n');
    if lines.len() == 1 {
        lines.lemma_flatten_one_element();
    } else {
        let rest = lines.drop_first();
        assert forall|i: int| 0 <= i < rest.len() implies #[trigger] rest[i].len() > 0 by {
            assert(rest[i] == lines[i + 1]);
        }
        assert forall|i: int, j: int|
            0 <= i < rest.len() && 0 <= j < rest[i].len() implies !is_white_space(
            #[trigger] rest[i][j],
        ) by {
            assert(rest[i] == lines[i + 1]);
            assert(!is_white_space(lines[i + 1][j]));
        }
        lemma_joined_lines(rest);
        let nl = seq!['\n'];
        let jr = joined_lines(rest);
        assert(joined_lines(lines) == first + nl + jr);
        Seq::filter_distributes_over_add(first + nl, jr, |x: char| x != '\n');
        Seq::filter_distributes_over_add(first, nl, |x: char| x != '\n');
        assert(remove_char_spec(nl, '\n') =~= Seq::<char>::empty()) by {
            reveal(Seq::filter);
            assert(nl.drop_last() =~= Seq::<char>::empty());
            assert(nl.drop_last().filter(|x: char| x != '\n') =~= Seq::<char>::empty());
            assert(nl.last() == '\n');
        }
        assert(remove_char_spec(joined_lines(lines), '\n') =~= first + rest.flatten());
        assert(rest.last() == lines.last());
        assert((first + nl + jr)[0] == first[0]);
        assert((first + nl + jr).last() == jr.last());
    }
}

} // verus!
