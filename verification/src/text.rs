//! Character-level helpers on strings: Unicode white space, trimming,
//! substring search and line splitting.
use vstd::prelude::*;
use vstd::std_specs::iter::IteratorSpec;

verus! {

/// The Unicode `White_Space` property, the set of characters that
/// `char::is_whitespace` accepts.
pub open spec fn is_white_space(c: char) -> bool {
    let u = c as u32;
    ||| 0x9 <= u <= 0xd
    ||| u == 0x20
    ||| u == 0x85
    ||| u == 0xa0
    ||| u == 0x1680
    ||| 0x2000 <= u <= 0x200a
    ||| u == 0x2028
    ||| u == 0x2029
    ||| u == 0x202f
    ||| u == 0x205f
    ||| u == 0x3000
}

/// Whether `c` has the Unicode `White_Space` property (what `char::is_whitespace` decides).
pub fn char_is_whitespace(c: char) -> (r: bool)
    ensures
        r == is_white_space(c),
{
    let u = c as u32;
    (0x9 <= u && u <= 0xd) || u == 0x20 || u == 0x85 || u == 0xa0 || u == 0x1680 || (0x2000 <= u
        && u <= 0x200a) || u == 0x2028 || u == 0x2029 || u == 0x202f || u == 0x205f || u == 0x3000
}

/// `String::push`: appends one character at the end.
#[verifier::external_body]
pub(crate) fn push_char(s: &mut String, c: char)
    ensures
        final(s)@ == old(s)@.push(c),
{
    s.push(c)
}

/// `s` without its leading white space.
pub open spec fn trim_start(s: Seq<char>) -> Seq<char>
    decreases s.len(),
{
    if s.len() > 0 && is_white_space(s[0]) {
        trim_start(s.drop_first())
    } else {
        s
    }
}

/// `s` without its trailing white space.
pub open spec fn trim_end(s: Seq<char>) -> Seq<char>
    decreases s.len(),
{
    if s.len() > 0 && is_white_space(s.last()) {
        trim_end(s.drop_last())
    } else {
        s
    }
}

/// `s` without leading and trailing white space (what `str::trim` returns).
pub open spec fn trim(s: Seq<char>) -> Seq<char> {
    trim_end(trim_start(s))
}

/// Every character of `s` is white space.
pub open spec fn all_white_space(s: Seq<char>) -> bool {
    forall|i: int| 0 <= i < s.len() ==> is_white_space(#[trigger] s[i])
}

/// `pat` occurs in `s` at position `i`.
pub open spec fn occurs_at(s: Seq<char>, pat: Seq<char>, i: int) -> bool {
    0 <= i && i + pat.len() <= s.len() && s.subrange(i, i + pat.len()) == pat
}

/// `pat` occurs somewhere in `s` (what `str::contains` with a string pattern decides).
pub open spec fn contains_text(s: Seq<char>, pat: Seq<char>) -> bool {
    exists|i: int| occurs_at(s, pat, i)
}

pub proof fn lemma_trim_start_skip(s: Seq<char>, i: int)
    requires
        0 <= i <= s.len(),
        forall|k: int| 0 <= k < i ==> is_white_space(#[trigger] s[k]),
    ensures
        trim_start(s) == trim_start(s.subrange(i, s.len() as int)),
    decreases i,
{
    if i > 0 {
        assert(s.drop_first() =~= s.subrange(1, s.len() as int));
        let t = s.drop_first();
        assert forall|k: int| 0 <= k < i - 1 implies is_white_space(#[trigger] t[k]) by {
            assert(t[k] == s[k + 1]);
        }
        lemma_trim_start_skip(t, i - 1);
        assert(t.subrange(i - 1, t.len() as int) =~= s.subrange(i, s.len() as int));
    } else {
        assert(s.subrange(0, s.len() as int) =~= s);
    }
}

pub proof fn lemma_trim_end_skip(s: Seq<char>, j: int)
    requires
        0 <= j <= s.len(),
        forall|k: int| j <= k < s.len() ==> is_white_space(#[trigger] s[k]),
    ensures
        trim_end(s) == trim_end(s.subrange(0, j)),
    decreases s.len() - j,
{
    if j < s.len() {
        let t = s.drop_last();
        assert forall|k: int| j <= k < t.len() implies is_white_space(#[trigger] t[k]) by {
            assert(t[k] == s[k]);
        }
        lemma_trim_end_skip(t, j);
        assert(t.subrange(0, j) =~= s.subrange(0, j));
    } else {
        assert(s.subrange(0, j) =~= s);
    }
}

/// The trimmed text of `s` is the slice between the first and the last
/// character that is not white space, and empty exactly when `s` is all white space.
pub proof fn lemma_trim_bounds(s: Seq<char>, i: int, j: int)
    requires
        0 <= i <= j <= s.len(),
        forall|k: int| 0 <= k < i ==> is_white_space(#[trigger] s[k]),
        forall|k: int| j <= k < s.len() ==> is_white_space(#[trigger] s[k]),
        i < j ==> !is_white_space(s[i]) && !is_white_space(s[j - 1]),
        i == j ==> i == s.len(),
    ensures
        trim(s) == s.subrange(i, j),
{
    lemma_trim_start_skip(s, i);
    let u = s.subrange(i, s.len() as int);
    if i < j {
        assert(u[0] == s[i]);
        assert(trim_start(u) == u);
        lemma_trim_end_skip(u, j - i);
        assert(u.subrange(0, j - i) =~= s.subrange(i, j));
        let w = u.subrange(0, j - i);
        assert(w.last() == s[j - 1]);
    } else {
        assert(u.len() == 0);
        assert(trim_start(u) == u);
        assert(trim_end(u) == u);
        assert(u =~= s.subrange(i, j));
    }
}

proof fn lemma_trim_start_shape(s: Seq<char>)
    ensures
        trim_start(s).len() == 0 || !is_white_space(trim_start(s)[0]),
    decreases s.len(),
{
    if s.len() > 0 && is_white_space(s[0]) {
        lemma_trim_start_shape(s.drop_first());
    }
}

proof fn lemma_trim_end_shape(t: Seq<char>)
    ensures
        t.len() > 0 && !is_white_space(t[0]) ==> trim_end(t).len() > 0 && trim_end(t)[0] == t[0],
        trim_end(t).len() == 0 || !is_white_space(trim_end(t).last()),
    decreases t.len(),
{
    if t.len() > 0 && is_white_space(t.last()) {
        let u = t.drop_last();
        lemma_trim_end_shape(u);
        if t.len() > 0 && !is_white_space(t[0]) {
            assert(u.len() > 0);
            assert(u[0] == t[0]);
        }
    }
}

/// A non-empty trimmed text starts and ends with characters that are not white space.
pub proof fn lemma_trim_starts_non_white(s: Seq<char>)
    ensures
        trim(s).len() > 0 ==> !is_white_space(trim(s)[0]) && !is_white_space(trim(s).last()),
{
    lemma_trim_start_shape(s);
    lemma_trim_end_shape(trim_start(s));
}

/// Text that starts and ends with characters that are not white space is its own trim.
pub proof fn lemma_trim_of_trimmed(p: Seq<char>)
    requires
        p.len() > 0,
        !is_white_space(p[0]),
        !is_white_space(p.last()),
    ensures
        trim(p) == p,
{
}

/// The characters of `s`, in order.
pub fn chars_of(s: &str) -> (r: Vec<char>)
    ensures
        r@ == s@,
{
    let mut out: Vec<char> = Vec::new();
    let mut it = s.chars();
    broadcast use vstd::string::group_string_axioms;
    assert(it.remaining() == s@);
    loop
        invariant
            out@ + it.remaining() == s@,
            it.obeys_prophetic_iter_laws(),
            it.decrease() is Some,
        ensures
            out@ == s@,
        decreases it.decrease()->0,
    {
        match it.next() {
            Some(c) => {
                out.push(c);
                assert(out@ + it.remaining() =~= s@);
            },
            None => {
                assert(out@ =~= s@);
                break ;
            },
        }
    }
    out
}

/// The string made of the characters `v[from..to]`.
pub fn string_from_chars(v: &Vec<char>, from: usize, to: usize) -> (r: String)
    requires
        from <= to <= v.len(),
    ensures
        r@ == v@.subrange(from as int, to as int),
{
    let mut out = String::new();
    let mut k = from;
    while k < to
        invariant
            from <= k <= to <= v.len(),
            out@ == v@.subrange(from as int, k as int),
        decreases to - k,
    {
        push_char(&mut out, v[k]);
        assert(out@ =~= v@.subrange(from as int, k + 1));
        k = k + 1;
    }
    out
}

/// The index of the first character of `v` that is not white space, or its length.
fn first_non_white(v: &Vec<char>) -> (i: usize)
    ensures
        i <= v.len(),
        forall|k: int| 0 <= k < i ==> is_white_space(#[trigger] v@[k]),
        i < v.len() ==> !is_white_space(v@[i as int]),
{
    let mut i: usize = 0;
    while i < v.len()
        invariant
            i <= v.len(),
            forall|k: int| 0 <= k < i ==> is_white_space(#[trigger] v@[k]),
        decreases v.len() - i,
    {
        if !char_is_whitespace(v[i]) {
            return i;
        }
        i = i + 1;
    }
    i
}

/// One past the index of the last character of `v[from..]` that is not
/// white space, or `from` when there is none.
fn end_of_non_white(v: &Vec<char>, from: usize) -> (j: usize)
    requires
        from <= v.len(),
    ensures
        from <= j <= v.len(),
        forall|k: int| j <= k < v.len() ==> is_white_space(#[trigger] v@[k]),
        j > from ==> !is_white_space(v@[j - 1]),
{
    let mut j: usize = v.len();
    while j > from
        invariant
            from <= j <= v.len(),
            forall|k: int| j <= k < v.len() ==> is_white_space(#[trigger] v@[k]),
        decreases j,
    {
        if !char_is_whitespace(v[j - 1]) {
            return j;
        }
        j = j - 1;
    }
    j
}

/// The bounds `(i, j)` of the trimmed text within `v`: `trim(v) == v[i..j]`.
pub fn trim_bounds(v: &Vec<char>) -> (r: (usize, usize))
    ensures
        r.0 <= r.1 <= v.len(),
        trim(v@) == v@.subrange(r.0 as int, r.1 as int),
        forall|k: int| 0 <= k < r.0 ==> is_white_space(#[trigger] v@[k]),
        forall|k: int| r.1 <= k < v.len() ==> is_white_space(#[trigger] v@[k]),
        r.0 < r.1 ==> !is_white_space(v@[r.0 as int]),
        r.0 == r.1 ==> r.0 == v.len(),
{
    let i = first_non_white(v);
    let j = end_of_non_white(v, i);
    proof {
        lemma_trim_bounds(v@, i as int, j as int);
    }
    (i, j)
}

/// Whether `s` holds nothing but white space (`s.trim().is_empty()`).
pub fn is_blank(s: &str) -> (r: bool)
    ensures
        r == (trim(s@).len() == 0),
        r == all_white_space(s@),
{
    let v = chars_of(s);
    let (i, j) = trim_bounds(&v);
    proof {
        if i < j {
            assert(!is_white_space(v@[i as int]));
        }
    }
    i == j
}

/// Whether `pat` occurs in `s` at position `i`.
fn occurs_at_exec(s: &Vec<char>, pat: &Vec<char>, i: usize) -> (r: bool)
    requires
        i + pat.len() <= s.len(),
    ensures
        r == occurs_at(s@, pat@, i as int),
{
    let mut k: usize = 0;
    while k < pat.len()
        invariant
            k <= pat.len(),
            i + pat.len() <= s.len(),
            forall|m: int| 0 <= m < k ==> s@[i + m] == pat@[m],
        decreases pat.len() - k,
    {
        if s[i + k] != pat[k] {
            assert(s@.subrange(i as int, i + pat.len())[k as int] != pat@[k as int]);
            return false;
        }
        k = k + 1;
    }
    assert(s@.subrange(i as int, i + pat.len()) =~= pat@);
    true
}

/// Whether `pat` occurs somewhere in `s`.
pub fn contains_text_exec(s: &str, pat: &str) -> (r: bool)
    ensures
        r == contains_text(s@, pat@),
{
    let sv = chars_of(s);
    let pv = chars_of(pat);
    if pv.len() > sv.len() {
        assert forall|m: int| !occurs_at(s@, pat@, m) by {}
        return false;
    }
    let last = sv.len() - pv.len();
    let mut i: usize = 0;
    while i <= last
        invariant
            last == sv.len() - pv.len(),
            pv.len() <= sv.len(),
            sv@ == s@,
            pv@ == pat@,
            forall|m: int| 0 <= m < i ==> !occurs_at(sv@, pv@, m),
        decreases last + 1 - i,
    {
        if occurs_at_exec(&sv, &pv, i) {
            assert(occurs_at(s@, pat@, i as int));
            return true;
        }
        if i == last {
            assert forall|m: int| !occurs_at(s@, pat@, m) by {
                if 0 <= m <= i {
                    assert(!occurs_at(sv@, pv@, m));
                }
            }
            return false;
        }
        i = i + 1;
    }
    false
}

/// Whether `a` and `b` hold the same characters.
pub fn text_equals(a: &str, b: &str) -> (r: bool)
    ensures
        r == (a@ == b@),
{
    let av = chars_of(a);
    let bv = chars_of(b);
    if av.len() != bv.len() {
        return false;
    }
    let mut k: usize = 0;
    while k < av.len()
        invariant
            av.len() == bv.len(),
            av@ == a@,
            bv@ == b@,
            k <= av.len(),
            forall|m: int| 0 <= m < k ==> av@[m] == bv@[m],
        decreases av.len() - k,
    {
        if av[k] != bv[k] {
            return false;
        }
        k = k + 1;
    }
    assert(av@ =~= bv@);
    true
}

/// How many bytes the UTF-8 encoding of `c` takes.
pub open spec fn utf8_width(c: char) -> nat {
    let u = c as u32;
    if u <= 0x7f {
        1
    } else if u <= 0x7ff {
        2
    } else if u <= 0xffff {
        3
    } else {
        4
    }
}

/// How many bytes the UTF-8 encoding of `s` takes (what `str::len` returns).
pub open spec fn utf8_len(s: Seq<char>) -> nat
    decreases s.len(),
{
    if s.len() == 0 {
        0
    } else {
        utf8_len(s.drop_last()) + utf8_width(s.last())
    }
}

/// The number of bytes that `c` takes in UTF-8.
pub fn char_utf8_width(c: char) -> (r: u128)
    ensures
        r == utf8_width(c),
{
    let u = c as u32;
    if u <= 0x7f {
        1
    } else if u <= 0x7ff {
        2
    } else if u <= 0xffff {
        3
    } else {
        4
    }
}

proof fn lemma_utf8_len_take_step(s: Seq<char>, k: int)
    requires
        0 <= k < s.len(),
    ensures
        utf8_len(s.take(k + 1)) == utf8_len(s.take(k)) + utf8_width(s[k]),
{
    assert(s.take(k + 1).drop_last() =~= s.take(k));
}

/// The UTF-8 lengths of prefixes grow strictly with the prefix.
pub proof fn lemma_utf8_len_prefix_increasing(s: Seq<char>, m: int, k: int)
    requires
        0 <= m < k <= s.len(),
    ensures
        utf8_len(s.take(m)) < utf8_len(s.take(k)),
    decreases k - m,
{
    lemma_utf8_len_take_step(s, k - 1);
    if m < k - 1 {
        lemma_utf8_len_prefix_increasing(s, m, k - 1);
    }
}

/// `n` bytes from the start of `s` fall between two characters.
pub open spec fn is_utf8_boundary(s: Seq<char>, n: int) -> bool {
    exists|k: int| 0 <= k <= s.len() && utf8_len(s.take(k)) == n
}

/// The number of characters that the first `n` bytes of `s` hold, when `n` falls
/// between two characters.
pub open spec fn chars_in_bytes(s: Seq<char>, n: int) -> int {
    choose|k: int| 0 <= k <= s.len() && utf8_len(s.take(k)) == n
}

/// The UTF-8 length of all of `v`.
pub fn utf8_len_exec(v: &Vec<char>) -> (r: u128)
    ensures
        r == utf8_len(v@),
{
    let mut acc: u128 = 0;
    let mut k: usize = 0;
    while k < v.len()
        invariant
            k <= v.len(),
            acc == utf8_len(v@.take(k as int)),
            acc <= 4 * k,
        decreases v.len() - k,
    {
        proof {
            lemma_utf8_len_take_step(v@, k as int);
        }
        acc = acc + char_utf8_width(v[k]);
        k = k + 1;
    }
    assert(v@.take(k as int) =~= v@);
    acc
}

/// The index of the character that starts `n` bytes into `v`, or `None` when
/// those bytes end inside a character.
pub fn char_index_at_byte(v: &Vec<char>, n: u128) -> (r: Option<usize>)
    requires
        n <= utf8_len(v@),
    ensures
        r is Some <==> is_utf8_boundary(v@, n as int),
        r matches Some(k) ==> k <= v.len() && utf8_len(v@.take(k as int)) == n,
{
    let mut acc: u128 = 0;
    let mut k: usize = 0;
    assert(v@.take(0) =~= Seq::<char>::empty());
    while acc < n
        invariant
            k <= v.len(),
            acc == utf8_len(v@.take(k as int)),
            acc <= 4 * k,
            n <= utf8_len(v@),
            forall|m: int| 0 <= m < k ==> utf8_len(#[trigger] v@.take(m)) < n,
        decreases v.len() - k,
    {
        if k == v.len() {
            assert(v@.take(k as int) =~= v@);
            assert(false);
        }
        proof {
            lemma_utf8_len_take_step(v@, k as int);
        }
        acc = acc + char_utf8_width(v[k]);
        k = k + 1;
    }
    if acc == n {
        return Some(k);
    }
    proof {
        assert forall|m: int| 0 <= m <= v.len() implies utf8_len(#[trigger] v@.take(m)) != n by {
            if m > k {
                lemma_utf8_len_prefix_increasing(v@, k as int, m);
            }
        }
    }
    None
}

/// The last character position of a line break in `s`, or -1.
pub open spec fn last_newline(s: Seq<char>) -> int
    decreases s.len(),
{
    if s.len() == 0 {
        -1
    } else if s.last() == '\n' {
        s.len() - 1
    } else {
        last_newline(s.drop_last())
    }
}

pub proof fn lemma_last_newline_bounds(s: Seq<char>)
    ensures
        -1 <= last_newline(s) < s.len(),
        last_newline(s) >= 0 ==> s[last_newline(s)] == '\n',
        forall|k: int| last_newline(s) < k < s.len() ==> s[k] != '\n',
    decreases s.len(),
{
    if s.len() > 0 && s.last() != '\n' {
        let t = s.drop_last();
        lemma_last_newline_bounds(t);
        assert forall|k: int| last_newline(s) < k < s.len() implies s[k] != '\n' by {
            if k < t.len() {
                assert(s[k] == t[k]);
            }
        }
    }
}

/// The last line of `s` that holds more than white space, as `str::lines` splits
/// it: lines end at `\n`, and a `\r` just before a `\n` belongs to the line end.
/// `terminated` tells whether `s` itself was followed by a line break.
pub open spec fn last_non_blank_line(s: Seq<char>, terminated: bool) -> Option<Seq<char>>
    decreases s.len(),
{
    let p = last_newline(s);
    let seg = s.subrange(p + 1, s.len() as int);
    let line = if terminated && seg.len() > 0 && seg.last() == '\r' {
        seg.drop_last()
    } else {
        seg
    };
    if !all_white_space(line) {
        Some(line)
    } else if p < 0 {
        None
    } else {
        proof {
            lemma_last_newline_bounds(s);
        }
        last_non_blank_line(s.subrange(0, p), true)
    }
}

/// The position of the last line break before `end`, if any.
fn last_newline_before(v: &Vec<char>, end: usize) -> (r: Option<usize>)
    requires
        end <= v.len(),
    ensures
        match r {
            Some(p) => p < end && p as int == last_newline(v@.take(end as int)),
            None => last_newline(v@.take(end as int)) == -1,
        },
{
    let mut j = end;
    while j > 0
        invariant
            j <= end <= v.len(),
            last_newline(v@.take(end as int)) == last_newline(v@.take(j as int)),
        decreases j,
    {
        assert(v@.take(j as int).last() == v@[j - 1]);
        if v[j - 1] == '\n' {
            return Some(j - 1);
        }
        assert(v@.take(j as int).drop_last() =~= v@.take(j - 1));
        j = j - 1;
    }
    assert(v@.take(0).len() == 0);
    None
}

/// The last line of `s` that holds more than white space (see `last_non_blank_line`).
pub fn last_non_blank_line_exec(s: &str) -> (r: Option<String>)
    ensures
        opt_text(r) == last_non_blank_line(s@, false),
{
    let v = chars_of(s);
    let mut end = v.len();
    let mut terminated = false;
    assert(v@.take(end as int) =~= s@);
    loop
        invariant
            end <= v.len(),
            v@ == s@,
            last_non_blank_line(s@, false) == last_non_blank_line(v@.take(end as int), terminated),
        decreases end,
    {
        let ghost t = v@.take(end as int);
        proof {
            lemma_last_newline_bounds(t);
        }
        let nl = last_newline_before(&v, end);
        let start = match nl {
            Some(p) => p + 1,
            None => 0,
        };
        let mut stop = end;
        if terminated && stop > start && v[stop - 1] == '\r' {
            stop = stop - 1;
        }
        let ghost seg = t.subrange(start as int, end as int);
        assert(v@.subrange(start as int, end as int) =~= seg);
        let line = string_from_chars(&v, start, stop);
        proof {
            if stop < end {
                assert(seg.drop_last() =~= v@.subrange(start as int, stop as int));
            }
        }
        if !is_blank(line.as_str()) {
            return Some(line);
        }
        match nl {
            None => {
                return None;
            },
            Some(p) => {
                assert(t.subrange(0, p as int) =~= v@.take(p as int));
                end = p;
                terminated = true;
            },
        }
    }
}

/// The view of an optional string.
pub open spec fn opt_text(o: Option<String>) -> Option<Seq<char>> {
    match o {
        Some(s) => Some(s@),
        None => None,
    }
}

/// The decimal digits of `n`.
pub open spec fn decimal_digits(n: nat) -> Seq<char>
    decreases n,
{
    if n < 10 {
        seq![(48 + n) as char]
    } else {
        decimal_digits(n / 10) + seq![(48 + n % 10) as char]
    }
}

/// The decimal text of `i`, with a leading `-` when it is negative.
pub open spec fn decimal(i: int) -> Seq<char> {
    if i < 0 {
        seq!['-'] + decimal_digits((-i) as nat)
    } else {
        decimal_digits(i as nat)
    }
}

/// The number that a string of decimal digits spells, most significant digit first.
pub open spec fn digits_value(d: Seq<char>) -> int
    decreases d.len(),
{
    if d.len() == 0 {
        0
    } else {
        digits_value(d.drop_last()) * 10 + (d.last() as int - 48)
    }
}

/// The decimal text of `n` is made of digits only, has no leading zero (`0` is
/// written `0`), and spells `n`.
pub proof fn lemma_decimal_digits_spell(n: nat)
    ensures
        decimal_digits(n).len() > 0,
        forall|k: int|
            0 <= k < decimal_digits(n).len() ==> '0' <= #[trigger] decimal_digits(n)[k] <= '9',
        decimal_digits(n)[0] == '0' ==> n == 0,
        digits_value(decimal_digits(n)) == n,
    decreases n,
{
    if n >= 10 {
        lemma_decimal_digits_spell(n / 10);
        let d = decimal_digits(n);
        let h = decimal_digits(n / 10);
        assert(d == h + seq![(48 + n % 10) as char]);
        assert(d.drop_last() =~= h);
        assert(d[0] == h[0]);
        assert(n / 10 > 0);
        assert(digits_value(d) == digits_value(h) * 10 + n % 10);
        assert(n == (n / 10) * 10 + n % 10);
    } else {
        let d = decimal_digits(n);
        assert(d.drop_last() =~= Seq::<char>::empty());
        assert(digits_value(d.drop_last()) == 0);
    }
}

/// Appends the decimal digits of `n` to `s`.
pub fn push_decimal(s: &mut String, n: u64)
    ensures
        final(s)@ == old(s)@ + decimal_digits(n as nat),
    decreases n,
{
    if n >= 10 {
        push_decimal(s, n / 10);
    }
    let d: u8 = (n % 10) as u8;
    let c: char = (48u8 + d) as char;
    assert(c == (48 + n % 10) as char);
    push_char(s, c);
    assert(s@ =~= old(s)@ + decimal_digits(n as nat));
}

/// The decimal text of `v`, with a leading `-` when it is negative (what `i32::to_string` gives).
pub fn decimal_text(v: i32) -> (r: String)
    ensures
        r@ == decimal(v as int),
{
    let mut s = String::new();
    if v < 0 {
        push_char(&mut s, '-');
        let magnitude: u64 = (0i64 - (v as i64)) as u64;
        push_decimal(&mut s, magnitude);
    } else {
        push_decimal(&mut s, v as u64);
    }
    assert(s@ =~= decimal(v as int));
    s
}

} // verus!
