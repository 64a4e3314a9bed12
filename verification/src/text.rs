//! Character-sequence helpers shared by the string-processing modules.
//! Every exec helper is stated over the `Seq<char>` specs defined here,
//! which follow the behaviour of the corresponding `str` methods.

use vstd::prelude::*;
use vstd::string::StringSliceAdditionalSpecFns;

verus! {

/// Unicode `White_Space`, the set `char::is_whitespace` and `str::trim` use.
pub open spec fn is_ws(c: char) -> bool {
    let u = c as u32;
    (0x9 <= u && u <= 0xD) || u == 0x20 || u == 0x85 || u == 0xA0 || u == 0x1680 || (0x2000 <= u
        && u <= 0x200A) || u == 0x2028 || u == 0x2029 || u == 0x202F || u == 0x205F || u == 0x3000
}

pub fn char_is_ws(c: char) -> (r: bool)
    ensures
        r == is_ws(c),
{
    let u = c as u32;
    (0x9 <= u && u <= 0xD) || u == 0x20 || u == 0x85 || u == 0xA0 || u == 0x1680 || (0x2000 <= u
        && u <= 0x200A) || u == 0x2028 || u == 0x2029 || u == 0x202F || u == 0x205F || u == 0x3000
}

/// `s` without its leading whitespace (`str::trim_start`).
pub open spec fn trim_start(s: Seq<char>) -> Seq<char>
    decreases s.len(),
{
    if s.len() > 0 && is_ws(s[0]) {
        trim_start(s.drop_first())
    } else {
        s
    }
}

/// `s` without its trailing whitespace (`str::trim_end`).
pub open spec fn trim_end(s: Seq<char>) -> Seq<char>
    decreases s.len(),
{
    if s.len() > 0 && is_ws(s.last()) {
        trim_end(s.drop_last())
    } else {
        s
    }
}

/// `str::trim`.
pub open spec fn trim(s: Seq<char>) -> Seq<char> {
    trim_end(trim_start(s))
}

/// ASCII upper-case letters map to lower case; everything else is kept.
pub open spec fn lower(c: char) -> char {
    if 'A' <= c && c <= 'Z' {
        ((c as u32) + 32) as char
    } else {
        c
    }
}

/// `str::to_ascii_lowercase`.
pub open spec fn to_lower(s: Seq<char>) -> Seq<char> {
    s.map_values(|c: char| lower(c))
}

/// Index of the first `c` in `s` (`str::find` with a `char`).
pub open spec fn find_char(s: Seq<char>, c: char) -> Option<int>
    decreases s.len(),
{
    if s.len() == 0 {
        None
    } else {
        match find_char(s.drop_last(), c) {
            Some(i) => Some(i),
            None => if s.last() == c {
                Some(s.len() - 1)
            } else {
                None
            },
        }
    }
}

/// `str::split_once` with a `char` delimiter.
pub open spec fn split_once(s: Seq<char>, c: char) -> Option<(Seq<char>, Seq<char>)> {
    match find_char(s, c) {
        Some(i) => Some((s.take(i), s.skip(i + 1))),
        None => None,
    }
}

/// The text before the first `c`, or all of `s` (`s.split(c).next()`).
pub open spec fn before_char(s: Seq<char>, c: char) -> Seq<char> {
    match find_char(s, c) {
        Some(i) => s.take(i),
        None => s,
    }
}

/// `str::split` with a `char` delimiter: always at least one piece.
pub open spec fn split(s: Seq<char>, c: char) -> Seq<Seq<char>>
    decreases s.len(),
{
    if s.len() == 0 {
        seq![Seq::<char>::empty()]
    } else {
        let prev = split(s.drop_last(), c);
        if s.last() == c {
            prev.push(Seq::<char>::empty())
        } else {
            prev.update(prev.len() - 1, prev.last().push(s.last()))
        }
    }
}

/// The pieces of `parts` separated by `sep` (`[&str]::join`).
pub open spec fn join(parts: Seq<Seq<char>>, sep: Seq<char>) -> Seq<char>
    decreases parts.len(),
{
    if parts.len() == 0 {
        Seq::<char>::empty()
    } else if parts.len() == 1 {
        parts[0]
    } else {
        join(parts.drop_last(), sep) + sep + parts.last()
    }
}

/// `p` stands in `s` at index `i`.
pub open spec fn occurs_at(s: Seq<char>, p: Seq<char>, i: int) -> bool {
    0 <= i && i + p.len() <= s.len() && s.subrange(i, i + p.len()) == p
}

/// First index at or after `i` at which `p` stands in `s`.
pub open spec fn find_from(s: Seq<char>, p: Seq<char>, i: int) -> Option<int>
    decreases s.len() + 1 - i,
{
    if i < 0 || i > s.len() || i + p.len() > s.len() {
        None
    } else if s.subrange(i, i + p.len()) == p {
        Some(i)
    } else {
        find_from(s, p, i + 1)
    }
}

/// `str::starts_with`.
pub open spec fn starts_with(s: Seq<char>, p: Seq<char>) -> bool {
    p.len() <= s.len() && s.take(p.len() as int) == p
}

/// `str::ends_with`.
pub open spec fn ends_with(s: Seq<char>, p: Seq<char>) -> bool {
    p.len() <= s.len() && s.skip(s.len() - p.len()) == p
}

/// `str::strip_prefix`.
pub open spec fn strip_prefix(s: Seq<char>, p: Seq<char>) -> Option<Seq<char>> {
    if starts_with(s, p) {
        Some(s.skip(p.len() as int))
    } else {
        None
    }
}

/// Builds a `String` from characters.
#[verifier::external_body]
pub(crate) fn string_of(v: &[char]) -> (s: String)
    ensures
        s@ == v@,
{
    v.iter().collect()
}

/// Copies the characters of `s` into a vector.
pub fn chars_of(s: &str) -> (v: Vec<char>)
    ensures
        v@ == s@,
{
    let mut v: Vec<char> = Vec::new();
    for c in it: s.chars()
        invariant
            v@ == it.seq().take(it.index() as int),
    {
        v.push(c);
    }
    v
}

/// Appends all of `src` to `dst`.
pub fn push_all(dst: &mut Vec<char>, src: &[char])
    ensures
        final(dst)@ == old(dst)@ + src@,
{
    let mut i: usize = 0;
    while i < src.len()
        invariant
            i <= src@.len(),
            dst@ == old(dst)@ + src@.take(i as int),
        decreases src@.len() - i,
    {
        dst.push(src[i]);
        i = i + 1;
        assert(src@.take(i as int) == src@.take(i - 1).push(src@[i - 1]));
    }
    assert(src@.take(src@.len() as int) == src@);
}

/// Appends the characters of `src` to `dst`.
pub fn push_str(dst: &mut Vec<char>, src: &str)
    ensures
        final(dst)@ == old(dst)@ + src@,
{
    let v = chars_of(src);
    push_all(dst, v.as_slice());
}

/// Copy of `s[from..to]`.
pub fn slice_copy(s: &[char], from: usize, to: usize) -> (r: Vec<char>)
    requires
        from <= to <= s@.len(),
    ensures
        r@ == s@.subrange(from as int, to as int),
{
    let mut r: Vec<char> = Vec::new();
    let mut i = from;
    while i < to
        invariant
            from <= i <= to,
            to <= s@.len(),
            r@ == s@.subrange(from as int, i as int),
        decreases to - i,
    {
        r.push(s[i]);
        i = i + 1;
        assert(s@.subrange(from as int, i as int) == s@.subrange(from as int, i - 1).push(
            s@[i - 1],
        ));
    }
    r
}

/// Character-wise equality.
pub fn chars_eq(a: &[char], b: &[char]) -> (r: bool)
    ensures
        r == (a@ == b@),
{
    if a.len() != b.len() {
        return false;
    }
    let mut i: usize = 0;
    while i < a.len()
        invariant
            i <= a@.len(),
            a@.len() == b@.len(),
            a@.take(i as int) == b@.take(i as int),
        decreases a@.len() - i,
    {
        if a[i] != b[i] {
            assert(a@[i as int] != b@[i as int]);
            return false;
        }
        i = i + 1;
        assert(a@.take(i as int) == a@.take(i - 1).push(a@[i - 1]));
        assert(b@.take(i as int) == b@.take(i - 1).push(b@[i - 1]));
    }
    assert(a@.take(a@.len() as int) == a@);
    assert(b@.take(b@.len() as int) == b@);
    true
}

/// Equality of a character slice with a string.
pub fn chars_eq_str(a: &[char], b: &str) -> (r: bool)
    ensures
        r == (a@ == b@),
{
    let bv = chars_of(b);
    chars_eq(a, bv.as_slice())
}

pub fn lower_char(c: char) -> (r: char)
    ensures
        r == lower(c),
{
    if 'A' <= c && c <= 'Z' {
        let u = (c as u32) + 32;
        assert(u == (c as u32) + 32);
        char_from_ascii(u)
    } else {
        c
    }
}

/// The character with code `u`, for codes below 128.
fn char_from_ascii(u: u32) -> (r: char)
    requires
        u < 128,
    ensures
        r == u as char,
{
    (u as u8) as char
}

/// `str::to_ascii_lowercase` over characters.
pub fn to_lower_chars(s: &[char]) -> (r: Vec<char>)
    ensures
        r@ == to_lower(s@),
{
    let mut r: Vec<char> = Vec::new();
    let mut i: usize = 0;
    while i < s.len()
        invariant
            i <= s@.len(),
            r@ == to_lower(s@.take(i as int)),
        decreases s@.len() - i,
    {
        let c = lower_char(s[i]);
        r.push(c);
        i = i + 1;
        assert(to_lower(s@.take(i as int)) == to_lower(s@.take(i - 1)).push(lower(s@[i - 1])));
    }
    assert(s@.take(s@.len() as int) == s@);
    r
}

proof fn lemma_trim_start_skip(s: Seq<char>, i: int)
    requires
        0 <= i <= s.len(),
        forall|k: int| 0 <= k < i ==> is_ws(#[trigger] s[k]),
    ensures
        trim_start(s) == trim_start(s.skip(i)),
    decreases i,
{
    if i > 0 {
        assert(s.drop_first().skip(i - 1) == s.skip(i));
        lemma_trim_start_skip(s.drop_first(), i - 1);
    } else {
        assert(s.skip(0) == s);
    }
}

proof fn lemma_trim_end_take(s: Seq<char>, j: int)
    requires
        0 <= j <= s.len(),
        forall|k: int| j <= k < s.len() ==> is_ws(#[trigger] s[k]),
    ensures
        trim_end(s) == trim_end(s.take(j)),
    decreases s.len() - j,
{
    if j < s.len() {
        assert(s.drop_last().take(j) == s.take(j));
        lemma_trim_end_take(s.drop_last(), j);
    } else {
        assert(s.take(j) == s);
    }
}

/// `str::trim` over characters.
pub fn trim_chars(s: &[char]) -> (r: Vec<char>)
    ensures
        r@ == trim(s@),
{
    let n = s.len();
    let mut i: usize = 0;
    while i < n && char_is_ws(s[i])
        invariant
            i <= n,
            n == s@.len(),
            forall|k: int| 0 <= k < i ==> is_ws(#[trigger] s@[k]),
        decreases n - i,
    {
        i = i + 1;
    }
    proof {
        lemma_trim_start_skip(s@, i as int);
    }
    let mut j: usize = n;
    while j > i && char_is_ws(s[j - 1])
        invariant
            i <= j <= n,
            n == s@.len(),
            forall|k: int| j <= k < n ==> is_ws(#[trigger] s@[k]),
        decreases j,
    {
        j = j - 1;
    }
    let r = slice_copy(s, i, j);
    proof {
        let t = s@.skip(i as int);
        assert(t.len() == 0 || !is_ws(t[0]));
        assert(trim_start(t) == t);
        lemma_trim_end_take(t, j - i);
        assert(t.take(j - i) == s@.subrange(i as int, j as int));
        let u = t.take(j - i);
        assert(u.len() == 0 || !is_ws(u.last()));
        assert(trim_end(u) == u);
    }
    r
}

/// `str::find` with a `char`.
pub fn find_char_in(s: &[char], c: char) -> (r: Option<usize>)
    ensures
        match r {
            Some(i) => find_char(s@, c) == Some(i as int),
            None => find_char(s@, c) is None,
        },
{
    let mut i: usize = 0;
    while i < s.len()
        invariant
            i <= s@.len(),
            find_char(s@.take(i as int), c) is None,
        decreases s@.len() - i,
    {
        assert(s@.take(i + 1).drop_last() == s@.take(i as int));
        if s[i] == c {
            proof {
                lemma_find_char_prefix(s@, i as int + 1, c);
            }
            return Some(i);
        }
        i = i + 1;
    }
    assert(s@.take(s@.len() as int) == s@);
    None
}

/// A first occurrence found in a prefix is the first occurrence in the whole.
pub proof fn lemma_find_char_prefix(s: Seq<char>, n: int, c: char)
    requires
        0 <= n <= s.len(),
        find_char(s.take(n), c) is Some,
    ensures
        find_char(s, c) == find_char(s.take(n), c),
    decreases s.len() - n,
{
    if n < s.len() {
        assert(s.take(n + 1).drop_last() == s.take(n));
        lemma_find_char_prefix(s, n + 1, c);
    } else {
        assert(s.take(n) == s);
    }
}

/// A found index is within bounds and holds `c`; nothing before it does.
pub proof fn lemma_find_char_props(s: Seq<char>, c: char)
    ensures
        match find_char(s, c) {
            Some(i) => 0 <= i < s.len() && s[i] == c && forall|k: int| 0 <= k < i ==> s[k] != c,
            None => forall|k: int| 0 <= k < s.len() ==> s[k] != c,
        },
    decreases s.len(),
{
    if s.len() > 0 {
        lemma_find_char_props(s.drop_last(), c);
        assert(forall|k: int| 0 <= k < s.len() - 1 ==> s.drop_last()[k] == s[k]);
    }
}

/// `str::split_once` with a `char`, over characters.
pub fn split_once_chars(s: &[char], c: char) -> (r: Option<(Vec<char>, Vec<char>)>)
    ensures
        match r {
            Some((a, b)) => split_once(s@, c) == Some((a@, b@)),
            None => split_once(s@, c) is None,
        },
{
    match find_char_in(s, c) {
        Some(i) => {
            proof {
                lemma_find_char_props(s@, c);
            }
            assert(i < s@.len());
            assert(i < s.len());
            let a = slice_copy(s, 0, i);
            let b = slice_copy(s, i + 1, s.len());
            assert(a@ == s@.take(i as int));
            assert(b@ == s@.skip(i + 1));
            Some((a, b))
        },
        None => None,
    }
}

/// `s.split(c).next()`: the text before the first `c`.
pub fn before_char_chars(s: &[char], c: char) -> (r: Vec<char>)
    ensures
        r@ == before_char(s@, c),
{
    match find_char_in(s, c) {
        Some(i) => {
            proof {
                lemma_find_char_props(s@, c);
            }
            let a = slice_copy(s, 0, i);
            assert(a@ == s@.take(i as int));
            a
        },
        None => slice_copy(s, 0, s.len()),
    }
}

pub proof fn lemma_split_nonempty(s: Seq<char>, c: char)
    ensures
        split(s, c).len() >= 1,
    decreases s.len(),
{
    if s.len() > 0 {
        lemma_split_nonempty(s.drop_last(), c);
    }
}

/// The views of a sequence of character vectors.
pub open spec fn views(v: Seq<Vec<char>>) -> Seq<Seq<char>> {
    v.map_values(|x: Vec<char>| x@)
}

/// `str::split` with a `char`, over characters.
pub fn split_chars(s: &[char], c: char) -> (r: Vec<Vec<char>>)
    ensures
        views(r@) == split(s@, c),
{
    let mut done: Vec<Vec<char>> = Vec::new();
    let mut cur: Vec<char> = Vec::new();
    let mut i: usize = 0;
    while i < s.len()
        invariant
            i <= s@.len(),
            views(done@).push(cur@) == split(s@.take(i as int), c),
        decreases s@.len() - i,
    {
        let ghost prev = split(s@.take(i as int), c);
        assert(s@.take(i + 1).drop_last() == s@.take(i as int));
        if s[i] == c {
            let ghost old_done = done@;
            let finished = cur;
            cur = Vec::new();
            done.push(finished);
            assert(views(done@) =~= views(old_done).push(finished@));
        } else {
            cur.push(s[i]);
            assert(views(done@).push(cur@) =~= prev.update(prev.len() - 1, prev.last().push(
                s@[i as int],
            )));
        }
        i = i + 1;
    }
    assert(s@.take(s@.len() as int) == s@);
    let ghost old_done = done@;
    let ghost last = cur@;
    done.push(cur);
    assert(views(done@) =~= views(old_done).push(last));
    done
}

/// `[&str]::join` over characters.
pub fn join_chars(parts: &Vec<Vec<char>>, sep: &[char]) -> (r: Vec<char>)
    ensures
        r@ == join(views(parts@), sep@),
{
    let mut r: Vec<char> = Vec::new();
    let mut i: usize = 0;
    while i < parts.len()
        invariant
            i <= parts@.len(),
            r@ == join(views(parts@).take(i as int), sep@),
        decreases parts@.len() - i,
    {
        let ghost pv = views(parts@);
        assert(pv.take(i + 1).drop_last() == pv.take(i as int));
        if i > 0 {
            push_all(&mut r, sep);
        } else {
            assert(pv.take(i + 1).len() == 1);
        }
        push_all(&mut r, parts[i].as_slice());
        i = i + 1;
    }
    assert(views(parts@).take(parts@.len() as int) == views(parts@));
    r
}

/// `p` stands at `i` in `s`.
pub fn occurs_at_exec(s: &[char], p: &[char], i: usize) -> (r: bool)
    requires
        i <= s@.len(),
    ensures
        r == (i + p@.len() <= s@.len() && s@.subrange(i as int, i + p@.len()) == p@),
{
    if p.len() > s.len() - i {
        return false;
    }
    let mut k: usize = 0;
    while k < p.len()
        invariant
            k <= p@.len(),
            i + p@.len() <= s@.len(),
            p@.len() == p.len(),
            s@.len() == s.len(),
            s@.subrange(i as int, i + k) == p@.take(k as int),
        decreases p@.len() - k,
    {
        if s[i + k] != p[k] {
            assert(s@.subrange(i as int, i + p@.len())[k as int] != p@[k as int]);
            return false;
        }
        k = k + 1;
        assert(s@.subrange(i as int, i + k) == s@.subrange(i as int, i + k - 1).push(
            s@[i + k - 1],
        ));
        assert(p@.take(k as int) == p@.take(k - 1).push(p@[k - 1]));
    }
    assert(p@.take(p@.len() as int) == p@);
    true
}

/// First index at or after `from` at which `p` stands in `s`.
pub fn find_from_exec(s: &[char], p: &[char], from: usize) -> (r: Option<usize>)
    requires
        from <= s@.len(),
    ensures
        match r {
            Some(i) => find_from(s@, p@, from as int) == Some(i as int),
            None => find_from(s@, p@, from as int) is None,
        },
{
    let mut i = from;
    while i <= s.len()
        invariant
            from <= i,
            find_from(s@, p@, from as int) == find_from(s@, p@, i as int),
        decreases s@.len() + 1 - i,
    {
        if occurs_at_exec(s, p, i) {
            return Some(i);
        }
        if i >= s.len() || p.len() > s.len() - i {
            proof {
                reveal_with_fuel(find_from, 2);
            }
            return None;
        }
        i = i + 1;
    }
    None
}

pub proof fn lemma_find_from_props(s: Seq<char>, p: Seq<char>, i: int)
    requires
        0 <= i,
    ensures
        match find_from(s, p, i) {
            Some(j) => i <= j && occurs_at(s, p, j) && forall|k: int|
                i <= k < j ==> !occurs_at(s, p, k),
            None => forall|k: int| i <= k ==> !occurs_at(s, p, k),
        },
    decreases s.len() + 1 - i,
{
    if i > s.len() || i + p.len() > s.len() {
    } else if s.subrange(i, i + p.len()) == p {
    } else {
        lemma_find_from_props(s, p, i + 1);
    }
}

/// `str::starts_with` over characters.
pub fn starts_with_chars(s: &[char], p: &[char]) -> (r: bool)
    ensures
        r == starts_with(s@, p@),
{
    let r = occurs_at_exec(s, p, 0);
    assert(s@.subrange(0, p@.len() as int) == s@.take(p@.len() as int));
    r
}

/// `str::starts_with` with a string prefix.
pub fn starts_with_str(s: &[char], p: &str) -> (r: bool)
    ensures
        r == starts_with(s@, p@),
{
    let pv = chars_of(p);
    starts_with_chars(s, pv.as_slice())
}

/// `str::ends_with` over characters.
pub fn ends_with_chars(s: &[char], p: &[char]) -> (r: bool)
    ensures
        r == ends_with(s@, p@),
{
    if p.len() > s.len() {
        return false;
    }
    let r = occurs_at_exec(s, p, s.len() - p.len());
    assert(s@.subrange(s@.len() - p@.len(), s@.len() as int) == s@.skip(s@.len() - p@.len()));
    r
}

/// `str::strip_prefix` with a string prefix.
pub fn strip_prefix_str(s: &[char], p: &str) -> (r: Option<Vec<char>>)
    ensures
        match r {
            Some(v) => strip_prefix(s@, p@) == Some(v@),
            None => strip_prefix(s@, p@) is None,
        },
{
    if starts_with_str(s, p) {
        let pl = chars_of(p).len();
        let v = slice_copy(s, pl, s.len());
        assert(v@ == s@.skip(p@.len() as int));
        Some(v)
    } else {
        None
    }
}

/// Each character replaced by the text `f` gives for it.
pub open spec fn flat_map_chars(s: Seq<char>, f: spec_fn(char) -> Seq<char>) -> Seq<char>
    decreases s.len(),
{
    if s.len() == 0 {
        Seq::<char>::empty()
    } else {
        flat_map_chars(s.drop_last(), f) + f(s.last())
    }
}

/// Each byte replaced by the text `f` gives for it.
pub open spec fn flat_map_bytes(s: Seq<u8>, f: spec_fn(u8) -> Seq<char>) -> Seq<char>
    decreases s.len(),
{
    if s.len() == 0 {
        Seq::<char>::empty()
    } else {
        flat_map_bytes(s.drop_last(), f) + f(s.last())
    }
}

pub proof fn lemma_flat_map_chars_step(s: Seq<char>, f: spec_fn(char) -> Seq<char>, i: int)
    requires
        0 <= i < s.len(),
    ensures
        flat_map_chars(s.take(i + 1), f) == flat_map_chars(s.take(i), f) + f(s[i]),
{
    assert(s.take(i + 1).drop_last() == s.take(i));
}

pub proof fn lemma_flat_map_bytes_step(s: Seq<u8>, f: spec_fn(u8) -> Seq<char>, i: int)
    requires
        0 <= i < s.len(),
    ensures
        flat_map_bytes(s.take(i + 1), f) == flat_map_bytes(s.take(i), f) + f(s[i]),
{
    assert(s.take(i + 1).drop_last() == s.take(i));
}

/// Upper-case hexadecimal digit for `n < 16`.
pub open spec fn hex_digit(n: u8) -> char {
    if n < 10 {
        (48 + n) as char
    } else {
        (55 + n) as char
    }
}

/// Lower-case hexadecimal digit for `n < 16` (`format!("{b:02x}")`).
pub open spec fn hex_digit_lower_spec(n: u8) -> char {
    if n < 10 {
        (48 + n) as char
    } else {
        (87 + n) as char
    }
}

pub fn hex_digit_lower(n: u8) -> (r: char)
    requires
        n < 16,
    ensures
        r == hex_digit_lower_spec(n),
{
    if n < 10 {
        char_from_ascii(48 + n as u32)
    } else {
        char_from_ascii(87 + n as u32)
    }
}

/// `%XX` with upper-case hex digits (`format!("%{b:02X}")`).
pub open spec fn percent_byte(b: u8) -> Seq<char> {
    seq!['%', hex_digit(b / 16), hex_digit(b % 16)]
}

pub fn hex_digit_exec(n: u8) -> (r: char)
    requires
        n < 16,
    ensures
        r == hex_digit(n),
{
    if n < 10 {
        char_from_ascii(48 + n as u32)
    } else {
        char_from_ascii(55 + n as u32)
    }
}

/// Appends `%XX` for `b`.
pub fn push_percent_byte(dst: &mut Vec<char>, b: u8)
    ensures
        final(dst)@ == old(dst)@ + percent_byte(b),
{
    dst.push('%');
    let hi = hex_digit_exec(b / 16);
    dst.push(hi);
    let lo = hex_digit_exec(b % 16);
    dst.push(lo);
    assert(final(dst)@ =~= old(dst)@ + percent_byte(b));
}

/// The UTF-8 bytes of `s`.
pub fn bytes_of(s: &str) -> (r: Vec<u8>)
    ensures
        r@ == s.spec_bytes(),
{
    let b = s.as_bytes();
    let mut r: Vec<u8> = Vec::new();
    let mut i: usize = 0;
    while i < b.len()
        invariant
            i <= b@.len(),
            r@ == b@.take(i as int),
        decreases b@.len() - i,
    {
        r.push(b[i]);
        i = i + 1;
        assert(b@.take(i as int) == b@.take(i - 1).push(b@[i - 1]));
    }
    assert(b@.take(b@.len() as int) == b@);
    r
}

/// The character with code `b`, for ASCII bytes.
pub fn ascii_char(b: u8) -> (r: char)
    requires
        b < 128,
    ensures
        r == b as char,
{
    char_from_ascii(b as u32)
}

/// Index of the first character of `s` that is in `stops`.
pub open spec fn find_any(s: Seq<char>, stops: Seq<char>) -> Option<int>
    decreases s.len(),
{
    if s.len() == 0 {
        None
    } else {
        match find_any(s.drop_last(), stops) {
            Some(i) => Some(i),
            None => if stops.contains(s.last()) {
                Some(s.len() - 1)
            } else {
                None
            },
        }
    }
}

/// The text before the first character in `stops` (`s.split([..]).next()`).
pub open spec fn before_any(s: Seq<char>, stops: Seq<char>) -> Seq<char> {
    match find_any(s, stops) {
        Some(i) => s.take(i),
        None => s,
    }
}

/// `str::split_once` with a string delimiter.
pub open spec fn split_once_seq(s: Seq<char>, p: Seq<char>) -> Option<(Seq<char>, Seq<char>)> {
    match find_from(s, p, 0) {
        Some(i) => Some((s.take(i), s.skip(i + p.len()))),
        None => None,
    }
}

pub proof fn lemma_find_any_props(s: Seq<char>, stops: Seq<char>)
    ensures
        match find_any(s, stops) {
            Some(i) => 0 <= i < s.len() && stops.contains(s[i]) && forall|k: int|
                0 <= k < i ==> !stops.contains(#[trigger] s[k]),
            None => forall|k: int| 0 <= k < s.len() ==> !stops.contains(#[trigger] s[k]),
        },
    decreases s.len(),
{
    if s.len() > 0 {
        lemma_find_any_props(s.drop_last(), stops);
        assert(forall|k: int| 0 <= k < s.len() - 1 ==> s.drop_last()[k] == s[k]);
    }
}

proof fn lemma_find_any_prefix(s: Seq<char>, n: int, stops: Seq<char>)
    requires
        0 <= n <= s.len(),
        find_any(s.take(n), stops) is Some,
    ensures
        find_any(s, stops) == find_any(s.take(n), stops),
    decreases s.len() - n,
{
    if n < s.len() {
        assert(s.take(n + 1).drop_last() == s.take(n));
        lemma_find_any_prefix(s, n + 1, stops);
    } else {
        assert(s.take(n) == s);
    }
}

fn contains_char(stops: &[char], c: char) -> (r: bool)
    ensures
        r == stops@.contains(c),
{
    let mut i: usize = 0;
    while i < stops.len()
        invariant
            i <= stops@.len(),
            forall|k: int| 0 <= k < i ==> stops@[k] != c,
        decreases stops@.len() - i,
    {
        if stops[i] == c {
            assert(stops@[i as int] == c);
            return true;
        }
        i = i + 1;
    }
    false
}

/// The text before the first character in `stops`.
pub fn before_any_chars(s: &[char], stops: &[char]) -> (r: Vec<char>)
    ensures
        r@ == before_any(s@, stops@),
{
    let mut i: usize = 0;
    while i < s.len()
        invariant
            i <= s@.len(),
            find_any(s@.take(i as int), stops@) is None,
        decreases s@.len() - i,
    {
        assert(s@.take(i + 1).drop_last() == s@.take(i as int));
        if contains_char(stops, s[i]) {
            proof {
                lemma_find_any_prefix(s@, i as int + 1, stops@);
            }
            return slice_copy(s, 0, i);
        }
        i = i + 1;
    }
    assert(s@.take(s@.len() as int) == s@);
    slice_copy(s, 0, s.len())
}

/// `str::split_once` with a string delimiter, over characters.
pub fn split_once_str_chars(s: &[char], p: &str) -> (r: Option<(Vec<char>, Vec<char>)>)
    ensures
        match r {
            Some((a, b)) => split_once_seq(s@, p@) == Some((a@, b@)),
            None => split_once_seq(s@, p@) is None,
        },
{
    let pv = chars_of(p);
    match find_from_exec(s, pv.as_slice(), 0) {
        Some(i) => {
            proof {
                lemma_find_from_props(s@, p@, 0);
            }
            assert(i + pv@.len() <= s@.len());
            assert(i + pv.len() <= s.len());
            let a = slice_copy(s, 0, i);
            let b = slice_copy(s, i + pv.len(), s.len());
            assert(a@ == s@.take(i as int));
            assert(b@ == s@.skip(i + p@.len()));
            Some((a, b))
        },
        None => None,
    }
}

/// Decimal digits of `n` (`n.to_string()`).
pub open spec fn decimal(n: nat) -> Seq<char>
    decreases n,
{
    if n < 10 {
        seq![(48 + n) as char]
    } else {
        decimal(n / 10) + seq![(48 + n % 10) as char]
    }
}

/// Appends the decimal digits of `n`.
pub fn push_decimal(out: &mut Vec<char>, n: usize)
    ensures
        final(out)@ == old(out)@ + decimal(n as nat),
    decreases n,
{
    if n >= 10 {
        push_decimal(out, n / 10);
    }
    let d = char_from_ascii(48 + (n % 10) as u32);
    out.push(d);
}

/// Appends the decimal digits of a wide unsigned number.
pub fn push_decimal_u128(out: &mut Vec<char>, n: u128)
    ensures
        final(out)@ == old(out)@ + decimal(n as nat),
    decreases n,
{
    if n >= 10 {
        push_decimal_u128(out, n / 10);
    }
    let d = char_from_ascii(48 + (n % 10) as u32);
    out.push(d);
}

/// `str::split` with several single-character delimiters.
pub open spec fn split_any(s: Seq<char>, stops: Seq<char>) -> Seq<Seq<char>>
    decreases s.len(),
{
    if s.len() == 0 {
        seq![Seq::<char>::empty()]
    } else {
        let prev = split_any(s.drop_last(), stops);
        if stops.contains(s.last()) {
            prev.push(Seq::<char>::empty())
        } else {
            prev.update(prev.len() - 1, prev.last().push(s.last()))
        }
    }
}

pub proof fn lemma_split_any_nonempty(s: Seq<char>, stops: Seq<char>)
    ensures
        split_any(s, stops).len() >= 1,
    decreases s.len(),
{
    if s.len() > 0 {
        lemma_split_any_nonempty(s.drop_last(), stops);
    }
}

/// `str::split` with several single-character delimiters, over characters.
pub fn split_any_chars(s: &[char], stops: &[char]) -> (r: Vec<Vec<char>>)
    ensures
        views(r@) == split_any(s@, stops@),
{
    let mut done: Vec<Vec<char>> = Vec::new();
    let mut cur: Vec<char> = Vec::new();
    let mut i: usize = 0;
    while i < s.len()
        invariant
            i <= s@.len(),
            views(done@).push(cur@) == split_any(s@.take(i as int), stops@),
        decreases s@.len() - i,
    {
        let ghost prev = split_any(s@.take(i as int), stops@);
        assert(s@.take(i + 1).drop_last() == s@.take(i as int));
        if contains_char(stops, s[i]) {
            let ghost old_done = done@;
            let finished = cur;
            cur = Vec::new();
            done.push(finished);
            assert(views(done@) =~= views(old_done).push(finished@));
        } else {
            cur.push(s[i]);
            assert(views(done@).push(cur@) =~= prev.update(prev.len() - 1, prev.last().push(
                s@[i as int],
            )));
        }
        i = i + 1;
    }
    assert(s@.take(s@.len() as int) == s@);
    let ghost old_done = done@;
    let ghost last = cur@;
    done.push(cur);
    assert(views(done@) =~= views(old_done).push(last));
    done
}

/// No character of `s` is `c`.
pub open spec fn lacks(s: Seq<char>, c: char) -> bool {
    forall|k: int| 0 <= k < s.len() ==> s[k] != c
}

/// No piece of `parts` holds `c`.
pub open spec fn all_lack(parts: Seq<Seq<char>>, c: char) -> bool {
    forall|i: int| 0 <= i < parts.len() ==> lacks(#[trigger] parts[i], c)
}

pub proof fn lemma_find_char_is(s: Seq<char>, c: char, i: int)
    requires
        0 <= i < s.len(),
        s[i] == c,
        forall|k: int| 0 <= k < i ==> s[k] != c,
    ensures
        find_char(s, c) == Some(i),
{
    lemma_find_char_props(s, c);
}

pub proof fn lemma_find_char_none(s: Seq<char>, c: char)
    requires
        lacks(s, c),
    ensures
        find_char(s, c) is None,
{
    lemma_find_char_props(s, c);
}

/// Splitting `a + b` at its first `c`, where `b` begins with the first `c`.
pub proof fn lemma_split_once_concat(a: Seq<char>, b: Seq<char>, c: char)
    requires
        lacks(a, c),
        b.len() > 0,
        b[0] == c,
    ensures
        split_once(a + b, c) == Some((a, b.drop_first())),
{
    let s = a + b;
    lemma_find_char_is(s, c, a.len() as int);
    assert(s.take(a.len() as int) == a);
    assert(s.skip(a.len() as int + 1) == b.drop_first());
}

/// What `split_once` gives lacks `c` before the delimiter.
pub proof fn lemma_split_once_parts(s: Seq<char>, c: char, d: char)
    ensures
        match split_once(s, c) {
            Some((a, b)) => lacks(a, c) && (lacks(s, d) ==> lacks(a, d) && lacks(b, d)) && s == a
                + seq![c] + b,
            None => lacks(s, c),
        },
{
    lemma_find_char_props(s, c);
    match find_char(s, c) {
        Some(i) => {
            assert(s == s.take(i) + seq![c] + s.skip(i + 1));
        },
        None => {},
    }
}

/// A piece-free text splits into itself.
pub proof fn lemma_split_lacking(s: Seq<char>, c: char)
    requires
        lacks(s, c),
    ensures
        split(s, c) == seq![s],
    decreases s.len(),
{
    if s.len() > 0 {
        assert(lacks(s.drop_last(), c));
        lemma_split_lacking(s.drop_last(), c);
        assert(s.drop_last().push(s.last()) == s);
        assert(seq![s.drop_last()].update(0, s) =~= seq![s]);
    } else {
        assert(s == Seq::<char>::empty());
    }
}

/// Appending `c`-free text extends the last piece.
pub proof fn lemma_split_append(x: Seq<char>, b: Seq<char>, c: char)
    requires
        lacks(b, c),
    ensures
        split(x + b, c) == split(x, c).update(split(x, c).len() - 1, split(x, c).last() + b),
    decreases b.len(),
{
    lemma_split_nonempty(x, c);
    if b.len() == 0 {
        assert(x + b == x);
        assert(split(x, c).last() + b == split(x, c).last());
        assert(split(x, c).update(split(x, c).len() - 1, split(x, c).last()) =~= split(x, c));
    } else {
        let b0 = b.drop_last();
        lemma_split_append(x, b0, c);
        assert((x + b).drop_last() == x + b0);
        assert((x + b).last() == b.last());
        lemma_split_nonempty(x + b0, c);
        assert(split(x, c).last() + b0 + seq![b.last()] =~= split(x, c).last() + b);
        assert((split(x, c).last() + b0).push(b.last()) =~= split(x, c).last() + b);
    }
}

/// Pieces of a split never hold the delimiter, nor anything absent from the text.
pub proof fn lemma_split_pieces(s: Seq<char>, c: char, d: char)
    ensures
        all_lack(split(s, c), c),
        lacks(s, d) ==> all_lack(split(s, c), d),
    decreases s.len(),
{
    lemma_split_nonempty(s, c);
    if s.len() > 0 {
        lemma_split_pieces(s.drop_last(), c, d);
        lemma_split_nonempty(s.drop_last(), c);
        let prev = split(s.drop_last(), c);
        if s.last() != c {
            let np = prev.last().push(s.last());
            assert(lacks(np, c));
            if lacks(s, d) {
                assert(lacks(s.drop_last(), d));
                assert(lacks(np, d));
            }
            assert(forall|i: int|
                0 <= i < prev.len() ==> #[trigger] prev.update(prev.len() - 1, np)[i] == if i
                    == prev.len() - 1 {
                    np
                } else {
                    prev[i]
                });
        } else {
            if lacks(s, d) {
                assert(lacks(s.drop_last(), d));
            }
            assert(forall|i: int|
                0 <= i < prev.len() ==> #[trigger] prev.push(Seq::<char>::empty())[i] == prev[i]);
        }
    }
}

/// Joining lacks `d` when the pieces and the separator do.
pub proof fn lemma_join_lacks(parts: Seq<Seq<char>>, sep: Seq<char>, d: char)
    requires
        all_lack(parts, d),
        lacks(sep, d),
    ensures
        lacks(join(parts, sep), d),
    decreases parts.len(),
{
    if parts.len() > 1 {
        assert(all_lack(parts.drop_last(), d)) by {
            assert(forall|i: int|
                0 <= i < parts.len() - 1 ==> #[trigger] parts.drop_last()[i] == parts[i]);
        }
        lemma_join_lacks(parts.drop_last(), sep, d);
        assert(lacks(parts.last(), d));
    } else if parts.len() == 1 {
        assert(lacks(parts[0], d));
    }
}

/// Splitting what a join made gives the pieces back.
pub proof fn lemma_split_join(parts: Seq<Seq<char>>, c: char)
    requires
        parts.len() >= 1,
        all_lack(parts, c),
    ensures
        split(join(parts, seq![c]), c) == parts,
    decreases parts.len(),
{
    if parts.len() == 1 {
        assert(lacks(parts[0], c));
        lemma_split_lacking(parts[0], c);
        assert(parts =~= seq![parts[0]]);
    } else {
        let init = parts.drop_last();
        assert(all_lack(init, c)) by {
            assert(forall|i: int| 0 <= i < init.len() ==> #[trigger] init[i] == parts[i]);
        }
        lemma_split_join(init, c);
        let a = join(init, seq![c]);
        let ac = a + seq![c];
        assert(ac.drop_last() == a);
        assert(split(ac, c) == split(a, c).push(Seq::<char>::empty()));
        assert(lacks(parts.last(), c));
        lemma_split_append(ac, parts.last(), c);
        assert(join(parts, seq![c]) == ac + parts.last());
        assert(Seq::<char>::empty() + parts.last() == parts.last());
        assert(init.push(Seq::<char>::empty()).update(init.len() as int, parts.last()) =~= parts);
    }
}

/// `str::trim_start_matches` with a `char`.
pub open spec fn trim_start_char(s: Seq<char>, c: char) -> Seq<char>
    decreases s.len(),
{
    if s.len() > 0 && s[0] == c {
        trim_start_char(s.drop_first(), c)
    } else {
        s
    }
}

pub fn trim_start_char_chars(s: &[char], c: char) -> (r: Vec<char>)
    ensures
        r@ == trim_start_char(s@, c),
{
    let mut i: usize = 0;
    assert(s@.skip(0) == s@);
    while i < s.len() && s[i] == c
        invariant
            i <= s@.len(),
            trim_start_char(s@, c) == trim_start_char(s@.skip(i as int), c),
        decreases s@.len() - i,
    {
        assert(s@.skip(i as int).drop_first() == s@.skip(i + 1));
        i = i + 1;
    }
    slice_copy(s, i, s.len())
}

/// `str::trim_end_matches` with a string: every copy of `p` at the end goes.
pub open spec fn trim_end_seq(s: Seq<char>, p: Seq<char>) -> Seq<char>
    decreases s.len(),
{
    if p.len() > 0 && ends_with(s, p) {
        trim_end_seq(s.take(s.len() - p.len()), p)
    } else {
        s
    }
}

pub fn trim_end_seq_chars(s: &[char], p: &[char]) -> (r: Vec<char>)
    ensures
        r@ == trim_end_seq(s@, p@),
{
    let mut j: usize = s.len();
    assert(s@.take(s@.len() as int) == s@);
    while p.len() > 0 && j >= p.len() && occurs_at_exec(s, p, j - p.len())
        invariant
            j <= s@.len(),
            trim_end_seq(s@, p@) == trim_end_seq(s@.take(j as int), p@),
        decreases j,
    {
        let ghost t = s@.take(j as int);
        assert(t.skip(t.len() - p@.len()) == s@.subrange(j - p@.len(), j as int));
        assert(t.take(t.len() - p@.len()) == s@.take(j - p@.len()));
        j = j - p.len();
    }
    proof {
        let t = s@.take(j as int);
        if p@.len() > 0 && j >= p@.len() {
            assert(t.skip(t.len() - p@.len()) == s@.subrange(j - p@.len(), j as int));
        }
    }
    slice_copy(s, 0, j)
}

/// What `str::to_lowercase` gives for `s` (the full Unicode lower-case mapping).
pub uninterp spec fn unicode_lowercase(s: Seq<char>) -> Seq<char>;

/// `str::to_lowercase`: the result is the Unicode lower-case mapping of
/// the argument, a function of the argument alone.
#[verifier::external_body]
pub(crate) fn to_lowercase(s: &str) -> (r: String)
    ensures
        r@ == unicode_lowercase(s@),
{
    s.to_lowercase()
}

/// An ASCII decimal digit.
pub open spec fn is_digit(c: char) -> bool {
    '0' <= c && c <= '9'
}

/// The number the decimal digits `s` spell.
pub open spec fn digits_value(s: Seq<char>) -> nat
    decreases s.len(),
{
    if s.len() == 0 {
        0
    } else {
        digits_value(s.drop_last()) * 10 + ((s.last() as int) - ('0' as int)) as nat
    }
}

/// Non-empty and nothing but digits.
pub open spec fn all_digits(s: Seq<char>) -> bool {
    s.len() > 0 && forall|i: int| 0 <= i < s.len() ==> is_digit(#[trigger] s[i])
}

/// What `str::parse` reads as an unsigned number (before the range check):
/// an optional `+`, then one or more digits.
pub open spec fn parse_nat(s: Seq<char>) -> Option<nat> {
    let d = if s.len() > 0 && s[0] == '+' {
        s.drop_first()
    } else {
        s
    };
    if all_digits(d) {
        Some(digits_value(d))
    } else {
        None
    }
}

/// What `str::parse` reads as a signed number (before the range check):
/// `-` and digits, or what `parse_nat` reads.
pub open spec fn parse_int(s: Seq<char>) -> Option<int> {
    if s.len() > 0 && s[0] == '-' {
        if all_digits(s.drop_first()) {
            Some(-(digits_value(s.drop_first()) as int))
        } else {
            None
        }
    } else {
        match parse_nat(s) {
            Some(v) => Some(v as int),
            None => None,
        }
    }
}

proof fn lemma_digits_value_grows(s: Seq<char>, j: int)
    requires
        0 <= j <= s.len(),
        forall|i: int| 0 <= i < s.len() ==> is_digit(#[trigger] s[i]),
    ensures
        digits_value(s.take(j)) <= digits_value(s),
    decreases s.len() - j,
{
    if j < s.len() {
        lemma_digits_value_grows(s, j + 1);
        assert(s.take(j + 1).drop_last() == s.take(j));
    } else {
        assert(s.take(j) == s);
    }
}

/// The decimal digits `d[from..]` as a number, when it is at most `max`.
fn digits_at_most(d: &[char], from: usize, max: u64) -> (r: Option<u64>)
    requires
        from <= d@.len(),
    ensures
        ({
            let t = d@.skip(from as int);
            match r {
                Some(v) => all_digits(t) && v == digits_value(t) && v <= max,
                None => !all_digits(t) || digits_value(t) > max,
            }
        }),
{
    let ghost t = d@.skip(from as int);
    if from == d.len() {
        return None;
    }
    let mut acc: u64 = 0;
    let mut i: usize = from;
    assert(t.take(0) =~= Seq::<char>::empty());
    while i < d.len()
        invariant
            from <= i <= d@.len(),
            t == d@.skip(from as int),
            forall|k: int| 0 <= k < i - from ==> is_digit(#[trigger] t[k]),
            acc == digits_value(t.take(i - from)),
            acc <= max,
        decreases d@.len() - i,
    {
        let c = d[i];
        if !('0' <= c && c <= '9') {
            assert(!is_digit(t[i - from]));
            return None;
        }
        let dig = (c as u32 - '0' as u32) as u64;
        let next: u128 = (acc as u128) * 10 + (dig as u128);
        assert(t.take(i - from + 1).drop_last() == t.take(i - from));
        assert(t.take(i - from + 1).last() == c);
        if next > max as u128 {
            proof {
                if forall|k: int| 0 <= k < t.len() ==> is_digit(#[trigger] t[k]) {
                    lemma_digits_value_grows(t, i - from + 1);
                }
            }
            return None;
        }
        acc = next as u64;
        i = i + 1;
    }
    assert(t.take(t.len() as int) == t);
    Some(acc)
}

/// `str::parse::<usize>`.
pub fn parse_usize(s: &[char]) -> (r: Option<usize>)
    ensures
        match parse_nat(s@) {
            Some(v) => if v <= usize::MAX {
                r == Some(v as usize)
            } else {
                r is None
            },
            None => r is None,
        },
{
    let from: usize = if s.len() > 0 && s[0] == '+' {
        1
    } else {
        0
    };
    assert(s@.skip(from as int) == if s@.len() > 0 && s@[0] == '+' {
        s@.drop_first()
    } else {
        s@
    });
    match digits_at_most(s, from, usize::MAX as u64) {
        Some(v) => Some(v as usize),
        None => None,
    }
}

/// `str::parse::<u32>`.
pub fn parse_u32(s: &[char]) -> (r: Option<u32>)
    ensures
        match parse_nat(s@) {
            Some(v) => if v <= u32::MAX {
                r == Some(v as u32)
            } else {
                r is None
            },
            None => r is None,
        },
{
    let from: usize = if s.len() > 0 && s[0] == '+' {
        1
    } else {
        0
    };
    assert(s@.skip(from as int) == if s@.len() > 0 && s@[0] == '+' {
        s@.drop_first()
    } else {
        s@
    });
    match digits_at_most(s, from, u32::MAX as u64) {
        Some(v) => Some(v as u32),
        None => None,
    }
}

/// `str::parse::<i32>`.
pub fn parse_i32(s: &[char]) -> (r: Option<i32>)
    ensures
        match parse_int(s@) {
            Some(v) => if i32::MIN <= v <= i32::MAX {
                r == Some(v as i32)
            } else {
                r is None
            },
            None => r is None,
        },
{
    if s.len() > 0 && s[0] == '-' {
        assert(s@.skip(1) == s@.drop_first());
        match digits_at_most(s, 1, 2147483648u64) {
            Some(v) => {
                if v == 2147483648u64 {
                    Some(i32::MIN)
                } else {
                    Some(-(v as i32))
                }
            },
            None => None,
        }
    } else {
        let from: usize = if s.len() > 0 && s[0] == '+' {
            1
        } else {
            0
        };
        assert(s@.skip(from as int) == if s@.len() > 0 && s@[0] == '+' {
            s@.drop_first()
        } else {
            s@
        });
        match digits_at_most(s, from, 2147483647u64) {
            Some(v) => Some(v as i32),
            None => None,
        }
    }
}


/// What `char::to_uppercase` yields for `c` (the full Unicode upper-case
/// mapping, one or more characters).
pub uninterp spec fn unicode_uppercase(c: char) -> Seq<char>;

/// `char::to_uppercase`, collected: the Unicode upper-case mapping of
/// `c`, a function of `c` alone.
#[verifier::external_body]
pub(crate) fn char_to_uppercase(c: char) -> (r: String)
    ensures
        r@ == unicode_uppercase(c),
{
    c.to_uppercase().to_string()
}

/// The upper-cased first character of `s`, or `?` for an empty `s`: the
/// letter on a favicon tile.
pub open spec fn upper_initial(s: Seq<char>) -> Seq<char> {
    unicode_uppercase(if s.len() > 0 { s[0] } else { '?' })
}

/// The tile letter for `s`.
pub fn initial_letter(s: &str) -> (r: String)
    ensures
        r@ == upper_initial(s@),
{
    let v = chars_of(s);
    let c = if v.len() > 0 { v[0] } else { '?' };
    char_to_uppercase(c)
}


/// Decimal digits of a signed number, with `-` in front of a negative one.
pub open spec fn signed_decimal(n: int) -> Seq<char> {
    if n < 0 {
        seq!['-'] + decimal((-n) as nat)
    } else {
        decimal(n as nat)
    }
}

/// Appends `n` as `i64::to_string` writes it.
pub fn push_i64(out: &mut Vec<char>, n: i64)
    ensures
        final(out)@ == old(out)@ + signed_decimal(n as int),
{
    if n < 0 {
        out.push('-');
        let wide: i128 = n as i128;
        let m: u128 = (-wide) as u128;
        push_decimal_u128(out, m);
    } else {
        push_decimal_u128(out, n as u128);
    }
}

} // verus!
