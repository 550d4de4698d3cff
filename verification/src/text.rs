use vstd::prelude::*;

verus! {

/// Whether `c` is white space in the sense of Rust's `char::is_whitespace`,
/// that is, it has the Unicode `White_Space` property.
pub open spec fn is_ws(c: char) -> bool {
    let u = c as u32;
    ||| (0x9 <= u && u <= 0xD)
    ||| u == 0x20
    ||| u == 0x85
    ||| u == 0xA0
    ||| u == 0x1680
    ||| (0x2000 <= u && u <= 0x200A)
    ||| u == 0x2028
    ||| u == 0x2029
    ||| u == 0x202F
    ||| u == 0x205F
    ||| u == 0x3000
}

/// Executable counterpart of [`is_ws`].
pub fn char_is_ws(c: char) -> (r: bool)
    ensures
        r == is_ws(c),
{
    let u = c as u32;
    (0x9 <= u && u <= 0xD) || u == 0x20 || u == 0x85 || u == 0xA0 || u == 0x1680 || (0x2000
        <= u && u <= 0x200A) || u == 0x2028 || u == 0x2029 || u == 0x202F || u == 0x205F || u
        == 0x3000
}

} // verus!

verus! {

/// `s` with its leading white space removed (`str::trim_start`).
pub open spec fn ltrim(s: Seq<char>) -> Seq<char>
    decreases s.len(),
{
    if s.len() > 0 && is_ws(s[0]) {
        ltrim(s.drop_first())
    } else {
        s
    }
}

/// `s` with its trailing white space removed (`str::trim_end`).
pub open spec fn rtrim(s: Seq<char>) -> Seq<char>
    decreases s.len(),
{
    if s.len() > 0 && is_ws(s.last()) {
        rtrim(s.drop_last())
    } else {
        s
    }
}

/// `s` with white space removed at both ends (`str::trim`).
pub open spec fn trim(s: Seq<char>) -> Seq<char> {
    rtrim(ltrim(s))
}

/// Whether every character of `s` is white space (then `trim(s)` is empty).
pub open spec fn all_ws(s: Seq<char>) -> bool {
    forall|i: int| 0 <= i < s.len() ==> is_ws(#[trigger] s[i])
}

proof fn lemma_ltrim_at(s: Seq<char>, k: int)
    requires
        0 <= k <= s.len(),
        forall|j: int| 0 <= j < k ==> is_ws(#[trigger] s[j]),
        k == s.len() || !is_ws(s[k]),
    ensures
        ltrim(s) == s.subrange(k, s.len() as int),
    decreases k,
{
    if k == 0 {
        assert(s.subrange(0, s.len() as int) =~= s);
    } else {
        let t = s.drop_first();
        assert forall|j: int| 0 <= j < k - 1 implies is_ws(#[trigger] t[j]) by {
            assert(t[j] == s[j + 1]);
        }
        lemma_ltrim_at(t, k - 1);
        assert(t.subrange(k - 1, t.len() as int) =~= s.subrange(k, s.len() as int));
    }
}

proof fn lemma_rtrim_at(s: Seq<char>, k: int)
    requires
        0 <= k <= s.len(),
        forall|j: int| k <= j < s.len() ==> is_ws(#[trigger] s[j]),
        k == 0 || !is_ws(s[k - 1]),
    ensures
        rtrim(s) == s.subrange(0, k),
    decreases s.len() - k,
{
    if k == s.len() {
        assert(s.subrange(0, k) =~= s);
    } else {
        let t = s.drop_last();
        assert forall|j: int| k <= j < t.len() implies is_ws(#[trigger] t[j]) by {
            assert(t[j] == s[j]);
        }
        lemma_rtrim_at(t, k);
        assert(t.subrange(0, k) =~= s.subrange(0, k));
    }
}

/// `rtrim(s)` is a prefix of `s` that does not end with white space.
pub proof fn lemma_rtrim_prefix(s: Seq<char>)
    ensures
        rtrim(s).len() <= s.len(),
        rtrim(s) == s.subrange(0, rtrim(s).len() as int),
        rtrim(s).len() > 0 ==> !is_ws(rtrim(s).last()),
    decreases s.len(),
{
    if s.len() > 0 && is_ws(s.last()) {
        lemma_rtrim_prefix(s.drop_last());
        assert(s.drop_last().subrange(0, rtrim(s).len() as int) =~= s.subrange(0, rtrim(s).len() as int));
    } else {
        assert(s.subrange(0, s.len() as int) =~= s);
    }
}

/// `ltrim(s)` does not start with white space.
pub proof fn lemma_ltrim_first(s: Seq<char>)
    ensures
        ltrim(s).len() > 0 ==> !is_ws(ltrim(s)[0]),
    decreases s.len(),
{
    if s.len() > 0 && is_ws(s[0]) {
        lemma_ltrim_first(s.drop_first());
    }
}

/// Trimming twice is trimming once.
pub proof fn lemma_trim_idempotent(s: Seq<char>)
    ensures
        trim(trim(s)) == trim(s),
{
    let l = ltrim(s);
    let t = rtrim(l);
    lemma_ltrim_first(s);
    lemma_rtrim_prefix(l);
    if t.len() > 0 {
        assert(t[0] == l[0]);
        assert(ltrim(t) == t);
        assert(rtrim(t) == t);
    } else {
        assert(ltrim(t) == t);
        assert(rtrim(t) == t);
    }
}

/// The characters `s[a..b]` as a new vector.
pub fn copy_range(s: &Vec<char>, a: usize, b: usize) -> (r: Vec<char>)
    requires
        a <= b <= s.len(),
    ensures
        r@ == s@.subrange(a as int, b as int),
{
    let mut r: Vec<char> = Vec::new();
    let mut i: usize = a;
    while i < b
        invariant
            a <= i <= b <= s.len(),
            r@ == s@.subrange(a as int, i as int),
        decreases b - i,
    {
        r.push(s[i]);
        assert(r@ =~= s@.subrange(a as int, i + 1));
        i = i + 1;
    }
    r
}

/// Index of the first character of `s` that is not white space (or `s.len()`).
fn first_non_ws(s: &Vec<char>) -> (k: usize)
    ensures
        k <= s.len(),
        forall|j: int| 0 <= j < k ==> is_ws(#[trigger] s@[j]),
        k == s.len() || !is_ws(s@[k as int]),
{
    let mut k: usize = 0;
    while k < s.len() && char_is_ws(s[k])
        invariant
            k <= s.len(),
            forall|j: int| 0 <= j < k ==> is_ws(#[trigger] s@[j]),
        decreases s.len() - k,
    {
        k = k + 1;
    }
    k
}

/// One past the index of the last character of `s` that is not white space (or 0).
fn end_non_ws(s: &Vec<char>) -> (k: usize)
    ensures
        k <= s.len(),
        forall|j: int| k <= j < s.len() ==> is_ws(#[trigger] s@[j]),
        k == 0 || !is_ws(s@[k - 1]),
{
    let mut k: usize = s.len();
    while k > 0 && char_is_ws(s[k - 1])
        invariant
            k <= s.len(),
            forall|j: int| k <= j < s.len() ==> is_ws(#[trigger] s@[j]),
        decreases k,
    {
        k = k - 1;
    }
    k
}

/// `str::trim_start` on a character vector.
pub fn trim_start(s: &Vec<char>) -> (r: Vec<char>)
    ensures
        r@ == ltrim(s@),
{
    let k = first_non_ws(s);
    proof {
        lemma_ltrim_at(s@, k as int);
    }
    copy_range(s, k, s.len())
}

/// `str::trim_end` on a character vector.
pub fn trim_end(s: &Vec<char>) -> (r: Vec<char>)
    ensures
        r@ == rtrim(s@),
{
    let k = end_non_ws(s);
    proof {
        lemma_rtrim_at(s@, k as int);
    }
    copy_range(s, 0, k)
}

/// `str::trim` on a character vector.
pub fn trim_chars(s: &Vec<char>) -> (r: Vec<char>)
    ensures
        r@ == trim(s@),
{
    let t = trim_start(s);
    trim_end(&t)
}

} // verus!

verus! {

/// Index of the first `c` in `s`, or `s.len()` when there is none.
pub open spec fn find_char(s: Seq<char>, c: char) -> nat
    decreases s.len(),
{
    if s.len() == 0 {
        0
    } else if s[0] == c {
        0
    } else {
        1 + find_char(s.drop_first(), c)
    }
}

/// `k` is the first position of `c` when no earlier character is `c` and `s[k]`
/// is `c` (or `k` is the end).
pub proof fn lemma_find_char_at(s: Seq<char>, c: char, k: int)
    requires
        0 <= k <= s.len(),
        forall|j: int| 0 <= j < k ==> #[trigger] s[j] != c,
        k == s.len() || s[k] == c,
    ensures
        find_char(s, c) == k,
    decreases k,
{
    if k > 0 {
        let t = s.drop_first();
        assert forall|j: int| 0 <= j < k - 1 implies #[trigger] t[j] != c by {
            assert(t[j] == s[j + 1]);
        }
        lemma_find_char_at(t, c, k - 1);
    }
}

/// A line with one trailing carriage return removed.
pub open spec fn strip_cr(l: Seq<char>) -> Seq<char> {
    if l.len() > 0 && l.last() == '\r' {
        l.drop_last()
    } else {
        l
    }
}

/// The lines of `s` as `str::lines` yields them: split at `'\n'`, a `'\r'` right
/// before the `'\n'` dropped, and no empty last line after a final `'\n'`.
pub open spec fn lines(s: Seq<char>) -> Seq<Seq<char>>
    decreases s.len(),
{
    if s.len() == 0 {
        seq![]
    } else {
        let i = find_char(s, '\n');
        if i >= s.len() {
            seq![s]
        } else {
            seq![strip_cr(s.subrange(0, i as int))] + lines(s.subrange((i + 1) as int, s.len() as int))
        }
    }
}

/// The views of a sequence of character vectors.
pub open spec fn views(v: Seq<Vec<char>>) -> Seq<Seq<char>> {
    v.map_values(|l: Vec<char>| l@)
}

/// `str::lines` on a character vector.
pub fn split_lines(s: &Vec<char>) -> (r: Vec<Vec<char>>)
    ensures
        views(r@) == lines(s@),
{
    let n = s.len();
    let mut r: Vec<Vec<char>> = Vec::new();
    let mut pos: usize = 0;
    assert(s@.subrange(0, n as int) =~= s@);
    while pos < n
        invariant
            n == s.len(),
            pos <= n,
            lines(s@) == views(r@) + lines(s@.subrange(pos as int, n as int)),
        decreases n - pos,
    {
        let ghost rest = s@.subrange(pos as int, n as int);
        let mut j: usize = pos;
        while j < n && s[j] != '\n'
            invariant
                pos <= j <= n,
                n == s.len(),
                forall|k: int| pos <= k < j ==> s@[k] != '\n',
            decreases n - j,
        {
            j = j + 1;
        }
        proof {
            assert forall|k: int| 0 <= k < j - pos implies #[trigger] rest[k] != '\n' by {
                assert(rest[k] == s@[pos + k]);
            }
            lemma_find_char_at(rest, '\n', (j - pos) as int);
        }
        let ghost old_r = r@;
        if j == n {
            let line = copy_range(s, pos, n);
            r.push(line);
            proof {
                assert(views(r@) =~= views(old_r) + seq![rest]);
                assert(s@.subrange(n as int, n as int) =~= Seq::<char>::empty());
            }
            pos = n;
        } else {
            let end = if j > pos && s[j - 1] == '\r' { j - 1 } else { j };
            let line = copy_range(s, pos, end);
            proof {
                assert(rest.subrange(0, (j - pos) as int) =~= s@.subrange(pos as int, j as int));
                assert(rest.subrange((j - pos + 1) as int, rest.len() as int) =~= s@.subrange(
                    j + 1,
                    n as int,
                ));
                assert(line@ =~= strip_cr(s@.subrange(pos as int, j as int)));
            }
            r.push(line);
            proof {
                assert(views(r@) =~= views(old_r) + seq![line@]);
            }
            pos = j + 1;
        }
    }
    proof {
        assert(lines(s@.subrange(n as int, n as int)) =~= Seq::<Seq<char>>::empty());
        assert(views(r@) + Seq::<Seq<char>>::empty() =~= views(r@));
    }
    r
}

} // verus!

verus! {

/// The characters of `s`, in order.
pub fn chars_of(s: &str) -> (r: Vec<char>)
    ensures
        r@ == s@,
{
    broadcast use vstd::string::group_string_axioms;
    let mut r: Vec<char> = Vec::new();
    for c in it: s.chars()
        invariant
            r@ == it.seq().take(it.index() as int),
            it.seq() == s@,
    {
        r.push(c);
    }
    r
}

} // verus!

verus! {

/// The string whose characters are those of `v` (`String::from_iter`).
#[verifier::external_body]
pub(crate) fn string_of(v: &Vec<char>) -> (r: String)
    ensures
        r@ == v@,
{
    v.iter().collect()
}

/// Whether `p` is a prefix of `s` (`str::starts_with`).
pub open spec fn has_prefix(s: Seq<char>, p: Seq<char>) -> bool {
    p.len() <= s.len() && s.subrange(0, p.len() as int) == p
}

/// Whether `p` occurs in `s` at index `i`.
pub open spec fn occurs_at(s: Seq<char>, p: Seq<char>, i: int) -> bool {
    0 <= i && i + p.len() <= s.len() && s.subrange(i, i + p.len()) == p
}

/// Whether `p` occurs anywhere in `s` (`str::contains`).
pub open spec fn has_sub(s: Seq<char>, p: Seq<char>) -> bool {
    exists|i: int| occurs_at(s, p, i)
}

/// `str::starts_with`.
pub fn starts_with(s: &Vec<char>, p: &Vec<char>) -> (r: bool)
    ensures
        r == has_prefix(s@, p@),
{
    if p.len() > s.len() {
        return false;
    }
    let mut i: usize = 0;
    while i < p.len()
        invariant
            i <= p.len() <= s.len(),
            forall|j: int| 0 <= j < i ==> s@[j] == p@[j],
        decreases p.len() - i,
    {
        if s[i] != p[i] {
            assert(s@.subrange(0, p.len() as int)[i as int] != p@[i as int]);
            return false;
        }
        i = i + 1;
    }
    assert(s@.subrange(0, p.len() as int) =~= p@);
    true
}

/// `str::strip_prefix`: what follows `p` in `s`, when `s` starts with `p`.
pub fn strip_prefix(s: &Vec<char>, p: &Vec<char>) -> (r: Option<Vec<char>>)
    ensures
        r is Some <==> has_prefix(s@, p@),
        r matches Some(t) ==> t@ == s@.subrange(p.len() as int, s.len() as int),
{
    if starts_with(s, p) {
        Some(copy_range(s, p.len(), s.len()))
    } else {
        None
    }
}

/// Whether `p` occurs in `s` at index `i` (executable).
fn matches_at(s: &Vec<char>, p: &Vec<char>, i: usize) -> (r: bool)
    requires
        i + p.len() <= s.len(),
    ensures
        r == occurs_at(s@, p@, i as int),
{
    let mut k: usize = 0;
    while k < p.len()
        invariant
            k <= p.len(),
            i + p.len() <= s.len(),
            forall|j: int| 0 <= j < k ==> s@[i + j] == p@[j],
        decreases p.len() - k,
    {
        if s[i + k] != p[k] {
            assert(s@.subrange(i as int, i + p.len())[k as int] != p@[k as int]);
            return false;
        }
        k = k + 1;
    }
    assert(s@.subrange(i as int, i + p.len()) =~= p@);
    true
}

/// `str::contains` with a string pattern.
pub fn contains(s: &Vec<char>, p: &Vec<char>) -> (r: bool)
    ensures
        r == has_sub(s@, p@),
{
    if p.len() > s.len() {
        return false;
    }
    let last = s.len() - p.len();
    let mut i: usize = 0;
    while i <= last
        invariant
            last == s.len() - p.len(),
            p.len() <= s.len(),
            i <= last + 1,
            forall|j: int| 0 <= j < i ==> !occurs_at(s@, p@, j),
        decreases last + 1 - i,
    {
        if matches_at(s, p, i) {
            return true;
        }
        if i == last {
            return false;
        }
        i = i + 1;
    }
    false
}

/// The code of `c` with ASCII upper-case letters mapped to lower case.
pub open spec fn ascii_lower(c: char) -> u32 {
    if 'A' <= c && c <= 'Z' {
        (c as u32 + 32) as u32
    } else {
        c as u32
    }
}

/// Whether `a` and `b` are equal up to ASCII case (`str::eq_ignore_ascii_case`).
pub open spec fn eq_ascii_ci(a: Seq<char>, b: Seq<char>) -> bool {
    a.len() == b.len() && forall|i: int| 0 <= i < a.len() ==> ascii_lower(#[trigger] a[i])
        == ascii_lower(b[i])
}

fn lower_code(c: char) -> (r: u32)
    ensures
        r == ascii_lower(c),
{
    if 'A' <= c && c <= 'Z' {
        c as u32 + 32
    } else {
        c as u32
    }
}

/// `str::eq_ignore_ascii_case`.
pub fn eq_ignore_ascii_case(a: &Vec<char>, b: &Vec<char>) -> (r: bool)
    ensures
        r == eq_ascii_ci(a@, b@),
{
    if a.len() != b.len() {
        return false;
    }
    let mut i: usize = 0;
    while i < a.len()
        invariant
            i <= a.len() == b.len(),
            forall|j: int| 0 <= j < i ==> ascii_lower(#[trigger] a@[j]) == ascii_lower(b@[j]),
        decreases a.len() - i,
    {
        if lower_code(a[i]) != lower_code(b[i]) {
            return false;
        }
        i = i + 1;
    }
    true
}

/// `s` with every `c` replaced by `rep` (`str::replace` with a character pattern).
pub open spec fn replace_char(s: Seq<char>, c: char, rep: Seq<char>) -> Seq<char>
    decreases s.len(),
{
    if s.len() == 0 {
        seq![]
    } else {
        replace_char(s.drop_last(), c, rep) + (if s.last() == c {
            rep
        } else {
            seq![s.last()]
        })
    }
}

/// `str::replace(c, rep)` with a character pattern.
pub fn replace_all_char(s: &Vec<char>, c: char, rep: &Vec<char>) -> (r: Vec<char>)
    ensures
        r@ == replace_char(s@, c, rep@),
{
    let mut r: Vec<char> = Vec::new();
    let mut i: usize = 0;
    while i < s.len()
        invariant
            i <= s.len(),
            r@ == replace_char(s@.subrange(0, i as int), c, rep@),
        decreases s.len() - i,
    {
        let ghost prev = r@;
        if s[i] == c {
            let mut k: usize = 0;
            while k < rep.len()
                invariant
                    k <= rep.len(),
                    r@ == prev + rep@.subrange(0, k as int),
                decreases rep.len() - k,
            {
                r.push(rep[k]);
                assert(r@ =~= prev + rep@.subrange(0, k + 1));
                k = k + 1;
            }
            assert(rep@.subrange(0, rep.len() as int) =~= rep@);
        } else {
            r.push(s[i]);
        }
        assert(s@.subrange(0, i + 1).drop_last() =~= s@.subrange(0, i as int));
        i = i + 1;
    }
    assert(s@.subrange(0, s.len() as int) =~= s@);
    r
}

} // verus!

verus! {

/// Whether `c` is an ASCII decimal digit (`char::is_ascii_digit`).
pub open spec fn is_digit(c: char) -> bool {
    '0' <= c && c <= '9'
}

/// The numeric value of the digit `c`.
pub open spec fn digit_val(c: char) -> nat {
    (c as u32 - '0' as u32) as nat
}

/// Whether every character of `s` is an ASCII digit.
pub open spec fn all_digits(s: Seq<char>) -> bool {
    forall|i: int| 0 <= i < s.len() ==> is_digit(#[trigger] s[i])
}

/// The number that the decimal digits `s` denote.
pub open spec fn digits_value(s: Seq<char>) -> nat
    decreases s.len(),
{
    if s.len() == 0 {
        0
    } else {
        digits_value(s.drop_last()) * 10 + digit_val(s.last())
    }
}

/// What `str::parse::<u64>` gives for a string of ASCII digits.
pub open spec fn parse_u64_spec(s: Seq<char>) -> Option<u64> {
    if s.len() == 0 || digits_value(s) > u64::MAX {
        None
    } else {
        Some(digits_value(s) as u64)
    }
}

proof fn lemma_digits_value_mono(s: Seq<char>, i: int)
    requires
        0 <= i <= s.len(),
    ensures
        digits_value(s.subrange(0, i)) <= digits_value(s),
    decreases s.len() - i,
{
    if i < s.len() {
        let t = s.drop_last();
        lemma_digits_value_mono(t, i);
        assert(t.subrange(0, i) =~= s.subrange(0, i));
    } else {
        assert(s.subrange(0, i) =~= s);
    }
}

/// `str::parse::<u64>` on a string of ASCII digits.
pub fn parse_u64_digits(s: &Vec<char>) -> (r: Option<u64>)
    requires
        all_digits(s@),
    ensures
        r == parse_u64_spec(s@),
{
    if s.len() == 0 {
        return None;
    }
    let mut acc: u64 = 0;
    let mut i: usize = 0;
    while i < s.len()
        invariant
            i <= s.len(),
            all_digits(s@),
            acc == digits_value(s@.subrange(0, i as int)),
        decreases s.len() - i,
    {
        let d = (s[i] as u32 - '0' as u32) as u64;
        proof {
            assert(s@.subrange(0, i + 1).drop_last() =~= s@.subrange(0, i as int));
            lemma_digits_value_mono(s@, i + 1);
        }
        match acc.checked_mul(10) {
            Some(m) => match m.checked_add(d) {
                Some(v) => {
                    acc = v;
                },
                None => {
                    return None;
                },
            },
            None => {
                return None;
            },
        }
        i = i + 1;
    }
    assert(s@.subrange(0, s.len() as int) =~= s@);
    Some(acc)
}

/// What `str::parse::<i32>` gives: an optional `+` or `-`, then one or more ASCII
/// digits, in the range of `i32`.
pub open spec fn parse_i32_spec(s: Seq<char>) -> Option<i32> {
    let (neg, ds) = if s.len() > 0 && s[0] == '-' {
        (true, s.drop_first())
    } else if s.len() > 0 && s[0] == '+' {
        (false, s.drop_first())
    } else {
        (false, s)
    };
    if ds.len() == 0 || !all_digits(ds) {
        None
    } else {
        let v: int = if neg {
            -digits_value(ds)
        } else {
            digits_value(ds) as int
        };
        if i32::MIN <= v && v <= i32::MAX {
            Some(v as i32)
        } else {
            None
        }
    }
}

/// `str::parse::<i32>`.
pub fn parse_i32(s: &Vec<char>) -> (r: Option<i32>)
    ensures
        r == parse_i32_spec(s@),
{
    let (neg, start) = if s.len() > 0 && s[0] == '-' {
        (true, 1usize)
    } else if s.len() > 0 && s[0] == '+' {
        (false, 1usize)
    } else {
        (false, 0usize)
    };
    let ds = copy_range(s, start, s.len());
    proof {
        if start == 1 {
            assert(ds@ =~= s@.drop_first());
        } else {
            assert(ds@ =~= s@);
        }
    }
    if ds.len() == 0 {
        return None;
    }
    let mut i: usize = 0;
    while i < ds.len()
        invariant
            i <= ds.len(),
            forall|j: int| 0 <= j < i ==> is_digit(#[trigger] ds@[j]),
            start == 1 ==> ds@ == s@.drop_first(),
            start == 0 ==> ds@ == s@,
            start == 1 <==> (s@.len() > 0 && (s@[0] == '-' || s@[0] == '+')),
            start <= 1,
        decreases ds.len() - i,
    {
        if !('0' <= ds[i] && ds[i] <= '9') {
            assert(!is_digit(ds@[i as int]));
            assert(!all_digits(ds@));
            return None;
        }
        i = i + 1;
    }
    match parse_u64_digits(&ds) {
        None => None,
        Some(v) => {
            if neg {
                if v <= 2147483648 {
                    let w: i64 = -(v as i64);
                    Some(w as i32)
                } else {
                    None
                }
            } else {
                if v <= 2147483647 {
                    Some(v as i32)
                } else {
                    None
                }
            }
        },
    }
}

/// The view of an optional character vector.
pub open spec fn opt_view(r: Option<Vec<char>>) -> Option<Seq<char>> {
    match r {
        Some(w) => Some(w@),
        None => None,
    }
}

/// Number of characters at the start of `s` that are not white space.
pub open spec fn word_len(s: Seq<char>) -> nat
    decreases s.len(),
{
    if s.len() == 0 || is_ws(s[0]) {
        0
    } else {
        1 + word_len(s.drop_first())
    }
}

proof fn lemma_word_len_at(s: Seq<char>, k: int)
    requires
        0 <= k <= s.len(),
        forall|j: int| 0 <= j < k ==> !is_ws(#[trigger] s[j]),
        k == s.len() || is_ws(s[k]),
    ensures
        word_len(s) == k,
    decreases k,
{
    if k > 0 {
        let t = s.drop_first();
        assert forall|j: int| 0 <= j < k - 1 implies !is_ws(#[trigger] t[j]) by {
            assert(t[j] == s[j + 1]);
        }
        lemma_word_len_at(t, k - 1);
    }
}

/// The first white-space separated word of `s` (`s.split_whitespace().next()`).
pub open spec fn first_word(s: Seq<char>) -> Option<Seq<char>> {
    let t = ltrim(s);
    if t.len() == 0 {
        None
    } else {
        Some(t.subrange(0, word_len(t) as int))
    }
}

/// `s.split_whitespace().next()`.
pub fn first_word_of(s: &Vec<char>) -> (r: Option<Vec<char>>)
    ensures
        opt_view(r) == first_word(s@),
{
    let t = trim_start(s);
    if t.len() == 0 {
        return None;
    }
    let mut k: usize = 0;
    while k < t.len() && !char_is_ws(t[k])
        invariant
            k <= t.len(),
            forall|j: int| 0 <= j < k ==> !is_ws(#[trigger] t@[j]),
        decreases t.len() - k,
    {
        k = k + 1;
    }
    proof {
        lemma_word_len_at(t@, k as int);
    }
    Some(copy_range(&t, 0, k))
}

/// Number of characters at the end of `s` that are not white space.
pub open spec fn tail_word_len(s: Seq<char>) -> nat
    decreases s.len(),
{
    if s.len() == 0 || is_ws(s.last()) {
        0
    } else {
        1 + tail_word_len(s.drop_last())
    }
}

proof fn lemma_tail_word_len_at(s: Seq<char>, k: int)
    requires
        0 <= k <= s.len(),
        forall|j: int| k <= j < s.len() ==> !is_ws(#[trigger] s[j]),
        k == 0 || is_ws(s[k - 1]),
    ensures
        tail_word_len(s) == s.len() - k,
    decreases s.len() - k,
{
    if k < s.len() {
        let t = s.drop_last();
        assert forall|j: int| k <= j < t.len() implies !is_ws(#[trigger] t[j]) by {
            assert(t[j] == s[j]);
        }
        lemma_tail_word_len_at(t, k);
    }
}

/// The last white-space separated word of `s`
/// (`s.split_whitespace().collect::<Vec<_>>().last()`).
pub open spec fn last_word(s: Seq<char>) -> Option<Seq<char>> {
    let t = rtrim(s);
    if t.len() == 0 {
        None
    } else {
        Some(t.subrange(t.len() - tail_word_len(t), t.len() as int))
    }
}

/// The last white-space separated word of `s`.
pub fn last_word_of(s: &Vec<char>) -> (r: Option<Vec<char>>)
    ensures
        opt_view(r) == last_word(s@),
{
    let t = trim_end(s);
    if t.len() == 0 {
        return None;
    }
    let mut k: usize = t.len();
    while k > 0 && !char_is_ws(t[k - 1])
        invariant
            k <= t.len(),
            forall|j: int| k <= j < t.len() ==> !is_ws(#[trigger] t@[j]),
        decreases k,
    {
        k = k - 1;
    }
    proof {
        lemma_tail_word_len_at(t@, k as int);
    }
    Some(copy_range(&t, k, t.len()))
}

} // verus!

verus! {

/// What `str::to_lowercase` gives for `s`: the lower-case mapping of the Unicode
/// standard, applied character by character.
pub uninterp spec fn lowercase(s: Seq<char>) -> Seq<char>;

/// Whether every character of `s` is ASCII.
pub open spec fn is_ascii_text(s: Seq<char>) -> bool {
    forall|i: int| 0 <= i < s.len() ==> (#[trigger] s[i] as u32) < 128
}

/// Whether `r` is `s` with each ASCII capital turned into its small letter and
/// every other character kept.
pub open spec fn ascii_lowered(s: Seq<char>, r: Seq<char>) -> bool {
    &&& r.len() == s.len()
    &&& forall|i: int| 0 <= i < s.len() ==> (#[trigger] r[i] as int) == if 'A' <= s[i] && s[i] <= 'Z' {
        s[i] as int + 32
    } else {
        s[i] as int
    }
}

/// `str::to_lowercase`. The contract names its result `lowercase(s@)`. Of that
/// mapping (Unicode's lower-case mapping, as std documents it) it states only
/// what it does to ASCII text: capitals become small letters and the rest is
/// kept; for other text it states nothing.
#[verifier::external_body]
pub(crate) fn to_lowercase(s: &str) -> (r: String)
    ensures
        r@ == lowercase(s@),
        is_ascii_text(s@) ==> ascii_lowered(s@, r@),
{
    s.to_lowercase()
}

/// `s` with every leading repetition of `p` removed (`str::trim_start_matches`).
pub open spec fn strip_all_prefix(s: Seq<char>, p: Seq<char>) -> Seq<char>
    decreases s.len(),
{
    if p.len() > 0 && has_prefix(s, p) {
        strip_all_prefix(s.subrange(p.len() as int, s.len() as int), p)
    } else {
        s
    }
}

/// `str::trim_start_matches` with a string pattern.
pub fn trim_start_matches(s: &Vec<char>, p: &Vec<char>) -> (r: Vec<char>)
    ensures
        r@ == strip_all_prefix(s@, p@),
{
    let mut cur = copy_range(s, 0, s.len());
    assert(cur@ =~= s@);
    if p.len() == 0 {
        return cur;
    }
    while starts_with(&cur, p)
        invariant
            p.len() > 0,
            strip_all_prefix(s@, p@) == strip_all_prefix(cur@, p@),
        decreases cur.len(),
    {
        cur = copy_range(&cur, p.len(), cur.len());
    }
    cur
}

/// A copy of `s`.
pub fn copy_chars(s: &Vec<char>) -> (r: Vec<char>)
    ensures
        r@ == s@,
{
    let r = copy_range(s, 0, s.len());
    assert(r@ =~= s@);
    r
}

} // verus!

verus! {

/// A `String` holding the characters of `s` (`String::from`).
pub fn lit(s: &str) -> (r: String)
    ensures
        r@ == s@,
{
    s.to_owned()
}

/// `a` followed by `b`, as a new string.
pub fn concat2(a: &str, b: &str) -> (r: String)
    ensures
        r@ == a@ + b@,
{
    let mut r = a.to_owned();
    r.append(b);
    r
}

/// `a`, `b` and `c` one after another, as a new string.
pub fn concat3(a: &str, b: &str, c: &str) -> (r: String)
    ensures
        r@ == a@ + b@ + c@,
{
    let mut r = a.to_owned();
    r.append(b);
    r.append(c);
    r
}

} // verus!

verus! {

/// The decimal digit character of `d` (for `d < 10`).
pub open spec fn digit_char(d: nat) -> char {
    if d == 0 { '0' } else if d == 1 { '1' } else if d == 2 { '2' } else if d == 3 { '3' } else if d == 4 { '4' }
    else if d == 5 { '5' } else if d == 6 { '6' } else if d == 7 { '7' } else if d == 8 { '8' } else { '9' }
}

/// The decimal representation of `n` (as `Display` prints it).
pub open spec fn decimal(n: nat) -> Seq<char>
    decreases n,
{
    if n < 10 {
        seq![digit_char(n)]
    } else {
        decimal(n / 10) + seq![digit_char(n % 10)]
    }
}

fn digit_char_exec(d: u64) -> (c: char)
    requires
        d < 10,
    ensures
        c == digit_char(d as nat),
{
    if d == 0 { '0' } else if d == 1 { '1' } else if d == 2 { '2' } else if d == 3 { '3' } else if d == 4 { '4' }
    else if d == 5 { '5' } else if d == 6 { '6' } else if d == 7 { '7' } else if d == 8 { '8' } else { '9' }
}

/// The decimal digits of `n`.
pub fn decimal_chars(n: u64) -> (r: Vec<char>)
    ensures
        r@ == decimal(n as nat),
    decreases n,
{
    if n < 10 {
        let r = vec![digit_char_exec(n)];
        assert(r@ =~= decimal(n as nat));
        r
    } else {
        let mut r = decimal_chars(n / 10);
        r.push(digit_char_exec(n % 10));
        r
    }
}

/// `n` printed in decimal (`u64::to_string`).
pub fn u64_text(n: u64) -> (r: String)
    ensures
        r@ == decimal(n as nat),
{
    string_of(&decimal_chars(n))
}

/// The decimal representation of `n`, with a minus sign when negative.
pub open spec fn int_decimal(n: int) -> Seq<char> {
    if n < 0 {
        seq!['-'] + decimal((-n) as nat)
    } else {
        decimal(n as nat)
    }
}

/// `n` printed in decimal (`i32::to_string`).
pub fn i32_text(n: i32) -> (r: String)
    ensures
        r@ == int_decimal(n as int),
{
    if n < 0 {
        let m: u64 = (-(n as i64)) as u64;
        let mut v = vec!['-'];
        let ds = decimal_chars(m);
        let mut i: usize = 0;
        while i < ds.len()
            invariant
                i <= ds.len(),
                v@ == seq!['-'] + ds@.subrange(0, i as int),
            decreases ds.len() - i,
        {
            v.push(ds[i]);
            assert(v@ =~= seq!['-'] + ds@.subrange(0, i + 1));
            i = i + 1;
        }
        assert(ds@.subrange(0, ds.len() as int) =~= ds@);
        string_of(&v)
    } else {
        u64_text(n as u64)
    }
}

/// `n` printed in decimal (`i64::to_string`).
pub fn i64_text(n: i64) -> (r: String)
    ensures
        r@ == int_decimal(n as int),
{
    if n < 0 {
        let m: u64 = (-(n as i128)) as u64;
        let mut v = vec!['-'];
        let ds = decimal_chars(m);
        let mut i: usize = 0;
        while i < ds.len()
            invariant
                i <= ds.len(),
                v@ == seq!['-'] + ds@.subrange(0, i as int),
            decreases ds.len() - i,
        {
            v.push(ds[i]);
            assert(v@ =~= seq!['-'] + ds@.subrange(0, i + 1));
            i = i + 1;
        }
        assert(ds@.subrange(0, ds.len() as int) =~= ds@);
        string_of(&v)
    } else {
        u64_text(n as u64)
    }
}

} // verus!
