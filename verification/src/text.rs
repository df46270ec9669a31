//! Character-level text utilities with specifications over `Seq<char>`.

use vstd::prelude::*;
use vstd::string::StringExecFns;

verus! {

/// `String::push`: appends one character at the end of the string.
#[verifier::external_body]
fn push_char(s: &mut String, c: char)
    ensures
        final(s)@ == old(s)@.push(c),
{
    s.push(c);
}

/// The characters of `s`, in order.
pub fn chars_of(s: &str) -> (v: Vec<char>)
    ensures
        v@ == s@,
{
    let n = s.unicode_len();
    let mut v: Vec<char> = Vec::new();
    let mut i: usize = 0;
    while i < n
        invariant
            n == s@.len(),
            i <= n,
            v@ == s@.take(i as int),
        decreases n - i,
    {
        let c = s.get_char(i);
        v.push(c);
        i = i + 1;
        assert(v@ =~= s@.take(i as int));
    }
    assert(v@ =~= s@);
    v
}

/// A string holding the characters `v[from..to]`.
pub fn string_of_range(v: &Vec<char>, from: usize, to: usize) -> (s: String)
    requires
        from <= to <= v.len(),
    ensures
        s@ == v@.subrange(from as int, to as int),
{
    let mut s = String::new();
    let mut i = from;
    while i < to
        invariant
            from <= i <= to <= v.len(),
            s@ == v@.subrange(from as int, i as int),
        decreases to - i,
    {
        push_char(&mut s, v[i]);
        i = i + 1;
        assert(s@ =~= v@.subrange(from as int, i as int));
    }
    s
}

/// A string holding the characters of `v`.
pub fn string_of(v: &Vec<char>) -> (s: String)
    ensures
        s@ == v@,
{
    let s = string_of_range(v, 0, v.len());
    assert(v@.subrange(0, v@.len() as int) =~= v@);
    s
}

/// The decimal digit character for `d < 10`.
pub open spec fn digit_char(d: nat) -> char {
    if d == 0 { '0' }
    else if d == 1 { '1' }
    else if d == 2 { '2' }
    else if d == 3 { '3' }
    else if d == 4 { '4' }
    else if d == 5 { '5' }
    else if d == 6 { '6' }
    else if d == 7 { '7' }
    else if d == 8 { '8' }
    else { '9' }
}

/// The value of an ASCII decimal digit.
pub open spec fn digit_value(c: char) -> nat {
    ((c as u32) - ('0' as u32)) as nat
}

/// Whether `c` is an ASCII decimal digit.
pub open spec fn is_digit(c: char) -> bool {
    '0' <= c && c <= '9'
}

/// The shortest decimal representation of `n` (no sign, no leading zeros).
pub open spec fn decimal(n: nat) -> Seq<char>
    decreases n,
{
    if n < 10 {
        seq![digit_char(n)]
    } else {
        decimal(n / 10).push(digit_char(n % 10))
    }
}

fn digit_char_exec(d: u64) -> (c: char)
    requires
        d < 10,
    ensures
        c == digit_char(d as nat),
{
    if d == 0 { '0' }
    else if d == 1 { '1' }
    else if d == 2 { '2' }
    else if d == 3 { '3' }
    else if d == 4 { '4' }
    else if d == 5 { '5' }
    else if d == 6 { '6' }
    else if d == 7 { '7' }
    else if d == 8 { '8' }
    else { '9' }
}

/// Appends the decimal representation of `n` to `s`.
pub fn push_decimal(s: &mut String, n: u64)
    ensures
        final(s)@ == old(s)@ + decimal(n as nat),
    decreases n,
{
    if n >= 10 {
        push_decimal(s, n / 10);
    }
    push_char(s, digit_char_exec(n % 10));
    assert(s@ =~= old(s)@ + decimal(n as nat));
}


/// The number that the digits `s` spell in base ten.
pub open spec fn digits_value(s: Seq<char>) -> nat
    decreases s.len(),
{
    if s.len() == 0 {
        0
    } else {
        digits_value(s.drop_last()) * 10 + digit_value(s.last())
    }
}

/// Whether every character of `s` is an ASCII decimal digit.
pub open spec fn all_digits(s: Seq<char>) -> bool {
    forall|i: int| 0 <= i < s.len() ==> is_digit(#[trigger] s[i])
}

/// The digits that `u64::from_str` reads: everything after an optional leading `+`.
pub open spec fn unsigned_digits(s: Seq<char>) -> Seq<char> {
    if s.len() > 0 && s[0] == '+' { s.skip(1) } else { s }
}

/// What `u64::from_str` gives for `s`: an optional `+` followed by at least one
/// ASCII digit, with a value that fits in 64 bits.
pub open spec fn parse_u64_spec(s: Seq<char>) -> Option<u64> {
    let d = unsigned_digits(s);
    if d.len() > 0 && all_digits(d) && digits_value(d) <= u64::MAX {
        Some(digits_value(d) as u64)
    } else {
        None
    }
}

proof fn lemma_digits_value_monotone(s: Seq<char>, k: int)
    requires
        0 <= k <= s.len(),
    ensures
        digits_value(s.take(k)) <= digits_value(s),
    decreases s.len() - k,
{
    if k < s.len() {
        lemma_digits_value_monotone(s, k + 1);
        assert(s.take(k + 1).drop_last() =~= s.take(k));
    } else {
        assert(s.take(k) =~= s);
    }
}

/// Parses a decimal `u64` the way `str::parse::<u64>` does.
pub fn parse_u64(s: &str) -> (r: Option<u64>)
    ensures
        r == parse_u64_spec(s@),
{
    let v = chars_of(s);
    let n = v.len();
    let mut i: usize = 0;
    if n > 0 && v[0] == '+' {
        i = 1;
    }
    let start = i;
    let ghost d = unsigned_digits(s@);
    assert(d =~= v@.skip(start as int));
    if start == n {
        return None;
    }
    let mut value: u64 = 0;
    while i < n
        invariant
            start <= i <= n,
            n == v@.len(),
            v@ == s@,
            d == v@.skip(start as int),
            d == unsigned_digits(s@),
            start < n,
            all_digits(v@.subrange(start as int, i as int)),
            value as nat == digits_value(v@.subrange(start as int, i as int)),
        decreases n - i,
    {
        let c = v[i];
        assert(v@.subrange(start as int, i + 1) =~= d.take(i + 1 - start));
        assert(v@.subrange(start as int, i + 1).drop_last() =~= v@.subrange(start as int, i as int));
        if !('0' <= c && c <= '9') {
            assert(!is_digit(d[i - start]));
            return None;
        }
        let digit = (c as u32 - '0' as u32) as u64;
        assert(d.take(i + 1 - start).last() == c);
        assert(digit as nat == digit_value(c));
        match value.checked_mul(10) {
            Some(m) => match m.checked_add(digit) {
                Some(next) => {
                    value = next;
                },
                None => {
                    proof { lemma_digits_value_monotone(d, i + 1 - start); }
                    return None;
                },
            },
            None => {
                proof { lemma_digits_value_monotone(d, i + 1 - start); }
                return None;
            },
        }
        i = i + 1;
        assert(all_digits(v@.subrange(start as int, i as int)));
    }
    assert(v@.subrange(start as int, n as int) =~= d);
    Some(value)
}


proof fn lemma_digit_char_value(d: nat)
    requires
        d < 10,
    ensures
        is_digit(digit_char(d)),
        digit_value(digit_char(d)) == d,
        digit_char(d) != '+',
{
}

proof fn lemma_decimal_digits(n: nat)
    ensures
        decimal(n).len() > 0,
        all_digits(decimal(n)),
        digits_value(decimal(n)) == n,
        decimal(n)[0] != '+',
    decreases n,
{
    lemma_digit_char_value(n % 10);
    if n >= 10 {
        lemma_decimal_digits(n / 10);
        let d = decimal(n / 10).push(digit_char(n % 10));
        assert(d == decimal(n));
        assert(d.drop_last() =~= decimal(n / 10));
        assert(d.last() == digit_char(n % 10));
        assert(digits_value(d) == digits_value(decimal(n / 10)) * 10 + n % 10);
        assert(n == (n / 10) * 10 + n % 10);
        assert forall|i: int| 0 <= i < d.len() implies is_digit(#[trigger] d[i]) by {
            if i < d.len() - 1 {
                assert(d[i] == decimal(n / 10)[i]);
            }
        }
    } else {
        assert(decimal(n).drop_last() =~= Seq::<char>::empty());
        assert(digits_value(Seq::<char>::empty()) == 0);
        assert(decimal(n).last() == digit_char(n));
        assert(digits_value(decimal(n)) == digits_value(decimal(n).drop_last()) * 10 + digit_value(decimal(n).last()));
    }
}

/// Reading back the decimal text of a number gives the number.
pub proof fn lemma_parse_decimal_roundtrip(n: u64)
    ensures
        parse_u64_spec(decimal(n as nat)) == Some(n),
{
    lemma_decimal_digits(n as nat);
}

/// Whether `sep` occurs in `s` at position `i`.
pub open spec fn matches_at(s: Seq<char>, sep: Seq<char>, i: int) -> bool {
    0 <= i && i + sep.len() <= s.len() && s.subrange(i, i + sep.len()) == sep
}

/// The first position at or after `i` where `sep` occurs in `s`, or -1.
pub open spec fn find_from(s: Seq<char>, sep: Seq<char>, i: int) -> int
    decreases s.len() - i,
{
    if i < 0 || i + sep.len() > s.len() {
        -1
    } else if matches_at(s, sep, i) {
        i
    } else if i >= s.len() {
        -1
    } else {
        find_from(s, sep, i + 1)
    }
}

pub proof fn lemma_find_from_bounds(s: Seq<char>, sep: Seq<char>, i: int)
    requires
        0 <= i,
        sep.len() > 0,
    ensures
        find_from(s, sep, i) == -1 || (i <= find_from(s, sep, i) && matches_at(
            s,
            sep,
            find_from(s, sep, i),
        )),
        forall|j: int|
            #![trigger matches_at(s, sep, j)]
            i <= j && (find_from(s, sep, i) == -1 || j < find_from(s, sep, i)) ==> !matches_at(
                s,
                sep,
                j,
            ),
    decreases s.len() - i,
{
    if i < 0 || i + sep.len() > s.len() {
    } else if matches_at(s, sep, i) {
    } else if i >= s.len() {
    } else {
        lemma_find_from_bounds(s, sep, i + 1);
    }
}

/// `str::split` with a non-empty separator: the pieces between the
/// leftmost non-overlapping occurrences of `sep`.
pub open spec fn split_on(s: Seq<char>, sep: Seq<char>) -> Seq<Seq<char>>
    decreases s.len(),
{
    if sep.len() == 0 {
        seq![s]
    } else {
        let k = find_from(s, sep, 0);
        if k < 0 {
            seq![s]
        } else {
            proof {
                lemma_find_from_bounds(s, sep, 0);
            }
            seq![s.take(k)] + split_on(s.skip(k + sep.len()), sep)
        }
    }
}

/// Finds the first occurrence of `sep` in `v` at or after `i`.
pub fn find_chars(v: &Vec<char>, sep: &Vec<char>, i: usize) -> (r: Option<usize>)
    requires
        i <= v.len(),
        sep.len() > 0,
    ensures
        match r {
            Some(k) => find_from(v@, sep@, i as int) == k as int,
            None => find_from(v@, sep@, i as int) == -1,
        },
{
    let n = v.len();
    let m = sep.len();
    let mut j = i;
    while j <= n && m <= n - j
        invariant
            i <= j,
            n == v@.len(),
            m == sep@.len(),
            find_from(v@, sep@, i as int) == find_from(v@, sep@, j as int),
            m > 0,
        decreases n - j,
    {
        let mut t: usize = 0;
        let mut same = true;
        assert(v@.subrange(j as int, j as int) =~= sep@.take(0));
        while t < m
            invariant
                t <= m,
                j + m <= n,
                n == v@.len(),
                m == sep@.len(),
                same == (v@.subrange(j as int, j + t) == sep@.take(t as int)),
            decreases m - t,
        {
            if v[j + t] != sep[t] {
                assert(v@.subrange(j as int, j + t + 1)[t as int] != sep@.take(t + 1)[t as int]);
                same = false;
            } else if same {
                assert(v@.subrange(j as int, j + t + 1) =~= sep@.take(t + 1));
            }
            if !same {
                assert(v@.subrange(j as int, j + t + 1).take(t as int) =~= v@.subrange(j as int, j + t));
                assert(sep@.take(t + 1).take(t as int) =~= sep@.take(t as int));
            }
            t = t + 1;
        }
        assert(sep@.take(m as int) =~= sep@);
        if same {
            return Some(j);
        }
        j = j + 1;
    }
    None
}

proof fn lemma_find_from_skip(s: Seq<char>, sep: Seq<char>, a: int, j: int)
    requires
        0 <= a <= s.len(),
        sep.len() > 0,
        0 <= j,
    ensures
        find_from(s.skip(a), sep, j) == (if find_from(s, sep, a + j) < 0 {
            -1
        } else {
            find_from(s, sep, a + j) - a
        }),
    decreases s.len() - a - j,
{
    let t = s.skip(a);
    if j + sep.len() > t.len() {
    } else {
        assert(t.subrange(j, j + sep.len()) =~= s.subrange(a + j, a + j + sep.len()));
        if !matches_at(t, sep, j) {
            lemma_find_from_skip(s, sep, a, j + 1);
        }
    }
}

/// Splits `v` at every leftmost non-overlapping occurrence of `sep`, as `str::split` does.
pub fn split_chars(v: &Vec<char>, sep: &Vec<char>) -> (r: Vec<Vec<char>>)
    requires
        sep.len() > 0,
    ensures
        r.len() == split_on(v@, sep@).len(),
        forall|k: int| 0 <= k < r.len() ==> #[trigger] r[k]@ == split_on(v@, sep@)[k],
{
    let n = v.len();
    let m = sep.len();
    let mut parts: Vec<Vec<char>> = Vec::new();
    let ghost mut done: Seq<Seq<char>> = seq![];
    let mut start: usize = 0;
    assert(v@.skip(0) =~= v@);
    loop
        invariant
            start <= n,
            n == v@.len(),
            m == sep@.len(),
            m > 0,
            parts.len() == done.len(),
            forall|k: int| 0 <= k < parts.len() ==> #[trigger] parts[k]@ == done[k],
            done + split_on(v@.skip(start as int), sep@) == split_on(v@, sep@),
        decreases n - start,
    {
        let ghost t = v@.skip(start as int);
        proof {
            lemma_find_from_skip(v@, sep@, start as int, 0);
            lemma_find_from_bounds(v@, sep@, start as int);
        }
        match find_chars(v, sep, start) {
            Some(k) => {
                let piece = slice_chars(v, start, k);
                assert(piece@ =~= t.take(k - start));
                assert(t.skip(k - start + m) =~= v@.skip(k + m));
                proof {
                    done = done.push(piece@);
                }
                parts.push(piece);
                start = k + m;
            },
            None => {
                let piece = slice_chars(v, start, n);
                assert(piece@ =~= t);
                proof {
                    done = done.push(piece@);
                }
                parts.push(piece);
                assert(done =~= split_on(v@, sep@));
                return parts;
            },
        }
    }
}

/// A copy of `v[from..to]`.
pub fn slice_chars(v: &Vec<char>, from: usize, to: usize) -> (r: Vec<char>)
    requires
        from <= to <= v.len(),
    ensures
        r@ == v@.subrange(from as int, to as int),
{
    let mut r: Vec<char> = Vec::new();
    let mut i = from;
    while i < to
        invariant
            from <= i <= to <= v.len(),
            r@ == v@.subrange(from as int, i as int),
        decreases to - i,
    {
        r.push(v[i]);
        i = i + 1;
        assert(r@ =~= v@.subrange(from as int, i as int));
    }
    r
}


/// Unicode `White_Space`, the property that `char::is_whitespace` tests.
pub open spec fn is_ws(c: char) -> bool {
    let u = c as u32;
    (0x09 <= u && u <= 0x0d) || u == 0x20 || u == 0x85 || u == 0xa0 || u == 0x1680 || (0x2000 <= u
        && u <= 0x200a) || u == 0x2028 || u == 0x2029 || u == 0x202f || u == 0x205f || u == 0x3000
}

/// Whether `c` is Unicode white space.
pub fn is_whitespace(c: char) -> (b: bool)
    ensures
        b == is_ws(c),
{
    let u = c as u32;
    (0x09 <= u && u <= 0x0d) || u == 0x20 || u == 0x85 || u == 0xa0 || u == 0x1680 || (0x2000 <= u
        && u <= 0x200a) || u == 0x2028 || u == 0x2029 || u == 0x202f || u == 0x205f || u == 0x3000
}

/// `s` without its leading white space.
pub open spec fn trim_start(s: Seq<char>) -> Seq<char>
    decreases s.len(),
{
    if s.len() > 0 && is_ws(s[0]) {
        trim_start(s.drop_first())
    } else {
        s
    }
}

/// `s` without its trailing white space.
pub open spec fn trim_end(s: Seq<char>) -> Seq<char>
    decreases s.len(),
{
    if s.len() > 0 && is_ws(s.last()) {
        trim_end(s.drop_last())
    } else {
        s
    }
}

/// `str::trim`: `s` without leading and trailing white space.
pub open spec fn trim(s: Seq<char>) -> Seq<char> {
    trim_end(trim_start(s))
}

proof fn lemma_trim_start_at(s: Seq<char>, i: int)
    requires
        0 <= i <= s.len(),
        forall|k: int| 0 <= k < i ==> is_ws(#[trigger] s[k]),
        i == s.len() || !is_ws(s[i]),
    ensures
        trim_start(s) == s.skip(i),
    decreases i,
{
    if i > 0 {
        assert(s.drop_first().skip(i - 1) =~= s.skip(i));
        assert forall|k: int| 0 <= k < i - 1 implies is_ws(#[trigger] s.drop_first()[k]) by {
            assert(s.drop_first()[k] == s[k + 1]);
        }
        lemma_trim_start_at(s.drop_first(), i - 1);
    } else {
        assert(s.skip(0) =~= s);
    }
}

proof fn lemma_trim_end_at(s: Seq<char>, j: int)
    requires
        0 <= j <= s.len(),
        forall|k: int| j <= k < s.len() ==> is_ws(#[trigger] s[k]),
        j == 0 || !is_ws(s[j - 1]),
    ensures
        trim_end(s) == s.take(j),
    decreases s.len() - j,
{
    if j < s.len() {
        assert(s.drop_last().take(j) =~= s.take(j));
        assert forall|k: int| j <= k < s.len() - 1 implies is_ws(#[trigger] s.drop_last()[k]) by {
            assert(s.drop_last()[k] == s[k]);
        }
        lemma_trim_end_at(s.drop_last(), j);
    } else {
        assert(s.take(j) =~= s);
    }
}

/// The bounds `(i, j)` such that `v[i..j]` is `v` trimmed of white space.
pub fn trim_bounds(v: &Vec<char>) -> (r: (usize, usize))
    ensures
        r.0 <= r.1 <= v.len(),
        v@.subrange(r.0 as int, r.1 as int) == trim(v@),
{
    let n = v.len();
    let mut i: usize = 0;
    while i < n && is_whitespace(v[i])
        invariant
            i <= n,
            n == v@.len(),
            forall|k: int| 0 <= k < i ==> is_ws(#[trigger] v@[k]),
        decreases n - i,
    {
        i = i + 1;
    }
    proof {
        lemma_trim_start_at(v@, i as int);
    }
    let ghost t = v@.skip(i as int);
    let mut j: usize = n;
    while j > i && is_whitespace(v[j - 1])
        invariant
            i <= j <= n,
            n == v@.len(),
            t == v@.skip(i as int),
            forall|k: int| j <= k < n ==> is_ws(#[trigger] v@[k]),
        decreases j - i,
    {
        j = j - 1;
    }
    proof {
        assert forall|k: int| j - i <= k < t.len() implies is_ws(#[trigger] t[k]) by {
            assert(t[k] == v@[k + i]);
        }
        lemma_trim_end_at(t, j - i);
        assert(t.take(j - i) =~= v@.subrange(i as int, j as int));
    }
    (i, j)
}

/// `str::trim` on a character vector.
pub fn trim_chars(v: &Vec<char>) -> (r: Vec<char>)
    ensures
        r@ == trim(v@),
{
    let (i, j) = trim_bounds(v);
    slice_chars(v, i, j)
}

/// Length of the run of non-white-space characters at the start of `s`.
pub open spec fn token_len(s: Seq<char>) -> nat
    decreases s.len(),
{
    if s.len() == 0 || is_ws(s[0]) {
        0
    } else {
        1 + token_len(s.drop_first())
    }
}

proof fn lemma_token_len(s: Seq<char>, k: int)
    requires
        0 <= k <= s.len(),
        forall|i: int| 0 <= i < k ==> !is_ws(#[trigger] s[i]),
        k == s.len() || is_ws(s[k]),
    ensures
        token_len(s) == k,
    decreases k,
{
    if k > 0 {
        assert forall|i: int| 0 <= i < k - 1 implies !is_ws(#[trigger] s.drop_first()[i]) by {
            assert(s.drop_first()[i] == s[i + 1]);
        }
        lemma_token_len(s.drop_first(), k - 1);
    }
}

pub proof fn lemma_token_len_bound(s: Seq<char>)
    ensures
        token_len(s) <= s.len(),
        s.len() > 0 && !is_ws(s[0]) ==> token_len(s) > 0,
    decreases s.len(),
{
    if s.len() > 0 && !is_ws(s[0]) {
        lemma_token_len_bound(s.drop_first());
    }
}

/// `str::split_whitespace`: the maximal runs of non-white-space characters.
pub open spec fn ws_tokens(s: Seq<char>) -> Seq<Seq<char>>
    decreases s.len(),
{
    if s.len() == 0 {
        seq![]
    } else if is_ws(s[0]) {
        ws_tokens(s.drop_first())
    } else {
        proof {
            lemma_token_len_bound(s);
        }
        seq![s.take(token_len(s) as int)] + ws_tokens(s.skip(token_len(s) as int))
    }
}

proof fn lemma_token_prefix(s: Seq<char>)
    ensures
        forall|i: int| 0 <= i < token_len(s) ==> !is_ws(#[trigger] s[i]),
        token_len(s) < s.len() ==> is_ws(s[token_len(s) as int]),
    decreases s.len(),
{
    if s.len() > 0 && !is_ws(s[0]) {
        lemma_token_prefix(s.drop_first());
        lemma_token_len_bound(s.drop_first());
        assert forall|i: int| 0 <= i < token_len(s) implies !is_ws(#[trigger] s[i]) by {
            if i > 0 {
                assert(s[i] == s.drop_first()[i - 1]);
            }
        }
        if token_len(s) < s.len() {
            assert(s[token_len(s) as int] == s.drop_first()[token_len(s) - 1]);
        }
    }
}

/// Every word is non-empty and holds no white space.
pub proof fn lemma_ws_tokens_are_words(s: Seq<char>)
    ensures
        forall|k: int| 0 <= k < ws_tokens(s).len() ==> (#[trigger] ws_tokens(s)[k]).len() > 0,
        forall|k: int, j: int|
            0 <= k < ws_tokens(s).len() && 0 <= j < ws_tokens(s)[k].len() ==> !is_ws(
                #[trigger] ws_tokens(s)[k][j],
            ),
    decreases s.len(),
{
    if s.len() == 0 {
    } else if is_ws(s[0]) {
        lemma_ws_tokens_are_words(s.drop_first());
        assert(ws_tokens(s) == ws_tokens(s.drop_first()));
    } else {
        lemma_token_len_bound(s);
        lemma_token_prefix(s);
        let n = token_len(s) as int;
        let rest = s.skip(n);
        lemma_ws_tokens_are_words(rest);
        let w = s.take(n);
        assert(ws_tokens(s) == seq![w] + ws_tokens(rest));
        assert forall|k: int| 0 <= k < ws_tokens(s).len() implies (#[trigger] ws_tokens(s)[k]).len()
            > 0 by {
            if k > 0 {
                assert(ws_tokens(s)[k] == ws_tokens(rest)[k - 1]);
            } else {
                assert(ws_tokens(s)[0] == w);
            }
        }
        assert forall|k: int, j: int|
            0 <= k < ws_tokens(s).len() && 0 <= j < ws_tokens(s)[k].len() implies !is_ws(
            #[trigger] ws_tokens(s)[k][j],
        ) by {
            if k > 0 {
                assert(ws_tokens(s)[k] == ws_tokens(rest)[k - 1]);
            } else {
                assert(ws_tokens(s)[0] == w);
                assert(w[j] == s[j]);
            }
        }
    }
}

/// No line holds a line feed.
pub proof fn lemma_lines_hold_no_newline(s: Seq<char>)
    ensures
        forall|k: int| 0 <= k < text_lines(s).len() ==> !(#[trigger] text_lines(s)[k]).contains('\n'),
    decreases s.len(),
{
    if s.len() > 0 {
        let k0 = find_from(s, seq!['\n'], 0);
        lemma_find_from_bounds(s, seq!['\n'], 0);
        if k0 < 0 {
            assert forall|j: int| 0 <= j < s.len() implies s[j] != '\n' by {
                if s[j] == '\n' {
                    assert(s.subrange(j, j + 1) =~= seq!['\n']);
                    assert(matches_at(s, seq!['\n'], j));
                }
            }
        } else {
            lemma_lines_hold_no_newline(s.skip(k0 + 1));
            let line = strip_cr(s.take(k0));
            assert forall|j: int| 0 <= j < s.take(k0).len() implies s.take(k0)[j] != '\n' by {
                if s[j] == '\n' {
                    assert(s.subrange(j, j + 1) =~= seq!['\n']);
                    assert(matches_at(s, seq!['\n'], j));
                }
            }
            assert forall|j: int| 0 <= j < line.len() implies line[j] != '\n' by {
                assert(line[j] == s.take(k0)[j]);
            }
            assert forall|k: int| 0 <= k < text_lines(s).len() implies !(
            #[trigger] text_lines(s)[k]).contains('\n') by {
                if k > 0 {
                    assert(text_lines(s)[k] == text_lines(s.skip(k0 + 1))[k - 1]);
                } else {
                    assert(text_lines(s)[0] == line);
                }
            }
        }
    }
}

/// `str::split_whitespace` on a character vector.
pub fn split_whitespace_chars(v: &Vec<char>) -> (r: Vec<Vec<char>>)
    ensures
        r.len() == ws_tokens(v@).len(),
        forall|k: int| 0 <= k < r.len() ==> #[trigger] r[k]@ == ws_tokens(v@)[k],
{
    let n = v.len();
    let mut parts: Vec<Vec<char>> = Vec::new();
    let ghost mut done: Seq<Seq<char>> = seq![];
    let mut i: usize = 0;
    assert(v@.skip(0) =~= v@);
    while i < n
        invariant
            i <= n,
            n == v@.len(),
            parts.len() == done.len(),
            forall|k: int| 0 <= k < parts.len() ==> #[trigger] parts[k]@ == done[k],
            done + ws_tokens(v@.skip(i as int)) == ws_tokens(v@),
        decreases n - i,
    {
        let ghost t = v@.skip(i as int);
        if is_whitespace(v[i]) {
            assert(t.drop_first() =~= v@.skip(i + 1));
            i = i + 1;
        } else {
            let mut j = i + 1;
            while j < n && !is_whitespace(v[j])
                invariant
                    i < j <= n,
                    n == v@.len(),
                    forall|k: int| i <= k < j ==> !is_ws(#[trigger] v@[k]),
                decreases n - j,
            {
                j = j + 1;
            }
            proof {
                assert forall|k: int| 0 <= k < j - i implies !is_ws(#[trigger] t[k]) by {
                    assert(t[k] == v@[k + i]);
                }
                lemma_token_len(t, j - i);
            }
            let piece = slice_chars(v, i, j);
            assert(piece@ =~= t.take(j - i));
            assert(t.skip(j - i) =~= v@.skip(j as int));
            proof {
                done = done.push(piece@);
            }
            parts.push(piece);
            i = j;
        }
    }
    assert(v@.skip(n as int) =~= Seq::<char>::empty());
    assert(done =~= ws_tokens(v@));
    parts
}

/// Whether two character vectors hold the same characters.
pub fn chars_eq(a: &Vec<char>, b: &Vec<char>) -> (r: bool)
    ensures
        r == (a@ == b@),
{
    if a.len() != b.len() {
        return false;
    }
    let mut i: usize = 0;
    while i < a.len()
        invariant
            a.len() == b.len(),
            i <= a.len(),
            forall|k: int| 0 <= k < i ==> a@[k] == b@[k],
        decreases a.len() - i,
    {
        if a[i] != b[i] {
            return false;
        }
        i = i + 1;
    }
    assert(a@ =~= b@);
    true
}

/// Whether two strings hold the same characters.
pub fn str_eq(a: &str, b: &str) -> (r: bool)
    ensures
        r == (a@ == b@),
{
    let va = chars_of(a);
    let vb = chars_of(b);
    chars_eq(&va, &vb)
}

/// Whether `s` starts with `p`.
pub fn starts_with(s: &Vec<char>, p: &str) -> (r: bool)
    ensures
        r == (p@.len() <= s@.len() && s@.take(p@.len() as int) == p@),
{
    let w = chars_of(p);
    if w.len() > s.len() {
        return false;
    }
    let head = slice_chars(s, 0, w.len());
    assert(head@ =~= s@.take(w@.len() as int));
    chars_eq(&head, &w)
}

/// The name for what `str::to_lowercase` returns: the Unicode lower-case mapping of `s`.
pub uninterp spec fn lowercase(s: Seq<char>) -> Seq<char>;

/// `str::to_lowercase`. Its result is named by `lowercase`; the Unicode
/// case tables that define it are not restated here.
#[verifier::external_body]
pub fn to_lowercase(s: &str) -> (r: String)
    ensures
        r@ == lowercase(s@),
{
    s.to_lowercase()
}


/// A line without the one carriage return that may end it.
pub open spec fn strip_cr(l: Seq<char>) -> Seq<char> {
    if l.len() > 0 && l.last() == '\r' { l.drop_last() } else { l }
}

/// `str::lines`: the pieces between `\n` line ends, each without a `\r`
/// just before its `\n`; a final line end starts no further line.
pub open spec fn text_lines(s: Seq<char>) -> Seq<Seq<char>>
    decreases s.len(),
{
    if s.len() == 0 {
        seq![]
    } else {
        let k = find_from(s, seq!['\n'], 0);
        if k < 0 {
            seq![s]
        } else {
            proof {
                lemma_find_from_bounds(s, seq!['\n'], 0);
            }
            seq![strip_cr(s.take(k))] + text_lines(s.skip(k + 1))
        }
    }
}

/// `str::lines` on a string, giving each line as a `String`.
pub fn lines_of(s: &str) -> (r: Vec<String>)
    ensures
        r.len() == text_lines(s@).len(),
        forall|k: int| 0 <= k < r.len() ==> #[trigger] r[k]@ == text_lines(s@)[k],
{
    let v = chars_of(s);
    let n = v.len();
    let nl = vec!['\n'];
    assert(nl@ =~= seq!['\n']);
    let mut out: Vec<String> = Vec::new();
    let ghost mut done: Seq<Seq<char>> = seq![];
    let mut start: usize = 0;
    assert(v@.skip(0) =~= v@);
    while start < n
        invariant
            start <= n,
            n == v@.len(),
            v@ == s@,
            nl@ == seq!['\n'],
            out.len() == done.len(),
            forall|k: int| 0 <= k < out.len() ==> #[trigger] out[k]@ == done[k],
            done + text_lines(v@.skip(start as int)) == text_lines(s@),
        decreases n - start,
    {
        let ghost t = v@.skip(start as int);
        proof {
            lemma_find_from_skip(v@, nl@, start as int, 0);
            lemma_find_from_bounds(v@, nl@, start as int);
        }
        match find_chars(&v, &nl, start) {
            Some(k) => {
                let mut end = k;
                if end > start && v[end - 1] == '\r' {
                    end = end - 1;
                }
                let line = string_of_range(&v, start, end);
                assert(line@ =~= strip_cr(t.take(k - start)));
                assert(t.skip(k - start + 1) =~= v@.skip(k + 1));
                proof {
                    done = done.push(line@);
                }
                out.push(line);
                start = k + 1;
            },
            None => {
                let line = string_of_range(&v, start, n);
                assert(line@ =~= t);
                proof {
                    done = done.push(line@);
                }
                out.push(line);
                assert(v@.skip(n as int) =~= Seq::<char>::empty());
                start = n;
            },
        }
    }
    assert(v@.skip(n as int) =~= Seq::<char>::empty());
    assert(done =~= text_lines(s@));
    out
}

/// The pieces of `parts` with `sep` between each neighbouring two.
pub open spec fn join(parts: Seq<Seq<char>>, sep: Seq<char>) -> Seq<char>
    decreases parts.len(),
{
    if parts.len() == 0 {
        seq![]
    } else if parts.len() == 1 {
        parts[0]
    } else {
        join(parts.drop_last(), sep) + sep + parts.last()
    }
}

proof fn lemma_join_front(parts: Seq<Seq<char>>, sep: Seq<char>)
    requires
        parts.len() >= 2,
    ensures
        join(parts, sep) == parts[0] + sep + join(parts.drop_first(), sep),
    decreases parts.len(),
{
    if parts.len() > 2 {
        lemma_join_front(parts.drop_last(), sep);
        assert(parts.drop_last().drop_first() =~= parts.drop_first().drop_last());
        assert(parts.drop_first().last() == parts.last());
        assert(parts.drop_last()[0] == parts[0]);
        let mid = join(parts.drop_first().drop_last(), sep);
        assert(join(parts.drop_first(), sep) == mid + sep + parts.last());
        assert(join(parts.drop_last(), sep) == parts[0] + sep + mid);
        assert(join(parts, sep) == join(parts.drop_last(), sep) + sep + parts.last());
        assert(join(parts, sep) =~= parts[0] + sep + join(parts.drop_first(), sep));
    } else {
        assert(parts.drop_first().len() == 1);
        assert(parts.drop_last().len() == 1);
        assert(join(parts.drop_last(), sep) == parts[0]);
        assert(join(parts.drop_first(), sep) == parts[1]);
        assert(join(parts, sep) == join(parts.drop_last(), sep) + sep + parts.last());
    }
}

proof fn lemma_find_char_none(s: Seq<char>, c: char, i: int)
    requires
        0 <= i <= s.len(),
        !s.contains(c),
    ensures
        find_from(s, seq![c], i) == -1,
    decreases s.len() - i,
{
    if i < s.len() {
        assert(s.subrange(i, i + 1)[0] == s[i]);
        assert(s.subrange(i, i + 1) != seq![c]);
        lemma_find_char_none(s, c, i + 1);
    }
}

proof fn lemma_find_char_at(a: Seq<char>, c: char, b: Seq<char>, i: int)
    requires
        0 <= i <= a.len(),
        !a.contains(c),
    ensures
        find_from(a + seq![c] + b, seq![c], i) == a.len(),
    decreases a.len() - i,
{
    let s = a + seq![c] + b;
    if i < a.len() {
        assert(s.subrange(i, i + 1)[0] == a[i]);
        assert(s.subrange(i, i + 1) != seq![c]);
        lemma_find_char_at(a, c, b, i + 1);
    } else {
        assert(s.subrange(i, i + 1) =~= seq![c]);
    }
}

/// Splitting the pieces joined by a one-character separator gives the pieces
/// back, when no piece holds the separator.
pub proof fn lemma_split_join(parts: Seq<Seq<char>>, c: char)
    requires
        parts.len() >= 1,
        forall|i: int| 0 <= i < parts.len() ==> !(#[trigger] parts[i]).contains(c),
    ensures
        split_on(join(parts, seq![c]), seq![c]) == parts,
    decreases parts.len(),
{
    if parts.len() == 1 {
        lemma_find_char_none(parts[0], c, 0);
        assert(split_on(parts[0], seq![c]) =~= parts);
    } else {
        let rest = parts.drop_first();
        lemma_join_front(parts, seq![c]);
        assert forall|i: int| 0 <= i < rest.len() implies !(#[trigger] rest[i]).contains(c) by {
            assert(rest[i] == parts[i + 1]);
        }
        lemma_split_join(rest, c);
        let s = parts[0] + seq![c] + join(rest, seq![c]);
        lemma_find_char_at(parts[0], c, join(rest, seq![c]), 0);
        assert(s.take(parts[0].len() as int) =~= parts[0]);
        assert(s.skip(parts[0].len() as int + 1) =~= join(rest, seq![c]));
        assert(split_on(s, seq![c]) =~= seq![parts[0]] + rest);
        assert(seq![parts[0]] + rest =~= parts);
    }
}

/// `[String]::join`.
pub fn join_strings(parts: &Vec<String>, sep: &str) -> (r: String)
    ensures
        r@ == join(parts@.map_values(|p: String| p@), sep@),
{
    let ghost views = parts@.map_values(|p: String| p@);
    let mut r = String::new();
    let mut i: usize = 0;
    while i < parts.len()
        invariant
            i <= parts.len(),
            views == parts@.map_values(|p: String| p@),
            r@ == join(views.take(i as int), sep@),
        decreases parts.len() - i,
    {
        if i > 0 {
            r.append(sep);
        }
        r.append(parts[i].as_str());
        assert(views.take(i + 1).drop_last() =~= views.take(i as int));
        i = i + 1;
    }
    assert(views.take(parts.len() as int) =~= views);
    r
}

/// The number of bytes that UTF-8 uses for `c`.
pub open spec fn utf8_width(c: char) -> nat {
    let u = c as u32;
    if u < 0x80 { 1 } else if u < 0x800 { 2 } else if u < 0x10000 { 3 } else { 4 }
}

/// The number of bytes of the UTF-8 encoding of `s`, which `str::len` gives.
pub open spec fn utf8_len(s: Seq<char>) -> nat
    decreases s.len(),
{
    if s.len() == 0 {
        0
    } else {
        utf8_len(s.drop_last()) + utf8_width(s.last())
    }
}

fn utf8_width_exec(c: char) -> (w: usize)
    ensures
        w == utf8_width(c),
{
    let u = c as u32;
    if u < 0x80 { 1 } else if u < 0x800 { 2 } else if u < 0x10000 { 3 } else { 4 }
}

/// The number of characters that the first `b` bytes of `v` hold, when byte `b`
/// starts a character or ends the text; `None` when it falls inside a character
/// or past the end.
pub fn char_index_at_byte(v: &Vec<char>, b: usize) -> (r: Option<usize>)
    ensures
        match r {
            Some(k) => k <= v.len() && utf8_len(v@.take(k as int)) == b,
            None => forall|k: int| 0 <= k <= v.len() ==> utf8_len(#[trigger] v@.take(k)) != b,
        },
{
    let mut k: usize = 0;
    let mut bytes: usize = 0;
    assert(v@.take(0) =~= Seq::<char>::empty());
    while k < v.len() && bytes < b
        invariant
            k <= v.len(),
            bytes == utf8_len(v@.take(k as int)),
            bytes <= b,
            forall|j: int| 0 <= j < k ==> utf8_len(#[trigger] v@.take(j)) < bytes,
        decreases v.len() - k,
    {
        let w = utf8_width_exec(v[k]);
        assert(v@.take(k + 1).drop_last() =~= v@.take(k as int));
        if w > b - bytes {
            proof {
                lemma_utf8_len_grows(v@, k + 1);
                assert(utf8_len(v@.take(k + 1)) == bytes + w);
            }
            return None;
        }
        bytes = bytes + w;
        k = k + 1;
    }
    if bytes == b {
        Some(k)
    } else {
        proof {
            lemma_utf8_len_grows(v@, k as int);
        }
        None
    }
}

proof fn lemma_utf8_len_grows(s: Seq<char>, k: int)
    requires
        0 <= k <= s.len(),
    ensures
        forall|j: int| k < j <= s.len() ==> utf8_len(#[trigger] s.take(j)) > utf8_len(s.take(k)),
    decreases s.len() - k,
{
    if k < s.len() {
        lemma_utf8_len_grows(s, k + 1);
        assert(s.take(k + 1).drop_last() =~= s.take(k));
    }
}

pub proof fn lemma_utf8_len_prefix(s: Seq<char>, k: int)
    requires
        0 <= k <= s.len(),
    ensures
        utf8_len(s.take(k)) <= utf8_len(s),
{
    if k < s.len() {
        lemma_utf8_len_grows(s, k);
    } else {
        assert(s.take(k) =~= s);
    }
}

} // verus!
