//! Character-level helpers shared by the line parser and the control
//! manager: decimal numbers, fixed-point decimals, splitting and trimming.
use crate::pattern::chars_of;
use vstd::prelude::*;

verus! {

/// Largest magnitude kept by the fixed-point reader (thousandths).
pub const FIXED_CAP: u64 = 1_000_000_000_000_000;

pub open spec fn is_digit(c: char) -> bool {
    '0' <= c && c <= '9'
}

pub open spec fn all_digits(s: Seq<char>) -> bool {
    forall|i: int| 0 <= i < s.len() ==> #[trigger] is_digit(s[i])
}

pub open spec fn digit_value(c: char) -> int {
    c as int - '0' as int
}

/// The value of a string of decimal digits, most significant first.
pub open spec fn digits_value(s: Seq<char>) -> int
    decreases s.len(),
{
    if s.len() == 0 {
        0
    } else {
        digits_value(s.drop_last()) * 10 + digit_value(s.last())
    }
}

/// What `str::parse` reads as an unsigned integer: an optional `+`
/// followed by one or more ASCII digits.
pub open spec fn unsigned_text(s: Seq<char>) -> Option<int> {
    let body = if s.len() > 0 && s[0] == '+' {
        s.drop_first()
    } else {
        s
    };
    if body.len() > 0 && all_digits(body) {
        Some(digits_value(body))
    } else {
        None
    }
}

/// The unsigned integer of `s` when it is at most `max`.
pub open spec fn bounded_unsigned(s: Seq<char>, max: int) -> Option<int> {
    match unsigned_text(s) {
        Some(n) => if n <= max {
            Some(n)
        } else {
            None
        },
        None => None,
    }
}

pub open spec fn min_int(a: int, b: int) -> int {
    if a <= b {
        a
    } else {
        b
    }
}

/// Index of the first occurrence of `c` in `s`.
pub open spec fn first_index(s: Seq<char>, c: char) -> Option<int>
    decreases s.len(),
{
    if s.len() == 0 {
        None
    } else if s[0] == c {
        Some(0)
    } else {
        match first_index(s.drop_first(), c) {
            Some(i) => Some(i + 1),
            None => None,
        }
    }
}

/// The first three digits after the point, padded with zeros.
pub open spec fn thousandths(frac: Seq<char>) -> int {
    let padded = frac + seq!['0', '0', '0'];
    digits_value(padded.subrange(0, 3))
}

/// A decimal made of digits and at most one point, with at least one
/// digit, in thousandths, truncated towards zero.
pub open spec fn decimal_milli(s: Seq<char>) -> Option<int> {
    match first_index(s, '.') {
        None => if s.len() > 0 && all_digits(s) {
            Some(digits_value(s) * 1000)
        } else {
            None
        },
        Some(k) => {
            let whole = s.subrange(0, k);
            let frac = s.subrange(k + 1, s.len() as int);
            if all_digits(whole) && all_digits(frac) && whole.len() + frac.len() > 0 {
                Some(digits_value(whole) * 1000 + thousandths(frac))
            } else {
                None
            }
        },
    }
}

/// `s` with every trailing `c` removed.
pub open spec fn trim_end_char(s: Seq<char>, c: char) -> Seq<char>
    decreases s.len(),
{
    if s.len() > 0 && s.last() == c {
        trim_end_char(s.drop_last(), c)
    } else {
        s
    }
}

/// `s` with every leading `c` removed.
pub open spec fn trim_start_char(s: Seq<char>, c: char) -> Seq<char>
    decreases s.len(),
{
    if s.len() > 0 && s[0] == c {
        trim_start_char(s.drop_first(), c)
    } else {
        s
    }
}

pub open spec fn is_bracket(c: char) -> bool {
    c == '[' || c == ']'
}

pub open spec fn trim_end_brackets(s: Seq<char>) -> Seq<char>
    decreases s.len(),
{
    if s.len() > 0 && is_bracket(s.last()) {
        trim_end_brackets(s.drop_last())
    } else {
        s
    }
}

/// `s` with brackets removed from both ends.
pub open spec fn trim_brackets(s: Seq<char>) -> Seq<char>
    decreases s.len(),
{
    if s.len() > 0 && is_bracket(s[0]) {
        trim_brackets(s.drop_first())
    } else {
        trim_end_brackets(s)
    }
}

pub open spec fn ends_with(s: Seq<char>, suffix: Seq<char>) -> bool {
    suffix.len() <= s.len() && s.subrange(s.len() - suffix.len(), s.len() as int) == suffix
}

pub open spec fn starts_with(s: Seq<char>, prefix: Seq<char>) -> bool {
    prefix.len() <= s.len() && s.subrange(0, prefix.len() as int) == prefix
}

/// `s` without `suffix`, when it ends with it; else `s`.
pub open spec fn strip_suffix(s: Seq<char>, suffix: Seq<char>) -> Seq<char> {
    if ends_with(s, suffix) {
        s.subrange(0, s.len() - suffix.len())
    } else {
        s
    }
}

/// The pieces of `s` between the separators `c` (as `str::split` gives them).
pub open spec fn split_on(s: Seq<char>, c: char) -> Seq<Seq<char>>
    decreases s.len(),
{
    if s.len() == 0 {
        seq![Seq::<char>::empty()]
    } else {
        let rest = split_on(s.drop_last(), c);
        if s.last() == c {
            rest.push(Seq::<char>::empty())
        } else if rest.len() == 0 {
            seq![seq![s.last()]]
        } else {
            rest.update(rest.len() - 1, rest.last().push(s.last()))
        }
    }
}

pub proof fn proof_first_index_bounds(s: Seq<char>, c: char)
    ensures
        match first_index(s, c) {
            Some(k) => 0 <= k < s.len() && s[k] == c && forall|j: int|
                0 <= j < k ==> s[j] != c,
            None => forall|j: int| 0 <= j < s.len() ==> s[j] != c,
        },
    decreases s.len(),
{
    if s.len() > 0 && s[0] != c {
        proof_first_index_bounds(s.drop_first(), c);
        match first_index(s.drop_first(), c) {
            Some(k) => {
                assert forall|j: int| 0 <= j < k + 1 implies s[j] != c by {
                    if j > 0 {
                        assert(s[j] == s.drop_first()[j - 1]);
                    }
                }
            },
            None => {
                assert forall|j: int| 0 <= j < s.len() implies s[j] != c by {
                    if j > 0 {
                        assert(s[j] == s.drop_first()[j - 1]);
                    }
                }
            },
        }
    }
}

proof fn lemma_digits_value_nonneg(s: Seq<char>)
    requires
        all_digits(s),
    ensures
        digits_value(s) >= 0,
    decreases s.len(),
{
    if s.len() > 0 {
        assert(is_digit(s[s.len() - 1]));
        assert(all_digits(s.drop_last())) by {
            assert forall|i: int| 0 <= i < s.drop_last().len() implies is_digit(
                s.drop_last()[i],
            ) by {
                assert(s.drop_last()[i] == s[i]);
            }
        }
        lemma_digits_value_nonneg(s.drop_last());
    }
}

/// Reads the digits of `s[from..to]`: the value, saturated at `cap`, and
/// whether the value exceeds `cap`.
fn digits_saturating(s: &Vec<char>, from: usize, to: usize, cap: u64) -> (r: (u64, bool))
    requires
        from <= to <= s@.len(),
        all_digits(s@.subrange(from as int, to as int)),
        cap >= 9,
    ensures
        r.0 == min_int(digits_value(s@.subrange(from as int, to as int)), cap as int),
        r.1 == (digits_value(s@.subrange(from as int, to as int)) > cap),
{
    let mut acc: u64 = 0;
    let mut over = false;
    let mut i: usize = from;
    while i < to
        invariant
            from <= i <= to <= s@.len(),
            all_digits(s@.subrange(from as int, to as int)),
            cap >= 9,
            acc == min_int(digits_value(s@.subrange(from as int, i as int)), cap as int),
            over == (digits_value(s@.subrange(from as int, i as int)) > cap),
        decreases to - i,
    {
        let ghost pre = s@.subrange(from as int, i as int);
        let ghost next = s@.subrange(from as int, i + 1);
        assert(next.drop_last() == pre);
        assert(next.last() == s@[i as int]);
        assert(is_digit(s@[i as int])) by {
            assert(s@[i as int] == s@.subrange(from as int, to as int)[i - from]);
        }
        assert(all_digits(pre)) by {
            assert forall|j: int| 0 <= j < pre.len() implies is_digit(pre[j]) by {
                assert(pre[j] == s@.subrange(from as int, to as int)[j]);
            }
        }
        proof {
            lemma_digits_value_nonneg(pre);
        }
        let d = (s[i] as u32 - '0' as u32) as u64;
        assert(digits_value(next) == digits_value(pre) * 10 + d);
        if over {
            assert(digits_value(next) > cap) by (nonlinear_arith)
                requires
                    digits_value(next) == digits_value(pre) * 10 + d,
                    digits_value(pre) > cap,
                    cap >= 9,
            ;
            acc = cap;
        } else if acc > (cap - d) / 10 {
            assert(digits_value(next) > cap) by (nonlinear_arith)
                requires
                    digits_value(next) == acc * 10 + d,
                    acc > (cap - d) / 10,
                    d <= 9,
                    cap >= 9,
            ;
            acc = cap;
            over = true;
        } else {
            assert(acc * 10 + d <= cap) by (nonlinear_arith)
                requires
                    acc <= (cap - d) / 10,
                    d <= 9,
                    cap >= 9,
            ;
            acc = acc * 10 + d;
        }
        i = i + 1;
    }
    (acc, over)
}

/// Reads an unsigned decimal as `str::parse` does, refusing values above `max`.
pub fn parse_unsigned(s: &Vec<char>, max: u64) -> (r: Option<u64>)
    ensures
        r == match bounded_unsigned(s@, max as int) {
            Some(n) => Some(n as u64),
            None => None::<u64>,
        },
{
    let n = s.len();
    let start: usize = if n > 0 && s[0] == '+' {
        1
    } else {
        0
    };
    let ghost body = s@.subrange(start as int, n as int);
    assert(body == (if s@.len() > 0 && s@[0] == '+' {
        s@.drop_first()
    } else {
        s@
    }));
    if start >= n {
        return None;
    }
    let mut i: usize = start;
    while i < n
        invariant
            start <= i <= n == s@.len(),
            body == s@.subrange(start as int, n as int),
            body == (if s@.len() > 0 && s@[0] == '+' {
                s@.drop_first()
            } else {
                s@
            }),
            forall|j: int| start <= j < i ==> is_digit(s@[j]),
        decreases n - i,
    {
        if !(s[i] >= '0' && s[i] <= '9') {
            assert(!all_digits(body)) by {
                assert(body[i - start] == s@[i as int]);
                assert(!is_digit(body[i - start]));
            }
            return None;
        }
        i = i + 1;
    }
    assert(all_digits(body)) by {
        assert forall|j: int| 0 <= j < body.len() implies is_digit(body[j]) by {
            assert(body[j] == s@[j + start]);
        }
    }
    let cap = if max < 9 {
        9
    } else {
        max
    };
    let (v, over) = digits_saturating(s, start, n, cap);
    if over || v > max {
        None
    } else {
        Some(v)
    }
}

/// Reads a decimal with an optional point (see `decimal_milli`) in
/// thousandths, saturating at `FIXED_CAP`.
pub fn parse_milli(s: &Vec<char>) -> (r: Option<u64>)
    ensures
        r == match decimal_milli(s@) {
            Some(v) => Some(min_int(v, FIXED_CAP as int) as u64),
            None => None::<u64>,
        },
{
    proof {
        proof_first_index_bounds(s@, '.');
    }
    let n = s.len();
    let mut k: usize = 0;
    while k < n && s[k] != '.'
        invariant
            k <= n == s@.len(),
            forall|j: int| 0 <= j < k ==> s@[j] != '.',
        decreases n - k,
    {
        k = k + 1;
    }
    proof {
        match first_index(s@, '.') {
            Some(m) => {
                if m < k {
                    assert(s@[m] != '.');
                }
                if k < m {
                    assert(s@[k as int] == '.');
                }
                assert(k < n);
            },
            None => {
                if k < n {
                    assert(s@[k as int] == '.');
                }
            },
        }
    }
    assert(first_index(s@, '.') == if k < n {
        Some(k as int)
    } else {
        None::<int>
    });
    let mut i: usize = 0;
    while i < n
        invariant
            i <= n == s@.len(),
            k <= n,
            first_index(s@, '.') == if k < n {
                Some(k as int)
            } else {
                None::<int>
            },
            forall|j: int| 0 <= j < i && j != k ==> is_digit(s@[j]),
        decreases n - i,
    {
        if i != k && !(s[i] >= '0' && s[i] <= '9') {
            proof {
                assert(!is_digit(s@[i as int]));
                if k == n {
                    assert(!all_digits(s@));
                } else {
                    if i < k {
                        assert(s@.subrange(0, k as int)[i as int] == s@[i as int]);
                    } else {
                        assert(s@.subrange(k + 1, n as int)[i - k - 1] == s@[i as int]);
                    }
                }
            }
            return None;
        }
        i = i + 1;
    }
    let ghost whole = s@.subrange(0, k as int);
    assert(all_digits(whole)) by {
        assert forall|j: int| 0 <= j < whole.len() implies is_digit(whole[j]) by {
            assert(whole[j] == s@[j]);
        }
    }
    if k == n {
        if n == 0 {
            return None;
        }
        assert(whole == s@);
        assert(first_index(s@, '.') == None::<int>);
        let (w, over) = digits_saturating(s, 0, n, FIXED_CAP / 1000);
        proof {
            lemma_digits_value_nonneg(whole);
        }
        if over {
            return Some(FIXED_CAP);
        }
        return Some(w * 1000);
    }
    let ghost frac = s@.subrange(k + 1, n as int);
    assert(all_digits(frac)) by {
        assert forall|j: int| 0 <= j < frac.len() implies is_digit(frac[j]) by {
            assert(frac[j] == s@[j + k + 1]);
        }
    }
    if n == 1 {
        return None;
    }
    let (w, over) = digits_saturating(s, 0, k, FIXED_CAP / 1000);
    proof {
        lemma_digits_value_nonneg(whole);
    }
    let mut t: u64 = 0;
    let mut j: usize = 0;
    let ghost padded = frac + seq!['0', '0', '0'];
    while j < 3
        invariant
            j <= 3,
            k < n == s@.len(),
            frac == s@.subrange(k + 1, n as int),
            padded == frac + seq!['0', '0', '0'],
            all_digits(frac),
            t == digits_value(padded.subrange(0, j as int)),
            t <= 999,
            j == 0 ==> t == 0,
            j == 1 ==> t <= 9,
            j == 2 ==> t <= 99,
        decreases 3 - j,
    {
        let c = if j < n - k - 1 {
            s[k + 1 + j]
        } else {
            '0'
        };
        assert(c == padded[j as int]) by {
            if j < n - k - 1 {
                assert(padded[j as int] == frac[j as int]);
            } else {
                assert(padded[j as int] == seq!['0', '0', '0'][j - frac.len()]);
            }
        }
        assert(is_digit(c)) by {
            if j < n - k - 1 {
                assert(frac[j as int] == s@[k + 1 + j]);
            }
        }
        assert(padded.subrange(0, j + 1).drop_last() == padded.subrange(0, j as int));
        t = t * 10 + (c as u32 - '0' as u32) as u64;
        j = j + 1;
    }
    proof {
        lemma_digits_value_nonneg(padded.subrange(0, 3));
    }
    if over {
        return Some(FIXED_CAP);
    }
    let total = w * 1000 + t;
    if total > FIXED_CAP {
        Some(FIXED_CAP)
    } else {
        Some(total)
    }
}

/// The characters `v[from..to]`.
pub fn slice_chars(v: &Vec<char>, from: usize, to: usize) -> (r: Vec<char>)
    requires
        from <= to <= v@.len(),
    ensures
        r@ == v@.subrange(from as int, to as int),
{
    let mut r: Vec<char> = Vec::new();
    let mut i: usize = from;
    while i < to
        invariant
            from <= i <= to <= v@.len(),
            r@ == v@.subrange(from as int, i as int),
        decreases to - i,
    {
        r.push(v[i]);
        i = i + 1;
    }
    r
}

pub fn chars_equal(a: &Vec<char>, b: &Vec<char>) -> (r: bool)
    ensures
        r == (a@ == b@),
{
    if a.len() != b.len() {
        return false;
    }
    let mut i: usize = 0;
    while i < a.len()
        invariant
            i <= a@.len() == b@.len(),
            forall|j: int| 0 <= j < i ==> a@[j] == b@[j],
        decreases a@.len() - i,
    {
        if a[i] != b[i] {
            return false;
        }
        i = i + 1;
    }
    assert(a@ =~= b@);
    true
}

pub fn find_char(v: &Vec<char>, c: char) -> (r: Option<usize>)
    ensures
        match r {
            Some(k) => first_index(v@, c) == Some(k as int) && k < v@.len(),
            None => first_index(v@, c) == None::<int>,
        },
{
    proof {
        proof_first_index_bounds(v@, c);
    }
    let mut k: usize = 0;
    while k < v.len()
        invariant
            k <= v@.len(),
            forall|j: int| 0 <= j < k ==> v@[j] != c,
        decreases v@.len() - k,
    {
        if v[k] == c {
            proof {
                proof_first_index_bounds(v@, c);
                match first_index(v@, c) {
                    Some(m) => {
                        if m < k {
                            assert(v@[m] != c);
                        }
                        if k < m {
                            assert(v@[k as int] == c);
                        }
                    },
                    None => {
                        assert(v@[k as int] == c);
                    },
                }
            }
            return Some(k);
        }
        k = k + 1;
    }
    proof {
        proof_first_index_bounds(v@, c);
        match first_index(v@, c) {
            Some(m) => {
                assert(v@[m] != c);
            },
            None => {},
        }
    }
    None
}

pub fn ends_with_chars(s: &Vec<char>, suffix: &Vec<char>) -> (r: bool)
    ensures
        r == ends_with(s@, suffix@),
{
    if suffix.len() > s.len() {
        return false;
    }
    let tail = slice_chars(s, s.len() - suffix.len(), s.len());
    chars_equal(&tail, suffix)
}

pub fn starts_with_chars(s: &Vec<char>, prefix: &Vec<char>) -> (r: bool)
    ensures
        r == starts_with(s@, prefix@),
{
    if prefix.len() > s.len() {
        return false;
    }
    let head = slice_chars(s, 0, prefix.len());
    chars_equal(&head, prefix)
}

pub fn strip_suffix_chars(s: &Vec<char>, suffix: &Vec<char>) -> (r: Vec<char>)
    ensures
        r@ == strip_suffix(s@, suffix@),
{
    if ends_with_chars(s, suffix) {
        slice_chars(s, 0, s.len() - suffix.len())
    } else {
        slice_chars(s, 0, s.len())
    }
}

pub fn trim_end_char_chars(s: &Vec<char>, c: char) -> (r: Vec<char>)
    ensures
        r@ == trim_end_char(s@, c),
{
    let mut end: usize = s.len();
    assert(s@.subrange(0, s@.len() as int) == s@);
    while end > 0 && s[end - 1] == c
        invariant
            end <= s@.len(),
            trim_end_char(s@.subrange(0, end as int), c) == trim_end_char(s@, c),
        decreases end,
    {
        assert(s@.subrange(0, end as int).drop_last() == s@.subrange(0, end - 1));
        end = end - 1;
    }
    assert(s@.subrange(0, s@.len() as int) == s@);
    slice_chars(s, 0, end)
}

fn is_bracket_char(c: char) -> (r: bool)
    ensures
        r == is_bracket(c),
{
    c == '[' || c == ']'
}

pub fn trim_brackets_chars(s: &Vec<char>) -> (r: Vec<char>)
    ensures
        r@ == trim_brackets(s@),
{
    let n = s.len();
    let mut start: usize = 0;
    assert(s@.subrange(0, n as int) == s@);
    while start < n && is_bracket_char(s[start])
        invariant
            start <= n == s@.len(),
            trim_brackets(s@.subrange(start as int, n as int)) == trim_brackets(s@),
        decreases n - start,
    {
        let ghost sub = s@.subrange(start as int, n as int);
        assert(sub[0] == s@[start as int]);
        assert(sub.drop_first() == s@.subrange(start + 1, n as int));
        start = start + 1;
    }
    let ghost sub = s@.subrange(start as int, n as int);
    assert(trim_brackets(sub) == trim_end_brackets(sub)) by {
        if sub.len() > 0 {
            assert(sub[0] == s@[start as int]);
        }
    }
    let mut end: usize = n;
    while end > start && is_bracket_char(s[end - 1])
        invariant
            start <= end <= n == s@.len(),
            trim_end_brackets(s@.subrange(start as int, end as int)) == trim_brackets(s@),
        decreases end,
    {
        let ghost sub = s@.subrange(start as int, end as int);
        assert(sub.last() == s@[end - 1]);
        assert(sub.drop_last() == s@.subrange(start as int, end - 1));
        end = end - 1;
    }
    slice_chars(s, start, end)
}

pub open spec fn views_of(v: Seq<Vec<char>>) -> Seq<Seq<char>> {
    v.map_values(|x: Vec<char>| x@)
}

/// The pieces of `s` between the separators `c`.
pub fn split_chars(s: &Vec<char>, c: char) -> (r: Vec<Vec<char>>)
    ensures
        views_of(r@) == split_on(s@, c),
{
    let mut pieces: Vec<Vec<char>> = Vec::new();
    let mut current: Vec<char> = Vec::new();
    let mut i: usize = 0;
    assert(s@.subrange(0, 0) == Seq::<char>::empty());
    assert(views_of(pieces@).push(current@) =~= split_on(Seq::<char>::empty(), c));
    while i < s.len()
        invariant
            i <= s@.len(),
            views_of(pieces@).push(current@) == split_on(s@.subrange(0, i as int), c),
        decreases s@.len() - i,
    {
        let ghost pre = s@.subrange(0, i as int);
        let ghost next = s@.subrange(0, i + 1);
        assert(next.drop_last() == pre);
        assert(next.last() == s@[i as int]);
        assert(next.len() > 0);
        if s[i] == c {
            let done = current;
            pieces.push(done);
            current = Vec::new();
            assert(views_of(pieces@).push(current@) =~= split_on(pre, c).push(
                Seq::<char>::empty(),
            ));
        } else {
            let ghost rest = split_on(pre, c);
            current.push(s[i]);
            assert(views_of(pieces@).push(current@) =~= rest.update(
                rest.len() - 1,
                rest.last().push(s@[i as int]),
            ));
        }
        i = i + 1;
    }
    assert(s@.subrange(0, s@.len() as int) == s@);
    pieces.push(current);
    assert(views_of(pieces@) =~= split_on(s@, c));
    pieces
}

pub proof fn lemma_bounded_unsigned_range(s: Seq<char>, max: int)
    ensures
        bounded_unsigned(s, max) matches Some(n) ==> 0 <= n <= max,
{
    let body = if s.len() > 0 && s[0] == '+' {
        s.drop_first()
    } else {
        s
    };
    if body.len() > 0 && all_digits(body) {
        lemma_digits_value_nonneg(body);
    }
}

pub proof fn lemma_decimal_milli_nonneg(s: Seq<char>)
    ensures
        decimal_milli(s) matches Some(v) ==> v >= 0,
{
    match first_index(s, '.') {
        None => {
            if s.len() > 0 && all_digits(s) {
                lemma_digits_value_nonneg(s);
            }
        },
        Some(k) => {
            proof_first_index_bounds(s, '.');
            let whole = s.subrange(0, k);
            let frac = s.subrange(k + 1, s.len() as int);
            if all_digits(whole) && all_digits(frac) {
                lemma_digits_value_nonneg(whole);
                let padded = frac + seq!['0', '0', '0'];
                let three = padded.subrange(0, 3);
                assert(all_digits(three)) by {
                    assert forall|i: int| 0 <= i < three.len() implies is_digit(three[i]) by {
                        if i < frac.len() {
                            assert(three[i] == frac[i]);
                        } else {
                            assert(three[i] == '0');
                        }
                    }
                }
                lemma_digits_value_nonneg(three);
            }
        },
    }
}

pub fn str_eq(a: &str, b: &str) -> (r: bool)
    ensures
        r == (a@ == b@),
{
    chars_equal(&chars_of(a), &chars_of(b))
}

pub fn owned(s: &str) -> (r: String)
    ensures
        r@ == s@,
{
    s.to_owned()
}

/// Whether one of `v` is `s`.
pub fn contains_str(v: &Vec<String>, s: &str) -> (r: bool)
    ensures
        r == v@.map_values(|x: String| x@).contains(s@),
{
    let key = owned(s);
    let ghost views = v@.map_values(|x: String| x@);
    let mut i: usize = 0;
    while i < v.len()
        invariant
            i <= v@.len(),
            views == v@.map_values(|x: String| x@),
            key@ == s@,
            forall|j: int| 0 <= j < i ==> views[j] != s@,
        decreases v@.len() - i,
    {
        if v[i] == key {
            assert(views[i as int] == s@);
            return true;
        }
        i = i + 1;
    }
    assert(!views.contains(s@)) by {
        if views.contains(s@) {
            let j = choose|j: int| 0 <= j < views.len() && views[j] == s@;
            assert(views[j] != s@);
        }
    }
    false
}

pub open spec fn digit_char(d: int) -> char {
    ((d + '0' as int) as u32) as char
}

/// The decimal digits of `n`.
pub open spec fn decimal_of(n: nat) -> Seq<char>
    decreases n,
{
    if n < 10 {
        seq![digit_char(n as int)]
    } else {
        decimal_of(n / 10).push(digit_char((n % 10) as int))
    }
}

fn digit_of(d: u64) -> (r: char)
    requires
        d < 10,
    ensures
        r == digit_char(d as int),
{
    if d == 0 {
        '0'
    } else if d == 1 {
        '1'
    } else if d == 2 {
        '2'
    } else if d == 3 {
        '3'
    } else if d == 4 {
        '4'
    } else if d == 5 {
        '5'
    } else if d == 6 {
        '6'
    } else if d == 7 {
        '7'
    } else if d == 8 {
        '8'
    } else {
        '9'
    }
}

fn push_decimal(n: u64, out: &mut Vec<char>)
    ensures
        final(out)@ == old(out)@ + decimal_of(n as nat),
    decreases n,
{
    if n >= 10 {
        push_decimal(n / 10, out);
    }
    out.push(digit_of(n % 10));
    assert(final(out)@ =~= old(out)@ + decimal_of(n as nat));
}

/// `n` written in decimal.
pub fn decimal_string(n: u64) -> (r: String)
    ensures
        r@ == decimal_of(n as nat),
{
    let mut out: Vec<char> = Vec::new();
    push_decimal(n, &mut out);
    assert(out@ =~= decimal_of(n as nat));
    crate::pattern::string_of(&out)
}

/// The names of `items` separated by `sep`.
pub open spec fn join(items: Seq<Seq<char>>, sep: Seq<char>) -> Seq<char>
    decreases items.len(),
{
    if items.len() == 0 {
        Seq::empty()
    } else if items.len() == 1 {
        items[0]
    } else {
        join(items.drop_last(), sep) + sep + items.last()
    }
}

pub fn join_strings(items: &Vec<String>, sep: &str) -> (r: String)
    ensures
        r@ == join(items@.map_values(|x: String| x@), sep@),
{
    let ghost views = items@.map_values(|x: String| x@);
    let mut out = String::new();
    let mut i: usize = 0;
    while i < items.len()
        invariant
            i <= items@.len(),
            views == items@.map_values(|x: String| x@),
            out@ == join(views.subrange(0, i as int), sep@),
        decreases items@.len() - i,
    {
        let ghost next = views.subrange(0, i + 1);
        assert(next.drop_last() == views.subrange(0, i as int));
        if i > 0 {
            out.append(sep);
        }
        out.append(items[i].as_str());
        proof {
            if i == 0 {
                assert(next.len() == 1);
                assert(out@ =~= next[0]);
            }
        }
        i = i + 1;
    }
    assert(views.subrange(0, views.len() as int) == views);
    out
}

/// `s` with every non-overlapping occurrence of `pat`, from the left,
/// replaced by `rep`.
pub open spec fn replace_all(s: Seq<char>, pat: Seq<char>, rep: Seq<char>) -> Seq<char>
    decreases s.len(),
{
    if s.len() == 0 {
        s
    } else if pat.len() > 0 && starts_with(s, pat) {
        rep + replace_all(s.subrange(pat.len() as int, s.len() as int), pat, rep)
    } else {
        seq![s[0]] + replace_all(s.drop_first(), pat, rep)
    }
}

fn starts_at(s: &Vec<char>, i: usize, pat: &Vec<char>) -> (r: bool)
    requires
        i <= s@.len(),
    ensures
        r == starts_with(s@.subrange(i as int, s@.len() as int), pat@),
{
    if pat.len() > s.len() - i {
        return false;
    }
    let head = slice_chars(s, i, i + pat.len());
    assert(s@.subrange(i as int, s@.len() as int).subrange(0, pat@.len() as int) == head@);
    chars_equal(&head, pat)
}

pub fn replace_chars(s: &Vec<char>, pat: &Vec<char>, rep: &Vec<char>) -> (r: Vec<char>)
    ensures
        r@ == replace_all(s@, pat@, rep@),
{
    let mut out: Vec<char> = Vec::new();
    let mut i: usize = 0;
    let n = s.len();
    assert(s@.subrange(0, n as int) == s@);
    while i < n
        invariant
            i <= n == s@.len(),
            out@ + replace_all(s@.subrange(i as int, n as int), pat@, rep@) == replace_all(
                s@,
                pat@,
                rep@,
            ),
        decreases n - i,
    {
        let ghost rest = s@.subrange(i as int, n as int);
        if pat.len() > 0 && starts_at(s, i, pat) {
            assert(rest.subrange(pat@.len() as int, rest.len() as int) == s@.subrange(
                i + pat@.len(),
                n as int,
            ));
            let ghost before = out@;
            let mut j: usize = 0;
            while j < rep.len()
                invariant
                    j <= rep@.len(),
                    out@ == before + rep@.subrange(0, j as int),
                decreases rep@.len() - j,
            {
                out.push(rep[j]);
                assert(out@ =~= before + rep@.subrange(0, j + 1));
                j = j + 1;
            }
            assert(rep@.subrange(0, rep@.len() as int) == rep@);
            assert(out@ + replace_all(s@.subrange(i + pat@.len(), n as int), pat@, rep@) =~= before
                + replace_all(rest, pat@, rep@));
            i = i + pat.len();
        } else {
            assert(rest.drop_first() == s@.subrange(i + 1, n as int));
            assert(rest[0] == s@[i as int]);
            let ghost before = out@;
            out.push(s[i]);
            assert(out@ + replace_all(s@.subrange(i + 1, n as int), pat@, rep@) =~= before
                + replace_all(rest, pat@, rep@));
            i = i + 1;
        }
    }
    assert(s@.subrange(n as int, n as int) =~= Seq::<char>::empty());
    assert(out@ + Seq::<char>::empty() == out@);
    out
}

/// Whether `pat` occurs in `s`.
pub open spec fn contains_seq(s: Seq<char>, pat: Seq<char>) -> bool {
    exists|i: int| 0 <= i <= s.len() - pat.len() && #[trigger] s.subrange(i, i + pat.len()) == pat
}

pub fn contains_chars(s: &Vec<char>, pat: &Vec<char>) -> (r: bool)
    ensures
        r == contains_seq(s@, pat@),
{
    if pat.len() > s.len() {
        return false;
    }
    if pat.len() == 0 {
        assert(s@.subrange(0int, 0int + pat@.len()) =~= pat@);
        return true;
    }
    let last = s.len() - pat.len();
    let mut i: usize = 0;
    while i <= last
        invariant
            last == s@.len() - pat@.len(),
            last < s@.len(),
            s@.len() <= usize::MAX,
            pat@.len() <= s@.len(),
            i <= last + 1,
            forall|k: int| 0 <= k < i ==> #[trigger] s@.subrange(k, k + pat@.len()) != pat@,
        decreases last + 1 - i,
    {
        assert(s@.subrange(i as int, s@.len() as int).subrange(0, pat@.len() as int)
            == s@.subrange(i as int, i + pat@.len()));
        if starts_at(s, i, pat) {
            return true;
        }
        i = i + 1;
    }
    false
}

pub proof fn lemma_split_nonempty(s: Seq<char>, c: char)
    ensures
        split_on(s, c).len() >= 1,
    decreases s.len(),
{
    if s.len() > 0 {
        lemma_split_nonempty(s.drop_last(), c);
    }
}

pub open spec fn lower_char(c: char) -> char {
    if 'A' <= c && c <= 'Z' {
        ((c as u32) + 32) as char
    } else {
        c
    }
}

/// `s` with ASCII capitals made small.
pub open spec fn lower_text(s: Seq<char>) -> Seq<char> {
    s.map_values(|c: char| lower_char(c))
}

fn to_lower(c: char) -> (r: char)
    ensures
        r == lower_char(c),
{
    if c >= 'A' && c <= 'Z' {
        if c == 'A' { 'a' } else if c == 'B' { 'b' } else if c == 'C' { 'c' } else if c == 'D' { 'd' }
        else if c == 'E' { 'e' } else if c == 'F' { 'f' } else if c == 'G' { 'g' } else if c == 'H' { 'h' }
        else if c == 'I' { 'i' } else if c == 'J' { 'j' } else if c == 'K' { 'k' } else if c == 'L' { 'l' }
        else if c == 'M' { 'm' } else if c == 'N' { 'n' } else if c == 'O' { 'o' } else if c == 'P' { 'p' }
        else if c == 'Q' { 'q' } else if c == 'R' { 'r' } else if c == 'S' { 's' } else if c == 'T' { 't' }
        else if c == 'U' { 'u' } else if c == 'V' { 'v' } else if c == 'W' { 'w' } else if c == 'X' { 'x' }
        else if c == 'Y' { 'y' } else { 'z' }
    } else {
        c
    }
}

/// The characters of `s` with ASCII capitals made small.
pub fn ascii_lower(s: &str) -> (r: Vec<char>)
    ensures
        r@ == lower_text(s@),
{
    let chars = chars_of(s);
    let mut lower: Vec<char> = Vec::new();
    let mut i: usize = 0;
    while i < chars.len()
        invariant
            i <= chars@.len(),
            chars@ == s@,
            lower@ == chars@.subrange(0, i as int).map_values(|c: char| lower_char(c)),
        decreases chars@.len() - i,
    {
        lower.push(to_lower(chars[i]));
        assert(lower@ =~= chars@.subrange(0, i + 1).map_values(|c: char| lower_char(c)));
        i = i + 1;
    }
    assert(chars@.subrange(0, chars@.len() as int) == chars@);
    lower
}

} // verus!
