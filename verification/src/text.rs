//! Character-level text handling: whitespace trimming, quote stripping,
//! comma splitting, and the token grammars for integer and real-number
//! fields.
//!
//! Every line of a RAW case is a comma-delimited list of tokens.  The
//! functions here define exactly which character sequences count as
//! integer or real-number tokens and how a raw line is cut into trimmed
//! tokens; the record decoders state their contracts over these
//! definitions.

use vstd::prelude::*;

verus! {

/// ASCII whitespace: space, tab, line feed, form feed, carriage return.
pub open spec fn is_ws(c: char) -> bool {
    c == ' ' || c == '\t' || c == '\n' || c == '\u{c}' || c == '\r'
}

/// Decimal digit.
pub open spec fn is_digit(c: char) -> bool {
    '0' as int <= c as int <= '9' as int
}

/// Numeric value of a decimal digit.
pub open spec fn digit_val(c: char) -> int {
    c as int - '0' as int
}

fn ws_exec(c: char) -> (r: bool)
    ensures
        r == is_ws(c),
{
    c == ' ' || c == '\t' || c == '\n' || c == '\u{c}' || c == '\r'
}

pub(crate) fn digit_exec(c: char) -> (r: bool)
    ensures
        r == is_digit(c),
{
    let u = c as u32;
    48 <= u && u <= 57
}

// ---------------------------------------------------------------------
// Trimming
// ---------------------------------------------------------------------
/// The sequence with leading whitespace removed.
pub open spec fn trim_start(s: Seq<char>) -> Seq<char>
    decreases s.len(),
{
    if s.len() > 0 && is_ws(s[0]) {
        trim_start(s.drop_first())
    } else {
        s
    }
}

/// The sequence with trailing whitespace removed.
pub open spec fn trim_end(s: Seq<char>) -> Seq<char>
    decreases s.len(),
{
    if s.len() > 0 && is_ws(s.last()) {
        trim_end(s.drop_last())
    } else {
        s
    }
}

/// The sequence with whitespace removed from both ends.
pub open spec fn trim(s: Seq<char>) -> Seq<char> {
    trim_end(trim_start(s))
}

proof fn lemma_trim_start_skip(s: Seq<char>, i: int)
    requires
        0 <= i <= s.len(),
        forall|k: int| 0 <= k < i ==> is_ws(s[k]),
        i < s.len() ==> !is_ws(s[i]),
    ensures
        trim_start(s) =~= s.skip(i),
    decreases i,
{
    if i == 0 {
        assert(s.skip(0) =~= s);
    } else {
        assert(is_ws(s[0]));
        lemma_trim_start_skip(s.drop_first(), i - 1);
        assert(s.drop_first().skip(i - 1) =~= s.skip(i));
    }
}

proof fn lemma_trim_end_take(s: Seq<char>, j: int)
    requires
        0 <= j <= s.len(),
        forall|k: int| j <= k < s.len() ==> is_ws(s[k]),
        j > 0 ==> !is_ws(s[j - 1]),
    ensures
        trim_end(s) =~= s.take(j),
    decreases s.len() - j,
{
    if j == s.len() {
        assert(s.take(j) =~= s);
    } else {
        assert(is_ws(s.last()));
        lemma_trim_end_take(s.drop_last(), j);
        assert(s.drop_last().take(j) =~= s.take(j));
    }
}

/// Copies the range `[a, b)` of `cs` with whitespace trimmed from both
/// ends of the range.
pub fn trim_range(cs: &Vec<char>, a: usize, b: usize) -> (r: Vec<char>)
    requires
        a <= b <= cs@.len(),
    ensures
        r@ =~= trim(cs@.subrange(a as int, b as int)),
{
    let ghost seg = cs@.subrange(a as int, b as int);
    let mut lo = a;
    while lo < b && ws_exec(cs[lo])
        invariant
            a <= lo <= b <= cs@.len(),
            forall|k: int| a <= k < lo ==> is_ws(cs@[k]),
        decreases b - lo,
    {
        lo += 1;
    }
    let mut hi = b;
    while hi > lo && ws_exec(cs[hi - 1])
        invariant
            lo <= hi <= b <= cs@.len(),
            forall|k: int| hi <= k < b ==> is_ws(cs@[k]),
        decreases hi,
    {
        hi -= 1;
    }
    proof {
        assert(forall|k: int| 0 <= k < seg.len() ==> seg[k] == cs@[a + k]);
        lemma_trim_start_skip(seg, lo - a);
        let mid = seg.skip(lo - a);
        assert(forall|k: int| 0 <= k < mid.len() ==> mid[k] == cs@[lo + k]);
        lemma_trim_end_take(mid, hi - lo);
    }
    let mut r: Vec<char> = Vec::new();
    let mut k = lo;
    while k < hi
        invariant
            lo <= k <= hi <= b <= cs@.len(),
            r@ =~= cs@.subrange(lo as int, k as int),
        decreases hi - k,
    {
        r.push(cs[k]);
        k += 1;
    }
    proof {
        assert(r@ =~= seg.skip(lo - a).take(hi - lo));
    }
    r
}

// ---------------------------------------------------------------------
// Quote stripping
// ---------------------------------------------------------------------
/// Removes one layer of enclosing single or double quotes, if present.
pub open spec fn unquote(s: Seq<char>) -> Seq<char> {
    if s.len() >= 2 && s[0] == s[s.len() - 1] && (s[0] == '\'' || s[0] == '"') {
        s.subrange(1, s.len() - 1)
    } else {
        s
    }
}

/// A string-typed token: one layer of enclosing quotes stripped, then
/// trimmed again, since quoted names may carry interior padding.
pub open spec fn clean_text(s: Seq<char>) -> Seq<char> {
    trim(unquote(s))
}

/// Strips one layer of enclosing quotes from `t` and trims the result.
pub fn clean_text_exec(t: &Vec<char>) -> (r: Vec<char>)
    ensures
        r@ =~= clean_text(t@),
{
    let n = t.len();
    if n >= 2 && t[0] == t[n - 1] && (t[0] == '\'' || t[0] == '"') {
        trim_range(t, 1, n - 1)
    } else {
        let r = trim_range(t, 0, n);
        proof {
            assert(t@.subrange(0, n as int) =~= t@);
        }
        r
    }
}

// ---------------------------------------------------------------------
// Comma splitting
// ---------------------------------------------------------------------
/// Index of the first comma in `s`, or `s.len()` if there is none.
pub open spec fn find_comma(s: Seq<char>) -> int
    decreases s.len(),
{
    if s.len() == 0 {
        0
    } else if s[0] == ',' {
        0
    } else {
        1 + find_comma(s.drop_first())
    }
}

pub proof fn lemma_find_comma(s: Seq<char>)
    ensures
        0 <= find_comma(s) <= s.len(),
        find_comma(s) < s.len() ==> s[find_comma(s)] == ',',
        forall|k: int| 0 <= k < find_comma(s) ==> s[k] != ',',
    decreases s.len(),
{
    if s.len() > 0 && s[0] != ',' {
        lemma_find_comma(s.drop_first());
        assert(forall|k: int| 1 <= k < s.len() ==> s[k] == s.drop_first()[k - 1]);
    }
}

/// The comma-separated segments of `s`, in order.  A sequence without a
/// comma is a single segment; each comma separates two segments, so a
/// trailing comma yields a trailing empty segment.
pub open spec fn split_commas(s: Seq<char>) -> Seq<Seq<char>>
    decreases s.len(),
{
    let p = find_comma(s);
    if p == s.len() {
        seq![s]
    } else if 0 <= p < s.len() {
        seq![s.take(p)] + split_commas(s.skip(p + 1))
    } else {
        seq![s]  // unreachable: find_comma is within bounds
    }
}

/// The tokens of one line: comma-separated segments, each trimmed.
pub open spec fn split_trim(s: Seq<char>) -> Seq<Seq<char>> {
    split_commas(s).map_values(|t: Seq<char>| trim(t))
}

/// Splits the line `cs` on commas and trims each token.
pub fn split_line(cs: &Vec<char>) -> (r: Vec<Vec<char>>)
    ensures
        r.deep_view() =~= split_trim(cs@),
{
    let n = cs.len();
    let mut r: Vec<Vec<char>> = Vec::new();
    let mut start: usize = 0;
    let ghost whole = cs@;
    proof {
        assert(r.deep_view() =~~= Seq::<Seq<char>>::empty());
        assert(whole.skip(0) =~= whole);
    }
    loop
        invariant_except_break
            split_trim(whole) =~~= r.deep_view() + split_trim(whole.skip(start as int)),
        invariant
            0 <= start <= n == cs@.len(),
            whole == cs@,
        ensures
            split_trim(whole) =~~= r.deep_view(),
        decreases n - start,
    {
        // find the next comma at or after `start`
        let mut j = start;
        while j < n && cs[j] != ','
            invariant
                start <= j <= n == cs@.len(),
                forall|k: int| start <= k < j ==> cs@[k] != ',',
            decreases n - j,
        {
            j += 1;
        }
        let ghost suf = whole.skip(start as int);
        proof {
            lemma_find_comma(suf);
            assert(forall|k: int| 0 <= k < suf.len() ==> suf[k] == whole[start + k]);
            // the comma we found is the first one in the suffix
            assert(forall|k: int| 0 <= k < j - start ==> suf[k] != ',');
            if j < n {
                assert(suf[j - start] == ',');
                assert(find_comma(suf) <= j - start) by {
                    if find_comma(suf) > j - start {
                        assert(suf[j - start] != ',');
                    }
                }
                assert(find_comma(suf) >= j - start) by {
                    if find_comma(suf) < j - start {
                        assert(suf[find_comma(suf)] == ',');
                    }
                }
            } else {
                assert(find_comma(suf) == suf.len()) by {
                    if find_comma(suf) < suf.len() {
                        assert(suf[find_comma(suf)] == ',');
                    }
                }
            }
        }
        let tok = trim_range(cs, start, j);
        let ghost prev = r.deep_view();
        r.push(tok);
        proof {
            assert(r.deep_view() =~~= prev + seq![tok@]);
            assert(tok@ == trim(whole.subrange(start as int, j as int)));
        }
        if j < n {
            proof {
                assert(suf.take(j - start) =~= whole.subrange(start as int, j as int));
                assert(suf.skip(j - start + 1) =~= whole.skip(j + 1));
                assert(split_commas(suf) =~~= seq![suf.take(j - start)] + split_commas(
                    whole.skip(j + 1),
                ));
                assert(split_trim(suf) =~~= seq![trim(suf.take(j - start))] + split_trim(
                    whole.skip(j + 1),
                ));
                assert(split_trim(whole) =~~= r.deep_view() + split_trim(whole.skip(j + 1)));
            }
            start = j + 1;
        } else {
            proof {
                assert(split_commas(suf) =~~= seq![suf]);
                assert(suf.take(j - start) =~= suf);
                assert(suf =~= whole.subrange(start as int, j as int));
                assert(split_trim(whole.skip(start as int)) =~~= seq![trim(suf)]);
                assert(split_trim(whole) =~~= r.deep_view());
            }
            break ;
        }
    }
    r
}

// ---------------------------------------------------------------------
// Integer tokens
// ---------------------------------------------------------------------
/// All characters are decimal digits.
pub open spec fn all_digits(s: Seq<char>) -> bool {
    forall|k: int| 0 <= k < s.len() ==> is_digit(s[k])
}

/// The sequence with one leading sign character removed, if present.
pub open spec fn strip_sign(s: Seq<char>) -> Seq<char> {
    if s.len() > 0 && (s[0] == '+' || s[0] == '-') {
        s.drop_first()
    } else {
        s
    }
}

/// True when `s` starts with a minus sign.
pub open spec fn is_negative(s: Seq<char>) -> bool {
    s.len() > 0 && s[0] == '-'
}

/// An integer token: an optional sign followed by one or more digits.
pub open spec fn is_int_token(s: Seq<char>) -> bool {
    strip_sign(s).len() > 0 && all_digits(strip_sign(s))
}

/// Value of an all-digit sequence read in base ten.
pub open spec fn digits_value(s: Seq<char>) -> int
    decreases s.len(),
{
    if s.len() == 0 {
        0
    } else {
        digits_value(s.drop_last()) * 10 + digit_val(s.last())
    }
}

/// Signed value of an integer token.
pub open spec fn int_token_value(s: Seq<char>) -> int {
    if is_negative(s) {
        -digits_value(strip_sign(s))
    } else {
        digits_value(strip_sign(s))
    }
}

pub proof fn lemma_digits_value_nonneg(s: Seq<char>)
    requires
        all_digits(s),
    ensures
        digits_value(s) >= 0,
    decreases s.len(),
{
    if s.len() > 0 {
        assert(all_digits(s.drop_last()));
        lemma_digits_value_nonneg(s.drop_last());
    }
}

/// Reads the digits `t[from..]` as a base-ten magnitude, reporting
/// whether the value exceeds `u64`.
fn digits_magnitude(t: &Vec<char>, from: usize) -> (r: Option<u64>)
    requires
        from <= t@.len(),
        all_digits(t@.skip(from as int)),
    ensures
        match r {
            Some(v) => v as int == digits_value(t@.skip(from as int)),
            None => digits_value(t@.skip(from as int)) > u64::MAX,
        },
{
    let ghost s = t@.skip(from as int);
    let n = t.len();
    let mut acc: u64 = 0;
    let mut over: bool = false;
    let mut i = from;
    while i < n
        invariant
            from <= i <= n == t@.len(),
            s =~= t@.skip(from as int),
            all_digits(s),
            !over ==> acc as int == digits_value(s.take(i - from)),
            over ==> digits_value(s.take(i - from)) > u64::MAX,
        decreases n - i,
    {
        let c = t[i];
        assert(is_digit(s[i - from]));
        let d = (c as u32 - 48) as u64;
        proof {
            assert(s.take(i - from + 1).drop_last() =~= s.take(i - from));
            assert(s.take(i - from + 1).last() == s[i - from]);
        }
        if over {
            proof {
                lemma_digits_value_nonneg(s.take(i - from));
                assert(digits_value(s.take(i - from + 1)) > u64::MAX);
            }
        } else if acc > (u64::MAX - d) / 10 {
            proof {
                assert(acc as int * 10 + d as int > u64::MAX) by (nonlinear_arith)
                    requires
                        acc as int > (u64::MAX - d as int) / 10,
                        0 <= d as int <= 9,
                ;
            }
            over = true;
        } else {
            proof {
                assert(acc as int * 10 + d as int <= u64::MAX) by (nonlinear_arith)
                    requires
                        acc as int <= (u64::MAX - d as int) / 10,
                        0 <= d as int <= 9,
                ;
            }
            acc = acc * 10 + d;
        }
        i += 1;
    }
    proof {
        assert(s.take(n - from) =~= s);
    }
    if over {
        None
    } else {
        Some(acc)
    }
}

/// Whether `t` is an integer token whose value lies in `[lo, hi]`; if
/// so, that value.
pub fn parse_int(t: &Vec<char>, lo: i64, hi: i64) -> (r: Option<i64>)
    ensures
        match r {
            Some(v) => is_int_token(t@) && lo <= int_token_value(t@) <= hi && v
                == int_token_value(t@),
            None => !(is_int_token(t@) && lo <= int_token_value(t@) <= hi),
        },
{
    let n = t.len();
    let mut from: usize = 0;
    let mut neg: bool = false;
    if n > 0 && (t[0] == '+' || t[0] == '-') {
        neg = t[0] == '-';
        from = 1;
    }
    proof {
        assert(strip_sign(t@) =~= t@.skip(from as int));
    }
    if from == n {
        return None;  // no digits
    }
    // check every remaining character is a digit
    let mut k = from;
    while k < n
        invariant
            from <= k <= n == t@.len(),
            strip_sign(t@) == t@.skip(from as int),
            forall|j: int| from <= j < k ==> is_digit(t@[j]),
        decreases n - k,
    {
        if !digit_exec(t[k]) {
            proof {
                assert(t@.skip(from as int)[k - from] == t@[k as int]);
            }
            return None;
        }
        k += 1;
    }
    proof {
        assert(forall|j: int|
            0 <= j < strip_sign(t@).len() ==> strip_sign(t@)[j] == t@[from + j]);
    }
    assert(all_digits(t@.skip(from as int)));
    let mag = digits_magnitude(t, from);
    proof {
        lemma_digits_value_nonneg(t@.skip(from as int));
    }
    match mag {
        None => None,
        Some(m) => {
            if neg {
                if m <= i64::MAX as u64 {
                    let v = -(m as i64);
                    if lo <= v && v <= hi {
                        Some(v)
                    } else {
                        None
                    }
                } else if m == i64::MAX as u64 + 1 {
                    let v = i64::MIN;
                    if lo <= v && v <= hi {
                        Some(v)
                    } else {
                        None
                    }
                } else {
                    None
                }
            } else {
                if m <= i64::MAX as u64 {
                    let v = m as i64;
                    if lo <= v && v <= hi {
                        Some(v)
                    } else {
                        None
                    }
                } else {
                    None
                }
            }
        },
    }
}

// ---------------------------------------------------------------------
// Real-number tokens
// ---------------------------------------------------------------------
/// Index of the first exponent marker (`e` or `E`) in `s`, or `s.len()`.
pub open spec fn find_exp(s: Seq<char>) -> int
    decreases s.len(),
{
    if s.len() == 0 {
        0
    } else if s[0] == 'e' || s[0] == 'E' {
        0
    } else {
        1 + find_exp(s.drop_first())
    }
}

pub proof fn lemma_find_exp(s: Seq<char>)
    ensures
        0 <= find_exp(s) <= s.len(),
        find_exp(s) < s.len() ==> (s[find_exp(s)] == 'e' || s[find_exp(s)] == 'E'),
        forall|k: int| 0 <= k < find_exp(s) ==> !(s[k] == 'e' || s[k] == 'E'),
    decreases s.len(),
{
    if s.len() > 0 && !(s[0] == 'e' || s[0] == 'E') {
        lemma_find_exp(s.drop_first());
        assert(forall|k: int| 1 <= k < s.len() ==> s[k] == s.drop_first()[k - 1]);
    }
}

/// A mantissa: digits with at most one decimal point and at least one
/// digit.
pub open spec fn is_mantissa(s: Seq<char>) -> bool {
    &&& forall|k: int| 0 <= k < s.len() ==> (is_digit(s[k]) || s[k] == '.')
    &&& count_dots(s) <= 1
    &&& exists|k: int| 0 <= k < s.len() && is_digit(s[k])
}

/// Number of decimal points in `s`.
pub open spec fn count_dots(s: Seq<char>) -> int
    decreases s.len(),
{
    if s.len() == 0 {
        0
    } else {
        count_dots(s.drop_last()) + if s.last() == '.' {
            1int
        } else {
            0int
        }
    }
}

/// A real-number token: an optional sign, a mantissa, and an optional
/// exponent written as `e` or `E` followed by an integer token.
pub open spec fn is_real_token(s: Seq<char>) -> bool {
    let t = strip_sign(s);
    let p = find_exp(t);
    &&& is_mantissa(t.take(p))
    &&& (p == t.len() || is_int_token(t.skip(p + 1)))
}

/// A real-number token whose mantissa digits are all zero, so that its
/// mathematical value is exactly zero.
pub open spec fn is_zero_real_token(s: Seq<char>) -> bool {
    let t = strip_sign(s);
    let m = t.take(find_exp(t));
    &&& is_real_token(s)
    &&& forall|k: int| 0 <= k < m.len() ==> !(is_digit(m[k]) && m[k] != '0')
}

proof fn lemma_count_dots_step(s: Seq<char>, i: int)
    requires
        0 <= i < s.len(),
    ensures
        count_dots(s.take(i + 1)) == count_dots(s.take(i)) + if s[i] == '.' {
            1int
        } else {
            0int
        },
{
    assert(s.take(i + 1).drop_last() =~= s.take(i));
    assert(s.take(i + 1).last() == s[i]);
}

/// Checks the mantissa grammar on the range `[a, b)` of `t`.
fn check_mantissa(t: &Vec<char>, a: usize, b: usize) -> (r: bool)
    requires
        a <= b <= t@.len(),
    ensures
        r == is_mantissa(t@.subrange(a as int, b as int)),
{
    let ghost m = t@.subrange(a as int, b as int);
    let mut dots: u64 = 0;
    let mut saw_digit: bool = false;
    let mut i = a;
    while i < b
        invariant
            a <= i <= b <= t@.len(),
            m =~= t@.subrange(a as int, b as int),
            dots as int == count_dots(m.take(i - a)),
            dots <= i,
            saw_digit == exists|k: int| 0 <= k < i - a && is_digit(m[k]),
            forall|k: int| 0 <= k < i - a ==> (is_digit(m[k]) || m[k] == '.'),
        decreases b - i,
    {
        let c = t[i];
        assert(m[i - a] == c);
        proof {
            lemma_count_dots_step(m, i - a);
        }
        if c == '.' {
            dots += 1;
        } else if digit_exec(c) {
            saw_digit = true;
        } else {
            return false;
        }
        i += 1;
    }
    proof {
        assert(m.take(i - a) =~= m);
    }
    dots <= 1 && saw_digit
}

/// Checks that every character in the range `[a, b)` of `t` is a digit,
/// the range is nonempty, and an optional leading sign is allowed.
fn check_int_range(t: &Vec<char>, a: usize, b: usize) -> (r: bool)
    requires
        a <= b <= t@.len(),
    ensures
        r == is_int_token(t@.subrange(a as int, b as int)),
{
    let ghost s = t@.subrange(a as int, b as int);
    let mut from = a;
    if a < b && (t[a] == '+' || t[a] == '-') {
        from = a + 1;
    }
    proof {
        assert(strip_sign(s) =~= t@.subrange(from as int, b as int));
    }
    if from == b {
        return false;
    }
    let mut k = from;
    while k < b
        invariant
            from <= k <= b <= t@.len(),
            s =~= t@.subrange(a as int, b as int),
            a <= from <= b,
            strip_sign(s) =~= t@.subrange(from as int, b as int),
            forall|j: int| from <= j < k ==> is_digit(t@[j]),
        decreases b - k,
    {
        if !digit_exec(t[k]) {
            proof {
                assert(strip_sign(s)[k - from] == t@[k as int]);
            }
            return false;
        }
        k += 1;
    }
    assert(forall|j: int| 0 <= j < strip_sign(s).len() ==> strip_sign(s)[j] == t@[from + j]);
    true
}

/// Whether `t` is a real-number token.
pub fn check_real(t: &Vec<char>) -> (r: bool)
    ensures
        r == is_real_token(t@),
{
    let n = t.len();
    let mut from: usize = 0;
    if n > 0 && (t[0] == '+' || t[0] == '-') {
        from = 1;
    }
    let ghost body = strip_sign(t@);
    proof {
        assert(body =~= t@.skip(from as int));
    }
    // find the exponent marker
    let mut p = from;
    while p < n && !(t[p] == 'e' || t[p] == 'E')
        invariant
            from <= p <= n == t@.len(),
            forall|k: int| from <= k < p ==> !(t@[k] == 'e' || t@[k] == 'E'),
        decreases n - p,
    {
        p += 1;
    }
    proof {
        lemma_find_exp(body);
        assert(forall|k: int| 0 <= k < p - from ==> !(body[k] == 'e' || body[k] == 'E'));
        if p < n {
            assert(body[p - from] == 'e' || body[p - from] == 'E');
            if find_exp(body) > p - from {
                assert(!(body[p - from] == 'e' || body[p - from] == 'E'));
            }
            if find_exp(body) < p - from {
                assert(body[find_exp(body)] == 'e' || body[find_exp(body)] == 'E');
            }
        } else {
            if find_exp(body) < body.len() {
                assert(body[find_exp(body)] == 'e' || body[find_exp(body)] == 'E');
            }
        }
        assert(find_exp(body) == p - from);
        assert(body.take(p - from) =~= t@.subrange(from as int, p as int));
    }
    if !check_mantissa(t, from, p) {
        return false;
    }
    if p == n {
        return true;
    }
    proof {
        assert(body.skip(p - from + 1) =~= t@.subrange(p + 1, n as int));
    }
    check_int_range(t, p + 1, n)
}

/// Whether `t` is a real-number token of mathematical value zero.
pub fn check_zero_real(t: &Vec<char>) -> (r: bool)
    ensures
        r == is_zero_real_token(t@),
{
    let n = t.len();
    if !check_real(t) {
        return false;
    }
    let mut from: usize = 0;
    if n > 0 && (t[0] == '+' || t[0] == '-') {
        from = 1;
    }
    let ghost body = strip_sign(t@);
    proof {
        assert(body =~= t@.skip(from as int));
    }
    let mut p = from;
    while p < n && !(t[p] == 'e' || t[p] == 'E')
        invariant
            from <= p <= n == t@.len(),
            forall|k: int| from <= k < p ==> !(t@[k] == 'e' || t@[k] == 'E'),
        decreases n - p,
    {
        p += 1;
    }
    proof {
        lemma_find_exp(body);
        if p < n {
            if find_exp(body) > p - from {
                assert(!(body[p - from] == 'e' || body[p - from] == 'E'));
            }
            if find_exp(body) < p - from {
                assert(body[find_exp(body)] == 'e' || body[find_exp(body)] == 'E');
            }
        } else {
            if find_exp(body) < body.len() {
                assert(body[find_exp(body)] == 'e' || body[find_exp(body)] == 'E');
            }
        }
        assert(find_exp(body) == p - from);
    }
    let ghost m = body.take(p - from);
    let mut k = from;
    while k < p
        invariant
            from <= k <= p <= n == t@.len(),
            body == strip_sign(t@),
            find_exp(body) == p - from,
            is_real_token(t@),
            m == body.take(p - from),
            body =~= t@.skip(from as int),
            forall|j: int| 0 <= j < k - from ==> !(is_digit(m[j]) && m[j] != '0'),
        decreases p - k,
    {
        let c = t[k];
        assert(m[k - from] == c);
        if digit_exec(c) && c != '0' {
            proof {
                assert(is_digit(m[k - from]) && m[k - from] != '0');
            }
            return false;
        }
        k += 1;
    }
    proof {
        assert(m.len() == p - from);
    }
    true
}

} // verus!
