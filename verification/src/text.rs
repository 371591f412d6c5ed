//! Character-level string helpers shared by the other modules: equality,
//! decimal rendering and parsing of integers, segment and substring search.
use vstd::prelude::*;

verus! {

/// Equality of two string slices, character by character.
pub fn str_eq(a: &str, b: &str) -> (r: bool)
    ensures
        r == (a@ == b@),
{
    let av = chars_of(a);
    let bv = chars_of(b);
    if av.len() != bv.len() {
        return false;
    }
    let mut i: usize = 0;
    while i < av.len()
        invariant
            av@ == a@,
            bv@ == b@,
            av@.len() == bv@.len(),
            i <= av@.len(),
            forall|j: int| 0 <= j < i ==> av@[j] == bv@[j],
        decreases av@.len() - i,
    {
        if av[i] != bv[i] {
            return false;
        }
        i = i + 1;
    }
    assert(a@ =~= b@);
    true
}

/// The digit characters, indexed by their value.
pub open spec fn digit_chars() -> Seq<char> {
    seq!['0', '1', '2', '3', '4', '5', '6', '7', '8', '9']
}

/// Base-ten rendering of a natural number, without leading zeros.
pub open spec fn dec_nat(n: nat) -> Seq<char>
    decreases n,
{
    if n < 10 {
        seq![digit_chars()[n as int]]
    } else {
        dec_nat(n / 10).push(digit_chars()[(n % 10) as int])
    }
}

/// Base-ten rendering of an integer, with a leading `-` when it is negative.
pub open spec fn dec_int(i: int) -> Seq<char> {
    if i < 0 {
        seq!['-'] + dec_nat((-i) as nat)
    } else {
        dec_nat(i as nat)
    }
}

fn digit_str(d: u64) -> (r: &'static str)
    requires
        d < 10,
    ensures
        r@ == seq![digit_chars()[d as int]],
{
    proof {
        reveal_strlit("0");
        reveal_strlit("1");
        reveal_strlit("2");
        reveal_strlit("3");
        reveal_strlit("4");
        reveal_strlit("5");
        reveal_strlit("6");
        reveal_strlit("7");
        reveal_strlit("8");
        reveal_strlit("9");
    }
    if d == 0 {
        "0"
    } else if d == 1 {
        "1"
    } else if d == 2 {
        "2"
    } else if d == 3 {
        "3"
    } else if d == 4 {
        "4"
    } else if d == 5 {
        "5"
    } else if d == 6 {
        "6"
    } else if d == 7 {
        "7"
    } else if d == 8 {
        "8"
    } else {
        "9"
    }
}

/// Decimal text of an unsigned integer.
pub fn u64_to_decimal(n: u64) -> (r: String)
    ensures
        r@ == dec_nat(n as nat),
    decreases n,
{
    if n < 10 {
        digit_str(n).to_string()
    } else {
        let mut s = u64_to_decimal(n / 10);
        s.append(digit_str(n % 10));
        s
    }
}

/// Decimal text of a signed integer.
pub fn i64_to_decimal(n: i64) -> (r: String)
    ensures
        r@ == dec_int(n as int),
{
    if n < 0 {
        let magnitude: u64 = ((-(n + 1)) as u64) + 1;
        let digits = u64_to_decimal(magnitude);
        let mut s = "-".to_string();
        s.append(digits.as_str());
        proof {
            reveal_strlit("-");
        }
        s
    } else {
        u64_to_decimal(n as u64)
    }
}

pub open spec fn is_digit(c: char) -> bool {
    '0' <= c && c <= '9'
}

pub open spec fn all_digits(s: Seq<char>) -> bool {
    forall|i: int| 0 <= i < s.len() ==> is_digit(#[trigger] s[i])
}

/// Value of a sequence of decimal digits (most significant first).
pub open spec fn digits_value(s: Seq<char>) -> nat
    decreases s.len(),
{
    if s.len() == 0 {
        0
    } else {
        digits_value(s.drop_last()) * 10 + ((s.last() as int) - ('0' as int)) as nat
    }
}

/// What `u64`'s `FromStr` accepts: an optional `+`, then at least one
/// decimal digit, of a value that fits in 64 bits.
pub open spec fn parse_u64_spec(s: Seq<char>) -> Option<u64> {
    let body = if s.len() > 0 && s[0] == '+' {
        s.drop_first()
    } else {
        s
    };
    if body.len() > 0 && all_digits(body) && digits_value(body) <= u64::MAX {
        Some(digits_value(body) as u64)
    } else {
        None
    }
}

proof fn lemma_digits_value_prefix(s: Seq<char>, k: int)
    requires
        0 <= k <= s.len(),
        all_digits(s),
    ensures
        digits_value(s.take(k)) <= digits_value(s),
    decreases s.len() - k,
{
    if k < s.len() {
        lemma_digits_value_prefix(s, k + 1);
        assert(s.take(k + 1).drop_last() == s.take(k));
        assert(is_digit(s[k]));
    } else {
        assert(s.take(k) == s);
    }
}

/// Parses decimal text the way `str::parse::<u64>` does.
pub fn parse_u64(s: &str) -> (r: Option<u64>)
    ensures
        r == parse_u64_spec(s@),
{
    let mut value: u64 = 0;
    let mut count: usize = 0;
    let mut overflow = false;
    let mut bad = false;
    let mut skip_plus = false;
    let mut n: usize = 0;
    let char_len: usize = s.unicode_len();
    let ghost body: Seq<char> = if s@.len() > 0 && s@[0] == '+' {
        s@.drop_first()
    } else {
        s@
    };
    for c in it: s.chars()
        invariant
            it.seq() == s@,
            n == it.index(),
            char_len == s@.len(),
            body == (if s@.len() > 0 && s@[0] == '+' {
                s@.drop_first()
            } else {
                s@
            }),
            skip_plus == (it.index() > 0 && s@[0] == '+'),
            count == (if skip_plus {
                it.index() - 1
            } else {
                it.index() as int
            }),
            count <= it.index(),
            bad == !all_digits(body.take(count as int)),
            !bad && !overflow ==> value == digits_value(body.take(count as int)),
            !bad && overflow ==> digits_value(body.take(count as int)) > u64::MAX,
    {
        if n == 0 && c == '+' {
            skip_plus = true;
            assert(body.take(0) =~= Seq::<char>::empty());
        } else {
            let ghost prev = body.take(count as int);
            assert(body.take(count + 1).drop_last() == prev);
            assert(body[count as int] == c);
            if '0' <= c && c <= '9' {
                let d: u64 = (c as u32 - '0' as u32) as u64;
                if !bad && !overflow {
                    if value > (u64::MAX - d) / 10 {
                        overflow = true;
                    } else {
                        value = value * 10 + d;
                    }
                }
            } else {
                bad = true;
            }
            proof {
                let next = body.take(count + 1);
                if !all_digits(prev) {
                    let j = choose|j: int| 0 <= j < prev.len() && !is_digit(prev[j]);
                    assert(next[j] == prev[j]);
                }
                if all_digits(prev) && is_digit(c) {
                    assert forall|j: int| 0 <= j < next.len() implies is_digit(#[trigger] next[j]) by {
                        if j < prev.len() {
                            assert(next[j] == prev[j]);
                        }
                    }
                }
            }
            count = count + 1;
        }
        n = n + 1;
    }
    assert(body.take(count as int) == body);
    proof {
        if !bad && overflow {
            assert(digits_value(body) > u64::MAX);
        }
    }
    if bad || overflow || count == 0 {
        None
    } else {
        Some(value)
    }
}

proof fn lemma_digit_value(k: int)
    requires
        0 <= k < 10,
    ensures
        (digit_chars()[k] as int) - ('0' as int) == k,
        is_digit(digit_chars()[k]),
{
    let d = digit_chars();
    assert(d[0] == '0' && d[1] == '1' && d[2] == '2' && d[3] == '3' && d[4] == '4');
    assert(d[5] == '5' && d[6] == '6' && d[7] == '7' && d[8] == '8' && d[9] == '9');
}

proof fn lemma_dec_nat_digits(n: nat)
    ensures
        dec_nat(n).len() > 0,
        all_digits(dec_nat(n)),
        digits_value(dec_nat(n)) == n,
    decreases n,
{
    if n < 10 {
        lemma_digit_value(n as int);
        let s = dec_nat(n);
        assert(s.drop_last() =~= Seq::<char>::empty());
        assert(digits_value(Seq::<char>::empty()) == 0);
        assert(s.last() == digit_chars()[n as int]);
        assert(digits_value(s) == n);
    } else {
        lemma_digit_value((n % 10) as int);
        assert((n / 10) * 10 + n % 10 == n) by (nonlinear_arith);
        lemma_dec_nat_digits(n / 10);
        let d = dec_nat(n / 10);
        let s = dec_nat(n);
        assert(s.drop_last() == d);
        assert(s.last() == digit_chars()[(n % 10) as int]);
        assert(digits_value(s) == digits_value(d) * 10 + ((s.last() as int) - ('0' as int)) as nat);
        assert forall|i: int| 0 <= i < s.len() implies is_digit(#[trigger] s[i]) by {
            if i < d.len() {
                assert(s[i] == d[i]);
            }
        }
    }
}

/// A number written in decimal reads back as the same number: the text
/// that `u64_to_decimal` produces is what `parse_u64` accepts, with the
/// same value.
pub proof fn decimal_text_reads_back(n: u64)
    ensures
        parse_u64_spec(dec_nat(n as nat)) == Some(n),
{
    lemma_dec_nat_digits(n as nat);
    let s = dec_nat(n as nat);
    assert(is_digit(s[0]));
}

/// Index of the last occurrence of `c` in `s`, or `-1` when it does not occur.
pub open spec fn last_index_of(s: Seq<char>, c: char) -> int
    decreases s.len(),
{
    if s.len() == 0 {
        -1
    } else if s.last() == c {
        s.len() - 1
    } else {
        last_index_of(s.drop_last(), c)
    }
}

/// The last of the pieces that splitting `s` at every `c` gives: the text
/// after the last `c`, or all of `s` when `c` does not occur.
pub open spec fn last_segment_spec(s: Seq<char>, c: char) -> Seq<char> {
    s.subrange(last_index_of(s, c) + 1, s.len() as int)
}

proof fn lemma_last_index_bounds(s: Seq<char>, c: char)
    ensures
        -1 <= last_index_of(s, c) < s.len(),
        last_index_of(s, c) >= 0 ==> s[last_index_of(s, c)] == c,
        forall|j: int| last_index_of(s, c) < j < s.len() ==> s[j] != c,
    decreases s.len(),
{
    if s.len() > 0 && s.last() != c {
        lemma_last_index_bounds(s.drop_last(), c);
        assert forall|j: int| last_index_of(s, c) < j < s.len() implies s[j] != c by {
            if j < s.len() - 1 {
                assert(s.drop_last()[j] == s[j]);
            }
        }
    }
}

/// The last piece of `s` split at `c` (what `s.split(c).last()` yields).
pub fn last_segment(s: &str, c: char) -> (r: &str)
    ensures
        r@ == last_segment_spec(s@, c),
{
    let mut last: usize = 0;
    let mut found = false;
    let mut n: usize = 0;
    let char_len: usize = s.unicode_len();
    for x in it: s.chars()
        invariant
            it.seq() == s@,
            n == it.index(),
            char_len == s@.len(),
            found ==> last < n,
            (if found {
                last as int
            } else {
                -1
            }) == last_index_of(s@.take(n as int), c),
    {
        assert(s@.take(n + 1).drop_last() == s@.take(n as int));
        if x == c {
            last = n;
            found = true;
        }
        n = n + 1;
    }
    assert(s@.take(n as int) == s@);
    proof {
        lemma_last_index_bounds(s@, c);
    }
    let start: usize = if found {
        last + 1
    } else {
        0
    };
    s.substring_char(start, n)
}

/// `pat` occurs in `s` as a contiguous piece.
pub open spec fn contains_seq(s: Seq<char>, pat: Seq<char>) -> bool {
    exists|i: int| 0 <= i && i + pat.len() <= s.len() && #[trigger] s.subrange(i, i + pat.len()) == pat
}

fn chars_of(s: &str) -> (r: Vec<char>)
    ensures
        r@ == s@,
{
    let mut v: Vec<char> = Vec::new();
    for x in it: s.chars()
        invariant
            it.seq() == s@,
            v@ == s@.take(it.index() as int),
    {
        v.push(x);
        assert(v@ == s@.take(it.index() + 1));
    }
    assert(s@.take(s@.len() as int) == s@);
    v
}

fn matches_at(s: &Vec<char>, pat: &Vec<char>, i: usize) -> (r: bool)
    requires
        i + pat@.len() <= s@.len(),
    ensures
        r == (s@.subrange(i as int, i + pat@.len()) == pat@),
{
    let mut j: usize = 0;
    let _ = s.len();
    while j < pat.len()
        invariant
            j <= pat@.len(),
            s@.len() <= usize::MAX,
            i + pat@.len() <= s@.len(),
            forall|k: int| 0 <= k < j ==> s@[i + k] == pat@[k],
        decreases pat@.len() - j,
    {
        if s[i + j] != pat[j] {
            assert(s@.subrange(i as int, i + pat@.len())[j as int] != pat@[j as int]);
            return false;
        }
        j = j + 1;
    }
    assert(s@.subrange(i as int, i + pat@.len()) =~= pat@);
    true
}

/// Substring search (what `str::contains` with a `&str` pattern answers).
pub fn contains_str(s: &str, pat: &str) -> (r: bool)
    ensures
        r == contains_seq(s@, pat@),
{
    let sv = chars_of(s);
    let pv = chars_of(pat);
    if pv.len() > sv.len() {
        return false;
    }
    let last: usize = sv.len() - pv.len();
    let mut i: usize = 0;
    loop
        invariant
            sv@ == s@,
            pv@ == pat@,
            last == sv@.len() - pv@.len(),
            i <= last,
            forall|k: int| 0 <= k < i ==> #[trigger] s@.subrange(k, k + pat@.len()) != pat@,
        decreases last - i,
    {
        if matches_at(&sv, &pv, i) {
            assert(s@.subrange(i as int, i + pat@.len()) == pat@);
            return true;
        }
        if i == last {
            assert forall|k: int| 0 <= k && k + pat@.len() <= s@.len() implies #[trigger] s@.subrange(k, k + pat@.len()) != pat@ by {
                assert(k <= i);
            }
            return false;
        }
        i = i + 1;
    }
}

/// Unicode White_Space, the characters that `char::is_whitespace`
/// accepts and `str::trim` removes.
pub open spec fn is_white_space(c: char) -> bool {
    let v = c as u32;
    ||| 0x09 <= v <= 0x0d
    ||| v == 0x20
    ||| v == 0x85
    ||| v == 0xa0
    ||| v == 0x1680
    ||| 0x2000 <= v <= 0x200a
    ||| v == 0x2028
    ||| v == 0x2029
    ||| v == 0x202f
    ||| v == 0x205f
    ||| v == 0x3000
}

/// Whether `c` is white space.
pub fn is_white_space_char(c: char) -> (r: bool)
    ensures
        r == is_white_space(c),
{
    let v = c as u32;
    (0x09 <= v && v <= 0x0d) || v == 0x20 || v == 0x85 || v == 0xa0 || v == 0x1680 || (0x2000 <= v
        && v <= 0x200a) || v == 0x2028 || v == 0x2029 || v == 0x202f || v == 0x205f || v == 0x3000
}

/// `s` without its leading white space.
pub open spec fn trim_start_spec(s: Seq<char>) -> Seq<char>
    decreases s.len(),
{
    if s.len() > 0 && is_white_space(s[0]) {
        trim_start_spec(s.drop_first())
    } else {
        s
    }
}

/// `s` without its trailing white space.
pub open spec fn trim_end_spec(s: Seq<char>) -> Seq<char>
    decreases s.len(),
{
    if s.len() > 0 && is_white_space(s.last()) {
        trim_end_spec(s.drop_last())
    } else {
        s
    }
}

/// What `str::trim` leaves of `s`: `s` without leading and trailing white
/// space.
pub open spec fn trimmed(s: Seq<char>) -> Seq<char> {
    trim_end_spec(trim_start_spec(s))
}

/// Removes leading and trailing white space (what `str::trim` does).
pub fn trim_str(s: &str) -> (r: &str)
    ensures
        r@ == trimmed(s@),
{
    let v = chars_of(s);
    let n: usize = v.len();
    let mut i: usize = 0;
    assert(s@.skip(0) =~= s@);
    while i < n && is_white_space_char(v[i])
        invariant
            v@ == s@,
            n == s@.len(),
            i <= n,
            trim_start_spec(s@) == trim_start_spec(s@.skip(i as int)),
        decreases n - i,
    {
        assert(s@.skip(i as int).drop_first() =~= s@.skip(i + 1));
        i = i + 1;
    }
    assert(trim_start_spec(s@.skip(i as int)) == s@.skip(i as int));
    let mut j: usize = n;
    assert(s@.skip(i as int) =~= s@.subrange(i as int, n as int));
    while j > i && is_white_space_char(v[j - 1])
        invariant
            v@ == s@,
            n == s@.len(),
            i <= j <= n,
            trimmed(s@) == trim_end_spec(s@.subrange(i as int, j as int)),
        decreases j - i,
    {
        assert(s@.subrange(i as int, j as int).drop_last() =~= s@.subrange(i as int, j - 1));
        j = j - 1;
    }
    assert(trim_end_spec(s@.subrange(i as int, j as int)) == s@.subrange(i as int, j as int));
    s.substring_char(i, j)
}

/// Text made of white space alone trims to nothing.
proof fn blank_text_trims_to_nothing(s: Seq<char>)
    requires
        forall|i: int| 0 <= i < s.len() ==> is_white_space(#[trigger] s[i]),
    ensures
        trimmed(s).len() == 0,
    decreases s.len(),
{
    if s.len() > 0 {
        assert forall|i: int| 0 <= i < s.drop_first().len() implies is_white_space(
            #[trigger] s.drop_first()[i],
        ) by {
            assert(s.drop_first()[i] == s[i + 1]);
        }
        blank_text_trims_to_nothing(s.drop_first());
        assert(trim_start_spec(s) == trim_start_spec(s.drop_first()));
    }
}

/// Trimming the end keeps a first character that is not white space.
proof fn trim_end_keeps_solid_start(s: Seq<char>)
    requires
        s.len() > 0,
        !is_white_space(s[0]),
    ensures
        trim_end_spec(s).len() > 0,
    decreases s.len(),
{
    if is_white_space(s.last()) {
        assert(s.len() > 1);
        assert(s.drop_last()[0] == s[0]);
        trim_end_keeps_solid_start(s.drop_last());
    }
}

/// Trimming the start stops at the first character that is not white space.
proof fn trim_start_stops_at_solid(s: Seq<char>, k: int)
    requires
        0 <= k < s.len(),
        !is_white_space(s[k]),
    ensures
        trim_start_spec(s).len() > 0,
        !is_white_space(trim_start_spec(s)[0]),
    decreases s.len(),
{
    if is_white_space(s[0]) {
        assert(k > 0);
        assert(s.drop_first()[k - 1] == s[k]);
        trim_start_stops_at_solid(s.drop_first(), k - 1);
    }
}

/// Text trims to nothing exactly when it is made of white space alone.
pub proof fn trimmed_empty_iff_blank(s: Seq<char>)
    ensures
        trimmed(s).len() == 0 <==> forall|i: int| 0 <= i < s.len() ==> is_white_space(#[trigger] s[i]),
{
    if forall|i: int| 0 <= i < s.len() ==> is_white_space(#[trigger] s[i]) {
        blank_text_trims_to_nothing(s);
    } else {
        let k = choose|k: int| 0 <= k < s.len() && !is_white_space(#[trigger] s[k]);
        trim_start_stops_at_solid(s, k);
        trim_end_keeps_solid_start(trim_start_spec(s));
    }
}

} // verus!
