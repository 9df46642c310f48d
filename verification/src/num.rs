//! Decimal text for the wire protocol.
//!
//! Events cross the wire as JSON whose numbers are plain decimals.  Money-like
//! quantities (prices, trade sizes, CPU percentages) are held as integer
//! counts of hundredths ("centi" values) and rendered with exactly two
//! digits after the point; volumes, rates and timestamps are rendered as
//! plain integers.  Inbound decimal text from an upstream feed is parsed
//! back into the same fixed-point form.

use vstd::prelude::*;
use vstd::string::StrSliceExecFns;
use vstd::string::StringExecFns;

verus! {

/// Is `c` one of the ten decimal digit characters?
pub open spec fn is_dec_digit(c: char) -> bool {
    ||| c == '0'
    ||| c == '1'
    ||| c == '2'
    ||| c == '3'
    ||| c == '4'
    ||| c == '5'
    ||| c == '6'
    ||| c == '7'
    ||| c == '8'
    ||| c == '9'
}

/// The numeric value of a decimal digit character (0 for anything else).
pub open spec fn digit_val(c: char) -> nat {
    if c == '1' {
        1
    } else if c == '2' {
        2
    } else if c == '3' {
        3
    } else if c == '4' {
        4
    } else if c == '5' {
        5
    } else if c == '6' {
        6
    } else if c == '7' {
        7
    } else if c == '8' {
        8
    } else if c == '9' {
        9
    } else {
        0
    }
}

/// The digit character for a value below ten ('0' for anything else).
pub open spec fn spec_digit(d: nat) -> char {
    if d == 1 {
        '1'
    } else if d == 2 {
        '2'
    } else if d == 3 {
        '3'
    } else if d == 4 {
        '4'
    } else if d == 5 {
        '5'
    } else if d == 6 {
        '6'
    } else if d == 7 {
        '7'
    } else if d == 8 {
        '8'
    } else if d == 9 {
        '9'
    } else {
        '0'
    }
}

/// The usual decimal rendering of `n`, most significant digit first,
/// without leading zeros (a single '0' for zero itself).
pub open spec fn spec_u64_chars(n: nat) -> Seq<char>
    decreases n,
{
    if n < 10 {
        seq![spec_digit(n)]
    } else {
        spec_u64_chars(n / 10).push(spec_digit(n % 10))
    }
}

/// The decimal rendering of a signed value: a leading '-' for negatives.
pub open spec fn spec_i64_chars(n: int) -> Seq<char> {
    if n < 0 {
        seq!['-'] + spec_u64_chars((-n) as nat)
    } else {
        spec_u64_chars(n as nat)
    }
}

/// The rendering of a count of hundredths: the whole part, a point, and
/// exactly two fraction digits.
pub open spec fn spec_centi_chars(c: nat) -> Seq<char> {
    spec_u64_chars(c / 100) + seq!['.', spec_digit((c % 100) / 10), spec_digit(c % 10)]
}

/// One digit character as a borrowed one-character string.
fn digit_str(d: u64) -> (r: &'static str)
    requires
        d < 10,
    ensures
        r@ =~= seq![spec_digit(d as nat)],
{
    proof {
        reveal_strlit("0");
        reveal_strlit("1");
        reveal_strlit("2");
        reveal_strlit("3");
        reveal_strlit("4");
        reveal_strlit("5");
        reveal_strlit("6");
        reveal_strlit("7");
        reveal_strlit("8");
        reveal_strlit("9");
    }
    if d == 0 {
        "0"
    } else if d == 1 {
        "1"
    } else if d == 2 {
        "2"
    } else if d == 3 {
        "3"
    } else if d == 4 {
        "4"
    } else if d == 5 {
        "5"
    } else if d == 6 {
        "6"
    } else if d == 7 {
        "7"
    } else if d == 8 {
        "8"
    } else {
        "9"
    }
}

/// Render `n` in decimal.
pub fn format_u64(n: u64) -> (r: String)
    ensures
        r@ == spec_u64_chars(n as nat),
    decreases n,
{
    if n < 10 {
        let r = String::from_str(digit_str(n));
        proof {
            assert(r@ =~= spec_u64_chars(n as nat));
        }
        r
    } else {
        let mut s = format_u64(n / 10);
        s.append(digit_str(n % 10));
        proof {
            assert((n / 10) as nat == (n as nat) / 10);
            assert((n % 10) as nat == (n as nat) % 10);
            assert(s@ =~= spec_u64_chars(n as nat));
        }
        s
    }
}

/// Render a signed value in decimal.
pub fn format_i64(n: i64) -> (r: String)
    ensures
        r@ == spec_i64_chars(n as int),
{
    if n >= 0 {
        format_u64(n as u64)
    } else {
        let mag: u64 = (-(n as i128)) as u64;
        proof {
            assert(mag == -(n as int));
        }
        let mut s = String::from_str("-");
        s.append(format_u64(mag).as_str());
        proof {
            reveal_strlit("-");
            assert(s@ =~= spec_i64_chars(n as int));
        }
        s
    }
}

/// Every character of `s` is a decimal digit.
pub open spec fn all_digits(s: Seq<char>) -> bool {
    forall|i: int| 0 <= i < s.len() ==> is_dec_digit(#[trigger] s[i])
}

/// The value of a string of decimal digits, most significant first.
pub open spec fn dec_val(s: Seq<char>) -> nat
    decreases s.len(),
{
    if s.len() == 0 {
        0
    } else {
        dec_val(s.drop_last()) * 10 + digit_val(s.last())
    }
}

/// Reading further digits never lowers the value read so far.
pub proof fn lemma_dec_val_take_monotone(s: Seq<char>, i: int, j: int)
    requires
        0 <= i <= j <= s.len(),
    ensures
        dec_val(s.take(i)) <= dec_val(s.take(j)),
    decreases j - i,
{
    if i < j {
        lemma_dec_val_take_monotone(s, i, j - 1);
        assert(s.take(j).drop_last() =~= s.take(j - 1));
        assert(dec_val(s.take(j)) == dec_val(s.take(j - 1)) * 10 + digit_val(s.take(j).last()));
    }
}

/// Does `s` contain a decimal point anywhere?
pub open spec fn has_dot(s: Seq<char>) -> bool {
    exists|k: int| 0 <= k < s.len() && s[k] == '.'
}

/// A position of a decimal point in `s` (meaningful only when `has_dot(s)`).
pub open spec fn dot_pos(s: Seq<char>) -> int {
    choose|k: int| 0 <= k < s.len() && s[k] == '.'
}

/// The accepted shape of upstream decimal text: one or more digits, then
/// optionally a point followed by one or more digits.
pub open spec fn dec_string_wf(s: Seq<char>) -> bool {
    if has_dot(s) {
        let k = dot_pos(s);
        &&& 1 <= k
        &&& k + 1 < s.len()
        &&& all_digits(s.take(k))
        &&& all_digits(s.skip(k + 1))
    } else {
        s.len() > 0 && all_digits(s)
    }
}

/// The hundredths contributed by fraction digits: digits beyond the second
/// are truncated.
pub open spec fn frac_centi(f: Seq<char>) -> nat {
    if f.len() == 0 {
        0
    } else if f.len() == 1 {
        digit_val(f[0]) * 10
    } else {
        digit_val(f[0]) * 10 + digit_val(f[1])
    }
}

/// The value of well-formed decimal text, as a count of hundredths.
pub open spec fn dec_string_centi(s: Seq<char>) -> nat {
    if has_dot(s) {
        dec_val(s.take(dot_pos(s))) * 100 + frac_centi(s.skip(dot_pos(s) + 1))
    } else {
        dec_val(s) * 100
    }
}

/// Powers of ten.
pub open spec fn pow10(k: nat) -> nat
    decreases k,
{
    if k == 0 {
        1
    } else {
        10 * pow10((k - 1) as nat)
    }
}

/// Powers of ten are positive.
pub proof fn lemma_pow10_pos(k: nat)
    ensures
        pow10(k) >= 1,
    decreases k,
{
    if k > 0 {
        lemma_pow10_pos((k - 1) as nat);
    }
}

/// Powers of ten grow with the exponent.
pub proof fn lemma_pow10_mono(a: nat, b: nat)
    requires
        a <= b,
    ensures
        pow10(a) <= pow10(b),
    decreases b,
{
    if a < b {
        lemma_pow10_mono(a, (b - 1) as nat);
        lemma_pow10_pos((b - 1) as nat);
        assert(pow10(b) == 10 * pow10((b - 1) as nat));
    }
}

/// Powers of ten multiply by adding exponents.
pub proof fn lemma_pow10_add(a: nat, b: nat)
    ensures
        pow10(a) * pow10(b) == pow10(a + b),
    decreases a,
{
    if a > 0 {
        let a1 = (a - 1) as nat;
        lemma_pow10_add(a1, b);
        assert(pow10(a) == 10 * pow10(a1));
        assert((a + b - 1) as nat == a1 + b);
        assert(pow10(a + b) == 10 * pow10((a + b - 1) as nat));
        assert(pow10(a) * pow10(b) == 10 * (pow10(a1) * pow10(b))) by (nonlinear_arith)
            requires
                pow10(a) == 10 * pow10(a1),
        ;
    } else {
        assert(pow10(0) == 1);
    }
}

/// The small powers of ten the wire's scales use.
pub proof fn lemma_pow10_values()
    ensures
        pow10(0) == 1,
        pow10(1) == 10,
        pow10(2) == 100,
        pow10(3) == 1000,
        pow10(4) == 10000,
        pow10(5) == 100000,
        pow10(6) == 1000000,
        pow10(7) == 10000000,
        pow10(8) == 100000000,
{
    assert(pow10(0) == 1);
    assert(pow10(1) == 10);
    assert(pow10(2) == 100);
    assert(pow10(3) == 1000);
    assert(pow10(4) == 10000);
    assert(pow10(5) == 100000);
    assert(pow10(6) == 1000000);
    assert(pow10(7) == 10000000);
    assert(pow10(8) == 100000000);
}

/// The value of the first `k` fraction digits, scaled to `pow10(k)`:
/// missing digits count as zeros and digits beyond the k-th are truncated.
pub open spec fn frac_scaled(f: Seq<char>, k: nat) -> nat
    decreases k,
{
    if k == 0 || f.len() == 0 {
        0
    } else {
        digit_val(f[0]) * pow10((k - 1) as nat) + frac_scaled(f.skip(1), (k - 1) as nat)
    }
}

/// The value of well-formed decimal text, scaled to `pow10(k)` (so at scale
/// zero the fraction is truncated away, at scale two the reading is in
/// hundredths, at scale eight in hundred-millionths).
pub open spec fn dec_string_scaled(s: Seq<char>, k: nat) -> nat {
    if has_dot(s) {
        dec_val(s.take(dot_pos(s))) * pow10(k) + frac_scaled(s.skip(dot_pos(s) + 1), k)
    } else {
        dec_val(s) * pow10(k)
    }
}

/// At scale two the general reading is exactly the count of hundredths.
pub proof fn lemma_scaled_two_is_centi(s: Seq<char>)
    ensures
        dec_string_scaled(s, 2) == dec_string_centi(s),
{
    lemma_pow10_values();
    if has_dot(s) {
        let f = s.skip(dot_pos(s) + 1);
        if f.len() == 0 {
        } else if f.len() == 1 {
            assert(frac_scaled(f.skip(1), 1) == 0);
        } else {
            assert(f.skip(1)[0] == f[1]);
            assert(frac_scaled(f.skip(1), 1) == digit_val(f[1]) * pow10(0) + frac_scaled(
                f.skip(1).skip(1),
                0,
            ));
        }
    }
}

/// A rendered integer is nonempty and all digits.
pub proof fn lemma_u64_chars_digits(n: nat)
    ensures
        spec_u64_chars(n).len() >= 1,
        all_digits(spec_u64_chars(n)),
    decreases n,
{
    if n >= 10 {
        lemma_u64_chars_digits(n / 10);
        let s = spec_u64_chars(n / 10);
        let t = spec_u64_chars(n);
        assert forall|i: int| 0 <= i < t.len() implies is_dec_digit(#[trigger] t[i]) by {
            if i < s.len() {
                assert(t[i] == s[i]);
            }
        }
    }
}

/// Reading back a rendered integer gives the value rendered.
pub proof fn lemma_u64_chars_value(n: nat)
    ensures
        dec_val(spec_u64_chars(n)) == n,
    decreases n,
{
    if n < 10 {
        let t = spec_u64_chars(n);
        assert(t.drop_last() =~= Seq::<char>::empty());
        assert(dec_val(Seq::<char>::empty()) == 0);
        assert(t.last() == spec_digit(n));
        assert(dec_val(t) == dec_val(t.drop_last()) * 10 + digit_val(t.last()));
    } else {
        lemma_u64_chars_value(n / 10);
        let s = spec_u64_chars(n / 10);
        let t = spec_u64_chars(n);
        assert(t.drop_last() =~= s);
        assert(dec_val(t) == dec_val(s) * 10 + digit_val(spec_digit(n % 10)));
    }
}

/// The wire's two-decimal rendering is lossless: it is well-formed decimal
/// text and reads back as exactly the count of hundredths it rendered.
pub proof fn lemma_centi_chars_round_trip(c: nat)
    ensures
        dec_string_wf(spec_centi_chars(c)),
        dec_string_centi(spec_centi_chars(c)) == c,
{
    let ip = spec_u64_chars(c / 100);
    let d1 = spec_digit((c % 100) / 10);
    let d0 = spec_digit(c % 10);
    let s = spec_centi_chars(c);
    lemma_u64_chars_digits(c / 100);
    lemma_u64_chars_value(c / 100);
    let k = ip.len() as int;
    assert(s.len() == k + 3);
    assert(s[k] == '.');
    assert(has_dot(s));
    assert forall|j: int| 0 <= j < s.len() && j != k implies s[j] != '.' by {
        if j < k {
            assert(s[j] == ip[j]);
            assert(is_dec_digit(s[j]));
        } else if j == k + 1 {
            assert(s[j] == d1);
        } else {
            assert(s[j] == d0);
        }
    }
    let kp = dot_pos(s);
    assert(0 <= kp < s.len() && s[kp] == '.');
    assert(kp == k);
    assert(s.take(k) =~= ip);
    assert(s.skip(k + 1) =~= seq![d1, d0]);
    assert(frac_centi(s.skip(k + 1)) == digit_val(d1) * 10 + digit_val(d0));
    assert(dec_string_centi(s) == (c / 100) * 100 + ((c % 100) / 10) * 10 + c % 10);
    assert(((c % 100) / 10) * 10 + c % 10 == c % 100 && (c / 100) * 100 + c % 100 == c)
        by (nonlinear_arith);
}

/// Decide whether a character is a decimal digit.
pub fn is_digit_char(c: char) -> (r: bool)
    ensures
        r == is_dec_digit(c),
{
    c == '0' || c == '1' || c == '2' || c == '3' || c == '4' || c == '5' || c == '6' || c == '7'
        || c == '8' || c == '9'
}

/// The numeric value of a digit character.
pub fn digit_value(c: char) -> (d: u64)
    requires
        is_dec_digit(c),
    ensures
        d == digit_val(c),
{
    if c == '1' {
        1
    } else if c == '2' {
        2
    } else if c == '3' {
        3
    } else if c == '4' {
        4
    } else if c == '5' {
        5
    } else if c == '6' {
        6
    } else if c == '7' {
        7
    } else if c == '8' {
        8
    } else if c == '9' {
        9
    } else {
        0
    }
}

/// Parse a plain string of decimal digits into an integer.  Succeeds exactly
/// on nonempty all-digit text whose value fits in a `u64`.
pub fn parse_u64(s: &str) -> (r: Option<u64>)
    ensures
        r is Some <==> s@.len() > 0 && all_digits(s@) && dec_val(s@) <= u64::MAX,
        r is Some ==> r->0 == dec_val(s@),
{
    let n = s.unicode_len();
    if n == 0 {
        return None;
    }
    let mut acc: u64 = 0;
    let mut i: usize = 0;
    while i < n
        invariant
            0 <= i <= n,
            n == s@.len(),
            all_digits(s@.take(i as int)),
            acc == dec_val(s@.take(i as int)),
        decreases n - i,
    {
        let c = s.get_char(i);
        if !is_digit_char(c) {
            proof {
                assert(!is_dec_digit(s@[i as int]));
            }
            return None;
        }
        let d = digit_value(c);
        if acc > (u64::MAX - d) / 10 {
            proof {
                assert(s@.take(i + 1).drop_last() =~= s@.take(i as int));
                assert(dec_val(s@.take(i + 1)) == acc * 10 + d);
                lemma_dec_val_take_monotone(s@, i + 1, n as int);
                assert(s@.take(n as int) =~= s@);
            }
            return None;
        }
        acc = acc * 10 + d;
        i = i + 1;
        proof {
            assert(s@.take(i as int).drop_last() =~= s@.take(i as int - 1));
        }
    }
    proof {
        assert(s@.take(n as int) =~= s@);
    }
    Some(acc)
}

/// A dot with digits on both sides and none elsewhere is the dot the
/// grammar speaks of, and fixes the shape and value of the text.
proof fn lemma_wf_dot(s: Seq<char>, i: int)
    requires
        1 <= i,
        i + 1 < s.len(),
        s[i] == '.',
        forall|m: int| 0 <= m < i ==> is_dec_digit(#[trigger] s[m]),
        forall|m: int| i < m < s.len() ==> is_dec_digit(#[trigger] s[m]),
    ensures
        dec_string_wf(s),
        dot_pos(s) == i,
        dec_string_centi(s) == dec_val(s.take(i)) * 100 + frac_centi(s.skip(i + 1)),
{
    assert(has_dot(s));
    let k = dot_pos(s);
    assert(0 <= k < s.len() && s[k] == '.');
    assert(k == i);
    assert(all_digits(s.take(i)));
    assert(all_digits(s.skip(i + 1)));
}

/// A non-digit that is not a dot, after digits only, breaks the grammar.
proof fn lemma_not_wf_bad_char(s: Seq<char>, i: int)
    requires
        0 <= i < s.len(),
        !is_dec_digit(s[i]),
        s[i] != '.',
        forall|m: int| 0 <= m < i ==> is_dec_digit(#[trigger] s[m]),
    ensures
        !dec_string_wf(s),
{
    if dec_string_wf(s) {
        if has_dot(s) {
            let k = dot_pos(s);
            assert(0 <= k < s.len() && s[k] == '.');
            if k < i {
                assert(is_dec_digit(s[k]));
            } else if k > i {
                assert(is_dec_digit(s.take(k)[i]));
            }
        } else {
            assert(is_dec_digit(s[i]));
        }
    }
}

/// A second non-digit after the dot breaks the grammar, whatever it is.
proof fn lemma_not_wf_after_dot(s: Seq<char>, i: int, j: int)
    requires
        0 <= i < j < s.len(),
        s[i] == '.',
        !is_dec_digit(s[j]),
        forall|m: int| 0 <= m < i ==> is_dec_digit(#[trigger] s[m]),
        forall|m: int| i < m < j ==> is_dec_digit(#[trigger] s[m]),
    ensures
        !dec_string_wf(s),
{
    if dec_string_wf(s) {
        let k = dot_pos(s);
        assert(0 <= k < s.len() && s[k] == '.');
        if k < i {
            assert(is_dec_digit(s[k]));
        } else if k == i {
            assert(is_dec_digit(s.skip(i + 1)[j - i - 1]));
        } else if k < j {
            assert(is_dec_digit(s[k]));
        } else {
            assert(is_dec_digit(s.take(k)[i]));
        }
    }
}

/// A dot with nothing after it breaks the grammar.
proof fn lemma_not_wf_trailing_dot(s: Seq<char>, i: int)
    requires
        0 <= i < s.len(),
        i + 1 == s.len(),
        s[i] == '.',
        forall|m: int| 0 <= m < i ==> is_dec_digit(#[trigger] s[m]),
    ensures
        !dec_string_wf(s),
{
    if dec_string_wf(s) {
        let k = dot_pos(s);
        assert(0 <= k < s.len() && s[k] == '.');
        if k < i {
            assert(is_dec_digit(s[k]));
        }
    }
}

/// A dot in the first position breaks the grammar.
proof fn lemma_not_wf_leading_dot(s: Seq<char>)
    requires
        s.len() > 0,
        s[0] == '.',
    ensures
        !dec_string_wf(s),
{
    if dec_string_wf(s) {
        let k = dot_pos(s);
        assert(0 <= k < s.len() && s[k] == '.');
        assert(k >= 1);
        assert(is_dec_digit(s.take(k)[0]));
    }
}

/// Parse decimal text into a count of hundredths, truncating fraction
/// digits beyond the second: the general scaled parser at scale two.
pub fn parse_decimal_centi(s: &str) -> (r: Option<u64>)
    ensures
        r is Some <==> dec_string_wf(s@) && dec_string_centi(s@) <= u64::MAX,
        r is Some ==> r->0 == dec_string_centi(s@),
{
    proof {
        lemma_scaled_two_is_centi(s@);
    }
    parse_decimal_scaled(s, 2)
}

/// Render a count of hundredths with two digits after the point.
pub fn format_centi(c: u64) -> (r: String)
    ensures
        r@ == spec_centi_chars(c as nat),
{
    let mut s = format_u64(c / 100);
    s.append(".");
    s.append(digit_str((c % 100) / 10));
    s.append(digit_str(c % 10));
    proof {
        reveal_strlit(".");
        assert((c / 100) as nat == (c as nat) / 100);
        assert(((c % 100) / 10) as nat == ((c as nat) % 100) / 10);
        assert((c % 10) as nat == (c as nat) % 10);
        assert(s@ =~= spec_centi_chars(c as nat));
    }
    s
}

/// Once the digits read so far are worth more than the largest value, the
/// whole scaled reading is, whatever the scale and whatever follows.
proof fn lemma_scaled_overflow(s: Seq<char>, i: int, k: nat)
    requires
        0 <= i <= s.len(),
        forall|m: int| 0 <= m < i ==> is_dec_digit(#[trigger] s[m]),
        dec_val(s.take(i)) > u64::MAX,
    ensures
        dec_string_wf(s) ==> dec_string_scaled(s, k) > u64::MAX,
{
    lemma_pow10_pos(k);
    if dec_string_wf(s) {
        if has_dot(s) {
            let kp = dot_pos(s);
            assert(0 <= kp < s.len() && s[kp] == '.');
            assert(kp >= i);
            lemma_dec_val_take_monotone(s, i, kp);
            assert(dec_val(s.take(kp)) * pow10(k) >= dec_val(s.take(kp)) * 1)
                by (nonlinear_arith)
                requires
                    pow10(k) >= 1,
                    dec_val(s.take(kp)) >= 0,
            ;
        } else {
            lemma_dec_val_take_monotone(s, i, s.len() as int);
            assert(s.take(s.len() as int) =~= s);
            assert(dec_val(s) * pow10(k) >= dec_val(s) * 1) by (nonlinear_arith)
                requires
                    pow10(k) >= 1,
                    dec_val(s) >= 0,
            ;
        }
    }
}

/// The power of ten for a wire scale, in executable code.
pub fn pow10_u64(k: usize) -> (r: u64)
    requires
        k <= 8,
    ensures
        r as nat == pow10(k as nat),
        r >= 1,
{
    proof {
        lemma_pow10_values();
    }
    if k == 0 {
        1
    } else if k == 1 {
        10
    } else if k == 2 {
        100
    } else if k == 3 {
        1000
    } else if k == 4 {
        10000
    } else if k == 5 {
        100000
    } else if k == 6 {
        1000000
    } else if k == 7 {
        10000000
    } else {
        100000000
    }
}

/// Parse decimal text at a chosen scale: the result counts units of
/// `1/pow10(k)`, truncating fraction digits beyond the k-th.  Succeeds
/// exactly on text of the accepted shape whose scaled value fits in a
/// `u64`.
pub fn parse_decimal_scaled(s: &str, k: usize) -> (r: Option<u64>)
    requires
        k <= 8,
    ensures
        r is Some <==> dec_string_wf(s@) && dec_string_scaled(s@, k as nat) <= u64::MAX,
        r is Some ==> r->0 == dec_string_scaled(s@, k as nat),
{
    proof {
        lemma_pow10_values();
    }
    let n = s.unicode_len();
    if n == 0 {
        return None;
    }
    let pk = pow10_u64(k);
    let mut acc: u64 = 0;
    let mut i: usize = 0;
    while i < n
        invariant
            0 <= i <= n,
            k <= 8,
            n == s@.len(),
            forall|m: int| 0 <= m < i ==> is_dec_digit(#[trigger] s@[m]),
            acc == dec_val(s@.take(i as int)),
        ensures
            0 <= i <= n,
            n == s@.len(),
            forall|m: int| 0 <= m < i ==> is_dec_digit(#[trigger] s@[m]),
            acc == dec_val(s@.take(i as int)),
            i == n || !is_dec_digit(s@[i as int]),
        decreases n - i,
    {
        let c = s.get_char(i);
        if !is_digit_char(c) {
            break;
        }
        let d = digit_value(c);
        if acc > (u64::MAX - d) / 10 {
            proof {
                assert(s@.take(i + 1).drop_last() =~= s@.take(i as int));
                assert(dec_val(s@.take(i + 1)) == acc * 10 + d);
                lemma_scaled_overflow(s@, i + 1, k as nat);
            }
            return None;
        }
        acc = acc * 10 + d;
        i = i + 1;
        proof {
            assert(s@.take(i as int).drop_last() =~= s@.take(i as int - 1));
        }
    }
    if i == 0 {
        // the very first character is no digit
        proof {
            if s@[0] == '.' {
                lemma_not_wf_leading_dot(s@);
            } else {
                lemma_not_wf_bad_char(s@, 0);
            }
        }
        return None;
    }
    if i == n {
        // digits throughout: a whole number scaled up
        proof {
            assert forall|t: int| 0 <= t < s@.len() implies s@[t] != '.' by {
                assert(is_dec_digit(s@[t]));
            }
            assert(!has_dot(s@));
            assert(s@.take(n as int) =~= s@);
            assert(acc as int * pk as int <= 0xffffffffffffffff * 100000000)
                by (nonlinear_arith)
                requires
                    0 <= acc as int <= 0xffffffffffffffff,
                    0 <= pk as int <= 100000000,
            ;
        }
        let total: u128 = (acc as u128) * (pk as u128);
        if total > u64::MAX as u128 {
            return None;
        }
        return Some(total as u64);
    }
    let c = s.get_char(i);
    if c != '.' {
        proof {
            lemma_not_wf_bad_char(s@, i as int);
        }
        return None;
    }
    if i + 1 == n {
        proof {
            lemma_not_wf_trailing_dot(s@, i as int);
        }
        return None;
    }
    // check that everything after the dot is a digit
    let mut j: usize = i + 1;
    while j < n
        invariant
            0 <= i < i + 1 <= j <= n,
            n == s@.len(),
            s@[i as int] == '.',
            forall|m: int| 0 <= m < i ==> is_dec_digit(#[trigger] s@[m]),
            forall|m: int| i < m < j ==> is_dec_digit(#[trigger] s@[m]),
        decreases n - j,
    {
        let c2 = s.get_char(j);
        if !is_digit_char(c2) {
            proof {
                lemma_not_wf_after_dot(s@, i as int, j as int);
            }
            return None;
        }
        j = j + 1;
    }
    proof {
        lemma_wf_dot(s@, i as int);
    }
    // read the first k fraction digits into a scaled value
    let ghost f = s@.skip(i + 1);
    let mut m: usize = 0;
    let mut fr: u64 = 0;
    proof {
        assert(f.skip(0) =~= f);
    }
    while m < k
        invariant
            0 <= m <= k,
            k <= 8,
            0 <= i,
            i + 1 <= n,
            i + 1 + m <= n,
            n == s@.len(),
            f == s@.skip(i + 1),
            f.len() == n - (i + 1),
            forall|t: int| i < t < n ==> is_dec_digit(#[trigger] s@[t]),
            fr < pow10(m as nat),
            frac_scaled(f, k as nat) == fr * pow10((k - m) as nat) + frac_scaled(
                f.skip(m as int),
                (k - m) as nat,
            ),
        ensures
            0 <= m <= k,
            i + 1 + m <= n,
            m == k || i + 1 + m == n,
            fr < pow10(m as nat),
            frac_scaled(f, k as nat) == fr * pow10((k - m) as nat) + frac_scaled(
                f.skip(m as int),
                (k - m) as nat,
            ),
        decreases k - m,
    {
        if i + 1 + m == n {
            break;
        }
        let c2 = s.get_char(i + 1 + m);
        let d2 = digit_value(c2);
        proof {
            lemma_pow10_values();
            lemma_pow10_mono(m as nat, 7);
            assert(f.skip(m as int).len() > 0);
            assert(f.skip(m as int)[0] == s@[i + 1 + m]);
            assert(f.skip(m as int).skip(1) =~= f.skip(m + 1));
            assert(pow10((k - m) as nat) == 10 * pow10((k - m - 1) as nat));
            assert(frac_scaled(f.skip(m as int), (k - m) as nat) == digit_val(
                f.skip(m as int)[0],
            ) * pow10((k - m - 1) as nat) + frac_scaled(f.skip(m + 1), (k - m - 1) as nat));
            assert((fr * 10 + d2) * pow10((k - m - 1) as nat) == fr * (10 * pow10(
                (k - m - 1) as nat,
            )) + d2 * pow10((k - m - 1) as nat)) by (nonlinear_arith);
            assert(pow10((m + 1) as nat) == 10 * pow10(m as nat));
        }
        fr = fr * 10 + d2;
        m = m + 1;
    }
    proof {
        if m == k {
            assert(frac_scaled(f.skip(m as int), 0) == 0);
        } else {
            assert(f.skip(m as int).len() == 0);
            assert(frac_scaled(f.skip(m as int), (k - m) as nat) == 0);
        }
        lemma_pow10_add(m as nat, (k - m) as nat);
        assert(fr as int * pow10((k - m) as nat) < pow10(m as nat) * pow10((k - m) as nat))
            by (nonlinear_arith)
            requires
                fr < pow10(m as nat),
                pow10((k - m) as nat) >= 1,
        ;
        lemma_pow10_mono(k as nat, 8);
        lemma_pow10_values();
    }
    let frac: u64 = fr * pow10_u64(k - m);
    proof {
        assert(frac == frac_scaled(f, k as nat));
        assert(frac < 100000000);
        assert(acc as int * pk as int <= 0xffffffffffffffff * 100000000) by (nonlinear_arith)
            requires
                0 <= acc as int <= 0xffffffffffffffff,
                0 <= pk as int <= 100000000,
        ;
    }
    let total: u128 = (acc as u128) * (pk as u128) + (frac as u128);
    if total > u64::MAX as u128 {
        return None;
    }
    Some(total as u64)
}

/// The `k` digits of a fraction value below `pow10(k)`, zero-padded on the
/// left.
pub open spec fn spec_frac_digits(v: nat, k: nat) -> Seq<char>
    decreases k,
{
    if k == 0 {
        Seq::empty()
    } else {
        spec_frac_digits(v / 10, (k - 1) as nat).push(spec_digit(v % 10))
    }
}

/// The rendering of a count of hundred-millionths: the whole part, a
/// point, and exactly eight fraction digits.
pub open spec fn spec_e8_chars(n: nat) -> Seq<char> {
    spec_u64_chars(n / 100000000) + seq!['.'] + spec_frac_digits(n % 100000000, 8)
}

/// Render the digits of a fraction value, zero-padded to width `k`.
fn frac_digits_str(v: u64, k: usize) -> (r: String)
    requires
        k <= 8,
    ensures
        r@ == spec_frac_digits(v as nat, k as nat),
    decreases k,
{
    if k == 0 {
        let r = String::new();
        proof {
            assert(r@ =~= spec_frac_digits(v as nat, 0));
        }
        r
    } else {
        let mut s = frac_digits_str(v / 10, k - 1);
        s.append(digit_str(v % 10));
        proof {
            assert((v / 10) as nat == (v as nat) / 10);
            assert((v % 10) as nat == (v as nat) % 10);
            assert(s@ =~= spec_frac_digits(v as nat, k as nat));
        }
        s
    }
}

/// Render a count of hundred-millionths with eight digits after the point.
pub fn format_e8(n: u64) -> (r: String)
    ensures
        r@ == spec_e8_chars(n as nat),
{
    let mut s = format_u64(n / 100000000);
    s.append(".");
    let fd = frac_digits_str(n % 100000000, 8);
    s.append(fd.as_str());
    proof {
        reveal_strlit(".");
        assert((n / 100000000) as nat == (n as nat) / 100000000);
        assert((n % 100000000) as nat == (n as nat) % 100000000);
        assert(s@ =~= spec_e8_chars(n as nat));
    }
    s
}

} // verus!
