//! Verified text helpers: string equality, joining, decimal rendering and
//! parsing. Everything here works on `Seq<char>` views.
use vstd::prelude::*;
use vstd::string::StrSliceExecFns;
use vstd::string::StringExecFns;

verus! {

/// Content equality of two string slices.
pub fn eq_str(a: &str, b: &str) -> (r: bool)
    ensures
        r <==> a@ == b@,
{
    let aw: String = a.to_owned();
    let bw: String = b.to_owned();
    aw == bw
}

/// The pieces joined with a single `'\n'` between them; empty input gives
/// the empty string.
pub open spec fn spec_join_lines(parts: Seq<Seq<char>>) -> Seq<char>
    decreases parts.len(),
{
    if parts.len() == 0 {
        Seq::empty()
    } else if parts.len() == 1 {
        parts[0]
    } else {
        spec_join_lines(parts.drop_last()) + seq!['\n'] + parts.last()
    }
}

/// Joins the parts with a newline between each pair, as the tool replies of
/// one turn are combined into a single user message.
pub fn join_lines(parts: &Vec<String>) -> (r: String)
    ensures
        r@ == spec_join_lines(parts.deep_view()),
{
    let mut r = String::new();
    let mut i: usize = 0;
    while i < parts.len()
        invariant
            i <= parts.len(),
            r@ == spec_join_lines(parts.deep_view().take(i as int)),
        decreases parts.len() - i,
    {
        proof {
            reveal_strlit("\n");
        }
        if i > 0 {
            r.append("\n");
        }
        r.append(parts[i].as_str());
        proof {
            let dv = parts.deep_view();
            assert(("\n")@ =~= seq!['\n']);
            assert(dv.take(i + 1).drop_last() =~= dv.take(i as int));
            assert(dv.take(i + 1).last() == dv[i as int]);
            assert(dv[i as int] == parts[i as int]@);
            if i == 0 {
                assert(spec_join_lines(dv.take(1)) == dv.take(1)[0]);
                assert(r@ =~= dv.take(1)[0]);
            } else {
                assert(spec_join_lines(dv.take(i + 1)) == spec_join_lines(dv.take(i as int))
                    + seq!['\n'] + dv[i as int]);
            }
        }
        i = i + 1;
    }
    proof {
        assert(parts.deep_view().take(parts.len() as int) =~= parts.deep_view());
    }
    r
}

/// The character for one decimal digit value.
pub open spec fn dec_digit(d: int) -> char {
    if d == 0 { '0' }
    else if d == 1 { '1' }
    else if d == 2 { '2' }
    else if d == 3 { '3' }
    else if d == 4 { '4' }
    else if d == 5 { '5' }
    else if d == 6 { '6' }
    else if d == 7 { '7' }
    else if d == 8 { '8' }
    else { '9' }
}

/// The usual decimal rendering of `n`, most significant digit first, with
/// no leading zeros (a single `'0'` for zero).
pub open spec fn spec_dec(n: nat) -> Seq<char>
    decreases n,
{
    if n < 10 {
        seq![dec_digit(n as int)]
    } else {
        spec_dec(n / 10) + seq![dec_digit((n % 10) as int)]
    }
}

/// The digit characters for a sequence of digit values, in order.
pub open spec fn digits_to_chars(ds: Seq<u8>) -> Seq<char>
    decreases ds.len(),
{
    if ds.len() == 0 {
        Seq::empty()
    } else {
        seq![dec_digit(ds[0] as int)] + digits_to_chars(ds.drop_first())
    }
}

proof fn lemma_digits_to_chars_push(ds: Seq<u8>, d: u8)
    ensures
        digits_to_chars(ds.push(d)) == digits_to_chars(ds) + seq![dec_digit(d as int)],
    decreases ds.len(),
{
    if ds.len() == 0 {
        assert(ds.push(d).drop_first() =~= Seq::<u8>::empty());
        assert(ds.push(d)[0] == d);
        assert(digits_to_chars(ds.push(d)) == seq![dec_digit(d as int)]
            + digits_to_chars(Seq::<u8>::empty()));
        assert(digits_to_chars(ds.push(d)) =~= seq![dec_digit(d as int)]);
        assert(digits_to_chars(ds) + seq![dec_digit(d as int)] =~= seq![dec_digit(d as int)]);
    } else {
        assert(ds.push(d).drop_first() =~= ds.drop_first().push(d));
        lemma_digits_to_chars_push(ds.drop_first(), d);
        assert(digits_to_chars(ds.push(d)) =~= digits_to_chars(ds) + seq![dec_digit(d as int)]);
    }
}

/// Appends the character of one digit value to `s`.
fn append_digit(s: &mut String, d: u8)
    requires
        d < 10,
    ensures
        final(s)@ == old(s)@ + seq![dec_digit(d as int)],
{
    let table = "0123456789";
    proof {
        reveal_strlit("0123456789");
        assert(table@ =~= seq!['0', '1', '2', '3', '4', '5', '6', '7', '8', '9']);
        assert(table@.subrange(d as int, d as int + 1) =~= seq![dec_digit(d as int)]);
    }
    let c = table.substring_ascii(d as usize, d as usize + 1);
    s.append(c);
}

/// Renders `n` in decimal.
pub fn u128_to_dec(n: u128) -> (r: String)
    ensures
        r@ == spec_dec(n as nat),
{
    let mut digits: Vec<u8> = Vec::new();
    let mut m = n;
    loop
        invariant_except_break
            m > 0 || digits@.len() == 0,
            forall|k: int| 0 <= k < digits@.len() ==> digits@[k] < 10,
            spec_dec(n as nat) == if digits@.len() == 0 {
                spec_dec(m as nat)
            } else {
                spec_dec(m as nat) + digits_to_chars(digits@)
            },
        ensures
            forall|k: int| 0 <= k < digits@.len() ==> digits@[k] < 10,
            spec_dec(n as nat) == digits_to_chars(digits@),
        decreases m,
    {
        let d: u8 = (m % 10) as u8;
        let m2 = m / 10;
        proof {
            let dd = seq![dec_digit(d as int)];
            let ds2 = digits@.insert(0, d);
            assert(ds2.drop_first() =~= digits@);
            assert(ds2[0] == d);
            assert(digits_to_chars(ds2) == dd + digits_to_chars(digits@));
            if m2 == 0 {
                assert(m < 10);
                assert(spec_dec(m as nat) == dd);
                if digits@.len() == 0 {
                    assert(dd + digits_to_chars(digits@) =~= dd);
                } else {
                    assert(spec_dec(n as nat) == dd + digits_to_chars(digits@));
                }
                assert(spec_dec(n as nat) == digits_to_chars(ds2));
            } else {
                assert(spec_dec(m as nat) == spec_dec(m2 as nat) + dd);
                if digits@.len() == 0 {
                    assert(spec_dec(n as nat) == spec_dec(m2 as nat) + dd);
                    assert(spec_dec(m2 as nat) + dd =~= spec_dec(m2 as nat)
                        + (dd + digits_to_chars(digits@)));
                } else {
                    assert((spec_dec(m2 as nat) + dd) + digits_to_chars(digits@)
                        =~= spec_dec(m2 as nat) + (dd + digits_to_chars(digits@)));
                }
                assert(spec_dec(n as nat) == spec_dec(m2 as nat) + digits_to_chars(ds2));
            }
        }
        digits.insert(0, d);
        m = m2;
        if m == 0 {
            break;
        }
    }
    let mut r = String::new();
    let mut i: usize = 0;
    while i < digits.len()
        invariant
            i <= digits.len(),
            forall|k: int| 0 <= k < digits@.len() ==> digits@[k] < 10,
            r@ == digits_to_chars(digits@.take(i as int)),
        decreases digits.len() - i,
    {
        append_digit(&mut r, digits[i]);
        proof {
            assert(digits@.take(i + 1) =~= digits@.take(i as int).push(digits@[i as int]));
            lemma_digits_to_chars_push(digits@.take(i as int), digits@[i as int]);
        }
        i = i + 1;
    }
    proof {
        assert(digits@.take(digits@.len() as int) =~= digits@);
    }
    r
}

/// Renders `n` in decimal.
pub fn u64_to_dec(n: u64) -> (r: String)
    ensures
        r@ == spec_dec(n as nat),
{
    u128_to_dec(n as u128)
}

/// The decimal rendering of `n` left-padded with `'0'` to at least twelve
/// characters, as the transcript files of the debug recorder are numbered.
pub open spec fn spec_padded12(n: nat) -> Seq<char> {
    if spec_dec(n).len() >= 12 {
        spec_dec(n)
    } else {
        Seq::new((12 - spec_dec(n).len()) as nat, |k: int| '0') + spec_dec(n)
    }
}

/// Renders `n` zero-padded to twelve digits.
pub fn u64_to_padded12(n: u64) -> (r: String)
    ensures
        r@ == spec_padded12(n as nat),
{
    let digits = u64_to_dec(n);
    let len = digits.as_str().unicode_len();
    if len >= 12 {
        proof {
            assert(spec_padded12(n as nat) == spec_dec(n as nat));
        }
        digits
    } else {
        let mut r = String::new();
        let mut i: usize = 0;
        let pad: usize = 12 - len;
        while i < pad
            invariant
                i <= pad,
                pad == 12 - spec_dec(n as nat).len(),
                r@ == Seq::new(i as nat, |k: int| '0'),
            decreases pad - i,
        {
            proof {
                reveal_strlit("0");
                assert(("0")@ =~= seq!['0']);
            }
            r.append("0");
            proof {
                assert(r@ =~= Seq::new((i + 1) as nat, |k: int| '0'));
            }
            i = i + 1;
        }
        r.append(digits.as_str());
        proof {
            assert(r@ =~= spec_padded12(n as nat));
        }
        r
    }
}

/// Whether `c` is a decimal digit character.
pub open spec fn is_dec_digit(c: char) -> bool {
    48 <= (c as u32) && (c as u32) <= 57
}

/// The numeric value of a digit character.
pub open spec fn digit_val(c: char) -> int {
    (c as u32) - 48
}

/// Whether every character of `s` is a decimal digit.
pub open spec fn all_dec_digits(s: Seq<char>) -> bool {
    forall|i: int| 0 <= i < s.len() ==> is_dec_digit(s[i])
}

/// The value of a digit string read in base ten; the empty string reads as
/// zero.
pub open spec fn spec_digits_val(s: Seq<char>) -> int
    decreases s.len(),
{
    if s.len() == 0 {
        0
    } else {
        spec_digits_val(s.drop_last()) * 10 + digit_val(s.last())
    }
}

pub open spec fn pow10(k: nat) -> int
    decreases k,
{
    if k == 0 {
        1
    } else {
        10 * pow10((k - 1) as nat)
    }
}

proof fn lemma_digits_val_bound(s: Seq<char>)
    requires
        all_dec_digits(s),
    ensures
        0 <= spec_digits_val(s) < pow10(s.len()),
    decreases s.len(),
{
    if s.len() > 0 {
        assert(all_dec_digits(s.drop_last())) by {
            assert(forall|i: int| 0 <= i < s.len() - 1 ==> s.drop_last()[i] == s[i]);
        }
        lemma_digits_val_bound(s.drop_last());
        assert(0 <= digit_val(s.last()) <= 9);
    }
}

proof fn lemma_pow10_pos(a: nat)
    ensures
        pow10(a) >= 1,
    decreases a,
{
    if a > 0 {
        lemma_pow10_pos((a - 1) as nat);
    }
}

proof fn lemma_pow10_monotone(a: nat, b: nat)
    requires
        a <= b,
    ensures
        pow10(a) <= pow10(b),
        pow10(a) >= 1,
    decreases b,
{
    lemma_pow10_pos(a);
    if b > 0 && a < b {
        lemma_pow10_monotone(a, (b - 1) as nat);
    }
}

/// Reads a plain digit string of one to twelve digits as a number.
pub fn parse_digits_u64(s: &str) -> (r: Option<u64>)
    ensures
        match r {
            Some(v) => 1 <= s@.len() <= 12 && all_dec_digits(s@) && v == spec_digits_val(s@),
            None => !(1 <= s@.len() <= 12 && all_dec_digits(s@)),
        },
{
    let len = s.unicode_len();
    if len < 1 || len > 12 {
        return None;
    }
    let mut acc: u64 = 0;
    let mut i: usize = 0;
    while i < len
        invariant
            i <= len,
            len == s@.len(),
            1 <= len <= 12,
            all_dec_digits(s@.take(i as int)),
            acc == spec_digits_val(s@.take(i as int)),
            acc < pow10(i as nat),
        decreases len - i,
    {
        let c = s.get_char(i);
        let cv = c as u32;
        if cv < 48 || cv > 57 {
            proof {
                assert(s@[i as int] == c);
                assert(!is_dec_digit(s@[i as int]));
            }
            return None;
        }
        let d: u64 = (cv - 48) as u64;
        proof {
            lemma_pow10_monotone(i as nat, 11);
            assert(pow10(11) == 100_000_000_000) by {
                reveal_with_fuel(pow10, 12);
            }
            assert(acc * 10 + d < pow10((i + 1) as nat));
            assert(s@.take(i + 1).drop_last() =~= s@.take(i as int));
            assert(s@.take(i + 1).last() == s@[i as int]);
        }
        acc = acc * 10 + d;
        i = i + 1;
    }
    proof {
        assert(s@.take(len as int) =~= s@);
    }
    Some(acc)
}

proof fn lemma_pow10_add(a: nat, b: nat)
    ensures
        pow10(a) * pow10(b) == pow10(a + b),
    decreases a,
{
    if a == 0 {
        assert(pow10(0) == 1);
    } else {
        lemma_pow10_add((a - 1) as nat, b);
        assert(pow10(a) == 10 * pow10((a - 1) as nat));
        assert((10 * pow10((a - 1) as nat)) * pow10(b) == 10 * (pow10((a - 1) as nat) * pow10(b)))
            by (nonlinear_arith);
    }
}

/// The index of the first `'.'` in `s`, or `s.len()` if there is none.
pub open spec fn first_dot(s: Seq<char>) -> int
    decreases s.len(),
{
    if s.len() == 0 {
        0
    } else if s[0] == '.' {
        0
    } else {
        1 + first_dot(s.drop_first())
    }
}

proof fn lemma_first_dot_is(s: Seq<char>, i: int)
    requires
        0 <= i <= s.len(),
        forall|k: int| 0 <= k < i ==> s[k] != '.',
        i == s.len() || s[i] == '.',
    ensures
        first_dot(s) == i,
    decreases s.len(),
{
    if s.len() > 0 && s[0] != '.' {
        let t = s.drop_first();
        assert(forall|k: int| 0 <= k < i - 1 ==> t[k] == s[k + 1] && t[k] != '.');
        lemma_first_dot_is(t, i - 1);
    }
}

/// The value, in millionths, of the fractional digit string `s`: its first
/// six digits, padded with zeros on the right to six places.
pub open spec fn spec_frac6(s: Seq<char>) -> int {
    if s.len() >= 6 {
        spec_digits_val(s.take(6))
    } else {
        spec_digits_val(s) * pow10((6 - s.len()) as nat)
    }
}

/// A plain decimal price string read as micro-units: `"2.5"` reads as
/// 2_500_000. The integer part has at most twelve digits; fractional digits
/// past the sixth are cut off. Anything but digits with at most one dot, or
/// a string with no digit at all, is rejected.
pub open spec fn spec_price_micro(s: Seq<char>) -> Option<int> {
    let d = first_dot(s);
    if d == s.len() {
        if 1 <= s.len() <= 12 && all_dec_digits(s) {
            Some(spec_digits_val(s) * 1000000)
        } else {
            None
        }
    } else {
        let ip = s.take(d);
        let fp = s.skip(d + 1);
        if all_dec_digits(ip) && all_dec_digits(fp) && ip.len() <= 12 && ip.len() + fp.len() >= 1 {
            Some(spec_digits_val(ip) * 1000000 + spec_frac6(fp))
        } else {
            None
        }
    }
}

proof fn lemma_frac6_bound(s: Seq<char>)
    requires
        all_dec_digits(s),
    ensures
        0 <= spec_frac6(s) < 1000000,
{
    assert(pow10(6) == 1000000) by {
        reveal_with_fuel(pow10, 7);
    }
    if s.len() >= 6 {
        assert(all_dec_digits(s.take(6)));
        lemma_digits_val_bound(s.take(6));
    } else {
        lemma_digits_val_bound(s);
        lemma_pow10_pos((6 - s.len()) as nat);
        lemma_pow10_add(s.len(), (6 - s.len()) as nat);
        assert(spec_digits_val(s) * pow10((6 - s.len()) as nat)
            <= (pow10(s.len()) - 1) * pow10((6 - s.len()) as nat)) by (nonlinear_arith)
            requires
                0 <= spec_digits_val(s) <= pow10(s.len()) - 1,
                pow10((6 - s.len()) as nat) >= 1,
        ;
        assert((pow10(s.len()) - 1) * pow10((6 - s.len()) as nat)
            == pow10(s.len()) * pow10((6 - s.len()) as nat) - pow10((6 - s.len()) as nat))
            by (nonlinear_arith);
        assert(spec_digits_val(s) * pow10((6 - s.len()) as nat) >= 0) by (nonlinear_arith)
            requires
                spec_digits_val(s) >= 0,
                pow10((6 - s.len()) as nat) >= 1,
        ;
    }
}

/// Scans `s` for digits only; `None` on the first other character.
fn check_all_digits(s: &str) -> (r: bool)
    ensures
        r <==> all_dec_digits(s@),
{
    let len = s.unicode_len();
    let mut i: usize = 0;
    while i < len
        invariant
            i <= len,
            len == s@.len(),
            all_dec_digits(s@.take(i as int)),
        decreases len - i,
    {
        let c = s.get_char(i);
        let cv = c as u32;
        if cv < 48 || cv > 57 {
            proof {
                assert(s@[i as int] == c);
            }
            return false;
        }
        proof {
            assert(forall|k: int| 0 <= k < i + 1 ==> is_dec_digit(#[trigger] s@.take(i + 1)[k]));
        }
        i = i + 1;
    }
    proof {
        assert(s@.take(len as int) =~= s@);
    }
    true
}

/// Reads a decimal price string as micro-units, as
/// [`spec_price_micro`] describes.
pub fn parse_price_micro(s: &str) -> (r: Option<u64>)
    ensures
        match r {
            Some(v) => spec_price_micro(s@) == Some(v as int),
            None => spec_price_micro(s@) is None,
        },
{
    let len = s.unicode_len();
    let mut dot: usize = len;
    let mut i: usize = 0;
    while i < len
        invariant_except_break
            i <= len,
            dot == len,
            len == s@.len(),
            forall|k: int| 0 <= k < i ==> s@[k] != '.',
        ensures
            len == s@.len(),
            dot <= len,
            forall|k: int| 0 <= k < dot ==> s@[k] != '.',
            dot == len || s@[dot as int] == '.',
        decreases len - i,
    {
        let c = s.get_char(i);
        if c == '.' {
            dot = i;
            proof {
                assert(s@[i as int] == '.');
            }
            break;
        }
        proof {
            assert(s@[i as int] == c && c != '.');
        }
        i = i + 1;
    }
    proof {
        lemma_first_dot_is(s@, dot as int);
    }
    if dot == len {
        match parse_digits_u64(s) {
            Some(v) => {
                proof {
                    lemma_digits_val_bound(s@);
                    lemma_pow10_monotone(s@.len(), 12);
                    assert(pow10(12) == 1000000000000) by {
                        reveal_with_fuel(pow10, 13);
                    }
                }
                Some(v * 1000000)
            },
            None => None,
        }
    } else {
        let ip = s.substring_char(0, dot);
        let fp = s.substring_char(dot + 1, len);
        proof {
            assert(ip@ =~= s@.take(dot as int));
            assert(fp@ =~= s@.skip(dot + 1));
        }
        if !check_all_digits(ip) {
            return None;
        }
        if !check_all_digits(fp) {
            return None;
        }
        let ip_len = ip.unicode_len();
        let fp_len = fp.unicode_len();
        if ip_len > 12 {
            return None;
        }
        if ip_len == 0 && fp_len == 0 {
            return None;
        }
        let ipv: u64 = if ip_len == 0 {
            0
        } else {
            match parse_digits_u64(ip) {
                Some(v) => v,
                None => {
                    return None;
                },
            }
        };
        proof {
            lemma_digits_val_bound(ip@);
            lemma_pow10_monotone(ip@.len(), 12);
            assert(pow10(12) == 1000000000000) by {
                reveal_with_fuel(pow10, 13);
            }
            lemma_frac6_bound(fp@);
        }
        let fv: u64 = if fp_len >= 6 {
            let f6 = fp.substring_char(0, 6);
            proof {
                assert(f6@ =~= fp@.take(6));
                assert(all_dec_digits(f6@));
            }
            match parse_digits_u64(f6) {
                Some(v) => v,
                None => {
                    proof {
                        assert(1 <= f6@.len() <= 12);
                    }
                    0
                },
            }
        } else {
            let fwhole: u64 = if fp_len == 0 {
                0
            } else {
                match parse_digits_u64(fp) {
                    Some(v) => v,
                    None => {
                        proof {
                            assert(1 <= fp@.len() <= 12);
                        }
                        0
                    },
                }
            };
            proof {
                reveal_with_fuel(pow10, 7);
                lemma_digits_val_bound(fp@);
                lemma_pow10_monotone(fp@.len(), 5);
            }
            if fp_len == 0 {
                fwhole * 1000000
            } else if fp_len == 1 {
                fwhole * 100000
            } else if fp_len == 2 {
                fwhole * 10000
            } else if fp_len == 3 {
                fwhole * 1000
            } else if fp_len == 4 {
                fwhole * 100
            } else {
                fwhole * 10
            }
        };
        Some(ipv * 1000000 + fv)
    }
}

/// Whether `c` occurs in `s`.
pub fn contains_char(s: &str, c: char) -> (r: bool)
    ensures
        r <==> s@.contains(c),
{
    let len = s.unicode_len();
    let mut i: usize = 0;
    while i < len
        invariant
            i <= len,
            len == s@.len(),
            forall|k: int| 0 <= k < i ==> s@[k] != c,
        decreases len - i,
    {
        if s.get_char(i) == c {
            proof {
                assert(s@[i as int] == c);
            }
            return true;
        }
        i = i + 1;
    }
    false
}

/// `s` divided at every occurrence of `sep`, in order; `n` separators give
/// `n + 1` pieces, so a string without `sep` gives one piece, itself.
pub open spec fn spec_split(s: Seq<char>, sep: char) -> Seq<Seq<char>>
    decreases s.len(),
{
    if s.len() == 0 {
        seq![Seq::<char>::empty()]
    } else if s[0] == sep {
        seq![Seq::<char>::empty()] + spec_split(s.drop_first(), sep)
    } else {
        let rest = spec_split(s.drop_first(), sep);
        seq![seq![s[0]] + rest[0]] + rest.drop_first()
    }
}

pub proof fn lemma_split_nonempty(s: Seq<char>, sep: char)
    ensures
        spec_split(s, sep).len() >= 1,
    decreases s.len(),
{
    if s.len() > 0 {
        lemma_split_nonempty(s.drop_first(), sep);
    }
}

pub proof fn lemma_split_two_pieces(s: Seq<char>, sep: char)
    requires
        s.contains(sep),
    ensures
        spec_split(s, sep).len() >= 2,
    decreases s.len(),
{
    let w = choose|w: int| 0 <= w < s.len() && s[w] == sep;
    if s[0] == sep {
        lemma_split_nonempty(s.drop_first(), sep);
    } else {
        assert(s.drop_first()[w - 1] == sep);
        assert(s.drop_first().contains(sep));
        lemma_split_two_pieces(s.drop_first(), sep);
    }
}

/// Splits `s` at each occurrence of `sep`, as [`spec_split`] describes.
pub fn split_at_char(s: &str, sep: char) -> (r: Vec<String>)
    ensures
        r.deep_view() == spec_split(s@, sep),
{
    let len = s.unicode_len();
    let mut parts: Vec<String> = Vec::new();
    let mut cur: String = String::new();
    let mut i: usize = 0;
    proof {
        assert(s@.skip(0) =~= s@);
        lemma_split_nonempty(s@, sep);
        let r0 = spec_split(s@, sep);
        assert(parts.deep_view() =~= Seq::<Seq<char>>::empty());
        assert(cur@ + r0[0] =~= r0[0]);
        assert(Seq::<Seq<char>>::empty() + seq![r0[0]] + r0.drop_first() =~= r0);
    }
    while i < len
        invariant
            i <= len,
            len == s@.len(),
            spec_split(s@, sep) == parts.deep_view()
                + seq![cur@ + spec_split(s@.skip(i as int), sep)[0]]
                + spec_split(s@.skip(i as int), sep).drop_first(),
        decreases len - i,
    {
        let ghost rest_i = spec_split(s@.skip(i as int), sep);
        let ghost rest_i1 = spec_split(s@.skip(i + 1), sep);
        proof {
            assert(s@.skip(i as int)[0] == s@[i as int]);
            assert(s@.skip(i as int).drop_first() =~= s@.skip(i + 1));
            lemma_split_nonempty(s@.skip(i + 1), sep);
        }
        let c = s.get_char(i);
        if c == sep {
            proof {
                assert(rest_i == seq![Seq::<char>::empty()] + rest_i1);
                assert(rest_i[0] =~= Seq::<char>::empty());
                assert(rest_i.drop_first() =~= rest_i1);
                assert(cur@ + rest_i[0] =~= cur@);
            }
            let ghost old_dv = parts.deep_view();
            let ghost old_cur = cur@;
            parts.push(cur);
            cur = String::new();
            proof {
                assert(parts.deep_view() =~= old_dv.push(old_cur));
                assert(cur@ + rest_i1[0] =~= rest_i1[0]);
                assert(old_dv + seq![old_cur] + rest_i1
                    =~= old_dv.push(old_cur) + seq![rest_i1[0]] + rest_i1.drop_first());
                assert(spec_split(s@, sep) == parts.deep_view() + seq![cur@ + rest_i1[0]]
                    + rest_i1.drop_first());
            }
        } else {
            let piece = s.substring_char(i, i + 1);
            proof {
                assert(piece@ =~= seq![s@[i as int]]);
                assert(rest_i == seq![seq![s@[i as int]] + rest_i1[0]] + rest_i1.drop_first());
                assert(rest_i[0] == seq![s@[i as int]] + rest_i1[0]);
                assert(rest_i.drop_first() =~= rest_i1.drop_first());
                assert(cur@ + rest_i[0] =~= (cur@ + seq![s@[i as int]]) + rest_i1[0]);
            }
            cur.append(piece);
        }
        i = i + 1;
    }
    proof {
        assert(s@.skip(len as int) =~= Seq::<char>::empty());
        assert(spec_split(s@.skip(len as int), sep) == seq![Seq::<char>::empty()]);
        assert(cur@ + Seq::<char>::empty() =~= cur@);
        assert(spec_split(s@.skip(len as int), sep).drop_first() =~= Seq::<Seq<char>>::empty());
    }
    let ghost old_dv = parts.deep_view();
    let ghost old_cur = cur@;
    parts.push(cur);
    proof {
        assert(parts.deep_view() =~= old_dv.push(old_cur));
        assert(old_dv + seq![old_cur] + Seq::<Seq<char>>::empty() =~= old_dv.push(old_cur));
    }
    parts
}

} // verus!
