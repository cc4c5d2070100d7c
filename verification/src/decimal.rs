use vstd::prelude::*;

verus! {

/// The character that stands for the digit `d`.
pub open spec fn digit_char(d: int) -> char
    recommends
        0 <= d <= 9,
{
    (('0' as u8) + (d as u8)) as char
}

/// Whether `c` is one of `0` to `9`.
pub open spec fn is_digit(c: char) -> bool {
    '0' <= c && c <= '9'
}

/// The digit that `c` stands for.
pub open spec fn digit_value(c: char) -> int
    recommends
        is_digit(c),
{
    (c as int) - ('0' as int)
}

/// Whether every character of `s` is a digit.
pub open spec fn all_digits(s: Seq<char>) -> bool {
    forall|i: int| 0 <= i < s.len() ==> is_digit(#[trigger] s[i])
}

/// The number that the digits of `s` write in base ten; `0` for the empty sequence.
pub open spec fn digits_value(s: Seq<char>) -> nat
    decreases s.len(),
{
    if s.len() == 0 {
        0
    } else {
        (10 * digits_value(s.drop_last()) + digit_value(s.last())) as nat
    }
}

/// The digits of `n` in base ten, without leading zeros; `"0"` for zero.
pub open spec fn digits(n: nat) -> Seq<char>
    decreases n,
{
    if n < 10 {
        seq![digit_char(n as int)]
    } else {
        digits(n / 10).push(digit_char((n % 10) as int))
    }
}

/// An integer as it is written in a message: a minus sign where it is negative, then its digits.
pub open spec fn decimal(i: int) -> Seq<char> {
    if i < 0 {
        seq!['-'] + digits((-i) as nat)
    } else {
        digits(i as nat)
    }
}

/// What a written number means: an optional sign (`-` only where `signed`), then one or more
/// digits. `None` where `s` is not of that form.
pub open spec fn parse_decimal(s: Seq<char>, signed: bool) -> Option<int> {
    if s.len() > 0 && s[0] == '+' {
        parse_unsigned(s.subrange(1, s.len() as int))
    } else if s.len() > 0 && s[0] == '-' && signed {
        match parse_unsigned(s.subrange(1, s.len() as int)) {
            Some(v) => Some(-v),
            None => None,
        }
    } else {
        parse_unsigned(s)
    }
}

/// What one or more digits mean; `None` for anything else.
pub open spec fn parse_unsigned(s: Seq<char>) -> Option<int> {
    if s.len() > 0 && all_digits(s) {
        Some(digits_value(s) as int)
    } else {
        None
    }
}

/// What `s` means as a number between `lo` and `hi`; `None` where it is no number or lies
/// outside.
pub open spec fn parse_bounded(s: Seq<char>, signed: bool, lo: int, hi: int) -> Option<int> {
    match parse_decimal(s, signed) {
        Some(v) => if lo <= v <= hi {
            Some(v)
        } else {
            None
        },
        None => None,
    }
}

pub proof fn lemma_digit_char(d: int)
    requires
        0 <= d <= 9,
    ensures
        is_digit(digit_char(d)),
        digit_value(digit_char(d)) == d,
        digit_char(d) != '-',
        digit_char(d) != '+',
        digit_char(d) != ' ',
{
}

/// The digits of a number are digits, at least one, and write that number.
pub proof fn lemma_digits(n: nat)
    ensures
        digits(n).len() > 0,
        all_digits(digits(n)),
        digits_value(digits(n)) == n,
    decreases n,
{
    if n < 10 {
        lemma_digit_char(n as int);
        let s = digits(n);
        assert(s.drop_last() =~= Seq::<char>::empty());
        assert(digits_value(s.drop_last()) == 0);
    } else {
        lemma_digits(n / 10);
        lemma_digit_char((n % 10) as int);
        let s = digits(n);
        assert(s.drop_last() =~= digits(n / 10));
        assert(s.last() == digit_char((n % 10) as int));
        assert forall|i: int| 0 <= i < s.len() implies is_digit(#[trigger] s[i]) by {
            if i < s.len() - 1 {
                assert(s[i] == digits(n / 10)[i]);
            }
        }
    }
}

/// Whether `b` is ten to the power `d`.
pub open spec fn is_power_of_ten(b: nat, d: nat) -> bool
    decreases d,
{
    if d == 0 {
        b == 1
    } else {
        b % 10 == 0 && is_power_of_ten(b / 10, (d - 1) as nat)
    }
}

/// A number below ten to the power `d` is written with `d` digits at most.
pub proof fn lemma_digits_len(n: nat, d: nat, b: nat)
    requires
        d >= 1,
        is_power_of_ten(b, d),
        n < b,
    ensures
        digits(n).len() <= d,
    decreases d,
{
    if n >= 10 {
        if d == 1 {
            assert(is_power_of_ten(b / 10, 0));
        } else {
            lemma_digits_len(n / 10, (d - 1) as nat, b / 10);
        }
    }
}

/// Reading a written number gives the number back.
pub proof fn lemma_parse_decimal(i: int)
    ensures
        parse_decimal(decimal(i), true) == Some(i),
        i >= 0 ==> parse_decimal(decimal(i), false) == Some(i),
        forall|k: int| 0 <= k < decimal(i).len() ==> #[trigger] decimal(i)[k] != ' ',
{
    let s = decimal(i);
    if i < 0 {
        let d = digits((-i) as nat);
        lemma_digits((-i) as nat);
        assert(s.subrange(1, s.len() as int) =~= d);
        assert(s[0] == '-');
        assert forall|k: int| 0 <= k < s.len() implies #[trigger] s[k] != ' ' by {
            if k > 0 {
                assert(s[k] == d[k - 1]);
                assert(is_digit(d[k - 1]));
            }
        }
    } else {
        lemma_digits(i as nat);
        assert(is_digit(s[0]));
        assert forall|k: int| 0 <= k < s.len() implies #[trigger] s[k] != ' ' by {
            assert(is_digit(s[k]));
        }
    }
}

/// Appends the digits of `n` to `out`.
pub fn push_digits(out: &mut Vec<char>, n: u128)
    ensures
        final(out)@ == old(out)@ + digits(n as nat),
{
    let mut buf: Vec<char> = Vec::new();
    let mut rest: u128 = n;
    // The digits come out last first.
    while rest >= 10
        invariant
            digits(rest as nat) + rev(buf@) == digits(n as nat),
        decreases rest,
    {
        let d: u8 = (rest % 10) as u8;
        let c: char = (('0' as u8) + d) as char;
        proof {
            let q = (rest / 10) as nat;
            assert(digits(rest as nat) == digits(q).push(c));
            lemma_rev_push(buf@, c);
            assert(digits(q) + (seq![c] + rev(buf@)) =~= digits(q).push(c) + rev(buf@));
        }
        buf.push(c);
        rest = rest / 10;
    }
    let c: char = (('0' as u8) + (rest as u8)) as char;
    out.push(c);
    proof {
        assert(digits(rest as nat) == seq![c]);
        assert(buf@.subrange(0, buf@.len() as int) =~= buf@);
        assert(old(out)@.push(c) + rev(buf@) =~= old(out)@ + (seq![c] + rev(buf@)));
    }
    let mut i: usize = buf.len();
    while i > 0
        invariant
            i <= buf.len(),
            out@ + rev(buf@.subrange(0, i as int)) == old(out)@ + digits(n as nat),
        decreases i,
    {
        i -= 1;
        proof {
            let part = buf@.subrange(0, i as int + 1);
            lemma_rev_push(buf@.subrange(0, i as int), buf@[i as int]);
            assert(part =~= buf@.subrange(0, i as int).push(buf@[i as int]));
            assert(out@.push(buf@[i as int]) + rev(buf@.subrange(0, i as int)) =~= out@ + rev(part));
        }
        out.push(buf[i]);
    }
    proof {
        assert(buf@.subrange(0, 0) =~= Seq::<char>::empty());
        assert(out@ + Seq::<char>::empty() =~= out@);
    }
}

/// Appends `i` as it is written in a message: a minus sign where it is negative, then its
/// digits.
pub fn push_decimal(out: &mut Vec<char>, i: i64)
    ensures
        final(out)@ == old(out)@ + decimal(i as int),
{
    if i < 0 {
        let magnitude: u128 = ((-(i + 1)) as u128) + 1;
        out.push('-');
        push_digits(out, magnitude);
        proof {
            assert(old(out)@.push('-') + digits(magnitude as nat) =~= old(out)@ + (seq!['-']
                + digits(magnitude as nat)));
        }
    } else {
        push_digits(out, i as u128);
    }
}

/// The largest magnitude that `parse_number` tells apart.
pub open spec fn number_cap() -> int {
    0x1_0000_0000_0000_0000
}

/// Reads the digits `s[from..to]`. A value above `number_cap()` comes back as some value above
/// it.
fn read_digits(s: &Vec<char>, from: usize, to: usize) -> (r: Option<u128>)
    requires
        from <= to <= s.len(),
    ensures
        match r {
            Some(v) => {
                let n = digits_value(s@.subrange(from as int, to as int));
                &&& parse_unsigned(s@.subrange(from as int, to as int)) == Some(n as int)
                &&& n <= number_cap() ==> v == n
                &&& n > number_cap() <==> v > number_cap()
            },
            None => parse_unsigned(s@.subrange(from as int, to as int)) is None,
        },
{
    if from == to {
        return None;
    }
    let mut acc: u128 = 0;
    let mut i: usize = from;
    while i < to
        invariant
            from <= i <= to <= s.len(),
            all_digits(s@.subrange(from as int, i as int)),
            digits_value(s@.subrange(from as int, i as int)) <= number_cap() ==> acc
                == digits_value(s@.subrange(from as int, i as int)),
            digits_value(s@.subrange(from as int, i as int)) > number_cap() <==> acc
                > number_cap(),
            acc <= 10 * number_cap() + 9,
        decreases to - i,
    {
        let c: char = s[i];
        let ghost before = s@.subrange(from as int, i as int);
        let ghost after = s@.subrange(from as int, i as int + 1);
        proof {
            assert(after.drop_last() =~= before);
            assert(after.last() == c);
        }
        if !('0' <= c && c <= '9') {
            proof {
                let whole = s@.subrange(from as int, to as int);
                assert(whole[i as int - from as int] == c);
            }
            return None;
        }
        let d: u128 = ((c as u32) - ('0' as u32)) as u128;
        if acc <= 0x1_0000_0000_0000_0000 {
            acc = acc * 10 + d;
        }
        i += 1;
        proof {
            assert forall|k: int| 0 <= k < after.len() implies is_digit(#[trigger] after[k]) by {
                if k < after.len() - 1 {
                    assert(after[k] == before[k]);
                }
            }
        }
    }
    Some(acc)
}

/// Reads `s[from..to]` as a number between `lo` and `hi`: an optional sign (`-` only where
/// `signed`), then one or more digits.
pub fn parse_number(s: &Vec<char>, from: usize, to: usize, signed: bool, lo: i128, hi: i128) -> (r:
    Option<i128>)
    requires
        from <= to <= s.len(),
        -number_cap() <= lo,
        hi <= number_cap(),
    ensures
        match r {
            Some(v) => parse_bounded(s@.subrange(from as int, to as int), signed, lo as int, hi as int)
                == Some(v as int),
            None => parse_bounded(s@.subrange(from as int, to as int), signed, lo as int, hi as int)
                is None,
        },
{
    let ghost sub = s@.subrange(from as int, to as int);
    let mut start: usize = from;
    let mut negative: bool = false;
    if from < to {
        let first: char = s[from];
        assert(sub[0] == first);
        if first == '+' {
            start = from + 1;
        } else if first == '-' && signed {
            start = from + 1;
            negative = true;
        }
    }
    proof {
        if start > from {
            assert(sub.subrange(1, sub.len() as int) =~= s@.subrange(start as int, to as int));
        }
    }
    match read_digits(s, start, to) {
        None => None,
        Some(v) => {
            if v > 0x1_0000_0000_0000_0000 {
                None
            } else {
                let value: i128 = if negative {
                    -(v as i128)
                } else {
                    v as i128
                };
                if lo <= value && value <= hi {
                    Some(value)
                } else {
                    None
                }
            }
        },
    }
}

/// Reads `s[from..to]` as an `i64`.
pub fn parse_i64(s: &Vec<char>, from: usize, to: usize) -> (r: Option<i64>)
    requires
        from <= to <= s.len(),
    ensures
        match r {
            Some(v) => parse_bounded(s@.subrange(from as int, to as int), true, i64::MIN as int, i64::MAX as int)
                == Some(v as int),
            None => parse_bounded(s@.subrange(from as int, to as int), true, i64::MIN as int, i64::MAX as int)
                is None,
        },
{
    match parse_number(s, from, to, true, i64::MIN as i128, i64::MAX as i128) {
        Some(v) => Some(v as i64),
        None => None,
    }
}

/// Reads `s[from..to]` as an `i32`.
pub fn parse_i32(s: &Vec<char>, from: usize, to: usize) -> (r: Option<i32>)
    requires
        from <= to <= s.len(),
    ensures
        match r {
            Some(v) => parse_bounded(s@.subrange(from as int, to as int), true, i32::MIN as int, i32::MAX as int)
                == Some(v as int),
            None => parse_bounded(s@.subrange(from as int, to as int), true, i32::MIN as int, i32::MAX as int)
                is None,
        },
{
    match parse_number(s, from, to, true, i32::MIN as i128, i32::MAX as i128) {
        Some(v) => Some(v as i32),
        None => None,
    }
}

/// Reads `s[from..to]` as a `usize`.
pub fn parse_usize(s: &Vec<char>, from: usize, to: usize) -> (r: Option<usize>)
    requires
        from <= to <= s.len(),
    ensures
        match r {
            Some(v) => parse_bounded(s@.subrange(from as int, to as int), false, 0, usize::MAX as int)
                == Some(v as int),
            None => parse_bounded(s@.subrange(from as int, to as int), false, 0, usize::MAX as int)
                is None,
        },
{
    match parse_number(s, from, to, false, 0, usize::MAX as i128) {
        Some(v) => Some(v as usize),
        None => None,
    }
}

/// `s` read backwards.
pub open spec fn rev(s: Seq<char>) -> Seq<char>
    decreases s.len(),
{
    if s.len() == 0 {
        Seq::empty()
    } else {
        seq![s.last()] + rev(s.drop_last())
    }
}

proof fn lemma_rev_push(s: Seq<char>, c: char)
    ensures
        rev(s.push(c)) == seq![c] + rev(s),
{
    assert(s.push(c).drop_last() =~= s);
}

} // verus!
