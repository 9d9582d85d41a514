use vstd::prelude::*;
use vstd::string::*;
use vstd::arithmetic::div_mod::{lemma_basic_div_specific_divisor, lemma_div_is_ordered_by_denominator, lemma_small_mod};

verus! {

/// A value held by one field of a record.
#[derive(Debug, PartialEq, Eq)]
pub enum CellValue {
    Text(String),
    Integer(i64),
    /// The number `units / 10^scale`, written with `scale` fractional digits.
    Decimal { units: i64, scale: u32 },
}

/// What a cell value stands for.
pub enum CellView {
    Text(Seq<char>),
    Integer(int),
    Decimal(int, nat),
}

impl View for CellValue {
    type V = CellView;

    open spec fn view(&self) -> CellView {
        match self {
            CellValue::Text(s) => CellView::Text(s@),
            CellValue::Integer(i) => CellView::Integer(*i as int),
            CellValue::Decimal { units, scale } => CellView::Decimal(*units as int, *scale as nat),
        }
    }
}

/// A copy of a cell value.
pub fn copy_value(v: &CellValue) -> (r: CellValue)
    ensures
        r@ == v@,
{
    match v {
        CellValue::Text(s) => CellValue::Text(s.clone()),
        CellValue::Integer(i) => CellValue::Integer(*i),
        CellValue::Decimal { units, scale } => CellValue::Decimal { units: *units, scale: *scale },
    }
}

/// The character of a decimal digit.
pub open spec fn digit_char(d: nat) -> char {
    if d == 0 { '0' }
    else if d == 1 { '1' }
    else if d == 2 { '2' }
    else if d == 3 { '3' }
    else if d == 4 { '4' }
    else if d == 5 { '5' }
    else if d == 6 { '6' }
    else if d == 7 { '7' }
    else if d == 8 { '8' }
    else { '9' }
}

/// The decimal digits of `n`, most significant first, without leading zeros.
pub open spec fn digits_of(n: nat) -> Seq<char>
    decreases n,
{
    if n < 10 {
        seq![digit_char(n)]
    } else {
        digits_of(n / 10) + seq![digit_char(n % 10)]
    }
}

/// The natural text of an integer: a minus sign for a negative one, then its
/// digits.
pub open spec fn integer_text(v: int) -> Seq<char> {
    if v < 0 {
        seq!['-'] + digits_of((-v) as nat)
    } else {
        digits_of(v as nat)
    }
}

/// `k` zero digits.
pub open spec fn zeros(k: nat) -> Seq<char>
    decreases k,
{
    if k == 0 {
        seq![]
    } else {
        zeros((k - 1) as nat) + seq!['0']
    }
}

/// Ten to the power `k`.
pub open spec fn pow10(k: nat) -> nat
    decreases k,
{
    if k == 0 {
        1
    } else {
        10 * pow10((k - 1) as nat)
    }
}

/// `m` with its last `k` decimal digits dropped.
pub open spec fn shifted(m: nat, k: nat) -> nat
    decreases k,
{
    if k == 0 {
        m
    } else {
        shifted(m, (k - 1) as nat) / 10
    }
}

/// The last `k` decimal digits of `m`, leading zeros included.
pub open spec fn low_digits(m: nat, k: nat) -> Seq<char>
    decreases k,
{
    if k == 0 {
        seq![]
    } else {
        low_digits(m / 10, (k - 1) as nat) + seq![digit_char(m % 10)]
    }
}

/// The number `m / 10^k` written with exactly `k` fractional digits.
pub open spec fn fixed_text(m: nat, k: nat) -> Seq<char> {
    if k == 0 {
        digits_of(m)
    } else {
        digits_of(shifted(m, k)) + seq!['.'] + low_digits(m, k)
    }
}

/// `m / 10^k` rounded to an integer, a tie going to the even neighbour.
pub open spec fn rounded(m: nat, k: nat) -> nat {
    let p = pow10(k);
    let q = m / p;
    let r = m % p;
    if 2 * r > p || (2 * r == p && q % 2 == 1) {
        q + 1
    } else {
        q
    }
}

/// The text of `±m / 10^s`: with `s` fractional digits when no precision is
/// given; with `p` of them when one is, padded with zeros or rounded.
pub open spec fn decimal_text(negative: bool, m: nat, s: nat, precision: Option<usize>) -> Seq<char> {
    let sign = if negative { seq!['-'] } else { Seq::<char>::empty() };
    match precision {
        None => sign + fixed_text(m, s),
        Some(p) => if p >= s {
            if s == 0 && p > 0 {
                sign + fixed_text(m, s) + seq!['.'] + zeros(p as nat)
            } else {
                sign + fixed_text(m, s) + zeros((p - s) as nat)
            }
        } else {
            sign + fixed_text(rounded(m, (s - p) as nat), p as nat)
        },
    }
}

/// The text of a cell: a number shown with exactly `p` fractional digits
/// when a precision `p` is given, else in its natural form; text as it is.
pub open spec fn value_text(v: CellView, precision: Option<usize>) -> Seq<char> {
    match v {
        CellView::Text(s) => s,
        CellView::Integer(i) => match precision {
            Some(p) if p > 0 => integer_text(i) + seq!['.'] + zeros(p as nat),
            _ => integer_text(i),
        },
        CellView::Decimal(units, scale) => decimal_text(
            units < 0,
            (if units < 0 { -units } else { units }) as nat,
            scale,
            precision,
        ),
    }
}

fn digit_str(d: u64) -> (r: &'static str)
    requires
        d < 10,
    ensures
        r@ == seq![digit_char(d as nat)],
{
    proof {
        reveal_strlit("0");
        reveal_strlit("1");
        reveal_strlit("2");
        reveal_strlit("3");
        reveal_strlit("4");
        reveal_strlit("5");
        reveal_strlit("6");
        reveal_strlit("7");
        reveal_strlit("8");
        reveal_strlit("9");
    }
    match d {
        0 => "0",
        1 => "1",
        2 => "2",
        3 => "3",
        4 => "4",
        5 => "5",
        6 => "6",
        7 => "7",
        8 => "8",
        _ => "9",
    }
}

/// The decimal digits of `n`.
pub fn digits_text(n: u64) -> (r: String)
    ensures
        r@ == digits_of(n as nat),
    decreases n,
{
    if n < 10 {
        String::from_str(digit_str(n))
    } else {
        let mut s = digits_text(n / 10);
        s.append(digit_str(n % 10));
        s
    }
}

/// The natural text of an integer.
pub fn integer_to_text(v: i64) -> (r: String)
    ensures
        r@ == integer_text(v as int),
{
    if v < 0 {
        let m: u64 = (-(v as i128)) as u64;
        let digits = digits_text(m);
        let mut s = String::from_str("-");
        proof {
            reveal_strlit("-");
        }
        s.append(digits.as_str());
        s
    } else {
        digits_text(v as u64)
    }
}

/// Appends `k` zero digits.
fn append_zeros(s: &mut String, k: usize)
    ensures
        final(s)@ == old(s)@ + zeros(k as nat),
{
    let ghost start = s@;
    let mut i: usize = 0;
    while i < k
        invariant
            i <= k,
            s@ == start + zeros(i as nat),
        decreases k - i,
    {
        s.append("0");
        proof {
            reveal_strlit("0");
            assert(zeros((i + 1) as nat) == zeros(i as nat) + seq!['0']);
            assert(s@ =~= start + zeros((i + 1) as nat));
        }
        i = i + 1;
    }
    proof {
        assert(zeros(0) =~= Seq::<char>::empty());
    }
}

proof fn lemma_pow10_monotone(i: nat, j: nat)
    requires
        i <= j,
    ensures
        pow10(i) <= pow10(j),
    decreases j,
{
    if j > i {
        lemma_pow10_monotone(i, (j - 1) as nat);
    }
}

proof fn lemma_pow10_values()
    ensures
        pow10(1) == 10,
        pow10(18) == 1000000000000000000nat,
        pow10(20) == 100000000000000000000nat,
{
    reveal_with_fuel(pow10, 21);
}

fn pow10_u64(k: u32) -> (r: u64)
    requires
        k <= 19,
    ensures
        r == pow10(k as nat),
{
    let mut r: u64 = 1;
    let mut i: u32 = 0;
    while i < k
        invariant
            i <= k <= 19,
            r == pow10(i as nat),
        decreases k - i,
    {
        proof {
            lemma_pow10_monotone(i as nat, 18);
            lemma_pow10_values();
        }
        r = r * 10;
        i = i + 1;
    }
    r
}

/// `m / 10^k` rounded as `rounded` says.
fn round_decimal(m: u64, k: u32) -> (r: u64)
    requires
        k >= 1,
    ensures
        r == rounded(m as nat, k as nat),
{
    proof {
        lemma_pow10_values();
        lemma_pow10_monotone(1, k as nat);
    }
    if k <= 19 {
        let p = pow10_u64(k);
        let q = m / p;
        let r = m % p;
        proof {
            lemma_div_is_ordered_by_denominator(m as int, 10, p as int);
        }
        if r > p - r || (r == p - r && q % 2 == 1) {
            q + 1
        } else {
            q
        }
    } else {
        proof {
            lemma_pow10_monotone(20, k as nat);
            lemma_basic_div_specific_divisor(pow10(k as nat) as int);
            lemma_small_mod(m as nat, pow10(k as nat));
        }
        0
    }
}

/// The number `m / 10^k` written as `fixed_text` says.
fn fixed_to_text(m: u64, k: u32) -> (r: String)
    ensures
        r@ == fixed_text(m as nat, k as nat),
{
    if k == 0 {
        return digits_text(m);
    }
    let mut digs: Vec<u64> = Vec::new();
    let mut cur: u64 = m;
    let mut i: u32 = 0;
    while i < k
        invariant
            i <= k,
            cur == shifted(m as nat, i as nat),
            digs@.len() == i,
            forall|j: int| 0 <= j < i ==> #[trigger] digs@[j] == shifted(m as nat, j as nat) % 10,
        decreases k - i,
    {
        digs.push(cur % 10);
        cur = cur / 10;
        i = i + 1;
    }
    let mut low = String::new();
    let mut i: usize = k as usize;
    while i > 0
        invariant
            i <= k,
            digs@.len() == k,
            forall|j: int| 0 <= j < k ==> #[trigger] digs@[j] == shifted(m as nat, j as nat) % 10,
            low@ == low_digits(shifted(m as nat, i as nat), (k - i) as nat),
        decreases i,
    {
        i = i - 1;
        low.append(digit_str(digs[i]));
        proof {
            let x = shifted(m as nat, i as nat);
            assert(shifted(m as nat, (i + 1) as nat) == x / 10);
            assert(low_digits(x, (k - i) as nat) == low_digits(x / 10, (k - i - 1) as nat) + seq![
                digit_char(x % 10),
            ]);
        }
    }
    let mut out = digits_text(cur);
    proof {
        reveal_strlit(".");
    }
    out.append(".");
    out.append(low.as_str());
    proof {
        assert(low_digits(shifted(m as nat, 0), k as nat) == low@);
    }
    out
}

/// The text of `units / 10^scale` as `decimal_text` says.
fn decimal_to_text(units: i64, scale: u32, precision: Option<usize>) -> (r: String)
    ensures
        r@ == decimal_text(
            units < 0,
            (if units < 0 { -(units as int) } else { units as int }) as nat,
            scale as nat,
            precision,
        ),
{
    let negative = units < 0;
    let m: u64 = if negative { (-(units as i128)) as u64 } else { units as u64 };
    let mut s = if negative {
        proof {
            reveal_strlit("-");
        }
        String::from_str("-")
    } else {
        String::new()
    };
    match precision {
        None => {
            s.append(fixed_to_text(m, scale).as_str());
        },
        Some(p) => {
            if p >= scale as usize {
                s.append(fixed_to_text(m, scale).as_str());
                if scale == 0 && p > 0 {
                    proof {
                        reveal_strlit(".");
                    }
                    s.append(".");
                    append_zeros(&mut s, p);
                } else {
                    append_zeros(&mut s, p - scale as usize);
                }
            } else {
                let k = scale - p as u32;
                s.append(fixed_to_text(round_decimal(m, k), p as u32).as_str());
            }
        },
    }
    s
}

/// Writes a value as `value_text` says.
pub fn format_value(v: &CellValue, precision: Option<usize>) -> (r: String)
    ensures
        r@ == value_text(v@, precision),
{
    match v {
        CellValue::Text(s) => s.clone(),
        CellValue::Integer(i) => {
            let mut s = integer_to_text(*i);
            match precision {
                Some(p) if p > 0 => {
                    proof {
                        reveal_strlit(".");
                    }
                    s.append(".");
                    append_zeros(&mut s, p);
                    s
                },
                _ => s,
            }
        },
        CellValue::Decimal { units, scale } => decimal_to_text(*units, *scale, precision),
    }
}

} // verus!
