use vstd::prelude::*;
use crate::ratings::text_of_ref;
use crate::strings::chars_of;

verus! {

pub open spec fn is_digit(c: char) -> bool {
    '0' <= c <= '9'
}

/// The value of a decimal digit; 0 for any other character.
pub open spec fn digit_of(c: char) -> nat {
    if is_digit(c) {
        (c as int - '0' as int) as nat
    } else {
        0
    }
}

pub open spec fn all_digits(s: Seq<char>) -> bool {
    forall|i: int| 0 <= i < s.len() ==> is_digit(#[trigger] s[i])
}

/// The number that a run of digits writes, most significant digit first.
pub open spec fn digits_value(s: Seq<char>) -> nat
    decreases s.len(),
{
    if s.len() == 0 {
        0
    } else {
        digits_value(s.drop_last()) * 10 + digit_of(s.last())
    }
}

pub open spec fn pow10(n: nat) -> nat
    decreases n,
{
    if n == 0 {
        1
    } else {
        10 * pow10((n - 1) as nat)
    }
}

/// How many digits a text starts with.
pub open spec fn leading_digits(s: Seq<char>) -> nat
    decreases s.len(),
{
    if s.len() > 0 && is_digit(s[0]) {
        1 + leading_digits(s.drop_first())
    } else {
        0
    }
}

/// A decimal numeral taken apart: its sign, the digits before the point and
/// the digits after it.
pub struct Numeral {
    pub negative: bool,
    pub whole: Seq<char>,
    pub fraction: Seq<char>,
}

impl Numeral {
    /// The numeral without its point and sign, as a number.
    pub open spec fn magnitude(self) -> nat {
        digits_value(self.whole + self.fraction)
    }

    /// How many digits follow the point. The numeral stands for
    /// `signed() / pow10(scale())`.
    pub open spec fn scale(self) -> nat {
        self.fraction.len()
    }

    pub open spec fn signed(self) -> int {
        if self.negative {
            -(self.magnitude() as int)
        } else {
            self.magnitude() as int
        }
    }

    /// The numeral that stands for zero.
    pub open spec fn zero() -> Numeral {
        Numeral { negative: false, whole: Seq::empty(), fraction: Seq::empty() }
    }
}

/// Reads digits with at most one point among them, before them or after
/// them; there must be a digit.
pub open spec fn unsigned_numeral(body: Seq<char>, negative: bool) -> Option<Numeral> {
    let d = leading_digits(body) as int;
    if d == body.len() {
        if d > 0 {
            Some(Numeral { negative, whole: body, fraction: Seq::empty() })
        } else {
            None
        }
    } else if body[d] == '.' && body.len() > 1 && all_digits(body.subrange(d + 1, body.len() as int)) {
        Some(
            Numeral {
                negative,
                whole: body.subrange(0, d),
                fraction: body.subrange(d + 1, body.len() as int),
            },
        )
    } else {
        None
    }
}

/// Reads a decimal numeral: an optional sign, then digits with at most one
/// point. Decimal notation alone is meant, as star ratings are written in
/// it: an exponent form such as `1e5` and the words `inf` and `NaN`, which a
/// floating-point parser would read as numbers, are no numerals here, and
/// neither is any other text.
pub open spec fn numeral(text: Seq<char>) -> Option<Numeral> {
    if text.len() > 0 && text[0] == '-' {
        unsigned_numeral(text.drop_first(), true)
    } else if text.len() > 0 && text[0] == '+' {
        unsigned_numeral(text.drop_first(), false)
    } else {
        unsigned_numeral(text, false)
    }
}

/// The number a rating counts as: what it writes if it is a numeral in
/// decimal notation, zero if it is missing or is anything else (a word such
/// as `Unranked`, an exponent form, `inf`, `NaN`).
pub open spec fn rating_number(entry: Option<Seq<char>>) -> Numeral {
    match entry {
        Some(text) => match numeral(text) {
            Some(n) => n,
            None => Numeral::zero(),
        },
        None => Numeral::zero(),
    }
}

/// Which way a rating moved.
#[derive(Debug, Clone, Copy, PartialEq, Eq, Structural)]
pub enum RatingChange {
    /// The new rating is higher.
    Buff,
    /// The new rating is lower.
    Nerf,
    /// The two are equal.
    Same,
}

/// Compares two numerals as the fractions they stand for, exactly.
pub open spec fn change_between(old: Numeral, new: Numeral) -> RatingChange {
    let l = new.signed() * pow10(old.scale());
    let r = old.signed() * pow10(new.scale());
    if l > r {
        RatingChange::Buff
    } else if l < r {
        RatingChange::Nerf
    } else {
        RatingChange::Same
    }
}

pub open spec fn rating_trend(old: Option<Seq<char>>, new: Option<Seq<char>>) -> RatingChange {
    change_between(rating_number(old), rating_number(new))
}

/// A numeral as executable code holds it.
pub struct Decimal {
    pub negative: bool,
    pub whole: Vec<char>,
    pub fraction: Vec<char>,
}

impl View for Decimal {
    type V = Numeral;

    open spec fn view(&self) -> Numeral {
        Numeral { negative: self.negative, whole: self.whole@, fraction: self.fraction@ }
    }
}

pub open spec fn zeros(n: nat) -> Seq<char> {
    Seq::new(n, |i: int| '0')
}

/// The digits of a numeral between `lead` zeros before and `trail` zeros
/// after.
pub open spec fn padded(n: Numeral, lead: nat, trail: nat) -> Seq<char> {
    zeros(lead) + (n.whole + n.fraction) + zeros(trail)
}

proof fn lemma_value_push(s: Seq<char>, c: char)
    ensures
        digits_value(s.push(c)) == digits_value(s) * 10 + digit_of(c),
{
    assert(s.push(c).drop_last() =~= s);
}

proof fn lemma_value_zeros(k: nat)
    ensures
        digits_value(zeros(k)) == 0,
    decreases k,
{
    if k > 0 {
        lemma_value_zeros((k - 1) as nat);
        assert(zeros(k) =~= zeros((k - 1) as nat).push('0'));
        lemma_value_push(zeros((k - 1) as nat), '0');
    }
}

proof fn lemma_value_trailing_zeros(s: Seq<char>, k: nat)
    ensures
        digits_value(s + zeros(k)) == digits_value(s) * pow10(k),
    decreases k,
{
    if k == 0 {
        assert(s + zeros(0) =~= s);
        assert(pow10(0) == 1);
        assert(digits_value(s) * 1 == digits_value(s));
    } else {
        let j = (k - 1) as nat;
        lemma_value_trailing_zeros(s, j);
        assert(s + zeros(k) =~= (s + zeros(j)).push('0'));
        lemma_value_push(s + zeros(j), '0');
        assert(digit_of('0') == 0);
        assert(digits_value(s + zeros(k)) == digits_value(s + zeros(j)) * 10);
        assert(pow10(k) == 10 * pow10(j));
        let v = digits_value(s);
        let p = pow10(j);
        assert(v * p * 10 == v * (10 * p)) by (nonlinear_arith);
        assert(digits_value(s + zeros(j)) == v * p);
        assert(digits_value(s + zeros(k)) == v * p * 10);
        assert(v * pow10(k) == v * (10 * p));
    }
}

proof fn lemma_value_leading_zeros(k: nat, s: Seq<char>)
    ensures
        digits_value(zeros(k) + s) == digits_value(s),
    decreases s.len(),
{
    if s.len() == 0 {
        assert(zeros(k) + s =~= zeros(k));
        lemma_value_zeros(k);
    } else {
        lemma_value_leading_zeros(k, s.drop_last());
        assert(zeros(k) + s =~= (zeros(k) + s.drop_last()).push(s.last()));
        lemma_value_push(zeros(k) + s.drop_last(), s.last());
    }
}

proof fn lemma_padded_value(n: Numeral, lead: nat, trail: nat)
    ensures
        digits_value(padded(n, lead, trail)) == n.magnitude() * pow10(trail),
{
    let digits = n.whole + n.fraction;
    lemma_value_trailing_zeros(zeros(lead) + digits, trail);
    lemma_value_leading_zeros(lead, digits);
}

proof fn lemma_pow10_positive(n: nat)
    ensures
        pow10(n) > 0,
    decreases n,
{
    if n > 0 {
        lemma_pow10_positive((n - 1) as nat);
    }
}

proof fn lemma_leading_digits(s: Seq<char>, d: int)
    requires
        0 <= d <= s.len(),
        forall|i: int| 0 <= i < d ==> is_digit(#[trigger] s[i]),
        d < s.len() ==> !is_digit(s[d]),
    ensures
        leading_digits(s) == d,
    decreases d,
{
    if d > 0 {
        let rest = s.drop_first();
        assert forall|i: int| 0 <= i < d - 1 implies is_digit(#[trigger] rest[i]) by {
            assert(rest[i] == s[i + 1]);
        }
        if d - 1 < rest.len() {
            assert(rest[d - 1] == s[d]);
        }
        lemma_leading_digits(rest, d - 1);
    }
}

fn digit(c: char) -> (yes: bool)
    ensures
        yes == is_digit(c),
{
    c >= '0' && c <= '9'
}

fn copy_range(chars: &Vec<char>, from: usize, to: usize) -> (part: Vec<char>)
    requires
        from <= to <= chars@.len(),
    ensures
        part@ == chars@.subrange(from as int, to as int),
{
    let mut part: Vec<char> = Vec::new();
    let mut i: usize = from;
    while i < to
        invariant
            from <= i <= to <= chars@.len(),
            part@ == chars@.subrange(from as int, i as int),
        decreases to - i,
    {
        part.push(chars[i]);
        assert(chars@.subrange(from as int, i + 1) =~= chars@.subrange(from as int, i as int).push(
            chars@[i as int],
        ));
        i += 1;
    }
    part
}

fn parse_body(chars: &Vec<char>, start: usize, negative: bool) -> (parsed: Option<Decimal>)
    requires
        start <= chars@.len(),
    ensures
        match parsed {
            Some(d) => unsigned_numeral(chars@.subrange(start as int, chars@.len() as int), negative)
                == Some(d@) && all_digits(d.whole@ + d.fraction@),
            None => unsigned_numeral(chars@.subrange(start as int, chars@.len() as int), negative)
                is None,
        },
{
    let n = chars.len();
    let ghost body = chars@.subrange(start as int, n as int);
    let mut d: usize = start;
    while d < n && digit(chars[d])
        invariant
            start <= d <= n,
            n == chars@.len(),
            body == chars@.subrange(start as int, n as int),
            forall|i: int| 0 <= i < d - start ==> is_digit(#[trigger] body[i]),
        decreases n - d,
    {
        d += 1;
    }
    proof {
        if d < n {
            assert(body[d - start] == chars@[d as int]);
        }
        lemma_leading_digits(body, d - start);
    }
    if d == n {
        if d > start {
            let whole = copy_range(chars, start, n);
            let fraction: Vec<char> = Vec::new();
            assert(whole@ + fraction@ =~= body);
            Some(Decimal { negative, whole, fraction })
        } else {
            None
        }
    } else if chars[d] == '.' && n - start > 1 {
        let ghost tail = body.subrange(d - start + 1, body.len() as int);
        assert(tail =~= chars@.subrange(d + 1, n as int));
        let mut k: usize = d + 1;
        while k < n
            invariant
                start <= d < n,
                d + 1 <= k <= n,
                n == chars@.len(),
                body == chars@.subrange(start as int, n as int),
                leading_digits(body) == d - start,
                body[d - start] == '.',
                tail == body.subrange(d - start + 1, body.len() as int),
                tail == chars@.subrange(d + 1, n as int),
                forall|i: int| 0 <= i < k - (d + 1) ==> is_digit(#[trigger] tail[i]),
            decreases n - k,
        {
            if !digit(chars[k]) {
                assert(!is_digit(tail[k - (d + 1)]));
                return None;
            }
            k += 1;
        }
        let whole = copy_range(chars, start, d);
        let fraction = copy_range(chars, d + 1, n);
        assert(whole@ =~= body.subrange(0, d - start));
        assert(all_digits(whole@ + fraction@)) by {
            assert forall|i: int| 0 <= i < (whole@ + fraction@).len() implies is_digit(
                #[trigger] (whole@ + fraction@)[i],
            ) by {
                if i < whole@.len() {
                    assert((whole@ + fraction@)[i] == body[i]);
                } else {
                    assert((whole@ + fraction@)[i] == tail[i - whole@.len()]);
                }
            }
        }
        Some(Decimal { negative, whole, fraction })
    } else {
        None
    }
}

/// Reads a decimal numeral.
pub fn parse_decimal(text: &str) -> (parsed: Option<Decimal>)
    ensures
        match parsed {
            Some(d) => numeral(text@) == Some(d@) && all_digits(d.whole@ + d.fraction@),
            None => numeral(text@) is None,
        },
{
    let chars = chars_of(text);
    let n = chars.len();
    assert(chars@.subrange(0, n as int) =~= text@);
    if n > 0 && chars[0] == '-' {
        assert(chars@.subrange(1, n as int) =~= text@.drop_first());
        parse_body(&chars, 1, true)
    } else if n > 0 && chars[0] == '+' {
        assert(chars@.subrange(1, n as int) =~= text@.drop_first());
        parse_body(&chars, 1, false)
    } else {
        parse_body(&chars, 0, false)
    }
}

fn padded_digit(d: &Decimal, lead: u128, trail: Ghost<nat>, at: u128) -> (c: char)
    requires
        at < lead + d.whole@.len() + d.fraction@.len() + trail@,
        lead + d.whole@.len() + d.fraction@.len() < u128::MAX,
    ensures
        c == padded(d@, lead as nat, trail@)[at as int],
{
    let whole_len: u128 = d.whole.len() as u128;
    let fraction_len: u128 = d.fraction.len() as u128;
    if at < lead {
        '0'
    } else if at - lead < whole_len {
        d.whole[(at - lead) as usize]
    } else if at - lead - whole_len < fraction_len {
        d.fraction[(at - lead - whole_len) as usize]
    } else {
        '0'
    }
}

/// The sign of `a - b`, as -1, 0 or 1.
pub open spec fn sign_of_difference(a: int, b: int) -> int {
    if a < b {
        -1
    } else if a > b {
        1
    } else {
        0
    }
}

/// Compares the magnitudes of two numerals as fractions: the sign of
/// `|a| / pow10(a.scale()) - |b| / pow10(b.scale())`.
fn compare_magnitudes(a: &Decimal, b: &Decimal) -> (order: i8)
    requires
        all_digits(a.whole@ + a.fraction@),
        all_digits(b.whole@ + b.fraction@),
    ensures
        order == sign_of_difference(
            (a@.magnitude() * pow10(b@.scale())) as int,
            (b@.magnitude() * pow10(a@.scale())) as int,
        ),
{
    let a_len: u128 = a.whole.len() as u128 + a.fraction.len() as u128 + b.fraction.len() as u128;
    let b_len: u128 = b.whole.len() as u128 + b.fraction.len() as u128 + a.fraction.len() as u128;
    let total: u128 = if a_len > b_len {
        a_len
    } else {
        b_len
    };
    let a_lead: u128 = total - a_len;
    let b_lead: u128 = total - b_len;
    let ghost a_trail = b@.scale();
    let ghost b_trail = a@.scale();
    let ghost left = padded(a@, a_lead as nat, a_trail);
    let ghost right = padded(b@, b_lead as nat, b_trail);
    assert(left.len() == total);
    assert(right.len() == total);
    let mut order: i8 = 0;
    let mut at: u128 = 0;
    while at < total
        invariant
            at <= total,
            left.len() == total,
            right.len() == total,
            left == padded(a@, a_lead as nat, a_trail),
            right == padded(b@, b_lead as nat, b_trail),
            a_trail == b.fraction@.len(),
            b_trail == a.fraction@.len(),
            total == a_lead + a.whole@.len() + a.fraction@.len() + a_trail,
            total == b_lead + b.whole@.len() + b.fraction@.len() + b_trail,
            total < u128::MAX,
            all_digits(left),
            all_digits(right),
            order == sign_of_difference(
                digits_value(left.take(at as int)) as int,
                digits_value(right.take(at as int)) as int,
            ),
        decreases total - at,
    {
        let x = padded_digit(a, a_lead, Ghost(a_trail), at);
        let y = padded_digit(b, b_lead, Ghost(b_trail), at);
        proof {
            assert(left.take(at + 1) =~= left.take(at as int).push(left[at as int]));
            assert(right.take(at + 1) =~= right.take(at as int).push(right[at as int]));
            lemma_value_push(left.take(at as int), left[at as int]);
            lemma_value_push(right.take(at as int), right[at as int]);
            assert(is_digit(left[at as int]));
            assert(is_digit(right[at as int]));
        }
        if order == 0 {
            if x < y {
                order = -1;
            } else if x > y {
                order = 1;
            }
        }
        at += 1;
    }
    proof {
        assert(left.take(total as int) =~= left);
        assert(right.take(total as int) =~= right);
        lemma_padded_value(a@, a_lead as nat, a_trail);
        lemma_padded_value(b@, b_lead as nat, b_trail);
    }
    order
}

fn number_of(entry: Option<&String>) -> (number: Decimal)
    ensures
        number@ == rating_number(text_of_ref(entry)),
        all_digits(number.whole@ + number.fraction@),
{
    let parsed = match entry {
        Some(text) => parse_decimal(text.as_str()),
        None => None,
    };
    match parsed {
        Some(number) => number,
        None => {
            let number = Decimal { negative: false, whole: Vec::new(), fraction: Vec::new() };
            assert(number@ == Numeral::zero());
            number
        },
    }
}

fn has_no_magnitude(number: &Decimal) -> (none: bool)
    requires
        all_digits(number.whole@ + number.fraction@),
    ensures
        none == (number@.magnitude() == 0),
{
    let nothing = Decimal { negative: false, whole: Vec::new(), fraction: Vec::new() };
    assert(nothing.whole@ + nothing.fraction@ =~= Seq::<char>::empty());
    let order = compare_magnitudes(number, &nothing);
    proof {
        let m = number@.magnitude();
        let p = pow10(number@.scale());
        assert(nothing@.magnitude() == 0);
        assert(pow10(nothing@.scale()) == 1);
        assert(m * 1 == m);
        assert(0 * p == 0);
    }
    order == 0
}

/// Tells which way a rating moved from `old` to `new`. Each of them counts
/// as the number it writes in decimal notation, and as zero where it is
/// missing or writes none. The two are compared exactly, digit by digit, so
/// ratings that differ in any digit differ.
pub fn rating_change(old: Option<&String>, new: Option<&String>) -> (change: RatingChange)
    ensures
        change == rating_trend(text_of_ref(old), text_of_ref(new)),
{
    let before = number_of(old);
    let after = number_of(new);
    let order = compare_magnitudes(&after, &before);
    let ghost am = after@.magnitude();
    let ghost bm = before@.magnitude();
    let ghost ap = pow10(before@.scale());
    let ghost bp = pow10(after@.scale());
    proof {
        lemma_pow10_positive(before@.scale());
        lemma_pow10_positive(after@.scale());
        assert((-(am as int)) * ap == -(am * ap)) by (nonlinear_arith);
        assert((-(bm as int)) * bp == -(bm * bp)) by (nonlinear_arith);
        assert(am * ap >= 0) by (nonlinear_arith)
            requires
                am >= 0,
                ap > 0,
        ;
        assert(bm * bp >= 0) by (nonlinear_arith)
            requires
                bm >= 0,
                bp > 0,
        ;
        assert(am > 0 ==> am * ap > 0) by (nonlinear_arith)
            requires
                ap > 0,
        ;
        assert(bm > 0 ==> bm * bp > 0) by (nonlinear_arith)
            requires
                bp > 0,
        ;
        assert(am == 0 ==> am * ap == 0) by (nonlinear_arith);
        assert(bm == 0 ==> bm * bp == 0) by (nonlinear_arith);
    }
    if after.negative == before.negative {
        let rising: i8 = if after.negative {
            -1
        } else {
            1
        };
        if order == 0 {
            RatingChange::Same
        } else if order == rising {
            RatingChange::Buff
        } else {
            RatingChange::Nerf
        }
    } else {
        let both_nothing = has_no_magnitude(&after) && has_no_magnitude(&before);
        if both_nothing {
            RatingChange::Same
        } else if after.negative {
            RatingChange::Nerf
        } else {
            RatingChange::Buff
        }
    }
}

/// Turning a change round turns a buff into a nerf and a nerf into a buff,
/// and leaves no change as it is.
pub proof fn lemma_change_turns_round(old: Option<Seq<char>>, new: Option<Seq<char>>)
    ensures
        rating_trend(old, new) == RatingChange::Buff <==> rating_trend(new, old) == RatingChange::Nerf,
        rating_trend(old, new) == RatingChange::Same <==> rating_trend(new, old) == RatingChange::Same,
{
}

/// A rating does not change against itself.
pub proof fn lemma_no_change_against_itself(rating: Option<Seq<char>>)
    ensures
        rating_trend(rating, rating) == RatingChange::Same,
{
}

} // verus!
