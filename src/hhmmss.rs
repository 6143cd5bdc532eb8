//! Clock-style rendering of durations: `HH:MM:SS` and `HH:MM:SS.xxx`.
use vstd::prelude::*;

verus! {

pub open spec fn digit_char(d: int) -> char {
    if d == 0 {
        '0'
    } else if d == 1 {
        '1'
    } else if d == 2 {
        '2'
    } else if d == 3 {
        '3'
    } else if d == 4 {
        '4'
    } else if d == 5 {
        '5'
    } else if d == 6 {
        '6'
    } else if d == 7 {
        '7'
    } else if d == 8 {
        '8'
    } else {
        '9'
    }
}

/// The decimal digits of `n`, without leading zeros.
pub open spec fn digits(n: nat) -> Seq<char>
    decreases n,
{
    if n < 10 {
        seq![digit_char(n as int)]
    } else {
        digits(n / 10).push(digit_char((n % 10) as int))
    }
}

/// `n` in decimal, left-padded with zeros to at least `w` characters.
pub open spec fn zero_padded(n: nat, w: nat) -> Seq<char> {
    let d = digits(n);
    if d.len() >= w {
        d
    } else {
        Seq::new((w - d.len()) as nat, |_i: int| '0') + d
    }
}

/// `n` in decimal, at least `w` characters wide counting the sign, zeros
/// between the sign and the digits.
pub open spec fn signed_padded(n: int, w: nat) -> Seq<char> {
    if n < 0 {
        seq!['-'] + zero_padded((-n) as nat, if w >= 1 { (w - 1) as nat } else { 0 })
    } else {
        zero_padded(n as nat, w)
    }
}

/// `s` seconds as `HH:MM:SS`, with a leading `-` when negative; the hours
/// take as many digits as they need.
pub open spec fn hhmmss_text(s: int) -> Seq<char> {
    let a: int = if s < 0 { -s } else { s };
    (if s < 0 { seq!['-'] } else { Seq::empty() }) + zero_padded((a / 3600) as nat, 2) + seq![':']
        + zero_padded(((a % 3600) / 60) as nat, 2) + seq![':'] + zero_padded((a % 60) as nat, 2)
}

/// `s` seconds and `ms` milliseconds as `HH:MM:SS.xxx`; when `s` is negative
/// the milliseconds are negated along with it.
pub open spec fn hhmmssxxx_text(s: int, ms: int) -> Seq<char> {
    hhmmss_text(s) + seq!['.'] + signed_padded(if s < 0 { -ms } else { ms }, 3)
}

fn digit_str(d: u64) -> (r: &'static str)
    requires
        d < 10,
    ensures
        r@ == seq![digit_char(d as int)],
{
    if d == 0 {
        proof { reveal_strlit("0"); }
        "0"
    } else if d == 1 {
        proof { reveal_strlit("1"); }
        "1"
    } else if d == 2 {
        proof { reveal_strlit("2"); }
        "2"
    } else if d == 3 {
        proof { reveal_strlit("3"); }
        "3"
    } else if d == 4 {
        proof { reveal_strlit("4"); }
        "4"
    } else if d == 5 {
        proof { reveal_strlit("5"); }
        "5"
    } else if d == 6 {
        proof { reveal_strlit("6"); }
        "6"
    } else if d == 7 {
        proof { reveal_strlit("7"); }
        "7"
    } else if d == 8 {
        proof { reveal_strlit("8"); }
        "8"
    } else {
        proof { reveal_strlit("9"); }
        "9"
    }
}

fn push_digits(out: &mut String, n: u64)
    ensures
        final(out)@ == old(out)@ + digits(n as nat),
    decreases n,
{
    if n >= 10 {
        push_digits(out, n / 10);
    }
    out.append(digit_str(n % 10));
    proof {
        if n >= 10 {
            assert(old(out)@ + digits(n as nat) =~= old(out)@ + digits((n / 10) as nat) + seq![
                digit_char((n % 10) as int),
            ]);
        } else {
            assert(digits(n as nat) == seq![digit_char((n % 10) as int)]);
        }
    }
}

fn digit_count(n: u64) -> (r: u64)
    ensures
        r == digits(n as nat).len(),
        1 <= r <= n + 1,
    decreases n,
{
    if n >= 10 {
        let k = digit_count(n / 10);
        proof {
            lemma_digits_len_bound(n as nat);
        }
        k + 1
    } else {
        1
    }
}

proof fn lemma_digits_len_bound(n: nat)
    ensures
        1 <= digits(n).len(),
        n < 10 ==> digits(n).len() == 1,
        n >= 10 ==> digits(n).len() == digits(n / 10).len() + 1,
        digits(n).len() <= n + 1,
    decreases n,
{
    if n >= 10 {
        lemma_digits_len_bound(n / 10);
    }
}

pub(crate) fn push_padded(out: &mut String, n: u64, w: u64)
    requires
        w <= 20,
    ensures
        final(out)@ == old(out)@ + zero_padded(n as nat, w as nat),
{
    let len = digit_count(n);
    let mut k = len;
    let ghost start = out@;
    proof {
        reveal_strlit("0");
        assert("0"@ =~= seq!['0']);
    }
    while k < w
        invariant
            len == digits(n as nat).len(),
            len <= k,
            k <= w || k == len,
            w <= 20,
            "0"@ == seq!['0'],
            out@ == start + Seq::new((k - len) as nat, |_i: int| '0'),
        decreases w - k,
    {
        out.append("0");
        assert(start + Seq::new((k + 1 - len) as nat, |_i: int| '0') =~= start + Seq::new(
            (k - len) as nat,
            |_i: int| '0',
        ) + seq!['0']);
        k = k + 1;
    }
    push_digits(out, n);
    if len >= w {
        assert(out@ =~= start + zero_padded(n as nat, w as nat));
    } else {
        assert(out@ =~= start + zero_padded(n as nat, w as nat));
    }
}

fn push_signed_padded(out: &mut String, n: i64, w: u64)
    requires
        n > i64::MIN,
        1 <= w <= 20,
    ensures
        final(out)@ == old(out)@ + signed_padded(n as int, w as nat),
{
    if n < 0 {
        proof { reveal_strlit("-"); }
        out.append("-");
        push_padded(out, (-n) as u64, w - 1);
        assert(final(out)@ =~= old(out)@ + signed_padded(n as int, w as nat));
    } else {
        push_padded(out, n as u64, w);
    }
}

fn push_clock(out: &mut String, s: i64)
    requires
        s > i64::MIN,
    ensures
        final(out)@ == old(out)@ + hhmmss_text(s as int),
{
    let ghost start = out@;
    proof {
        reveal_strlit("-");
        reveal_strlit(":");
    }
    let a: u64 = if s < 0 {
        out.append("-");
        (-s) as u64
    } else {
        s as u64
    };
    push_padded(out, a / 3600, 2);
    out.append(":");
    push_padded(out, (a % 3600) / 60, 2);
    out.append(":");
    push_padded(out, a % 60, 2);
    assert(out@ =~= start + hhmmss_text(s as int));
}

/// `s` seconds as `HH:MM:SS`, with a leading `-` when negative.
pub fn s2hhmmss(s: i64) -> (r: String)
    requires
        s > i64::MIN,
    ensures
        r@ == hhmmss_text(s as int),
{
    let mut out = String::new();
    push_clock(&mut out, s);
    assert(out@ =~= hhmmss_text(s as int));
    out
}

/// `s` seconds and `ms` milliseconds as `HH:MM:SS.xxx`, with a leading `-`
/// when `s` is negative.
pub fn sms2hhmmsxxx(s: i64, ms: i64) -> (r: String)
    requires
        s > i64::MIN,
        ms > i64::MIN,
    ensures
        r@ == hhmmssxxx_text(s as int, ms as int),
{
    let mut out = String::new();
    push_clock(&mut out, s);
    proof { reveal_strlit("."); }
    out.append(".");
    let m = if s < 0 { -ms } else { ms };
    push_signed_padded(&mut out, m, 3);
    assert(out@ =~= hhmmssxxx_text(s as int, ms as int));
    out
}

/// Clock-style rendering of a length of time.
pub trait Hhmmss {
    /// Whole seconds and the milliseconds past them.
    spec fn spec_sms(&self) -> (int, int);

    /// Whole seconds and the milliseconds past them.
    fn sms(&self) -> (r: (i64, i64))
        ensures
            r.0 as int == self.spec_sms().0,
            r.1 as int == self.spec_sms().1,
            r.0 > i64::MIN,
            r.1 > i64::MIN,
    ;

    /// The length as `HH:MM:SS`.
    fn hhmmss(&self) -> (r: String)
        ensures
            r@ == hhmmss_text(self.spec_sms().0),
    {
        let (s, _ms) = self.sms();
        s2hhmmss(s)
    }

    /// The length as `HH:MM:SS.xxx`.
    fn hhmmssxxx(&self) -> (r: String)
        ensures
            r@ == hhmmssxxx_text(self.spec_sms().0, self.spec_sms().1),
    {
        let (s, ms) = self.sms();
        sms2hhmmsxxx(s, ms)
    }
}

/// A `u64` here is a count of milliseconds, as in the player's status.
impl Hhmmss for u64 {
    open spec fn spec_sms(&self) -> (int, int) {
        ((*self / 1000) as int, (*self % 1000) as int)
    }

    fn sms(&self) -> (r: (i64, i64)) {
        ((*self / 1000) as i64, (*self % 1000) as i64)
    }
}

} // verus!
