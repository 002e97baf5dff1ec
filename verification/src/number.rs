//! Decimal numbers read from bytes, with the grammar of Rust's integer parsing:
//! an optional sign, then at least one digit.

use vstd::prelude::*;

verus! {

/// An ASCII digit.
pub open spec fn is_digit(b: u8) -> bool {
    0x30 <= b <= 0x39
}

/// Every byte is an ASCII digit.
pub open spec fn all_digits(s: Seq<u8>) -> bool {
    forall|i: int| 0 <= i < s.len() ==> is_digit(#[trigger] s[i])
}

/// The value of a row of digits in base ten.
pub open spec fn digits_value(s: Seq<u8>) -> nat
    decreases s.len(),
{
    if s.len() == 0 {
        0
    } else {
        digits_value(s.drop_last()) * 10 + (s.last() - 0x30) as nat
    }
}

/// The value of a non-empty row of digits, none for anything else.
pub open spec fn natural_of(s: Seq<u8>) -> Option<nat> {
    if s.len() > 0 && all_digits(s) {
        Some(digits_value(s))
    } else {
        None
    }
}

/// The number written in `s` with an optional leading plus sign.
pub open spec fn unsigned_of(s: Seq<u8>) -> Option<nat> {
    if s.len() > 0 && s[0] == 0x2b {
        natural_of(s.skip(1))
    } else {
        natural_of(s)
    }
}

/// The number written in `s` with an optional leading sign.
pub open spec fn signed_of(s: Seq<u8>) -> Option<int> {
    if s.len() > 0 && s[0] == 0x2d {
        match natural_of(s.skip(1)) {
            Some(n) => Some(-(n as int)),
            None => None,
        }
    } else {
        match unsigned_of(s) {
            Some(n) => Some(n as int),
            None => None,
        }
    }
}

/// More digits never make the number smaller.
pub proof fn lemma_digits_prefix(s: Seq<u8>, k: int)
    requires
        0 <= k <= s.len(),
        all_digits(s),
    ensures
        digits_value(s.take(k)) <= digits_value(s),
    decreases s.len(),
{
    if k == s.len() {
        assert(s.take(k) =~= s);
    } else {
        lemma_digits_prefix(s.drop_last(), k);
        assert(s.drop_last().take(k) =~= s.take(k));
    }
}

/// A row of `k` digits is below ten to the power of `k`, for the short rows of dates and times.
pub proof fn lemma_digits_small(s: Seq<u8>)
    requires
        s.len() <= 4,
        all_digits(s),
    ensures
        s.len() <= 1 ==> digits_value(s) <= 9,
        s.len() <= 2 ==> digits_value(s) <= 99,
        s.len() <= 3 ==> digits_value(s) <= 999,
        s.len() <= 4 ==> digits_value(s) <= 9999,
    decreases s.len(),
{
    if s.len() > 0 {
        lemma_digits_small(s.drop_last());
    }
}

/// The value of the digits in `b[from..to]`, where it is at most `max`.
fn natural(b: &[u8], from: usize, to: usize, max: u64) -> (r: Option<u64>)
    requires
        from <= to <= b@.len(),
    ensures
        match natural_of(b@.subrange(from as int, to as int)) {
            Some(n) => if n <= max {
                r == Some(n as u64)
            } else {
                r is None
            },
            None => r is None,
        },
{
    let ghost s = b@.subrange(from as int, to as int);
    if from == to {
        return None;
    }
    let mut value: u64 = 0;
    let mut over: bool = false;
    let mut i: usize = from;
    while i < to
        invariant
            from <= i <= to <= b@.len(),
            s == b@.subrange(from as int, to as int),
            all_digits(s.take(i - from)),
            !over ==> value == digits_value(s.take(i - from)) && value <= max,
            over ==> digits_value(s.take(i - from)) > max,
        decreases to - i,
    {
        let c: u8 = b[i];
        let ghost t = s.take(i - from);
        let ghost t1 = s.take(i - from + 1);
        assert(t1.drop_last() =~= t);
        assert(t1.last() == c);
        if c < 0x30 || c > 0x39 {
            assert(!is_digit(s[i - from]));
            return None;
        }
        assert(all_digits(t1)) by {
            assert forall|j: int| 0 <= j < t1.len() implies is_digit(#[trigger] t1[j]) by {
                if j < t.len() {
                    assert(t1[j] == t[j]);
                }
            }
        }
        let d: u64 = (c - 0x30) as u64;
        if !over {
            if d > max || value > max / 10 || value * 10 > max - d {
                over = true;
                assert(digits_value(t1) > max);
            } else {
                value = value * 10 + d;
            }
        }
        i += 1;
    }
    assert(s.take(to - from) =~= s);
    if over {
        None
    } else {
        Some(value)
    }
}

/// The number written in `b[from..to]`, where it fits 32 bits.
pub fn parse_u32(b: &[u8], from: usize, to: usize) -> (r: Option<u32>)
    requires
        from <= to <= b@.len(),
    ensures
        match unsigned_of(b@.subrange(from as int, to as int)) {
            Some(n) => if n <= u32::MAX {
                r == Some(n as u32)
            } else {
                r is None
            },
            None => r is None,
        },
{
    let ghost s = b@.subrange(from as int, to as int);
    let start: usize = if from < to && b[from] == 0x2b {
        from + 1
    } else {
        from
    };
    assert(start == from + 1 ==> s.skip(1) =~= b@.subrange(start as int, to as int));
    match natural(b, start, to, u32::MAX as u64) {
        Some(n) => Some(n as u32),
        None => None,
    }
}

/// The number written in `b[from..to]`, where it fits 32 bits with a sign.
pub fn parse_i32(b: &[u8], from: usize, to: usize) -> (r: Option<i32>)
    requires
        from <= to <= b@.len(),
    ensures
        match signed_of(b@.subrange(from as int, to as int)) {
            Some(n) => if i32::MIN <= n <= i32::MAX {
                r == Some(n as i32)
            } else {
                r is None
            },
            None => r is None,
        },
{
    match parse_i64(b, from, to) {
        Some(n) => if -0x8000_0000 <= n && n <= 0x7fff_ffff {
            Some(n as i32)
        } else {
            None
        },
        None => None,
    }
}

/// The number written in `b[from..to]`, where it fits 64 bits with a sign.
pub fn parse_i64(b: &[u8], from: usize, to: usize) -> (r: Option<i64>)
    requires
        from <= to <= b@.len(),
    ensures
        match signed_of(b@.subrange(from as int, to as int)) {
            Some(n) => if i64::MIN <= n <= i64::MAX {
                r == Some(n as i64)
            } else {
                r is None
            },
            None => r is None,
        },
{
    let ghost s = b@.subrange(from as int, to as int);
    let signed: bool = from < to && (b[from] == 0x2b || b[from] == 0x2d);
    let negative: bool = from < to && b[from] == 0x2d;
    let start: usize = if signed {
        from + 1
    } else {
        from
    };
    assert(start == from + 1 ==> s.skip(1) =~= b@.subrange(start as int, to as int));
    if negative {
        match natural(b, start, to, 0x8000_0000_0000_0000) {
            Some(n) => if n == 0x8000_0000_0000_0000 {
                Some(i64::MIN)
            } else {
                Some(-(n as i64))
            },
            None => None,
        }
    } else {
        match natural(b, start, to, 0x7fff_ffff_ffff_ffff) {
            Some(n) => Some(n as i64),
            None => None,
        }
    }
}

// ---------------------------------------------------------------------------
// What the operations promise
// ---------------------------------------------------------------------------

proof fn lemma_one_more(s: Seq<u8>, c: u8)
    ensures
        is_digit(c) && natural_of(s) is Some ==> natural_of(s.push(c)) == Some(
            natural_of(s)->0 * 10 + (c - 0x30) as nat,
        ),
        is_digit(c) && s.len() == 0 ==> natural_of(s.push(c)) == Some((c - 0x30) as nat),
        !is_digit(c) ==> natural_of(s.push(c)) is None,
{
    let t = s.push(c);
    assert(t.drop_last() =~= s);
    assert(t.last() == c);
    assert(t[s.len() as int] == c);
    assert(s.len() == 0 ==> digits_value(s) == 0);
    if is_digit(c) && all_digits(s) {
        assert forall|i: int| 0 <= i < t.len() implies is_digit(#[trigger] t[i]) by {
            if i < s.len() {
                assert(t[i] == s[i]);
            }
        }
    }
}

/// One digit more makes the number ten times as large and adds the digit; a number that does not fit
/// is none, and so is what ends in anything but a digit.
pub proof fn law_a_digit_more_counts_ten_times_u32(
    b: &[u8],
    from: usize,
    to: usize,
    end: usize,
    fewer: Option<u32>,
    r: Option<u32>,
)
    requires
        from <= to < end <= b@.len(),
        end == to + 1,
        call_ensures(parse_u32, (b, from, to), fewer),
        call_ensures(parse_u32, (b, from, end), r),
    ensures
        ({
            let c = b@[to as int];
            let d = c - 0x30;
            &&& !(0x30 <= c <= 0x39) ==> r is None
            &&& 0x30 <= c <= 0x39 && from == to ==> r == Some(d as u32)
            &&& 0x30 <= c <= 0x39 ==> (fewer matches Some(v) ==> {
                let n = if b@[from as int] == 0x2d {
                    v * 10 - d
                } else {
                    v * 10 + d
                };
                &&& n <= u32::MAX ==> r == Some(n as u32)
                &&& !(n <= u32::MAX) ==> r is None
            })
        }),
{
    let s = b@.subrange(from as int, to as int);
    let t = b@.subrange(from as int, to + 1);
    let c = b@[to as int];
    assert(t =~= s.push(c));
    lemma_one_more(s, c);
    if s.len() > 0 {
        assert(t[0] == s[0]);
        assert(t.skip(1) =~= s.skip(1).push(c));
        lemma_one_more(s.skip(1), c);
        assert(s[0] == b@[from as int]);
    } else {
        assert(t[0] == c);
        assert(t.skip(1).len() == 0);
    }
}

/// Nothing is no number, and neither is a sign alone.
pub proof fn law_nothing_is_no_u32(b: &[u8], from: usize, to: usize, r: Option<u32>)
    requires
        from <= to <= b@.len(),
        call_ensures(parse_u32, (b, from, to), r),
        from == to || (to == from + 1 && !(0x30 <= b@[from as int] <= 0x39)),
    ensures
        r is None,
{
    let s = b@.subrange(from as int, to as int);
    if from < to {
        assert(s[0] == b@[from as int]);
        assert(s.skip(1).len() == 0);
    }
}

/// A plus sign before digits changes nothing.
pub proof fn law_a_plus_sign_changes_no_u32(
    b: &[u8],
    from: usize,
    to: usize,
    bare: Option<u32>,
    whole: Option<u32>,
)
    requires
        from + 1 < to <= b@.len(),
        b@[from as int] == 0x2b,
        is_digit(b@[from + 1]),
        call_ensures(parse_u32, (b, (from + 1) as usize, to), bare),
        call_ensures(parse_u32, (b, from, to), whole),
    ensures
        whole == bare,
{
    let s = b@.subrange(from as int, to as int);
    assert(s.skip(1) =~= b@.subrange(from + 1, to as int));
    assert(s.skip(1)[0] == b@[from + 1]);
    assert(s[0] == b@[from as int]);
}

/// One digit more makes the number ten times as large and adds the digit; a number that does not fit
/// is none, and so is what ends in anything but a digit.
pub proof fn law_a_digit_more_counts_ten_times_i32(
    b: &[u8],
    from: usize,
    to: usize,
    end: usize,
    fewer: Option<i32>,
    r: Option<i32>,
)
    requires
        from <= to < end <= b@.len(),
        end == to + 1,
        call_ensures(parse_i32, (b, from, to), fewer),
        call_ensures(parse_i32, (b, from, end), r),
    ensures
        ({
            let c = b@[to as int];
            let d = c - 0x30;
            &&& !(0x30 <= c <= 0x39) ==> r is None
            &&& 0x30 <= c <= 0x39 && from == to ==> r == Some(d as i32)
            &&& 0x30 <= c <= 0x39 ==> (fewer matches Some(v) ==> {
                let n = if b@[from as int] == 0x2d {
                    v * 10 - d
                } else {
                    v * 10 + d
                };
                &&& i32::MIN <= n <= i32::MAX ==> r == Some(n as i32)
                &&& !(i32::MIN <= n <= i32::MAX) ==> r is None
            })
        }),
{
    let s = b@.subrange(from as int, to as int);
    let t = b@.subrange(from as int, to + 1);
    let c = b@[to as int];
    assert(t =~= s.push(c));
    lemma_one_more(s, c);
    if s.len() > 0 {
        assert(t[0] == s[0]);
        assert(t.skip(1) =~= s.skip(1).push(c));
        lemma_one_more(s.skip(1), c);
        assert(s[0] == b@[from as int]);
    } else {
        assert(t[0] == c);
        assert(t.skip(1).len() == 0);
    }
}

/// Nothing is no number, and neither is a sign alone.
pub proof fn law_nothing_is_no_i32(b: &[u8], from: usize, to: usize, r: Option<i32>)
    requires
        from <= to <= b@.len(),
        call_ensures(parse_i32, (b, from, to), r),
        from == to || (to == from + 1 && !(0x30 <= b@[from as int] <= 0x39)),
    ensures
        r is None,
{
    let s = b@.subrange(from as int, to as int);
    if from < to {
        assert(s[0] == b@[from as int]);
        assert(s.skip(1).len() == 0);
    }
}

/// A plus sign before digits changes nothing.
pub proof fn law_a_plus_sign_changes_no_i32(
    b: &[u8],
    from: usize,
    to: usize,
    bare: Option<i32>,
    whole: Option<i32>,
)
    requires
        from + 1 < to <= b@.len(),
        b@[from as int] == 0x2b,
        is_digit(b@[from + 1]),
        call_ensures(parse_i32, (b, (from + 1) as usize, to), bare),
        call_ensures(parse_i32, (b, from, to), whole),
    ensures
        whole == bare,
{
    let s = b@.subrange(from as int, to as int);
    assert(s.skip(1) =~= b@.subrange(from + 1, to as int));
    assert(s.skip(1)[0] == b@[from + 1]);
    assert(s[0] == b@[from as int]);
}

/// A minus sign before digits gives the number below zero.
pub proof fn law_a_minus_sign_negates_i32(
    b: &[u8],
    from: usize,
    to: usize,
    bare: Option<i32>,
    whole: Option<i32>,
)
    requires
        from + 1 < to <= b@.len(),
        b@[from as int] == 0x2d,
        is_digit(b@[from + 1]),
        call_ensures(parse_i32, (b, (from + 1) as usize, to), bare),
        call_ensures(parse_i32, (b, from, to), whole),
    ensures
        bare matches Some(n) ==> whole == Some((-n) as i32),
        whole matches Some(n) ==> n <= 0 && (n > i32::MIN ==> bare == Some((-n) as i32)),
{
    let s = b@.subrange(from as int, to as int);
    assert(s.skip(1) =~= b@.subrange(from + 1, to as int));
    assert(s.skip(1)[0] == b@[from + 1]);
    assert(s[0] == b@[from as int]);
}

/// One digit more makes the number ten times as large and adds the digit; a number that does not fit
/// is none, and so is what ends in anything but a digit.
pub proof fn law_a_digit_more_counts_ten_times_i64(
    b: &[u8],
    from: usize,
    to: usize,
    end: usize,
    fewer: Option<i64>,
    r: Option<i64>,
)
    requires
        from <= to < end <= b@.len(),
        end == to + 1,
        call_ensures(parse_i64, (b, from, to), fewer),
        call_ensures(parse_i64, (b, from, end), r),
    ensures
        ({
            let c = b@[to as int];
            let d = c - 0x30;
            &&& !(0x30 <= c <= 0x39) ==> r is None
            &&& 0x30 <= c <= 0x39 && from == to ==> r == Some(d as i64)
            &&& 0x30 <= c <= 0x39 ==> (fewer matches Some(v) ==> {
                let n = if b@[from as int] == 0x2d {
                    v * 10 - d
                } else {
                    v * 10 + d
                };
                &&& i64::MIN <= n <= i64::MAX ==> r == Some(n as i64)
                &&& !(i64::MIN <= n <= i64::MAX) ==> r is None
            })
        }),
{
    let s = b@.subrange(from as int, to as int);
    let t = b@.subrange(from as int, to + 1);
    let c = b@[to as int];
    assert(t =~= s.push(c));
    lemma_one_more(s, c);
    if s.len() > 0 {
        assert(t[0] == s[0]);
        assert(t.skip(1) =~= s.skip(1).push(c));
        lemma_one_more(s.skip(1), c);
        assert(s[0] == b@[from as int]);
    } else {
        assert(t[0] == c);
        assert(t.skip(1).len() == 0);
    }
}

/// Nothing is no number, and neither is a sign alone.
pub proof fn law_nothing_is_no_i64(b: &[u8], from: usize, to: usize, r: Option<i64>)
    requires
        from <= to <= b@.len(),
        call_ensures(parse_i64, (b, from, to), r),
        from == to || (to == from + 1 && !(0x30 <= b@[from as int] <= 0x39)),
    ensures
        r is None,
{
    let s = b@.subrange(from as int, to as int);
    if from < to {
        assert(s[0] == b@[from as int]);
        assert(s.skip(1).len() == 0);
    }
}

/// A plus sign before digits changes nothing.
pub proof fn law_a_plus_sign_changes_no_i64(
    b: &[u8],
    from: usize,
    to: usize,
    bare: Option<i64>,
    whole: Option<i64>,
)
    requires
        from + 1 < to <= b@.len(),
        b@[from as int] == 0x2b,
        is_digit(b@[from + 1]),
        call_ensures(parse_i64, (b, (from + 1) as usize, to), bare),
        call_ensures(parse_i64, (b, from, to), whole),
    ensures
        whole == bare,
{
    let s = b@.subrange(from as int, to as int);
    assert(s.skip(1) =~= b@.subrange(from + 1, to as int));
    assert(s.skip(1)[0] == b@[from + 1]);
    assert(s[0] == b@[from as int]);
}

/// A minus sign before digits gives the number below zero.
pub proof fn law_a_minus_sign_negates_i64(
    b: &[u8],
    from: usize,
    to: usize,
    bare: Option<i64>,
    whole: Option<i64>,
)
    requires
        from + 1 < to <= b@.len(),
        b@[from as int] == 0x2d,
        is_digit(b@[from + 1]),
        call_ensures(parse_i64, (b, (from + 1) as usize, to), bare),
        call_ensures(parse_i64, (b, from, to), whole),
    ensures
        bare matches Some(n) ==> whole == Some((-n) as i64),
        whole matches Some(n) ==> n <= 0 && (n > i64::MIN ==> bare == Some((-n) as i64)),
{
    let s = b@.subrange(from as int, to as int);
    assert(s.skip(1) =~= b@.subrange(from + 1, to as int));
    assert(s.skip(1)[0] == b@[from + 1]);
    assert(s[0] == b@[from as int]);
}

} // verus!
