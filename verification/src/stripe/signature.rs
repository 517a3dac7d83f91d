//! The timestamp of a `Stripe-Signature` header (`t=...,v1=...`), read the
//! way Stripe's webhook check reads it: the header is split at each comma,
//! and the last item whose key is `t` gives the timestamp.
use vstd::prelude::*;

verus! {

/// How far, in seconds, a signature's timestamp may be from the current time.
pub const SIGNATURE_TOLERANCE: i64 = 300;

/// The items of a header between its commas, as `str::split(',')` gives them.
pub open spec fn header_items(s: Seq<char>) -> Seq<Seq<char>>
    decreases s.len(),
{
    if s.len() == 0 {
        seq![Seq::<char>::empty()]
    } else {
        let prev = header_items(s.drop_last());
        if s.last() == ',' {
            prev.push(Seq::<char>::empty())
        } else {
            prev.update(prev.len() - 1, prev.last().push(s.last()))
        }
    }
}

/// An item whose key, the text before its first `=`, is `t`.
pub open spec fn is_timestamp_item(item: Seq<char>) -> bool {
    item.len() >= 2 && item[0] == 't' && item[1] == '='
}

/// The value of the last item whose key is `t`, if there is one.
pub open spec fn last_timestamp_value(items: Seq<Seq<char>>) -> Option<Seq<char>>
    decreases items.len(),
{
    if items.len() == 0 {
        None
    } else if is_timestamp_item(items.last()) {
        Some(items.last().skip(2))
    } else {
        last_timestamp_value(items.drop_last())
    }
}

/// A non-empty run of ASCII digits.
pub open spec fn all_digits(d: Seq<char>) -> bool {
    d.len() > 0 && forall|i: int| 0 <= i < d.len() ==> '0' <= #[trigger] d[i] && d[i] <= '9'
}

/// The number that a run of digits writes in decimal.
pub open spec fn digits_value(d: Seq<char>) -> nat
    decreases d.len(),
{
    if d.len() == 0 {
        0
    } else {
        digits_value(d.drop_last()) * 10 + ((d.last() as int) - ('0' as int)) as nat
    }
}

/// The integer that a text writes as `i64::from_str` reads it (an optional
/// sign, then digits), whatever its size.
pub open spec fn integer_value(v: Seq<char>) -> Option<int> {
    if v.len() > 0 && v[0] == '-' && all_digits(v.skip(1)) {
        Some(-(digits_value(v.skip(1)) as int))
    } else if v.len() > 0 && v[0] == '+' && all_digits(v.skip(1)) {
        Some(digits_value(v.skip(1)) as int)
    } else if all_digits(v) {
        Some(digits_value(v) as int)
    } else {
        None
    }
}

/// The timestamp of a signature header: the integer in the value of its last
/// `t` item, when that value is an integer.
pub open spec fn signature_timestamp(header: Seq<char>) -> Option<int> {
    match last_timestamp_value(header_items(header)) {
        Some(v) => integer_value(v),
        None => None,
    }
}

/// A header whose timestamp is more than the tolerance away from `now`.
pub open spec fn timestamp_is_stale(header: Seq<char>, now: i64) -> bool {
    signature_timestamp(header) matches Some(t) && (now - t > SIGNATURE_TOLERANCE || t - now > SIGNATURE_TOLERANCE)
}

/// Whether the integer written by `header[start..end]` is stale against `now`.
fn integer_is_stale(header: &str, start: usize, end: usize, now: i64) -> (r: bool)
    requires
        start <= end <= header@.len(),
    ensures
        r == (integer_value(header@.subrange(start as int, end as int)) matches Some(t)
            && (now - t > SIGNATURE_TOLERANCE || t - now > SIGNATURE_TOLERANCE)),
{
    let ghost v = header@.subrange(start as int, end as int);
    if start == end {
        return false;
    }
    let first = header.get_char(start);
    let negative = first == '-';
    let ds: usize = if first == '-' || first == '+' { start + 1 } else { start };
    let ghost d = header@.subrange(ds as int, end as int);
    assert(v[0] == first);
    assert(first == '-' || first == '+' ==> v.skip(1) =~= d);
    assert(!(first == '-' || first == '+') ==> v =~= d);
    assert((first == '-' || first == '+') ==> !all_digits(v)) by {
        if first == '-' || first == '+' {
            assert(!('0' <= v[0] && v[0] <= '9'));
        }
    }
    if ds == end {
        assert(!all_digits(d));
        return false;
    }
    let cap: u128 = 10_000_000_000_000_000_000;
    let mut acc: u128 = 0;
    let mut big = false;
    let mut j: usize = ds;
    assert(header@.subrange(ds as int, ds as int) =~= Seq::<char>::empty());
    while j < end
        invariant
            ds <= j <= end <= header@.len(),
            d == header@.subrange(ds as int, end as int),
            v == header@.subrange(start as int, end as int),
            v.len() > 0 && v[0] == first,
            negative == (first == '-'),
            first == '-' || first == '+' ==> v.skip(1) == d && !all_digits(v),
            !(first == '-' || first == '+') ==> v == d,
            forall|i: int| ds <= i < j ==> '0' <= #[trigger] header@[i] && header@[i] <= '9',
            !big ==> acc == digits_value(header@.subrange(ds as int, j as int)) && acc <= cap,
            big ==> digits_value(header@.subrange(ds as int, j as int)) > cap,
            cap == 10_000_000_000_000_000_000u128,
        decreases end - j,
    {
        let c = header.get_char(j);
        if !('0' <= c && c <= '9') {
            assert(d[j - ds] == c);
            assert(!all_digits(d));
            return false;
        }
        let ghost prev = header@.subrange(ds as int, j as int);
        let ghost next = header@.subrange(ds as int, j + 1);
        assert(next.drop_last() =~= prev);
        assert(next.last() == c);
        let digit: u128 = ((c as u32) - ('0' as u32)) as u128;
        assert(digits_value(next) == digits_value(prev) * 10 + digit);
        if !big {
            let n = acc * 10 + digit;
            if n > cap {
                big = true;
            } else {
                acc = n;
            }
        }
        j = j + 1;
    }
    assert(header@.subrange(ds as int, j as int) =~= d);
    assert(all_digits(d));
    if big {
        true
    } else {
        let t: i128 = if negative { -(acc as i128) } else { acc as i128 };
        assert(integer_value(v) == Some(t as int));
        let diff: i128 = (now as i128) - t;
        diff > 300 || diff < -300
    }
}

/// Whether the timestamp of a signature header is more than
/// `SIGNATURE_TOLERANCE` seconds away from `now`, as `timestamp_is_stale`
/// says. Such a signature is refused without checking it.
pub fn signature_timestamp_is_stale(header: &str, now: i64) -> (r: bool)
    ensures
        r == timestamp_is_stale(header@, now),
{
    let n = header.unicode_len();
    let mut i: usize = 0;
    let mut cur: usize = 0;
    let mut found = false;
    let mut vs: usize = 0;
    let mut ve: usize = 0;
    proof {
        assert(header@.take(0) =~= Seq::<char>::empty());
        assert(header@.subrange(0, 0) =~= Seq::<char>::empty());
    }
    while i < n
        invariant
            n == header@.len(),
            cur <= i <= n,
            header_items(header@.take(i as int)).len() >= 1,
            header_items(header@.take(i as int)).last() == header@.subrange(cur as int, i as int),
            found ==> vs <= ve <= n,
            last_timestamp_value(header_items(header@.take(i as int)).drop_last())
                == (if found { Some(header@.subrange(vs as int, ve as int)) } else { None::<Seq<char>> }),
        decreases n - i,
    {
        let c = header.get_char(i);
        let ghost s0 = header@.take(i as int);
        let ghost s1 = header@.take(i + 1);
        let ghost prev = header_items(s0);
        proof {
            assert(s1.drop_last() =~= s0);
            assert(s1.last() == c);
            assert(s1.len() > 0);
        }
        if c == ',' {
            let ts = i - cur >= 2 && header.get_char(cur) == 't' && header.get_char(cur + 1) == '=';
            proof {
                let item = header@.subrange(cur as int, i as int);
                assert(header_items(s1) == prev.push(Seq::<char>::empty()));
                assert(header_items(s1).drop_last() =~= prev);
                assert(prev.drop_last() == prev.subrange(0, prev.len() - 1));
                if i - cur >= 2 {
                    assert(item[0] == header@[cur as int]);
                    assert(item[1] == header@[cur + 1]);
                    assert(item.skip(2) =~= header@.subrange(cur + 2, i as int));
                }
                assert(ts == is_timestamp_item(item));
                assert(header@.subrange(i + 1, i + 1) =~= Seq::<char>::empty());
            }
            if ts {
                found = true;
                vs = cur + 2;
                ve = i;
            }
            cur = i + 1;
        } else {
            proof {
                let last = prev.last();
                assert(header_items(s1) == prev.update(prev.len() - 1, last.push(c)));
                assert(header_items(s1).drop_last() =~= prev.drop_last());
                assert(header@.subrange(cur as int, i + 1) =~= last.push(c));
            }
        }
        i = i + 1;
    }
    proof {
        assert(header@.take(n as int) =~= header@);
    }
    let ts = n - cur >= 2 && header.get_char(cur) == 't' && header.get_char(cur + 1) == '=';
    proof {
        let items = header_items(header@);
        let item = header@.subrange(cur as int, n as int);
        if n - cur >= 2 {
            assert(item[0] == header@[cur as int]);
            assert(item[1] == header@[cur + 1]);
            assert(item.skip(2) =~= header@.subrange(cur + 2, n as int));
        }
        assert(ts == is_timestamp_item(item));
        assert(items.last() == item);
    }
    if ts {
        integer_is_stale(header, cur + 2, n, now)
    } else if found {
        integer_is_stale(header, vs, ve, now)
    } else {
        false
    }
}

} // verus!
