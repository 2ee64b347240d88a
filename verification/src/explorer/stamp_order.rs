//! The order of time stamps: for the years 1970 to 9999, the text of an earlier instant
//! comes first in character order, so that sorting logs by their stamps sorts them by time.
use vstd::prelude::*;

use crate::explorer::calendar::{lemma_date_order, lemma_year_from_epoch};
use crate::explorer::logger::{file_timestamp_v, iso8601_v, split_v};
use crate::text::{decimal, digit_char, padded_v, zero_padded};

verus! {

/// `a` comes before `b` in character order: at the first place where they differ, `a`
/// has the smaller character, or `a` is a proper beginning of `b`.
pub open spec fn text_before(a: Seq<char>, b: Seq<char>) -> bool {
    ||| exists|i: int|
        0 <= i < a.len() && i < b.len() && #[trigger] a.take(i) == b.take(i) && (a[i] as int) < (
        b[i] as int)
    ||| (a.len() < b.len() && a == b.take(a.len() as int))
}

/// Ten to the power `w`.
pub open spec fn pow10(w: nat) -> nat
    decreases w,
{
    if w == 0 {
        1
    } else {
        10 * pow10((w - 1) as nat)
    }
}

/// The last `w` decimal digits of `n`, most significant first.
pub open spec fn digits_w(n: nat, w: nat) -> Seq<char>
    decreases w,
{
    if w == 0 {
        Seq::empty()
    } else {
        digits_w(n / 10, (w - 1) as nat).push(digit_char(n % 10))
    }
}

proof fn lemma_digits_len(n: nat, w: nat)
    ensures
        digits_w(n, w).len() == w,
    decreases w,
{
    if w > 0 {
        lemma_digits_len(n / 10, (w - 1) as nat);
    }
}

proof fn lemma_digits_of_zero(w: nat)
    ensures
        digits_w(0, w) == Seq::new(w, |i: int| '0'),
    decreases w,
{
    if w > 0 {
        lemma_digits_of_zero((w - 1) as nat);
        assert(digits_w(0, w) =~= Seq::new(w, |i: int| '0'));
    }
}

/// A number below `10^w`, padded with zeros to `w` characters, is its last `w` digits.
proof fn lemma_padded_digits(n: nat, w: nat)
    requires
        w >= 1,
        n < pow10(w),
    ensures
        zero_padded(decimal(n), w) == digits_w(n, w),
    decreases w,
{
    lemma_digits_len(n, w);
    if n < 10 {
        lemma_digits_of_zero((w - 1) as nat);
        assert(zero_padded(decimal(n), w) =~= digits_w(n, w));
    } else {
        let w1 = (w - 1) as nat;
        assert(w1 >= 1) by {
            if w1 == 0 {
                assert(pow10(w) == 10) by {
                    reveal_with_fuel(pow10, 2);
                }
            }
        }
        assert(n / 10 < pow10(w1));
        lemma_padded_digits(n / 10, w1);
        lemma_digits_len(n / 10, w1);
        let s = decimal(n / 10);
        assert(decimal(n) == s.push(digit_char(n % 10)));
        assert(s.len() <= w1);
        if s.len() < w1 {
            assert(zero_padded(s.push(digit_char(n % 10)), w) =~= zero_padded(s, w1).push(
                digit_char(n % 10),
            ));
        } else {
            assert(zero_padded(s.push(digit_char(n % 10)), w) =~= zero_padded(s, w1).push(
                digit_char(n % 10),
            ));
        }
    }
}

/// Digits are in character order.
proof fn lemma_digit_order(a: nat, b: nat)
    requires
        a < b < 10,
    ensures
        (digit_char(a) as int) < (digit_char(b) as int),
{
}

/// Extending two texts of one length, the first of which comes first, or two equal texts
/// by texts the first of which comes first, keeps the order.
proof fn lemma_extend(a: Seq<char>, b: Seq<char>, c: Seq<char>, d: Seq<char>)
    requires
        a.len() == b.len(),
        c.len() == d.len(),
        text_before(a, b) || (a == b && text_before(c, d)),
    ensures
        text_before(a + c, b + d),
{
    if text_before(a, b) {
        let i = choose|i: int|
            0 <= i < a.len() && i < b.len() && #[trigger] a.take(i) == b.take(i) && (a[i] as int)
                < (b[i] as int);
        assert((a + c).take(i) =~= a.take(i));
        assert((b + d).take(i) =~= b.take(i));
        assert((a + c)[i] == a[i]);
        assert((b + d)[i] == b[i]);
    } else {
        let i = choose|i: int|
            0 <= i < c.len() && i < d.len() && #[trigger] c.take(i) == d.take(i) && (c[i] as int)
                < (d[i] as int);
        let j = a.len() + i;
        assert((a + c).take(j) =~= a + c.take(i));
        assert((b + d).take(j) =~= b + d.take(i));
        assert((a + c)[j] == c[i]);
        assert((b + d)[j] == d[i]);
    }
}

/// Of two numbers below `10^w`, the smaller has the earlier last `w` digits.
proof fn lemma_digits_order(a: nat, b: nat, w: nat)
    requires
        a < b < pow10(w),
    ensures
        text_before(digits_w(a, w), digits_w(b, w)),
    decreases w,
{
    if w == 0 {
        assert(false);
    } else {
        let w1 = (w - 1) as nat;
        lemma_digits_len(a / 10, w1);
        lemma_digits_len(b / 10, w1);
        if a / 10 < b / 10 {
            lemma_digits_order(a / 10, b / 10, w1);
        } else {
            assert(a / 10 == b / 10);
            lemma_digit_order(a % 10, b % 10);
            assert(seq![digit_char(a % 10)].take(0) =~= seq![digit_char(b % 10)].take(0));
        }
        assert(digits_w(a, w) =~= digits_w(a / 10, w1) + seq![digit_char(a % 10)]);
        assert(digits_w(b, w) =~= digits_w(b / 10, w1) + seq![digit_char(b % 10)]);
        lemma_extend(
            digits_w(a / 10, w1),
            digits_w(b / 10, w1),
            seq![digit_char(a % 10)],
            seq![digit_char(b % 10)],
        );
    }
}

/// Of two numbers below `10^w`, the smaller, padded with zeros to `w` characters, comes
/// first; both take `w` characters.
pub proof fn lemma_padded_order(a: int, b: int, w: nat)
    requires
        w >= 1,
        0 <= a < b,
        b < pow10(w),
    ensures
        text_before(padded_v(a, w), padded_v(b, w)),
        padded_v(a, w).len() == w,
        padded_v(b, w).len() == w,
{
    lemma_padded_digits(a as nat, w);
    lemma_padded_digits(b as nat, w);
    lemma_digits_len(a as nat, w);
    lemma_digits_len(b as nat, w);
    lemma_digits_order(a as nat, b as nat, w);
}

/// A number below `10^w`, padded with zeros, takes `w` characters.
pub proof fn lemma_padded_width(n: int, w: nat)
    requires
        w >= 1,
        0 <= n < pow10(w),
    ensures
        padded_v(n, w).len() == w,
{
    lemma_padded_digits(n as nat, w);
    lemma_digits_len(n as nat, w);
}

/// The parts of `YYYY-MM-DDTHH:MM:SS.mmmZ`, in order: the fields at even places, the
/// separators between them at odd ones.
pub open spec fn iso_part(p: (i64, i64, i64, i64, i64, i64, i64), n: nat) -> Seq<char> {
    if n == 0 {
        padded_v(p.0 as int, 4)
    } else if n == 1 {
        "-"@
    } else if n == 2 {
        padded_v(p.1 as int, 2)
    } else if n == 3 {
        "-"@
    } else if n == 4 {
        padded_v(p.2 as int, 2)
    } else if n == 5 {
        "T"@
    } else if n == 6 {
        padded_v(p.3 as int, 2)
    } else if n == 7 {
        ":"@
    } else if n == 8 {
        padded_v(p.4 as int, 2)
    } else if n == 9 {
        ":"@
    } else if n == 10 {
        padded_v(p.5 as int, 2)
    } else if n == 11 {
        "."@
    } else if n == 12 {
        padded_v(p.6 as int, 3)
    } else {
        "Z"@
    }
}

/// The first `n + 1` parts of the time stamp.
pub open spec fn iso_prefix(p: (i64, i64, i64, i64, i64, i64, i64), n: nat) -> Seq<char>
    decreases n,
{
    if n == 0 {
        iso_part(p, 0)
    } else {
        iso_prefix(p, (n - 1) as nat) + iso_part(p, n)
    }
}

/// The fields of a date and time of the years 0 to 9999 that fit their widths.
/// `p` is not after `q`: at the first field where they differ, `p` has the smaller value.
pub open spec fn fields_not_after(
    p: (i64, i64, i64, i64, i64, i64, i64),
    q: (i64, i64, i64, i64, i64, i64, i64),
) -> bool {
    ||| p.0 < q.0
    ||| p.0 == q.0 && p.1 < q.1
    ||| p.0 == q.0 && p.1 == q.1 && p.2 < q.2
    ||| p.0 == q.0 && p.1 == q.1 && p.2 == q.2 && p.3 < q.3
    ||| p.0 == q.0 && p.1 == q.1 && p.2 == q.2 && p.3 == q.3 && p.4 < q.4
    ||| p.0 == q.0 && p.1 == q.1 && p.2 == q.2 && p.3 == q.3 && p.4 == q.4 && p.5 < q.5
    ||| p.0 == q.0 && p.1 == q.1 && p.2 == q.2 && p.3 == q.3 && p.4 == q.4 && p.5 == q.5 && p.6
        <= q.6
}

/// The dates and times of two counted instants on or after the epoch come in their order,
/// and each field fits its width (for years up to 9999).
proof fn lemma_split_order(
    s1: int,
    m1: int,
    p: (i64, i64, i64, i64, i64, i64, i64),
    s2: int,
    m2: int,
    q: (i64, i64, i64, i64, i64, i64, i64),
)
    requires
        split_v(s1, m1, p),
        split_v(s2, m2, q),
        0 <= s1,
        0 <= m1 < 1000,
        0 <= m2 < 1000,
        s1 * 1000 + m1 <= s2 * 1000 + m2,
        q.0 <= 9999,
    ensures
        fits_widths(p),
        fits_widths(q),
        fields_not_after(p, q),
{
    assert(s1 <= s2);
    let sod1 = s1 % 86400;
    let sod2 = s2 % 86400;
    assert(s1 / 86400 <= s2 / 86400);
    lemma_year_from_epoch(p.0 as int, p.1 as int, p.2 as int);
    lemma_year_from_epoch(q.0 as int, q.1 as int, q.2 as int);
    lemma_date_order(p.0 as int, p.1 as int, p.2 as int, q.0 as int, q.1 as int, q.2 as int);
    if p.0 == q.0 && p.1 == q.1 && p.2 == q.2 {
        assert(s1 / 86400 == s2 / 86400);
        assert(sod1 <= sod2);
        if p.3 == q.3 && p.4 == q.4 && p.5 == q.5 {
            assert(sod1 == sod2);
            assert(s1 == s2);
        }
    }
}

pub open spec fn fits_widths(p: (i64, i64, i64, i64, i64, i64, i64)) -> bool {
    &&& 0 <= p.0 <= 9999
    &&& 0 <= p.1 < 100
    &&& 0 <= p.2 < 100
    &&& 0 <= p.3 < 100
    &&& 0 <= p.4 < 100
    &&& 0 <= p.5 < 100
    &&& 0 <= p.6 < 1000
}

proof fn lemma_stamp_is_prefix(p: (i64, i64, i64, i64, i64, i64, i64))
    ensures
        iso8601_v(p) == iso_prefix(p, 13),
{
    reveal_with_fuel(iso_prefix, 14);
}

proof fn lemma_part_widths(
    p: (i64, i64, i64, i64, i64, i64, i64),
    q: (i64, i64, i64, i64, i64, i64, i64),
    n: nat,
)
    requires
        fits_widths(p),
        fits_widths(q),
    ensures
        iso_part(p, n).len() == iso_part(q, n).len(),
{
    assert(pow10(2) == 100 && pow10(3) == 1000 && pow10(4) == 10000) by {
        reveal_with_fuel(pow10, 5);
    }
    lemma_padded_width(p.0 as int, 4);
    lemma_padded_width(q.0 as int, 4);
    lemma_padded_width(p.1 as int, 2);
    lemma_padded_width(q.1 as int, 2);
    lemma_padded_width(p.2 as int, 2);
    lemma_padded_width(q.2 as int, 2);
    lemma_padded_width(p.3 as int, 2);
    lemma_padded_width(q.3 as int, 2);
    lemma_padded_width(p.4 as int, 2);
    lemma_padded_width(q.4 as int, 2);
    lemma_padded_width(p.5 as int, 2);
    lemma_padded_width(q.5 as int, 2);
    lemma_padded_width(p.6 as int, 3);
    lemma_padded_width(q.6 as int, 3);
}

proof fn lemma_prefix_widths(
    p: (i64, i64, i64, i64, i64, i64, i64),
    q: (i64, i64, i64, i64, i64, i64, i64),
    n: nat,
)
    requires
        fits_widths(p),
        fits_widths(q),
    ensures
        iso_prefix(p, n).len() == iso_prefix(q, n).len(),
    decreases n,
{
    lemma_part_widths(p, q, n);
    if n > 0 {
        lemma_prefix_widths(p, q, (n - 1) as nat);
    }
}

proof fn lemma_prefix_same(
    p: (i64, i64, i64, i64, i64, i64, i64),
    q: (i64, i64, i64, i64, i64, i64, i64),
    n: nat,
)
    requires
        forall|m: nat| m <= n ==> #[trigger] iso_part(p, m) == iso_part(q, m),
    ensures
        iso_prefix(p, n) == iso_prefix(q, n),
    decreases n,
{
    assert(iso_part(p, n) == iso_part(q, n));
    if n > 0 {
        lemma_prefix_same(p, q, (n - 1) as nat);
    }
}

/// Where the parts agree before part `k` and part `k` of `p` comes first, the first `n + 1`
/// parts of `p` come first, for each `n` from `k` on.
proof fn lemma_prefix_order(
    p: (i64, i64, i64, i64, i64, i64, i64),
    q: (i64, i64, i64, i64, i64, i64, i64),
    k: nat,
    n: nat,
)
    requires
        fits_widths(p),
        fits_widths(q),
        k <= n,
        forall|m: nat| m < k ==> #[trigger] iso_part(p, m) == iso_part(q, m),
        text_before(iso_part(p, k), iso_part(q, k)),
    ensures
        text_before(iso_prefix(p, n), iso_prefix(q, n)),
    decreases n,
{
    lemma_part_widths(p, q, n);
    if n == k {
        if n > 0 {
            lemma_prefix_same(p, q, (n - 1) as nat);
            lemma_prefix_widths(p, q, (n - 1) as nat);
            lemma_extend(
                iso_prefix(p, (n - 1) as nat),
                iso_prefix(q, (n - 1) as nat),
                iso_part(p, n),
                iso_part(q, n),
            );
        }
    } else {
        lemma_prefix_order(p, q, k, (n - 1) as nat);
        lemma_prefix_widths(p, q, (n - 1) as nat);
        lemma_extend(
            iso_prefix(p, (n - 1) as nat),
            iso_prefix(q, (n - 1) as nat),
            iso_part(p, n),
            iso_part(q, n),
        );
    }
}

/// The ISO 8601 stamps of two instants on or after the epoch, in the years up to 9999,
/// come in the order of the instants at millisecond resolution: the stamp of the earlier
/// one comes first in character order, or the two are the same; both have one length.
/// (`s1`, `s2` are the seconds counted from the epoch, `m1`, `m2` the milliseconds
/// beyond them, and `p`, `q` the dates and times they split into.)
pub proof fn law_stamp_order(
    s1: int,
    m1: int,
    p: (i64, i64, i64, i64, i64, i64, i64),
    s2: int,
    m2: int,
    q: (i64, i64, i64, i64, i64, i64, i64),
)
    requires
        split_v(s1, m1, p),
        split_v(s2, m2, q),
        0 <= s1,
        0 <= m1 < 1000,
        0 <= m2 < 1000,
        s1 * 1000 + m1 <= s2 * 1000 + m2,
        q.0 <= 9999,
    ensures
        iso8601_v(p) == iso8601_v(q) || text_before(iso8601_v(p), iso8601_v(q)),
        iso8601_v(p).len() == iso8601_v(q).len(),
{
    lemma_split_order(s1, m1, p, s2, m2, q);
    assert(pow10(2) == 100 && pow10(3) == 1000 && pow10(4) == 10000) by {
        reveal_with_fuel(pow10, 5);
    }
    lemma_stamp_is_prefix(p);
    lemma_stamp_is_prefix(q);
    lemma_prefix_widths(p, q, 13);
    if p.0 < q.0 {
        lemma_padded_order(p.0 as int, q.0 as int, 4);
        lemma_prefix_order(p, q, 0, 13);
    } else if p.1 < q.1 {
        lemma_padded_order(p.1 as int, q.1 as int, 2);
        lemma_prefix_order(p, q, 2, 13);
    } else if p.2 < q.2 {
        lemma_padded_order(p.2 as int, q.2 as int, 2);
        lemma_prefix_order(p, q, 4, 13);
    } else if p.3 < q.3 {
        lemma_padded_order(p.3 as int, q.3 as int, 2);
        lemma_prefix_order(p, q, 6, 13);
    } else if p.4 < q.4 {
        lemma_padded_order(p.4 as int, q.4 as int, 2);
        lemma_prefix_order(p, q, 8, 13);
    } else if p.5 < q.5 {
        lemma_padded_order(p.5 as int, q.5 as int, 2);
        lemma_prefix_order(p, q, 10, 13);
    } else if p.6 < q.6 {
        lemma_padded_order(p.6 as int, q.6 as int, 3);
        lemma_prefix_order(p, q, 12, 13);
    } else {
        assert(p == q);
    }
}


/// No digit is a letter `T`, a `:` or a `-`.
proof fn lemma_digits_plain(n: nat, w: nat)
    ensures
        forall|i: int|
            0 <= i < w ==> #[trigger] digits_w(n, w)[i] != 'T' && digits_w(n, w)[i] != ':',
    decreases w,
{
    lemma_digits_len(n, w);
    if w > 0 {
        lemma_digits_plain(n / 10, (w - 1) as nat);
        lemma_digits_len(n / 10, (w - 1) as nat);
        assert forall|i: int| 0 <= i < w implies #[trigger] digits_w(n, w)[i] != 'T' && digits_w(
            n,
            w,
        )[i] != ':' by {
            if i < w - 1 {
                assert(digits_w(n, w)[i] == digits_w(n / 10, (w - 1) as nat)[i]);
            }
        }
    }
}

/// A field padded to its width holds neither `T` nor `:`.
proof fn lemma_padded_plain(n: int, w: nat)
    requires
        w >= 1,
        0 <= n < pow10(w),
    ensures
        padded_v(n, w).len() == w,
        forall|i: int| 0 <= i < w ==> #[trigger] padded_v(n, w)[i] != 'T' && padded_v(n, w)[i] != ':',
{
    lemma_padded_digits(n as nat, w);
    lemma_digits_len(n as nat, w);
    lemma_digits_plain(n as nat, w);
}

/// The first 19 characters of a text, with `T` written as `_` and each `:` as `-`.
pub open spec fn file_form_v(s: Seq<char>) -> Seq<char> {
    Seq::new(
        19,
        |i: int|
            if s[i] == 'T' {
                '_'
            } else if s[i] == ':' {
                '-'
            } else {
                s[i]
            },
    )
}

/// For a date and time of the years 0 to 9999, the file name's stamp is the log's stamp
/// cut to its first 19 characters, with `T` written as `_` and each `:` as `-`.
pub proof fn law_file_stamp_from_iso(p: (i64, i64, i64, i64, i64, i64, i64))
    requires
        fits_widths(p),
    ensures
        file_timestamp_v(p) == file_form_v(iso8601_v(p)),
{
    reveal_strlit("-");
    reveal_strlit("T");
    reveal_strlit(":");
    reveal_strlit(".");
    reveal_strlit("Z");
    reveal_strlit("_");
    assert(pow10(2) == 100 && pow10(3) == 1000 && pow10(4) == 10000) by {
        reveal_with_fuel(pow10, 5);
    }
    let a = padded_v(p.0 as int, 4);
    let b = padded_v(p.1 as int, 2);
    let c = padded_v(p.2 as int, 2);
    let d = padded_v(p.3 as int, 2);
    let e = padded_v(p.4 as int, 2);
    let f = padded_v(p.5 as int, 2);
    lemma_padded_plain(p.0 as int, 4);
    lemma_padded_plain(p.1 as int, 2);
    lemma_padded_plain(p.2 as int, 2);
    lemma_padded_plain(p.3 as int, 2);
    lemma_padded_plain(p.4 as int, 2);
    lemma_padded_plain(p.5 as int, 2);
    lemma_padded_width(p.6 as int, 3);
    let date = a + "-"@ + b + "-"@ + c;
    let iso = iso8601_v(p);
    let file = file_timestamp_v(p);
    assert(date.len() == 10);
    assert forall|i: int| 0 <= i < 10 implies iso[i] == date[i] && file[i] == date[i]
        && date[i] != 'T' && date[i] != ':' by {
        if i < 4 {
            assert(date[i] == a[i]);
        } else if i == 4 {
        } else if i < 7 {
            assert(date[i] == b[i - 5]);
        } else if i == 7 {
        } else {
            assert(date[i] == c[i - 8]);
        }
    }
    assert(iso[10] == 'T' && file[10] == '_');
    assert forall|i: int| 11 <= i < 19 implies (iso[i] == ':' && file[i] == '-') || (iso[i]
        == file[i] && iso[i] != 'T' && iso[i] != ':') by {
        if i < 13 {
            assert(iso[i] == d[i - 11] && file[i] == d[i - 11]);
        } else if i == 13 {
        } else if i < 16 {
            assert(iso[i] == e[i - 14] && file[i] == e[i - 14]);
        } else if i == 16 {
        } else {
            assert(iso[i] == f[i - 17] && file[i] == f[i - 17]);
        }
    }
    assert(file =~= file_form_v(iso));
}

} // verus!
