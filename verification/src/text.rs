//! Decimal text of integers: how they are printed and read back.
use vstd::prelude::*;
use vstd::string::*;

verus! {

pub open spec fn digit_char(d: nat) -> char {
    (48 + d) as char
}

pub open spec fn is_digit(c: char) -> bool {
    '0' <= c && c <= '9'
}

pub open spec fn digit_value(c: char) -> nat {
    (c as nat - 48) as nat
}

/// The decimal digits of `n`, most significant first, with no leading zero.
pub open spec fn digits_of(n: nat) -> Seq<char>
    decreases n,
{
    if n < 10 {
        seq![digit_char(n)]
    } else {
        digits_of(n / 10).push(digit_char(n % 10))
    }
}

/// How an integer is printed: a minus sign before the digits of a negative one.
pub open spec fn decimal(n: int) -> Seq<char> {
    if n < 0 {
        seq!['-'] + digits_of((-n) as nat)
    } else {
        digits_of(n as nat)
    }
}

/// The number that a string of decimal digits stands for.
pub open spec fn digits_value(s: Seq<char>) -> nat
    decreases s.len(),
{
    if s.len() == 0 {
        0
    } else {
        digits_value(s.drop_last()) * 10 + digit_value(s.last())
    }
}

pub open spec fn all_digits(s: Seq<char>) -> bool {
    forall|i: int| 0 <= i < s.len() ==> is_digit(#[trigger] s[i])
}

/// How an integer is read: an optional `+` or `-`, then one or more decimal
/// digits and nothing else.
pub open spec fn parse_int_spec(s: Seq<char>) -> Option<int> {
    let signed = s.len() > 0 && (s[0] == '-' || s[0] == '+');
    let body = if signed {
        s.drop_first()
    } else {
        s
    };
    if body.len() > 0 && all_digits(body) {
        if signed && s[0] == '-' {
            Some(-digits_value(body))
        } else {
            Some(digits_value(body) as int)
        }
    } else {
        None
    }
}

/// The integer that `s` reads as, where it lies in `lo ..= hi`.
pub open spec fn parse_in_range(s: Seq<char>, lo: int, hi: int) -> Option<int> {
    match parse_int_spec(s) {
        Some(n) => if lo <= n <= hi {
            Some(n)
        } else {
            None
        },
        None => None,
    }
}

proof fn lemma_digits_of_shape(n: nat)
    ensures
        digits_of(n).len() > 0,
        all_digits(digits_of(n)),
        digits_value(digits_of(n)) == n,
    decreases n,
{
    if n < 10 {
        let s = digits_of(n);
        assert(s.drop_last() =~= Seq::<char>::empty());
        assert(digits_value(Seq::<char>::empty()) == 0);
        assert(digit_value(digit_char(n)) == n);
        assert(digits_value(s) == digits_value(s.drop_last()) * 10 + digit_value(s.last()));
    } else {
        lemma_digits_of_shape(n / 10);
        let s = digits_of(n);
        assert(s.drop_last() =~= digits_of(n / 10));
        assert(digit_value(digit_char(n % 10)) == n % 10);
        assert(n == (n / 10) * 10 + n % 10);
        assert(digits_value(s) == digits_value(s.drop_last()) * 10 + digit_value(s.last()));
        assert(all_digits(s)) by {
            assert forall|i: int| 0 <= i < s.len() implies is_digit(#[trigger] s[i]) by {
                if i < s.len() - 1 {
                    assert(s[i] == digits_of(n / 10)[i]);
                }
            }
        }
    }
}

/// Reading back the text of any integer gives that integer.
pub proof fn lemma_parse_decimal(n: int)
    ensures
        parse_int_spec(decimal(n)) == Some(n),
{
    if n < 0 {
        let m = (-n) as nat;
        lemma_digits_of_shape(m);
        let s = decimal(n);
        assert(s.drop_first() =~= digits_of(m));
    } else {
        lemma_digits_of_shape(n as nat);
        let s = decimal(n);
        assert(is_digit(s[0]));
    }
}

proof fn lemma_digits_value_prefix(s: Seq<char>, i: int)
    requires
        0 <= i <= s.len(),
    ensures
        digits_value(s.take(i)) <= digits_value(s),
    decreases s.len(),
{
    if i < s.len() {
        lemma_digits_value_prefix(s.drop_last(), i);
        assert(s.drop_last().take(i) =~= s.take(i));
    } else {
        assert(s.take(i) =~= s);
    }
}

fn digit_text(d: u64) -> (r: &'static str)
    requires
        d < 10,
    ensures
        r@ == seq![digit_char(d as nat)],
{
    proof {
        reveal_strlit("0");
        reveal_strlit("1");
        reveal_strlit("2");
        reveal_strlit("3");
        reveal_strlit("4");
        reveal_strlit("5");
        reveal_strlit("6");
        reveal_strlit("7");
        reveal_strlit("8");
        reveal_strlit("9");
    }
    if d == 0 {
        "0"
    } else if d == 1 {
        "1"
    } else if d == 2 {
        "2"
    } else if d == 3 {
        "3"
    } else if d == 4 {
        "4"
    } else if d == 5 {
        "5"
    } else if d == 6 {
        "6"
    } else if d == 7 {
        "7"
    } else if d == 8 {
        "8"
    } else {
        "9"
    }
}

fn digits_text(n: u64) -> (r: String)
    ensures
        r@ == digits_of(n as nat),
    decreases n,
{
    if n < 10 {
        String::from_str(digit_text(n))
    } else {
        let mut s = digits_text(n / 10);
        s.append(digit_text(n % 10));
        s
    }
}

/// The decimal text of a signed integer, as `{}` prints it.
pub fn render_i64(n: i64) -> (r: String)
    ensures
        r@ == decimal(n as int),
{
    if n < 0 {
        let magnitude: u64 = if n == i64::MIN {
            9223372036854775808u64
        } else {
            (-n) as u64
        };
        let mut s = String::from_str("-");
        proof {
            reveal_strlit("-");
        }
        let digits = digits_text(magnitude);
        s.append(digits.as_str());
        s
    } else {
        digits_text(n as u64)
    }
}

/// Appends the decimal text of `n` to `out`.
pub fn push_i64(out: &mut String, n: i64)
    ensures
        final(out)@ == old(out)@ + decimal(n as int),
{
    let t = render_i64(n);
    out.append(t.as_str());
}

/// Reads a signed integer in `lo ..= hi` as `str::parse` does: an optional
/// sign, then decimal digits only.
pub fn parse_int_in(s: &str, lo: i64, hi: i64) -> (r: Option<i64>)
    requires
        lo <= 0 <= hi,
    ensures
        match r {
            Some(n) => parse_in_range(s@, lo as int, hi as int) == Some(n as int),
            None => parse_in_range(s@, lo as int, hi as int) is None,
        },
{
    let len = s.unicode_len();
    if len == 0 {
        return None;
    }
    let first = s.get_char(0);
    let signed = first == '-' || first == '+';
    let negative = first == '-';
    let start: usize = if signed {
        1
    } else {
        0
    };
    let ghost body = if signed {
        s@.drop_first()
    } else {
        s@
    };
    if start == len {
        return None;
    }
    let limit: u128 = 9223372036854775808u128;
    let mut acc: u128 = 0;
    let mut i: usize = start;
    while i < len
        invariant
            len == s@.len(),
            len > 0,
            lo <= 0 <= hi,
            (start == 1) == (s@[0] == '-' || s@[0] == '+'),
            negative == (s@[0] == '-'),
            start <= i <= len,
            start == 0 || start == 1,
            body == s@.subrange(start as int, len as int),
            body == (if start == 1 {
                s@.drop_first()
            } else {
                s@
            }),
            acc == digits_value(body.take(i - start)),
            acc <= limit,
            limit == 9223372036854775808u128,
            all_digits(body.take(i - start)),
        decreases len - i,
    {
        let c = s.get_char(i);
        assert(body.take(i - start + 1).drop_last() =~= body.take(i - start));
        assert(body[i - start] == c);
        if !('0' <= c && c <= '9') {
            assert(!all_digits(body));
            return None;
        }
        let d = (c as u32 - 48) as u128;
        assert(d == digit_value(c));
        assert(acc * 10 + d <= limit * 10 + 9) by (nonlinear_arith)
            requires
                acc <= limit,
                d <= 9,
        ;
        acc = acc * 10 + d;
        assert(body.take(i - start + 1).last() == c);
        assert(digits_value(body.take(i - start + 1)) == digits_value(
            body.take(i - start + 1).drop_last(),
        ) * 10 + digit_value(body.take(i - start + 1).last()));
        assert(all_digits(body.take(i - start + 1))) by {
            let t = body.take(i - start + 1);
            assert forall|j: int| 0 <= j < t.len() implies is_digit(#[trigger] t[j]) by {
                if j < t.len() - 1 {
                    assert(t[j] == body.take(i - start)[j]);
                }
            }
        }
        if acc > limit {
            proof {
                lemma_digits_value_prefix(body, i - start + 1);
            }
            return None;
        }
        i = i + 1;
    }
    assert(body.take(len - start) =~= body);
    if negative {
        let v = acc as i128;
        if -v < lo as i128 {
            None
        } else {
            Some((-v) as i64)
        }
    } else {
        if acc > hi as u128 {
            None
        } else {
            Some(acc as i64)
        }
    }
}

/// `{:?}` of a list of 32-bit integers: `[1, 2, 3]`.
pub open spec fn debug_ints(ids: Seq<i32>) -> Seq<char> {
    seq!['['] + join_decimals(ids) + seq![']']
}

pub open spec fn join_decimals(ids: Seq<i32>) -> Seq<char>
    decreases ids.len(),
{
    if ids.len() == 0 {
        Seq::empty()
    } else if ids.len() == 1 {
        decimal(ids[0] as int)
    } else {
        join_decimals(ids.drop_last()) + seq![',', ' '] + decimal(ids.last() as int)
    }
}

pub fn render_debug_ints(ids: &Vec<i32>) -> (r: String)
    ensures
        r@ == debug_ints(ids@),
{
    proof {
        reveal_strlit("[");
        reveal_strlit("]");
        reveal_strlit(", ");
    }
    let mut out = String::from_str("[");
    let mut i: usize = 0;
    while i < ids.len()
        invariant
            0 <= i <= ids.len(),
            out@ == seq!['['] + join_decimals(ids@.take(i as int)),
        decreases ids.len() - i,
    {
        proof {
            reveal_strlit(", ");
        }
        let ghost prefix = ids@.take(i as int);
        let ghost next = ids@.take(i + 1);
        assert(next.drop_last() =~= prefix);
        assert(next.last() == ids@[i as int]);
        let ghost before = out@;
        if i > 0 {
            out.append(", ");
            assert(out@ == before + seq![',', ' ']);
        }
        let ghost mid = out@;
        push_i64(&mut out, ids[i] as i64);
        assert(out@ == mid + decimal(ids@[i as int] as int));
        proof {
            if i == 0 {
                assert(join_decimals(next) == decimal(ids@[0] as int));
                assert(join_decimals(prefix) =~= Seq::<char>::empty());
            } else {
                assert(join_decimals(next) == join_decimals(prefix) + seq![',', ' '] + decimal(
                    ids@[i as int] as int,
                ));
            }
            assert(out@ =~= seq!['['] + join_decimals(next));
        }
        i = i + 1;
    }
    assert(ids@.take(i as int) =~= ids@);
    out.append("]");
    out
}

} // verus!
