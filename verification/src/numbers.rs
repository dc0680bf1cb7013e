//! Reading numbers back from decimal notation.
use vstd::prelude::*;
use vstd::string::*;

use crate::text;

verus! {

broadcast use vstd::string::group_string_axioms;

/// Whether a character is a decimal digit.
pub open spec fn is_digit(c: char) -> bool {
    '0' <= c && c <= '9'
}

/// Whether a text is made of decimal digits, at least one.
pub open spec fn is_number(s: Seq<char>) -> bool {
    s.len() > 0 && forall|i: int| 0 <= i < s.len() ==> is_digit(#[trigger] s[i])
}

/// The number that a digit stands for.
pub open spec fn digit_value(c: char) -> nat {
    ((c as int) - 0x30) as nat
}

/// The number that decimal digits stand for.
pub open spec fn value_of(s: Seq<char>) -> nat
    decreases s.len(),
{
    if s.len() == 0 {
        0
    } else {
        value_of(s.drop_last()) * 10 + digit_value(s.last())
    }
}

/// A text without the plus sign in front of it.
pub open spec fn without_plus(s: Seq<char>) -> Seq<char> {
    if s.len() > 0 && s[0] == '+' {
        s.skip(1)
    } else {
        s
    }
}

/// The natural number that a text stands for: digits, with or without a plus sign.
pub open spec fn natural_of(s: Seq<char>) -> Option<nat> {
    if is_number(without_plus(s)) {
        Some(value_of(without_plus(s)))
    } else {
        None
    }
}

/// The integer that a text stands for: digits, with or without a sign.
pub open spec fn integer_of(s: Seq<char>) -> Option<int> {
    if s.len() > 0 && s[0] == '-' {
        if is_number(s.skip(1)) {
            Some(-(value_of(s.skip(1)) as int))
        } else {
            None
        }
    } else {
        match natural_of(s) {
            Some(n) => Some(n as int),
            None => None,
        }
    }
}

/// More digits stand for a number that is no smaller.
proof fn lemma_value_grows(s: Seq<char>, i: int)
    requires
        0 <= i <= s.len(),
    ensures
        value_of(s.take(i)) <= value_of(s),
    decreases s.len(),
{
    if i < s.len() {
        lemma_value_grows(s.drop_last(), i);
        assert(s.drop_last().take(i) =~= s.take(i));
    } else {
        assert(s.take(i) =~= s);
    }
}

/// The number that digits from a place on stand for, unless it is too large.
fn read_digits(chars: &Vec<char>, from: usize, limit: u64) -> (res: Option<u64>)
    requires
        from <= chars@.len(),
        9 <= limit,
    ensures
        match res {
            Some(n) => is_number(chars@.skip(from as int)) && n == value_of(
                chars@.skip(from as int),
            ) && n <= limit,
            None => !is_number(chars@.skip(from as int)) || value_of(chars@.skip(from as int))
                > limit,
        },
{
    let ghost all = chars@.skip(from as int);
    if from == chars.len() {
        return None;
    }
    let mut res: u64 = 0;
    let mut i: usize = from;
    proof {
        assert(all.take(0) =~= Seq::empty());
    }
    while i < chars.len()
        invariant
            from <= i <= chars@.len(),
            all == chars@.skip(from as int),
            forall|k: int| 0 <= k < i - from ==> is_digit(#[trigger] all[k]),
            res == value_of(all.take(i - from)),
            res <= limit,
            9 <= limit,
        decreases chars@.len() - i,
    {
        let c = chars[i];
        proof {
            assert(all[i - from] == c);
        }
        if c < '0' || c > '9' {
            proof {
                assert(!is_digit(all[i - from]));
            }
            return None;
        }
        let d: u64 = (c as u64) - 0x30;
        proof {
            let next = all.take(i - from + 1);
            assert(next.drop_last() =~= all.take(i - from));
            assert(next.last() == c);
            lemma_value_grows(all, i - from + 1);
        }
        if res > (limit - d) / 10 {
            proof {
                assert(value_of(all) > limit);
            }
            return None;
        }
        res = res * 10 + d;
        i += 1;
    }
    proof {
        assert(all.take(all.len() as int) =~= all);
    }
    Some(res)
}

/// The number that a text stands for, where it is a natural number that is not too large.
pub fn parse_usize(s: &str) -> (res: Option<usize>)
    ensures
        match res {
            Some(n) => natural_of(s@) == Some(n as nat),
            None => natural_of(s@) is None || natural_of(s@)->0 > usize::MAX,
        },
{
    let chars = text::to_chars(s);
    let from: usize = if chars.len() > 0 && chars[0] == '+' {
        1
    } else {
        0
    };
    proof {
        assert(s@.skip(0) =~= s@);
        assert(without_plus(s@) == chars@.skip(from as int));
    }
    match read_digits(&chars, from, u64::MAX) {
        Some(n) => {
            if n <= usize::MAX as u64 {
                Some(n as usize)
            } else {
                None
            }
        },
        None => None,
    }
}

/// The number that a text stands for, where it is an integer that is not too large.
pub fn parse_i64(s: &str) -> (res: Option<i64>)
    ensures
        match res {
            Some(n) => integer_of(s@) == Some(n as int),
            None => integer_of(s@) is None || integer_of(s@)->0 > i64::MAX || integer_of(s@)->0
                < i64::MIN,
        },
{
    let chars = text::to_chars(s);
    proof {
        assert(s@.skip(0) =~= s@);
    }
    if chars.len() > 0 && chars[0] == '-' {
        return match read_digits(&chars, 1, 0x8000_0000_0000_0000) {
            Some(n) => {
                if n == 0x8000_0000_0000_0000 {
                    Some(i64::MIN)
                } else {
                    Some(-(n as i64))
                }
            },
            None => None,
        };
    }
    let from: usize = if chars.len() > 0 && chars[0] == '+' {
        1
    } else {
        0
    };
    proof {
        assert(without_plus(s@) == chars@.skip(from as int));
    }
    match read_digits(&chars, from, 0x7fff_ffff_ffff_ffff) {
        Some(n) => Some(n as i64),
        None => None,
    }
}

/// Decimal notation is made of digits and stands for the number.
proof fn lemma_decimal_reads_back(n: nat)
    ensures
        is_number(text::decimal(n)),
        value_of(text::decimal(n)) == n,
    decreases n,
{
    let c = text::digit(n);
    assert(is_digit(c) && digit_value(c) == n % 10);
    if n < 10 {
        let s = seq![c];
        assert(text::decimal(n) == s);
        assert(s.drop_last() =~= Seq::empty());
        assert(value_of(s.drop_last()) == 0);
        assert(value_of(s) == digit_value(c));
    } else {
        lemma_decimal_reads_back(n / 10);
        let head = text::decimal(n / 10);
        let s = head.push(c);
        assert(s.drop_last() =~= head);
        assert forall|i: int| 0 <= i < s.len() implies is_digit(#[trigger] s[i]) by {
            if i < head.len() {
                assert(s[i] == head[i]);
            }
        }
    }
}

/// A number is read back from its decimal notation.
pub proof fn law_decimal_reads_back(n: nat, i: int)
    ensures
        natural_of(text::decimal(n)) == Some(n),
        integer_of(text::signed_decimal(i)) == Some(i),
{
    lemma_decimal_reads_back(n);
    assert(is_digit(text::decimal(n)[0]));
    assert(without_plus(text::decimal(n)) == text::decimal(n));
    if i < 0 {
        let m = (-i) as nat;
        lemma_decimal_reads_back(m);
        let s = seq!['-'] + text::decimal(m);
        assert(s.skip(1) =~= text::decimal(m));
    } else {
        lemma_decimal_reads_back(i as nat);
        let s = text::decimal(i as nat);
        assert(is_digit(s[0]));
        assert(without_plus(s) == s);
    }
}

/// The decimal notation of an integer is made of digits and signs.
pub proof fn lemma_decimal_has_no(c: char, i: int)
    requires
        !is_digit(c),
        c != '-',
    ensures
        !text::signed_decimal(i).contains(c),
{
    let s = text::signed_decimal(i);
    let m = if i < 0 {
        (-i) as nat
    } else {
        i as nat
    };
    lemma_decimal_reads_back(m);
    let d = text::decimal(m);
    assert forall|k: int| 0 <= k < s.len() implies s[k] != c by {
        if i < 0 {
            if k > 0 {
                assert(s[k] == d[k - 1]);
                assert(is_digit(d[k - 1]));
            }
        } else {
            assert(is_digit(d[k]));
        }
    }
}

/// A plus sign changes nothing, a minus sign turns the number round, each further digit counts ten
/// times what stands before it, and whatever is not a digit makes no number.
pub proof fn law_numbers_are_read_digit_by_digit(s: Seq<char>, c: char, i: int)
    requires
        is_number(s),
    ensures
        natural_of(seq!['+'] + s) == natural_of(s),
        integer_of(seq!['+'] + s) == integer_of(s),
        integer_of(s) == Some(natural_of(s)->0 as int),
        integer_of(seq!['-'] + s) == Some(-(natural_of(s)->0 as int)),
        natural_of(seq!['-'] + s) is None,
        '0' <= c && c <= '9' ==> natural_of(s.push(c)) == Some(
            (natural_of(s)->0 * 10 + (c as int - '0' as int)) as nat,
        ),
        0 <= i < s.len() && !('0' <= c && c <= '9') && c != '+' && c != '-' ==> natural_of(
            s.update(i, c),
        ) is None && integer_of(s.update(i, c)) is None,
{
    assert(is_digit(s[0]));
    assert((seq!['+'] + s).skip(1) =~= s);
    assert((seq!['-'] + s).skip(1) =~= s);
    assert(!is_digit((seq!['-'] + s)[0]));
    if '0' <= c && c <= '9' {
        assert(s.push(c).drop_last() =~= s);
        assert(s.push(c)[0] == s[0]);
        assert forall|k: int| 0 <= k < s.push(c).len() implies is_digit(#[trigger] s.push(c)[k]) by {
            if k < s.len() {
                assert(is_digit(s[k]));
            }
        }
    }
    if 0 <= i < s.len() && !('0' <= c && c <= '9') && c != '+' && c != '-' {
        let changed = s.update(i, c);
        assert(!is_digit(changed[i]));
        assert(is_digit(s[0]));
    }
}

} // verus!
