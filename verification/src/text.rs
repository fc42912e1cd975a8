//! Building text: decimal rendering of integers and fixed-point numbers.

use vstd::prelude::*;

verus! {

/// The character of the decimal digit `d`.
pub open spec fn digit_char(d: nat) -> char {
    (48 + d) as char
}

/// Decimal digits of `n`, without leading zeros.
pub open spec fn decimal(n: nat) -> Seq<char>
    decreases n,
{
    if n < 10 {
        seq![digit_char(n)]
    } else {
        decimal(n / 10).push(digit_char(n % 10))
    }
}

/// Decimal digits of an integer, with a leading `-` below zero.
pub open spec fn signed_decimal(n: int) -> Seq<char> {
    if n < 0 {
        "-"@ + decimal((-n) as nat)
    } else {
        decimal(n as nat)
    }
}

/// The last `width` decimal digits of `n`, padded with zeros on the left.
pub open spec fn padded_decimal(n: nat, width: nat) -> Seq<char>
    decreases width,
{
    if width == 0 {
        Seq::empty()
    } else {
        padded_decimal(n / 10, (width - 1) as nat).push(digit_char(n % 10))
    }
}

/// `1` for true, `0` for false.
pub open spec fn flag(b: bool) -> nat {
    if b {
        1
    } else {
        0
    }
}

fn digit_str(d: u8) -> (s: &'static str)
    requires
        d < 10,
    ensures
        s@ == seq![digit_char(d as nat)],
{
    proof {
        reveal_strlit("0");
        reveal_strlit("1");
        reveal_strlit("2");
        reveal_strlit("3");
        reveal_strlit("4");
        reveal_strlit("5");
        reveal_strlit("6");
        reveal_strlit("7");
        reveal_strlit("8");
        reveal_strlit("9");
    }
    let s: &'static str = match d {
        0 => "0",
        1 => "1",
        2 => "2",
        3 => "3",
        4 => "4",
        5 => "5",
        6 => "6",
        7 => "7",
        8 => "8",
        _ => "9",
    };
    assert(s@ =~= seq![digit_char(d as nat)]);
    s
}

/// Appends the decimal digits of `n`.
pub fn push_decimal(out: &mut String, n: u128)
    ensures
        final(out)@ == old(out)@ + decimal(n as nat),
    decreases n,
{
    if n >= 10 {
        push_decimal(out, n / 10);
    }
    let ghost before = out@;
    out.append(digit_str((n % 10) as u8));
    proof {
        if n >= 10 {
            assert(old(out)@ + decimal(n as nat) =~= before + seq![digit_char((n % 10) as nat)]);
        }
    }
}

/// The decimal digits of `n` as a new string.
pub fn decimal_text(n: u64) -> (s: String)
    ensures
        s@ == decimal(n as nat),
{
    let mut s: String = String::new();
    push_decimal(&mut s, n as u128);
    assert(s@ =~= decimal(n as nat));
    s
}

/// An integer as text, with a leading `-` below zero.
pub fn signed_text(n: i64) -> (s: String)
    ensures
        s@ == signed_decimal(n as int),
{
    let mut s: String = String::new();
    if n < 0 {
        s.append("-");
        let magnitude: u128 = (-(n as i128)) as u128;
        push_decimal(&mut s, magnitude);
        assert(s@ =~= signed_decimal(n as int));
    } else {
        push_decimal(&mut s, n as u128);
        assert(s@ =~= signed_decimal(n as int));
    }
    s
}

/// Appends the last `width` decimal digits of `n`.
pub fn push_padded(out: &mut String, n: u128, width: usize)
    ensures
        final(out)@ == old(out)@ + padded_decimal(n as nat, width as nat),
    decreases width,
{
    if width > 0 {
        push_padded(out, n / 10, width - 1);
        let ghost before = out@;
        out.append(digit_str((n % 10) as u8));
        assert(old(out)@ + padded_decimal(n as nat, width as nat) =~= before
            + seq![digit_char((n % 10) as nat)]);
    } else {
        assert(out@ + padded_decimal(n as nat, 0) =~= out@);
    }
}

/// A flag as the number that stands for it in gauges.
pub fn flag_value(b: bool) -> (n: u64)
    ensures
        n == flag(b),
{
    if b {
        1
    } else {
        0
    }
}

/// The character is a decimal digit.
pub open spec fn is_digit(c: char) -> bool {
    48 <= c as u32 <= 57
}

/// All characters are decimal digits.
pub open spec fn all_digits(s: Seq<char>) -> bool {
    forall|i: int| 0 <= i < s.len() ==> is_digit(#[trigger] s[i])
}

/// The number that decimal digits write.
pub open spec fn digits_value(s: Seq<char>) -> nat
    decreases s.len(),
{
    if s.len() == 0 {
        0
    } else {
        digits_value(s.drop_last()) * 10 + (s.last() as u32 - 48) as nat
    }
}

/// A number as text without its optional leading `+`.
pub open spec fn unsigned_digits(s: Seq<char>) -> Seq<char> {
    if s.len() > 0 && s[0] == '+' {
        s.subrange(1, s.len() as int)
    } else {
        s
    }
}

/// The unsigned number that a text writes, up to `limit`: decimal digits with
/// an optional leading `+`.
pub open spec fn parsed_number(s: Seq<char>, limit: nat) -> Option<nat> {
    let digits = unsigned_digits(s);
    if digits.len() > 0 && all_digits(digits) && digits_value(digits) <= limit {
        Some(digits_value(digits))
    } else {
        None
    }
}

proof fn lemma_digits_grow(s: Seq<char>, n: int)
    requires
        all_digits(s),
        0 <= n <= s.len(),
    ensures
        digits_value(s.subrange(0, n)) <= digits_value(s),
    decreases s.len() - n,
{
    if n < s.len() {
        lemma_digits_grow(s, n + 1);
        let t = s.subrange(0, n + 1);
        assert(t.drop_last() =~= s.subrange(0, n));
        assert(is_digit(s[n]));
    } else {
        assert(s.subrange(0, n) =~= s);
    }
}

/// The decimal digits of a number are read as that number.
pub proof fn law_decimal_reads_back(n: nat, limit: nat)
    requires
        n <= limit,
    ensures
        parsed_number(decimal(n), limit) == Some(n),
{
    lemma_decimal_value(n);
}

proof fn lemma_decimal_value(n: nat)
    ensures
        decimal(n).len() > 0,
        all_digits(decimal(n)),
        digits_value(decimal(n)) == n,
    decreases n,
{
    if n < 10 {
        reveal_with_fuel(digits_value, 2);
        assert(decimal(n).drop_last() =~= Seq::<char>::empty());
        assert(digit_char(n) as u32 == 48 + n);
    } else {
        lemma_decimal_value(n / 10);
        let d = decimal(n);
        assert(d.drop_last() =~= decimal(n / 10));
        assert(d.last() == digit_char(n % 10));
        assert(digit_char(n % 10) as u32 == 48 + n % 10);
        assert forall|i: int| 0 <= i < d.len() implies is_digit(#[trigger] d[i]) by {
            if i < d.len() - 1 {
                assert(d[i] == decimal(n / 10)[i]);
            }
        }
    }
}

/// Reads an unsigned number up to `limit`.
pub fn parse_number(raw: &str, limit: usize) -> (n: Option<usize>)
    ensures
        match n {
            Some(n) => parsed_number(raw@, limit as nat) == Some(n as nat),
            None => parsed_number(raw@, limit as nat) is None,
        },
{
    let total: usize = raw.unicode_len();
    let mut i: usize = 0;
    if total > 0 && raw.get_char(0) == '+' {
        i = 1;
    }
    let start: usize = i;
    let ghost digits = unsigned_digits(raw@);
    if start == total {
        return None;
    }
    let mut value: usize = 0;
    while i < total
        invariant
            start <= i <= total,
            start <= 1,
            start < total,
            total == raw@.len(),
            digits == raw@.subrange(start as int, total as int),
            digits == unsigned_digits(raw@),
            all_digits(digits.subrange(0, i - start)),
            value == digits_value(digits.subrange(0, i - start)),
            value <= limit,
        decreases total - i,
    {
        let c: char = raw.get_char(i);
        let ghost at = i - start;
        assert(digits[at] == c);
        if (c as u32) < 48 || (c as u32) > 57 {
            assert(!is_digit(digits[at]));
            return None;
        }
        let d: usize = (c as u32 - 48) as usize;
        proof {
            let t = digits.subrange(0, at + 1);
            assert(t.drop_last() =~= digits.subrange(0, at));
            assert(t.last() == c);
            assert forall|k: int| 0 <= k < t.len() implies is_digit(#[trigger] t[k]) by {
                if k < at {
                    assert(t[k] == digits.subrange(0, at)[k]);
                }
            }
            if all_digits(digits) {
                lemma_digits_grow(digits, at + 1);
            }
        }
        let next: usize = match value.checked_mul(10) {
            Some(tens) => match tens.checked_add(d) {
                Some(n) => n,
                None => {
                    return None;
                },
            },
            None => {
                return None;
            },
        };
        if next > limit {
            return None;
        }
        value = next;
        i = i + 1;
    }
    proof {
        assert(digits.subrange(0, total - start) =~= digits);
    }
    Some(value)
}

/// From index `i` on, the first text comes before the second: at the first
/// character in which they differ, or because it ends first.
pub open spec fn before_from(a: Seq<char>, b: Seq<char>, i: int) -> bool
    decreases b.len() - i,
{
    if i < 0 || i >= b.len() {
        false
    } else if i >= a.len() {
        true
    } else if a[i] == b[i] {
        before_from(a, b, i + 1)
    } else {
        a[i] < b[i]
    }
}

/// The first text comes before the second in the order of their characters.
pub open spec fn text_before(a: Seq<char>, b: Seq<char>) -> bool {
    before_from(a, b, 0)
}

/// The contents of texts.
pub open spec fn texts(list: Seq<String>) -> Seq<Seq<char>> {
    Seq::new(list.len(), |i: int| list[i]@)
}

/// A list in order holds every text once that another list holds.
pub open spec fn is_sorted_set(sorted: Seq<Seq<char>>, list: Seq<Seq<char>>) -> bool {
    &&& forall|i: int, j: int|
        0 <= i < j < sorted.len() ==> text_before(#[trigger] sorted[i], #[trigger] sorted[j])
    &&& forall|i: int| 0 <= i < sorted.len() ==> list.contains(#[trigger] sorted[i])
    &&& forall|i: int| 0 <= i < list.len() ==> sorted.contains(#[trigger] list[i])
}

proof fn lemma_before_is_transitive(a: Seq<char>, b: Seq<char>, c: Seq<char>, i: int)
    requires
        0 <= i,
        before_from(a, b, i),
        before_from(b, c, i),
    ensures
        before_from(a, c, i),
    decreases c.len() - i,
{
    if i < c.len() && i < a.len() && i < b.len() && a[i] == b[i] && b[i] == c[i] {
        lemma_before_is_transitive(a, b, c, i + 1);
    }
}

proof fn lemma_before_is_irreflexive(a: Seq<char>, i: int)
    requires
        0 <= i,
    ensures
        !before_from(a, a, i),
    decreases a.len() - i,
{
    if i < a.len() {
        lemma_before_is_irreflexive(a, i + 1);
    }
}

proof fn lemma_before_is_total(a: Seq<char>, b: Seq<char>, i: int)
    requires
        0 <= i,
        i <= a.len(),
        i <= b.len(),
        forall|j: int| 0 <= j < i ==> a[j] == b[j],
    ensures
        before_from(a, b, i) || before_from(b, a, i) || a == b,
    decreases a.len() - i,
{
    if i < a.len() && i < b.len() {
        if a[i] == b[i] {
            lemma_before_is_total(a, b, i + 1);
        }
    } else if a.len() == b.len() {
        assert(a =~= b);
    }
}

/// Compares two texts by their characters.
pub fn precedes(a: &str, b: &str) -> (before: bool)
    ensures
        before == text_before(a@, b@),
{
    let a_len: usize = a.unicode_len();
    let b_len: usize = b.unicode_len();
    let mut i: usize = 0;
    while i < a_len && i < b_len
        invariant
            i <= a_len,
            i <= b_len,
            a_len == a@.len(),
            b_len == b@.len(),
            text_before(a@, b@) == before_from(a@, b@, i as int),
        decreases a_len - i,
    {
        let x: char = a.get_char(i);
        let y: char = b.get_char(i);
        if x != y {
            return x < y;
        }
        i = i + 1;
    }
    i < b_len
}

/// Puts texts in order and drops repetitions.
pub fn sorted_set(list: Vec<String>) -> (sorted: Vec<String>)
    ensures
        is_sorted_set(texts(sorted@), texts(list@)),
{
    let mut sorted: Vec<String> = Vec::new();
    let mut n: usize = 0;
    while n < list.len()
        invariant
            n <= list@.len(),
            is_sorted_set(texts(sorted@), texts(list@).subrange(0, n as int)),
        decreases list@.len() - n,
    {
        let mut at: usize = 0;
        while at < sorted.len() && precedes(sorted[at].as_str(), list[n].as_str())
            invariant
                at <= sorted@.len(),
                n < list@.len(),
                forall|i: int|
                    0 <= i < at ==> text_before(#[trigger] texts(sorted@)[i], list@[n as int]@),
            decreases sorted@.len() - at,
        {
            at = at + 1;
        }
        let ghost kept = texts(sorted@);
        let ghost name = list@[n as int]@;
        let ghost seen = texts(list@).subrange(0, n as int);
        let ghost next = texts(list@).subrange(0, n + 1);
        proof {
            assert(next =~= seen.push(name));
            if at < sorted@.len() {
                lemma_before_is_total(kept[at as int], name, 0);
            }
        }
        if at == sorted.len() || precedes(list[n].as_str(), sorted[at].as_str()) {
            sorted.insert(at, String::from_str(list[n].as_str()));
            proof {
                assert(texts(sorted@) =~= kept.insert(at as int, name));
                lemma_sorted_insert(kept, seen, name, at as int);
            }
        } else {
            proof {
                assert(kept[at as int] == name);
                lemma_sorted_known(kept, seen, name, at as int);
            }
        }
        n = n + 1;
    }
    proof {
        assert(texts(list@).subrange(0, n as int) =~= texts(list@));
    }
    sorted
}

proof fn lemma_sorted_insert(
    sorted: Seq<Seq<char>>,
    list: Seq<Seq<char>>,
    name: Seq<char>,
    at: int,
)
    requires
        is_sorted_set(sorted, list),
        0 <= at <= sorted.len(),
        forall|i: int| 0 <= i < at ==> text_before(#[trigger] sorted[i], name),
        at < sorted.len() ==> text_before(name, sorted[at]),
    ensures
        is_sorted_set(sorted.insert(at, name), list.push(name)),
{
    let next = sorted.insert(at, name);
    let all = list.push(name);
    assert forall|i: int, j: int| 0 <= i < j < next.len() implies text_before(
        #[trigger] next[i],
        #[trigger] next[j],
    ) by {
        if i == at && j > at + 1 {
            assert(text_before(sorted[at], sorted[j - 1]));
            lemma_before_is_transitive(name, sorted[at], sorted[j - 1], 0);
        } else if i < at && j > at {
            assert(text_before(sorted[i], sorted[j - 1]));
        } else if i > at {
            assert(text_before(sorted[i - 1], sorted[j - 1]));
        } else if j < at {
            assert(text_before(sorted[i], sorted[j]));
        }
    }
    assert forall|i: int| 0 <= i < next.len() implies all.contains(#[trigger] next[i]) by {
        if i == at {
            assert(all[list.len() as int] == name);
        } else {
            let s = if i < at {
                sorted[i]
            } else {
                sorted[i - 1]
            };
            assert(list.contains(s));
            let k = choose|k: int| 0 <= k < list.len() && list[k] == s;
            assert(all[k] == s);
        }
    }
    assert forall|i: int| 0 <= i < all.len() implies next.contains(#[trigger] all[i]) by {
        if i == list.len() {
            assert(next[at] == name);
        } else {
            assert(sorted.contains(list[i]));
            let k = choose|k: int| 0 <= k < sorted.len() && sorted[k] == list[i];
            if k < at {
                assert(next[k] == list[i]);
            } else {
                assert(next[k + 1] == list[i]);
            }
        }
    }
}

proof fn lemma_sorted_known(sorted: Seq<Seq<char>>, list: Seq<Seq<char>>, name: Seq<char>, at: int)
    requires
        is_sorted_set(sorted, list),
        0 <= at < sorted.len(),
        sorted[at] == name,
    ensures
        is_sorted_set(sorted, list.push(name)),
{
    let all = list.push(name);
    assert forall|i: int| 0 <= i < sorted.len() implies all.contains(#[trigger] sorted[i]) by {
        assert(list.contains(sorted[i]));
        let k = choose|k: int| 0 <= k < list.len() && list[k] == sorted[i];
        assert(all[k] == sorted[i]);
    }
    assert forall|i: int| 0 <= i < all.len() implies sorted.contains(#[trigger] all[i]) by {
        if i < list.len() {
            assert(sorted.contains(list[i]));
        }
    }
}

/// A list in order without repetitions holds no text twice.
pub proof fn law_sorted_set_has_no_repetition(
    sorted: Seq<Seq<char>>,
    list: Seq<Seq<char>>,
    i: int,
    j: int,
)
    requires
        is_sorted_set(sorted, list),
        0 <= i < j < sorted.len(),
    ensures
        sorted[i] != sorted[j],
{
    lemma_before_is_irreflexive(sorted[i], 0);
}

/// Different numbers are written differently.
pub proof fn law_decimals_differ(a: nat, b: nat)
    requires
        decimal(a) == decimal(b),
    ensures
        a == b,
{
    lemma_decimal_value(a);
    lemma_decimal_value(b);
}

/// A number above the limit is not read, and neither is a text with anything but
/// digits; a plus in front of digits changes nothing, and a second one does.
pub proof fn law_only_numbers_in_range_are_read(s: Seq<char>, n: nat, limit: nat)
    ensures
        n > limit ==> parsed_number(decimal(n), limit) is None,
        n <= limit ==> parsed_number(seq!['+'] + decimal(n), limit) == Some(n),
        parsed_number(Seq::empty(), limit) is None,
        parsed_number(seq!['+'], limit) is None,
        (exists|i: int| 0 < i < s.len() && !is_digit(#[trigger] s[i])) ==> parsed_number(s, limit)
            is None,
        s.len() > 0 && !is_digit(s[0]) && s[0] != '+' ==> parsed_number(s, limit) is None,
{
    lemma_decimal_value(n);
    assert(is_digit(decimal(n)[0]));
    let signed = seq!['+'] + decimal(n);
    assert(signed.subrange(1, signed.len() as int) =~= decimal(n));
    assert(seq!['+'].subrange(1, 1) =~= Seq::<char>::empty());
    if exists|i: int| 0 < i < s.len() && !is_digit(#[trigger] s[i]) {
        let i = choose|i: int| 0 < i < s.len() && !is_digit(#[trigger] s[i]);
        if s[0] == '+' {
            assert(unsigned_digits(s)[i - 1] == s[i]);
        }
    }
}

/// Padded digits are as many as asked for, and write the last ones of the number.
pub proof fn law_padded_digits_write_the_last_places(n: nat, width: nat)
    ensures
        padded_decimal(n, width).len() == width,
        all_digits(padded_decimal(n, width)),
        digits_value(padded_decimal(n, width)) == n % vstd::arithmetic::power::pow(10, width) as nat,
    decreases width,
{
    vstd::arithmetic::power::lemma_pow_positive(10, width);
    if width == 0 {
        vstd::arithmetic::power::lemma_pow0(10);
    } else {
        let w = (width - 1) as nat;
        law_padded_digits_write_the_last_places(n / 10, w);
        vstd::arithmetic::power::lemma_pow_positive(10, w);
        reveal(vstd::arithmetic::power::pow);
        let p = vstd::arithmetic::power::pow(10, w);
        assert(vstd::arithmetic::power::pow(10, width) == 10 * p);
        vstd::arithmetic::div_mod::lemma_mod_breakdown(n as int, 10, p);
        let s = padded_decimal(n, width);
        assert(s.drop_last() =~= padded_decimal(n / 10, w));
        assert(s.last() == digit_char(n % 10));
    }
}

} // verus!
