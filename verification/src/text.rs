//! Decimal numerals and UTF-16 strings.

use vstd::prelude::*;

verus! {

/// The decimal digit for `d`.
pub open spec fn digit(d: nat) -> char
    recommends
        d < 10,
{
    seq!['0', '1', '2', '3', '4', '5', '6', '7', '8', '9'][d as int]
}

/// The decimal numeral for `n`, without leading zeros.
pub open spec fn decimal(n: nat) -> Seq<char>
    decreases n,
{
    if n < 10 {
        seq![digit(n)]
    } else {
        decimal(n / 10).push(digit(n % 10))
    }
}

/// The UTF-16 code units of one character: itself, or a surrogate pair beyond the basic plane.
pub open spec fn utf16_units(c: char) -> Seq<u16> {
    let n = c as u32;
    if n < 0x1_0000 {
        seq![n as u16]
    } else {
        seq![
            (0xD800 + (n - 0x1_0000) / 0x400) as u16,
            (0xDC00 + (n - 0x1_0000) % 0x400) as u16,
        ]
    }
}

/// The UTF-16 code units of a string.
pub open spec fn utf16(s: Seq<char>) -> Seq<u16>
    decreases s.len(),
{
    if s.len() == 0 {
        Seq::empty()
    } else {
        utf16(s.drop_last()) + utf16_units(s.last())
    }
}

/// Whether `units` is a C-style wide string: one zero unit, and that at the end.
pub open spec fn nul_terminated(units: Seq<u16>) -> bool {
    &&& units.len() > 0
    &&& units.last() == 0
    &&& forall|i: int| 0 <= i < units.len() - 1 ==> units[i] != 0
}

/// Whether all characters of `s` are ASCII characters other than NUL.
pub open spec fn plain(s: Seq<char>) -> bool {
    forall|i: int| 0 <= i < s.len() ==> '\0' < #[trigger] s[i] <= '\x7F'
}

/// A numeral consists of decimal digits.
pub proof fn decimal_is_plain(n: nat)
    ensures
        decimal(n).len() > 0,
        forall|i: int| 0 <= i < decimal(n).len() ==> '0' <= #[trigger] decimal(n)[i] <= '9',
        plain(decimal(n)),
    decreases n,
{
    if n >= 10 {
        decimal_is_plain(n / 10);
    }
}

/// A numeral stands for its number: read from the left, each digit adding its value to ten times what
/// came before, it gives the number. It holds nothing but the digits from `0` to `9`, and begins
/// with a zero only if it is that one digit.
pub proof fn decimal_stands_for_its_number(n: nat)
    ensures
        decimal(n).fold_left(0int, |value: int, c: char| 10 * value + (c as int - '0' as int)) == n,
        decimal(n).len() > 0,
        forall|i: int| 0 <= i < decimal(n).len() ==> '0' <= #[trigger] decimal(n)[i] <= '9',
        decimal(n)[0] == '0' <==> n == 0,
        n == 0 ==> decimal(n).len() == 1,
    decreases n,
{
    decimal_is_plain(n);
    if n >= 10 {
        decimal_stands_for_its_number(n / 10);
        assert(decimal(n).drop_last() =~= decimal(n / 10));
        assert(decimal(n)[0] == decimal(n / 10)[0]);
    } else {
        assert(decimal(n).drop_last() =~= Seq::empty());
        reveal_with_fuel(Seq::<_>::fold_left, 2);
    }
}

/// Different numbers have different numerals.
pub proof fn decimal_is_injective(a: nat, b: nat)
    requires
        decimal(a) == decimal(b),
    ensures
        a == b,
    decreases a,
{
    decimal_is_plain(a / 10);
    decimal_is_plain(b / 10);
    if a >= 10 && b >= 10 {
        assert(decimal(a).drop_last() =~= decimal(a / 10));
        assert(decimal(b).drop_last() =~= decimal(b / 10));
        decimal_is_injective(a / 10, b / 10);
    }
    assert(decimal(a).last() == digit(a % 10));
    assert(decimal(b).last() == digit(b % 10));
}

/// UTF-16 encodes a text character by character and in order; a character of the basic plane as the
/// one unit of its code, and any other as a high and a low surrogate, which hold the upper and the
/// lower ten bits of its code less 0x10000.
pub proof fn utf16_encodes_each_character(s: Seq<char>, t: Seq<char>, c: char)
    ensures
        utf16(Seq::empty()) == Seq::<u16>::empty(),
        utf16(s + t) == utf16(s) + utf16(t),
        (c as int) < 0x1_0000 ==> utf16(seq![c]).len() == 1 && utf16(seq![c])[0] as int == c as int,
        c as int >= 0x1_0000 ==> {
            let units = utf16(seq![c]);
            &&& units.len() == 2
            &&& 0xD800 <= units[0] <= 0xDBFF
            &&& 0xDC00 <= units[1] <= 0xDFFF
            &&& 0x400 * (units[0] - 0xD800) + (units[1] - 0xDC00) + 0x1_0000 == c as int
        },
    decreases t.len(),
{
    assert(seq![c].drop_last() =~= Seq::empty());
    assert(utf16(seq![c]) =~= utf16_units(c)) by {
        assert(seq![c].last() == c);
        assert(utf16(seq![c].drop_last()) =~= Seq::empty());
    }
    if t.len() == 0 {
        assert(s + t =~= s);
        assert(utf16(s) + utf16(t) =~= utf16(s));
    } else {
        utf16_encodes_each_character(s, t.drop_last(), c);
        assert((s + t).drop_last() =~= s + t.drop_last());
        assert((s + t).last() == t.last());
        assert(utf16(s + t) =~= utf16(s) + utf16(t));
    }
}

/// ASCII text has one UTF-16 unit for each character; with a zero unit after it, it is a C-style
/// wide string, if it holds no NUL.
pub proof fn plain_utf16(s: Seq<char>)
    requires
        plain(s),
    ensures
        utf16(s) == s.map_values(|c: char| c as u16),
        nul_terminated(utf16(s).push(0)),
    decreases s.len(),
{
    let f = |c: char| c as u16;
    if s.len() > 0 {
        let front = s.drop_last();
        plain_utf16(front);
        assert('\0' < s[s.len() - 1]);
        assert(utf16_units(s.last()) =~= seq![s.last() as u16]);
        assert(s.map_values(f) =~= front.map_values(f) + seq![f(s.last())]);
    } else {
        assert(s.map_values(f) =~= Seq::empty());
    }
    assert forall|i: int| 0 <= i < s.len() implies #[trigger] utf16(s).push(0)[i] != 0 by {
        assert('\0' < s[i]);
        assert(utf16(s)[i] == s[i] as u16);
    }
}

fn digit_str(d: u64) -> (s: &'static str)
    requires
        d < 10,
    ensures
        s@ == seq![digit(d as nat)],
{
    proof {
        reveal_strlit("0");
        reveal_strlit("1");
        reveal_strlit("2");
        reveal_strlit("3");
        reveal_strlit("4");
        reveal_strlit("5");
        reveal_strlit("6");
        reveal_strlit("7");
        reveal_strlit("8");
        reveal_strlit("9");
    }
    match d {
        0 => "0",
        1 => "1",
        2 => "2",
        3 => "3",
        4 => "4",
        5 => "5",
        6 => "6",
        7 => "7",
        8 => "8",
        _ => "9",
    }
}

/// Writes `n` in decimal.
pub fn decimal_string(n: u64) -> (s: String)
    ensures
        s@ == decimal(n as nat),
    decreases n,
{
    if n < 10 {
        digit_str(n).to_owned()
    } else {
        let mut s = decimal_string(n / 10);
        s.append(digit_str(n % 10));
        s
    }
}

/// Encodes `s` in UTF-16 and adds a terminating zero unit.
pub fn wide_string(s: &str) -> (units: Vec<u16>)
    ensures
        units@ == utf16(s@).push(0),
{
    let mut units: Vec<u16> = Vec::new();
    for c in it: s.chars()
        invariant
            it.seq() == s@,
            units@ == utf16(s@.take(it.index() as int)),
    {
        proof {
            assert(s@.take(it.index() + 1).drop_last() =~= s@.take(it.index() as int));
            assert(s@.take(it.index() + 1).last() == c);
        }
        let n: u32 = c as u32;
        if n < 0x1_0000 {
            units.push(n as u16);
        } else {
            units.push((0xD800 + (n - 0x1_0000) / 0x400) as u16);
            units.push((0xDC00 + (n - 0x1_0000) % 0x400) as u16);
        }
        proof {
            assert(units@ =~= utf16(s@.take(it.index() + 1)));
        }
    }
    proof {
        assert(s@.take(s@.len() as int) =~= s@);
    }
    units.push(0);
    units
}

} // verus!
