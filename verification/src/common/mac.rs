//! Text form of a 48-bit device address: six octets, most significant first,
//! each as two upper-case hexadecimal digits, separated by colons.

use vstd::arithmetic::div_mod::{lemma_breakdown, lemma_div_denominator};
use vstd::prelude::*;
use vstd::std_specs::iter::IteratorSpec;

verus! {

/// Sixteen to the power `n`.
pub open spec fn pow16(n: nat) -> nat
    decreases n,
{
    if n == 0 {
        1
    } else {
        16 * pow16((n - 1) as nat)
    }
}

/// The upper-case hexadecimal digit for a value below sixteen.
pub open spec fn upper_hex(d: nat) -> char {
    if d < 10 {
        ('0' as int + d) as char
    } else {
        ('A' as int + d - 10) as char
    }
}

/// The value of a hexadecimal digit of either case; `None` for any other character.
pub open spec fn hex_value(c: char) -> Option<nat> {
    if '0' as int <= c as int <= '9' as int {
        Some((c as int - '0' as int) as nat)
    } else if 'a' as int <= c as int <= 'f' as int {
        Some((c as int - 'a' as int + 10) as nat)
    } else if 'A' as int <= c as int <= 'F' as int {
        Some((c as int - 'A' as int + 10) as nat)
    } else {
        None
    }
}

/// The last `width` hexadecimal digits of `value`, most significant first.
pub open spec fn hex_digits(value: nat, width: nat) -> Seq<char>
    decreases width,
{
    if width == 0 {
        Seq::empty()
    } else {
        hex_digits(value / 16, (width - 1) as nat).push(upper_hex(value % 16))
    }
}

/// The canonical text of an address. Only the low 48 bits of `addr` are shown.
pub open spec fn mac_text(addr: u64) -> Seq<char> {
    let digits = hex_digits(addr as nat, 12);
    Seq::new(
        17,
        |i: int|
            if i % 3 == 2 {
                ':'
            } else {
                digits[2 * (i / 3) + i % 3]
            },
    )
}

/// Digit `k` of `hex_digits(value, width)` has the weight `16^(width - 1 - k)`.
proof fn lemma_hex_digit_at(value: nat, width: nat, k: int)
    requires
        0 <= k < width,
    ensures
        hex_digits(value, width).len() == width,
        hex_digits(value, width)[k] == upper_hex(
            ((value / pow16((width - 1 - k) as nat)) % 16) as nat,
        ),
    decreases width,
{
    lemma_hex_digits_len(value, width);
    if k == width - 1 {
        assert(pow16(0) == 1);
        assert(value / 1 == value);
    } else {
        let shorter = hex_digits(value / 16, (width - 1) as nat);
        let low = pow16((width - 2 - k) as nat);
        lemma_hex_digits_len(value / 16, (width - 1) as nat);
        lemma_hex_digit_at(value / 16, (width - 1) as nat, k);
        lemma_pow16_positive((width - 2 - k) as nat);
        assert(hex_digits(value, width)[k] == shorter[k]);
        assert(pow16((width - 1 - k) as nat) == 16 * low);
        assert((value as int / 16) / (low as int) == value as int / (16 * low as int)) by {
            lemma_div_denominator(value as int, 16, low as int);
        }
    }
}

proof fn lemma_hex_digits_len(value: nat, width: nat)
    ensures
        hex_digits(value, width).len() == width,
    decreases width,
{
    if width > 0 {
        lemma_hex_digits_len(value / 16, (width - 1) as nat);
    }
}

proof fn lemma_pow16_positive(n: nat)
    ensures
        pow16(n) > 0,
    decreases n,
{
    if n > 0 {
        lemma_pow16_positive((n - 1) as nat);
    }
}

/// The one-character text of a digit value.
fn hex_str(d: u64) -> (s: &'static str)
    requires
        d < 16,
    ensures
        s@ == seq![upper_hex(d as nat)],
{
    proof {
        reveal_strlit("0");
        reveal_strlit("1");
        reveal_strlit("2");
        reveal_strlit("3");
        reveal_strlit("4");
        reveal_strlit("5");
        reveal_strlit("6");
        reveal_strlit("7");
        reveal_strlit("8");
        reveal_strlit("9");
        reveal_strlit("A");
        reveal_strlit("B");
        reveal_strlit("C");
        reveal_strlit("D");
        reveal_strlit("E");
        reveal_strlit("F");
    }
    let s = if d == 0 {
        "0"
    } else if d == 1 {
        "1"
    } else if d == 2 {
        "2"
    } else if d == 3 {
        "3"
    } else if d == 4 {
        "4"
    } else if d == 5 {
        "5"
    } else if d == 6 {
        "6"
    } else if d == 7 {
        "7"
    } else if d == 8 {
        "8"
    } else if d == 9 {
        "9"
    } else if d == 10 {
        "A"
    } else if d == 11 {
        "B"
    } else if d == 12 {
        "C"
    } else if d == 13 {
        "D"
    } else if d == 14 {
        "E"
    } else {
        "F"
    };
    assert(s@ =~= seq![upper_hex(d as nat)]);
    s
}

/// Writes the low 48 bits of `addr` as `XX:XX:XX:XX:XX:XX`.
pub fn mac_u64_to_string(addr: u64) -> (text: String)
    ensures
        text@ == mac_text(addr),
        is_canonical(text@),
        parse_mac(text@) == Some((addr % 0x1_0000_0000_0000) as u64),
{
    proof {
        law_address_round_trip(addr);
    }
    let mut text = String::new();
    let mut weight: u64 = 0x1000_0000_0000;
    let mut position: usize = 0;
    assert(pow16(11) == 0x1000_0000_0000) by {
        reveal_with_fuel(pow16, 12);
    }
    let mut emitted: usize = 0;
    while position < 17
        invariant
            position <= 17,
            emitted == position - position / 3,
            text@ == mac_text(addr).take(position as int),
            emitted < 12 ==> weight == pow16((11 - emitted) as nat),
        decreases 17 - position,
    {
        if position % 3 == 2 {
            proof {
                reveal_strlit(":");
            }
            text.append(":");
        } else {
            assert(emitted == 2 * (position / 3) + position % 3);
            proof {
                lemma_hex_digit_at(addr as nat, 12, emitted as int);
                lemma_pow16_positive((11 - emitted) as nat);
            }
            let digit: u64 = (addr / weight) % 16;
            text.append(hex_str(digit));
            if emitted < 11 {
                assert(pow16((11 - emitted) as nat) == 16 * pow16((10 - emitted) as nat));
                weight = weight / 16;
            }
            emitted = emitted + 1;
        }
        assert(text@ =~= mac_text(addr).take(position + 1));
        position = position + 1;
    }
    assert(text@ =~= mac_text(addr));
    text
}

/// The number that a run of hexadecimal digits denotes, most significant first.
pub open spec fn hex_number(digits: Seq<char>) -> nat
    decreases digits.len(),
{
    if digits.len() == 0 {
        0
    } else {
        16 * hex_number(digits.drop_last()) + match hex_value(digits.last()) {
            Some(d) => d,
            None => 0,
        }
    }
}

/// The twelve digits of a text in groups of two, the separators left out.
pub open spec fn grouped_digits(text: Seq<char>) -> Seq<char> {
    Seq::new(12, |k: int| text[k + k / 2])
}

/// Whether `text` is an address: seventeen characters, a colon after every
/// second digit, and a hexadecimal digit of either case everywhere else.
pub open spec fn is_address(text: Seq<char>) -> bool {
    &&& text.len() == 17
    &&& forall|i: int|
        #![trigger text[i]]
        0 <= i < 17 ==> if i % 3 == 2 {
            text[i] == ':'
        } else {
            hex_value(text[i]) is Some
        }
}

/// The address that `text` denotes, if it is one.
pub open spec fn parse_mac(text: Seq<char>) -> Option<u64> {
    if is_address(text) {
        Some(hex_number(grouped_digits(text)) as u64)
    } else {
        None
    }
}

/// Whether `c` is a digit or an upper-case letter from `A` to `F`.
pub open spec fn is_upper_hex(c: char) -> bool {
    '0' as int <= c as int <= '9' as int || 'A' as int <= c as int <= 'F' as int
}

/// The canonical form of an address: every digit in upper case.
pub open spec fn is_canonical(text: Seq<char>) -> bool {
    &&& text.len() == 17
    &&& forall|i: int|
        #![trigger text[i]]
        0 <= i < 17 ==> if i % 3 == 2 {
            text[i] == ':'
        } else {
            is_upper_hex(text[i])
        }
}

proof fn lemma_hex_number_bound(digits: Seq<char>)
    ensures
        hex_number(digits) < pow16(digits.len()),
    decreases digits.len(),
{
    if digits.len() > 0 {
        lemma_hex_number_bound(digits.drop_last());
    }
}

proof fn lemma_pow16_at_most_twelve(n: nat)
    requires
        n <= 12,
    ensures
        pow16(n) <= 0x1_0000_0000_0000,
{
    reveal_with_fuel(pow16, 13);
}

/// The value of `c` as a hexadecimal digit.
fn hex_digit_value(c: char) -> (value: Option<u64>)
    ensures
        value is Some == hex_value(c) is Some,
        value is Some ==> value->0 == hex_value(c)->0,
{
    let code = c as u32;
    if 48 <= code && code <= 57 {
        Some((code - 48) as u64)
    } else if 97 <= code && code <= 102 {
        Some((code - 87) as u64)
    } else if 65 <= code && code <= 70 {
        Some((code - 55) as u64)
    } else {
        None
    }
}

/// Reads an address. Returns `None` unless the text is six octets of two
/// hexadecimal digits each, with a colon between one octet and the next.
pub fn mac_string_to_u64(addr: &String) -> (value: Option<u64>)
    ensures
        value == parse_mac(addr@),
        value is Some <==> is_address(addr@),
        value matches Some(address) ==> address < 0x1_0000_0000_0000,
        is_canonical(addr@) ==> value is Some && mac_text(value->0) == addr@,
{
    let mut chars = addr.as_str().chars();
    let mut number: u64 = 0;
    let mut position: usize = 0;
    loop
        invariant
            position <= 17,
            position <= addr@.len(),
            chars.remaining() == addr@.skip(position as int),
            forall|i: int|
                #![trigger addr@[i]]
                0 <= i < position ==> if i % 3 == 2 {
                    addr@[i] == ':'
                } else {
                    hex_value(addr@[i]) is Some
                },
            number == hex_number(grouped_digits(addr@).take(position - position / 3)),
        decreases addr@.len() - position,
    {
        let ghost done = grouped_digits(addr@).take(position - position / 3);
        match chars.next() {
            None => {
                if position != 17 {
                    return None;
                }
                proof {
                    assert(done =~= grouped_digits(addr@));
                    lemma_hex_number_bound(done);
                    lemma_pow16_at_most_twelve(12);
                    if is_canonical(addr@) {
                        law_text_round_trip(addr@);
                    }
                }
                return Some(number);
            },
            Some(c) => {
                assert(c == addr@[position as int]);
                assert(addr@.skip(position as int).drop_first() =~= addr@.skip(position + 1));
                if position == 17 {
                    return None;
                }
                if position % 3 == 2 {
                    if c != ':' {
                        return None;
                    }
                } else {
                    match hex_digit_value(c) {
                        None => {
                            return None;
                        },
                        Some(d) => {
                            let ghost next = grouped_digits(addr@).take(
                                position + 1 - (position + 1) / 3,
                            );
                            proof {
                                lemma_hex_number_bound(done);
                                lemma_pow16_at_most_twelve(done.len());
                                assert(done.len() + done.len() / 2 == position);
                                assert(next.drop_last() =~= done);
                                assert(next.last() == c);
                            }
                            number = 16 * number + d;
                        },
                    }
                }
                position = position + 1;
            },
        }
    }
}

proof fn lemma_hex_number_of_digits(value: nat, width: nat)
    ensures
        forall|i: int|
            0 <= i < width ==> is_upper_hex(#[trigger] hex_digits(value, width)[i]),
        hex_number(hex_digits(value, width)) == value % pow16(width),
    decreases width,
{
    let digits = hex_digits(value, width);
    lemma_hex_digits_len(value, width);
    if width == 0 {
        assert(pow16(0) == 1);
    } else {
        let rest = hex_digits(value / 16, (width - 1) as nat);
        lemma_hex_number_of_digits(value / 16, (width - 1) as nat);
        lemma_hex_digits_len(value / 16, (width - 1) as nat);
        lemma_pow16_positive((width - 1) as nat);
        assert(digits.drop_last() =~= rest);
        assert(hex_value(upper_hex(value % 16)) == Some(value % 16));
        assert forall|i: int| 0 <= i < width implies is_upper_hex(#[trigger] digits[i]) by {
            if i < rest.len() {
                assert(digits[i] == rest[i]);
            }
        }
        lemma_breakdown(value as int, 16, pow16((width - 1) as nat) as int);
    }
}

proof fn lemma_digits_of_hex_number(digits: Seq<char>)
    requires
        forall|i: int| 0 <= i < digits.len() ==> is_upper_hex(#[trigger] digits[i]),
    ensures
        hex_digits(hex_number(digits), digits.len()) == digits,
    decreases digits.len(),
{
    if digits.len() == 0 {
        assert(hex_digits(hex_number(digits), 0) =~= digits);
    } else {
        let rest = digits.drop_last();
        let last = digits.last();
        lemma_digits_of_hex_number(rest);
        assert(is_upper_hex(last));
        let d = hex_value(last)->0;
        assert(hex_value(last) is Some && d < 16);
        assert(upper_hex(d) == last);
        assert(hex_number(digits) == 16 * hex_number(rest) + d);
        assert(hex_number(digits) / 16 == hex_number(rest));
        assert(hex_number(digits) % 16 == d);
        assert(rest.push(last) =~= digits);
    }
}

/// Reading a canonical text and writing the result gives the text back.
pub proof fn law_text_round_trip(text: Seq<char>)
    requires
        is_canonical(text),
    ensures
        parse_mac(text) is Some,
        mac_text(parse_mac(text)->0) == text,
{
    let digits = grouped_digits(text);
    assert(is_address(text)) by {
        assert forall|i: int| #![trigger text[i]] 0 <= i < 17 implies if i % 3 == 2 {
            text[i] == ':'
        } else {
            hex_value(text[i]) is Some
        } by {
            if i % 3 != 2 {
                assert(is_upper_hex(text[i]));
            }
        }
    }
    assert forall|k: int| 0 <= k < 12 implies is_upper_hex(#[trigger] digits[k]) by {
        assert((k + k / 2) % 3 != 2);
        assert(is_upper_hex(text[k + k / 2]));
    }
    lemma_hex_number_bound(digits);
    lemma_pow16_at_most_twelve(12);
    lemma_digits_of_hex_number(digits);
    let value = hex_number(digits) as u64;
    assert(parse_mac(text) == Some(value));
    assert(mac_text(value) =~= text) by {
        assert forall|i: int| 0 <= i < 17 implies mac_text(value)[i] == text[i] by {
            if i % 3 != 2 {
                let k = 2 * (i / 3) + i % 3;
                assert(k + k / 2 == i);
                assert(digits[k] == text[i]);
            }
        }
    }
}

/// Every written address is canonical, and reading it gives back the low
/// 48 bits of the address that was written.
pub proof fn law_address_round_trip(addr: u64)
    ensures
        is_canonical(mac_text(addr)),
        parse_mac(mac_text(addr)) == Some((addr % 0x1_0000_0000_0000) as u64),
{
    let text = mac_text(addr);
    let digits = hex_digits(addr as nat, 12);
    lemma_hex_digits_len(addr as nat, 12);
    lemma_hex_number_of_digits(addr as nat, 12);
    assert(pow16(12) == 0x1_0000_0000_0000) by {
        reveal_with_fuel(pow16, 13);
    }
    assert forall|i: int| #![trigger text[i]] 0 <= i < 17 implies if i % 3 == 2 {
        text[i] == ':'
    } else {
        is_upper_hex(text[i]) && hex_value(text[i]) is Some
    } by {
        if i % 3 != 2 {
            assert(is_upper_hex(digits[2 * (i / 3) + i % 3]));
        }
    }
    assert(is_address(text));
    assert(grouped_digits(text) =~= digits) by {
        assert forall|k: int| 0 <= k < 12 implies grouped_digits(text)[k] == digits[k] by {
            let i = k + k / 2;
            assert(i % 3 != 2);
            assert(2 * (i / 3) + i % 3 == k);
        }
    }
}

} // verus!
