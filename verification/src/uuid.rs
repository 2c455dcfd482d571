//! A plain model of the 128-bit identifiers the platform uses, together with
//! a verified codec for their hyphenated hexadecimal wire form
//! (`xxxxxxxx-xxxx-xxxx-xxxx-xxxxxxxxxxxx`, 36 characters).

use vstd::prelude::*;

verus! {

/// A 128-bit universally unique identifier, held as its raw bits.
#[derive(Clone, Copy, Debug, PartialEq, Eq, Hash, Structural)]
pub struct Uuid(pub u128);

/// The `n` base-16 digits of `v`, most significant first.
pub open spec fn to_digits(v: int, n: nat) -> Seq<u8>
    decreases n,
{
    if n == 0 {
        Seq::empty()
    } else {
        to_digits(v / 16, (n - 1) as nat).push((v % 16) as u8)
    }
}

/// The value of a base-16 digit string, most significant digit first.
pub open spec fn from_digits(s: Seq<u8>) -> int
    decreases s.len(),
{
    if s.len() == 0 {
        0
    } else {
        16 * from_digits(s.drop_last()) + s.last()
    }
}

/// The `n`-th power of 16.
pub open spec fn pow16(n: nat) -> int
    decreases n,
{
    if n == 0 {
        1
    } else {
        16 * pow16((n - 1) as nat)
    }
}

proof fn lemma_pow16_pos(n: nat)
    ensures
        pow16(n) >= 1,
    decreases n,
{
    if n > 0 {
        lemma_pow16_pos((n - 1) as nat);
    }
}

proof fn lemma_pow16_increases(m: nat, n: nat)
    requires
        m <= n,
    ensures
        pow16(m) <= pow16(n),
    decreases n,
{
    if m < n {
        lemma_pow16_increases(m, (n - 1) as nat);
        lemma_pow16_pos((n - 1) as nat);
    }
}

proof fn lemma_pow16_32()
    ensures
        pow16(32) == 0x1_0000_0000_0000_0000_0000_0000_0000_0000,
{
    reveal_with_fuel(pow16, 33);
}

proof fn lemma_to_digits_props(v: int, n: nat)
    ensures
        to_digits(v, n).len() == n,
        forall|i: int| 0 <= i < n ==> #[trigger] to_digits(v, n)[i] < 16,
    decreases n,
{
    if n > 0 {
        lemma_to_digits_props(v / 16, (n - 1) as nat);
    }
}

/// Reading back the digits of a value below `16^n` yields that value.
proof fn lemma_from_to_digits(v: int, n: nat)
    requires
        0 <= v < pow16(n),
    ensures
        from_digits(to_digits(v, n)) == v,
    decreases n,
{
    if n == 0 {
    } else {
        let q = v / 16;
        let r = v % 16;
        assert(v == 16 * q + r) by {
            vstd::arithmetic::div_mod::lemma_fundamental_div_mod(v, 16);
        }
        assert(q < pow16((n - 1) as nat)) by (nonlinear_arith)
            requires
                0 <= v < 16 * pow16((n - 1) as nat),
                q == v / 16,
        ;
        lemma_from_to_digits(q, (n - 1) as nat);
        let t = to_digits(q, (n - 1) as nat);
        assert(t.push(r as u8).drop_last() =~= t);
    }
}

/// The character standing for one base-16 digit, lower case.
pub open spec fn hex_char_of(d: u8) -> char {
    if d == 0 {
        '0'
    } else if d == 1 {
        '1'
    } else if d == 2 {
        '2'
    } else if d == 3 {
        '3'
    } else if d == 4 {
        '4'
    } else if d == 5 {
        '5'
    } else if d == 6 {
        '6'
    } else if d == 7 {
        '7'
    } else if d == 8 {
        '8'
    } else if d == 9 {
        '9'
    } else if d == 10 {
        'a'
    } else if d == 11 {
        'b'
    } else if d == 12 {
        'c'
    } else if d == 13 {
        'd'
    } else if d == 14 {
        'e'
    } else {
        'f'
    }
}

/// Whether `c` is a base-16 digit character, of either case.
pub open spec fn is_hex_char(c: char) -> bool {
    ||| '0' as int <= c as int <= '9' as int
    ||| 'a' as int <= c as int <= 'f' as int
    ||| 'A' as int <= c as int <= 'F' as int
}

/// The value of a base-16 digit character; zero for any other character.
pub open spec fn hex_digit_val(c: char) -> u8 {
    if '0' as int <= c as int <= '9' as int {
        (c as int - '0' as int) as u8
    } else if 'a' as int <= c as int <= 'f' as int {
        (c as int - 'a' as int + 10) as u8
    } else if 'A' as int <= c as int <= 'F' as int {
        (c as int - 'A' as int + 10) as u8
    } else {
        0
    }
}

proof fn lemma_hex_char_val(d: u8)
    requires
        d < 16,
    ensures
        is_hex_char(hex_char_of(d)),
        hex_digit_val(hex_char_of(d)) == d,
{
}

/// The one-character string standing for one base-16 digit.
fn hex_str(d: u8) -> (r: &'static str)
    requires
        d < 16,
    ensures
        r@.len() == 1,
        r@[0] == hex_char_of(d),
{
    proof {
        reveal_strlit("0");
        reveal_strlit("1");
        reveal_strlit("2");
        reveal_strlit("3");
        reveal_strlit("4");
        reveal_strlit("5");
        reveal_strlit("6");
        reveal_strlit("7");
        reveal_strlit("8");
        reveal_strlit("9");
        reveal_strlit("a");
        reveal_strlit("b");
        reveal_strlit("c");
        reveal_strlit("d");
        reveal_strlit("e");
        reveal_strlit("f");
    }
    if d == 0 {
        "0"
    } else if d == 1 {
        "1"
    } else if d == 2 {
        "2"
    } else if d == 3 {
        "3"
    } else if d == 4 {
        "4"
    } else if d == 5 {
        "5"
    } else if d == 6 {
        "6"
    } else if d == 7 {
        "7"
    } else if d == 8 {
        "8"
    } else if d == 9 {
        "9"
    } else if d == 10 {
        "a"
    } else if d == 11 {
        "b"
    } else if d == 12 {
        "c"
    } else if d == 13 {
        "d"
    } else if d == 14 {
        "e"
    } else {
        "f"
    }
}

/// The value of one base-16 digit character, of either case.
pub fn hex_val(c: char) -> (r: Option<u8>)
    ensures
        r == if is_hex_char(c) {
            Some(hex_digit_val(c))
        } else {
            None::<u8>
        },
{
    let v = c as u32;
    if 48 <= v && v <= 57 {
        Some((v - 48) as u8)
    } else if 97 <= v && v <= 102 {
        Some((v - 87) as u8)
    } else if 65 <= v && v <= 70 {
        Some((v - 55) as u8)
    } else {
        None
    }
}

/// The 32 hexadecimal digit characters of `bits`, most significant first.
pub open spec fn uuid_digit_chars(bits: u128) -> Seq<char> {
    to_digits(bits as int, 32).map_values(|d: u8| hex_char_of(d))
}

/// The 36-character hyphenated form of `bits`: digit groups of 8, 4, 4, 4
/// and 12, separated by hyphens.
pub open spec fn uuid_chars(bits: u128) -> Seq<char> {
    let d = uuid_digit_chars(bits);
    d.subrange(0, 8) + seq!['-'] + d.subrange(8, 12) + seq!['-'] + d.subrange(12, 16) + seq!['-']
        + d.subrange(16, 20) + seq!['-'] + d.subrange(20, 32)
}

/// Whether position `i` of a 36-character identifier holds a hyphen.
pub open spec fn is_hyphen_pos(i: int) -> bool {
    i == 8 || i == 13 || i == 18 || i == 23
}

/// The 36-character string with its four hyphens removed.
pub open spec fn strip_hyphens(s: Seq<char>) -> Seq<char> {
    s.subrange(0, 8) + s.subrange(9, 13) + s.subrange(14, 18) + s.subrange(19, 23) + s.subrange(
        24,
        36,
    )
}

/// Whether `s` is a well-formed hyphenated identifier: 36 characters,
/// hyphens exactly at positions 8, 13, 18 and 23, and base-16 digits of
/// either case everywhere else.
pub open spec fn is_uuid_str(s: Seq<char>) -> bool {
    &&& s.len() == 36
    &&& s[8] == '-'
    &&& s[13] == '-'
    &&& s[18] == '-'
    &&& s[23] == '-'
    &&& forall|i: int| 0 <= i < 36 && !is_hyphen_pos(i) ==> is_hex_char(#[trigger] s[i])
}

/// The value written by a well-formed hyphenated identifier.
pub open spec fn uuid_bits_of(s: Seq<char>) -> int {
    from_digits(strip_hyphens(s).map_values(|c: char| hex_digit_val(c)))
}

/// What parsing a candidate identifier string yields: the written value for
/// a well-formed string, and nothing for any other string.
pub open spec fn spec_parse_uuid(s: Seq<char>) -> Option<Uuid> {
    if is_uuid_str(s) {
        Some(Uuid(uuid_bits_of(s) as u128))
    } else {
        None
    }
}

/// Appends the `n` base-16 digits of `v`, most significant first.
fn push_digits(v: u128, n: usize, out: &mut Vec<u8>)
    ensures
        final(out)@ == old(out)@ + to_digits(v as int, n as nat),
    decreases n,
{
    if n == 0 {
        proof {
            assert(out@ =~= out@ + to_digits(v as int, 0));
        }
    } else {
        push_digits(v / 16, n - 1, out);
        out.push((v % 16) as u8);
        proof {
            assert(out@ =~= old(out)@ + to_digits(v as int, n as nat));
        }
    }
}

/// Appends the digit characters for `digits[from..to]`.
fn append_hex_range(s: &mut String, digits: &Vec<u8>, from: usize, to: usize)
    requires
        from <= to <= digits@.len(),
        forall|i: int| 0 <= i < digits@.len() ==> #[trigger] digits@[i] < 16,
    ensures
        final(s)@ == old(s)@ + digits@.subrange(from as int, to as int).map_values(
            |d: u8| hex_char_of(d),
        ),
{
    let mut i: usize = from;
    while i < to
        invariant
            from <= i <= to <= digits@.len(),
            forall|k: int| 0 <= k < digits@.len() ==> #[trigger] digits@[k] < 16,
            s@ == old(s)@ + digits@.subrange(from as int, i as int).map_values(
                |d: u8| hex_char_of(d),
            ),
        decreases to - i,
    {
        let h = hex_str(digits[i]);
        s.append(h);
        proof {
            assert(digits@.subrange(from as int, i + 1).map_values(|d: u8| hex_char_of(d))
                =~= digits@.subrange(from as int, i as int).map_values(|d: u8| hex_char_of(d)).push(
                hex_char_of(digits@[i as int]),
            ));
            assert(s@ =~= old(s)@ + digits@.subrange(from as int, i + 1).map_values(
                |d: u8| hex_char_of(d),
            ));
        }
        i += 1;
    }
}

/// The value of 32 base-16 digits, most significant first.
fn digits_to_u128(digits: &Vec<u8>) -> (r: u128)
    requires
        digits@.len() == 32,
        forall|i: int| 0 <= i < 32 ==> #[trigger] digits@[i] < 16,
    ensures
        r as int == from_digits(digits@),
{
    proof {
        lemma_pow16_32();
    }
    let mut acc: u128 = 0;
    let mut i: usize = 0;
    while i < 32
        invariant
            0 <= i <= 32,
            digits@.len() == 32,
            forall|k: int| 0 <= k < 32 ==> #[trigger] digits@[k] < 16,
            acc as int == from_digits(digits@.subrange(0, i as int)),
            (acc as int) < pow16(i as nat),
            pow16(32) == 0x1_0000_0000_0000_0000_0000_0000_0000_0000,
        decreases 32 - i,
    {
        proof {
            lemma_pow16_increases(i as nat, 31);
            lemma_pow16_increases((i + 1) as nat, 32);
            assert(digits@.subrange(0, i + 1).drop_last() =~= digits@.subrange(0, i as int));
        }
        acc = acc * 16 + (digits[i] as u128);
        i += 1;
    }
    proof {
        assert(digits@.subrange(0, 32) =~= digits@);
    }
    acc
}

impl Uuid {
    /// The hyphenated, lower-case string form of the identifier.
    pub fn to_hyphenated(&self) -> (r: String)
        ensures
            r@ == uuid_chars(self.0),
    {
        let mut digits: Vec<u8> = Vec::new();
        push_digits(self.0, 32, &mut digits);
        proof {
            lemma_to_digits_props(self.0 as int, 32);
            assert(digits@ =~= to_digits(self.0 as int, 32));
        }
        let mut s = String::new();
        append_hex_range(&mut s, &digits, 0, 8);
        s.append("-");
        append_hex_range(&mut s, &digits, 8, 12);
        s.append("-");
        append_hex_range(&mut s, &digits, 12, 16);
        s.append("-");
        append_hex_range(&mut s, &digits, 16, 20);
        s.append("-");
        append_hex_range(&mut s, &digits, 20, 32);
        proof {
            reveal_strlit("-");
            assert(s@ =~= uuid_chars(self.0));
        }
        s
    }

    /// Parses the hyphenated string form, of either case. Any string that is
    /// not a well-formed 36-character hyphenated identifier is rejected.
    pub fn parse(s: &str) -> (r: Option<Uuid>)
        ensures
            r == spec_parse_uuid(s@),
    {
        let n = s.unicode_len();
        if n != 36 {
            return None;
        }
        let mut digits: Vec<u8> = Vec::new();
        let mut i: usize = 0;
        while i < 36
            invariant
                0 <= i <= 36,
                s@.len() == 36,
                digits@.len() == i - spec_hyphens_before(i as int),
                forall|j: int| 0 <= j < i && is_hyphen_pos(j) ==> s@[j] == '-',
                forall|j: int| 0 <= j < i && !is_hyphen_pos(j) ==> is_hex_char(#[trigger] s@[j]),
                forall|k: int|
                    0 <= k < digits@.len() ==> #[trigger] digits@[k] == hex_digit_val(
                        s@[spec_nib_pos(k)]),
            decreases 36 - i,
        {
            let c = s.get_char(i);
            if i == 8 || i == 13 || i == 18 || i == 23 {
                if c != '-' {
                    return None;
                }
            } else {
                match hex_val(c) {
                    Some(d) => {
                        proof {
                            assert(spec_nib_pos(digits@.len() as int) == i);
                        }
                        digits.push(d);
                    },
                    None => {
                        return None;
                    },
                }
            }
            i += 1;
        }
        proof {
            assert(digits@ =~= strip_hyphens(s@).map_values(|c: char| hex_digit_val(c))) by {
                assert forall|k: int| 0 <= k < 32 implies strip_hyphens(s@)[k] == s@[
                    spec_nib_pos(k)] by {}
            }
            assert forall|k: int| 0 <= k < 32 implies #[trigger] digits@[k] < 16 by {
                assert(is_hex_char(s@[spec_nib_pos(k)]));
            }
        }
        let bits = digits_to_u128(&digits);
        Some(Uuid(bits))
    }
}

/// How many of the four hyphen positions lie strictly before position `i`.
spec fn spec_hyphens_before(i: int) -> int {
    (if i > 8 {
        1int
    } else {
        0int
    }) + (if i > 13 {
        1int
    } else {
        0int
    }) + (if i > 18 {
        1int
    } else {
        0int
    }) + (if i > 23 {
        1int
    } else {
        0int
    })
}

/// The position, within the 36-character form, of digit number `k`.
spec fn spec_nib_pos(k: int) -> int {
    k + (if k < 8 {
        0int
    } else if k < 12 {
        1int
    } else if k < 16 {
        2int
    } else if k < 20 {
        3int
    } else {
        4int
    })
}

/// The hyphenated form is always exactly 36 characters long.
pub proof fn lemma_uuid_chars_len(bits: u128)
    ensures
        uuid_chars(bits).len() == 36,
{
    lemma_to_digits_props(bits as int, 32);
}

/// Writing an identifier in its hyphenated form and parsing it back yields
/// the identifier again.
pub proof fn lemma_uuid_round_trip(bits: u128)
    ensures
        spec_parse_uuid(uuid_chars(bits)) == Some(Uuid(bits)),
{
    lemma_to_digits_props(bits as int, 32);
    let d = to_digits(bits as int, 32);
    let dc = uuid_digit_chars(bits);
    let u = uuid_chars(bits);
    assert(dc.len() == 32);
    assert(u.len() == 36);
    assert forall|i: int| 0 <= i < 36 && !is_hyphen_pos(i) implies is_hex_char(#[trigger] u[i]) by {
        assert(u[i] == dc[i - spec_hyphens_before(i)]);
        lemma_hex_char_val(d[i - spec_hyphens_before(i)]);
    }
    assert(is_uuid_str(u));
    assert(strip_hyphens(u) =~= dc);
    assert(strip_hyphens(u).map_values(|c: char| hex_digit_val(c)) =~= d) by {
        assert forall|k: int| 0 <= k < 32 implies strip_hyphens(u).map_values(
            |c: char| hex_digit_val(c),
        )[k] == d[k] by {
            lemma_hex_char_val(d[k]);
        }
    }
    lemma_pow16_32();
    lemma_from_to_digits(bits as int, 32);
}

} // verus!
