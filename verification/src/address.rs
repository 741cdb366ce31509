//! Canonical hardware addresses.
//!
//! The only wire-level text format the manager parses or produces: six
//! hexadecimal octets separated by colons, `XX:XX:XX:XX:XX:XX`. Parsing
//! accepts upper- or lower-case digits; formatting always produces
//! upper-case digits.

use vstd::prelude::*;

use crate::errors::BluetoothError;

verus! {

/// A parsed hardware address: six octets.
#[derive(Debug, Clone, Copy, PartialEq, Eq)]
pub struct DeviceAddress {
    pub octets: [u8; 6],
}

/// `c` is a hexadecimal digit (either case).
pub open spec fn is_hex_digit(c: char) -> bool {
    (48 <= c as u32 <= 57) || (65 <= c as u32 <= 70) || (97 <= c as u32 <= 102)
}

/// The numeric value of a hexadecimal digit.
pub open spec fn hex_digit_value(c: char) -> u8 {
    if 48 <= c as u32 <= 57 {
        (c as u32 - 48) as u8
    } else if 65 <= c as u32 <= 70 {
        (c as u32 - 55) as u8
    } else if 97 <= c as u32 <= 102 {
        (c as u32 - 87) as u8
    } else {
        0
    }
}

/// What the character at position `i` of a canonical address must be:
/// a colon at every third position, a hexadecimal digit elsewhere.
pub open spec fn address_char_ok(i: int, c: char) -> bool {
    if i % 3 == 2 {
        c == ':'
    } else {
        is_hex_digit(c)
    }
}

/// `s` is a canonical address: 17 characters, colons at positions
/// 2, 5, 8, 11 and 14, hexadecimal digits everywhere else.
pub open spec fn valid_address_chars(s: Seq<char>) -> bool {
    s.len() == 17 && (forall|i: int| 0 <= i < 17 ==> #[trigger] address_char_ok(i, s[i]))
}

/// The octet written with the digits `h` (high) and `l` (low).
pub open spec fn octet_value(h: char, l: char) -> u8 {
    (hex_digit_value(h) * 16 + hex_digit_value(l)) as u8
}

/// The six octets written in a canonical address.
pub open spec fn parsed_octets(s: Seq<char>) -> Seq<u8> {
    Seq::new(6, |k: int| octet_value(s[3 * k], s[3 * k + 1]))
}

/// The upper-case hexadecimal digit for a value below 16.
pub open spec fn upper_hex_digit(v: u8) -> char {
    if v == 0 { '0' }
    else if v == 1 { '1' }
    else if v == 2 { '2' }
    else if v == 3 { '3' }
    else if v == 4 { '4' }
    else if v == 5 { '5' }
    else if v == 6 { '6' }
    else if v == 7 { '7' }
    else if v == 8 { '8' }
    else if v == 9 { '9' }
    else if v == 10 { 'A' }
    else if v == 11 { 'B' }
    else if v == 12 { 'C' }
    else if v == 13 { 'D' }
    else if v == 14 { 'E' }
    else { 'F' }
}

/// The two upper-case digits of one octet.
pub open spec fn octet_chars(v: u8) -> Seq<char> {
    seq![upper_hex_digit(v / 16), upper_hex_digit(v % 16)]
}

/// The canonical text of six octets.
pub open spec fn address_chars(o: Seq<u8>) -> Seq<char> {
    octet_chars(o[0]) + seq![':'] + octet_chars(o[1]) + seq![':'] + octet_chars(o[2])
        + seq![':'] + octet_chars(o[3]) + seq![':'] + octet_chars(o[4]) + seq![':']
        + octet_chars(o[5])
}

/// Whether `c` is a hexadecimal digit.
fn is_hex_digit_exec(c: char) -> (r: bool)
    ensures
        r == is_hex_digit(c),
{
    let x = c as u32;
    (48 <= x && x <= 57) || (65 <= x && x <= 70) || (97 <= x && x <= 102)
}

/// The numeric value of a hexadecimal digit.
fn hex_digit_value_exec(c: char) -> (r: u8)
    requires
        is_hex_digit(c),
    ensures
        r == hex_digit_value(c),
{
    let x = c as u32;
    if 48 <= x && x <= 57 {
        (x - 48) as u8
    } else if 65 <= x && x <= 70 {
        (x - 55) as u8
    } else {
        (x - 87) as u8
    }
}

/// The octet written at position `pos` of `s` (two hexadecimal digits).
fn read_octet(s: &str, pos: usize) -> (r: u8)
    requires
        s@.len() <= usize::MAX,
        pos + 2 <= s@.len(),
        is_hex_digit(s@[pos as int]),
        is_hex_digit(s@[pos as int + 1]),
    ensures
        r == octet_value(s@[pos as int], s@[pos as int + 1]),
{
    let h = hex_digit_value_exec(s.get_char(pos));
    let l = hex_digit_value_exec(s.get_char(pos + 1));
    h * 16 + l
}

/// Append the upper-case digit of a value below 16.
fn push_hex_digit(out: &mut String, v: u8)
    requires
        v < 16,
    ensures
        final(out)@ == old(out)@ + seq![upper_hex_digit(v)],
{
    proof {
        reveal_strlit("0");
        reveal_strlit("1");
        reveal_strlit("2");
        reveal_strlit("3");
        reveal_strlit("4");
        reveal_strlit("5");
        reveal_strlit("6");
        reveal_strlit("7");
        reveal_strlit("8");
        reveal_strlit("9");
        reveal_strlit("A");
        reveal_strlit("B");
        reveal_strlit("C");
        reveal_strlit("D");
        reveal_strlit("E");
        reveal_strlit("F");
    }
    let ghost before = out@;
    if v == 0 { out.append("0"); }
    else if v == 1 { out.append("1"); }
    else if v == 2 { out.append("2"); }
    else if v == 3 { out.append("3"); }
    else if v == 4 { out.append("4"); }
    else if v == 5 { out.append("5"); }
    else if v == 6 { out.append("6"); }
    else if v == 7 { out.append("7"); }
    else if v == 8 { out.append("8"); }
    else if v == 9 { out.append("9"); }
    else if v == 10 { out.append("A"); }
    else if v == 11 { out.append("B"); }
    else if v == 12 { out.append("C"); }
    else if v == 13 { out.append("D"); }
    else if v == 14 { out.append("E"); }
    else { out.append("F"); }
    proof {
        assert(out@ =~= before + seq![upper_hex_digit(v)]);
    }
}

/// Append the two digits of one octet.
fn push_octet(out: &mut String, v: u8)
    ensures
        final(out)@ == old(out)@ + octet_chars(v),
{
    let ghost before = out@;
    push_hex_digit(out, v / 16);
    push_hex_digit(out, v % 16);
    proof {
        assert(out@ =~= before + octet_chars(v));
    }
}

/// Append the separating colon.
fn push_colon(out: &mut String)
    ensures
        final(out)@ == old(out)@ + seq![':'],
{
    proof {
        reveal_strlit(":");
    }
    let ghost before = out@;
    out.append(":");
    proof {
        assert(out@ =~= before + seq![':']);
    }
}

/// Below 16, the upper-case digit is a hexadecimal digit and reads back
/// as the same value.
pub proof fn lemma_upper_hex_digit(v: u8)
    requires
        v < 16,
    ensures
        is_hex_digit(upper_hex_digit(v)),
        hex_digit_value(upper_hex_digit(v)) == v,
{
}

/// Formatting six octets yields a canonical address, and parsing that
/// text gives the same six octets back.
pub proof fn lemma_canonical_roundtrip(o: Seq<u8>)
    requires
        o.len() == 6,
    ensures
        valid_address_chars(address_chars(o)),
        parsed_octets(address_chars(o)) =~= o,
{
    let s = address_chars(o);
    assert forall|k: int| 0 <= k < 6 implies s[3 * k] == upper_hex_digit(o[k] / 16)
        && s[3 * k + 1] == upper_hex_digit(o[k] % 16) by {
        assert(s[0] == upper_hex_digit(o[0] / 16));
        assert(s[1] == upper_hex_digit(o[0] % 16));
        assert(s[3] == upper_hex_digit(o[1] / 16));
        assert(s[4] == upper_hex_digit(o[1] % 16));
        assert(s[6] == upper_hex_digit(o[2] / 16));
        assert(s[7] == upper_hex_digit(o[2] % 16));
        assert(s[9] == upper_hex_digit(o[3] / 16));
        assert(s[10] == upper_hex_digit(o[3] % 16));
        assert(s[12] == upper_hex_digit(o[4] / 16));
        assert(s[13] == upper_hex_digit(o[4] % 16));
        assert(s[15] == upper_hex_digit(o[5] / 16));
        assert(s[16] == upper_hex_digit(o[5] % 16));
    }
    assert forall|i: int| 0 <= i < 17 implies #[trigger] address_char_ok(i, s[i]) by {
        if i % 3 == 2 {
            assert(s[2] == ':');
            assert(s[5] == ':');
            assert(s[8] == ':');
            assert(s[11] == ':');
            assert(s[14] == ':');
        } else {
            let k = i / 3;
            if i % 3 == 0 {
                assert(s[3 * k] == upper_hex_digit(o[k] / 16));
                lemma_upper_hex_digit(o[k] / 16);
            } else {
                assert(s[3 * k + 1] == upper_hex_digit(o[k] % 16));
                lemma_upper_hex_digit(o[k] % 16);
            }
        }
    }
    assert forall|k: int| 0 <= k < 6 implies parsed_octets(s)[k] == o[k] by {
        lemma_upper_hex_digit(o[k] / 16);
        lemma_upper_hex_digit(o[k] % 16);
        assert(octet_value(s[3 * k], s[3 * k + 1]) == (o[k] / 16 * 16 + o[k] % 16) as u8);
    }
}

impl DeviceAddress {
    /// The canonical upper-case text of this address.
    pub fn canonical_string(&self) -> (r: String)
        ensures
            r@ == address_chars(self.octets@),
    {
        let mut out = String::new();
        push_octet(&mut out, self.octets[0]);
        push_colon(&mut out);
        push_octet(&mut out, self.octets[1]);
        push_colon(&mut out);
        push_octet(&mut out, self.octets[2]);
        push_colon(&mut out);
        push_octet(&mut out, self.octets[3]);
        push_colon(&mut out);
        push_octet(&mut out, self.octets[4]);
        push_colon(&mut out);
        push_octet(&mut out, self.octets[5]);
        proof {
            assert(out@ =~= address_chars(self.octets@));
        }
        out
    }

    /// Parse a caller-supplied address string. Returns the six octets
    /// exactly when the string is in canonical form; any malformed
    /// string is rejected as `InvalidAddress`.
    pub fn parse(s: &str) -> (r: Result<DeviceAddress, BluetoothError>)
        ensures
            r is Ok <==> valid_address_chars(s@),
            r is Ok ==> (r->Ok_0).octets@ == parsed_octets(s@),
            r is Err ==> r == Err::<DeviceAddress, BluetoothError>(
                BluetoothError::InvalidAddress,
            ),
    {
        let n: usize = s.unicode_len();
        if n != 17 {
            return Err(BluetoothError::InvalidAddress);
        }
        let mut i: usize = 0;
        while i < 17
            invariant
                i <= 17,
                s@.len() == 17,
                forall|k: int| 0 <= k < i ==> #[trigger] address_char_ok(k, s@[k]),
            decreases 17 - i,
        {
            let c = s.get_char(i);
            let ok = if i % 3 == 2 {
                c == ':'
            } else {
                is_hex_digit_exec(c)
            };
            if !ok {
                proof {
                    assert(!address_char_ok(i as int, s@[i as int]));
                }
                return Err(BluetoothError::InvalidAddress);
            }
            i += 1;
        }
        proof {
            assert forall|k: int| 0 <= k < 17 && k % 3 != 2 implies is_hex_digit(s@[k]) by {
                assert(address_char_ok(k, s@[k]));
            }
        }
        let octets: [u8; 6] = [
            read_octet(s, 0),
            read_octet(s, 3),
            read_octet(s, 6),
            read_octet(s, 9),
            read_octet(s, 12),
            read_octet(s, 15),
        ];
        proof {
            assert(octets@ =~= parsed_octets(s@));
        }
        Ok(DeviceAddress { octets })
    }
}

} // verus!
