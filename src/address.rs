//! Account addresses: twenty bytes, written as forty hexadecimal digits.

use vstd::prelude::*;

use std::str::FromStr;

verus! {

/// The address of an account or contract.
pub struct Address {
    pub bytes: Vec<u8>,
}

impl View for Address {
    type V = Seq<u8>;

    open spec fn view(&self) -> Seq<u8> {
        self.bytes@
    }
}

pub open spec fn is_hex_digit(c: char) -> bool {
    ('0' <= c && c <= '9') || ('a' <= c && c <= 'f') || ('A' <= c && c <= 'F')
}

pub open spec fn hex_value(c: char) -> int {
    if '0' <= c && c <= '9' {
        c as int - '0' as int
    } else if 'a' <= c && c <= 'f' {
        c as int - 'a' as int + 10
    } else {
        c as int - 'A' as int + 10
    }
}

/// The text with one leading `0x` or `0X` removed.
pub open spec fn without_hex_prefix(s: Seq<char>) -> Seq<char> {
    if s.len() >= 2 && s[0] == '0' && (s[1] == 'x' || s[1] == 'X') {
        s.subrange(2, s.len() as int)
    } else {
        s
    }
}

/// The text of an address: forty hexadecimal digits after an optional prefix.
pub open spec fn is_address_text(s: Seq<char>) -> bool {
    let t = without_hex_prefix(s);
    t.len() == 40 && forall|i: int| 0 <= i < 40 ==> is_hex_digit(#[trigger] t[i])
}

/// The bytes that address text stands for, high digit first.
pub open spec fn address_bytes(s: Seq<char>) -> Seq<u8> {
    let t = without_hex_prefix(s);
    Seq::new(20, |i: int| (hex_value(t[2 * i]) * 16 + hex_value(t[2 * i + 1])) as u8)
}

/// Relies on alloy_primitives::Address::from_str: it accepts exactly forty
/// hexadecimal digits of either case after an optional `0x` or `0X`, and
/// decodes them two digits to a byte.
#[verifier::external_body]
fn parse_address_text(s: &str) -> (r: Option<Address>)
    ensures
        r is Some <==> is_address_text(s@),
        r matches Some(a) ==> a@ == address_bytes(s@),
{
    alloy_primitives::Address::from_str(s).ok().map(|a| Address { bytes: a.0.0.to_vec() })
}

impl Address {
    /// Reads an address from its hexadecimal text; `None` where the text is
    /// not forty hexadecimal digits after an optional `0x`.
    pub fn from_hex(s: &str) -> (r: Option<Address>)
        ensures
            r is Some <==> is_address_text(s@),
            r matches Some(a) ==> a@ == address_bytes(s@) && a@.len() == 20,
    {
        parse_address_text(s)
    }

    /// Whether two addresses are the same.
    pub fn same_as(&self, other: &Address) -> (r: bool)
        ensures
            r == (self@ == other@),
    {
        if self.bytes.len() != other.bytes.len() {
            return false;
        }
        let mut i: usize = 0;
        while i < self.bytes.len()
            invariant
                i <= self.bytes.len(),
                self.bytes.len() == other.bytes.len(),
                forall|k: int| 0 <= k < i ==> self@[k] == other@[k],
            decreases self.bytes.len() - i,
        {
            if self.bytes[i] != other.bytes[i] {
                return false;
            }
            i = i + 1;
        }
        assert(self@ =~= other@);
        true
    }
}

} // verus!
