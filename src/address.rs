use vstd::prelude::*;
use vstd::string::StrSliceExecFns;
use crate::types::ArbitrageCore;

verus! {

pub open spec fn is_hex_char(c: char) -> bool {
    ('0' <= c && c <= '9') || ('a' <= c && c <= 'f') || ('A' <= c && c <= 'F')
}

/// `0x` followed by exactly 40 hex digits of either case.
pub open spec fn valid_address(s: Seq<char>) -> bool {
    &&& s.len() == 42
    &&& s[0] == '0'
    &&& s[1] == 'x'
    &&& forall|i: int| 2 <= i < 42 ==> #[trigger] is_hex_char(s[i])
}

/// Value of one hex digit.
pub open spec fn hex_value(c: char) -> int {
    if '0' <= c && c <= '9' {
        c as int - '0' as int
    } else if 'a' <= c && c <= 'f' {
        c as int - 'a' as int + 10
    } else {
        c as int - 'A' as int + 10
    }
}

/// The 20 bytes that the 40 digits of a valid address spell, big endian.
pub open spec fn address_bytes(s: Seq<char>) -> Seq<u8> {
    Seq::new(20, |i: int| (16 * hex_value(s[2 + 2 * i]) + hex_value(s[3 + 2 * i])) as u8)
}

fn is_hex_digit(c: char) -> (r: bool)
    ensures
        r == is_hex_char(c),
{
    ('0' <= c && c <= '9') || ('a' <= c && c <= 'f') || ('A' <= c && c <= 'F')
}

/// Whether `address` is `0x` followed by 40 hex digits. Purely syntactic.
pub fn is_valid_address(address: &str) -> (r: bool)
    ensures
        r == valid_address(address@),
{
    let n = address.unicode_len();
    if n != 42 {
        return false;
    }
    if address.get_char(0) != '0' || address.get_char(1) != 'x' {
        return false;
    }
    let mut i: usize = 2;
    while i < 42
        invariant
            2 <= i <= 42,
            address@.len() == 42,
            forall|j: int| 2 <= j < i ==> #[trigger] is_hex_char(address@[j]),
        decreases 42 - i,
    {
        if !is_hex_digit(address.get_char(i)) {
            return false;
        }
        i = i + 1;
    }
    true
}

/// Relies on `FromStr` for web3's `Address` (fixed-hash's `H160`): it strips
/// an optional `0x`, then decodes exactly 40 hex digits of either case, the
/// first digit of each pair as the high nibble, into the 20 bytes in order.
#[verifier::external_body]
fn parse_address(s: &str) -> (r: Option<[u8; 20]>)
    ensures
        valid_address(s@) ==> r is Some && r->0@ == address_bytes(s@),
{
    match s.parse::<web3::types::Address>() {
        Ok(a) => Some(a.to_fixed_bytes()),
        Err(_) => None,
    }
}

/// Parses a valid address into its 20 bytes; `None` when it is not valid.
pub fn parse_valid_address(s: &str) -> (r: Option<[u8; 20]>)
    ensures
        r is Some <==> valid_address(s@),
        r is Some ==> r->0@ == address_bytes(s@),
{
    if !is_valid_address(s) {
        return None;
    }
    parse_address(s)
}

impl ArbitrageCore {
    /// Whether `address` is `0x` followed by 40 hex digits.
    pub fn is_valid_address(&self, address: &str) -> (r: bool)
        ensures
            r == valid_address(address@),
    {
        is_valid_address(address)
    }
}

} // verus!
