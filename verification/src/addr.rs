//! Device addresses and button identifiers, and how they are written out.

use crate::text::{hex_encode, hex_of};
use vstd::prelude::*;
use vstd::slice::{slice_subrange, slice_to_vec};
use vstd::string::StringExecFns;

verus! {

/// Appends the hexadecimal digits of `bytes[from .. to]` to `s`.
fn push_hex(s: &mut String, bytes: &[u8], from: usize, to: usize)
    requires
        from <= to <= bytes.len(),
    ensures
        final(s)@ == old(s)@ + hex_of(bytes@.subrange(from as int, to as int)),
{
    let digits = hex_encode(slice_subrange(bytes, from, to));
    s.append(digits.as_str());
}

/// A Bluetooth device address: six bytes, least significant first, as the
/// protocol carries them.
#[derive(Clone, Copy, Debug, PartialEq, Eq)]
pub struct BdAddr(pub [u8; 6]);

impl View for BdAddr {
    type V = BdAddr;

    open spec fn view(&self) -> BdAddr {
        *self
    }
}

impl BdAddr {
    /// The address as people write it: six octets of two hexadecimal digits,
    /// most significant first, with colons between them.
    pub open spec fn text(self) -> Seq<char> {
        let b = self.0@;
        hex_of(b.subrange(5, 6)) + seq![':'] + hex_of(b.subrange(4, 5)) + seq![':'] + hex_of(
            b.subrange(3, 4),
        ) + seq![':'] + hex_of(b.subrange(2, 3)) + seq![':'] + hex_of(b.subrange(1, 2)) + seq![':']
            + hex_of(b.subrange(0, 1))
    }

    /// The six bytes in wire order.
    pub fn to_vec(&self) -> (v: Vec<u8>)
        ensures
            v@ == self.0@,
    {
        slice_to_vec(self.0.as_slice())
    }

    /// Renders the address for display.
    pub fn to_string(&self) -> (s: String)
        ensures
            s@ == self.text(),
    {
        proof {
            reveal_strlit(":");
            assert(":"@ =~= seq![':']);
        }
        let bytes = self.0.as_slice();
        let mut s = String::new();
        push_hex(&mut s, bytes, 5, 6);
        s.append(":");
        push_hex(&mut s, bytes, 4, 5);
        s.append(":");
        push_hex(&mut s, bytes, 3, 4);
        s.append(":");
        push_hex(&mut s, bytes, 2, 3);
        s.append(":");
        push_hex(&mut s, bytes, 1, 2);
        s.append(":");
        push_hex(&mut s, bytes, 0, 1);
        assert(s@ =~= self.text());
        s
    }
}

/// A button's 128-bit identifier.
#[derive(Clone, Copy, Debug, PartialEq, Eq)]
pub struct Uuid(pub [u8; 16]);

impl View for Uuid {
    type V = Uuid;

    open spec fn view(&self) -> Uuid {
        *self
    }
}

impl Uuid {
    /// The identifier in the usual grouping of 8, 4, 4, 4 and 12 hexadecimal
    /// digits, with hyphens between the groups.
    pub open spec fn text(self) -> Seq<char> {
        let b = self.0@;
        hex_of(b.subrange(0, 4)) + seq!['-'] + hex_of(b.subrange(4, 6)) + seq!['-'] + hex_of(
            b.subrange(6, 8),
        ) + seq!['-'] + hex_of(b.subrange(8, 10)) + seq!['-'] + hex_of(b.subrange(10, 16))
    }

    /// Renders the identifier for display.
    pub fn to_string(&self) -> (s: String)
        ensures
            s@ == self.text(),
    {
        proof {
            reveal_strlit("-");
            assert("-"@ =~= seq!['-']);
        }
        let bytes = self.0.as_slice();
        let mut s = String::new();
        push_hex(&mut s, bytes, 0, 4);
        s.append("-");
        push_hex(&mut s, bytes, 4, 6);
        s.append("-");
        push_hex(&mut s, bytes, 6, 8);
        s.append("-");
        push_hex(&mut s, bytes, 8, 10);
        s.append("-");
        push_hex(&mut s, bytes, 10, 16);
        assert(s@ =~= self.text());
        s
    }
}

} // verus!
