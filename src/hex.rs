//! Lower-case hexadecimal text of byte strings.

use vstd::prelude::*;
use vstd::string::*;

verus! {

/// The sixteen digits, by value.
pub open spec fn hex_digits() -> Seq<char> {
    seq!['0', '1', '2', '3', '4', '5', '6', '7', '8', '9', 'a', 'b', 'c', 'd', 'e', 'f']
}

/// The text of one byte: its high digit, then its low digit.
pub open spec fn hex_of_byte(b: u8) -> Seq<char> {
    seq![hex_digits()[b as int / 16], hex_digits()[b as int % 16]]
}

/// The text of a byte string: two digits per byte, in order.
pub open spec fn hex_of(b: Seq<u8>) -> Seq<char>
    decreases b.len(),
{
    if b.len() == 0 {
        Seq::empty()
    } else {
        hex_of(b.drop_last()) + hex_of_byte(b.last())
    }
}

/// Text in lower-case hexadecimal.
#[derive(Debug, Clone)]
pub struct Hex(String);

impl Hex {
    /// Encodes bytes as lower-case hexadecimal.
    pub fn encode(data: &[u8]) -> (r: Hex)
        ensures
            r@ == hex_of(data@),
    {
        let digits = "0123456789abcdef";
        proof {
            reveal_strlit("0123456789abcdef");
        }
        assert(digits@ =~= hex_digits());
        let mut out = String::new();
        let mut i: usize = 0;
        while i < data.len()
            invariant
                i <= data@.len(),
                digits@ == hex_digits(),
                digits.is_ascii(),
                out@ == hex_of(data@.subrange(0, i as int)),
            decreases data@.len() - i,
        {
            let b = data[i];
            let hi = (b / 16) as usize;
            let lo = (b % 16) as usize;
            let old_out = Ghost(out@);
            out.append(digits.substring_ascii(hi, hi + 1));
            out.append(digits.substring_ascii(lo, lo + 1));
            proof {
                let prefix = data@.subrange(0, i as int + 1);
                assert(prefix.drop_last() =~= data@.subrange(0, i as int));
                assert(out@ =~= old_out@ + hex_of_byte(b));
            }
            i = i + 1;
        }
        assert(data@.subrange(0, data@.len() as int) =~= data@);
        Hex(out)
    }

    /// The encoded text.
    pub fn as_str(&self) -> (r: &str)
        ensures
            r@ == self@,
    {
        self.0.as_str()
    }
}

impl View for Hex {
    type V = Seq<char>;

    closed spec fn view(&self) -> Seq<char> {
        self.0@
    }
}

} // verus!
