//! The values a digest computation hands back: a digest in its lowercase
//! hexadecimal rendering, or the failure that prevented one.

use vstd::prelude::*;

verus! {

/// Holds whether `c` is a lowercase hexadecimal digit (`0`-`9` or `a`-`f`).
pub open spec fn is_lower_hex_digit(c: char) -> bool {
    (('0' as u32) <= (c as u32) && (c as u32) <= ('9' as u32)) || (('a' as u32) <= (c as u32)
        && (c as u32) <= ('f' as u32))
}

/// Holds when every character of `s` is a lowercase hexadecimal digit.
pub open spec fn is_lower_hex(s: Seq<char>) -> bool {
    forall|i: int| 0 <= i < s.len() ==> is_lower_hex_digit(s[i])
}

/// A digest, held as its canonical lowercase hexadecimal rendering. The
/// core never looks inside a digest beyond this rendering.
#[derive(Clone, Debug)]
pub struct Digest {
    pub hex: String,
}

impl View for Digest {
    type V = Seq<char>;

    open spec fn view(&self) -> Seq<char> {
        self.hex@
    }
}

impl Digest {
    /// A well-formed digest is a non-empty string of lowercase hex digits.
    pub open spec fn wf(&self) -> bool {
        self@.len() > 0 && is_lower_hex(self@)
    }

    /// Accepts a rendering exactly when it is non-empty lowercase hexadecimal.
    pub fn from_hex(hex: String) -> (r: Option<Digest>)
        ensures
            r is Some <==> (hex@.len() > 0 && is_lower_hex(hex@)),
            r is Some ==> r->0@ == hex@ && r->0.wf(),
    {
        let len = hex.as_str().unicode_len();
        if len == 0 {
            return None;
        }
        let mut i: usize = 0;
        while i < len
            invariant
                i <= len,
                len == hex@.len(),
                forall|j: int| 0 <= j < i ==> is_lower_hex_digit(hex@[j]),
            decreases len - i,
        {
            let c = hex.as_str().get_char(i);
            let n = c as u32;
            if !((48 <= n && n <= 57) || (97 <= n && n <= 102)) {
                assert(!is_lower_hex_digit(hex@[i as int]));
                return None;
            }
            i = i + 1;
        }
        Some(Digest { hex })
    }

    /// The canonical lowercase hexadecimal rendering.
    pub fn to_hex_lowercase(&self) -> (r: String)
        ensures
            r@ == self@,
    {
        self.hex.clone()
    }
}

/// The failure a digest computation hands back for one target. The core
/// inspects nothing of it but its human-readable message.
#[derive(Clone, Debug)]
pub struct IoFailure {
    pub message: String,
}

impl View for IoFailure {
    type V = Seq<char>;

    open spec fn view(&self) -> Seq<char> {
        self.message@
    }
}

impl IoFailure {
    /// Wraps a rendered error message.
    pub fn new(message: String) -> (r: IoFailure)
        ensures
            r@ == message@,
    {
        IoFailure { message }
    }
}

} // verus!
