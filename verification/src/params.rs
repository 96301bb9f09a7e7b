//! Validated request parameters: paste identifiers and extension hints.
//! Invalid input is rejected here, before it reaches the allocator or the
//! resolver.

use vstd::prelude::*;
use vstd::string::*;

use crate::is_extension;
use crate::is_extension_char;
use crate::is_key;
use crate::is_key_char;

verus! {

/// A paste identifier taken from external input: every character is from
/// the 62-symbol alphabet.
pub struct PasteId {
    id: String,
}

impl View for PasteId {
    type V = Seq<char>;

    closed spec fn view(&self) -> Seq<char> {
        self.id@
    }
}

impl PasteId {
    /// Accepts the parameter exactly when every character is a letter or
    /// a digit; the accepted identifier carries the text unchanged.
    pub fn from_param(param: &str) -> (r: Option<PasteId>)
        ensures
            r is Some <==> is_key(param@),
            r matches Some(p) ==> p@ == param@,
    {
        let n = param.unicode_len();
        let mut i: usize = 0;
        while i < n
            invariant
                n == param@.len(),
                i <= n,
                forall|j: int| 0 <= j < i ==> is_key_char(param@[j]),
            decreases n - i,
        {
            let c = param.get_char(i);
            let valid = (c >= 'a' && c <= 'z') || (c >= 'A' && c <= 'Z') || (c >= '0' && c
                <= '9');
            if !valid {
                return None;
            }
            i += 1;
        }
        Some(PasteId { id: String::from_str(param) })
    }

    /// The identifier's text.
    pub fn as_str(&self) -> (r: &str)
        ensures
            r@ == self@,
    {
        self.id.as_str()
    }
}

/// An extension hint taken from external input: every character is a
/// lowercase letter, a digit, or `.`.
pub struct Extension {
    ext: String,
}

impl View for Extension {
    type V = Seq<char>;

    closed spec fn view(&self) -> Seq<char> {
        self.ext@
    }
}

impl Extension {
    /// Accepts the parameter exactly when every character is a lowercase
    /// letter, a digit, or `.`; the accepted hint carries the text
    /// unchanged.
    pub fn from_param(param: &str) -> (r: Option<Extension>)
        ensures
            r is Some <==> is_extension(param@),
            r matches Some(e) ==> e@ == param@,
    {
        let n = param.unicode_len();
        let mut i: usize = 0;
        while i < n
            invariant
                n == param@.len(),
                i <= n,
                forall|j: int| 0 <= j < i ==> is_extension_char(param@[j]),
            decreases n - i,
        {
            let c = param.get_char(i);
            let valid = (c >= 'a' && c <= 'z') || (c >= '0' && c <= '9') || c == '.';
            if !valid {
                return None;
            }
            i += 1;
        }
        Some(Extension { ext: String::from_str(param) })
    }

    /// The hint's text.
    pub fn as_str(&self) -> (r: &str)
        ensures
            r@ == self@,
    {
        self.ext.as_str()
    }
}

} // verus!
