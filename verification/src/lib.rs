//! A paste-storage core: adaptive identifier allocation over an
//! insert-if-absent record store, and a rendering resolver that picks a
//! syntax grammar and a colour theme for stored content.

use vstd::prelude::*;

pub mod allocator;
pub mod banner;
pub mod keyspace;
pub mod params;
pub mod render;
pub mod store;
pub mod strutil;
pub mod theme;

verus! {

/// True of the characters that may appear in a paste identifier:
/// the 62-symbol alphabet `a`-`z`, `A`-`Z`, `0`-`9`.
pub open spec fn is_key_char(c: char) -> bool {
    ('a' <= c && c <= 'z') || ('A' <= c && c <= 'Z') || ('0' <= c && c <= '9')
}

/// True of a sequence made only of identifier-alphabet characters.
pub open spec fn is_key(s: Seq<char>) -> bool {
    forall|i: int| 0 <= i < s.len() ==> is_key_char(s[i])
}

/// True of the characters accepted in an extension hint:
/// lowercase letters, digits, and `.`.
pub open spec fn is_extension_char(c: char) -> bool {
    ('a' <= c && c <= 'z') || ('0' <= c && c <= '9') || c == '.'
}

/// True of a sequence made only of extension-hint characters.
pub open spec fn is_extension(s: Seq<char>) -> bool {
    forall|i: int| 0 <= i < s.len() ==> is_extension_char(s[i])
}

} // verus!
