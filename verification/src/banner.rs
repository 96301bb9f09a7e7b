//! Fixed-width layout for the service's plain-text front page: a header
//! line with a centred word between two copies of the page title, and a
//! footer line with its right-hand text aligned to the page width.

use vstd::prelude::*;
use vstd::string::*;

use crate::strutil::spaces;
use crate::strutil::spaces_seq;

verus! {

/// The page width of the plain-text front page.
pub const MAN_WIDTH: usize = 78;

/// `base`, then `centered` set off by equal padding, then `base` again.
/// When the leftover width is odd, one space is dropped, as integer
/// halving of the padding gives.
pub open spec fn header_line_seq(base: Seq<char>, centered: Seq<char>, width: int) -> Seq<
    char,
> {
    let pad = ((width - 2 * base.len() - centered.len()) / 2) as nat;
    base + spaces_seq(pad) + centered + spaces_seq(pad) + base
}

/// `left`, then padding, then `right`, filling the width exactly.
pub open spec fn footer_line_seq(left: Seq<char>, right: Seq<char>, width: int) -> Seq<char> {
    left + spaces_seq((width - left.len() - right.len()) as nat) + right
}

/// Builds the header line: the page title at both ends and the centred
/// word in the middle. Wider text than the page would have underflowed the
/// padding, so it is excluded.
pub fn header_line(base: &str, centered: &str, width: usize) -> (r: String)
    requires
        2 * base@.len() + centered@.len() <= width,
    ensures
        r@ == header_line_seq(base@, centered@, width as int),
{
    let base_len = base.unicode_len();
    let centered_len = centered.unicode_len();
    let spacing = width - base_len - base_len - centered_len;
    let pad = spaces(spacing / 2);
    let mut out = String::from_str(base);
    out.append(pad.as_str());
    out.append(centered);
    out.append(pad.as_str());
    out.append(base);
    proof {
        assert(out@ =~= header_line_seq(base@, centered@, width as int));
    }
    out
}

/// Builds the footer line: the left text, then spaces, then the right
/// text ending exactly at the page width.
pub fn footer_line(left: &str, right: &str, width: usize) -> (r: String)
    requires
        left@.len() + right@.len() <= width,
    ensures
        r@ == footer_line_seq(left@, right@, width as int),
{
    let left_len = left.unicode_len();
    let right_len = right.unicode_len();
    let pad = spaces(width - left_len - right_len);
    let mut out = String::from_str(left);
    out.append(pad.as_str());
    out.append(right);
    proof {
        assert(out@ =~= footer_line_seq(left@, right@, width as int));
    }
    out
}

} // verus!
