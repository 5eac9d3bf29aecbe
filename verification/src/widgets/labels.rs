//! Label texts and metrics for panel layouts.
//!
//! Each label is a left-aligned frame registered in a column at a fixed
//! height; these are the sizes it is drawn with and the text of a
//! section header.

use vstd::prelude::*;

verus! {

/// Label size of a section header.
pub const SECTION_HEADER_SIZE: i32 = 13;
/// Height a section header is registered at.
pub const SECTION_HEADER_HEIGHT: i32 = 24;
/// Label size of a field label.
pub const FIELD_LABEL_SIZE: i32 = 11;
/// Height a field label is registered at.
pub const FIELD_LABEL_HEIGHT: i32 = 18;
/// Label size of a stat readout.
pub const STAT_LABEL_SIZE: i32 = 11;
/// Height a stat readout is registered at.
pub const STAT_LABEL_HEIGHT: i32 = 16;
/// Label size of a hint.
pub const HINT_LABEL_SIZE: i32 = 10;
/// Height a hint is registered at.
pub const HINT_LABEL_HEIGHT: i32 = 14;

/// The text of a section header: the icon, two spaces, then the heading.
pub open spec fn header_text(icon: Seq<char>, text: Seq<char>) -> Seq<char> {
    icon + seq![' ', ' '] + text
}

/// Text of a bold section heading with an icon, e.g. `("🎧", "DEVICES")`
/// gives `"🎧  DEVICES"`.
pub fn section_header_text(icon: &str, text: &str) -> (s: String)
    ensures
        s@ == header_text(icon@, text@),
        s@ == icon@ + seq![' ', ' '] + text@,
        s@.len() == icon@.len() + 2 + text@.len(),
        s@.subrange(0, icon@.len() as int) == icon@,
        s@[icon@.len() as int] == ' ' && s@[icon@.len() + 1int] == ' ',
        s@.subrange(icon@.len() + 2int, s@.len() as int) == text@,
{
    let mut s = icon.to_owned();
    s.append("  ");
    s.append(text);
    proof {
        reveal_strlit("  ");
    }
    proof {
        lemma_header_text(icon@, text@);
    }
    s
}

/// A section header starts with the whole icon, then two spaces, then
/// the whole heading, and holds nothing else.
pub proof fn lemma_header_text(icon: Seq<char>, text: Seq<char>)
    ensures
        header_text(icon, text) == icon + seq![' ', ' '] + text,
        header_text(icon, text).len() == icon.len() + 2 + text.len(),
        header_text(icon, text).subrange(0, icon.len() as int) == icon,
        header_text(icon, text)[icon.len() as int] == ' ',
        header_text(icon, text)[icon.len() + 1int] == ' ',
        header_text(icon, text).subrange(icon.len() + 2int, header_text(icon, text).len() as int)
            == text,
{
    let h = header_text(icon, text);
    assert(h.subrange(0, icon.len() as int) =~= icon);
    assert(h.subrange(icon.len() + 2int, h.len() as int) =~= text);
}

} // verus!
