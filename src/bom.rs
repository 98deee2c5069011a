use vstd::prelude::*;

verus! {

/// Number of bytes in the UTF-8 byte-order mark.
pub const BOM_LEN: usize = 3;

/// First byte of the UTF-8 byte-order mark.
pub const UTF8_BOM_0: u8 = 0xEF;

/// Second byte of the UTF-8 byte-order mark.
pub const UTF8_BOM_1: u8 = 0xBB;

/// Third byte of the UTF-8 byte-order mark.
pub const UTF8_BOM_2: u8 = 0xBF;

/// The UTF-8 byte-order mark as a sequence.
pub open spec fn utf8_bom() -> Seq<u8> {
    seq![UTF8_BOM_0, UTF8_BOM_1, UTF8_BOM_2]
}

/// `s` begins with the three bytes EF BB BF.
pub open spec fn starts_with_bom(s: Seq<u8>) -> bool {
    s.len() >= 3 && s.subrange(0, 3) == utf8_bom()
}

/// Tells whether `head`, the first bytes of a source, begins with the UTF-8
/// byte-order mark. Fewer than three bytes (an empty or short source, or a
/// read that failed) never hold one; bytes after the third are not looked at.
pub fn has_bom(head: &[u8]) -> (r: bool)
    ensures
        r == starts_with_bom(head@),
{
    let found = head.len() >= BOM_LEN && head[0] == UTF8_BOM_0 && head[1] == UTF8_BOM_1
        && head[2] == UTF8_BOM_2;
    proof {
        if head@.len() >= 3 {
            if found {
                assert(head@.subrange(0, 3) =~= utf8_bom());
            } else {
                let pre = head@.subrange(0, 3);
                assert(pre[0] == head@[0] && pre[1] == head@[1] && pre[2] == head@[2]);
            }
        }
    }
    found
}

} // verus!
