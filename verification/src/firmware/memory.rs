//! The linker's memory layout (`memory.x`) for the part a build links for:
//! flash and RAM, and the CCM region where the part has one.

use vstd::prelude::*;

use crate::catalog::chips::{Part, PartView};
use crate::text::{decimal, push_decimal};

verus! {

/// The CCM region line of a part, empty for a part without CCM.
pub open spec fn ccm_line(ccm_kib: Option<u32>) -> Seq<char> {
    match ccm_kib {
        Some(kib) => "  CCM : ORIGIN = 0x10000000, LENGTH = "@ + decimal(kib as nat) + "K\n"@,
        None => Seq::empty(),
    }
}

/// The text of a part's linker memory layout: flash at 0x08000000 and RAM
/// at 0x20000000 with the part's sizes in KiB, then CCM at 0x10000000 where
/// the part has it.
pub open spec fn memory_text(part: PartView) -> Seq<char> {
    "MEMORY\n{\n  FLASH : ORIGIN = 0x08000000, LENGTH = "@ + decimal(part.flash_kib as nat)
        + "K\n  RAM : ORIGIN = 0x20000000, LENGTH = "@ + decimal(part.ram_kib as nat) + "K\n"@
        + ccm_line(part.ccm_kib) + "}\n"@
}

/// The linker memory layout for `part`.
pub fn memory_layout(part: &Part) -> (text: String)
    ensures
        text@ == memory_text(part@),
{
    let mut text = String::new();
    text.append("MEMORY\n{\n  FLASH : ORIGIN = 0x08000000, LENGTH = ");
    push_decimal(&mut text, part.flash_kib);
    text.append("K\n  RAM : ORIGIN = 0x20000000, LENGTH = ");
    push_decimal(&mut text, part.ram_kib);
    text.append("K\n");
    let ghost before_ccm = text@;
    match part.ccm_kib {
        Some(kib) => {
            text.append("  CCM : ORIGIN = 0x10000000, LENGTH = ");
            push_decimal(&mut text, kib);
            text.append("K\n");
        },
        None => {},
    }
    assert(text@ =~= before_ccm + ccm_line(part.ccm_kib));
    text.append("}\n");
    assert(text@ =~= memory_text(part@));
    text
}

} // verus!
