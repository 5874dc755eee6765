//! Names of the hardware vendors that PCI vendor codes stand for.

use vstd::prelude::*;
use vstd::string::StringExecFns;
use crate::text::{push_upper_hex, upper_hex};

verus! {

/// PCI vendor code of AMD.
pub const AMD: u32 = 0x1002;

/// PCI vendor code of NVIDIA.
pub const NVIDIA: u32 = 0x10DE;

/// PCI vendor code of Intel.
pub const INTEL: u32 = 0x8086;

/// PCI vendor code of ARM.
pub const ARM: u32 = 0x13B5;

/// PCI vendor code of Qualcomm.
pub const QUALCOMM: u32 = 0x5143;

/// PCI vendor code of Imagination Technologies.
pub const IMGTEC: u32 = 0x1010;

/// The display name of a vendor code: the vendor's name for the six known
/// codes, and `Unknown (0x..)` with the code in capital hexadecimal digits,
/// without leading zeros, for any other.
pub open spec fn vendor_name(vendor_id: u32) -> Seq<char> {
    if vendor_id == AMD {
        "AMD"@
    } else if vendor_id == NVIDIA {
        "NVIDIA"@
    } else if vendor_id == INTEL {
        "Intel"@
    } else if vendor_id == ARM {
        "ARM"@
    } else if vendor_id == QUALCOMM {
        "Qualcomm"@
    } else if vendor_id == IMGTEC {
        "ImgTec"@
    } else {
        "Unknown (0x"@ + upper_hex(vendor_id as nat) + ")"@
    }
}

/// Converts a PCI vendor code to a name that people can read.
pub fn vendor_to_string(vendor_id: u32) -> (name: String)
    ensures
        name@ == vendor_name(vendor_id),
{
    if vendor_id == AMD {
        String::from_str("AMD")
    } else if vendor_id == NVIDIA {
        String::from_str("NVIDIA")
    } else if vendor_id == INTEL {
        String::from_str("Intel")
    } else if vendor_id == ARM {
        String::from_str("ARM")
    } else if vendor_id == QUALCOMM {
        String::from_str("Qualcomm")
    } else if vendor_id == IMGTEC {
        String::from_str("ImgTec")
    } else {
        let mut name = String::from_str("Unknown (0x");
        push_upper_hex(&mut name, vendor_id as u64);
        name.append(")");
        name
    }
}

} // verus!
