//! The one decision the display-server registry listener makes: whether an
//! advertised global is the virtual-pointer manager the clicker needs.
//!
//! The listener itself runs outside this crate, against the real
//! connection; it hands each advertised interface name to
//! `is_virtual_pointer_manager` and binds the global exactly when this says
//! so.

use vstd::prelude::*;
use vstd::string::StringSliceAdditionalSpecFns;
use crate::ascii::bytes_eq;

verus! {

/// The interface name of the virtual-pointer manager global.
pub open spec fn manager_interface() -> Seq<u8> {
    "zwlr_virtual_pointer_manager_v1".spec_bytes()
}

/// Whether an advertised registry global is the virtual-pointer manager:
/// true exactly when its interface name is `zwlr_virtual_pointer_manager_v1`.
pub fn is_virtual_pointer_manager(interface: &str) -> (r: bool)
    ensures
        r == (interface.spec_bytes() == manager_interface()),
{
    bytes_eq(interface.as_bytes(), "zwlr_virtual_pointer_manager_v1".as_bytes())
}

} // verus!
