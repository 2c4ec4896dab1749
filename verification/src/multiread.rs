//! The marker text of the shared-probe experiment.

use vstd::prelude::*;
use vstd::string::StringExecFns;

verus! {

/// The marker text.
pub fn multiread() -> (text: String)
    ensures
        text@ == "blamonge"@,
{
    String::from_str("blamonge")
}

} // verus!
