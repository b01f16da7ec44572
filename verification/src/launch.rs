//! The autostart marker: how a launch at login is told from one by hand.

use vstd::prelude::*;
use vstd::string::StringExecFns;

verus! {

/// The argument that a launch at login carries.
pub const AUTOSTART_MARKER: &'static str = "--autostart";

/// Whether one of the arguments is the autostart marker.
pub open spec fn has_marker(args: Seq<String>) -> bool {
    exists|i: int| 0 <= i < args.len() && (#[trigger] args[i])@ == AUTOSTART_MARKER@
}

/// Whether the process was launched at login: true exactly when some argument,
/// the program name included, equals the marker.
pub fn is_autostart(args: &Vec<String>) -> (yes: bool)
    ensures
        yes == has_marker(args@),
{
    let marker = String::from_str(AUTOSTART_MARKER);
    let mut i: usize = 0;
    while i < args.len()
        invariant
            i <= args.len(),
            marker@ == AUTOSTART_MARKER@,
            forall|j: int| 0 <= j < i ==> (#[trigger] args@[j])@ != AUTOSTART_MARKER@,
        decreases args.len() - i,
    {
        if args[i] == marker {
            return true;
        }
        i += 1;
    }
    false
}

/// The arguments to register with the login-item service, so that a launch
/// at login is recognised as one.
pub fn autostart_args() -> (args: Vec<&'static str>)
    ensures
        args@.len() == 1,
        args@[0]@ == AUTOSTART_MARKER@,
{
    let mut args: Vec<&'static str> = Vec::new();
    args.push(AUTOSTART_MARKER);
    args
}

} // verus!
