//! The self-updater's rule for whether the executable can be replaced in
//! place.
use vstd::prelude::*;

verus! {

/// Whether the running user may rewrite the executable: everyone may read
/// and write it, or the user owns it and the owner may read and write it.
pub open spec fn spec_has_write(mode: u32, file_owner: u32, user_id: u32) -> bool {
    let r_user = mode & 0o400 == 0o400;
    let w_user = mode & 0o200 == 0o200;
    let r_other = mode & 0o4 == 0o4;
    let w_other = mode & 0o2 == 0o2;
    (r_other && w_other) || (file_owner == user_id && r_user && w_user)
}

/// Whether the running user may rewrite the executable, from its mode
/// bits, its owner and the user's id.
pub fn has_write(mode: u32, file_owner: u32, user_id: u32) -> (r: bool)
    ensures
        r == spec_has_write(mode, file_owner, user_id),
{
    let (r_user, w_user) = (mode & 0o400 == 0o400, mode & 0o200 == 0o200);
    let (r_other, w_other) = (mode & 0o4 == 0o4, mode & 0o2 == 0o2);
    (r_other && w_other) || ((file_owner == user_id) && (r_user && w_user))
}

/// Where the new executable is written when the old one cannot be
/// rewritten in place; it is then installed with elevated rights.
pub const STAGING_PATH: &'static str = "/tmp/ddstats-rust";

/// Where the staged executable is installed.
pub const INSTALL_PATH: &'static str = "/usr/bin/ddstats-rust";

} // verus!
