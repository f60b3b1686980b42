//! What the setup knows of the app.
use vstd::prelude::*;

verus! {

/// The app's bundle identifier.
pub const APP_BUNDLE_ID: &'static str = "com.woodypikmin.pikminpilot";

/// The version of the app that the setup carries.
pub const APP_VERSION: &'static str = "11.5.4.17";

/// The name under which the app looks for its pairing record.
pub const PAIRING_NAME: &'static str = "rp_pairing_file.plist";

/// The app's pairing record, as a path inside the app's container.
pub open spec fn container_path() -> Seq<char> {
    "/Documents/"@ + PAIRING_NAME@
}

/// The app's pairing record, as a path inside the app's container.
pub fn pairing_container_path() -> (r: String)
    ensures
        r@ == container_path(),
{
    "/Documents/".to_string().concat(PAIRING_NAME)
}

} // verus!
