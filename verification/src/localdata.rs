//! The identity a client keeps on disk: a user id and a display name.
use vstd::prelude::*;
use crate::ident::{uuid_new_v4, version_variant_mask};

verus! {

/// A user's identity.
#[derive(Debug, Clone)]
pub struct LocalData {
    pub user_id: u128,
    pub username: String,
}

/// The name given to a new identity.
pub open spec fn new_user_name() -> Seq<char> {
    "New user!"@
}

impl Default for LocalData {
    /// A new identity: a fresh random version-4 id and the name for new users.
    fn default() -> (data: Self)
        ensures
            data.user_id & version_variant_mask() == 0x4000_8000_0000_0000_0000u128,
            data.username@ == new_user_name(),
    {
        LocalData { user_id: uuid_new_v4(), username: String::from_str("New user!") }
    }
}

/// The identity to use, from what could be read back from disk: a stored identity is
/// kept as it is and nothing is written; without one a new identity is made, and it
/// must be written (the `bool`).
pub fn settle_localdata(stored: Option<LocalData>) -> (chosen: (LocalData, bool))
    ensures
        stored matches Some(d) ==> (chosen.0.user_id == d.user_id && chosen.0.username@ == d.username@
            && !chosen.1),
        stored is None ==> (chosen.1 && chosen.0.username@ == new_user_name()
            && chosen.0.user_id & version_variant_mask() == 0x4000_8000_0000_0000_0000u128),
{
    match stored {
        Some(d) => (d, false),
        None => (LocalData::default(), true),
    }
}

} // verus!
