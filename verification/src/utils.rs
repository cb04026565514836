//! Small helpers on platform values.

use vstd::prelude::*;
use crate::model::{User, UserView};

verus! {

/// The name a user goes by: the chosen display name, else the account name.
pub open spec fn display_name(user: UserView) -> Seq<char> {
    match user.global_name {
        Some(n) => n,
        None => user.name,
    }
}

/// The name a user goes by: the chosen display name, else the account name.
pub fn user_to_name(user: &User) -> (name: &str)
    ensures
        name@ == display_name(user@),
{
    match &user.global_name {
        Some(n) => n.as_str(),
        None => user.name.as_str(),
    }
}

} // verus!
