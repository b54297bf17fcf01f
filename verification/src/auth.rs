use vstd::prelude::*;

use crate::strutil::str_equal;

verus! {

/// The credential pair that protects the calculation endpoints.
///
/// Reading the pair from the process environment is left to the caller;
/// the acceptance rule itself is `validate`.
pub struct ApiCredentials {
    pub user_id: String,
    pub password: String,
}

impl ApiCredentials {
    pub fn new(user_id: &str, password: &str) -> (r: Self)
        ensures
            r.user_id@ == user_id@,
            r.password@ == password@,
    {
        ApiCredentials { user_id: String::from_str(user_id), password: String::from_str(password) }
    }

    /// Accepts exactly a request that carries this user id together with
    /// this password; a request without a password is rejected.
    pub fn validate(&self, user_id: &str, password: Option<&str>) -> (r: bool)
        ensures
            r == (password matches Some(p) && user_id@ == self.user_id@ && p@ == self.password@),
    {
        match password {
            Some(p) => {
                str_equal(user_id, self.user_id.as_str()) && str_equal(p, self.password.as_str())
            },
            None => false,
        }
    }
}

} // verus!
