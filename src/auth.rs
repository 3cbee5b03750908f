//! The credential check behind the login form.
//!
//! This is a placeholder policy, not a security boundary: the accepted pair
//! is compiled in and compared in plain text, with no hashing.
use vstd::prelude::*;

verus! {

/// The only user name that is accepted.
pub const DEFAULT_USERNAME: &'static str = "admin";

/// The only password that is accepted.
pub const DEFAULT_PASSWORD: &'static str = "foobar";

/// Whether a submitted pair is the compiled-in one, exactly: case-sensitive,
/// with no trimming.
pub open spec fn accepts(username: Seq<char>, password: Seq<char>) -> bool {
    username == DEFAULT_USERNAME@ && password == DEFAULT_PASSWORD@
}

pub fn authenticate(username: String, password: String) -> (r: bool)
    ensures
        r == accepts(username@, password@),
{
    let expected_username = String::from_str(DEFAULT_USERNAME);
    let expected_password = String::from_str(DEFAULT_PASSWORD);
    username == expected_username && password == expected_password
}

} // verus!
