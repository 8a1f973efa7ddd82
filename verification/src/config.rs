use vstd::prelude::*;

verus! {

/// The server's own settings: the request header that carries the login token,
/// the key that signs tokens, and how long a token lasts (added to the current
/// time in seconds when a token is issued).
#[derive(Debug, PartialEq, Eq, Clone)]
pub struct MyConfig {
    pub token_field: String,
    pub token_key: String,
    pub exp: u64,
}

impl Default for MyConfig {
    fn default() -> (r: Self)
        ensures
            r.token_field@ == "_token"@,
            r.token_key@ == "dan"@,
            r.exp == 86_400_000,
    {
        Self {
            token_field: String::from_str("_token"),
            token_key: String::from_str("dan"),
            exp: 24 * 60 * 60 * 1000,
        }
    }
}

} // verus!
