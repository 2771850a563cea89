use vstd::prelude::*;
use vstd::string::*;

verus! {

/// Connection settings of the trading API: the base URL that request paths
/// are resolved against, and the key that authorises each request.
#[derive(Clone, Debug)]
pub struct Client {
    pub url: String,
    pub key: String,
}

impl Client {
    /// A client for the API at `url`, authorised by `key`.
    pub fn new(url: &str, key: &str) -> (r: Client)
        ensures
            r.url@ == url@,
            r.key@ == key@,
    {
        Client { url: String::from_str(url), key: String::from_str(key) }
    }
}

} // verus!
