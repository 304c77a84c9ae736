//! The server parameters announced to every client after authentication.

use vstd::prelude::*;
use vstd::string::StringExecFns;

verus! {

/// Supplies the parameter-status pairs sent after `AuthenticationOk`.
pub struct PgLiteServerParameterProvider;

/// The four announced parameters, exactly: the build version, UTF8 server
/// and client encodings, and the `ISO YMD` date style.
pub open spec fn spec_server_parameters(params: Seq<(String, String)>, version: Seq<char>) -> bool {
    &&& params.len() == 4
    &&& params[0].0@ == "server_version"@ && params[0].1@ == version
    &&& params[1].0@ == "server_encoding"@ && params[1].1@ == "UTF8"@
    &&& params[2].0@ == "client_encoding"@ && params[2].1@ == "UTF8"@
    &&& params[3].0@ == "DateStyle"@ && params[3].1@ == "ISO YMD"@
}

impl PgLiteServerParameterProvider {
    /// The four announced parameters: the build version, UTF8 server and
    /// client encodings, and the `ISO YMD` date style.
    pub fn server_parameters(&self, server_version: &str) -> (r: Vec<(String, String)>)
        ensures
            spec_server_parameters(r@, server_version@),
    {
        let mut params: Vec<(String, String)> = Vec::new();
        params.push((String::from_str("server_version"), String::from_str(server_version)));
        params.push((String::from_str("server_encoding"), String::from_str("UTF8")));
        params.push((String::from_str("client_encoding"), String::from_str("UTF8")));
        params.push((String::from_str("DateStyle"), String::from_str("ISO YMD")));
        params
    }
}

} // verus!
