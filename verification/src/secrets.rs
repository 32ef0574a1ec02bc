//! The secrets capability at its interface boundary: request and response
//! shapes and the per-provider namespace derivation. The credential store
//! itself lives outside the library.

use vstd::prelude::*;

verus! {

/// A request to store a key for an account, namespaced per provider.
pub struct SecretSetReq {
    pub provider: String,
    pub account: String,
    pub key: String,
}

/// A request to read an account's key back.
pub struct SecretGetReq {
    pub provider: String,
    pub account: String,
}

/// Whether a key exists, and the key when it does.
pub struct SecretGetResp {
    pub exists: bool,
    pub key: Option<String>,
}

/// Stores and fetches per-provider credentials.
pub struct SecretsService;

/// The namespace an entry lives under for a provider.
pub open spec fn namespace_seq(provider: Seq<char>) -> Seq<char> {
    "tempext.genesis.secrets."@ + provider
}

impl SecretsService {
    /// Renders the credential-store namespace for one provider.
    pub fn service_namespace(provider: &str) -> (r: String)
        ensures
            r@ == namespace_seq(provider@),
    {
        let mut s = "tempext.genesis.secrets.".to_owned();
        s.append(provider);
        s
    }
}

} // verus!
