//! The relying party's own identity, against which every ceremony is held.

use vstd::prelude::*;
use vstd::utf8::encode_utf8;

use crate::digest::{sha256, sha256_digest, SHA256_INPUT_LIMIT};

verus! {

/// Who the service is: the web origin it is served from, and the identifier
/// and display name under which it asks for credentials.
pub struct Config {
    origin: String,
    rp_id: String,
    rp_name: String,
}

pub struct ConfigView {
    pub origin: Seq<char>,
    pub rp_id: Seq<char>,
    pub rp_name: Seq<char>,
}

/// Whether an identifier is short enough to be hashed: its UTF-8 length in
/// bits fits in 64 bits.
pub open spec fn hashable(rp_id: Seq<char>) -> bool {
    encode_utf8(rp_id).len() < SHA256_INPUT_LIMIT
}

impl View for Config {
    type V = ConfigView;

    closed spec fn view(&self) -> ConfigView {
        ConfigView { origin: self.origin@, rp_id: self.rp_id@, rp_name: self.rp_name@ }
    }
}

impl Config {
    #[verifier::type_invariant]
    spec fn well_formed(self) -> bool {
        hashable(self.rp_id@)
    }

    /// A configuration of the three values. The one identifier that is
    /// refused is one too long to be hashed.
    pub fn new(origin: String, rp_id: String, rp_name: String) -> (config: Option<Config>)
        ensures
            match config {
                Some(c) => hashable(rp_id@) && c@ == (ConfigView {
                    origin: origin@,
                    rp_id: rp_id@,
                    rp_name: rp_name@,
                }),
                None => !hashable(rp_id@),
            },
    {
        if (rp_id.as_str().as_bytes().len() as u64) < SHA256_INPUT_LIMIT {
            Some(Config { origin, rp_id, rp_name })
        } else {
            None
        }
    }

    /// The web origin: scheme, host and port.
    pub fn origin(&self) -> (origin: &str)
        ensures
            origin@ == self@.origin,
    {
        self.origin.as_str()
    }

    /// The relying party's identifier.
    pub fn rp_id(&self) -> (rp_id: &str)
        ensures
            rp_id@ == self@.rp_id,
            hashable(rp_id@),
    {
        proof {
            use_type_invariant(self);
        }
        self.rp_id.as_str()
    }

    /// The relying party's display name.
    pub fn rp_name(&self) -> (rp_name: &str)
        ensures
            rp_name@ == self@.rp_name,
    {
        self.rp_name.as_str()
    }

    /// The SHA-256 hash of the relying party's identifier in UTF-8.
    pub fn rp_id_hash(&self) -> (hash: Vec<u8>)
        ensures
            hash@ == rp_id_hash(self@),
    {
        sha256(self.rp_id().as_bytes())
    }
}

/// The hash that the authenticator data of a credential made for this relying
/// party begins with.
pub open spec fn rp_id_hash(config: ConfigView) -> Seq<u8> {
    sha256_digest(encode_utf8(config.rp_id))
}

} // verus!
