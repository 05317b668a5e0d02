//! The registration options that an issued challenge is handed out in.

use vstd::prelude::*;
use vstd::string::StringExecFns;

use crate::config::{Config, ConfigView};
use crate::encoding::{base64_encode_no_pad, base64_no_pad_encoding};
use crate::random::random_bytes;

verus! {

/// The number of random bytes in a challenge and in a user handle.
pub const TOKEN_BYTES: usize = 16;

/// Whether `text` is the unpadded base64 of some sixteen bytes.
pub open spec fn is_token(text: Seq<char>) -> bool {
    exists|bytes: Seq<u8>| bytes.len() == TOKEN_BYTES && text == #[trigger] base64_no_pad_encoding(bytes)
}

/// A fresh token: sixteen random bytes as unpadded base64. Which bytes they
/// are is not known before the call, and two calls need not agree.
pub fn random_bytes_base64() -> (token: String)
    ensures
        is_token(token@),
{
    let bytes = random_bytes(TOKEN_BYTES);
    base64_encode_no_pad(bytes.as_slice())
}

/// A public-key signature algorithm that credentials may use.
#[derive(Clone, Copy, Debug, PartialEq, Eq, Structural)]
pub enum Alg {
    RS256,
    ES256,
}

impl Alg {
    /// The COSE identifier of the algorithm.
    pub open spec fn cose_id(self) -> int {
        match self {
            Alg::RS256 => -257,
            Alg::ES256 => -7,
        }
    }

    /// The COSE identifier of the algorithm, as it goes on the wire.
    pub fn code(self) -> (code: i64)
        ensures
            code == self.cose_id(),
    {
        match self {
            Alg::RS256 => -257,
            Alg::ES256 => -7,
        }
    }
}

/// One acceptable kind of credential.
#[derive(Debug)]
pub struct PubKeyCredParams {
    pub alg: Alg,
    pub credential_type: String,
}

pub struct PubKeyCredParamsView {
    pub alg: Alg,
    pub credential_type: Seq<char>,
}

impl View for PubKeyCredParams {
    type V = PubKeyCredParamsView;

    open spec fn view(&self) -> PubKeyCredParamsView {
        PubKeyCredParamsView { alg: self.alg, credential_type: self.credential_type@ }
    }
}

/// The relying party as the client is to see it.
#[derive(Debug)]
pub struct RelyingParty {
    pub id: String,
    pub name: String,
}

pub struct RelyingPartyView {
    pub id: Seq<char>,
    pub name: Seq<char>,
}

impl View for RelyingParty {
    type V = RelyingPartyView;

    open spec fn view(&self) -> RelyingPartyView {
        RelyingPartyView { id: self.id@, name: self.name@ }
    }
}

/// The account that the credential is made for.
#[derive(Debug)]
pub struct User {
    pub id: String,
    pub name: String,
    pub display_name: String,
}

pub struct UserView {
    pub id: Seq<char>,
    pub name: Seq<char>,
    pub display_name: Seq<char>,
}

impl View for User {
    type V = UserView;

    open spec fn view(&self) -> UserView {
        UserView { id: self.id@, name: self.name@, display_name: self.display_name@ }
    }
}

/// The parameters of one registration ceremony.
#[derive(Debug)]
pub struct Credentials {
    pub challenge: String,
    pub pub_key_cred_params: [PubKeyCredParams; 2],
    pub rp: RelyingParty,
    pub user: User,
}

pub struct CredentialsView {
    pub challenge: Seq<char>,
    pub pub_key_cred_params: Seq<PubKeyCredParamsView>,
    pub rp: RelyingPartyView,
    pub user: UserView,
}

impl View for Credentials {
    type V = CredentialsView;

    open spec fn view(&self) -> CredentialsView {
        CredentialsView {
            challenge: self.challenge@,
            pub_key_cred_params: seq![self.pub_key_cred_params@[0]@, self.pub_key_cred_params@[1]@],
            rp: self.rp@,
            user: self.user@,
        }
    }
}

/// The options that go out for `challenge`: RS256 and ES256 public-key
/// credentials, in this order, for the configured relying party, and the one
/// fixed account name under the opaque handle `user_handle`.
pub open spec fn registration_options(
    config: ConfigView,
    challenge: Seq<char>,
    user_handle: Seq<char>,
) -> CredentialsView {
    CredentialsView {
        challenge,
        pub_key_cred_params: seq![
            PubKeyCredParamsView { alg: Alg::RS256, credential_type: "public-key"@ },
            PubKeyCredParamsView { alg: Alg::ES256, credential_type: "public-key"@ },
        ],
        rp: RelyingPartyView { id: config.rp_id, name: config.rp_name },
        user: UserView { id: user_handle, name: "User"@, display_name: "User Disp"@ },
    }
}

impl Credentials {
    /// The options for `challenge` with the given user handle.
    pub fn with_user_handle(config: &Config, challenge: String, user_handle: String) -> (options:
        Credentials)
        ensures
            options@ == registration_options(config@, challenge@, user_handle@),
    {
        let options = Credentials {
            challenge,
            pub_key_cred_params: [
                PubKeyCredParams {
                    alg: Alg::RS256,
                    credential_type: String::from_str("public-key"),
                },
                PubKeyCredParams {
                    alg: Alg::ES256,
                    credential_type: String::from_str("public-key"),
                },
            ],
            rp: RelyingParty {
                id: String::from_str(config.rp_id()),
                name: String::from_str(config.rp_name()),
            },
            user: User {
                id: user_handle,
                name: String::from_str("User"),
                display_name: String::from_str("User Disp"),
            },
        };
        assert(options@.pub_key_cred_params =~= registration_options(
            config@,
            challenge@,
            user_handle@,
        ).pub_key_cred_params);
        options
    }

    /// The options for `challenge` with a fresh random user handle.
    pub fn new(config: &Config, challenge: String) -> (options: Credentials)
        ensures
            is_token(options@.user.id),
            options@ == registration_options(config@, challenge@, options@.user.id),
    {
        let user_handle = random_bytes_base64();
        Credentials::with_user_handle(config, challenge, user_handle)
    }
}

} // verus!
