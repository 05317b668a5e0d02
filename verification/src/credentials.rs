//! What a client sends to complete a registration, and the decoding of the
//! attestation object in it.

use vstd::prelude::*;
use vstd::slice::{slice_subrange, slice_to_vec};

use crate::cbor::{
    cbor_decode, cbor_decoding, field_index, find_field, is_sole_field, CborValue,
};
use crate::encoding::{base64_decode, base64_decoding};

verus! {

/// The number of bytes at the front of the authenticator data that hold the
/// hash of the relying party's identifier.
pub const RP_ID_HASH_LEN: usize = 32;

/// Why an attestation object could not be decoded.
#[derive(Clone, Copy, Debug, PartialEq, Eq, Structural)]
pub enum DecodeFailure {
    /// The text is not padded standard-alphabet base64.
    Encoding,
    /// The bytes are not a CBOR map with one text field `fmt` and one
    /// byte-string field `authData`.
    Format,
    /// The authenticator data is shorter than the hash it must begin with.
    Truncated,
}

/// The descriptor of the ceremony that the client signed.
#[derive(Debug)]
pub struct ClientData {
    pub ceremony_type: String,
    pub challenge: String,
    pub origin: String,
    pub cross_origin: bool,
}

pub struct ClientDataView {
    pub ceremony_type: Seq<char>,
    pub challenge: Seq<char>,
    pub origin: Seq<char>,
    pub cross_origin: bool,
}

impl View for ClientData {
    type V = ClientDataView;

    open spec fn view(&self) -> ClientDataView {
        ClientDataView {
            ceremony_type: self.ceremony_type@,
            challenge: self.challenge@,
            origin: self.origin@,
            cross_origin: self.cross_origin,
        }
    }
}

/// The authenticator's answer: the attestation object as base64 text, and the
/// client data.
#[derive(Debug)]
pub struct PublicKeyCredentialResponse {
    pub attestation_object: String,
    pub client_data: ClientData,
}

pub struct PublicKeyCredentialResponseView {
    pub attestation_object: Seq<char>,
    pub client_data: ClientDataView,
}

impl View for PublicKeyCredentialResponse {
    type V = PublicKeyCredentialResponseView;

    open spec fn view(&self) -> PublicKeyCredentialResponseView {
        PublicKeyCredentialResponseView {
            attestation_object: self.attestation_object@,
            client_data: self.client_data@,
        }
    }
}

/// A new credential as the client presents it for the identity `email`.
#[derive(Debug)]
pub struct PublicKeyCredential {
    pub id: String,
    pub email: String,
    pub response: PublicKeyCredentialResponse,
}

pub struct PublicKeyCredentialView {
    pub id: Seq<char>,
    pub email: Seq<char>,
    pub response: PublicKeyCredentialResponseView,
}

impl View for PublicKeyCredential {
    type V = PublicKeyCredentialView;

    open spec fn view(&self) -> PublicKeyCredentialView {
        PublicKeyCredentialView { id: self.id@, email: self.email@, response: self.response@ }
    }
}

/// The two fields of an attestation object that registration reads.
#[derive(Debug)]
pub struct AuthenticatorAttestationResponse {
    pub auth_data: Vec<u8>,
    pub fmt: String,
}

pub struct AttestationView {
    pub auth_data: Seq<u8>,
    pub fmt: Seq<char>,
}

impl View for AuthenticatorAttestationResponse {
    type V = AttestationView;

    open spec fn view(&self) -> AttestationView {
        AttestationView { auth_data: self.auth_data@, fmt: self.fmt@ }
    }
}

/// The attestation that a CBOR item holds: the item must be a map in which
/// exactly one entry is keyed by the text `fmt` and exactly one by the text
/// `authData`, the first with a text and the second with a byte string as its
/// value. Entries under any other key are passed over.
pub open spec fn attestation_fields(item: CborValue) -> Result<AttestationView, DecodeFailure> {
    match item {
        CborValue::Mapping(entries) => match (
            field_index(entries@, "fmt"@),
            field_index(entries@, "authData"@),
        ) {
            (Some(f), Some(a)) => match (entries@[f].1, entries@[a].1) {
                (CborValue::Text(fmt), CborValue::Bytes(auth_data)) => Ok(
                    AttestationView { auth_data: auth_data@, fmt: fmt@ },
                ),
                _ => Err(DecodeFailure::Format),
            },
            _ => Err(DecodeFailure::Format),
        },
        _ => Err(DecodeFailure::Format),
    }
}

/// The attestation that base64 text holds: the text is decoded to bytes, the
/// bytes to a CBOR item, and the item is read by [`attestation_fields`].
pub open spec fn decoded_attestation(encoded: Seq<char>) -> Result<AttestationView, DecodeFailure> {
    match base64_decoding(encoded) {
        None => Err(DecodeFailure::Encoding),
        Some(bytes) => match cbor_decoding(bytes) {
            None => Err(DecodeFailure::Format),
            Some(item) => attestation_fields(item),
        },
    }
}

/// The outcome of a decoding, with the attestation taken by its view.
pub open spec fn attestation_view(
    outcome: Result<AuthenticatorAttestationResponse, DecodeFailure>,
) -> Result<AttestationView, DecodeFailure> {
    match outcome {
        Ok(attestation) => Ok(attestation@),
        Err(failure) => Err(failure),
    }
}

impl AuthenticatorAttestationResponse {
    /// Reads the attestation out of a decoded CBOR item.
    pub fn from_cbor(item: &CborValue) -> (outcome: Result<Self, DecodeFailure>)
        ensures
            attestation_view(outcome) == attestation_fields(*item),
    {
        match item {
            CborValue::Mapping(entries) => {
                match (find_field(entries, "fmt"), find_field(entries, "authData")) {
                    (Some(f), Some(a)) => match (&entries[f].1, &entries[a].1) {
                        (CborValue::Text(fmt), CborValue::Bytes(auth_data)) => Ok(
                            AuthenticatorAttestationResponse {
                                auth_data: slice_to_vec(auth_data.as_slice()),
                                fmt: fmt.clone(),
                            },
                        ),
                        _ => Err(DecodeFailure::Format),
                    },
                    _ => Err(DecodeFailure::Format),
                }
            },
            _ => Err(DecodeFailure::Format),
        }
    }

    /// Decodes an attestation object from padded standard-alphabet base64 text.
    pub fn decode(encoded: &str) -> (outcome: Result<Self, DecodeFailure>)
        ensures
            attestation_view(outcome) == decoded_attestation(encoded@),
    {
        match base64_decode(encoded) {
            None => Err(DecodeFailure::Encoding),
            Some(bytes) => match cbor_decode(bytes.as_slice()) {
                None => Err(DecodeFailure::Format),
                Some(item) => Self::from_cbor(&item),
            },
        }
    }

    /// Decodes an attestation object, keeping no word of why it failed.
    pub fn from_b64_string(encoded: &str) -> (attestation: Option<Self>)
        ensures
            match attestation {
                Some(a) => decoded_attestation(encoded@) == Ok::<AttestationView, DecodeFailure>(a@),
                None => decoded_attestation(encoded@) is Err,
            },
    {
        match Self::decode(encoded) {
            Ok(attestation) => Some(attestation),
            Err(_) => None,
        }
    }
}

/// The hash that authenticator data begins with, where it is long enough.
pub open spec fn leading_hash(auth_data: Seq<u8>) -> Result<Seq<u8>, DecodeFailure> {
    if auth_data.len() < RP_ID_HASH_LEN {
        Err(DecodeFailure::Truncated)
    } else {
        Ok(auth_data.subrange(0, RP_ID_HASH_LEN as int))
    }
}

/// The part of the authenticator data that registration reads.
#[derive(Debug)]
pub struct AuthenticatorData<'a> {
    /// The SHA-256 hash of the relying party's identifier.
    pub rp_id_hash: &'a [u8],
}

impl<'a> AuthenticatorData<'a> {
    /// Takes the first 32 bytes of the authenticator data as the hash of the
    /// relying party's identifier. Shorter data is refused.
    pub fn from_bytes(bytes: &'a Vec<u8>) -> (outcome: Result<Self, DecodeFailure>)
        ensures
            match outcome {
                Ok(data) => leading_hash(bytes@) == Ok::<Seq<u8>, DecodeFailure>(data.rp_id_hash@),
                Err(failure) => leading_hash(bytes@) == Err::<Seq<u8>, DecodeFailure>(failure),
            },
    {
        if bytes.len() < RP_ID_HASH_LEN {
            Err(DecodeFailure::Truncated)
        } else {
            Ok(AuthenticatorData { rp_id_hash: slice_subrange(bytes.as_slice(), 0, RP_ID_HASH_LEN) })
        }
    }
}

/// What an authenticator writes is read back unchanged: from the map of the
/// three entries `fmt`, `attStmt` and `authData`, in this order, come the very
/// format and authenticator data that were put in, and from authenticator
/// data that begins with a 32-byte hash comes that hash, whatever follows it.
pub proof fn lemma_attestation_is_read_back(
    item: CborValue,
    fmt: Seq<char>,
    hash: Seq<u8>,
    rest: Seq<u8>,
)
    requires
        hash.len() == RP_ID_HASH_LEN,
        item matches CborValue::Mapping(entries) && {
            &&& entries@.len() == 3
            &&& entries@[0].0 matches CborValue::Text(key) && key@ == "fmt"@
            &&& entries@[0].1 matches CborValue::Text(value) && value@ == fmt
            &&& entries@[1].0 matches CborValue::Text(key) && key@ == "attStmt"@
            &&& entries@[2].0 matches CborValue::Text(key) && key@ == "authData"@
            &&& entries@[2].1 matches CborValue::Bytes(value) && value@ == hash + rest
        },
    ensures
        attestation_fields(item) == Ok::<AttestationView, DecodeFailure>(
            AttestationView { auth_data: hash + rest, fmt },
        ),
        leading_hash(hash + rest) == Ok::<Seq<u8>, DecodeFailure>(hash),
{
    reveal_strlit("fmt");
    reveal_strlit("attStmt");
    reveal_strlit("authData");
    let entries = item->Mapping_0@;
    assert("fmt"@.len() == 3 && "attStmt"@.len() == 7 && "authData"@.len() == 8);
    assert(is_sole_field(entries, "fmt"@, 0));
    assert(is_sole_field(entries, "authData"@, 2));
    assert((hash + rest).subrange(0, RP_ID_HASH_LEN as int) =~= hash);
}

} // verus!
