//! The key schedule of the handshake, and the two messages it exchanges.
//!
//! The initiator seals its temporary public key in a hello, under a key
//! derived from the secret the two permanent keys share and from the password
//! it presents. The responder seals its own temporary public key in a key
//! message, under a key derived from the secret its permanent key shares with
//! the initiator's temporary key. The secret of the two temporary keys then
//! gives each direction its session key.
use vstd::prelude::*;
use crate::bytes::{append, array_at};
use crate::credentials::{
    hash_password, login_tag, password_secret, password_tag, tag_of_login, tag_of_secret,
    AUTH_LOGIN, AUTH_NONE, AUTH_PASSWORD,
};
use crate::keys::{derive_public_key, public_key_of};
use crate::primitives::{aead_seal, aead_sealed, sha512, sha512_digest, x25519, x25519_output};
use crate::wire::{build_hello_header, build_key_header, hello_header, key_header, HandshakeVariant};

verus! {

/// Label of the key that seals a hello.
pub const LABEL_HELLO: u8 = 1;

/// Label of the key that seals a key message.
pub const LABEL_KEY: u8 = 2;

/// Label of the session key under which the initiator sends.
pub const LABEL_INITIATOR_SENDS: u8 = 3;

/// Label of the session key under which the responder sends.
pub const LABEL_RESPONDER_SENDS: u8 = 4;

/// The credential a session presents when it opens a handshake.
pub struct Credentials {
    pub password: Vec<u8>,
    pub login: Option<Vec<u8>>,
}

/// A presented credential as plain values.
pub struct CredentialsView {
    pub password: Seq<u8>,
    pub login: Option<Seq<u8>>,
}

impl View for Credentials {
    type V = CredentialsView;

    open spec fn view(&self) -> CredentialsView {
        CredentialsView {
            password: self.password@,
            login: match self.login {
                Some(l) => Some(l@),
                None => None,
            },
        }
    }
}

/// The view of an optional credential.
pub open spec fn credentials_view(auth: Option<Credentials>) -> Option<CredentialsView> {
    match auth {
        Some(c) => Some(c@),
        None => None,
    }
}

/// How a hello names the credential it presents.
pub open spec fn auth_type_of(auth: Option<CredentialsView>) -> u8 {
    match auth {
        None => AUTH_NONE,
        Some(c) => if c.login is Some {
            AUTH_LOGIN
        } else {
            AUTH_PASSWORD
        },
    }
}

/// The tag by which a hello names the credential it presents.
pub open spec fn auth_tag_of(auth: Option<CredentialsView>) -> Seq<u8> {
    match auth {
        None => Seq::new(8, |i: int| 0u8),
        Some(c) => match c.login {
            Some(l) => login_tag(l),
            None => password_tag(c.password),
        },
    }
}

/// The secret the presented credential contributes to the handshake keys.
pub open spec fn auth_secret_of(auth: Option<CredentialsView>) -> Seq<u8> {
    match auth {
        None => Seq::empty(),
        Some(c) => password_secret(c.password),
    }
}

/// What a variant binds every key to besides the secrets.
pub open spec fn binding(variant: HandshakeVariant, initiator_public: Seq<u8>, responder_public: Seq<u8>) -> Seq<u8> {
    match variant {
        HandshakeVariant::Legacy => Seq::empty(),
        HandshakeVariant::Alternate => initiator_public + responder_public,
    }
}

/// A key of the handshake: the first half of the digest of the label, the
/// variant, what the variant binds to, the shared secret and the password secret.
pub open spec fn derived_key(
    label: u8,
    variant: HandshakeVariant,
    initiator_public: Seq<u8>,
    responder_public: Seq<u8>,
    shared: Seq<u8>,
    secret: Seq<u8>,
) -> Seq<u8> {
    sha512_digest(
        seq![label, variant.tag_spec()] + binding(variant, initiator_public, responder_public) + shared + secret,
    ).subrange(0, 32)
}

/// The hello of an initiator with the given keys, credential and fresh bytes.
pub open spec fn hello_message(
    variant: HandshakeVariant,
    auth: Option<CredentialsView>,
    our_private: Seq<u8>,
    our_public: Seq<u8>,
    her_public: Seq<u8>,
    temp_private: Seq<u8>,
    nonce: Seq<u8>,
) -> Option<Seq<u8>> {
    let header = hello_header(variant, auth_type_of(auth), auth_tag_of(auth), nonce);
    let key = derived_key(
        LABEL_HELLO,
        variant,
        our_public,
        her_public,
        x25519_output(our_private, her_public),
        auth_secret_of(auth),
    );
    match aead_sealed(key, nonce, header, public_key_of(temp_private)) {
        Some(boxed) => Some(header + boxed),
        None => None,
    }
}

/// The key message of a responder that answers a hello which carried `her_temp`.
pub open spec fn key_message(
    variant: HandshakeVariant,
    secret: Seq<u8>,
    our_private: Seq<u8>,
    our_public: Seq<u8>,
    her_public: Seq<u8>,
    her_temp: Seq<u8>,
    temp_private: Seq<u8>,
    nonce: Seq<u8>,
) -> Option<Seq<u8>> {
    let header = key_header(variant, nonce);
    let key = derived_key(LABEL_KEY, variant, her_public, our_public, x25519_output(our_private, her_temp), secret);
    match aead_sealed(key, nonce, header, public_key_of(temp_private)) {
        Some(boxed) => Some(header + boxed),
        None => None,
    }
}

/// Derives a key of the handshake.
pub fn derive_key(
    label: u8,
    variant: HandshakeVariant,
    initiator_public: &[u8; 32],
    responder_public: &[u8; 32],
    shared: &[u8; 32],
    secret: &[u8],
) -> (key: [u8; 32])
    ensures
        key@ == derived_key(label, variant, initiator_public@, responder_public@, shared@, secret@),
{
    let mut input: Vec<u8> = Vec::new();
    input.push(label);
    input.push(variant.tag());
    assert(input@ =~= seq![label, variant.tag_spec()]);
    match variant {
        HandshakeVariant::Legacy => {
            assert(input@ =~= seq![label, variant.tag_spec()] + binding(variant, initiator_public@, responder_public@));
        },
        HandshakeVariant::Alternate => {
            append(&mut input, initiator_public.as_slice());
            append(&mut input, responder_public.as_slice());
            assert(input@ =~= seq![label, variant.tag_spec()] + binding(variant, initiator_public@, responder_public@));
        },
    }
    append(&mut input, shared.as_slice());
    append(&mut input, secret);
    let digest = sha512(input.as_slice());
    array_at::<32>(digest.as_slice(), 0)
}

/// The secret a credential contributes, as bytes; empty without a credential.
pub fn auth_secret(auth: &Option<Credentials>) -> (secret: Vec<u8>)
    ensures
        secret@ == auth_secret_of(credentials_view(*auth)),
{
    match auth {
        None => Vec::new(),
        Some(c) => {
            let hashed = hash_password(c.password.as_slice());
            let mut secret: Vec<u8> = Vec::new();
            append(&mut secret, hashed.as_slice());
            assert(secret@ =~= hashed@);
            secret
        },
    }
}

/// Builds the hello of an initiator.
pub fn build_hello(
    variant: HandshakeVariant,
    auth: &Option<Credentials>,
    our_private: &[u8; 32],
    our_public: &[u8; 32],
    her_public: &[u8; 32],
    temp_private: &[u8; 32],
    nonce: &[u8; 12],
) -> (hello: Option<Vec<u8>>)
    ensures
        hello matches Some(h) ==> hello_message(
            variant,
            credentials_view(*auth),
            our_private@,
            our_public@,
            her_public@,
            temp_private@,
            nonce@,
        ) == Some(h@),
        hello is Some,
{
    let ghost view = credentials_view(*auth);
    let (auth_type, tag) = match auth {
        None => {
            let zeros = [0u8; 8];
            assert(zeros@ =~= auth_tag_of(view));
            (AUTH_NONE, zeros)
        },
        Some(c) => match &c.login {
            Some(l) => (AUTH_LOGIN, tag_of_login(l.as_slice())),
            None => {
                let hashed = hash_password(c.password.as_slice());
                (AUTH_PASSWORD, tag_of_secret(&hashed))
            },
        },
    };
    let secret = auth_secret(auth);
    let mut message = build_hello_header(variant, auth_type, &tag, nonce);
    let shared = x25519(our_private, her_public);
    let key = derive_key(LABEL_HELLO, variant, our_public, her_public, &shared, secret.as_slice());
    let temp_public = derive_public_key(temp_private);
    match aead_seal(&key, nonce, message.as_slice(), temp_public.as_slice()) {
        Some(boxed) => {
            append(&mut message, boxed.as_slice());
            Some(message)
        },
        None => None,
    }
}

/// Builds the key message of a responder.
pub fn build_key_message(
    variant: HandshakeVariant,
    secret: &[u8],
    our_private: &[u8; 32],
    our_public: &[u8; 32],
    her_public: &[u8; 32],
    her_temp: &[u8; 32],
    temp_private: &[u8; 32],
    nonce: &[u8; 12],
) -> (message: Option<Vec<u8>>)
    ensures
        message matches Some(m) ==> key_message(
            variant,
            secret@,
            our_private@,
            our_public@,
            her_public@,
            her_temp@,
            temp_private@,
            nonce@,
        ) == Some(m@),
        message is Some,
{
    let mut message = build_key_header(variant, nonce);
    let shared = x25519(our_private, her_temp);
    let key = derive_key(LABEL_KEY, variant, her_public, our_public, &shared, secret);
    let temp_public = derive_public_key(temp_private);
    match aead_seal(&key, nonce, message.as_slice(), temp_public.as_slice()) {
        Some(boxed) => {
            append(&mut message, boxed.as_slice());
            Some(message)
        },
        None => None,
    }
}

} // verus!
