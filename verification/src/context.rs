//! The context of one node: its long-term key pair and the credentials it
//! accepts. Every session of the node is made from it.
use vstd::prelude::*;
use crate::bytes::array_at;
use crate::credentials::{distinct_passwords, has_password, labels, without_login, AddUserError, CredentialEntry, CredentialStore, EntryView};
use crate::keys::{public_key_of, KeyPair};
use crate::sources::{RandomFailure, RandomSource};

verus! {

/// Why a context could not be made.
#[derive(Debug, Clone, Copy, PartialEq, Eq, Structural)]
pub enum ContextError {
    /// The randomness source did not supply a private key.
    Randomness,
}

/// The long-term keys and the credential store of one node.
pub struct CryptoAuth {
    keys: KeyPair,
    store: CredentialStore,
}

impl CryptoAuth {
    /// The node's private key.
    pub closed spec fn private_bytes(&self) -> Seq<u8> {
        self.keys.private_bytes()
    }

    /// The node's public key.
    pub closed spec fn public_bytes(&self) -> Seq<u8> {
        self.keys.public_bytes()
    }

    /// The credentials the node accepts, in the order in which they were added.
    pub closed spec fn users(&self) -> Seq<EntryView> {
        self.store@
    }

    /// The context of the node that holds `private`, with no credentials yet.
    pub fn with_private_key(private: [u8; 32]) -> (context: CryptoAuth)
        ensures
            context.private_bytes() == private@,
            context.public_bytes() == public_key_of(private@),
            context.users() == Seq::<EntryView>::empty(),
    {
        CryptoAuth { keys: KeyPair::from_private(private), store: CredentialStore::new() }
    }

    /// The context whose private key is what the randomness source supplied:
    /// made where the source supplied exactly the bytes of a key, refused
    /// otherwise.
    pub fn from_drawn(drawn: Result<Vec<u8>, RandomFailure>) -> (made: Result<CryptoAuth, ContextError>)
        ensures
            drawn matches Ok(bytes) ==> (if bytes@.len() == 32 {
                made matches Ok(context) && context.private_bytes() == bytes@
                    && context.public_bytes() == public_key_of(bytes@)
                    && context.users() == Seq::<EntryView>::empty()
            } else {
                made matches Err(e) && e == ContextError::Randomness
            }),
            drawn is Err ==> (made matches Err(e) && e == ContextError::Randomness),
    {
        match drawn {
            Ok(bytes) => {
                if bytes.len() != 32 {
                    return Err(ContextError::Randomness);
                }
                let private = array_at::<32>(bytes.as_slice(), 0);
                assert(private@ =~= bytes@);
                Ok(CryptoAuth::with_private_key(private))
            },
            Err(_) => Err(ContextError::Randomness),
        }
    }

    /// Makes a context. With a private key it is the context of that key, and
    /// the randomness source is not asked; without one, the key is drawn from
    /// the source, and the call fails only where the source does.
    pub fn new<R: RandomSource>(private_key: Option<[u8; 32]>, random: &mut R) -> (made: Result<CryptoAuth, ContextError>)
        ensures
            private_key matches Some(private) ==> (made matches Ok(context)
                && context.private_bytes() == private@),
            made matches Ok(context) ==> context.public_bytes() == public_key_of(context.private_bytes())
                && context.users() == Seq::<EntryView>::empty(),
            made matches Err(e) ==> e == ContextError::Randomness,
    {
        match private_key {
            Some(private) => Ok(CryptoAuth::with_private_key(private)),
            None => {
                let drawn = random.fill(32);
                CryptoAuth::from_drawn(drawn)
            },
        }
    }

    /// The node's public key. It is derived from the private key and from
    /// nothing else.
    pub fn get_public_key(&self) -> (public: [u8; 32])
        ensures
            public@ == self.public_bytes(),
            public@ == public_key_of(self.private_bytes()),
    {
        self.keys.public_key()
    }

    /// The node's key pair.
    pub fn keys(&self) -> (keys: &KeyPair)
        ensures
            keys.private_bytes() == self.private_bytes(),
            keys.public_bytes() == self.public_bytes(),
    {
        &self.keys
    }

    /// The node's credential store.
    pub fn store(&self) -> (store: &CredentialStore)
        ensures
            store@ == self.users(),
    {
        &self.store
    }

    /// Adds a credential; see [`CredentialStore::add_user`].
    pub fn add_user(&mut self, password: Vec<u8>, login: Option<Vec<u8>>, address: Option<[u8; 16]>) -> (added: Result<(), AddUserError>)
        ensures
            final(self).private_bytes() == old(self).private_bytes(),
            final(self).public_bytes() == old(self).public_bytes(),
            distinct_passwords(final(self).users()),
            has_password(old(self).users(), password@) ==> added == Err::<(), AddUserError>(AddUserError::Duplicate)
                && final(self).users() == old(self).users(),
            !has_password(old(self).users(), password@) ==> added == Ok::<(), AddUserError>(())
                && final(self).users() == old(self).users().push((CredentialEntry { password, login, address })@),
    {
        self.store.add_user(password, login, address)
    }

    /// Removes credentials; see [`CredentialStore::remove_users`].
    pub fn remove_users(&mut self, login: Option<Vec<u8>>) -> (removed: usize)
        ensures
            final(self).private_bytes() == old(self).private_bytes(),
            final(self).public_bytes() == old(self).public_bytes(),
            distinct_passwords(final(self).users()),
            login is None ==> final(self).users() == Seq::<EntryView>::empty() && removed == old(self).users().len(),
            login matches Some(l) ==> final(self).users() == without_login(old(self).users(), l@)
                && removed == old(self).users().len() - final(self).users().len(),
    {
        self.store.remove_users(login)
    }

    /// Lists the credentials; see [`CredentialStore::list_users`].
    pub fn list_users(&self) -> (listing: Vec<Vec<u8>>)
        ensures
            listing@.map_values(|label: Vec<u8>| label@) == labels(self.users()),
    {
        self.store.list_users()
    }
}

} // verus!
