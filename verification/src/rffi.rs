//! The engine as a host runtime drives it: one function per operation, on
//! plain values. Each hands its arguments to the context or the session it
//! is given and returns what that answered.
use vstd::prelude::*;
use crate::context::{ContextError, CryptoAuth};
use crate::credentials::{distinct_passwords, has_password, labels, without_login, CredentialEntry, EntryView};
use crate::endpoint::{PipelineEndpoint, Side};
use crate::handshake::Credentials;
use crate::keys::{address_of, public_key_of, valid_peer_key};
use crate::model::{SessionView, State, Stats};
use crate::session::{name_view, Session, SessionError};
use crate::sources::{Clock, RandomSource};
use crate::wire::HandshakeVariant;

verus! {

/// The status of an `addUser` call that found the password in the store.
pub const ADD_USER_DUPLICATE: i32 = -3;

/// The handle of a context.
pub struct RTypes_CryptoAuth2_t(pub CryptoAuth);

/// The two endpoints of a session's pipeline.
pub struct RTypes_CryptoAuth2_Session_t {
    pub plaintext: PipelineEndpoint,
    pub ciphertext: PipelineEndpoint,
}

/// The handle of a session: its endpoints and the session itself.
pub struct Rffi_CryptoAuth2_Session_t {
    pub r: RTypes_CryptoAuth2_Session_t,
    pub s: Session,
}

/// The handshake variant a session of the given kind speaks.
pub open spec fn variant_of(use_noise: bool) -> HandshakeVariant {
    if use_noise {
        HandshakeVariant::Alternate
    } else {
        HandshakeVariant::Legacy
    }
}

/// The status of a count: the count itself, as far as the range goes.
pub open spec fn count_status(count: nat) -> i32 {
    if count > i32::MAX {
        i32::MAX
    } else {
        count as i32
    }
}

/// Adds a credential to the context. The status is zero where it was added
/// and `ADD_USER_DUPLICATE` where the password was there already, in which
/// case the store is as before.
pub fn Rffi_CryptoAuth2_addUser_ipv6(
    password: Vec<u8>,
    login: Option<Vec<u8>>,
    ipv6: Option<[u8; 16]>,
    ca: &mut RTypes_CryptoAuth2_t,
) -> (status: i32)
    ensures
        final(ca).0.private_bytes() == old(ca).0.private_bytes(),
        final(ca).0.public_bytes() == old(ca).0.public_bytes(),
        distinct_passwords(final(ca).0.users()),
        has_password(old(ca).0.users(), password@) ==> status == ADD_USER_DUPLICATE && final(ca).0.users() == old(
            ca,
        ).0.users(),
        !has_password(old(ca).0.users(), password@) ==> status == 0 && final(ca).0.users() == old(
            ca,
        ).0.users().push((CredentialEntry { password, login, address: ipv6 })@),
{
    match ca.0.add_user(password, login, ipv6) {
        Ok(_) => 0,
        Err(_) => ADD_USER_DUPLICATE,
    }
}

/// Removes every credential, or with a login those listed under it. The
/// status is the number of credentials removed.
pub fn Rffi_CryptoAuth2_removeUsers(context: &mut RTypes_CryptoAuth2_t, user: Option<Vec<u8>>) -> (status: i32)
    ensures
        final(context).0.private_bytes() == old(context).0.private_bytes(),
        final(context).0.public_bytes() == old(context).0.public_bytes(),
        distinct_passwords(final(context).0.users()),
        user is None ==> final(context).0.users() == Seq::<EntryView>::empty(),
        user matches Some(l) ==> final(context).0.users() == without_login(old(context).0.users(), l@),
        status == count_status((old(context).0.users().len() - final(context).0.users().len()) as nat),
{
    let removed = context.0.remove_users(user);
    if removed > 0x7fff_ffff {
        i32::MAX
    } else {
        removed as i32
    }
}

/// Lists the credentials of the context, one label each.
pub fn Rffi_CryptoAuth2_getUsers(ca: &RTypes_CryptoAuth2_t) -> (listing: Vec<Vec<u8>>)
    ensures
        listing@.map_values(|label: Vec<u8>| label@) == labels(ca.0.users()),
{
    ca.0.list_users()
}

/// Makes a context, with the given private key or one drawn from `random`.
pub fn Rffi_CryptoAuth2_new<R: RandomSource>(private_key: Option<[u8; 32]>, random: &mut R) -> (made: Result<
    RTypes_CryptoAuth2_t,
    ContextError,
>)
    ensures
        private_key matches Some(private) ==> (made matches Ok(ca) && ca.0.private_bytes() == private@),
        made matches Ok(ca) ==> ca.0.public_bytes() == public_key_of(ca.0.private_bytes()) && ca.0.users()
            == Seq::<EntryView>::empty(),
        made matches Err(e) ==> e == ContextError::Randomness,
{
    match CryptoAuth::new(private_key, random) {
        Ok(context) => Ok(RTypes_CryptoAuth2_t(context)),
        Err(e) => Err(e),
    }
}

/// Makes a session of the context with the peer that holds `her_public_key`.
pub fn Rffi_CryptoAuth2_newSession<C: Clock>(
    ca: &RTypes_CryptoAuth2_t,
    her_public_key: &[u8; 32],
    require_auth: bool,
    name: Option<String>,
    use_noise: bool,
    clock: &C,
) -> (made: Result<Rffi_CryptoAuth2_Session_t, SessionError>)
    ensures
        valid_peer_key(ca.0.private_bytes(), her_public_key@) ==> (made matches Ok(handle)
            && handle.r.plaintext.side == Side::Plaintext && handle.r.ciphertext.side == Side::Ciphertext
            && exists|now: u64|
            handle.s@ == #[trigger] SessionView::initial(
                ca.0.private_bytes(),
                her_public_key@,
                require_auth,
                name_view(name),
                variant_of(use_noise),
                now,
            )),
        !valid_peer_key(ca.0.private_bytes(), her_public_key@) ==> (made matches Err(e) && e
            == SessionError::InvalidPeerKey),
{
    let variant = if use_noise {
        HandshakeVariant::Alternate
    } else {
        HandshakeVariant::Legacy
    };
    match Session::new(&ca.0, her_public_key.as_slice(), require_auth, name, variant, clock) {
        Ok((session, plaintext, ciphertext)) => Ok(
            Rffi_CryptoAuth2_Session_t { r: RTypes_CryptoAuth2_Session_t { plaintext, ciphertext }, s: session },
        ),
        Err(e) => Err(e),
    }
}

/// Sets the credential the session presents to its peer.
pub fn Rffi_CryptoAuth2_setAuth(
    password: Option<Vec<u8>>,
    login: Option<Vec<u8>>,
    caSession: &mut Rffi_CryptoAuth2_Session_t,
)
    ensures
        final(caSession).r == old(caSession).r,
        final(caSession).s@ == old(caSession).s@.after_set_auth(
            match password {
                Some(p) => Some((Credentials { password: p, login })@),
                None => None,
            },
        ),
{
    caSession.s.set_auth(password, login)
}

/// Polls the session for a timeout at the time the clock shows.
pub fn Rffi_CryptoAuth2_resetIfTimeout<C: Clock>(session: &mut Rffi_CryptoAuth2_Session_t, clock: &C)
    ensures
        final(session).r == old(session).r,
        exists|now: u64| final(session).s@ == #[trigger] old(session).s@.after_timeout_poll(now),
{
    session.s.reset_if_timeout(clock)
}

/// Resets the session.
pub fn Rffi_CryptoAuth2_reset(caSession: &mut Rffi_CryptoAuth2_Session_t)
    ensures
        final(caSession).r == old(caSession).r,
        final(caSession).s@ == old(caSession).s@.after_reset(),
{
    caSession.s.reset()
}

/// Where the session stands.
pub fn Rffi_CryptoAuth2_getState(session: &Rffi_CryptoAuth2_Session_t) -> (state: State)
    ensures
        state == session.s@.state(),
{
    session.s.get_state()
}

/// The public key of the session's peer.
pub fn Rffi_CryptoAuth2_getHerPubKey(session: &Rffi_CryptoAuth2_Session_t) -> (key: [u8; 32])
    ensures
        key@ == session.s@.her_public,
{
    session.s.get_her_public_key()
}

/// The address of the session's peer.
pub fn Rffi_CryptoAuth2_getHerIp6(session: &Rffi_CryptoAuth2_Session_t) -> (address: [u8; 16])
    ensures
        address@ == address_of(session.s@.her_public),
{
    session.s.get_her_address()
}

/// The label of the session, if it has one.
pub fn Rffi_CryptoAuth2_getName(session: &Rffi_CryptoAuth2_Session_t) -> (name: Option<String>)
    ensures
        name_view(name) == session.s@.name,
{
    session.s.get_name()
}

/// The public key of the context.
pub fn Rffi_CryptoAuth2_getPubKey(ca: &RTypes_CryptoAuth2_t) -> (key: [u8; 32])
    ensures
        key@ == ca.0.public_bytes(),
        key@ == public_key_of(ca.0.private_bytes()),
{
    ca.0.get_public_key()
}

/// The counters of the session at the time the clock shows.
pub fn Rffi_CryptoAuth2_stats<C: Clock>(session: &Rffi_CryptoAuth2_Session_t, clock: &C) -> (stats: Stats)
    ensures
        exists|now: u64| stats == #[trigger] session.s@.stats(now),
{
    session.s.stats(clock)
}

} // verus!
