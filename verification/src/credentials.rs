//! The credentials a node accepts from peers that open a session with it.
use vstd::prelude::*;
use crate::bytes::{array_at, bytes_equal};
use crate::primitives::{sha512, sha512_digest};

verus! {

/// A hello that presents no credential.
pub const AUTH_NONE: u8 = 0;

/// A hello that presents a password, found by the tag of the password.
pub const AUTH_PASSWORD: u8 = 1;

/// A hello that presents a login and a password, found by the tag of the login.
pub const AUTH_LOGIN: u8 = 2;

/// Length of the tag by which a hello names its credential.
pub const TAG_LEN: usize = 8;

/// One credential: a password, and optionally the login it is listed under
/// and the only address that may present it.
pub struct CredentialEntry {
    pub password: Vec<u8>,
    pub login: Option<Vec<u8>>,
    pub address: Option<[u8; 16]>,
}

/// A credential as plain values.
pub struct EntryView {
    pub password: Seq<u8>,
    pub login: Option<Seq<u8>>,
    pub address: Option<Seq<u8>>,
}

impl View for CredentialEntry {
    type V = EntryView;

    open spec fn view(&self) -> EntryView {
        EntryView {
            password: self.password@,
            login: match self.login {
                Some(l) => Some(l@),
                None => None,
            },
            address: match self.address {
                Some(a) => Some(a@),
                None => None,
            },
        }
    }
}

/// Why a credential was not added.
#[derive(Debug, Clone, Copy, PartialEq, Eq, Structural)]
pub enum AddUserError {
    /// The password is already in the store.
    Duplicate,
}

/// The secret a password contributes to the keys of a handshake.
pub open spec fn password_secret(password: Seq<u8>) -> Seq<u8> {
    sha512_digest(password)
}

/// The tag by which a hello names a password without showing it.
pub open spec fn password_tag(password: Seq<u8>) -> Seq<u8> {
    sha512_digest(password_secret(password)).subrange(0, 8)
}

/// The tag by which a hello names a login.
pub open spec fn login_tag(login: Seq<u8>) -> Seq<u8> {
    sha512_digest(login).subrange(0, 8)
}

/// Some entry holds `password`.
pub open spec fn has_password(entries: Seq<EntryView>, password: Seq<u8>) -> bool {
    exists|i: int| 0 <= i < entries.len() && #[trigger] entries[i].password == password
}

/// No two entries hold the same password.
pub open spec fn distinct_passwords(entries: Seq<EntryView>) -> bool {
    forall|i: int, j: int|
        0 <= i < entries.len() && 0 <= j < entries.len() && i != j
            ==> #[trigger] entries[i].password != #[trigger] entries[j].password
}

/// The entries that are not listed under `login`, in their order.
pub open spec fn without_login(entries: Seq<EntryView>, login: Seq<u8>) -> Seq<EntryView> {
    entries.filter(|e: EntryView| e.login != Some(login))
}

/// What stands for an entry that has no login when the entries are listed.
pub open spec fn anonymous_label() -> Seq<u8> {
    seq![0x28u8, 0x61, 0x6e, 0x6f, 0x6e, 0x79, 0x6d, 0x6f, 0x75, 0x73, 0x29]
}

/// The string an entry is listed as: its login, or the anonymous label.
pub open spec fn label_of(entry: EntryView) -> Seq<u8> {
    match entry.login {
        Some(l) => l,
        None => anonymous_label(),
    }
}

/// The listing of the entries: one label each, in their order.
pub open spec fn labels(entries: Seq<EntryView>) -> Seq<Seq<u8>> {
    Seq::new(entries.len(), |i: int| label_of(entries[i]))
}

/// Whether an entry answers to the credential a hello names, coming from `address`.
pub open spec fn entry_matches(entry: EntryView, auth_type: u8, tag: Seq<u8>, address: Seq<u8>) -> bool {
    &&& entry.address matches Some(only) ==> only == address
    &&& if auth_type == AUTH_PASSWORD {
        password_tag(entry.password) == tag
    } else if auth_type == AUTH_LOGIN {
        entry.login matches Some(l) && login_tag(l) == tag
    } else {
        false
    }
}

/// The password secret of the first entry from index `from` on that answers
/// to the credential a hello names.
pub open spec fn secret_from(
    entries: Seq<EntryView>,
    from: int,
    auth_type: u8,
    tag: Seq<u8>,
    address: Seq<u8>,
) -> Option<Seq<u8>>
    decreases entries.len() - from,
{
    if from < 0 || from >= entries.len() {
        None
    } else if entry_matches(entries[from], auth_type, tag, address) {
        Some(password_secret(entries[from].password))
    } else {
        secret_from(entries, from + 1, auth_type, tag, address)
    }
}

/// The password secret of the first entry that answers to the credential a
/// hello names, if there is one.
pub open spec fn secret_for(entries: Seq<EntryView>, auth_type: u8, tag: Seq<u8>, address: Seq<u8>) -> Option<Seq<u8>> {
    secret_from(entries, 0, auth_type, tag, address)
}

/// Computes the secret of a password.
pub fn hash_password(password: &[u8]) -> (secret: [u8; 64])
    ensures
        secret@ == password_secret(password@),
{
    sha512(password)
}

/// Computes the tag of a password from its secret.
pub fn tag_of_secret(secret: &[u8; 64]) -> (tag: [u8; 8])
    ensures
        tag@ == sha512_digest(secret@).subrange(0, 8),
{
    let digest = sha512(secret.as_slice());
    array_at::<8>(digest.as_slice(), 0)
}

/// Computes the tag of a login.
pub fn tag_of_login(login: &[u8]) -> (tag: [u8; 8])
    ensures
        tag@ == login_tag(login@),
{
    let digest = sha512(login);
    array_at::<8>(digest.as_slice(), 0)
}

/// The credentials of one node, in the order in which they were added. Two
/// entries never hold the same password; logins and addresses may repeat.
pub struct CredentialStore {
    entries: Vec<CredentialEntry>,
}

impl View for CredentialStore {
    type V = Seq<EntryView>;

    closed spec fn view(&self) -> Seq<EntryView> {
        self.entries@.map_values(|e: CredentialEntry| e@)
    }
}

impl CredentialStore {
    #[verifier::type_invariant]
    spec fn well_formed(self) -> bool {
        distinct_passwords(self@)
    }

    /// A store without entries.
    pub fn new() -> (store: CredentialStore)
        ensures
            store@ == Seq::<EntryView>::empty(),
    {
        let store = CredentialStore { entries: Vec::new() };
        assert(store@ =~= Seq::<EntryView>::empty());
        store
    }

    /// The number of entries.
    pub fn len(&self) -> (n: usize)
        ensures
            n == self@.len(),
    {
        self.entries.len()
    }

    /// Whether some entry holds `password`.
    pub fn contains_password(&self, password: &[u8]) -> (found: bool)
        ensures
            found == has_password(self@, password@),
    {
        let mut i: usize = 0;
        while i < self.entries.len()
            invariant
                i <= self.entries@.len(),
                forall|j: int| 0 <= j < i ==> (#[trigger] self@[j]).password != password@,
            decreases self.entries@.len() - i,
        {
            if bytes_equal(self.entries[i].password.as_slice(), password) {
                assert(self@[i as int].password == password@);
                return true;
            }
            i += 1;
        }
        false
    }

    /// Adds a credential behind those already there. A password that is
    /// already in the store is refused, and the store stays as it was.
    pub fn add_user(&mut self, password: Vec<u8>, login: Option<Vec<u8>>, address: Option<[u8; 16]>) -> (added: Result<(), AddUserError>)
        ensures
            distinct_passwords(final(self)@),
            has_password(old(self)@, password@) ==> added == Err::<(), AddUserError>(AddUserError::Duplicate)
                && final(self)@ == old(self)@,
            !has_password(old(self)@, password@) ==> added == Ok::<(), AddUserError>(())
                && final(self)@ == old(self)@.push((CredentialEntry { password, login, address })@),
    {
        proof {
            use_type_invariant(&*self);
        }
        if self.contains_password(password.as_slice()) {
            return Err(AddUserError::Duplicate);
        }
        let entry = CredentialEntry { password, login, address };
        let ghost before = self@;
        let ghost added_view = entry@;
        let mut entries: Vec<CredentialEntry> = Vec::new();
        core::mem::swap(&mut self.entries, &mut entries);
        entries.push(entry);
        proof {
            let after = entries@.map_values(|e: CredentialEntry| e@);
            assert(after =~= before.push(added_view));
            assert forall|i: int, j: int|
                0 <= i < after.len() && 0 <= j < after.len() && i != j
                implies #[trigger] after[i].password != #[trigger] after[j].password by {
                if i < before.len() && j < before.len() {
                    assert(before[i].password != before[j].password);
                } else if i < before.len() {
                    assert(before[i].password != added_view.password);
                } else {
                    assert(before[j].password != added_view.password);
                }
            }
        }
        self.entries = entries;
        Ok(())
    }

    /// Removes every entry, or with a login those listed under it, and
    /// returns how many entries left the store.
    pub fn remove_users(&mut self, login: Option<Vec<u8>>) -> (removed: usize)
        ensures
            distinct_passwords(final(self)@),
            login is None ==> final(self)@ == Seq::<EntryView>::empty() && removed == old(self)@.len(),
            login matches Some(l) ==> final(self)@ == without_login(old(self)@, l@)
                && removed == old(self)@.len() - final(self)@.len(),
    {
        proof {
            use_type_invariant(&*self);
        }
        let ghost before = self@;
        let mut entries: Vec<CredentialEntry> = Vec::new();
        core::mem::swap(&mut self.entries, &mut entries);
        assert(self@ =~= Seq::<EntryView>::empty());
        let total: usize = entries.len();
        match login {
            None => total,
            Some(l) => {
                let ghost keep = |e: EntryView| e.login != Some(l@);
                let mut i: usize = 0;
                let mut removed: usize = 0;
                proof {
                    reveal(Seq::filter);
                    assert(before.subrange(0, 0) =~= Seq::<EntryView>::empty());
                }
                while i < entries.len()
                    invariant
                        before.len() == total,
                        i + removed <= total,
                        entries@.len() == total - removed,
                        i <= entries@.len(),
                        keep == |e: EntryView| e.login != Some(l@),
                        entries@.map_values(|e: CredentialEntry| e@).subrange(0, i as int)
                            == before.subrange(0, i + removed).filter(keep),
                        forall|j: int| i <= j < entries@.len()
                            ==> (#[trigger] entries@[j])@ == before[j + removed],
                        distinct_passwords(before),
                        self.entries@.len() == 0,
                    decreases entries@.len() - i,
                {
                    let ghost cur = entries@.map_values(|e: CredentialEntry| e@);
                    let ghost k = i + removed;
                    assert(cur[i as int] == before[k]);
                    assert(before.subrange(0, k + 1).drop_last() =~= before.subrange(0, k));
                    assert(before.subrange(0, k + 1).last() == before[k]);
                    proof {
                        reveal(Seq::filter);
                    }
                    let listed = match &entries[i].login {
                        Some(have) => bytes_equal(have.as_slice(), l.as_slice()),
                        None => false,
                    };
                    assert(listed == !keep(before[k]));
                    if listed {
                        entries.remove(i);
                        removed += 1;
                        proof {
                            let next = entries@.map_values(|e: CredentialEntry| e@);
                            assert(next =~= cur.remove(i as int));
                            assert(next.subrange(0, i as int) =~= cur.subrange(0, i as int));
                            assert forall|j: int| i <= j < entries@.len()
                                implies (#[trigger] entries@[j])@ == before[j + removed] by {
                                assert(next[j] == cur[j + 1]);
                            }
                        }
                    } else {
                        proof {
                            assert(cur.subrange(0, i + 1) =~= cur.subrange(0, i as int).push(cur[i as int]));
                        }
                        i += 1;
                    }
                }
                proof {
                    let kept = entries@.map_values(|e: CredentialEntry| e@);
                    assert(kept =~= kept.subrange(0, i as int));
                    assert(before.subrange(0, total as int) =~= before);
                    assert(kept == without_login(before, l@));
                    lemma_filter_keeps_distinct(before, keep);
                }
                self.entries = entries;
                removed
            },
        }
    }

    /// Lists the entries: one label each, in the order in which they were added.
    pub fn list_users(&self) -> (listing: Vec<Vec<u8>>)
        ensures
            listing@.map_values(|label: Vec<u8>| label@) == labels(self@),
    {
        let mut listing: Vec<Vec<u8>> = Vec::new();
        let mut i: usize = 0;
        while i < self.entries.len()
            invariant
                i <= self.entries@.len(),
                listing@.len() == i,
                forall|j: int| 0 <= j < i ==> (#[trigger] listing@[j])@ == label_of(self@[j]),
            decreases self.entries@.len() - i,
        {
            let label = match &self.entries[i].login {
                Some(l) => l.clone(),
                None => anonymous_label_bytes(),
            };
            assert(label@ == label_of(self@[i as int]));
            listing.push(label);
            i += 1;
        }
        assert(listing@.map_values(|label: Vec<u8>| label@) =~= labels(self@));
        listing
    }

    /// The password secret of the first entry that answers to the credential
    /// that a hello from `address` names by `auth_type` and `tag`.
    pub fn find_secret(&self, auth_type: u8, tag: &[u8], address: &[u8; 16]) -> (secret: Option<[u8; 64]>)
        ensures
            secret matches Some(s) ==> secret_for(self@, auth_type, tag@, address@) == Some(s@),
            secret is None ==> secret_for(self@, auth_type, tag@, address@) is None,
    {
        let mut i: usize = 0;
        while i < self.entries.len()
            invariant
                i <= self.entries@.len(),
                secret_for(self@, auth_type, tag@, address@) == secret_from(self@, i as int, auth_type, tag@, address@),
            decreases self.entries@.len() - i,
        {
            let entry = &self.entries[i];
            assert(entry@ == self@[i as int]);
            let secret = hash_password(entry.password.as_slice());
            let allowed = match &entry.address {
                Some(only) => bytes_equal(only.as_slice(), address.as_slice()),
                None => true,
            };
            let named = if auth_type == AUTH_PASSWORD {
                let have = tag_of_secret(&secret);
                bytes_equal(have.as_slice(), tag)
            } else if auth_type == AUTH_LOGIN {
                match &entry.login {
                    Some(l) => {
                        let have = tag_of_login(l.as_slice());
                        bytes_equal(have.as_slice(), tag)
                    },
                    None => false,
                }
            } else {
                false
            };
            assert((allowed && named) == entry_matches(self@[i as int], auth_type, tag@, address@));
            if allowed && named {
                return Some(secret);
            }
            i += 1;
        }
        None
    }
}

/// The anonymous label as bytes.
pub fn anonymous_label_bytes() -> (label: Vec<u8>)
    ensures
        label@ == anonymous_label(),
{
    let label: Vec<u8> = vec![0x28u8, 0x61, 0x6e, 0x6f, 0x6e, 0x79, 0x6d, 0x6f, 0x75, 0x73, 0x29];
    assert(label@ =~= anonymous_label());
    label
}

/// Filtering keeps passwords distinct.
pub proof fn lemma_filter_keeps_distinct(entries: Seq<EntryView>, keep: spec_fn(EntryView) -> bool)
    requires
        distinct_passwords(entries),
    ensures
        distinct_passwords(entries.filter(keep)),
    decreases entries.len(),
{
    reveal(Seq::filter);
    if entries.len() > 0 {
        let front = entries.drop_last();
        assert forall|i: int, j: int|
            0 <= i < front.len() && 0 <= j < front.len() && i != j
            implies #[trigger] front[i].password != #[trigger] front[j].password by {
            assert(entries[i].password != entries[j].password);
        }
        lemma_filter_keeps_distinct(front, keep);
        let kept = front.filter(keep);
        if keep(entries.last()) {
            let all = kept.push(entries.last());
            assert forall|i: int, j: int|
                0 <= i < all.len() && 0 <= j < all.len() && i != j
                implies #[trigger] all[i].password != #[trigger] all[j].password by {
                if i < kept.len() && j < kept.len() {
                    assert(kept[i].password != kept[j].password);
                } else if i < kept.len() {
                    lemma_filtered_comes_from(front, keep, i);
                } else {
                    lemma_filtered_comes_from(front, keep, j);
                }
            }
        }
    }
}

/// Each entry of a filtered sequence stands somewhere in the sequence.
pub proof fn lemma_filtered_comes_from(entries: Seq<EntryView>, keep: spec_fn(EntryView) -> bool, i: int)
    requires
        0 <= i < entries.filter(keep).len(),
    ensures
        exists|k: int| 0 <= k < entries.len() && #[trigger] entries[k] == entries.filter(keep)[i],
    decreases entries.len(),
{
    reveal(Seq::filter);
    if entries.len() > 0 {
        let front = entries.drop_last();
        if i < front.filter(keep).len() {
            lemma_filtered_comes_from(front, keep, i);
            let k = choose|k: int| 0 <= k < front.len() && #[trigger] front[k] == front.filter(keep)[i];
            assert(entries[k] == entries.filter(keep)[i]);
        } else {
            assert(entries[entries.len() - 1] == entries.filter(keep)[i]);
        }
    }
}

} // verus!
