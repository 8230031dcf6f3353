//! The personal access token in the system keyring. The keyring is an outside
//! service: what it keeps between calls is not stated here. What is stated is
//! which entry is opened, what secret is handed to it or read from it, and
//! which error a failed step is reported as.
use vstd::prelude::*;


verus! {

#[verifier::external_type_specification]
#[verifier::external_body]
pub struct ExCredentialEntry(keyring_core::Entry);

#[verifier::external_type_specification]
#[verifier::external_body]
pub struct ExKeyringError(keyring_core::Error);

/// The keyring service under which the token is stored.
pub const SERVICE_NAME: &'static str = "twofauth-client";

/// The keyring user name under which the token is stored.
pub const TOKEN_NAME: &'static str = "api-token";

/// Which step of a keyring operation failed, with the keyring's error.
#[derive(Debug)]
pub enum TokenStoreError {
    OpenFailed(keyring_core::Error),
    SaveFailed(keyring_core::Error),
    LoadFailed(keyring_core::Error),
    DeleteFailed(keyring_core::Error),
}

/// The secret that this library last handed to an entry or read from it.
pub enum SecretRecord {
    /// Nothing has been handed to the entry or read from it yet.
    Unknown,
    /// The keyring accepted this secret, or answered with it.
    Stored(Seq<char>),
    /// The keyring removed the entry's secret.
    Removed,
}

/// An open keyring entry, with the service and user it was opened for.
pub struct KeyringEntry {
    entry: keyring_core::Entry,
    service: String,
    user: String,
    secret: Ghost<SecretRecord>,
}

impl KeyringEntry {
    /// The service the entry was opened for.
    pub closed spec fn service_name(&self) -> Seq<char> {
        self.service@
    }

    /// The user the entry was opened for.
    pub closed spec fn user_name(&self) -> Seq<char> {
        self.user@
    }

    /// The secret last handed to the entry or read from it.
    pub closed spec fn recorded_secret(&self) -> SecretRecord {
        self.secret@
    }

    /// Whether the entry was opened for this service and user.
    pub open spec fn opened_for(&self, service: Seq<char>, user: Seq<char>) -> bool {
        self.service_name() == service && self.user_name() == user
    }

    /// Whether two entries were opened for the same service and user.
    pub open spec fn same_key(&self, other: &KeyringEntry) -> bool {
        self.opened_for(other.service_name(), other.user_name())
    }

    /// The service the entry was opened for.
    pub fn service(&self) -> (r: &str)
        ensures
            r@ == self.service_name(),
    {
        self.service.as_str()
    }

    /// The user the entry was opened for.
    pub fn user(&self) -> (r: &str)
        ensures
            r@ == self.user_name(),
    {
        self.user.as_str()
    }

    /// Hands `password` to the keyring as the entry's secret; a failure is
    /// `SaveFailed`.
    pub fn set_password(&mut self, password: &str) -> (r: Result<(), TokenStoreError>)
        ensures
            final(self).same_key(old(self)),
            r is Ok ==> final(self).recorded_secret() == SecretRecord::Stored(password@),
            r matches Err(e) ==> e is SaveFailed && final(self).recorded_secret() == old(self).recorded_secret(),
    {
        report_save(entry_set_password(self, password))
    }

    /// Reads the entry's secret from the keyring; a failure is `LoadFailed`.
    pub fn get_password(&mut self) -> (r: Result<String, TokenStoreError>)
        ensures
            final(self).same_key(old(self)),
            r matches Ok(s) ==> final(self).recorded_secret() == SecretRecord::Stored(s@),
            r matches Err(e) ==> e is LoadFailed && final(self).recorded_secret() == old(self).recorded_secret(),
    {
        report_load(entry_get_password(self))
    }

    /// Removes the entry's secret from the keyring; a failure is
    /// `DeleteFailed`.
    pub fn delete_credential(&mut self) -> (r: Result<(), TokenStoreError>)
        ensures
            final(self).same_key(old(self)),
            r is Ok ==> final(self).recorded_secret() == SecretRecord::Removed,
            r matches Err(e) ==> e is DeleteFailed && final(self).recorded_secret() == old(self).recorded_secret(),
    {
        report_delete(entry_delete_credential(self))
    }
}

/// `keyring::v1::Entry::store_status`: sets up the platform's credential
/// store as the default store, once per process; later calls do nothing.
/// Whether the set-up worked is not used: opening an entry reports it.
#[verifier::external_body]
fn ensure_platform_store() {
    let _ = keyring::v1::Entry::store_status();
}

/// `keyring_core::Entry::new`: the entry for `service` and `user` in the
/// default credential store. Whether it succeeds depends on that store, so
/// only the entry's service and user, which are the arguments handed over,
/// are stated.
#[verifier::external_body]
fn open_entry(service: String, user: String) -> (r: Result<KeyringEntry, keyring_core::Error>)
    ensures
        r matches Ok(k) ==> k.service@ == service@ && k.user@ == user@ && k.secret@ == SecretRecord::Unknown,
{
    match keyring_core::Entry::new(&service, &user) {
        Ok(entry) => Ok(KeyringEntry { entry, service, user, secret: Ghost(SecretRecord::Unknown) }),
        Err(e) => Err(e),
    }
}

/// `keyring_core::Entry::set_password`: hands `password` to the store as the
/// entry's secret. Whether the store accepts it is not stated; when it does,
/// the record holds the password that was handed over.
#[verifier::external_body]
fn entry_set_password(entry: &mut KeyringEntry, password: &str) -> (r: Result<(), keyring_core::Error>)
    ensures
        final(entry).service@ == old(entry).service@,
        final(entry).user@ == old(entry).user@,
        r is Ok ==> final(entry).secret@ == SecretRecord::Stored(password@),
        r is Err ==> final(entry).secret@ == old(entry).secret@,
{
    entry.entry.set_password(password)
}

/// `keyring_core::Entry::get_password`: the entry's secret as the store
/// answers. What it answers is not stated; the record holds the answer.
#[verifier::external_body]
fn entry_get_password(entry: &mut KeyringEntry) -> (r: Result<String, keyring_core::Error>)
    ensures
        final(entry).service@ == old(entry).service@,
        final(entry).user@ == old(entry).user@,
        r matches Ok(s) ==> final(entry).secret@ == SecretRecord::Stored(s@),
        r is Err ==> final(entry).secret@ == old(entry).secret@,
{
    entry.entry.get_password()
}

/// `keyring_core::Entry::delete_credential`: asks the store to remove the
/// entry's secret. Whether it does is not stated; when it reports success,
/// the record says the secret was removed.
#[verifier::external_body]
fn entry_delete_credential(entry: &mut KeyringEntry) -> (r: Result<(), keyring_core::Error>)
    ensures
        final(entry).service@ == old(entry).service@,
        final(entry).user@ == old(entry).user@,
        r is Ok ==> final(entry).secret@ == SecretRecord::Removed,
        r is Err ==> final(entry).secret@ == old(entry).secret@,
{
    entry.entry.delete_credential()
}

/// What opening an entry comes to: the entry, or the keyring's error as
/// `OpenFailed`.
pub fn report_open(outcome: Result<KeyringEntry, keyring_core::Error>) -> (r: Result<
    KeyringEntry,
    TokenStoreError,
>)
    ensures
        (match outcome {
            Ok(entry) => r == Ok::<KeyringEntry, TokenStoreError>(entry),
            Err(e) => r == Err::<KeyringEntry, TokenStoreError>(TokenStoreError::OpenFailed(e)),
        }),
{
    match outcome {
        Ok(entry) => Ok(entry),
        Err(e) => Err(TokenStoreError::OpenFailed(e)),
    }
}

/// What storing the token comes to: done, or the keyring's error as
/// `SaveFailed`.
pub fn report_save(outcome: Result<(), keyring_core::Error>) -> (r: Result<(), TokenStoreError>)
    ensures
        (match outcome {
            Ok(()) => r == Ok::<(), TokenStoreError>(()),
            Err(e) => r == Err::<(), TokenStoreError>(TokenStoreError::SaveFailed(e)),
        }),
{
    match outcome {
        Ok(()) => Ok(()),
        Err(e) => Err(TokenStoreError::SaveFailed(e)),
    }
}

/// What reading the token comes to: the token, or the keyring's error as
/// `LoadFailed`.
pub fn report_load(outcome: Result<String, keyring_core::Error>) -> (r: Result<String, TokenStoreError>)
    ensures
        (match outcome {
            Ok(token) => r == Ok::<String, TokenStoreError>(token),
            Err(e) => r == Err::<String, TokenStoreError>(TokenStoreError::LoadFailed(e)),
        }),
{
    match outcome {
        Ok(token) => Ok(token),
        Err(e) => Err(TokenStoreError::LoadFailed(e)),
    }
}

/// What removing the token comes to: done, or the keyring's error as
/// `DeleteFailed`.
pub fn report_delete(outcome: Result<(), keyring_core::Error>) -> (r: Result<(), TokenStoreError>)
    ensures
        (match outcome {
            Ok(()) => r == Ok::<(), TokenStoreError>(()),
            Err(e) => r == Err::<(), TokenStoreError>(TokenStoreError::DeleteFailed(e)),
        }),
{
    match outcome {
        Ok(()) => Ok(()),
        Err(e) => Err(TokenStoreError::DeleteFailed(e)),
    }
}

/// Opens the keyring entry for a service and user, with nothing recorded of
/// its secret yet; a failure is reported as `OpenFailed`.
pub fn credential_entry(service: &str, username: &str) -> (r: Result<KeyringEntry, TokenStoreError>)
    ensures
        r matches Ok(k) ==> k.opened_for(service@, username@) && k.recorded_secret() == SecretRecord::Unknown,
        r matches Err(e) ==> e is OpenFailed,
{
    ensure_platform_store();
    let mut s = String::new();
    s.append(service);
    let mut u = String::new();
    u.append(username);
    report_open(open_entry(s, u))
}

/// Opens the entry of the access token: service `SERVICE_NAME`, user
/// `TOKEN_NAME`.
pub fn token_entry() -> (r: Result<KeyringEntry, TokenStoreError>)
    ensures
        r matches Ok(k) ==> k.opened_for(SERVICE_NAME@, TOKEN_NAME@) && k.recorded_secret() == SecretRecord::Unknown,
        r matches Err(e) ==> e is OpenFailed,
{
    credential_entry(SERVICE_NAME, TOKEN_NAME)
}

/// The access token as the keyring answered it, with the entry it was read
/// from.
pub struct StoredToken {
    /// The token.
    pub token: String,
    /// The entry it was read from.
    pub entry: KeyringEntry,
}

/// Stores the access token in the token's entry and gives that entry back;
/// a failure to open the entry is `OpenFailed`, a failure to store is
/// `SaveFailed`.
pub fn save_token(token: &str) -> (r: Result<KeyringEntry, TokenStoreError>)
    ensures
        r matches Ok(k) ==> k.opened_for(SERVICE_NAME@, TOKEN_NAME@) && k.recorded_secret() == SecretRecord::Stored(token@),
        r matches Err(e) ==> (e is OpenFailed || e is SaveFailed),
{
    let mut entry = token_entry()?;
    entry.set_password(token)?;
    Ok(entry)
}

/// Reads the access token from the token's entry; a failure to open the
/// entry is `OpenFailed`, a failure to read is `LoadFailed`.
pub fn load_token() -> (r: Result<StoredToken, TokenStoreError>)
    ensures
        r matches Ok(t) ==> t.entry.opened_for(SERVICE_NAME@, TOKEN_NAME@)
            && t.entry.recorded_secret() == SecretRecord::Stored(t.token@),
        r matches Err(e) ==> (e is OpenFailed || e is LoadFailed),
{
    let mut entry = token_entry()?;
    let token = entry.get_password()?;
    Ok(StoredToken { token, entry })
}

/// Removes the access token from the token's entry and gives that entry
/// back; a failure to open the entry is `OpenFailed`, a failure to remove is
/// `DeleteFailed`.
pub fn delete_token() -> (r: Result<KeyringEntry, TokenStoreError>)
    ensures
        r matches Ok(k) ==> k.opened_for(SERVICE_NAME@, TOKEN_NAME@) && k.recorded_secret() == SecretRecord::Removed,
        r matches Err(e) ==> (e is OpenFailed || e is DeleteFailed),
{
    let mut entry = token_entry()?;
    entry.delete_credential()?;
    Ok(entry)
}

pub open spec fn token_store_error_text(e: TokenStoreError) -> Seq<char> {
    match e {
        TokenStoreError::OpenFailed(_) => "Failed to open the system keyring"@,
        TokenStoreError::SaveFailed(_) => "Failed to save the 2FAuth token in the system keyring"@,
        TokenStoreError::LoadFailed(_) => "Failed to load the 2FAuth token from the system keyring"@,
        TokenStoreError::DeleteFailed(_) => "Failed to delete the 2FAuth token from the system keyring"@,
    }
}

impl TokenStoreError {
    /// What failed, in words; see `token_store_error_text`.
    pub fn describe(&self) -> (r: String)
        ensures
            r@ == token_store_error_text(*self),
    {
        let mut r = String::new();
        let text = match self {
            TokenStoreError::OpenFailed(_) => "Failed to open the system keyring",
            TokenStoreError::SaveFailed(_) => "Failed to save the 2FAuth token in the system keyring",
            TokenStoreError::LoadFailed(_) => "Failed to load the 2FAuth token from the system keyring",
            TokenStoreError::DeleteFailed(_) => "Failed to delete the 2FAuth token from the system keyring",
        };
        r.append(text);
        r
    }
}

} // verus!
