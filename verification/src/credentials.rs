//! Credentials as the user hands them in, as they are persisted, and the
//! credential store as a logical table of at most one row.

use vstd::prelude::*;
use vstd::string::*;
use crate::error::{EngineError, EngineErrorView};
use crate::text::join2;

verus! {

/// What the user hands in to sign in.
#[derive(Debug, PartialEq, Eq)]
pub struct SteamCredentials {
    pub username: String,
    pub password: String,
    /// The one-time code, where the user has one at hand. It is never
    /// persisted.
    pub two_factor_code: Option<String>,
}

/// The mathematical value of [`SteamCredentials`].
pub struct SteamCredentialsView {
    pub username: Seq<char>,
    pub password: Seq<char>,
    pub two_factor_code: Option<Seq<char>>,
}

impl View for SteamCredentials {
    type V = SteamCredentialsView;

    open spec fn view(&self) -> SteamCredentialsView {
        SteamCredentialsView {
            username: self.username@,
            password: self.password@,
            two_factor_code: match self.two_factor_code {
                Some(code) => Some(code@),
                None => None,
            },
        }
    }
}

/// A row of the credential store: user name and password, and nothing else.
#[derive(Debug, PartialEq, Eq)]
pub struct StoredCredential {
    pub username: String,
    pub password: String,
}

/// The mathematical value of a [`StoredCredential`].
pub struct StoredCredentialView {
    pub username: Seq<char>,
    pub password: Seq<char>,
}

impl View for StoredCredential {
    type V = StoredCredentialView;

    open spec fn view(&self) -> StoredCredentialView {
        StoredCredentialView { username: self.username@, password: self.password@ }
    }
}

impl SteamCredentialsView {
    /// User name and password are both given.
    pub open spec fn well_formed(self) -> bool {
        self.username.len() > 0 && self.password.len() > 0
    }

    /// The part that is persisted: everything but the one-time code.
    pub open spec fn persisted(self) -> StoredCredentialView {
        StoredCredentialView { username: self.username, password: self.password }
    }
}

impl StoredCredentialView {
    /// The credentials that a stored row stands for; they hold no code.
    pub open spec fn restored(self) -> SteamCredentialsView {
        SteamCredentialsView {
            username: self.username,
            password: self.password,
            two_factor_code: None,
        }
    }
}

impl SteamCredentials {
    /// Whether user name and password are both given.
    pub fn is_well_formed(&self) -> (b: bool)
        ensures
            b == self@.well_formed(),
    {
        !self.username.as_str().is_empty() && !self.password.as_str().is_empty()
    }

    /// The row to persist for these credentials.
    pub fn to_stored(&self) -> (row: StoredCredential)
        ensures
            row@ == self@.persisted(),
    {
        StoredCredential { username: self.username.clone(), password: self.password.clone() }
    }

    /// The credentials that a stored row stands for.
    pub fn from_stored(row: StoredCredential) -> (credentials: SteamCredentials)
        ensures
            credentials@ == row@.restored(),
    {
        SteamCredentials { username: row.username, password: row.password, two_factor_code: None }
    }
}

/// The credential store as a logical table. Saving replaces whatever the
/// table held, so it never holds more than one row.
#[derive(Debug, PartialEq, Eq)]
pub struct CredentialStore {
    row: Option<StoredCredential>,
}

/// A user name with its password.
pub type Row = (Seq<char>, Seq<char>);

impl CredentialStore {
    /// The rows of the table, oldest first.
    pub closed spec fn rows(&self) -> Seq<Row> {
        match self.row {
            Some(r) => seq![(r.username@, r.password@)],
            None => Seq::empty(),
        }
    }

    /// The table never holds more than one row.
    pub proof fn lemma_at_most_one_row(&self)
        ensures
            self.rows().len() <= 1,
    {
    }

    /// The number of rows in the table.
    pub fn row_count(&self) -> (n: usize)
        ensures
            n == self.rows().len(),
            n <= 1,
    {
        match &self.row {
            Some(_) => 1,
            None => 0,
        }
    }
}

/// The rows of a table after `username` and `password` were saved to it.
pub open spec fn rows_after_save(rows: Seq<Row>, username: Seq<char>, password: Seq<char>) -> Seq<
    Row,
> {
    seq![(username, password)]
}

/// The rows of a table after it was cleared.
pub open spec fn rows_after_clear(rows: Seq<Row>) -> Seq<Row> {
    Seq::empty()
}

/// What loading from a table gives: its most recent row, if it has one.
pub open spec fn loaded(rows: Seq<Row>) -> Option<Row> {
    if rows.len() > 0 {
        Some(rows.last())
    } else {
        None
    }
}

/// The views of the rows read from the backing file.
pub open spec fn rows_view(rows: Seq<(String, String)>) -> Seq<Row> {
    rows.map_values(|r: (String, String)| (r.0@, r.1@))
}

/// The view of an optional pair of texts.
pub open spec fn row_view(row: Option<(String, String)>) -> Option<Row> {
    match row {
        Some(r) => Some((r.0@, r.1@)),
        None => None,
    }
}

/// Opens the logical table over the rows found in the backing file, oldest
/// first. A file with no row gives the empty table. Of several rows only
/// the most recent is kept.
pub fn init_db(rows: Vec<(String, String)>) -> (store: CredentialStore)
    ensures
        store.rows() == match loaded(rows_view(rows@)) {
            Some(row) => seq![row],
            None => Seq::<Row>::empty(),
        },
{
    let mut rows = rows;
    match rows.pop() {
        Some(last) => {
            CredentialStore { row: Some(StoredCredential { username: last.0, password: last.1 }) }
        },
        None => CredentialStore { row: None },
    }
}

/// Saves a user name with its password. The table then holds this row and
/// no other.
pub fn save_credentials(store: &mut CredentialStore, username: &str, password: &str)
    ensures
        final(store).rows() == rows_after_save(old(store).rows(), username@, password@),
{
    store.row = Some(
        StoredCredential {
            username: String::from_str(username),
            password: String::from_str(password),
        },
    );
}

/// Loads the stored user name and password, if the table holds a row.
pub fn get_credentials(store: &CredentialStore) -> (row: Option<(String, String)>)
    ensures
        row_view(row) == loaded(store.rows()),
{
    match &store.row {
        Some(r) => Some((r.username.clone(), r.password.clone())),
        None => None,
    }
}

/// Removes every row.
pub fn clear_credentials(store: &mut CredentialStore)
    ensures
        final(store).rows() == rows_after_clear(old(store).rows()),
{
    store.row = None;
}

/// The view of what `get-stored-credentials` hands to the user interface.
pub open spec fn stored_credentials_view(r: Result<Option<SteamCredentials>, EngineError>) -> Result<
    Option<SteamCredentialsView>,
    EngineErrorView,
> {
    match r {
        Ok(Some(c)) => Ok(Some(c@)),
        Ok(None) => Ok(None),
        Err(e) => Err(e@),
    }
}

/// The result of `get-stored-credentials` for what reading the store gave:
/// the stored row as credentials without a code, or the failure with its
/// cause.
pub open spec fn stored_credentials_spec(read: Result<Option<Row>, Seq<char>>) -> Result<
    Option<SteamCredentialsView>,
    EngineErrorView,
> {
    match read {
        Ok(Some(row)) => Ok(
            Some(
                SteamCredentialsView { username: row.0, password: row.1, two_factor_code: None },
            ),
        ),
        Ok(None) => Ok(None),
        Err(cause) => Err(EngineErrorView::StoreIoFailed("Failed to get credentials: "@ + cause)),
    }
}

/// The view of what reading the store gave.
pub open spec fn read_view(read: Result<Option<(String, String)>, String>) -> Result<
    Option<Row>,
    Seq<char>,
> {
    match read {
        Ok(row) => Ok(row_view(row)),
        Err(cause) => Err(cause@),
    }
}

/// Turns what reading the store gave into the result of
/// `get-stored-credentials`.
pub fn get_stored_credentials(read: Result<Option<(String, String)>, String>) -> (r: Result<
    Option<SteamCredentials>,
    EngineError,
>)
    ensures
        stored_credentials_view(r) == stored_credentials_spec(read_view(read)),
{
    match read {
        Ok(Some(row)) => Ok(
            Some(SteamCredentials { username: row.0, password: row.1, two_factor_code: None }),
        ),
        Ok(None) => Ok(None),
        Err(cause) => Err(
            EngineError::StoreIoFailed(join2("Failed to get credentials: ", cause.as_str())),
        ),
    }
}

/// Turns what clearing the store gave into the result of
/// `clear-stored-credentials`.
pub fn clear_stored_credentials(cleared: Result<(), String>) -> (r: Result<(), EngineError>)
    ensures
        match cleared {
            Ok(_) => r is Ok,
            Err(cause) => r matches Err(e) && e@ == EngineErrorView::StoreIoFailed(
                "Failed to clear credentials: "@ + cause@,
            ),
        },
{
    match cleared {
        Ok(_) => Ok(()),
        Err(cause) => Err(
            EngineError::StoreIoFailed(join2("Failed to clear credentials: ", cause.as_str())),
        ),
    }
}

/// Loading after a save gives what was saved, whatever the table held
/// before; loading after a clear gives nothing.
pub proof fn lemma_save_load_clear(rows: Seq<Row>, username: Seq<char>, password: Seq<char>)
    ensures
        loaded(rows_after_save(rows, username, password)) == Some((username, password)),
        loaded(rows_after_clear(rows)) == None::<Row>,
        loaded(rows_after_clear(rows_after_save(rows, username, password))) == None::<Row>,
{
}

/// Neither saving nor clearing leaves more than one row behind.
pub proof fn lemma_single_row(rows: Seq<Row>, username: Seq<char>, password: Seq<char>)
    ensures
        rows_after_save(rows, username, password).len() == 1,
        rows_after_clear(rows).len() == 0,
{
}

/// The one-time code has no part in what is persisted: credentials that
/// differ in their code alone give the same row, and a row read back holds
/// no code.
pub proof fn lemma_code_never_persisted(a: SteamCredentialsView, b: SteamCredentialsView)
    requires
        a.username == b.username,
        a.password == b.password,
    ensures
        a.persisted() == b.persisted(),
        a.persisted().restored().two_factor_code is None,
        a.persisted().restored().username == a.username,
        a.persisted().restored().password == a.password,
{
}

impl Clone for StoredCredential {
    fn clone(&self) -> (copy: Self)
        ensures
            copy == *self,
    {
        StoredCredential { username: self.username.clone(), password: self.password.clone() }
    }
}

impl Clone for SteamCredentials {
    fn clone(&self) -> (copy: Self)
        ensures
            copy == *self,
    {
        SteamCredentials {
            username: self.username.clone(),
            password: self.password.clone(),
            two_factor_code: match &self.two_factor_code {
                Some(code) => Some(code.clone()),
                None => None,
            },
        }
    }
}

} // verus!
