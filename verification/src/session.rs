//! The signed-in session and where it is kept.
use crate::error::VerbalixError;
use vstd::prelude::*;

verus! {

/// The tokens of a signed-in session.
#[derive(Debug)]
pub struct StoredSession {
    pub access_token: String,
    pub refresh_token: String,
}

/// Where the session is kept between runs.
pub trait SessionRepository {
    fn load(&self) -> Result<Option<StoredSession>, VerbalixError>;

    fn save(&self, session: &StoredSession) -> Result<(), VerbalixError>;

    fn clear(&self) -> Result<(), VerbalixError>;
}

/// What the system keychain answered to a request.
#[derive(Debug)]
pub enum KeychainAnswer<T> {
    /// The request was carried out.
    Done(T),
    /// No credential is stored under the name.
    NoEntry,
    /// Any other failure of the keychain.
    Failed,
}

/// A read from the keychain: a missing credential is no session, and any
/// other failure is a local failure.
pub fn keychain_read(answer: KeychainAnswer<String>) -> (r: Result<Option<String>, VerbalixError>)
    ensures
        match answer {
            KeychainAnswer::Done(v) => r matches Ok(Some(x)) && x@ == v@,
            KeychainAnswer::NoEntry => r matches Ok(None),
            KeychainAnswer::Failed => r == Err::<Option<String>, VerbalixError>(
                VerbalixError::LocalFailure,
            ),
        },
{
    match answer {
        KeychainAnswer::Done(v) => Ok(Some(v)),
        KeychainAnswer::NoEntry => Ok(None),
        KeychainAnswer::Failed => Err(VerbalixError::LocalFailure),
    }
}

/// A write to the keychain: anything but success is a local failure.
pub fn keychain_write(answer: KeychainAnswer<()>) -> (r: Result<(), VerbalixError>)
    ensures
        r == match answer {
            KeychainAnswer::Done(_) => Ok::<(), VerbalixError>(()),
            _ => Err(VerbalixError::LocalFailure),
        },
{
    match answer {
        KeychainAnswer::Done(_) => Ok(()),
        _ => Err(VerbalixError::LocalFailure),
    }
}

/// A deletion from the keychain: deleting what is not there succeeds.
pub fn keychain_delete(answer: KeychainAnswer<()>) -> (r: Result<(), VerbalixError>)
    ensures
        r == match answer {
            KeychainAnswer::Failed => Err::<(), VerbalixError>(VerbalixError::LocalFailure),
            _ => Ok(()),
        },
{
    match answer {
        KeychainAnswer::Failed => Err(VerbalixError::LocalFailure),
        _ => Ok(()),
    }
}

/// The session a command runs with: a missing session asks for a login.
pub fn require_session(loaded: Result<Option<StoredSession>, VerbalixError>) -> (r: Result<
    StoredSession,
    VerbalixError,
>)
    ensures
        match loaded {
            Ok(Some(s)) => r == Ok::<StoredSession, VerbalixError>(s),
            Ok(None) => r == Err::<StoredSession, VerbalixError>(VerbalixError::Unauthenticated),
            Err(e) => r == Err::<StoredSession, VerbalixError>(e),
        },
{
    match loaded {
        Ok(Some(s)) => Ok(s),
        Ok(None) => Err(VerbalixError::Unauthenticated),
        Err(e) => Err(e),
    }
}

/// What the account service answered to a request.
#[derive(Debug)]
pub enum AccountAnswer<T> {
    /// The request could not be sent.
    Unreachable,
    /// A failure status.
    Rejected { status: u16 },
    /// A success whose body did not parse.
    Unreadable,
    /// A success with its parsed body.
    Delivered(T),
}

/// The result of a token or user request: an unreachable service refuses,
/// any failure status means the session is no longer valid, an unreadable
/// body is an invalid response.
pub fn session_answer<T>(answer: AccountAnswer<T>) -> (r: Result<T, VerbalixError>)
    ensures
        match answer {
            AccountAnswer::Unreachable => r == Err::<T, VerbalixError>(VerbalixError::ProviderRejected),
            AccountAnswer::Rejected { .. } => r == Err::<T, VerbalixError>(VerbalixError::Unauthenticated),
            AccountAnswer::Unreadable => r == Err::<T, VerbalixError>(VerbalixError::InvalidResponse),
            AccountAnswer::Delivered(v) => r == Ok::<T, VerbalixError>(v),
        },
{
    match answer {
        AccountAnswer::Unreachable => Err(VerbalixError::ProviderRejected),
        AccountAnswer::Rejected { .. } => Err(VerbalixError::Unauthenticated),
        AccountAnswer::Unreadable => Err(VerbalixError::InvalidResponse),
        AccountAnswer::Delivered(v) => Ok(v),
    }
}

/// The result of a data request: an unreachable service and any failure
/// but 401 refuse, 401 means the session is no longer valid, an unreadable
/// body is an invalid response.
pub fn data_answer<T>(answer: AccountAnswer<T>) -> (r: Result<T, VerbalixError>)
    ensures
        match answer {
            AccountAnswer::Unreachable => r == Err::<T, VerbalixError>(VerbalixError::ProviderRejected),
            AccountAnswer::Rejected { status } => r == Err::<T, VerbalixError>(
                if status == 401 {
                    VerbalixError::Unauthenticated
                } else {
                    VerbalixError::ProviderRejected
                },
            ),
            AccountAnswer::Unreadable => r == Err::<T, VerbalixError>(VerbalixError::InvalidResponse),
            AccountAnswer::Delivered(v) => r == Ok::<T, VerbalixError>(v),
        },
{
    match answer {
        AccountAnswer::Unreachable => Err(VerbalixError::ProviderRejected),
        AccountAnswer::Rejected { status } => if status == 401 {
            Err(VerbalixError::Unauthenticated)
        } else {
            Err(VerbalixError::ProviderRejected)
        },
        AccountAnswer::Unreadable => Err(VerbalixError::InvalidResponse),
        AccountAnswer::Delivered(v) => Ok(v),
    }
}

/// The result of a write whose body is not read: anything but a sent
/// request with a success status refuses.
pub fn write_answer(sent: bool, status: u16) -> (r: Result<(), VerbalixError>)
    ensures
        r == if sent && 200 <= status < 300 {
            Ok::<(), VerbalixError>(())
        } else {
            Err(VerbalixError::ProviderRejected)
        },
{
    if sent && 200 <= status && status < 300 {
        Ok(())
    } else {
        Err(VerbalixError::ProviderRejected)
    }
}

} // verus!
