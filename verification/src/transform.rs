//! Requests to the AI backend and its answers.
use crate::error::VerbalixError;
use crate::settings::{LengthPreference, TonePreference};
use crate::text::{is_blank, trim};
use vstd::prelude::*;

verus! {

#[derive(Clone, Copy, Debug, PartialEq, Eq, Structural)]
pub enum TransformOperation {
    Translate,
    Improve,
}

/// How an improvement should be written.
#[derive(Clone, Copy, Debug, PartialEq, Eq, Structural)]
pub struct TransformPreferences {
    pub formality: u8,
    pub length: LengthPreference,
    pub tone: TonePreference,
}

/// One transformation of a selected text.
#[derive(Debug)]
pub struct TransformRequest {
    pub request_id: u128,
    pub operation: TransformOperation,
    pub text: String,
    pub preferences: Option<TransformPreferences>,
}

impl Clone for TransformRequest {
    fn clone(&self) -> (r: Self)
        ensures
            r == *self,
    {
        TransformRequest {
            request_id: self.request_id,
            operation: self.operation,
            text: self.text.clone(),
            preferences: self.preferences,
        }
    }
}

/// The backend's answer to a request: the transformed text and the
/// languages it detected and wrote.
#[derive(Debug)]
pub struct TransformResult {
    pub request_id: u128,
    pub source_language: String,
    pub target_language: Option<String>,
    pub result: String,
}

impl Clone for TransformResult {
    fn clone(&self) -> (r: Self)
        ensures
            r == *self,
    {
        TransformResult {
            request_id: self.request_id,
            source_language: self.source_language.clone(),
            target_language: match &self.target_language {
                Some(t) => Some(t.clone()),
                None => None,
            },
            result: self.result.clone(),
        }
    }
}

/// The error of a request that never got an answer: a timeout, or a
/// refusal of any other kind.
pub fn send_failure(timed_out: bool) -> (e: VerbalixError)
    ensures
        e == if timed_out {
            VerbalixError::ProviderTimeout
        } else {
            VerbalixError::ProviderRejected
        },
{
    if timed_out {
        VerbalixError::ProviderTimeout
    } else {
        VerbalixError::ProviderRejected
    }
}

/// What a transformation yields for the backend's answer. A blank access
/// token is refused before anything is sent; an answer is accepted only
/// with a success status, a body that parsed, the request's own id and a
/// result that is not blank.
pub open spec fn transform_outcome_spec(
    request_id: u128,
    token_blank: bool,
    status: u16,
    parsed: Option<TransformResult>,
) -> Result<TransformResult, VerbalixError> {
    if token_blank {
        Err(VerbalixError::Unauthenticated)
    } else if status == 401 {
        Err(VerbalixError::Unauthenticated)
    } else if !(200 <= status < 300) {
        Err(VerbalixError::ProviderRejected)
    } else {
        match parsed {
            None => Err(VerbalixError::InvalidResponse),
            Some(r) => if r.request_id != request_id || trim(r.result@).len() == 0 {
                Err(VerbalixError::InvalidResponse)
            } else {
                Ok(r)
            },
        }
    }
}

/// Whether a request may be sent with this access token.
pub fn token_usable(access_token: &str) -> (b: bool)
    ensures
        b == (trim(access_token@).len() != 0),
{
    !is_blank(access_token)
}

/// Checks the backend's answer to a transformation: its HTTP status and,
/// for a success, the body as parsed (`None` when it did not parse).
pub fn check_transform_response(request_id: u128, status: u16, parsed: Option<TransformResult>) -> (r:
    Result<TransformResult, VerbalixError>)
    ensures
        r == transform_outcome_spec(request_id, false, status, parsed),
{
    if status == 401 {
        return Err(VerbalixError::Unauthenticated);
    }
    if !(200 <= status && status < 300) {
        return Err(VerbalixError::ProviderRejected);
    }
    match parsed {
        None => Err(VerbalixError::InvalidResponse),
        Some(r) => {
            if r.request_id != request_id || is_blank(r.result.as_str()) {
                Err(VerbalixError::InvalidResponse)
            } else {
                Ok(r)
            }
        },
    }
}

} // verus!
