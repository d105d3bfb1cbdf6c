use vstd::prelude::*;

verus! {

/// The ways a proxied request can fail.
#[derive(Clone, Debug, PartialEq, Eq)]
pub enum AtomaProxyError {
    /// The client's request body is malformed or names something unsupported.
    InvalidBody { message: String, endpoint: String },
    /// The node could not be reached, answered with something unreadable,
    /// or the outcome could not be reported.
    InternalError { message: String, endpoint: String },
    /// A confidential response could not be authenticated or decoded.
    DecryptionError { message: String, endpoint: String },
}

/// The kind of an [`AtomaProxyError`], without its text.
#[derive(Clone, Copy, Debug, PartialEq, Eq, Structural)]
pub enum ErrorKind {
    InvalidBody,
    InternalError,
    DecryptionError,
}

impl AtomaProxyError {
    pub open spec fn kind_view(&self) -> ErrorKind {
        match self {
            AtomaProxyError::InvalidBody { .. } => ErrorKind::InvalidBody,
            AtomaProxyError::InternalError { .. } => ErrorKind::InternalError,
            AtomaProxyError::DecryptionError { .. } => ErrorKind::DecryptionError,
        }
    }

    /// The error's kind.
    pub fn kind(&self) -> (r: ErrorKind)
        ensures
            r == self.kind_view(),
    {
        match self {
            AtomaProxyError::InvalidBody { .. } => ErrorKind::InvalidBody,
            AtomaProxyError::InternalError { .. } => ErrorKind::InternalError,
            AtomaProxyError::DecryptionError { .. } => ErrorKind::DecryptionError,
        }
    }

    pub open spec fn message_view(&self) -> Seq<char> {
        match self {
            AtomaProxyError::InvalidBody { message, .. } => message@,
            AtomaProxyError::InternalError { message, .. } => message@,
            AtomaProxyError::DecryptionError { message, .. } => message@,
        }
    }

    pub open spec fn endpoint_view(&self) -> Seq<char> {
        match self {
            AtomaProxyError::InvalidBody { endpoint, .. } => endpoint@,
            AtomaProxyError::InternalError { endpoint, .. } => endpoint@,
            AtomaProxyError::DecryptionError { endpoint, .. } => endpoint@,
        }
    }

    /// The HTTP status that answers the client: a client error for an invalid
    /// body, a server error otherwise.
    pub fn status_code(&self) -> (r: u16)
        ensures
            self is InvalidBody ==> r == 400,
            !(self is InvalidBody) ==> r == 500,
    {
        match self {
            AtomaProxyError::InvalidBody { .. } => 400,
            _ => 500,
        }
    }

    /// The error's message.
    pub fn message(&self) -> (r: String)
        ensures
            r@ == self.message_view(),
    {
        match self {
            AtomaProxyError::InvalidBody { message, .. } => message.clone(),
            AtomaProxyError::InternalError { message, .. } => message.clone(),
            AtomaProxyError::DecryptionError { message, .. } => message.clone(),
        }
    }

    /// The endpoint whose request failed.
    pub fn endpoint(&self) -> (r: String)
        ensures
            r@ == self.endpoint_view(),
    {
        match self {
            AtomaProxyError::InvalidBody { endpoint, .. } => endpoint.clone(),
            AtomaProxyError::InternalError { endpoint, .. } => endpoint.clone(),
            AtomaProxyError::DecryptionError { endpoint, .. } => endpoint.clone(),
        }
    }
}

} // verus!
