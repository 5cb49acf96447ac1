//! Error types of the Streamline operator.

use vstd::prelude::*;
use vstd::string::*;

verus! {

/// Result type alias for operator operations
pub type Result<T> = std::result::Result<T, OperatorError>;

/// Errors that can occur during operator operations
#[derive(Debug, PartialEq, Eq)]
pub enum OperatorError {
    /// Kubernetes API error
    KubeApi(String),
    /// Configuration error
    Configuration(String),
    /// Reconciliation error
    Reconciliation(String),
    /// HTTP client error
    Http(String),
    /// Serialization error
    Serialization(String),
    /// Resource not found
    NotFound(String),
    /// Invalid resource state
    InvalidState(String),
    /// Internal error
    Internal(String),
}

/// What an [`OperatorError`] says.
#[verifier::ext_equal]
pub enum OperatorErrorView {
    KubeApi(Seq<char>),
    Configuration(Seq<char>),
    Reconciliation(Seq<char>),
    Http(Seq<char>),
    Serialization(Seq<char>),
    NotFound(Seq<char>),
    InvalidState(Seq<char>),
    Internal(Seq<char>),
}

impl DeepView for OperatorError {
    type V = OperatorErrorView;

    open spec fn deep_view(&self) -> OperatorErrorView {
        match self {
            OperatorError::KubeApi(msg) => OperatorErrorView::KubeApi(msg@),
            OperatorError::Configuration(msg) => OperatorErrorView::Configuration(msg@),
            OperatorError::Reconciliation(msg) => OperatorErrorView::Reconciliation(msg@),
            OperatorError::Http(msg) => OperatorErrorView::Http(msg@),
            OperatorError::Serialization(msg) => OperatorErrorView::Serialization(msg@),
            OperatorError::NotFound(msg) => OperatorErrorView::NotFound(msg@),
            OperatorError::InvalidState(msg) => OperatorErrorView::InvalidState(msg@),
            OperatorError::Internal(msg) => OperatorErrorView::Internal(msg@),
        }
    }
}

/// The text of an error: its category, then its message.
pub open spec fn error_text(error: OperatorErrorView) -> Seq<char> {
    match error {
        OperatorErrorView::KubeApi(msg) => "Kubernetes API error: "@ + msg,
        OperatorErrorView::Configuration(msg) => "Configuration error: "@ + msg,
        OperatorErrorView::Reconciliation(msg) => "Reconciliation error: "@ + msg,
        OperatorErrorView::Http(msg) => "HTTP error: "@ + msg,
        OperatorErrorView::Serialization(msg) => "Serialization error: "@ + msg,
        OperatorErrorView::NotFound(msg) => "Resource not found: "@ + msg,
        OperatorErrorView::InvalidState(msg) => "Invalid state: "@ + msg,
        OperatorErrorView::Internal(msg) => "Internal error: "@ + msg,
    }
}

impl OperatorError {
    /// The text of the error: its category, then its message.
    pub fn to_string(&self) -> (text: String)
        ensures
            text@ == error_text(self.deep_view()),
    {
        match self {
            OperatorError::KubeApi(msg) => "Kubernetes API error: ".to_owned().concat(msg.as_str()),
            OperatorError::Configuration(msg) => "Configuration error: ".to_owned().concat(
                msg.as_str(),
            ),
            OperatorError::Reconciliation(msg) => "Reconciliation error: ".to_owned().concat(
                msg.as_str(),
            ),
            OperatorError::Http(msg) => "HTTP error: ".to_owned().concat(msg.as_str()),
            OperatorError::Serialization(msg) => "Serialization error: ".to_owned().concat(
                msg.as_str(),
            ),
            OperatorError::NotFound(msg) => "Resource not found: ".to_owned().concat(msg.as_str()),
            OperatorError::InvalidState(msg) => "Invalid state: ".to_owned().concat(msg.as_str()),
            OperatorError::Internal(msg) => "Internal error: ".to_owned().concat(msg.as_str()),
        }
    }
}

} // verus!
