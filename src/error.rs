use vstd::prelude::*;

verus! {

/// The classified failures of an authentication attempt.
#[derive(Debug)]
pub enum BrokerError {
    /// Malformed or forbidden client data: reported, never retried.
    Input(String),
    /// A provider or the discovery step failed or timed out.
    Provider(String),
    /// Discovery succeeded but gave nothing usable.
    ProviderCancelled,
    /// Too many attempts for one address.
    RateLimited,
    /// An environment fault that is not recovered from.
    Internal(String),
}

/// The plain-value form of a `BrokerError`, over which contracts are stated.
pub ghost enum ErrorModel {
    Input(Seq<char>),
    Provider(Seq<char>),
    ProviderCancelled,
    RateLimited,
    Internal(Seq<char>),
}

impl View for BrokerError {
    type V = ErrorModel;

    open spec fn view(&self) -> ErrorModel {
        match self {
            BrokerError::Input(m) => ErrorModel::Input(m@),
            BrokerError::Provider(m) => ErrorModel::Provider(m@),
            BrokerError::ProviderCancelled => ErrorModel::ProviderCancelled,
            BrokerError::RateLimited => ErrorModel::RateLimited,
            BrokerError::Internal(m) => ErrorModel::Internal(m@),
        }
    }
}

impl BrokerError {
    /// A copy of the error.
    pub fn duplicate(&self) -> (r: BrokerError)
        ensures
            r@ == self@,
    {
        match self {
            BrokerError::Input(m) => BrokerError::Input(m.clone()),
            BrokerError::Provider(m) => BrokerError::Provider(m.clone()),
            BrokerError::ProviderCancelled => BrokerError::ProviderCancelled,
            BrokerError::RateLimited => BrokerError::RateLimited,
            BrokerError::Internal(m) => BrokerError::Internal(m.clone()),
        }
    }

    /// The message carried by the error, or an empty string where it has none.
    pub fn message(&self) -> (r: String)
        ensures
            r@ == match self@ {
                ErrorModel::Input(m) => m,
                ErrorModel::Provider(m) => m,
                ErrorModel::Internal(m) => m,
                _ => Seq::<char>::empty(),
            },
    {
        match self {
            BrokerError::Input(m) => m.clone(),
            BrokerError::Provider(m) => m.clone(),
            BrokerError::Internal(m) => m.clone(),
            _ => String::new(),
        }
    }
}

} // verus!
