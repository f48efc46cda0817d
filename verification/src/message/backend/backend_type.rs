use vstd::prelude::*;

verus! {

pub enum BackendType {
    Web,
    Api,
    Monitoring,
    Cli,
    Custom(String),
}

/// Two backend types are the same when their variants agree and, for
/// `Custom`, their names hold the same text.
pub open spec fn same_backend_type(a: BackendType, b: BackendType) -> bool {
    match (a, b) {
        (BackendType::Web, BackendType::Web) => true,
        (BackendType::Api, BackendType::Api) => true,
        (BackendType::Monitoring, BackendType::Monitoring) => true,
        (BackendType::Cli, BackendType::Cli) => true,
        (BackendType::Custom(x), BackendType::Custom(y)) => x@ == y@,
        _ => false,
    }
}

impl BackendType {
    /// `==` on backend types.
    pub fn same_as(&self, other: &BackendType) -> (r: bool)
        ensures
            r == same_backend_type(*self, *other),
    {
        match self {
            BackendType::Web => match other {
                BackendType::Web => true,
                _ => false,
            },
            BackendType::Api => match other {
                BackendType::Api => true,
                _ => false,
            },
            BackendType::Monitoring => match other {
                BackendType::Monitoring => true,
                _ => false,
            },
            BackendType::Cli => match other {
                BackendType::Cli => true,
                _ => false,
            },
            BackendType::Custom(x) => match other {
                BackendType::Custom(y) => crate::text::same_text(x.as_str(), y.as_str()),
                _ => false,
            },
        }
    }

    /// A copy of this backend type.
    pub fn duplicate(&self) -> (r: BackendType)
        ensures
            r == *self,
    {
        match self {
            BackendType::Web => BackendType::Web,
            BackendType::Api => BackendType::Api,
            BackendType::Monitoring => BackendType::Monitoring,
            BackendType::Cli => BackendType::Cli,
            BackendType::Custom(x) => BackendType::Custom(x.clone()),
        }
    }
}

} // verus!
