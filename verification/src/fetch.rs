//! The authenticated fetch: what is asked of the remote, with which key, and
//! how a failure is classified.

use crate::classify::SkipReason;
use crate::commit::CommitId;
use vstd::prelude::*;
use vstd::string::*;

verus! {

/// What an error code of the git layer says, as far as a fetch cares.
#[derive(Clone, Copy, Debug, PartialEq, Eq, Structural)]
pub enum ErrorCode {
    /// Authentication failed.
    Auth,
    /// The object asked for was not found.
    NotFound,
    /// Any other code.
    Other,
}

/// The part of the git layer that an error comes from, as far as a fetch
/// cares.
#[derive(Clone, Copy, Debug, PartialEq, Eq, Structural)]
pub enum ErrorClass {
    /// The operating system.
    Os,
    /// Reference handling.
    Reference,
    /// The network layer.
    Net,
    /// The SSH transport.
    Ssh,
    /// The HTTP transport.
    Http,
    /// Any other part.
    Other,
}

/// Why a fetch failed.
#[derive(Clone, Copy, Debug, PartialEq, Eq, Structural)]
pub enum FetchError {
    /// The key is missing or was rejected.
    Auth,
    /// The transport failed.
    Network,
    /// The upstream reference does not exist.
    RefNotFound,
    /// Anything else.
    Other,
}

/// What a fetch brought: the commit that the upstream reference now points
/// to, or the reason for the failure.
#[derive(Clone, Copy, Debug, PartialEq, Eq)]
pub enum FetchOutcome {
    Fetched(CommitId),
    Failed(FetchError),
}

/// The class of a fetch failure. Authentication wins over a missing
/// reference, and a missing reference over a transport failure.
pub open spec fn fetch_error_of(code: ErrorCode, class: ErrorClass) -> FetchError {
    if code == ErrorCode::Auth || class == ErrorClass::Ssh {
        FetchError::Auth
    } else if code == ErrorCode::NotFound || class == ErrorClass::Reference {
        FetchError::RefNotFound
    } else if class == ErrorClass::Net || class == ErrorClass::Http || class == ErrorClass::Os {
        FetchError::Network
    } else {
        FetchError::Other
    }
}

/// Classifies a fetch failure by its error code and error class.
pub fn classify_fetch_error(code: ErrorCode, class: ErrorClass) -> (error: FetchError)
    ensures
        error == fetch_error_of(code, class),
{
    if code == ErrorCode::Auth || class == ErrorClass::Ssh {
        FetchError::Auth
    } else if code == ErrorCode::NotFound || class == ErrorClass::Reference {
        FetchError::RefNotFound
    } else if class == ErrorClass::Net || class == ErrorClass::Http || class == ErrorClass::Os {
        FetchError::Network
    } else {
        FetchError::Other
    }
}

/// The private key that is used when none is configured: the standard RSA
/// key below the home directory `home`.
pub fn default_key_path(home: &str) -> (path: String)
    ensures
        path@ == home@ + "/.ssh/id_rsa"@,
{
    let mut path = String::from_str(home);
    path.append("/.ssh/id_rsa");
    path
}

/// The upstream that a branch follows.
#[derive(Clone, Debug, PartialEq, Eq)]
pub struct Upstream {
    /// The name of the remote.
    pub remote: String,
    /// The name of the reference that follows the remote branch.
    pub refname: String,
}

/// The reference that HEAD points to.
#[derive(Clone, Debug, PartialEq, Eq)]
pub struct HeadReference {
    /// The full name of the reference.
    pub name: String,
    /// Whether it is a branch; if not, HEAD is detached.
    pub is_branch: bool,
    /// The recorded upstream, if the branch has one.
    pub upstream: Option<Upstream>,
}

/// One fetch: a single reference from a single remote, authenticated with
/// the private key at `key_path` and no passphrase.
#[derive(Clone, Debug, PartialEq, Eq)]
pub struct FetchRequest {
    pub remote: String,
    pub refspec: String,
    pub key_path: String,
}

/// Why the repository with this HEAD cannot be fetched, or `None` if it can.
pub open spec fn fetch_obstacle(head: Option<HeadReference>) -> Option<SkipReason> {
    match head {
        None => Some(SkipReason::HeadMissing),
        Some(h) => if !h.is_branch {
            Some(SkipReason::DetachedHead)
        } else if h.upstream is None {
            Some(SkipReason::NoUpstream)
        } else {
            None
        },
    }
}

/// Plans the fetch for the branch that HEAD points to: exactly the recorded
/// upstream reference from the recorded remote. Returns the name of the
/// branch with the request. Without a HEAD, with a detached HEAD or without
/// an upstream there is nothing to fetch, and the reason is returned.
pub fn plan_fetch(head: Option<HeadReference>, key_path: String) -> (r: Result<
    (String, FetchRequest),
    SkipReason,
>)
    ensures
        match fetch_obstacle(head) {
            Some(reason) => r == Err::<(String, FetchRequest), SkipReason>(reason),
            None => r == Ok::<(String, FetchRequest), SkipReason>(
                (
                    head->0.name,
                    (FetchRequest {
                        remote: head->0.upstream->0.remote,
                        refspec: head->0.upstream->0.refname,
                        key_path,
                    }),
                ),
            ),
        },
{
    let head = match head {
        Some(head) => head,
        None => {
            return Err(SkipReason::HeadMissing);
        },
    };
    if !head.is_branch {
        return Err(SkipReason::DetachedHead);
    }
    match head.upstream {
        Some(upstream) => Ok(
            (
                head.name,
                FetchRequest { remote: upstream.remote, refspec: upstream.refname, key_path },
            ),
        ),
        None => Err(SkipReason::NoUpstream),
    }
}

} // verus!
