//! A minimal representation of payload information: just the fields
//! that hook filtering reads, decoded best-effort from an event body.

use vstd::prelude::*;

verus! {

/// The account that triggered an event.
pub struct Sender {
    pub login: String,
}

/// The organization an event belongs to, when there is one.
pub struct Organization {
    pub login: String,
}

/// The repository an event belongs to, when there is one.
pub struct Repository {
    pub name: String,
    pub full_name: String,
    pub organization: Option<Organization>,
}

/// The typed projection of an event body: only what filtering needs.
pub struct Payload {
    pub sender: Sender,
    pub organization: Option<Organization>,
    pub repository: Option<Repository>,
}

/// The envelope some providers wrap a payload in: the payload then
/// sits under a `hook` field.
pub struct Ping {
    pub hook: Payload,
}

/// The mathematical shape of a repository: what filtering and
/// projection read of one.
#[verifier::ext_equal]
pub ghost struct RepoV {
    pub name: Seq<char>,
    pub full_name: Seq<char>,
    pub organization: Option<Seq<char>>,
}

/// The mathematical shape of a payload: the sender's login and the
/// optional organization login and repository.
#[verifier::ext_equal]
pub ghost struct PayloadV {
    pub sender_login: Seq<char>,
    pub organization: Option<Seq<char>>,
    pub repository: Option<RepoV>,
}

impl View for Repository {
    type V = RepoV;

    open spec fn view(&self) -> RepoV {
        RepoV {
            name: self.name@,
            full_name: self.full_name@,
            organization: match self.organization {
                Some(o) => Some(o.login@),
                None => None,
            },
        }
    }
}

impl View for Payload {
    type V = PayloadV;

    open spec fn view(&self) -> PayloadV {
        PayloadV {
            sender_login: self.sender.login@,
            organization: match self.organization {
                Some(o) => Some(o.login@),
                None => None,
            },
            repository: match self.repository {
                Some(r) => Some(r@),
                None => None,
            },
        }
    }
}

impl Clone for Sender {
    /// A clone is the same sender.
    fn clone(&self) -> (r: Self)
        ensures
            r == *self,
    {
        Sender { login: self.login.clone() }
    }
}

impl Clone for Organization {
    /// A clone is the same organization.
    fn clone(&self) -> (r: Self)
        ensures
            r == *self,
    {
        Organization { login: self.login.clone() }
    }
}

/// Copies an optional organization.
fn clone_opt_org(o: &Option<Organization>) -> (r: Option<Organization>)
    ensures
        r == *o,
{
    match o {
        Some(org) => Some(org.clone()),
        None => None,
    }
}

impl Clone for Repository {
    /// A clone is the same repository.
    fn clone(&self) -> (r: Self)
        ensures
            r == *self,
    {
        Repository {
            name: self.name.clone(),
            full_name: self.full_name.clone(),
            organization: clone_opt_org(&self.organization),
        }
    }
}

impl Clone for Payload {
    /// A clone is the same payload.
    fn clone(&self) -> (r: Self)
        ensures
            r == *self,
    {
        Payload {
            sender: self.sender.clone(),
            organization: clone_opt_org(&self.organization),
            repository: match &self.repository {
                Some(rep) => Some(rep.clone()),
                None => None,
            },
        }
    }
}

impl Payload {
    /// A payload with the given sender login and no organization or
    /// repository: the shape of a minimal event body.
    pub fn bare(sender_login: String) -> (p: Payload)
        ensures
            p.sender.login == sender_login,
            p.organization is None,
            p.repository is None,
    {
        Payload {
            sender: Sender { login: sender_login },
            organization: None,
            repository: None,
        }
    }
}

} // verus!
