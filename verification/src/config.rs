//! The declarative deployment configuration: targets, packages, and the
//! credential strings attached to a target, with the engine's view of them.
//! Loading the configuration from disk is the surrounding program's job; the
//! engine only reads these structures.

use vstd::prelude::*;
use vstd::string::*;
use crate::strutil::{split_all, split_on_char};

verus! {

/// A named local directory deployed to a remote directory, with optional
/// shell actions around deployment.
pub struct DeployPackage {
    pub local_directory: String,
    pub target_directory: String,
    pub pre_deploy_actions: Option<Vec<String>>,
    pub post_deploy_actions: Option<Vec<String>>,
}

/// One remote host plus its assigned packages and credentials. The
/// authentication list is treated as a single-entry mapping from auth kind
/// (`"password"` or `"certificate"`) to a colon-delimited credential string.
pub struct DeployTarget {
    pub name: Option<String>,
    pub host: String,
    pub port: u16,
    pub authentication: Vec<(String, String)>,
    pub packages: Vec<String>,
}

/// The whole run's configuration: every target and every package definition,
/// packages looked up by name.
pub struct Config {
    pub use_sudo: Option<bool>,
    pub targets: Vec<DeployTarget>,
    pub packages: Vec<(String, DeployPackage)>,
}

/// A configuration error that aborts the affected target's run instead of
/// being retried.
#[derive(Clone, Copy, PartialEq, Eq, Structural, Debug)]
pub enum FatalError {
    /// The target names no authentication entry at all.
    MissingAuthentication,
    /// The credential string lacks a required colon-delimited field.
    MalformedCredentials,
    /// The authentication kind is neither `"password"` nor `"certificate"`.
    UnknownAuthKind,
    /// A target lists a package name the configuration does not define.
    MissingPackage,
}

/// One parsed authentication method, taken from a target's credential
/// string.
pub enum AuthMethod {
    Password { username: String, password: String },
    Certificate { username: String, key_path: String, key_passphrase: Option<String> },
}

impl Config {
    /// Looks a package definition up by name, returning the index of the
    /// first entry with that name.
    pub fn find_package(&self, name: &String) -> (r: Option<usize>)
        ensures
            match r {
                Some(i) => {
                    &&& i < self.packages@.len()
                    &&& self.packages@[i as int].0@ == name@
                    &&& forall|j: int| 0 <= j < i ==> self.packages@[j].0@ != name@
                },
                None => forall|j: int|
                    0 <= j < self.packages@.len() ==> self.packages@[j].0@ != name@,
            },
    {
        let mut i: usize = 0;
        while i < self.packages.len()
            invariant
                i <= self.packages@.len(),
                forall|j: int| 0 <= j < i ==> self.packages@[j].0@ != name@,
            decreases self.packages@.len() - i,
        {
            if self.packages[i].0.eq(name) {
                return Some(i);
            }
            i = i + 1;
        }
        None
    }
}

impl DeployTarget {
    /// The target's single authentication entry: the first `(kind,
    /// credential)` pair, or `None` when the target has none, which is a
    /// fatal configuration error.
    pub fn auth_entry(&self) -> (r: Option<&(String, String)>)
        ensures
            match r {
                Some(e) => self.authentication@.len() > 0 && *e == self.authentication@[0],
                None => self.authentication@.len() == 0,
            },
    {
        if self.authentication.len() > 0 {
            Some(&self.authentication[0])
        } else {
            None
        }
    }
}

/// Parses a colon-delimited credential string for the given authentication
/// kind: `username:password` for password auth, and
/// `username:key_path[:key_passphrase]` for key-based auth. A missing field
/// or an unknown kind is a fatal configuration error, never retried.
pub fn parse_credentials(auth_type: &String, auth_str: &String) -> (r: Result<
    AuthMethod,
    FatalError,
>)
    ensures
        ({
            let creds = split_all(auth_str@, ':');
            match r {
                Ok(AuthMethod::Password { username, password }) => {
                    &&& auth_type@ == "password"@
                    &&& creds.len() >= 2
                    &&& username@ == creds[0]
                    &&& password@ == creds[1]
                },
                Ok(AuthMethod::Certificate { username, key_path, key_passphrase }) => {
                    &&& auth_type@ == "certificate"@
                    &&& creds.len() >= 2
                    &&& username@ == creds[0]
                    &&& key_path@ == creds[1]
                    &&& match key_passphrase {
                        Some(p) => creds.len() > 2 && p@ == creds[2],
                        None => creds.len() == 2,
                    }
                },
                Err(FatalError::MalformedCredentials) => {
                    &&& (auth_type@ == "password"@ || auth_type@ == "certificate"@)
                    &&& creds.len() < 2
                },
                Err(FatalError::UnknownAuthKind) => {
                    &&& auth_type@ != "password"@
                    &&& auth_type@ != "certificate"@
                },
                Err(_) => false,
            }
        }),
{
    let kind_password = String::from_str("password");
    let kind_certificate = String::from_str("certificate");
    let creds = split_on_char(auth_str.as_str(), ':');
    proof {
        assert(forall|k: int|
            0 <= k < creds@.len() ==> creds@.map_values(|p: String| p@)[k] == creds@[k]@);
    }
    if auth_type.eq(&kind_password) {
        if creds.len() >= 2 {
            Ok(
                AuthMethod::Password {
                    username: creds[0].clone(),
                    password: creds[1].clone(),
                },
            )
        } else {
            Err(FatalError::MalformedCredentials)
        }
    } else if auth_type.eq(&kind_certificate) {
        if creds.len() >= 2 {
            let key_passphrase = if creds.len() > 2 {
                Some(creds[2].clone())
            } else {
                None
            };
            Ok(
                AuthMethod::Certificate {
                    username: creds[0].clone(),
                    key_path: creds[1].clone(),
                    key_passphrase,
                },
            )
        } else {
            Err(FatalError::MalformedCredentials)
        }
    } else {
        Err(FatalError::UnknownAuthKind)
    }
}

} // verus!
