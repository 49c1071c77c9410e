//! User-entered settings, as the engine consumes them.
//!
//! How settings are collected, encrypted and persisted is the surrounding
//! program's concern; here they are plain values with two checks the
//! control loop relies on.

use vstd::prelude::*;
use vstd::string::StrSliceExecFns;

use crate::urls::{normalize_url, url_normal_of};

verus! {

/// The settings one attempt runs with.
#[derive(Debug, Clone, PartialEq, Eq)]
pub struct Settings {
    /// The portal's advertised entry address.
    pub base_uri: String,
    /// Display name of the application whose artifact is wanted.
    pub application_name: String,
    pub login: String,
    pub passwd: String,
    /// Title of the window to maximize once the client runs.
    pub target: String,
    pub maximization_active: bool,
}

impl Default for Settings {
    /// A blank settings record: every text field empty, maximization off.
    fn default() -> (s: Settings)
        ensures
            s.base_uri@ =~= Seq::<char>::empty(),
            s.application_name@ =~= Seq::<char>::empty(),
            s.login@ =~= Seq::<char>::empty(),
            s.passwd@ =~= Seq::<char>::empty(),
            s.target@ =~= Seq::<char>::empty(),
            !s.maximization_active,
    {
        Settings {
            base_uri: String::new(),
            application_name: String::new(),
            login: String::new(),
            passwd: String::new(),
            target: String::new(),
            maximization_active: false,
        }
    }
}

impl Settings {
    /// Settings are valid when the base address parses and at least one
    /// of the two credential fields is non-empty.
    pub fn is_valid(&self) -> (r: bool)
        ensures
            r == (url_normal_of(self.base_uri@) is Some && (self.login@.len() != 0
                || self.passwd@.len() != 0)),
    {
        let parses = match normalize_url(self.base_uri.as_str()) {
            Some(_) => true,
            None => false,
        };
        parses && (!self.login.as_str().is_empty() || !self.passwd.as_str().is_empty())
    }

    /// All of base address, login and password are blank.
    pub fn is_empty(&self) -> (r: bool)
        ensures
            r == (self.base_uri@.len() == 0 && self.login@.len() == 0 && self.passwd@.len() == 0),
    {
        self.base_uri.as_str().is_empty() && self.login.as_str().is_empty()
            && self.passwd.as_str().is_empty()
    }
}

} // verus!
