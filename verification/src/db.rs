//! The shapes persisted to the ACS's configuration file.
//!
//! The registry survives restarts through these records: the process-wide
//! configuration and, per known CPE, its serial number and Connection Request
//! credentials. Live runtime state (queues, sessions) is deliberately
//! ephemeral and never persisted. The file codec itself is an external
//! collaborator; the library only builds and consumes these records.

use vstd::prelude::*;

verus! {

/// Process-wide ACS configuration, loaded once at startup.
pub struct AcsConfig {
    pub hostname: String,
    pub username: String,
    pub password: String,
    pub autocert: bool,
    pub unsecure_address: String,
    pub secure_address: String,
    pub management_address: String,
    pub identity_password: String,
}

impl AcsConfig {
    /// A field-for-field copy.
    pub fn duplicate(&self) -> (r: AcsConfig)
        ensures
            r == *self,
    {
        AcsConfig {
            hostname: self.hostname.clone(),
            username: self.username.clone(),
            password: self.password.clone(),
            autocert: self.autocert,
            unsecure_address: self.unsecure_address.clone(),
            secure_address: self.secure_address.clone(),
            management_address: self.management_address.clone(),
            identity_password: self.identity_password.clone(),
        }
    }
}

impl Default for AcsConfig {
    /// All fields blank; `Acs::new` fills in the real defaults.
    fn default() -> (r: AcsConfig)
        ensures
            r.hostname@ == Seq::<char>::empty(),
            r.username@ == Seq::<char>::empty(),
            r.password@ == Seq::<char>::empty(),
            r.autocert == false,
            r.unsecure_address@ == Seq::<char>::empty(),
            r.secure_address@ == Seq::<char>::empty(),
            r.management_address@ == Seq::<char>::empty(),
            r.identity_password@ == Seq::<char>::empty(),
    {
        AcsConfig {
            hostname: String::new(),
            username: String::new(),
            password: String::new(),
            autocert: false,
            unsecure_address: String::new(),
            secure_address: String::new(),
            management_address: String::new(),
            identity_password: String::new(),
        }
    }
}

/// One persisted CPE: its registry key and Connection Request endpoint.
pub struct CPE {
    pub serial_number: String,
    pub url: String,
    pub username: String,
    pub password: String,
}

/// The whole persisted document: the configuration and the CPE list.
pub struct Acs {
    pub config: AcsConfig,
    pub cpe: Vec<CPE>,
}

} // verus!
