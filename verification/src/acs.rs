//! The ACS: process-wide configuration plus the persistent CPE registry.
//!
//! The registry maps a CPE serial number to its entry; the serial uniquely
//! identifies an entry for the registry's lifetime. Insertion happens on
//! first contact, reads on every session start and controller creation.

use vstd::prelude::*;
use vstd::string::StringExecFns;
use crate::AcsError;
use crate::cpe::CPE;
use crate::db;
use crate::transfer::Transfer;
use crate::utils::{base64_of, base64_encode, bracket_host, port_text, random_password};
use crate::utils::{spec_bracketed, spec_port_suffix};

verus! {

/// The basic-auth string derived from the management credentials:
/// `Basic` followed by the base64 encoding of `username:password`.
pub open spec fn spec_basicauth(username: Seq<char>, password: Seq<char>) -> Seq<char> {
    "Basic "@ + base64_of(username + ":"@ + password)
}

/// The registry's serial list after a serial is looked up or inserted:
/// unchanged when the serial is already present, extended by it otherwise.
pub open spec fn register_serial(m: Seq<Seq<char>>, s: Seq<char>) -> Seq<Seq<char>> {
    if m.contains(s) {
        m
    } else {
        m.push(s)
    }
}

/// The ACS: configuration, the derived basic-auth string, the CPE registry,
/// and the directory its persistence file lives in.
pub struct Acs {
    pub config: db::AcsConfig,
    pub basicauth: String,
    pub cpe_list: Vec<CPE>,
    pub acsdir: String,
}

impl Acs {
    /// The registry keys, in entry order.
    pub open spec fn serials(self) -> Seq<Seq<char>> {
        self.cpe_list@.map_values(|c: CPE| c.serial())
    }

    /// Whether an entry with this serial exists.
    pub open spec fn contains_serial(self, s: Seq<char>) -> bool {
        self.serials().contains(s)
    }

    /// The index of the entry with this serial, when one exists.
    pub open spec fn index_of_serial(self, s: Seq<char>) -> int {
        choose|i: int| 0 <= i < self.cpe_list@.len() && self.cpe_list@[i].serial() == s
    }

    /// The entry keyed `s`, when one exists.
    pub open spec fn entry_of(self, s: Seq<char>) -> CPE {
        self.cpe_list@[self.index_of_serial(s)]
    }

    /// The registry frame of an operation that touches at most the entry
    /// keyed `s`: configuration, derived auth string, directory, the key
    /// sequence and every other entry are unchanged.
    pub open spec fn unchanged_except(self, post: Acs, s: Seq<char>) -> bool {
        &&& post.cpe_list@.len() == self.cpe_list@.len()
        &&& post.config == self.config
        &&& post.basicauth == self.basicauth
        &&& post.acsdir == self.acsdir
        &&& post.serials() == self.serials()
        &&& forall|j: int|
            0 <= j < self.cpe_list@.len() && self.cpe_list@[j].serial() != s
                ==> post.cpe_list@[j] == self.cpe_list@[j]
    }

    /// No two entries share a serial.
    pub open spec fn serials_distinct(self) -> bool {
        forall|i: int, j: int|
            0 <= i < j < self.cpe_list@.len()
                ==> self.cpe_list@[i].serial() != self.cpe_list@[j].serial()
    }

    /// Well-formedness: serials are unique and the basic-auth string is the
    /// one derived from the configured credentials.
    pub open spec fn wf(self) -> bool {
        &&& self.serials_distinct()
        &&& self.basicauth@ == spec_basicauth(self.config.username@, self.config.password@)
    }

    /// A fresh ACS rooted at `acsdir`: generated management credentials, the
    /// default bind addresses, an empty registry.
    pub fn new(acsdir: &str) -> (r: Acs)
        ensures
            r.wf(),
            r.cpe_list@.len() == 0,
            r.acsdir@ == acsdir@,
            r.config.hostname@ == Seq::<char>::empty(),
            r.config.username@.len() == 32,
            r.config.password@.len() == 32,
            r.config.autocert == true,
            r.config.unsecure_address@ == "[::0]:8080"@,
            r.config.identity_password@ == "ACSRS"@,
            r.config.secure_address@ == "[::0]:8443"@,
            r.config.management_address@ == "127.0.0.1:8000"@,
            r.basicauth@ == spec_basicauth(r.config.username@, r.config.password@),
    {
        let username = random_password();
        let password = random_password();
        let auth = Self::basicauth(username.as_str(), password.as_str());
        let config = db::AcsConfig {
            hostname: String::new(),
            username,
            password,
            autocert: true,
            unsecure_address: String::from_str("[::0]:8080"),
            identity_password: String::from_str("ACSRS"),
            secure_address: String::from_str("[::0]:8443"),
            management_address: String::from_str("127.0.0.1:8000"),
        };
        Acs {
            config,
            basicauth: auth,
            cpe_list: Vec::new(),
            acsdir: String::from_str(acsdir),
        }
    }

    /// Derive the basic-auth string from the management credentials.
    fn basicauth(username: &str, password: &str) -> (r: String)
        ensures
            r@ == spec_basicauth(username@, password@),
    {
        let mut token = String::new();
        token.append(username);
        token.append(":");
        token.append(password);
        proof {
            assert(token@ =~= username@ + ":"@ + password@);
        }
        let token64 = base64_encode(&token);
        let mut r = String::from_str("Basic ");
        r.append(token64.as_str());
        proof {
            assert(r@ =~= spec_basicauth(username@, password@));
        }
        r
    }

    /// Read-only name resolution: the index of the entry whose serial is
    /// `serial_number`, or `None` when the serial is unknown (which is not an
    /// error; it is the caller's business).
    pub fn lookup(&self, serial_number: &String) -> (r: Option<usize>)
        ensures
            match r {
                Some(i) => {
                    &&& i < self.cpe_list@.len()
                    &&& self.cpe_list@[i as int].serial() == serial_number@
                },
                None => !self.contains_serial(serial_number@),
            },
    {
        let n = self.cpe_list.len();
        let mut i: usize = 0;
        while i < n
            invariant
                n == self.cpe_list@.len(),
                i <= n,
                forall|j: int| 0 <= j < i ==> self.cpe_list@[j].serial() != serial_number@,
            decreases n - i,
        {
            if self.cpe_list[i].device_id.serial_number == *serial_number {
                return Some(i);
            }
            i += 1;
        }
        proof {
            assert(forall|j: int| 0 <= j < self.serials().len()
                ==> self.serials()[j] == self.cpe_list@[j].serial());
        }
        None
    }

    /// Return the index of the existing entry for this serial, or atomically
    /// insert a fresh default-initialized one and return its index. Exactly
    /// one entry per serial ever exists.
    pub fn lookup_or_insert(&mut self, serial_number: &String) -> (i: usize)
        ensures
            old(self).wf() ==> final(self).wf(),
            i < final(self).cpe_list@.len(),
            final(self).cpe_list@[i as int].serial() == serial_number@,
            final(self).config == old(self).config,
            final(self).basicauth == old(self).basicauth,
            final(self).acsdir == old(self).acsdir,
            final(self).serials() == register_serial(old(self).serials(), serial_number@),
            old(self).contains_serial(serial_number@) ==> *final(self) == *old(self),
            !old(self).contains_serial(serial_number@) ==> {
                &&& i == old(self).cpe_list@.len()
                &&& final(self).cpe_list@ == old(self).cpe_list@.push(final(self).cpe_list@[i as int])
                &&& final(self).cpe_list@[i as int].device_id.serial_number@ == serial_number@
                &&& final(self).cpe_list@[i as int].device_id.manufacturer@ == Seq::<char>::empty()
                &&& final(self).cpe_list@[i as int].device_id.oui@ == Seq::<char>::empty()
                &&& final(self).cpe_list@[i as int].device_id.product_class@ == Seq::<char>::empty()
                &&& final(self).cpe_list@[i as int].connreq.url@ == Seq::<char>::empty()
                &&& final(self).cpe_list@[i as int].connreq.username@ == "acsrs"@
                &&& final(self).cpe_list@[i as int].connreq.password@.len() == 32
                &&& final(self).cpe_list@[i as int].baseurl@ == Seq::<char>::empty()
                &&& final(self).cpe_list@[i as int].session_refs == 0
                &&& final(self).cpe_list@[i as int].controller_refs == 0
                &&& final(self).cpe_list@[i as int].pending() == Seq::<Transfer>::empty()
            },
    {
        match self.lookup(serial_number) {
            Some(i) => {
                proof {
                    assert(self.serials()[i as int] == serial_number@);
                    assert(self.contains_serial(serial_number@));
                }
                i
            },
            None => {
                let mut entry = CPE::default();
                entry.device_id.serial_number = serial_number.clone();
                let i = self.cpe_list.len();
                self.cpe_list.push(entry);
                proof {
                    assert(self.serials() =~= old(self).serials().push(serial_number@));
                    assert(self.serials()[i as int] == serial_number@);
                    if old(self).wf() {
                        assert forall|a: int, b: int|
                            0 <= a < b < self.cpe_list@.len() implies
                            self.cpe_list@[a].serial() != self.cpe_list@[b].serial() by {
                            if b < i {
                                assert(old(self).cpe_list@[a].serial() != old(self).cpe_list@[b].serial());
                            } else {
                                assert(old(self).serials()[a] == old(self).cpe_list@[a].serial());
                                assert(!old(self).serials().contains(serial_number@));
                            }
                        }
                    }
                }
                i
            },
        }
    }

    /// A consistent snapshot of the registry for persistence: one record per
    /// entry, carrying its serial and Connection Request endpoint.
    pub fn iter_snapshot(&self) -> (r: Vec<db::CPE>)
        ensures
            r@.len() == self.cpe_list@.len(),
            forall|k: int| 0 <= k < r@.len() ==> {
                &&& (#[trigger] r@[k]).serial_number@ == self.cpe_list@[k].serial()
                &&& r@[k].url@ == self.cpe_list@[k].connreq.url@
                &&& r@[k].username@ == self.cpe_list@[k].connreq.username@
                &&& r@[k].password@ == self.cpe_list@[k].connreq.password@
            },
    {
        let n = self.cpe_list.len();
        let mut r: Vec<db::CPE> = Vec::new();
        let mut k: usize = 0;
        while k < n
            invariant
                n == self.cpe_list@.len(),
                k <= n,
                r@.len() == k,
                forall|j: int| 0 <= j < k ==> {
                    &&& (#[trigger] r@[j]).serial_number@ == self.cpe_list@[j].serial()
                    &&& r@[j].url@ == self.cpe_list@[j].connreq.url@
                    &&& r@[j].username@ == self.cpe_list@[j].connreq.username@
                    &&& r@[j].password@ == self.cpe_list@[j].connreq.password@
                },
            decreases n - k,
        {
            let cpe = &self.cpe_list[k];
            r.push(db::CPE {
                serial_number: cpe.device_id.serial_number.clone(),
                url: cpe.connreq.url.clone(),
                username: cpe.connreq.username.clone(),
                password: cpe.connreq.password.clone(),
            });
            k += 1;
        }
        r
    }

    /// What `save` promises of the record it emits: the configuration and,
    /// per entry, the `(serial, url, username, password)` tuple.
    pub open spec fn save_post(self, r: db::Acs) -> bool {
        &&& r.config == self.config
        &&& r.cpe@.len() == self.cpe_list@.len()
        &&& forall|k: int| 0 <= k < r.cpe@.len() ==> {
            &&& (#[trigger] r.cpe@[k]).serial_number@ == self.cpe_list@[k].serial()
            &&& r.cpe@[k].url@ == self.cpe_list@[k].connreq.url@
            &&& r.cpe@[k].username@ == self.cpe_list@[k].connreq.username@
            &&& r.cpe@[k].password@ == self.cpe_list@[k].connreq.password@
        }
    }

    /// Build the document to persist: the configuration and one record per
    /// registry entry. Writing it to the file is the caller's business.
    pub fn save(&self) -> (r: db::Acs)
        ensures
            self.save_post(r),
    {
        db::Acs { config: self.config.duplicate(), cpe: self.iter_snapshot() }
    }

    /// Whether a persisted document names each serial at most once.
    pub open spec fn record_serials_distinct(record: db::Acs) -> bool {
        forall|i: int, j: int|
            0 <= i < j < record.cpe@.len()
                ==> (#[trigger] record.cpe@[i]).serial_number@
                    != (#[trigger] record.cpe@[j]).serial_number@
    }

    /// What `restore` promises of a successful restoration: the configuration
    /// and basic-auth string come from the record, and each record yields a
    /// default entry with its serial and Connection Request endpoint filled
    /// in, an empty queue, and no sessions or controllers attached.
    pub open spec fn restore_ok_post(record: db::Acs, r: Acs, acsdir: Seq<char>) -> bool {
        &&& r.wf()
        &&& r.config == record.config
        &&& r.basicauth@ == spec_basicauth(record.config.username@, record.config.password@)
        &&& r.acsdir@ == acsdir
        &&& r.cpe_list@.len() == record.cpe@.len()
        &&& forall|k: int| 0 <= k < record.cpe@.len() ==> {
            &&& (#[trigger] r.cpe_list@[k]).serial() == record.cpe@[k].serial_number@
            &&& r.cpe_list@[k].connreq.url@ == record.cpe@[k].url@
            &&& r.cpe_list@[k].connreq.username@ == record.cpe@[k].username@
            &&& r.cpe_list@[k].connreq.password@ == record.cpe@[k].password@
            &&& r.cpe_list@[k].baseurl@ == Seq::<char>::empty()
            &&& r.cpe_list@[k].session_refs == 0
            &&& r.cpe_list@[k].controller_refs == 0
            &&& r.cpe_list@[k].pending() == Seq::<Transfer>::empty()
        }
    }

    /// The values to show an operator configuring CPEs against this ACS:
    /// for each of the secure and plain bind addresses, the management URL
    /// built from `hostname` (bracketed when IPv6) and the address's port,
    /// plus the management credentials. `None` when a configured bind
    /// address holds no port at all.
    pub fn print_config(&self, hostname: &str) -> (r: Option<CpeSetup>)
        ensures
            r matches Some(setup) ==> {
                &&& spec_is_cpe_url(setup.secure_url@, "https://"@, hostname@,
                    self.config.secure_address@)
                &&& spec_is_cpe_url(setup.unsecure_url@, "http://"@, hostname@,
                    self.config.unsecure_address@)
                &&& setup.username@ == self.config.username@
                &&& setup.password@ == self.config.password@
            },
            r is None ==> !self.config.secure_address@.contains(':')
                || !self.config.unsecure_address@.contains(':'),
    {
        let host = bracket_host(hostname);
        let ps = match port_text(self.config.secure_address.as_str()) {
            Some(p) => p,
            None => {
                return None;
            },
        };
        let pu = match port_text(self.config.unsecure_address.as_str()) {
            Some(p) => p,
            None => {
                return None;
            },
        };
        let mut secure_url = String::from_str("https://");
        secure_url.append(host.as_str());
        secure_url.append(":");
        secure_url.append(ps.as_str());
        secure_url.append("/cwmpWeb/CPEMgt");
        let mut unsecure_url = String::from_str("http://");
        unsecure_url.append(host.as_str());
        unsecure_url.append(":");
        unsecure_url.append(pu.as_str());
        unsecure_url.append("/cwmpWeb/CPEMgt");
        proof {
            assert(secure_url@ =~= spec_cpe_url("https://"@, hostname@, ps@));
            assert(unsecure_url@ =~= spec_cpe_url("http://"@, hostname@, pu@));
            assert(spec_is_cpe_url(secure_url@, "https://"@, hostname@,
                self.config.secure_address@));
            assert(spec_is_cpe_url(unsecure_url@, "http://"@, hostname@,
                self.config.unsecure_address@));
        }
        Some(CpeSetup {
            secure_url,
            unsecure_url,
            username: self.config.username.clone(),
            password: self.config.password.clone(),
        })
    }

    /// Rebuild an ACS from a persisted document. Transfer queues start empty
    /// and refcounts start at zero. A document naming the same serial twice
    /// is corrupt and is rejected, and nothing else is.
    pub fn restore(record: &db::Acs, acsdir: &str) -> (r: Result<Acs, AcsError>)
        ensures
            r is Ok <==> Self::record_serials_distinct(*record),
            r is Ok ==> Self::restore_ok_post(*record, r.unwrap(), acsdir@),
            r is Err ==> r == Err::<Acs, AcsError>(AcsError::ConfigError),
    {
        let auth = Self::basicauth(record.config.username.as_str(), record.config.password.as_str());
        let mut acs = Acs {
            config: record.config.duplicate(),
            basicauth: auth,
            cpe_list: Vec::new(),
            acsdir: String::from_str(acsdir),
        };
        let n = record.cpe.len();
        let mut k: usize = 0;
        while k < n
            invariant
                n == record.cpe@.len(),
                k <= n,
                acs.config == record.config,
                acs.basicauth@ == spec_basicauth(record.config.username@, record.config.password@),
                acs.acsdir@ == acsdir@,
                acs.cpe_list@.len() == k,
                forall|j: int| 0 <= j < k ==> {
                    &&& (#[trigger] acs.cpe_list@[j]).serial() == record.cpe@[j].serial_number@
                    &&& acs.cpe_list@[j].connreq.url@ == record.cpe@[j].url@
                    &&& acs.cpe_list@[j].connreq.username@ == record.cpe@[j].username@
                    &&& acs.cpe_list@[j].connreq.password@ == record.cpe@[j].password@
                    &&& acs.cpe_list@[j].baseurl@ == Seq::<char>::empty()
                    &&& acs.cpe_list@[j].session_refs == 0
                    &&& acs.cpe_list@[j].controller_refs == 0
                    &&& acs.cpe_list@[j].pending() == Seq::<Transfer>::empty()
                },
                forall|i: int, j: int| 0 <= i < j < k
                    ==> (#[trigger] record.cpe@[i]).serial_number@
                        != (#[trigger] record.cpe@[j]).serial_number@,
            decreases n - k,
        {
            let elem = &record.cpe[k];
            if acs.lookup(&elem.serial_number).is_some() {
                proof {
                    let i = choose|i: int| 0 <= i < acs.cpe_list@.len()
                        && acs.cpe_list@[i].serial() == elem.serial_number@;
                    assert(record.cpe@[i].serial_number@ == record.cpe@[k as int].serial_number@);
                }
                return Err(AcsError::ConfigError);
            }
            proof {
                assert forall|j: int| 0 <= j < k implies
                    (#[trigger] record.cpe@[j]).serial_number@ != record.cpe@[k as int].serial_number@ by {
                    if record.cpe@[j].serial_number@ == record.cpe@[k as int].serial_number@ {
                        assert(acs.cpe_list@[j].serial() == elem.serial_number@);
                        assert(acs.contains_serial(elem.serial_number@)) by {
                            assert(acs.serials()[j] == acs.cpe_list@[j].serial());
                        }
                    }
                }
            }
            let mut cpe = CPE::default();
            cpe.device_id.serial_number = elem.serial_number.clone();
            cpe.connreq.url = elem.url.clone();
            cpe.connreq.username = elem.username.clone();
            cpe.connreq.password = elem.password.clone();
            acs.cpe_list.push(cpe);
            k += 1;
        }
        proof {
            assert(acs.serials_distinct()) by {
                assert(forall|j: int| 0 <= j < acs.cpe_list@.len()
                    ==> (#[trigger] acs.cpe_list@[j]).serial() == record.cpe@[j].serial_number@);
            }
        }
        Ok(acs)
    }
}

/// Law: however many times a serial is registered, exactly one entry for it
/// comes to exist: a second registration of the same serial changes nothing,
/// and the serial is present after the first.
pub proof fn lemma_register_serial_idempotent(m: Seq<Seq<char>>, s: Seq<char>)
    ensures
        register_serial(register_serial(m, s), s) == register_serial(m, s),
        register_serial(m, s).contains(s),
{
    if !m.contains(s) {
        assert(m.push(s)[m.len() as int] == s);
        assert(m.push(s).contains(s));
    }
}

/// Law: in a well-formed registry every caller that resolves a serial
/// observes the same entry: two indices holding the serial coincide.
pub proof fn lemma_serial_index_unique(acs: Acs, s: Seq<char>, i: int, j: int)
    requires
        acs.wf(),
        0 <= i < acs.cpe_list@.len(),
        0 <= j < acs.cpe_list@.len(),
        acs.cpe_list@[i].serial() == s,
        acs.cpe_list@[j].serial() == s,
    ensures
        i == j,
{
}

/// The URL a CPE must be pointed at: scheme, bracketed host, port, and the
/// CWMP mount path.
pub open spec fn spec_cpe_url(scheme: Seq<char>, host: Seq<char>, port: Seq<char>) -> Seq<char> {
    scheme + spec_bracketed(host) + ":"@ + port + "/cwmpWeb/CPEMgt"@
}

/// `url` points `host` at this ACS under `scheme`, on the port that closes
/// the bind address `addr`.
pub open spec fn spec_is_cpe_url(url: Seq<char>, scheme: Seq<char>, host: Seq<char>, addr: Seq<char>) -> bool {
    exists|p: Seq<char>| #[trigger] spec_port_suffix(addr, p) && url == spec_cpe_url(scheme, host, p)
}

/// What an operator must configure on a CPE to reach this ACS: the secure
/// and plain management URLs and the management credentials.
pub struct CpeSetup {
    pub secure_url: String,
    pub unsecure_url: String,
    pub username: String,
    pub password: String,
}

/// In a registry with distinct serials, resolving a serial yields the one
/// index that holds it.
pub proof fn lemma_index_of_serial_is(acs: Acs, s: Seq<char>, i: int)
    requires
        acs.serials_distinct(),
        0 <= i < acs.cpe_list@.len(),
        acs.cpe_list@[i].serial() == s,
    ensures
        acs.index_of_serial(s) == i,
        acs.contains_serial(s),
        acs.entry_of(s) == acs.cpe_list@[i],
{
    assert(acs.serials()[i] == s);
    assert(acs.contains_serial(s));
    assert(exists|k: int| 0 <= k < acs.cpe_list@.len() && acs.cpe_list@[k].serial() == s);
    let j = acs.index_of_serial(s);
    assert(0 <= j < acs.cpe_list@.len() && acs.cpe_list@[j].serial() == s);
    if i != j {
        assert(acs.serials()[j] == s);
        assert(false);
    }
}

/// Law: a well-formed registry saves to a record whose serials are distinct,
/// so restoring what was saved never fails.
pub proof fn lemma_saved_record_distinct(acs: Acs, record: db::Acs)
    requires
        acs.wf(),
        acs.save_post(record),
    ensures
        Acs::record_serials_distinct(record),
{
}

/// Law: the save→restore round trip preserves the configuration, the derived
/// basic-auth string, and every `(serial, url, username, password)` tuple.
pub proof fn lemma_save_restore_round_trip(acs: Acs, record: db::Acs, restored: Acs, acsdir: Seq<char>)
    requires
        acs.wf(),
        acs.save_post(record),
        Acs::restore_ok_post(record, restored, acsdir),
    ensures
        restored.config == acs.config,
        restored.basicauth@ == acs.basicauth@,
        restored.cpe_list@.len() == acs.cpe_list@.len(),
        forall|k: int| 0 <= k < acs.cpe_list@.len() ==> {
            &&& (#[trigger] restored.cpe_list@[k]).serial() == acs.cpe_list@[k].serial()
            &&& restored.cpe_list@[k].connreq.url@ == acs.cpe_list@[k].connreq.url@
            &&& restored.cpe_list@[k].connreq.username@ == acs.cpe_list@[k].connreq.username@
            &&& restored.cpe_list@[k].connreq.password@ == acs.cpe_list@[k].connreq.password@
        },
{
    assert forall|k: int| 0 <= k < acs.cpe_list@.len() implies {
        &&& (#[trigger] restored.cpe_list@[k]).serial() == acs.cpe_list@[k].serial()
        &&& restored.cpe_list@[k].connreq.url@ == acs.cpe_list@[k].connreq.url@
        &&& restored.cpe_list@[k].connreq.username@ == acs.cpe_list@[k].connreq.username@
        &&& restored.cpe_list@[k].connreq.password@ == acs.cpe_list@[k].connreq.password@
    } by {
        assert(record.cpe@[k].serial_number@ == acs.cpe_list@[k].serial());
    }
}

} // verus!
