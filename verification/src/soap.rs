//! The CWMP SOAP documents the coordinator exchanges with a CPE.
//!
//! The coordinator never looks inside parameter semantics; an envelope is an
//! opaque typed document with an identifying RPC name and an `id` header used
//! to correlate a request with its response.

use vstd::prelude::*;

verus! {

/// CWMP device identity, as a CPE declares it in its Inform.
///
/// The serial number is the registry key and is immutable once set.
pub struct DeviceId {
    pub manufacturer: String,
    pub oui: String,
    pub product_class: String,
    pub serial_number: String,
}

impl Default for DeviceId {
    /// A blank identity, filled in when the first Inform arrives.
    fn default() -> (r: DeviceId)
        ensures
            r.manufacturer@ == Seq::<char>::empty(),
            r.oui@ == Seq::<char>::empty(),
            r.product_class@ == Seq::<char>::empty(),
            r.serial_number@ == Seq::<char>::empty(),
    {
        DeviceId {
            manufacturer: String::new(),
            oui: String::new(),
            product_class: String::new(),
            serial_number: String::new(),
        }
    }
}

/// One CWMP parameter name/value pair.
pub struct ParameterValue {
    pub name: String,
    pub value: String,
}

/// The RPC a CWMP envelope carries.
///
/// `Empty` is a fresh envelope whose body has not been filled in yet.
pub enum Rpc {
    Empty,
    Inform { device_id: DeviceId, connreq_url: String },
    InformResponse,
    GetParameterValues { names: Vec<String> },
    GetParameterValuesResponse { values: Vec<ParameterValue> },
    SetParameterValues { values: Vec<ParameterValue> },
    SetParameterValuesResponse { status: u32 },
    Fault { code: u32, string: String },
    TransferComplete,
    TransferCompleteResponse,
}

/// A CWMP SOAP envelope: an `id` header plus the RPC it carries.
pub struct Envelope {
    pub id: u64,
    pub rpc: Rpc,
}

impl Envelope {
    /// A fresh envelope with the given `id` header and an unfilled body.
    pub fn new(id: u64) -> (r: Envelope)
        ensures
            r.id == id,
            r.rpc is Empty,
    {
        Envelope { id, rpc: Rpc::Empty }
    }

    /// True of the RPCs a CPE may initiate mid-session; the driver answers
    /// each with its matching response envelope.
    pub open spec fn spec_is_cpe_initiated(self) -> bool {
        self.rpc is TransferComplete
    }

    /// The response envelope the driver returns for a CPE-initiated RPC,
    /// carrying the same `id` header.
    pub open spec fn spec_cpe_rpc_response(self) -> Envelope {
        Envelope { id: self.id, rpc: Rpc::TransferCompleteResponse }
    }

    /// Build the response to a CPE-initiated RPC, or `None` if this RPC is
    /// not one a CPE may initiate.
    pub fn cpe_rpc_response(&self) -> (r: Option<Envelope>)
        ensures
            self.spec_is_cpe_initiated() ==> r == Some(self.spec_cpe_rpc_response()),
            !self.spec_is_cpe_initiated() ==> r is None,
    {
        match self.rpc {
            Rpc::TransferComplete => Some(Envelope { id: self.id, rpc: Rpc::TransferCompleteResponse }),
            _ => None,
        }
    }
}

} // verus!
