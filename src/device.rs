//! Device identities and how a request is matched against them.
use vstd::prelude::*;
use crate::error::SessionError;
use crate::fingerprint::{device_fingerprint, fingerprint};
use crate::interface;
use crate::request::{classify, classify_spec, contains_nul, driver_accepts, Request, RequestView};

verus! {

/// What `str::trim` returns for a string with these characters.
pub uninterp spec fn trimmed(s: Seq<char>) -> Seq<char>;

/// Whether `c` is ASCII white space: tab, line feed, vertical tab, form feed, carriage
/// return or space.
pub open spec fn is_ascii_space(c: char) -> bool {
    (9 <= c as u32 <= 13) || c as u32 == 32
}

/// Whether `c` is an ASCII character other than white space.
pub open spec fn is_ascii_non_space(c: char) -> bool {
    c as u32 <= 127 && !is_ascii_space(c)
}

/// `t` is a contiguous part of `s`; what is cut off holds no ASCII character but white
/// space, and `t` neither starts nor ends with ASCII white space.
pub open spec fn trim_shape(s: Seq<char>, t: Seq<char>) -> bool {
    &&& exists|i: int, j: int|
        0 <= i <= j <= s.len() && t == s.subrange(i, j) && (forall|k: int|
            (0 <= k < i || j <= k < s.len()) ==> !is_ascii_non_space(#[trigger] s[k]))
    &&& t.len() > 0 ==> !is_ascii_space(t[0]) && !is_ascii_space(t.last())
}

/// Relies on `str::trim`: the string without leading and trailing Unicode White_Space,
/// which depends on its characters alone. The result is a contiguous part of the input;
/// what is cut off holds no ASCII character but white space, and the result neither
/// starts nor ends with ASCII white space.
#[verifier::external_body]
fn trim(s: &str) -> (r: &str)
    ensures
        r@ == trimmed(s@),
        trim_shape(s@, r@),
{
    s.trim()
}

/// Whether two product names are equal once white space at either end is ignored.
pub fn same_name(a: &str, b: &str) -> (r: bool)
    ensures
        r == (trimmed(a@) == trimmed(b@)),
        trim_shape(a@, trimmed(a@)),
        trim_shape(b@, trimmed(b@)),
{
    let ta = trim(a).to_owned();
    let tb = trim(b).to_owned();
    ta == tb
}

/// A device present at enumeration time, with its fingerprint.
#[derive(Debug)]
pub struct DeviceData {
    pub product_key: String,
    pub vendor_id: u32,
    pub product_id: u32,
    pub hash: u64,
}

impl DeviceData {
    /// The fingerprint is the one computed from the other fields.
    pub open spec fn wf(&self) -> bool {
        self.hash == device_fingerprint(self.vendor_id, self.product_id, self.product_key@)
    }

    /// Whether this device answers to the request.
    pub open spec fn matches_spec(&self, q: RequestView) -> bool {
        match q {
            RequestView::Wildcard => true,
            RequestView::Fingerprint(h) => h == self.hash,
            RequestView::Name(n) => trimmed(n) == trimmed(self.product_key@),
        }
    }

    /// The identity of a device with these fields; its fingerprint is computed.
    pub fn new(product_key: String, vendor_id: u32, product_id: u32) -> (r: DeviceData)
        ensures
            r.product_key@ == product_key@,
            r.vendor_id == vendor_id,
            r.product_id == product_id,
            r.wf(),
    {
        let hash = fingerprint(vendor_id, product_id, product_key.as_str());
        DeviceData { product_key, vendor_id, product_id, hash }
    }

    /// The identity of a device as the driver listed it.
    pub fn from_listed(d: &interface::DeviceData) -> (r: DeviceData)
        ensures
            r.product_key@ == d.product_key@,
            r.vendor_id == d.vendor_id,
            r.product_id == d.product_id,
            r.wf(),
    {
        DeviceData::new(d.product_key.clone(), d.vendor_id, d.product_id)
    }

    /// Whether this device answers to a classified request: always for the wildcard,
    /// by equal fingerprint, or by equal product name once trimmed.
    pub fn matches(&self, request: &Request) -> (r: bool)
        ensures
            r == self.matches_spec(request@),
            request@ matches RequestView::Name(n) ==> trim_shape(n, trimmed(n)) && trim_shape(
                self.product_key@,
                trimmed(self.product_key@),
            ),
    {
        match request {
            Request::Wildcard => true,
            Request::Fingerprint(h) => *h == self.hash,
            Request::Name(n) => same_name(n.as_str(), self.product_key.as_str()),
        }
    }

    /// Whether this device answers to a request string; a malformed fingerprint
    /// request is an error.
    pub fn matches_request(&self, request: &str) -> (r: Result<bool, SessionError>)
        ensures
            match classify_spec(request@) {
                Some(q) => r == Ok::<bool, SessionError>(self.matches_spec(q)),
                None => r == Err::<bool, SessionError>(SessionError::MalformedFingerprintRequest),
            },
            classify_spec(request@) matches Some(RequestView::Name(n)) ==> trim_shape(n, trimmed(n))
                && trim_shape(self.product_key@, trimmed(self.product_key@)),
    {
        match classify(request) {
            Ok(q) => Ok(self.matches(&q)),
            Err(e) => Err(e),
        }
    }
}

/// The identities of the devices the driver listed, in the same order.
pub fn identify_devices(listed: &Vec<interface::DeviceData>) -> (r: Vec<DeviceData>)
    ensures
        r@.len() == listed@.len(),
        forall|i: int|
            0 <= i < r@.len() ==> {
                &&& (#[trigger] r@[i]).product_key@ == listed@[i].product_key@
                &&& r@[i].vendor_id == listed@[i].vendor_id
                &&& r@[i].product_id == listed@[i].product_id
                &&& r@[i].wf()
            },
{
    let mut out: Vec<DeviceData> = Vec::new();
    let mut i: usize = 0;
    while i < listed.len()
        invariant
            i <= listed@.len(),
            out@.len() == i,
            forall|j: int|
                0 <= j < i ==> {
                    &&& (#[trigger] out@[j]).product_key@ == listed@[j].product_key@
                    &&& out@[j].vendor_id == listed@[j].vendor_id
                    &&& out@[j].product_id == listed@[j].product_id
                    &&& out@[j].wf()
                },
        decreases listed@.len() - i,
    {
        out.push(DeviceData::from_listed(&listed[i]));
        i = i + 1;
    }
    out
}

/// Whether a request names a device that is present: the wildcard always does,
/// otherwise some listed device must match.
pub open spec fn present_spec(q: RequestView, devices: Seq<DeviceData>) -> bool {
    q is Wildcard || exists|i: int| 0 <= i < devices.len() && (#[trigger] devices[i]).matches_spec(q)
}

/// Whether a classified request names a device among `devices`.
pub fn device_present(request: &Request, devices: &Vec<DeviceData>) -> (r: bool)
    ensures
        r == present_spec(request@, devices@),
{
    if let Request::Wildcard = request {
        return true;
    }
    let mut i: usize = 0;
    while i < devices.len()
        invariant
            i <= devices@.len(),
            !(request@ is Wildcard),
            forall|j: int| 0 <= j < i ==> !(#[trigger] devices@[j]).matches_spec(request@),
        decreases devices@.len() - i,
    {
        if devices[i].matches(request) {
            return true;
        }
        i = i + 1;
    }
    false
}


/// How to learn whether the device a request names is present.
#[derive(Debug)]
pub enum PresenceCheck {
    /// No call is needed: the wildcard names every device.
    Present,
    /// Look for this fingerprint among the devices the driver lists.
    ByDeviceList(u64),
    /// Ask the driver whether a device has this product name.
    ByDriver(String),
}

/// The mathematical model of a [`PresenceCheck`].
pub enum PresenceCheckView {
    Present,
    ByDeviceList(u64),
    ByDriver(Seq<char>),
}

impl View for PresenceCheck {
    type V = PresenceCheckView;

    open spec fn view(&self) -> PresenceCheckView {
        match self {
            PresenceCheck::Present => PresenceCheckView::Present,
            PresenceCheck::ByDeviceList(h) => PresenceCheckView::ByDeviceList(*h),
            PresenceCheck::ByDriver(n) => PresenceCheckView::ByDriver(n@),
        }
    }
}

/// The presence check that serves a classified request.
pub open spec fn presence_check_of(q: RequestView) -> PresenceCheckView {
    match q {
        RequestView::Wildcard => PresenceCheckView::Present,
        RequestView::Fingerprint(h) => PresenceCheckView::ByDeviceList(h),
        RequestView::Name(n) => PresenceCheckView::ByDriver(n),
    }
}

/// Picks how to check that a request names a present device: the wildcard needs no
/// driver call, a fingerprint needs the device list, a name goes to the driver. A name
/// holding a NUL character is refused before it reaches the driver.
pub fn presence_check(request: &str) -> (r: Result<PresenceCheck, SessionError>)
    ensures
        match classify_spec(request@) {
            Some(q) => if driver_accepts(q) {
                r matches Ok(c) && c@ == presence_check_of(q)
            } else {
                r == Err::<PresenceCheck, SessionError>(SessionError::NameContainsNul)
            },
            None => r == Err::<PresenceCheck, SessionError>(SessionError::MalformedFingerprintRequest),
        },
{
    match classify(request) {
        Ok(Request::Wildcard) => Ok(PresenceCheck::Present),
        Ok(Request::Fingerprint(h)) => Ok(PresenceCheck::ByDeviceList(h)),
        Ok(Request::Name(n)) => {
            if contains_nul(n.as_str()) {
                Err(SessionError::NameContainsNul)
            } else {
                Ok(PresenceCheck::ByDriver(n))
            }
        },
        Err(e) => Err(e),
    }
}

} // verus!
