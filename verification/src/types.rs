//! Plain data types exchanged with the Board API.

use vstd::prelude::*;

verus! {

/// A device code used to authenticate requests.
#[derive(Debug, Clone, PartialEq, Eq)]
pub struct DeviceCode(pub String);

impl View for DeviceCode {
    type V = Seq<char>;

    open spec fn view(&self) -> Seq<char> {
        self.0@
    }
}

impl DeviceCode {
    /// Creates a device code from a string.
    pub fn new(code: String) -> (r: Self)
        ensures
            r@ == code@,
    {
        DeviceCode(code)
    }

    /// The device code as a string slice.
    pub fn as_str(&self) -> (r: &str)
        ensures
            r@ == self@,
    {
        self.0.as_str()
    }

    /// The text that displaying this device code shows: the code itself.
    pub fn to_string(&self) -> (r: String)
        ensures
            r@ == self@,
    {
        self.0.clone()
    }
}

impl From<String> for DeviceCode {
    fn from(code: String) -> (r: Self) {
        DeviceCode(code)
    }
}

impl vstd::std_specs::convert::FromSpecImpl<String> for DeviceCode {
    open spec fn obeys_from_spec() -> bool {
        true
    }

    open spec fn from_spec(v: String) -> Self {
        DeviceCode(v)
    }
}

impl<'a> From<&'a str> for DeviceCode {
    fn from(code: &'a str) -> (r: Self)
        ensures
            r@ == code@,
    {
        DeviceCode(code.to_owned())
    }
}

impl<'a> vstd::std_specs::convert::FromSpecImpl<&'a str> for DeviceCode {
    open spec fn obeys_from_spec() -> bool {
        false
    }

    open spec fn from_spec(v: &'a str) -> Self {
        DeviceCode(arbitrary())
    }
}

/// The identifier of a paste.
#[derive(Debug, Clone, PartialEq, Eq)]
pub struct PasteId(pub String);

impl View for PasteId {
    type V = Seq<char>;

    open spec fn view(&self) -> Seq<char> {
        self.0@
    }
}

impl PasteId {
    /// Creates a paste ID from a string.
    pub fn new(id: String) -> (r: Self)
        ensures
            r@ == id@,
    {
        PasteId(id)
    }

    /// The paste ID as a string slice.
    pub fn as_str(&self) -> (r: &str)
        ensures
            r@ == self@,
    {
        self.0.as_str()
    }

    /// The text that displaying this paste ID shows: the ID itself.
    pub fn to_string(&self) -> (r: String)
        ensures
            r@ == self@,
    {
        self.0.clone()
    }
}

impl From<String> for PasteId {
    fn from(id: String) -> (r: Self) {
        PasteId(id)
    }
}

impl vstd::std_specs::convert::FromSpecImpl<String> for PasteId {
    open spec fn obeys_from_spec() -> bool {
        true
    }

    open spec fn from_spec(v: String) -> Self {
        PasteId(v)
    }
}

impl<'a> From<&'a str> for PasteId {
    fn from(id: &'a str) -> (r: Self)
        ensures
            r@ == id@,
    {
        PasteId(id.to_owned())
    }
}

impl<'a> vstd::std_specs::convert::FromSpecImpl<&'a str> for PasteId {
    open spec fn obeys_from_spec() -> bool {
        false
    }

    open spec fn from_spec(v: &'a str) -> Self {
        PasteId(arbitrary())
    }
}

/// A paste stored on the Board API.
#[derive(Debug, Clone)]
pub struct Paste {
    /// The unique identifier of this paste.
    pub id: PasteId,
    /// The content of the paste.
    pub content: String,
    /// The URL at which the paste can be read.
    pub url: String,
}

impl Paste {
    /// Creates a paste from its parts.
    pub fn new(id: PasteId, content: String, url: String) -> (r: Self)
        ensures
            r == (Paste { id, content, url }),
    {
        Paste { id, content, url }
    }
}

/// What the root endpoint of the API describes of itself.
#[derive(Debug, Clone)]
pub struct ApiInfo {
    /// Service description message.
    pub message: String,
    /// The endpoints that the API offers.
    pub endpoints: Vec<EndpointInfo>,
}

/// One endpoint of the API.
#[derive(Debug, Clone)]
pub struct EndpointInfo {
    /// HTTP method (GET, POST, PUT, ...).
    pub method: String,
    /// URL path of the endpoint.
    pub path: String,
    /// What the endpoint does.
    pub description: String,
}

/// The body of an error response of the API.
#[derive(Debug, Clone)]
pub struct ApiError {
    /// Error message.
    pub error: String,
    /// HTTP status code.
    pub status: u16,
}

} // verus!
