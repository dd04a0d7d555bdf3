use vstd::prelude::*;

verus! {

/// Process-wide configuration: the shared secret used as the HMAC key.
pub struct Config {
    pub secret: Vec<u8>,
}

/// One request header, as received: its name and its raw value bytes.
pub struct Header {
    pub name: String,
    pub value: Vec<u8>,
}

/// What the transport hands over for one request. The body is kept as the
/// exact bytes received.
pub struct RequestSnapshot {
    pub method: String,
    pub path: String,
    pub headers: Vec<Header>,
    pub body: Vec<u8>,
}

impl Config {
    pub fn new(secret: Vec<u8>) -> (r: Config)
        ensures
            r.secret@ == secret@,
    {
        Config { secret }
    }
}

impl Header {
    pub fn new(name: String, value: Vec<u8>) -> (r: Header)
        ensures
            r.name@ == name@,
            r.value@ == value@,
    {
        Header { name, value }
    }
}

impl RequestSnapshot {
    pub fn new(method: String, path: String, headers: Vec<Header>, body: Vec<u8>) -> (r:
        RequestSnapshot)
        ensures
            r.method@ == method@,
            r.path@ == path@,
            r.headers@ == headers@,
            r.body@ == body@,
    {
        RequestSnapshot { method, path, headers, body }
    }
}

} // verus!
