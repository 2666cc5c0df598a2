//! The credentials that identify a caller to the Twelve API.
use vstd::prelude::*;

verus! {

/// A caller's private key, public key and client id. The private key only
/// feeds request signatures; the other two are sent as they are.
#[derive(Debug)]
pub struct TwelveClient {
    pub privatekey: String,
    pub publickey: String,
    pub clientid: i32,
}

impl TwelveClient {
    /// Build a new client containing a private key, a public key and clientid.
    /// The keys are kept exactly as given.
    pub fn new(privatekey: String, publickey: String, clientid: i32) -> (r: TwelveClient)
        ensures
            r.privatekey@ == privatekey@,
            r.publickey@ == publickey@,
            r.clientid == clientid,
    {
        TwelveClient { privatekey, publickey, clientid }
    }
}

impl PartialEq for TwelveClient {
    fn eq(&self, o: &TwelveClient) -> (r: bool)
        ensures
            r == (self.privatekey@ == o.privatekey@ && self.publickey@ == o.publickey@
                && self.clientid == o.clientid),
    {
        self.privatekey == o.privatekey && self.publickey == o.publickey && self.clientid
            == o.clientid
    }
}

impl vstd::std_specs::cmp::PartialEqSpecImpl for TwelveClient {
    open spec fn obeys_eq_spec() -> bool {
        true
    }

    open spec fn eq_spec(&self, o: &TwelveClient) -> bool {
        self.privatekey@ == o.privatekey@ && self.publickey@ == o.publickey@ && self.clientid
            == o.clientid
    }
}

} // verus!
