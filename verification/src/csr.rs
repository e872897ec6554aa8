//! Certificate signing requests.

use vstd::prelude::*;

verus! {

/// A DER-encoded X.509 certificate signing request. It is never empty.
#[derive(Debug)]
pub struct CSR {
    der: Vec<u8>,
}

impl View for CSR {
    type V = Seq<u8>;

    closed spec fn view(&self) -> Seq<u8> {
        self.der@
    }
}

impl Clone for CSR {
    fn clone(&self) -> (r: Self)
        ensures
            r@ == self@,
    {
        proof {
            use_type_invariant(self);
        }
        CSR { der: self.der.clone() }
    }
}

impl CSR {
    /// A request holds at least one byte.
    pub open spec fn wf(&self) -> bool {
        self@.len() > 0
    }

    #[verifier::type_invariant]
    spec fn inv(&self) -> bool {
        self.wf()
    }

    /// Wraps the bytes of a request. An empty input is no request.
    pub fn from_der(der: Vec<u8>) -> (r: Option<CSR>)
        ensures
            r is Some <==> der@.len() > 0,
            r is Some ==> r.unwrap()@ == der@ && r.unwrap().wf(),
    {
        if der.len() == 0 {
            return None;
        }
        Some(CSR { der })
    }

    /// A copy of the bytes that the request was made from.
    pub fn to_vec(&self) -> (r: Vec<u8>)
        ensures
            r@ == self@,
            r@.len() > 0,
    {
        proof {
            use_type_invariant(self);
        }
        self.der.clone()
    }
}

} // verus!
