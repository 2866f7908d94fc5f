//! The IPFS HTTP API as the nodes use it: the endpoint of each operation and
//! which responses count as failures. Sending the requests is the caller's part.

use vstd::prelude::*;
use crate::text::{chars_of, push_str, string_from_chars};

verus! {

/// Drops the trailing slashes, as `trim_end_matches('/')` does.
pub open spec fn trim_trailing_slashes(s: Seq<char>) -> Seq<char>
    decreases s.len(),
{
    if s.len() > 0 && s.last() == '/' {
        trim_trailing_slashes(s.drop_last())
    } else {
        s
    }
}

/// A client of an IPFS node's HTTP API.
#[derive(Clone, Debug)]
pub struct IpfsClient {
    pub base_url: String,
}

/// An operation of the API.
#[derive(Clone, Copy, Debug, PartialEq, Eq, Structural)]
pub enum IpfsOp {
    Add,
    Cat,
    Pin,
    Unpin,
}

/// A failed request: the operation and the node's answer.
#[derive(Clone, Debug)]
pub struct IpfsError {
    pub op: IpfsOp,
    pub message: String,
}

impl IpfsClient {
    /// A client of the node at `url`, without trailing slashes.
    pub fn new(url: &str) -> (c: Self)
        ensures
            c.base_url@ == trim_trailing_slashes(url@),
    {
        let v = chars_of(url);
        let mut k: usize = v.len();
        assert(v@.subrange(0, k as int) =~= v@);
        while k > 0 && v[k - 1] == '/'
            invariant
                k <= v@.len(),
                trim_trailing_slashes(v@) == trim_trailing_slashes(v@.subrange(0, k as int)),
            decreases k,
        {
            assert(v@.subrange(0, k as int).drop_last() =~= v@.subrange(0, k - 1));
            k = k - 1;
        }
        assert(trim_trailing_slashes(v@.subrange(0, k as int)) == v@.subrange(0, k as int));
        let mut t: Vec<char> = Vec::new();
        let mut i: usize = 0;
        while i < k
            invariant
                k <= v@.len(),
                i <= k,
                t@ == v@.subrange(0, i as int),
            decreases k - i,
        {
            t.push(v[i]);
            assert(v@.subrange(0, i as int).push(v@[i as int]) =~= v@.subrange(0, i + 1));
            i = i + 1;
        }
        IpfsClient { base_url: string_from_chars(&t) }
    }

    /// The endpoint that adds and pins data.
    pub fn add_url(&self) -> (u: String)
        ensures
            u@ == self.base_url@ + "/api/v0/add?pin=true"@,
    {
        let mut u = self.base_url.clone();
        push_str(&mut u, "/api/v0/add?pin=true");
        u
    }

    /// The endpoint that reads the data of a CID.
    pub fn cat_url(&self, cid: &str) -> (u: String)
        ensures
            u@ == self.base_url@ + "/api/v0/cat?arg="@ + cid@,
    {
        let mut u = self.base_url.clone();
        push_str(&mut u, "/api/v0/cat?arg=");
        push_str(&mut u, cid);
        u
    }

    /// The endpoint that pins a CID, recursively.
    pub fn pin_url(&self, cid: &str) -> (u: String)
        ensures
            u@ == self.base_url@ + "/api/v0/pin/add?arg="@ + cid@ + "&recursive=true"@,
    {
        let mut u = self.base_url.clone();
        push_str(&mut u, "/api/v0/pin/add?arg=");
        push_str(&mut u, cid);
        push_str(&mut u, "&recursive=true");
        u
    }

    /// The endpoint that unpins a CID.
    pub fn unpin_url(&self, cid: &str) -> (u: String)
        ensures
            u@ == self.base_url@ + "/api/v0/pin/rm?arg="@ + cid@,
    {
        let mut u = self.base_url.clone();
        push_str(&mut u, "/api/v0/pin/rm?arg=");
        push_str(&mut u, cid);
        u
    }
}

/// The outcome of a response: a failure status fails adding, reading and
/// pinning, with the node's answer; unpinning never fails, since the CID
/// may not have been pinned.
pub fn check_response(op: IpfsOp, success: bool, answer: String) -> (r: Result<(), IpfsError>)
    ensures
        r is Ok <==> (success || op == IpfsOp::Unpin),
        r matches Err(e) ==> e.op == op && e.message == answer,
{
    if success || op == IpfsOp::Unpin {
        Ok(())
    } else {
        Err(IpfsError { op, message: answer })
    }
}

} // verus!
