//! Where an endpoint's token is kept. Reading the file is the caller's
//! business; what was read is judged here.

use vstd::prelude::*;

verus! {

/// The token file holds nothing.
#[derive(Clone, Copy, Debug, PartialEq, Eq, Structural)]
pub struct EmptyToken;

impl EmptyToken {
    /// The fixed text under which the failure is reported.
    pub fn message(&self) -> (r: &'static str)
        ensures
            r@ == "token is empty"@,
    {
        "token is empty"
    }
}

/// The path of the file that holds an endpoint's token.
#[derive(Clone, Debug)]
pub struct TokenSource {
    path: String,
}

impl View for TokenSource {
    type V = Seq<char>;

    closed spec fn view(&self) -> Seq<char> {
        self.path@
    }
}

impl TokenSource {
    /// The source at path `p`, given what was read there just now: no
    /// source where the file holds nothing.
    pub fn if_nonempty_file(p: String, contents: Vec<u8>) -> (r: Result<TokenSource, EmptyToken>)
        ensures
            r is Ok <==> contents@.len() > 0,
            r is Ok ==> r.unwrap()@ == p@,
    {
        let ts = TokenSource { path: p };
        match ts.load(contents) {
            Ok(_) => Ok(ts),
            Err(e) => Err(e),
        }
    }

    /// The token, given what was read from the file: an empty file holds no
    /// token.
    pub fn load(&self, contents: Vec<u8>) -> (r: Result<Vec<u8>, EmptyToken>)
        ensures
            r is Ok <==> contents@.len() > 0,
            r is Ok ==> r.unwrap() == contents,
    {
        if contents.len() == 0 {
            return Err(EmptyToken);
        }
        Ok(contents)
    }

    /// The path of the file.
    pub fn path(&self) -> (r: &str)
        ensures
            r@ == self@,
    {
        self.path.as_str()
    }
}

} // verus!
