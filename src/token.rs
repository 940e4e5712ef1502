use vstd::prelude::*;

verus! {

/// The credentials that an authentication hands out: an access token and a
/// refresh token, both opaque.
#[derive(Debug)]
pub struct Token {
    jwt: String,
    refresh: String,
}

impl View for Token {
    type V = (Seq<char>, Seq<char>);

    closed spec fn view(&self) -> (Seq<char>, Seq<char>) {
        (self.jwt@, self.refresh@)
    }
}

impl Token {
    pub fn new(jwt: String, refresh: String) -> (r: Token)
        ensures
            r@ == (jwt@, refresh@),
    {
        Token { jwt, refresh }
    }

    pub fn jwt(&self) -> (r: &String)
        ensures
            r@ == self@.0,
    {
        &self.jwt
    }

    pub fn refresh(&self) -> (r: &String)
        ensures
            r@ == self@.1,
    {
        &self.refresh
    }
}

} // verus!
