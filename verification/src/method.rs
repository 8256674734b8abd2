//! The request methods the bridge can issue.

use vstd::prelude::*;
use crate::text::same_text;

verus! {

/// A request method. Only these four are ever sent.
#[derive(Clone, Copy, Debug, PartialEq, Eq, Structural)]
pub enum Method {
    Get,
    Post,
    Put,
    Delete,
}

/// The token that names `method` on the wire: upper case, exact.
pub open spec fn token_of(method: Method) -> Seq<char> {
    match method {
        Method::Get => "GET"@,
        Method::Post => "POST"@,
        Method::Put => "PUT"@,
        Method::Delete => "DELETE"@,
    }
}

/// The method that `token` names, if it names one. The match is case-sensitive.
pub open spec fn method_named(token: Seq<char>) -> Option<Method> {
    if token == "GET"@ {
        Some(Method::Get)
    } else if token == "POST"@ {
        Some(Method::Post)
    } else if token == "PUT"@ {
        Some(Method::Put)
    } else if token == "DELETE"@ {
        Some(Method::Delete)
    } else {
        None
    }
}

/// Whether `token` is one of the four recognised method tokens.
pub open spec fn is_recognized(token: Seq<char>) -> bool {
    method_named(token).is_some()
}

impl Method {
    /// Reads a method token. Anything but the four exact tokens gives `None`.
    pub fn parse(token: &str) -> (parsed: Option<Method>)
        ensures
            parsed == method_named(token@),
    {
        if same_text(token, "GET") {
            Some(Method::Get)
        } else if same_text(token, "POST") {
            Some(Method::Post)
        } else if same_text(token, "PUT") {
            Some(Method::Put)
        } else if same_text(token, "DELETE") {
            Some(Method::Delete)
        } else {
            None
        }
    }

    /// The token of this method.
    pub fn token(&self) -> (token: &'static str)
        ensures
            token@ == token_of(*self),
    {
        match self {
            Method::Get => "GET",
            Method::Post => "POST",
            Method::Put => "PUT",
            Method::Delete => "DELETE",
        }
    }
}

/// The four tokens are pairwise distinct, so each method is read back from
/// its own token, and a token that is read names exactly its method.
pub proof fn lemma_token_round_trip(method: Method)
    ensures
        method_named(token_of(method)) == Some(method),
{
    reveal_strlit("GET");
    reveal_strlit("POST");
    reveal_strlit("PUT");
    reveal_strlit("DELETE");
    assert("GET"@.len() == 3 && "PUT"@.len() == 3 && "POST"@.len() == 4 && "DELETE"@.len() == 6);
    assert("GET"@[0] != "PUT"@[0]);
}

/// A token is recognised exactly when it is the token of some method.
pub proof fn lemma_recognized_iff_token(token: Seq<char>)
    ensures
        is_recognized(token) <==> exists|method: Method| token == #[trigger] token_of(method),
{
    if is_recognized(token) {
        let method = method_named(token).unwrap();
        assert(token == token_of(method));
    }
    if exists|method: Method| token == #[trigger] token_of(method) {
        let method = choose|method: Method| token == #[trigger] token_of(method);
        lemma_token_round_trip(method);
    }
}

} // verus!
