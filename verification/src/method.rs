use crate::text::same_text;
use vstd::prelude::*;
use vstd::string::StringExecFns;

verus! {

/// Represents an HTTP method.
#[derive(Clone, Copy, Debug, PartialEq, Eq, Structural)]
pub enum Method {
    GET,
    HEAD,
    POST,
    PUT,
    DELETE,
    CONNECT,
    OPTIONS,
    TRACE,
    PATCH,
}

/// The text with which an unknown method name is turned down: a fixed
/// sentence, then the name as it was given.
pub open spec fn invalid_method_message(input: Seq<char>) -> Seq<char> {
    "Invalid HTTP method "@ + input
}

impl Method {
    /// The name of the method, in upper case.
    pub open spec fn name(self) -> Seq<char> {
        match self {
            Method::GET => "GET"@,
            Method::HEAD => "HEAD"@,
            Method::POST => "POST"@,
            Method::PUT => "PUT"@,
            Method::DELETE => "DELETE"@,
            Method::CONNECT => "CONNECT"@,
            Method::OPTIONS => "OPTIONS"@,
            Method::TRACE => "TRACE"@,
            Method::PATCH => "PATCH"@,
        }
    }

    /// The method that `input` names, if it names one.
    pub open spec fn named(input: Seq<char>) -> Option<Method> {
        if input == "GET"@ {
            Some(Method::GET)
        } else if input == "HEAD"@ {
            Some(Method::HEAD)
        } else if input == "POST"@ {
            Some(Method::POST)
        } else if input == "PUT"@ {
            Some(Method::PUT)
        } else if input == "DELETE"@ {
            Some(Method::DELETE)
        } else if input == "CONNECT"@ {
            Some(Method::CONNECT)
        } else if input == "OPTIONS"@ {
            Some(Method::OPTIONS)
        } else if input == "TRACE"@ {
            Some(Method::TRACE)
        } else if input == "PATCH"@ {
            Some(Method::PATCH)
        } else {
            None
        }
    }

    /// The name as a string slice.
    pub fn as_str(&self) -> (r: &'static str)
        ensures
            r@ == self.name(),
    {
        match self {
            Method::GET => "GET",
            Method::HEAD => "HEAD",
            Method::POST => "POST",
            Method::PUT => "PUT",
            Method::DELETE => "DELETE",
            Method::CONNECT => "CONNECT",
            Method::OPTIONS => "OPTIONS",
            Method::TRACE => "TRACE",
            Method::PATCH => "PATCH",
        }
    }

    /// The name as an owned string.
    pub fn to_string(&self) -> (r: String)
        ensures
            r@ == self.name(),
    {
        String::from_str(self.as_str())
    }

    /// Reads a method name. The name is matched exactly: case matters and
    /// nothing is trimmed.
    pub fn from_str(input: &str) -> (r: Result<Method, String>)
        ensures
            match r {
                Ok(m) => Method::named(input@) == Some(m),
                Err(e) => Method::named(input@).is_none() && e@ == invalid_method_message(input@),
            },
    {
        if same_text(input, "GET") {
            Ok(Method::GET)
        } else if same_text(input, "HEAD") {
            Ok(Method::HEAD)
        } else if same_text(input, "POST") {
            Ok(Method::POST)
        } else if same_text(input, "PUT") {
            Ok(Method::PUT)
        } else if same_text(input, "DELETE") {
            Ok(Method::DELETE)
        } else if same_text(input, "CONNECT") {
            Ok(Method::CONNECT)
        } else if same_text(input, "OPTIONS") {
            Ok(Method::OPTIONS)
        } else if same_text(input, "TRACE") {
            Ok(Method::TRACE)
        } else if same_text(input, "PATCH") {
            Ok(Method::PATCH)
        } else {
            let mut message = String::from_str("Invalid HTTP method ");
            message.append(input);
            Err(message)
        }
    }

    /// Every method is read back from its own name.
    pub proof fn lemma_name_round_trip(m: Method)
        ensures
            Method::named(m.name()) == Some(m),
    {
        reveal_strlit("GET");
        reveal_strlit("HEAD");
        reveal_strlit("POST");
        reveal_strlit("PUT");
        reveal_strlit("DELETE");
        reveal_strlit("CONNECT");
        reveal_strlit("OPTIONS");
        reveal_strlit("TRACE");
        reveal_strlit("PATCH");
        assert("GET"@.len() == 3);
        assert("PUT"@.len() == 3);
        assert("GET"@[0] == 'G');
        assert("PUT"@[0] == 'P');
        assert("HEAD"@.len() == 4);
        assert("POST"@.len() == 4);
        assert("HEAD"@[0] == 'H');
        assert("POST"@[0] == 'P');
        assert("TRACE"@.len() == 5);
        assert("PATCH"@.len() == 5);
        assert("TRACE"@[0] == 'T');
        assert("PATCH"@[0] == 'P');
        assert("DELETE"@.len() == 6);
        assert("CONNECT"@.len() == 7);
        assert("OPTIONS"@.len() == 7);
        assert("CONNECT"@[0] == 'C');
        assert("OPTIONS"@[0] == 'O');
    }

    /// A text names a method exactly when it is that method's name.
    pub proof fn lemma_named_is_name(input: Seq<char>, m: Method)
        ensures
            Method::named(input) == Some(m) <==> input == m.name(),
    {
        Method::lemma_name_round_trip(m);
    }
}

} // verus!
