//! The HTTP methods a request may use, and how a caller's text names one.

use vstd::prelude::*;
use crate::text::{to_uppercase, uppercase};

verus! {

/// The methods the backend forwards. Any other is refused.
#[derive(Clone, Copy, Debug, PartialEq, Eq, Structural)]
pub enum Method {
    Get,
    Post,
    Put,
    Patch,
    Delete,
}

impl Method {
    /// The method's name as it goes on the wire.
    pub open spec fn spec_name(self) -> Seq<char> {
        match self {
            Method::Get => "GET"@,
            Method::Post => "POST"@,
            Method::Put => "PUT"@,
            Method::Patch => "PATCH"@,
            Method::Delete => "DELETE"@,
        }
    }

    /// The method's name as it goes on the wire.
    pub fn name(self) -> (text: &'static str)
        ensures
            text@ == self.spec_name(),
    {
        match self {
            Method::Get => "GET",
            Method::Post => "POST",
            Method::Put => "PUT",
            Method::Patch => "PATCH",
            Method::Delete => "DELETE",
        }
    }
}

/// The method that an upper-case text names, if it names one.
pub open spec fn method_named(upper: Seq<char>) -> Option<Method> {
    if upper == "GET"@ {
        Some(Method::Get)
    } else if upper == "POST"@ {
        Some(Method::Post)
    } else if upper == "PUT"@ {
        Some(Method::Put)
    } else if upper == "PATCH"@ {
        Some(Method::Patch)
    } else if upper == "DELETE"@ {
        Some(Method::Delete)
    } else {
        None
    }
}

/// The method that a caller's text names, whatever its case: the text is
/// brought to upper case first.
pub open spec fn method_of(text: Seq<char>) -> Option<Method> {
    method_named(uppercase(text))
}

/// Whether two texts are the same, character by character.
fn same_text(a: &str, b: &str) -> (same: bool)
    ensures
        same == (a@ == b@),
{
    String::from_str(a) == String::from_str(b)
}

/// Recognizes a method by its exact upper-case name.
pub fn method_from_uppercase(upper: &str) -> (method: Option<Method>)
    ensures
        method == method_named(upper@),
{
    if same_text(upper, "GET") {
        Some(Method::Get)
    } else if same_text(upper, "POST") {
        Some(Method::Post)
    } else if same_text(upper, "PUT") {
        Some(Method::Put)
    } else if same_text(upper, "PATCH") {
        Some(Method::Patch)
    } else if same_text(upper, "DELETE") {
        Some(Method::Delete)
    } else {
        None
    }
}

/// Recognizes a method by name, ignoring case.
pub fn parse_method(text: &str) -> (method: Option<Method>)
    ensures
        method == method_of(text@),
{
    let upper = to_uppercase(text);
    method_from_uppercase(upper.as_str())
}

/// Every method is recognized by its own name, and by no other method's.
pub proof fn lemma_name_round_trip(method: Method)
    ensures
        method_named(method.spec_name()) == Some(method),
{
    reveal_strlit("GET");
    reveal_strlit("POST");
    reveal_strlit("PUT");
    reveal_strlit("PATCH");
    reveal_strlit("DELETE");
    // The names differ in length, but for GET and PUT, which differ in
    // their first letter.
    assert("GET"@.len() == 3 && "PUT"@.len() == 3 && "GET"@[0] != "PUT"@[0]);
    assert("POST"@.len() == 4 && "PATCH"@.len() == 5 && "DELETE"@.len() == 6);
}

} // verus!
