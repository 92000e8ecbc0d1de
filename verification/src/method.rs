use vstd::prelude::*;

verus! {

/// A character allowed in an HTTP method token: the `tchar` set of the HTTP
/// grammar (RFC 9110): letters, digits, and a fixed set of punctuation marks.
pub open spec fn is_token_char(c: char) -> bool {
    ||| ('0' <= c && c <= '9')
    ||| ('a' <= c && c <= 'z')
    ||| ('A' <= c && c <= 'Z')
    ||| c == '!' || c == '#' || c == '$' || c == '%' || c == '&'
    ||| c == '\'' || c == '*' || c == '+' || c == '-' || c == '.'
    ||| c == '^' || c == '_' || c == '`' || c == '|' || c == '~'
}

/// A recognized HTTP method string: a nonempty run of token characters.
/// Standard verbs such as `GET` and `POST` satisfy this, as does any
/// extension method the transport accepts.
pub open spec fn is_method_token(s: Seq<char>) -> bool {
    &&& s.len() > 0
    &&& forall|i: int| 0 <= i < s.len() ==> is_token_char(s[i])
}

/// Relies on `reqwest::Method::from_str` (the `http` crate's `Method`): it
/// accepts exactly the nonempty strings of token characters — the known verbs
/// by name, every other such string as an extension method — and rejects the
/// empty string and any string holding a byte outside the token table
/// (every non-ASCII character encodes to such bytes).
#[verifier::external_body]
pub(crate) fn method_is_recognized(s: &str) -> (r: bool)
    ensures
        r == is_method_token(s@),
{
    s.parse::<reqwest::Method>().is_ok()
}

} // verus!
