//! Server names as a client sends them.

use vstd::prelude::*;

verus! {

/// Whether webpki takes `name` for a syntactically valid DNS name: the names
/// of RFC 5280, section 7.2, with underscores allowed as well.
pub uninterp spec fn valid_dns_name(name: Seq<char>) -> bool;

/// The characters that DNS names are written in.
pub open spec fn is_dns_name_char(c: char) -> bool {
    ||| 'a' <= c <= 'z'
    ||| 'A' <= c <= 'Z'
    ||| '0' <= c <= '9'
    ||| c == '-'
    ||| c == '_'
    ||| c == '.'
}

/// What every valid DNS name has: between 1 and 253 characters, each one of
/// those that DNS names are written in.
pub open spec fn has_dns_name_shape(name: Seq<char>) -> bool {
    &&& 1 <= name.len() <= 253
    &&& forall|i: int| 0 <= i < name.len() ==> is_dns_name_char(#[trigger] name[i])
}

/// Asks `webpki::DnsNameRef::try_from_ascii_str` whether `name` is a
/// syntactically valid DNS name.
///
/// The answer depends on the text alone. webpki refuses the empty name, a
/// name of more than 253 bytes, and a name with a byte other than a letter,
/// a digit, `-`, `_` or `.`; its further rules on labels are not restated.
#[verifier::external_body]
fn is_valid_dns_name(name: &str) -> (ok: bool)
    ensures
        ok == valid_dns_name(name@),
        ok ==> has_dns_name_shape(name@),
{
    webpki::DnsNameRef::try_from_ascii_str(name).is_ok()
}

/// A server name that is known to be a syntactically valid DNS name.
#[derive(Debug)]
pub struct DnsName {
    name: String,
}

impl View for DnsName {
    type V = Seq<char>;

    closed spec fn view(&self) -> Seq<char> {
        self.name@
    }
}

impl DnsName {
    #[verifier::type_invariant]
    spec fn checked(self) -> bool {
        valid_dns_name(self.name@)
    }

    /// The name `name`, if it is a syntactically valid DNS name.
    pub fn try_from_ascii_str(name: &str) -> (checked: Option<DnsName>)
        ensures
            checked.is_some() == valid_dns_name(name@),
            checked matches Some(n) ==> n@ == name@,
            checked.is_some() ==> has_dns_name_shape(name@),
    {
        if is_valid_dns_name(name) {
            Some(DnsName { name: name.to_owned() })
        } else {
            None
        }
    }

    /// The name as text.
    pub fn as_str(&self) -> (text: &str)
        ensures
            text@ == self@,
            valid_dns_name(text@),
    {
        proof {
            use_type_invariant(self);
        }
        self.name.as_str()
    }
}

} // verus!
