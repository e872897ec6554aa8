//! Validated names of endpoints, as carried in certificates and in the TLS
//! server name indication.

use vstd::prelude::*;
use vstd::utf8::encode_utf8;

verus! {

/// Whether `hostname` is a syntactically valid DNS name in the sense of
/// `webpki::DNSNameRef::try_from_ascii`.
pub uninterp spec fn is_dns_name(hostname: Seq<u8>) -> bool;

/// The byte `b`, with an ASCII capital letter replaced by its small letter.
pub open spec fn lower_byte(b: u8) -> u8 {
    if 0x41 <= b <= 0x5a {
        (b + 0x20) as u8
    } else {
        b
    }
}

/// The text that `bytes` spell in ASCII, in lower case.
pub open spec fn ascii_lowercase(bytes: Seq<u8>) -> Seq<char> {
    Seq::new(bytes.len(), |i: int| lower_byte(bytes[i]) as char)
}

/// The text that `bytes` spell in ASCII, letter for letter.
pub open spec fn ascii_text(bytes: Seq<u8>) -> Seq<char> {
    Seq::new(bytes.len(), |i: int| bytes[i] as char)
}

/// Whether no byte of `bytes` is an ASCII capital letter.
pub open spec fn has_no_capital(bytes: Seq<u8>) -> bool {
    forall|i: int| 0 <= i < bytes.len() ==> !(0x41 <= #[trigger] bytes[i] <= 0x5a)
}

/// Whether `hostname` ends in the label separator, a full stop.
pub open spec fn ends_with_dot(hostname: Seq<u8>) -> bool {
    hostname.len() > 0 && hostname.last() == 0x2e
}

/// Whether `name` ends in the label separator, a full stop.
pub open spec fn text_ends_with_dot(name: Seq<char>) -> bool {
    name.len() > 0 && name.last() == '.'
}

/// The name that a server name indication stands for, if any: none where it
/// ends in a separator or is no DNS name, else its text in lower case.
pub open spec fn sni_name(hostname: Seq<u8>) -> Option<Seq<char>> {
    if ends_with_dot(hostname) || !is_dns_name(hostname) {
        None
    } else {
        Some(ascii_lowercase(hostname))
    }
}

/// Whether `text` can be the name of an endpoint: a valid DNS name that does
/// not end in a separator.
pub open spec fn is_name(text: Seq<char>) -> bool {
    &&& is_dns_name(encode_utf8(text))
    &&& !text_ends_with_dot(text)
}

/// The input is not the name of an endpoint.
#[derive(Clone, Copy, Debug, PartialEq, Eq, Structural)]
pub struct InvalidName;

/// An endpoint's identity: a DNS name in lower case that does not end in a
/// separator.
#[derive(Debug, PartialEq, Eq, Hash)]
pub struct Name {
    name: String,
}

impl View for Name {
    type V = Seq<char>;

    closed spec fn view(&self) -> Seq<char> {
        self.name@
    }
}

/// Calls `webpki::DNSNameRef::try_from_ascii` and, on success,
/// `DNSNameRef::to_owned`. It succeeds exactly on the valid DNS names, and the
/// text it gives is the input in lower case, itself a valid DNS name.
#[verifier::external_body]
fn parse_dns_name(hostname: &[u8]) -> (r: Option<String>)
    ensures
        r is Some <==> is_dns_name(hostname@),
        r is Some ==> r.unwrap()@ == ascii_lowercase(hostname@),
        r is Some ==> is_dns_name(encode_utf8(r.unwrap()@)),
{
    match webpki::DNSNameRef::try_from_ascii(hostname) {
        Ok(name) => {
            let owned = name.to_owned();
            let text: &str = AsRef::<str>::as_ref(&owned);
            Some(String::from(text))
        },
        Err(_) => None,
    }
}

impl Clone for Name {
    fn clone(&self) -> (r: Self)
        ensures
            r@ == self@,
    {
        proof {
            use_type_invariant(self);
        }
        Name { name: self.name.clone() }
    }
}

impl Name {
    /// A name is a valid DNS name and does not end in a separator.
    pub open spec fn wf(&self) -> bool {
        is_name(self@)
    }

    #[verifier::type_invariant]
    pub(crate) open spec fn inv(&self) -> bool {
        self.wf()
    }

    /// The name that a server name indication stands for. Such a hostname is
    /// implicitly absolute, so one that ends in a separator is refused: to
    /// accept it would change the name it stands for.
    pub fn from_sni_hostname(hostname: &[u8]) -> (r: Result<Name, InvalidName>)
        ensures
            r is Ok <==> sni_name(hostname@) is Some,
            r is Ok ==> sni_name(hostname@) == Some(r.unwrap()@),
            r is Ok ==> r.unwrap().wf(),
    {
        let n: usize = hostname.len();
        if n > 0 && hostname[n - 1] == 0x2e {
            return Err(InvalidName);
        }
        match parse_dns_name(hostname) {
            Some(name) => {
                proof {
                    if n > 0 {
                        assert(name@.last() == lower_byte(hostname@[n - 1]) as char);
                    }
                }
                Ok(Name { name })
            },
            None => Err(InvalidName),
        }
    }

    /// The name as text.
    pub fn as_ref(&self) -> (r: &str)
        ensures
            r@ == self@,
            self.wf(),
    {
        proof {
            use_type_invariant(self);
        }
        self.name.as_str()
    }
}

/// A hostname that ends in a separator stands for no name.
pub proof fn lemma_trailing_separator_refused(hostname: Seq<u8>)
    requires
        ends_with_dot(hostname),
    ensures
        sni_name(hostname) is None,
{
}

/// A valid hostname that neither ends in a separator nor holds a capital
/// letter stands for a name whose text is the hostname itself.
pub proof fn lemma_plain_hostname_kept(hostname: Seq<u8>)
    requires
        is_dns_name(hostname),
        !ends_with_dot(hostname),
        has_no_capital(hostname),
    ensures
        sni_name(hostname) == Some(ascii_text(hostname)),
{
    assert(ascii_lowercase(hostname) =~= ascii_text(hostname));
}

} // verus!
