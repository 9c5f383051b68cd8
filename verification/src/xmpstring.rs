//! The string that the native toolkit fills in for its callers.
use vstd::prelude::*;
use vstd::std_specs::cmp::PartialEqSpecImpl;
use vstd::string::StringSliceAdditionalSpecFns;
use vstd::utf8::{decode_utf8, encode_utf8_decode_utf8, valid_utf8};

verus! {

/// The text that a lossy decoding of `bytes` gives: each ill-formed part
/// replaced by U+FFFD.
pub uninterp spec fn lossy_text(bytes: Seq<u8>) -> Seq<char>;

/// `core::str::from_utf8`, with its error dropped: the bytes are handed back
/// as text exactly when they are well-formed UTF-8, and the text is then
/// those same bytes.
#[verifier::external_body]
fn utf8_checked(bytes: &[u8]) -> (r: Option<&str>)
    ensures
        r.is_some() <==> valid_utf8(bytes@),
        r matches Some(s) ==> s.spec_bytes() == bytes@,
{
    core::str::from_utf8(bytes).ok()
}

/// `String::from_utf8_lossy`, as an owned string: well-formed bytes decode
/// to their text unchanged; for any other bytes the result is only named.
#[verifier::external_body]
fn utf8_lossy(bytes: &[u8]) -> (r: String)
    ensures
        r@ == lossy_text(bytes@),
        valid_utf8(bytes@) ==> r@ == decode_utf8(bytes@),
{
    String::from_utf8_lossy(bytes).into_owned()
}

/// Whether two byte runs are the same.
pub fn same_bytes(a: &[u8], b: &[u8]) -> (r: bool)
    ensures
        r == (a@ == b@),
{
    if a.len() != b.len() {
        return false;
    }
    let mut i: usize = 0;
    while i < a.len()
        invariant
            a.len() == b.len(),
            i <= a.len(),
            forall|j: int| 0 <= j < i ==> a@[j] == b@[j],
        decreases a.len() - i,
    {
        if a[i] != b[i] {
            return false;
        }
        i += 1;
    }
    proof {
        assert(a@ =~= b@);
    }
    true
}

/// A string owned by its holder, as the native toolkit hands it out.
///
/// The native side allocates the buffer, so a string may be null: the state
/// that a failed allocation leaves. A null string reads as empty.
#[derive(Debug)]
pub struct XmpString {
    content: Option<Vec<u8>>,
}

impl XmpString {
    /// The bytes of the string, or `None` for the null string.
    pub closed spec fn view(&self) -> Option<Seq<u8>> {
        match self.content {
            Some(v) => Some(v@),
            None => None,
        }
    }

    /// The bytes that reading the string gives: none for the null string.
    pub open spec fn spec_bytes(&self) -> Seq<u8> {
        match self@ {
            Some(b) => b,
            None => Seq::empty(),
        }
    }

    /// The text of the string, where it is not null and its bytes are
    /// well-formed UTF-8.
    pub open spec fn spec_text(&self) -> Option<Seq<char>> {
        match self@ {
            Some(b) => if valid_utf8(b) {
                Some(decode_utf8(b))
            } else {
                None
            },
            None => None,
        }
    }

    /// An empty string, allocated and ready to be filled.
    pub fn new() -> (r: XmpString)
        ensures
            r@ == Some(Seq::<u8>::empty()),
    {
        XmpString { content: Some(Vec::new()) }
    }

    /// The null string.
    pub fn null() -> (r: XmpString)
        ensures
            r@.is_none(),
    {
        XmpString { content: None }
    }

    /// The string that holds `bytes`.
    pub fn from_bytes(bytes: Vec<u8>) -> (r: XmpString)
        ensures
            r@ == Some(bytes@),
    {
        XmpString { content: Some(bytes) }
    }

    /// Whether this is the null string.
    pub fn is_null(&self) -> (r: bool)
        ensures
            r == self@.is_none(),
    {
        self.content.is_none()
    }

    /// The bytes of the string; none for the null string.
    pub fn as_bytes(&self) -> (r: &[u8])
        ensures
            r@ == self.spec_bytes(),
    {
        match &self.content {
            Some(v) => v.as_slice(),
            None => &[],
        }
    }

    /// The length in bytes; zero for the null string.
    pub fn len(&self) -> (r: usize)
        ensures
            r == self.spec_bytes().len(),
    {
        match &self.content {
            Some(v) => v.len(),
            None => 0,
        }
    }

    /// Whether the string has no bytes.
    pub fn is_empty(&self) -> (r: bool)
        ensures
            r == (self.spec_bytes().len() == 0),
    {
        self.len() == 0
    }

    /// The text of the string, if it is not null and is well-formed UTF-8.
    pub fn to_str(&self) -> (r: Option<&str>)
        ensures
            r.is_some() <==> self.spec_text().is_some(),
            r matches Some(s) ==> Some(s@) == self.spec_text(),
            r matches Some(s) ==> s.spec_bytes() == self.spec_bytes(),
    {
        match &self.content {
            Some(v) => {
                let r = utf8_checked(v.as_slice());
                proof {
                    if let Some(s) = r {
                        encode_utf8_decode_utf8(s@);
                    }
                }
                r
            },
            None => None,
        }
    }

    /// The text of the string, decoded leniently: ill-formed parts are
    /// replaced, and the null string gives the empty text.
    pub fn to_string(&self) -> (r: String)
        ensures
            r@ == Self::text_of(self@),
            self.spec_text() matches Some(t) ==> r@ == t,
            self@.is_none() ==> r@ == Seq::<char>::empty(),
    {
        match &self.content {
            Some(v) => utf8_lossy(v.as_slice()),
            None => String::new(),
        }
    }

    /// What a lenient decoding of a string gives.
    pub open spec fn text_of(content: Option<Seq<u8>>) -> Seq<char> {
        match content {
            Some(b) => lossy_text(b),
            None => Seq::empty(),
        }
    }
}

impl Default for XmpString {
    /// An empty string, allocated and ready to be filled.
    fn default() -> (r: XmpString)
        ensures
            r@ == Some(Seq::<u8>::empty()),
    {
        XmpString::new()
    }
}

impl PartialEqSpecImpl for XmpString {
    open spec fn obeys_eq_spec() -> bool {
        true
    }

    open spec fn eq_spec(&self, other: &XmpString) -> bool {
        self.spec_text() == other.spec_text()
    }
}

impl PartialEq for XmpString {
    /// Two strings are equal when they decode alike: to the same text, or
    /// both to none.
    fn eq(&self, other: &XmpString) -> (r: bool) {
        let a = self.to_str();
        let b = other.to_str();
        match (a, b) {
            (Some(x), Some(y)) => {
                proof {
                    encode_utf8_decode_utf8(x@);
                    encode_utf8_decode_utf8(y@);
                }
                same_bytes(x.as_bytes(), y.as_bytes())
            },
            (None, None) => true,
            _ => false,
        }
    }
}

impl Eq for XmpString {

}

} // verus!
