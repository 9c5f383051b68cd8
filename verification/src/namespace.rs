//! The registry of namespaces, which the native toolkit keeps for the
//! whole process.
use vstd::prelude::*;
use vstd::string::StringSliceAdditionalSpecFns;
use crate::error::{Error, XmpError};
use crate::text::{has_nul, CText};

verus! {

/// A native call that registers a namespace under a suggested prefix.
#[derive(Debug)]
pub struct NamespaceCall {
    /// The URI of the namespace.
    pub uri: CText,
    /// The prefix that the caller suggests.
    pub prefix: CText,
}

/// Prepares registering the namespace `uri` under the suggested `prefix`.
/// The native side answers with the prefix that it registered, which may be
/// another. A text with a zero byte in it is a bad parameter.
pub fn register_namespace(uri: &str, prefix: &str) -> (r: Result<NamespaceCall, Error>)
    ensures
        r.is_ok() <==> !has_nul(uri.spec_bytes()) && !has_nul(prefix.spec_bytes()),
        r matches Ok(c) ==> {
            &&& c.uri@ == uri.spec_bytes().push(0u8)
            &&& c.prefix@ == prefix.spec_bytes().push(0u8)
        },
        r matches Err(e) ==> e == Error(XmpError::BadParam),
{
    let uri = match CText::encode(uri) {
        Ok(t) => t,
        Err(e) => {
            return Err(e);
        },
    };
    let prefix = match CText::encode(prefix) {
        Ok(t) => t,
        Err(e) => {
            return Err(e);
        },
    };
    Ok(NamespaceCall { uri, prefix })
}

/// Prepares asking for the prefix of the namespace `uri`.
pub fn namespace_prefix(uri: &[u8]) -> (r: Result<CText, Error>)
    ensures
        r.is_ok() <==> !has_nul(uri@),
        r matches Ok(t) ==> t@ == uri@.push(0u8),
        r matches Err(e) ==> e == Error(XmpError::BadParam),
{
    CText::from_bytes(uri)
}

/// Prepares asking for the namespace URI of `prefix`.
pub fn prefix_namespace(prefix: &[u8]) -> (r: Result<CText, Error>)
    ensures
        r.is_ok() <==> !has_nul(prefix@),
        r matches Ok(t) ==> t@ == prefix@.push(0u8),
        r matches Err(e) ==> e == Error(XmpError::BadParam),
{
    CText::from_bytes(prefix)
}

} // verus!
