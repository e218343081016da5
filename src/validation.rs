use vstd::prelude::*;
use vstd::utf8::encode_utf8;

use crate::types::{strings_view, RegistryError};

verus! {

/// Maximum lengths, in bytes, of the string fields of a record.
pub const MAX_NAME_LEN: usize = 64;
pub const MAX_CAPABILITIES: usize = 8;
pub const MAX_CAPABILITY_LEN: usize = 32;
pub const MAX_METADATA_URI_LEN: usize = 200;
pub const MAX_TASK_ID_LEN: usize = 64;

/// Length in bytes of the UTF-8 encoding of `s`.
pub open spec fn byte_len(s: Seq<char>) -> usize {
    encode_utf8(s).len() as usize
}

/// Turns an optional error into the result of a check.
pub open spec fn as_check(e: Option<RegistryError>) -> Result<(), RegistryError> {
    match e {
        Some(err) => Err(err),
        None => Ok(()),
    }
}

pub open spec fn name_error(name: Seq<char>) -> Option<RegistryError> {
    if byte_len(name) > MAX_NAME_LEN {
        Some(RegistryError::NameTooLong)
    } else {
        None
    }
}

pub open spec fn some_capability_too_long(caps: Seq<Seq<char>>) -> bool {
    exists|i: int| 0 <= i < caps.len() && byte_len(#[trigger] caps[i]) > MAX_CAPABILITY_LEN
}

pub open spec fn capabilities_error(caps: Seq<Seq<char>>) -> Option<RegistryError> {
    if caps.len() > MAX_CAPABILITIES {
        Some(RegistryError::TooManyCapabilities)
    } else if some_capability_too_long(caps) {
        Some(RegistryError::CapabilityTooLong)
    } else {
        None
    }
}

pub open spec fn metadata_uri_error(uri: Seq<char>) -> Option<RegistryError> {
    if byte_len(uri) > MAX_METADATA_URI_LEN {
        Some(RegistryError::MetadataUriTooLong)
    } else {
        None
    }
}

pub open spec fn pricing_error(pricing: u64) -> Option<RegistryError> {
    if pricing == 0 {
        Some(RegistryError::InvalidPricing)
    } else {
        None
    }
}

/// The first violated constraint of a registration, in the order name,
/// capabilities, metadata URI, pricing.
pub open spec fn registration_error(
    name: Seq<char>,
    caps: Seq<Seq<char>>,
    pricing: u64,
    uri: Seq<char>,
) -> Option<RegistryError> {
    if name_error(name).is_some() {
        name_error(name)
    } else if capabilities_error(caps).is_some() {
        capabilities_error(caps)
    } else if metadata_uri_error(uri).is_some() {
        metadata_uri_error(uri)
    } else {
        pricing_error(pricing)
    }
}

/// The first violated constraint among the supplied fields of an update, in
/// the order name, capabilities, pricing, metadata URI.
pub open spec fn update_error(
    name: Option<Seq<char>>,
    caps: Option<Seq<Seq<char>>>,
    pricing: Option<u64>,
    uri: Option<Seq<char>>,
) -> Option<RegistryError> {
    if name.is_some() && name_error(name.unwrap()).is_some() {
        name_error(name.unwrap())
    } else if caps.is_some() && capabilities_error(caps.unwrap()).is_some() {
        capabilities_error(caps.unwrap())
    } else if pricing.is_some() && pricing_error(pricing.unwrap()).is_some() {
        pricing_error(pricing.unwrap())
    } else if uri.is_some() {
        metadata_uri_error(uri.unwrap())
    } else {
        None
    }
}

/// Length in bytes of a string.
pub fn str_byte_len(s: &String) -> (r: usize)
    ensures
        r == byte_len(s@),
{
    s.as_str().len()
}

pub fn validate_name(name: &String) -> (r: Result<(), RegistryError>)
    ensures
        r == as_check(name_error(name@)),
{
    if str_byte_len(name) > MAX_NAME_LEN {
        Err(RegistryError::NameTooLong)
    } else {
        Ok(())
    }
}

pub fn validate_capabilities(caps: &Vec<String>) -> (r: Result<(), RegistryError>)
    ensures
        r == as_check(capabilities_error(strings_view(caps@))),
{
    if caps.len() > MAX_CAPABILITIES {
        return Err(RegistryError::TooManyCapabilities);
    }
    let ghost cv = strings_view(caps@);
    let mut i: usize = 0;
    while i < caps.len()
        invariant
            i <= caps.len(),
            caps.len() <= MAX_CAPABILITIES,
            cv == strings_view(caps@),
            forall|j: int| 0 <= j < i ==> byte_len(#[trigger] cv[j]) <= MAX_CAPABILITY_LEN,
        decreases caps.len() - i,
    {
        if str_byte_len(&caps[i]) > MAX_CAPABILITY_LEN {
            assert(cv[i as int] == caps@[i as int]@);
            assert(byte_len(cv[i as int]) > MAX_CAPABILITY_LEN);
            assert(some_capability_too_long(cv));
            return Err(RegistryError::CapabilityTooLong);
        }
        i = i + 1;
    }
    Ok(())
}

pub fn validate_metadata_uri(uri: &String) -> (r: Result<(), RegistryError>)
    ensures
        r == as_check(metadata_uri_error(uri@)),
{
    if str_byte_len(uri) > MAX_METADATA_URI_LEN {
        Err(RegistryError::MetadataUriTooLong)
    } else {
        Ok(())
    }
}

pub fn validate_pricing(pricing: u64) -> (r: Result<(), RegistryError>)
    ensures
        r == as_check(pricing_error(pricing)),
{
    if pricing == 0 {
        Err(RegistryError::InvalidPricing)
    } else {
        Ok(())
    }
}

/// Copies a list of strings.
pub fn copy_strings(v: &Vec<String>) -> (r: Vec<String>)
    ensures
        r@ == v@,
{
    let mut r: Vec<String> = Vec::new();
    let mut i: usize = 0;
    while i < v.len()
        invariant
            i <= v.len(),
            r@ == v@.subrange(0, i as int),
        decreases v.len() - i,
    {
        r.push(v[i].clone());
        i = i + 1;
    }
    assert(r@ =~= v@);
    r
}

} // verus!
