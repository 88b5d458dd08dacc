//! Declarations of, and wrappers around, the outside crates.
//!
//! Everything in this module is taken on trust: Verus believes the stated
//! contracts without reading the outside code.  Each item names the
//! function or type of the outside crate it relies on.

use vstd::prelude::*;

use crate::nix::StorePath;

verus! {

/// tempfile::TempDir: an owned temporary directory, removed when the
/// value is dropped.  The library only carries such a value; it is
/// created and read by the unverified caller.
#[verifier::external_type_specification]
#[verifier::external_body]
pub struct ExTempDir(tempfile::TempDir);

/// std::io::Error: carried inside an evaluation error.
#[verifier::external_type_specification]
#[verifier::external_body]
pub struct ExIoError(std::io::Error);

/// serde_json::Error: carried inside an evaluation error.
#[verifier::external_type_specification]
#[verifier::external_body]
pub struct ExJsonError(serde_json::Error);

/// vec1::Vec1: a vector that holds at least one element.
#[verifier::external_type_specification]
#[verifier::external_body]
#[verifier::reject_recursive_types(I)]
pub struct ExVec1<I>(vec1::Vec1<I>);

/// The store paths a non-empty path vector holds, as byte strings, in order.
pub uninterp spec fn vec1_store_paths(v: vec1::Vec1<StorePath>) -> Seq<Seq<u8>>;

/// Relies on vec1::Vec1::try_from_vec: it returns `Ok` exactly when the
/// given vector is non-empty, wrapping that vector unchanged.
#[verifier::external_body]
pub fn vec1_from_vec(v: Vec<StorePath>) -> (r: Option<vec1::Vec1<StorePath>>)
    ensures
        r is Some <==> v@.len() > 0,
        r matches Some(w) ==> vec1_store_paths(w) == v@.map_values(|p: StorePath| p@),
{
    vec1::Vec1::try_from_vec(v).ok()
}

/// Relies on vec1::Vec1::into_vec: it hands back the underlying vector
/// unchanged.
#[verifier::external_body]
pub fn vec1_into_vec(v: vec1::Vec1<StorePath>) -> (r: Vec<StorePath>)
    ensures
        r@.map_values(|p: StorePath| p@) == vec1_store_paths(v),
{
    v.into_vec()
}

/// Relies on serde_json::from_slice: it decodes the bytes as one
/// self-describing JSON value of type `T`.  Which byte streams decode
/// depends on `T`'s deserialization, so nothing is promised of the
/// outcome; a decode error is rendered as its message text.
#[verifier::external_body]
pub fn json_decode<T: serde::de::DeserializeOwned>(bytes: &[u8]) -> (r: Result<T, String>) {
    match serde_json::from_slice::<T>(bytes) {
        Ok(t) => Ok(t),
        Err(e) => Err(format!("{}", e)),
    }
}

} // verus!
