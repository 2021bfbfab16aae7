//! The mapping between documents of a schema and the values they describe.
//!
//! A type takes part in decoding by saying how a document is read into a
//! value, which can fail, and how a value is built into a document, which
//! cannot. [`ProtoFmt`] is implemented by the type of the values,
//! [`ProtoRepr`] by the type of the documents.

use vstd::prelude::*;
use crate::error::{DecodeError, Label};
use crate::primitives::{H160, H256};

verus! {

/// The outcome of a read, with the value taken by its view.
pub open spec fn view_of<T: View>(res: Result<T, DecodeError>) -> Result<T::V, DecodeError> {
    match res {
        Ok(value) => Ok(value@),
        Err(e) => Err(e),
    }
}

/// An outcome as seen from outside the field `label`: a failure is wrapped in
/// the label, a value is left as it is.
pub open spec fn labelled<T>(res: Result<T, DecodeError>, label: Label) -> Result<T, DecodeError> {
    match res {
        Ok(value) => Ok(value),
        Err(e) => Err(DecodeError::Context(label, Box::new(e))),
    }
}

/// A type of values that are read from, and built into, documents of the
/// type `Proto`.
pub trait ProtoFmt: Sized + View {
    /// The documents that describe the values of this type.
    type Proto: View;

    /// What reading makes of a document.
    spec fn decoded(doc: <Self::Proto as View>::V) -> Result<Self::V, DecodeError>;

    /// The document that is built from a value.
    spec fn encoded(value: Self::V) -> <Self::Proto as View>::V;

    /// Reads a document.
    fn read(r: &Self::Proto) -> (res: Result<Self, DecodeError>)
        ensures
            view_of(res) == Self::decoded(r@),
    ;

    /// Builds the document of a value.
    fn build(&self) -> (res: Self::Proto)
        ensures
            res@ == Self::encoded(self@),
    ;
}

/// A type of documents that are read into, and built from, values of the
/// type `Type`: [`ProtoFmt`] seen from the side of the documents.
pub trait ProtoRepr: Sized + View {
    /// The values that the documents of this type describe.
    type Type: View;

    /// What reading makes of a document.
    spec fn decoded(doc: Self::V) -> Result<<Self::Type as View>::V, DecodeError>;

    /// The document that is built from a value.
    spec fn encoded(value: <Self::Type as View>::V) -> Self::V;

    /// Reads the document.
    fn read(&self) -> (res: Result<Self::Type, DecodeError>)
        ensures
            view_of(res) == Self::decoded(self@),
    ;

    /// Builds the document of a value.
    fn build(this: &Self::Type) -> (res: Self)
        ensures
            res@ == Self::encoded(this@),
    ;
}

/// An outcome as seen from outside the field `label`.
pub fn with_label<T>(res: Result<T, DecodeError>, label: Label) -> (out: Result<T, DecodeError>)
    ensures
        out == labelled(res, label),
{
    match res {
        Ok(value) => Ok(value),
        Err(e) => Err(e.context(label)),
    }
}

/// `anyhow::Error`: handed on, never looked into.
#[verifier::external_type_specification]
#[verifier::external_body]
pub struct ExAnyhowError(anyhow::Error);

/// `zksync_protobuf::required`.
///
/// Trusted: a field that is present is handed back, and an absent one is an
/// error.
pub assume_specification<T>[ zksync_protobuf::required::<T> ](field: &Option<T>) -> (res: Result<
    &T,
    anyhow::Error,
>)
    ensures
        match *field {
            Some(value) => res == Ok::<&T, anyhow::Error>(&value),
            None => res is Err,
        },
;

/// The value of a field that must be present.
pub fn required_field<T>(field: &Option<T>) -> (res: Result<&T, DecodeError>)
    ensures
        match *field {
            Some(value) => res == Ok::<&T, DecodeError>(&value),
            None => res == Err::<&T, DecodeError>(DecodeError::MissingField),
        },
{
    match zksync_protobuf::required(field) {
        Ok(value) => Ok(value),
        Err(_) => Err(DecodeError::MissingField),
    }
}

/// What [`read_optional`] makes of a field: an absent field is no value, and
/// a present one is read.
pub open spec fn optional_decoded<T: ProtoFmt>(field: Option<<T::Proto as View>::V>) -> Result<
    Option<T::V>,
    DecodeError,
> {
    match field {
        None => Ok(None),
        Some(doc) => match T::decoded(doc) {
            Ok(value) => Ok(Some(value)),
            Err(e) => Err(e),
        },
    }
}

/// The view of an optional document.
pub open spec fn optional_view<P: View>(field: Option<P>) -> Option<P::V> {
    match field {
        Some(doc) => Some(doc@),
        None => None,
    }
}

/// Reads a field that may be absent.
pub fn read_optional<T: ProtoFmt>(field: &Option<T::Proto>) -> (res: Result<Option<T>, DecodeError>)
    ensures
        optional_decoded::<T>(optional_view(*field)) == match res {
            Ok(value) => Ok::<Option<T::V>, DecodeError>(optional_view(value)),
            Err(e) => Err::<Option<T::V>, DecodeError>(e),
        },
{
    match field {
        None => Ok(None),
        Some(doc) => match T::read(doc) {
            Ok(value) => Ok(Some(value)),
            Err(e) => Err(e),
        },
    }
}

/// What reading makes of a field of bytes that must hold `len` of them.
pub open spec fn sized(bytes: Seq<u8>, len: nat) -> Result<Seq<u8>, DecodeError> {
    if bytes.len() == len {
        Ok(bytes)
    } else {
        Err(DecodeError::InvalidSize)
    }
}

/// Reads 32 bytes.
pub fn parse_h256(bytes: &[u8]) -> (res: Result<H256, DecodeError>)
    ensures
        view_of(res) == sized(bytes@, 32),
{
    match H256::from_slice(bytes) {
        Some(value) => Ok(value),
        None => Err(DecodeError::InvalidSize),
    }
}

/// Reads 20 bytes.
pub fn parse_h160(bytes: &[u8]) -> (res: Result<H160, DecodeError>)
    ensures
        view_of(res) == sized(bytes@, 20),
{
    match H160::from_slice(bytes) {
        Some(value) => Ok(value),
        None => Err(DecodeError::InvalidSize),
    }
}

impl ProtoFmt for H256 {
    type Proto = Vec<u8>;

    open spec fn decoded(doc: Seq<u8>) -> Result<Seq<u8>, DecodeError> {
        sized(doc, 32)
    }

    open spec fn encoded(value: Seq<u8>) -> Seq<u8> {
        value
    }

    fn read(r: &Vec<u8>) -> (res: Result<Self, DecodeError>) {
        parse_h256(r.as_slice())
    }

    fn build(&self) -> (res: Vec<u8>) {
        self.to_vec()
    }
}

impl ProtoFmt for H160 {
    type Proto = Vec<u8>;

    open spec fn decoded(doc: Seq<u8>) -> Result<Seq<u8>, DecodeError> {
        sized(doc, 20)
    }

    open spec fn encoded(value: Seq<u8>) -> Seq<u8> {
        value
    }

    fn read(r: &Vec<u8>) -> (res: Result<Self, DecodeError>) {
        parse_h160(r.as_slice())
    }

    fn build(&self) -> (res: Vec<u8>) {
        self.to_vec()
    }
}

/// Every document that is read as a value of 32 bytes is built back from
/// that value, and every value of 32 bytes is read back from its document.
pub proof fn lemma_h256_round_trip(bytes: Seq<u8>)
    ensures
        H256::decoded(bytes) matches Ok(value) ==> H256::encoded(value) == bytes,
        bytes.len() == 32 ==> H256::decoded(H256::encoded(bytes)) == Ok::<Seq<u8>, DecodeError>(
            bytes,
        ),
{
}

/// Every document that is read as a value of 20 bytes is built back from
/// that value, and every value of 20 bytes is read back from its document.
pub proof fn lemma_h160_round_trip(bytes: Seq<u8>)
    ensures
        H160::decoded(bytes) matches Ok(value) ==> H160::encoded(value) == bytes,
        bytes.len() == 20 ==> H160::decoded(H160::encoded(bytes)) == Ok::<Seq<u8>, DecodeError>(
            bytes,
        ),
{
}

} // verus!
