//! The failures that the library reports.

use vstd::prelude::*;

verus! {

/// A failure, by kind, with a description for the operator.
#[derive(Debug, PartialEq, Eq)]
pub enum LyraError {
    /// The configuration holds a value that cannot be used.
    Config(String),
    /// Text that should hold structured data does not.
    Parsing(String),
    /// The storage backend failed or refused.
    Storage(String),
    /// Block bytes could not be decoded.
    Cbor(String),
    /// A transaction input refers to an output that the block context lacks.
    MissingUtxo(String),
    /// The runtime could not be started or failed.
    Runtime(String),
}

impl Clone for LyraError {
    fn clone(&self) -> (e: LyraError)
        ensures
            e == *self,
    {
        match self {
            LyraError::Config(m) => LyraError::Config(m.clone()),
            LyraError::Parsing(m) => LyraError::Parsing(m.clone()),
            LyraError::Storage(m) => LyraError::Storage(m.clone()),
            LyraError::Cbor(m) => LyraError::Cbor(m.clone()),
            LyraError::MissingUtxo(m) => LyraError::MissingUtxo(m.clone()),
            LyraError::Runtime(m) => LyraError::Runtime(m.clone()),
        }
    }
}

impl LyraError {
    /// A configuration failure with this description.
    pub fn config(text: String) -> (e: LyraError)
        ensures
            e == LyraError::Config(text),
    {
        LyraError::Config(text)
    }

    /// A parsing failure with this description.
    pub fn parsing(text: String) -> (e: LyraError)
        ensures
            e == LyraError::Parsing(text),
    {
        LyraError::Parsing(text)
    }

    /// A storage failure with this description.
    pub fn storage(text: String) -> (e: LyraError)
        ensures
            e == LyraError::Storage(text),
    {
        LyraError::Storage(text)
    }

    /// A decoding failure with this description.
    pub fn cbor(text: String) -> (e: LyraError)
        ensures
            e == LyraError::Cbor(text),
    {
        LyraError::Cbor(text)
    }

    /// The failure to find the output filed under this key.
    pub fn missing_utxo(text: String) -> (e: LyraError)
        ensures
            e == LyraError::MissingUtxo(text),
    {
        LyraError::MissingUtxo(text)
    }

    /// A runtime failure with this description.
    pub fn runtime(text: String) -> (e: LyraError)
        ensures
            e == LyraError::Runtime(text),
    {
        LyraError::Runtime(text)
    }

    /// The description that the failure carries.
    pub fn message(&self) -> (text: &String)
        ensures
            text == match *self {
                LyraError::Config(m) => m,
                LyraError::Parsing(m) => m,
                LyraError::Storage(m) => m,
                LyraError::Cbor(m) => m,
                LyraError::MissingUtxo(m) => m,
                LyraError::Runtime(m) => m,
            },
    {
        match self {
            LyraError::Config(m) => m,
            LyraError::Parsing(m) => m,
            LyraError::Storage(m) => m,
            LyraError::Cbor(m) => m,
            LyraError::MissingUtxo(m) => m,
            LyraError::Runtime(m) => m,
        }
    }
}

} // verus!
