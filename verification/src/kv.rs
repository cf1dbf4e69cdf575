//! A single entry of a string-to-string mapping (labels, match-labels).
//!
//! Label mappings arrive from the cluster as ordered associative collections;
//! the library models such a mapping as the sequence of its entries in the
//! source's iteration order, so that translation can preserve that order
//! exactly.

use vstd::prelude::*;

verus! {

/// One `key = value` entry of a label mapping.
#[derive(Debug, PartialEq)]
pub struct KeyValue {
    pub key: String,
    pub value: String,
}

/// The mathematical value of a [`KeyValue`]: both strings as character
/// sequences.
#[verifier::ext_equal]
pub struct KeyValueView {
    pub key: Seq<char>,
    pub value: Seq<char>,
}

impl View for KeyValue {
    type V = KeyValueView;

    open spec fn view(&self) -> KeyValueView {
        KeyValueView { key: self.key@, value: self.value@ }
    }
}

impl DeepView for KeyValue {
    type V = KeyValueView;

    open spec fn deep_view(&self) -> KeyValueView {
        self.view()
    }
}

impl Clone for KeyValue {
    /// A fresh entry with the same key and value.
    fn clone(&self) -> (r: KeyValue)
        ensures
            r@ == self@,
    {
        KeyValue { key: self.key.clone(), value: self.value.clone() }
    }
}

} // verus!
