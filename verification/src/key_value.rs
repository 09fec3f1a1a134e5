//! Requests for the key-value capability.

use vstd::prelude::*;

verus! {

/// What the core asks of the host's key-value store.
#[derive(Debug, PartialEq, Eq)]
pub enum KeyValueOperation {
    /// Read the value stored under `key`.
    Get { key: String },
    /// Store `value` under `key`, replacing what was there.
    Put { key: String, value: Vec<u8> },
    /// Remove `key` and its value.
    Delete { key: String },
}

/// The mathematical content of a [`KeyValueOperation`].
pub ghost enum KeyValueOperationView {
    Get { key: Seq<char> },
    Put { key: Seq<char>, value: Seq<u8> },
    Delete { key: Seq<char> },
}

impl View for KeyValueOperation {
    type V = KeyValueOperationView;

    open spec fn view(&self) -> KeyValueOperationView {
        match self {
            KeyValueOperation::Get { key } => KeyValueOperationView::Get { key: key@ },
            KeyValueOperation::Put { key, value } => KeyValueOperationView::Put {
                key: key@,
                value: value@,
            },
            KeyValueOperation::Delete { key } => KeyValueOperationView::Delete { key: key@ },
        }
    }
}

impl KeyValueOperationView {
    /// The operation changes what is stored.
    pub open spec fn is_write(self) -> bool {
        self is Put || self is Delete
    }
}

/// A failure reported by the key-value store.
#[derive(Debug, PartialEq, Eq)]
pub struct KeyValueError {
    pub message: String,
}

} // verus!
