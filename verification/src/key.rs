//! The normalized, backend-agnostic key record.

use vstd::prelude::*;

verus! {

/// Whether a record describes a public or a private key.
#[derive(Clone, Copy, Debug, PartialEq, Eq, Structural)]
pub enum KeyType {
    Public,
    Private,
}

/// One key as every backend reports it: identifier (the sort key), kind,
/// display name, algorithm and bit length, the last three as display
/// strings with `"unknown"`/`"None"` fallbacks chosen by the adapters.
#[derive(Debug, Clone)]
pub struct Key {
    pub id: String,
    pub typ: KeyType,
    pub name: String,
    pub alg: String,
    pub len: String,
}

/// Mathematical image of a [`Key`].
#[verifier::ext_equal]
pub struct KeyView {
    pub id: Seq<char>,
    pub typ: KeyType,
    pub name: Seq<char>,
    pub alg: Seq<char>,
    pub len: Seq<char>,
}

impl View for Key {
    type V = KeyView;

    open spec fn view(&self) -> KeyView {
        KeyView {
            id: self.id@,
            typ: self.typ,
            name: self.name@,
            alg: self.alg@,
            len: self.len@,
        }
    }
}

impl KeyType {
    /// The column label of this kind in the final listing.
    pub fn label(&self) -> (r: String)
        ensures
            *self == KeyType::Public ==> r@ == "Public Key"@,
            *self == KeyType::Private ==> r@ == "Private Key"@,
    {
        match self {
            KeyType::Public => "Public Key".to_owned(),
            KeyType::Private => "Private Key".to_owned(),
        }
    }
}

} // verus!
