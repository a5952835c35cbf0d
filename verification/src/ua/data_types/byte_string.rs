use vstd::prelude::*;

use crate::ua::array_value::ArrayValue;

verus! {

/// Sequence of arbitrary bytes which may also be unset ("invalid"): a third
/// state, distinct from the empty and from the non-empty byte string.
#[derive(Clone, Debug, PartialEq, Eq)]
pub struct ByteString {
    data: Option<Vec<u8>>,
}

impl View for ByteString {
    type V = Option<Seq<u8>>;

    closed spec fn view(&self) -> Option<Seq<u8>> {
        match self.data {
            None => None,
            Some(bytes) => Some(bytes@),
        }
    }
}

impl ByteString {
    /// The unset byte string.
    pub fn invalid() -> (string: Self)
        ensures
            string@ == None::<Seq<u8>>,
    {
        ByteString { data: None }
    }

    /// Byte string with the given contents; it is empty where `bytes` is.
    pub fn new(bytes: Vec<u8>) -> (string: Self)
        ensures
            string@ == Some(bytes@),
    {
        ByteString { data: Some(bytes) }
    }

    /// Checks if byte string is invalid.
    pub fn is_invalid(&self) -> (invalid: bool)
        ensures
            invalid == (self@ is None),
    {
        self.array_value().is_invalid()
    }

    /// Checks if byte string is empty.
    pub fn is_empty(&self) -> (empty: bool)
        ensures
            empty == (self@ == Some(Seq::<u8>::empty())),
    {
        let empty = self.array_value().is_empty();
        proof {
            if self@ is Some && self@->0.len() == 0 {
                assert(self@->0 =~= Seq::<u8>::empty());
            }
        }
        empty
    }

    /// Returns byte string contents as slice, unless the byte string is invalid.
    pub fn as_bytes(&self) -> (bytes: Option<&[u8]>)
        ensures
            match bytes {
                None => self@ is None,
                Some(slice) => self@ == Some(slice@),
            },
    {
        match &self.data {
            None => None,
            Some(data) => Some(data.as_slice()),
        }
    }

    /// State of the byte string, with the contents where there are any.
    pub fn array_value(&self) -> (value: ArrayValue<&[u8]>)
        ensures
            match value {
                ArrayValue::Invalid => self@ is None,
                ArrayValue::Empty => self@ is Some && self@->0.len() == 0,
                ArrayValue::Valid(slice) => self@ == Some(slice@) && slice@.len() > 0,
            },
    {
        match &self.data {
            None => ArrayValue::Invalid,
            Some(data) => {
                if data.len() == 0 {
                    ArrayValue::Empty
                } else {
                    ArrayValue::Valid(data.as_slice())
                }
            },
        }
    }
}

} // verus!
