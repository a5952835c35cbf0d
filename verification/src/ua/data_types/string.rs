use vstd::prelude::*;

verus! {

/// Text which may also be unset ("invalid"): a third state, distinct from the
/// empty and from the non-empty string.
#[derive(Clone, Debug, PartialEq, Eq)]
pub struct String {
    text: Option<std::string::String>,
}

impl View for String {
    type V = Option<Seq<char>>;

    closed spec fn view(&self) -> Option<Seq<char>> {
        match self.text {
            None => None,
            Some(text) => Some(text@),
        }
    }
}

impl String {
    /// The unset string.
    pub fn invalid() -> (string: Self)
        ensures
            string@ == None::<Seq<char>>,
    {
        String { text: None }
    }

    /// String with the given text; it is empty where `text` is.
    pub fn new(text: &str) -> (string: Self)
        ensures
            string@ == Some(text@),
    {
        String { text: Some(text.to_owned()) }
    }

    /// Checks if string is invalid.
    pub fn is_invalid(&self) -> (invalid: bool)
        ensures
            invalid == (self@ is None),
    {
        self.text.is_none()
    }

    /// Returns the text, unless the string is invalid.
    pub fn as_str(&self) -> (text: Option<&str>)
        ensures
            match text {
                None => self@ is None,
                Some(text) => self@ == Some(text@),
            },
    {
        match &self.text {
            None => None,
            Some(text) => Some(text.as_str()),
        }
    }
}

} // verus!
