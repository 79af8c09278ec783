//! The error of a failed conversion from text.
use vstd::prelude::*;

verus! {

/// The text of a conversion error: borrowed for good, or owned.
#[derive(Debug)]
pub enum ConversionText {
    Borrowed(&'static str),
    Owned(String),
}

/// Error from a `TryFrom` or `FromStr` implementation.
#[derive(Debug)]
pub struct ConversionError(ConversionText);

impl View for ConversionError {
    type V = Seq<char>;

    /// The text of the error.
    closed spec fn view(&self) -> Seq<char> {
        match self.0 {
            ConversionText::Borrowed(s) => s@,
            ConversionText::Owned(s) => s@,
        }
    }
}

impl ConversionError {
    /// The error that carries the static text `s`.
    pub closed spec fn from_static(s: &'static str) -> ConversionError {
        ConversionError(ConversionText::Borrowed(s))
    }

    /// The error's text.
    pub fn message(&self) -> (res: String)
        ensures
            res@ == self@,
    {
        match &self.0 {
            ConversionText::Borrowed(s) => String::from_str(s),
            ConversionText::Owned(s) => s.clone(),
        }
    }

    /// The error that carries the owned text `s`.
    pub closed spec fn from_owned(s: String) -> ConversionError {
        ConversionError(ConversionText::Owned(s))
    }

    /// The text of the error carrying the static text `s` is `s`.
    pub proof fn lemma_from_static_text(s: &'static str)
        ensures
            Self::from_static(s)@ == s@,
    {
    }
}

impl From<&'static str> for ConversionError {
    fn from(value: &'static str) -> (res: Self) {
        Self(ConversionText::Borrowed(value))
    }
}

impl vstd::std_specs::convert::FromSpecImpl<&'static str> for ConversionError {
    open spec fn obeys_from_spec() -> bool {
        true
    }

    open spec fn from_spec(v: &'static str) -> ConversionError {
        ConversionError::from_static(v)
    }
}

impl From<String> for ConversionError {
    fn from(value: String) -> (res: Self)
        ensures
            res@ == value@,
    {
        Self(ConversionText::Owned(value))
    }
}

impl vstd::std_specs::convert::FromSpecImpl<String> for ConversionError {
    open spec fn obeys_from_spec() -> bool {
        true
    }

    open spec fn from_spec(v: String) -> ConversionError {
        ConversionError::from_owned(v)
    }
}

} // verus!
