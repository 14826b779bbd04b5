use vstd::prelude::*;
use vstd::std_specs::convert::FromSpecImpl;

verus! {

/// How the text of a tagged value is to be read by whoever compares it with
/// the raw bytes of a request.
#[derive(Clone, Copy, Debug, PartialEq, Eq, Structural)]
pub enum Encoding {
    URL,
    Base64,
}

/// A value with an optional encoding tag. The tag is a hint for the consumer:
/// no constructor transforms the value it is given.
#[derive(Debug)]
pub struct MaybeEncoded<T> {
    value: T,
    encoding: Option<Encoding>,
}

impl<T> MaybeEncoded<T> {
    /// The stored value.
    pub closed spec fn spec_value(self) -> T {
        self.value
    }

    /// The tag, if there is one.
    pub closed spec fn spec_encoding(self) -> Option<Encoding> {
        self.encoding
    }

    pub fn value(&self) -> (r: &T)
        ensures
            *r == self.spec_value(),
    {
        &self.value
    }

    pub fn encoding(&self) -> (r: Option<Encoding>)
        ensures
            r == self.spec_encoding(),
    {
        self.encoding
    }

    pub fn is_url_encoded(&self) -> (r: bool)
        ensures
            r == (self.spec_encoding() == Some(Encoding::URL)),
    {
        match self.encoding {
            Some(Encoding::URL) => true,
            _ => false,
        }
    }

    /// Gives the stored value back.
    pub fn into_value(self) -> (r: T)
        ensures
            r == self.spec_value(),
    {
        self.value
    }

    /// The value `value` with the tag `encoding`.
    pub closed spec fn tagged(value: T, encoding: Option<Encoding>) -> Self {
        MaybeEncoded { value, encoding }
    }

    /// Whatever the tag, a tagged value holds the value it was made from,
    /// unchanged, and the tag it was given; and it is made of these two.
    pub proof fn lemma_tag_keeps_value(value: T, encoding: Option<Encoding>)
        ensures
            Self::tagged(value, encoding).spec_value() == value,
            Self::tagged(value, encoding).spec_encoding() == encoding,
    {
    }

    /// Two tagged values with the same value and the same tag are equal.
    pub proof fn lemma_extensional(a: Self, b: Self)
        requires
            a.spec_value() == b.spec_value(),
            a.spec_encoding() == b.spec_encoding(),
        ensures
            a == b,
    {
    }
}

impl From<String> for MaybeEncoded<String> {
    fn from(value: String) -> (r: Self)
        ensures
            r == MaybeEncoded::tagged(value, None),
            r.spec_value() == value,
            r.spec_encoding() == None::<Encoding>,
    {
        MaybeEncoded { value, encoding: None }
    }
}

impl FromSpecImpl<String> for MaybeEncoded<String> {
    open spec fn obeys_from_spec() -> bool {
        true
    }

    open spec fn from_spec(v: String) -> Self {
        MaybeEncoded::tagged(v, None)
    }
}

/// std's `From<T> for T`: the conversion of a value into its own type hands
/// the value back unchanged.
pub assume_specification<U>[ <U as From<U>>::from ](t: U) -> (r: U)
    ensures
        r == t,
;

/// std's `From<&str> for String`: the string has the text of the slice.
pub assume_specification<'a>[ <String as From<&'a str>>::from ](s: &str) -> (r: String)
    ensures
        r@ == s@,
;

/// Tags `value` as URL-encoded. The value is converted into the stored type
/// and otherwise left as it is: encoding it is the consumer's work.
pub fn url_encoded<S, T: Into<S>>(value: T) -> (r: MaybeEncoded<S>)
    ensures
        r.spec_encoding() == Some(Encoding::URL),
        call_ensures(<T as Into<S>>::into, (value,), r.spec_value()),
{
    MaybeEncoded { value: value.into(), encoding: Some(Encoding::URL) }
}

impl<'a> From<&'a str> for MaybeEncoded<String> {
    fn from(value: &'a str) -> (r: Self)
        ensures
            r.spec_value()@ == value@,
            r.spec_encoding() == None::<Encoding>,
    {
        MaybeEncoded { value: value.to_owned(), encoding: None }
    }
}

impl<'a> FromSpecImpl<&'a str> for MaybeEncoded<String> {
    open spec fn obeys_from_spec() -> bool {
        false
    }

    closed spec fn from_spec(v: &'a str) -> Self {
        arbitrary()
    }
}

impl<'a> From<&'a MaybeEncoded<String>> for MaybeEncoded<String> {
    fn from(value: &'a MaybeEncoded<String>) -> (r: Self)
        ensures
            r == *value,
    {
        MaybeEncoded { value: value.value.clone(), encoding: value.encoding }
    }
}

impl<'a> FromSpecImpl<&'a MaybeEncoded<String>> for MaybeEncoded<String> {
    open spec fn obeys_from_spec() -> bool {
        true
    }

    open spec fn from_spec(v: &'a MaybeEncoded<String>) -> Self {
        *v
    }
}

/// Values that can be tagged as URL-encoded where they stand.
pub trait URLEncodedExtension<T> {
    /// Whether `stored` is this value in the form that `url_encoded` keeps.
    spec fn kept_as(&self, stored: T) -> bool;

    fn url_encoded(&self) -> (r: MaybeEncoded<T>)
        ensures
            self.kept_as(r.spec_value()),
            r.spec_encoding() == Some(Encoding::URL),
    ;
}

impl URLEncodedExtension<String> for String {
    open spec fn kept_as(&self, stored: String) -> bool {
        stored@ == self@
    }

    fn url_encoded(&self) -> (r: MaybeEncoded<String>) {
        url_encoded::<String, String>(self.clone())
    }
}

impl URLEncodedExtension<String> for str {
    open spec fn kept_as(&self, stored: String) -> bool {
        stored@ == self@
    }

    fn url_encoded(&self) -> (r: MaybeEncoded<String>) {
        url_encoded::<String, String>(self.to_owned())
    }
}

} // verus!
