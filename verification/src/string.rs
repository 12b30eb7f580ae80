//! A copy-on-write string: a borrowed slice for zero-copy use, an owned `String` for
//! modification, or a shared `Arc<str>` for caching.
use vstd::prelude::*;
use std::borrow::Cow;
use std::sync::Arc;
use crate::text::str_eq;

verus! {

/// A string that is borrowed, owned or shared; two of them are equal when their text is.
#[derive(Debug, Clone)]
pub enum TitanString<'a> {
    Borrowed(&'a str),
    Owned(String),
    Shared(Arc<str>),
}

impl<'a> View for TitanString<'a> {
    type V = Seq<char>;

    /// The text, whichever way it is held.
    open spec fn view(&self) -> Seq<char> {
        match self {
            TitanString::Borrowed(s) => s@,
            TitanString::Owned(s) => s@,
            TitanString::Shared(a) => (**a)@,
        }
    }
}

/// Allocates a reference-counted `str` holding a copy of `s`.
#[verifier::external_body]
fn arc_from_str(s: &str) -> (r: Arc<str>)
    ensures
        (*r)@ == s@,
{
    Arc::from(s)
}

/// Moves the text of `s` into a reference-counted `str`.
#[verifier::external_body]
fn arc_from_string(s: String) -> (r: Arc<str>)
    ensures
        (*r)@ == s@,
{
    Arc::from(s)
}

impl<'a> TitanString<'a> {
    /// The text as an owned `String`.
    pub fn into_owned(self) -> (r: String)
        ensures
            r@ == self@,
    {
        match self {
            TitanString::Borrowed(s) => s.to_owned(),
            TitanString::Owned(s) => s,
            TitanString::Shared(a) => (&*a).to_owned(),
        }
    }

    /// The text as a shared `Arc<str>`.
    pub fn into_shared(self) -> (r: Arc<str>)
        ensures
            (*r)@ == self@,
    {
        match self {
            TitanString::Borrowed(s) => arc_from_str(s),
            TitanString::Owned(s) => arc_from_string(s),
            TitanString::Shared(a) => a,
        }
    }

    /// A reference to the underlying string slice.
    pub fn as_str(&self) -> (r: &str)
        ensures
            r@ == self@,
    {
        match self {
            TitanString::Borrowed(s) => s,
            TitanString::Owned(s) => s.as_str(),
            TitanString::Shared(a) => &**a,
        }
    }

    /// The text as a new `String`.
    pub fn to_string(&self) -> (r: String)
        ensures
            r@ == self@,
    {
        self.as_str().to_owned()
    }
}

impl<'a> core::ops::Deref for TitanString<'a> {
    type Target = str;

    fn deref(&self) -> (r: &str)
        ensures
            r@ == self@,
    {
        self.as_str()
    }
}

impl<'a> PartialEq for TitanString<'a> {
    fn eq(&self, other: &Self) -> (r: bool) {
        str_eq(self.as_str(), other.as_str())
    }
}

impl<'a> vstd::std_specs::cmp::PartialEqSpecImpl for TitanString<'a> {
    open spec fn obeys_eq_spec() -> bool {
        true
    }

    open spec fn eq_spec(&self, other: &Self) -> bool {
        self@ == other@
    }
}

impl<'a> Eq for TitanString<'a> {
}

impl<'a> PartialEq<String> for TitanString<'a> {
    fn eq(&self, other: &String) -> (r: bool) {
        str_eq(self.as_str(), other.as_str())
    }
}

impl<'a> vstd::std_specs::cmp::PartialEqSpecImpl<String> for TitanString<'a> {
    open spec fn obeys_eq_spec() -> bool {
        true
    }

    open spec fn eq_spec(&self, other: &String) -> bool {
        self@ == other@
    }
}

impl<'a> PartialEq<str> for TitanString<'a> {
    fn eq(&self, other: &str) -> (r: bool) {
        str_eq(self.as_str(), other)
    }
}

impl<'a> vstd::std_specs::cmp::PartialEqSpecImpl<str> for TitanString<'a> {
    open spec fn obeys_eq_spec() -> bool {
        true
    }

    open spec fn eq_spec(&self, other: &str) -> bool {
        self@ == other@
    }
}

impl<'a, 'b> PartialEq<&'b str> for TitanString<'a> {
    fn eq(&self, other: &&'b str) -> (r: bool) {
        str_eq(self.as_str(), *other)
    }
}

impl<'a, 'b> vstd::std_specs::cmp::PartialEqSpecImpl<&'b str> for TitanString<'a> {
    open spec fn obeys_eq_spec() -> bool {
        true
    }

    open spec fn eq_spec(&self, other: &&'b str) -> bool {
        self@ == (*other)@
    }
}

impl<'a> PartialEq<TitanString<'a>> for String {
    fn eq(&self, other: &TitanString<'a>) -> (r: bool) {
        str_eq(self.as_str(), other.as_str())
    }
}

impl<'a> vstd::std_specs::cmp::PartialEqSpecImpl<TitanString<'a>> for String {
    open spec fn obeys_eq_spec() -> bool {
        true
    }

    open spec fn eq_spec(&self, other: &TitanString<'a>) -> bool {
        self@ == other@
    }
}

impl<'a> core::hash::Hash for TitanString<'a> {
    /// Hashes the text, as `str` does, so that equal texts hash equally whichever way they
    /// are held. Nothing is stated of the hasher's state.
    #[verifier::external_body]
    fn hash<H: core::hash::Hasher>(&self, state: &mut H) {
        core::hash::Hash::hash(self.as_str(), state)
    }
}

impl<'a> From<&'a str> for TitanString<'a> {
    fn from(s: &'a str) -> (r: Self) {
        TitanString::Borrowed(s)
    }
}

impl<'a> vstd::std_specs::convert::FromSpecImpl<&'a str> for TitanString<'a> {
    open spec fn obeys_from_spec() -> bool {
        true
    }

    open spec fn from_spec(s: &'a str) -> TitanString<'a> {
        TitanString::Borrowed(s)
    }
}

impl<'a> From<String> for TitanString<'a> {
    fn from(s: String) -> (r: Self) {
        TitanString::Owned(s)
    }
}

impl<'a> vstd::std_specs::convert::FromSpecImpl<String> for TitanString<'a> {
    open spec fn obeys_from_spec() -> bool {
        true
    }

    open spec fn from_spec(s: String) -> TitanString<'a> {
        TitanString::Owned(s)
    }
}

impl<'a> From<Arc<str>> for TitanString<'a> {
    fn from(s: Arc<str>) -> (r: Self) {
        TitanString::Shared(s)
    }
}

impl<'a> vstd::std_specs::convert::FromSpecImpl<Arc<str>> for TitanString<'a> {
    open spec fn obeys_from_spec() -> bool {
        true
    }

    open spec fn from_spec(s: Arc<str>) -> TitanString<'a> {
        TitanString::Shared(s)
    }
}

impl<'a> From<Cow<'a, str>> for TitanString<'a> {
    fn from(cow: Cow<'a, str>) -> (r: Self) {
        match cow {
            Cow::Borrowed(s) => TitanString::Borrowed(s),
            Cow::Owned(s) => TitanString::Owned(s),
        }
    }
}

impl<'a> vstd::std_specs::convert::FromSpecImpl<Cow<'a, str>> for TitanString<'a> {
    open spec fn obeys_from_spec() -> bool {
        true
    }

    open spec fn from_spec(cow: Cow<'a, str>) -> TitanString<'a> {
        match cow {
            Cow::Borrowed(s) => TitanString::Borrowed(s),
            Cow::Owned(s) => TitanString::Owned(s),
        }
    }
}

impl<'a> From<&'a String> for TitanString<'a> {
    /// Borrows the string's text.
    fn from(s: &'a String) -> (r: Self)
        ensures
            r matches TitanString::Borrowed(b) && b@ == s@,
    {
        TitanString::Borrowed(s.as_str())
    }
}

impl<'a> vstd::std_specs::convert::FromSpecImpl<&'a String> for TitanString<'a> {
    /// The borrowed slice has no name in specifications; the conversion's own `ensures`
    /// states what it gives.
    open spec fn obeys_from_spec() -> bool {
        false
    }

    open spec fn from_spec(s: &'a String) -> TitanString<'a> {
        arbitrary()
    }
}

impl<'a> Default for TitanString<'a> {
    fn default() -> (r: Self)
        ensures
            r == TitanString::<'a>::Borrowed(""),
            r@ == Seq::<char>::empty(),
    {
        proof {
            reveal_strlit("");
        }
        TitanString::Borrowed("")
    }
}

/// Every way of holding a text gives a string equal to the text: the conversions from a
/// slice, a `String` and a shared string agree with `into_owned`.
pub proof fn lemma_titan_string_conversions(s: &str, o: String)
    ensures
        TitanString::Borrowed(s)@ == s@,
        TitanString::<'static>::Owned(o)@ == o@,
{
}

} // verus!
