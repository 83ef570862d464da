//! String-based identifier tags.
//!
//! A tag is a stable identifier created from a string; equality and hash are
//! over the character content. Three disjoint kinds exist — monitor, deadline
//! and state — so that call sites cannot mix them up, plus the deadline
//! identifier [`IdentTag`] used when registering individual deadlines.

use vstd::prelude::*;
use vstd::string::StringExecFns;

verus! {

/// Common string-based tag: an immutable identifier whose identity is the
/// character content, not the allocation it came from.
#[derive(Debug, Hash)]
pub struct Tag {
    text: String,
}

impl View for Tag {
    type V = Seq<char>;

    closed spec fn view(&self) -> Seq<char> {
        self.text@
    }
}

impl Tag {
    /// Builds a tag from a string slice.
    pub fn from_str(name: &str) -> (r: Self)
        ensures
            r@ == name@,
    {
        Self { text: name.to_owned() }
    }

    /// Builds a tag from an owned string.
    pub fn from_string(name: String) -> (r: Self)
        ensures
            r@ == name@,
    {
        Self { text: name }
    }

    /// The character content of the tag.
    pub fn as_str(&self) -> (r: &str)
        ensures
            r@ == self@,
    {
        self.text.as_str()
    }

    /// Rendering of the tag for diagnostics, `Tag(<content>)`.
    pub fn debug_string(&self) -> (r: String)
        ensures
            r@ == "Tag("@ + self@ + ")"@,
    {
        let mut out: String = "Tag(".to_owned();
        out.append(self.text.as_str());
        out.append(")");
        out
    }
}

impl Clone for Tag {
    fn clone(&self) -> (r: Self)
        ensures
            r@ == self@,
    {
        Self { text: self.text.clone() }
    }
}

impl PartialEq for Tag {
    fn eq(&self, other: &Self) -> (r: bool) {
        self.text == other.text
    }
}

impl vstd::std_specs::cmp::PartialEqSpecImpl for Tag {
    open spec fn obeys_eq_spec() -> bool {
        true
    }

    open spec fn eq_spec(&self, other: &Tag) -> bool {
        self@ == other@
    }
}

/// Unique identifier for a registered deadline.
#[derive(Debug, Hash)]
pub struct IdentTag {
    inner: Tag,
}

impl View for IdentTag {
    type V = Seq<char>;

    closed spec fn view(&self) -> Seq<char> {
        self.inner@
    }
}

impl IdentTag {
    /// Builds a deadline identifier from a string slice.
    pub fn new(data: &str) -> (r: Self)
        ensures
            r@ == data@,
    {
        Self { inner: Tag::from_str(data) }
    }

    /// Builds a deadline identifier from a string slice.
    pub fn from_str(name: &str) -> (r: Self)
        ensures
            r@ == name@,
    {
        Self { inner: Tag::from_str(name) }
    }

    /// Builds a deadline identifier from an owned string.
    pub fn from_string(name: String) -> (r: Self)
        ensures
            r@ == name@,
    {
        Self { inner: Tag::from_string(name) }
    }

    /// The character content of the identifier.
    pub fn as_str(&self) -> (r: &str)
        ensures
            r@ == self@,
    {
        self.inner.as_str()
    }

    /// Rendering for diagnostics, `IdentTag(<content>)`.
    pub fn debug_string(&self) -> (r: String)
        ensures
            r@ == "IdentTag("@ + self@ + ")"@,
    {
        let mut out: String = "IdentTag(".to_owned();
        out.append(self.inner.as_str());
        out.append(")");
        out
    }
}

impl Clone for IdentTag {
    fn clone(&self) -> (r: Self)
        ensures
            r@ == self@,
    {
        Self { inner: self.inner.clone() }
    }
}

impl PartialEq for IdentTag {
    fn eq(&self, other: &Self) -> (r: bool) {
        self.inner == other.inner
    }
}

impl vstd::std_specs::cmp::PartialEqSpecImpl for IdentTag {
    open spec fn obeys_eq_spec() -> bool {
        true
    }

    open spec fn eq_spec(&self, other: &IdentTag) -> bool {
        self@ == other@
    }
}

/// Tag identifying one monitor inside a health monitor.
#[derive(Debug, Hash)]
pub struct MonitorTag {
    inner: Tag,
}

impl View for MonitorTag {
    type V = Seq<char>;

    closed spec fn view(&self) -> Seq<char> {
        self.inner@
    }
}

impl MonitorTag {
    /// Builds a monitor tag from a string slice.
    pub fn from_str(name: &str) -> (r: Self)
        ensures
            r@ == name@,
    {
        Self { inner: Tag::from_str(name) }
    }

    /// Builds a monitor tag from an owned string.
    pub fn from_string(name: String) -> (r: Self)
        ensures
            r@ == name@,
    {
        Self { inner: Tag::from_string(name) }
    }

    /// The character content of the tag.
    pub fn as_str(&self) -> (r: &str)
        ensures
            r@ == self@,
    {
        self.inner.as_str()
    }

    /// Rendering for diagnostics, `MonitorTag(<content>)`.
    pub fn debug_string(&self) -> (r: String)
        ensures
            r@ == "MonitorTag("@ + self@ + ")"@,
    {
        let mut out: String = "MonitorTag(".to_owned();
        out.append(self.inner.as_str());
        out.append(")");
        out
    }
}

impl Clone for MonitorTag {
    fn clone(&self) -> (r: Self)
        ensures
            r@ == self@,
    {
        Self { inner: self.inner.clone() }
    }
}

impl PartialEq for MonitorTag {
    fn eq(&self, other: &Self) -> (r: bool) {
        self.inner == other.inner
    }
}

impl vstd::std_specs::cmp::PartialEqSpecImpl for MonitorTag {
    open spec fn obeys_eq_spec() -> bool {
        true
    }

    open spec fn eq_spec(&self, other: &MonitorTag) -> bool {
        self@ == other@
    }
}

/// Tag identifying one deadline template of a deadline monitor.
#[derive(Debug, Hash)]
pub struct DeadlineTag {
    inner: Tag,
}

impl View for DeadlineTag {
    type V = Seq<char>;

    closed spec fn view(&self) -> Seq<char> {
        self.inner@
    }
}

impl DeadlineTag {
    /// Builds a deadline tag from a string slice.
    pub fn from_str(name: &str) -> (r: Self)
        ensures
            r@ == name@,
    {
        Self { inner: Tag::from_str(name) }
    }

    /// Builds a deadline tag from an owned string.
    pub fn from_string(name: String) -> (r: Self)
        ensures
            r@ == name@,
    {
        Self { inner: Tag::from_string(name) }
    }

    /// The character content of the tag.
    pub fn as_str(&self) -> (r: &str)
        ensures
            r@ == self@,
    {
        self.inner.as_str()
    }

    /// Rendering for diagnostics, `DeadlineTag(<content>)`.
    pub fn debug_string(&self) -> (r: String)
        ensures
            r@ == "DeadlineTag("@ + self@ + ")"@,
    {
        let mut out: String = "DeadlineTag(".to_owned();
        out.append(self.inner.as_str());
        out.append(")");
        out
    }
}

impl Clone for DeadlineTag {
    fn clone(&self) -> (r: Self)
        ensures
            r@ == self@,
    {
        Self { inner: self.inner.clone() }
    }
}

impl PartialEq for DeadlineTag {
    fn eq(&self, other: &Self) -> (r: bool) {
        self.inner == other.inner
    }
}

impl vstd::std_specs::cmp::PartialEqSpecImpl for DeadlineTag {
    open spec fn obeys_eq_spec() -> bool {
        true
    }

    open spec fn eq_spec(&self, other: &DeadlineTag) -> bool {
        self@ == other@
    }
}

/// Tag identifying one state of a logic monitor.
#[derive(Debug, Hash)]
pub struct StateTag {
    inner: Tag,
}

impl View for StateTag {
    type V = Seq<char>;

    closed spec fn view(&self) -> Seq<char> {
        self.inner@
    }
}

impl StateTag {
    /// Builds a state tag from a string slice.
    pub fn from_str(name: &str) -> (r: Self)
        ensures
            r@ == name@,
    {
        Self { inner: Tag::from_str(name) }
    }

    /// Builds a state tag from an owned string.
    pub fn from_string(name: String) -> (r: Self)
        ensures
            r@ == name@,
    {
        Self { inner: Tag::from_string(name) }
    }

    /// The character content of the tag.
    pub fn as_str(&self) -> (r: &str)
        ensures
            r@ == self@,
    {
        self.inner.as_str()
    }

    /// Rendering for diagnostics, `StateTag(<content>)`.
    pub fn debug_string(&self) -> (r: String)
        ensures
            r@ == "StateTag("@ + self@ + ")"@,
    {
        let mut out: String = "StateTag(".to_owned();
        out.append(self.inner.as_str());
        out.append(")");
        out
    }
}

impl Clone for StateTag {
    fn clone(&self) -> (r: Self)
        ensures
            r@ == self@,
    {
        Self { inner: self.inner.clone() }
    }
}

impl PartialEq for StateTag {
    fn eq(&self, other: &Self) -> (r: bool) {
        self.inner == other.inner
    }
}

impl vstd::std_specs::cmp::PartialEqSpecImpl for StateTag {
    open spec fn obeys_eq_spec() -> bool {
        true
    }

    open spec fn eq_spec(&self, other: &StateTag) -> bool {
        self@ == other@
    }
}

} // verus!
