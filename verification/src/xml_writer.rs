//! uppsala's push-based `XmlWriter`, with what each of its calls appends
//! given a name.  uppsala sanitizes element and attribute names, keeps
//! attribute names of one element distinct, escapes text and attribute
//! values and replaces characters that XML forbids; the names below stand
//! for that output, and the tests hold them to concrete values.

use vstd::prelude::*;
use crate::markup::pairs_view;

verus! {

/// The push-based writer of the `uppsala` crate.
#[verifier::external_type_specification]
#[verifier::external_body]
pub struct ExUppsalaXmlWriter(uppsala::XmlWriter);

/// What an `uppsala::XmlWriter` holds: the markup written into it so far.
pub uninterp spec fn written(w: uppsala::XmlWriter) -> Seq<char>;

/// What `uppsala::XmlWriter::start_element` appends for an element name and
/// its attributes, in order.
pub uninterp spec fn start_element_markup(name: Seq<char>, attrs: Seq<(Seq<char>, Seq<char>)>) -> Seq<char>;

/// What `uppsala::XmlWriter::empty_element` appends for an element name and
/// its attributes, in order.
pub uninterp spec fn empty_element_markup(name: Seq<char>, attrs: Seq<(Seq<char>, Seq<char>)>) -> Seq<char>;

/// What `uppsala::XmlWriter::end_element` appends for an element name.
pub uninterp spec fn end_element_markup(name: Seq<char>) -> Seq<char>;

/// What `uppsala::XmlWriter::text` appends for a text content.
pub uninterp spec fn text_markup(content: Seq<char>) -> Seq<char>;

/// `uppsala::XmlWriter::new`: a writer whose buffer is empty.
#[verifier::external_body]
fn writer_new() -> (r: uppsala::XmlWriter)
    ensures
        written(r) == Seq::<char>::empty(),
{
    uppsala::XmlWriter::new()
}

/// `uppsala::XmlWriter::start_element`: appends the start tag of `name` with
/// the attributes, as `start_element_markup` names it.
#[verifier::external_body]
fn writer_start_element(w: &mut uppsala::XmlWriter, name: &str, attrs: &[(&str, &str)])
    ensures
        written(*final(w)) == written(*old(w)) + start_element_markup(name@, pairs_view(attrs@)),
{
    w.start_element(name, attrs)
}

/// `uppsala::XmlWriter::empty_element`: appends the empty-element tag of
/// `name` with the attributes, as `empty_element_markup` names it.
#[verifier::external_body]
fn writer_empty_element(w: &mut uppsala::XmlWriter, name: &str, attrs: &[(&str, &str)])
    ensures
        written(*final(w)) == written(*old(w)) + empty_element_markup(name@, pairs_view(attrs@)),
{
    w.empty_element(name, attrs)
}

/// `uppsala::XmlWriter::end_element`: appends the end tag of `name`, as
/// `end_element_markup` names it.
#[verifier::external_body]
fn writer_end_element(w: &mut uppsala::XmlWriter, name: &str)
    ensures
        written(*final(w)) == written(*old(w)) + end_element_markup(name@),
{
    w.end_element(name)
}

/// `uppsala::XmlWriter::text`: appends the escaped text, as `text_markup`
/// names it.
#[verifier::external_body]
fn writer_text(w: &mut uppsala::XmlWriter, content: &str)
    ensures
        written(*final(w)) == written(*old(w)) + text_markup(content@),
{
    w.text(content)
}

/// `uppsala::XmlWriter::raw`: appends `xml` verbatim.
#[verifier::external_body]
fn writer_raw(w: &mut uppsala::XmlWriter, xml: &str)
    ensures
        written(*final(w)) == written(*old(w)) + xml@,
{
    w.raw(xml)
}

/// `uppsala::XmlWriter::into_string`: the buffer written so far.
#[verifier::external_body]
fn writer_into_string(w: uppsala::XmlWriter) -> (r: String)
    ensures
        r@ == written(w),
{
    w.into_string()
}

/// Accumulates XML through an `uppsala::XmlWriter`.
pub struct XmlBuffer {
    inner: uppsala::XmlWriter,
}

impl View for XmlBuffer {
    type V = Seq<char>;

    closed spec fn view(&self) -> Seq<char> {
        written(self.inner)
    }
}

impl XmlBuffer {
    /// An empty buffer.
    pub fn new() -> (r: XmlBuffer)
        ensures
            r@ == Seq::<char>::empty(),
    {
        XmlBuffer { inner: writer_new() }
    }

    /// Appends the start tag of `name` with the attributes.
    pub fn start_element(&mut self, name: &str, attrs: &[(&str, &str)])
        ensures
            final(self)@ == old(self)@ + start_element_markup(name@, pairs_view(attrs@)),
    {
        writer_start_element(&mut self.inner, name, attrs)
    }

    /// Appends the empty-element tag of `name` with the attributes.
    pub fn empty_element(&mut self, name: &str, attrs: &[(&str, &str)])
        ensures
            final(self)@ == old(self)@ + empty_element_markup(name@, pairs_view(attrs@)),
    {
        writer_empty_element(&mut self.inner, name, attrs)
    }

    /// Appends the end tag of `name`.
    pub fn end_element(&mut self, name: &str)
        ensures
            final(self)@ == old(self)@ + end_element_markup(name@),
    {
        writer_end_element(&mut self.inner, name)
    }

    /// Appends escaped text content.
    pub fn text(&mut self, content: &str)
        ensures
            final(self)@ == old(self)@ + text_markup(content@),
    {
        writer_text(&mut self.inner, content)
    }

    /// Appends markup verbatim.
    pub fn raw(&mut self, xml: &str)
        ensures
            final(self)@ == old(self)@ + xml@,
    {
        writer_raw(&mut self.inner, xml)
    }

    /// The markup written so far.
    pub fn into_string(self) -> (r: String)
        ensures
            r@ == self@,
    {
        writer_into_string(self.inner)
    }
}

} // verus!
