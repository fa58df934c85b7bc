//! Building XML fragments by hand with the escaping of canonical XML
//! (bergshamra's C14N escapers), and the markup such a fragment consists of.

use vstd::prelude::*;
use crate::text::push_str;

verus! {

/// The C14N replacement text of a character in element content.
pub open spec fn text_entity(c: char) -> Seq<char> {
    if c == '&' {
        seq!['&', 'a', 'm', 'p', ';']
    } else if c == '<' {
        seq!['&', 'l', 't', ';']
    } else if c == '>' {
        seq!['&', 'g', 't', ';']
    } else if c == '\r' {
        seq!['&', '#', 'x', 'D', ';']
    } else {
        seq![c]
    }
}

/// The C14N replacement text of a character in an attribute value.
pub open spec fn attr_entity(c: char) -> Seq<char> {
    if c == '&' {
        seq!['&', 'a', 'm', 'p', ';']
    } else if c == '<' {
        seq!['&', 'l', 't', ';']
    } else if c == '"' {
        seq!['&', 'q', 'u', 'o', 't', ';']
    } else if c == '\t' {
        seq!['&', '#', 'x', '9', ';']
    } else if c == '\n' {
        seq!['&', '#', 'x', 'A', ';']
    } else if c == '\r' {
        seq!['&', '#', 'x', 'D', ';']
    } else {
        seq![c]
    }
}

/// Element content escaped per C14N: `& < > CR` become entities.
pub open spec fn escaped_text(s: Seq<char>) -> Seq<char>
    decreases s.len(),
{
    if s.len() == 0 {
        Seq::empty()
    } else {
        escaped_text(s.drop_last()) + text_entity(s.last())
    }
}

/// An attribute value escaped per C14N: `& < " TAB LF CR` become entities.
pub open spec fn escaped_attr(s: Seq<char>) -> Seq<char>
    decreases s.len(),
{
    if s.len() == 0 {
        Seq::empty()
    } else {
        escaped_attr(s.drop_last()) + attr_entity(s.last())
    }
}

/// `bergshamra_c14n::escape::escape_text`: each `&`, `<`, `>` and carriage
/// return replaced by its entity, every other character kept.
#[verifier::external_body]
pub fn escape_text(s: &str) -> (r: String)
    ensures
        r@ == escaped_text(s@),
{
    bergshamra_c14n::escape::escape_text(s)
}

/// `bergshamra_c14n::escape::escape_attr`: each `&`, `<`, `"`, tab, line feed
/// and carriage return replaced by its entity, every other character kept.
#[verifier::external_body]
pub fn escape_attr(s: &str) -> (r: String)
    ensures
        r@ == escaped_attr(s@),
{
    bergshamra_c14n::escape::escape_attr(s)
}

/// ` name="value"` for each attribute, with the value escaped, in order.
pub open spec fn attrs_text(attrs: Seq<(Seq<char>, Seq<char>)>) -> Seq<char>
    decreases attrs.len(),
{
    if attrs.len() == 0 {
        Seq::empty()
    } else {
        attrs_text(attrs.drop_last()) + seq![' '] + attrs.last().0 + seq!['=', '"'] + escaped_attr(attrs.last().1)
            + seq!['"']
    }
}

/// The names and values of attributes given as string slices.
pub open spec fn pairs_view(attrs: Seq<(&str, &str)>) -> Seq<(Seq<char>, Seq<char>)> {
    Seq::new(attrs.len(), |i: int| (attrs[i].0@, attrs[i].1@))
}

/// The start tag `<name attrs>`.
pub open spec fn start_tag(name: Seq<char>, attrs: Seq<(Seq<char>, Seq<char>)>) -> Seq<char> {
    seq!['<'] + name + attrs_text(attrs) + seq!['>']
}

/// The empty-element tag `<name attrs/>`.
pub open spec fn empty_tag(name: Seq<char>, attrs: Seq<(Seq<char>, Seq<char>)>) -> Seq<char> {
    seq!['<'] + name + attrs_text(attrs) + seq!['/', '>']
}

/// The end tag `</name>`.
pub open spec fn end_tag(name: Seq<char>) -> Seq<char> {
    seq!['<', '/'] + name + seq!['>']
}

/// An element with escaped text content and no attributes.
pub open spec fn text_element(name: Seq<char>, text: Seq<char>) -> Seq<char> {
    start_tag(name, Seq::empty()) + escaped_text(text) + end_tag(name)
}

/// Accumulates an XML fragment.
pub struct MarkupWriter {
    buf: String,
}

impl View for MarkupWriter {
    type V = Seq<char>;

    closed spec fn view(&self) -> Seq<char> {
        self.buf@
    }
}

impl MarkupWriter {
    /// An empty writer.
    pub fn new() -> (r: MarkupWriter)
        ensures
            r@ == Seq::<char>::empty(),
    {
        MarkupWriter { buf: String::new() }
    }

    /// Writes `<name` and the attributes, leaving the tag open.
    fn open_tag(&mut self, name: &str, attrs: &[(&str, &str)])
        ensures
            final(self)@ == old(self)@ + seq!['<'] + name@ + attrs_text(pairs_view(attrs@)),
    {
        let ghost start = self@;
        push_str(&mut self.buf, "<");
        push_str(&mut self.buf, name);
        proof {
            reveal_strlit("<");
            assert(pairs_view(attrs@).subrange(0, 0) =~= Seq::<(Seq<char>, Seq<char>)>::empty());
            assert(self@ =~= start + seq!['<'] + name@ + attrs_text(pairs_view(attrs@).subrange(0, 0)));
        }
        let mut i: usize = 0;
        while i < attrs.len()
            invariant
                i <= attrs.len(),
                self@ == start + seq!['<'] + name@ + attrs_text(pairs_view(attrs@).subrange(0, i as int)),
            decreases attrs.len() - i,
        {
            let (k, v) = attrs[i];
            push_str(&mut self.buf, " ");
            push_str(&mut self.buf, k);
            push_str(&mut self.buf, "=\"");
            let e = escape_attr(v);
            push_str(&mut self.buf, e.as_str());
            push_str(&mut self.buf, "\"");
            proof {
                reveal_strlit(" ");
                reveal_strlit("=\"");
                reveal_strlit("\"");
                let pv = pairs_view(attrs@);
                assert(pv.subrange(0, i + 1).drop_last() =~= pv.subrange(0, i as int));
                assert(pv.subrange(0, i + 1).last() == (k@, v@));
                assert(self@ =~= start + seq!['<'] + name@ + attrs_text(pv.subrange(0, i + 1)));
            }
            i = i + 1;
        }
        assert(pairs_view(attrs@).subrange(0, i as int) =~= pairs_view(attrs@));
    }

    /// Writes the start tag of `name` with the given attributes.
    pub fn start_element(&mut self, name: &str, attrs: &[(&str, &str)])
        ensures
            final(self)@ == old(self)@ + start_tag(name@, pairs_view(attrs@)),
    {
        let ghost start = self@;
        self.open_tag(name, attrs);
        push_str(&mut self.buf, ">");
        proof {
            reveal_strlit(">");
            assert(self@ =~= start + start_tag(name@, pairs_view(attrs@)));
        }
    }

    /// Writes the empty-element tag `<name attrs/>`.
    pub fn empty_element(&mut self, name: &str, attrs: &[(&str, &str)])
        ensures
            final(self)@ == old(self)@ + empty_tag(name@, pairs_view(attrs@)),
    {
        let ghost start = self@;
        self.open_tag(name, attrs);
        push_str(&mut self.buf, "/>");
        proof {
            reveal_strlit("/>");
            assert(self@ =~= start + empty_tag(name@, pairs_view(attrs@)));
        }
    }

    /// Writes the end tag of `name`.
    pub fn end_element(&mut self, name: &str)
        ensures
            final(self)@ == old(self)@ + end_tag(name@),
    {
        let ghost start = self@;
        push_str(&mut self.buf, "</");
        push_str(&mut self.buf, name);
        push_str(&mut self.buf, ">");
        proof {
            reveal_strlit("</");
            reveal_strlit(">");
            assert(self@ =~= start + end_tag(name@));
        }
    }

    /// Writes escaped text content.
    pub fn text(&mut self, s: &str)
        ensures
            final(self)@ == old(self)@ + escaped_text(s@),
    {
        let e = escape_text(s);
        push_str(&mut self.buf, e.as_str());
    }

    /// Writes markup verbatim.
    pub fn raw(&mut self, s: &str)
        ensures
            final(self)@ == old(self)@ + s@,
    {
        push_str(&mut self.buf, s);
    }

    /// Writes `<name>text</name>` with the text escaped.
    pub fn text_element(&mut self, name: &str, text: &str)
        ensures
            final(self)@ == old(self)@ + text_element(name@, text@),
    {
        let ghost start = self@;
        self.start_element(name, &[]);
        self.text(text);
        self.end_element(name);
        proof {
            assert(pairs_view(Seq::<(&str, &str)>::empty()) =~= Seq::<(Seq<char>, Seq<char>)>::empty());
            assert(self@ =~= start + text_element(name@, text@));
        }
    }

    /// The fragment written so far.
    pub fn into_string(self) -> (r: String)
        ensures
            r@ == self@,
    {
        self.buf
    }
}

} // verus!
