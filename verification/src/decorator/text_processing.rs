//! Text processing in layers: trimming, upper case, an HTML tag.
use crate::text::{to_uppercase, trim, trimmed, uppercased};
use vstd::prelude::*;
use vstd::string::StringExecFns;

verus! {

/// What turns a text into another.
pub trait TextProcessor {
    /// What `text` becomes.
    spec fn processed(&self, text: Seq<char>) -> Seq<char>;

    /// Processes `text`.
    fn process(&self, text: &str) -> (out: String)
        ensures
            out@ == self.processed(text@),
    ;
}

/// Leaves the text as it is.
#[derive(Debug)]
pub struct PlainTextProcessor;

impl TextProcessor for PlainTextProcessor {
    open spec fn processed(&self, text: Seq<char>) -> Seq<char> {
        text
    }

    fn process(&self, text: &str) -> (out: String) {
        text.to_string()
    }
}

/// Takes the white space off the two ends of what the wrapped processor
/// gives.
#[derive(Debug)]
pub struct TrimDecorator<P> {
    pub processor: P,
}

impl<P: TextProcessor> TrimDecorator<P> {
    /// `processor`, wrapped.
    pub fn new(processor: P) -> (decorator: Self)
        ensures
            decorator.processor == processor,
    {
        TrimDecorator { processor }
    }
}

impl<P: TextProcessor> TextProcessor for TrimDecorator<P> {
    open spec fn processed(&self, text: Seq<char>) -> Seq<char> {
        trimmed(self.processor.processed(text))
    }

    fn process(&self, text: &str) -> (out: String) {
        let inner = self.processor.process(text);
        trim(inner.as_str())
    }
}

/// Puts what the wrapped processor gives into upper case.
#[derive(Debug)]
pub struct UpperCaseDecorator<P> {
    pub processor: P,
}

impl<P: TextProcessor> UpperCaseDecorator<P> {
    /// `processor`, wrapped.
    pub fn new(processor: P) -> (decorator: Self)
        ensures
            decorator.processor == processor,
    {
        UpperCaseDecorator { processor }
    }
}

impl<P: TextProcessor> TextProcessor for UpperCaseDecorator<P> {
    open spec fn processed(&self, text: Seq<char>) -> Seq<char> {
        uppercased(self.processor.processed(text))
    }

    fn process(&self, text: &str) -> (out: String) {
        let inner = self.processor.process(text);
        to_uppercase(inner.as_str())
    }
}

/// `text` between the opening and the closing form of the tag `tag`.
pub open spec fn tagged(tag: Seq<char>, text: Seq<char>) -> Seq<char> {
    "<"@ + tag + ">"@ + text + "</"@ + tag + ">"@
}

/// Puts `text` between the opening and the closing form of the tag `tag`.
pub fn wrap_in_tag(tag: &str, text: &str) -> (out: String)
    ensures
        out@ == tagged(tag@, text@),
{
    let mut out = String::from_str("<");
    out.append(tag);
    out.append(">");
    out.append(text);
    out.append("</");
    out.append(tag);
    out.append(">");
    out
}

/// Puts what the wrapped processor gives into an HTML tag.
#[derive(Debug)]
pub struct HtmlTagDecorator<P> {
    pub processor: P,
    pub tag: String,
}

impl<P: TextProcessor> HtmlTagDecorator<P> {
    /// `processor`, wrapped; its results go into the tag `tag`.
    pub fn new(processor: P, tag: &str) -> (decorator: Self)
        ensures
            decorator.processor == processor,
            decorator.tag@ == tag@,
    {
        HtmlTagDecorator { processor, tag: tag.to_string() }
    }
}

impl<P: TextProcessor> TextProcessor for HtmlTagDecorator<P> {
    open spec fn processed(&self, text: Seq<char>) -> Seq<char> {
        tagged(self.tag@, self.processor.processed(text))
    }

    fn process(&self, text: &str) -> (out: String) {
        let processed_text = self.processor.process(text);
        wrap_in_tag(self.tag.as_str(), processed_text.as_str())
    }
}

} // verus!
