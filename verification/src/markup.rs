use vstd::prelude::*;

verus! {

/// What looking up an attribute of the first element that a selector
/// matches in a document came to.
#[derive(Debug, PartialEq, Eq)]
pub enum Lookup {
    /// The selector is not valid CSS.
    BadSelector,
    /// No element of the document matches.
    NoElement,
    /// The first match lacks the attribute.
    NoAttribute,
    /// The attribute's value on the first match.
    Value(String),
}

/// The mathematical value of a [`Lookup`].
pub enum LookupView {
    BadSelector,
    NoElement,
    NoAttribute,
    Value(Seq<char>),
}

impl View for Lookup {
    type V = LookupView;

    open spec fn view(&self) -> LookupView {
        match *self {
            Lookup::BadSelector => LookupView::BadSelector,
            Lookup::NoElement => LookupView::NoElement,
            Lookup::NoAttribute => LookupView::NoAttribute,
            Lookup::Value(v) => LookupView::Value(v@),
        }
    }
}

/// What the `scraper` crate finds for `attribute` on the first element of the
/// HTML document `document` that matches the CSS selector `selector`.
pub uninterp spec fn looked_up(
    document: Seq<char>,
    selector: Seq<char>,
    attribute: Seq<char>,
) -> LookupView;

/// Calls `scraper::Selector::parse`, `scraper::Html::parse_document` and
/// `Html::select`, and reads the attribute of the first match with
/// `Element::attr`. The contract claims only that the outcome is a function of
/// the three texts, under the name `looked_up`.
#[verifier::external_body]
pub(crate) fn first_attribute(document: &str, selector: &str, attribute: &str) -> (r: Lookup)
    ensures
        r@ == looked_up(document@, selector@, attribute@),
{
    let parsed = match ::scraper::Selector::parse(selector) {
        Ok(s) => s,
        Err(_) => return Lookup::BadSelector,
    };
    let html = ::scraper::Html::parse_document(document);
    let found = html.select(&parsed).next();
    match found.map(|e| e.value().attr(attribute)) {
        None => Lookup::NoElement,
        Some(None) => Lookup::NoAttribute,
        Some(Some(v)) => Lookup::Value(String::from(v)),
    }
}

} // verus!
