//! The record that the lookup returns. Both of its levels may be missing: a
//! record may come without a value, and a value without an `href`.

use vstd::prelude::*;

verus! {

/// The value of a record.
#[derive(Clone, Debug, PartialEq, Eq)]
pub struct AtProtoValue {
    /// Where the page is kept, if the value says.
    pub href: Option<String>,
}

/// What the lookup returns for a key.
#[derive(Clone, Debug, PartialEq, Eq)]
pub struct AtProtoResponse {
    /// The value of the record, if it has one.
    pub value: Option<AtProtoValue>,
}

/// What a record resolves to.
#[derive(Clone, Debug, PartialEq, Eq)]
pub enum Resolution {
    /// The record has no value.
    NoValue,
    /// The record has a value, which has no `href`.
    NoHref,
    /// The record names this place.
    Href(String),
}

/// A record's value as plain values.
pub struct AtProtoValueView {
    pub href: Option<Seq<char>>,
}

/// A record as plain values.
pub struct AtProtoResponseView {
    pub value: Option<AtProtoValueView>,
}

/// A resolution as plain values.
pub enum ResolutionView {
    NoValue,
    NoHref,
    Href(Seq<char>),
}

impl View for AtProtoValue {
    type V = AtProtoValueView;

    open spec fn view(&self) -> AtProtoValueView {
        AtProtoValueView { href: self.href.deep_view() }
    }
}

impl View for AtProtoResponse {
    type V = AtProtoResponseView;

    open spec fn view(&self) -> AtProtoResponseView {
        AtProtoResponseView {
            value: match self.value {
                Some(value) => Some(value@),
                None => None,
            },
        }
    }
}

impl View for Resolution {
    type V = ResolutionView;

    open spec fn view(&self) -> ResolutionView {
        match self {
            Resolution::NoValue => ResolutionView::NoValue,
            Resolution::NoHref => ResolutionView::NoHref,
            Resolution::Href(href) => ResolutionView::Href(href@),
        }
    }
}

impl AtProtoResponseView {
    /// The place that the record names, if it has a value and the value an
    /// `href`.
    pub open spec fn href(self) -> Option<Seq<char>> {
        match self.value {
            Some(value) => value.href,
            None => None,
        }
    }

    /// What the record resolves to, the two ways of naming no place kept
    /// apart.
    pub open spec fn resolution(self) -> ResolutionView {
        match self.value {
            None => ResolutionView::NoValue,
            Some(value) => match value.href {
                None => ResolutionView::NoHref,
                Some(href) => ResolutionView::Href(href),
            },
        }
    }
}

impl AtProtoResponse {
    /// What the record resolves to.
    pub fn resolve(self) -> (resolution: Resolution)
        ensures
            resolution@ == self@.resolution(),
            resolution is Href <==> self@.href() is Some,
            resolution matches Resolution::Href(href) ==> Some(href@) == self@.href(),
    {
        match self.value {
            None => Resolution::NoValue,
            Some(value) => match value.href {
                None => Resolution::NoHref,
                Some(href) => Resolution::Href(href),
            },
        }
    }
}

} // verus!
