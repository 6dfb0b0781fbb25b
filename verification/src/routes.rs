//! Laravel routes, as the palette lists them.

use vstd::prelude::*;
use vstd::string::*;

use crate::text;
use crate::text::{join3, join_with, pad_right, to_uppercase};

verus! {

/// A value that was read from source, or the expression that could not be.
pub enum Resolved {
    Known(String),
    Unknown(String),
}

impl Resolved {
    /// What a row shows for it: an expression goes in angle brackets, so that
    /// it is never taken for an answer.
    pub open spec fn shown(&self) -> Seq<char> {
        match self {
            Resolved::Known(text) => text@,
            Resolved::Unknown(source) => "<"@ + source@ + ">"@,
        }
    }

    /// What a row shows for it.
    pub fn show(&self) -> (label: String)
        ensures
            label@ == self.shown(),
    {
        match self {
            Resolved::Known(text) => text.clone(),
            Resolved::Unknown(source) => join3("<", source.as_str(), ">"),
        }
    }
}

/// What a route answers to.
pub enum HttpMethod {
    /// One method by its name, such as `Get`.
    Named(String),
    /// Several verbs at once.
    Match(Vec<String>),
    /// One verb of a resource.
    Resource(String),
}

impl HttpMethod {
    /// The method column of a row.
    pub open spec fn column(&self) -> Seq<char> {
        match self {
            HttpMethod::Named(name) => text::uppercase(name@),
            HttpMethod::Match(verbs) => text::separated(verbs.deep_view(), "|"@),
            HttpMethod::Resource(verb) => verb@,
        }
    }
}

/// A route found in a routes file.
pub struct Route {
    pub method: HttpMethod,
    pub uri: Resolved,
    /// `None` for a route that was never named.
    pub name: Option<Resolved>,
    /// The line it stands on, counted from one.
    pub line: usize,
}

/// A row made of a method column, a path and a name: the method takes at least
/// eight characters, and a route without a name has no name column at all.
pub open spec fn route_row(method: Seq<char>, uri: Seq<char>, name: Option<Seq<char>>) -> Seq<
    char,
> {
    let row = text::padded(method, 8) + uri;
    match name {
        Some(shown) => row + "  "@ + shown,
        None => row,
    }
}

impl Route {
    /// What the name column shows, where there is one.
    pub open spec fn shown_name(&self) -> Option<Seq<char>> {
        match self.name {
            Some(name) => Some(name.shown()),
            None => None,
        }
    }
}

/// Puts the columns of a row together.
pub fn route_row_text(method: &str, uri: &str, name: Option<&str>) -> (row: String)
    ensures
        row@ == route_row(
            method@,
            uri@,
            match name {
                Some(shown) => Some(shown@),
                None => None,
            },
        ),
{
    let mut row = pad_right(method, 8);
    row.append(uri);
    if let Some(shown) = name {
        row.append("  ");
        row.append(shown);
    }
    row
}

/// One palette row for a route: `GET     /users/{user}  users.show`.
///
/// An unread path or name shows the expression that could not be read, which
/// tells the reader both that it is dynamic and what to look at.
pub fn route_label(route: &Route) -> (label: String)
    ensures
        label@ == route_row(route.method.column(), route.uri.shown(), route.shown_name()),
{
    let method = match &route.method {
        HttpMethod::Named(name) => to_uppercase(name.as_str()),
        HttpMethod::Match(verbs) => join_with(verbs, "|"),
        HttpMethod::Resource(verb) => verb.clone(),
    };
    let uri = route.uri.show();
    match &route.name {
        Some(name) => route_row_text(method.as_str(), uri.as_str(), Some(name.show().as_str())),
        None => route_row_text(method.as_str(), uri.as_str(), None),
    }
}

/// A value that is known is shown as it is, and one that is not by its source in
/// brackets.
pub proof fn law_unknown_values_show_their_source(value: Resolved)
    ensures
        value matches Resolved::Known(text) ==> value.shown() == text@,
        value matches Resolved::Unknown(source) ==> value.shown() == "<"@ + source@ + ">"@,
{
}

/// A route's method is shown in capitals, several joined by bars, and a
/// resource's as it is.
pub proof fn law_methods_are_shown(method: HttpMethod)
    ensures
        method matches HttpMethod::Named(name) ==> method.column() == text::uppercase(name@),
        method matches HttpMethod::Match(verbs) ==> method.column() == text::separated(
            verbs.deep_view(),
            "|"@,
        ),
        method matches HttpMethod::Resource(verb) ==> method.column() == verb@,
{
}

/// A row is the method, padded to its column, the address and then the name
/// where the route has one.
pub proof fn law_row_of_a_route(method: Seq<char>, uri: Seq<char>, name: Seq<char>)
    ensures
        route_row(method, uri, None) == text::padded(method, 8) + uri,
        route_row(method, uri, Some(name)) == route_row(method, uri, None) + "  "@ + name,
{
}

/// A route has a name to show exactly where it was given one.
pub proof fn law_named_route_shows_its_name(route: Route)
    ensures
        route.name is Some ==> route.shown_name() == Some(route.name->0.shown()),
        route.name is None ==> route.shown_name() is None,
{
}

} // verus!
