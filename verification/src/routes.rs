//! What the routes decide before anything is sent: the update that a
//! request for one asks for, and the urls that templates link to.

use crate::models::{Battle, BattleUpdate};
use crate::schemas::text_of;
use crate::text::str_eq;
use vstd::prelude::*;
use vstd::string::*;

verus! {

/// The body of a request to update a battle.
pub struct UpdateBattle {
    pub name: Option<String>,
    pub description: Option<String>,
}

impl UpdateBattle {
    /// Decides what the requested update writes: each of name and
    /// description that the request holds.
    pub fn update(self) -> (update: BattleUpdate)
        ensures
            update == match (self.name, self.description) {
                (Some(n), Some(d)) => BattleUpdate::NameAndDescription { name: n, description: d },
                (Some(n), None) => BattleUpdate::Name { name: n },
                (None, Some(d)) => BattleUpdate::Description { description: d },
                (None, None) => BattleUpdate::Nothing,
            },
    {
        Battle::update(self.name, self.description)
    }
}

/// The url of the route called `name`, for the three routes that templates
/// link to.
pub open spec fn spec_route_url(name: Seq<char>) -> Option<Seq<char>> {
    if name == "index"@ {
        Some("/"@)
    } else if name == "battle"@ {
        Some("/battle"@)
    } else if name == "war"@ {
        Some("/war"@)
    } else {
        None
    }
}

/// The url that a template's `url_for` stands for: that of the route
/// called `name`, followed by a slash and `extra` where there is one.
/// There is none without a name.
pub open spec fn spec_url_for(name: Option<Seq<char>>, extra: Option<Seq<char>>) -> Option<
    Seq<char>,
> {
    match name {
        Some(n) => Some(
            match extra {
                Some(e) => spec_route_url(n).unwrap() + "/"@ + e,
                None => spec_route_url(n).unwrap(),
            },
        ),
        None => None,
    }
}

/// Returns the url of the route called `name`, if there is such a route.
pub fn route_url(name: &str) -> (url: Option<&'static str>)
    ensures
        match url {
            Some(u) => spec_route_url(name@) == Some(u@),
            None => spec_route_url(name@) is None,
        },
{
    if str_eq(name, "index") {
        Some("/")
    } else if str_eq(name, "battle") {
        Some("/battle")
    } else if str_eq(name, "war") {
        Some("/war")
    } else {
        None
    }
}

/// The `url_for` of templates: the url of the route called `name`, with
/// `extra` behind a slash where it is given. `name` is the template's
/// `name` argument, where it has one that is a string; without it there is
/// no url. A name that is given names a route.
pub fn url_for(name: Option<&str>, extra: Option<&str>) -> (url: Option<String>)
    requires
        name matches Some(n) ==> spec_route_url(n@) is Some,
    ensures
        text_of(url) == spec_url_for(
            match name {
                Some(n) => Some(n@),
                None => None,
            },
            match extra {
                Some(e) => Some(e@),
                None => None,
            },
        ),
{
    match name {
        Some(v) => {
            let route = route_url(v).unwrap();
            let mut output = String::from_str(route);
            if let Some(extra) = extra {
                output.append("/");
                output.append(extra);
            }
            Some(output)
        },
        None => None,
    }
}

} // verus!
