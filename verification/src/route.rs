//! The route table of the gateway.
//!
//! Eight GET routes are served. Each route resolves to one upstream URL on
//! the fixed base `https://api.brawlstars.com`; tag-like parameters are
//! prefixed with the pre-escaped `%23` (a `#`), numeric parameters are
//! rendered in decimal, and the other parameters are taken verbatim.

use vstd::prelude::*;

use crate::digits::decimal_numeral;
use crate::digits::decimal_value;
use crate::digits::is_u32_numeral;
use crate::digits::parse_u32;
use crate::digits::u32_to_decimal;
use crate::str_eq;

verus! {

/// One of the eight routes the gateway serves, with its path parameters.
#[derive(Debug, PartialEq, Eq)]
pub enum Route {
    /// `GET /player/{tag}`
    Player { tag: String },
    /// `GET /player/{tag}/battlelog`
    Battlelog { tag: String },
    /// `GET /clubs/{tag}`
    Club { tag: String },
    /// `GET /brawlers`
    Brawlers,
    /// `GET /brawlers/{id}`
    BrawlerById { id: u32 },
    /// `GET /events`
    Events,
    /// `GET /rankings/{code}/players`
    RankingsPlayers { code: String },
    /// `GET /rankings/{code}/clubs`
    RankingsClubs { code: String },
}

/// The fixed base every upstream URL starts with.
pub open spec fn upstream_base() -> Seq<char> {
    "https://api.brawlstars.com"@
}

/// The upstream path a route resolves to, relative to the base.
pub open spec fn upstream_path_spec(r: Route) -> Seq<char> {
    match r {
        Route::Player { tag } => "/v1/players/%23"@ + tag@,
        Route::Battlelog { tag } => "/v1/players/%23"@ + tag@ + "/battlelog"@,
        Route::Club { tag } => "/v1/clubs/%23"@ + tag@,
        Route::Brawlers => "/v1/brawlers"@,
        Route::BrawlerById { id } => "/v1/brawlers/"@ + decimal_numeral(id as nat),
        Route::Events => "/v1/events/rotation"@,
        Route::RankingsPlayers { code } => "/v1/rankings/"@ + code@ + "/players"@,
        Route::RankingsClubs { code } => "/v1/rankings/"@ + code@ + "/clubs"@,
    }
}

/// The absolute upstream URL a route resolves to.
pub open spec fn upstream_url_spec(r: Route) -> Seq<char> {
    match r {
        Route::Player { tag } => "https://api.brawlstars.com/v1/players/%23"@ + tag@,
        Route::Battlelog { tag } => "https://api.brawlstars.com/v1/players/%23"@ + tag@
            + "/battlelog"@,
        Route::Club { tag } => "https://api.brawlstars.com/v1/clubs/%23"@ + tag@,
        Route::Brawlers => "https://api.brawlstars.com/v1/brawlers"@,
        Route::BrawlerById { id } => "https://api.brawlstars.com/v1/brawlers/"@ + decimal_numeral(
            id as nat,
        ),
        Route::Events => "https://api.brawlstars.com/v1/events/rotation"@,
        Route::RankingsPlayers { code } => "https://api.brawlstars.com/v1/rankings/"@ + code@
            + "/players"@,
        Route::RankingsClubs { code } => "https://api.brawlstars.com/v1/rankings/"@ + code@
            + "/clubs"@,
    }
}

/// Law: every upstream URL is the fixed base `https://api.brawlstars.com`
/// followed by the route's upstream path, for each of the eight routes.
pub proof fn lemma_upstream_url_is_base_plus_path(r: Route)
    ensures
        upstream_url_spec(r) == upstream_base() + upstream_path_spec(r),
{
    reveal_strlit("https://api.brawlstars.com");
    reveal_strlit("https://api.brawlstars.com/v1/players/%23");
    reveal_strlit("/v1/players/%23");
    reveal_strlit("https://api.brawlstars.com/v1/clubs/%23");
    reveal_strlit("/v1/clubs/%23");
    reveal_strlit("https://api.brawlstars.com/v1/brawlers");
    reveal_strlit("/v1/brawlers");
    reveal_strlit("https://api.brawlstars.com/v1/brawlers/");
    reveal_strlit("/v1/brawlers/");
    reveal_strlit("https://api.brawlstars.com/v1/events/rotation");
    reveal_strlit("/v1/events/rotation");
    reveal_strlit("https://api.brawlstars.com/v1/rankings/");
    reveal_strlit("/v1/rankings/");
    match r {
        Route::Player { tag } => {
            assert(upstream_url_spec(r) =~= upstream_base() + upstream_path_spec(r));
        },
        Route::Battlelog { tag } => {
            assert(upstream_url_spec(r) =~= upstream_base() + upstream_path_spec(r));
        },
        Route::Club { tag } => {
            assert(upstream_url_spec(r) =~= upstream_base() + upstream_path_spec(r));
        },
        Route::Brawlers => {
            assert(upstream_url_spec(r) =~= upstream_base() + upstream_path_spec(r));
        },
        Route::BrawlerById { id } => {
            assert(upstream_url_spec(r) =~= upstream_base() + upstream_path_spec(r));
        },
        Route::Events => {
            assert(upstream_url_spec(r) =~= upstream_base() + upstream_path_spec(r));
        },
        Route::RankingsPlayers { code } => {
            assert(upstream_url_spec(r) =~= upstream_base() + upstream_path_spec(r));
        },
        Route::RankingsClubs { code } => {
            assert(upstream_url_spec(r) =~= upstream_base() + upstream_path_spec(r));
        },
    }
}

impl Route {
    /// Builds the absolute upstream URL for this route.
    pub fn upstream_url(&self) -> (r: String)
        ensures
            r@ == upstream_url_spec(*self),
    {
        match self {
            Route::Player { tag } => String::from_str(
                "https://api.brawlstars.com/v1/players/%23",
            ).concat(tag.as_str()),
            Route::Battlelog { tag } => String::from_str(
                "https://api.brawlstars.com/v1/players/%23",
            ).concat(tag.as_str()).concat("/battlelog"),
            Route::Club { tag } => String::from_str(
                "https://api.brawlstars.com/v1/clubs/%23",
            ).concat(tag.as_str()),
            Route::Brawlers => String::from_str("https://api.brawlstars.com/v1/brawlers"),
            Route::BrawlerById { id } => String::from_str(
                "https://api.brawlstars.com/v1/brawlers/",
            ).concat(u32_to_decimal(*id).as_str()),
            Route::Events => String::from_str("https://api.brawlstars.com/v1/events/rotation"),
            Route::RankingsPlayers { code } => String::from_str(
                "https://api.brawlstars.com/v1/rankings/",
            ).concat(code.as_str()).concat("/players"),
            Route::RankingsClubs { code } => String::from_str(
                "https://api.brawlstars.com/v1/rankings/",
            ).concat(code.as_str()).concat("/clubs"),
        }
    }
}

/// The views of a sequence of path segments.
pub open spec fn seg_views(segs: Seq<String>) -> Seq<Seq<char>> {
    segs.map_values(|s: String| s@)
}

/// Whether the path written as segments `p` selects the route `r` under the
/// route table.
pub open spec fn route_matches(p: Seq<Seq<char>>, r: Route) -> bool {
    match r {
        Route::Player { tag } => p.len() == 2 && p[0] == "player"@ && p[1] == tag@,
        Route::Battlelog { tag } => p.len() == 3 && p[0] == "player"@ && p[2] == "battlelog"@
            && p[1] == tag@,
        Route::Club { tag } => p.len() == 2 && p[0] == "clubs"@ && p[1] == tag@,
        Route::Brawlers => p.len() == 1 && p[0] == "brawlers"@,
        Route::BrawlerById { id } => p.len() == 2 && p[0] == "brawlers"@ && is_u32_numeral(p[1])
            && id as int == decimal_value(p[1]),
        Route::Events => p.len() == 1 && p[0] == "events"@,
        Route::RankingsPlayers { code } => p.len() == 3 && p[0] == "rankings"@ && p[2]
            == "players"@ && p[1] == code@,
        Route::RankingsClubs { code } => p.len() == 3 && p[0] == "rankings"@ && p[2] == "clubs"@
            && p[1] == code@,
    }
}

/// Whether some route of the table matches the path written as segments `p`.
pub open spec fn some_route_matches(p: Seq<Seq<char>>) -> bool {
    ||| (p.len() == 1 && (p[0] == "brawlers"@ || p[0] == "events"@))
    ||| (p.len() == 2 && (p[0] == "player"@ || p[0] == "clubs"@))
    ||| (p.len() == 2 && p[0] == "brawlers"@ && is_u32_numeral(p[1]))
    ||| (p.len() == 3 && p[0] == "player"@ && p[2] == "battlelog"@)
    ||| (p.len() == 3 && p[0] == "rankings"@ && (p[2] == "players"@ || p[2] == "clubs"@))
}

/// Law: dispatch is deterministic. When a path selects a route of the
/// table, the route and its parameters are determined up to the upstream
/// URL they resolve to: two routes matching the same path resolve alike.
pub proof fn lemma_route_dispatch_deterministic(p: Seq<Seq<char>>, r1: Route, r2: Route)
    requires
        route_matches(p, r1),
        route_matches(p, r2),
    ensures
        upstream_url_spec(r1) == upstream_url_spec(r2),
{
    broadcast use vstd::string::group_string_axioms;

    reveal_strlit("player");
    reveal_strlit("clubs");
    reveal_strlit("brawlers");
    reveal_strlit("events");
    reveal_strlit("rankings");
    reveal_strlit("battlelog");
    reveal_strlit("players");
    assert("player"@.len() == 6);
    assert("clubs"@.len() == 5);
    assert("brawlers"@.len() == 8);
    assert("events"@.len() == 6);
    assert("rankings"@.len() == 8);
    assert("battlelog"@.len() == 9);
    assert("players"@.len() == 7);
    match r1 {
        Route::Player { tag: t1 } => {
            assert(r2 is Player);
            assert(r2->Player_tag@ == t1@);
        },
        Route::Battlelog { tag: t1 } => {
            assert(r2 is Battlelog);
            assert(r2->Battlelog_tag@ == t1@);
        },
        Route::Club { tag: t1 } => {
            assert(r2 is Club);
            assert(r2->Club_tag@ == t1@);
        },
        Route::Brawlers => {
            assert(r2 is Brawlers);
        },
        Route::BrawlerById { id: id1 } => {
            assert(r2 is BrawlerById);
            assert(r2->BrawlerById_id == id1);
        },
        Route::Events => {
            assert(r2 is Events);
        },
        Route::RankingsPlayers { code: c1 } => {
            assert(r2 is RankingsPlayers);
            assert(r2->RankingsPlayers_code@ == c1@);
        },
        Route::RankingsClubs { code: c1 } => {
            assert(r2 is RankingsClubs);
            assert(r2->RankingsClubs_code@ == c1@);
        },
    }
}

/// Dispatches a request path, split into its segments, against the route
/// table: returns the selected route with its parameters, or `None` when no
/// route matches. A numeric parameter that does not parse as a `u32` makes
/// the path match no route, so such a request is rejected before any
/// forwarding.
pub fn match_route(segments: &Vec<String>) -> (r: Option<Route>)
    ensures
        match r {
            Some(route) => route_matches(seg_views(segments@), route),
            None => !some_route_matches(seg_views(segments@)),
        },
{
    let ghost p = seg_views(segments@);
    if segments.len() == 1 {
        if str_eq(segments[0].as_str(), "brawlers") {
            return Some(Route::Brawlers);
        }
        if str_eq(segments[0].as_str(), "events") {
            return Some(Route::Events);
        }
        None
    } else if segments.len() == 2 {
        if str_eq(segments[0].as_str(), "player") {
            return Some(Route::Player { tag: segments[1].clone() });
        }
        if str_eq(segments[0].as_str(), "clubs") {
            return Some(Route::Club { tag: segments[1].clone() });
        }
        if str_eq(segments[0].as_str(), "brawlers") {
            return match parse_u32(segments[1].as_str()) {
                Some(id) => Some(Route::BrawlerById { id }),
                None => None,
            };
        }
        None
    } else if segments.len() == 3 {
        if str_eq(segments[0].as_str(), "player") && str_eq(segments[2].as_str(), "battlelog") {
            return Some(Route::Battlelog { tag: segments[1].clone() });
        }
        if str_eq(segments[0].as_str(), "rankings") {
            if str_eq(segments[2].as_str(), "players") {
                return Some(Route::RankingsPlayers { code: segments[1].clone() });
            }
            if str_eq(segments[2].as_str(), "clubs") {
                return Some(Route::RankingsClubs { code: segments[1].clone() });
            }
        }
        None
    } else {
        None
    }
}

} // verus!
