use vstd::prelude::*;

verus! {

use crate::route::AggregateRoute;
use crate::route::Error;
use crate::route::segment_err_msg;
use crate::route::segment_format;
use crate::route::segment_parses;
use crate::text::str_eq;

/// One element of a route pattern: a fixed literal segment or a variable
/// segment captured for the handler. A pattern accepts a path only at its
/// full length, so the end of the pattern is the end-of-path marker.
pub enum SegPattern {
    Literal(String),
    Param,
}

/// Whether one pattern element accepts one path segment.
pub open spec fn seg_matches(p: SegPattern, s: String) -> bool {
    match p {
        SegPattern::Literal(l) => l@ == s@,
        SegPattern::Param => true,
    }
}

/// Whether a whole pattern accepts a whole path: same arity, and every
/// element accepts its segment.
pub open spec fn spec_pattern_matches(pats: Seq<SegPattern>, path: Seq<String>) -> bool {
    pats.len() == path.len() && (forall|i: int|
        0 <= i < pats.len() ==> seg_matches(pats[i], path[i]))
}

/// Evaluates one pattern against a path, element by element.
pub fn pattern_matches(pats: &Vec<SegPattern>, path: &Vec<String>) -> (r: bool)
    ensures
        r == spec_pattern_matches(pats@, path@),
{
    if pats.len() != path.len() {
        return false;
    }
    let mut i: usize = 0;
    while i < pats.len()
        invariant
            pats@.len() == path@.len(),
            0 <= i <= pats@.len(),
            forall|j: int| 0 <= j < i ==> seg_matches(pats@[j], path@[j]),
        decreases pats@.len() - i,
    {
        let ok = match &pats[i] {
            SegPattern::Literal(l) => str_eq(l.as_str(), path[i].as_str()),
            SegPattern::Param => true,
        };
        if !ok {
            return false;
        }
        i += 1;
    }
    true
}

/// The decision of the router for one path: which handler runs, with its
/// captured parameters, or why none does.
pub enum RouteOutcome {
    /// The path was `/`.
    Root,
    /// The path was `/cubes`.
    CubesList,
    /// The path was `/cubes/{name}`; carries the cube name.
    Cube(String),
    /// The path was `/cubes/{name}/{verb}[.{format}]` and the compound
    /// segment parsed; carries the cube name and the parsed route.
    Aggregate(String, AggregateRoute),
    /// The path had the aggregation shape but its compound segment failed to
    /// parse; the grammar error takes precedence over a plain not-found.
    BadSegment(Error),
    /// No pattern matched.
    NotFound,
}

/// Shape of the root route: no segments at all.
pub open spec fn root_shape(path: Seq<String>) -> bool {
    path.len() == 0
}

/// Shape of the cubes-list route: the single literal segment `cubes`.
pub open spec fn cubes_shape(path: Seq<String>) -> bool {
    path.len() == 1 && path[0]@ == "cubes"@
}

/// Shape of the single-cube route: `cubes` and then the cube name.
pub open spec fn cube_shape(path: Seq<String>) -> bool {
    path.len() == 2 && path[0]@ == "cubes"@
}

/// Shape of the aggregation route: `cubes`, the cube name, and a compound
/// segment still to be parsed.
pub open spec fn aggregate_shape(path: Seq<String>) -> bool {
    path.len() == 3 && path[0]@ == "cubes"@
}

/// Matches a path against the ordered route patterns, first match wins, and
/// runs the grammar parser on the compound segment of the aggregation
/// route. The shapes do not overlap, so declaration order never decides;
/// it is still honored.
pub fn match_path(path: &Vec<String>) -> (r: RouteOutcome)
    ensures
        r is Root <==> root_shape(path@),
        r is CubesList <==> cubes_shape(path@),
        r is Cube <==> cube_shape(path@),
        r is Cube ==> r->Cube_0@ == path@[1]@,
        r is Aggregate <==> aggregate_shape(path@) && segment_parses(path@[2]@),
        r is Aggregate ==> r->Aggregate_0@ == path@[1]@ && r->Aggregate_1.format_type
            == segment_format(path@[2]@),
        r is BadSegment <==> aggregate_shape(path@) && !segment_parses(path@[2]@),
        r is BadSegment ==> r->BadSegment_0@ == segment_err_msg(path@[2]@),
        r is NotFound <==> !root_shape(path@) && !cubes_shape(path@) && !cube_shape(path@)
            && !aggregate_shape(path@),
{
    let root_pat: Vec<SegPattern> = Vec::new();

    let mut cubes_pat: Vec<SegPattern> = Vec::new();
    cubes_pat.push(SegPattern::Literal("cubes".to_owned()));

    let mut cube_pat: Vec<SegPattern> = Vec::new();
    cube_pat.push(SegPattern::Literal("cubes".to_owned()));
    cube_pat.push(SegPattern::Param);

    let mut agg_pat: Vec<SegPattern> = Vec::new();
    agg_pat.push(SegPattern::Literal("cubes".to_owned()));
    agg_pat.push(SegPattern::Param);
    agg_pat.push(SegPattern::Param);

    if pattern_matches(&root_pat, path) {
        RouteOutcome::Root
    } else if pattern_matches(&cubes_pat, path) {
        RouteOutcome::CubesList
    } else if pattern_matches(&cube_pat, path) {
        RouteOutcome::Cube(path[1].clone())
    } else if pattern_matches(&agg_pat, path) {
        match AggregateRoute::from_str(path[2].as_str()) {
            Ok(route) => RouteOutcome::Aggregate(path[1].clone(), route),
            Err(e) => RouteOutcome::BadSegment(e),
        }
    } else {
        RouteOutcome::NotFound
    }
}

} // verus!
