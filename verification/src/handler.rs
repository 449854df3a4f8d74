use vstd::prelude::*;

verus! {

use vstd::string::StringExecFns;
use crate::route::AggregateRoute;
use crate::route::Error;
use crate::route::FormatType;
use crate::route::segment_err_msg;
use crate::route::segment_format;
use crate::route::segment_parses;
use crate::route::spec_format_token;
use crate::router::RouteOutcome;
use crate::router::aggregate_shape;
use crate::router::cube_shape;
use crate::router::cubes_shape;
use crate::router::match_path;
use crate::router::root_shape;
use crate::schema::Schema;

/// An HTTP response of this core: a status code and a text body.
#[derive(Debug)]
pub struct HttpResponse {
    pub status: u16,
    pub body: String,
}

/// A failure surfaced during routing or handling. A grammar failure is the
/// only kind this core's translator claims; an upstream failure (for
/// instance from the aggregation engine) passes through unchanged for an
/// outer default handler to decide.
#[derive(Debug)]
pub enum Failure {
    Route(Error),
    Upstream(String),
}

/// Body of the root route: a fixed placeholder.
pub fn root_body() -> (r: String)
    ensures
        r@ == "root"@,
{
    "root".to_owned()
}

/// Body of the cubes-list route: a fixed placeholder for the metadata of
/// all cubes.
pub fn cubes_body() -> (r: String)
    ensures
        r@ == "metadata for all cubes"@,
{
    "metadata for all cubes".to_owned()
}

/// Body of the single-cube route: the cube name combined with the rendering
/// of the current schema.
pub fn cube_body(cube_name: &str, schema: &Schema) -> (r: String)
    ensures
        r@ == "metadata for "@ + cube_name@ + ", schema "@ + schema@,
{
    let mut b = "metadata for ".to_owned();
    b.append(cube_name);
    b.append(", schema ");
    let text = schema.render();
    b.append(text.as_str());
    b
}

/// The body of a successful aggregation: cube name, selected format and
/// schema text combined.
pub open spec fn aggregate_body_text(cube_name: Seq<char>, f: FormatType, schema: Seq<char>) -> Seq<
    char,
> {
    "agg for "@ + cube_name + ", "@ + spec_format_token(f) + "; schema "@ + schema
}

/// The aggregation handler's decision once the aggregation engine's outcome
/// is known (the engine call itself, with its latency, happens outside this
/// core, and the schema is to be read only after it returns). On engine
/// success the body combines cube name, format and schema text; an engine
/// failure propagates as an opaque upstream failure, never embedded in a
/// body.
pub fn handle_aggregate(
    cube_name: &str,
    agg: &AggregateRoute,
    engine_outcome: Result<(), String>,
    schema: &Schema,
) -> (r: Result<String, Failure>)
    ensures
        r is Ok <==> engine_outcome is Ok,
        r is Ok ==> r->Ok_0@ == aggregate_body_text(cube_name@, agg.format_type, schema@),
        r is Err ==> r->Err_0 is Upstream && r->Err_0->Upstream_0 == engine_outcome->Err_0,
{
    match engine_outcome {
        Err(m) => Err(Failure::Upstream(m)),
        Ok(()) => {
            let mut b = "agg for ".to_owned();
            b.append(cube_name);
            b.append(", ");
            b.append(agg.format_type.token());
            b.append("; schema ");
            let text = schema.render();
            b.append(text.as_str());
            Ok(b)
        },
    }
}

/// Maps a failure to its HTTP disposition: a grammar failure becomes a 404
/// whose body is exactly the failure's message; any other failure is not
/// claimed and passes through unchanged. The mapping is total and pure, so
/// the same grammar failure always yields the same status and body.
pub fn translate_failure(f: Failure) -> (r: Result<HttpResponse, Failure>)
    ensures
        f is Route ==> r is Ok && r->Ok_0.status == 404 && r->Ok_0.body@ == f->Route_0@,
        f is Upstream ==> r is Err && r->Err_0 == f,
{
    match f {
        Failure::Route(e) => Ok(HttpResponse { status: 404, body: e.into_message() }),
        Failure::Upstream(m) => Err(Failure::Upstream(m)),
    }
}

/// Routes one request path and produces its HTTP disposition, given the
/// aggregation engine's outcome (consulted only on the aggregation route).
/// A grammar error is caught exactly once, at this boundary, and converted
/// to a 404 carrying the parser's message; an unmatched path gets a generic
/// not-found; an upstream failure passes through as `Err` for an outer
/// default handler to turn into a server error.
pub fn handle_request(path: &Vec<String>, engine_outcome: Result<(), String>, schema: &Schema) -> (r:
    Result<HttpResponse, Failure>)
    ensures
        root_shape(path@) ==> r is Ok && r->Ok_0.status == 200 && r->Ok_0.body@ == "root"@,
        cubes_shape(path@) ==> r is Ok && r->Ok_0.status == 200 && r->Ok_0.body@
            == "metadata for all cubes"@,
        cube_shape(path@) ==> r is Ok && r->Ok_0.status == 200 && r->Ok_0.body@ == "metadata for "@
            + path@[1]@ + ", schema "@ + schema@,
        aggregate_shape(path@) && !segment_parses(path@[2]@) ==> r is Ok && r->Ok_0.status == 404
            && r->Ok_0.body@ == segment_err_msg(path@[2]@),
        aggregate_shape(path@) && segment_parses(path@[2]@) && engine_outcome is Ok ==> r is Ok
            && r->Ok_0.status == 200 && r->Ok_0.body@ == aggregate_body_text(
            path@[1]@,
            segment_format(path@[2]@),
            schema@,
        ),
        aggregate_shape(path@) && segment_parses(path@[2]@) && engine_outcome is Err ==> r is Err
            && r->Err_0 is Upstream && r->Err_0->Upstream_0 == engine_outcome->Err_0,
        !root_shape(path@) && !cubes_shape(path@) && !cube_shape(path@) && !aggregate_shape(path@)
            ==> r is Ok && r->Ok_0.status == 404 && r->Ok_0.body@ == "not found"@,
{
    match match_path(path) {
        RouteOutcome::Root => Ok(HttpResponse { status: 200, body: root_body() }),
        RouteOutcome::CubesList => Ok(HttpResponse { status: 200, body: cubes_body() }),
        RouteOutcome::Cube(name) => Ok(
            HttpResponse { status: 200, body: cube_body(name.as_str(), schema) },
        ),
        RouteOutcome::Aggregate(name, agg) => match handle_aggregate(
            name.as_str(),
            &agg,
            engine_outcome,
            schema,
        ) {
            Ok(body) => Ok(HttpResponse { status: 200, body }),
            Err(f) => translate_failure(f),
        },
        RouteOutcome::BadSegment(e) => translate_failure(Failure::Route(e)),
        RouteOutcome::NotFound => Ok(HttpResponse { status: 404, body: "not found".to_owned() }),
    }
}

} // verus!
