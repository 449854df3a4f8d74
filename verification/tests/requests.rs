use cube_service::handler::handle_aggregate;
use cube_service::handler::handle_request;
use cube_service::handler::translate_failure;
use cube_service::handler::Failure;
use cube_service::route::AggregateRoute;
use cube_service::route::Error;
use cube_service::route::FormatType;
use cube_service::router::match_path;
use cube_service::router::pattern_matches;
use cube_service::router::RouteOutcome;
use cube_service::router::SegPattern;
use cube_service::schema::Schema;
use cube_service::schema::SchemaFacade;

fn segs(parts: &[&str]) -> Vec<String> {
    parts.iter().map(|p| p.to_string()).collect()
}

#[test]
fn schema_renders_fixed_text() {
    assert_eq!(Schema::new().render(), "A Schema");
}

#[test]
fn facade_reads_observe_same_snapshot() {
    let facade = SchemaFacade::new(Schema::new());
    let a = facade.read();
    let b = facade.read();
    let c = facade.read();
    assert_eq!(a.render(), "A Schema");
    assert_eq!(a.render(), b.render());
    assert_eq!(b.render(), c.render());
}

#[test]
fn concurrent_facade_reads_all_succeed_and_agree() {
    let rt = tokio::runtime::Builder::new_multi_thread()
        .worker_threads(4)
        .enable_all()
        .build()
        .unwrap();
    rt.block_on(async {
        let facade = std::sync::Arc::new(SchemaFacade::new(Schema::new()));
        let mut tasks = Vec::new();
        for _ in 0..8 {
            let f = facade.clone();
            tasks.push(tokio::spawn(async move { f.read().render() }));
        }
        for t in tasks {
            assert_eq!(t.await.unwrap(), "A Schema");
        }
    });
}

#[test]
fn facade_write_keeps_snapshot() {
    let facade = SchemaFacade::new(Schema::new());
    facade.write(Schema::new());
    assert_eq!(facade.read().render(), "A Schema");
}

#[test]
fn pattern_literal_and_param() {
    let pat = vec![
        SegPattern::Literal("cubes".to_string()),
        SegPattern::Param,
    ];
    assert!(pattern_matches(&pat, &segs(&["cubes", "sales"])));
    assert!(!pattern_matches(&pat, &segs(&["cube", "sales"])));
    assert!(!pattern_matches(&pat, &segs(&["cubes"])));
    assert!(!pattern_matches(&pat, &segs(&["cubes", "sales", "x"])));
}

#[test]
fn match_path_picks_routes_in_order() {
    assert!(matches!(match_path(&segs(&[])), RouteOutcome::Root));
    assert!(matches!(
        match_path(&segs(&["cubes"])),
        RouteOutcome::CubesList
    ));
    match match_path(&segs(&["cubes", "sales"])) {
        RouteOutcome::Cube(name) => assert_eq!(name, "sales"),
        _ => panic!("expected the single-cube route"),
    }
    match match_path(&segs(&["cubes", "sales", "aggregate.jsonrecords"])) {
        RouteOutcome::Aggregate(name, agg) => {
            assert_eq!(name, "sales");
            assert_eq!(agg.format_type, FormatType::JsonRecords);
        }
        _ => panic!("expected the aggregation route"),
    }
    match match_path(&segs(&["cubes", "sales", "aggregate.xml"])) {
        RouteOutcome::BadSegment(e) => {
            assert_eq!(e.message().as_str(), "format \"xml\" not supported")
        }
        _ => panic!("expected a grammar failure"),
    }
    assert!(matches!(
        match_path(&segs(&["nope"])),
        RouteOutcome::NotFound
    ));
    assert!(matches!(
        match_path(&segs(&["cubes", "a", "b", "c"])),
        RouteOutcome::NotFound
    ));
}

#[test]
fn get_root() {
    let schema = Schema::new();
    let resp = handle_request(&segs(&[]), Ok(()), &schema).unwrap();
    assert_eq!(resp.status, 200);
    assert_eq!(resp.body, "root");
}

#[test]
fn get_cubes() {
    let schema = Schema::new();
    let resp = handle_request(&segs(&["cubes"]), Ok(()), &schema).unwrap();
    assert_eq!(resp.status, 200);
    assert_eq!(resp.body, "metadata for all cubes");
}

#[test]
fn get_single_cube() {
    let schema = Schema::new();
    let resp = handle_request(&segs(&["cubes", "sales"]), Ok(()), &schema).unwrap();
    assert_eq!(resp.status, 200);
    assert!(resp.body.contains("sales"));
    assert_eq!(resp.body, "metadata for sales, schema A Schema");
}

#[test]
fn get_aggregate_csv() {
    let schema = Schema::new();
    let resp = handle_request(&segs(&["cubes", "sales", "aggregate.csv"]), Ok(()), &schema)
        .unwrap();
    assert_eq!(resp.status, 200);
    assert!(resp.body.contains("sales"));
    assert!(resp.body.contains("csv"));
    assert_eq!(resp.body, "agg for sales, csv; schema A Schema");
}

#[test]
fn get_aggregate_bad_format_is_404_with_parser_message() {
    let schema = Schema::new();
    let resp = handle_request(&segs(&["cubes", "sales", "aggregate.xml"]), Ok(()), &schema)
        .unwrap();
    assert_eq!(resp.status, 404);
    assert_eq!(resp.body, "format \"xml\" not supported");
}

#[test]
fn get_aggregate_wrong_verb_is_404() {
    let schema = Schema::new();
    let resp = handle_request(&segs(&["cubes", "sales", "bogus.csv"]), Ok(()), &schema)
        .unwrap();
    assert_eq!(resp.status, 404);
    assert_eq!(resp.body, "");
}

#[test]
fn unmatched_path_is_generic_not_found() {
    let schema = Schema::new();
    let resp = handle_request(&segs(&["nope"]), Ok(()), &schema).unwrap();
    assert_eq!(resp.status, 404);
    assert_eq!(resp.body, "not found");
}

#[test]
fn engine_failure_passes_through_untranslated() {
    let schema = Schema::new();
    let err = handle_request(
        &segs(&["cubes", "sales", "aggregate.csv"]),
        Err("engine down".to_string()),
        &schema,
    )
    .unwrap_err();
    match err {
        Failure::Upstream(m) => assert_eq!(m, "engine down"),
        Failure::Route(_) => panic!("an upstream failure must not become a grammar failure"),
    }
}

#[test]
fn handle_aggregate_success_and_failure() {
    let schema = Schema::new();
    let agg = AggregateRoute::from_str("aggregate.jsonrecords").unwrap();
    let body = handle_aggregate("sales", &agg, Ok(()), &schema).unwrap();
    assert_eq!(body, "agg for sales, jsonrecords; schema A Schema");
    let err = handle_aggregate("sales", &agg, Err("boom".to_string()), &schema).unwrap_err();
    assert!(matches!(err, Failure::Upstream(m) if m == "boom"));
}

#[test]
fn translate_claims_grammar_failures_only() {
    let resp = translate_failure(Failure::Route(Error::new("format \"xml\" not supported"
        .to_string())))
    .unwrap();
    assert_eq!(resp.status, 404);
    assert_eq!(resp.body, "format \"xml\" not supported");

    let passed = translate_failure(Failure::Upstream("engine down".to_string())).unwrap_err();
    assert!(matches!(passed, Failure::Upstream(m) if m == "engine down"));
}
