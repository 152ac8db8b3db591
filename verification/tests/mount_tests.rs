use mount::handlers::{AppendPipeline, ProbePipeline};
use mount::matcher::{InvalidPrefix, RoutePrefix};
use mount::mount::Mount;
use mount::pipeline::Pipeline;
use mount::request::{Request, RequestUri, Response};
use mount::signal::{resolve_signal, PipelineSignal, TerminationPolicy};

fn abs_request(path: &str) -> Request {
    Request { request_uri: RequestUri::AbsolutePath(String::from(path)) }
}

fn probe(signal: PipelineSignal) -> ProbePipeline {
    ProbePipeline { signal, seen: Vec::new() }
}

#[test]
fn no_match_returns_continue_and_mutates_nothing() {
    let mut m = Mount::new("/api", probe(PipelineSignal::Stop)).unwrap();
    let mut req = abs_request("/other/path");
    let mut res = Response { body: vec![1, 2, 3] };
    let s = m.handle(&mut req, &mut res);
    assert_eq!(s, PipelineSignal::Continue);
    assert_eq!(req, abs_request("/other/path"));
    assert_eq!(res.body, vec![1, 2, 3]);
    assert!(m.nested_pipeline().seen.is_empty());
}

#[test]
fn near_miss_prefix_is_not_a_match() {
    // The path must start with the route at position 0, not merely contain it.
    let mut m = Mount::new("/api", probe(PipelineSignal::Stop)).unwrap();
    let mut req = abs_request("/x/api/y");
    let mut res = Response { body: Vec::new() };
    let s = m.handle(&mut req, &mut res);
    assert_eq!(s, PipelineSignal::Continue);
    assert_eq!(req, abs_request("/x/api/y"));
    assert!(m.nested_pipeline().seen.is_empty());
}

#[test]
fn match_strips_delegates_and_restores() {
    let mut m = Mount::new("/api", probe(PipelineSignal::Continue)).unwrap();
    let mut req = abs_request("/api/users/7");
    let mut res = Response { body: Vec::new() };
    m.handle(&mut req, &mut res);
    // The nested stage observed the path with the prefix stripped.
    assert_eq!(m.nested_pipeline().seen, vec![String::from("/users/7")]);
    // Any stage running afterwards observes the original path.
    assert_eq!(req, abs_request("/api/users/7"));
}

#[test]
fn restore_is_identity_whatever_nested_does_to_response() {
    let nested = AppendPipeline { signal: PipelineSignal::Stop, payload: vec![42, 43] };
    let mut m = Mount::new("/api", nested).unwrap();
    let mut req = abs_request("/api/x");
    let mut res = Response { body: vec![1] };
    m.handle(&mut req, &mut res);
    assert_eq!(req, abs_request("/api/x"));
    assert_eq!(res.body, vec![1, 42, 43]);
}

#[test]
fn termination_policy_with_stopping_nested() {
    for (build, expected) in [
        (TerminationPolicy::AlwaysStop, PipelineSignal::Stop),
        (TerminationPolicy::AlwaysContinue, PipelineSignal::Continue),
        (TerminationPolicy::PassThroughChildSignal, PipelineSignal::Stop),
    ] {
        let mut m = Mount::with_policy("/a", probe(PipelineSignal::Stop), build).unwrap();
        let mut req = abs_request("/a/x");
        let mut res = Response { body: Vec::new() };
        assert_eq!(m.handle(&mut req, &mut res), expected);
    }
}

#[test]
fn termination_policy_with_continuing_nested() {
    for (build, expected) in [
        (TerminationPolicy::AlwaysStop, PipelineSignal::Stop),
        (TerminationPolicy::AlwaysContinue, PipelineSignal::Continue),
        (TerminationPolicy::PassThroughChildSignal, PipelineSignal::Continue),
    ] {
        let mut m = Mount::with_policy("/a", probe(PipelineSignal::Continue), build).unwrap();
        let mut req = abs_request("/a/x");
        let mut res = Response { body: Vec::new() };
        assert_eq!(m.handle(&mut req, &mut res), expected);
    }
}

#[test]
fn named_constructors_pick_their_policies() {
    let mut terminal = Mount::new("/a", probe(PipelineSignal::Continue)).unwrap();
    let mut non_terminal = Mount::non_terminal("/a", probe(PipelineSignal::Stop)).unwrap();
    let mut filter = Mount::filter("/a", probe(PipelineSignal::Stop)).unwrap();
    let mut res = Response { body: Vec::new() };
    let mut req = abs_request("/a");
    assert_eq!(terminal.handle(&mut req, &mut res), PipelineSignal::Stop);
    assert_eq!(non_terminal.handle(&mut req, &mut res), PipelineSignal::Continue);
    assert_eq!(filter.handle(&mut req, &mut res), PipelineSignal::Stop);
}

#[test]
fn non_absolute_path_always_continues_without_mutation() {
    let mut m = Mount::new("/api", probe(PipelineSignal::Stop)).unwrap();
    let mut req = Request { request_uri: RequestUri::NotAbsolutePath };
    let mut res = Response { body: vec![9] };
    let s = m.handle(&mut req, &mut res);
    assert_eq!(s, PipelineSignal::Continue);
    assert_eq!(req.request_uri, RequestUri::NotAbsolutePath);
    assert_eq!(res.body, vec![9]);
    assert!(m.nested_pipeline().seen.is_empty());
}

#[test]
fn nested_mounts_compose() {
    let inner = Mount::new("/b", probe(PipelineSignal::Stop)).unwrap();
    let mut outer = Mount::non_terminal("/a", inner).unwrap();
    let mut req = abs_request("/a/b/x");
    let mut res = Response { body: Vec::new() };
    let s = outer.handle(&mut req, &mut res);
    // The innermost stage observed the path with both prefixes stripped.
    assert_eq!(
        outer.nested_pipeline().nested_pipeline().seen,
        vec![String::from("/x")]
    );
    // A stage running after the outer mount observes the original path.
    assert_eq!(req, abs_request("/a/b/x"));
    // The outer mount was built as non-terminal, so the chain continues.
    assert_eq!(s, PipelineSignal::Continue);
}

#[test]
fn path_equal_to_prefix_strips_to_empty_and_restores() {
    let mut m = Mount::new("/api", probe(PipelineSignal::Stop)).unwrap();
    let mut req = abs_request("/api");
    let mut res = Response { body: Vec::new() };
    m.handle(&mut req, &mut res);
    assert_eq!(m.nested_pipeline().seen, vec![String::new()]);
    assert_eq!(req, abs_request("/api"));
}

#[test]
fn matching_ignores_segment_boundaries() {
    // Mounting "/api" matches "/apifoo" and strips to "foo": callers wanting
    // segment matching must put the separator into the prefix themselves.
    let mut m = Mount::new("/api", probe(PipelineSignal::Stop)).unwrap();
    let mut req = abs_request("/apifoo");
    let mut res = Response { body: Vec::new() };
    m.handle(&mut req, &mut res);
    assert_eq!(m.nested_pipeline().seen, vec![String::from("foo")]);
    assert_eq!(req, abs_request("/apifoo"));
}

#[test]
fn empty_route_is_an_invalid_prefix() {
    assert!(matches!(Mount::new("", probe(PipelineSignal::Stop)), Err(InvalidPrefix)));
}

#[test]
fn pattern_routes_are_invalid_prefixes() {
    for route in ["a|b", "^x", "(", "/api/*", "/a.b", "x$", "[ab]", "a{2}", "\\d", "a+", "b?"] {
        assert!(
            matches!(Mount::new(route, probe(PipelineSignal::Stop)), Err(InvalidPrefix)),
            "route {route:?} should be rejected"
        );
    }
}

#[test]
fn ordinary_routes_are_accepted() {
    for route in ["/api", "/my-api", "/a/b/c", "/v2", "/_internal", "/%20", "/π"] {
        assert!(Mount::new(route, probe(PipelineSignal::Stop)).is_ok());
    }
}

#[test]
fn dash_in_route_matches_literally() {
    let mut m = Mount::new("/my-api", probe(PipelineSignal::Stop)).unwrap();
    let mut req = abs_request("/my-api/x");
    let mut res = Response { body: Vec::new() };
    m.handle(&mut req, &mut res);
    assert_eq!(m.nested_pipeline().seen, vec![String::from("/x")]);
    let mut other = abs_request("/myxapi/x");
    let s = m.handle(&mut other, &mut res);
    assert_eq!(s, PipelineSignal::Continue);
    assert_eq!(m.nested_pipeline().seen.len(), 1);
}

#[test]
fn route_prefix_tests_exactly_the_prefix() {
    let rp = RoutePrefix::new("/api").unwrap();
    assert!(rp.is_match("/api"));
    assert!(rp.is_match("/api/x"));
    assert!(rp.is_match("/apifoo"));
    assert!(!rp.is_match("/ap"));
    assert!(!rp.is_match("x/api"));
    assert!(!rp.is_match(""));
    assert_eq!(rp.route_str(), "/api");
}

#[test]
fn route_prefix_rejects_what_mount_rejects() {
    assert!(matches!(RoutePrefix::new(""), Err(InvalidPrefix)));
    assert!(matches!(RoutePrefix::new("a*"), Err(InvalidPrefix)));
    assert!(RoutePrefix::new("/ok").is_ok());
}

#[test]
fn resolve_signal_follows_the_policy_table() {
    let stop = PipelineSignal::Stop;
    let cont = PipelineSignal::Continue;
    assert_eq!(resolve_signal(TerminationPolicy::AlwaysStop, stop), stop);
    assert_eq!(resolve_signal(TerminationPolicy::AlwaysStop, cont), stop);
    assert_eq!(resolve_signal(TerminationPolicy::AlwaysContinue, stop), cont);
    assert_eq!(resolve_signal(TerminationPolicy::AlwaysContinue, cont), cont);
    assert_eq!(resolve_signal(TerminationPolicy::PassThroughChildSignal, stop), stop);
    assert_eq!(resolve_signal(TerminationPolicy::PassThroughChildSignal, cont), cont);
}

#[test]
fn probe_pipeline_records_paths_and_returns_its_signal() {
    let mut p = probe(PipelineSignal::Stop);
    let mut res = Response { body: Vec::new() };
    let mut req = abs_request("/one");
    assert_eq!(p.handle(&mut req, &mut res), PipelineSignal::Stop);
    let mut req2 = Request { request_uri: RequestUri::NotAbsolutePath };
    assert_eq!(p.handle(&mut req2, &mut res), PipelineSignal::Stop);
    assert_eq!(p.seen, vec![String::from("/one")]);
}

#[test]
fn append_pipeline_appends_its_payload() {
    let mut p = AppendPipeline { signal: PipelineSignal::Continue, payload: vec![7, 8] };
    let mut res = Response { body: vec![1] };
    let mut req = abs_request("/x");
    assert_eq!(p.handle(&mut req, &mut res), PipelineSignal::Continue);
    assert_eq!(res.body, vec![1, 7, 8]);
    assert_eq!(req, abs_request("/x"));
}

#[test]
fn unicode_route_strips_by_characters() {
    let mut m = Mount::new("/π", probe(PipelineSignal::Stop)).unwrap();
    let mut req = abs_request("/π/x");
    let mut res = Response { body: Vec::new() };
    m.handle(&mut req, &mut res);
    assert_eq!(m.nested_pipeline().seen, vec![String::from("/x")]);
    assert_eq!(req, abs_request("/π/x"));
}
