use dwldutil::redirection_middleware::{
    status_is_redirection, status_is_success, ChainOutcome, RedirectMiddleware, RedirectStep,
};

fn redirect(n: usize) -> (u16, Option<String>) {
    (302, Some(format!("http://example.com/{}", n)))
}

#[test]
fn status_classes() {
    assert!(status_is_success(200));
    assert!(status_is_success(299));
    assert!(!status_is_success(300));
    assert!(!status_is_success(199));
    assert!(status_is_redirection(301));
    assert!(status_is_redirection(399));
    assert!(!status_is_redirection(400));
    assert!(!status_is_redirection(200));
}

#[test]
fn decide_follows_within_bound() {
    let m = RedirectMiddleware::new(2);
    assert_eq!(m.max_redirects(), 2);
    assert_eq!(m.decide(0, 301, Some("http://a/")), RedirectStep::Follow("http://a/".to_string()));
    assert_eq!(m.decide(1, 307, Some("http://b/")), RedirectStep::Follow("http://b/".to_string()));
    assert_eq!(m.decide(2, 302, Some("http://c/")), RedirectStep::LimitExceeded);
    assert_eq!(m.decide(0, 302, None), RedirectStep::Done);
    assert_eq!(m.decide(5, 200, Some("http://d/")), RedirectStep::Done);
}

#[test]
fn chain_of_max_plus_one_redirects_fails() {
    let m = RedirectMiddleware::new(3);
    let chain: Vec<_> = (0..4).map(redirect).chain(std::iter::once((200, None))).collect();
    assert_eq!(m.resolve_chain(&chain), ChainOutcome::LimitExceeded);
}

#[test]
fn chain_of_max_redirects_then_ok_succeeds() {
    let m = RedirectMiddleware::new(3);
    let mut chain: Vec<_> = (0..3).map(redirect).collect();
    chain.push((200, None));
    assert_eq!(m.resolve_chain(&chain), ChainOutcome::Response(3));
}

#[test]
fn zero_bound_refuses_any_redirect() {
    let m = RedirectMiddleware::new(0);
    assert_eq!(m.resolve_chain(&vec![redirect(0)]), ChainOutcome::LimitExceeded);
    assert_eq!(m.resolve_chain(&vec![(200, None)]), ChainOutcome::Response(0));
}

#[test]
fn chain_edge_cases() {
    let m = RedirectMiddleware::new(5);
    assert_eq!(m.resolve_chain(&vec![]), ChainOutcome::Incomplete);
    assert_eq!(m.resolve_chain(&vec![redirect(0)]), ChainOutcome::Incomplete);
    assert_eq!(m.resolve_chain(&vec![(301, None), (200, None)]), ChainOutcome::Response(0));
    assert_eq!(m.resolve_chain(&vec![redirect(0), (404, None)]), ChainOutcome::Response(1));
}
