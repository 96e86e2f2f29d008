use shortlink_core::errors::ApiError;
use shortlink_core::resolve::resolve_input;
use shortlink_core::resolve::resolve_lookup;
use shortlink_core::resolve::route_fallback;
use shortlink_core::resolve::Resolution;

fn expect_redirect(input: &str, target: &str) {
    match resolve_input(input) {
        Resolution::Redirect(t) => assert_eq!(t, target, "for input {input}"),
        Resolution::Lookup(_) => panic!("{input} should redirect without a store lookup"),
    }
}

fn expect_lookup(input: &str) {
    match resolve_input(input) {
        Resolution::Redirect(t) => panic!("{input} should consult the store, got {t}"),
        Resolution::Lookup(k) => assert_eq!(k, input),
    }
}

#[test]
fn p_prefix_redirects_case_insensitively_without_store_access() {
    expect_redirect("p123", "https://asen.page/123/");
    expect_redirect("P123", "https://asen.page/123/");
    expect_redirect("p", "https://asen.page//");
}

#[test]
fn video_prefixes_interpolate_with_case_preserved() {
    expect_redirect("av170001", "https://www.bilibili.com/video/av170001/");
    expect_redirect("AV170001", "https://www.bilibili.com/video/av170001/");
    expect_redirect("bv1xx411c7mD", "https://www.bilibili.com/video/BV1xx411c7mD/");
    expect_redirect("cv42", "https://www.bilibili.com/video/cv42/");
    expect_redirect("ytdQw4w9WgXcQ", "https://www.youtube.com/watch?v=dQw4w9WgXcQ");
}

#[test]
fn other_inputs_fall_through_to_the_store() {
    expect_lookup("");
    expect_lookup("a");
    expect_lookup("vx12");
    expect_lookup("xyz");
    expect_lookup("0p");
}

#[test]
fn store_answer_decides_between_target_and_not_found() {
    assert_eq!(
        resolve_lookup(Some("https://example.com/x".to_string())),
        Ok("https://example.com/x".to_string())
    );
    assert_eq!(resolve_lookup(None), Err(ApiError::NotFound));
}

#[test]
fn unmatched_api_routes_are_classified_by_path() {
    for p in ["/api/v1/get", "/api/v1/create", "/api/v1/update", "/api/v1/delete", "/api/v1/list"]
    {
        assert_eq!(route_fallback(p), ApiError::MethodNotAllowed, "for {p}");
    }
    assert_eq!(route_fallback("/api/v1/nope"), ApiError::NotFound);
    assert_eq!(route_fallback("/api/v2/get"), ApiError::NotFound);
    assert_eq!(route_fallback(""), ApiError::NotFound);
}
