use epub_stream_render::http::{
    http_response_head, parse_http_head, route_request, HttpHeadError, Route,
};
use epub_stream_render::page_layers::{
    merged_command_location, merged_commands_len, sync_plan, synced_tail_ranges, CommandLayer,
    SyncPlan,
};

#[test]
fn http_head_reads_method_path_and_content_length() {
    let head = parse_http_head("POST /api/render HTTP/1.1\r\nHost: x\r\nContent-Length: 42")
        .expect("head parses");
    assert_eq!(head.method, "POST");
    assert_eq!(head.path, "/api/render");
    assert_eq!(head.content_length, 42);
}

#[test]
fn http_head_content_length_is_case_insensitive_and_last_wins() {
    let head = parse_http_head(
        "GET / HTTP/1.1\r\ncontent-length: 5\r\n\r\nCONTENT-LENGTH :  7 ",
    )
    .expect("head parses");
    assert_eq!(head.method, "GET");
    assert_eq!(head.path, "/");
    assert_eq!(head.content_length, 7);
}

#[test]
fn http_head_unparsable_content_length_reads_as_zero() {
    let head = parse_http_head("POST /x HTTP/1.1\r\nContent-Length: many").expect("head parses");
    assert_eq!(head.content_length, 0);
    let head = parse_http_head("POST /x HTTP/1.1\r\nContent-Length: +9").expect("head parses");
    assert_eq!(head.content_length, 9);
    let head = parse_http_head("GET /x").expect("head parses");
    assert_eq!(head.content_length, 0);
}

#[test]
fn http_head_errors_for_missing_method_or_path() {
    assert_eq!(parse_http_head(""), Err(HttpHeadError::MissingMethod));
    assert_eq!(parse_http_head("   \r\nHost: x"), Err(HttpHeadError::MissingMethod));
    assert_eq!(parse_http_head("GET\r\nHost: x"), Err(HttpHeadError::MissingPath));
    assert_eq!(parse_http_head("GET  "), Err(HttpHeadError::MissingPath));
}

#[test]
fn http_head_splits_request_line_on_any_whitespace() {
    let head = parse_http_head("  GET\t/favicon.ico   HTTP/1.1").expect("head parses");
    assert_eq!(head.method, "GET");
    assert_eq!(head.path, "/favicon.ico");
}

#[test]
fn routes_follow_method_and_path_without_query() {
    assert_eq!(route_request("GET", "/"), Route::Index);
    assert_eq!(route_request("GET", "/?x=1"), Route::Index);
    assert_eq!(route_request("GET", "/api/default-config"), Route::DefaultConfig);
    assert_eq!(route_request("POST", "/api/render?t=3"), Route::Render);
    assert_eq!(route_request("GET", "/favicon.ico"), Route::Favicon);
    assert_eq!(route_request("GET", "/api/render"), Route::NotFound);
    assert_eq!(route_request("POST", "/"), Route::NotFound);
    assert_eq!(route_request("get", "/"), Route::NotFound);
}

#[test]
fn response_head_has_status_type_length_and_no_cache() {
    assert_eq!(
        http_response_head("200 OK", "application/json", 1234),
        "HTTP/1.1 200 OK\r\nContent-Type: application/json\r\nContent-Length: 1234\r\nCache-Control: no-store\r\nConnection: close\r\n\r\n"
    );
    assert_eq!(
        http_response_head("204 No Content", "text/plain", 0),
        "HTTP/1.1 204 No Content\r\nContent-Type: text/plain\r\nContent-Length: 0\r\nCache-Control: no-store\r\nConnection: close\r\n\r\n"
    );
}

#[test]
fn merged_len_prefers_split_layers() {
    assert_eq!(merged_commands_len(2, 1, 1, 9), 4);
    assert_eq!(merged_commands_len(0, 0, 0, 9), 9);
    assert_eq!(merged_commands_len(0, 0, 1, 0), 1);
}

#[test]
fn merged_location_reads_content_then_chrome_then_overlay() {
    assert_eq!(merged_command_location(0, 2, 1, 1), Some((CommandLayer::Content, 0)));
    assert_eq!(merged_command_location(1, 2, 1, 1), Some((CommandLayer::Content, 1)));
    assert_eq!(merged_command_location(2, 2, 1, 1), Some((CommandLayer::Chrome, 0)));
    assert_eq!(merged_command_location(3, 2, 1, 1), Some((CommandLayer::Overlay, 0)));
    assert_eq!(merged_command_location(4, 2, 1, 1), None);
    assert_eq!(merged_command_location(0, 0, 0, 2), Some((CommandLayer::Overlay, 0)));
}

#[test]
fn sync_plan_appends_rebuilds_or_keeps() {
    assert_eq!(sync_plan(4, 2, 1, 1, true), SyncPlan::UpToDate);
    assert_eq!(sync_plan(0, 2, 1, 1, true), SyncPlan::AppendFrom(0));
    assert_eq!(sync_plan(2, 2, 1, 1, true), SyncPlan::AppendFrom(2));
    assert_eq!(sync_plan(2, 2, 1, 1, false), SyncPlan::Rebuild);
    assert_eq!(sync_plan(5, 2, 1, 1, true), SyncPlan::Rebuild);
    assert_eq!(sync_plan(0, 0, 0, 0, true), SyncPlan::UpToDate);
}

#[test]
fn stale_stream_of_full_length_is_rebuilt() {
    // A legacy stream as long as the layers but holding another command.
    assert_eq!(sync_plan(1, 1, 0, 0, false), SyncPlan::Rebuild);
    assert_eq!(sync_plan(4, 2, 1, 1, false), SyncPlan::Rebuild);
}

#[test]
fn synced_tail_ranges_cover_exactly_the_missing_commands() {
    assert_eq!(synced_tail_ranges(0, 2, 1, 1), ((0, 2), (0, 1), (0, 1)));
    assert_eq!(synced_tail_ranges(1, 2, 1, 1), ((1, 2), (0, 1), (0, 1)));
    assert_eq!(synced_tail_ranges(3, 2, 1, 1), ((2, 2), (1, 1), (0, 1)));
    assert_eq!(synced_tail_ranges(4, 2, 1, 1), ((2, 2), (1, 1), (1, 1)));
    assert_eq!(synced_tail_ranges(9, 2, 1, 1), ((2, 2), (1, 1), (1, 1)));
}
