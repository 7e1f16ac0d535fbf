use epub_stream_render::preview_page::build_html;

#[test]
fn page_embeds_payload_and_mode() {
    let html = build_html("{\"a\":1}", true);
    assert!(html.starts_with("<!doctype html>"));
    assert!(html.contains("const SERVER_MODE = true;"));
    assert!(html.contains("const INITIAL_PAYLOAD = {\"a\":1};"));
    assert!(!html.contains("__INITIAL_PAYLOAD__"));
    assert!(!html.contains("__SERVER_MODE__"));
    assert!(html.trim_end().ends_with("</html>"));
}

#[test]
fn page_escapes_script_end_tags_in_payload() {
    let html = build_html("{\"s\":\"</script><b>\"}", false);
    assert!(html.contains("const SERVER_MODE = false;"));
    assert!(html.contains("{\"s\":\"<\\/script><b>\"}"));
    assert!(!html.contains("\"</script><b>"));
}

#[test]
fn help_texts_name_their_tools() {
    assert!(epub_stream_render::preview_args::help_text().starts_with("web-preview - "));
    assert!(epub_stream_render::visualize::help_text().starts_with("visualize - "));
    assert!(epub_stream_render::visualize::help_text().contains("--widow-orphan-min-lines"));
}
