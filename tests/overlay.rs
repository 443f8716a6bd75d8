use wpe_broadcast::overlay::{data_uri, render_overlay, OverlayContent, OverlayError};
use wpe_broadcast::pipeline::Pipeline;
use wpe_broadcast::settings::Settings;

fn pipeline() -> Pipeline {
    Pipeline::new(&Settings::default(), b"Man".to_vec(), vec![4u8])
}

#[test]
fn update_overlay_substitutes_stylesheet() {
    let p = pipeline();
    let doc = p.update_overlay("<div>{css_buffer}</div>", "body{color:red}");
    assert_eq!(doc, Ok("<div>body{color:red}</div>".to_string()));
}

#[test]
fn update_overlay_rejects_unknown_placeholder() {
    let p = pipeline();
    assert_eq!(p.update_overlay("{unknown_field}", "body{color:red}"), Err(OverlayError::Template));
    assert_eq!(p.update_overlay("<p>{css_buffer}{unknown_field}</p>", "x"), Err(OverlayError::Template));
}

#[test]
fn update_overlay_rejects_malformed_template() {
    let p = pipeline();
    assert_eq!(p.update_overlay("<p>{css_buffer</p>", "x"), Err(OverlayError::Template));
}

#[test]
fn render_overlay_embeds_both_logos() {
    let doc = render_overlay("{igalia_logo}|{gst_logo}", "", b"Man", &[4u8]).unwrap();
    assert_eq!(doc, "data:image/png;base64,TWFu|data:image/svg+xml;base64,BA==");
}

#[test]
fn render_overlay_keeps_plain_text() {
    let doc = render_overlay("<html>plain</html>", "ignored", b"", b"").unwrap();
    assert_eq!(doc, "<html>plain</html>");
}

#[test]
fn render_overlay_all_three_placeholders() {
    let doc = render_overlay("<style>{css_buffer}</style><img src=\"{igalia_logo}\"><img src=\"{gst_logo}\">", "p{}", b"", b"ab").unwrap();
    assert_eq!(doc, "<style>p{}</style><img src=\"data:image/png;base64,\"><img src=\"data:image/svg+xml;base64,YWI=\">");
}

#[test]
fn data_uri_encodes_base64() {
    assert_eq!(data_uri("image/png", b"hello"), "data:image/png;base64,aGVsbG8=");
    assert_eq!(data_uri("text/plain", b""), "data:text/plain;base64,");
}

#[test]
fn overlay_content_stores_edits() {
    let mut c = OverlayContent::new("a{}".to_string(), "<p/>".to_string());
    c.store_edit(Some("CSS"), "b{}".to_string());
    assert_eq!(c.css, "b{}");
    assert_eq!(c.html, "<p/>");
    c.store_edit(Some("HTML"), "<q/>".to_string());
    assert_eq!(c.html, "<q/>");
    assert_eq!(c.css, "b{}");
    c.store_edit(None, "ignored".to_string());
    assert_eq!(c.css, "b{}");
    assert_eq!(c.html, "<q/>");
    assert_eq!(c.text_for("CSS"), "b{}");
    assert_eq!(c.text_for("HTML"), "<q/>");
}
