use bundle_pipeline::media::media_type_for;
use bundle_pipeline::text::{entry_point_text, html_shell_text, render_url, original_url};

#[test]
fn known_extensions_map_to_their_media_types() {
    assert_eq!(media_type_for("index.css"), "text/css");
    assert_eq!(media_type_for("index.js"), "application/javascript");
    assert_eq!(media_type_for("index.html"), "text/html");
}

#[test]
fn unknown_or_missing_extensions_map_to_binary() {
    assert_eq!(media_type_for("archive.wasm"), "application/octet-stream");
    assert_eq!(media_type_for("README"), "application/octet-stream");
    assert_eq!(media_type_for("trailing."), "application/octet-stream");
    assert_eq!(media_type_for(""), "application/octet-stream");
}

#[test]
fn media_type_looks_only_at_the_last_extension() {
    assert_eq!(media_type_for("bundle.min.js"), "application/javascript");
    assert_eq!(media_type_for("style.js.css"), "text/css");
}

#[test]
fn media_type_is_deterministic() {
    for name in ["index.css", "index.js", "index.html", "other.bin"] {
        assert_eq!(media_type_for(name), media_type_for(name));
    }
}

#[test]
fn entry_point_imports_component_and_stylesheet() {
    let entry = entry_point_text();
    assert!(entry.contains("import UserComponent from './UserComponent';"));
    assert!(entry.contains("import './globals.css';"));
    assert!(entry.contains("ReactDOM.createRoot(rootEl).render(<UserComponent />);"));
}

#[test]
fn html_shell_references_compiled_outputs() {
    let html = html_shell_text();
    assert!(html.starts_with("<!DOCTYPE html>"));
    assert!(html.contains("<div id=\"root\"></div>"));
    assert!(html.contains("<link rel=\"stylesheet\" href=\"./index.css\" />"));
    assert!(html.contains("<script type=\"module\" src=\"./index.js\"></script>"));
}

#[test]
fn urls_embed_the_component_identifier() {
    assert_eq!(
        render_url("abc123"),
        "https://abc123.preview.runney.cloud/index.html"
    );
    assert_eq!(
        original_url("cdn.example.com", "abc123"),
        "https://cdn.example.com/abc123/index.html"
    );
}
