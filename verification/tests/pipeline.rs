use bundle_pipeline::machine::{Action, Config, Event, Pipeline};

fn test_config() -> Config {
    Config {
        bucket_name: String::from("artifacts-bucket"),
        cloudfront_domain: String::from("cdn.example.com"),
        region: String::from("eu-west-1"),
        task_root: String::from("/var/task"),
    }
}

fn ok_tool() -> Event {
    Event::ToolExited { ok: true, stderr: String::new() }
}

/// Drives a pipeline with the given outcomes and returns every action it
/// decided, the first one included.
fn drive(first: Action, mut p: Pipeline, events: Vec<Event>) -> Vec<Action> {
    let mut actions = vec![first];
    for e in events {
        let a = p.step(e);
        actions.push(a);
    }
    actions
}

fn success_events(n_files: Vec<&str>) -> Vec<Event> {
    let mut events = vec![
        ok_tool(),        // template copy
        Event::Succeeded, // rename into place
        Event::Succeeded, // create src
        Event::Succeeded, // create dist
        Event::Succeeded, // copy globals.css
        Event::Succeeded, // write component
        Event::Succeeded, // write entry point
        ok_tool(),        // bundler
        ok_tool(),        // stylesheet processor
        Event::Succeeded, // write html
        Event::DistListed(n_files.iter().map(|s| s.to_string()).collect()),
    ];
    for _ in 0..n_files.len() {
        events.push(Event::Succeeded); // one upload each
    }
    events.push(Event::Succeeded); // teardown
    events
}

#[test]
fn successful_build_returns_urls() {
    let body = "{\"component_id\":\"abc123\",\"code\":\"export default () => <div>hi</div>;\"}";
    let (p, first) = bundle_pipeline::machine::start_from_body(test_config(), body);
    let p = p.expect("a well-formed request must start a build");
    let actions = drive(first, p, success_events(vec!["index.css", "index.html", "index.js"]));
    match actions.last().unwrap() {
        Action::Respond { response } => {
            assert_eq!(response.status, 200);
            assert_eq!(response.content_type, "application/json");
            assert!(response
                .body
                .contains("\"renderUrl\":\"https://abc123.preview.runney.cloud/index.html\""));
            assert!(response
                .body
                .contains("\"originalUrl\":\"https://cdn.example.com/abc123/index.html\""));
        }
        other => panic!("expected a response, got {:?}", action_name(other)),
    }
}

fn action_name(a: &Action) -> &'static str {
    match a {
        Action::CopyTree { .. } => "CopyTree",
        Action::RenameDir { .. } => "RenameDir",
        Action::CreateDir { .. } => "CreateDir",
        Action::CopyFile { .. } => "CopyFile",
        Action::WriteFile { .. } => "WriteFile",
        Action::RunBundler { .. } => "RunBundler",
        Action::RunStyleTool { .. } => "RunStyleTool",
        Action::ListDir { .. } => "ListDir",
        Action::Upload { .. } => "Upload",
        Action::RemoveDir { .. } => "RemoveDir",
        Action::Respond { .. } => "Respond",
    }
}

#[test]
fn successful_build_uploads_each_artifact_under_component_prefix() {
    let body = "{\"component_id\":\"abc123\",\"code\":\"export default () => null;\"}";
    let (p, first) = bundle_pipeline::machine::start_from_body(test_config(), body);
    let actions = drive(
        first,
        p.unwrap(),
        success_events(vec!["index.css", "index.html", "index.js"]),
    );
    let uploads: Vec<(String, String, String)> = actions
        .iter()
        .filter_map(|a| match a {
            Action::Upload { path, key, media_type } => {
                Some((path.clone(), key.clone(), media_type.clone()))
            }
            _ => None,
        })
        .collect();
    assert_eq!(uploads.len(), 3);
    assert_eq!(
        uploads[0],
        (
            String::from("/tmp/abc123/dist/index.css"),
            String::from("abc123/index.css"),
            String::from("text/css")
        )
    );
    assert_eq!(
        uploads[1],
        (
            String::from("/tmp/abc123/dist/index.html"),
            String::from("abc123/index.html"),
            String::from("text/html")
        )
    );
    assert_eq!(
        uploads[2],
        (
            String::from("/tmp/abc123/dist/index.js"),
            String::from("abc123/index.js"),
            String::from("application/javascript")
        )
    );
    // exactly one response, and it comes last
    let responds = actions
        .iter()
        .filter(|a| matches!(a, Action::Respond { .. }))
        .count();
    assert_eq!(responds, 1);
    assert!(matches!(actions.last().unwrap(), Action::Respond { .. }));
}

#[test]
fn successful_build_seeds_workspace_in_order() {
    let body = "{\"component_id\":\"abc123\",\"code\":\"export default () => null;\"}";
    let (p, first) = bundle_pipeline::machine::start_from_body(test_config(), body);
    let actions = drive(first, p.unwrap(), success_events(vec!["index.js"]));
    match &actions[0] {
        Action::CopyTree { source, dest } => {
            assert_eq!(source, "/var/task/templates");
            assert_eq!(dest, "/tmp/");
        }
        _ => panic!("first action must copy the template tree"),
    }
    match &actions[1] {
        Action::RenameDir { from, to } => {
            assert_eq!(from, "/tmp/templates");
            assert_eq!(to, "/tmp/abc123");
        }
        _ => panic!("second action must rename the tree into place"),
    }
    assert!(matches!(&actions[2], Action::CreateDir { path } if path == "/tmp/abc123/src"));
    assert!(matches!(&actions[3], Action::CreateDir { path } if path == "/tmp/abc123/dist"));
    match &actions[4] {
        Action::CopyFile { from, to } => {
            assert_eq!(from, "/tmp/abc123/globals.css");
            assert_eq!(to, "/tmp/abc123/src/globals.css");
        }
        _ => panic!("fifth action must copy the global stylesheet"),
    }
    match &actions[5] {
        Action::WriteFile { path, content } => {
            assert_eq!(path, "/tmp/abc123/src/UserComponent.tsx");
            assert_eq!(content, "export default () => null;");
        }
        _ => panic!("sixth action must write the user component"),
    }
    assert!(matches!(&actions[6], Action::WriteFile { path, .. } if path == "/tmp/abc123/src/index.tsx"));
    assert!(matches!(&actions[7], Action::RunBundler { workdir } if workdir == "/tmp/abc123"));
    match &actions[8] {
        Action::RunStyleTool { workdir, input, output } => {
            assert_eq!(workdir, "/tmp/abc123");
            assert_eq!(input, "/tmp/abc123/src/globals.css");
            assert_eq!(output, "/tmp/abc123/dist/index.css");
        }
        _ => panic!("ninth action must run the stylesheet processor"),
    }
    assert!(matches!(&actions[9], Action::WriteFile { path, .. } if path == "/tmp/abc123/dist/index.html"));
    assert!(matches!(&actions[10], Action::ListDir { path } if path == "/tmp/abc123/dist"));
}

#[test]
fn malformed_body_is_rejected_with_400() {
    let (p, first) = bundle_pipeline::machine::start_from_body(test_config(), "not json");
    assert!(p.is_none(), "no build may start for a malformed body");
    match first {
        Action::Respond { response } => {
            assert_eq!(response.status, 400);
            assert!(response.body.contains("line 1"));
        }
        _ => panic!("a malformed body must be answered at once"),
    }
}

#[test]
fn empty_body_is_rejected_with_400() {
    let (p, first) = bundle_pipeline::machine::start_from_body(test_config(), "");
    assert!(p.is_none(), "an empty body is not JSON and starts no build");
    match first {
        Action::Respond { response } => assert_eq!(response.status, 400),
        _ => panic!("an empty body must be answered at once"),
    }
}

#[test]
fn bundler_failure_returns_500_with_stderr_after_teardown() {
    let body = "{\"component_id\":\"abc123\",\"code\":\"syntax error here\"}";
    let (p, first) = bundle_pipeline::machine::start_from_body(test_config(), body);
    let mut p = p.unwrap();
    let mut actions = vec![first];
    for e in [
        ok_tool(),
        Event::Succeeded,
        Event::Succeeded,
        Event::Succeeded,
        Event::Succeeded,
        Event::Succeeded,
        Event::Succeeded,
    ] {
        actions.push(p.step(e));
    }
    assert!(matches!(actions.last().unwrap(), Action::RunBundler { .. }));
    let a = p.step(Event::ToolExited {
        ok: false,
        stderr: String::from("SyntaxError: Unexpected token"),
    });
    assert!(matches!(&a, Action::RemoveDir { path } if path == "/tmp/abc123"));
    let a = p.step(Event::Succeeded);
    match a {
        Action::Respond { response } => {
            assert_eq!(response.status, 500);
            assert!(response.body.contains("SyntaxError"));
            assert_eq!(response.body, "Bun build failed: SyntaxError: Unexpected token");
        }
        _ => panic!("after teardown the pipeline must respond"),
    }
}

#[test]
fn style_tool_failure_returns_500_with_stderr() {
    let body = "{\"component_id\":\"abc123\",\"code\":\"export default () => null;\"}";
    let (p, first) = bundle_pipeline::machine::start_from_body(test_config(), body);
    let mut p = p.unwrap();
    let mut actions = vec![first];
    for e in [
        ok_tool(),
        Event::Succeeded,
        Event::Succeeded,
        Event::Succeeded,
        Event::Succeeded,
        Event::Succeeded,
        Event::Succeeded,
        ok_tool(),
    ] {
        actions.push(p.step(e));
    }
    assert!(matches!(actions.last().unwrap(), Action::RunStyleTool { .. }));
    let a = p.step(Event::ToolExited { ok: false, stderr: String::from("bad at-rule") });
    assert!(matches!(a, Action::RemoveDir { .. }));
    let a = p.step(Event::Succeeded);
    match a {
        Action::Respond { response } => {
            assert_eq!(response.status, 500);
            assert_eq!(response.body, "Tailwind build failed: bad at-rule");
        }
        _ => panic!("after teardown the pipeline must respond"),
    }
}

#[test]
fn no_upload_happens_after_tool_failure() {
    let body = "{\"component_id\":\"abc123\",\"code\":\"x\"}";
    let (p, first) = bundle_pipeline::machine::start_from_body(test_config(), body);
    let mut p = p.unwrap();
    let mut actions = vec![first];
    for e in [
        ok_tool(),
        Event::Succeeded,
        Event::Succeeded,
        Event::Succeeded,
        Event::Succeeded,
        Event::Succeeded,
        Event::Succeeded,
    ] {
        actions.push(p.step(e));
    }
    actions.push(p.step(Event::ToolExited { ok: false, stderr: String::from("boom") }));
    actions.push(p.step(Event::Succeeded));
    assert!(actions.iter().all(|a| !matches!(a, Action::Upload { .. })));
}

#[test]
fn workspace_failure_tears_down_before_responding() {
    let body = "{\"component_id\":\"abc123\",\"code\":\"x\"}";
    let (p, first) = bundle_pipeline::machine::start_from_body(test_config(), body);
    let mut p = p.unwrap();
    let mut actions = vec![first];
    actions.push(p.step(ok_tool()));
    actions.push(p.step(Event::Succeeded)); // rename done
    actions.push(p.step(Event::Succeeded)); // src dir done
    actions.push(p.step(Event::Succeeded)); // dist dir done
    // the stylesheet copy fails
    let a = p.step(Event::Failed(String::from("permission denied")));
    assert!(matches!(&a, Action::RemoveDir { path } if path == "/tmp/abc123"));
    let a = p.step(Event::Failed(String::from("teardown also failed")));
    match a {
        Action::Respond { response } => {
            // the teardown failure never changes the decided response
            assert_eq!(response.status, 500);
            assert_eq!(response.body, "Failed to copy globals.css: permission denied");
        }
        _ => panic!("after teardown the pipeline must respond"),
    }
}

#[test]
fn upload_failure_returns_500() {
    let body = "{\"component_id\":\"abc123\",\"code\":\"x\"}";
    let (p, first) = bundle_pipeline::machine::start_from_body(test_config(), body);
    let mut p = p.unwrap();
    let mut actions = vec![first];
    for e in [
        ok_tool(),
        Event::Succeeded,
        Event::Succeeded,
        Event::Succeeded,
        Event::Succeeded,
        Event::Succeeded,
        Event::Succeeded,
        ok_tool(),
        ok_tool(),
        Event::Succeeded,
    ] {
        actions.push(p.step(e));
    }
    let files = vec![String::from("index.css"), String::from("index.html")];
    let a = p.step(Event::DistListed(files));
    assert!(matches!(a, Action::Upload { .. }));
    let a = p.step(Event::Failed(String::from("connection reset")));
    assert!(matches!(a, Action::RemoveDir { .. }));
    let a = p.step(Event::Succeeded);
    match a {
        Action::Respond { response } => {
            assert_eq!(response.status, 500);
            assert_eq!(response.body, "Upload failed: connection reset");
        }
        _ => panic!("after teardown the pipeline must respond"),
    }
}

#[test]
fn template_copy_failure_responds_without_workspace_actions() {
    let body = "{\"component_id\":\"abc123\",\"code\":\"x\"}";
    let (p, _first) = bundle_pipeline::machine::start_from_body(test_config(), body);
    let mut p = p.unwrap();
    let a = p.step(Event::ToolExited { ok: false, stderr: String::from("no space left") });
    match a {
        Action::Respond { response } => {
            assert_eq!(response.status, 500);
            assert_eq!(response.body, "cp command failed: no space left");
        }
        _ => panic!("a template copy failure must be answered at once"),
    }
}

#[test]
fn rename_failure_responds_500() {
    let body = "{\"component_id\":\"abc123\",\"code\":\"x\"}";
    let (p, _first) = bundle_pipeline::machine::start_from_body(test_config(), body);
    let mut p = p.unwrap();
    let _ = p.step(ok_tool());
    let a = p.step(Event::Failed(String::from("target busy")));
    match a {
        Action::Respond { response } => {
            assert_eq!(response.status, 500);
            assert_eq!(response.body, "Failed to rename templates directory: target busy");
        }
        _ => panic!("a rename failure must be answered at once"),
    }
}

#[test]
fn empty_listing_still_succeeds_and_cleans_up() {
    let body = "{\"component_id\":\"abc123\",\"code\":\"x\"}";
    let (p, first) = bundle_pipeline::machine::start_from_body(test_config(), body);
    let actions = drive(first, p.unwrap(), success_events(vec![]));
    assert!(actions.iter().all(|a| !matches!(a, Action::Upload { .. })));
    let n = actions.len();
    assert!(matches!(actions[n - 2], Action::RemoveDir { .. }));
    match &actions[n - 1] {
        Action::Respond { response } => assert_eq!(response.status, 200),
        _ => panic!("the run must end in a response"),
    }
}

#[test]
fn error_response_has_html_content_type() {
    let r = bundle_pipeline::machine::error_response(503, String::from("unavailable"));
    assert_eq!(r.status, 503);
    assert_eq!(r.content_type, "text/html");
    assert_eq!(r.body, "unavailable");
}
