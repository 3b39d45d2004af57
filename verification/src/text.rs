//! Construction of the fixed texts a build uses: workspace paths, the
//! generated entry point, the HTML shell, storage keys, public URLs and the
//! success response body.

use vstd::prelude::*;
use vstd::string::*;

verus! {

/// The workspace directory for a component: a tree under `/tmp` named by the
/// component identifier.
pub open spec fn spec_workspace_dir(id: Seq<char>) -> Seq<char> {
    "/tmp/"@ + id
}

/// The source subtree of the workspace.
pub open spec fn spec_src_dir(id: Seq<char>) -> Seq<char> {
    spec_workspace_dir(id) + "/src"@
}

/// The output subtree of the workspace.
pub open spec fn spec_dist_dir(id: Seq<char>) -> Seq<char> {
    spec_workspace_dir(id) + "/dist"@
}

/// Where the template skeleton lives under the configured task root.
pub open spec fn spec_templates_dir(task_root: Seq<char>) -> Seq<char> {
    task_root + "/templates"@
}

/// A path composed of a directory and a file name.
pub open spec fn spec_joined(dir: Seq<char>, file: Seq<char>) -> Seq<char> {
    dir + "/"@ + file
}

/// The storage key of an artifact: the file name under the component prefix.
pub open spec fn spec_upload_key(id: Seq<char>, file: Seq<char>) -> Seq<char> {
    id + "/"@ + file
}

/// The public preview URL of a published build.
pub open spec fn spec_render_url(id: Seq<char>) -> Seq<char> {
    "https://"@ + id + ".preview.runney.cloud/index.html"@
}

/// The distribution URL of a published build.
pub open spec fn spec_original_url(domain: Seq<char>, id: Seq<char>) -> Seq<char> {
    "https://"@ + domain + "/"@ + id + "/index.html"@
}

/// The JSON body of a successful response, carrying both URLs.
pub open spec fn spec_success_body(id: Seq<char>, domain: Seq<char>) -> Seq<char> {
    "{\"renderUrl\":\""@ + spec_render_url(id) + "\",\"originalUrl\":\""@ + spec_original_url(
        domain,
        id,
    ) + "\"}"@
}

/// The generated entry point: it mounts the user component into the root DOM
/// node and pulls in the seeded global stylesheet.
pub open spec fn spec_entry_point() -> Seq<char> {
    "\n    import React from 'react';\n    import ReactDOM from 'react-dom/client';\n    import UserComponent from './UserComponent';\n    import './globals.css';\n    \n    const rootEl = document.getElementById('root');\n    if (rootEl) ReactDOM.createRoot(rootEl).render(<UserComponent />);\n    "@
}

/// The static HTML shell referencing the compiled stylesheet and script.
pub open spec fn spec_html_shell() -> Seq<char> {
    "<!DOCTYPE html>\n      <html lang=\"en\">\n        <head>\n          <meta charset=\"UTF-8\" />\n          <meta name=\"viewport\" content=\"width=device-width, initial-scale=1.0\" />\n          <title>Rendered Component</title>\n          <link rel=\"stylesheet\" href=\"./index.css\" />\n        </head>\n        <body>\n          <div id=\"root\"></div>\n          <script type=\"module\" src=\"./index.js\"></script>\n        </body>\n      </html>"@
}

pub fn workspace_dir(id: &str) -> (r: String)
    ensures
        r@ == spec_workspace_dir(id@),
{
    String::from_str("/tmp/").concat(id)
}

pub fn src_dir(id: &str) -> (r: String)
    ensures
        r@ == spec_src_dir(id@),
{
    workspace_dir(id).concat("/src")
}

pub fn dist_dir(id: &str) -> (r: String)
    ensures
        r@ == spec_dist_dir(id@),
{
    workspace_dir(id).concat("/dist")
}

pub fn templates_dir(task_root: &str) -> (r: String)
    ensures
        r@ == spec_templates_dir(task_root@),
{
    String::from_str(task_root).concat("/templates")
}

pub fn joined(dir: &str, file: &str) -> (r: String)
    ensures
        r@ == spec_joined(dir@, file@),
{
    String::from_str(dir).concat("/").concat(file)
}

pub fn upload_key(id: &str, file: &str) -> (r: String)
    ensures
        r@ == spec_upload_key(id@, file@),
{
    String::from_str(id).concat("/").concat(file)
}

/// A message made of a fixed prefix and the detail of the failure behind it.
pub fn prefixed(prefix: &str, detail: &str) -> (r: String)
    ensures
        r@ == prefix@ + detail@,
{
    String::from_str(prefix).concat(detail)
}

pub fn render_url(id: &str) -> (r: String)
    ensures
        r@ == spec_render_url(id@),
{
    String::from_str("https://").concat(id).concat(".preview.runney.cloud/index.html")
}

pub fn original_url(domain: &str, id: &str) -> (r: String)
    ensures
        r@ == spec_original_url(domain@, id@),
{
    String::from_str("https://").concat(domain).concat("/").concat(id).concat("/index.html")
}

pub fn success_body(id: &str, domain: &str) -> (r: String)
    ensures
        r@ == spec_success_body(id@, domain@),
{
    String::from_str("{\"renderUrl\":\"").concat(render_url(id).as_str()).concat(
        "\",\"originalUrl\":\"",
    ).concat(original_url(domain, id).as_str()).concat("\"}")
}

pub fn entry_point_text() -> (r: String)
    ensures
        r@ == spec_entry_point(),
{
    String::from_str(
        "\n    import React from 'react';\n    import ReactDOM from 'react-dom/client';\n    import UserComponent from './UserComponent';\n    import './globals.css';\n    \n    const rootEl = document.getElementById('root');\n    if (rootEl) ReactDOM.createRoot(rootEl).render(<UserComponent />);\n    ",
    )
}

pub fn html_shell_text() -> (r: String)
    ensures
        r@ == spec_html_shell(),
{
    String::from_str(
        "<!DOCTYPE html>\n      <html lang=\"en\">\n        <head>\n          <meta charset=\"UTF-8\" />\n          <meta name=\"viewport\" content=\"width=device-width, initial-scale=1.0\" />\n          <title>Rendered Component</title>\n          <link rel=\"stylesheet\" href=\"./index.css\" />\n        </head>\n        <body>\n          <div id=\"root\"></div>\n          <script type=\"module\" src=\"./index.js\"></script>\n        </body>\n      </html>",
    )
}

} // verus!
