//! The build pipeline as a state machine.
//!
//! One build advances by alternating decisions, made here, with external
//! actions, performed by an unverified driver: filesystem seeding, the two
//! external build tools, artifact uploads and the final teardown.  `step`
//! consumes the outcome of the last action and decides the next one; the
//! whole behaviour is pinned by `spec_step`.

use vstd::prelude::*;
use vstd::string::*;
use crate::media::{media_type_for, spec_media_type};
use crate::request::{
    json_parse_error, json_parses, json_string_field, parse_request, BuildRequest,
};
use crate::text::{
    dist_dir, entry_point_text, html_shell_text, joined, prefixed, spec_dist_dir,
    spec_entry_point, spec_html_shell, spec_joined, spec_src_dir, spec_success_body,
    spec_templates_dir, spec_upload_key, spec_workspace_dir, src_dir, success_body,
    templates_dir, upload_key, workspace_dir,
};

verus! {

/// The values the hosting environment must supply before any build runs.
pub struct Config {
    pub bucket_name: String,
    pub cloudfront_domain: String,
    pub region: String,
    pub task_root: String,
}

/// The response handed back to the requester.
pub struct HttpResponse {
    pub status: u16,
    pub content_type: String,
    pub body: String,
}

/// The outcome of the last external action, reported by the driver.
pub enum Event {
    /// The filesystem operation, upload or teardown succeeded.
    Succeeded,
    /// It failed, with the error's rendering.
    Failed(String),
    /// An external tool terminated; `ok` is whether its exit status was zero.
    ToolExited { ok: bool, stderr: String },
    /// The output directory was enumerated; the names of its files.
    DistListed(Vec<String>),
}

/// The next external action the driver must perform.
pub enum Action {
    /// Copy the template skeleton directory tree to `dest`.
    CopyTree { source: String, dest: String },
    RenameDir { from: String, to: String },
    CreateDir { path: String },
    CopyFile { from: String, to: String },
    WriteFile { path: String, content: String },
    /// Run the bundler on the entry point, writing the script into `dist`.
    RunBundler { workdir: String },
    /// Run the stylesheet processor from `input` to `output`.
    RunStyleTool { workdir: String, input: String, output: String },
    ListDir { path: String },
    /// Publish one artifact under `key` with the given media type.
    Upload { path: String, key: String, media_type: String },
    RemoveDir { path: String },
    /// Hand the response back; the build is over.
    Respond { response: HttpResponse },
}

/// Where the build stands: each stage awaits the outcome of the one action
/// it has asked for.
pub enum Stage {
    CopyingTemplates,
    RenamingWorkspace,
    CreatingSrcDir,
    CreatingDistDir,
    CopyingGlobals,
    WritingComponent,
    WritingEntry,
    Bundling,
    Styling,
    WritingHtml,
    ListingDist,
    Uploading { files: Vec<String>, next: usize },
    /// The response is decided; the workspace is being torn down.
    CleaningUp { response: HttpResponse },
    Done,
}

/// One in-flight build.
pub struct Pipeline {
    pub config: Config,
    pub request: BuildRequest,
    pub stage: Stage,
}

// ---------------------------------------------------------------------------
// The mathematical model.
// ---------------------------------------------------------------------------

pub struct SpecConfig {
    pub bucket_name: Seq<char>,
    pub cloudfront_domain: Seq<char>,
    pub region: Seq<char>,
    pub task_root: Seq<char>,
}

pub struct SpecRequest {
    pub component_id: Seq<char>,
    pub code: Seq<char>,
}

pub struct SpecResponse {
    pub status: int,
    pub content_type: Seq<char>,
    pub body: Seq<char>,
}

pub enum SpecEvent {
    Succeeded,
    Failed(Seq<char>),
    ToolExited { ok: bool, stderr: Seq<char> },
    DistListed(Seq<Seq<char>>),
}

pub enum SpecAction {
    CopyTree { source: Seq<char>, dest: Seq<char> },
    RenameDir { from: Seq<char>, to: Seq<char> },
    CreateDir { path: Seq<char> },
    CopyFile { from: Seq<char>, to: Seq<char> },
    WriteFile { path: Seq<char>, content: Seq<char> },
    RunBundler { workdir: Seq<char> },
    RunStyleTool { workdir: Seq<char>, input: Seq<char>, output: Seq<char> },
    ListDir { path: Seq<char> },
    Upload { path: Seq<char>, key: Seq<char>, media_type: Seq<char> },
    RemoveDir { path: Seq<char> },
    Respond { response: SpecResponse },
}

pub enum SpecStage {
    CopyingTemplates,
    RenamingWorkspace,
    CreatingSrcDir,
    CreatingDistDir,
    CopyingGlobals,
    WritingComponent,
    WritingEntry,
    Bundling,
    Styling,
    WritingHtml,
    ListingDist,
    Uploading { files: Seq<Seq<char>>, next: int },
    CleaningUp { response: SpecResponse },
    Done,
}

pub struct SpecState {
    pub config: SpecConfig,
    pub request: SpecRequest,
    pub stage: SpecStage,
}

impl View for Config {
    type V = SpecConfig;

    open spec fn view(&self) -> SpecConfig {
        SpecConfig {
            bucket_name: self.bucket_name@,
            cloudfront_domain: self.cloudfront_domain@,
            region: self.region@,
            task_root: self.task_root@,
        }
    }
}

impl View for BuildRequest {
    type V = SpecRequest;

    open spec fn view(&self) -> SpecRequest {
        SpecRequest { component_id: self.component_id@, code: self.code@ }
    }
}

impl View for HttpResponse {
    type V = SpecResponse;

    open spec fn view(&self) -> SpecResponse {
        SpecResponse {
            status: self.status as int,
            content_type: self.content_type@,
            body: self.body@,
        }
    }
}

impl View for Event {
    type V = SpecEvent;

    open spec fn view(&self) -> SpecEvent {
        match self {
            Event::Succeeded => SpecEvent::Succeeded,
            Event::Failed(m) => SpecEvent::Failed(m@),
            Event::ToolExited { ok, stderr } => SpecEvent::ToolExited {
                ok: *ok,
                stderr: stderr@,
            },
            Event::DistListed(files) => SpecEvent::DistListed(files.deep_view()),
        }
    }
}

impl View for Action {
    type V = SpecAction;

    open spec fn view(&self) -> SpecAction {
        match self {
            Action::CopyTree { source, dest } => SpecAction::CopyTree {
                source: source@,
                dest: dest@,
            },
            Action::RenameDir { from, to } => SpecAction::RenameDir { from: from@, to: to@ },
            Action::CreateDir { path } => SpecAction::CreateDir { path: path@ },
            Action::CopyFile { from, to } => SpecAction::CopyFile { from: from@, to: to@ },
            Action::WriteFile { path, content } => SpecAction::WriteFile {
                path: path@,
                content: content@,
            },
            Action::RunBundler { workdir } => SpecAction::RunBundler { workdir: workdir@ },
            Action::RunStyleTool { workdir, input, output } => SpecAction::RunStyleTool {
                workdir: workdir@,
                input: input@,
                output: output@,
            },
            Action::ListDir { path } => SpecAction::ListDir { path: path@ },
            Action::Upload { path, key, media_type } => SpecAction::Upload {
                path: path@,
                key: key@,
                media_type: media_type@,
            },
            Action::RemoveDir { path } => SpecAction::RemoveDir { path: path@ },
            Action::Respond { response } => SpecAction::Respond { response: response@ },
        }
    }
}

impl View for Stage {
    type V = SpecStage;

    open spec fn view(&self) -> SpecStage {
        match self {
            Stage::CopyingTemplates => SpecStage::CopyingTemplates,
            Stage::RenamingWorkspace => SpecStage::RenamingWorkspace,
            Stage::CreatingSrcDir => SpecStage::CreatingSrcDir,
            Stage::CreatingDistDir => SpecStage::CreatingDistDir,
            Stage::CopyingGlobals => SpecStage::CopyingGlobals,
            Stage::WritingComponent => SpecStage::WritingComponent,
            Stage::WritingEntry => SpecStage::WritingEntry,
            Stage::Bundling => SpecStage::Bundling,
            Stage::Styling => SpecStage::Styling,
            Stage::WritingHtml => SpecStage::WritingHtml,
            Stage::ListingDist => SpecStage::ListingDist,
            Stage::Uploading { files, next } => SpecStage::Uploading {
                files: files.deep_view(),
                next: *next as int,
            },
            Stage::CleaningUp { response } => SpecStage::CleaningUp { response: response@ },
            Stage::Done => SpecStage::Done,
        }
    }
}

impl View for Pipeline {
    type V = SpecState;

    open spec fn view(&self) -> SpecState {
        SpecState { config: self.config@, request: self.request@, stage: self.stage@ }
    }
}

/// A failure response: the given status, an HTML content type, and the
/// message as the body.
pub open spec fn spec_error_response(status: int, message: Seq<char>) -> SpecResponse {
    SpecResponse { status, content_type: "text/html"@, body: message }
}

/// The successful response: the two public URLs of the published build.
pub open spec fn spec_success_response(id: Seq<char>, domain: Seq<char>) -> SpecResponse {
    SpecResponse {
        status: 200,
        content_type: "application/json"@,
        body: spec_success_body(id, domain),
    }
}

/// Which outcome each stage awaits.
pub open spec fn spec_expects(stage: SpecStage, e: SpecEvent) -> bool {
    match stage {
        SpecStage::CopyingTemplates => e is ToolExited,
        SpecStage::Bundling => e is ToolExited,
        SpecStage::Styling => e is ToolExited,
        SpecStage::RenamingWorkspace => e is Succeeded || e is Failed,
        SpecStage::CreatingSrcDir => e is Succeeded || e is Failed,
        SpecStage::CreatingDistDir => e is Succeeded || e is Failed,
        SpecStage::CopyingGlobals => e is Succeeded || e is Failed,
        SpecStage::WritingComponent => e is Succeeded || e is Failed,
        SpecStage::WritingEntry => e is Succeeded || e is Failed,
        SpecStage::WritingHtml => e is Succeeded || e is Failed,
        SpecStage::ListingDist => e is DistListed || e is Failed,
        SpecStage::Uploading { .. } => e is Succeeded || e is Failed,
        SpecStage::CleaningUp { .. } => e is Succeeded || e is Failed,
        SpecStage::Done => false,
    }
}

/// Internal consistency of a state: an upload position always lies inside
/// the list being uploaded.
pub open spec fn spec_wf(s: SpecState) -> bool {
    match s.stage {
        SpecStage::Uploading { files, next } => 0 <= next < files.len(),
        _ => true,
    }
}

/// A state that has decided its response and is tearing the workspace down,
/// together with the teardown action.
pub open spec fn spec_to_cleanup(s: SpecState, response: SpecResponse) -> (SpecState, SpecAction) {
    (
        SpecState { stage: SpecStage::CleaningUp { response }, ..s },
        SpecAction::RemoveDir { path: spec_workspace_dir(s.request.component_id) },
    )
}

/// The upload action for the file at position `i` of the listing.
pub open spec fn spec_upload_action(id: Seq<char>, files: Seq<Seq<char>>, i: int) -> SpecAction {
    SpecAction::Upload {
        path: spec_joined(spec_dist_dir(id), files[i]),
        key: spec_upload_key(id, files[i]),
        media_type: spec_media_type(files[i]),
    }
}

/// The first state of a build and the action that seeds its workspace.
pub open spec fn spec_start(config: SpecConfig, request: SpecRequest) -> (SpecState, SpecAction) {
    (
        SpecState { config, request, stage: SpecStage::CopyingTemplates },
        SpecAction::CopyTree { source: spec_templates_dir(config.task_root), dest: "/tmp/"@ },
    )
}

/// The transition relation of the pipeline: from a state and the outcome of
/// the last action to the next state and action.
pub open spec fn spec_step(s: SpecState, e: SpecEvent) -> (SpecState, SpecAction) {
    let id = s.request.component_id;
    let ws = spec_workspace_dir(id);
    let srcd = spec_src_dir(id);
    let distd = spec_dist_dir(id);
    match (s.stage, e) {
        (SpecStage::CopyingTemplates, SpecEvent::ToolExited { ok, stderr }) => if ok {
            (
                SpecState { stage: SpecStage::RenamingWorkspace, ..s },
                SpecAction::RenameDir { from: "/tmp/templates"@, to: ws },
            )
        } else {
            (
                SpecState { stage: SpecStage::Done, ..s },
                SpecAction::Respond {
                    response: spec_error_response(500, "cp command failed: "@ + stderr),
                },
            )
        },
        (SpecStage::RenamingWorkspace, SpecEvent::Succeeded) => (
            SpecState { stage: SpecStage::CreatingSrcDir, ..s },
            SpecAction::CreateDir { path: srcd },
        ),
        (SpecStage::RenamingWorkspace, SpecEvent::Failed(m)) => (
            SpecState { stage: SpecStage::Done, ..s },
            SpecAction::Respond {
                response: spec_error_response(
                    500,
                    "Failed to rename templates directory: "@ + m,
                ),
            },
        ),
        (SpecStage::CreatingSrcDir, SpecEvent::Succeeded) => (
            SpecState { stage: SpecStage::CreatingDistDir, ..s },
            SpecAction::CreateDir { path: distd },
        ),
        (SpecStage::CreatingSrcDir, SpecEvent::Failed(m)) => spec_to_cleanup(
            s,
            spec_error_response(500, "Failed to create src directory: "@ + m),
        ),
        (SpecStage::CreatingDistDir, SpecEvent::Succeeded) => (
            SpecState { stage: SpecStage::CopyingGlobals, ..s },
            SpecAction::CopyFile {
                from: spec_joined(ws, "globals.css"@),
                to: spec_joined(srcd, "globals.css"@),
            },
        ),
        (SpecStage::CreatingDistDir, SpecEvent::Failed(m)) => spec_to_cleanup(
            s,
            spec_error_response(500, "Failed to create out directory: "@ + m),
        ),
        (SpecStage::CopyingGlobals, SpecEvent::Succeeded) => (
            SpecState { stage: SpecStage::WritingComponent, ..s },
            SpecAction::WriteFile {
                path: spec_joined(srcd, "UserComponent.tsx"@),
                content: s.request.code,
            },
        ),
        (SpecStage::CopyingGlobals, SpecEvent::Failed(m)) => spec_to_cleanup(
            s,
            spec_error_response(500, "Failed to copy globals.css: "@ + m),
        ),
        (SpecStage::WritingComponent, SpecEvent::Succeeded) => (
            SpecState { stage: SpecStage::WritingEntry, ..s },
            SpecAction::WriteFile {
                path: spec_joined(srcd, "index.tsx"@),
                content: spec_entry_point(),
            },
        ),
        (SpecStage::WritingComponent, SpecEvent::Failed(m)) => spec_to_cleanup(
            s,
            spec_error_response(500, "Failed to write component file: "@ + m),
        ),
        (SpecStage::WritingEntry, SpecEvent::Succeeded) => (
            SpecState { stage: SpecStage::Bundling, ..s },
            SpecAction::RunBundler { workdir: ws },
        ),
        (SpecStage::WritingEntry, SpecEvent::Failed(m)) => spec_to_cleanup(
            s,
            spec_error_response(500, "Failed to write component file: "@ + m),
        ),
        (SpecStage::Bundling, SpecEvent::ToolExited { ok, stderr }) => if ok {
            (
                SpecState { stage: SpecStage::Styling, ..s },
                SpecAction::RunStyleTool {
                    workdir: ws,
                    input: spec_joined(srcd, "globals.css"@),
                    output: spec_joined(distd, "index.css"@),
                },
            )
        } else {
            spec_to_cleanup(s, spec_error_response(500, "Bun build failed: "@ + stderr))
        },
        (SpecStage::Styling, SpecEvent::ToolExited { ok, stderr }) => if ok {
            (
                SpecState { stage: SpecStage::WritingHtml, ..s },
                SpecAction::WriteFile {
                    path: spec_joined(distd, "index.html"@),
                    content: spec_html_shell(),
                },
            )
        } else {
            spec_to_cleanup(s, spec_error_response(500, "Tailwind build failed: "@ + stderr))
        },
        (SpecStage::WritingHtml, SpecEvent::Succeeded) => (
            SpecState { stage: SpecStage::ListingDist, ..s },
            SpecAction::ListDir { path: distd },
        ),
        (SpecStage::WritingHtml, SpecEvent::Failed(m)) => spec_to_cleanup(
            s,
            spec_error_response(500, "Failed to write index.html: "@ + m),
        ),
        (SpecStage::ListingDist, SpecEvent::DistListed(files)) => if files.len() == 0 {
            spec_to_cleanup(s, spec_success_response(id, s.config.cloudfront_domain))
        } else {
            (
                SpecState { stage: SpecStage::Uploading { files, next: 0 }, ..s },
                spec_upload_action(id, files, 0),
            )
        },
        (SpecStage::ListingDist, SpecEvent::Failed(m)) => spec_to_cleanup(
            s,
            spec_error_response(500, "Failed to read dist directory: "@ + m),
        ),
        (SpecStage::Uploading { files, next }, SpecEvent::Succeeded) => if next + 1 < files.len() {
            (
                SpecState { stage: SpecStage::Uploading { files, next: next + 1 }, ..s },
                spec_upload_action(id, files, next + 1),
            )
        } else {
            spec_to_cleanup(s, spec_success_response(id, s.config.cloudfront_domain))
        },
        (SpecStage::Uploading { .. }, SpecEvent::Failed(m)) => spec_to_cleanup(
            s,
            spec_error_response(500, "Upload failed: "@ + m),
        ),
        (SpecStage::CleaningUp { response }, _) => (
            SpecState { stage: SpecStage::Done, ..s },
            SpecAction::Respond { response },
        ),
        _ => (s, SpecAction::Respond { response: spec_error_response(500, Seq::empty()) }),
    }
}

/// Builds the failure response the front end serves: the given status, an
/// HTML content type, and the message as the body.
pub fn error_response(status: u16, message: String) -> (r: HttpResponse)
    ensures
        r@ == spec_error_response(status as int, message@),
{
    HttpResponse { status, content_type: String::from_str("text/html"), body: message }
}

fn success_response(id: &str, domain: &str) -> (r: HttpResponse)
    ensures
        r@ == spec_success_response(id@, domain@),
{
    HttpResponse {
        status: 200,
        content_type: String::from_str("application/json"),
        body: success_body(id, domain),
    }
}

impl Pipeline {
    /// Whether the build has handed its response back.
    pub open spec fn is_done(&self) -> bool {
        self@.stage is Done
    }

    /// Whether `e` is an outcome the current stage awaits.
    pub open spec fn expects(&self, e: Event) -> bool {
        spec_expects(self@.stage, e@)
    }

    pub open spec fn wf(&self) -> bool {
        match self.stage {
            Stage::Uploading { files, next } => next < files.len(),
            _ => true,
        }
    }

    /// Begins a build for a parsed request: the first action seeds the
    /// workspace by copying the template skeleton.
    pub fn start(config: Config, request: BuildRequest) -> (r: (Pipeline, Action))
        ensures
            (r.0@, r.1@) == spec_start(config@, request@),
            r.0.wf(),
            !r.0.is_done(),
    {
        let source = templates_dir(config.task_root.as_str());
        let p = Pipeline { config, request, stage: Stage::CopyingTemplates };
        let a = Action::CopyTree { source, dest: String::from_str("/tmp/") };
        (p, a)
    }

    /// Decides the next action from the outcome of the last one.
    pub fn step(&mut self, e: Event) -> (a: Action)
        requires
            old(self).wf(),
            old(self).expects(e),
        ensures
            (final(self)@, a@) == spec_step(old(self)@, e@),
            final(self).wf(),
    {
        let mut cur = Stage::Done;
        core::mem::swap(&mut self.stage, &mut cur);
        let id = self.request.component_id.as_str();
        match (cur, e) {
            (Stage::CopyingTemplates, Event::ToolExited { ok, stderr }) => {
                if ok {
                    let ws = workspace_dir(id);
                    self.stage = Stage::RenamingWorkspace;
                    Action::RenameDir { from: String::from_str("/tmp/templates"), to: ws }
                } else {
                    let resp = error_response(
                        500,
                        prefixed("cp command failed: ", stderr.as_str()),
                    );
                    self.stage = Stage::Done;
                    Action::Respond { response: resp }
                }
            },
            (Stage::RenamingWorkspace, Event::Succeeded) => {
                let path = src_dir(id);
                self.stage = Stage::CreatingSrcDir;
                Action::CreateDir { path }
            },
            (Stage::RenamingWorkspace, Event::Failed(m)) => {
                let resp = error_response(
                    500,
                    prefixed("Failed to rename templates directory: ", m.as_str()),
                );
                self.stage = Stage::Done;
                Action::Respond { response: resp }
            },
            (Stage::CreatingSrcDir, Event::Succeeded) => {
                let path = dist_dir(id);
                self.stage = Stage::CreatingDistDir;
                Action::CreateDir { path }
            },
            (Stage::CreatingSrcDir, Event::Failed(m)) => self.fail_with_cleanup(
                prefixed("Failed to create src directory: ", m.as_str()),
            ),
            (Stage::CreatingDistDir, Event::Succeeded) => {
                let ws = workspace_dir(id);
                let srcd = src_dir(id);
                self.stage = Stage::CopyingGlobals;
                Action::CopyFile {
                    from: joined(ws.as_str(), "globals.css"),
                    to: joined(srcd.as_str(), "globals.css"),
                }
            },
            (Stage::CreatingDistDir, Event::Failed(m)) => self.fail_with_cleanup(
                prefixed("Failed to create out directory: ", m.as_str()),
            ),
            (Stage::CopyingGlobals, Event::Succeeded) => {
                let srcd = src_dir(id);
                let content = self.request.code.clone();
                self.stage = Stage::WritingComponent;
                Action::WriteFile { path: joined(srcd.as_str(), "UserComponent.tsx"), content }
            },
            (Stage::CopyingGlobals, Event::Failed(m)) => self.fail_with_cleanup(
                prefixed("Failed to copy globals.css: ", m.as_str()),
            ),
            (Stage::WritingComponent, Event::Succeeded) => {
                let srcd = src_dir(id);
                self.stage = Stage::WritingEntry;
                Action::WriteFile {
                    path: joined(srcd.as_str(), "index.tsx"),
                    content: entry_point_text(),
                }
            },
            (Stage::WritingComponent, Event::Failed(m)) => self.fail_with_cleanup(
                prefixed("Failed to write component file: ", m.as_str()),
            ),
            (Stage::WritingEntry, Event::Succeeded) => {
                let ws = workspace_dir(id);
                self.stage = Stage::Bundling;
                Action::RunBundler { workdir: ws }
            },
            (Stage::WritingEntry, Event::Failed(m)) => self.fail_with_cleanup(
                prefixed("Failed to write component file: ", m.as_str()),
            ),
            (Stage::Bundling, Event::ToolExited { ok, stderr }) => {
                if ok {
                    let ws = workspace_dir(id);
                    let srcd = src_dir(id);
                    let distd = dist_dir(id);
                    self.stage = Stage::Styling;
                    Action::RunStyleTool {
                        workdir: ws,
                        input: joined(srcd.as_str(), "globals.css"),
                        output: joined(distd.as_str(), "index.css"),
                    }
                } else {
                    self.fail_with_cleanup(prefixed("Bun build failed: ", stderr.as_str()))
                }
            },
            (Stage::Styling, Event::ToolExited { ok, stderr }) => {
                if ok {
                    let distd = dist_dir(id);
                    self.stage = Stage::WritingHtml;
                    Action::WriteFile {
                        path: joined(distd.as_str(), "index.html"),
                        content: html_shell_text(),
                    }
                } else {
                    self.fail_with_cleanup(prefixed("Tailwind build failed: ", stderr.as_str()))
                }
            },
            (Stage::WritingHtml, Event::Succeeded) => {
                let path = dist_dir(id);
                self.stage = Stage::ListingDist;
                Action::ListDir { path }
            },
            (Stage::WritingHtml, Event::Failed(m)) => self.fail_with_cleanup(
                prefixed("Failed to write index.html: ", m.as_str()),
            ),
            (Stage::ListingDist, Event::DistListed(files)) => {
                if files.len() == 0 {
                    self.finish_with_cleanup()
                } else {
                    let a = self.upload_action(&files, 0);
                    self.stage = Stage::Uploading { files, next: 0 };
                    a
                }
            },
            (Stage::ListingDist, Event::Failed(m)) => self.fail_with_cleanup(
                prefixed("Failed to read dist directory: ", m.as_str()),
            ),
            (Stage::Uploading { files, next }, Event::Succeeded) => {
                if next + 1 < files.len() {
                    let a = self.upload_action(&files, next + 1);
                    self.stage = Stage::Uploading { files, next: next + 1 };
                    a
                } else {
                    self.finish_with_cleanup()
                }
            },
            (Stage::Uploading { .. }, Event::Failed(m)) => self.fail_with_cleanup(
                prefixed("Upload failed: ", m.as_str()),
            ),
            (Stage::CleaningUp { response }, Event::Succeeded) => {
                self.stage = Stage::Done;
                Action::Respond { response }
            },
            (Stage::CleaningUp { response }, Event::Failed(_)) => {
                self.stage = Stage::Done;
                Action::Respond { response }
            },
            _ => vstd::pervasive::unreached(),
        }
    }

    /// Decides a failure response and asks for the workspace teardown.
    fn fail_with_cleanup(&mut self, message: String) -> (a: Action)
        ensures
            final(self)@ == (SpecState {
                stage: SpecStage::CleaningUp { response: spec_error_response(500, message@) },
                ..old(self)@
            }),
            a@ == (SpecAction::RemoveDir {
                path: spec_workspace_dir(old(self)@.request.component_id),
            }),
    {
        let ws = workspace_dir(self.request.component_id.as_str());
        let resp = error_response(500, message);
        self.stage = Stage::CleaningUp { response: resp };
        Action::RemoveDir { path: ws }
    }

    /// Decides the success response and asks for the workspace teardown.
    fn finish_with_cleanup(&mut self) -> (a: Action)
        ensures
            final(self)@ == (SpecState {
                stage: SpecStage::CleaningUp {
                    response: spec_success_response(
                        old(self)@.request.component_id,
                        old(self)@.config.cloudfront_domain,
                    ),
                },
                ..old(self)@
            }),
            a@ == (SpecAction::RemoveDir {
                path: spec_workspace_dir(old(self)@.request.component_id),
            }),
    {
        let ws = workspace_dir(self.request.component_id.as_str());
        let resp = success_response(
            self.request.component_id.as_str(),
            self.config.cloudfront_domain.as_str(),
        );
        self.stage = Stage::CleaningUp { response: resp };
        Action::RemoveDir { path: ws }
    }

    /// The upload action for position `i` of the listing.
    fn upload_action(&self, files: &Vec<String>, i: usize) -> (a: Action)
        requires
            i < files.len(),
        ensures
            (a@ == spec_upload_action(self@.request.component_id, files.deep_view(), i as int)),
    {
        let id = self.request.component_id.as_str();
        let distd = dist_dir(id);
        let f: &String = &files[i];
        let a = Action::Upload {
            path: joined(distd.as_str(), f.as_str()),
            key: upload_key(id, f.as_str()),
            media_type: media_type_for(f.as_str()),
        };
        proof {
            assert(files.deep_view()[i as int] == files@[i as int]@);
        }
        a
    }
}

/// Takes a raw request body to the first decision.  Every malformed body —
/// and only an invalid body — is answered at once with status 400: the
/// machine is never started for it, so no workspace action is ever issued.
/// Every body whose two string fields exist starts a build on exactly those
/// values.
pub fn start_from_body(config: Config, body: &str) -> (r: (Option<Pipeline>, Action))
    ensures
        !json_parses(body@) ==> (r.0 is None && r.1@ == (SpecAction::Respond {
            response: spec_error_response(400, json_parse_error(body@)),
        })),
        r.0 is None ==> (r.1@ matches SpecAction::Respond { response } && response.status == 400),
        r.0 matches Some(p) ==> ((p@, r.1@) == spec_start(config@, p@.request) && p.wf()
            && !p.is_done()),
        (json_parses(body@) && json_string_field(body@, "component_id"@) is Some
            && json_string_field(body@, "code"@) is Some) ==> (r.0 matches Some(p) && Some(
            p@.request.component_id,
        ) == json_string_field(body@, "component_id"@) && Some(p@.request.code)
            == json_string_field(body@, "code"@)),
{
    match parse_request(body) {
        Err(m) => (None, Action::Respond { response: error_response(400, m) }),
        Ok(request) => {
            let (p, a) = Pipeline::start(config, request);
            (Some(p), a)
        },
    }
}

} // verus!
