//! Properties of whole runs of the pipeline.
//!
//! A run folds the transition relation over a sequence of outcomes,
//! collecting the actions the pipeline asks for.  The lemmas here pin down
//! the shape of complete runs: what a fully successful build performs, that
//! a tool failure publishes nothing and answers with the tool's own error,
//! and that the workspace teardown precedes every response once the
//! workspace exists.

use vstd::prelude::*;
use crate::machine::{
    spec_error_response, spec_expects, spec_start, spec_step, spec_success_response,
    spec_upload_action, spec_wf, SpecAction, SpecConfig, SpecEvent, SpecRequest, SpecResponse,
    SpecStage, SpecState,
};
use crate::text::{
    spec_dist_dir, spec_entry_point, spec_html_shell, spec_joined, spec_src_dir,
    spec_workspace_dir,
};

verus! {

/// One run of the machine: starting at `s`, consume the outcomes in order,
/// collecting the action decided after each.  The run stops once the
/// response has been handed back, or at an outcome the stage does not await.
pub open spec fn spec_run(s: SpecState, events: Seq<SpecEvent>) -> (SpecState, Seq<SpecAction>)
    decreases events.len(),
{
    if events.len() == 0 || !spec_expects(s.stage, events[0]) {
        (s, Seq::empty())
    } else {
        let next = spec_step(s, events[0]);
        let rest = spec_run(next.0, events.drop_first());
        (rest.0, seq![next.1] + rest.1)
    }
}

/// Whether `needle` occurs somewhere inside `hay`.
pub open spec fn contains_text(hay: Seq<char>, needle: Seq<char>) -> bool {
    exists|i: int|
        0 <= i && i + needle.len() <= hay.len() && #[trigger] hay.subrange(i, i + needle.len())
            == needle
}

/// A text contains every suffix it was built from.
pub proof fn lemma_suffix_contained(prefix: Seq<char>, x: Seq<char>)
    ensures
        contains_text(prefix + x, x),
{
    let hay = prefix + x;
    let i = prefix.len() as int;
    assert(hay.subrange(i, i + x.len()) =~= x);
}

/// A finished run emits nothing further.
pub proof fn lemma_done_run(s: SpecState, events: Seq<SpecEvent>)
    requires
        s.stage is Done,
    ensures
        spec_run(s, events).1 == Seq::<SpecAction>::empty(),
        spec_run(s, events).0 == s,
{
}

/// Once the response is decided and the teardown is under way, the only
/// action a run can still emit is that very response.
pub proof fn lemma_cleanup_run(resp: SpecResponse, s: SpecState, events: Seq<SpecEvent>)
    requires
        s.stage == (SpecStage::CleaningUp { response: resp }),
    ensures
        ({
            let actions = spec_run(s, events).1;
            forall|i: int|
                0 <= i < actions.len() ==> #[trigger] actions[i] == (SpecAction::Respond {
                    response: resp,
                })
        }),
    decreases events.len(),
{
    if events.len() == 0 || !spec_expects(s.stage, events[0]) {
    } else {
        let next = spec_step(s, events[0]);
        assert(next.0.stage is Done);
        lemma_done_run(next.0, events.drop_first());
        assert(spec_run(s, events).1 =~= seq![next.1]);
    }
}

/// The stages at which the workspace directory exists on disk: everything
/// after the template tree was renamed into place and before it is removed.
pub open spec fn workspace_live(stage: SpecStage) -> bool {
    match stage {
        SpecStage::CreatingSrcDir => true,
        SpecStage::CreatingDistDir => true,
        SpecStage::CopyingGlobals => true,
        SpecStage::WritingComponent => true,
        SpecStage::WritingEntry => true,
        SpecStage::Bundling => true,
        SpecStage::Styling => true,
        SpecStage::WritingHtml => true,
        SpecStage::ListingDist => true,
        SpecStage::Uploading { .. } => true,
        _ => false,
    }
}

/// The workspace never outlives the build: once it exists, every response a
/// run can emit comes after its teardown, on success and failure paths
/// alike.
pub proof fn lemma_cleanup_precedes_response(s: SpecState, events: Seq<SpecEvent>)
    requires
        workspace_live(s.stage),
        spec_wf(s),
    ensures
        ({
            let actions = spec_run(s, events).1;
            forall|i: int|
                0 <= i < actions.len() && (#[trigger] actions[i]) is Respond ==> exists|j: int|
                    0 <= j < i && (#[trigger] actions[j]) is RemoveDir
        }),
    decreases events.len(),
{
    let actions = spec_run(s, events).1;
    if events.len() == 0 || !spec_expects(s.stage, events[0]) {
    } else {
        let e = events[0];
        let next = spec_step(s, e);
        let s1 = next.0;
        let a = next.1;
        let rest = spec_run(s1, events.drop_first()).1;
        assert(actions == seq![a] + rest);
        if s1.stage is CleaningUp {
            let response = choose|r: SpecResponse| s1.stage == (SpecStage::CleaningUp {
                response: r,
            });
            assert(s1.stage == (SpecStage::CleaningUp { response }));
            assert(a is RemoveDir);
            lemma_cleanup_run(response, s1, events.drop_first());
            assert forall|i: int|
                0 <= i < actions.len() && (#[trigger] actions[i]) is Respond implies exists|j: int|
                0 <= j < i && (#[trigger] actions[j]) is RemoveDir by {
                assert(actions[0] == a);
                assert(i >= 1);
                assert(actions[0] is RemoveDir);
            }
        } else {
            assert(workspace_live(s1.stage));
            assert(spec_wf(s1));
            assert(!(a is Respond));
            lemma_cleanup_precedes_response(s1, events.drop_first());
            assert forall|i: int|
                0 <= i < actions.len() && (#[trigger] actions[i]) is Respond implies exists|j: int|
                0 <= j < i && (#[trigger] actions[j]) is RemoveDir by {
                assert(actions[0] == a);
                assert(i >= 1);
                assert(actions[i] == rest[i - 1]);
                assert(exists|j: int| 0 <= j < i - 1 && (#[trigger] rest[j]) is RemoveDir);
                let j = choose|j: int| 0 <= j < i - 1 && (#[trigger] rest[j]) is RemoveDir;
                assert(actions[j + 1] == rest[j]);
                assert(0 <= j + 1 < i && actions[j + 1] is RemoveDir);
            }
        }
    }
}

/// From the very first stage, a run may only answer before the workspace
/// exists — in which case it has issued no action that creates anything
/// inside one — and from the moment any directory was created, a teardown
/// precedes every response.
pub proof fn lemma_start_run_teardown(s: SpecState, events: Seq<SpecEvent>)
    requires
        s.stage is CopyingTemplates,
    ensures
        ({
            let actions = spec_run(s, events).1;
            forall|i: int|
                0 <= i < actions.len() && (#[trigger] actions[i]) is Respond ==> ((exists|j: int|
                    0 <= j < i && (#[trigger] actions[j]) is RemoveDir) || (forall|j: int|
                    0 <= j < i ==> !((#[trigger] actions[j]) is CreateDir)))
        }),
{
    let actions = spec_run(s, events).1;
    if events.len() == 0 || !spec_expects(s.stage, events[0]) {
    } else {
        let n1 = spec_step(s, events[0]);
        let rest1 = spec_run(n1.0, events.drop_first()).1;
        assert(actions == seq![n1.1] + rest1);
        if n1.0.stage is Done {
            lemma_done_run(n1.0, events.drop_first());
            assert(actions =~= seq![n1.1]);
        } else {
            assert(n1.0.stage is RenamingWorkspace);
            assert(n1.1 is RenameDir);
            let e1 = events.drop_first();
            if e1.len() == 0 || !spec_expects(n1.0.stage, e1[0]) {
            } else {
                let n2 = spec_step(n1.0, e1[0]);
                let rest2 = spec_run(n2.0, e1.drop_first()).1;
                assert(rest1 == seq![n2.1] + rest2);
                if n2.0.stage is Done {
                    lemma_done_run(n2.0, e1.drop_first());
                    assert(actions =~= seq![n1.1, n2.1]);
                    assert forall|i: int|
                        0 <= i < actions.len() && (#[trigger] actions[i]) is Respond implies ((
                    exists|j: int| 0 <= j < i && (#[trigger] actions[j]) is RemoveDir) || (
                    forall|j: int| 0 <= j < i ==> !((#[trigger] actions[j]) is CreateDir))) by {
                        assert(forall|j: int|
                            0 <= j < i ==> !((#[trigger] actions[j]) is CreateDir));
                    }
                } else {
                    assert(n2.0.stage is CreatingSrcDir);
                    assert(!(n2.1 is Respond));
                    lemma_cleanup_precedes_response(n2.0, e1.drop_first());
                    assert forall|i: int|
                        0 <= i < actions.len() && (#[trigger] actions[i]) is Respond implies ((
                    exists|j: int| 0 <= j < i && (#[trigger] actions[j]) is RemoveDir) || (
                    forall|j: int| 0 <= j < i ==> !((#[trigger] actions[j]) is CreateDir))) by {
                        assert(actions[0] == n1.1);
                        assert(actions[1] == n2.1);
                        assert(i >= 2);
                        assert(actions[i] == rest2[i - 2]);
                        assert(exists|j: int| 0 <= j < i - 2 && (#[trigger] rest2[j]) is RemoveDir);
                        let j = choose|j: int|
                            0 <= j < i - 2 && (#[trigger] rest2[j]) is RemoveDir;
                        assert(actions[j + 2] == rest2[j]);
                        assert(0 <= j + 2 < i && actions[j + 2] is RemoveDir);
                    }
                }
            }
        }
    }
}

/// An external tool failure publishes nothing: after a nonzero tool exit,
/// no upload is ever issued, and whatever response the run emits has status
/// 500 with the tool's captured standard error contained in its body.
pub proof fn lemma_tool_failure_publishes_nothing(
    s: SpecState,
    stderr: Seq<char>,
    rest: Seq<SpecEvent>,
)
    requires
        s.stage is Bundling || s.stage is Styling,
    ensures
        ({
            let e = SpecEvent::ToolExited { ok: false, stderr };
            let actions = spec_run(s, seq![e] + rest).1;
            &&& forall|i: int| 0 <= i < actions.len() ==> !((#[trigger] actions[i]) is Upload)
            &&& forall|i: int|
                0 <= i < actions.len() ==> ((#[trigger] actions[i]) matches SpecAction::Respond {
                    response,
                } ==> response.status == 500 && contains_text(response.body, stderr))
        }),
{
    let e = SpecEvent::ToolExited { ok: false, stderr };
    let events = seq![e] + rest;
    assert(events[0] == e);
    let next = spec_step(s, e);
    let s1 = next.0;
    let msg = if s.stage is Bundling {
        "Bun build failed: "@ + stderr
    } else {
        "Tailwind build failed: "@ + stderr
    };
    let resp = spec_error_response(500, msg);
    assert(s1.stage == (SpecStage::CleaningUp { response: resp }));
    assert(next.1 is RemoveDir);
    lemma_cleanup_run(resp, s1, events.drop_first());
    if s.stage is Bundling {
        lemma_suffix_contained("Bun build failed: "@, stderr);
    } else {
        lemma_suffix_contained("Tailwind build failed: "@, stderr);
    }
    let actions = spec_run(s, events).1;
    let tail = spec_run(s1, events.drop_first()).1;
    assert(actions == seq![next.1] + tail);
    assert forall|i: int| 0 <= i < actions.len() implies !((#[trigger] actions[i]) is Upload) by {
        if i >= 1 {
            assert(actions[i] == tail[i - 1]);
        }
    }
    assert forall|i: int|
        0 <= i < actions.len() implies ((#[trigger] actions[i]) matches SpecAction::Respond {
        response,
    } ==> response.status == 500 && contains_text(response.body, stderr)) by {
        if i >= 1 {
            assert(actions[i] == tail[i - 1]);
        }
    }
}

/// The style tool is run only on the bundler's zero exit: no other state
/// and outcome can decide that action.
pub proof fn lemma_style_tool_needs_bundler(s: SpecState, e: SpecEvent)
    ensures
        spec_step(s, e).1 is RunStyleTool ==> (s.stage is Bundling && (e
            matches SpecEvent::ToolExited { ok, .. } && ok)),
{
}

/// The output listing is asked for only after the HTML shell was written,
/// and that stage is entered only on the style tool's zero exit.
pub proof fn lemma_listing_needs_style(s: SpecState, e: SpecEvent)
    requires
        spec_expects(s.stage, e),
    ensures
        spec_step(s, e).1 is ListDir ==> (s.stage is WritingHtml && e is Succeeded),
        spec_step(s, e).0.stage is WritingHtml ==> (s.stage is Styling && (e
            matches SpecEvent::ToolExited { ok, .. } && ok)),
{
}

/// From the styling stages on, any upload a run issues comes after the
/// output listing was asked for.
pub proof fn lemma_upload_after_listing(s: SpecState, events: Seq<SpecEvent>)
    requires
        s.stage is Styling || s.stage is WritingHtml,
    ensures
        ({
            let actions = spec_run(s, events).1;
            forall|i: int|
                0 <= i < actions.len() && (#[trigger] actions[i]) is Upload ==> exists|j: int|
                    0 <= j < i && (#[trigger] actions[j]) is ListDir
        }),
    decreases events.len(),
{
    let actions = spec_run(s, events).1;
    if events.len() == 0 || !spec_expects(s.stage, events[0]) {
    } else {
        let e = events[0];
        let next = spec_step(s, e);
        let s1 = next.0;
        let a = next.1;
        let rest = spec_run(s1, events.drop_first()).1;
        assert(actions == seq![a] + rest);
        if s1.stage is CleaningUp {
            let response = choose|r: SpecResponse| s1.stage == (SpecStage::CleaningUp {
                response: r,
            });
            assert(s1.stage == (SpecStage::CleaningUp { response }));
            lemma_cleanup_run(response, s1, events.drop_first());
            assert forall|i: int|
                0 <= i < actions.len() && (#[trigger] actions[i]) is Upload implies exists|j: int|
                0 <= j < i && (#[trigger] actions[j]) is ListDir by {
                if i >= 1 {
                    assert(actions[i] == rest[i - 1]);
                    assert(rest[i - 1] == (SpecAction::Respond { response }));
                }
                assert(actions[0] == a);
            }
        } else if s1.stage is WritingHtml {
            assert(!(a is Upload) && !(a is ListDir));
            lemma_upload_after_listing(s1, events.drop_first());
            assert forall|i: int|
                0 <= i < actions.len() && (#[trigger] actions[i]) is Upload implies exists|j: int|
                0 <= j < i && (#[trigger] actions[j]) is ListDir by {
                assert(actions[0] == a);
                assert(i >= 1);
                assert(actions[i] == rest[i - 1]);
                assert(exists|j: int| 0 <= j < i - 1 && (#[trigger] rest[j]) is ListDir);
                let j = choose|j: int| 0 <= j < i - 1 && (#[trigger] rest[j]) is ListDir;
                assert(actions[j + 1] == rest[j]);
                assert(0 <= j + 1 < i && actions[j + 1] is ListDir);
            }
        } else {
            assert(s1.stage is ListingDist);
            assert(a is ListDir);
            assert forall|i: int|
                0 <= i < actions.len() && (#[trigger] actions[i]) is Upload implies exists|j: int|
                0 <= j < i && (#[trigger] actions[j]) is ListDir by {
                assert(actions[0] == a);
                assert(i >= 1);
                assert(actions[0] is ListDir);
            }
        }
    }
}

/// The stages before the bundler has exited successfully: seeding the
/// workspace, injecting the sources, and awaiting the bundler itself.
pub open spec fn before_style_run(stage: SpecStage) -> bool {
    match stage {
        SpecStage::CopyingTemplates => true,
        SpecStage::RenamingWorkspace => true,
        SpecStage::CreatingSrcDir => true,
        SpecStage::CreatingDistDir => true,
        SpecStage::CopyingGlobals => true,
        SpecStage::WritingComponent => true,
        SpecStage::WritingEntry => true,
        SpecStage::Bundling => true,
        _ => false,
    }
}

/// Before the bundler has exited successfully, any upload a run issues
/// comes after the style-tool run and after the output listing.
pub proof fn lemma_upload_after_both_tools(s: SpecState, events: Seq<SpecEvent>)
    requires
        before_style_run(s.stage),
    ensures
        ({
            let actions = spec_run(s, events).1;
            forall|i: int|
                0 <= i < actions.len() && (#[trigger] actions[i]) is Upload ==> ((exists|j: int|
                    0 <= j < i && (#[trigger] actions[j]) is RunStyleTool) && (exists|j: int|
                    0 <= j < i && (#[trigger] actions[j]) is ListDir))
        }),
    decreases events.len(),
{
    let actions = spec_run(s, events).1;
    if events.len() == 0 || !spec_expects(s.stage, events[0]) {
    } else {
        let e = events[0];
        let next = spec_step(s, e);
        let s1 = next.0;
        let a = next.1;
        let rest = spec_run(s1, events.drop_first()).1;
        assert(actions == seq![a] + rest);
        if s1.stage is Done {
            lemma_done_run(s1, events.drop_first());
            assert(actions =~= seq![a]);
        } else if s1.stage is CleaningUp {
            let response = choose|r: SpecResponse| s1.stage == (SpecStage::CleaningUp {
                response: r,
            });
            assert(s1.stage == (SpecStage::CleaningUp { response }));
            lemma_cleanup_run(response, s1, events.drop_first());
            assert forall|i: int|
                0 <= i < actions.len() && (#[trigger] actions[i]) is Upload implies ((exists|j: int|
                0 <= j < i && (#[trigger] actions[j]) is RunStyleTool) && (exists|j: int|
                0 <= j < i && (#[trigger] actions[j]) is ListDir)) by {
                if i >= 1 {
                    assert(actions[i] == rest[i - 1]);
                    assert(rest[i - 1] == (SpecAction::Respond { response }));
                }
                assert(actions[0] == a);
            }
        } else if s1.stage is Styling {
            assert(a is RunStyleTool);
            lemma_upload_after_listing(s1, events.drop_first());
            assert forall|i: int|
                0 <= i < actions.len() && (#[trigger] actions[i]) is Upload implies ((exists|j: int|
                0 <= j < i && (#[trigger] actions[j]) is RunStyleTool) && (exists|j: int|
                0 <= j < i && (#[trigger] actions[j]) is ListDir)) by {
                assert(actions[0] == a);
                assert(i >= 1);
                assert(actions[i] == rest[i - 1]);
                assert(exists|j: int| 0 <= j < i - 1 && (#[trigger] rest[j]) is ListDir);
                let j = choose|j: int| 0 <= j < i - 1 && (#[trigger] rest[j]) is ListDir;
                assert(actions[j + 1] == rest[j]);
                assert(0 <= j + 1 < i && actions[j + 1] is ListDir);
                assert(actions[0] is RunStyleTool);
            }
        } else {
            assert(before_style_run(s1.stage));
            assert(!(a is Upload) && !(a is RunStyleTool) && !(a is ListDir));
            lemma_upload_after_both_tools(s1, events.drop_first());
            assert forall|i: int|
                0 <= i < actions.len() && (#[trigger] actions[i]) is Upload implies ((exists|j: int|
                0 <= j < i && (#[trigger] actions[j]) is RunStyleTool) && (exists|j: int|
                0 <= j < i && (#[trigger] actions[j]) is ListDir)) by {
                assert(actions[0] == a);
                assert(i >= 1);
                assert(actions[i] == rest[i - 1]);
                assert(exists|j: int| 0 <= j < i - 1 && (#[trigger] rest[j]) is RunStyleTool);
                let j1 = choose|j: int| 0 <= j < i - 1 && (#[trigger] rest[j]) is RunStyleTool;
                assert(actions[j1 + 1] == rest[j1]);
                assert(0 <= j1 + 1 < i && actions[j1 + 1] is RunStyleTool);
                assert(exists|j: int| 0 <= j < i - 1 && (#[trigger] rest[j]) is ListDir);
                let j2 = choose|j: int| 0 <= j < i - 1 && (#[trigger] rest[j]) is ListDir;
                assert(actions[j2 + 1] == rest[j2]);
                assert(0 <= j2 + 1 < i && actions[j2 + 1] is ListDir);
            }
        }
    }
}

/// No artifact is published before both build tools succeed: in any run
/// from the start, every upload comes after the style-tool run — which
/// `lemma_style_tool_needs_bundler` shows is decided only on the bundler's
/// zero exit — and after the output listing, which `lemma_listing_needs_style`
/// shows is asked for only past the style tool's zero exit.
pub proof fn lemma_no_publish_before_tools(
    cfg: SpecConfig,
    req: SpecRequest,
    events: Seq<SpecEvent>,
)
    ensures
        ({
            let actions = spec_run(spec_start(cfg, req).0, events).1;
            forall|i: int|
                0 <= i < actions.len() && (#[trigger] actions[i]) is Upload ==> ((exists|j: int|
                    0 <= j < i && (#[trigger] actions[j]) is RunStyleTool) && (exists|j: int|
                    0 <= j < i && (#[trigger] actions[j]) is ListDir))
        }),
{
    lemma_upload_after_both_tools(spec_start(cfg, req).0, events);
}

/// A sequence of `n` succeeded outcomes.
pub open spec fn all_succeeded(n: nat) -> Seq<SpecEvent> {
    Seq::new(n, |i: int| SpecEvent::Succeeded)
}

/// From the `k`-th upload on, a run of succeeded outcomes uploads the
/// remaining files in order, tears the workspace down, and answers with the
/// success response.
pub proof fn lemma_upload_run(s: SpecState, files: Seq<Seq<char>>, k: int)
    requires
        s.stage == (SpecStage::Uploading { files, next: k }),
        0 <= k < files.len(),
    ensures
        ({
            let run = spec_run(s, all_succeeded((files.len() - k + 1) as nat));
            &&& run.0.stage is Done
            &&& run.1 =~= Seq::new(
                (files.len() - 1 - k) as nat,
                |i: int| spec_upload_action(s.request.component_id, files, k + 1 + i),
            ) + seq![
                SpecAction::RemoveDir { path: spec_workspace_dir(s.request.component_id) },
                SpecAction::Respond {
                    response: spec_success_response(
                        s.request.component_id,
                        s.config.cloudfront_domain,
                    ),
                },
            ]
        }),
    decreases files.len() - k,
{
    let events = all_succeeded((files.len() - k + 1) as nat);
    assert(events[0] == SpecEvent::Succeeded);
    let next = spec_step(s, SpecEvent::Succeeded);
    let s1 = next.0;
    assert(events.drop_first() =~= all_succeeded((files.len() - k) as nat));
    if k + 1 < files.len() {
        assert(s1.stage == (SpecStage::Uploading { files, next: k + 1 }));
        assert(next.1 == spec_upload_action(s.request.component_id, files, k + 1));
        lemma_upload_run(s1, files, k + 1);
        let tail = spec_run(s1, all_succeeded((files.len() - k) as nat));
        assert(spec_run(s, events).1 =~~= seq![next.1] + tail.1);
    } else {
        let resp = spec_success_response(s.request.component_id, s.config.cloudfront_domain);
        assert(s1.stage == (SpecStage::CleaningUp { response: resp }));
        assert(next.1 == (SpecAction::RemoveDir {
            path: spec_workspace_dir(s.request.component_id),
        }));
        let ed = events.drop_first();
        assert(events.len() == 2);
        assert(ed.len() == 1);
        assert(ed[0] == SpecEvent::Succeeded);
        let n2 = spec_step(s1, ed[0]);
        assert(n2.0.stage is Done);
        assert(n2.1 == (SpecAction::Respond { response: resp }));
        lemma_done_run(n2.0, ed.drop_first());
        assert(spec_run(s1, ed).1 =~= seq![n2.1]);
        assert(spec_run(s, events).1 =~= seq![next.1, n2.1]);
    }
}

/// The outcomes of a build in which every external action succeeds: the
/// template copy, the seeding steps, both tools, the listing of the output
/// directory, every upload, and the teardown.
pub open spec fn success_events(
    files: Seq<Seq<char>>,
    cp_out: Seq<char>,
    bundle_out: Seq<char>,
    style_out: Seq<char>,
) -> Seq<SpecEvent> {
    seq![
        SpecEvent::ToolExited { ok: true, stderr: cp_out },
        SpecEvent::Succeeded,
        SpecEvent::Succeeded,
        SpecEvent::Succeeded,
        SpecEvent::Succeeded,
        SpecEvent::Succeeded,
        SpecEvent::Succeeded,
        SpecEvent::ToolExited { ok: true, stderr: bundle_out },
        SpecEvent::ToolExited { ok: true, stderr: style_out },
        SpecEvent::Succeeded,
        SpecEvent::DistListed(files),
    ] + all_succeeded((files.len() + 1) as nat)
}

/// The actions a fully successful build performs, in order: seed the
/// workspace, inject the sources, run both tools, compose the HTML shell,
/// list the outputs, upload each under the component's key prefix with the
/// media type of its name, tear the workspace down, and answer 200 with the
/// two public URLs.
pub open spec fn success_actions(
    cfg: SpecConfig,
    req: SpecRequest,
    files: Seq<Seq<char>>,
) -> Seq<SpecAction> {
    let id = req.component_id;
    let ws = spec_workspace_dir(id);
    let srcd = spec_src_dir(id);
    let distd = spec_dist_dir(id);
    seq![
        SpecAction::RenameDir { from: "/tmp/templates"@, to: ws },
        SpecAction::CreateDir { path: srcd },
        SpecAction::CreateDir { path: distd },
        SpecAction::CopyFile {
            from: spec_joined(ws, "globals.css"@),
            to: spec_joined(srcd, "globals.css"@),
        },
        SpecAction::WriteFile { path: spec_joined(srcd, "UserComponent.tsx"@), content: req.code },
        SpecAction::WriteFile { path: spec_joined(srcd, "index.tsx"@), content: spec_entry_point() },
        SpecAction::RunBundler { workdir: ws },
        SpecAction::RunStyleTool {
            workdir: ws,
            input: spec_joined(srcd, "globals.css"@),
            output: spec_joined(distd, "index.css"@),
        },
        SpecAction::WriteFile { path: spec_joined(distd, "index.html"@), content: spec_html_shell() },
        SpecAction::ListDir { path: distd },
    ] + Seq::new(files.len(), |k: int| spec_upload_action(id, files, k)) + seq![
        SpecAction::RemoveDir { path: ws },
        SpecAction::Respond { response: spec_success_response(id, cfg.cloudfront_domain) },
    ]
}

/// A fully successful run performs exactly the expected actions: one upload
/// per produced file, each keyed under the component identifier, and exactly
/// one response, 200 with the URLs embedding the component identifier —
/// nothing more and nothing less.
#[verifier::rlimit(100)]
pub proof fn lemma_success_run(
    cfg: SpecConfig,
    req: SpecRequest,
    files: Seq<Seq<char>>,
    cp_out: Seq<char>,
    bundle_out: Seq<char>,
    style_out: Seq<char>,
)
    requires
        files.len() > 0,
    ensures
        ({
            let run = spec_run(
                spec_start(cfg, req).0,
                success_events(files, cp_out, bundle_out, style_out),
            );
            &&& run.0.stage is Done
            &&& run.1 == success_actions(cfg, req, files)
        }),
{
    let events = success_events(files, cp_out, bundle_out, style_out);
    let s0 = spec_start(cfg, req).0;
    assert(events[0] == (SpecEvent::ToolExited { ok: true, stderr: cp_out }));
    let n1 = spec_step(s0, events[0]);
    let e1 = events.drop_first();
    assert(e1 =~= seq![
        SpecEvent::Succeeded,
        SpecEvent::Succeeded,
        SpecEvent::Succeeded,
        SpecEvent::Succeeded,
        SpecEvent::Succeeded,
        SpecEvent::Succeeded,
        SpecEvent::ToolExited { ok: true, stderr: bundle_out },
        SpecEvent::ToolExited { ok: true, stderr: style_out },
        SpecEvent::Succeeded,
        SpecEvent::DistListed(files),
    ] + all_succeeded((files.len() + 1) as nat));
    assert(spec_run(s0, events) == (spec_run(n1.0, e1).0, seq![n1.1] + spec_run(n1.0, e1).1));
    assert(e1[0] == (SpecEvent::Succeeded));
    let n2 = spec_step(n1.0, e1[0]);
    let e2 = e1.drop_first();
    assert(e2 =~= seq![
        SpecEvent::Succeeded,
        SpecEvent::Succeeded,
        SpecEvent::Succeeded,
        SpecEvent::Succeeded,
        SpecEvent::Succeeded,
        SpecEvent::ToolExited { ok: true, stderr: bundle_out },
        SpecEvent::ToolExited { ok: true, stderr: style_out },
        SpecEvent::Succeeded,
        SpecEvent::DistListed(files),
    ] + all_succeeded((files.len() + 1) as nat));
    assert(spec_run(n1.0, e1) == (spec_run(n2.0, e2).0, seq![n2.1] + spec_run(n2.0, e2).1));
    assert(e2[0] == (SpecEvent::Succeeded));
    let n3 = spec_step(n2.0, e2[0]);
    let e3 = e2.drop_first();
    assert(e3 =~= seq![
        SpecEvent::Succeeded,
        SpecEvent::Succeeded,
        SpecEvent::Succeeded,
        SpecEvent::Succeeded,
        SpecEvent::ToolExited { ok: true, stderr: bundle_out },
        SpecEvent::ToolExited { ok: true, stderr: style_out },
        SpecEvent::Succeeded,
        SpecEvent::DistListed(files),
    ] + all_succeeded((files.len() + 1) as nat));
    assert(spec_run(n2.0, e2) == (spec_run(n3.0, e3).0, seq![n3.1] + spec_run(n3.0, e3).1));
    assert(e3[0] == (SpecEvent::Succeeded));
    let n4 = spec_step(n3.0, e3[0]);
    let e4 = e3.drop_first();
    assert(e4 =~= seq![
        SpecEvent::Succeeded,
        SpecEvent::Succeeded,
        SpecEvent::Succeeded,
        SpecEvent::ToolExited { ok: true, stderr: bundle_out },
        SpecEvent::ToolExited { ok: true, stderr: style_out },
        SpecEvent::Succeeded,
        SpecEvent::DistListed(files),
    ] + all_succeeded((files.len() + 1) as nat));
    assert(spec_run(n3.0, e3) == (spec_run(n4.0, e4).0, seq![n4.1] + spec_run(n4.0, e4).1));
    assert(e4[0] == (SpecEvent::Succeeded));
    let n5 = spec_step(n4.0, e4[0]);
    let e5 = e4.drop_first();
    assert(e5 =~= seq![
        SpecEvent::Succeeded,
        SpecEvent::Succeeded,
        SpecEvent::ToolExited { ok: true, stderr: bundle_out },
        SpecEvent::ToolExited { ok: true, stderr: style_out },
        SpecEvent::Succeeded,
        SpecEvent::DistListed(files),
    ] + all_succeeded((files.len() + 1) as nat));
    assert(spec_run(n4.0, e4) == (spec_run(n5.0, e5).0, seq![n5.1] + spec_run(n5.0, e5).1));
    assert(e5[0] == (SpecEvent::Succeeded));
    let n6 = spec_step(n5.0, e5[0]);
    let e6 = e5.drop_first();
    assert(e6 =~= seq![
        SpecEvent::Succeeded,
        SpecEvent::ToolExited { ok: true, stderr: bundle_out },
        SpecEvent::ToolExited { ok: true, stderr: style_out },
        SpecEvent::Succeeded,
        SpecEvent::DistListed(files),
    ] + all_succeeded((files.len() + 1) as nat));
    assert(spec_run(n5.0, e5) == (spec_run(n6.0, e6).0, seq![n6.1] + spec_run(n6.0, e6).1));
    assert(e6[0] == (SpecEvent::Succeeded));
    let n7 = spec_step(n6.0, e6[0]);
    let e7 = e6.drop_first();
    assert(e7 =~= seq![
        SpecEvent::ToolExited { ok: true, stderr: bundle_out },
        SpecEvent::ToolExited { ok: true, stderr: style_out },
        SpecEvent::Succeeded,
        SpecEvent::DistListed(files),
    ] + all_succeeded((files.len() + 1) as nat));
    assert(spec_run(n6.0, e6) == (spec_run(n7.0, e7).0, seq![n7.1] + spec_run(n7.0, e7).1));
    assert(e7[0] == (SpecEvent::ToolExited { ok: true, stderr: bundle_out }));
    let n8 = spec_step(n7.0, e7[0]);
    let e8 = e7.drop_first();
    assert(e8 =~= seq![
        SpecEvent::ToolExited { ok: true, stderr: style_out },
        SpecEvent::Succeeded,
        SpecEvent::DistListed(files),
    ] + all_succeeded((files.len() + 1) as nat));
    assert(spec_run(n7.0, e7) == (spec_run(n8.0, e8).0, seq![n8.1] + spec_run(n8.0, e8).1));
    assert(e8[0] == (SpecEvent::ToolExited { ok: true, stderr: style_out }));
    let n9 = spec_step(n8.0, e8[0]);
    let e9 = e8.drop_first();
    assert(e9 =~= seq![
        SpecEvent::Succeeded,
        SpecEvent::DistListed(files),
    ] + all_succeeded((files.len() + 1) as nat));
    assert(spec_run(n8.0, e8) == (spec_run(n9.0, e9).0, seq![n9.1] + spec_run(n9.0, e9).1));
    assert(e9[0] == (SpecEvent::Succeeded));
    let n10 = spec_step(n9.0, e9[0]);
    let e10 = e9.drop_first();
    assert(e10 =~= seq![
        SpecEvent::DistListed(files),
    ] + all_succeeded((files.len() + 1) as nat));
    assert(spec_run(n9.0, e9) == (spec_run(n10.0, e10).0, seq![n10.1] + spec_run(n10.0, e10).1));
    assert(e10[0] == (SpecEvent::DistListed(files)));
    let n11 = spec_step(n10.0, e10[0]);
    let e11 = e10.drop_first();
    assert(e11 =~= all_succeeded((files.len() + 1) as nat));
    assert(spec_run(n10.0, e10) == (spec_run(n11.0, e11).0, seq![n11.1] + spec_run(n11.0, e11).1));
    assert(n11.0.stage == (SpecStage::Uploading { files, next: 0 }));
    assert(n11.0.request == req && n11.0.config == cfg);
    lemma_upload_run(n11.0, files, 0);
    assert(spec_run(n11.0, e11) == spec_run(n11.0, all_succeeded((files.len() - 0 + 1) as nat)));
    let run = spec_run(s0, events);
    assert(run.0.stage is Done);
    assert(run.1 =~~= success_actions(cfg, req, files));
}

} // verus!
