//! Whole runs of the pipeline, and what holds of every one of them.
use vstd::prelude::*;
use crate::naming::ArtifactPaths;
use crate::pipeline::{
    Action,
    Event,
    FailureKind,
    Outcome,
    Pipeline,
    RejectReason,
    Stage,
    Step,
    advance,
    begin_spec,
    clean_then,
};
use crate::request::{PdfRequest, conversion_of};
use crate::shape::{UrlShape, first_match};

verus! {

/// The actions issued from step `s` on, while the driver reports `events`
/// one after another.
pub open spec fn run(s: Step, events: Seq<Event>) -> Seq<Action>
    decreases events.len(),
{
    match s {
        Step::Finish(_) => Seq::empty(),
        Step::Next(p, a) => if events.len() == 0 {
            seq![a]
        } else {
            seq![a] + run(advance(p, events[0]), events.drop_first())
        },
    }
}

/// How the run from `s` ends under `events`, if it ends within them.
pub open spec fn outcome_of(s: Step, events: Seq<Event>) -> Option<Outcome>
    decreases events.len(),
{
    match s {
        Step::Finish(o) => Some(o),
        Step::Next(p, a) => if events.len() == 0 {
            None
        } else {
            outcome_of(advance(p, events[0]), events.drop_first())
        },
    }
}

/// The stages in which a browser-automation session is open.
pub open spec fn holds_session(st: Stage) -> bool {
    match st {
        Stage::Navigating(_) | Stage::Waiting | Stage::Capturing => true,
        _ => false,
    }
}

/// A state awaiting the end of cleanup was entered by asking for it.
pub open spec fn cleanup_requested(s: Step) -> bool {
    match s {
        Step::Next(p, a) => p.stage is Cleaning ==> a == Action::Cleanup(
            p.paths.html_file_name,
            p.paths.pdf_file_name,
        ),
        Step::Finish(_) => true,
    }
}

proof fn lemma_advance_keeps_paths(p: Pipeline, e: Event)
    ensures
        cleanup_requested(advance(p, e)),
        advance(p, e) matches Step::Next(q, _) ==> q.paths == p.paths,
        advance(p, e) is Finish ==> p.stage is Cleaning,
{
}

proof fn lemma_run_ends_in_cleanup(s: Step, events: Seq<Event>)
    requires
        s is Next,
        cleanup_requested(s),
        outcome_of(s, events) is Some,
    ensures
        run(s, events).len() > 0,
        run(s, events).last() == Action::Cleanup(
            s->Next_0.paths.html_file_name,
            s->Next_0.paths.pdf_file_name,
        ),
    decreases events.len(),
{
    let p = s->Next_0;
    let a = s->Next_1;
    let n = advance(p, events[0]);
    let rest = events.drop_first();
    lemma_advance_keeps_paths(p, events[0]);
    if n is Next {
        lemma_run_ends_in_cleanup(n, rest);
        assert(run(s, events) == seq![a] + run(n, rest));
    } else {
        assert(run(n, rest) == Seq::<Action>::empty());
        assert(run(s, events) =~= seq![a]);
    }
}

/// Every conversion that starts work ends by asking for the removal of its
/// own two scratch files: whatever the driver reports, the last action of a
/// run that reaches an outcome is the cleanup of both paths.
pub proof fn lemma_finished_runs_clean_up(
    req: PdfRequest,
    paths: ArtifactPaths,
    shapes: Seq<UrlShape>,
    events: Seq<Event>,
)
    requires
        begin_spec(conversion_of(req), paths, shapes) is Next,
        outcome_of(begin_spec(conversion_of(req), paths, shapes), events) is Some,
    ensures
        run(begin_spec(conversion_of(req), paths, shapes), events).last() == Action::Cleanup(
            paths.html_file_name,
            paths.pdf_file_name,
        ),
{
    lemma_run_ends_in_cleanup(begin_spec(conversion_of(req), paths, shapes), events);
}

/// A session is held only after the driver reported it open.
pub proof fn lemma_session_held_only_after_opening(p: Pipeline, e: Event)
    requires
        !holds_session(p.stage),
        advance(p, e) matches Step::Next(q, _) && holds_session(q.stage),
    ensures
        p.stage is Opening,
        !(e is Failed),
{
}

/// An open session is never leaked: from a state that holds one, every run
/// that reaches an outcome has asked to close it.
pub proof fn lemma_sessions_closed(p: Pipeline, a: Action, events: Seq<Event>)
    requires
        holds_session(p.stage),
        outcome_of(Step::Next(p, a), events) is Some,
    ensures
        run(Step::Next(p, a), events).contains(Action::CloseSession),
    decreases events.len(),
{
    let n = advance(p, events[0]);
    let rest = events.drop_first();
    match n {
        Step::Next(q, b) => {
            assert(run(Step::Next(p, a), events) == seq![a] + run(n, rest));
            if holds_session(q.stage) {
                lemma_sessions_closed(q, b, rest);
                let k = choose|k: int|
                    0 <= k < run(n, rest).len() && run(n, rest)[k] == Action::CloseSession;
                assert(run(Step::Next(p, a), events)[k + 1] == Action::CloseSession);
            } else {
                assert(b == Action::CloseSession);
                assert(run(n, rest)[0] == b);
                assert(run(Step::Next(p, a), events)[1] == Action::CloseSession);
            }
        },
        Step::Finish(_) => {},
    }
}

/// A request with neither markup nor URL is rejected before any action.
pub proof fn lemma_missing_input_rejected(
    req: PdfRequest,
    paths: ArtifactPaths,
    shapes: Seq<UrlShape>,
    events: Seq<Event>,
)
    requires
        req.html is None,
        req.url is None,
    ensures
        begin_spec(conversion_of(req), paths, shapes) == Step::Finish(
            Outcome::Rejected(RejectReason::MissingInput),
        ),
        run(begin_spec(conversion_of(req), paths, shapes), events) == Seq::<Action>::empty(),
{
}

/// A URL that fits no known shape is rejected before any action, so no
/// session is opened for it.
pub proof fn lemma_unknown_url_rejected(
    req: PdfRequest,
    paths: ArtifactPaths,
    shapes: Seq<UrlShape>,
    events: Seq<Event>,
)
    requires
        req.html is None,
        req.url matches Some(u) && first_match(shapes, u@) is None,
    ensures
        begin_spec(conversion_of(req), paths, shapes) == Step::Finish(
            Outcome::Rejected(RejectReason::UnsupportedUrl),
        ),
        run(begin_spec(conversion_of(req), paths, shapes), events) == Seq::<Action>::empty(),
{
}

/// A request with markup is compiled from exactly that markup, and the
/// document reported is exactly what was read back from the engine's output
/// file, after both scratch files were asked to be removed.
pub proof fn lemma_markup_request_run(
    req: PdfRequest,
    paths: ArtifactPaths,
    shapes: Seq<UrlShape>,
    doc: Vec<u8>,
    last: Event,
)
    requires
        req.html is Some,
    ensures
        ({
            let s = begin_spec(conversion_of(req), paths, shapes);
            let events = seq![Event::Done, Event::Done, Event::Document(doc), last];
            &&& run(s, events) == seq![
                Action::WriteMarkup(paths.html_file_name, req.html->Some_0),
                Action::Compile(paths.html_file_name, paths.pdf_file_name),
                Action::ReadOutput(paths.pdf_file_name),
                Action::Cleanup(paths.html_file_name, paths.pdf_file_name),
            ]
            &&& outcome_of(s, events) == Some(Outcome::Compiled(doc))
        }),
{
    let s = begin_spec(conversion_of(req), paths, shapes);
    let e = seq![Event::Done, Event::Done, Event::Document(doc), last];
    let e1 = e.drop_first();
    let e2 = e1.drop_first();
    let e3 = e2.drop_first();
    let e4 = e3.drop_first();
    assert(e1 =~= seq![Event::Done, Event::Document(doc), last]);
    assert(e2 =~= seq![Event::Document(doc), last]);
    assert(e3 =~= seq![last]);
    assert(e4 =~= Seq::<Event>::empty());
    let p1 = s->Next_0;
    let s2 = advance(p1, Event::Done);
    let s3 = advance(s2->Next_0, Event::Done);
    let s4 = advance(s3->Next_0, Event::Document(doc));
    let s5 = advance(s4->Next_0, last);
    assert(run(s5, e4) == Seq::<Action>::empty());
    assert(run(s4, e3) =~= seq![s4->Next_1]);
    assert(run(s3, e2) =~= seq![s3->Next_1, s4->Next_1]);
    assert(run(s2, e1) =~= seq![s2->Next_1, s3->Next_1, s4->Next_1]);
    assert(run(s, e) =~= seq![s->Next_1, s2->Next_1, s3->Next_1, s4->Next_1]);
    assert(s5 == Step::Finish(Outcome::Compiled(doc)));
    assert(outcome_of(s5, e4) == Some(Outcome::Compiled(doc)));
    assert(outcome_of(s4, e3) == outcome_of(s5, e4));
    assert(outcome_of(s3, e2) == outcome_of(s4, e3));
    assert(outcome_of(s2, e1) == outcome_of(s3, e2));
    assert(outcome_of(s, e) == outcome_of(s2, e1));
    assert(outcome_of(s, e) == Some(Outcome::Compiled(doc)));
    assert(s->Next_1 == Action::WriteMarkup(paths.html_file_name, req.html->Some_0));
    assert(s2->Next_1 == Action::Compile(paths.html_file_name, paths.pdf_file_name));
    assert(s3->Next_1 == Action::ReadOutput(paths.pdf_file_name));
    assert(s4->Next_1 == Action::Cleanup(paths.html_file_name, paths.pdf_file_name));
}

/// When the rendering engine fails, the conversion asks for removal of both
/// scratch files, markup included, and then reports a compile failure that
/// carries the engine's diagnostic.
pub proof fn lemma_compile_failure_cleans_up(p: Pipeline, diag: String, e: Event)
    requires
        p.stage is Compiling,
    ensures
        advance(p, Event::Failed(diag)) == clean_then(
            p.paths,
            Outcome::Failed(FailureKind::Compile, Some(diag)),
        ),
        advance(advance(p, Event::Failed(diag))->Next_0, e) == Step::Finish(
            Outcome::Failed(FailureKind::Compile, Some(diag)),
        ),
{
}

} // verus!
