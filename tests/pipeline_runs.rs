use pdf_generator::naming::{ArtifactNamer, ArtifactPaths, FileType};
use pdf_generator::pipeline::{
    begin, engine_event, Action, Event, FailureKind, Outcome, Pipeline, RejectReason, Step, STATUS_BAD_REQUEST,
    STATUS_CREATED,
};
use pdf_generator::request::{Conversion, PdfRequest};
use pdf_generator::shape::{contains_text, ShapeTable};

fn export_table() -> ShapeTable {
    let mut t = ShapeTable::new();
    t.add(String::from("export"), String::from("#content"));
    t
}

fn next(s: Step) -> (Pipeline, Action) {
    match s {
        Step::Next(p, a) => (p, a),
        Step::Finish(_) => panic!("conversion ended early"),
    }
}

fn finish(s: Step) -> Outcome {
    match s {
        Step::Finish(o) => o,
        Step::Next(..) => panic!("conversion did not end"),
    }
}

#[test]
fn paths_are_named_from_tag_and_number() {
    let p = ArtifactPaths::new(1700000000, 42);
    assert_eq!(p.html_file_name, "./1700000000-42.html");
    assert_eq!(p.pdf_file_name, "./1700000000-42.pdf");
    assert_eq!(p.path_of(FileType::Html), "./1700000000-42.html");
    assert_eq!(p.path_of(FileType::Pdf), "./1700000000-42.pdf");
    let z = ArtifactPaths::new(0, u64::MAX);
    assert_eq!(z.html_file_name, "./0-18446744073709551615.html");
}

#[test]
fn allocations_never_repeat_a_path() {
    let mut namer = ArtifactNamer::new(7);
    let mut seen = std::collections::HashSet::new();
    for _ in 0..500 {
        let p = namer.allocate().unwrap();
        assert!(seen.insert(p.html_file_name.clone()));
        assert!(seen.insert(p.pdf_file_name.clone()));
    }
    assert_eq!(seen.len(), 1000);
}

#[test]
fn allocations_from_parallel_requests_are_distinct() {
    let rt = tokio::runtime::Builder::new_multi_thread().worker_threads(4).build().unwrap();
    let namer = std::sync::Arc::new(std::sync::Mutex::new(ArtifactNamer::new(99)));
    let all = rt.block_on(async move {
        let mut handles = Vec::new();
        for _ in 0..8 {
            let n = namer.clone();
            handles.push(tokio::spawn(async move {
                let mut out = Vec::new();
                for _ in 0..50 {
                    let p = n.lock().unwrap().allocate().unwrap();
                    out.push(p.html_file_name);
                    out.push(p.pdf_file_name);
                    tokio::task::yield_now().await;
                }
                out
            }));
        }
        let mut all = std::collections::HashSet::new();
        for h in handles {
            for path in h.await.unwrap() {
                assert!(all.insert(path));
            }
        }
        all
    });
    assert_eq!(all.len(), 800);
}

#[test]
fn text_search_finds_runs() {
    assert!(contains_text("http://example.test/export?x=1", "export"));
    assert!(contains_text("abc", ""));
    assert!(contains_text("abc", "abc"));
    assert!(!contains_text("ab", "abc"));
    assert!(!contains_text("http://example.test/page", "export"));
    assert!(contains_text("aaab", "aab"));
    assert!(contains_text("ünïcödé", "cöd"));
}

#[test]
fn first_fitting_shape_wins() {
    let mut t = ShapeTable::new();
    t.add(String::from("export_page"), String::from("#page"));
    t.add(String::from("export"), String::from("#content"));
    assert_eq!(t.len(), 2);
    assert_eq!(t.classify("http://x/export_page/1"), Some(0));
    assert_eq!(t.classify("http://x/export?x=1"), Some(1));
    assert_eq!(t.classify("http://x/comp"), None);
    assert_eq!(t.get(1).selector, "#content");
    assert_eq!(ShapeTable::new().classify("http://x/export"), None);
}

#[test]
fn markup_takes_precedence_over_url() {
    let both = PdfRequest { html: Some(String::from("<b>x</b>")), url: Some(String::from("u")) };
    assert!(matches!(both.classify(), Conversion::Markup(ref h) if h == "<b>x</b>"));
    let url = PdfRequest { html: None, url: Some(String::from("u")) };
    assert!(matches!(url.classify(), Conversion::Source(ref u) if u == "u"));
    let none = PdfRequest { html: None, url: None };
    assert!(matches!(none.classify(), Conversion::Invalid));
}

#[test]
fn markup_request_compiles_and_cleans_up() {
    let req = PdfRequest { html: Some(String::from("<p>TEST</p>")), url: None };
    let paths = ArtifactPaths::new(5, 1);
    let (p, a) = next(begin(req.classify(), paths, &export_table()));
    assert!(matches!(a, Action::WriteMarkup(ref f, ref t) if f == "./5-1.html" && t == "<p>TEST</p>"));
    let (p, a) = next(p.step(Event::Done));
    assert!(matches!(a, Action::Compile(ref i, ref o) if i == "./5-1.html" && o == "./5-1.pdf"));
    let (p, a) = next(p.step(Event::Done));
    assert!(matches!(a, Action::ReadOutput(ref o) if o == "./5-1.pdf"));
    let (p, a) = next(p.step(Event::Document(b"%PDF-1.4 TEST".to_vec())));
    assert!(matches!(a, Action::Cleanup(ref i, ref o) if i == "./5-1.html" && o == "./5-1.pdf"));
    let o = finish(p.step(Event::Done));
    assert_eq!(o.status(), STATUS_CREATED);
    assert_eq!(o.status(), 201);
    assert_eq!(o.message(), "");
    assert!(matches!(o, Outcome::Compiled(ref b) if b == b"%PDF-1.4 TEST"));
}

#[test]
fn request_without_input_is_rejected() {
    let req = PdfRequest { html: None, url: None };
    let o = finish(begin(req.classify(), ArtifactPaths::new(5, 2), &export_table()));
    assert!(matches!(o, Outcome::Rejected(RejectReason::MissingInput)));
    assert_eq!(o.status(), STATUS_BAD_REQUEST);
    assert_eq!(o.message(), "No url or html body found");
}

#[test]
fn unknown_url_is_rejected_without_a_session() {
    let req = PdfRequest { html: None, url: Some(String::from("http://example.test/comp?x=1")) };
    let o = finish(begin(req.classify(), ArtifactPaths::new(5, 3), &export_table()));
    assert!(matches!(o, Outcome::Rejected(RejectReason::UnsupportedUrl)));
    assert_eq!(o.status(), 400);
    assert_eq!(o.message(), "unsupported url: it matches no known page shape");
}

#[test]
fn wait_timeout_closes_session_and_reports_bad_request() {
    let req = PdfRequest { html: None, url: Some(String::from("http://example.test/export?x=1")) };
    let (p, a) = next(begin(req.classify(), ArtifactPaths::new(6, 0), &export_table()));
    assert!(matches!(a, Action::OpenSession));
    let (p, a) = next(p.step(Event::Done));
    assert!(matches!(a, Action::Navigate(ref u) if u == "http://example.test/export?x=1"));
    let (p, a) = next(p.step(Event::Done));
    assert!(matches!(a, Action::AwaitElement(ref s) if s == "#content"));
    let (p, a) = next(p.step(Event::Failed(String::from("timed out"))));
    assert!(matches!(a, Action::CloseSession));
    let (p, a) = next(p.step(Event::Done));
    assert!(matches!(a, Action::Cleanup(ref i, ref o) if i == "./6-0.html" && o == "./6-0.pdf"));
    let o = finish(p.step(Event::Done));
    assert!(matches!(o, Outcome::Failed(FailureKind::WaitTimeout, _)));
    assert_eq!(o.status(), STATUS_BAD_REQUEST);
    assert_eq!(
        o.message(),
        "wait condition not met: the page did not render the expected content: timed out"
    );
}

#[test]
fn rendered_page_is_compiled_after_session_closes() {
    let req = PdfRequest { html: None, url: Some(String::from("http://example.test/export")) };
    let (p, _) = next(begin(req.classify(), ArtifactPaths::new(6, 1), &export_table()));
    let (p, _) = next(p.step(Event::Done));
    let (p, _) = next(p.step(Event::Done));
    let (p, a) = next(p.step(Event::Done));
    assert!(matches!(a, Action::CaptureMarkup));
    let (p, a) = next(p.step(Event::Markup(String::from("<div id=\"content\">R</div>"))));
    assert!(matches!(a, Action::CloseSession));
    let (p, a) = next(p.step(Event::Failed(String::from("close failed"))));
    assert!(
        matches!(a, Action::WriteMarkup(ref f, ref t) if f == "./6-1.html" && t == "<div id=\"content\">R</div>")
    );
    let (p, _) = next(p.step(Event::Done));
    let (p, _) = next(p.step(Event::Done));
    let (p, a) = next(p.step(Event::Document(vec![1, 2, 3])));
    assert!(matches!(a, Action::Cleanup(..)));
    let o = finish(p.step(Event::Done));
    assert!(matches!(o, Outcome::Compiled(ref b) if b == &vec![1u8, 2, 3]));
}

#[test]
fn engine_failure_removes_markup_and_reports_diagnostic() {
    let req = PdfRequest { html: Some(String::from("<p>x</p>")), url: None };
    let (p, _) = next(begin(req.classify(), ArtifactPaths::new(8, 8), &export_table()));
    let (p, _) = next(p.step(Event::Done));
    let (p, a) = next(p.step(Event::Failed(String::from("exit status 1"))));
    assert!(matches!(a, Action::Cleanup(ref i, ref o) if i == "./8-8.html" && o == "./8-8.pdf"));
    let o = finish(p.step(Event::Failed(String::from("remove failed"))));
    assert!(matches!(o, Outcome::Failed(FailureKind::Compile, Some(ref d)) if d == "exit status 1"));
    assert_eq!(o.message(), "rendering engine failed: exit status 1");
    assert_eq!(o.status(), 400);
}

#[test]
fn each_failure_has_its_message() {
    let cases = [
        (FailureKind::Io, "file operation failed"),
        (FailureKind::SessionUnavailable, "browser automation session could not be opened"),
        (FailureKind::Navigation, "page navigation failed"),
        (FailureKind::Capture, "rendered markup could not be captured"),
        (FailureKind::Compile, "rendering engine failed"),
    ];
    for (k, text) in cases {
        assert_eq!(Outcome::Failed(k, None).message(), text);
    }
}

#[test]
fn session_refused_skips_close() {
    let req = PdfRequest { html: None, url: Some(String::from("http://h/export")) };
    let (p, _) = next(begin(req.classify(), ArtifactPaths::new(1, 1), &export_table()));
    let (p, a) = next(p.step(Event::Failed(String::from("connection refused"))));
    assert!(matches!(a, Action::Cleanup(..)));
    let o = finish(p.step(Event::Done));
    assert!(matches!(o, Outcome::Failed(FailureKind::SessionUnavailable, Some(_))));
}

#[test]
fn navigation_and_capture_failures_close_session() {
    let req = PdfRequest { html: None, url: Some(String::from("http://h/export")) };
    let (p, _) = next(begin(req.classify(), ArtifactPaths::new(1, 2), &export_table()));
    let (p, _) = next(p.step(Event::Done));
    let (p, a) = next(p.step(Event::Failed(String::from("dns"))));
    assert!(matches!(a, Action::CloseSession));
    let (p, _) = next(p.step(Event::Done));
    let o = finish(p.step(Event::Done));
    assert!(matches!(o, Outcome::Failed(FailureKind::Navigation, _)));

    let req = PdfRequest { html: None, url: Some(String::from("http://h/export")) };
    let (p, _) = next(begin(req.classify(), ArtifactPaths::new(1, 3), &export_table()));
    let (p, _) = next(p.step(Event::Done));
    let (p, _) = next(p.step(Event::Done));
    let (p, _) = next(p.step(Event::Done));
    let (p, a) = next(p.step(Event::Done));
    assert!(matches!(a, Action::CloseSession));
    let (p, _) = next(p.step(Event::Done));
    let o = finish(p.step(Event::Done));
    assert!(matches!(o, Outcome::Failed(FailureKind::Capture, None)));
}

#[test]
fn unreadable_output_is_an_io_failure() {
    let req = PdfRequest { html: Some(String::from("<p>x</p>")), url: None };
    let (p, _) = next(begin(req.classify(), ArtifactPaths::new(2, 2), &export_table()));
    let (p, a) = next(p.step(Event::Failed(String::from("disk full"))));
    assert!(matches!(a, Action::Cleanup(..)));
    let o = finish(p.step(Event::Done));
    assert_eq!(o.message(), "file operation failed: disk full");
}

#[test]
fn engine_exit_decides_the_event() {
    assert!(matches!(engine_event(true, String::from("warning")), Event::Done));
    assert!(matches!(engine_event(false, String::from("exit status: 1")), Event::Failed(ref d) if d == "exit status: 1"));
}
