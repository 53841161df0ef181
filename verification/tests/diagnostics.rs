use diagnostics::AnnotationKind;
use diagnostics::Diagnostic;
use diagnostics::Emission;
use diagnostics::Level;
use diagnostics::Slice;
use diagnostics::line_at;
use diagnostics::text::split_lines;

const ATTRIBUTION: &str = "This diagnostic was generated by bindgen.";
const HIDE_PREFIX: &str = "cargo:warning=\r        \r";

#[test]
fn severity_mapping_total_and_stable() {
    assert_eq!(Level::Error.annotation_kind(), AnnotationKind::Error);
    assert_eq!(Level::Warn.annotation_kind(), AnnotationKind::Warning);
    assert_eq!(Level::Info.annotation_kind(), AnnotationKind::Info);
    assert_eq!(Level::Note.annotation_kind(), AnnotationKind::Note);
    assert_eq!(Level::Help.annotation_kind(), AnnotationKind::Help);
    assert_eq!(Level::Help.annotation_kind(), Level::Help.annotation_kind());
}

#[test]
fn line_at_zero_is_none() {
    let lines = vec!["alpha".to_string(), "beta".to_string()];
    assert_eq!(line_at(&lines, 0), None);
}

#[test]
fn line_at_past_end_is_none() {
    let lines = vec!["alpha".to_string(), "beta".to_string()];
    assert_eq!(line_at(&lines, 3), None);
    assert_eq!(line_at(&lines, usize::MAX), None);
    let empty: Vec<String> = Vec::new();
    assert_eq!(line_at(&empty, 1), None);
}

#[test]
fn line_at_in_range_is_the_line() {
    let lines = vec!["alpha".to_string(), "beta".to_string()];
    assert_eq!(line_at(&lines, 1), Some("alpha".to_string()));
    assert_eq!(line_at(&lines, 2), Some("beta".to_string()));
}

#[test]
fn with_location_appends_line_and_column() {
    let s = Slice::new().with_location("file.rs".to_string(), 51, 5);
    assert_eq!(s.filename, Some("file.rs:51:5".to_string()));
    assert_eq!(s.line, Some(51));
    assert_eq!(s.source, None);
}

#[test]
fn with_location_zero_column() {
    let s = Slice::new().with_location("f".to_string(), 10, 0);
    assert_eq!(s.filename, Some("f:10:0".to_string()));
}

#[test]
fn with_source_overwrites() {
    let s = Slice::new().with_source("one".to_string()).with_source("two".to_string());
    assert_eq!(s.source, Some("two".to_string()));
}

#[test]
fn title_only_render_has_title_and_attribution() {
    let d = Diagnostic::new().with_title("mismatched types".to_string(), Level::Error);
    let out = d.render();
    assert!(out.contains("mismatched types"));
    assert!(out.contains("error[bindgen]"));
    assert!(out.contains(ATTRIBUTION));
}

#[test]
fn empty_diagnostic_renders_attribution() {
    let out = Diagnostic::new().render();
    assert!(out.contains(ATTRIBUTION));
}

#[test]
fn title_overwrites() {
    let d = Diagnostic::new()
        .with_title("first title".to_string(), Level::Warn)
        .with_title("second title".to_string(), Level::Warn);
    let out = d.render();
    assert!(out.contains("second title"));
    assert!(!out.contains("first title"));
}

#[test]
fn sourceless_slice_is_excluded() {
    let d = Diagnostic::new()
        .with_title("one slice went missing".to_string(), Level::Warn)
        .add_slice(Slice::new().with_location("ghost.h".to_string(), 7, 7));
    let out = d.render();
    assert!(!out.contains("ghost.h"));
}

#[test]
fn slices_render_in_insertion_order() {
    let d = Diagnostic::new()
        .with_title("three slices".to_string(), Level::Warn)
        .add_slice(
            Slice::new()
                .with_source("first excerpt".to_string())
                .with_location("aaa.h".to_string(), 1, 1),
        )
        .add_slice(
            Slice::new()
                .with_source("second excerpt".to_string())
                .with_location("bbb.h".to_string(), 2, 2),
        )
        .add_slice(
            Slice::new()
                .with_source("third excerpt".to_string())
                .with_location("ccc.h".to_string(), 3, 3),
        );
    let out = d.render();
    let a = out.find("aaa.h:1:1").unwrap();
    let b = out.find("bbb.h:2:2").unwrap();
    let c = out.find("ccc.h:3:3").unwrap();
    assert!(a < b && b < c);
    let fa = out.find("first excerpt").unwrap();
    let fb = out.find("second excerpt").unwrap();
    let fc = out.find("third excerpt").unwrap();
    assert!(fa < fb && fb < fc);
}

#[test]
fn footer_remarks_render_in_order() {
    let d = Diagnostic::new()
        .with_title("with footers".to_string(), Level::Info)
        .add_annotation("first remark".to_string(), Level::Note)
        .add_annotation("second remark".to_string(), Level::Help);
    let out = d.render();
    let a = out.find("first remark").unwrap();
    let b = out.find("second remark").unwrap();
    let c = out.find(ATTRIBUTION).unwrap();
    assert!(a < b && b < c);
}

#[test]
fn build_script_mode_one_directive_per_line() {
    let d = Diagnostic::new()
        .with_title("build script warning".to_string(), Level::Warn)
        .add_slice(
            Slice::new()
                .with_source("a line\nanother line".to_string())
                .with_location("src/x.h".to_string(), 4, 2),
        )
        .add_annotation("a remark".to_string(), Level::Note);
    let rendered = d.render();
    let k = rendered.lines().count();
    assert!(k > 1);
    match d.display(true) {
        Emission::BuildScript(lines) => {
            assert_eq!(lines.len(), k);
            for (directive, line) in lines.iter().zip(rendered.lines()) {
                assert!(directive.starts_with(HIDE_PREFIX));
                assert_eq!(directive, &format!("{}{}", HIDE_PREFIX, line));
            }
        }
        Emission::Interactive(_) => panic!("expected build-script emission"),
    }
}

#[test]
fn interactive_mode_single_write_without_prefix() {
    let d = Diagnostic::new()
        .with_title("interactive warning".to_string(), Level::Warn)
        .add_annotation("a remark".to_string(), Level::Note);
    let rendered = d.render();
    match d.display(false) {
        Emission::Interactive(text) => {
            assert_eq!(text, format!("{}\n\n", rendered));
            assert!(text.ends_with("\n\n"));
            assert!(!text.contains("cargo:warning="));
            assert!(!text.contains("\r        \r"));
        }
        Emission::BuildScript(_) => panic!("expected interactive emission"),
    }
}

#[test]
fn rendering_twice_is_identical() {
    let d = Diagnostic::new()
        .with_title("rendered twice".to_string(), Level::Error)
        .add_slice(
            Slice::new()
                .with_source("let x = 1;".to_string())
                .with_location("twice.rs".to_string(), 3, 9),
        )
        .add_annotation("a remark".to_string(), Level::Info);
    assert_eq!(d.render(), d.render());
    let first = match d.display(false) {
        Emission::Interactive(text) => text,
        Emission::BuildScript(_) => panic!("expected interactive emission"),
    };
    let second = match d.display(false) {
        Emission::Interactive(text) => text,
        Emission::BuildScript(_) => panic!("expected interactive emission"),
    };
    assert_eq!(first, second);
}

#[test]
fn empty_message_is_legal() {
    let d = Diagnostic::new()
        .with_title(String::new(), Level::Warn)
        .add_annotation(String::new(), Level::Note);
    let out = d.render();
    assert!(out.contains(ATTRIBUTION));
}

#[test]
fn slice_line_defaults_to_one() {
    let d = Diagnostic::new()
        .with_title("line numbers".to_string(), Level::Note)
        .add_slice(Slice::new().with_source("only line".to_string()));
    let out = d.render();
    assert!(out.contains("1"));
    assert!(out.contains("only line"));
}

#[test]
fn defaults_are_empty() {
    let s = Slice::default();
    assert_eq!(s.source, None);
    assert_eq!(s.filename, None);
    assert_eq!(s.line, None);
    let d = Diagnostic::default();
    assert!(d.title.is_none());
    assert!(d.slices.is_empty());
    assert!(d.footer.is_empty());
}

#[test]
fn snippet_input_filters_and_defaults() {
    let d = Diagnostic::new()
        .with_title("shaped".to_string(), Level::Help)
        .add_slice(Slice::new().with_location("dropped.h".to_string(), 9, 9))
        .add_slice(Slice::new().with_source("kept text".to_string()))
        .add_annotation("remark".to_string(), Level::Note);
    let input = d.build_snippet_input();
    let title = input.title.unwrap();
    assert_eq!(title.id, "bindgen".to_string());
    assert_eq!(title.label, "shaped".to_string());
    assert_eq!(title.kind, AnnotationKind::Help);
    assert_eq!(input.footer.len(), 2);
    assert_eq!(input.footer[0].label, "remark".to_string());
    assert_eq!(input.footer[0].kind, AnnotationKind::Note);
    assert_eq!(input.footer[1].label, "This diagnostic was generated by bindgen.".to_string());
    assert_eq!(input.footer[1].kind, AnnotationKind::Info);
    assert_eq!(input.slices.len(), 1);
    assert_eq!(input.slices[0].source, "kept text".to_string());
    assert_eq!(input.slices[0].line_start, 1);
    assert_eq!(input.slices[0].origin, None);
}

#[test]
fn source_without_location_has_no_origin_line() {
    let d = Diagnostic::new()
        .with_title("no origin".to_string(), Level::Info)
        .add_slice(Slice::new().with_source("bare text".to_string()));
    let out = d.render();
    assert!(out.contains("bare text"));
    assert!(!out.contains("-->"));
}

#[test]
fn split_lines_drops_carriage_return_before_newline() {
    assert_eq!(split_lines("alpha\r\nbeta"), vec!["alpha".to_string(), "beta".to_string()]);
    assert_eq!(split_lines("tail\r"), vec!["tail\r".to_string()]);
    assert_eq!(split_lines("end\n"), vec!["end".to_string()]);
    assert!(split_lines("").is_empty());
    assert_eq!(split_lines("\r\n"), vec!["".to_string()]);
}

#[test]
fn huge_starting_line_still_renders() {
    let d = Diagnostic::new()
        .with_title("far away".to_string(), Level::Warn)
        .add_slice(
            Slice::new()
                .with_source("one\ntwo".to_string())
                .with_location("far.h".to_string(), usize::MAX, 1),
        );
    let out = d.render();
    assert!(out.contains("one"));
    assert!(out.contains(ATTRIBUTION));
    match d.display(true) {
        Emission::BuildScript(lines) => assert_eq!(lines.len(), out.lines().count()),
        Emission::Interactive(_) => panic!("expected build-script emission"),
    }
}
