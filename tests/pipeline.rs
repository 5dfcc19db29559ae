use playground::diagnostic::{Message, Severity, Span};
use playground::pipeline::{respond, Driver, Op, Primary, Response, Stage, Step};
use playground::render::Mode;

fn msg(severity: Severity, span: Option<(usize, usize)>, text: &str) -> Message {
    Message::new(
        severity,
        span.map(|(start, end)| Span { start, end }),
        text.to_string(),
    )
}

fn text(r: &Response) -> Option<&str> {
    match &r.primary {
        Some(Primary::Text(t)) => Some(t.as_str()),
        _ => None,
    }
}

fn done(s: Step) -> Response {
    match s {
        Step::Done(r) => r,
        other => panic!("expected an answer, got {:?}", other),
    }
}

#[test]
fn empty_program_answers_false() {
    let r = respond(Op::Interpret, Mode::Plain, Ok(()), Ok(Vec::new()), None);
    assert!(matches!(r.primary, Some(Primary::False)));
    assert!(r.diagnostics.is_none());
}

#[test]
fn unterminated_string_withholds_ast() {
    let errors = vec![msg(Severity::Error, Some((0, 1)), "unclosed string literal\n")];
    let r = respond(Op::Ast, Mode::Plain, Err(errors), Ok(Vec::new()), Some("tree".to_string()));
    assert!(r.primary.is_none());
    assert_eq!(r.diagnostics.as_deref(), Some("[0..1] unclosed string literal\n"));
}

#[test]
fn clean_program_answers_its_value() {
    let r = respond(Op::Interpret, Mode::Plain, Ok(()), Ok(Vec::new()), Some("42".to_string()));
    assert_eq!(text(&r), Some("42"));
    assert!(r.diagnostics.is_none());
}

#[test]
fn one_warning_still_runs() {
    let findings = vec![msg(Severity::Warning, Some((0, 4)), "constant condition\n")];
    let r = respond(Op::Interpret, Mode::Plain, Ok(()), Ok(findings), Some("true".to_string()));
    assert_eq!(text(&r), Some("true"));
    let d = r.diagnostics.unwrap();
    assert!(d.ends_with("1 message (0 info, 1 warning, 0 errors)\n"));
    assert_eq!(d, "[0..4] constant condition\n1 message (0 info, 1 warning, 0 errors)\n");
}

#[test]
fn one_error_withholds_disassembly() {
    let findings = vec![msg(Severity::Error, Some((2, 3)), "undefined name")];
    let r = respond(Op::Dis, Mode::Plain, Ok(()), Ok(findings), Some("0 PUSH 1".to_string()));
    assert!(r.primary.is_none());
    assert!(r.diagnostics.unwrap().ends_with(" 1 error)\n"));
}

#[test]
fn every_syntax_error_is_reported() {
    let errors = vec![
        msg(Severity::Error, Some((0, 1)), "unexpected '+'\n"),
        msg(Severity::Error, Some((5, 7)), "unclosed '('\n"),
    ];
    for op in [Op::Ast, Op::Dis, Op::Interpret] {
        let errs = vec![
            Message::new(errors[0].severity, errors[0].span, errors[0].description.clone()),
            Message::new(errors[1].severity, errors[1].span, errors[1].description.clone()),
        ];
        let r = respond(op, Mode::Plain, Err(errs), Ok(Vec::new()), Some("x".to_string()));
        assert!(r.primary.is_none());
        assert_eq!(
            r.diagnostics.as_deref(),
            Some("[0..1] unexpected '+'\n[5..7] unclosed '('\n")
        );
    }
}

#[test]
fn clean_source_answers_each_stage() {
    let r = respond(Op::Ast, Mode::Plain, Ok(()), Ok(Vec::new()), Some("Integer(1)".to_string()));
    assert_eq!(text(&r), Some("Integer(1)"));
    assert!(r.diagnostics.is_none());
    let r = respond(Op::Dis, Mode::Plain, Ok(()), Ok(Vec::new()), Some("0 LOAD_INT 1".to_string()));
    assert_eq!(text(&r), Some("0 LOAD_INT 1"));
    assert!(r.diagnostics.is_none());
}

#[test]
fn warnings_report_matches_tally() {
    let findings = vec![
        msg(Severity::Info, None, "a\n"),
        msg(Severity::Warning, None, "b\n"),
        msg(Severity::Info, None, "c\n"),
    ];
    let r = respond(Op::Interpret, Mode::Plain, Ok(()), Ok(findings), Some("1".to_string()));
    assert_eq!(text(&r), Some("1"));
    assert_eq!(
        r.diagnostics.as_deref(),
        Some("a\nb\nc\n3 messages (2 info, 1 warning, 0 errors)\n")
    );
}

#[test]
fn warnings_with_empty_stack_answer_false() {
    let findings = vec![msg(Severity::Warning, None, "b\n")];
    let r = respond(Op::Interpret, Mode::Plain, Ok(()), Ok(findings), None);
    assert!(matches!(r.primary, Some(Primary::False)));
    assert_eq!(r.diagnostics.as_deref(), Some("b\n1 message (0 info, 1 warning, 0 errors)\n"));
}

#[test]
fn driver_answers_false_beside_a_report() {
    let mut d = Driver::new(Op::Interpret, Mode::Plain);
    d.on_parse(Ok(()));
    assert!(matches!(d.on_analysis(Ok(vec![msg(Severity::Info, None, "i\n")])), Step::Execute));
    let r = done(d.on_execution(None));
    assert!(matches!(r.primary, Some(Primary::False)));
    assert_eq!(r.diagnostics.as_deref(), Some("i\n1 message (1 info, 0 warnings, 0 errors)\n"));
}

#[test]
fn tree_not_given_answers_report_alone() {
    let findings = vec![msg(Severity::Warning, None, "w\n")];
    let r = respond(Op::Ast, Mode::Plain, Ok(()), Ok(findings), None);
    assert!(r.primary.is_none());
    assert_eq!(r.diagnostics.as_deref(), Some("w\n1 message (0 info, 1 warning, 0 errors)\n"));
    let r = respond(Op::Dis, Mode::Plain, Ok(()), Ok(Vec::new()), None);
    assert!(r.primary.is_none());
    assert!(r.diagnostics.is_none());
}

#[test]
fn errors_withhold_every_primary() {
    for op in [Op::Ast, Op::Dis, Op::Interpret] {
        let findings = vec![msg(Severity::Warning, None, "w\n"), msg(Severity::Error, None, "e\n")];
        let r = respond(op, Mode::Plain, Ok(()), Ok(findings), Some("x".to_string()));
        assert!(r.primary.is_none());
        assert_eq!(
            r.diagnostics.as_deref(),
            Some("w\ne\n2 messages (0 info, 1 warning, 1 error)\n")
        );
    }
}

#[test]
fn analyzer_failure_is_reported() {
    let r = respond(Op::Interpret, Mode::Plain, Ok(()), Err("analyzer failed".to_string()), None);
    assert!(r.primary.is_none());
    assert_eq!(r.diagnostics.as_deref(), Some("analyzer failed"));
}

#[test]
fn same_input_same_answer_for_ast() {
    let run = || {
        respond(
            Op::Ast,
            Mode::Html,
            Ok(()),
            Ok(vec![msg(Severity::Info, None, "\x1b[1mnote\x1b[0m\n")]),
            Some("Integer(1)".to_string()),
        )
    };
    let a = run();
    let _ = respond(Op::Dis, Mode::Plain, Ok(()), Ok(Vec::new()), Some("other".to_string()));
    let b = run();
    assert_eq!(text(&a), text(&b));
    assert_eq!(a.diagnostics, b.diagnostics);
}

#[test]
fn same_input_same_answer() {
    let run = || {
        respond(
            Op::Interpret,
            Mode::Ansi,
            Ok(()),
            Ok(vec![msg(Severity::Warning, Some((1, 2)), "w")]),
            Some("3".to_string()),
        )
    };
    let a = run();
    let b = run();
    assert_eq!(text(&a), text(&b));
    assert_eq!(a.diagnostics, b.diagnostics);
}

#[test]
fn html_report_is_escaped() {
    let findings = vec![msg(Severity::Info, Some((0, 1)), "x < y\n")];
    let r = respond(Op::Dis, Mode::Html, Ok(()), Ok(findings), Some("dis".to_string()));
    assert_eq!(text(&r), Some("dis"));
    assert_eq!(
        r.diagnostics.as_deref(),
        Some("[0..1] x &lt; y\n1 message (1 info, 0 warnings, 0 errors)\n")
    );
}

#[test]
fn driver_steps_through_interpret() {
    let mut d = Driver::new(Op::Interpret, Mode::Plain);
    assert!(matches!(d.start(), Step::Parse));
    assert!(matches!(d.on_parse(Ok(())), Step::Analyze));
    assert_eq!(d.stage, Stage::Parsed);
    assert!(matches!(d.on_analysis(Ok(Vec::new())), Step::Execute));
    assert_eq!(d.stage, Stage::Analyzed);
    let r = done(d.on_execution(Some("7".to_string())));
    assert_eq!(d.stage, Stage::Executed);
    assert_eq!(text(&r), Some("7"));
    assert!(r.diagnostics.is_none());
}

#[test]
fn driver_steps_through_ast_and_dis() {
    let mut d = Driver::new(Op::Ast, Mode::Plain);
    d.on_parse(Ok(()));
    let findings = vec![msg(Severity::Info, None, "i\n")];
    assert!(matches!(d.on_analysis(Ok(findings)), Step::ShowAst));
    let r = done(d.on_ast("Bool(true)".to_string()));
    assert_eq!(d.stage, Stage::Shown);
    assert_eq!(text(&r), Some("Bool(true)"));
    assert_eq!(r.diagnostics.as_deref(), Some("i\n1 message (1 info, 0 warnings, 0 errors)\n"));

    let mut d = Driver::new(Op::Dis, Mode::Plain);
    d.on_parse(Ok(()));
    assert!(matches!(d.on_analysis(Ok(Vec::new())), Step::Disassemble));
    let r = done(d.on_disassembly("HALT".to_string()));
    assert_eq!(d.stage, Stage::Resolved);
    assert_eq!(text(&r), Some("HALT"));
}

#[test]
fn driver_aborts_on_syntax_error() {
    let mut d = Driver::new(Op::Dis, Mode::Plain);
    let r = done(d.on_parse(Err(vec![msg(Severity::Error, Some((4, 5)), "unexpected end\n")])));
    assert_eq!(d.stage, Stage::Aborted);
    assert!(r.primary.is_none());
    assert_eq!(r.diagnostics.as_deref(), Some("[4..5] unexpected end\n"));
}
