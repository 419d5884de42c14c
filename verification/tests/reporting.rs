use refgate::errors::exit_code_for;
use refgate::errors::ErrorChain;

#[test]
fn chain_renders_one_top_line_plus_one_line_per_cause() {
    let chain = ErrorChain::new(String::from("top failed"))
        .caused_by(String::from("middle failed"))
        .caused_by(String::from("root failed"));
    assert_eq!(chain.cause_count(), 2);
    let lines = chain.render_lines();
    assert_eq!(
        lines,
        vec![
            String::from("error: top failed"),
            String::from("caused by: middle failed"),
            String::from("caused by: root failed"),
        ]
    );
}

#[test]
fn chain_without_causes_renders_exactly_one_line() {
    let chain = ErrorChain::new(String::from("boom"));
    assert_eq!(chain.cause_count(), 0);
    assert_eq!(chain.render_lines(), vec![String::from("error: boom")]);
}

#[test]
fn backtrace_line_comes_last_when_present() {
    let chain = ErrorChain::new(String::from("boom"))
        .caused_by(String::from("deep"))
        .with_backtrace(String::from("frame 0: start"));
    let lines = chain.render_lines();
    assert_eq!(lines.len(), 3);
    assert_eq!(lines[0], "error: boom");
    assert_eq!(lines[1], "caused by: deep");
    assert_eq!(lines[2], "backtrace: frame 0: start");
}

#[test]
fn failure_exits_nonzero_and_is_not_silent() {
    let chain = ErrorChain::new(String::from("boom"));
    let lines = chain.render_lines();
    assert!(!lines.is_empty());
    assert!(!lines[0].is_empty());
    assert_eq!(exit_code_for(&Err(chain)), 1);
}

#[test]
fn success_exits_zero() {
    assert_eq!(exit_code_for(&Ok(())), 0);
}
