use rx3wm::errors::Error;

#[test]
fn report_of_a_plain_error_is_one_line() {
    let e = Error::Msg("unable to initialize wlc".to_string());
    assert_eq!(e.report(), vec!["error: unable to initialize wlc".to_string()]);
    assert_eq!(e.message(), "unable to initialize wlc");
}

#[test]
fn report_lists_the_causes() {
    let e = Error::Xcb("connection refused".to_string())
        .chain_err("unable to initialize Window System".to_string());
    assert_eq!(
        e,
        Error::Chained(
            "unable to initialize Window System".to_string(),
            Box::new(Error::Xcb("connection refused".to_string()))
        )
    );
    assert_eq!(e.message(), "unable to initialize Window System");
    assert_eq!(
        e.report(),
        vec![
            "error: unable to initialize Window System".to_string(),
            "caused by: connection refused".to_string()
        ]
    );
}

#[test]
fn chain_err_puts_the_context_first() {
    let inner = Error::Io("broken pipe".to_string()).chain_err("writing".to_string());
    let e = inner.chain_err("saving".to_string());
    assert_eq!(
        e.chain(),
        vec!["saving".to_string(), "writing".to_string(), "broken pipe".to_string()]
    );
    assert_eq!(e.report()[2], "caused by: broken pipe");
}

#[test]
fn message_of_each_kind() {
    assert_eq!(Error::Fern("logger set".to_string()).message(), "logger set");
    assert_eq!(Error::Io("eof".to_string()).chain(), vec!["eof".to_string()]);
}
