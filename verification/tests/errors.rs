use rephraser::RephraserError;

#[test]
fn messages_of_every_kind() {
    let s = |text: &str| text.to_string();
    assert_eq!(RephraserError::Config(s("bad")).message(), "Configuration error: bad");
    assert_eq!(
        RephraserError::ActionNotFound(s("nonexistent")).message(),
        "Action 'nonexistent' not found"
    );
    assert_eq!(RephraserError::Api(s("empty")).message(), "LLM API error: empty");
    assert_eq!(RephraserError::Auth(s("denied")).message(), "denied");
    assert_eq!(RephraserError::RateLimit(s("slow")).message(), "slow");
    assert_eq!(RephraserError::BadRequest(s("shape")).message(), "shape");
    assert_eq!(RephraserError::ServiceError(s("down")).message(), "down");
    assert_eq!(RephraserError::Network(s("refused")).message(), "Network error: refused");
    assert_eq!(RephraserError::Io(s("disk")).message(), "IO error: disk");
    assert_eq!(
        RephraserError::Serialization(s("eof")).message(),
        "Serialization error: eof"
    );
    assert_eq!(RephraserError::Toml(s("key")).message(), "TOML error: key");
    assert_eq!(
        RephraserError::InvalidTemplate(s("Missing variables: text")).message(),
        "Invalid template: Missing variables: text"
    );
    assert_eq!(RephraserError::Output(s("no display")).message(), "no display");
    assert_eq!(RephraserError::Other(s("else")).message(), "else");
    assert_eq!(RephraserError::Other(s("")).message(), "");
}

#[test]
fn input_too_long_shows_both_numbers() {
    assert_eq!(
        RephraserError::InputTooLong { max: 1000, actual: 1234 }.message(),
        "Input too long (max 1000 characters, got 1234)"
    );
    assert_eq!(
        RephraserError::InputTooLong { max: 0, actual: 9 }.message(),
        "Input too long (max 0 characters, got 9)"
    );
    assert_eq!(
        RephraserError::InputTooLong { max: 10, actual: usize::MAX }.message(),
        format!("Input too long (max 10 characters, got {})", usize::MAX)
    );
}
