use tradesatoshi::error::{Error, ErrorType, TransportFailure};

fn failure() -> TransportFailure {
    TransportFailure {
        is_http: false,
        url: None,
        is_serialization: false,
        cause: None,
        is_redirect: false,
    }
}

#[test]
fn a_failed_request_names_the_address() {
    let error = Error::from(TransportFailure {
        is_http: true,
        url: Some("https://tradesatoshi.com/api/public/getticker".to_string()),
        ..failure()
    });
    assert_eq!(error.error_type, ErrorType::TransportError);
    assert_eq!(
        error.message,
        "Problem making request to: https://tradesatoshi.com/api/public/getticker"
    );
}

#[test]
fn a_failed_request_without_an_address_says_so() {
    let error = Error::from(TransportFailure { is_http: true, ..failure() });
    assert_eq!(error.error_type, ErrorType::TransportError);
    assert_eq!(error.message, "No Url given");
}

#[test]
fn an_unreadable_answer_names_the_cause() {
    let error = Error::from(TransportFailure {
        is_serialization: true,
        cause: Some("unexpected end of file".to_string()),
        ..failure()
    });
    assert_eq!(error.error_type, ErrorType::TransportError);
    assert_eq!(error.message, "Problem parsing information unexpected end of file");
}

#[test]
fn an_unreadable_answer_without_a_cause_says_so() {
    let error = Error::from(TransportFailure { is_serialization: true, ..failure() });
    assert_eq!(error.message, "Problem parsing information (no info given)");
}

#[test]
fn a_redirect_loop_is_reported_before_anything_else() {
    let error = Error::from(TransportFailure {
        is_http: true,
        url: Some("https://tradesatoshi.com".to_string()),
        is_serialization: true,
        cause: Some("cause".to_string()),
        is_redirect: true,
    });
    assert_eq!(error.error_type, ErrorType::TransportError);
    assert_eq!(
        error.message,
        "Server redirecting too many times or making loop at https://tradesatoshi.com"
    );
}

#[test]
fn a_redirect_loop_without_an_address_stands_alone() {
    let error = Error::from(TransportFailure { is_redirect: true, ..failure() });
    assert_eq!(error.message, "Server redirecting too many times or making loop");
}

#[test]
fn a_failed_request_names_the_address_and_the_cause() {
    let error = Error::from(TransportFailure {
        is_http: true,
        url: Some("https://tradesatoshi.com/api/public/getticker".to_string()),
        cause: Some("connection refused".to_string()),
        ..failure()
    });
    assert_eq!(error.error_type, ErrorType::TransportError);
    assert_eq!(
        error.message,
        "Problem making request to: https://tradesatoshi.com/api/public/getticker: \
         connection refused"
    );
}

#[test]
fn an_unreadable_answer_names_the_cause_and_the_address() {
    let error = Error::from(TransportFailure {
        is_serialization: true,
        url: Some("https://tradesatoshi.com".to_string()),
        cause: Some("unexpected end of file".to_string()),
        ..failure()
    });
    assert_eq!(
        error.message,
        "Problem parsing information unexpected end of file at https://tradesatoshi.com"
    );
}

#[test]
fn a_failure_of_no_known_kind_still_names_what_is_known() {
    let error = Error::from(TransportFailure {
        url: Some("https://tradesatoshi.com".to_string()),
        cause: Some("timed out".to_string()),
        ..failure()
    });
    assert_eq!(error.message, "Error undefined! at https://tradesatoshi.com: timed out");
}

#[test]
fn an_unreadable_answer_is_reported_before_a_failed_request() {
    let error = Error::from(TransportFailure {
        is_http: true,
        url: Some("https://tradesatoshi.com".to_string()),
        is_serialization: true,
        cause: None,
        is_redirect: false,
    });
    assert_eq!(
        error.message,
        "Problem parsing information (no info given) at https://tradesatoshi.com"
    );
}

#[test]
fn a_failure_of_no_known_kind_is_undefined() {
    let error = Error::from(failure());
    assert_eq!(error.error_type, ErrorType::TransportError);
    assert_eq!(error.message, "Error undefined!");
}

#[test]
fn an_error_reads_as_its_description_and_its_detail() {
    let error = Error::new(ErrorType::APIError, "Insufficient funds");
    assert_eq!(error.description(), "Error while calling TradeSatoshi API");
    assert_eq!(error.to_text(), "Error while calling TradeSatoshi API: Insufficient funds");
}

#[test]
fn every_kind_of_error_has_its_description() {
    assert_eq!(
        Error::new(ErrorType::ConfigurationError, "").description(),
        "Error in the client configuration"
    );
    assert_eq!(
        Error::new(ErrorType::TransportError, "").description(),
        "Error while reaching TradeSatoshi API"
    );
    assert_eq!(
        Error::new(ErrorType::MalformedResponseError, "").description(),
        "Error while converting response to Json Value"
    );
    assert_eq!(
        Error::new(ErrorType::APIError, "").to_text(),
        "Error while calling TradeSatoshi API: "
    );
}
