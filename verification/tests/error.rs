use fltk_form::error::{FltkErrorKind, FltkFormError, FltkFormErrorKind};

#[test]
fn internal_errors_name_their_kind() {
    let e = FltkFormError::Internal(FltkFormErrorKind::PropertyInexistent);
    assert_eq!(e.to_string(), "An internal error occured PropertyInexistent");
    let e = FltkFormError::Internal(FltkFormErrorKind::FailedToChangeData);
    assert_eq!(e.to_string(), "An internal error occured FailedToChangeData");
}

#[test]
fn toolkit_errors_name_their_kind() {
    let e = FltkFormError::FltkError(FltkErrorKind::InvalidColor);
    assert_eq!(e.to_string(), "an fltk error occured InvalidColor");
    assert_eq!(FltkErrorKind::ResourceNotFound.name(), "ResourceNotFound");
    assert_eq!(FltkErrorKind::FailedGridSetWidget.name(), "FailedGridSetWidget");
}

#[test]
fn unknown_errors_quote_their_text() {
    let e = FltkFormError::Unknown("oops".to_string());
    assert_eq!(e.to_string(), "An unknown error occurred \"oops\"");
    let e = FltkFormError::Unknown("a\"b\n".to_string());
    assert_eq!(e.to_string(), "An unknown error occurred \"a\\\"b\\n\"");
}

#[test]
fn form_error_kinds_compare() {
    assert_eq!(FltkFormErrorKind::PropertyInexistent, FltkFormErrorKind::PropertyInexistent);
    assert!(FltkFormErrorKind::PropertyInexistent < FltkFormErrorKind::FailedToChangeData);
    assert_eq!(FltkFormErrorKind::FailedToChangeData.name(), "FailedToChangeData");
}
