//! The errors of a form.
use vstd::prelude::*;

verus! {

/// What went wrong inside the form.
#[derive(Clone, Copy, Debug, Eq, Hash, Ord, PartialEq, PartialOrd, Structural)]
pub enum FltkFormErrorKind {
    /// No widget of the form carries the property's name.
    PropertyInexistent,
    /// A widget carries the property's name but holds no value that can be changed.
    FailedToChangeData,
}

/// The kinds of error that the widget toolkit reports.
#[derive(Clone, Copy, Debug, Eq, PartialEq, Structural)]
pub enum FltkErrorKind {
    FailedToRun,
    FailedToLock,
    FailedToSetScheme,
    FailedOperation,
    ResourceNotFound,
    ImageFormatError,
    TableError,
    PrintError,
    InvalidColor,
    FailedGridSetWidget,
}

/// An error of a form.
#[derive(Debug)]
#[non_exhaustive]
pub enum FltkFormError {
    /// An error of the widget toolkit.
    FltkError(FltkErrorKind),
    /// An error of the form itself.
    Internal(FltkFormErrorKind),
    /// Any other error, described in words.
    Unknown(String),
}

/// The name of a form error kind, as `{:?}` writes it.
pub open spec fn form_kind_name(k: FltkFormErrorKind) -> Seq<char> {
    match k {
        FltkFormErrorKind::PropertyInexistent => "PropertyInexistent"@,
        FltkFormErrorKind::FailedToChangeData => "FailedToChangeData"@,
    }
}

/// The name of a toolkit error kind, as `{:?}` writes it.
pub open spec fn toolkit_kind_name(k: FltkErrorKind) -> Seq<char> {
    match k {
        FltkErrorKind::FailedToRun => "FailedToRun"@,
        FltkErrorKind::FailedToLock => "FailedToLock"@,
        FltkErrorKind::FailedToSetScheme => "FailedToSetScheme"@,
        FltkErrorKind::FailedOperation => "FailedOperation"@,
        FltkErrorKind::ResourceNotFound => "ResourceNotFound"@,
        FltkErrorKind::ImageFormatError => "ImageFormatError"@,
        FltkErrorKind::TableError => "TableError"@,
        FltkErrorKind::PrintError => "PrintError"@,
        FltkErrorKind::InvalidColor => "InvalidColor"@,
        FltkErrorKind::FailedGridSetWidget => "FailedGridSetWidget"@,
    }
}

/// The text that `{:?}` writes for a string: the string quoted, with its
/// special characters escaped.
pub uninterp spec fn debug_text(s: Seq<char>) -> Seq<char>;

/// Formats a string with `{:?}` (std's `Debug` for `str`); its result is named
/// `debug_text` and nothing more is claimed of it.
#[verifier::external_body]
fn debug_string(s: &String) -> (r: String)
    ensures
        r@ == debug_text(s@),
{
    format!("{:?}", s)
}

/// The message of an error.
pub open spec fn message(e: FltkFormError) -> Seq<char> {
    match e {
        FltkFormError::Internal(k) => "An internal error occured "@ + form_kind_name(k),
        FltkFormError::Unknown(s) => "An unknown error occurred "@ + debug_text(s@),
        FltkFormError::FltkError(k) => "an fltk error occured "@ + toolkit_kind_name(k),
    }
}

impl FltkFormErrorKind {
    /// The name of the kind.
    pub fn name(&self) -> (s: &'static str)
        ensures
            s@ == form_kind_name(*self),
    {
        match self {
            FltkFormErrorKind::PropertyInexistent => "PropertyInexistent",
            FltkFormErrorKind::FailedToChangeData => "FailedToChangeData",
        }
    }
}

impl FltkErrorKind {
    /// The name of the kind.
    pub fn name(&self) -> (s: &'static str)
        ensures
            s@ == toolkit_kind_name(*self),
    {
        match self {
            FltkErrorKind::FailedToRun => "FailedToRun",
            FltkErrorKind::FailedToLock => "FailedToLock",
            FltkErrorKind::FailedToSetScheme => "FailedToSetScheme",
            FltkErrorKind::FailedOperation => "FailedOperation",
            FltkErrorKind::ResourceNotFound => "ResourceNotFound",
            FltkErrorKind::ImageFormatError => "ImageFormatError",
            FltkErrorKind::TableError => "TableError",
            FltkErrorKind::PrintError => "PrintError",
            FltkErrorKind::InvalidColor => "InvalidColor",
            FltkErrorKind::FailedGridSetWidget => "FailedGridSetWidget",
        }
    }
}

impl FltkFormError {
    /// The message of the error, as `{}` writes it.
    pub fn to_string(&self) -> (s: String)
        ensures
            s@ == message(*self),
    {
        match self {
            FltkFormError::Internal(k) => {
                let mut s = "An internal error occured ".to_owned();
                s.append(k.name());
                s
            },
            FltkFormError::Unknown(text) => {
                let mut s = "An unknown error occurred ".to_owned();
                let d = debug_string(text);
                s.append(d.as_str());
                s
            },
            FltkFormError::FltkError(k) => {
                let mut s = "an fltk error occured ".to_owned();
                s.append(k.name());
                s
            },
        }
    }
}

/// The messages of the errors: a fixed opening for each kind of error,
/// followed by the name of the kind or the quoted text.
pub proof fn law_error_messages(k: FltkFormErrorKind, t: FltkErrorKind, s: String)
    ensures
        message(FltkFormError::Internal(FltkFormErrorKind::PropertyInexistent))
            == "An internal error occured "@ + "PropertyInexistent"@,
        message(FltkFormError::Internal(FltkFormErrorKind::FailedToChangeData))
            == "An internal error occured "@ + "FailedToChangeData"@,
        message(FltkFormError::FltkError(FltkErrorKind::InvalidColor))
            == "an fltk error occured "@ + "InvalidColor"@,
        message(FltkFormError::Internal(k)).subrange(0, 26) == "An internal error occured "@,
        message(FltkFormError::FltkError(t)).subrange(0, 22) == "an fltk error occured "@,
        message(FltkFormError::Unknown(s)) == "An unknown error occurred "@ + debug_text(s@),
{
    reveal_strlit("An internal error occured ");
    reveal_strlit("an fltk error occured ");
    assert(("An internal error occured "@ + form_kind_name(k)).subrange(0, 26) =~= "An internal error occured "@);
    assert(("an fltk error occured "@ + toolkit_kind_name(t)).subrange(0, 22) =~= "an fltk error occured "@);
}

} // verus!
