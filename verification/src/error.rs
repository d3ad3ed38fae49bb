//! What can go wrong, and the text that reports it.

use vstd::prelude::*;
use vstd::string::*;
use crate::formats::{pixel_format_name, PixFmt};

verus! {

/// The feature protocols that know their names one by one.
#[derive(Clone, Copy, Debug, PartialEq, Eq, Structural)]
pub enum FeatureKind {
    Float,
    Enum,
}

/// The kinds of value that are read from text.
#[derive(Clone, Copy, Debug, PartialEq, Eq, Structural)]
pub enum ValueKind {
    FrameFormat,
    AutoMode,
}

/// A failure of a camera operation. Each carries the name or value that
/// caused it.
#[derive(Clone, Debug, PartialEq, Eq)]
pub enum Error {
    /// The device reported a failure; `msg` is its own report.
    BackendError { msg: String },
    /// No feature of this kind has this name.
    UnsupportedFeature { kind: FeatureKind, name: String },
    /// No command has this name.
    UnsupportedCommand { name: String },
    /// The device cannot produce this canonical format.
    UnsupportedPixelFormat { format: PixFmt },
    /// No attached device answers to this name.
    NotFound { name: String },
    /// A value given as text is none of the values of its kind.
    ParseError { what: ValueKind, text: String },
}

/// An [`Error`] with its texts as sequences of characters.
pub enum ErrorView {
    BackendError { msg: Seq<char> },
    UnsupportedFeature { kind: FeatureKind, name: Seq<char> },
    UnsupportedCommand { name: Seq<char> },
    UnsupportedPixelFormat { format: PixFmt },
    NotFound { name: Seq<char> },
    ParseError { what: ValueKind, text: Seq<char> },
}

impl View for Error {
    type V = ErrorView;

    open spec fn view(&self) -> ErrorView {
        match self {
            Error::BackendError { msg } => ErrorView::BackendError { msg: msg@ },
            Error::UnsupportedFeature { kind, name } => ErrorView::UnsupportedFeature {
                kind: *kind,
                name: name@,
            },
            Error::UnsupportedCommand { name } => ErrorView::UnsupportedCommand { name: name@ },
            Error::UnsupportedPixelFormat { format } => ErrorView::UnsupportedPixelFormat {
                format: *format,
            },
            Error::NotFound { name } => ErrorView::NotFound { name: name@ },
            Error::ParseError { what, text } => ErrorView::ParseError { what: *what, text: text@ },
        }
    }
}

/// The report of an error, with the offending name or value in it.
pub open spec fn error_text(e: ErrorView) -> Seq<char> {
    match e {
        ErrorView::BackendError { msg } => "Nokhwa error: "@ + msg,
        ErrorView::UnsupportedFeature { kind: FeatureKind::Float, name } => "Unknown float feature: "@
            + name,
        ErrorView::UnsupportedFeature { kind: FeatureKind::Enum, name } => "Unknown enum feature: "@
            + name,
        ErrorView::UnsupportedCommand { name } => "Unknown command: "@ + name,
        ErrorView::UnsupportedPixelFormat { format } => "Unsupported pixel format: "@
            + pixel_format_name(format),
        ErrorView::NotFound { name } => "requested camera '"@ + name + "' was not found"@,
        ErrorView::ParseError { what: ValueKind::FrameFormat, text } => "Unknown format string: "@
            + text,
        ErrorView::ParseError { what: ValueKind::AutoMode, text } =>
            "unexpected AutoMode enum string: "@ + text,
    }
}

impl Error {
    /// The failure that the device reported with `msg`.
    pub fn from_backend(msg: String) -> (e: Error)
        ensures
            e@ == (ErrorView::BackendError { msg: msg@ }),
    {
        Error::BackendError { msg }
    }

    /// The report of this error as text.
    pub fn message(&self) -> (s: String)
        ensures
            s@ == error_text(self@),
    {
        match self {
            Error::BackendError { msg } => {
                let mut s = String::from_str("Nokhwa error: ");
                s.append(msg.as_str());
                s
            },
            Error::UnsupportedFeature { kind, name } => {
                let mut s = match kind {
                    FeatureKind::Float => String::from_str("Unknown float feature: "),
                    FeatureKind::Enum => String::from_str("Unknown enum feature: "),
                };
                s.append(name.as_str());
                s
            },
            Error::UnsupportedCommand { name } => {
                let mut s = String::from_str("Unknown command: ");
                s.append(name.as_str());
                s
            },
            Error::UnsupportedPixelFormat { format } => {
                let mut s = String::from_str("Unsupported pixel format: ");
                s.append(format.as_str());
                s
            },
            Error::NotFound { name } => {
                let mut s = String::from_str("requested camera '");
                s.append(name.as_str());
                s.append("' was not found");
                s
            },
            Error::ParseError { what, text } => {
                let mut s = match what {
                    ValueKind::FrameFormat => String::from_str("Unknown format string: "),
                    ValueKind::AutoMode => String::from_str("unexpected AutoMode enum string: "),
                };
                s.append(text.as_str());
                s
            },
        }
    }
}

} // verus!
