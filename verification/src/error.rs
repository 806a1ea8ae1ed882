//! The failures this library reports.

use vstd::prelude::*;
use vstd::string::StringExecFns;

verus! {

/// Why an operation failed.
#[derive(Debug, PartialEq, Eq)]
pub enum ImageError {
    /// The text is no image reference; it is carried along.
    InvalidReference(String),
    /// The policy document could not be read; the reason is carried along.
    PolicyRead(String),
    /// The policy document is not a well-formed policy; its text is carried along.
    PolicyParse(String),
    /// The copy tool exited with a failure; its standard error is carried along.
    TransferFailed(String),
    /// The inspect tool exited with a failure; its standard error is carried along.
    InspectFailed(String),
    /// The installation tool exited with a failure.
    InstallFailed,
    /// The copy tool succeeded but left no valid digest; the text it left,
    /// without the whitespace around it, is carried along.
    DigestParse(String),
    /// The inspect tool succeeded but did not print a map of labels; its
    /// output is carried along.
    LabelParse(String),
}

/// What an [`ImageError`] says.
pub enum Failure {
    InvalidReference(Seq<char>),
    PolicyRead(Seq<char>),
    PolicyParse(Seq<char>),
    TransferFailed(Seq<char>),
    InspectFailed(Seq<char>),
    InstallFailed,
    DigestParse(Seq<char>),
    LabelParse(Seq<char>),
}

impl Failure {
    /// What a failure reads as: a few words on its kind, then the text it carries.
    pub open spec fn message(self) -> Seq<char> {
        match self {
            Failure::InvalidReference(t) => "invalid image reference: "@ + t,
            Failure::PolicyRead(t) => "reading the policy failed: "@ + t,
            Failure::PolicyParse(t) => "invalid policy: "@ + t,
            Failure::TransferFailed(t) => "skopeo failed: "@ + t + "\n"@,
            Failure::InspectFailed(t) => "skopeo inspect failed: "@ + t + "\n"@,
            Failure::InstallFailed => "bootc install failed"@,
            Failure::DigestParse(t) => "invalid digest: "@ + t,
            Failure::LabelParse(t) => "invalid labels: "@ + t,
        }
    }
}

impl View for ImageError {
    type V = Failure;

    open spec fn view(&self) -> Failure {
        match self {
            ImageError::InvalidReference(t) => Failure::InvalidReference(t@),
            ImageError::PolicyRead(t) => Failure::PolicyRead(t@),
            ImageError::PolicyParse(t) => Failure::PolicyParse(t@),
            ImageError::TransferFailed(t) => Failure::TransferFailed(t@),
            ImageError::InspectFailed(t) => Failure::InspectFailed(t@),
            ImageError::InstallFailed => Failure::InstallFailed,
            ImageError::DigestParse(t) => Failure::DigestParse(t@),
            ImageError::LabelParse(t) => Failure::LabelParse(t@),
        }
    }
}

fn prefixed(prefix: &str, text: &str) -> (r: String)
    ensures
        r@ == prefix@ + text@,
{
    let mut out = String::from_str(prefix);
    out.append(text);
    out
}

impl ImageError {
    /// The failure as a line of text.
    pub fn message(&self) -> (r: String)
        ensures
            r@ == self@.message(),
    {
        match self {
            ImageError::InvalidReference(t) => prefixed("invalid image reference: ", t.as_str()),
            ImageError::PolicyRead(t) => prefixed("reading the policy failed: ", t.as_str()),
            ImageError::PolicyParse(t) => prefixed("invalid policy: ", t.as_str()),
            ImageError::TransferFailed(t) => {
                let mut out = prefixed("skopeo failed: ", t.as_str());
                out.append("\n");
                out
            },
            ImageError::InspectFailed(t) => {
                let mut out = prefixed("skopeo inspect failed: ", t.as_str());
                out.append("\n");
                out
            },
            ImageError::InstallFailed => String::from_str("bootc install failed"),
            ImageError::DigestParse(t) => prefixed("invalid digest: ", t.as_str()),
            ImageError::LabelParse(t) => prefixed("invalid labels: ", t.as_str()),
        }
    }
}

} // verus!
