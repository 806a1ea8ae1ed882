//! Driving `skopeo` as a subprocess: the command lines for copying and
//! inspecting an image, and the reading of what the tool left behind.

use vstd::prelude::*;
use crate::command::{Invocation, InvocationView, ProcessOutput, Stream};
use crate::digest::{digest_spec, Digest};
use crate::error::{Failure, ImageError};
use crate::labels::{labels_in_text, LabelMap};
use crate::reference::{format_spec, ImageReference, ReferenceView};
use crate::text::{lossy_text, trim, trimmed, utf8_lossy};

verus! {

/// The text of an optional string.
pub open spec fn opt_text(s: Option<&str>) -> Option<Seq<char>> {
    match s {
        Some(t) => Some(t@),
        None => None,
    }
}

/// The invocation of `skopeo` that every command starts from: no arguments
/// yet, and nothing to read on standard input.
pub open spec fn new_cmd_spec() -> InvocationView {
    InvocationView { stdin: Stream::Null, ..InvocationView::plain("skopeo"@) }
}

/// An invocation as it is spawned: standard input closed, standard error
/// captured, the rest as given.
pub open spec fn spawn_spec(cmd: InvocationView) -> InvocationView {
    InvocationView { stdin: Stream::Null, stderr: Stream::Piped, ..cmd }
}

/// The arguments that name the file with the credentials, if there is one.
pub open spec fn authfile_args(authfile: Option<Seq<char>>) -> Seq<Seq<char>> {
    match authfile {
        Some(path) => seq!["--authfile"@, path],
        None => Seq::empty(),
    }
}

/// The invocation that prints the labels of an image as JSON. Both output
/// streams are captured, and the process dies with the task that waits for it.
pub open spec fn labels_invocation_spec(
    img: ReferenceView,
    authfile: Option<Seq<char>>,
) -> InvocationView {
    InvocationView {
        program: "skopeo"@,
        args: seq!["inspect"@, "--format"@, "{{json .Labels}}"@] + authfile_args(authfile)
            + seq![format_spec(img)],
        stdin: Stream::Null,
        stdout: Stream::Piped,
        stderr: Stream::Piped,
        kill_on_drop: true,
        passed_fd: None,
    }
}

/// The invocation that copies an image and writes the digest of what it
/// copied to `digestfile`. Standard output is discarded unless progress is
/// to be shown; standard error is captured; the process dies with the task
/// that waits for it.
pub open spec fn copy_invocation_spec(
    src: ReferenceView,
    dest: ReferenceView,
    digestfile: Seq<char>,
    authfile: Option<Seq<char>>,
    add_fd: Option<i32>,
    progress: bool,
) -> InvocationView {
    InvocationView {
        program: "skopeo"@,
        args: seq!["copy"@, "--digestfile"@, digestfile] + authfile_args(authfile) + seq![
            format_spec(src),
            format_spec(dest),
        ],
        stdin: Stream::Null,
        stdout: if progress {
            Stream::Inherit
        } else {
            Stream::Null
        },
        stderr: Stream::Piped,
        kill_on_drop: true,
        passed_fd: add_fd,
    }
}

/// The invocation of `skopeo` that every command starts from.
pub fn new_cmd() -> (r: Invocation)
    ensures
        r@ == new_cmd_spec(),
{
    let mut cmd = Invocation::new("skopeo");
    cmd.stdin = Stream::Null;
    cmd
}

/// Sets an invocation up for spawning: standard input closed, standard error
/// captured.
pub fn prepare_spawn(cmd: Invocation) -> (r: Invocation)
    ensures
        r@ == spawn_spec(cmd@),
{
    let mut cmd = cmd;
    cmd.stdin = Stream::Null;
    cmd.stderr = Stream::Piped;
    cmd
}

fn push_authfile(cmd: &mut Invocation, authfile: Option<&str>)
    ensures
        final(cmd)@ == (InvocationView {
            args: old(cmd)@.args + authfile_args(opt_text(authfile)),
            ..old(cmd)@
        }),
{
    match authfile {
        Some(path) => {
            cmd.arg("--authfile");
            cmd.arg(path);
            assert(cmd@.args =~= old(cmd)@.args + authfile_args(opt_text(authfile)));
        },
        None => {
            assert(cmd@.args =~= old(cmd)@.args + authfile_args(opt_text(authfile)));
        },
    }
}

/// The invocation that prints the labels of an image as JSON.
pub fn labels_invocation(img: &ImageReference, authfile: Option<&str>) -> (r: Invocation)
    ensures
        r@ == labels_invocation_spec(img@, opt_text(authfile)),
{
    let mut cmd = new_cmd();
    cmd.stdout = Stream::Piped;
    cmd.stderr = Stream::Piped;
    cmd.arg("inspect");
    cmd.arg("--format");
    cmd.arg("{{json .Labels}}");
    push_authfile(&mut cmd, authfile);
    let text = img.format();
    cmd.arg(text.as_str());
    cmd.kill_on_drop = true;
    let cmd = prepare_spawn(cmd);
    assert(cmd@.args =~= labels_invocation_spec(img@, opt_text(authfile)).args);
    cmd
}

/// What an inspection gives, given what the process left behind.
pub open spec fn labels_result_spec(output: ProcessOutput) -> Result<
    Map<Seq<char>, Seq<char>>,
    Failure,
> {
    if !output.success {
        Err(Failure::InspectFailed(utf8_lossy(output.stderr@)))
    } else {
        match labels_in_text(utf8_lossy(output.stdout@)) {
            Some(labels) => Ok(labels),
            None => Err(Failure::LabelParse(utf8_lossy(output.stdout@))),
        }
    }
}

/// Reads the labels from what an inspection left behind. Where the tool
/// failed, its standard error comes back as the failure; where it
/// succeeded, its standard output must be a JSON object of strings.
pub fn labels_result(output: &ProcessOutput) -> (r: Result<LabelMap, ImageError>)
    ensures
        match labels_result_spec(*output) {
            Ok(labels) => r matches Ok(l) && l@ == labels,
            Err(f) => r matches Err(e) && e@ == f,
        },
{
    if !output.success {
        return Err(ImageError::InspectFailed(lossy_text(&output.stderr)));
    }
    let text = lossy_text(&output.stdout);
    LabelMap::parse(text.as_str())
}

/// The invocation that copies an image. `digestfile` is the path of the
/// file that is to receive the digest; `add_fd`, where given, is the number
/// under which the child finds a descriptor that the caller hands over.
pub fn copy_invocation(
    src: &ImageReference,
    dest: &ImageReference,
    digestfile: &str,
    authfile: Option<&str>,
    add_fd: Option<i32>,
    progress: bool,
) -> (r: Invocation)
    ensures
        r@ == copy_invocation_spec(src@, dest@, digestfile@, opt_text(authfile), add_fd, progress),
{
    let mut cmd = new_cmd();
    cmd.arg("copy");
    if !progress {
        cmd.stdout = Stream::Null;
    }
    cmd.arg("--digestfile");
    cmd.arg(digestfile);
    cmd.passed_fd = add_fd;
    push_authfile(&mut cmd, authfile);
    let src_text = src.format();
    cmd.arg(src_text.as_str());
    let dest_text = dest.format();
    cmd.arg(dest_text.as_str());
    cmd.kill_on_drop = true;
    let cmd = prepare_spawn(cmd);
    assert(cmd@.args =~= copy_invocation_spec(
        src@,
        dest@,
        digestfile@,
        opt_text(authfile),
        add_fd,
        progress,
    ).args);
    cmd
}

/// A copy whose process has exited with success, and whose digest file may
/// therefore be read.
#[derive(Debug)]
pub struct CompletedCopy {
    _exited: (),
}

/// Judges a copy by what its process left behind. Where the tool failed,
/// there is no digest to be had, and its standard error comes back as the
/// failure; where it succeeded, the digest is to be read next.
pub fn copy_exit(output: &ProcessOutput) -> (r: Result<CompletedCopy, ImageError>)
    ensures
        output.success ==> r is Ok,
        !output.success ==> (r matches Err(e) && e@ == Failure::TransferFailed(
            utf8_lossy(output.stderr@),
        )),
{
    if !output.success {
        return Err(ImageError::TransferFailed(lossy_text(&output.stderr)));
    }
    Ok(CompletedCopy { _exited: () })
}

impl CompletedCopy {
    /// The digest of what was copied, read from the contents of the digest
    /// file: the contents without the whitespace around them must be a
    /// digest.
    pub fn digest(self, contents: &str) -> (r: Result<Digest, ImageError>)
        ensures
            match digest_spec(trimmed(contents@)) {
                Some(v) => r matches Ok(d) && d@ == v,
                None => r matches Err(e) && e@ == Failure::DigestParse(trimmed(contents@)),
            },
    {
        Digest::parse(trim(contents))
    }
}

} // verus!
