//! Driving `bootc` as a subprocess: the command line of an installation to a
//! filesystem, and the judging of how it ended.

use vstd::prelude::*;
use crate::command::{Invocation, InvocationView, Stream};
use crate::error::{Failure, ImageError};
use crate::reference::{format_spec, ImageReference, ReferenceView};

verus! {

/// Whether the `bootc` executable is present. It is taken to be.
pub fn exe_exists() -> (r: Result<bool, ImageError>)
    ensures
        r == Ok::<bool, ImageError>(true),
{
    Ok(true)
}

/// The invocation that installs an image to the filesystem under `sysroot`,
/// without the tool's SELinux handling. The process has the parent's streams.
pub open spec fn install_invocation_spec(img: ReferenceView, sysroot: Seq<char>) -> InvocationView {
    InvocationView {
        args: seq![
            "install"@,
            "to-filesystem"@,
            "--disable-selinux"@,
            "--source-imgref"@,
            format_spec(img),
            sysroot,
        ],
        ..InvocationView::plain("bootc"@)
    }
}

/// An installation that is to be run: the command, and the name of the
/// state root, which is handed on as it came.
#[derive(Debug, PartialEq, Eq)]
pub struct InstallPlan {
    pub command: Invocation,
    pub stateroot: String,
}

/// Plans the installation of an image to the filesystem under `sysroot`.
pub fn install(imgref: &ImageReference, sysroot: &str, stateroot: &str) -> (r: InstallPlan)
    ensures
        r.command@ == install_invocation_spec(imgref@, sysroot@),
        r.stateroot@ == stateroot@,
{
    let mut cmd = Invocation::new("bootc");
    let text = imgref.format();
    cmd.arg("install");
    cmd.arg("to-filesystem");
    cmd.arg("--disable-selinux");
    cmd.arg("--source-imgref");
    cmd.arg(text.as_str());
    cmd.arg(sysroot);
    assert(cmd@.args =~= install_invocation_spec(imgref@, sysroot@).args);
    InstallPlan { command: cmd, stateroot: stateroot.to_owned() }
}

/// Judges an installation by how its process ended: it has failed exactly
/// when the process did not exit with success.
pub fn install_result(success: bool) -> (r: Result<(), ImageError>)
    ensures
        success ==> r is Ok,
        !success ==> (r matches Err(e) && e@ == Failure::InstallFailed),
{
    if success {
        Ok(())
    } else {
        Err(ImageError::InstallFailed)
    }
}

} // verus!
