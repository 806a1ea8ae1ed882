use image_transfer::bootc::{exe_exists, install, install_result};
use image_transfer::command::{Invocation, Stream};
use image_transfer::error::ImageError;
use image_transfer::reference::ImageReference;

#[test]
fn bootc_is_taken_to_exist() {
    assert_eq!(exe_exists(), Ok(true));
}

#[test]
fn install_command_line() {
    let img = ImageReference::parse("containers-storage:localhost/bootc").unwrap();
    let plan = install(&img, "/mnt/sysroot", "default");
    assert_eq!(
        plan.command,
        Invocation {
            program: "bootc".to_string(),
            args: vec![
                "install".to_string(),
                "to-filesystem".to_string(),
                "--disable-selinux".to_string(),
                "--source-imgref".to_string(),
                "containers-storage:localhost/bootc".to_string(),
                "/mnt/sysroot".to_string(),
            ],
            stdin: Stream::Inherit,
            stdout: Stream::Inherit,
            stderr: Stream::Inherit,
            kill_on_drop: false,
            passed_fd: None,
        }
    );
    assert_eq!(plan.stateroot, "default");
}

#[test]
fn install_fails_when_the_tool_fails() {
    assert_eq!(install_result(true), Ok(()));
    assert_eq!(install_result(false), Err(ImageError::InstallFailed));
}

#[test]
fn error_messages() {
    assert_eq!(
        ImageError::TransferFailed("boom".to_string()).message(),
        "skopeo failed: boom\n"
    );
    assert_eq!(
        ImageError::InspectFailed("boom".to_string()).message(),
        "skopeo inspect failed: boom\n"
    );
    assert_eq!(ImageError::InstallFailed.message(), "bootc install failed");
    assert_eq!(
        ImageError::InvalidReference("x".to_string()).message(),
        "invalid image reference: x"
    );
    assert_eq!(
        ImageError::PolicyRead("denied".to_string()).message(),
        "reading the policy failed: denied"
    );
    assert_eq!(ImageError::PolicyParse("[]".to_string()).message(), "invalid policy: []");
    assert_eq!(ImageError::DigestParse("x".to_string()).message(), "invalid digest: x");
    assert_eq!(ImageError::LabelParse("1".to_string()).message(), "invalid labels: 1");
}
