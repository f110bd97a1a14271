use weo::wsl_api::{WslApi, WslError, WslOutput};

fn api() -> WslApi {
    WslApi::new("/home/user/wsl")
}

#[test]
fn instance_exists_exact_match() {
    let out = b"alpine\n".to_vec();
    assert_eq!(api().instance_exists(&out, "alpine"), Ok(true));
}

#[test]
fn instance_exists_is_case_sensitive() {
    let out = b"alpine\n".to_vec();
    assert_eq!(api().instance_exists(&out, "Alpine"), Ok(false));
}

#[test]
fn instance_exists_rejects_prefix() {
    let out = b"alpine\n".to_vec();
    assert_eq!(api().instance_exists(&out, "alpin"), Ok(false));
}

#[test]
fn instance_exists_rejects_substring_lines() {
    let out = b"alpine-extra\nother\n".to_vec();
    assert_eq!(api().instance_exists(&out, "alpine"), Ok(false));
}

#[test]
fn instance_exists_strips_nuls() {
    let out = b"a\0l\0p\0i\0n\0e\0\n\0".to_vec();
    assert_eq!(api().instance_exists(&out, "alpine"), Ok(true));
}

#[test]
fn instance_exists_handles_crlf() {
    let out = b"alpine\r\nubuntu\r\n".to_vec();
    assert_eq!(api().instance_exists(&out, "alpine"), Ok(true));
    assert_eq!(api().instance_exists(&out, "ubuntu"), Ok(true));
}

#[test]
fn instance_exists_rejects_bad_encoding() {
    let out = vec![0xffu8, 0xfe, 0x41];
    assert_eq!(api().instance_exists(&out, "alpine"), Err(WslError::Encoding));
}

#[test]
fn list_instances_keeps_order_and_duplicates() {
    let out = b"dev-box\nalpine\ndev-box\n".to_vec();
    let names = WslApi::list_instances(&out).unwrap();
    assert_eq!(names, vec![
        "dev-box".to_string(),
        "alpine".to_string(),
        "dev-box".to_string(),
    ]);
}

#[test]
fn list_instances_of_empty_output() {
    let out = Vec::new();
    let names = WslApi::list_instances(&out).unwrap();
    assert!(names.is_empty());
}

#[test]
fn list_instances_rejects_bad_encoding() {
    let out = vec![0xc3u8];
    assert_eq!(WslApi::list_instances(&out), Err(WslError::Encoding));
}

#[test]
fn list_command_arguments() {
    let c = WslApi::list_command();
    assert_eq!(c.args, vec!["-l".to_string(), "-q".to_string()]);
}

#[test]
fn version_command_arguments() {
    let c = WslApi::version_command();
    assert_eq!(c.args, vec!["--version".to_string()]);
}

#[test]
fn check_version_outcomes() {
    assert_eq!(WslApi::check_version(true), Ok(()));
    assert_eq!(WslApi::check_version(false), Err(WslError::ProcessSpawn));
}

#[test]
fn import_instance_arguments() {
    let c = api().import_instance("env1", "/tmp/image.tar.gz");
    assert_eq!(c.args, vec![
        "--import".to_string(),
        "env1".to_string(),
        "/home/user/wsl".to_string(),
        "/tmp/image.tar.gz".to_string(),
    ]);
}

#[test]
fn import_outcomes() {
    assert_eq!(WslApi::import_outcome(true), Ok(()));
    assert_eq!(WslApi::import_outcome(false), Err(WslError::Import));
}

#[test]
fn remove_instance_arguments() {
    let c = api().remove_instance("env1");
    assert_eq!(c.args, vec!["--unregister".to_string(), "env1".to_string()]);
}

#[test]
fn remove_outcomes() {
    assert_eq!(WslApi::remove_outcome(true), Ok(()));
    assert_eq!(WslApi::remove_outcome(false), Err(WslError::Remove));
}

#[test]
fn run_command_arguments_with_default_user() {
    let c = api().run_command_in_instance("env1", "echo hi", None);
    assert_eq!(c.args, vec![
        "-u".to_string(),
        "root".to_string(),
        "-d".to_string(),
        "env1".to_string(),
        "sh".to_string(),
        "-c".to_string(),
        "echo hi".to_string(),
    ]);
}

#[test]
fn run_command_arguments_with_named_user() {
    let c = api().run_command_in_instance("env1", "id", Some("bob"));
    assert_eq!(c.args[1], "bob");
    assert_eq!(c.args[6], "id");
}

#[test]
fn run_outcome_returns_cleaned_output() {
    let out = WslOutput { stdout: b"hello\n".to_vec(), success: true };
    assert_eq!(WslApi::run_outcome(&out), Ok("hello\n".to_string()));
}

#[test]
fn run_outcome_propagates_failure() {
    let out = WslOutput { stdout: Vec::new(), success: false };
    assert_eq!(WslApi::run_outcome(&out), Err(WslError::Exec));
}

#[test]
fn run_outcome_rejects_bad_encoding() {
    let out = WslOutput { stdout: vec![0x80u8], success: true };
    assert_eq!(WslApi::run_outcome(&out), Err(WslError::Encoding));
}

#[test]
fn file_probe_command_text() {
    let c = api().file_exists_in_instance("env1", "/etc/hosts");
    assert_eq!(c.args[0], "-u");
    assert_eq!(c.args[1], "root");
    assert_eq!(c.args[3], "env1");
    assert_eq!(c.args[6], "test -f /etc/hosts && echo \"EXISTS\" || echo \"NOT EXISTENT\"");
}

#[test]
fn file_exists_outcome_reads_sentinel() {
    let out = WslOutput { stdout: b"EXISTS\n".to_vec(), success: true };
    assert_eq!(WslApi::file_exists_outcome(&out), Ok(true));
}

#[test]
fn file_exists_outcome_reads_negative_sentinel() {
    let out = WslOutput { stdout: b"NOT EXISTENT\n".to_vec(), success: true };
    assert_eq!(WslApi::file_exists_outcome(&out), Ok(false));
}

#[test]
fn file_exists_outcome_treats_other_text_as_absent() {
    let out = WslOutput { stdout: b"something else\n".to_vec(), success: true };
    assert_eq!(WslApi::file_exists_outcome(&out), Ok(false));
}

#[test]
fn file_exists_outcome_propagates_exec_failure() {
    let out = WslOutput { stdout: b"EXISTS\n".to_vec(), success: false };
    assert_eq!(WslApi::file_exists_outcome(&out), Err(WslError::Exec));
}

#[test]
fn file_exists_outcome_rejects_bad_encoding() {
    let out = WslOutput { stdout: vec![0xf0u8, 0x28], success: true };
    assert_eq!(WslApi::file_exists_outcome(&out), Err(WslError::Encoding));
}

#[test]
fn error_descriptions() {
    assert_eq!(WslError::ProcessSpawn.describe(), "WSL is not installed");
    assert_eq!(WslError::Encoding.describe(), "Failed to convert output to string");
    assert_eq!(WslError::Import.describe(), "Failed to import WSL instance");
    assert_eq!(WslError::Remove.describe(), "Failed to remove WSL instance");
    assert_eq!(WslError::Exec.describe(), "Failed to run command in WSL instance");
}

#[test]
fn new_remembers_storage_path() {
    let a = WslApi::new("/srv/instances");
    assert_eq!(a.storage_path, "/srv/instances");
}
