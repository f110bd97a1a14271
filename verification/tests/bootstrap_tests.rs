use weo::bootstrap::BootstrapPhase;
use weo::docker_api::DockerApi;
use weo::windows_helper_instance::WindowsHelperInstance;

/// Drives one whole bootstrap pass against a stubbed registry
/// listing and stubbed download/import results, counting how many
/// download and import requests the machine issued.
fn drive(
    helper: &mut WindowsHelperInstance,
    registry_stdout: &[u8],
    download_ok: bool,
    import_ok: bool,
) -> (usize, usize) {
    let mut downloads: usize = 0;
    let mut imports: usize = 0;
    let listing = helper.begin_check();
    assert_eq!(listing.args, vec!["-l".to_string(), "-q".to_string()]);
    let exists = helper.instance_exists(&registry_stdout.to_vec()).unwrap();
    helper.observe_check(exists);
    if helper.phase == BootstrapPhase::Missing {
        let request = helper.begin_download();
        downloads += 1;
        assert_eq!(request.file_name, "alpine-minirootfs-3.20.3-x86_64.tar.gz");
        helper.finish_download(download_ok);
        if helper.phase == BootstrapPhase::Importing {
            let _import = helper.import_command("/tmp/dl/alpine-minirootfs-3.20.3-x86_64.tar.gz");
            imports += 1;
            helper.finish_import(import_ok);
        }
    }
    (downloads, imports)
}

#[test]
fn helper_configuration() {
    let h = WindowsHelperInstance::new("/home/user");
    assert_eq!(h.phase, BootstrapPhase::Unchecked);
    assert_eq!(h.name, "weo_orchestrator");
    assert_eq!(
        h.image_download_url,
        "https://dl-cdn.alpinelinux.org/alpine/v3.20/releases/x86_64/alpine-minirootfs-3.20.3-x86_64.tar.gz"
    );
    assert_eq!(h.image_name, "alpine-minirootfs-3.20.3-x86_64.tar.gz");
    assert_eq!(h.wsl_storage_path, "/home/user/wsl");
    assert_eq!(h.wsl_api.storage_path, "/home/user/wsl");
    assert_eq!(h.run_command(), "weo_orchestrator");
}

#[test]
fn bootstrap_fast_path_does_no_work() {
    let mut h = WindowsHelperInstance::new("/home/user");
    let (downloads, imports) = drive(&mut h, b"weo_orchestrator\ndev-box\n", true, true);
    assert_eq!(h.phase, BootstrapPhase::Present);
    assert_eq!(downloads, 0);
    assert_eq!(imports, 0);
}

#[test]
fn bootstrap_missing_path_downloads_then_imports() {
    let mut h = WindowsHelperInstance::new("/home/user");
    let (downloads, imports) = drive(&mut h, b"dev-box\n", true, true);
    assert_eq!(h.phase, BootstrapPhase::Present);
    assert_eq!(downloads, 1);
    assert_eq!(imports, 1);
}

#[test]
fn bootstrap_download_failure_short_circuits_import() {
    let mut h = WindowsHelperInstance::new("/home/user");
    let (downloads, imports) = drive(&mut h, b"dev-box\n", false, true);
    assert_eq!(h.phase, BootstrapPhase::Failed);
    assert_eq!(downloads, 1);
    assert_eq!(imports, 0);
}

#[test]
fn bootstrap_import_failure_is_fatal() {
    let mut h = WindowsHelperInstance::new("/home/user");
    let (downloads, imports) = drive(&mut h, b"dev-box\n", true, false);
    assert_eq!(h.phase, BootstrapPhase::Failed);
    assert_eq!(downloads, 1);
    assert_eq!(imports, 1);
}

#[test]
fn bootstrap_download_request_names_image_source() {
    let mut h = WindowsHelperInstance::new("/home/user");
    let _ = h.begin_check();
    h.observe_check(false);
    let request = h.begin_download();
    assert_eq!(
        request.url,
        "https://dl-cdn.alpinelinux.org/alpine/v3.20/releases/x86_64/alpine-minirootfs-3.20.3-x86_64.tar.gz"
    );
    assert_eq!(request.file_name, "alpine-minirootfs-3.20.3-x86_64.tar.gz");
}

#[test]
fn import_command_uses_helper_storage_directory() {
    let mut h = WindowsHelperInstance::new("/home/user");
    let _ = h.begin_check();
    h.observe_check(false);
    let _ = h.begin_download();
    h.finish_download(true);
    let c = h.import_command("/tmp/dl/alpine-minirootfs-3.20.3-x86_64.tar.gz");
    assert_eq!(c.args, vec![
        "--import".to_string(),
        "weo_orchestrator".to_string(),
        "/home/user/wsl/weo_orchestrator".to_string(),
        "/tmp/dl/alpine-minirootfs-3.20.3-x86_64.tar.gz".to_string(),
    ]);
}

#[test]
fn helper_existence_check_is_exact() {
    let h = WindowsHelperInstance::new("/home/user");
    assert_eq!(h.instance_exists(&b"weo_orchestrator\n".to_vec()), Ok(true));
    assert_eq!(h.instance_exists(&b"weo_orchestrator2\n".to_vec()), Ok(false));
    assert_eq!(h.instance_exists(&b"dev-box\n".to_vec()), Ok(false));
}

#[test]
fn docker_api_selects_backend() {
    let api = DockerApi::new("/home/user");
    let h = &api.instance.windows_helper_instance;
    assert_eq!(h.phase, BootstrapPhase::Unchecked);
    assert_eq!(h.name, "weo_orchestrator");
    assert_eq!(h.wsl_storage_path, "/home/user/wsl");
}
