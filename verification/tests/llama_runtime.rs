use flowsight_agent::llama::{
    download_file_name, download_percent, download_status_check, exe_name, extraction_supported,
    is_elf_executable, latest_tag, release_urls, validate_binary, ArchiveKind, AttemptOutcome, InstallStep,
    RuntimeInstall,
};
use flowsight_agent::platform::Platform;

#[test]
fn executable_names() {
    assert_eq!(exe_name(Platform::Windows), "llama-server.exe");
    assert_eq!(exe_name(Platform::Linux), "llama-server");
    assert_eq!(exe_name(Platform::MacOs), "llama-server");
}

#[test]
fn linux_release_assets() {
    let a = release_urls("b1234", Platform::Linux, false);
    assert_eq!(a.len(), 2);
    assert_eq!(a[0].kind, ArchiveKind::Tgz);
    assert_eq!(
        a[0].url,
        "https://github.com/ggerganov/llama.cpp/releases/download/b1234/llama-b1234-bin-ubuntu-vulkan-x64.tar.gz"
    );
    assert_eq!(
        a[1].url,
        "https://github.com/ggerganov/llama.cpp/releases/download/b1234/llama-b1234-bin-ubuntu-x64.tar.gz"
    );
}

#[test]
fn other_release_assets() {
    let w = release_urls("b1", Platform::Windows, false);
    assert_eq!(w.len(), 2);
    assert_eq!(w[1].kind, ArchiveKind::Zip);
    assert_eq!(w[1].url, "https://github.com/ggerganov/llama.cpp/releases/download/b1/llama-b1-bin-win-cpu-x64.zip");
    let m = release_urls("b1", Platform::MacOs, true);
    assert_eq!(m.len(), 1);
    assert_eq!(m[0].url, "https://github.com/ggerganov/llama.cpp/releases/download/b1/llama-b1-bin-macos-arm64.tar.gz");
    let m = release_urls("b1", Platform::MacOs, false);
    assert_eq!(m[0].url, "https://github.com/ggerganov/llama.cpp/releases/download/b1/llama-b1-bin-macos-x64.tar.gz");
    assert!(release_urls("b1", Platform::Other, false).is_empty());
}

#[test]
fn download_names_and_extraction() {
    assert_eq!(download_file_name(ArchiveKind::Zip), "llama-runtime.zip");
    assert_eq!(download_file_name(ArchiveKind::Tgz), "llama-runtime.tar.gz");
    assert_eq!(extraction_supported(ArchiveKind::Tgz, Platform::Linux), Ok(()));
    assert_eq!(extraction_supported(ArchiveKind::Zip, Platform::Windows), Ok(()));
    assert_eq!(
        extraction_supported(ArchiveKind::Zip, Platform::Linux),
        Err("zip extract not supported on this OS".to_string())
    );
}

#[test]
fn elf_magic() {
    assert!(is_elf_executable(&[0x7f, b'E', b'L', b'F']));
    assert!(!is_elf_executable(b"MZ\x90\x00"));
    assert!(!is_elf_executable(&[0x7f, b'E', b'L']));
}

#[test]
fn binary_validation() {
    assert_eq!(validate_binary("/opt/bin/llama-server", Platform::Linux, true, true), Ok(()));
    assert_eq!(
        validate_binary("/opt/bin/llama-server", Platform::Linux, false, false),
        Err("llama-server not found at \"/opt/bin/llama-server\"".to_string())
    );
    assert_eq!(
        validate_binary("/opt/bin/llama-server", Platform::Linux, true, false),
        Err("\"/opt/bin/llama-server\" is not a Linux executable (found Windows build or wrong file). Delete it and restart FlowSight to download the correct llama-server.".to_string())
    );
    assert_eq!(validate_binary("C:\\x\\llama-server.exe", Platform::Windows, true, false), Ok(()));
    assert_eq!(
        validate_binary("C:\\x\\llama-server.exe", Platform::Windows, false, false),
        Err("llama-server not found at \"C:\\\\x\\\\llama-server.exe\"".to_string())
    );
}

#[test]
fn progress_percent() {
    assert_eq!(download_percent(0, 0), 0);
    assert_eq!(download_percent(500, 0), 0);
    assert_eq!(download_percent(50, 200), 25);
    assert_eq!(download_percent(199, 200), 99);
    assert_eq!(download_percent(300, 200), 100);
    assert!(download_percent(10, 30) <= download_percent(20, 30));
}

#[test]
fn status_and_tag() {
    assert_eq!(download_status_check(200, "200 OK", "u"), Ok(()));
    assert_eq!(download_status_check(299, "299 <unknown status code>", "u"), Ok(()));
    assert_eq!(
        download_status_check(404, "404 Not Found", "https://x/y"),
        Err("HTTP 404 Not Found for https://x/y".to_string())
    );
    assert_eq!(latest_tag(Some("b4567".to_string())), Ok("b4567".to_string()));
    assert_eq!(latest_tag(None), Err("releases/latest missing tag_name".to_string()));
}

#[test]
fn install_run_tries_assets_in_order() {
    let (mut run, step) = RuntimeInstall::start(release_urls("b9", Platform::Linux, false));
    match step {
        InstallStep::Download { kind, url } => {
            assert_eq!(kind, ArchiveKind::Tgz);
            assert!(url.ends_with("ubuntu-vulkan-x64.tar.gz"));
        }
        _ => panic!("expected a download"),
    }
    match run.step(AttemptOutcome::Failed("GET x: timeout".to_string())) {
        InstallStep::Download { url, .. } => assert!(url.ends_with("ubuntu-x64.tar.gz")),
        _ => panic!("expected a download"),
    }
    match run.step(AttemptOutcome::NoBinary) {
        InstallStep::Fail(e) => assert_eq!(
            e,
            "Could not install llama-server automatically. Last error: extracted archive but llama-server not found"
        ),
        _ => panic!("expected failure"),
    }
}

#[test]
fn install_run_found_binary_and_unsupported_os() {
    let (mut run, _) = RuntimeInstall::start(release_urls("b9", Platform::Windows, false));
    match run.step(AttemptOutcome::Binary("C:\\rt\\llama-server.exe".to_string())) {
        InstallStep::Validate(p) => assert_eq!(p, "C:\\rt\\llama-server.exe"),
        _ => panic!("expected validation"),
    }
    let (_, step) = RuntimeInstall::start(release_urls("b9", Platform::Other, false));
    match step {
        InstallStep::Fail(e) => assert_eq!(e, "Unsupported OS for automatic llama-server download."),
        _ => panic!("expected failure"),
    }
}

#[test]
fn binary_validation_quotes_path_like_path_debug() {
    let p = "/home/o'neil/bin/llama-server";
    assert_eq!(
        validate_binary(p, Platform::Linux, false, false),
        Err(format!("llama-server not found at {:?}", std::path::Path::new(p)))
    );
    assert_eq!(
        validate_binary(p, Platform::Linux, true, false),
        Err(format!(
            "{:?} is not a Linux executable (found Windows build or wrong file). Delete it and restart FlowSight to download the correct llama-server.",
            std::path::Path::new(p)
        ))
    );
}
