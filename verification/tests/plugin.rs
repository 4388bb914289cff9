use wasmedgeup::platform::{Architecture, LinuxDistro, Platform, OS};
use wasmedgeup::plugin::{PluginError, PluginInstallStep, PluginManager};

fn manager(os: OS, arch: Architecture) -> PluginManager {
    PluginManager::new("0.14.1".to_string(), Platform::new(os, arch))
}

fn linux_manager() -> PluginManager {
    manager(OS::Linux(LinuxDistro::Ubuntu), Architecture::X86_64)
}

fn plugin_tar_gz(entries: &[(&str, &[u8])]) -> Vec<u8> {
    let mut builder = tar::Builder::new(Vec::new());
    for (path, data) in entries {
        let mut header = tar::Header::new_gnu();
        header.set_entry_type(tar::EntryType::Regular);
        header.set_size(data.len() as u64);
        header.set_mode(0o644);
        header.set_cksum();
        builder.append_data(&mut header, *path, *data).unwrap();
    }
    let tar_bytes = builder.into_inner().unwrap();
    let mut enc = flate2::write::GzEncoder::new(Vec::new(), flate2::Compression::default());
    std::io::Write::write_all(&mut enc, &tar_bytes).unwrap();
    enc.finish().unwrap()
}

#[test]
fn url_name_replaces_only_the_first_hyphen() {
    let m = linux_manager();
    assert_eq!(m.url_plugin_name("wasi-nn-ggml"), "wasi_nn-ggml");
    assert_eq!(m.url_plugin_name("wasi-crypto"), "wasi_crypto");
    assert_eq!(m.url_plugin_name("simple"), "simple");
}

#[test]
fn primary_and_alternate_urls() {
    let m = linux_manager();
    let (primary, alternate) = m.plugin_download_urls("wasi-nn-ggml");
    assert_eq!(
        primary,
        "https://github.com/WasmEdge/WasmEdge/releases/download/0.14.1/WasmEdge-plugin-wasi_nn-ggml-0.14.1-ubuntu20.04_x86_64.tar.gz"
    );
    assert_eq!(
        alternate,
        "https://github.com/WasmEdge/WasmEdge/releases/download/0.14.1/WasmEdge-plugin-wasi_nn-ggml-ubuntu20.04_x86_64.tar.gz"
    );
}

#[test]
fn failed_install_names_the_plugin() {
    let m = linux_manager();
    match m.install_failure("wasi-nn-ggml") {
        PluginError::NotFound { plugin, os, arch, version } => {
            assert_eq!(plugin, "wasi-nn-ggml");
            assert_eq!(os, "Ubuntu");
            assert_eq!(arch, "x86_64");
            assert_eq!(version, "0.14.1");
        },
        other => panic!("expected a not-found error, got {:?}", other),
    }
}

#[test]
fn release_api_url() {
    let m = linux_manager();
    assert_eq!(
        m.release_api_url(),
        "https://api.github.com/repos/WasmEdge/WasmEdge/releases/tags/0.14.1"
    );
}

#[test]
fn manifest_urls() {
    let m = linux_manager();
    assert_eq!(
        m.version_manifest_url("wasi_nn"),
        "https://raw.githubusercontent.com/WasmEdge/WasmEdge/master/plugins/wasi_nn/version.json"
    );
}

#[test]
fn extraction_takes_only_shared_libraries() {
    let m = linux_manager();
    let gz = plugin_tar_gz(&[
        ("plugin/libwasmedgePluginWasiNN.so", b"lib bytes"),
        ("plugin/metadata.json", b"{}"),
        ("README.md", b"docs"),
        ("win/libplugin.dll", b"dll bytes"),
        ("mac/libplugin.dylib", b"dylib bytes"),
    ]);
    let files = m.extract_plugin(&gz).unwrap();
    let names: Vec<&str> = files.iter().map(|(n, _, _)| n.as_str()).collect();
    assert_eq!(
        names,
        vec!["libwasmedgePluginWasiNN.so", "libplugin.dll", "libplugin.dylib"]
    );
    assert_eq!(files[0].1, b"lib bytes");
}

#[test]
fn extraction_keeps_shared_library_symlinks() {
    let m = linux_manager();
    let mut builder = tar::Builder::new(Vec::new());
    let mut header = tar::Header::new_gnu();
    header.set_entry_type(tar::EntryType::Regular);
    header.set_size(9);
    header.set_mode(0o644);
    header.set_cksum();
    builder.append_data(&mut header, "p/libreal.so", &b"lib bytes"[..]).unwrap();
    let mut header = tar::Header::new_gnu();
    header.set_entry_type(tar::EntryType::Symlink);
    header.set_size(0);
    header.set_mode(0o777);
    header.set_cksum();
    builder.append_link(&mut header, "p/libalias.so", "libreal.so").unwrap();
    let tar_bytes = builder.into_inner().unwrap();
    let mut enc = flate2::write::GzEncoder::new(Vec::new(), flate2::Compression::default());
    std::io::Write::write_all(&mut enc, &tar_bytes).unwrap();
    let gz = enc.finish().unwrap();

    let files = m.extract_plugin(&gz).unwrap();
    assert_eq!(files.len(), 2);
    assert_eq!(files[0], ("libreal.so".to_string(), b"lib bytes".to_vec(), None));
    assert_eq!(files[1].0, "libalias.so");
    assert_eq!(files[1].2, Some("libreal.so".to_string()));
}

#[test]
fn install_steps_are_primary_then_one_alternate_then_terminal() {
    let m = linux_manager();
    match m.install_plugin_step("wasi-nn-ggml", 0) {
        PluginInstallStep::Download(url) => assert_eq!(
            url,
            "https://github.com/WasmEdge/WasmEdge/releases/download/0.14.1/WasmEdge-plugin-wasi_nn-ggml-0.14.1-ubuntu20.04_x86_64.tar.gz"
        ),
        other => panic!("expected a download step, got {:?}", other),
    }
    match m.install_plugin_step("wasi-nn-ggml", 1) {
        PluginInstallStep::Download(url) => assert_eq!(
            url,
            "https://github.com/WasmEdge/WasmEdge/releases/download/0.14.1/WasmEdge-plugin-wasi_nn-ggml-ubuntu20.04_x86_64.tar.gz"
        ),
        other => panic!("expected a download step, got {:?}", other),
    }
    match m.install_plugin_step("wasi-nn-ggml", 2) {
        PluginInstallStep::Fail(PluginError::NotFound { plugin, .. }) => {
            assert_eq!(plugin, "wasi-nn-ggml")
        },
        other => panic!("expected the terminal error, got {:?}", other),
    }
}

#[test]
fn extraction_rejects_a_bad_archive() {
    let m = linux_manager();
    assert!(m.extract_plugin(b"only noise").is_err());
}

#[test]
fn listing_parses_dedupes_and_flags_compatibility() {
    let m = linux_manager();
    let assets = vec![
        "WasmEdge-plugin-wasi_crypto-0.14.1-ubuntu20.04_x86_64.tar.gz".to_string(),
        "WasmEdge-plugin-wasi_crypto-0.14.1-darwin_arm64.tar.gz".to_string(),
        "WasmEdge-plugin-wasmedge_image-0.14.1-manylinux2014_x86_64.tar.gz".to_string(),
        "WasmEdge-0.14.1-ubuntu20.04_x86_64.tar.gz".to_string(),
        "WasmEdge-plugin-short.tar.gz".to_string(),
    ];
    let listed = m.list_available_plugins(&assets);
    assert_eq!(
        listed,
        vec![
            ("wasi_crypto".to_string(), "0.14.1".to_string(), true),
            ("wasmedge_image".to_string(), "0.14.1".to_string(), false),
        ]
    );
}

#[test]
fn library_name_mapping_is_fixed_for_known_families() {
    let m = linux_manager();
    assert_eq!(m.plugin_library_name("wasi-nn-ggml"), "libwasmedgePluginWasiNN.so");
    assert_eq!(m.plugin_library_name("wasi-nn-pytorch"), "libwasmedgePluginWasiNN.so");
    assert_eq!(m.plugin_library_name("wasi-crypto"), "libwasmedgePluginWasiCrypto.so");
}

#[test]
fn library_name_title_cases_wasmedge_names() {
    let m = linux_manager();
    assert_eq!(m.plugin_library_name("wasmedge-image"), "libwasmedgePluginImage.so");
    assert_eq!(
        m.plugin_library_name("wasmedge-tensorflowlite"),
        "libwasmedgePluginTensorflowlite.so"
    );
    assert_eq!(m.plugin_library_name("other"), "libwasmedgePluginother.so");
}

#[test]
fn library_name_extension_follows_the_platform() {
    let darwin = manager(OS::Darwin, Architecture::Aarch64);
    assert_eq!(darwin.plugin_library_name("wasi-nn-ggml"), "libwasmedgePluginWasiNN.dylib");
    let windows = manager(OS::Windows, Architecture::X86_64);
    assert_eq!(windows.plugin_library_name("wasmedge-image"), "libwasmedgePluginImage.dll");
}

#[test]
fn removal_deletes_exact_matches_only() {
    let m = linux_manager();
    let listing = vec![
        "libwasmedgePluginWasiNN.so".to_string(),
        "libwasmedgePluginWasiCrypto.so".to_string(),
        "notes.txt".to_string(),
    ];
    let matched = m.remove_plugin("wasi-nn-ggml", &listing).unwrap();
    assert_eq!(matched, vec!["libwasmedgePluginWasiNN.so".to_string()]);
}

#[test]
fn removal_of_an_absent_plugin_is_an_error() {
    let m = linux_manager();
    let listing = vec!["libwasmedgePluginWasiCrypto.so".to_string()];
    match m.remove_plugin("wasi-nn-ggml", &listing) {
        Err(PluginError::NotInstalled { plugin }) => assert_eq!(plugin, "wasi-nn-ggml"),
        other => panic!("expected a not-installed error, got {:?}", other),
    }
}

#[test]
fn platform_string_matches_the_release_token() {
    let m = linux_manager();
    assert_eq!(m.get_platform_string(), "ubuntu20.04_x86_64");
}
