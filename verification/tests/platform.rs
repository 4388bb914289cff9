use wasmedgeup::platform::{Architecture, LinuxDistro, Platform, PlatformError, OS};

#[test]
fn tokens_are_distinct_across_platforms() {
    let oses = [
        OS::Linux(LinuxDistro::Ubuntu),
        OS::Linux(LinuxDistro::Generic),
        OS::Darwin,
        OS::Windows,
    ];
    let arches = [Architecture::X86_64, Architecture::Aarch64];
    let mut tokens: Vec<String> = Vec::new();
    for os in &oses {
        for arch in &arches {
            let p = Platform::new(os.clone(), arch.clone());
            tokens.push(p.token());
        }
    }
    for i in 0..tokens.len() {
        for j in 0..tokens.len() {
            if i != j {
                assert_ne!(tokens[i], tokens[j]);
            }
        }
    }
}

#[test]
fn token_values() {
    let p = Platform::new(OS::Linux(LinuxDistro::Ubuntu), Architecture::X86_64);
    assert_eq!(p.token(), "ubuntu20.04_x86_64");
    let p = Platform::new(OS::Linux(LinuxDistro::Generic), Architecture::Aarch64);
    assert_eq!(p.token(), "manylinux2014_arm64");
    let p = Platform::new(OS::Darwin, Architecture::Aarch64);
    assert_eq!(p.token(), "darwin_arm64");
    let p = Platform::new(OS::Windows, Architecture::X86_64);
    assert_eq!(p.token(), "windows_x86_64");
}

#[test]
fn release_package_name() {
    let p = Platform::new(OS::Linux(LinuxDistro::Ubuntu), Architecture::X86_64);
    assert_eq!(p.get_release_package_name("0.14.1"), "ubuntu20.04_x86_64.tar.gz");
}

#[test]
fn arch_from_str_accepts_known_spellings() {
    assert_eq!(Architecture::from_str("x86_64").unwrap(), Architecture::X86_64);
    assert_eq!(Architecture::from_str("amd64").unwrap(), Architecture::X86_64);
    assert_eq!(Architecture::from_str("aarch64").unwrap(), Architecture::Aarch64);
    assert_eq!(Architecture::from_str("arm64").unwrap(), Architecture::Aarch64);
    assert_eq!(Architecture::from_str("AArch64").unwrap(), Architecture::Aarch64);
    assert_eq!(Architecture::from_str("AMD64").unwrap(), Architecture::X86_64);
}

#[test]
fn arch_from_str_rejects_unknown_with_raw_string() {
    match Architecture::from_str("riscv64") {
        Err(PlatformError::UnsupportedArch(raw)) => assert_eq!(raw, "riscv64"),
        other => panic!("expected an unsupported-architecture error, got {:?}", other),
    }
}

#[test]
fn os_from_str_accepts_known_spellings() {
    assert_eq!(OS::from_str("linux").unwrap(), OS::Linux(LinuxDistro::Generic));
    assert_eq!(OS::from_str("ubuntu").unwrap(), OS::Linux(LinuxDistro::Ubuntu));
    assert_eq!(OS::from_str("Darwin").unwrap(), OS::Darwin);
    assert_eq!(OS::from_str("Windows").unwrap(), OS::Windows);
    assert_eq!(OS::from_str("UBUNTU").unwrap(), OS::Linux(LinuxDistro::Ubuntu));
}

#[test]
fn os_from_str_rejects_unknown_with_raw_string() {
    match OS::from_str("plan9") {
        Err(PlatformError::UnsupportedOS(raw)) => assert_eq!(raw, "plan9"),
        other => panic!("expected an unsupported-os error, got {:?}", other),
    }
}

#[test]
fn os_detect_reads_release_info() {
    let ubuntu = "NAME=\"Ubuntu\"\nVERSION=\"22.04\"\n";
    assert_eq!(OS::detect("linux", Some(ubuntu)).unwrap(), OS::Linux(LinuxDistro::Ubuntu));
    let debian = "NAME=\"Debian GNU/Linux\"\n";
    assert_eq!(OS::detect("linux", Some(debian)).unwrap(), OS::Linux(LinuxDistro::Generic));
    assert_eq!(OS::detect("linux", None).unwrap(), OS::Linux(LinuxDistro::Generic));
    assert_eq!(OS::detect("macos", None).unwrap(), OS::Darwin);
    assert_eq!(OS::detect("windows", None).unwrap(), OS::Windows);
}

#[test]
fn platform_detect_combines_both() {
    let p = Platform::detect("linux", "aarch64", None).unwrap();
    assert_eq!(p.os, OS::Linux(LinuxDistro::Generic));
    assert_eq!(p.arch, Architecture::Aarch64);
    match Platform::detect("solaris", "x86_64", None) {
        Err(PlatformError::UnsupportedOS(raw)) => assert_eq!(raw, "solaris"),
        other => panic!("expected an unsupported-os error, got {:?}", other),
    }
    match Platform::detect("linux", "mips", None) {
        Err(PlatformError::UnsupportedArch(raw)) => assert_eq!(raw, "mips"),
        other => panic!("expected an unsupported-architecture error, got {:?}", other),
    }
}

#[test]
fn display_names() {
    assert_eq!(OS::Linux(LinuxDistro::Ubuntu).name(), "Ubuntu");
    assert_eq!(OS::Linux(LinuxDistro::Generic).name(), "Linux");
    assert_eq!(OS::Darwin.name(), "Darwin");
    assert_eq!(OS::Windows.name(), "Windows");
    assert_eq!(Architecture::X86_64.name(), "x86_64");
    assert_eq!(Architecture::Aarch64.name(), "arm64");
}
