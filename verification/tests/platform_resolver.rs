use apkext::platform::{aapt_relative_path, resolve, AaptBinary, Platform};

const ENUMERATION: [&str; 5] = [
    "prebuilt/linux/aapt_64",
    "prebuilt/linux/aapt",
    "prebuilt/macosx/aapt_64",
    "prebuilt/windows/aapt_64.exe",
    "prebuilt/windows/aapt.exe",
];

#[test]
fn linux_on_x86_64_gets_the_64_bit_linux_build() {
    assert_eq!(resolve("linux", "x86_64"), AaptBinary::Linux64);
    assert_eq!(aapt_relative_path("linux", "x86_64"), "prebuilt/linux/aapt_64");
}

#[test]
fn linux_on_another_processor_gets_the_plain_linux_build() {
    assert_eq!(resolve("linux", "aarch64"), AaptBinary::Linux);
    assert_eq!(aapt_relative_path("linux", "aarch64"), "prebuilt/linux/aapt");
    assert_eq!(aapt_relative_path("linux", "x86"), "prebuilt/linux/aapt");
}

#[test]
fn macos_gets_the_same_build_on_every_processor() {
    assert_eq!(resolve("macos", "x86_64"), AaptBinary::MacOs);
    assert_eq!(resolve("macos", "aarch64"), AaptBinary::MacOs);
    assert_eq!(aapt_relative_path("macos", "aarch64"), "prebuilt/macosx/aapt_64");
}

#[test]
fn windows_on_x86_64_gets_the_64_bit_windows_build() {
    assert_eq!(resolve("windows", "x86_64"), AaptBinary::Windows64);
    assert_eq!(aapt_relative_path("windows", "x86_64"), "prebuilt/windows/aapt_64.exe");
}

#[test]
fn windows_on_another_processor_gets_the_plain_windows_build() {
    assert_eq!(resolve("windows", "x86"), AaptBinary::Windows);
    assert_eq!(aapt_relative_path("windows", "x86"), "prebuilt/windows/aapt.exe");
}

#[test]
fn unknown_platform_falls_back_to_the_64_bit_linux_build() {
    assert_eq!(resolve("freebsd", "x86_64"), AaptBinary::Linux64);
    assert_eq!(resolve("", ""), AaptBinary::Linux64);
    assert_eq!(aapt_relative_path("haiku", "riscv64"), "prebuilt/linux/aapt_64");
}

#[test]
fn names_are_matched_exactly() {
    assert_eq!(resolve("Linux", "x86_64"), AaptBinary::Linux64);
    assert_eq!(resolve("linux", "X86_64"), AaptBinary::Linux);
    assert_eq!(resolve("windows ", "x86_64"), AaptBinary::Linux64);
}

#[test]
fn every_pair_resolves_to_one_path_of_the_enumeration() {
    let systems = ["linux", "macos", "windows", "freebsd", "android", "ios", ""];
    let processors = ["x86_64", "x86", "aarch64", "arm", "riscv64", ""];
    for os in systems {
        for arch in processors {
            let path = aapt_relative_path(os, arch);
            let hits = ENUMERATION.iter().filter(|known| **known == path).count();
            assert_eq!(hits, 1, "{os}/{arch} resolved to {path}");
            assert_eq!(resolve(os, arch).relative_path(), path);
        }
    }
}

#[test]
fn every_build_has_its_own_place() {
    let builds = [
        AaptBinary::Linux64,
        AaptBinary::Linux,
        AaptBinary::MacOs,
        AaptBinary::Windows64,
        AaptBinary::Windows,
    ];
    for (i, build) in builds.iter().enumerate() {
        assert_eq!(build.relative_path(), ENUMERATION[i]);
    }
}

#[test]
fn platform_knows_windows() {
    let windows = Platform { os: "windows".to_string(), arch: "x86_64".to_string() };
    let linux = Platform { os: "linux".to_string(), arch: "x86_64".to_string() };
    assert!(windows.is_windows());
    assert!(!linux.is_windows());
}
