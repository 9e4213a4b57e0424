use apkext::assets::{AssetManager, CacheProbe, FsAction, Jar};
use apkext::error::Error;

fn manager() -> AssetManager {
    AssetManager::at("/home/u/.config/apkext".to_string())
}

fn probe(apktool_jar: bool, procyon_jar: bool, marker: Option<&str>) -> CacheProbe {
    CacheProbe { apktool_jar, procyon_jar, marker: marker.map(str::to_string) }
}

fn dir(path: &str) -> FsAction {
    FsAction::CreateDirAll { path: path.to_string() }
}

fn tool(path: &str, index: usize) -> FsAction {
    FsAction::WriteTool { path: path.to_string(), index }
}

fn bits(path: &str) -> FsAction {
    FsAction::MakeExecutable { path: path.to_string() }
}

#[test]
fn cache_with_another_version_is_stale() {
    assert!(manager().needs_extraction(&probe(true, true, Some("0.9.0")), "1.0.0"));
}

#[test]
fn cache_with_the_running_version_is_fresh() {
    assert!(!manager().needs_extraction(&probe(true, true, Some("1.0.0")), "1.0.0"));
}

#[test]
fn cache_without_marker_is_stale() {
    assert!(manager().needs_extraction(&probe(true, true, None), "1.0.0"));
}

#[test]
fn cache_without_a_jar_is_stale() {
    assert!(manager().needs_extraction(&probe(false, true, Some("1.0.0")), "1.0.0"));
    assert!(manager().needs_extraction(&probe(true, false, Some("1.0.0")), "1.0.0"));
    assert!(manager().needs_extraction(&probe(false, false, None), "1.0.0"));
}

#[test]
fn marker_is_compared_letter_for_letter() {
    assert!(manager().needs_extraction(&probe(true, true, Some("1.0.0\n")), "1.0.0"));
    assert!(manager().needs_extraction(&probe(true, true, Some("")), "1.0.0"));
    assert!(manager().needs_extraction(&probe(true, true, Some("1.0")), "1.0.0"));
}

#[test]
fn stale_cache_is_filled_whole_and_marked_last() {
    let manager = manager();
    let stale = probe(true, true, Some("0.9.0"));
    assert!(manager.needs_extraction(&stale, "1.0.0"));
    let files = vec![
        "prebuilt/linux/aapt_64".to_string(),
        "dex-tools-v2.4/d2j-dex2jar.sh".to_string(),
        "dex-tools-v2.4/d2j-dex2jar.bat".to_string(),
    ];
    let plan = manager.extract_all(&files, "1.0.0", true);
    let expected = vec![
        dir("/home/u/.config/apkext/jars"),
        FsAction::WriteJar {
            path: "/home/u/.config/apkext/jars/apktool.jar".to_string(),
            jar: Jar::Apktool,
        },
        FsAction::WriteJar {
            path: "/home/u/.config/apkext/jars/procyon-decompiler-v0.6.1.jar".to_string(),
            jar: Jar::Procyon,
        },
        dir("/home/u/.config/apkext"),
        dir("/home/u/.config/apkext/prebuilt/linux"),
        tool("/home/u/.config/apkext/prebuilt/linux/aapt_64", 0),
        dir("/home/u/.config/apkext/dex-tools-v2.4"),
        tool("/home/u/.config/apkext/dex-tools-v2.4/d2j-dex2jar.sh", 1),
        bits("/home/u/.config/apkext/dex-tools-v2.4/d2j-dex2jar.sh"),
        dir("/home/u/.config/apkext/dex-tools-v2.4"),
        tool("/home/u/.config/apkext/dex-tools-v2.4/d2j-dex2jar.bat", 2),
        FsAction::WriteVersion {
            path: "/home/u/.config/apkext/.version".to_string(),
            version: "1.0.0".to_string(),
        },
    ];
    assert_eq!(plan, expected);
}

#[test]
fn version_marker_is_written_last_and_once() {
    let files = vec!["a.sh".to_string(), "b/c.txt".to_string(), "d/e/f.sh".to_string()];
    for posix in [true, false] {
        let plan = manager().extract_all(&files, "2.3.4", posix);
        let markers = plan.iter().filter(|a| matches!(a, FsAction::WriteVersion { .. })).count();
        assert_eq!(markers, 1);
        assert_eq!(
            plan.last(),
            Some(&FsAction::WriteVersion {
                path: "/home/u/.config/apkext/.version".to_string(),
                version: "2.3.4".to_string(),
            })
        );
    }
}

#[test]
fn empty_bundle_still_writes_jars_and_marker() {
    let plan = manager().extract_all(&Vec::new(), "1.0.0", true);
    assert_eq!(plan.len(), 5);
    assert_eq!(plan[3], dir("/home/u/.config/apkext"));
    assert!(matches!(plan[4], FsAction::WriteVersion { .. }));
}

#[test]
fn scripts_are_made_executable_right_after_they_are_written() {
    let files = vec!["tools/run.sh".to_string(), "tools/readme.txt".to_string()];
    let plan = manager().extract_tools(&files, true);
    assert_eq!(
        plan,
        vec![
            dir("/home/u/.config/apkext"),
            dir("/home/u/.config/apkext/tools"),
            tool("/home/u/.config/apkext/tools/run.sh", 0),
            bits("/home/u/.config/apkext/tools/run.sh"),
            dir("/home/u/.config/apkext/tools"),
            tool("/home/u/.config/apkext/tools/readme.txt", 1),
        ]
    );
}

#[test]
fn no_permission_bits_are_set_where_there_are_none() {
    let files = vec!["tools/run.sh".to_string()];
    let plan = manager().extract_tools(&files, false);
    assert_eq!(
        plan,
        vec![
            dir("/home/u/.config/apkext"),
            dir("/home/u/.config/apkext/tools"),
            tool("/home/u/.config/apkext/tools/run.sh", 0),
        ]
    );
}

#[test]
fn only_the_extension_sh_marks_a_script() {
    let manager = manager();
    assert_eq!(manager.extract_file("run.sh", 7, true).len(), 3);
    assert_eq!(manager.extract_file("run.bash", 7, true).len(), 2);
    assert_eq!(manager.extract_file("sh", 7, true).len(), 2);
    assert_eq!(manager.extract_file("run.sh.txt", 7, true).len(), 2);
    assert_eq!(
        manager.extract_file("run.sh", 7, true),
        vec![
            dir("/home/u/.config/apkext"),
            tool("/home/u/.config/apkext/run.sh", 7),
            bits("/home/u/.config/apkext/run.sh"),
        ]
    );
}

#[test]
fn jars_are_written_below_the_jars_directory() {
    assert_eq!(
        manager().extract_jars(),
        vec![
            dir("/home/u/.config/apkext/jars"),
            FsAction::WriteJar {
                path: "/home/u/.config/apkext/jars/apktool.jar".to_string(),
                jar: Jar::Apktool,
            },
            FsAction::WriteJar {
                path: "/home/u/.config/apkext/jars/procyon-decompiler-v0.6.1.jar".to_string(),
                jar: Jar::Procyon,
            },
        ]
    );
    assert_eq!(Jar::Apktool.file_name(), "apktool.jar");
    assert_eq!(Jar::Procyon.file_name(), "procyon-decompiler-v0.6.1.jar");
}

#[test]
fn version_file_is_named_dot_version() {
    assert_eq!(manager().version_file_path(), "/home/u/.config/apkext/.version");
    assert_eq!(
        manager().write_version_file("0.1.0"),
        FsAction::WriteVersion {
            path: "/home/u/.config/apkext/.version".to_string(),
            version: "0.1.0".to_string(),
        }
    );
}

#[test]
fn paths_are_composed_below_the_cache_root() {
    let manager = manager();
    assert_eq!(manager.get_tools_path(), "/home/u/.config/apkext");
    assert_eq!(manager.get_jar_path("apktool.jar"), "/home/u/.config/apkext/jars/apktool.jar");
    assert_eq!(
        manager.get_script_path("dex-tools-v2.4/d2j-dex2jar.sh"),
        "/home/u/.config/apkext/dex-tools-v2.4/d2j-dex2jar.sh"
    );
    assert_ne!(manager.get_script_path("framework"), "/home/u/.config/apkext");
    assert_ne!(manager.get_script_path("framework"), "framework");
}

#[test]
fn cache_lies_below_the_configuration_directory() {
    let found = AssetManager::in_config_dir(Some("/home/u/.config".to_string()));
    assert_eq!(found, Ok(manager()));
    assert_eq!(
        AssetManager::get_config_dir(Some("/home/u/.config".to_string())),
        Ok("/home/u/.config/apkext".to_string())
    );
}

#[test]
fn a_system_without_configuration_directory_has_no_cache() {
    assert_eq!(AssetManager::in_config_dir(None), Err(Error::NoConfigDir));
    assert_eq!(AssetManager::get_config_dir(None), Err(Error::NoConfigDir));
    assert_eq!(Error::NoConfigDir.message(), "Could not determine config directory");
}

#[test]
fn the_cache_of_this_system_is_named_after_the_program() {
    match AssetManager::new() {
        Ok(manager) => {
            let root = manager.get_tools_path().to_string();
            assert!(root.ends_with("apkext"), "{root}");
            assert!(root.len() > "apkext".len(), "{root}");
        }
        Err(error) => assert_eq!(error, Error::NoConfigDir),
    }
}

#[test]
fn a_failed_write_names_its_path_and_reason() {
    let manager = manager();
    assert_eq!(manager.create_root(), dir("/home/u/.config/apkext"));
    let plan = manager.extract_all(&vec!["tools/run.sh".to_string()], "1.0.0", true);
    let paths: Vec<&str> = plan.iter().map(|action| action.path()).collect();
    assert_eq!(
        paths,
        vec![
            "/home/u/.config/apkext/jars",
            "/home/u/.config/apkext/jars/apktool.jar",
            "/home/u/.config/apkext/jars/procyon-decompiler-v0.6.1.jar",
            "/home/u/.config/apkext",
            "/home/u/.config/apkext/tools",
            "/home/u/.config/apkext/tools/run.sh",
            "/home/u/.config/apkext/tools/run.sh",
            "/home/u/.config/apkext/.version",
        ]
    );
    let error = plan[1].failed("No space left on device".to_string());
    assert_eq!(
        error,
        Error::CacheWrite {
            path: "/home/u/.config/apkext/jars/apktool.jar".to_string(),
            reason: "No space left on device".to_string(),
        }
    );
    assert_eq!(
        error.message(),
        "Failed to extract /home/u/.config/apkext/jars/apktool.jar: No space left on device"
    );
}
