use apkext::config::{Config, JavaConfig, JavaProbe, ToolsConfig};
use apkext::error::Error;
use apkext::platform::Platform;
use apkext::process::ProcessOutcome;

fn on(os: &str, arch: &str) -> Platform {
    Platform { os: os.to_string(), arch: arch.to_string() }
}

fn probe(java_home: Option<&str>, home_runtime_exists: bool, on_search_path: bool) -> JavaProbe {
    JavaProbe { java_home: java_home.map(str::to_string), home_runtime_exists, on_search_path }
}

fn exited(success: bool) -> ProcessOutcome {
    ProcessOutcome::Exited {
        success,
        stdout: String::new(),
        stderr: "openjdk version \"17.0.1\"".to_string(),
    }
}

#[test]
fn the_runtime_below_java_home_comes_first() {
    let linux = on("linux", "x86_64");
    let found = JavaConfig::find_java(&probe(Some("/opt/jdk"), true, true), &linux);
    assert_eq!(found, Some("/opt/jdk/bin/java".to_string()));
}

#[test]
fn the_search_path_comes_second() {
    let linux = on("linux", "x86_64");
    assert_eq!(
        JavaConfig::find_java(&probe(Some("/opt/jdk"), false, true), &linux),
        Some("java".to_string())
    );
    assert_eq!(JavaConfig::find_java(&probe(None, false, true), &linux), Some("java".to_string()));
    assert_eq!(JavaConfig::find_java(&probe(None, true, true), &linux), Some("java".to_string()));
}

#[test]
fn no_runtime_is_found_where_there_is_none() {
    let linux = on("linux", "x86_64");
    assert_eq!(JavaConfig::find_java(&probe(None, false, false), &linux), None);
    assert_eq!(JavaConfig::find_java(&probe(Some("/opt/jdk"), false, false), &linux), None);
}

#[test]
fn the_runtime_is_java_exe_on_windows() {
    let windows = on("windows", "x86_64");
    let candidate = JavaConfig::home_candidate("jdk", &windows);
    assert!(candidate.starts_with("jdk"));
    assert!(candidate.ends_with("java.exe"));
    assert_eq!(JavaConfig::home_candidate("/opt/jdk", &on("macos", "aarch64")), "/opt/jdk/bin/java");
}

#[test]
fn detection_falls_back_to_the_bare_command() {
    let linux = on("linux", "x86_64");
    let java = JavaConfig::detect(probe(Some("/opt/jdk"), false, false), &linux);
    assert_eq!(java.java_path, "java");
    assert_eq!(java.java_home, Some("/opt/jdk".to_string()));
    let java = JavaConfig::detect(probe(None, false, false), &linux);
    assert_eq!(java, JavaConfig { java_path: "java".to_string(), java_home: None });
}

#[test]
fn detection_keeps_what_it_found() {
    let linux = on("linux", "x86_64");
    let java = JavaConfig::detect(probe(Some("/opt/jdk"), true, false), &linux);
    assert_eq!(
        java,
        JavaConfig {
            java_path: "/opt/jdk/bin/java".to_string(),
            java_home: Some("/opt/jdk".to_string()),
        }
    );
}

#[test]
fn the_version_query_asks_for_the_version() {
    let java = JavaConfig { java_path: "/opt/jdk/bin/java".to_string(), java_home: None };
    let query = java.version_query();
    assert_eq!(query.program, "/opt/jdk/bin/java");
    assert_eq!(query.args, vec!["-version"]);
}

#[test]
fn a_runtime_that_answers_is_usable() {
    let java = JavaConfig { java_path: "java".to_string(), java_home: None };
    assert_eq!(java.check_java(&exited(true)), Ok(()));
}

#[test]
fn a_runtime_that_exits_badly_is_unusable() {
    let java = JavaConfig { java_path: "java".to_string(), java_home: None };
    let error = java.check_java(&exited(false)).unwrap_err();
    assert_eq!(error, Error::JavaUnusable);
    assert_eq!(error.message(), "Java is not working properly");
}

#[test]
fn a_runtime_that_does_not_start_is_named() {
    let java = JavaConfig { java_path: "/opt/jdk/bin/java".to_string(), java_home: None };
    let outcome = ProcessOutcome::NotStarted { reason: "No such file or directory".to_string() };
    let error = java.check_java(&outcome).unwrap_err();
    assert_eq!(
        error,
        Error::SpawnFailed {
            program: "/opt/jdk/bin/java".to_string(),
            reason: "No such file or directory".to_string(),
        }
    );
    assert_eq!(error.message(), "Failed to run /opt/jdk/bin/java: No such file or directory");
}

#[test]
fn tools_start_out_as_bare_names() {
    assert_eq!(
        ToolsConfig::default(),
        ToolsConfig {
            apktool_jar: "apktool.jar".to_string(),
            procyon_jar: "procyon-decompiler-v0.6.1.jar".to_string(),
            aapt_path: "aapt".to_string(),
            dex2jar_path: "d2j-dex2jar.sh".to_string(),
        }
    );
}

#[test]
fn a_loaded_configuration_holds_runtime_and_bare_names() {
    let config = Config::load(probe(Some("/opt/jdk"), true, true), &on("linux", "x86_64"));
    assert_eq!(config.java.java_path, "/opt/jdk/bin/java");
    assert_eq!(config.java.java_home, Some("/opt/jdk".to_string()));
    assert_eq!(config.tools, ToolsConfig::default());
}

#[test]
fn tool_paths_point_into_the_tool_tree() {
    let linux = on("linux", "x86_64");
    let mut config = Config::load(probe(None, false, true), &linux);
    let java = config.java.clone();
    config.update_tool_paths("/cache", &linux);
    assert_eq!(config.java, java);
    assert_eq!(
        config.tools,
        ToolsConfig {
            apktool_jar: "/cache/jars/apktool.jar".to_string(),
            procyon_jar: "/cache/jars/procyon-decompiler-v0.6.1.jar".to_string(),
            aapt_path: "/cache/prebuilt/linux/aapt_64".to_string(),
            dex2jar_path: "/cache/dex-tools-v2.4/d2j-dex2jar.sh".to_string(),
        }
    );
}

#[test]
fn tool_paths_follow_the_platform() {
    let mut config = Config::load(probe(None, false, true), &on("linux", "x86_64"));
    config.update_tool_paths("/cache", &on("macos", "aarch64"));
    assert_eq!(config.tools.aapt_path, "/cache/prebuilt/macosx/aapt_64");
    assert_eq!(config.tools.dex2jar_path, "/cache/dex-tools-v2.4/d2j-dex2jar.sh");
    config.update_tool_paths("/cache", &on("linux", "arm"));
    assert_eq!(config.tools.aapt_path, "/cache/prebuilt/linux/aapt");
    config.update_tool_paths("/cache", &on("plan9", "x86_64"));
    assert_eq!(config.tools.aapt_path, "/cache/prebuilt/linux/aapt_64");
    let windows = on("windows", "x86");
    assert!(config.get_aapt_path("cache", &windows).ends_with("aapt.exe"));
    assert!(config.get_dex2jar_path("cache", &windows).ends_with("d2j-dex2jar.bat"));
}
