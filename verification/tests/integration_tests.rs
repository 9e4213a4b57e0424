use apkext::apk::builder::PackState;
use apkext::apk::extractor::{Overall, UnpackPhase, UnpackState};
use apkext::apk::{Builder, Extractor};
use apkext::archive::extract_dex;
use apkext::assets::AssetManager;
use apkext::config::{Config, JavaProbe};
use apkext::error::Error;
use apkext::mcp::Server;
use apkext::pipeline::{Action, Event, Step};
use apkext::platform::Platform;
use apkext::process::ProcessOutcome;
use std::io::Write;

fn linux() -> Platform {
    Platform { os: "linux".to_string(), arch: "x86_64".to_string() }
}

fn assets() -> AssetManager {
    AssetManager::at("/cache".to_string())
}

fn config() -> Config {
    let probe = JavaProbe { java_home: None, home_runtime_exists: false, on_search_path: true };
    let mut config = Config::load(probe, &linux());
    config.update_tool_paths(assets().get_tools_path(), &linux());
    config
}

fn sample_apk() -> Vec<u8> {
    let mut writer = zip::ZipWriter::new(std::io::Cursor::new(Vec::new()));
    let options = zip::write::SimpleFileOptions::default();
    writer.start_file("AndroidManifest.xml", options).unwrap();
    writer.write_all(&[3u8; 256]).unwrap();
    writer.start_file("classes.dex", options).unwrap();
    writer.write_all(b"dex\n035\0 sample payload").unwrap();
    writer.start_file("resources.arsc", options).unwrap();
    writer.write_all(&[7u8; 64]).unwrap();
    writer.finish().unwrap().into_inner()
}

fn exited(success: bool, stdout: &str, stderr: &str) -> Event {
    Event::Ran {
        outcome: ProcessOutcome::Exited {
            success,
            stdout: stdout.to_string(),
            stderr: stderr.to_string(),
        },
    }
}

#[test]
fn test_binary_exists() {
    let extractor = Extractor::new(config(), assets());
    let builder = Builder::new(config(), assets(), linux());
    let server = Server::new(config(), assets()).expect("the server should start");
    let first = extractor.unpack("sample.apk");
    assert_eq!(first.action, Action::Probe { path: "sample.apk".to_string() });
    let first = builder.pack("sample/unpacked", "rebuilt.apk");
    assert_eq!(first.action, Action::Probe { path: "sample/unpacked".to_string() });
    assert_eq!(
        server.startup_text(),
        "MCP Server starting with Java: java\nMCP functionality will be implemented\n"
    );
}

#[test]
fn test_apk_exists() {
    let payload = extract_dex(sample_apk()).expect("the sample archive should hold a payload");
    assert_eq!(payload, b"dex\n035\0 sample payload".to_vec());
}

#[test]
fn test_error_handling_missing_input() {
    let extractor = Extractor::new(config(), assets());
    let step = extractor.unpack("work/nonexistent.apk");
    assert_eq!(step.action, Action::Probe { path: "work/nonexistent.apk".to_string() });
    let step = extractor.advance("work/nonexistent.apk", step.state, Event::Exists { present: false });
    let Action::Finish { error: Some(error) } = step.action else {
        panic!("Should fail for missing APK");
    };
    assert!(!error.message().is_empty(), "Should provide error message for missing APK");
    assert_eq!(error.message(), "APK file does not exist: work/nonexistent.apk");
    assert_eq!(step.state.phase, UnpackPhase::Finished);
    assert_eq!(step.state.report.overall(), Overall::HardFailed);
}

#[test]
fn test_error_handling_invalid_apk() {
    let extractor = Extractor::new(config(), assets());
    let apk = "work/fake.apk";
    let mut step = extractor.unpack(apk);
    let answers = vec![
        Event::Exists { present: true },
        Event::Exists { present: false },
        Event::Done,
        exited(false, "", "brut.androlib.exceptions.AndrolibException: not an APK"),
    ];
    for answer in answers {
        assert!(!matches!(step.action, Action::Finish { .. }));
        step = extractor.advance(apk, step.state, answer);
    }
    let Action::Finish { error: Some(error) } = step.action else {
        panic!("Should fail for invalid APK");
    };
    assert!(!error.message().is_empty(), "Should provide error message for invalid APK");
    assert_eq!(
        error.message(),
        "Apktool failed: brut.androlib.exceptions.AndrolibException: not an APK"
    );
    assert!(!step.state.report.succeeded());
}

/// Plays the part of a machine on which every tool works: answers each
/// action the way a healthy file system and healthy tools would.
fn healthy_answer(action: &Action, existing: &[&str], archive: &[u8]) -> Event {
    match action {
        Action::Probe { path } => Event::Exists { present: existing.contains(&path.as_str()) },
        Action::RemoveTree { .. }
        | Action::MakeDirs { .. }
        | Action::RemoveFile { .. }
        | Action::WriteFile { .. } => Event::Done,
        Action::ReadFile { .. } => Event::Contents { bytes: archive.to_vec() },
        Action::Run { command } => exited(true, &format!("ran {}\n", command.program), ""),
        Action::Finish { .. } => unreachable!(),
    }
}

fn unpack_on_healthy_machine(apk: &str, existing: &[&str]) -> (Vec<Action>, Step<UnpackState>) {
    let extractor = Extractor::new(config(), assets());
    let archive = sample_apk();
    let mut asked = Vec::new();
    let mut step = extractor.unpack(apk);
    for _ in 0..64 {
        if matches!(step.action, Action::Finish { .. }) {
            return (asked, step);
        }
        let answer = healthy_answer(&step.action, existing, &archive);
        asked.push(step.action.clone());
        step = extractor.advance(apk, step.state, answer);
    }
    panic!("the pipeline did not come to an end");
}

fn pack_on_healthy_machine(source: &str, output: &str, existing: &[&str]) -> (Vec<Action>, Step<PackState>) {
    let builder = Builder::new(config(), assets(), linux());
    let mut asked = Vec::new();
    let mut step = builder.pack(source, output);
    for _ in 0..64 {
        if matches!(step.action, Action::Finish { .. }) {
            return (asked, step);
        }
        let answer = healthy_answer(&step.action, existing, &[]);
        asked.push(step.action.clone());
        step = builder.advance(source, output, step.state, answer);
    }
    panic!("the pipeline did not come to an end");
}

#[test]
fn unpacking_a_sample_decodes_into_the_unpacked_directory() {
    let (asked, last) = unpack_on_healthy_machine("sample.apk", &["sample.apk"]);
    assert_eq!(last.action, Action::Finish { error: None });
    assert_eq!(last.state.report.overall(), Overall::Success);
    let decode = asked
        .iter()
        .find_map(|action| match action {
            Action::Run { command } if command.args.contains(&"d".to_string()) => Some(command),
            _ => None,
        })
        .expect("the resource tool should be run");
    assert_eq!(decode.program, "java");
    assert_eq!(
        decode.args,
        vec![
            "-jar",
            "/cache/jars/apktool.jar",
            "d",
            "--frame-path",
            "/cache/framework",
            "-f",
            "sample.apk",
            "-o",
            "sample/unpacked",
        ]
    );
}

#[test]
fn packing_the_unpacked_sample_builds_the_archive_asked_for() {
    let (asked, last) = pack_on_healthy_machine(
        "sample/unpacked",
        "rebuilt.apk",
        &["sample/unpacked", "sample/unpacked/apktool.yml"],
    );
    assert_eq!(last.action, Action::Finish { error: None });
    let Some(Action::Run { command }) = asked.last() else {
        panic!("the resource tool should be run last");
    };
    assert_eq!(
        command.args,
        vec![
            "-jar",
            "/cache/jars/apktool.jar",
            "b",
            "--frame-path",
            "/cache/framework",
            "-aapt",
            "/cache/prebuilt/linux/aapt_64",
            "sample/unpacked",
            "-o",
            "rebuilt.apk",
        ]
    );
}

#[test]
fn unpack_pack_unpack_runs_through() {
    let (_, first) = unpack_on_healthy_machine("work/sample.apk", &["work/sample.apk"]);
    assert_eq!(first.action, Action::Finish { error: None });
    let (_, packed) = pack_on_healthy_machine(
        "work/sample",
        "work/rebuilt.apk",
        &["work/sample", "work/sample/unpacked/apktool.yml"],
    );
    assert_eq!(packed.action, Action::Finish { error: None });
    let (asked, second) = unpack_on_healthy_machine("work/rebuilt.apk", &["work/rebuilt.apk"]);
    assert_eq!(second.action, Action::Finish { error: None });
    assert!(asked.contains(&Action::MakeDirs { path: "work/rebuilt".to_string() }));
}

#[test]
fn a_missing_archive_creates_nothing() {
    let (asked, last) = unpack_on_healthy_machine("missing.apk", &[]);
    assert_eq!(asked, vec![Action::Probe { path: "missing.apk".to_string() }]);
    assert_eq!(
        last.action,
        Action::Finish { error: Some(Error::ArchiveMissing { path: "missing.apk".to_string() }) }
    );
    assert_eq!(last.stdout, "");
}
