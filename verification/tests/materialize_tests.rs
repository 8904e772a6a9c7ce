use spwn_cmpl::materialize::{plan_materialization, PlatformConfig};
use spwn_cmpl::trailer::Trailer;

fn windows_config() -> PlatformConfig {
    PlatformConfig {
        exe_ext: b"exe".to_vec(),
        script_ext: b"bat".to_vec(),
        quiet: b"@".to_vec(),
    }
}

fn plain_config() -> PlatformConfig {
    PlatformConfig {
        exe_ext: Vec::new(),
        script_ext: b"bash".to_vec(),
        quiet: Vec::new(),
    }
}

#[test]
fn concrete_scenario() {
    // exe_size 4, empty archive, args "--flag value"
    let t = Trailer {
        exe_size: 4,
        zip_size: 0,
        args: b"--flag value".to_vec(),
        archive_payload: Vec::new(),
        exe_payload: vec![0x01, 0x02, 0x03, 0x04],
    };
    let p = plan_materialization(&t, &windows_config());
    assert_eq!(p.exe_name, b"run.exe".to_vec());
    assert_eq!(p.exe_contents.len(), 4);
    assert_eq!(p.exe_contents, vec![0x01, 0x02, 0x03, 0x04]);
    assert_eq!(p.script_name, b"start.bat".to_vec());
    assert_eq!(p.script_contents, b"@run.exe --flag value".to_vec());
}

#[test]
fn plain_platform_names() {
    let t = Trailer {
        exe_size: 1,
        zip_size: 0,
        args: b"-v".to_vec(),
        archive_payload: Vec::new(),
        exe_payload: vec![7],
    };
    let p = plan_materialization(&t, &plain_config());
    assert_eq!(p.exe_name, b"run.".to_vec());
    assert_eq!(p.script_name, b"start.bash".to_vec());
    assert_eq!(p.script_contents, b"run. -v".to_vec());
}

#[test]
fn repeated_planning_is_identical() {
    let t = Trailer {
        exe_size: 2,
        zip_size: 1,
        args: b"a".to_vec(),
        archive_payload: vec![9],
        exe_payload: vec![1, 2],
    };
    let cfg = windows_config();
    let p1 = plan_materialization(&t, &cfg);
    let p2 = plan_materialization(&t, &cfg);
    assert_eq!(p1.exe_contents, p2.exe_contents);
    assert_eq!(p1.script_contents, p2.script_contents);
    assert_eq!(p1.exe_name, p2.exe_name);
    assert_eq!(p1.script_name, p2.script_name);
}
