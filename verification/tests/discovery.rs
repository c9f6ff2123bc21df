use rapidraw_agent::discover::{
    APP_IDENTIFIER, PORT_FILENAME, WaitStep, candidate_dirs, candidate_dirs_in, parse_port, port_file,
    port_file_path, publish_port, read_port, read_port_wait,
};
use std::path::PathBuf;

#[test]
fn port_filename_is_stable() {
    assert_eq!(PORT_FILENAME, "rapidraw-agent-port");
}

#[test]
fn candidate_dirs_contains_app_identifier() {
    let dirs = candidate_dirs();
    assert!(!dirs.is_empty(), "should have at least one candidate dir");
    for d in &dirs {
        assert!(
            d.to_string_lossy().contains(APP_IDENTIFIER),
            "{d:?} missing app identifier"
        );
    }
}

#[test]
fn read_port_returns_none_when_no_file() {
    let files: Vec<Option<String>> = candidate_dirs().iter().map(|_| None).collect();
    assert_eq!(read_port(&files), None);
    assert_eq!(read_port(&Vec::new()), None);
}

#[test]
fn read_port_parses_a_written_file() {
    let dir = candidate_dirs().into_iter().next().unwrap();
    assert_eq!(port_file(&dir), dir.join("rapidraw-agent-port"));
    let mut files: Vec<Option<String>> = candidate_dirs().iter().map(|_| None).collect();
    files[0] = Some("65535".to_string());
    assert_eq!(read_port(&files), Some(65535));
}

#[test]
fn candidates_come_in_order() {
    let dirs = candidate_dirs_in(
        Some(PathBuf::from("/home/ann")),
        Some(PathBuf::from("/data")),
        Some(PathBuf::from("/local")),
    );
    let expected = [
        "/home/ann/Library/Application Support/io.github.CyberTimon.RapidRAW",
        "/home/ann/.local/share/io.github.CyberTimon.RapidRAW",
        "/home/ann/AppData/Roaming/io.github.CyberTimon.RapidRAW",
        "/data/io.github.CyberTimon.RapidRAW",
        "/local/io.github.CyberTimon.RapidRAW",
    ];
    assert_eq!(dirs, expected.map(PathBuf::from));
}

#[test]
fn no_directories_give_no_candidates() {
    assert!(candidate_dirs_in(None, None, None).is_empty());
    let dirs = candidate_dirs_in(None, None, Some(PathBuf::from("/local")));
    assert_eq!(dirs, [PathBuf::from("/local/io.github.CyberTimon.RapidRAW")]);
}

#[test]
fn data_directory_is_a_candidate() {
    let data = PathBuf::from("/data");
    let server_dir = data.join(APP_IDENTIFIER);
    let with_home = candidate_dirs_in(Some(PathBuf::from("/h")), Some(data.clone()), None);
    assert!(with_home.contains(&server_dir));
    assert!(candidate_dirs_in(None, Some(data), None).contains(&server_dir));
}

#[test]
fn port_file_path_stands_in_the_data_directory() {
    assert_eq!(
        port_file_path(Ok(PathBuf::from("/data/app"))),
        Ok(PathBuf::from("/data/app/rapidraw-agent-port"))
    );
    assert_eq!(
        port_file_path(Err("no home".to_string())),
        Err("agent_server: app_data_dir unavailable: no home".to_string())
    );
}

#[test]
fn port_is_published_through_a_draft() {
    let publication = publish_port(Ok(PathBuf::from("/data/app")), 8731).ok().unwrap();
    assert_eq!(publication.path, PathBuf::from("/data/app/rapidraw-agent-port"));
    assert_eq!(publication.draft, PathBuf::from("/data/app/rapidraw-agent-port.tmp"));
    assert_eq!(publication.draft, publication.path.with_extension("tmp"));
    assert_eq!(publication.text, "8731");
}

#[test]
fn port_is_not_published_without_a_directory() {
    assert_eq!(
        publish_port(Err("no home".to_string()), 8731).err(),
        Some("agent_server: app_data_dir unavailable: no home".to_string())
    );
}

#[test]
fn published_port_is_read_back() {
    for port in [0u16, 1, 9, 10, 80, 999, 8080, 60000, 65535] {
        let publication = publish_port(Ok(PathBuf::from("/d")), port).ok().unwrap();
        assert_eq!(publication.text, port.to_string());
        assert_eq!(parse_port(&publication.text), Some(port));
        assert_eq!(read_port(&vec![None, Some(publication.text)]), Some(port));
    }
}

#[test]
fn port_may_have_space_around_it() {
    assert_eq!(parse_port("8080\n"), Some(8080));
    assert_eq!(parse_port(" \t\r\n8080\u{a0}\u{3000}"), Some(8080));
    assert_eq!(parse_port("+80"), Some(80));
    assert_eq!(parse_port("0000080"), Some(80));
}

#[test]
fn what_is_no_port_is_refused() {
    for text in [
        "", " ", "+", "++1", "-1", "80 80", "80a", "0x50", "8.0", "65536", "99999999999999999999", "٣",
        "\u{200b}80",
    ] {
        assert_eq!(parse_port(text), None, "{text:?}");
        assert_eq!(text.trim().parse::<u16>().ok(), None, "{text:?}");
    }
}

#[test]
fn first_port_wins() {
    let files = vec![
        None,
        Some("broken".to_string()),
        Some(" 4000 ".to_string()),
        Some("5000".to_string()),
    ];
    assert_eq!(read_port(&files), Some(4000));
}

#[test]
fn wait_goes_on_until_its_time_is_up() {
    assert_eq!(read_port_wait(None, 0, 10), WaitStep::SleepMillis(100));
    assert_eq!(read_port_wait(None, 9_999_999_999, 10), WaitStep::SleepMillis(100));
    assert_eq!(read_port_wait(None, 10_000_000_000, 10), WaitStep::GiveUp);
    assert_eq!(read_port_wait(None, 0, 0), WaitStep::GiveUp);
    assert_eq!(read_port_wait(None, u128::MAX, u64::MAX), WaitStep::GiveUp);
}

#[test]
fn wait_takes_a_port_that_is_there() {
    assert_eq!(read_port_wait(Some(7), 0, 10), WaitStep::Found(7));
    assert_eq!(read_port_wait(Some(7), 99_000_000_000, 10), WaitStep::Found(7));
}
