use forge_move::commands::{
    archive_command, archive_outcome, check_prerequisites, compress_command, dump_command,
    dump_outcome, pipe_status, prerequisite_tools, remote_database_command, remote_files_command,
    restore_database_plan, restore_files_plan, restore_outcome, CommandLine,
};
use forge_move::credentials::DatabaseCredentials;
use forge_move::error::{AppError, IoKind};

fn args(c: &CommandLine) -> Vec<&str> {
    c.args.iter().map(|a| a.as_str()).collect()
}

fn creds() -> DatabaseCredentials {
    DatabaseCredentials {
        username: "u".to_string(),
        password: "p".to_string(),
        database: "shop".to_string(),
    }
}

fn command_error(r: Result<(), AppError>) -> (String, IoKind, String) {
    match r {
        Err(AppError::CommandError(t, k, d)) => (t, k, d),
        other => panic!("unexpected {:?}", other),
    }
}

#[test]
fn dump_and_compress_commands() {
    let d = dump_command(&creds());
    assert_eq!(d.program, "mariadb-dump");
    assert_eq!(args(&d), vec!["shop", "--no-tablespaces"]);
    let c = compress_command();
    assert_eq!(c.program, "gzip");
    assert_eq!(args(&c), vec!["-c"]);
    let t = archive_command("/tmp/x-files.tar.gz");
    assert_eq!(t.program, "tar");
    assert_eq!(args(&t), vec!["-zcpvf", "/tmp/x-files.tar.gz", "."]);
}

#[test]
fn remote_commands() {
    assert_eq!(remote_files_command(&None, "/home/forge/site"), "tar -zxpvf - -C /home/forge/site");
    assert_eq!(
        remote_files_command(&Some("bob".to_string()), "/home/bob/site"),
        "sudo -u bob tar -zxpvf - -C /home/bob/site"
    );
    assert_eq!(
        remote_database_command(&None, "pw", "shop"),
        "gunzip -c | mysql -u forge -ppw shop"
    );
    assert_eq!(
        remote_database_command(&Some("bob".to_string()), "pw", "shop"),
        "gunzip -c | mysql -u bob -ppw shop"
    );
}

#[test]
fn missing_archive_fails_before_any_process() {
    let r = restore_files_plan(false, "/tmp/a.tar.gz", "host", &None, "/dir");
    match r {
        Err(AppError::CommandError(t, k, d)) => {
            assert_eq!(t, "cat");
            assert_eq!(k, IoKind::NotFound);
            assert_eq!(d, "Archive file not found: /tmp/a.tar.gz");
        }
        other => panic!("unexpected {:?}", other),
    }
    let r = restore_database_plan(false, "/tmp/a.sql.gz", "host", &None, "shop", "pw");
    assert!(matches!(r, Err(AppError::CommandError(_, IoKind::NotFound, _))));
}

#[test]
fn restore_plans_pipe_cat_into_ssh() {
    let p = restore_files_plan(true, "/tmp/a.tar.gz", "host", &None, "/dir").unwrap();
    assert_eq!(p.producer.program, "cat");
    assert_eq!(args(&p.producer), vec!["/tmp/a.tar.gz"]);
    assert_eq!(p.consumer.program, "ssh");
    assert_eq!(args(&p.consumer), vec!["host", "tar -zxpvf - -C /dir"]);
    let p = restore_database_plan(true, "/tmp/a.sql.gz", "host", &None, "shop", "pw").unwrap();
    assert_eq!(args(&p.consumer), vec!["host", "gunzip -c | mysql -u forge -ppw shop"]);
}

#[test]
fn failing_compressor_drops_the_archive() {
    for dump_ok in [false, true] {
        let o = dump_outcome(false, dump_ok);
        assert!(!o.keep_archive);
        let (t, k, d) = command_error(o.result);
        assert_eq!(t, "gzip");
        assert_eq!(k, IoKind::Other);
        assert_eq!(d, "gzip command failed");
    }
}

#[test]
fn failing_dump_is_reported_after_compression_succeeds() {
    let o = dump_outcome(true, false);
    assert!(!o.keep_archive);
    assert_eq!(command_error(o.result).0, "mariadb-dump");
    let o = dump_outcome(true, true);
    assert!(o.keep_archive);
    assert!(o.result.is_ok());
}

#[test]
fn restore_and_archive_outcomes() {
    assert_eq!(command_error(restore_outcome(false, false)).0, "cat");
    assert_eq!(command_error(restore_outcome(true, false)).0, "ssh");
    assert!(restore_outcome(true, true).is_ok());
    assert_eq!(command_error(archive_outcome(false)).0, "tar");
    assert!(archive_outcome(true).is_ok());
    assert_eq!(command_error(pipe_status("a", true, "b", false)).0, "b");
}

#[test]
fn prerequisites() {
    assert_eq!(prerequisite_tools(), vec!["gzip", "tar", "mariadb-dump"]);
    assert!(check_prerequisites(&vec![true, true, true]).is_ok());
    match check_prerequisites(&vec![true, false, false]) {
        Err(AppError::MissingPrerequisites(t)) => assert_eq!(t, "tar"),
        other => panic!("unexpected {:?}", other),
    }
}

#[test]
fn error_messages() {
    let e = AppError::CommandError("gzip".to_string(), IoKind::Other, "gzip command failed".to_string());
    assert_eq!(e.message(), "Command `gzip` failed to execute: gzip command failed");
    assert_eq!(
        AppError::CredentialParseError("DB_NAME".to_string()).message(),
        "Unable to parse credentials at path: DB_NAME"
    );
    assert_eq!(
        AppError::FileError("/x".to_string(), "denied".to_string()).message(),
        "File error at /x: denied"
    );
    assert_eq!(AppError::UnknownSiteType("/x".to_string()).message(), "Unknown site type at path: /x");
}
