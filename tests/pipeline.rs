use forge_move::config::FinalConfig;
use forge_move::credentials::DatabaseCredentials;
use forge_move::error::AppError;
use forge_move::pipeline::{Action, Event, PipelineContext, Stage};
use forge_move::site_type::{SiteType, StaticHtmlSite, WordPressSite};

fn config() -> FinalConfig {
    FinalConfig {
        source_folder: "/srv/myapp".to_string(),
        forge_api_key: "key".to_string(),
        dest_server_id: "42".to_string(),
        dest_site_name: "myapp.example.com".to_string(),
        dest_db: "myapp".to_string(),
        dest_host: "dest".to_string(),
        isolated: false,
        user_name: None,
        temp_folder: "/tmp/forge".to_string(),
    }
}

/// Runs the pipeline to its end, answering each action with success, and
/// returns the actions in order.
fn run(site_type: SiteType, creds: Option<DatabaseCredentials>) -> Vec<Action> {
    let mut ctx = PipelineContext::new(config(), "pw".to_string());
    let mut action = ctx.first_action();
    let mut actions = Vec::new();
    loop {
        let event = match &action {
            Action::CheckPrerequisites => Event::PrerequisitesChecked,
            Action::DetectSiteType { .. } => Event::SiteDetected(site_type),
            Action::ReadCredentials { .. } => Event::CredentialsRead(creds.clone()),
            Action::DumpDatabase { .. } => Event::DatabaseBackedUp,
            Action::ArchiveFiles { .. } => Event::FilesBackedUp,
            Action::CreateSite { .. } => Event::SiteCreated("/home/forge/myapp/public".to_string()),
            Action::CreateDatabase { .. } => Event::DatabaseCreated,
            Action::RestoreFiles { .. } => Event::FilesRestored,
            Action::RestoreDatabase { .. } => Event::DatabaseRestored,
            Action::Finish | Action::Abort(_) => break,
        };
        actions.push(action);
        action = ctx.advance(event);
    }
    assert_eq!(ctx.stage, Stage::Done);
    actions.push(action);
    actions
}

#[test]
fn static_site_run_never_touches_a_database() {
    let actions = run(SiteType::StaticHtml(StaticHtmlSite), None);
    assert!(!actions.iter().any(|a| matches!(a, Action::DumpDatabase { .. })));
    assert!(!actions.iter().any(|a| matches!(a, Action::RestoreDatabase { .. })));
    assert!(actions.iter().any(|a| matches!(a, Action::RestoreFiles { .. })));
    assert!(matches!(actions.last(), Some(Action::Finish)));
}

#[test]
fn static_site_ignores_stray_credentials() {
    let creds = DatabaseCredentials {
        username: "u".to_string(),
        password: "p".to_string(),
        database: "d".to_string(),
    };
    let actions = run(SiteType::StaticHtml(StaticHtmlSite), Some(creds));
    assert!(!actions.iter().any(|a| matches!(a, Action::DumpDatabase { .. })));
    assert!(!actions.iter().any(|a| matches!(a, Action::RestoreDatabase { .. })));
}

#[test]
fn wordpress_run_dumps_and_restores_the_database() {
    let creds = DatabaseCredentials {
        username: "u".to_string(),
        password: "p".to_string(),
        database: "shop".to_string(),
    };
    let actions = run(SiteType::Wordpress(WordPressSite), Some(creds));
    let kinds: Vec<&str> = actions
        .iter()
        .map(|a| match a {
            Action::CheckPrerequisites => "check",
            Action::DetectSiteType { .. } => "detect",
            Action::ReadCredentials { .. } => "credentials",
            Action::DumpDatabase { .. } => "dump",
            Action::ArchiveFiles { .. } => "archive",
            Action::CreateSite { .. } => "site",
            Action::CreateDatabase { .. } => "database",
            Action::RestoreFiles { .. } => "restore-files",
            Action::RestoreDatabase { .. } => "restore-database",
            Action::Finish => "finish",
            Action::Abort(_) => "abort",
        })
        .collect();
    assert_eq!(
        kinds,
        vec![
            "check", "detect", "credentials", "dump", "archive", "site", "database",
            "restore-files", "restore-database", "finish"
        ]
    );
    match &actions[3] {
        Action::DumpDatabase { credentials, output } => {
            assert_eq!(credentials.database, "shop");
            assert!(output.starts_with("/tmp/forge/") && output.ends_with("/myapp-db.sql.gz"));
        }
        _ => unreachable!(),
    }
    match &actions[8] {
        Action::RestoreDatabase { archive, host, user, database, password } => {
            assert!(archive.ends_with("/myapp-db.sql.gz"));
            assert_eq!(host, "dest");
            assert_eq!(user, &None);
            assert_eq!(database, "myapp");
            assert_eq!(password, "pw");
        }
        _ => unreachable!(),
    }
    match &actions[7] {
        Action::RestoreFiles { directory, .. } => assert_eq!(directory, "/home/forge/myapp/public"),
        _ => unreachable!(),
    }
}

#[test]
fn a_failed_stage_ends_the_run() {
    let mut ctx = PipelineContext::new(config(), "pw".to_string());
    ctx.advance(Event::PrerequisitesChecked);
    let a = ctx.advance(Event::StageFailed(AppError::UnknownSiteType("/srv/myapp".to_string())));
    assert!(matches!(a, Action::Abort(AppError::UnknownSiteType(_))));
    assert_eq!(ctx.stage, Stage::Failed);
}

#[test]
fn an_event_out_of_order_ends_the_run() {
    let mut ctx = PipelineContext::new(config(), "pw".to_string());
    let a = ctx.advance(Event::FilesRestored);
    assert!(matches!(a, Action::Abort(_)));
    assert_eq!(ctx.stage, Stage::Failed);
}
