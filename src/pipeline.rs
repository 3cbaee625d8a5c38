use vstd::prelude::*;

use crate::commands::DEFAULT_REMOTE_USER;
use crate::config::FinalConfig;
use crate::credentials::DatabaseCredentials;
use crate::error::{AppError, IoKind};
use crate::forge::{CreateDatabaseRequest, CreateSiteRequest};
use crate::paths::{file_name_spec, generate_output_path, output_path_spec, CalendarDate};
use crate::site_type::SiteType;

verus! {

/// The suffix of the database archive's file name.
pub const DB_ARCHIVE_SUFFIX: &'static str = "-db.sql.gz";

/// The suffix of the file-tree archive's file name.
pub const FILES_ARCHIVE_SUFFIX: &'static str = "-files.tar.gz";

/// The stage a migration run is in: the one whose work is under way.
#[derive(Debug, Clone, Copy, PartialEq, Eq, Structural)]
pub enum Stage {
    CheckPrerequisites,
    DetectSiteType,
    ExtractCredentials,
    BackupDatabase,
    BackupFiles,
    ProvisionSite,
    ProvisionDatabase,
    RestoreFiles,
    RestoreDatabase,
    Done,
    Failed,
}

/// What the work of the current stage came to.
#[derive(Debug, Clone)]
pub enum Event {
    PrerequisitesChecked,
    SiteDetected(SiteType),
    CredentialsRead(Option<DatabaseCredentials>),
    DatabaseBackedUp,
    FilesBackedUp,
    /// The site was created; its web directory on the server.
    SiteCreated(String),
    DatabaseCreated,
    FilesRestored,
    DatabaseRestored,
    StageFailed(AppError),
}

/// The work to do next.
#[derive(Debug, Clone)]
pub enum Action {
    CheckPrerequisites,
    DetectSiteType { root: String },
    ReadCredentials { site_type: SiteType, root: String },
    DumpDatabase { credentials: DatabaseCredentials, output: String },
    ArchiveFiles { source: String, output: String },
    CreateSite { server_id: String, request: CreateSiteRequest },
    CreateDatabase { server_id: String, request: CreateDatabaseRequest },
    RestoreFiles { archive: String, host: String, user: Option<String>, directory: String },
    RestoreDatabase {
        archive: String,
        host: String,
        user: Option<String>,
        database: String,
        password: String,
    },
    Finish,
    Abort(AppError),
}

/// The state carried from stage to stage of one migration run.
#[derive(Debug, Clone)]
pub struct PipelineContext {
    pub config: FinalConfig,
    /// The password of the destination database.
    pub password: String,
    pub stage: Stage,
    pub site_type: Option<SiteType>,
    pub db_archive: Option<String>,
    pub files_archive: Option<String>,
    pub web_directory: Option<String>,
}

/// Whether `p` is where an archive of `source` with `suffix` goes on some
/// day.
pub open spec fn archive_path(
    source: Seq<char>,
    temp: Seq<char>,
    suffix: Seq<char>,
    p: Seq<char>,
) -> bool {
    exists|d: CalendarDate| d.wf() && #[trigger] output_path_spec(source, temp, suffix, d) == Some(p)
}

impl PipelineContext {
    /// Whether the detected site type has a database.
    pub open spec fn site_has_database(&self) -> bool {
        match self.site_type {
            Some(t) => t.has_database(),
            None => false,
        }
    }

    /// A database archive exists only for a site with a database, and the
    /// stages that work on it are reached only with one.
    pub open spec fn wf(&self) -> bool {
        &&& self.db_archive is Some ==> self.site_has_database()
        &&& self.stage == Stage::BackupDatabase ==> self.db_archive is Some
        &&& self.stage == Stage::RestoreDatabase ==> self.db_archive is Some
        &&& (self.stage == Stage::CheckPrerequisites || self.stage == Stage::DetectSiteType
            || self.stage == Stage::ExtractCredentials) ==> self.db_archive is None
    }

    /// Whether `r` restores this run's database archive on the destination.
    pub open spec fn restores_database(&self, r: Action) -> bool {
        match r {
            Action::RestoreDatabase { archive, host, user, database, password } => Some(archive)
                == self.db_archive && host == self.config.dest_host && user
                == self.config.user_name && database == self.config.dest_db && password
                == self.password,
            _ => false,
        }
    }

    /// A run at its first stage, for `config`, with `password` for the
    /// destination database.
    pub fn new(config: FinalConfig, password: String) -> (r: PipelineContext)
        ensures
            r.wf(),
            r.stage == Stage::CheckPrerequisites,
            r.config == config,
            r.password == password,
            r.site_type is None,
            r.db_archive is None,
            r.files_archive is None,
            r.web_directory is None,
    {
        PipelineContext {
            config,
            password,
            stage: Stage::CheckPrerequisites,
            site_type: None,
            db_archive: None,
            files_archive: None,
            web_directory: None,
        }
    }

    /// The work of the first stage.
    pub fn first_action(&self) -> (r: Action)
        ensures
            r is CheckPrerequisites,
    {
        Action::CheckPrerequisites
    }

    fn fail(&mut self, e: AppError) -> (r: Action)
        requires
            old(self).wf(),
        ensures
            final(self).wf(),
            final(self).stage == Stage::Failed,
            final(self).site_type == old(self).site_type,
            final(self).db_archive == old(self).db_archive,
            final(self).config == old(self).config,
            final(self).password == old(self).password,
            r == Action::Abort(e),
    {
        self.stage = Stage::Failed;
        Action::Abort(e)
    }

    /// Ends the run: the last stage is done.
    fn finish(&mut self) -> (r: Action)
        requires
            old(self).wf(),
        ensures
            final(self).wf(),
            final(self).stage == Stage::Done,
            final(self).site_type == old(self).site_type,
            final(self).db_archive == old(self).db_archive,
            final(self).config == old(self).config,
            final(self).password == old(self).password,
            r is Finish,
    {
        self.stage = Stage::Done;
        Action::Finish
    }

    /// Goes on to the restore of the database, or ends the run where there
    /// is no database archive.
    fn begin_database_restore(&mut self) -> (r: Action)
        requires
            old(self).wf(),
        ensures
            final(self).wf(),
            final(self).site_type == old(self).site_type,
            final(self).db_archive == old(self).db_archive,
            old(self).db_archive is Some ==> final(self).stage == Stage::RestoreDatabase
                && final(self).restores_database(r),
            final(self).config == old(self).config,
            final(self).password == old(self).password,
            old(self).db_archive is None ==> final(self).stage == Stage::Done && r is Finish,
    {
        match &self.db_archive {
            Some(archive) => {
                let archive = archive.clone();
                self.stage = Stage::RestoreDatabase;
                Action::RestoreDatabase {
                    archive,
                    host: self.config.dest_host.clone(),
                    user: clone_name(&self.config.user_name),
                    database: self.config.dest_db.clone(),
                    password: self.password.clone(),
                }
            },
            None => self.finish(),
        }
    }

    /// Goes on to the restore of the files, or past it where there is no
    /// file archive.
    fn begin_files_restore(&mut self) -> (r: Action)
        requires
            old(self).wf(),
        ensures
            final(self).wf(),
            final(self).site_type == old(self).site_type,
            final(self).db_archive == old(self).db_archive,
            old(self).files_archive is Some ==> final(self).stage == Stage::RestoreFiles && (
            r is RestoreFiles),
            old(self).files_archive is None && old(self).db_archive is Some ==> final(self).stage
                == Stage::RestoreDatabase && final(self).restores_database(r),
            final(self).config == old(self).config,
            final(self).password == old(self).password,
            old(self).files_archive is None && old(self).db_archive is None ==> final(self).stage
                == Stage::Done && r is Finish,
    {
        match &self.files_archive {
            Some(archive) => {
                let archive = archive.clone();
                let directory = match &self.web_directory {
                    Some(d) => d.clone(),
                    None => String::new(),
                };
                self.stage = Stage::RestoreFiles;
                Action::RestoreFiles {
                    archive,
                    host: self.config.dest_host.clone(),
                    user: clone_name(&self.config.user_name),
                    directory,
                }
            },
            None => self.begin_database_restore(),
        }
    }

    /// Goes on to the file-tree archive, or past it where the source folder
    /// has no name to give the archive.
    fn begin_files_backup(&mut self) -> (r: Action)
        requires
            old(self).wf(),
        ensures
            final(self).wf(),
            final(self).site_type == old(self).site_type,
            final(self).db_archive == old(self).db_archive,
            final(self).stage == Stage::BackupFiles || final(self).stage == Stage::ProvisionSite,
            final(self).stage == Stage::BackupFiles ==> match (final(self).files_archive, r) {
                (Some(p), Action::ArchiveFiles { source, output }) => p == output && source
                    == old(self).config.source_folder && archive_path(
                    old(self).config.source_folder@,
                    old(self).config.temp_folder@,
                    FILES_ARCHIVE_SUFFIX@,
                    p@,
                ),
                _ => false,
            },
            final(self).stage == Stage::ProvisionSite ==> r is CreateSite,
    {
        let out = generate_output_path(
            self.config.source_folder.as_str(),
            self.config.temp_folder.as_str(),
            FILES_ARCHIVE_SUFFIX,
        );
        match out {
            Some(p) => {
                self.files_archive = Some(p.clone());
                self.stage = Stage::BackupFiles;
                Action::ArchiveFiles { source: self.config.source_folder.clone(), output: p }
            },
            None => self.begin_site_provisioning(),
        }
    }

    fn begin_site_provisioning(&mut self) -> (r: Action)
        requires
            old(self).wf(),
        ensures
            final(self).wf(),
            final(self).site_type == old(self).site_type,
            final(self).db_archive == old(self).db_archive,
            final(self).files_archive == old(self).files_archive,
            final(self).stage == Stage::ProvisionSite,
            match r {
                Action::CreateSite { server_id, request } => server_id
                    == old(self).config.dest_server_id && request.domain
                    == old(self).config.dest_site_name && request.isolated
                    == old(self).config.isolated && request.username@ == match old(self).config.user_name {
                    Some(u) => u@,
                    None => Seq::<char>::empty(),
                },
                _ => false,
            },
    {
        let mut request = CreateSiteRequest::default();
        request.domain = self.config.dest_site_name.clone();
        request.isolated = self.config.isolated;
        request.username = match &self.config.user_name {
            Some(u) => u.clone(),
            None => String::new(),
        };
        self.stage = Stage::ProvisionSite;
        Action::CreateSite { server_id: self.config.dest_server_id.clone(), request }
    }

    /// Takes the outcome of the current stage's work and returns the work to
    /// do next.
    ///
    /// A failure ends the run; so does an event that does not belong to the
    /// current stage. A database is dumped only for a site type that has
    /// one, and restored only from a dump of this run.
    pub fn advance(&mut self, event: Event) -> (r: Action)
        requires
            old(self).wf(),
        ensures
            final(self).wf(),
            old(self).site_type is Some ==> final(self).site_type == old(self).site_type,
            ((r is DumpDatabase) || (r is RestoreDatabase)) ==> final(self).site_has_database(),
            (r is Abort) <==> final(self).stage == Stage::Failed,
            (old(self).stage == Stage::Failed || old(self).stage == Stage::Done) ==> (r is Abort),
            (r is Finish) <==> final(self).stage == Stage::Done,
            (event is StageFailed) ==> match event {
                Event::StageFailed(e) => r == Action::Abort(e),
                _ => false,
            },
            old(self).stage == Stage::CheckPrerequisites && (event is PrerequisitesChecked) ==> (
            match r {
                Action::DetectSiteType { root } => root == old(self).config.source_folder,
                _ => false,
            }) && final(self).stage == Stage::DetectSiteType,
            old(self).stage == Stage::DetectSiteType && old(self).site_type is None ==> match event {
                Event::SiteDetected(t) => final(self).site_type == Some(t) && final(self).stage
                    == Stage::ExtractCredentials && r == (Action::ReadCredentials {
                    site_type: t,
                    root: old(self).config.source_folder,
                }),
                _ => true,
            },
            old(self).stage == Stage::ExtractCredentials ==> match event {
                Event::CredentialsRead(c) => if old(self).site_has_database() && c is Some
                    && file_name_spec(old(self).config.source_folder@) is Some {
                    final(self).stage == Stage::BackupDatabase && match (
                        final(self).db_archive,
                        r,
                    ) {
                        (Some(p), Action::DumpDatabase { credentials, output }) => Some(
                            credentials,
                        ) == c && p == output && archive_path(
                            old(self).config.source_folder@,
                            old(self).config.temp_folder@,
                            DB_ARCHIVE_SUFFIX@,
                            p@,
                        ),
                        _ => false,
                    }
                } else {
                    final(self).db_archive is None && (final(self).stage == Stage::BackupFiles
                        || final(self).stage == Stage::ProvisionSite)
                },
                _ => true,
            },
            old(self).stage == Stage::BackupDatabase && (event is DatabaseBackedUp) ==> (final(self).stage == Stage::BackupFiles || final(self).stage == Stage::ProvisionSite),
            old(self).stage == Stage::BackupFiles && (event is FilesBackedUp) ==> final(self).stage
                == Stage::ProvisionSite && (r is CreateSite),
            old(self).stage == Stage::ProvisionSite ==> match event {
                Event::SiteCreated(dir) => final(self).web_directory == Some(dir) && final(self).stage == Stage::ProvisionDatabase && match r {
                    Action::CreateDatabase { server_id, request } => server_id
                        == old(self).config.dest_server_id && request.name
                        == old(self).config.dest_db && request.password == old(self).password
                        && request.user@ == match old(self).config.user_name {
                        Some(u) => u@,
                        None => DEFAULT_REMOTE_USER@,
                    },
                    _ => false,
                },
                _ => true,
            },
            old(self).stage == Stage::ProvisionDatabase && (event is DatabaseCreated) ==> (
            old(self).files_archive is Some ==> (r is RestoreFiles)) && (old(self).files_archive is None
                && old(self).db_archive is Some ==> (r is RestoreDatabase)) && (old(self).files_archive is None && old(self).db_archive is None ==> (r is Finish)),
            old(self).stage == Stage::RestoreFiles && (event is FilesRestored) ==> (old(self).db_archive is Some ==> (r is RestoreDatabase)) && (old(self).db_archive is None
                ==> (r is Finish)),
            old(self).stage == Stage::RestoreDatabase && (event is DatabaseRestored) ==> (r is Finish),
            (r is RestoreDatabase) ==> final(self).restores_database(r),
    {
        match event {
            Event::StageFailed(e) => self.fail(e),
            Event::PrerequisitesChecked => {
                if self.stage == Stage::CheckPrerequisites {
                    self.stage = Stage::DetectSiteType;
                    Action::DetectSiteType { root: self.config.source_folder.clone() }
                } else {
                    self.fail(out_of_order())
                }
            },
            Event::SiteDetected(t) => {
                if self.stage == Stage::DetectSiteType && self.site_type.is_none() {
                    self.site_type = Some(t);
                    self.stage = Stage::ExtractCredentials;
                    Action::ReadCredentials { site_type: t, root: self.config.source_folder.clone() }
                } else {
                    self.fail(out_of_order())
                }
            },
            Event::CredentialsRead(c) => {
                if self.stage == Stage::ExtractCredentials {
                    let has_db = match self.site_type {
                        Some(SiteType::StaticHtml(_)) => false,
                        Some(_) => true,
                        None => false,
                    };
                    match c {
                        Some(creds) => {
                            if has_db {
                                let out = generate_output_path(
                                    self.config.source_folder.as_str(),
                                    self.config.temp_folder.as_str(),
                                    DB_ARCHIVE_SUFFIX,
                                );
                                match out {
                                    Some(p) => {
                                        self.db_archive = Some(p.clone());
                                        self.stage = Stage::BackupDatabase;
                                        Action::DumpDatabase { credentials: creds, output: p }
                                    },
                                    None => self.begin_files_backup(),
                                }
                            } else {
                                self.begin_files_backup()
                            }
                        },
                        None => self.begin_files_backup(),
                    }
                } else {
                    self.fail(out_of_order())
                }
            },
            Event::DatabaseBackedUp => {
                if self.stage == Stage::BackupDatabase {
                    self.begin_files_backup()
                } else {
                    self.fail(out_of_order())
                }
            },
            Event::FilesBackedUp => {
                if self.stage == Stage::BackupFiles {
                    self.begin_site_provisioning()
                } else {
                    self.fail(out_of_order())
                }
            },
            Event::SiteCreated(dir) => {
                if self.stage == Stage::ProvisionSite {
                    self.web_directory = Some(dir);
                    self.stage = Stage::ProvisionDatabase;
                    let user = match &self.config.user_name {
                        Some(u) => u.clone(),
                        None => String::from_str(DEFAULT_REMOTE_USER),
                    };
                    let request = CreateDatabaseRequest {
                        name: self.config.dest_db.clone(),
                        user,
                        password: self.password.clone(),
                    };
                    Action::CreateDatabase { server_id: self.config.dest_server_id.clone(), request }
                } else {
                    self.fail(out_of_order())
                }
            },
            Event::DatabaseCreated => {
                if self.stage == Stage::ProvisionDatabase {
                    self.begin_files_restore()
                } else {
                    self.fail(out_of_order())
                }
            },
            Event::FilesRestored => {
                if self.stage == Stage::RestoreFiles {
                    self.begin_database_restore()
                } else {
                    self.fail(out_of_order())
                }
            },
            Event::DatabaseRestored => {
                if self.stage == Stage::RestoreDatabase {
                    self.finish()
                } else {
                    self.fail(out_of_order())
                }
            },
        }
    }
}

/// A run whose detected site is static HTML holds no database archive and is
/// in neither database stage; with `advance`, which keeps the detected type
/// and this invariant, no stage of such a run dumps or restores a database.
pub proof fn static_site_has_no_database_stage(ctx: PipelineContext)
    requires
        ctx.wf(),
        ctx.site_type matches Some(SiteType::StaticHtml(_)),
    ensures
        ctx.db_archive is None,
        ctx.stage != Stage::BackupDatabase,
        ctx.stage != Stage::RestoreDatabase,
{
}

/// A copy of an optional name.
fn clone_name(o: &Option<String>) -> (r: Option<String>)
    ensures
        r == *o,
{
    match o {
        Some(s) => Some(s.clone()),
        None => None,
    }
}

/// The error of an event that does not belong to the current stage.
fn out_of_order() -> (e: AppError)
    ensures
        e is CommandError,
{
    AppError::CommandError(
        String::from_str("pipeline"),
        IoKind::Other,
        String::from_str("event does not belong to the current stage"),
    )
}

} // verus!
