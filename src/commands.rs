use vstd::prelude::*;

use crate::credentials::DatabaseCredentials;
use crate::error::{cat, cat3, cat4, AppError, AppResult, IoKind};

verus! {

/// An external program and the arguments it is started with.
#[derive(Debug, Clone)]
pub struct CommandLine {
    pub program: String,
    pub args: Vec<String>,
}

impl View for CommandLine {
    type V = (Seq<char>, Seq<Seq<char>>);

    open spec fn view(&self) -> (Seq<char>, Seq<Seq<char>>) {
        (self.program@, self.args@.map_values(|a: String| a@))
    }
}

/// The program that dumps a database as SQL.
pub const DUMP_TOOL: &'static str = "mariadb-dump";

/// The program that compresses a stream.
pub const COMPRESS_TOOL: &'static str = "gzip";

/// The program that builds a file-tree archive.
pub const ARCHIVE_TOOL: &'static str = "tar";

/// The program that streams a local archive.
pub const STREAM_TOOL: &'static str = "cat";

/// The secure-shell client.
pub const SSH_TOOL: &'static str = "ssh";

/// The user the remote database is imported as when none is given.
pub const DEFAULT_REMOTE_USER: &'static str = "forge";

fn command(program: &str, args: Vec<String>) -> (r: CommandLine)
    ensures
        r.program@ == program@,
        r.args == args,
{
    CommandLine { program: String::from_str(program), args }
}

/// `mariadb-dump <database> --no-tablespaces`
pub fn dump_command(creds: &DatabaseCredentials) -> (r: CommandLine)
    ensures
        r@ == (DUMP_TOOL@, seq![creds.database@, "--no-tablespaces"@]),
{
    let args = vec![creds.database.clone(), String::from_str("--no-tablespaces")];
    let r = command(DUMP_TOOL, args);
    assert(r@.1 =~= seq![creds.database@, "--no-tablespaces"@]);
    r
}

/// `gzip -c`
pub fn compress_command() -> (r: CommandLine)
    ensures
        r@ == (COMPRESS_TOOL@, seq!["-c"@]),
{
    let r = command(COMPRESS_TOOL, vec![String::from_str("-c")]);
    assert(r@.1 =~= seq!["-c"@]);
    r
}

/// `tar -zcpvf <output_path> .`, to be run in the source folder.
pub fn archive_command(output_path: &str) -> (r: CommandLine)
    ensures
        r@ == (ARCHIVE_TOOL@, seq!["-zcpvf"@, output_path@, "."@]),
{
    let args = vec![String::from_str("-zcpvf"), String::from_str(output_path), String::from_str(".")];
    let r = command(ARCHIVE_TOOL, args);
    assert(r@.1 =~= seq!["-zcpvf"@, output_path@, "."@]);
    r
}

/// `cat <archive>`
pub fn stream_command(archive: &str) -> (r: CommandLine)
    ensures
        r@ == (STREAM_TOOL@, seq![archive@]),
{
    let r = command(STREAM_TOOL, vec![String::from_str(archive)]);
    assert(r@.1 =~= seq![archive@]);
    r
}

/// `ssh <host> <remote_command>`
pub fn ssh_command(host: &str, remote_command: &str) -> (r: CommandLine)
    ensures
        r@ == (SSH_TOOL@, seq![host@, remote_command@]),
{
    let r = command(SSH_TOOL, vec![String::from_str(host), String::from_str(remote_command)]);
    assert(r@.1 =~= seq![host@, remote_command@]);
    r
}

/// The remote command that unpacks a file archive read from standard input
/// into `dir`, as `user` when one is given.
pub open spec fn remote_files_spec(user: Option<Seq<char>>, dir: Seq<char>) -> Seq<char> {
    match user {
        Some(u) => "sudo -u "@ + u + " tar -zxpvf - -C "@ + dir,
        None => "tar -zxpvf - -C "@ + dir,
    }
}

/// The remote command that decompresses a dump read from standard input and
/// imports it into `db`, as `user` (else the default user).
pub open spec fn remote_database_spec(
    user: Option<Seq<char>>,
    password: Seq<char>,
    db: Seq<char>,
) -> Seq<char> {
    let u = match user {
        Some(u) => u,
        None => DEFAULT_REMOTE_USER@,
    };
    "gunzip -c | mysql -u "@ + u + " -p"@ + password + " "@ + db
}

/// The text of an optional string.
pub open spec fn opt_view(o: Option<String>) -> Option<Seq<char>> {
    match o {
        Some(s) => Some(s@),
        None => None,
    }
}

/// The remote command that unpacks the file archive into `remote_directory`.
pub fn remote_files_command(user_name: &Option<String>, remote_directory: &str) -> (r: String)
    ensures
        r@ == remote_files_spec(opt_view(*user_name), remote_directory@),
{
    match user_name {
        Some(u) => cat4("sudo -u ", u.as_str(), " tar -zxpvf - -C ", remote_directory),
        None => cat("tar -zxpvf - -C ", remote_directory),
    }
}

/// The remote command that imports the database dump into `remote_db_name`.
///
/// The password stands in the command line, where the remote host's process
/// list shows it.
pub fn remote_database_command(
    user_name: &Option<String>,
    password: &str,
    remote_db_name: &str,
) -> (r: String)
    ensures
        r@ == remote_database_spec(opt_view(*user_name), password@, remote_db_name@),
{
    let user = match user_name {
        Some(u) => u.as_str(),
        None => DEFAULT_REMOTE_USER,
    };
    let head = cat4("gunzip -c | mysql -u ", user, " -p", password);
    let r = cat3(head.as_str(), " ", remote_db_name);
    r
}

/// Two processes joined by a pipe: the first one's output is the second
/// one's input.
#[derive(Debug, Clone)]
pub struct PipedCommands {
    pub producer: CommandLine,
    pub consumer: CommandLine,
}

/// The error of a local archive that is not there.
pub open spec fn missing_archive(e: AppError, archive: Seq<char>) -> bool {
    match e {
        AppError::CommandError(tool, kind, detail) => tool@ == STREAM_TOOL@ && kind
            == IoKind::NotFound && detail@ == "Archive file not found: "@ + archive,
        _ => false,
    }
}

fn missing_archive_error(archive: &str) -> (e: AppError)
    ensures
        missing_archive(e, archive@),
{
    AppError::CommandError(
        String::from_str(STREAM_TOOL),
        IoKind::NotFound,
        cat("Archive file not found: ", archive),
    )
}

/// The pipe that restores a file archive on `dest_host`: `cat <archive>`
/// into `ssh <dest_host> <unpack command>`. Fails, and plans no process, when
/// the local archive does not exist.
pub fn restore_files_plan(
    archive_exists: bool,
    archive_file: &str,
    dest_host: &str,
    user_name: &Option<String>,
    remote_directory: &str,
) -> (r: AppResult<PipedCommands>)
    ensures
        !archive_exists ==> match r {
            Err(e) => missing_archive(e, archive_file@),
            Ok(_) => false,
        },
        archive_exists ==> match r {
            Ok(p) => p.producer@ == (STREAM_TOOL@, seq![archive_file@]) && p.consumer@ == (
                SSH_TOOL@,
                seq![dest_host@, remote_files_spec(opt_view(*user_name), remote_directory@)],
            ),
            Err(_) => false,
        },
{
    if !archive_exists {
        return Err(missing_archive_error(archive_file));
    }
    let remote = remote_files_command(user_name, remote_directory);
    Ok(
        PipedCommands {
            producer: stream_command(archive_file),
            consumer: ssh_command(dest_host, remote.as_str()),
        },
    )
}

/// The pipe that restores a database dump on `dest_host`: `cat <archive>`
/// into `ssh <dest_host> <import command>`. Fails, and plans no process, when
/// the local archive does not exist.
pub fn restore_database_plan(
    archive_exists: bool,
    archive_file: &str,
    dest_host: &str,
    user_name: &Option<String>,
    remote_db_name: &str,
    password: &str,
) -> (r: AppResult<PipedCommands>)
    ensures
        !archive_exists ==> match r {
            Err(e) => missing_archive(e, archive_file@),
            Ok(_) => false,
        },
        archive_exists ==> match r {
            Ok(p) => p.producer@ == (STREAM_TOOL@, seq![archive_file@]) && p.consumer@ == (
                SSH_TOOL@,
                seq![
                    dest_host@,
                    remote_database_spec(opt_view(*user_name), password@, remote_db_name@),
                ],
            ),
            Err(_) => false,
        },
{
    if !archive_exists {
        return Err(missing_archive_error(archive_file));
    }
    let remote = remote_database_command(user_name, password, remote_db_name);
    Ok(
        PipedCommands {
            producer: stream_command(archive_file),
            consumer: ssh_command(dest_host, remote.as_str()),
        },
    )
}

/// The pipe that dumps a database: `mariadb-dump` into `gzip -c`.
pub fn dump_plan(creds: &DatabaseCredentials) -> (r: PipedCommands)
    ensures
        r.producer@ == (DUMP_TOOL@, seq![creds.database@, "--no-tablespaces"@]),
        r.consumer@ == (COMPRESS_TOOL@, seq!["-c"@]),
{
    PipedCommands { producer: dump_command(creds), consumer: compress_command() }
}

/// Whether `e` is the error of a process `tool` that ended in failure.
pub open spec fn failed_tool(e: AppError, tool: Seq<char>) -> bool {
    match e {
        AppError::CommandError(t, kind, detail) => t@ == tool && kind == IoKind::Other && detail@
            == tool + " command failed"@,
        _ => false,
    }
}

/// The error of a process `tool` that ended in failure.
pub fn tool_failed(tool: &str) -> (e: AppError)
    ensures
        failed_tool(e, tool@),
{
    AppError::CommandError(String::from_str(tool), IoKind::Other, cat(tool, " command failed"))
}

/// The result of two processes joined by a pipe, from how each exited: the
/// first failure in the order given is reported, and success needs both.
pub fn pipe_status(
    first_tool: &str,
    first_ok: bool,
    second_tool: &str,
    second_ok: bool,
) -> (r: AppResult<()>)
    ensures
        r is Ok <==> first_ok && second_ok,
        !first_ok ==> match r {
            Err(e) => failed_tool(e, first_tool@),
            Ok(_) => false,
        },
        first_ok && !second_ok ==> match r {
            Err(e) => failed_tool(e, second_tool@),
            Ok(_) => false,
        },
{
    if !first_ok {
        Err(tool_failed(first_tool))
    } else if !second_ok {
        Err(tool_failed(second_tool))
    } else {
        Ok(())
    }
}

/// How a database dump ended, and whether its archive is to be kept.
#[derive(Debug)]
pub struct DumpOutcome {
    pub result: AppResult<()>,
    /// False when the archive on disk is partial or corrupt and must be
    /// removed.
    pub keep_archive: bool,
}

/// Judges a database dump from how `gzip` and `mariadb-dump` exited.
///
/// A failing compressor is reported first; a failing dump is reported too,
/// even where the compressor succeeded on its partial output. The archive
/// is kept only when both succeeded.
pub fn dump_outcome(compress_ok: bool, dump_ok: bool) -> (r: DumpOutcome)
    ensures
        r.keep_archive <==> r.result is Ok,
        r.result is Ok <==> compress_ok && dump_ok,
        !compress_ok ==> match r.result {
            Err(e) => failed_tool(e, COMPRESS_TOOL@),
            Ok(_) => false,
        },
        compress_ok && !dump_ok ==> match r.result {
            Err(e) => failed_tool(e, DUMP_TOOL@),
            Ok(_) => false,
        },
{
    let result = pipe_status(COMPRESS_TOOL, compress_ok, DUMP_TOOL, dump_ok);
    let keep_archive = result.is_ok();
    DumpOutcome { result, keep_archive }
}

/// Judges a file-tree archive from how `tar` exited.
pub fn archive_outcome(archive_ok: bool) -> (r: AppResult<()>)
    ensures
        r is Ok <==> archive_ok,
        !archive_ok ==> match r {
            Err(e) => failed_tool(e, ARCHIVE_TOOL@),
            Ok(_) => false,
        },
{
    if archive_ok {
        Ok(())
    } else {
        Err(tool_failed(ARCHIVE_TOOL))
    }
}

/// Judges a restore from how the local `cat` and the remote `ssh` exited.
pub fn restore_outcome(stream_ok: bool, ssh_ok: bool) -> (r: AppResult<()>)
    ensures
        r is Ok <==> stream_ok && ssh_ok,
        !stream_ok ==> match r {
            Err(e) => failed_tool(e, STREAM_TOOL@),
            Ok(_) => false,
        },
        stream_ok && !ssh_ok ==> match r {
            Err(e) => failed_tool(e, SSH_TOOL@),
            Ok(_) => false,
        },
{
    pipe_status(STREAM_TOOL, stream_ok, SSH_TOOL, ssh_ok)
}

/// The local programs a run needs, in the order they are checked.
pub fn prerequisite_tools() -> (r: Vec<&'static str>)
    ensures
        r@ == seq![COMPRESS_TOOL, ARCHIVE_TOOL, DUMP_TOOL],
{
    vec![COMPRESS_TOOL, ARCHIVE_TOOL, DUMP_TOOL]
}

/// Judges the prerequisite check: `found[i]` tells whether the `i`-th tool
/// of `prerequisite_tools` is installed. The first missing one is
/// reported.
pub fn check_prerequisites(found: &Vec<bool>) -> (r: AppResult<()>)
    requires
        found@.len() == 3,
    ensures
        r is Ok <==> found@[0] && found@[1] && found@[2],
        match r {
            Err(AppError::MissingPrerequisites(t)) => if !found@[0] {
                t@ == COMPRESS_TOOL@
            } else if !found@[1] {
                t@ == ARCHIVE_TOOL@
            } else {
                t@ == DUMP_TOOL@
            },
            Err(_) => false,
            Ok(_) => true,
        },
{
    let tools = prerequisite_tools();
    let mut k: usize = 0;
    while k < 3
        invariant
            k <= 3,
            found@.len() == 3,
            tools@ == seq![COMPRESS_TOOL, ARCHIVE_TOOL, DUMP_TOOL],
            forall|j: int| 0 <= j < k ==> found@[j],
        decreases 3 - k,
    {
        if !found[k] {
            return Err(AppError::MissingPrerequisites(String::from_str(tools[k])));
        }
        k = k + 1;
    }
    Ok(())
}

} // verus!
