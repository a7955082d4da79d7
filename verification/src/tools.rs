//! The tool executor's decision logic: which inputs each tool requires,
//! how a path is resolved against the working directory, what command a
//! search runs, and how every outcome is shaped into a `ToolResult`.
//!
//! The filesystem and the shell are driven outside this module; each
//! shaping function here takes the outcome of that work as a value and is
//! verified for every value it could be handed.

use vstd::prelude::*;
use crate::state::ProcessMetrics;
use crate::strutil::{concat2, concat3, i64_to_string, spec_blank, spec_dec, spec_dec_signed,
    str_eq, u64_to_string, is_blank};

verus! {

/// Hard wall-clock ceiling on one shell command, in seconds.
pub const COMMAND_TIMEOUT_SECS: u64 = 120;

/// The fields a tool invocation may carry. The server sends them as a
/// structured value; the transport layer hands them over as plain options.
#[derive(Clone, Debug)]
pub struct ToolInput {
    pub path: Option<String>,
    pub content: Option<String>,
    pub pattern: Option<String>,
    pub command: Option<String>,
}

impl ToolInput {
    /// A field-for-field copy, equal to the original.
    pub fn duplicate(&self) -> (r: Self)
        ensures
            r == *self,
    {
        ToolInput {
            path: match &self.path {
                Some(s) => Some(s.clone()),
                None => None,
            },
            content: match &self.content {
                Some(s) => Some(s.clone()),
                None => None,
            },
            pattern: match &self.pattern {
                Some(s) => Some(s.clone()),
                None => None,
            },
            command: match &self.command {
                Some(s) => Some(s.clone()),
                None => None,
            },
        }
    }
}

/// Result of a tool execution.
#[derive(Clone, Debug)]
pub struct ToolResult {
    pub result: String,
    pub metrics: Option<ProcessMetrics>,
    pub error: Option<String>,
}

/// A path is absolute when it starts at the root.
pub open spec fn spec_is_absolute(p: Seq<char>) -> bool {
    p.len() > 0 && p[0] == '/'
}

/// Joining a relative path onto a directory, inserting the separator
/// unless the directory already ends with one.
pub open spec fn spec_join(cwd: Seq<char>, p: Seq<char>) -> Seq<char> {
    if cwd.len() > 0 && cwd.last() == '/' {
        cwd + p
    } else {
        cwd + seq!['/'] + p
    }
}

/// An absolute path stands as it is; a relative one is joined onto `cwd`.
pub open spec fn spec_resolve(cwd: Seq<char>, p: Seq<char>) -> Seq<char> {
    if spec_is_absolute(p) {
        p
    } else {
        spec_join(cwd, p)
    }
}

/// Resolve a path against the working directory: an absolute path is
/// returned verbatim, a relative one is joined onto `cwd`.
pub fn resolve_path(cwd: &str, path: &str) -> (r: String)
    ensures
        r@ == spec_resolve(cwd@, path@),
{
    let plen = path.unicode_len();
    if plen > 0 && path.get_char(0) == '/' {
        path.to_owned()
    } else {
        let clen = cwd.unicode_len();
        if clen > 0 && cwd.get_char(clen - 1) == '/' {
            concat2(cwd, path)
        } else {
            let r = concat3(cwd, "/", path);
            proof {
                reveal_strlit("/");
                assert("/"@ =~= seq!['/']);
                assert(r@ =~= spec_join(cwd@, path@));
            }
            r
        }
    }
}

/// Resolution leaves an absolute path untouched, so resolving a second
/// time yields the same path: resolution is idempotent on its results
/// whenever they are absolute, and in particular whenever `cwd` is.
pub proof fn lemma_resolve_idempotent(cwd: Seq<char>, p: Seq<char>)
    requires
        spec_is_absolute(cwd) || spec_is_absolute(p),
    ensures
        spec_is_absolute(spec_resolve(cwd, p)),
        spec_resolve(cwd, spec_resolve(cwd, p)) == spec_resolve(cwd, p),
{
    if !spec_is_absolute(p) {
        assert(spec_join(cwd, p)[0] == cwd[0]);
    }
}

// The human-readable texts every outcome is shaped into.

pub open spec fn msg_workdir_not_found(cwd: Seq<char>) -> Seq<char> {
    "Error: Working directory not found: "@ + cwd
}

pub open spec fn err_workdir_not_found() -> Seq<char> {
    "Working directory not found"@
}

pub open spec fn msg_missing_param(name: Seq<char>) -> Seq<char> {
    "Error: Missing '"@ + name + "' parameter"@
}

pub open spec fn err_missing_param(name: Seq<char>) -> Seq<char> {
    "Missing '"@ + name + "' parameter"@
}

pub open spec fn msg_unknown_tool(name: Seq<char>) -> Seq<char> {
    "Unknown tool: "@ + name
}

pub open spec fn msg_file_not_found(path: Seq<char>) -> Seq<char> {
    "Error: File not found: "@ + path
}

pub open spec fn msg_read_failed(e: Seq<char>) -> Seq<char> {
    "Error reading file: "@ + e
}

pub open spec fn msg_wrote(path: Seq<char>) -> Seq<char> {
    "Successfully wrote to "@ + path
}

pub open spec fn msg_mkdir_failed(e: Seq<char>) -> Seq<char> {
    "Error creating directories: "@ + e
}

pub open spec fn msg_write_failed(e: Seq<char>) -> Seq<char> {
    "Error writing file: "@ + e
}

pub open spec fn msg_dir_not_found(path: Seq<char>) -> Seq<char> {
    "Error: Directory not found: "@ + path
}

pub open spec fn msg_list_failed(e: Seq<char>) -> Seq<char> {
    "Error listing files: "@ + e
}

pub open spec fn msg_spawn_failed(e: Seq<char>) -> Seq<char> {
    "Error spawning command: "@ + e
}

pub open spec fn msg_wait_failed(e: Seq<char>) -> Seq<char> {
    "Error executing command: "@ + e
}

pub open spec fn msg_timed_out() -> Seq<char> {
    "Command timed out after "@ + spec_dec(COMMAND_TIMEOUT_SECS as int) + " seconds"@
}

pub open spec fn msg_exit_code(code: int) -> Seq<char> {
    "Exit code: "@ + spec_dec_signed(code)
}

/// What the shell's work came to, as the driver observed it.
#[derive(Clone, Debug)]
pub enum CommandOutcome {
    /// The child process could not be started.
    SpawnFailed(String),
    /// The child started but waiting for it failed.
    WaitFailed(String),
    /// The wall-clock ceiling passed and the child was killed.
    TimedOut,
    /// The child ran to completion.
    Completed { stdout: String, stderr: String, success: bool, exit_code: Option<i32> },
}

/// What reading the requested file came to.
#[derive(Clone, Debug)]
pub enum ReadOutcome {
    /// No file stands at the resolved path.
    Missing,
    /// The file's text.
    Content(String),
    /// The read itself failed.
    Failed(String),
}

/// What writing the requested file came to.
#[derive(Clone, Debug)]
pub enum WriteOutcome {
    Written,
    /// Creating the missing parent directories failed.
    DirCreateFailed(String),
    WriteFailed(String),
}

/// What expanding the listing glob came to. Each entry is a matched path,
/// or the error a single entry failed with.
#[derive(Clone, Debug)]
pub enum ListOutcome {
    /// The resolved directory does not exist.
    Missing,
    /// The joined pattern was not a valid glob.
    PatternFailed(String),
    Entries(Vec<Result<String, String>>),
}

pub open spec fn err_file_not_found() -> Seq<char> {
    "File not found"@
}

pub open spec fn err_dir_not_found() -> Seq<char> {
    "Directory not found"@
}

pub open spec fn err_timed_out() -> Seq<char> {
    "Command timed out"@
}

/// Shapes a read outcome: the contents on success, `File not found` when
/// the path names nothing, and the error text otherwise.
pub fn finish_read_file(path: &str, outcome: ReadOutcome) -> (r: ToolResult)
    ensures
        r.metrics is None,
        match outcome {
            ReadOutcome::Missing => {
                &&& r.result@ == msg_file_not_found(path@)
                &&& r.error matches Some(e) && e@ == err_file_not_found()
            },
            ReadOutcome::Content(c) => r.result == c && r.error is None,
            ReadOutcome::Failed(e) => {
                &&& r.result@ == msg_read_failed(e@)
                &&& r.error matches Some(x) && x@ == e@
            },
        },
{
    match outcome {
        ReadOutcome::Missing => ToolResult {
            result: concat2("Error: File not found: ", path),
            metrics: None,
            error: Some(String::from_str("File not found")),
        },
        ReadOutcome::Content(c) => ToolResult { result: c, metrics: None, error: None },
        ReadOutcome::Failed(e) => {
            let text = concat2("Error reading file: ", e.as_str());
            ToolResult { result: text, metrics: None, error: Some(e) }
        },
    }
}

/// Shapes a write outcome: a success notice naming the resolved path, or
/// the error the filesystem gave.
pub fn finish_write_file(path: &str, outcome: WriteOutcome) -> (r: ToolResult)
    ensures
        r.metrics is None,
        match outcome {
            WriteOutcome::Written => {
                &&& r.result@ == msg_wrote(path@)
                &&& r.error is None
            },
            WriteOutcome::DirCreateFailed(e) => {
                &&& r.result@ == msg_mkdir_failed(e@)
                &&& r.error matches Some(x) && x@ == e@
            },
            WriteOutcome::WriteFailed(e) => {
                &&& r.result@ == msg_write_failed(e@)
                &&& r.error matches Some(x) && x@ == e@
            },
        },
{
    match outcome {
        WriteOutcome::Written => ToolResult {
            result: concat2("Successfully wrote to ", path),
            metrics: None,
            error: None,
        },
        WriteOutcome::DirCreateFailed(e) => {
            let text = concat2("Error creating directories: ", e.as_str());
            ToolResult { result: text, metrics: None, error: Some(e) }
        },
        WriteOutcome::WriteFailed(e) => {
            let text = concat2("Error writing file: ", e.as_str());
            ToolResult { result: text, metrics: None, error: Some(e) }
        },
    }
}

/// The paths among the glob's entries, in order, skipping entries that
/// failed, as their character sequences.
pub open spec fn spec_ok_paths(s: Seq<Result<String, String>>) -> Seq<Seq<char>>
    decreases s.len(),
{
    if s.len() == 0 {
        Seq::empty()
    } else {
        spec_ok_paths(s.drop_last()) + match s.last() {
            Ok(p) => seq![p@],
            Err(_) => Seq::<Seq<char>>::empty(),
        }
    }
}

/// The matches joined with one newline between neighbours.
pub open spec fn spec_join_lines(ss: Seq<Seq<char>>) -> Seq<char>
    decreases ss.len(),
{
    if ss.len() == 0 {
        Seq::empty()
    } else if ss.len() == 1 {
        ss[0]
    } else {
        spec_join_lines(ss.drop_last()) + seq!['\n'] + ss.last()
    }
}

fn ok_paths(entries: &Vec<Result<String, String>>) -> (r: Vec<String>)
    ensures
        r@.map_values(|p: String| p@) == spec_ok_paths(entries@),
{
    let mut r: Vec<String> = Vec::new();
    let mut i: usize = 0;
    proof {
        assert(entries@.take(0) =~= Seq::<Result<String, String>>::empty());
        assert(r@.map_values(|p: String| p@) =~= spec_ok_paths(entries@.take(0)));
    }
    while i < entries.len()
        invariant
            i <= entries@.len(),
            r@.map_values(|p: String| p@) == spec_ok_paths(entries@.take(i as int)),
        decreases entries@.len() - i,
    {
        match &entries[i] {
            Ok(p) => {
                let q = p.clone();
                assert(q@ == p@);
                r.push(q);
            },
            Err(_) => {},
        }
        i += 1;
        proof {
            assert(entries@.take(i as int).drop_last() =~= entries@.take(i - 1));
            assert(entries@.take(i as int).last() == entries@[i - 1]);
            assert(r@.map_values(|p: String| p@) =~= spec_ok_paths(entries@.take(i as int)));
        }
    }
    proof {
        assert(entries@.take(entries@.len() as int) =~= entries@);
    }
    r
}

fn join_lines(v: &Vec<String>) -> (r: String)
    ensures
        r@ == spec_join_lines(v@.map_values(|p: String| p@)),
{
    let ghost views = v@.map_values(|p: String| p@);
    let mut r = String::new();
    let mut i: usize = 0;
    while i < v.len()
        invariant
            i <= v@.len(),
            views == v@.map_values(|p: String| p@),
            r@ == spec_join_lines(views.take(i as int)),
        decreases v@.len() - i,
    {
        if i > 0 {
            r.append("\n");
            proof {
                reveal_strlit("\n");
                assert("\n"@ =~= seq!['\n']);
            }
        }
        r.append(v[i].as_str());
        i += 1;
        proof {
            assert(views.take(i as int).drop_last() =~= views.take(i - 1));
            assert(views.take(i as int).last() == views[i - 1]);
            if i == 1 {
                assert(r@ =~= spec_join_lines(views.take(1)));
            } else {
                assert(r@ =~= spec_join_lines(views.take(i as int)));
            }
        }
    }
    proof {
        assert(views.take(v@.len() as int) =~= views);
    }
    r
}

/// Shapes a listing outcome: the matches joined by newlines, a fixed
/// notice when nothing matched, or the error.
pub fn finish_list_files(path: &str, outcome: ListOutcome) -> (r: ToolResult)
    ensures
        r.metrics is None,
        match outcome {
            ListOutcome::Missing => {
                &&& r.result@ == msg_dir_not_found(path@)
                &&& r.error matches Some(e) && e@ == err_dir_not_found()
            },
            ListOutcome::PatternFailed(e) => {
                &&& r.result@ == msg_list_failed(e@)
                &&& r.error matches Some(x) && x@ == e@
            },
            ListOutcome::Entries(v) => {
                &&& r.error is None
                &&& if spec_ok_paths(v@).len() == 0 {
                    r.result@ == "(no files found)"@
                } else {
                    r.result@ == spec_join_lines(spec_ok_paths(v@))
                }
            },
        },
{
    match outcome {
        ListOutcome::Missing => ToolResult {
            result: concat2("Error: Directory not found: ", path),
            metrics: None,
            error: Some(String::from_str("Directory not found")),
        },
        ListOutcome::PatternFailed(e) => {
            let text = concat2("Error listing files: ", e.as_str());
            ToolResult { result: text, metrics: None, error: Some(e) }
        },
        ListOutcome::Entries(v) => {
            let files = ok_paths(&v);
            if files.len() == 0 {
                ToolResult {
                    result: String::from_str("(no files found)"),
                    metrics: None,
                    error: None,
                }
            } else {
                ToolResult { result: join_lines(&files), metrics: None, error: None }
            }
        },
    }
}

/// Shapes a shell outcome. Output selection: non-empty standard output,
/// else non-empty standard error, else a fixed notice. A non-zero exit
/// sets the error but the captured output stays in the result. The
/// duration is always carried; the other two measurements are reserved
/// and stay zero.
pub fn finish_run_command(outcome: CommandOutcome, duration_ms: u64) -> (r: ToolResult)
    ensures
        match outcome {
            CommandOutcome::SpawnFailed(e) => {
                &&& r.result@ == msg_spawn_failed(e@)
                &&& r.metrics is None
                &&& r.error matches Some(x) && x@ == e@
            },
            CommandOutcome::WaitFailed(e) => {
                &&& r.result@ == msg_wait_failed(e@)
                &&& r.metrics == Some(ProcessMetrics {
                    cpu_percent: 0u64,
                    memory_mb: 0u64,
                    duration_ms,
                })
                &&& r.error matches Some(x) && x@ == e@
            },
            CommandOutcome::TimedOut => {
                &&& r.result@ == msg_timed_out()
                &&& r.metrics == Some(ProcessMetrics {
                    cpu_percent: 0u64,
                    memory_mb: 0u64,
                    duration_ms,
                })
                &&& r.error matches Some(x) && x@ == err_timed_out()
            },
            CommandOutcome::Completed { stdout, stderr, success, exit_code } => {
                &&& r.result@ == if stdout@.len() > 0 {
                    stdout@
                } else if stderr@.len() > 0 {
                    stderr@
                } else {
                    "(command completed with no output)"@
                }
                &&& r.metrics == Some(ProcessMetrics {
                    cpu_percent: 0u64,
                    memory_mb: 0u64,
                    duration_ms,
                })
                &&& if success {
                    r.error is None
                } else {
                    r.error matches Some(x) && x@ == msg_exit_code(
                        match exit_code {
                            Some(c) => c as int,
                            None => -1,
                        },
                    )
                }
            },
        },
{
    match outcome {
        CommandOutcome::SpawnFailed(e) => {
            let text = concat2("Error spawning command: ", e.as_str());
            ToolResult { result: text, metrics: None, error: Some(e) }
        },
        CommandOutcome::WaitFailed(e) => {
            let text = concat2("Error executing command: ", e.as_str());
            ToolResult {
                result: text,
                metrics: Some(ProcessMetrics { cpu_percent: 0, memory_mb: 0, duration_ms }),
                error: Some(e),
            }
        },
        CommandOutcome::TimedOut => {
            let secs = u64_to_string(COMMAND_TIMEOUT_SECS);
            let text = concat3("Command timed out after ", secs.as_str(), " seconds");
            ToolResult {
                result: text,
                metrics: Some(ProcessMetrics { cpu_percent: 0, memory_mb: 0, duration_ms }),
                error: Some(String::from_str("Command timed out")),
            }
        },
        CommandOutcome::Completed { stdout, stderr, success, exit_code } => {
            let result_text = if !stdout.as_str().is_empty() {
                stdout
            } else if !stderr.as_str().is_empty() {
                stderr
            } else {
                String::from_str("(command completed with no output)")
            };
            let error = if success {
                None
            } else {
                let code: i64 = match exit_code {
                    Some(c) => c as i64,
                    None => -1,
                };
                let num = i64_to_string(code);
                Some(concat2("Exit code: ", num.as_str()))
            };
            ToolResult {
                result: result_text,
                metrics: Some(ProcessMetrics { cpu_percent: 0, memory_mb: 0, duration_ms }),
                error,
            }
        },
    }
}

/// The recursive-grep command a file search runs through the shell.
pub open spec fn spec_search_command(pattern: Seq<char>, dir: Seq<char>) -> Seq<char> {
    "grep -r \""@ + pattern + "\" \""@ + dir + "\" --include=\"*\" -l 2>/dev/null || true"@
}

/// Builds the shell command a `search_files` request dispatches.
pub fn search_command(pattern: &str, dir: &str) -> (r: String)
    ensures
        r@ == spec_search_command(pattern@, dir@),
{
    let mut s = String::from_str("grep -r \"");
    s.append(pattern);
    s.append("\" \"");
    s.append(dir);
    s.append("\" --include=\"*\" -l 2>/dev/null || true");
    proof {
        assert(s@ =~= spec_search_command(pattern@, dir@));
    }
    s
}

/// Shapes the search result: a run whose output trims to nothing becomes
/// the fixed `No matches found` notice with no error; anything else passes
/// through untouched.
pub fn finish_search_files(run: ToolResult) -> (r: ToolResult)
    ensures
        if spec_blank(run.result@) {
            &&& r.result@ == "No matches found"@
            &&& r.metrics == run.metrics
            &&& r.error is None
        } else {
            r == run
        },
{
    if is_blank(run.result.as_str()) {
        ToolResult {
            result: String::from_str("No matches found"),
            metrics: run.metrics,
            error: None,
        }
    } else {
        run
    }
}

/// Relies on glob::glob: expands the pattern against the filesystem and
/// yields each match, or the error an entry failed with. What matches
/// depends on the disk, so nothing is promised of the entries.
#[verifier::external_body]
fn glob_entries(pattern: &str) -> Result<Vec<Result<String, String>>, String> {
    match glob::glob(pattern) {
        Ok(paths) => Ok(paths
            .map(|entry| match entry {
                Ok(p) => Ok(p.to_string_lossy().to_string()),
                Err(e) => Err(e.to_string()),
            })
            .collect()),
        Err(e) => Err(e.to_string()),
    }
}

/// A pattern failure never reads as the missing-directory reply: the two
/// texts differ from their sixth character on.
proof fn lemma_list_failed_not_dir_missing(e: Seq<char>, dir: Seq<char>)
    ensures
        msg_list_failed(e) != msg_dir_not_found(dir),
{
    broadcast use vstd::string::group_string_axioms;

    reveal_strlit("Error listing files: ");
    reveal_strlit("Error: Directory not found: ");
    assert("Error listing files: "@.len() == 21);
    assert("Error: Directory not found: "@.len() == 28);
    assert("Error listing files: "@[5] == ' ');
    assert("Error: Directory not found: "@[5] == ':');
    assert(msg_list_failed(e)[5] == ' ');
    assert(msg_dir_not_found(dir)[5] == ':');
}

/// Runs a listing: expands the glob unless the directory is missing, and
/// shapes whatever came back. Every possible expansion is shaped by
/// `finish_list_files`, which carries the exact contract; whatever the
/// disk held, the missing-directory reply comes exactly when the
/// directory was missing.
pub fn run_list_files(dir: &str, pattern: &str, dir_exists: bool) -> (r: ToolResult)
    ensures
        r.metrics is None,
        !dir_exists ==> {
            &&& r.result@ == msg_dir_not_found(dir@)
            &&& r.error matches Some(e) && e@ == err_dir_not_found()
        },
        dir_exists ==> !(r.result@ == msg_dir_not_found(dir@) && (r.error matches Some(e) && e@
            == err_dir_not_found())),
{
    if !dir_exists {
        finish_list_files(dir, ListOutcome::Missing)
    } else {
        match glob_entries(pattern) {
            Ok(v) => finish_list_files(dir, ListOutcome::Entries(v)),
            Err(e) => {
                proof {
                    lemma_list_failed_not_dir_missing(e@, dir@);
                }
                finish_list_files(dir, ListOutcome::PatternFailed(e))
            },
        }
    }
}

/// What a tool request asks of the driver once its inputs are checked and
/// its paths resolved: answer at once, or perform the named piece of
/// outside work and shape the outcome.
#[derive(Clone, Debug)]
pub enum ToolAction {
    /// No outside work is owed; this is the response.
    Finish(ToolResult),
    /// Read the file at the resolved path.
    ReadFile { path: String },
    /// Create missing parents, then write the content at the resolved path.
    WriteFile { path: String, content: String },
    /// List the matches of `pattern` if the resolved directory exists.
    ListFiles { dir: String, pattern: String },
    /// Run the command through the shell under the wall-clock ceiling.
    RunShell { command: String, timeout_ms: u64 },
    /// Run the built search command; a blank result becomes the fixed notice.
    SearchShell { command: String, timeout_ms: u64 },
}

fn missing_param(pname: &str) -> (r: ToolResult)
    ensures
        r.result@ == msg_missing_param(pname@),
        r.metrics is None,
        r.error matches Some(e) && e@ == err_missing_param(pname@),
{
    let result = concat3("Error: Missing '", pname, "' parameter");
    let error = concat3("Missing '", pname, "' parameter");
    ToolResult { result, metrics: None, error: Some(error) }
}

/// Checks a request's inputs and decides what the driver must do.
///
/// The working directory must exist before any tool runs; a missing
/// required field fails the request without side effects; paths are
/// resolved here, and `search_files` compiles to a shell command so that
/// it dispatches through `run_command`, as a single action.
#[verifier::rlimit(100)]
pub fn plan_tool(name: &str, input: &ToolInput, cwd: &str, cwd_exists: bool) -> (r: ToolAction)
    ensures
        !cwd_exists ==> (r matches ToolAction::Finish(t) && t.result@ == msg_workdir_not_found(
            cwd@,
        ) && t.metrics is None && (t.error matches Some(e) && e@ == err_workdir_not_found())),
        cwd_exists && name@ == "read_file"@ ==> match input.path {
            None => r matches ToolAction::Finish(t) && t.result@ == msg_missing_param("path"@)
                && (t.error matches Some(e) && e@ == err_missing_param("path"@)) && t.metrics is None,
            Some(p) => r matches ToolAction::ReadFile { path } && path@ == spec_resolve(cwd@, p@),
        },
        cwd_exists && name@ == "write_file"@ ==> match (input.path, input.content) {
            (None, _) => r matches ToolAction::Finish(t) && t.result@ == msg_missing_param(
                "path"@,
            ) && (t.error matches Some(e) && e@ == err_missing_param("path"@)) && t.metrics is None,
            (Some(p), None) => r matches ToolAction::Finish(t) && t.result@ == msg_missing_param(
                "content"@,
            ) && (t.error matches Some(e) && e@ == err_missing_param("content"@)) && t.metrics is None,
            (Some(p), Some(c)) => r matches ToolAction::WriteFile { path, content } && path@
                == spec_resolve(cwd@, p@) && content == c,
        },
        cwd_exists && name@ == "list_files"@ ==> (r matches ToolAction::ListFiles {
            dir,
            pattern,
        } && dir@ == spec_resolve(
            cwd@,
            match input.path {
                Some(p) => p@,
                None => "."@,
            },
        ) && pattern@ == spec_resolve(
            dir@,
            match input.pattern {
                Some(g) => g@,
                None => "*"@,
            },
        )),
        cwd_exists && name@ == "run_command"@ ==> match input.command {
            None => r matches ToolAction::Finish(t) && t.result@ == msg_missing_param("command"@)
                && (t.error matches Some(e) && e@ == err_missing_param("command"@)) && t.metrics is None,
            Some(c) => r matches ToolAction::RunShell { command, timeout_ms } && command == c
                && timeout_ms == 1000 * COMMAND_TIMEOUT_SECS,
        },
        cwd_exists && name@ == "search_files"@ ==> match input.pattern {
            None => r matches ToolAction::Finish(t) && t.result@ == msg_missing_param("pattern"@)
                && (t.error matches Some(e) && e@ == err_missing_param("pattern"@)) && t.metrics is None,
            Some(g) => r matches ToolAction::SearchShell { command, timeout_ms } && command@
                == spec_search_command(
                g@,
                spec_resolve(
                    cwd@,
                    match input.path {
                        Some(p) => p@,
                        None => "."@,
                    },
                ),
            ) && timeout_ms == 1000 * COMMAND_TIMEOUT_SECS,
        },
        cwd_exists && name@ != "read_file"@ && name@ != "write_file"@ && name@ != "list_files"@
            && name@ != "run_command"@ && name@ != "search_files"@ ==> (r
            matches ToolAction::Finish(t) && t.result@ == msg_unknown_tool(name@) && t.metrics
            is None && (t.error matches Some(e) && e@ == msg_unknown_tool(name@))),
{
    proof {
        lemma_tool_names_distinct();
    }
    if !cwd_exists {
        let result = concat2("Error: Working directory not found: ", cwd);
        return ToolAction::Finish(
            ToolResult {
                result,
                metrics: None,
                error: Some(String::from_str("Working directory not found")),
            },
        );
    }
    if str_eq(name, "read_file") {
        match &input.path {
            None => ToolAction::Finish(missing_param("path")),
            Some(p) => ToolAction::ReadFile { path: resolve_path(cwd, p.as_str()) },
        }
    } else if str_eq(name, "write_file") {
        match (&input.path, &input.content) {
            (None, _) => ToolAction::Finish(missing_param("path")),
            (Some(p), None) => ToolAction::Finish(missing_param("content")),
            (Some(p), Some(c)) => ToolAction::WriteFile {
                path: resolve_path(cwd, p.as_str()),
                content: c.clone(),
            },
        }
    } else if str_eq(name, "list_files") {
        let dir = match &input.path {
            Some(p) => resolve_path(cwd, p.as_str()),
            None => resolve_path(cwd, "."),
        };
        let pattern = match &input.pattern {
            Some(g) => resolve_path(dir.as_str(), g.as_str()),
            None => resolve_path(dir.as_str(), "*"),
        };
        proof {
            reveal_strlit(".");
            reveal_strlit("*");
        }
        ToolAction::ListFiles { dir, pattern }
    } else if str_eq(name, "run_command") {
        match &input.command {
            None => ToolAction::Finish(missing_param("command")),
            Some(c) => ToolAction::RunShell {
                command: c.clone(),
                timeout_ms: 1000 * COMMAND_TIMEOUT_SECS,
            },
        }
    } else if str_eq(name, "search_files") {
        match &input.pattern {
            None => ToolAction::Finish(missing_param("pattern")),
            Some(g) => {
                let dir = match &input.path {
                    Some(p) => resolve_path(cwd, p.as_str()),
                    None => resolve_path(cwd, "."),
                };
                proof {
                    reveal_strlit(".");
                }
                ToolAction::SearchShell {
                    command: search_command(g.as_str(), dir.as_str()),
                    timeout_ms: 1000 * COMMAND_TIMEOUT_SECS,
                }
            },
        }
    } else {
        let result = concat2("Unknown tool: ", name);
        let error = concat2("Unknown tool: ", name);
        ToolAction::Finish(ToolResult { result, metrics: None, error: Some(error) })
    }
}

/// The five tool names are pairwise distinct character sequences.
proof fn lemma_tool_names_distinct()
    ensures
        "read_file"@ != "write_file"@,
        "read_file"@ != "list_files"@,
        "read_file"@ != "run_command"@,
        "read_file"@ != "search_files"@,
        "write_file"@ != "list_files"@,
        "write_file"@ != "run_command"@,
        "write_file"@ != "search_files"@,
        "list_files"@ != "run_command"@,
        "list_files"@ != "search_files"@,
        "run_command"@ != "search_files"@,
{
    broadcast use vstd::string::group_string_axioms;

    reveal_strlit("read_file");
    reveal_strlit("write_file");
    reveal_strlit("list_files");
    reveal_strlit("run_command");
    reveal_strlit("search_files");
    assert("read_file"@.len() == 9);
    assert("write_file"@.len() == 10);
    assert("list_files"@.len() == 10);
    assert("run_command"@.len() == 11);
    assert("search_files"@.len() == 12);
    assert("write_file"@[0] == 'w');
    assert("list_files"@[0] == 'l');
}

} // verus!

