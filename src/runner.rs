use vstd::prelude::*;

verus! {

/// How an external program is to be run.
#[derive(Debug, PartialEq, Eq)]
pub struct RunSpec {
    pub command: String,
    pub arguments: Vec<String>,
    pub dry_run: bool,
}

/// What one execution produced. An exit status of -1 means the process did
/// not exit normally.
#[derive(Debug, PartialEq, Eq)]
pub struct RunResult {
    pub dry_run: bool,
    pub exit_status: i32,
    pub stdout: String,
    pub stderr: String,
}

/// Why an execution produced no result.
#[derive(Debug, PartialEq, Eq)]
pub enum RunError {
    /// The command is not one of the allowed names; nothing was started.
    CommandNotAllowed,
    /// The process could not be started; carries the system's error text.
    SpawnFailed(String),
    /// The process outlived the time limit and was killed.
    Timeout,
}

/// What to do once a request passed the allowlist.
#[derive(Debug, PartialEq, Eq)]
pub enum Start {
    /// A dry run: this is the whole result, and no process is started.
    Simulated(RunResult),
    /// Start the process.
    Spawn,
}

/// What the child process was seen doing at one poll.
#[derive(Debug, PartialEq, Eq)]
pub enum ChildState {
    Running,
    /// It exited, with its exit code where it has one.
    Exited(Option<i32>),
}

/// What the watchdog decides at one poll.
#[derive(Debug, PartialEq, Eq)]
pub enum Poll {
    /// The time limit is past: kill and reap the process.
    Kill,
    /// The process has exited with this status.
    Finished(i32),
    /// Sleep briefly and poll again.
    Wait,
}

/// The exit status that stands for "no normal exit".
pub const NO_EXIT_STATUS: i32 = -1;

/// Fixed for the life of the process: where files may be read from, what may
/// be run, how many bytes of each output stream are kept, and how long a
/// process may run.
pub struct Config {
    pub roots: Vec<String>,
    pub commands: Vec<String>,
    pub output_cap: usize,
    pub timeout_ms: u64,
}

/// The character sequences of a list of strings.
pub open spec fn views(v: Seq<String>) -> Seq<Seq<char>> {
    v.map_values(|s: String| s@)
}

/// `command` is exactly one of `commands`: same characters, same case.
pub open spec fn allowed(commands: Seq<String>, command: Seq<char>) -> bool {
    exists|i: int| 0 <= i < commands.len() && #[trigger] commands[i]@ == command
}

/// What `{:?}` writes for a string: the quoted and escaped form.
pub uninterp spec fn debug_text(s: Seq<char>) -> Seq<char>;

/// What lossy UTF-8 decoding makes of a byte string.
pub uninterp spec fn lossy_text(b: Seq<u8>) -> Seq<char>;

/// `items` separated by `", "`.
pub open spec fn joined(items: Seq<Seq<char>>) -> Seq<char>
    decreases items.len(),
{
    if items.len() == 0 {
        Seq::empty()
    } else if items.len() == 1 {
        items[0]
    } else {
        joined(items.drop_last()) + ", "@ + items.last()
    }
}

/// The echo of `command` with arguments already in their quoted form.
pub open spec fn echo_of_quoted(command: Seq<char>, quoted: Seq<Seq<char>>) -> Seq<char> {
    "DRY-RUN: "@ + command + " ["@ + joined(quoted) + "]"@
}

/// The echo a dry run prints in place of running the command: each argument
/// in its `{:?}` form, in a bracketed list.
pub open spec fn echo_text(command: Seq<char>, arguments: Seq<Seq<char>>) -> Seq<char> {
    echo_of_quoted(command, arguments.map_values(|a: Seq<char>| debug_text(a)))
}

/// What `start` returns for `spec` under the allowed `commands`.
pub open spec fn start_outcome(commands: Seq<String>, spec: RunSpec, r: Result<Start, RunError>) -> bool {
    if !allowed(commands, spec.command@) {
        r matches Err(RunError::CommandNotAllowed)
    } else if spec.dry_run {
        r matches Ok(Start::Simulated(res)) && res.dry_run && res.exit_status == 0
            && res.stdout@ == echo_text(spec.command@, views(spec.arguments@))
            && res.stderr@.len() == 0
    } else {
        r matches Ok(Start::Spawn)
    }
}

/// Relies on the `Debug` impl of `str`, which quotes and escapes.
#[verifier::external_body]
fn quoted(s: &String) -> (r: String)
    ensures
        r@ == debug_text(s@),
{
    format!("{:?}", s)
}

/// Relies on `String::from_utf8_lossy`: invalid sequences become U+FFFD, and
/// no bytes give the empty string.
#[verifier::external_body]
fn decode_lossy(b: &Vec<u8>) -> (r: String)
    ensures
        r@ == lossy_text(b@),
        b@.len() == 0 ==> r@.len() == 0,
{
    String::from_utf8_lossy(b).into_owned()
}

impl RunError {
    /// The stable label of the failure, or the system's text for a failed spawn.
    pub fn message(&self) -> (r: String)
        ensures
            self is CommandNotAllowed ==> r@ == "command not allowed"@,
            self is Timeout ==> r@ == "timeout"@,
            self matches RunError::SpawnFailed(m) ==> r@ == m@,
    {
        match self {
            RunError::CommandNotAllowed => String::from_str("command not allowed"),
            RunError::SpawnFailed(m) => m.clone(),
            RunError::Timeout => String::from_str("timeout"),
        }
    }
}

impl Config {
    /// The project directories, the version-control, code-hosting and
    /// interpreter commands, a 200,000-byte cap and a 60-second limit.
    pub fn standard() -> (c: Config)
        ensures
            views(c.roots@) == seq!["."@, "ade"@, "kit"@, "src"@, "scripts"@],
            views(c.commands@) == seq!["git"@, "gh"@, "python3"@, "bash"@],
            c.output_cap == 200000,
            c.timeout_ms == 60000,
    {
        let roots = vec![
            String::from_str("."),
            String::from_str("ade"),
            String::from_str("kit"),
            String::from_str("src"),
            String::from_str("scripts"),
        ];
        let commands = vec![
            String::from_str("git"),
            String::from_str("gh"),
            String::from_str("python3"),
            String::from_str("bash"),
        ];
        assert(views(roots@) =~= seq!["."@, "ade"@, "kit"@, "src"@, "scripts"@]);
        assert(views(commands@) =~= seq!["git"@, "gh"@, "python3"@, "bash"@]);
        Config { roots, commands, output_cap: 200000, timeout_ms: 60000 }
    }
}

/// Exact, case-sensitive membership of `command` in `commands`. A path such as
/// `/usr/bin/git` is its own name and matches only itself.
pub fn is_allowed(commands: &Vec<String>, command: &String) -> (r: bool)
    ensures
        r == allowed(commands@, command@),
{
    let mut i: usize = 0;
    while i < commands.len()
        invariant
            i <= commands@.len(),
            forall|j: int| 0 <= j < i ==> #[trigger] commands@[j]@ != command@,
        decreases commands@.len() - i,
    {
        if commands[i] == *command {
            return true;
        }
        i = i + 1;
    }
    false
}

/// The dry-run echo of `command`, given its arguments already quoted.
pub fn echo_quoted(command: &String, quoted: &Vec<String>) -> (r: String)
    ensures
        r@ == echo_of_quoted(command@, views(quoted@)),
{
    let ghost items = views(quoted@);
    let mut out = String::from_str("DRY-RUN: ");
    out.append(command.as_str());
    out.append(" [");
    let ghost head = out@;
    let mut i: usize = 0;
    while i < quoted.len()
        invariant
            i <= quoted@.len(),
            items == views(quoted@),
            out@ == head + joined(items.take(i as int)),
        decreases quoted@.len() - i,
    {
        if i > 0 {
            out.append(", ");
        }
        out.append(quoted[i].as_str());
        assert(items.take(i as int + 1).drop_last() =~= items.take(i as int));
        i = i + 1;
    }
    assert(items.take(quoted@.len() as int) =~= items);
    out.append("]");
    out
}

/// The text a dry run of `command` with `arguments` reports.
pub fn dry_run_echo(command: &String, arguments: &Vec<String>) -> (r: String)
    ensures
        r@ == echo_text(command@, views(arguments@)),
{
    let ghost args = views(arguments@);
    let mut quoted_args: Vec<String> = Vec::new();
    let mut i: usize = 0;
    while i < arguments.len()
        invariant
            i <= arguments@.len(),
            args == views(arguments@),
            quoted_args@.len() == i,
            forall|j: int| 0 <= j < i ==> #[trigger] quoted_args@[j]@ == debug_text(args[j]),
        decreases arguments@.len() - i,
    {
        let q = quoted(&arguments[i]);
        quoted_args.push(q);
        i = i + 1;
    }
    assert(views(quoted_args@) =~= args.map_values(|a: Seq<char>| debug_text(a)));
    echo_quoted(command, &quoted_args)
}

/// The allowlist and dry-run decisions. A command that is not allowed is
/// refused whatever else the request says; an allowed dry run yields its
/// whole result without starting anything; otherwise the process is started.
pub fn start(config: &Config, spec: &RunSpec) -> (r: Result<Start, RunError>)
    ensures
        start_outcome(config.commands@, *spec, r),
{
    if !is_allowed(&config.commands, &spec.command) {
        return Err(RunError::CommandNotAllowed);
    }
    if spec.dry_run {
        let stdout = dry_run_echo(&spec.command, &spec.arguments);
        return Ok(
            Start::Simulated(RunResult { dry_run: true, exit_status: 0, stdout, stderr: String::new() }),
        );
    }
    Ok(Start::Spawn)
}

/// One poll of the watchdog, which runs beside the two drains. The time limit
/// is checked first, so a process still running past it is always killed.
pub fn poll(elapsed_ms: u64, timeout_ms: u64, child: &ChildState) -> (p: Poll)
    ensures
        elapsed_ms > timeout_ms ==> p is Kill,
        elapsed_ms <= timeout_ms ==> match child {
            ChildState::Running => p is Wait,
            ChildState::Exited(Some(code)) => p == Poll::Finished(*code),
            ChildState::Exited(None) => p == Poll::Finished(NO_EXIT_STATUS),
        },
{
    if elapsed_ms > timeout_ms {
        return Poll::Kill;
    }
    match child {
        ChildState::Running => Poll::Wait,
        ChildState::Exited(Some(code)) => Poll::Finished(*code),
        ChildState::Exited(None) => Poll::Finished(NO_EXIT_STATUS),
    }
}

/// The result of a started process, from the watchdog's explicit timeout flag,
/// the exit status and the bytes each drain kept. A timeout is reported as
/// such and never as an exit status; output is decoded lossily.
pub fn finish(timed_out: bool, exit_status: i32, stdout: &Vec<u8>, stderr: &Vec<u8>) -> (r: Result<
    RunResult,
    RunError,
>)
    ensures
        timed_out <==> r matches Err(RunError::Timeout),
        r is Err ==> r matches Err(RunError::Timeout),
        !timed_out ==> (r matches Ok(res) && !res.dry_run && res.exit_status == exit_status
            && res.stdout@ == lossy_text(stdout@) && res.stderr@ == lossy_text(stderr@)),
{
    if timed_out {
        return Err(RunError::Timeout);
    }
    Ok(
        RunResult {
            dry_run: false,
            exit_status,
            stdout: decode_lossy(stdout),
            stderr: decode_lossy(stderr),
        },
    )
}

/// A refused command is refused the same way on every call, whatever the
/// arguments and the dry-run flag: two calls that name it both end in the same
/// rejection.
pub proof fn lemma_rejection_is_stable(
    commands: Seq<String>,
    spec1: RunSpec,
    r1: Result<Start, RunError>,
    spec2: RunSpec,
    r2: Result<Start, RunError>,
)
    requires
        !allowed(commands, spec1.command@),
        spec2.command@ == spec1.command@,
        start_outcome(commands, spec1, r1),
        start_outcome(commands, spec2, r2),
    ensures
        r1 == r2,
        r1 matches Err(RunError::CommandNotAllowed),
{
}

} // verus!
