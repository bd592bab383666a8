use crate::config::{lemma_texts_push, texts};
use crate::paths::{clone_opt, opt_view};
use vstd::prelude::*;
use vstd::string::*;

verus! {

/// The part of the application's live settings that a build reads.
#[derive(Clone, Debug, Default)]
pub struct AppConfig {
    pub project_dir: Option<String>,
    pub custom_make: Option<String>,
    pub selected_wsl_distro: Option<String>,
}

/// A snapshot of what one build invocation needs.
#[derive(Clone, Debug, Default)]
pub struct BuildConfig {
    pub project_dir: Option<String>,
    pub custom_make: Option<String>,
    pub selected_wsl_distro: Option<String>,
}

impl BuildConfig {
    /// Takes a snapshot of the build settings of the application.
    pub fn from_config(config: &AppConfig) -> (r: Self)
        ensures
            r.project_dir == config.project_dir,
            r.custom_make == config.custom_make,
            r.selected_wsl_distro == config.selected_wsl_distro,
    {
        BuildConfig {
            project_dir: clone_opt(&config.project_dir),
            custom_make: clone_opt(&config.custom_make),
            selected_wsl_distro: clone_opt(&config.selected_wsl_distro),
        }
    }
}

/// The outcome of one build invocation.
#[derive(Clone, Debug, Default)]
pub struct BuildStatus {
    pub success: bool,
    pub cmdline: String,
    pub stdout: String,
    pub stderr: String,
}

/// Whether a status is a failure carrying only `message` as its error text.
pub open spec fn is_failure_with(s: BuildStatus, message: Seq<char>) -> bool {
    !s.success && s.cmdline@ == Seq::<char>::empty() && s.stdout@ == Seq::<char>::empty()
        && s.stderr@ == message
}

fn failure(message: &str) -> (r: BuildStatus)
    ensures
        is_failure_with(r, message@),
{
    BuildStatus {
        success: false,
        cmdline: String::new(),
        stdout: String::new(),
        stderr: String::from_str(message),
    }
}

/// The status of a build requested without a project directory.
pub fn missing_project_dir_status() -> (r: BuildStatus)
    ensures
        is_failure_with(r, "Missing project dir"@),
{
    failure("Missing project dir")
}

/// The status of a build whose process could not be run.
pub fn spawn_failed_status() -> (r: BuildStatus)
    ensures
        is_failure_with(r, "Failed to execute build"@),
{
    failure("Failed to execute build")
}

/// How to run the build tool: the program, its arguments, and the working
/// directory, if one is set.
#[derive(Clone, Debug)]
pub struct CommandPlan {
    pub program: String,
    pub args: Vec<String>,
    pub cwd: Option<String>,
}

/// The build tool: the custom one if configured, else `make`.
pub open spec fn make_tool(config: BuildConfig) -> Seq<char> {
    match config.custom_make {
        Some(m) => m@,
        None => "make"@,
    }
}

/// Whether the build runs through the Linux compatibility launcher.
pub open spec fn via_wsl(config: BuildConfig, windows: bool) -> bool {
    windows && config.selected_wsl_distro.is_some()
}

/// The program a plan runs.
pub open spec fn plan_program(config: BuildConfig, windows: bool) -> Seq<char> {
    if via_wsl(config, windows) {
        "wsl"@
    } else {
        make_tool(config)
    }
}

/// The arguments a plan passes. Natively the target is passed as given; on
/// Windows it is passed in its forward-slash form `slash_arg`, and through the
/// launcher after the directory, distribution and tool.
pub open spec fn plan_args(
    config: BuildConfig,
    cwd: Seq<char>,
    arg: Seq<char>,
    slash_arg: Seq<char>,
    windows: bool,
) -> Seq<Seq<char>> {
    if !windows {
        seq![arg]
    } else if via_wsl(config, windows) {
        seq![
            "--cd"@,
            cwd,
            "-d"@,
            config.selected_wsl_distro.unwrap()@,
            "--"@,
            make_tool(config),
            slash_arg,
        ]
    } else {
        seq![slash_arg]
    }
}

/// The working directory a plan sets; the launcher is told it by argument.
pub open spec fn plan_cwd(config: BuildConfig, cwd: Seq<char>, windows: bool) -> Option<
    Seq<char>,
> {
    if via_wsl(config, windows) {
        None
    } else {
        Some(cwd)
    }
}

/// Whether `p` is the plan for these inputs.
pub open spec fn is_plan(
    p: CommandPlan,
    config: BuildConfig,
    cwd: Seq<char>,
    arg: Seq<char>,
    slash_arg: Seq<char>,
    windows: bool,
) -> bool {
    p.program@ == plan_program(config, windows) && texts(p.args@) == plan_args(
        config,
        cwd,
        arg,
        slash_arg,
        windows,
    ) && opt_view(p.cwd) == plan_cwd(config, cwd, windows)
}

fn text_vec(parts: &Vec<&str>) -> (r: Vec<String>)
    ensures
        texts(r@) == parts@.map_values(|s: &str| s@),
{
    let mut r: Vec<String> = Vec::new();
    let mut i: usize = 0;
    while i < parts.len()
        invariant
            i <= parts@.len(),
            texts(r@) == parts@.map_values(|s: &str| s@).take(i as int),
        decreases parts@.len() - i,
    {
        let ghost before = r@;
        let t = String::from_str(parts[i]);
        r.push(t);
        proof {
            lemma_texts_push(before, t);
        }
        assert(texts(r@) =~= parts@.map_values(|s: &str| s@).take(i + 1));
        i = i + 1;
    }
    assert(parts@.map_values(|s: &str| s@).take(i as int) =~= parts@.map_values(|s: &str| s@));
    r
}

/// Plans the build of `arg` in the project directory `cwd`, with the
/// target's forward-slash form given as `slash_arg`. On Windows with a
/// selected distribution the tool runs through the `wsl` launcher.
pub fn command_plan(
    config: &BuildConfig,
    cwd: &str,
    arg: &str,
    slash_arg: &str,
    windows: bool,
) -> (r: CommandPlan)
    ensures
        is_plan(r, *config, cwd@, arg@, slash_arg@, windows),
{
    proof {
        reveal_strlit("make");
        reveal_strlit("wsl");
        reveal_strlit("--cd");
        reveal_strlit("-d");
        reveal_strlit("--");
    }
    let make: &str = match &config.custom_make {
        Some(m) => m.as_str(),
        None => "make",
    };
    if !windows {
        let parts = vec![arg];
        let args = text_vec(&parts);
        assert(parts@.map_values(|s: &str| s@) =~= seq![arg@]);
        return CommandPlan { program: String::from_str(make), args, cwd: Some(String::from_str(cwd)) };
    }
    match &config.selected_wsl_distro {
        Some(distro) => {
            let parts = vec!["--cd", cwd, "-d", distro.as_str(), "--", make, slash_arg];
            let args = text_vec(&parts);
            assert(parts@.map_values(|s: &str| s@) =~= plan_args(
                *config,
                cwd@,
                arg@,
                slash_arg@,
                windows,
            ));
            CommandPlan { program: String::from_str("wsl"), args, cwd: None }
        },
        None => {
            let parts = vec![slash_arg];
            let args = text_vec(&parts);
            assert(parts@.map_values(|s: &str| s@) =~= seq![slash_arg@]);
            CommandPlan {
                program: String::from_str(make),
                args,
                cwd: Some(String::from_str(cwd)),
            }
        },
    }
}


/// Relies on `path_slash::PathExt::to_slash_lossy`: the path written with
/// `/` separators. What it returns depends on the platform it runs on.
#[verifier::external_body]
fn slash_form(p: &str) -> String {
    path_slash::PathExt::to_slash_lossy(std::path::Path::new(p)).into_owned()
}

/// Plans the build of the target `arg`. Without a project directory nothing
/// is to be run and the failure status is returned; otherwise the plan runs
/// in the project directory, with whatever forward-slash form of the target
/// the platform gave.
pub fn plan_build(config: &BuildConfig, arg: &str, windows: bool) -> (r: Result<
    CommandPlan,
    BuildStatus,
>)
    ensures
        match r {
            Err(status) => config.project_dir is None && is_failure_with(
                status,
                "Missing project dir"@,
            ),
            Ok(plan) => config.project_dir is Some && exists|slash_arg: Seq<char>|
                is_plan(plan, *config, config.project_dir.unwrap()@, arg@, slash_arg, windows),
        },
{
    match &config.project_dir {
        None => Err(missing_project_dir_status()),
        Some(cwd) => {
            let slash_arg = if windows {
                slash_form(arg)
            } else {
                String::from_str(arg)
            };
            let plan = command_plan(config, cwd.as_str(), arg, slash_arg.as_str(), windows);
            assert(is_plan(plan, *config, cwd@, arg@, slash_arg@, windows));
            Ok(plan)
        },
    }
}

/// What `shell_escape::unix::escape` makes of a text.
pub uninterp spec fn sh_escaped(s: Seq<char>) -> Seq<char>;

/// What `shell_escape::windows::escape` makes of a text.
pub uninterp spec fn cmd_escaped(s: Seq<char>) -> Seq<char>;

/// Characters a POSIX shell reads literally.
pub open spec fn sh_plain(c: char) -> bool {
    ('a' <= c && c <= 'z') || ('A' <= c && c <= 'Z') || ('0' <= c && c <= '9') || c == '-' || c
        == '_' || c == '=' || c == '/' || c == ',' || c == '.' || c == '+'
}

/// Characters that need no quoting for the Windows command shell.
pub open spec fn cmd_plain(c: char) -> bool {
    c != '"' && c != '\t' && c != '\n' && c != ' '
}

/// Relies on `shell_escape::unix::escape`: quotes a text for a POSIX shell,
/// leaving it as it is when it is non-empty and all its characters are
/// plain.
#[verifier::external_body]
fn escape_sh(s: &str) -> (r: String)
    ensures
        r@ == sh_escaped(s@),
        s@.len() > 0 && (forall|i: int| 0 <= i < s@.len() ==> sh_plain(#[trigger] s@[i]))
            ==> r@ == s@,
{
    shell_escape::unix::escape(std::borrow::Cow::Borrowed(s)).into_owned()
}

/// Relies on `shell_escape::windows::escape`: quotes a text for the Windows
/// command shell, leaving it as it is when it is non-empty and holds no
/// quote, tab, newline or space.
#[verifier::external_body]
fn escape_cmd(s: &str) -> (r: String)
    ensures
        r@ == cmd_escaped(s@),
        s@.len() > 0 && (forall|i: int| 0 <= i < s@.len() ==> cmd_plain(#[trigger] s@[i]))
            ==> r@ == s@,
{
    shell_escape::windows::escape(std::borrow::Cow::Borrowed(s)).into_owned()
}

/// A text quoted for display, in the Windows command shell's style or in
/// the POSIX shell's.
pub open spec fn escaped(s: Seq<char>, cmd_quoting: bool) -> Seq<char> {
    if cmd_quoting {
        cmd_escaped(s)
    } else {
        sh_escaped(s)
    }
}

/// Whether a text is non-empty and made only of characters that the chosen
/// quoting style leaves alone.
pub open spec fn is_plain_text(s: Seq<char>, cmd_quoting: bool) -> bool {
    s.len() > 0 && forall|i: int|
        0 <= i < s.len() ==> if cmd_quoting {
            cmd_plain(#[trigger] s[i])
        } else {
            sh_plain(s[i])
        }
}

fn escape_text(s: &str, cmd_quoting: bool) -> (r: String)
    ensures
        r@ == escaped(s@, cmd_quoting),
        is_plain_text(s@, cmd_quoting) ==> r@ == s@,
{
    if cmd_quoting {
        escape_cmd(s)
    } else {
        escape_sh(s)
    }
}

/// Each argument quoted and preceded by a space.
pub open spec fn escaped_args(args: Seq<Seq<char>>, cmd_quoting: bool) -> Seq<char>
    decreases args.len(),
{
    if args.len() == 0 {
        Seq::empty()
    } else {
        escaped_args(args.drop_last(), cmd_quoting) + seq![' '] + escaped(
            args.last(),
            cmd_quoting,
        )
    }
}

/// The displayed command line: the quoted program followed by the quoted
/// arguments, separated by spaces.
pub open spec fn cmdline_of(program: Seq<char>, args: Seq<Seq<char>>, cmd_quoting: bool) -> Seq<
    char,
> {
    escaped(program, cmd_quoting) + escaped_args(args, cmd_quoting)
}

/// The command line of a plan, quoted for display only. The program and
/// each argument that is plain text appear in it unchanged.
pub fn command_line(plan: &CommandPlan, cmd_quoting: bool) -> (r: String)
    ensures
        r@ == cmdline_of(plan.program@, texts(plan.args@), cmd_quoting),
        is_plain_text(plan.program@, cmd_quoting) ==> escaped(plan.program@, cmd_quoting)
            == plan.program@,
        forall|i: int|
            0 <= i < plan.args@.len() && is_plain_text(#[trigger] plan.args@[i]@, cmd_quoting)
                ==> escaped(plan.args@[i]@, cmd_quoting) == plan.args@[i]@,
{
    let mut s = escape_text(plan.program.as_str(), cmd_quoting);
    let ghost args = texts(plan.args@);
    let mut i: usize = 0;
    while i < plan.args.len()
        invariant
            i <= plan.args@.len(),
            args == texts(plan.args@),
            s@ == escaped(plan.program@, cmd_quoting) + escaped_args(args.take(i as int), cmd_quoting),
            is_plain_text(plan.program@, cmd_quoting) ==> escaped(plan.program@, cmd_quoting)
                == plan.program@,
            forall|j: int|
                0 <= j < i && is_plain_text(#[trigger] plan.args@[j]@, cmd_quoting) ==> escaped(
                    plan.args@[j]@,
                    cmd_quoting,
                ) == plan.args@[j]@,
        decreases plan.args@.len() - i,
    {
        proof {
            reveal_strlit(" ");
        }
        let e = escape_text(plan.args[i].as_str(), cmd_quoting);
        s.append(" ");
        s.append(e.as_str());
        proof {
            let next = args.take(i + 1);
            assert(next.drop_last() =~= args.take(i as int));
            assert(next.last() == plan.args@[i as int]@);
            assert(" "@ =~= seq![' ']);
        }
        i = i + 1;
    }
    assert(args.take(i as int) =~= args);
    s
}

/// Over a plan that runs through the launcher, the displayed command line
/// names the launcher, the distribution-selection flag and distribution,
/// the build tool, and the forward-slash form of the target.
pub proof fn lemma_wsl_cmdline(
    config: BuildConfig,
    cwd: Seq<char>,
    arg: Seq<char>,
    slash_arg: Seq<char>,
    plan: CommandPlan,
    cmd_quoting: bool,
)
    requires
        is_plan(plan, config, cwd, arg, slash_arg, true),
        config.selected_wsl_distro is Some,
    ensures
        cmdline_of(plan.program@, texts(plan.args@), cmd_quoting) == escaped("wsl"@, cmd_quoting)
            + seq![' '] + escaped("--cd"@, cmd_quoting) + seq![' '] + escaped(cwd, cmd_quoting)
            + seq![' '] + escaped("-d"@, cmd_quoting) + seq![' '] + escaped(
            config.selected_wsl_distro.unwrap()@,
            cmd_quoting,
        ) + seq![' '] + escaped("--"@, cmd_quoting) + seq![' '] + escaped(
            make_tool(config),
            cmd_quoting,
        ) + seq![' '] + escaped(slash_arg, cmd_quoting),
{
    let a = texts(plan.args@);
    let q = cmd_quoting;
    assert(a.take(7) =~= a);
    assert(a.take(1).drop_last() =~= a.take(0));
    assert(a.take(2).drop_last() =~= a.take(1));
    assert(a.take(3).drop_last() =~= a.take(2));
    assert(a.take(4).drop_last() =~= a.take(3));
    assert(a.take(5).drop_last() =~= a.take(4));
    assert(a.take(6).drop_last() =~= a.take(5));
    assert(a.take(7).drop_last() =~= a.take(6));
    let e0 = escaped_args(a.take(0), q);
    assert(e0 =~= Seq::<char>::empty());
    let e1 = escaped_args(a.take(1), q);
    assert(e1 == e0 + seq![' '] + escaped(a[0], q));
    let e2 = escaped_args(a.take(2), q);
    assert(e2 == e1 + seq![' '] + escaped(a[1], q));
    let e3 = escaped_args(a.take(3), q);
    assert(e3 == e2 + seq![' '] + escaped(a[2], q));
    let e4 = escaped_args(a.take(4), q);
    assert(e4 == e3 + seq![' '] + escaped(a[3], q));
    let e5 = escaped_args(a.take(5), q);
    assert(e5 == e4 + seq![' '] + escaped(a[4], q));
    let e6 = escaped_args(a.take(6), q);
    assert(e6 == e5 + seq![' '] + escaped(a[5], q));
    let e7 = escaped_args(a.take(7), q);
    assert(e7 == e6 + seq![' '] + escaped(a[6], q));
    assert(cmdline_of(plan.program@, a, cmd_quoting) =~= escaped("wsl"@, cmd_quoting)
        + seq![' '] + escaped("--cd"@, cmd_quoting) + seq![' '] + escaped(cwd, cmd_quoting)
        + seq![' '] + escaped("-d"@, cmd_quoting) + seq![' '] + escaped(
        config.selected_wsl_distro.unwrap()@,
        cmd_quoting,
    ) + seq![' '] + escaped("--"@, cmd_quoting) + seq![' '] + escaped(
        make_tool(config),
        cmd_quoting,
    ) + seq![' '] + escaped(slash_arg, cmd_quoting));
}


/// What a finished build process handed back: its exit code, if it exited
/// with one, and the raw bytes of its two output streams.
#[derive(Clone, Debug)]
pub struct ProcessOutput {
    pub code: Option<i32>,
    pub stdout: Vec<u8>,
    pub stderr: Vec<u8>,
}

/// The text that UTF-8 bytes decode to, if they are valid UTF-8.
pub uninterp spec fn utf8_text(bytes: Seq<u8>) -> Option<Seq<char>>;

/// Relies on `std::str::from_utf8`: decodes the bytes when they are valid
/// UTF-8.
#[verifier::external_body]
fn decode_utf8(b: &Vec<u8>) -> (r: Option<String>)
    ensures
        opt_view(r) == utf8_text(b@),
{
    match std::str::from_utf8(b.as_slice()) {
        Ok(s) => Some(s.to_string()),
        Err(_) => None,
    }
}

/// Whether `r` is the status of a process that exited with `code` and whose
/// output streams decoded to `out` and `err`: a stream that is not text makes
/// the build fail with a message naming it; otherwise the build succeeded
/// exactly when the exit code is zero, and both texts are kept as they are.
pub open spec fn is_status_of(
    r: BuildStatus,
    cmdline: Seq<char>,
    code: Option<i32>,
    out: Option<Seq<char>>,
    err: Option<Seq<char>>,
) -> bool {
    match (out, err) {
        (None, _) => is_failure_with(r, "Failed to process stdout"@),
        (Some(_), None) => is_failure_with(r, "Failed to process stderr"@),
        (Some(o), Some(e)) => r.success == (code == Some(0i32)) && r.cmdline@ == cmdline
            && r.stdout@ == o && r.stderr@ == e,
    }
}

/// The status of a finished build from its exit code and decoded output.
pub fn status_from_text(
    cmdline: String,
    code: Option<i32>,
    stdout: Option<String>,
    stderr: Option<String>,
) -> (r: BuildStatus)
    ensures
        is_status_of(r, cmdline@, code, opt_view(stdout), opt_view(stderr)),
{
    match (stdout, stderr) {
        (None, _) => failure("Failed to process stdout"),
        (Some(_), None) => failure("Failed to process stderr"),
        (Some(out), Some(err)) => {
            let success = match code {
                Some(c) => c == 0,
                None => false,
            };
            BuildStatus { success, cmdline, stdout: out, stderr: err }
        },
    }
}

/// The status of a build from what its process handed back, `None` when it
/// could not be run.
pub fn finish_build(cmdline: String, output: Option<ProcessOutput>) -> (r: BuildStatus)
    ensures
        match output {
            None => is_failure_with(r, "Failed to execute build"@),
            Some(o) => is_status_of(r, cmdline@, o.code, utf8_text(o.stdout@), utf8_text(o.stderr@)),
        },
{
    match output {
        None => spawn_failed_status(),
        Some(o) => {
            let out = decode_utf8(&o.stdout);
            let err = decode_utf8(&o.stderr);
            status_from_text(cmdline, o.code, out, err)
        },
    }
}

} // verus!
