//! Command lines for opening links and launching the system monitor, and the
//! fallback sequence that tries each monitor launcher until one starts.
//!
//! Inside a Flatpak sandbox every command runs on the host through
//! `flatpak-spawn --host`.

use vstd::prelude::*;

verus! {

/// A program and its arguments, ready to be spawned.
#[derive(Clone, Debug, PartialEq, Eq)]
pub struct SpawnCommand {
    pub program: String,
    pub args: Vec<String>,
}

/// A command line as text: the program, then each argument.
pub type CommandLine = (Seq<char>, Seq<Seq<char>>);

/// The text of a command.
pub open spec fn command_line(c: SpawnCommand) -> CommandLine {
    (c.program@, c.args@.map_values(|a: String| a@))
}

/// The same command line, run on the host from inside the sandbox.
pub open spec fn on_host(c: CommandLine) -> CommandLine {
    ("flatpak-spawn"@, seq!["--host"@, c.0] + c.1)
}

/// `c` as it must be run: on the host when sandboxed, directly otherwise.
pub open spec fn placed(c: CommandLine, in_flatpak: bool) -> CommandLine {
    if in_flatpak { on_host(c) } else { c }
}

/// Desktop id of the system monitor.
pub open spec fn monitor_desktop_id() -> Seq<char> {
    "com.system76.CosmicMonitor"@
}

/// The monitor launchers in the order they are tried: `gtk4-launch`, then
/// `gtk-launch` with the monitor's desktop id, then the monitor binary.
pub open spec fn monitor_launchers() -> Seq<CommandLine> {
    seq![
        ("gtk4-launch"@, seq![monitor_desktop_id()]),
        ("gtk-launch"@, seq![monitor_desktop_id()]),
        ("cosmic-monitor"@, Seq::<Seq<char>>::empty()),
    ]
}

/// The monitor attempts for this environment.
pub open spec fn monitor_attempts(in_flatpak: bool) -> Seq<CommandLine> {
    monitor_launchers().map_values(|c: CommandLine| placed(c, in_flatpak))
}

/// A string holding `s`.
fn owned(s: &str) -> (r: String)
    ensures
        r@ == s@,
{
    s.to_owned()
}

/// Builds `program args...`, wrapped to run on the host when sandboxed.
fn place(program: &str, args: Vec<String>, in_flatpak: bool) -> (c: SpawnCommand)
    ensures
        command_line(c) == placed((program@, args@.map_values(|a: String| a@)), in_flatpak),
        !in_flatpak ==> c.program@ == program@,
        !in_flatpak ==> c.args@.len() == args@.len(),
        !in_flatpak ==> forall|i: int| 0 <= i < args@.len() ==> #[trigger] c.args@[i]@ == args@[i]@,
        in_flatpak ==> c.program@ == "flatpak-spawn"@,
        in_flatpak ==> c.args@.len() == args@.len() + 2,
        in_flatpak ==> c.args@[0]@ == "--host"@,
        in_flatpak ==> c.args@[1]@ == program@,
        in_flatpak ==> forall|i: int| 0 <= i < args@.len() ==> #[trigger] c.args@[2 + i]@ == args@[i]@,
{
    if in_flatpak {
        let mut host_args: Vec<String> = Vec::new();
        host_args.push(owned("--host"));
        host_args.push(owned(program));
        let mut i: usize = 0;
        while i < args.len()
            invariant
                i <= args.len(),
                host_args@.len() == 2 + i,
                host_args@[0]@ == "--host"@,
                host_args@[1]@ == program@,
                forall|j: int| 0 <= j < i ==> #[trigger] host_args@[2 + j]@ == args@[j]@,
            decreases args.len() - i,
        {
            let a = args[i].clone();
            host_args.push(a);
            i = i + 1;
        }
        assert(host_args@.map_values(|a: String| a@) =~= seq!["--host"@, program@]
            + args@.map_values(|a: String| a@)) by {
            assert forall|k: int| 2 <= k < host_args@.len() implies
                host_args@[k]@ == args@[k - 2]@ by {
                assert(host_args@[2 + (k - 2)]@ == args@[k - 2]@);
            }
        }
        SpawnCommand { program: owned("flatpak-spawn"), args: host_args }
    } else {
        SpawnCommand { program: owned(program), args }
    }
}

/// The command that opens `url` in the default browser: `xdg-open url`,
/// run on the host when sandboxed.
pub fn open_url_command(url: &str, in_flatpak: bool) -> (c: SpawnCommand)
    ensures
        command_line(c) == placed(("xdg-open"@, seq![url@]), in_flatpak),
        !in_flatpak ==> c.program@ == "xdg-open"@,
        !in_flatpak ==> c.args@.len() == 1,
        !in_flatpak ==> c.args@[0]@ == url@,
        in_flatpak ==> c.program@ == "flatpak-spawn"@,
        in_flatpak ==> c.args@.len() == 3,
        in_flatpak ==> c.args@[0]@ == "--host"@,
        in_flatpak ==> c.args@[1]@ == "xdg-open"@,
        in_flatpak ==> c.args@[2]@ == url@,
{
    let mut args: Vec<String> = Vec::new();
    args.push(owned(url));
    assert(args@.map_values(|a: String| a@) == seq![url@]);
    let c = place("xdg-open", args, in_flatpak);
    assert(in_flatpak ==> c.args@[2 + 0int]@ == url@);
    c
}

/// The monitor launch attempts, in the order they are tried.
pub fn monitor_launch_attempts(in_flatpak: bool) -> (v: Vec<SpawnCommand>)
    ensures
        v@.map_values(|c: SpawnCommand| command_line(c)) == monitor_attempts(in_flatpak),
{
    let desktop_id = "com.system76.CosmicMonitor";
    let mut first_args: Vec<String> = Vec::new();
    first_args.push(owned(desktop_id));
    let mut second_args: Vec<String> = Vec::new();
    second_args.push(owned(desktop_id));
    let third_args: Vec<String> = Vec::new();
    assert(first_args@.map_values(|a: String| a@) == seq![monitor_desktop_id()]);
    assert(second_args@.map_values(|a: String| a@) == seq![monitor_desktop_id()]);
    assert(third_args@.map_values(|a: String| a@) == Seq::<Seq<char>>::empty());
    let mut v: Vec<SpawnCommand> = Vec::new();
    v.push(place("gtk4-launch", first_args, in_flatpak));
    v.push(place("gtk-launch", second_args, in_flatpak));
    v.push(place("cosmic-monitor", third_args, in_flatpak));
    assert(v@.map_values(|c: SpawnCommand| command_line(c)) == monitor_attempts(in_flatpak));
    v
}

/// Progress through the monitor launch attempts: each attempt is spawned in
/// turn until one starts, or every fallback has failed.
pub struct MonitorLaunch {
    attempts: Vec<SpawnCommand>,
    tried: usize,
    launched: bool,
}

/// The abstract progress of a monitor launch.
pub struct LaunchView {
    /// The attempts, in order.
    pub attempts: Seq<CommandLine>,
    /// How many attempts have been spawned so far.
    pub tried: nat,
    /// Whether the last spawned attempt started.
    pub launched: bool,
}

impl View for MonitorLaunch {
    type V = LaunchView;

    closed spec fn view(&self) -> LaunchView {
        LaunchView {
            attempts: self.attempts@.map_values(|c: SpawnCommand| command_line(c)),
            tried: self.tried as nat,
            launched: self.launched,
        }
    }
}

impl LaunchView {
    /// No attempt is left to spawn: one started, or all were tried.
    pub open spec fn finished(self) -> bool {
        self.launched || self.tried >= self.attempts.len()
    }

    /// The progress after the next attempt was spawned, `spawned` saying
    /// whether it started.
    pub open spec fn record(self, spawned: bool) -> LaunchView {
        LaunchView { attempts: self.attempts, tried: self.tried + 1, launched: spawned }
    }

    /// The progress after spawning attempts in turn, the i-th spawned one
    /// starting exactly when `results[i]`, until the launch is finished.
    pub open spec fn run(self, results: Seq<bool>) -> LaunchView
        decreases results.len(),
    {
        if self.finished() || results.len() == 0 {
            self
        } else {
            self.record(results[0]).run(results.drop_first())
        }
    }
}

/// Index of the first `true` in `results`, or its length when there is none.
pub open spec fn first_success(results: Seq<bool>) -> nat
    decreases results.len(),
{
    if results.len() == 0 {
        0
    } else if results[0] {
        0
    } else {
        1 + first_success(results.drop_first())
    }
}

impl MonitorLaunch {
    /// Never more attempts spawned than there are.
    pub closed spec fn wf(&self) -> bool {
        self.tried <= self.attempts@.len()
    }

    /// A fresh launch: nothing tried yet.
    pub fn new(in_flatpak: bool) -> (l: MonitorLaunch)
        ensures
            l.wf(),
            l@.attempts == monitor_attempts(in_flatpak),
            l@.tried == 0,
            !l@.launched,
    {
        MonitorLaunch { attempts: monitor_launch_attempts(in_flatpak), tried: 0, launched: false }
    }

    /// Whether an attempt has started the monitor.
    pub fn launched(&self) -> (b: bool)
        ensures
            b == self@.launched,
    {
        self.launched
    }

    /// The next command to spawn: the first attempt not tried yet, unless an
    /// earlier one started or all were tried.
    pub fn next_command(&self) -> (c: Option<&SpawnCommand>)
        requires
            self.wf(),
        ensures
            c is None <==> self@.finished(),
            c matches Some(cmd) ==> command_line(*cmd) == self@.attempts[self@.tried as int],
    {
        if self.launched || self.tried >= self.attempts.len() {
            None
        } else {
            Some(&self.attempts[self.tried])
        }
    }

    /// Record whether the command given by `next_command` spawned.
    pub fn record_spawn(&mut self, spawned: bool)
        requires
            old(self).wf(),
            !old(self)@.finished(),
        ensures
            final(self).wf(),
            final(self)@ == old(self)@.record(spawned),
    {
        assert(!self@.finished());
        assert(self.tried < self.attempts.len());
        self.tried = self.tried + 1;
        self.launched = spawned;
    }
}

} // verus!
