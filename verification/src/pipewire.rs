//! The routing controller: builds and tears down a virtual microphone out of
//! modules of the audio server, by way of its command-line tool.
//!
//! The controller runs nothing itself. Every operation is a short
//! conversation: the controller names a command, the host runs it and hands
//! back what came out, and the controller decides what is next. The audio
//! server is the only memory: the controller finds its own modules again by
//! their names, never by handles.
use vstd::prelude::*;
use crate::text::{
    contains, fields, fields_of, lines, lines_of, occurs_in, trim, trim_of, views,
};

verus! {

/// One invocation of an external program.
#[derive(Debug, PartialEq, Eq)]
pub struct Command {
    pub program: String,
    pub args: Vec<String>,
}

/// A `Command` as character sequences.
pub struct CommandView {
    pub program: Seq<char>,
    pub args: Seq<Seq<char>>,
}

impl View for Command {
    type V = CommandView;

    open spec fn view(&self) -> CommandView {
        CommandView { program: self.program@, args: views(self.args@) }
    }
}

/// The views of a list of commands.
pub open spec fn command_views(v: Seq<Command>) -> Seq<CommandView> {
    Seq::new(v.len(), |i: int| v[i]@)
}

/// What an invocation that ran left behind. The host decodes both streams
/// as UTF-8, replacing what is not.
#[derive(Debug, PartialEq, Eq)]
pub struct Output {
    /// Whether the program ended with status zero.
    pub success: bool,
    pub stdout: String,
    pub stderr: String,
}

/// An `Output` as character sequences.
pub struct OutputView {
    pub success: bool,
    pub stdout: Seq<char>,
    pub stderr: Seq<char>,
}

impl View for Output {
    type V = OutputView;

    open spec fn view(&self) -> OutputView {
        OutputView { success: self.success, stdout: self.stdout@, stderr: self.stderr@ }
    }
}

/// The view of a reply: `None` stands for a program that could not be run.
pub open spec fn reply_view(reply: Option<Output>) -> Option<OutputView> {
    match reply {
        Some(out) => Some(out@),
        None => None,
    }
}

/// The names under which the controller creates its devices.
pub struct Names {
    /// The virtual microphone.
    pub mic: Seq<char>,
    /// The sink in which everything is mixed.
    pub sink: Seq<char>,
}

/// The invocation `pactl` with the given arguments.
pub open spec fn pactl(args: Seq<Seq<char>>) -> CommandView {
    CommandView { program: "pactl"@, args }
}

/// The invocation of the shell on a script.
pub open spec fn shell(script: Seq<char>) -> CommandView {
    CommandView { program: "sh"@, args: seq!["-c"@, script] }
}

/// Lists the capture devices, one per line.
pub open spec fn source_listing() -> CommandView {
    pactl(seq!["list"@, "sources"@, "short"@])
}

/// Lists the output devices, one per line.
pub open spec fn sink_listing() -> CommandView {
    pactl(seq!["list"@, "sinks"@, "short"@])
}

/// Prints the number of every module whose listing mentions one of the
/// controller's names.
pub open spec fn module_listing(names: Names) -> CommandView {
    shell(
        "pactl list modules short | grep -E '("@ + names.mic + "|"@ + names.sink
            + ")' | awk '{print $1}'"@,
    )
}

/// Prints the number of every loopback module.
pub open spec fn loopback_listing() -> CommandView {
    shell("pactl list modules short | grep module-loopback | awk '{print $1}'"@)
}

/// Prints the number of every playback stream of this application.
pub open spec fn sink_input_listing() -> CommandView {
    shell("pactl list sink-inputs short | grep -i tauri | awk '{print $1}'"@)
}

/// Asks for the name of the default capture device.
pub open spec fn default_source_query() -> CommandView {
    pactl(seq!["get-default-source"@])
}

/// Makes `source` the default capture device.
pub open spec fn default_source_change(source: Seq<char>) -> CommandView {
    pactl(seq!["set-default-source"@, source])
}

/// Creates the mix sink.
pub open spec fn mix_sink_creation(names: Names) -> CommandView {
    pactl(
        seq![
            "load-module"@,
            "module-null-sink"@,
            "sink_name="@ + names.sink,
            "sink_properties=device.description=\"Soundboard Mix\""@,
        ],
    )
}

/// Creates the virtual microphone as a remap of the mix sink's monitor.
pub open spec fn virtual_mic_creation(names: Names) -> CommandView {
    pactl(
        seq![
            "load-module"@,
            "module-remap-source"@,
            "source_name="@ + names.mic,
            "master="@ + names.sink + ".monitor"@,
            "source_properties=device.description=\"Soundboard Virtual Microphone\""@,
        ],
    )
}

/// Creates a loopback from `source` into `sink`.
pub open spec fn loopback_creation(source: Seq<char>, sink: Seq<char>) -> CommandView {
    pactl(
        seq![
            "load-module"@,
            "module-loopback"@,
            "source="@ + source,
            "sink="@ + sink,
            "latency_msec=1"@,
        ],
    )
}

/// Unloads the module with the number `id`.
pub open spec fn module_unload(id: Seq<char>) -> CommandView {
    pactl(seq!["unload-module"@, id])
}

/// Moves the playback stream with the number `id` into `sink`.
pub open spec fn sink_input_move(id: Seq<char>, sink: Seq<char>) -> CommandView {
    pactl(seq!["move-sink-input"@, id, sink])
}

/// The name of the system output's monitor, as the audio server resolves it.
pub open spec fn default_monitor() -> Seq<char> {
    "@DEFAULT_MONITOR@"@
}

/// The numbers printed in the lines from `i` on: each line trimmed, empty
/// ones left out.
pub open spec fn ids_from(lines: Seq<Seq<char>>, i: int) -> Seq<Seq<char>>
    decreases lines.len() - i,
{
    if 0 <= i < lines.len() {
        let id = trim_of(lines[i]);
        if id.len() > 0 {
            seq![id] + ids_from(lines, i + 1)
        } else {
            ids_from(lines, i + 1)
        }
    } else {
        seq![]
    }
}

/// The numbers that a listing of numbers holds, one per line.
pub open spec fn ids_in(listing: Seq<char>) -> Seq<Seq<char>> {
    ids_from(lines_of(listing), 0)
}

/// The device names in the lines from `i` on: the second field of each line
/// that has two fields or more.
pub open spec fn names_from(lines: Seq<Seq<char>>, i: int) -> Seq<Seq<char>>
    decreases lines.len() - i,
{
    if 0 <= i < lines.len() {
        let f = fields_of(lines[i]);
        if f.len() >= 2 {
            seq![f[1]] + names_from(lines, i + 1)
        } else {
            names_from(lines, i + 1)
        }
    } else {
        seq![]
    }
}

/// The device names that a short listing of devices holds.
pub open spec fn names_in(listing: Seq<char>) -> Seq<Seq<char>> {
    names_from(lines_of(listing), 0)
}

/// One unload for each number.
pub open spec fn module_unloads(ids: Seq<Seq<char>>) -> Seq<CommandView> {
    Seq::new(ids.len(), |i: int| module_unload(ids[i]))
}

/// One move into `sink` for each number.
pub open spec fn sink_input_moves(ids: Seq<Seq<char>>, sink: Seq<char>) -> Seq<CommandView> {
    Seq::new(ids.len(), |i: int| sink_input_move(ids[i], sink))
}

fn word(s: &str) -> (r: String)
    ensures
        r@ == s@,
{
    String::from_str(s)
}

fn pactl_command(args: Vec<String>) -> (r: Command)
    ensures
        r@ == pactl(views(args@)),
{
    Command { program: word("pactl"), args }
}

fn shell_command(script: String) -> (r: Command)
    ensures
        r@ == shell(script@),
{
    let mut args: Vec<String> = Vec::new();
    args.push(word("-c"));
    args.push(script);
    assert(views(args@) =~= seq!["-c"@, script@]);
    Command { program: word("sh"), args }
}

/// The command that lists the capture devices.
pub fn source_listing_command() -> (r: Command)
    ensures
        r@ == source_listing(),
{
    let mut args: Vec<String> = Vec::new();
    args.push(word("list"));
    args.push(word("sources"));
    args.push(word("short"));
    assert(views(args@) =~= seq!["list"@, "sources"@, "short"@]);
    pactl_command(args)
}

/// The command that lists the output devices.
pub fn sink_listing_command() -> (r: Command)
    ensures
        r@ == sink_listing(),
{
    let mut args: Vec<String> = Vec::new();
    args.push(word("list"));
    args.push(word("sinks"));
    args.push(word("short"));
    assert(views(args@) =~= seq!["list"@, "sinks"@, "short"@]);
    pactl_command(args)
}

/// The command that prints the numbers of the loopback modules.
pub fn loopback_listing_command() -> (r: Command)
    ensures
        r@ == loopback_listing(),
{
    shell_command(word("pactl list modules short | grep module-loopback | awk '{print $1}'"))
}

/// The command that prints the numbers of this application's playback
/// streams.
pub fn sink_input_listing_command() -> (r: Command)
    ensures
        r@ == sink_input_listing(),
{
    shell_command(word("pactl list sink-inputs short | grep -i tauri | awk '{print $1}'"))
}

/// The command that asks for the default capture device.
pub fn default_source_query_command() -> (r: Command)
    ensures
        r@ == default_source_query(),
{
    let mut args: Vec<String> = Vec::new();
    args.push(word("get-default-source"));
    assert(views(args@) =~= seq!["get-default-source"@]);
    pactl_command(args)
}

/// The command that makes `source` the default capture device.
pub fn default_source_change_command(source: &str) -> (r: Command)
    ensures
        r@ == default_source_change(source@),
{
    let mut args: Vec<String> = Vec::new();
    args.push(word("set-default-source"));
    args.push(word(source));
    assert(views(args@) =~= seq!["set-default-source"@, source@]);
    pactl_command(args)
}

/// The command that creates a loopback from `source` into `sink`.
pub fn loopback_creation_command(source: &str, sink: &str) -> (r: Command)
    ensures
        r@ == loopback_creation(source@, sink@),
{
    let mut args: Vec<String> = Vec::new();
    args.push(word("load-module"));
    args.push(word("module-loopback"));
    args.push(word("source=").concat(source));
    args.push(word("sink=").concat(sink));
    args.push(word("latency_msec=1"));
    assert(views(args@) =~= seq![
        "load-module"@,
        "module-loopback"@,
        "source="@ + source@,
        "sink="@ + sink@,
        "latency_msec=1"@,
    ]);
    pactl_command(args)
}

/// The command that unloads the module with the number `id`.
pub fn module_unload_command(id: &str) -> (r: Command)
    ensures
        r@ == module_unload(id@),
{
    let mut args: Vec<String> = Vec::new();
    args.push(word("unload-module"));
    args.push(word(id));
    assert(views(args@) =~= seq!["unload-module"@, id@]);
    pactl_command(args)
}

/// The command that moves the playback stream `id` into `sink`.
pub fn sink_input_move_command(id: &str, sink: &str) -> (r: Command)
    ensures
        r@ == sink_input_move(id@, sink@),
{
    let mut args: Vec<String> = Vec::new();
    args.push(word("move-sink-input"));
    args.push(word(id));
    args.push(word(sink));
    assert(views(args@) =~= seq!["move-sink-input"@, id@, sink@]);
    pactl_command(args)
}

/// The numbers that a listing of numbers holds: its lines, trimmed, without
/// the empty ones.
pub fn listed_ids(listing: &str) -> (out: Vec<String>)
    ensures
        views(out@) == ids_in(listing@),
{
    let all = lines(listing);
    let ghost ls = views(all@);
    let n = all.len();
    let mut out: Vec<String> = Vec::new();
    let mut i: usize = 0;
    while i < n
        invariant
            ls == views(all@),
            ls == lines_of(listing@),
            n == all@.len(),
            i <= n,
            views(out@) + ids_from(ls, i as int) == ids_from(ls, 0),
        decreases n - i,
    {
        let id = trim(all[i].as_str());
        if !id.is_empty() {
            out.push(word(id));
        }
        i = i + 1;
    }
    out
}

/// The device names that a short listing of devices holds: the second
/// field of every line that has one.
pub fn listed_names(listing: &str) -> (out: Vec<String>)
    ensures
        views(out@) == names_in(listing@),
{
    let all = lines(listing);
    let ghost ls = views(all@);
    let n = all.len();
    let mut out: Vec<String> = Vec::new();
    let mut i: usize = 0;
    while i < n
        invariant
            ls == views(all@),
            ls == lines_of(listing@),
            n == all@.len(),
            i <= n,
            views(out@) + names_from(ls, i as int) == names_from(ls, 0),
        decreases n - i,
    {
        let mut parts = fields(all[i].as_str());
        if parts.len() >= 2 {
            let name = parts.swap_remove(1);
            out.push(name);
        }
        i = i + 1;
    }
    out
}

/// One unload command for each number in `listing`.
pub fn unloads_for(listing: &str) -> (out: Vec<Command>)
    ensures
        command_views(out@) == module_unloads(ids_in(listing@)),
{
    let ids = listed_ids(listing);
    let n = ids.len();
    let mut out: Vec<Command> = Vec::new();
    let mut i: usize = 0;
    while i < n
        invariant
            views(ids@) == ids_in(listing@),
            n == ids@.len(),
            i <= n,
            out@.len() == i,
            forall|k: int| 0 <= k < i ==> (#[trigger] out@[k])@ == module_unload(ids@[k]@),
        decreases n - i,
    {
        out.push(module_unload_command(ids[i].as_str()));
        i = i + 1;
    }
    out
}

/// One command that moves a stream into `sink` for each number in
/// `listing`.
pub fn moves_for(listing: &str, sink: &str) -> (out: Vec<Command>)
    ensures
        command_views(out@) == sink_input_moves(ids_in(listing@), sink@),
{
    let ids = listed_ids(listing);
    let n = ids.len();
    let mut out: Vec<Command> = Vec::new();
    let mut i: usize = 0;
    while i < n
        invariant
            views(ids@) == ids_in(listing@),
            n == ids@.len(),
            i <= n,
            out@.len() == i,
            forall|k: int|
                0 <= k < i ==> (#[trigger] out@[k])@ == sink_input_move(ids@[k]@, sink@),
        decreases n - i,
    {
        out.push(sink_input_move_command(ids[i].as_str(), sink));
        i = i + 1;
    }
    out
}

/// What the controller was doing when the external tool let it down.
#[derive(Clone, Copy, Debug, PartialEq, Eq, Structural)]
pub enum Task {
    ListSources,
    CreateMixSink,
    CreateVirtualMic,
    CreateMicLoopback,
    CreateLoopback,
    ListLoopbacks,
    ListAudioSources,
    ListAudioSinks,
    GetDefaultSource,
    SetDefaultSource,
    ListSinkInputs,
}

/// What the external tool can turn down.
#[derive(Clone, Copy, Debug, PartialEq, Eq, Structural)]
pub enum Request {
    VirtualMic,
    Loopback,
    DefaultSource,
}

/// Why an operation of the controller failed.
#[derive(Debug, PartialEq, Eq)]
pub enum RoutingError {
    /// The external tool could not be run at all.
    ToolUnavailable(Task),
    /// The external tool ran and reported failure; holds what it wrote to
    /// its error stream.
    Rejected(Request, String),
    /// System audio was to be routed into a virtual microphone that does
    /// not exist.
    MicNotSetUp,
}

/// A `RoutingError` with its text as a character sequence.
pub enum RoutingErrorView {
    ToolUnavailable(Task),
    Rejected(Request, Seq<char>),
    MicNotSetUp,
}

impl View for RoutingError {
    type V = RoutingErrorView;

    open spec fn view(&self) -> RoutingErrorView {
        match self {
            RoutingError::ToolUnavailable(t) => RoutingErrorView::ToolUnavailable(*t),
            RoutingError::Rejected(r, s) => RoutingErrorView::Rejected(*r, s@),
            RoutingError::MicNotSetUp => RoutingErrorView::MicNotSetUp,
        }
    }
}

/// What the task is called in an error message.
pub open spec fn task_text(task: Task) -> Seq<char> {
    match task {
        Task::ListSources => "Failed to list sources"@,
        Task::CreateMixSink => "Failed to create mix sink"@,
        Task::CreateVirtualMic => "Failed to create virtual microphone"@,
        Task::CreateMicLoopback => "Failed to create mic loopback"@,
        Task::CreateLoopback => "Failed to create loopback"@,
        Task::ListLoopbacks => "Failed to list loopback modules"@,
        Task::ListAudioSources => "Failed to list audio sources"@,
        Task::ListAudioSinks => "Failed to list audio sinks"@,
        Task::GetDefaultSource => "Failed to get default source"@,
        Task::SetDefaultSource => "Failed to set default source"@,
        Task::ListSinkInputs => "Failed to list sink inputs"@,
    }
}

/// How a rejected request is introduced in an error message, before the
/// tool's own words.
pub open spec fn rejection_text(request: Request) -> Seq<char> {
    match request {
        Request::VirtualMic => "Failed to create virtual mic: "@,
        Request::Loopback => "Failed to create loopback: "@,
        Request::DefaultSource => "Failed to set default source: "@,
    }
}

/// The text shown for an error.
pub open spec fn error_text(e: RoutingErrorView) -> Seq<char> {
    match e {
        RoutingErrorView::ToolUnavailable(task) => task_text(task),
        RoutingErrorView::Rejected(request, stderr) => rejection_text(request) + stderr,
        RoutingErrorView::MicNotSetUp => "Virtual microphone not set up. Please set it up first."@,
    }
}

fn task_name(task: Task) -> (r: String)
    ensures
        r@ == task_text(task),
{
    match task {
        Task::ListSources => word("Failed to list sources"),
        Task::CreateMixSink => word("Failed to create mix sink"),
        Task::CreateVirtualMic => word("Failed to create virtual microphone"),
        Task::CreateMicLoopback => word("Failed to create mic loopback"),
        Task::CreateLoopback => word("Failed to create loopback"),
        Task::ListLoopbacks => word("Failed to list loopback modules"),
        Task::ListAudioSources => word("Failed to list audio sources"),
        Task::ListAudioSinks => word("Failed to list audio sinks"),
        Task::GetDefaultSource => word("Failed to get default source"),
        Task::SetDefaultSource => word("Failed to set default source"),
        Task::ListSinkInputs => word("Failed to list sink inputs"),
    }
}

impl RoutingError {
    /// The text shown for this error.
    pub fn message(&self) -> (r: String)
        ensures
            r@ == error_text(self@),
    {
        match self {
            RoutingError::ToolUnavailable(task) => task_name(*task),
            RoutingError::Rejected(request, stderr) => {
                let head = match request {
                    Request::VirtualMic => word("Failed to create virtual mic: "),
                    Request::Loopback => word("Failed to create loopback: "),
                    Request::DefaultSource => word("Failed to set default source: "),
                };
                head.concat(stderr.as_str())
            },
            RoutingError::MicNotSetUp => word(
                "Virtual microphone not set up. Please set it up first.",
            ),
        }
    }
}

/// What an operation hands back when it succeeds.
#[derive(Debug, PartialEq, Eq)]
pub enum Outcome {
    /// Nothing beyond the success itself.
    Completed,
    /// Whether the virtual microphone exists.
    MicExists(bool),
    /// The names of the devices listed.
    Devices(Vec<String>),
    /// The name of the default capture device.
    DefaultSource(String),
}

/// An `Outcome` with its text as character sequences.
pub enum OutcomeView {
    Completed,
    MicExists(bool),
    Devices(Seq<Seq<char>>),
    DefaultSource(Seq<char>),
}

impl View for Outcome {
    type V = OutcomeView;

    open spec fn view(&self) -> OutcomeView {
        match self {
            Outcome::Completed => OutcomeView::Completed,
            Outcome::MicExists(b) => OutcomeView::MicExists(*b),
            Outcome::Devices(v) => OutcomeView::Devices(views(v@)),
            Outcome::DefaultSource(s) => OutcomeView::DefaultSource(s@),
        }
    }
}

/// Where an operation stands: which reply it is waiting for.
#[derive(Clone, Copy, Debug, PartialEq, Eq, Structural)]
pub enum Session {
    /// `check_virtual_mic_exists`: the capture devices were asked for.
    CheckingMic,
    /// `setup_virtual_microphone`, sweeping: the controller's own modules
    /// were asked for.
    SetupListingModules,
    /// `setup_virtual_microphone`, sweeping: the loopbacks were asked for.
    SetupListingLoopbacks,
    /// `setup_virtual_microphone`: the mix sink is being created.
    SetupCreatingSink,
    /// `setup_virtual_microphone`: the virtual microphone is being created.
    SetupCreatingMic,
    /// `setup_virtual_microphone`: the default capture device was asked for.
    SetupFindingSource,
    /// `setup_virtual_microphone`: the real microphone is being looped in.
    SetupLinkingSource,
    /// `cleanup`: the controller's own modules were asked for.
    CleanupListingModules,
    /// `cleanup`: the loopbacks were asked for.
    CleanupListingLoopbacks,
    /// `create_loopback`: the loopback is being created.
    CreatingLoopback,
    /// `route_system_audio_to_mic(true)`: the capture devices were asked
    /// for.
    EnablingCheckingMic,
    /// `route_system_audio_to_mic(true)`: the system monitor is being
    /// looped in.
    EnablingLinkingMonitor,
    /// `route_system_audio_to_mic(false)`: the loopbacks were asked for.
    DisablingListingLoopbacks,
    /// `route_system_audio_to_mic(false)`: the capture devices were asked
    /// for.
    DisablingCheckingMic,
    /// `route_system_audio_to_mic(false)`: the default capture device was
    /// asked for.
    DisablingFindingSource,
    /// `remove_all_loopbacks`: the loopbacks were asked for.
    RemovingLoopbacks,
    /// `list_sources`: the capture devices were asked for.
    ListingSources,
    /// `list_sinks`: the output devices were asked for.
    ListingSinks,
    /// `get_default_source`: the default capture device was asked for.
    GettingDefaultSource,
    /// `set_default_source`: the default capture device is being changed.
    SettingDefaultSource,
    /// `route_all_app_audio_to_sink`: the playback streams were asked for.
    RoutingStreams,
}

/// What comes after the commands of a step.
#[derive(Debug, PartialEq, Eq)]
pub enum Next {
    /// Run the command and hand what comes out, with the session, to
    /// `advance`.
    Ask(Session, Command),
    /// The operation is over.
    Done(Result<Outcome, RoutingError>),
}

/// A `Next` with its text as character sequences.
pub enum NextView {
    Ask(Session, CommandView),
    Done(Result<OutcomeView, RoutingErrorView>),
}

impl View for Next {
    type V = NextView;

    open spec fn view(&self) -> NextView {
        match self {
            Next::Ask(session, command) => NextView::Ask(*session, command@),
            Next::Done(Ok(outcome)) => NextView::Done(Ok(outcome@)),
            Next::Done(Err(error)) => NextView::Done(Err(error@)),
        }
    }
}

/// What the host does next: run every command of `fire` in order, paying
/// no attention to how any of them ends, then follow `next`.
#[derive(Debug, PartialEq, Eq)]
pub struct Step {
    pub fire: Vec<Command>,
    pub next: Next,
}

/// A `Step` with its text as character sequences.
pub struct StepView {
    pub fire: Seq<CommandView>,
    pub next: NextView,
}

impl View for Step {
    type V = StepView;

    open spec fn view(&self) -> StepView {
        StepView { fire: command_views(self.fire@), next: self.next@ }
    }
}

/// The step that asks `command` on behalf of `session`, after `fire`.
pub open spec fn asks(fire: Seq<CommandView>, session: Session, command: CommandView) -> StepView {
    StepView { fire, next: NextView::Ask(session, command) }
}

/// The step that ends an operation with `outcome`, after `fire`.
pub open spec fn succeeds(fire: Seq<CommandView>, outcome: OutcomeView) -> StepView {
    StepView { fire, next: NextView::Done(Ok(outcome)) }
}

/// The step that ends an operation with `error`.
pub open spec fn fails(error: RoutingErrorView) -> StepView {
    StepView { fire: seq![], next: NextView::Done(Err(error)) }
}

/// The first step of switching the passthrough of system audio on or off.
pub open spec fn passthrough_start(enable: bool) -> StepView {
    if enable {
        asks(seq![], Session::EnablingCheckingMic, source_listing())
    } else {
        asks(seq![], Session::DisablingListingLoopbacks, loopback_listing())
    }
}

/// The commands that a step has the host run, in order.
pub open spec fn issued(step: StepView) -> Seq<CommandView> {
    match step.next {
        NextView::Ask(_, command) => step.fire.push(command),
        NextView::Done(_) => step.fire,
    }
}

/// Whether a command only reads from the audio server: one of the
/// listings, or the question for the default capture device.
pub open spec fn reads_only(names: Names, command: CommandView) -> bool {
    ||| command == source_listing()
    ||| command == sink_listing()
    ||| command == module_listing(names)
    ||| command == loopback_listing()
    ||| command == sink_input_listing()
    ||| command == default_source_query()
}

/// An upper bound on the number of replies that a session still needs.
pub open spec fn asks_left(session: Session) -> nat {
    match session {
        Session::SetupListingModules => 6,
        Session::SetupListingLoopbacks => 5,
        Session::SetupCreatingSink => 4,
        Session::SetupCreatingMic => 3,
        Session::SetupFindingSource => 2,
        Session::CleanupListingModules => 2,
        Session::EnablingCheckingMic => 2,
        Session::DisablingListingLoopbacks => 3,
        Session::DisablingCheckingMic => 2,
        _ => 1,
    }
}

/// Whether a session belongs to the sweep, run for its own sake or at the
/// head of a setup.
pub open spec fn sweeping(session: Session) -> bool {
    ||| session == Session::CleanupListingModules
    ||| session == Session::CleanupListingLoopbacks
    ||| session == Session::SetupListingModules
    ||| session == Session::SetupListingLoopbacks
}

/// The numbers that a reply to a listing names: none when the listing
/// could not be run.
pub open spec fn named_in(reply: Option<OutputView>) -> Seq<Seq<char>> {
    match reply {
        Some(out) => ids_in(out.stdout),
        None => seq![],
    }
}

/// What the controller does when the command that `session` was waiting
/// for could not be run at all. The sweep never fails its caller: it goes
/// on as if the listing had named nothing, and so does a setup while it
/// sweeps. Every other operation ends there, with what it was doing as the
/// error.
pub open spec fn unanswered(names: Names, session: Session) -> StepView {
    let none = Seq::<CommandView>::empty();
    match session {
        Session::SetupListingModules => asks(
            none,
            Session::SetupListingLoopbacks,
            loopback_listing(),
        ),
        Session::SetupListingLoopbacks => asks(
            none,
            Session::SetupCreatingSink,
            mix_sink_creation(names),
        ),
        Session::CleanupListingModules => asks(
            none,
            Session::CleanupListingLoopbacks,
            loopback_listing(),
        ),
        Session::CleanupListingLoopbacks => succeeds(none, OutcomeView::Completed),
        Session::CheckingMic => fails(RoutingErrorView::ToolUnavailable(Task::ListSources)),
        Session::SetupCreatingSink => fails(RoutingErrorView::ToolUnavailable(Task::CreateMixSink)),
        Session::SetupCreatingMic => fails(
            RoutingErrorView::ToolUnavailable(Task::CreateVirtualMic),
        ),
        Session::SetupFindingSource => fails(
            RoutingErrorView::ToolUnavailable(Task::GetDefaultSource),
        ),
        Session::SetupLinkingSource => fails(
            RoutingErrorView::ToolUnavailable(Task::CreateMicLoopback),
        ),
        Session::CreatingLoopback => fails(RoutingErrorView::ToolUnavailable(Task::CreateLoopback)),
        Session::EnablingCheckingMic => fails(RoutingErrorView::ToolUnavailable(Task::ListSources)),
        Session::EnablingLinkingMonitor => fails(
            RoutingErrorView::ToolUnavailable(Task::CreateLoopback),
        ),
        Session::DisablingListingLoopbacks => fails(
            RoutingErrorView::ToolUnavailable(Task::ListLoopbacks),
        ),
        Session::DisablingCheckingMic => fails(RoutingErrorView::ToolUnavailable(Task::ListSources)),
        Session::DisablingFindingSource => fails(
            RoutingErrorView::ToolUnavailable(Task::GetDefaultSource),
        ),
        Session::RemovingLoopbacks => fails(RoutingErrorView::ToolUnavailable(Task::ListLoopbacks)),
        Session::ListingSources => fails(
            RoutingErrorView::ToolUnavailable(Task::ListAudioSources),
        ),
        Session::ListingSinks => fails(RoutingErrorView::ToolUnavailable(Task::ListAudioSinks)),
        Session::GettingDefaultSource => fails(
            RoutingErrorView::ToolUnavailable(Task::GetDefaultSource),
        ),
        Session::SettingDefaultSource => fails(
            RoutingErrorView::ToolUnavailable(Task::SetDefaultSource),
        ),
        Session::RoutingStreams => fails(RoutingErrorView::ToolUnavailable(Task::ListSinkInputs)),
    }
}

/// What the controller does with the output of the command that `session`
/// was waiting for.
pub open spec fn react(names: Names, session: Session, out: OutputView) -> StepView {
    let sweep = module_unloads(ids_in(out.stdout));
    let none = Seq::<CommandView>::empty();
    match session {
        Session::CheckingMic => succeeds(
            none,
            OutcomeView::MicExists(occurs_in(out.stdout, names.mic)),
        ),
        Session::SetupListingModules => asks(
            sweep,
            Session::SetupListingLoopbacks,
            loopback_listing(),
        ),
        Session::SetupListingLoopbacks => asks(
            sweep,
            Session::SetupCreatingSink,
            mix_sink_creation(names),
        ),
        Session::SetupCreatingSink => asks(
            none,
            Session::SetupCreatingMic,
            virtual_mic_creation(names),
        ),
        Session::SetupCreatingMic => if out.success {
            asks(none, Session::SetupFindingSource, default_source_query())
        } else {
            fails(RoutingErrorView::Rejected(Request::VirtualMic, out.stderr))
        },
        Session::SetupFindingSource => asks(
            none,
            Session::SetupLinkingSource,
            loopback_creation(trim_of(out.stdout), names.sink),
        ),
        Session::SetupLinkingSource => succeeds(none, OutcomeView::Completed),
        Session::CleanupListingModules => asks(
            sweep,
            Session::CleanupListingLoopbacks,
            loopback_listing(),
        ),
        Session::CleanupListingLoopbacks => succeeds(sweep, OutcomeView::Completed),
        Session::CreatingLoopback => if out.success {
            succeeds(none, OutcomeView::Completed)
        } else {
            fails(RoutingErrorView::Rejected(Request::Loopback, out.stderr))
        },
        Session::EnablingCheckingMic => if occurs_in(out.stdout, names.mic) {
            asks(
                none,
                Session::EnablingLinkingMonitor,
                loopback_creation(default_monitor(), names.sink),
            )
        } else {
            fails(RoutingErrorView::MicNotSetUp)
        },
        Session::EnablingLinkingMonitor => if out.success {
            succeeds(none, OutcomeView::Completed)
        } else {
            fails(RoutingErrorView::Rejected(Request::Loopback, out.stderr))
        },
        Session::DisablingListingLoopbacks => asks(
            sweep,
            Session::DisablingCheckingMic,
            source_listing(),
        ),
        Session::DisablingCheckingMic => if occurs_in(out.stdout, names.mic) {
            asks(none, Session::DisablingFindingSource, default_source_query())
        } else {
            succeeds(none, OutcomeView::Completed)
        },
        Session::DisablingFindingSource => succeeds(
            seq![loopback_creation(trim_of(out.stdout), names.sink)],
            OutcomeView::Completed,
        ),
        Session::RemovingLoopbacks => succeeds(sweep, OutcomeView::Completed),
        Session::ListingSources => succeeds(none, OutcomeView::Devices(names_in(out.stdout))),
        Session::ListingSinks => succeeds(none, OutcomeView::Devices(names_in(out.stdout))),
        Session::GettingDefaultSource => succeeds(
            none,
            OutcomeView::DefaultSource(trim_of(out.stdout)),
        ),
        Session::SettingDefaultSource => if out.success {
            succeeds(none, OutcomeView::Completed)
        } else {
            fails(RoutingErrorView::Rejected(Request::DefaultSource, out.stderr))
        },
        Session::RoutingStreams => succeeds(
            sink_input_moves(ids_in(out.stdout), names.sink),
            OutcomeView::Completed,
        ),
    }
}

/// What the controller does with a reply: it reacts to the output of a
/// command that ran, and to the want of one where the command could not
/// be run.
pub open spec fn advance_spec(names: Names, session: Session, reply: Option<OutputView>) -> StepView {
    match reply {
        None => unanswered(names, session),
        Some(out) => react(names, session, out),
    }
}

impl Step {
    fn asking(fire: Vec<Command>, session: Session, command: Command) -> (r: Step)
        ensures
            r@ == asks(command_views(fire@), session, command@),
    {
        Step { fire, next: Next::Ask(session, command) }
    }

    fn success(fire: Vec<Command>, outcome: Outcome) -> (r: Step)
        ensures
            r@ == succeeds(command_views(fire@), outcome@),
    {
        Step { fire, next: Next::Done(Ok(outcome)) }
    }

    fn failure(error: RoutingError) -> (r: Step)
        ensures
            r@ == fails(error@),
    {
        let r = Step { fire: Vec::new(), next: Next::Done(Err(error)) };
        assert(command_views(r.fire@) =~= Seq::<CommandView>::empty());
        r
    }
}

fn no_commands() -> (r: Vec<Command>)
    ensures
        command_views(r@) == Seq::<CommandView>::empty(),
{
    let r: Vec<Command> = Vec::new();
    r
}

/// The routing controller. It holds the two names under which it creates
/// its devices, so that a later sweep finds them again, and the ticket of
/// the maintenance that keeps the playback streams in the mix sink.
pub struct PipeWireManager {
    virtual_mic_name: String,
    sink_name: String,
    maintaining: Option<u64>,
    next_ticket: u64,
}

impl View for PipeWireManager {
    type V = Names;

    closed spec fn view(&self) -> Names {
        Names { mic: self.virtual_mic_name@, sink: self.sink_name@ }
    }
}

impl PipeWireManager {
    /// The ticket of the maintenance that is under way, if one is.
    pub closed spec fn maintaining(&self) -> Option<u64> {
        self.maintaining
    }

    /// The number of tickets handed out so far, which is the next ticket.
    pub closed spec fn tickets(&self) -> u64 {
        self.next_ticket
    }

    /// The controller with its reserved names, not maintaining anything.
    pub fn new() -> (r: PipeWireManager)
        ensures
            r@ == (Names { mic: "SoundboardMic"@, sink: "Soundboard_Mix"@ }),
            r.maintaining() is None,
            r.tickets() == 0,
    {
        PipeWireManager {
            virtual_mic_name: word("SoundboardMic"),
            sink_name: word("Soundboard_Mix"),
            maintaining: None,
            next_ticket: 0,
        }
    }

    /// Whether the playback streams are being kept in the mix sink.
    pub fn is_maintaining(&self) -> (r: bool)
        ensures
            r == self.maintaining() is Some,
    {
        self.maintaining.is_some()
    }

    /// Begins keeping the playback streams in the mix sink, unless that is
    /// under way already, and returns the ticket with which the host
    /// repeats `maintain`. Tickets count up, so none is handed out twice.
    /// `None`, with nothing changed, while a maintenance is under way or
    /// when the tickets are used up.
    pub fn begin_maintenance(&mut self) -> (r: Option<u64>)
        ensures
            final(self)@ == old(self)@,
            r is Some <==> old(self).maintaining() is None && old(self).tickets() < u64::MAX,
            match r {
                Some(ticket) => {
                    &&& ticket == old(self).tickets()
                    &&& final(self).maintaining() == Some(ticket)
                    &&& final(self).tickets() == ticket + 1
                },
                None => {
                    &&& final(self).maintaining() == old(self).maintaining()
                    &&& final(self).tickets() == old(self).tickets()
                },
            },
    {
        if self.maintaining.is_some() || self.next_ticket == u64::MAX {
            return None;
        }
        let ticket = self.next_ticket;
        self.next_ticket = ticket + 1;
        self.maintaining = Some(ticket);
        Some(ticket)
    }

    /// One round of keeping the playback streams in the mix sink, for the
    /// holder of `ticket`: the first step of moving the streams that exist
    /// right now. `None` once a sweep has called that maintenance off, upon
    /// which the host stops repeating.
    pub fn maintain(&self, ticket: u64) -> (r: Option<Step>)
        ensures
            r is Some <==> self.maintaining() == Some(ticket),
            r matches Some(step) ==> step@ == asks(
                seq![],
                Session::RoutingStreams,
                sink_input_listing(),
            ),
    {
        match self.maintaining {
            Some(current) => {
                if current == ticket {
                    Some(self.route_all_app_audio_to_sink())
                } else {
                    None
                }
            },
            None => None,
        }
    }

    /// The name of the virtual microphone.
    pub fn virtual_mic_name(&self) -> (r: &str)
        ensures
            r@ == self@.mic,
    {
        self.virtual_mic_name.as_str()
    }

    /// The name of the mix sink.
    pub fn sink_name(&self) -> (r: &str)
        ensures
            r@ == self@.sink,
    {
        self.sink_name.as_str()
    }

    fn module_listing_command(&self) -> (r: Command)
        ensures
            r@ == module_listing(self@),
    {
        let script = word("pactl list modules short | grep -E '(").concat(
            self.virtual_mic_name.as_str(),
        ).concat("|").concat(self.sink_name.as_str()).concat(")' | awk '{print $1}'");
        shell_command(script)
    }

    fn mix_sink_creation_command(&self) -> (r: Command)
        ensures
            r@ == mix_sink_creation(self@),
    {
        let mut args: Vec<String> = Vec::new();
        args.push(word("load-module"));
        args.push(word("module-null-sink"));
        args.push(word("sink_name=").concat(self.sink_name.as_str()));
        args.push(word("sink_properties=device.description=\"Soundboard Mix\""));
        assert(views(args@) =~= seq![
            "load-module"@,
            "module-null-sink"@,
            "sink_name="@ + self@.sink,
            "sink_properties=device.description=\"Soundboard Mix\""@,
        ]);
        pactl_command(args)
    }

    fn virtual_mic_creation_command(&self) -> (r: Command)
        ensures
            r@ == virtual_mic_creation(self@),
    {
        let mut args: Vec<String> = Vec::new();
        args.push(word("load-module"));
        args.push(word("module-remap-source"));
        args.push(word("source_name=").concat(self.virtual_mic_name.as_str()));
        args.push(word("master=").concat(self.sink_name.as_str()).concat(".monitor"));
        args.push(
            word("source_properties=device.description=\"Soundboard Virtual Microphone\""),
        );
        assert(views(args@) =~= seq![
            "load-module"@,
            "module-remap-source"@,
            "source_name="@ + self@.mic,
            "master="@ + self@.sink + ".monitor"@,
            "source_properties=device.description=\"Soundboard Virtual Microphone\""@,
        ]);
        pactl_command(args)
    }

    /// Begins asking whether the virtual microphone exists. Ends with
    /// `Outcome::MicExists`.
    pub fn check_virtual_mic_exists(&self) -> (r: Step)
        ensures
            r@ == asks(seq![], Session::CheckingMic, source_listing()),
    {
        Step::asking(no_commands(), Session::CheckingMic, source_listing_command())
    }

    /// Begins setting the virtual microphone up: whatever is left of an
    /// earlier one is swept away first, which cannot fail, then the mix
    /// sink, the virtual microphone and the loopback from the default
    /// capture device are created, in that order.
    pub fn setup_virtual_microphone(&self) -> (r: Step)
        ensures
            r@ == asks(seq![], Session::SetupListingModules, module_listing(self@)),
    {
        Step::asking(no_commands(), Session::SetupListingModules, self.module_listing_command())
    }

    /// Begins the sweep: every module that mentions one of the
    /// controller's names is unloaded, then every loopback. The
    /// maintenance is called off at once. The sweep is best effort and
    /// always ends in success, whatever goes wrong on the way.
    pub fn cleanup(&mut self) -> (r: Step)
        ensures
            final(self)@ == old(self)@,
            final(self).maintaining() is None,
            final(self).tickets() == old(self).tickets(),
            r@ == asks(seq![], Session::CleanupListingModules, module_listing(old(self)@)),
    {
        self.maintaining = None;
        Step::asking(no_commands(), Session::CleanupListingModules, self.module_listing_command())
    }

    /// Begins creating a loopback from `source` into `sink`.
    pub fn create_loopback(&self, source: &str, sink: &str) -> (r: Step)
        ensures
            r@ == asks(seq![], Session::CreatingLoopback, loopback_creation(source@, sink@)),
    {
        Step::asking(
            no_commands(),
            Session::CreatingLoopback,
            loopback_creation_command(source, sink),
        )
    }

    /// Begins switching the passthrough of system audio on or off.
    /// Switching on asks first whether the virtual microphone exists.
    /// Switching off removes every loopback and then, if the virtual
    /// microphone exists, loops the default capture device in again.
    pub fn route_system_audio_to_mic(&self, enable: bool) -> (r: Step)
        ensures
            r@ == passthrough_start(enable),
    {
        if enable {
            Step::asking(no_commands(), Session::EnablingCheckingMic, source_listing_command())
        } else {
            Step::asking(
                no_commands(),
                Session::DisablingListingLoopbacks,
                loopback_listing_command(),
            )
        }
    }

    /// Begins removing every loopback module, whoever created it.
    pub fn remove_all_loopbacks(&self) -> (r: Step)
        ensures
            r@ == asks(seq![], Session::RemovingLoopbacks, loopback_listing()),
    {
        Step::asking(no_commands(), Session::RemovingLoopbacks, loopback_listing_command())
    }

    /// Begins listing the capture devices. Ends with `Outcome::Devices`.
    pub fn list_sources(&self) -> (r: Step)
        ensures
            r@ == asks(seq![], Session::ListingSources, source_listing()),
    {
        Step::asking(no_commands(), Session::ListingSources, source_listing_command())
    }

    /// Begins listing the output devices. Ends with `Outcome::Devices`.
    pub fn list_sinks(&self) -> (r: Step)
        ensures
            r@ == asks(seq![], Session::ListingSinks, sink_listing()),
    {
        Step::asking(no_commands(), Session::ListingSinks, sink_listing_command())
    }

    /// Begins asking for the default capture device. Ends with
    /// `Outcome::DefaultSource`.
    pub fn get_default_source(&self) -> (r: Step)
        ensures
            r@ == asks(seq![], Session::GettingDefaultSource, default_source_query()),
    {
        Step::asking(no_commands(), Session::GettingDefaultSource, default_source_query_command())
    }

    /// Begins making `source` the default capture device.
    pub fn set_default_source(&self, source: &str) -> (r: Step)
        ensures
            r@ == asks(seq![], Session::SettingDefaultSource, default_source_change(source@)),
    {
        Step::asking(
            no_commands(),
            Session::SettingDefaultSource,
            default_source_change_command(source),
        )
    }

    /// Begins moving every playback stream of this application that exists
    /// right now into the mix sink. Streams that start later are not
    /// touched: the host repeats the operation for as long as the virtual
    /// microphone is in use.
    pub fn route_all_app_audio_to_sink(&self) -> (r: Step)
        ensures
            r@ == asks(seq![], Session::RoutingStreams, sink_input_listing()),
    {
        Step::asking(no_commands(), Session::RoutingStreams, sink_input_listing_command())
    }

    fn give_up(&self, session: Session) -> (step: Step)
        ensures
            step@ == unanswered(self@, session),
    {
        match session {
            Session::SetupListingModules => Step::asking(
                no_commands(),
                Session::SetupListingLoopbacks,
                loopback_listing_command(),
            ),
            Session::SetupListingLoopbacks => Step::asking(
                no_commands(),
                Session::SetupCreatingSink,
                self.mix_sink_creation_command(),
            ),
            Session::CleanupListingModules => Step::asking(
                no_commands(),
                Session::CleanupListingLoopbacks,
                loopback_listing_command(),
            ),
            Session::CleanupListingLoopbacks => Step::success(no_commands(), Outcome::Completed),
            Session::CheckingMic => Step::failure(RoutingError::ToolUnavailable(Task::ListSources)),
            Session::SetupCreatingSink => Step::failure(
                RoutingError::ToolUnavailable(Task::CreateMixSink),
            ),
            Session::SetupCreatingMic => Step::failure(
                RoutingError::ToolUnavailable(Task::CreateVirtualMic),
            ),
            Session::SetupFindingSource => Step::failure(
                RoutingError::ToolUnavailable(Task::GetDefaultSource),
            ),
            Session::SetupLinkingSource => Step::failure(
                RoutingError::ToolUnavailable(Task::CreateMicLoopback),
            ),
            Session::CreatingLoopback => Step::failure(
                RoutingError::ToolUnavailable(Task::CreateLoopback),
            ),
            Session::EnablingCheckingMic => Step::failure(
                RoutingError::ToolUnavailable(Task::ListSources),
            ),
            Session::EnablingLinkingMonitor => Step::failure(
                RoutingError::ToolUnavailable(Task::CreateLoopback),
            ),
            Session::DisablingListingLoopbacks => Step::failure(
                RoutingError::ToolUnavailable(Task::ListLoopbacks),
            ),
            Session::DisablingCheckingMic => Step::failure(
                RoutingError::ToolUnavailable(Task::ListSources),
            ),
            Session::DisablingFindingSource => Step::failure(
                RoutingError::ToolUnavailable(Task::GetDefaultSource),
            ),
            Session::RemovingLoopbacks => Step::failure(
                RoutingError::ToolUnavailable(Task::ListLoopbacks),
            ),
            Session::ListingSources => Step::failure(
                RoutingError::ToolUnavailable(Task::ListAudioSources),
            ),
            Session::ListingSinks => Step::failure(
                RoutingError::ToolUnavailable(Task::ListAudioSinks),
            ),
            Session::GettingDefaultSource => Step::failure(
                RoutingError::ToolUnavailable(Task::GetDefaultSource),
            ),
            Session::SettingDefaultSource => Step::failure(
                RoutingError::ToolUnavailable(Task::SetDefaultSource),
            ),
            Session::RoutingStreams => Step::failure(
                RoutingError::ToolUnavailable(Task::ListSinkInputs),
            ),
        }
    }

    fn react(&self, session: Session, out: Output) -> (step: Step)
        ensures
            step@ == react(self@, session, out@),
    {
        let sink = self.sink_name.as_str();
        match session {
            Session::CheckingMic => {
                let exists = contains(out.stdout.as_str(), self.virtual_mic_name.as_str());
                Step::success(no_commands(), Outcome::MicExists(exists))
            },
            Session::SetupListingModules => Step::asking(
                unloads_for(out.stdout.as_str()),
                Session::SetupListingLoopbacks,
                loopback_listing_command(),
            ),
            Session::SetupListingLoopbacks => Step::asking(
                unloads_for(out.stdout.as_str()),
                Session::SetupCreatingSink,
                self.mix_sink_creation_command(),
            ),
            Session::SetupCreatingSink => Step::asking(
                no_commands(),
                Session::SetupCreatingMic,
                self.virtual_mic_creation_command(),
            ),
            Session::SetupCreatingMic => {
                if out.success {
                    Step::asking(
                        no_commands(),
                        Session::SetupFindingSource,
                        default_source_query_command(),
                    )
                } else {
                    Step::failure(RoutingError::Rejected(Request::VirtualMic, out.stderr))
                }
            },
            Session::SetupFindingSource => Step::asking(
                no_commands(),
                Session::SetupLinkingSource,
                loopback_creation_command(trim(out.stdout.as_str()), sink),
            ),
            Session::SetupLinkingSource => Step::success(no_commands(), Outcome::Completed),
            Session::CleanupListingModules => Step::asking(
                unloads_for(out.stdout.as_str()),
                Session::CleanupListingLoopbacks,
                loopback_listing_command(),
            ),
            Session::CleanupListingLoopbacks => Step::success(
                unloads_for(out.stdout.as_str()),
                Outcome::Completed,
            ),
            Session::CreatingLoopback => {
                if out.success {
                    Step::success(no_commands(), Outcome::Completed)
                } else {
                    Step::failure(RoutingError::Rejected(Request::Loopback, out.stderr))
                }
            },
            Session::EnablingCheckingMic => {
                if contains(out.stdout.as_str(), self.virtual_mic_name.as_str()) {
                    Step::asking(
                        no_commands(),
                        Session::EnablingLinkingMonitor,
                        loopback_creation_command("@DEFAULT_MONITOR@", sink),
                    )
                } else {
                    Step::failure(RoutingError::MicNotSetUp)
                }
            },
            Session::EnablingLinkingMonitor => {
                if out.success {
                    Step::success(no_commands(), Outcome::Completed)
                } else {
                    Step::failure(RoutingError::Rejected(Request::Loopback, out.stderr))
                }
            },
            Session::DisablingListingLoopbacks => Step::asking(
                unloads_for(out.stdout.as_str()),
                Session::DisablingCheckingMic,
                source_listing_command(),
            ),
            Session::DisablingCheckingMic => {
                if contains(out.stdout.as_str(), self.virtual_mic_name.as_str()) {
                    Step::asking(
                        no_commands(),
                        Session::DisablingFindingSource,
                        default_source_query_command(),
                    )
                } else {
                    Step::success(no_commands(), Outcome::Completed)
                }
            },
            Session::DisablingFindingSource => {
                let mut fire: Vec<Command> = Vec::new();
                fire.push(loopback_creation_command(trim(out.stdout.as_str()), sink));
                assert(command_views(fire@) =~= seq![
                    loopback_creation(trim_of(out@.stdout), self@.sink),
                ]);
                Step::success(fire, Outcome::Completed)
            },
            Session::RemovingLoopbacks => Step::success(
                unloads_for(out.stdout.as_str()),
                Outcome::Completed,
            ),
            Session::ListingSources => Step::success(
                no_commands(),
                Outcome::Devices(listed_names(out.stdout.as_str())),
            ),
            Session::ListingSinks => Step::success(
                no_commands(),
                Outcome::Devices(listed_names(out.stdout.as_str())),
            ),
            Session::GettingDefaultSource => Step::success(
                no_commands(),
                Outcome::DefaultSource(word(trim(out.stdout.as_str()))),
            ),
            Session::SettingDefaultSource => {
                if out.success {
                    Step::success(no_commands(), Outcome::Completed)
                } else {
                    Step::failure(RoutingError::Rejected(Request::DefaultSource, out.stderr))
                }
            },
            Session::RoutingStreams => Step::success(
                moves_for(out.stdout.as_str(), sink),
                Outcome::Completed,
            ),
        }
    }

    /// Takes an operation one step further. `reply` is what came of the
    /// command that `session` was waiting for: `None` if the program could
    /// not be run at all.
    pub fn advance(&self, session: Session, reply: Option<Output>) -> (step: Step)
        ensures
            step@ == advance_spec(self@, session, reply_view(reply)),
    {
        match reply {
            None => self.give_up(session),
            Some(out) => self.react(session, out),
        }
    }
}

/// Switching the passthrough on while the virtual microphone is absent
/// fails with `MicNotSetUp`, and the whole operation has run a single
/// command, the listing of the capture devices, which only reads.
pub proof fn passthrough_without_mic_changes_nothing(names: Names, out: OutputView)
    requires
        !occurs_in(out.stdout, names.mic),
    ensures
        advance_spec(names, Session::EnablingCheckingMic, Some(out)) == fails(
            RoutingErrorView::MicNotSetUp,
        ),
        issued(passthrough_start(true)) + issued(
            advance_spec(names, Session::EnablingCheckingMic, Some(out)),
        ) == seq![source_listing()],
        reads_only(names, source_listing()),
{
    assert(issued(passthrough_start(true)) + issued(
        advance_spec(names, Session::EnablingCheckingMic, Some(out)),
    ) =~= seq![source_listing()]);
}

/// Every reply brings an operation nearer to its end: if another question
/// follows, the session that asks it needs fewer replies than the one
/// before. No operation asks more than six questions.
pub proof fn every_reply_brings_the_end_nearer(
    names: Names,
    session: Session,
    reply: Option<OutputView>,
)
    ensures
        1 <= asks_left(session) <= 6,
        advance_spec(names, session, reply).next matches NextView::Ask(then, _) ==> asks_left(then)
            < asks_left(session),
{
}

/// The sweep never fails its caller, whether it is run for its own sake
/// or at the head of a setup. Whatever comes of a listing, be it that the
/// listing could not be run at all, that it ended in failure or that it
/// wrote to its error stream, the sweep unloads what the listing named,
/// without asking how any unload ends, and goes on to the same next step.
pub proof fn sweep_swallows_failures(names: Names, session: Session, reply: Option<OutputView>)
    requires
        sweeping(session),
    ensures
        !(advance_spec(names, session, reply).next matches NextView::Done(Err(_))),
        advance_spec(names, session, reply).fire == module_unloads(named_in(reply)),
        advance_spec(names, session, reply).next == unanswered(names, session).next,
{
}

/// A sweep that is run for its own sake ends in success after two
/// listings, whatever comes of them.
pub proof fn cleanup_always_succeeds(
    names: Names,
    first: Option<OutputView>,
    second: Option<OutputView>,
)
    ensures
        advance_spec(names, Session::CleanupListingModules, first).next == NextView::Ask(
            Session::CleanupListingLoopbacks,
            loopback_listing(),
        ),
        advance_spec(names, Session::CleanupListingLoopbacks, second).next == NextView::Done(
            Ok(OutcomeView::Completed),
        ),
{
}

} // verus!
