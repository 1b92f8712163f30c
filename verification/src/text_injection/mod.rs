//! Delivery of a transcript to the focused application: typed directly by a
//! helper program, or copied to the clipboard, checked there, and pasted.
//!
//! The helper programs are run by the caller. A [`Delivery`] says what to do
//! next (probe for a program, run one, wait, or stop) and takes what came of
//! it.

pub mod descriptors;
pub mod laws;

use vstd::prelude::*;
use crate::probe::tool_present;
use crate::text::{opt_view, str_eq, string_views, trim, trim_spec};
pub use descriptors::{
    clone_strings, default_backends, default_backends_spec, default_paste_methods,
    default_paste_methods_spec, opt_str_eq, paste_shortcut_spec,
};
use descriptors::{chord_args, strings1, strings2};
use laws::{answer_probes, lemma_probes_run_out, probe_pending, probes_left};

verus! {

/// How long the clipboard is given to settle after a copy, in milliseconds.
pub const SETTLE_MS: u64 = 10;

/// The first pause between two attempts to copy, in milliseconds.
pub const INITIAL_DELAY_MS: u64 = 50;

/// The longest pause between two attempts to copy, in milliseconds.
pub const MAX_DELAY_MS: u64 = 200;

/// The pauses after which a copy that cannot be confirmed is taken as done,
/// in milliseconds.
pub const VERIFY_BUDGET_MS: u64 = 1000;

/// How a text is delivered first.
#[derive(Debug, Clone, Copy, PartialEq, Eq, Structural)]
pub enum InjectionMethod {
    Wtype,
    Ydotool,
    Clipboard,
}

/// How a delivery ended well.
#[derive(Debug, Clone, Copy, PartialEq, Eq, Structural)]
pub enum DeliveryOutcome {
    /// The text was empty: nothing was done.
    Skipped,
    /// A helper program typed the text.
    Typed,
    /// The text is in the clipboard and a paste was simulated.
    Pasted,
    /// The text is in the clipboard; no paste could be simulated.
    LeftInClipboard,
}

/// Why a delivery failed.
#[derive(Debug, Clone, Copy, PartialEq, Eq, Structural)]
pub enum DeliveryError {
    /// No clipboard program took the text.
    NoClipboardTool,
    /// The delivery was handed something it had not asked for.
    OutOfTurn,
    /// The program that simulates the paste could not be started.
    PasteNotStarted,
}

/// The helper programs whose presence decides the first method.
#[derive(Debug, Clone, Copy, PartialEq, Eq, Structural)]
pub struct ToolProbe {
    pub ydotool: bool,
    pub wtype: bool,
    pub wl_copy: bool,
}

/// What the environment says of the desktop session.
#[derive(Debug, PartialEq, Eq)]
pub struct DesktopSession {
    /// Whether a Wayland display is announced.
    pub wayland_display: bool,
    /// The name of the desktop environment, if one is announced.
    pub current_desktop: Option<String>,
}

/// A program to run, with its arguments and what to write to its input.
#[derive(Debug, PartialEq, Eq)]
pub struct ToolCommand {
    pub program: String,
    pub args: Vec<String>,
    pub stdin: Option<String>,
}

/// A command as a value.
pub struct CommandSpec {
    pub program: Seq<char>,
    pub args: Seq<Seq<char>>,
    pub stdin: Option<Seq<char>>,
}

impl View for ToolCommand {
    type V = CommandSpec;

    open spec fn view(&self) -> CommandSpec {
        CommandSpec {
            program: self.program@,
            args: string_views(self.args@),
            stdin: opt_view(self.stdin),
        }
    }
}

/// A pair of programs that write and read the clipboard.
#[derive(Debug, PartialEq, Eq)]
pub struct ClipboardBackend {
    pub name: String,
    pub copy_cmd: String,
    pub copy_args: Vec<String>,
    pub read_cmd: String,
    pub read_args: Vec<String>,
    pub use_stdin: bool,
}

/// A clipboard backend as a value.
pub struct BackendSpec {
    pub name: Seq<char>,
    pub copy_cmd: Seq<char>,
    pub copy_args: Seq<Seq<char>>,
    pub read_cmd: Seq<char>,
    pub read_args: Seq<Seq<char>>,
    pub use_stdin: bool,
}

impl View for ClipboardBackend {
    type V = BackendSpec;

    open spec fn view(&self) -> BackendSpec {
        BackendSpec {
            name: self.name@,
            copy_cmd: self.copy_cmd@,
            copy_args: string_views(self.copy_args@),
            read_cmd: self.read_cmd@,
            read_args: string_views(self.read_args@),
            use_stdin: self.use_stdin,
        }
    }
}

/// A way to simulate the paste shortcut.
#[derive(Debug, PartialEq, Eq)]
pub struct PasteMethod {
    pub tool: String,
    pub args: Vec<String>,
    /// Whether the program is looked up before it is run.
    pub probe: bool,
    /// The desktop environment that the method is for, if it is for one only.
    pub desktop: Option<String>,
}

/// A paste method as a value.
pub struct PasteSpec {
    pub tool: Seq<char>,
    pub args: Seq<Seq<char>>,
    pub probe: bool,
    pub desktop: Option<Seq<char>>,
}

impl View for PasteMethod {
    type V = PasteSpec;

    open spec fn view(&self) -> PasteSpec {
        PasteSpec {
            tool: self.tool@,
            args: string_views(self.args@),
            probe: self.probe,
            desktop: opt_view(self.desktop),
        }
    }
}

/// The clipboard backends of `v` as values.
pub open spec fn backend_views(v: Seq<ClipboardBackend>) -> Seq<BackendSpec> {
    v.map_values(|b: ClipboardBackend| b@)
}

/// The paste methods of `v` as values.
pub open spec fn paste_views(v: Seq<PasteMethod>) -> Seq<PasteSpec> {
    v.map_values(|m: PasteMethod| m@)
}

/// Where a delivery stands: what it asked for last.
#[derive(Debug, Clone, Copy, PartialEq, Eq, Structural)]
pub enum Phase {
    /// Nothing asked yet.
    Start,
    /// The program that types the text runs.
    Typing,
    /// The copy program of a backend is looked up.
    CopyProbe { backend: usize },
    /// The copy program of a backend runs.
    Copying { backend: usize },
    /// The clipboard settles.
    Settling,
    /// The read program of a backend is looked up.
    ReadProbe { backend: usize },
    /// The read program of a backend runs.
    Reading { backend: usize },
    /// The pause before the next copy.
    BackingOff,
    /// The program of a paste method is looked up.
    PasteProbe { method: usize },
    /// The program of a paste method runs.
    Pasting { method: usize },
    /// The delivery is over.
    Done,
}

/// What came of the last request of a delivery.
#[derive(Debug, PartialEq, Eq)]
pub enum Input {
    /// Nothing yet: the delivery is to begin.
    Begin,
    /// Whether the program asked for is present.
    Probed(bool),
    /// The program ran: whether it could be started, fed, and ended well, and
    /// what it printed.
    Finished { success: bool, stdout: String },
    /// The pause is over.
    Slept,
}

/// An input as a value.
pub enum InputSpec {
    Begin,
    Probed(bool),
    Finished { success: bool, stdout: Seq<char> },
    Slept,
}

impl View for Input {
    type V = InputSpec;

    open spec fn view(&self) -> InputSpec {
        match self {
            Input::Begin => InputSpec::Begin,
            Input::Probed(p) => InputSpec::Probed(*p),
            Input::Finished { success, stdout } => InputSpec::Finished {
                success: *success,
                stdout: stdout@,
            },
            Input::Slept => InputSpec::Slept,
        }
    }
}

/// What a delivery asks for next.
#[derive(Debug, PartialEq, Eq)]
pub enum Action {
    /// Say whether this program is present.
    Probe(String),
    /// Run this program.
    Run(ToolCommand),
    /// Wait this many milliseconds.
    Sleep(u64),
    /// Nothing more: the delivery ended so.
    Done(Result<DeliveryOutcome, DeliveryError>),
}

/// An action as a value.
pub enum ActionSpec {
    Probe(Seq<char>),
    Run(CommandSpec),
    Sleep(u64),
    Done(Result<DeliveryOutcome, DeliveryError>),
}

impl View for Action {
    type V = ActionSpec;

    open spec fn view(&self) -> ActionSpec {
        match self {
            Action::Probe(tool) => ActionSpec::Probe(tool@),
            Action::Run(command) => ActionSpec::Run(command@),
            Action::Sleep(ms) => ActionSpec::Sleep(*ms),
            Action::Done(result) => ActionSpec::Done(*result),
        }
    }
}

/// The injector as a value.
pub struct InjectorSpec {
    pub method: InjectionMethod,
    pub desktop: Option<Seq<char>>,
    pub backends: Seq<BackendSpec>,
    pub paste_methods: Seq<PasteSpec>,
}

/// The lists of an injector are no longer than a vector can be.
pub open spec fn cfg_bounded(cfg: InjectorSpec) -> bool {
    cfg.backends.len() <= usize::MAX && cfg.paste_methods.len() <= usize::MAX
}

/// A delivery as a value.
pub struct DeliverySpec {
    pub phase: Phase,
    pub text: Seq<char>,
    pub delay_ms: u64,
    pub total_ms: u64,
}

/// The method that delivery starts with: the preferred one where its program
/// is present; else `ydotool` where present; else the clipboard on a Wayland
/// session that has `wl-copy`; else `wtype` where present; else the clipboard.
pub open spec fn select_method_spec(preferred: Option<Seq<char>>, tools: ToolProbe, wayland: bool)
    -> InjectionMethod {
    if preferred == Some("ydotool"@) && tools.ydotool {
        InjectionMethod::Ydotool
    } else if preferred == Some("wtype"@) && tools.wtype {
        InjectionMethod::Wtype
    } else if tools.ydotool {
        InjectionMethod::Ydotool
    } else if wayland && tools.wl_copy {
        InjectionMethod::Clipboard
    } else if tools.wtype {
        InjectionMethod::Wtype
    } else {
        InjectionMethod::Clipboard
    }
}

/// The command that types `text`.
pub open spec fn direct_command(method: InjectionMethod, text: Seq<char>) -> CommandSpec {
    match method {
        InjectionMethod::Ydotool => CommandSpec {
            program: "ydotool"@,
            args: seq!["type"@, text],
            stdin: None,
        },
        _ => CommandSpec { program: "wtype"@, args: seq![text], stdin: None },
    }
}

/// The command that copies `text` with backend `b`.
pub open spec fn copy_command(b: BackendSpec, text: Seq<char>) -> CommandSpec {
    CommandSpec {
        program: b.copy_cmd,
        args: b.copy_args,
        stdin: if b.use_stdin {
            Some(text)
        } else {
            None
        },
    }
}

/// The command that reads the clipboard with backend `b`.
pub open spec fn read_command(b: BackendSpec) -> CommandSpec {
    CommandSpec { program: b.read_cmd, args: b.read_args, stdin: None }
}

/// The command of paste method `m`.
pub open spec fn paste_command(m: PasteSpec) -> CommandSpec {
    CommandSpec { program: m.tool, args: m.args, stdin: None }
}

/// Whether paste method `m` is for the desktop environment `desktop`.
pub open spec fn paste_applies(m: PasteSpec, desktop: Option<Seq<char>>) -> bool {
    m.desktop is Some ==> desktop == m.desktop
}

/// The delivery ended with `result`.
pub open spec fn done(d: DeliverySpec, result: Result<DeliveryOutcome, DeliveryError>) -> (
    DeliverySpec,
    ActionSpec,
) {
    (DeliverySpec { phase: Phase::Done, ..d }, ActionSpec::Done(result))
}

/// Turns to the copy program of backend `from`, or fails where no backend is
/// left.
pub open spec fn start_copy(cfg: InjectorSpec, d: DeliverySpec, from: int) -> (
    DeliverySpec,
    ActionSpec,
) {
    if 0 <= from < cfg.backends.len() {
        (
            DeliverySpec { phase: Phase::CopyProbe { backend: from as usize }, ..d },
            ActionSpec::Probe(cfg.backends[from].copy_cmd),
        )
    } else {
        done(d, Err(DeliveryError::NoClipboardTool))
    }
}

/// Turns to the first paste method from `from` on that is for this desktop,
/// or ends with the text left in the clipboard where none is left.
pub open spec fn start_paste(cfg: InjectorSpec, d: DeliverySpec, from: int) -> (
    DeliverySpec,
    ActionSpec,
)
    decreases cfg.paste_methods.len() - from,
{
    if 0 <= from < cfg.paste_methods.len() {
        let m = cfg.paste_methods[from];
        if !paste_applies(m, cfg.desktop) {
            start_paste(cfg, d, from + 1)
        } else if m.probe {
            (
                DeliverySpec { phase: Phase::PasteProbe { method: from as usize }, ..d },
                ActionSpec::Probe(m.tool),
            )
        } else {
            (
                DeliverySpec { phase: Phase::Pasting { method: from as usize }, ..d },
                ActionSpec::Run(paste_command(m)),
            )
        }
    } else {
        done(d, Ok(DeliveryOutcome::LeftInClipboard))
    }
}

/// The pause that follows a pause of `delay_ms`.
pub open spec fn next_delay(delay_ms: u64) -> u64 {
    if delay_ms < MAX_DELAY_MS / 2 {
        (delay_ms * 2) as u64
    } else {
        MAX_DELAY_MS
    }
}

/// The copy could not be confirmed: pause and copy again while the budget
/// lasts, else go on to the paste as if it had been.
pub open spec fn verify_failed(cfg: InjectorSpec, d: DeliverySpec) -> (DeliverySpec, ActionSpec) {
    if d.total_ms >= VERIFY_BUDGET_MS || d.total_ms + d.delay_ms > u64::MAX {
        start_paste(cfg, d, 0)
    } else {
        (
            DeliverySpec {
                phase: Phase::BackingOff,
                total_ms: (d.total_ms + d.delay_ms) as u64,
                delay_ms: next_delay(d.delay_ms),
                ..d
            },
            ActionSpec::Sleep(d.delay_ms),
        )
    }
}

/// Turns to the read program of backend `from`, or gives the check up where
/// no backend is left.
pub open spec fn start_read(cfg: InjectorSpec, d: DeliverySpec, from: int) -> (
    DeliverySpec,
    ActionSpec,
) {
    if 0 <= from < cfg.backends.len() {
        (
            DeliverySpec { phase: Phase::ReadProbe { backend: from as usize }, ..d },
            ActionSpec::Probe(cfg.backends[from].read_cmd),
        )
    } else {
        verify_failed(cfg, d)
    }
}

/// Begins the clipboard path: the first copy, with the whole budget ahead.
pub open spec fn start_clipboard(cfg: InjectorSpec, d: DeliverySpec) -> (DeliverySpec, ActionSpec) {
    start_copy(cfg, DeliverySpec { delay_ms: INITIAL_DELAY_MS, total_ms: 0, ..d }, 0)
}

/// One step of a delivery: from where it stands and what came of its last
/// request to where it stands next and what it asks for.
pub open spec fn step_spec(cfg: InjectorSpec, d: DeliverySpec, input: InputSpec) -> (
    DeliverySpec,
    ActionSpec,
) {
    match (d.phase, input) {
        (Phase::Start, InputSpec::Begin) => {
            if d.text.len() == 0 {
                done(d, Ok(DeliveryOutcome::Skipped))
            } else if cfg.method == InjectionMethod::Clipboard {
                start_clipboard(cfg, d)
            } else {
                (
                    DeliverySpec { phase: Phase::Typing, ..d },
                    ActionSpec::Run(direct_command(cfg.method, d.text)),
                )
            }
        },
        (Phase::Typing, InputSpec::Finished { success, stdout }) => {
            if success {
                done(d, Ok(DeliveryOutcome::Typed))
            } else {
                start_clipboard(cfg, d)
            }
        },
        (Phase::CopyProbe { backend }, InputSpec::Probed(present)) => {
            if present && backend < cfg.backends.len() {
                (
                    DeliverySpec { phase: Phase::Copying { backend }, ..d },
                    ActionSpec::Run(copy_command(cfg.backends[backend as int], d.text)),
                )
            } else {
                start_copy(cfg, d, backend + 1)
            }
        },
        (Phase::Copying { backend }, InputSpec::Finished { success, stdout }) => {
            if success {
                (DeliverySpec { phase: Phase::Settling, ..d }, ActionSpec::Sleep(SETTLE_MS))
            } else {
                start_copy(cfg, d, backend + 1)
            }
        },
        (Phase::Settling, InputSpec::Slept) => start_read(cfg, d, 0),
        (Phase::ReadProbe { backend }, InputSpec::Probed(present)) => {
            if present && backend < cfg.backends.len() {
                (
                    DeliverySpec { phase: Phase::Reading { backend }, ..d },
                    ActionSpec::Run(read_command(cfg.backends[backend as int])),
                )
            } else {
                start_read(cfg, d, backend + 1)
            }
        },
        (Phase::Reading { backend }, InputSpec::Finished { success, stdout }) => {
            if !success {
                start_read(cfg, d, backend + 1)
            } else if trim_spec(stdout) == trim_spec(d.text) {
                start_paste(cfg, d, 0)
            } else {
                verify_failed(cfg, d)
            }
        },
        (Phase::BackingOff, InputSpec::Slept) => start_copy(cfg, d, 0),
        (Phase::PasteProbe { method }, InputSpec::Probed(present)) => {
            if present && method < cfg.paste_methods.len() {
                (
                    DeliverySpec { phase: Phase::Pasting { method }, ..d },
                    ActionSpec::Run(paste_command(cfg.paste_methods[method as int])),
                )
            } else {
                start_paste(cfg, d, method + 1)
            }
        },
        (Phase::Pasting { method }, InputSpec::Finished { success, stdout }) => {
            if success {
                done(d, Ok(DeliveryOutcome::Pasted))
            } else {
                start_paste(cfg, d, method + 1)
            }
        },
        _ => done(d, Err(DeliveryError::OutOfTurn)),
    }
}


/// The view of an optional string slice.
pub open spec fn opt_str_view(s: Option<&str>) -> Option<Seq<char>> {
    match s {
        Some(x) => Some(x@),
        None => None,
    }
}

/// The method that delivery starts with, from what is preferred and what is
/// present.
pub fn select_method(preferred: Option<&str>, tools: ToolProbe, wayland: bool) -> (r:
    InjectionMethod)
    ensures
        r == select_method_spec(opt_str_view(preferred), tools, wayland),
{
    let wants_ydotool = match preferred {
        Some(p) => str_eq(p, "ydotool"),
        None => false,
    };
    let wants_wtype = match preferred {
        Some(p) => str_eq(p, "wtype"),
        None => false,
    };
    if wants_ydotool && tools.ydotool {
        InjectionMethod::Ydotool
    } else if wants_wtype && tools.wtype {
        InjectionMethod::Wtype
    } else if tools.ydotool {
        InjectionMethod::Ydotool
    } else if wayland && tools.wl_copy {
        InjectionMethod::Clipboard
    } else if tools.wtype {
        InjectionMethod::Wtype
    } else {
        InjectionMethod::Clipboard
    }
}

/// Delivers texts to the focused application.
pub struct TextInjector {
    method: InjectionMethod,
    desktop: Option<String>,
    backends: Vec<ClipboardBackend>,
    paste_methods: Vec<PasteMethod>,
}

impl View for TextInjector {
    type V = InjectorSpec;

    closed spec fn view(&self) -> InjectorSpec {
        InjectorSpec {
            method: self.method,
            desktop: opt_view(self.desktop),
            backends: backend_views(self.backends@),
            paste_methods: paste_views(self.paste_methods@),
        }
    }
}

/// One delivery of one text.
pub struct Delivery {
    phase: Phase,
    text: String,
    delay_ms: u64,
    total_ms: u64,
}

impl View for Delivery {
    type V = DeliverySpec;

    closed spec fn view(&self) -> DeliverySpec {
        DeliverySpec {
            phase: self.phase,
            text: self.text@,
            delay_ms: self.delay_ms,
            total_ms: self.total_ms,
        }
    }
}

impl TextInjector {
    /// An injector whose first method is chosen once, here, from the
    /// preferred method, the programs found on the search path and the
    /// session; with the usual clipboard programs and paste methods.
    pub fn new(preferred: Option<&str>, session: DesktopSession) -> (r: Result<
        Self,
        DeliveryError,
    >)
        ensures
            r is Ok,
            exists|tools: ToolProbe|
                r->Ok_0@.method == #[trigger] select_method_spec(
                    opt_str_view(preferred),
                    tools,
                    session.wayland_display,
                ),
            r->Ok_0@.desktop == opt_view(session.current_desktop),
            r->Ok_0@.backends == default_backends_spec(),
            r->Ok_0@.paste_methods == default_paste_methods_spec(),
            cfg_bounded(r->Ok_0@),
    {
        let tools = ToolProbe {
            ydotool: tool_present("ydotool"),
            wtype: tool_present("wtype"),
            wl_copy: tool_present("wl-copy"),
        };
        let method = select_method(preferred, tools, session.wayland_display);
        Ok(Self::with_method(method, session.current_desktop))
    }

    /// An injector that starts with `method`, with the usual clipboard
    /// programs and paste methods.
    pub fn with_method(method: InjectionMethod, desktop: Option<String>) -> (r: Self)
        ensures
            r@ == (InjectorSpec {
                method,
                desktop: opt_view(desktop),
                backends: default_backends_spec(),
                paste_methods: default_paste_methods_spec(),
            }),
            cfg_bounded(r@),
    {
        Self::with_descriptors(method, desktop, default_backends(), default_paste_methods())
    }

    /// An injector that starts with `method` and goes by the clipboard
    /// programs and paste methods given.
    pub fn with_descriptors(
        method: InjectionMethod,
        desktop: Option<String>,
        backends: Vec<ClipboardBackend>,
        paste_methods: Vec<PasteMethod>,
    ) -> (r: Self)
        ensures
            r@ == (InjectorSpec {
                method,
                desktop: opt_view(desktop),
                backends: backend_views(backends@),
                paste_methods: paste_views(paste_methods@),
            }),
            cfg_bounded(r@),
    {
        let backend_count = backends.len();
        let method_count = paste_methods.len();
        assert(backend_views(backends@).len() == backend_count);
        assert(paste_views(paste_methods@).len() == method_count);
        TextInjector { method, desktop, backends, paste_methods }
    }

    /// The method that deliveries start with.
    pub fn method(&self) -> (r: InjectionMethod)
        ensures
            r == self@.method,
    {
        self.method
    }

    /// A delivery of `text`, ready to begin.
    pub fn inject_text(&self, text: &str) -> (r: Delivery)
        ensures
            r@ == (DeliverySpec {
                phase: Phase::Start,
                text: text@,
                delay_ms: INITIAL_DELAY_MS,
                total_ms: 0,
            }),
    {
        Delivery {
            phase: Phase::Start,
            text: text.to_owned(),
            delay_ms: INITIAL_DELAY_MS,
            total_ms: 0,
        }
    }

    /// The command that simulates the paste shortcut with the program of the
    /// first method; none for the clipboard method, whose deliveries paste
    /// themselves.
    pub fn paste_from_clipboard(&self) -> (r: Option<ToolCommand>)
        ensures
            match r {
                Some(c) => paste_shortcut_spec(self@.method) == Some(c@),
                None => paste_shortcut_spec(self@.method) is None,
            },
    {
        match self.method {
            InjectionMethod::Wtype => Some(
                ToolCommand { program: "wtype".to_owned(), args: chord_args(), stdin: None },
            ),
            InjectionMethod::Ydotool => Some(
                ToolCommand {
                    program: "ydotool".to_owned(),
                    args: strings2("key", "ctrl+v"),
                    stdin: None,
                },
            ),
            InjectionMethod::Clipboard => None,
        }
    }

    /// What a paste by `paste_from_clipboard` comes to: it has failed only if
    /// the program could not be started.
    pub fn paste_outcome(started: bool) -> (r: Result<(), DeliveryError>)
        ensures
            started ==> r is Ok,
            !started ==> r == Err::<(), DeliveryError>(DeliveryError::PasteNotStarted),
    {
        if started {
            Ok(())
        } else {
            Err(DeliveryError::PasteNotStarted)
        }
    }
}

impl Delivery {
    /// Where the delivery stands.
    pub fn phase(&self) -> (r: Phase)
        ensures
            r == self@.phase,
    {
        self.phase
    }

    /// Whether the delivery is over.
    pub fn is_done(&self) -> (r: bool)
        ensures
            r == (self@.phase == Phase::Done),
    {
        match self.phase {
            Phase::Done => true,
            _ => false,
        }
    }

    fn finish(&mut self, result: Result<DeliveryOutcome, DeliveryError>) -> (a: Action)
        ensures
            (final(self)@, a@) == done(old(self)@, result),
    {
        self.phase = Phase::Done;
        Action::Done(result)
    }

    fn start_copy(&mut self, injector: &TextInjector, from: usize) -> (a: Action)
        ensures
            (final(self)@, a@) == start_copy(injector@, old(self)@, from as int),
    {
        if from < injector.backends.len() {
            self.phase = Phase::CopyProbe { backend: from };
            Action::Probe(injector.backends[from].copy_cmd.clone())
        } else {
            self.finish(Err(DeliveryError::NoClipboardTool))
        }
    }

    fn start_copy_after(&mut self, injector: &TextInjector, backend: usize) -> (a: Action)
        ensures
            (final(self)@, a@) == start_copy(injector@, old(self)@, backend + 1),
    {
        if backend < injector.backends.len() {
            self.start_copy(injector, backend + 1)
        } else {
            self.finish(Err(DeliveryError::NoClipboardTool))
        }
    }

    fn start_clipboard(&mut self, injector: &TextInjector) -> (a: Action)
        ensures
            (final(self)@, a@) == start_clipboard(injector@, old(self)@),
    {
        self.delay_ms = INITIAL_DELAY_MS;
        self.total_ms = 0;
        self.start_copy(injector, 0)
    }

    fn start_paste(&mut self, injector: &TextInjector, from: usize) -> (a: Action)
        ensures
            (final(self)@, a@) == start_paste(injector@, old(self)@, from as int),
    {
        let mut i: usize = from;
        while i < injector.paste_methods.len()
            invariant
                *self == *old(self),
                start_paste(injector@, old(self)@, i as int) == start_paste(
                    injector@,
                    old(self)@,
                    from as int,
                ),
            decreases injector.paste_methods.len() - i,
        {
            let m = &injector.paste_methods[i];
            let applies = match &m.desktop {
                Some(_) => opt_str_eq(&injector.desktop, &m.desktop),
                None => true,
            };
            if applies {
                if m.probe {
                    self.phase = Phase::PasteProbe { method: i };
                    return Action::Probe(m.tool.clone());
                } else {
                    self.phase = Phase::Pasting { method: i };
                    return Action::Run(
                        ToolCommand {
                            program: m.tool.clone(),
                            args: clone_strings(&m.args),
                            stdin: None,
                        },
                    );
                }
            }
            i += 1;
        }
        self.finish(Ok(DeliveryOutcome::LeftInClipboard))
    }

    fn start_paste_after(&mut self, injector: &TextInjector, method: usize) -> (a: Action)
        ensures
            (final(self)@, a@) == start_paste(injector@, old(self)@, method + 1),
    {
        if method < injector.paste_methods.len() {
            self.start_paste(injector, method + 1)
        } else {
            self.finish(Ok(DeliveryOutcome::LeftInClipboard))
        }
    }

    fn verify_failed(&mut self, injector: &TextInjector) -> (a: Action)
        ensures
            (final(self)@, a@) == verify_failed(injector@, old(self)@),
    {
        if self.total_ms >= VERIFY_BUDGET_MS {
            return self.start_paste(injector, 0);
        }
        match self.total_ms.checked_add(self.delay_ms) {
            None => self.start_paste(injector, 0),
            Some(total) => {
                let pause = self.delay_ms;
                self.phase = Phase::BackingOff;
                self.total_ms = total;
                self.delay_ms = if pause < MAX_DELAY_MS / 2 {
                    pause * 2
                } else {
                    MAX_DELAY_MS
                };
                Action::Sleep(pause)
            },
        }
    }

    fn start_read(&mut self, injector: &TextInjector, from: usize) -> (a: Action)
        ensures
            (final(self)@, a@) == start_read(injector@, old(self)@, from as int),
    {
        if from < injector.backends.len() {
            self.phase = Phase::ReadProbe { backend: from };
            Action::Probe(injector.backends[from].read_cmd.clone())
        } else {
            self.verify_failed(injector)
        }
    }

    fn start_read_after(&mut self, injector: &TextInjector, backend: usize) -> (a: Action)
        ensures
            (final(self)@, a@) == start_read(injector@, old(self)@, backend + 1),
    {
        if backend < injector.backends.len() {
            self.start_read(injector, backend + 1)
        } else {
            self.verify_failed(injector)
        }
    }

    /// One step: takes what came of the last request and says what to do
    /// next.
    pub fn step(&mut self, injector: &TextInjector, input: Input) -> (a: Action)
        ensures
            (final(self)@, a@) == step_spec(injector@, old(self)@, input@),
    {
        match self.phase {
            Phase::Start => match input {
                Input::Begin => {
                    if self.text.as_str().is_empty() {
                        self.finish(Ok(DeliveryOutcome::Skipped))
                    } else {
                        match injector.method {
                            InjectionMethod::Clipboard => self.start_clipboard(injector),
                            InjectionMethod::Ydotool => {
                                self.phase = Phase::Typing;
                                let args = strings2("type", self.text.as_str());
                                Action::Run(
                                    ToolCommand {
                                        program: "ydotool".to_owned(),
                                        args,
                                        stdin: None,
                                    },
                                )
                            },
                            InjectionMethod::Wtype => {
                                self.phase = Phase::Typing;
                                let args = strings1(self.text.as_str());
                                Action::Run(
                                    ToolCommand { program: "wtype".to_owned(), args, stdin: None },
                                )
                            },
                        }
                    }
                },
                _ => self.finish(Err(DeliveryError::OutOfTurn)),
            },
            Phase::Typing => match input {
                Input::Finished { success, stdout } => {
                    if success {
                        self.finish(Ok(DeliveryOutcome::Typed))
                    } else {
                        self.start_clipboard(injector)
                    }
                },
                _ => self.finish(Err(DeliveryError::OutOfTurn)),
            },
            Phase::CopyProbe { backend } => match input {
                Input::Probed(present) => {
                    if present && backend < injector.backends.len() {
                        let b = &injector.backends[backend];
                        self.phase = Phase::Copying { backend };
                        let stdin = if b.use_stdin {
                            Some(self.text.clone())
                        } else {
                            None
                        };
                        Action::Run(
                            ToolCommand {
                                program: b.copy_cmd.clone(),
                                args: clone_strings(&b.copy_args),
                                stdin,
                            },
                        )
                    } else {
                        self.start_copy_after(injector, backend)
                    }
                },
                _ => self.finish(Err(DeliveryError::OutOfTurn)),
            },
            Phase::Copying { backend } => match input {
                Input::Finished { success, stdout } => {
                    if success {
                        self.phase = Phase::Settling;
                        Action::Sleep(SETTLE_MS)
                    } else {
                        self.start_copy_after(injector, backend)
                    }
                },
                _ => self.finish(Err(DeliveryError::OutOfTurn)),
            },
            Phase::Settling => match input {
                Input::Slept => self.start_read(injector, 0),
                _ => self.finish(Err(DeliveryError::OutOfTurn)),
            },
            Phase::ReadProbe { backend } => match input {
                Input::Probed(present) => {
                    if present && backend < injector.backends.len() {
                        let b = &injector.backends[backend];
                        self.phase = Phase::Reading { backend };
                        Action::Run(
                            ToolCommand {
                                program: b.read_cmd.clone(),
                                args: clone_strings(&b.read_args),
                                stdin: None,
                            },
                        )
                    } else {
                        self.start_read_after(injector, backend)
                    }
                },
                _ => self.finish(Err(DeliveryError::OutOfTurn)),
            },
            Phase::Reading { backend } => match input {
                Input::Finished { success, stdout } => {
                    if !success {
                        self.start_read_after(injector, backend)
                    } else {
                        let found = trim(stdout.as_str());
                        let wanted = trim(self.text.as_str());
                        if str_eq(found.as_str(), wanted.as_str()) {
                            self.start_paste(injector, 0)
                        } else {
                            self.verify_failed(injector)
                        }
                    }
                },
                _ => self.finish(Err(DeliveryError::OutOfTurn)),
            },
            Phase::BackingOff => match input {
                Input::Slept => self.start_copy(injector, 0),
                _ => self.finish(Err(DeliveryError::OutOfTurn)),
            },
            Phase::PasteProbe { method } => match input {
                Input::Probed(present) => {
                    if present && method < injector.paste_methods.len() {
                        let m = &injector.paste_methods[method];
                        self.phase = Phase::Pasting { method };
                        Action::Run(
                            ToolCommand {
                                program: m.tool.clone(),
                                args: clone_strings(&m.args),
                                stdin: None,
                            },
                        )
                    } else {
                        self.start_paste_after(injector, method)
                    }
                },
                _ => self.finish(Err(DeliveryError::OutOfTurn)),
            },
            Phase::Pasting { method } => match input {
                Input::Finished { success, stdout } => {
                    if success {
                        self.finish(Ok(DeliveryOutcome::Pasted))
                    } else {
                        self.start_paste_after(injector, method)
                    }
                },
                _ => self.finish(Err(DeliveryError::OutOfTurn)),
            },
            Phase::Done => self.finish(Err(DeliveryError::OutOfTurn)),
        }
    }
}


impl Delivery {
    /// One step as `step` takes it, and then the probes that the delivery
    /// asks for answered from the search path, until it asks for something
    /// else.
    pub fn advance(&mut self, injector: &TextInjector, input: Input) -> (a: Action)
        ensures
            !(a@ is Probe),
            exists|answers: Seq<bool>|
                (final(self)@, a@) == #[trigger] answer_probes(
                    injector@,
                    step_spec(injector@, old(self)@, input@),
                    answers,
                ),
    {
        let ghost first = step_spec(injector@, self@, input@);
        let ghost mut answers: Seq<bool> = Seq::empty();
        let backends = injector.backends.len();
        let paste_methods = injector.paste_methods.len();
        proof {
            assert(injector@.backends.len() == backends);
            assert(injector@.paste_methods.len() == paste_methods);
            assert(cfg_bounded(injector@));
            lemma_probes_run_out(injector@, self@, input@);
        }
        let mut action = self.step(injector, input);
        loop
            invariant
                (self@, action@) == answer_probes(injector@, first, answers),
                probe_pending(injector@, self@, action@),
                cfg_bounded(injector@),
            ensures
                !(action@ is Probe),
                (self@, action@) == answer_probes(injector@, first, answers),
            decreases
                    if action@ is Probe {
                        probes_left(injector@, self@) + 1
                    } else {
                        0
                    },
        {
            match &action {
                Action::Probe(tool) => {
                    let present = tool_present(tool.as_str());
                    proof {
                        lemma_probes_run_out(injector@, self@, InputSpec::Probed(present));
                        let longer = answers.push(present);
                        assert(longer.drop_last() == answers);
                        assert(longer.last() == present);
                        answers = longer;
                    }
                    action = self.step(injector, Input::Probed(present));
                },
                _ => {
                    break ;
                },
            }
        }
        action
    }
}

} // verus!
