//! What the host does once, before it enters the event loop: which plugins
//! it registers and in what order, whether it logs, and how it names the
//! main window.

use vstd::prelude::*;

verus! {

/// A capability that the host registers with the application framework.
#[derive(Clone, Copy, Debug, PartialEq, Eq, Structural)]
pub enum Plugin {
    /// Native file dialogs.
    Dialog,
    /// Reading and writing the clipboard.
    ClipboardManager,
    /// Access to the file system from the user interface.
    Fs,
    /// Keyboard shortcuts that work while another program has the focus.
    GlobalShortcut,
    /// Starting other programs.
    Shell,
}

/// How much a logging sink lets through, from the least to the most.
#[derive(Clone, Copy, Debug, PartialEq, Eq, Structural)]
pub enum LogLevel {
    Error,
    Warn,
    Info,
    Debug,
    Trace,
}

/// Everything the host needs to know to start up.
#[derive(Clone, Debug)]
pub struct StartupPlan {
    /// The plugins to register, first to last.
    pub plugins: Vec<Plugin>,
    /// The level of the logging sink to install after the plugins, or `None`
    /// where no sink is installed.
    pub log_level: Option<LogLevel>,
    /// The label by which the framework knows the main window.
    pub window_label: String,
    /// The title to give that window.
    pub window_title: String,
}

/// The mathematical content of a [`StartupPlan`].
pub struct StartupPlanView {
    pub plugins: Seq<Plugin>,
    pub log_level: Option<LogLevel>,
    pub window_label: Seq<char>,
    pub window_title: Seq<char>,
}

impl View for StartupPlan {
    type V = StartupPlanView;

    open spec fn view(&self) -> StartupPlanView {
        StartupPlanView {
            plugins: self.plugins@,
            log_level: self.log_level,
            window_label: self.window_label@,
            window_title: self.window_title@,
        }
    }
}

/// The five capability plugins, in the order of their registration.
pub open spec fn capability_plugins() -> Seq<Plugin> {
    seq![
        Plugin::Dialog,
        Plugin::ClipboardManager,
        Plugin::Fs,
        Plugin::GlobalShortcut,
        Plugin::Shell,
    ]
}

/// The logging sink of a build: debug builds log at `Info`, release builds
/// do not log.
pub open spec fn log_level_for(debug_build: bool) -> Option<LogLevel> {
    if debug_build {
        Some(LogLevel::Info)
    } else {
        None
    }
}

/// The plan of a build. Only the logging sink depends on the kind of build.
pub open spec fn plan_for(debug_build: bool) -> StartupPlanView {
    StartupPlanView {
        plugins: capability_plugins(),
        log_level: log_level_for(debug_build),
        window_label: "main"@,
        window_title: "SnapPretty"@,
    }
}

/// Draws up the startup plan for a debug build (`true`) or a release build.
pub fn startup_plan(debug_build: bool) -> (plan: StartupPlan)
    ensures
        plan@ == plan_for(debug_build),
{
    let mut plugins: Vec<Plugin> = Vec::new();
    plugins.push(Plugin::Dialog);
    plugins.push(Plugin::ClipboardManager);
    plugins.push(Plugin::Fs);
    plugins.push(Plugin::GlobalShortcut);
    plugins.push(Plugin::Shell);
    let log_level = if debug_build {
        Some(LogLevel::Info)
    } else {
        None
    };
    let plan = StartupPlan {
        plugins,
        log_level,
        window_label: "main".to_owned(),
        window_title: "SnapPretty".to_owned(),
    };
    assert(plan.plugins@ =~= capability_plugins());
    plan
}

} // verus!
