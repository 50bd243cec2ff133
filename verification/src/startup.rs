//! Startup registrar: which capability plugins are attached at launch,
//! which operations the bridge exposes, and whether startup may complete.

use vstd::prelude::*;

verus! {

/// One capability plugin attached to the shell at startup.
#[derive(PartialEq, Eq, Structural, Clone, Copy, Debug)]
pub enum Plugin {
    /// Opens URLs in the system's default handler.
    Opener,
    /// HTTP client capability.
    Http,
    /// Shell-access capability.
    Shell,
    /// Filesystem-access capability.
    Fs,
    /// Notification delivery.
    Notification,
    /// Verbose logging sink, attached only in development builds.
    Log,
}

/// One operation callable from the front end.
#[derive(PartialEq, Eq, Structural, Clone, Copy, Debug)]
pub enum Command {
    GetPlatformInfo,
    OpenExternalUrl,
}

/// The plugins to register, in the order they attach at launch. The
/// verbose logging sink comes last, and only in a development build.
pub open spec fn spec_capability_plugins(dev_build: bool) -> Seq<Plugin> {
    let base = seq![
        Plugin::Opener,
        Plugin::Http,
        Plugin::Shell,
        Plugin::Fs,
        Plugin::Notification,
    ];
    if dev_build {
        base.push(Plugin::Log)
    } else {
        base
    }
}

/// The complete, closed set of operations the bridge publishes.
pub open spec fn spec_commands() -> Seq<Command> {
    seq![Command::GetPlatformInfo, Command::OpenExternalUrl]
}

/// Assembles the ordered set of capability plugins for this build.
pub fn capability_plugins(dev_build: bool) -> (r: Vec<Plugin>)
    ensures
        r@ == spec_capability_plugins(dev_build),
{
    let mut plugins: Vec<Plugin> = Vec::new();
    plugins.push(Plugin::Opener);
    plugins.push(Plugin::Http);
    plugins.push(Plugin::Shell);
    plugins.push(Plugin::Fs);
    plugins.push(Plugin::Notification);
    if dev_build {
        plugins.push(Plugin::Log);
    }
    proof {
        assert(plugins@ =~= spec_capability_plugins(dev_build));
    }
    plugins
}

/// Publishes the callable surface: exactly the two named operations.
pub fn invoke_handlers() -> (r: Vec<Command>)
    ensures
        r@ == spec_commands(),
{
    let mut commands: Vec<Command> = Vec::new();
    commands.push(Command::GetPlatformInfo);
    commands.push(Command::OpenExternalUrl);
    proof {
        assert(commands@ =~= spec_commands());
    }
    commands
}

/// Decides the startup outcome from the registration results, one per
/// plugin of this build's set, in registration order. Startup completes,
/// publishing the callable surface, exactly when every plugin attached;
/// any registration failure is fatal, and the result names the first
/// plugin that failed so the process can terminate with a diagnostic.
pub fn startup_outcome(dev_build: bool, attached: &Vec<bool>) -> (r: Result<Vec<Command>, usize>)
    requires
        attached@.len() == spec_capability_plugins(dev_build).len(),
    ensures
        (r is Ok) <==> (forall|i: int| 0 <= i < attached@.len() ==> attached@[i]),
        r matches Ok(commands) ==> commands@ == spec_commands(),
        r matches Err(j) ==> 0 <= j < attached@.len() && !attached@[j as int]
            && (forall|i: int| 0 <= i < j ==> attached@[i]),
{
    let mut i: usize = 0;
    while i < attached.len()
        invariant
            i <= attached@.len(),
            forall|k: int| 0 <= k < i ==> attached@[k],
        decreases attached@.len() - i,
    {
        if !attached[i] {
            return Err(i);
        }
        i = i + 1;
    }
    Ok(invoke_handlers())
}

} // verus!
