use vstd::prelude::*;

verus! {

/// The operating-system family a build of the host targets.
#[derive(Clone, Copy, Debug, PartialEq, Eq, Structural)]
pub enum Platform {
    MacOs,
    Windows,
    Linux,
    Mobile,
}

/// The build profile the host was compiled under.
#[derive(Clone, Copy, Debug, PartialEq, Eq, Structural)]
pub enum Profile {
    Debug,
    Release,
}

/// A platform together with a build profile: everything the launch wiring
/// depends on.
#[derive(Clone, Copy, Debug, PartialEq, Eq, Structural)]
pub struct Target {
    pub platform: Platform,
    pub profile: Profile,
}

/// True on the platforms that run the host as a windowed desktop process.
pub open spec fn desktop_platform(p: Platform) -> bool {
    p is MacOs || p is Windows || p is Linux
}

impl Platform {
    /// Whether this platform runs the host as a desktop process.
    pub fn is_desktop(&self) -> (r: bool)
        ensures
            r == desktop_platform(*self),
    {
        match self {
            Platform::MacOs => true,
            Platform::Windows => true,
            Platform::Linux => true,
            Platform::Mobile => false,
        }
    }
}

/// A framework plugin the host can attach while it builds the application.
#[derive(Clone, Copy, Debug, PartialEq, Eq, Structural)]
pub enum Plugin {
    /// Forwards a second launch's arguments to the running instance.
    SingleInstance,
    /// Lets the application invoke external programs.
    Shell,
    /// Hands OS-delivered URLs for registered schemes to the application.
    DeepLink,
}

/// A step the startup hook performs once the application is built.
#[derive(Clone, Copy, Debug, PartialEq, Eq, Structural)]
pub enum SetupAction {
    /// Register every configured URL scheme with the operating system.
    RegisterDeepLinks,
    /// Open the developer-tools panel on the main window, if one exists.
    OpenDevtools,
}

/// True where the startup hook registers URL schemes with the OS:
/// always on Linux, and on Windows only for debug builds.
pub open spec fn registers_deep_links(t: Target) -> bool {
    t.platform is Linux || (t.platform is Windows && t.profile is Debug)
}

/// True where the startup hook tries to open the developer tools: debug
/// builds only.
pub open spec fn opens_devtools(t: Target) -> bool {
    t.profile is Debug
}

/// The plugins a target attaches, in attachment order: single-instance
/// enforcement first on desktop platforms, then shell access and deep-link
/// handling everywhere.
pub open spec fn expected_plugins(t: Target) -> Seq<Plugin> {
    if desktop_platform(t.platform) {
        seq![Plugin::SingleInstance, Plugin::Shell, Plugin::DeepLink]
    } else {
        seq![Plugin::Shell, Plugin::DeepLink]
    }
}

/// The steps a target's startup hook performs, in order: scheme
/// registration where the OS needs it, then the developer-tools panel in
/// debug builds.
pub open spec fn expected_actions(t: Target) -> Seq<SetupAction> {
    let base = if registers_deep_links(t) {
        seq![SetupAction::RegisterDeepLinks]
    } else {
        Seq::<SetupAction>::empty()
    };
    if opens_devtools(t) {
        base.push(SetupAction::OpenDevtools)
    } else {
        base
    }
}

/// The plugins this target attaches, in attachment order.
pub fn plugins_for(t: &Target) -> (r: Vec<Plugin>)
    ensures
        r@ == expected_plugins(*t),
{
    let mut r: Vec<Plugin> = Vec::new();
    if t.platform.is_desktop() {
        r.push(Plugin::SingleInstance);
    }
    r.push(Plugin::Shell);
    r.push(Plugin::DeepLink);
    proof {
        assert(r@ =~= expected_plugins(*t));
    }
    r
}

/// Whether this target registers URL schemes with the OS at startup.
pub fn registers_deep_links_for(t: &Target) -> (r: bool)
    ensures
        r == registers_deep_links(*t),
{
    match t.platform {
        Platform::Linux => true,
        Platform::Windows => t.profile == Profile::Debug,
        Platform::MacOs => false,
        Platform::Mobile => false,
    }
}

/// The steps this target's startup hook performs, in order.
pub fn setup_actions_for(t: &Target) -> (r: Vec<SetupAction>)
    ensures
        r@ == expected_actions(*t),
{
    let mut r: Vec<SetupAction> = Vec::new();
    if registers_deep_links_for(t) {
        r.push(SetupAction::RegisterDeepLinks);
    }
    if t.profile == Profile::Debug {
        r.push(SetupAction::OpenDevtools);
    }
    proof {
        assert(r@ =~= expected_actions(*t));
    }
    r
}

/// Everything the host wires up before handing control to the framework's
/// run loop.
pub struct StartupPlan {
    pub plugins: Vec<Plugin>,
    pub actions: Vec<SetupAction>,
}

impl StartupPlan {
    /// The plan holds exactly the plugins and setup steps of this target.
    pub open spec fn is_for(self, t: Target) -> bool {
        self.plugins@ == expected_plugins(t) && self.actions@ == expected_actions(t)
    }
}

/// The complete launch wiring for a target.
pub fn startup_plan(t: &Target) -> (r: StartupPlan)
    ensures
        r.is_for(*t),
{
    StartupPlan { plugins: plugins_for(t), actions: setup_actions_for(t) }
}

/// Shell access and deep-link handling are attached on every target.
pub proof fn core_plugins_on_every_target(t: Target)
    ensures
        expected_plugins(t).contains(Plugin::Shell),
        expected_plugins(t).contains(Plugin::DeepLink),
{
    let s = expected_plugins(t);
    if desktop_platform(t.platform) {
        assert(s[1] == Plugin::Shell);
        assert(s[2] == Plugin::DeepLink);
    } else {
        assert(s[0] == Plugin::Shell);
        assert(s[1] == Plugin::DeepLink);
    }
}

/// Single-instance enforcement is attached exactly on desktop platforms.
pub proof fn single_instance_iff_desktop(t: Target)
    ensures
        expected_plugins(t).contains(Plugin::SingleInstance) <==> desktop_platform(t.platform),
{
    let s = expected_plugins(t);
    if desktop_platform(t.platform) {
        assert(s[0] == Plugin::SingleInstance);
    } else {
        assert forall|i: int| 0 <= i < s.len() implies s[i] != Plugin::SingleInstance by {
            assert(s[0] == Plugin::Shell);
            assert(s[1] == Plugin::DeepLink);
        }
    }
}

/// The developer-tools step is planned exactly for debug builds.
pub proof fn devtools_step_iff_debug(t: Target)
    ensures
        expected_actions(t).contains(SetupAction::OpenDevtools) <==> t.profile is Debug,
{
    let s = expected_actions(t);
    if t.profile is Debug {
        assert(s[s.len() - 1] == SetupAction::OpenDevtools);
    } else {
        assert forall|i: int| 0 <= i < s.len() implies s[i] != SetupAction::OpenDevtools by {
            assert(registers_deep_links(t) ==> s[0] == SetupAction::RegisterDeepLinks);
        }
    }
}

/// The registration step is planned exactly where the OS needs URL schemes
/// registered at startup.
pub proof fn registration_step_iff_needed(t: Target)
    ensures
        expected_actions(t).contains(SetupAction::RegisterDeepLinks) <==> registers_deep_links(t),
{
    let s = expected_actions(t);
    if registers_deep_links(t) {
        assert(s[0] == SetupAction::RegisterDeepLinks);
    } else {
        assert forall|i: int| 0 <= i < s.len() implies s[i] != SetupAction::RegisterDeepLinks by {
            assert(t.profile is Debug ==> s[0] == SetupAction::OpenDevtools);
        }
    }
}

} // verus!
