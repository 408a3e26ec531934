//! What this platform can do.

use crate::methods;
use crate::methods::{browser_methods, merge_names};
use vstd::prelude::*;

verus! {

/// The platform.
#[derive(Debug, Clone, Copy)]
pub struct PlatformInfo {
    /// Its name.
    pub id: &'static str,
    /// The toolkit of the user interface.
    pub frontend: &'static str,
    /// Whether there can be several windows.
    pub window_multi: bool,
}

/// What is offered.
#[derive(Debug, Clone, Copy)]
pub struct FeatureFlags {
    /// Terminals.
    pub terminal: bool,
    /// Workspaces.
    pub workspace: bool,
    /// Panes.
    pub pane: bool,
    /// Surfaces.
    pub surface: bool,
    /// Notifications.
    pub notification: bool,
    /// That a session is restored.
    pub session_restore: bool,
    /// Several windows.
    pub window_multi: bool,
    /// An embedded browser.
    pub browser: bool,
    /// Methods for debugging.
    pub debug: bool,
}

/// What the application can do on this platform.
#[derive(Debug, Clone)]
pub struct CapabilityProfile {
    /// The platform.
    pub platform: PlatformInfo,
    /// What is offered.
    pub features: FeatureFlags,
    /// The methods that cannot be used, each once, in order.
    pub unsupported_methods: Vec<&'static str>,
}

/// How terminals are run.
#[derive(Debug)]
pub struct TerminalBackendStatus {
    /// What runs them.
    pub active: &'static str,
    /// What was asked for.
    pub requested: Option<String>,
    /// What could run them.
    pub supported: Vec<&'static str>,
    /// A remark.
    pub note: Option<String>,
}

/// How terminals are run: by the VTE widget, and by nothing else.
pub fn terminal_backend_status() -> (status: TerminalBackendStatus)
    ensures
        status.active@ == "vte"@,
        status.requested is None,
        methods::names(status.supported@) == Seq::<Seq<char>>::empty().push("vte"@),
        status.note is None,
{
    let mut supported: Vec<&'static str> = Vec::new();
    supported.push("vte");
    proof {
        assert(methods::names(supported@) =~= Seq::<Seq<char>>::empty().push("vte"@));
    }
    TerminalBackendStatus { active: "vte", requested: None, supported, note: None }
}

/// The label in a list, if the feature is offered.
pub open spec fn label(offered: bool, name: Seq<char>) -> Seq<Seq<char>> {
    if offered {
        Seq::<Seq<char>>::empty().push(name)
    } else {
        Seq::empty()
    }
}

/// The names of what is offered.
pub open spec fn feature_labels(features: FeatureFlags) -> Seq<Seq<char>> {
    label(features.terminal, "terminal"@) + label(features.workspace, "workspace"@) + label(
        features.pane,
        "pane"@,
    ) + label(features.surface, "surface"@) + label(features.notification, "notification"@)
        + label(features.session_restore, "session_restore"@) + label(
        features.window_multi,
        "window_multi"@,
    ) + label(features.browser, "browser"@) + label(features.debug, "debug"@)
}

/// What this platform offers: everything but a browser.
pub open spec fn linux_features(features: FeatureFlags) -> bool {
    features == (FeatureFlags {
        terminal: true,
        workspace: true,
        pane: true,
        surface: true,
        notification: true,
        session_restore: true,
        window_multi: true,
        browser: false,
        debug: true,
    })
}

/// The platform is Linux with its toolkit, and can have several windows.
pub open spec fn linux_platform(platform: PlatformInfo) -> bool {
    &&& platform.id@ == "linux"@
    &&& platform.frontend@ == "gtk4-libadwaita"@
    &&& platform.window_multi
}

/// The browser methods that the platform itself rules out.
pub open spec fn ruled_out() -> Seq<Seq<char>> {
    Seq::<Seq<char>>::empty().push("browser.open_split"@).push("browser.navigate"@).push(
        "browser.back"@,
    ).push("browser.forward"@).push("browser.reload"@).push("browser.url.get"@).push(
        "browser.snapshot"@,
    ).push("browser.eval"@).push("browser.wait"@)
}

fn add_label(labels: &mut Vec<&'static str>, offered: bool, name: &'static str)
    ensures
        methods::names(final(labels)@) == methods::names(old(labels)@) + label(offered, name@),
{
    let ghost before = methods::names(labels@);
    if offered {
        labels.push(name);
    }
    proof {
        assert(methods::names(labels@) =~= before + label(offered, name@));
    }
}

impl CapabilityProfile {
    /// The names of what is offered.
    pub fn enabled_feature_labels(&self) -> (labels: Vec<&'static str>)
        ensures
            methods::names(labels@) == feature_labels(self.features),
    {
        let mut labels: Vec<&'static str> = Vec::new();
        proof {
            assert(methods::names(labels@) + label(self.features.terminal, "terminal"@) =~= label(
                self.features.terminal,
                "terminal"@,
            ));
        }
        add_label(&mut labels, self.features.terminal, "terminal");
        add_label(&mut labels, self.features.workspace, "workspace");
        add_label(&mut labels, self.features.pane, "pane");
        add_label(&mut labels, self.features.surface, "surface");
        add_label(&mut labels, self.features.notification, "notification");
        add_label(&mut labels, self.features.session_restore, "session_restore");
        add_label(&mut labels, self.features.window_multi, "window_multi");
        add_label(&mut labels, self.features.browser, "browser");
        add_label(&mut labels, self.features.debug, "debug");
        labels
    }
}

/// What the application can do on Linux, with the browser methods that the platform rules out.
pub fn linux_v1_capabilities() -> (profile: CapabilityProfile)
    ensures
        linux_platform(profile.platform),
        linux_features(profile.features),
        methods::merged(
            methods::names(profile.unsupported_methods@),
            ruled_out(),
            Seq::empty(),
        ),
        methods::names(profile.unsupported_methods@) == methods::in_order(
            ruled_out(),
            Seq::empty(),
        ),
{
    let mut listed: Vec<&'static str> = Vec::new();
    proof {
        assert(methods::names(listed@) =~= Seq::<Seq<char>>::empty());
    }
    add_label(&mut listed, true, "browser.open_split");
    add_label(&mut listed, true, "browser.navigate");
    add_label(&mut listed, true, "browser.back");
    add_label(&mut listed, true, "browser.forward");
    add_label(&mut listed, true, "browser.reload");
    add_label(&mut listed, true, "browser.url.get");
    add_label(&mut listed, true, "browser.snapshot");
    add_label(&mut listed, true, "browser.eval");
    add_label(&mut listed, true, "browser.wait");
    let none: Vec<&'static str> = Vec::new();
    proof {
        assert(methods::names(none@) =~= Seq::<Seq<char>>::empty());
        assert(methods::names(listed@) =~= ruled_out());
    }
    CapabilityProfile {
        platform: PlatformInfo {
            id: "linux",
            frontend: "gtk4-libadwaita",
            window_multi: true,
        },
        features: FeatureFlags {
            terminal: true,
            workspace: true,
            pane: true,
            surface: true,
            notification: true,
            session_restore: true,
            window_multi: true,
            browser: false,
            debug: true,
        },
        unsupported_methods: merge_names(&listed, &none),
    }
}

/// What the application can do on Linux, with all browser methods ruled out.
pub fn merged_capability_profile() -> (profile: CapabilityProfile)
    ensures
        linux_platform(profile.platform),
        linux_features(profile.features),
        methods::merged(
            methods::names(profile.unsupported_methods@),
            methods::browser(),
            Seq::empty(),
        ),
        methods::names(profile.unsupported_methods@) == methods::in_order(
            methods::browser(),
            Seq::empty(),
        ),
{
    let mut profile = linux_v1_capabilities();
    let none: Vec<&'static str> = Vec::new();
    proof {
        assert(methods::names(none@) =~= Seq::<Seq<char>>::empty());
    }
    profile.unsupported_methods = merge_names(&browser_methods(), &none);
    profile
}

} // verus!
