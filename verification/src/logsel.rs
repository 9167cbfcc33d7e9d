//! Log target selection: which sinks receive diagnostic records.

use vstd::prelude::*;

use crate::profile::BuildProfile;

verus! {

/// The sinks a log record can be written to. Writing itself is the logging
/// backend's concern; the shell only decides membership.
#[derive(Clone, Copy, PartialEq, Eq, Structural, Debug)]
pub enum SinkKind {
    /// The process's standard-output stream.
    Stdout,
    /// The console of the embedded frontend view.
    WebviewConsole,
    /// The on-disk log directory.
    LogDir,
}

/// An immutable set of log sinks, chosen exactly once at startup. Each field
/// says whether the corresponding sink receives log records.
#[derive(Clone, Copy, PartialEq, Eq, Structural, Debug)]
pub struct LogTargets {
    pub stdout: bool,
    pub webview_console: bool,
    pub log_dir: bool,
}

impl LogTargets {
    /// Membership of one sink kind in the set.
    pub open spec fn spec_contains(self, kind: SinkKind) -> bool {
        match kind {
            SinkKind::Stdout => self.stdout,
            SinkKind::WebviewConsole => self.webview_console,
            SinkKind::LogDir => self.log_dir,
        }
    }

    /// Runtime membership test, equal to the specification-level one.
    pub fn contains(&self, kind: SinkKind) -> (r: bool)
        ensures
            r == self.spec_contains(kind),
    {
        match kind {
            SinkKind::Stdout => self.stdout,
            SinkKind::WebviewConsole => self.webview_console,
            SinkKind::LogDir => self.log_dir,
        }
    }
}

/// The set of sinks that the given profile selects: standard output always;
/// the webview console exactly in debug builds; the log directory exactly in
/// release builds.
pub open spec fn spec_select(profile: BuildProfile) -> LogTargets {
    LogTargets {
        stdout: true,
        webview_console: profile is Debug,
        log_dir: profile is Release,
    }
}

/// Chooses the log sinks for the whole process lifetime. A pure function of
/// the build profile: debug selects {stdout, webview console}, release
/// selects {stdout, log directory}, and no other combination can come out.
pub fn select(profile: BuildProfile) -> (t: LogTargets)
    ensures
        t == spec_select(profile),
        t.spec_contains(SinkKind::Stdout),
        t.spec_contains(SinkKind::WebviewConsole) <==> profile is Debug,
        t.spec_contains(SinkKind::LogDir) <==> profile is Release,
{
    match profile {
        BuildProfile::Debug => LogTargets { stdout: true, webview_console: true, log_dir: false },
        BuildProfile::Release => LogTargets { stdout: true, webview_console: false, log_dir: true },
    }
}

} // verus!
