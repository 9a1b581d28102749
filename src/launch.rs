use vstd::prelude::*;
use crate::platform::{string_views, target_urls, urls_to_open};
use crate::text::{decimal, decimal_string};

verus! {

/// A line for the launcher's own output; `error` sends it to standard error.
#[derive(Clone, Debug)]
pub struct Notice {
    pub error: bool,
    pub text: String,
}

impl View for Notice {
    type V = (bool, Seq<char>);

    open spec fn view(&self) -> (bool, Seq<char>) {
        (self.error, self.text@)
    }
}

pub open spec fn notice_views(ns: Seq<Notice>) -> Seq<(bool, Seq<char>)> {
    ns.map_values(|n: Notice| n@)
}

/// How the setup step went.
#[derive(Clone, Debug)]
pub enum SetupOutcome {
    /// There is no setup script: nothing was run.
    NoScript,
    Succeeded,
    /// The script exited unsuccessfully, with this status.
    ExitedWith(String),
    /// The script could not be run, for this reason.
    CouldNotRun(String),
}

/// How waiting on the served process ended.
#[derive(Clone, Debug)]
pub enum ServerExit {
    Success,
    ExitedWith(String),
    WaitFailed(String),
}

/// What the caller reports after carrying out a step.
#[derive(Clone, Debug)]
pub enum LaunchEvent {
    SetupDone(SetupOutcome),
    PortSearched(Option<u16>),
    Spawned,
    SpawnFailed(String),
    ProbeFinished { ready: bool },
    /// A URL was handed to the browser opener; `Some` holds why it failed.
    UrlOpened(Option<String>),
    ServerExited(ServerExit),
}

/// What the caller is to do next.
#[derive(Clone, Debug)]
pub enum Step {
    /// Run the setup script if there is one, and report how it went.
    RunSetup,
    /// Look for the first free port of `start..=end`.
    FindPort { start: u16, end: u16 },
    /// Start the served process on `port`.
    SpawnServer { port: u16 },
    /// Start relaying the process's output, then probe `port` for readiness.
    StartRelaysAndProbe { port: u16 },
    /// Open `url` in the browser, then pause for `pause_ms`.
    OpenUrl { url: String, pause_ms: u64 },
    /// Block until the served process exits.
    WaitForExit,
    /// Stop the relays and exit with `code`.
    Exit { code: i32 },
}

#[derive(Clone, Debug)]
pub struct LaunchAction {
    pub notices: Vec<Notice>,
    pub step: Step,
}

#[derive(Clone, Copy, Debug, PartialEq, Eq, Structural)]
pub enum Stage {
    Start,
    Setup,
    FindPort,
    Spawn,
    Probe,
    OpenUrls,
    Wait,
    Done,
}

/// Sequences a launch: setup, port discovery, spawn, readiness, browser,
/// then waiting on the served process.
#[derive(Clone, Debug)]
pub struct Launch {
    pub host: String,
    pub port_start: u16,
    pub port_end: u16,
    pub open_paths: Vec<String>,
    pub run_setup: bool,
    pub open_browser: bool,
    pub server_bin: String,
    pub readiness_timeout_secs: u64,
    pub browser_delay_ms: u64,
    pub stage: Stage,
    pub port: u16,
    pub urls: Vec<String>,
    pub next_url: usize,
}

pub open spec fn setup_notices(o: SetupOutcome) -> Seq<(bool, Seq<char>)> {
    match o {
        SetupOutcome::NoScript => seq![],
        SetupOutcome::Succeeded => seq![(false, "  Setup complete."@), (false, seq![])],
        SetupOutcome::ExitedWith(s) => seq![
            (true, "  Setup exited with status: "@ + s@),
            (false, seq![]),
        ],
        SetupOutcome::CouldNotRun(e) => seq![(true, "  Setup error: "@ + e@), (false, seq![])],
    }
}

pub open spec fn no_port_message(start: u16, end: u16) -> Seq<char> {
    "  ERROR: No free port found in range "@ + decimal(start as nat) + "-"@ + decimal(end as nat)
}

pub open spec fn spawn_failure_notices(reason: Seq<char>, bin: Seq<char>) -> Seq<(bool, Seq<char>)> {
    seq![
        (true, "  ERROR: Could not start PHP server: "@ + reason),
        (true, "  Make sure '"@ + bin + "' is on your PATH."@),
    ]
}

pub open spec fn timeout_message(secs: u64) -> Seq<char> {
    "  WARNING: Server did not respond within "@ + decimal(secs as nat) + "s"@
}

pub open spec fn exit_notices(x: ServerExit) -> Seq<(bool, Seq<char>)> {
    match x {
        ServerExit::Success => seq![],
        ServerExit::ExitedWith(s) => seq![(true, "  PHP server exited with status: "@ + s@)],
        ServerExit::WaitFailed(e) => seq![(true, "  PHP server error: "@ + e@)],
    }
}

pub open spec fn browser_notices(err: Option<String>) -> Seq<(bool, Seq<char>)> {
    match err {
        Some(e) => seq![(true, "  Could not open browser: "@ + e@)],
        None => seq![],
    }
}

fn joined(a: &str, b: &str) -> (r: String)
    ensures
        r@ == a@ + b@,
{
    let mut r = String::from_str(a);
    r.append(b);
    r
}

fn one_notice(error: bool, text: String) -> (r: Vec<Notice>)
    ensures
        notice_views(r@) == seq![(error, text@)],
{
    let r = vec![Notice { error, text }];
    assert(notice_views(r@) =~= seq![(error, text@)]);
    r
}

impl Launch {
    /// The configuration a launch keeps from start to end.
    pub open spec fn same_settings(&self, other: &Launch) -> bool {
        &&& self.host == other.host
        &&& self.port_start == other.port_start
        &&& self.port_end == other.port_end
        &&& self.open_paths == other.open_paths
        &&& self.run_setup == other.run_setup
        &&& self.open_browser == other.open_browser
        &&& self.server_bin == other.server_bin
        &&& self.readiness_timeout_secs == other.readiness_timeout_secs
        &&& self.browser_delay_ms == other.browser_delay_ms
    }

    pub open spec fn wf(&self) -> bool {
        &&& self.next_url <= self.urls.len()
        &&& self.stage == Stage::OpenUrls ==> self.open_browser
    }

    /// The event that the current stage waits for.
    pub open spec fn expects(&self, e: LaunchEvent) -> bool {
        match self.stage {
            Stage::Setup => e is SetupDone,
            Stage::FindPort => e is PortSearched,
            Stage::Spawn => e is Spawned || e is SpawnFailed,
            Stage::Probe => e is ProbeFinished,
            Stage::OpenUrls => e is UrlOpened,
            Stage::Wait => e is ServerExited,
            _ => false,
        }
    }

    pub fn new(
        host: String,
        port_start: u16,
        port_end: u16,
        open_paths: Vec<String>,
        run_setup: bool,
        open_browser: bool,
        server_bin: String,
        readiness_timeout_secs: u64,
        browser_delay_ms: u64,
    ) -> (r: Launch)
        ensures
            r.wf(),
            r.stage == Stage::Start,
            r.host == host,
            r.port_start == port_start,
            r.port_end == port_end,
            r.open_paths == open_paths,
            r.run_setup == run_setup,
            r.open_browser == open_browser,
            r.server_bin == server_bin,
            r.readiness_timeout_secs == readiness_timeout_secs,
            r.browser_delay_ms == browser_delay_ms,
    {
        Launch {
            host,
            port_start,
            port_end,
            open_paths,
            run_setup,
            open_browser,
            server_bin,
            readiness_timeout_secs,
            browser_delay_ms,
            stage: Stage::Start,
            port: 0,
            urls: Vec::new(),
            next_url: 0,
        }
    }

    /// Whether `step` may be given `e` now.
    pub fn accepts(&self, e: &LaunchEvent) -> (r: bool)
        ensures
            r == self.expects(*e),
    {
        match self.stage {
            Stage::Setup => matches!(e, LaunchEvent::SetupDone(_)),
            Stage::FindPort => matches!(e, LaunchEvent::PortSearched(_)),
            Stage::Spawn => matches!(e, LaunchEvent::Spawned | LaunchEvent::SpawnFailed(_)),
            Stage::Probe => matches!(e, LaunchEvent::ProbeFinished { .. }),
            Stage::OpenUrls => matches!(e, LaunchEvent::UrlOpened(_)),
            Stage::Wait => matches!(e, LaunchEvent::ServerExited(_)),
            _ => false,
        }
    }

    /// The first step: setup when it is enabled, else port discovery.
    pub fn begin(&mut self) -> (r: Step)
        requires
            old(self).stage == Stage::Start,
            old(self).wf(),
        ensures
            final(self).wf(),
            final(self).same_settings(old(self)),
            final(self).port == old(self).port,
            final(self).urls == old(self).urls,
            final(self).next_url == old(self).next_url,
            if old(self).run_setup {
                final(self).stage == Stage::Setup && r == Step::RunSetup
            } else {
                final(self).stage == Stage::FindPort && r == (Step::FindPort {
                    start: old(self).port_start,
                    end: old(self).port_end,
                })
            },
    {
        if self.run_setup {
            self.stage = Stage::Setup;
            Step::RunSetup
        } else {
            self.stage = Stage::FindPort;
            Step::FindPort { start: self.port_start, end: self.port_end }
        }
    }
    /// The step after the browser has been handed `urls[next_url - 1]`, or
    /// after readiness when nothing was opened yet.
    fn next_url_step(&mut self) -> (r: Step)
        requires
            old(self).wf(),
            old(self).open_browser,
        ensures
            final(self).wf(),
            final(self).same_settings(old(self)),
            final(self).port == old(self).port,
            final(self).urls == old(self).urls,
            if old(self).next_url < old(self).urls.len() {
                &&& final(self).stage == Stage::OpenUrls
                &&& final(self).next_url == old(self).next_url + 1
                &&& r == (Step::OpenUrl {
                    url: old(self).urls[old(self).next_url as int],
                    pause_ms: old(self).browser_delay_ms,
                })
            } else {
                &&& final(self).stage == Stage::Wait
                &&& final(self).next_url == old(self).next_url
                &&& r == Step::WaitForExit
            },
    {
        if self.next_url < self.urls.len() {
            let url = self.urls[self.next_url].clone();
            self.next_url = self.next_url + 1;
            self.stage = Stage::OpenUrls;
            Step::OpenUrl { url, pause_ms: self.browser_delay_ms }
        } else {
            self.stage = Stage::Wait;
            Step::WaitForExit
        }
    }

    /// Takes the outcome of the last step and says what to do next.
    ///
    /// Setup never stops a launch: whatever its outcome, port discovery
    /// follows. Only a missing port or a failed spawn end it early, with
    /// exit code 1; otherwise it ends with code 0 once the served process
    /// exits, whatever that process's own status.
    pub fn step(&mut self, event: LaunchEvent) -> (r: LaunchAction)
        requires
            old(self).wf(),
            old(self).expects(event),
        ensures
            final(self).wf(),
            final(self).same_settings(old(self)),
            match event {
                LaunchEvent::SetupDone(o) => {
                    &&& final(self).stage == Stage::FindPort
                    &&& final(self).port == old(self).port
                    &&& final(self).urls == old(self).urls
                    &&& final(self).next_url == old(self).next_url
                    &&& r.step == (Step::FindPort {
                        start: old(self).port_start,
                        end: old(self).port_end,
                    })
                    &&& notice_views(r.notices@) == setup_notices(o)
                },
                LaunchEvent::PortSearched(None) => {
                    &&& final(self).stage == Stage::Done
                    &&& r.step == (Step::Exit { code: 1 })
                    &&& notice_views(r.notices@) == seq![
                        (true, no_port_message(old(self).port_start, old(self).port_end)),
                    ]
                },
                LaunchEvent::PortSearched(Some(p)) => {
                    &&& final(self).stage == Stage::Spawn
                    &&& final(self).port == p
                    &&& string_views(final(self).urls@) == target_urls(
                        old(self).host@,
                        p,
                        string_views(old(self).open_paths@),
                    )
                    &&& final(self).next_url == 0
                    &&& r.step == (Step::SpawnServer { port: p })
                    &&& r.notices@.len() == 0
                },
                LaunchEvent::Spawned => {
                    &&& final(self).stage == Stage::Probe
                    &&& final(self).port == old(self).port
                    &&& final(self).urls == old(self).urls
                    &&& final(self).next_url == old(self).next_url
                    &&& r.step == (Step::StartRelaysAndProbe { port: old(self).port })
                    &&& r.notices@.len() == 0
                },
                LaunchEvent::SpawnFailed(e) => {
                    &&& final(self).stage == Stage::Done
                    &&& r.step == (Step::Exit { code: 1 })
                    &&& notice_views(r.notices@) == spawn_failure_notices(
                        e@,
                        old(self).server_bin@,
                    )
                },
                LaunchEvent::ProbeFinished { ready } => {
                    &&& final(self).port == old(self).port
                    &&& final(self).urls == old(self).urls
                    &&& notice_views(r.notices@) == (if ready {
                        seq![]
                    } else {
                        seq![(true, timeout_message(old(self).readiness_timeout_secs))]
                    })
                    &&& if old(self).open_browser && old(self).next_url < old(self).urls.len() {
                        &&& final(self).stage == Stage::OpenUrls
                        &&& final(self).next_url == old(self).next_url + 1
                        &&& r.step == (Step::OpenUrl {
                            url: old(self).urls[old(self).next_url as int],
                            pause_ms: old(self).browser_delay_ms,
                        })
                    } else {
                        &&& final(self).stage == Stage::Wait
                        &&& r.step == Step::WaitForExit
                    }
                },
                LaunchEvent::UrlOpened(err) => {
                    &&& final(self).port == old(self).port
                    &&& final(self).urls == old(self).urls
                    &&& notice_views(r.notices@) == browser_notices(err)
                    &&& if old(self).next_url < old(self).urls.len() {
                        &&& final(self).stage == Stage::OpenUrls
                        &&& final(self).next_url == old(self).next_url + 1
                        &&& r.step == (Step::OpenUrl {
                            url: old(self).urls[old(self).next_url as int],
                            pause_ms: old(self).browser_delay_ms,
                        })
                    } else {
                        &&& final(self).stage == Stage::Wait
                        &&& r.step == Step::WaitForExit
                    }
                },
                LaunchEvent::ServerExited(x) => {
                    &&& final(self).stage == Stage::Done
                    &&& r.step == (Step::Exit { code: 0 })
                    &&& notice_views(r.notices@) == exit_notices(x)
                },
            },
    {
        match event {
            LaunchEvent::SetupDone(o) => {
                self.stage = Stage::FindPort;
                let notices = match o {
                    SetupOutcome::NoScript => Vec::new(),
                    SetupOutcome::Succeeded => vec![
                        Notice { error: false, text: String::from_str("  Setup complete.") },
                        Notice { error: false, text: String::new() },
                    ],
                    SetupOutcome::ExitedWith(st) => vec![
                        Notice {
                            error: true,
                            text: joined("  Setup exited with status: ", st.as_str()),
                        },
                        Notice { error: false, text: String::new() },
                    ],
                    SetupOutcome::CouldNotRun(e) => vec![
                        Notice { error: true, text: joined("  Setup error: ", e.as_str()) },
                        Notice { error: false, text: String::new() },
                    ],
                };
                assert(notice_views(notices@) =~= setup_notices(o));
                LaunchAction {
                    notices,
                    step: Step::FindPort { start: self.port_start, end: self.port_end },
                }
            },
            LaunchEvent::PortSearched(None) => {
                self.stage = Stage::Done;
                let mut text = String::from_str("  ERROR: No free port found in range ");
                let a = decimal_string(self.port_start as u64);
                text.append(a.as_str());
                text.append("-");
                let b = decimal_string(self.port_end as u64);
                text.append(b.as_str());
                LaunchAction { notices: one_notice(true, text), step: Step::Exit { code: 1 } }
            },
            LaunchEvent::PortSearched(Some(p)) => {
                self.urls = urls_to_open(self.host.as_str(), p, &self.open_paths);
                self.port = p;
                self.next_url = 0;
                self.stage = Stage::Spawn;
                LaunchAction { notices: Vec::new(), step: Step::SpawnServer { port: p } }
            },
            LaunchEvent::Spawned => {
                self.stage = Stage::Probe;
                LaunchAction {
                    notices: Vec::new(),
                    step: Step::StartRelaysAndProbe { port: self.port },
                }
            },
            LaunchEvent::SpawnFailed(e) => {
                self.stage = Stage::Done;
                let first = joined("  ERROR: Could not start PHP server: ", e.as_str());
                let mut second = joined("  Make sure '", self.server_bin.as_str());
                second.append("' is on your PATH.");
                let notices = vec![Notice { error: true, text: first }, Notice { error: true, text: second }];
                assert(notice_views(notices@) =~= spawn_failure_notices(e@, self.server_bin@));
                LaunchAction { notices, step: Step::Exit { code: 1 } }
            },
            LaunchEvent::ProbeFinished { ready } => {
                let notices = if ready {
                    Vec::new()
                } else {
                    let mut text = String::from_str("  WARNING: Server did not respond within ");
                    let secs = decimal_string(self.readiness_timeout_secs);
                    text.append(secs.as_str());
                    text.append("s");
                    one_notice(true, text)
                };
                assert(notice_views(notices@) =~= (if ready {
                    seq![]
                } else {
                    seq![(true, timeout_message(self.readiness_timeout_secs))]
                }));
                let step = if self.open_browser {
                    self.next_url_step()
                } else {
                    self.stage = Stage::Wait;
                    Step::WaitForExit
                };
                LaunchAction { notices, step }
            },
            LaunchEvent::UrlOpened(err) => {
                let notices = match err {
                    Some(e) => one_notice(true, joined("  Could not open browser: ", e.as_str())),
                    None => Vec::new(),
                };
                assert(notice_views(notices@) =~= browser_notices(err));
                let step = self.next_url_step();
                LaunchAction { notices, step }
            },
            LaunchEvent::ServerExited(x) => {
                self.stage = Stage::Done;
                let notices = match x {
                    ServerExit::Success => Vec::new(),
                    ServerExit::ExitedWith(st) => one_notice(
                        true,
                        joined("  PHP server exited with status: ", st.as_str()),
                    ),
                    ServerExit::WaitFailed(e) => one_notice(
                        true,
                        joined("  PHP server error: ", e.as_str()),
                    ),
                };
                assert(notice_views(notices@) =~= exit_notices(x));
                LaunchAction { notices, step: Step::Exit { code: 0 } }
            },
        }
    }
}

} // verus!
