use vstd::prelude::*;
use crate::platform::string_views;
use crate::text::{parse_port, port_number};

verus! {

pub const DEFAULT_PORT_START: u16 = 8080;

pub const DEFAULT_PORT_END: u16 = 8200;

/// How long to wait for the served process to accept connections.
pub const READY_TIMEOUT_SECS: u64 = 10;

/// Pause between two readiness polls.
pub const READY_POLL_MS: u64 = 100;

/// Pause after handing each URL to the browser.
pub const BROWSER_OPEN_DELAY_MS: u64 = 300;

/// The launcher's settings.
#[derive(Clone, Debug)]
pub struct Config {
    pub root: String,
    pub host: String,
    pub port_start: u16,
    pub port_end: u16,
    pub router: String,
    pub open_paths: Vec<String>,
    pub run_setup: bool,
    pub open_browser: bool,
    pub php_bin: String,
}

/// The settings as plain values.
pub struct ConfigView {
    pub root: Seq<char>,
    pub host: Seq<char>,
    pub port_start: u16,
    pub port_end: u16,
    pub router: Seq<char>,
    pub open_paths: Seq<Seq<char>>,
    pub run_setup: bool,
    pub open_browser: bool,
    pub php_bin: Seq<char>,
}

impl View for Config {
    type V = ConfigView;

    open spec fn view(&self) -> ConfigView {
        ConfigView {
            root: self.root@,
            host: self.host@,
            port_start: self.port_start,
            port_end: self.port_end,
            router: self.router@,
            open_paths: string_views(self.open_paths@),
            run_setup: self.run_setup,
            open_browser: self.open_browser,
            php_bin: self.php_bin@,
        }
    }
}

/// What the command line asks for.
#[derive(Clone, Debug)]
pub enum ParsedArgs {
    Run(Config),
    /// `--help` or `-h`: print usage and stop.
    Help,
    /// A flag that takes a value came last, with no value after it.
    MissingValue(String),
}

pub enum ParsedArgsView {
    Run(ConfigView),
    Help,
    MissingValue(Seq<char>),
}

impl View for ParsedArgs {
    type V = ParsedArgsView;

    open spec fn view(&self) -> ParsedArgsView {
        match self {
            ParsedArgs::Run(c) => ParsedArgsView::Run(c@),
            ParsedArgs::Help => ParsedArgsView::Help,
            ParsedArgs::MissingValue(f) => ParsedArgsView::MissingValue(f@),
        }
    }
}

/// The settings before any flag is read.
pub open spec fn default_view(root: Seq<char>) -> ConfigView {
    ConfigView {
        root,
        host: "127.0.0.1"@,
        port_start: DEFAULT_PORT_START,
        port_end: DEFAULT_PORT_END,
        router: "router.php"@,
        open_paths: seq![],
        run_setup: true,
        open_browser: true,
        php_bin: "php"@,
    }
}

pub open spec fn takes_value(flag: Seq<char>) -> bool {
    flag == "--root"@ || flag == "--host"@ || flag == "--port-start"@ || flag == "--port-end"@
        || flag == "--router"@ || flag == "--open"@ || flag == "--php"@
}

/// A port given on the command line, or `default` where it is not a number.
pub open spec fn port_or(v: Seq<char>, default: u16) -> u16 {
    match port_number(v) {
        Some(p) => p,
        None => default,
    }
}

/// The settings after a flag that takes a value has read `v`.
pub open spec fn with_value(c: ConfigView, flag: Seq<char>, v: Seq<char>) -> ConfigView {
    if flag == "--root"@ {
        ConfigView { root: v, ..c }
    } else if flag == "--host"@ {
        ConfigView { host: v, ..c }
    } else if flag == "--port-start"@ {
        ConfigView { port_start: port_or(v, DEFAULT_PORT_START), ..c }
    } else if flag == "--port-end"@ {
        ConfigView { port_end: port_or(v, DEFAULT_PORT_END), ..c }
    } else if flag == "--router"@ {
        ConfigView { router: v, ..c }
    } else if flag == "--open"@ {
        ConfigView { open_paths: c.open_paths.push(v), ..c }
    } else {
        ConfigView { php_bin: v, ..c }
    }
}

/// Reads the arguments from position `i` on, with settings `c` so far.
/// Unknown arguments are ignored; a flag's value is never read as a flag.
pub open spec fn parse_from(args: Seq<Seq<char>>, i: int, c: ConfigView) -> ParsedArgsView
    decreases args.len() - i,
{
    if i < 0 || i >= args.len() {
        ParsedArgsView::Run(c)
    } else {
        let a = args[i];
        if takes_value(a) {
            if i + 1 >= args.len() {
                ParsedArgsView::MissingValue(a)
            } else {
                parse_from(args, i + 2, with_value(c, a, args[i + 1]))
            }
        } else if a == "--help"@ || a == "-h"@ {
            ParsedArgsView::Help
        } else if a == "--no-setup"@ {
            parse_from(args, i + 1, ConfigView { run_setup: false, ..c })
        } else if a == "--no-open"@ {
            parse_from(args, i + 1, ConfigView { open_browser: false, ..c })
        } else {
            parse_from(args, i + 1, c)
        }
    }
}

fn same_text(a: &String, lit: &str) -> (r: bool)
    ensures
        r == (a@ == lit@),
{
    let l = String::from_str(lit);
    *a == l
}

impl Config {
    /// Reads the command line; `args[0]` is the program's own name and is
    /// skipped.
    pub fn parse_args(args: &Vec<String>, default_root: String) -> (r: ParsedArgs)
        ensures
            r@ == parse_from(string_views(args@), 1, default_view(default_root@)),
    {
        let ghost av = string_views(args@);
        let mut c = Config {
            root: default_root,
            host: String::from_str("127.0.0.1"),
            port_start: DEFAULT_PORT_START,
            port_end: DEFAULT_PORT_END,
            router: String::from_str("router.php"),
            open_paths: Vec::new(),
            run_setup: true,
            open_browser: true,
            php_bin: String::from_str("php"),
        };
        assert(c@.open_paths =~= seq![]);
        let mut i: usize = 1;
        while i < args.len()
            invariant
                1 <= i,
                av == string_views(args@),
                av.len() == args.len(),
                parse_from(av, i as int, c@) == parse_from(
                    av,
                    1,
                    default_view(default_root@),
                ),
            decreases args.len() - i,
        {
            let a = &args[i];
            assert(av[i as int] == a@);
            let value_flag = same_text(a, "--root") || same_text(a, "--host") || same_text(a, "--port-start") || same_text(a, "--port-end") || same_text(a, "--router") || same_text(a, "--open") || same_text(a, "--php");
            if value_flag {
                if i + 1 >= args.len() {
                    return ParsedArgs::MissingValue(a.clone());
                }
                let v = &args[i + 1];
                assert(av[i + 1] == v@);
                let ghost before = c@;
                if same_text(a, "--root") {
                    c.root = v.clone();
                } else if same_text(a, "--host") {
                    c.host = v.clone();
                } else if same_text(a, "--port-start") {
                    c.port_start = match parse_port(v.as_str()) {
                        Some(p) => p,
                        None => DEFAULT_PORT_START,
                    };
                } else if same_text(a, "--port-end") {
                    c.port_end = match parse_port(v.as_str()) {
                        Some(p) => p,
                        None => DEFAULT_PORT_END,
                    };
                } else if same_text(a, "--router") {
                    c.router = v.clone();
                } else if same_text(a, "--open") {
                    c.open_paths.push(v.clone());
                } else {
                    c.php_bin = v.clone();
                }
                assert(c@ == with_value(before, a@, v@)) by {
                    assert(c@.open_paths =~= with_value(before, a@, v@).open_paths);
                }
                i = i + 2;
            } else if same_text(a, "--help") || same_text(a, "-h") {
                return ParsedArgs::Help;
            } else {
                if same_text(a, "--no-setup") {
                    c.run_setup = false;
                } else if same_text(a, "--no-open") {
                    c.open_browser = false;
                }
                i = i + 1;
            }
        }
        ParsedArgs::Run(c)
    }
}

/// The files whose presence marks a directory as a project root, in the
/// order they are looked for.
pub open spec fn project_markers() -> Seq<Seq<char>> {
    seq!["composer.json"@, "package.json"@, "router.php"@]
}

/// `has_file` reported `found` for marker `k` in directory `dir`.
pub open spec fn marker_report<F: Fn(&String, &String) -> bool>(
    has_file: F,
    dir: String,
    k: int,
    found: bool,
) -> bool {
    exists|m: String| m@ == project_markers()[k] && #[trigger] has_file.ensures((&dir, &m), found)
}

/// No marker was reported in `dir`.
pub open spec fn no_marker<F: Fn(&String, &String) -> bool>(has_file: F, dir: String) -> bool {
    forall|k: int| 0 <= k < 3 ==> #[trigger] marker_report(has_file, dir, k, false)
}

/// Finds the project root among `ancestors`, a directory followed by its
/// parents up to the filesystem root: the first that holds one of the
/// marker files, as `has_file(dir, name)` reports.
pub fn find_project_root<F: Fn(&String, &String) -> bool>(ancestors: &Vec<String>, has_file: F) -> (r:
    Option<String>)
    requires
        forall|d: &String, m: &String| #[trigger] has_file.requires((d, m)),
    ensures
        match r {
            Some(found) => exists|i: int|
                0 <= i < ancestors.len() && ancestors@[i] == found && (exists|k: int|
                    0 <= k < 3 && #[trigger] marker_report(has_file, found, k, true)) && forall|
                    j: int,
                |
                    0 <= j < i ==> #[trigger] no_marker(has_file, ancestors@[j]),
            None => forall|j: int|
                0 <= j < ancestors.len() ==> #[trigger] no_marker(has_file, ancestors@[j]),
        },
{
    let markers = vec![
        String::from_str("composer.json"),
        String::from_str("package.json"),
        String::from_str("router.php"),
    ];
    assert(string_views(markers@) =~= project_markers());
    let mut i: usize = 0;
    while i < ancestors.len()
        invariant
            i <= ancestors.len(),
            markers@.len() == 3,
            string_views(markers@) == project_markers(),
            forall|d: &String, m: &String| #[trigger] has_file.requires((d, m)),
            forall|j: int| 0 <= j < i ==> #[trigger] no_marker(has_file, ancestors@[j]),
        decreases ancestors.len() - i,
    {
        let dir = &ancestors[i];
        let mut k: usize = 0;
        while k < 3
            invariant
                k <= 3,
                markers@.len() == 3,
                string_views(markers@) == project_markers(),
                forall|d: &String, m: &String| #[trigger] has_file.requires((d, m)),
                i < ancestors.len(),
                *dir == ancestors@[i as int],
                forall|j: int| 0 <= j < i ==> #[trigger] no_marker(has_file, ancestors@[j]),
                forall|q: int| 0 <= q < k ==> #[trigger] marker_report(has_file, *dir, q, false),
            decreases 3 - k,
        {
            let found = has_file(dir, &markers[k]);
            assert(markers@[k as int]@ == project_markers()[k as int]);
            assert(marker_report(has_file, *dir, k as int, found));
            if found {
                let r = dir.clone();
                assert(exists|q: int| 0 <= q < 3 && #[trigger] marker_report(has_file, r, q, true));
                assert(0 <= i < ancestors.len() && ancestors@[i as int] == r);
                return Some(r);
            }
            k = k + 1;
        }
        assert(no_marker(has_file, *dir));
        i = i + 1;
    }
    None
}

} // verus!
