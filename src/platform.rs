use vstd::prelude::*;
use crate::text::{decimal, decimal_string};

verus! {

/// The host platforms whose commands the launcher knows.
#[derive(Clone, Copy, Debug, PartialEq, Eq, Structural)]
pub enum Platform {
    Windows,
    MacOs,
    Linux,
    Other,
}

/// An executable and its arguments.
#[derive(Clone, Debug)]
pub struct CommandLine {
    pub program: String,
    pub args: Vec<String>,
}

pub open spec fn string_views(v: Seq<String>) -> Seq<Seq<char>> {
    v.map_values(|s: String| s@)
}

impl View for CommandLine {
    type V = (Seq<char>, Seq<Seq<char>>);

    open spec fn view(&self) -> (Seq<char>, Seq<Seq<char>>) {
        (self.program@, string_views(self.args@))
    }
}

/// File name of the setup script under the project root.
pub fn setup_script_name(platform: Platform) -> (r: String)
    ensures
        r@ == (if platform == Platform::Windows {
            "setup.bat"@
        } else {
            "setup.sh"@
        }),
{
    match platform {
        Platform::Windows => String::from_str("setup.bat"),
        _ => String::from_str("setup.sh"),
    }
}

/// The command that runs the setup script at `script`.
pub fn setup_command(platform: Platform, script: &str) -> (r: CommandLine)
    ensures
        r@ == (if platform == Platform::Windows {
            ("cmd"@, seq!["/C"@, script@])
        } else {
            ("bash"@, seq![script@])
        }),
{
    let r = match platform {
        Platform::Windows => CommandLine {
            program: String::from_str("cmd"),
            args: vec![String::from_str("/C"), String::from_str(script)],
        },
        _ => CommandLine { program: String::from_str("bash"), args: vec![String::from_str(script)] },
    };
    assert(r@.1 =~= (if platform == Platform::Windows {
        seq!["/C"@, script@]
    } else {
        seq![script@]
    }));
    r
}

/// The command that opens `url` in the default browser, where the platform
/// has one.
pub fn browser_command(platform: Platform, url: &str) -> (r: Option<CommandLine>)
    ensures
        r matches Some(c) ==> c@ == match platform {
            Platform::MacOs => ("open"@, seq![url@]),
            Platform::Windows => ("cmd"@, seq!["/C"@, "start"@, url@]),
            _ => ("xdg-open"@, seq![url@]),
        },
        r is None <==> platform == Platform::Other,
{
    let r = match platform {
        Platform::MacOs => Some(
            CommandLine { program: String::from_str("open"), args: vec![String::from_str(url)] },
        ),
        Platform::Windows => Some(
            CommandLine {
                program: String::from_str("cmd"),
                args: vec![
                    String::from_str("/C"),
                    String::from_str("start"),
                    String::from_str(url),
                ],
            },
        ),
        Platform::Linux => Some(
            CommandLine { program: String::from_str("xdg-open"), args: vec![String::from_str(url)] },
        ),
        Platform::Other => None,
    };
    if let Some(c) = &r {
        assert(c@.1 =~= match platform {
            Platform::Windows => seq!["/C"@, "start"@, url@],
            _ => seq![url@],
        });
    }
    r
}

/// `host:port`.
pub open spec fn address(host: Seq<char>, port: u16) -> Seq<char> {
    host + ":"@ + decimal(port as nat)
}

/// The address the served process binds.
pub fn bind_address(host: &str, port: u16) -> (r: String)
    ensures
        r@ == address(host@, port),
{
    let mut r = String::from_str(host);
    r.append(":");
    let digits = decimal_string(port as u64);
    r.append(digits.as_str());
    r
}

/// The command that starts the served process: `<bin> -S <host:port> <router>`.
pub fn server_command(bin: &str, host: &str, port: u16, router: &str) -> (r: CommandLine)
    ensures
        r@ == (bin@, seq!["-S"@, address(host@, port), router@]),
{
    let r = CommandLine {
        program: String::from_str(bin),
        args: vec![String::from_str("-S"), bind_address(host, port), String::from_str(router)],
    };
    assert(r@.1 =~= seq!["-S"@, address(host@, port), router@]);
    r
}

pub open spec fn base_url(host: Seq<char>, port: u16) -> Seq<char> {
    "http://"@ + address(host, port)
}

/// The URL paths opened when none are configured.
pub open spec fn default_paths() -> Seq<Seq<char>> {
    seq!["/dashboard"@, "/project-mgr"@, "/"@, "/?demo=1"@]
}

/// The URLs to open: each configured path, or else each default path,
/// appended to the server's base URL, in order.
pub open spec fn target_urls(host: Seq<char>, port: u16, paths: Seq<Seq<char>>) -> Seq<Seq<char>> {
    let chosen = if paths.len() == 0 {
        default_paths()
    } else {
        paths
    };
    chosen.map_values(|p: Seq<char>| base_url(host, port) + p)
}

/// `http://host:port`.
pub fn base_url_string(host: &str, port: u16) -> (r: String)
    ensures
        r@ == base_url(host@, port),
{
    let addr = bind_address(host, port);
    let mut r = String::from_str("http://");
    r.append(addr.as_str());
    r
}

/// Builds the list of URLs to open once the server is ready.
pub fn urls_to_open(host: &str, port: u16, paths: &Vec<String>) -> (r: Vec<String>)
    ensures
        string_views(r@) == target_urls(host@, port, string_views(paths@)),
{
    let defaults = vec![
        String::from_str("/dashboard"),
        String::from_str("/project-mgr"),
        String::from_str("/"),
        String::from_str("/?demo=1"),
    ];
    assert(string_views(defaults@) =~= default_paths());
    let chosen: &Vec<String> = if paths.len() == 0 {
        &defaults
    } else {
        paths
    };
    let ghost wanted = target_urls(host@, port, string_views(paths@));
    assert(wanted =~= string_views(chosen@).map_values(|p: Seq<char>| base_url(host@, port) + p));
    let base = base_url_string(host, port);
    let mut r: Vec<String> = Vec::new();
    let mut i: usize = 0;
    while i < chosen.len()
        invariant
            i <= chosen.len(),
            base@ == base_url(host@, port),
            wanted == string_views(chosen@).map_values(|p: Seq<char>| base_url(host@, port) + p),
            string_views(r@) =~= wanted.take(i as int),
        decreases chosen.len() - i,
    {
        let mut u = base.clone();
        u.append(chosen[i].as_str());
        assert(u@ == base_url(host@, port) + string_views(chosen@)[i as int]);
        let ghost before = r@;
        r.push(u);
        assert(r@ == before.push(u));
        i = i + 1;
        assert(string_views(r@) =~= wanted.take(i as int)) by {
            assert(string_views(before.push(u)) =~= string_views(before).push(u@));
        }
    }
    assert(wanted.take(i as int) =~= wanted);
    r
}

} // verus!
