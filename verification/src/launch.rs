//! The application state holding the allocated port, and the construction of
//! the sidecar's launch arguments.

use vstd::prelude::*;
use crate::config::Config;
use crate::decimal::dec_of;
use crate::decimal::u64_to_decimal;
use crate::text::views_of;

verus! {

/// Process-wide state: the one port allocated at startup, set once and only
/// ever read afterwards.
pub struct AppState {
    pub port: u16,
}

impl AppState {
    /// Accepts the allocated port; a port of zero means no real allocation
    /// happened and is rejected.
    pub fn new(port: u16) -> (r: Option<AppState>)
        ensures
            port == 0 ==> r is None,
            port != 0 ==> (r matches Some(s) && s.port == port),
    {
        if port == 0 {
            None
        } else {
            Some(AppState { port })
        }
    }
}

/// The exact token list the sidecar is launched with: the fixed flags with
/// the decimal port, then the directory pair exactly when the configured
/// directory is non-empty.
pub open spec fn launch_args_of(port: u16, dir: Seq<char>) -> Seq<Seq<char>> {
    let base = seq!["--port"@, dec_of(port as nat), "--allow_cors"@, "--enable_shutdown"@];
    if dir.len() == 0 {
        base
    } else {
        base + seq!["--sd_webui_dir"@, dir]
    }
}

/// Builds the launch argument list for the sidecar process.
pub fn build_launch_args(port: u16, conf: &Config) -> (args: Vec<String>)
    ensures
        views_of(args@) == launch_args_of(port, conf.sdwebui_dir@),
{
    let mut args: Vec<String> = Vec::new();
    args.push(String::from_str("--port"));
    args.push(u64_to_decimal(port as u64));
    args.push(String::from_str("--allow_cors"));
    args.push(String::from_str("--enable_shutdown"));
    if !conf.sdwebui_dir.as_str().is_empty() {
        args.push(String::from_str("--sd_webui_dir"));
        args.push(conf.sdwebui_dir.clone());
    }
    proof {
        assert(views_of(args@) =~= launch_args_of(port, conf.sdwebui_dir@));
    }
    args
}

/// Law: a non-empty configured directory adds exactly one two-token pair to
/// the argument list, after the four fixed tokens; an empty one adds nothing,
/// and the four fixed tokens do not depend on the directory either way.
pub proof fn lemma_directory_pair(port: u16, dir: Seq<char>)
    ensures
        dir.len() == 0 ==> launch_args_of(port, dir).len() == 4,
        dir.len() > 0 ==> launch_args_of(port, dir).len() == 6,
        dir.len() > 0 ==> launch_args_of(port, dir)[4] == "--sd_webui_dir"@,
        dir.len() > 0 ==> launch_args_of(port, dir)[5] == dir,
        launch_args_of(port, dir).take(4) == launch_args_of(port, Seq::<char>::empty()),
{
    assert(launch_args_of(port, dir).take(4) =~= launch_args_of(port, Seq::<char>::empty()));
}

} // verus!
