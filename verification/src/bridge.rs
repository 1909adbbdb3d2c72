//! The UI-facing bridge: a pure greeting echo and the port-info accessor.

use vstd::prelude::*;
use crate::launch::AppState;

verus! {

/// The greeting returned for a given name.
pub open spec fn greeting_of(name: Seq<char>) -> Seq<char> {
    "Hello, "@ + name + "! You've been greeted from Rust!"@
}

/// The greeting echo: pure, no failure mode.
pub fn greet(name: &str) -> (r: String)
    ensures
        r@ == greeting_of(name@),
{
    let mut r = String::from_str("Hello, ");
    r.append(name);
    r.append("! You've been greeted from Rust!");
    proof {
        assert(r@ =~= greeting_of(name@));
    }
    r
}

/// The serializable view of the application state handed to the front-end:
/// built fresh on each query, no independent lifecycle.
pub struct AppConf {
    pub port: u16,
}

/// The port-info accessor: reports exactly the port the state holds.
pub fn get_tauri_conf(state: &AppState) -> (c: AppConf)
    ensures
        c.port == state.port,
{
    AppConf { port: state.port }
}

} // verus!
