//! The shutdown notifier: on a close request (or an explicit UI call) the
//! shell asks the sidecar to terminate via one HTTP POST to a fixed path on
//! the allocated port. The library decides the target URL and counts the
//! attempts; issuing the request, and logging its failure, happens outside.

use vstd::prelude::*;
use crate::decimal::append_decimal;
use crate::decimal::dec_of;
use crate::launch::AppState;
use crate::launch::launch_args_of;

verus! {

/// The exact target of the shutdown request for a given port.
pub open spec fn shutdown_url_of(port: u16) -> Seq<char> {
    "http://127.0.0.1:"@ + dec_of(port as nat) + "/infinite_image_browsing/shutdown"@
}

/// Counts the shutdown requests the shell has decided to issue.
pub struct ShutdownNotifier {
    pub attempts: u64,
}

impl ShutdownNotifier {
    /// A fresh notifier: nothing has been requested yet.
    pub fn new() -> (n: ShutdownNotifier)
        ensures
            n.attempts == 0,
    {
        ShutdownNotifier { attempts: 0 }
    }

    /// Decides one shutdown request: returns the URL to POST to, for the one
    /// port the state holds, and records exactly one more attempt — whether
    /// the POST later succeeds or fails is no concern of the count.
    pub fn request(&mut self, state: &AppState) -> (url: String)
        requires
            old(self).attempts < u64::MAX,
        ensures
            final(self).attempts == old(self).attempts + 1,
            url@ == shutdown_url_of(state.port),
    {
        self.attempts = self.attempts + 1;
        let mut url = String::from_str("http://127.0.0.1:");
        append_decimal(&mut url, state.port as u64);
        url.append("/infinite_image_browsing/shutdown");
        proof {
            assert(url@ =~= shutdown_url_of(state.port));
        }
        url
    }
}

/// A window event, as far as the shell cares: the close request, or anything
/// else.
pub enum WindowEventKind {
    CloseRequested,
    Other,
}

/// The shell's reaction to one window event: a close request decides exactly
/// one shutdown request, for the one allocated port; every other event
/// decides nothing and leaves the notifier untouched.
pub fn on_window_event(ev: &WindowEventKind, state: &AppState, notifier: &mut ShutdownNotifier) -> (url: Option<
    String,
>)
    requires
        old(notifier).attempts < u64::MAX,
    ensures
        *ev is CloseRequested ==> final(notifier).attempts == old(notifier).attempts + 1,
        *ev is CloseRequested ==> (url matches Some(u) && u@ == shutdown_url_of(state.port)),
        !(*ev is CloseRequested) ==> *final(notifier) == *old(notifier) && url is None,
{
    match ev {
        WindowEventKind::CloseRequested => Some(notifier.request(state)),
        WindowEventKind::Other => None,
    }
}

/// Law: the allocated port is the single source of truth. Its decimal token
/// is the second launcher argument, and the very same token stands in the
/// shutdown URL right after the 17 characters of `http://127.0.0.1:`.
pub proof fn lemma_port_agreement(port: u16, dir: Seq<char>)
    ensures
        launch_args_of(port, dir)[1] == dec_of(port as nat),
        shutdown_url_of(port).subrange(17, 17 + dec_of(port as nat).len() as int) == dec_of(
            port as nat,
        ),
{
    reveal_strlit("http://127.0.0.1:");
    assert(("http://127.0.0.1:"@).len() == 17);
    assert(shutdown_url_of(port).subrange(17, 17 + dec_of(port as nat).len() as int) =~= dec_of(
        port as nat,
    ));
}

} // verus!
