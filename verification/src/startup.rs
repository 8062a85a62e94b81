//! The program's start.

use crate::address::{is_url, url_rejection};
use crate::config::{plan_of, window_config};
use crate::host::{requests_of, HostAction, Request};
use crate::label::PRIMARY_LABEL;
use crate::resolver::{chars_of, resolve, resolved};
use crate::window::{invalid_url_message, Registry, WindowManager};
use vstd::prelude::*;
use vstd::string::*;

verus! {

/// What the host is asked at startup: to build the primary window at `url`.
pub open spec fn startup_requests(url: Seq<char>) -> Seq<Request> {
    seq![Request::Create { plan: plan_of(PRIMARY_LABEL@, url) }]
}

/// Starts the program: resolves the address, makes the registry with the
/// primary window at it, and asks the host to build that window. Where the
/// address is no URL nothing is made, and the message says why.
pub fn startup(runtime_override: Option<&str>, build_default: Option<&str>) -> (started: Result<
    (WindowManager, Vec<HostAction>),
    String,
>)
    ensures
        match started {
            Ok((windows, actions)) => {
                &&& is_url(resolved(chars_of(runtime_override), chars_of(build_default)))
                &&& windows.wf()
                &&& windows@ == Registry::initial(
                    resolved(chars_of(runtime_override), chars_of(build_default)),
                )
                &&& requests_of(actions@) == startup_requests(
                    resolved(chars_of(runtime_override), chars_of(build_default)),
                )
            },
            Err(message) => {
                &&& url_rejection(resolved(chars_of(runtime_override), chars_of(build_default)))
                    matches Some(reason)
                &&& message@ == invalid_url_message(reason)
            },
        },
{
    let url = resolve(runtime_override, build_default);
    match WindowManager::create_primary(url.as_str()) {
        Ok(windows) => {
            let mut actions: Vec<HostAction> = Vec::new();
            actions.push(HostAction::Create { config: window_config(PRIMARY_LABEL, url.as_str()) });
            assert(requests_of(actions@) =~= startup_requests(url@));
            Ok((windows, actions))
        },
        Err(e) => Err(e.message()),
    }
}

} // verus!
