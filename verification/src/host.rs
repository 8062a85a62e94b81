//! What the library asks the host to do.

use crate::config::{plan_of, window_config, WindowConfig, WindowPlan};
use crate::script::{navigation_script, navigation_script_of};
use vstd::prelude::*;
use vstd::string::*;

verus! {

/// One request to the host. The host carries the requests out in the order
/// given. `Show`, `Unminimize`, `Focus` and `Hide` are made on a best effort:
/// where one fails, the host goes on with the next.
#[derive(Debug, PartialEq, Eq)]
pub enum HostAction {
    /// Build a window.
    Create { config: WindowConfig },
    /// Run `script` in the window `label`.
    Navigate { label: String, script: String },
    /// Put the window `label` on screen.
    Show { label: String },
    /// Restore the window `label` where it is minimized.
    Unminimize { label: String },
    /// Give the window `label` the input focus.
    Focus { label: String },
    /// Take the window `label` off screen.
    Hide { label: String },
    /// End the process with `code`.
    Exit { code: i32 },
}

/// A `HostAction` as a mathematical value.
pub enum Request {
    Create { plan: WindowPlan },
    Navigate { label: Seq<char>, script: Seq<char> },
    Show { label: Seq<char> },
    Unminimize { label: Seq<char> },
    Focus { label: Seq<char> },
    Hide { label: Seq<char> },
    Exit { code: int },
}

impl View for HostAction {
    type V = Request;

    open spec fn view(&self) -> Request {
        match *self {
            HostAction::Create { config } => Request::Create { plan: config@ },
            HostAction::Navigate { label, script } => Request::Navigate {
                label: label@,
                script: script@,
            },
            HostAction::Show { label } => Request::Show { label: label@ },
            HostAction::Unminimize { label } => Request::Unminimize { label: label@ },
            HostAction::Focus { label } => Request::Focus { label: label@ },
            HostAction::Hide { label } => Request::Hide { label: label@ },
            HostAction::Exit { code } => Request::Exit { code: code as int },
        }
    }
}

/// The requests that `actions` stand for, in their order.
pub open spec fn requests_of(actions: Seq<HostAction>) -> Seq<Request> {
    actions.map_values(|a: HostAction| a@)
}

/// Bringing the window `label` to the front: show it, restore it, focus it.
pub open spec fn show_and_focus_requests(label: Seq<char>) -> Seq<Request> {
    seq![Request::Show { label }, Request::Unminimize { label }, Request::Focus { label }]
}

/// Opening the window `label` at `url`: build it, then send it to `url`.
pub open spec fn open_requests(label: Seq<char>, url: Seq<char>) -> Seq<Request> {
    seq![
        Request::Create { plan: plan_of(label, url) },
        Request::Navigate { label, script: navigation_script_of(url) },
    ]
}

/// The label of the window that the first of `requests` builds, and the empty
/// text where the first request builds none.
pub open spec fn built_label(requests: Seq<Request>) -> Seq<char> {
    if requests.len() > 0 && requests[0] is Create {
        requests[0]->plan.label
    } else {
        Seq::empty()
    }
}

/// The requests that bring the window `label` to the front.
pub fn show_and_focus_actions(label: &str) -> (actions: Vec<HostAction>)
    ensures
        requests_of(actions@) == show_and_focus_requests(label@),
{
    let mut actions: Vec<HostAction> = Vec::new();
    actions.push(HostAction::Show { label: label.to_owned() });
    actions.push(HostAction::Unminimize { label: label.to_owned() });
    actions.push(HostAction::Focus { label: label.to_owned() });
    assert(requests_of(actions@) =~= show_and_focus_requests(label@));
    actions
}

/// The requests that open the window `label` at `url`.
pub fn open_actions(label: &str, url: &str) -> (actions: Vec<HostAction>)
    ensures
        requests_of(actions@) == open_requests(label@, url@),
{
    let mut actions: Vec<HostAction> = Vec::new();
    actions.push(HostAction::Create { config: window_config(label, url) });
    actions.push(HostAction::Navigate { label: label.to_owned(), script: navigation_script(url) });
    assert(requests_of(actions@) =~= open_requests(label@, url@));
    actions
}

} // verus!
