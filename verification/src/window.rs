//! The window registry: which webview windows are live, what each shows, and
//! which labels were ever given out.

use crate::address::{is_url, parse_rejection, text_of, url_rejection};
use crate::label::{
    is_generated_label, is_secondary_label, lemma_primary_is_not_secondary,
    lemma_token_gives_generated_label, random_token, secondary_label, secondary_label_of,
    PRIMARY_LABEL,
};
use crate::laws::{
    law_create_adds_one, law_exactly_one_primary, law_primary_close_only_hides,
    law_secondary_close_removes,
};
use crate::text::text_eq;
use vstd::prelude::*;
use vstd::string::*;

verus! {

/// The primary window is the one made at startup; every other is secondary.
#[derive(Clone, Copy, Debug, PartialEq, Eq, Structural)]
pub enum Role {
    Primary,
    Secondary,
}

/// Whether a live window is on screen.
#[derive(Clone, Copy, Debug, PartialEq, Eq, Structural)]
pub enum Visibility {
    Visible,
    Hidden,
}

/// What the registry holds of one live window.
#[verifier::ext_equal]
pub struct WindowState {
    pub url: Seq<char>,
    pub visibility: Visibility,
    pub role: Role,
}

/// The registry as a mathematical value: the live windows by label, and the
/// labels of all secondary windows that were ever made.
#[verifier::ext_equal]
pub struct Registry {
    pub live: Map<Seq<char>, WindowState>,
    pub issued: Set<Seq<char>>,
}

impl Registry {
    /// What holds of every registry: the primary window is live and is the only
    /// primary one, every live secondary window carries an issued label, and
    /// issued labels have the form of secondary labels.
    pub open spec fn valid(self) -> bool {
        &&& self.live.dom().finite()
        &&& self.issued.finite()
        &&& self.live.contains_key(PRIMARY_LABEL@)
        &&& self.live[PRIMARY_LABEL@].role == Role::Primary
        &&& forall|label: Seq<char>| #[trigger]
            self.live.contains_key(label) && label != PRIMARY_LABEL@ ==> self.live[label].role
                == Role::Secondary && self.issued.contains(label)
        &&& forall|label: Seq<char>| #[trigger]
            self.issued.contains(label) ==> is_secondary_label(label)
    }

    /// The registry right after startup: the primary window alone, visible, at
    /// `url`.
    pub open spec fn initial(url: Seq<char>) -> Registry {
        Registry {
            live: Map::empty().insert(
                PRIMARY_LABEL@,
                WindowState { url, visibility: Visibility::Visible, role: Role::Primary },
            ),
            issued: Set::empty(),
        }
    }

    /// Whether a window with this label is live.
    pub open spec fn is_live(self, label: Seq<char>) -> bool {
        self.live.contains_key(label)
    }

    /// The number of live windows.
    pub open spec fn count(self) -> nat {
        self.live.dom().len()
    }

    /// The number of live secondary windows.
    pub open spec fn secondary_count(self) -> nat {
        self.live.dom().remove(PRIMARY_LABEL@).len()
    }

    /// The registry with the visibility of `label` set, and unchanged where no
    /// such window is live.
    pub open spec fn with_visibility(self, label: Seq<char>, visibility: Visibility) -> Registry {
        if self.live.contains_key(label) {
            Registry {
                live: self.live.insert(
                    label,
                    WindowState { visibility, ..self.live[label] },
                ),
                ..self
            }
        } else {
            self
        }
    }

    /// The registry with a new visible secondary window `label` at `url`, its
    /// label issued.
    pub open spec fn with_secondary(self, label: Seq<char>, url: Seq<char>) -> Registry {
        Registry {
            live: self.live.insert(
                label,
                WindowState { url, visibility: Visibility::Visible, role: Role::Secondary },
            ),
            issued: self.issued.insert(label),
        }
    }

    /// The registry without the window `label`. Its label stays issued.
    pub open spec fn without(self, label: Seq<char>) -> Registry {
        Registry { live: self.live.remove(label), ..self }
    }

    /// The registry once the host asked to close `label`: the primary window is
    /// hidden, any other goes.
    pub open spec fn after_close_request(self, label: Seq<char>) -> Registry {
        if label == PRIMARY_LABEL@ {
            self.with_visibility(label, Visibility::Hidden)
        } else {
            self.without(label)
        }
    }
}

/// One live window.
struct Window {
    label: String,
    url: String,
    visibility: Visibility,
    role: Role,
}

impl Window {
    spec fn state(self) -> WindowState {
        WindowState { url: self.url@, visibility: self.visibility, role: self.role }
    }

    spec fn name(self) -> Seq<char> {
        self.label@
    }
}

/// The labels of `windows`, in their order.
spec fn labels_of(windows: Seq<Window>) -> Seq<Seq<char>> {
    windows.map_values(|w: Window| w.name())
}

/// The live windows by label.
spec fn live_of(windows: Seq<Window>) -> Map<Seq<char>, WindowState> {
    Map::new(
        |label: Seq<char>| labels_of(windows).contains(label),
        |label: Seq<char>| windows[labels_of(windows).index_of(label)].state(),
    )
}

/// The texts of `labels` as a set.
spec fn issued_of(labels: Seq<String>) -> Set<Seq<char>> {
    labels.map_values(|l: String| l@).to_set()
}

proof fn lemma_index_of(windows: Seq<Window>, i: int)
    requires
        labels_of(windows).no_duplicates(),
        0 <= i < windows.len(),
    ensures
        labels_of(windows).contains(windows[i].name()),
        labels_of(windows).index_of(windows[i].name()) == i,
        live_of(windows).contains_key(windows[i].name()),
        live_of(windows)[windows[i].name()] == windows[i].state(),
{
    let labels = labels_of(windows);
    assert(labels[i] == windows[i].name());
    let k = labels.index_of(windows[i].name());
    assert(0 <= k < labels.len() && labels[k] == labels[i]);
}

proof fn lemma_live_count(windows: Seq<Window>)
    requires
        labels_of(windows).no_duplicates(),
    ensures
        live_of(windows).dom() == labels_of(windows).to_set(),
        live_of(windows).dom().finite(),
        live_of(windows).dom().len() == windows.len(),
{
    let labels = labels_of(windows);
    assert(live_of(windows).dom() =~= labels.to_set());
    labels.unique_seq_to_set();
    vstd::seq_lib::seq_to_set_is_finite(labels);
}


proof fn lemma_live_push(windows: Seq<Window>, w: Window)
    requires
        labels_of(windows).no_duplicates(),
        !labels_of(windows).contains(w.name()),
    ensures
        labels_of(windows.push(w)).no_duplicates(),
        live_of(windows.push(w)) == live_of(windows).insert(w.name(), w.state()),
{
    let after = windows.push(w);
    assert(labels_of(after) =~= labels_of(windows).push(w.name()));
    assert(labels_of(after).no_duplicates()) by {
        let labels = labels_of(after);
        assert forall|i: int, j: int|
            0 <= i < labels.len() && 0 <= j < labels.len() && i != j implies labels[i]
            != labels[j] by {
            if i < windows.len() {
                assert(labels_of(windows)[i] == labels_of(after)[i]);
            }
            if j < windows.len() {
                assert(labels_of(windows)[j] == labels_of(after)[j]);
            }
        }
    }
    assert forall|label: Seq<char>| #[trigger]
        live_of(after).contains_key(label) <==> live_of(windows).insert(
            w.name(),
            w.state(),
        ).contains_key(label) by {
        if labels_of(windows).contains(label) {
            let i = labels_of(windows).index_of(label);
            assert(labels_of(after)[i] == label);
        }
        if labels_of(after).contains(label) {
            let i = labels_of(after).index_of(label);
            if i < windows.len() {
                assert(labels_of(windows)[i] == label);
            }
        }
        assert(labels_of(after)[windows.len() as int] == w.name());
    }
    assert forall|label: Seq<char>| #[trigger] live_of(after).contains_key(label) implies live_of(
        after,
    )[label] == live_of(windows).insert(w.name(), w.state())[label] by {
        let i = labels_of(after).index_of(label);
        lemma_index_of(after, i);
        if i < windows.len() {
            assert(labels_of(windows)[i] == label);
            lemma_index_of(windows, i);
        }
    }
    assert(live_of(after) =~= live_of(windows).insert(w.name(), w.state()));
}

proof fn lemma_live_update(windows: Seq<Window>, at: int, w: Window)
    requires
        labels_of(windows).no_duplicates(),
        0 <= at < windows.len(),
        w.name() == windows[at].name(),
    ensures
        labels_of(windows.update(at, w)) == labels_of(windows),
        live_of(windows.update(at, w)) == live_of(windows).insert(w.name(), w.state()),
{
    let after = windows.update(at, w);
    assert(labels_of(after) =~= labels_of(windows));
    lemma_index_of(windows, at);
    assert forall|label: Seq<char>| #[trigger] live_of(after).contains_key(label) implies live_of(
        after,
    )[label] == live_of(windows).insert(w.name(), w.state())[label] by {
        let i = labels_of(after).index_of(label);
        lemma_index_of(after, i);
        lemma_index_of(windows, i);
    }
    assert(live_of(after) =~= live_of(windows).insert(w.name(), w.state()));
}

proof fn lemma_live_remove(windows: Seq<Window>, at: int)
    requires
        labels_of(windows).no_duplicates(),
        0 <= at < windows.len(),
    ensures
        labels_of(windows.remove(at)).no_duplicates(),
        live_of(windows.remove(at)) == live_of(windows).remove(windows[at].name()),
{
    let after = windows.remove(at);
    let shift = |i: int| if i < at { i } else { i + 1 };
    assert forall|i: int| 0 <= i < after.len() implies #[trigger] labels_of(after)[i] == labels_of(
        windows,
    )[shift(i)] by {}
    let labels = labels_of(after);
    assert forall|i: int, j: int|
        0 <= i < labels.len() && 0 <= j < labels.len() && i != j implies labels[i]
        != labels[j] by {
        assert(labels_of(after)[i] == labels_of(windows)[shift(i)]);
        assert(labels_of(after)[j] == labels_of(windows)[shift(j)]);
    }
    lemma_index_of(windows, at);
    assert forall|label: Seq<char>| #[trigger]
        live_of(after).contains_key(label) <==> live_of(windows).remove(
            windows[at].name(),
        ).contains_key(label) by {
        if labels_of(after).contains(label) {
            let i = labels_of(after).index_of(label);
            assert(labels_of(after)[i] == labels_of(windows)[shift(i)]);
            assert(labels_of(windows)[at] == windows[at].name());
        }
        if labels_of(windows).contains(label) && label != windows[at].name() {
            let i = labels_of(windows).index_of(label);
            let k = if i < at { i } else { i - 1 };
            assert(labels_of(after)[k] == labels_of(windows)[shift(k)]);
        }
    }
    assert forall|label: Seq<char>| #[trigger] live_of(after).contains_key(label) implies live_of(
        after,
    )[label] == live_of(windows).remove(windows[at].name())[label] by {
        let i = labels_of(after).index_of(label);
        lemma_index_of(after, i);
        assert(labels_of(after)[i] == labels_of(windows)[shift(i)]);
        lemma_index_of(windows, shift(i));
    }
    assert(live_of(after) =~= live_of(windows).remove(windows[at].name()));
}

proof fn lemma_issued_push(labels: Seq<String>, label: String)
    ensures
        issued_of(labels.push(label)) == issued_of(labels).insert(label@),
{
    let before = labels.map_values(|l: String| l@);
    let after = labels.push(label).map_values(|l: String| l@);
    assert(after =~= before.push(label@));
    assert forall|l: Seq<char>| #[trigger] after.contains(l) <==> before.contains(l) || l
        == label@ by {
        if before.contains(l) {
            let i = before.index_of(l);
            assert(after[i] == l);
        }
        assert(after[before.len() as int] == label@);
    }
    assert(issued_of(labels.push(label)) =~= issued_of(labels).insert(label@));
}

/// Why a window could not be made.
#[derive(Debug, PartialEq, Eq)]
pub enum WindowError {
    /// The address does not parse as a URL; `reason` is the parser's objection.
    InvalidUrl { reason: String },
    /// The drawn label was given out before.
    LabelTaken { label: String },
}

/// What stands before the parser's objection in the message of an invalid
/// address.
pub const INVALID_URL_HEAD: &'static str = "Invalid URL: ";

/// What stands before the label in the message of a label given out twice.
pub const LABEL_TAKEN_HEAD: &'static str = "a window with label `";

/// What stands after the label in the message of a label given out twice.
pub const LABEL_TAKEN_TAIL: &'static str = "` already exists";

/// The message of an address that the parser objects to with `reason`.
pub open spec fn invalid_url_message(reason: Seq<char>) -> Seq<char> {
    INVALID_URL_HEAD@ + reason
}

/// The message of the label `label` drawn a second time.
pub open spec fn label_taken_message(label: Seq<char>) -> Seq<char> {
    LABEL_TAKEN_HEAD@ + label + LABEL_TAKEN_TAIL@
}

impl WindowError {
    /// The error as a text for the caller.
    pub open spec fn message_of(self) -> Seq<char> {
        match self {
            WindowError::InvalidUrl { reason } => invalid_url_message(reason@),
            WindowError::LabelTaken { label } => label_taken_message(label@),
        }
    }

    /// The error as a text for the caller.
    pub fn message(&self) -> (text: String)
        ensures
            text@ == self.message_of(),
    {
        match self {
            WindowError::InvalidUrl { reason } => {
                let mut text = INVALID_URL_HEAD.to_owned();
                text.append(reason.as_str());
                text
            },
            WindowError::LabelTaken { label } => {
                let mut text = LABEL_TAKEN_HEAD.to_owned();
                text.append(label.as_str());
                text.append(LABEL_TAKEN_TAIL);
                text
            },
        }
    }
}

/// What the host is to do with a request to close a window.
#[derive(Clone, Copy, Debug, PartialEq, Eq, Structural)]
pub enum CloseDecision {
    /// Keep the window and hide it.
    HideInstead,
    /// Let the window close.
    Proceed,
}

/// The window registry. The primary window is made with it and stays live as
/// long as it exists.
pub struct WindowManager {
    windows: Vec<Window>,
    issued: Vec<String>,
}

impl View for WindowManager {
    type V = Registry;

    closed spec fn view(&self) -> Registry {
        Registry { live: live_of(self.windows@), issued: issued_of(self.issued@) }
    }
}

impl WindowManager {
    /// The registry's representation is consistent: the primary window comes
    /// first, no label occurs twice, and all that `Registry::valid` asks holds.
    pub closed spec fn wf(&self) -> bool {
        let ws = self.windows@;
        &&& ws.len() >= 1
        &&& ws[0].name() == PRIMARY_LABEL@
        &&& ws[0].role == Role::Primary
        &&& forall|i: int|
            1 <= i < ws.len() ==> (#[trigger] ws[i]).role == Role::Secondary && issued_of(
                self.issued@,
            ).contains(ws[i].name())
        &&& labels_of(ws).no_duplicates()
        &&& forall|label: Seq<char>| #[trigger]
            issued_of(self.issued@).contains(label) ==> is_secondary_label(label)
    }

    /// A consistent registry is a valid one, and holds as many windows as its
    /// model says.
    pub proof fn lemma_valid(&self)
        requires
            self.wf(),
        ensures
            self@.valid(),
    {
        let ws = self.windows@;
        lemma_live_count(ws);
        vstd::seq_lib::seq_to_set_is_finite(self.issued@.map_values(|l: String| l@));
        lemma_index_of(ws, 0);
        assert forall|label: Seq<char>| #[trigger]
            self@.live.contains_key(label) && label != PRIMARY_LABEL@ implies self@.live[label].role
            == Role::Secondary && self@.issued.contains(label) by {
            let i = labels_of(ws).index_of(label);
            lemma_index_of(ws, i);
        }
    }
}


impl WindowManager {
    /// Where the window `label` stands among the live ones.
    fn position(&self, label: &str) -> (found: Option<usize>)
        requires
            self.wf(),
        ensures
            match found {
                Some(at) => at < self.windows.len() && self.windows[at as int].name() == label@,
                None => !self@.live.contains_key(label@),
            },
    {
        let mut i: usize = 0;
        while i < self.windows.len()
            invariant
                i <= self.windows.len(),
                forall|k: int| 0 <= k < i ==> (#[trigger] self.windows[k]).name() != label@,
            decreases self.windows.len() - i,
        {
            if text_eq(self.windows[i].label.as_str(), label) {
                return Some(i);
            }
            i += 1;
        }
        proof {
            if labels_of(self.windows@).contains(label@) {
                let k = labels_of(self.windows@).index_of(label@);
                assert(self.windows[k].name() == label@);
            }
        }
        None
    }

    /// Whether `label` was ever given to a secondary window.
    pub fn was_issued(&self, label: &str) -> (issued: bool)
        ensures
            issued == self@.issued.contains(label@),
    {
        let ghost texts = self.issued@.map_values(|l: String| l@);
        let mut i: usize = 0;
        while i < self.issued.len()
            invariant
                i <= self.issued.len(),
                texts == self.issued@.map_values(|l: String| l@),
                forall|k: int| 0 <= k < i ==> #[trigger] texts[k] != label@,
            decreases self.issued.len() - i,
        {
            if text_eq(self.issued[i].as_str(), label) {
                assert(texts[i as int] == label@);
                return true;
            }
            i += 1;
        }
        proof {
            if texts.contains(label@) {
                let k = texts.index_of(label@);
                assert(texts[k] == label@);
            }
        }
        false
    }

    /// Starts the registry with the primary window at `url`, given what the URL
    /// parser has against `url`: with an objection nothing is made.
    pub fn open_primary(url: &str, rejection: Option<String>) -> (made: Result<
        WindowManager,
        WindowError,
    >)
        ensures
            match made {
                Ok(manager) => rejection is None && manager.wf() && manager@ == Registry::initial(
                    url@,
                ),
                Err(WindowError::InvalidUrl { reason }) => text_of(rejection) == Some(reason@),
                Err(WindowError::LabelTaken { .. }) => false,
            },
    {
        match rejection {
            Some(reason) => Err(WindowError::InvalidUrl { reason }),
            None => {
                let primary = Window {
                    label: PRIMARY_LABEL.to_owned(),
                    url: url.to_owned(),
                    visibility: Visibility::Visible,
                    role: Role::Primary,
                };
                let mut windows: Vec<Window> = Vec::new();
                windows.push(primary);
                let manager = WindowManager { windows, issued: Vec::new() };
                proof {
                    let none = Seq::<Window>::empty();
                    assert(labels_of(none) =~= Seq::<Seq<char>>::empty());
                    lemma_live_push(none, primary);
                    assert(manager.windows@ =~= none.push(primary));
                    assert(live_of(none) =~= Map::<Seq<char>, WindowState>::empty());
                    assert(issued_of(manager.issued@) =~= Set::<Seq<char>>::empty());
                }
                Ok(manager)
            },
        }
    }

    /// Makes the primary window at `url`, once, at startup. It is made where
    /// `url` parses as a URL, and only there.
    pub fn create_primary(url: &str) -> (made: Result<WindowManager, WindowError>)
        ensures
            match made {
                Ok(manager) => is_url(url@) && manager.wf() && manager@ == Registry::initial(url@),
                Err(WindowError::InvalidUrl { reason }) => url_rejection(url@) == Some(reason@),
                Err(WindowError::LabelTaken { .. }) => false,
            },
    {
        let rejection = parse_rejection(url);
        WindowManager::open_primary(url, rejection)
    }

    /// Adds a secondary window at `url` under the label made from `token`, given
    /// what the URL parser has against `url`. With an objection, or with a label
    /// that was given out before, nothing changes.
    pub fn register_secondary(
        &mut self,
        url: &str,
        rejection: Option<String>,
        token: &str,
    ) -> (made: Result<String, WindowError>)
        requires
            old(self).wf(),
        ensures
            final(self).wf(),
            match made {
                Ok(label) => {
                    &&& rejection is None
                    &&& label@ == secondary_label_of(token@)
                    &&& !old(self)@.issued.contains(label@)
                    &&& !old(self)@.is_live(label@)
                    &&& final(self)@ == old(self)@.with_secondary(label@, url@)
                    &&& final(self)@.secondary_count() == old(self)@.secondary_count() + 1
                },
                Err(WindowError::InvalidUrl { reason }) => {
                    &&& text_of(rejection) == Some(reason@)
                    &&& final(self)@ == old(self)@
                },
                Err(WindowError::LabelTaken { label }) => {
                    &&& rejection is None
                    &&& label@ == secondary_label_of(token@)
                    &&& old(self)@.issued.contains(label@)
                    &&& final(self)@ == old(self)@
                },
            },
    {
        match rejection {
            Some(reason) => {
                return Err(WindowError::InvalidUrl { reason });
            },
            None => {},
        }
        let label = secondary_label(token);
        if self.was_issued(label.as_str()) {
            return Err(WindowError::LabelTaken { label });
        }
        let window = Window {
            label: label.clone(),
            url: url.to_owned(),
            visibility: Visibility::Visible,
            role: Role::Secondary,
        };
        proof {
            lemma_primary_is_not_secondary();
            self.lemma_valid();
            law_create_adds_one(self@, label@, url@);
            lemma_live_push(self.windows@, window);
            lemma_issued_push(self.issued@, label);
        }
        self.issued.push(label.clone());
        self.windows.push(window);
        Ok(label)
    }
}


impl WindowManager {
    /// Sets the visibility of the live window at `at`.
    fn set_visibility_at(&mut self, at: usize, visibility: Visibility)
        requires
            old(self).wf(),
            at < old(self).windows.len(),
        ensures
            final(self).wf(),
            final(self)@ == old(self)@.with_visibility(
                old(self).windows[at as int].name(),
                visibility,
            ),
    {
        proof {
            lemma_index_of(self.windows@, at as int);
        }
        let ghost before = self.windows@;
        self.windows[at].visibility = visibility;
        proof {
            let w = self.windows@[at as int];
            assert(self.windows@ =~= before.update(at as int, w));
            lemma_live_update(before, at as int, w);
        }
    }

    /// Records `visibility` for the window `label`; nothing changes where no
    /// such window is live.
    fn set_visibility(&mut self, label: &str, visibility: Visibility)
        requires
            old(self).wf(),
        ensures
            final(self).wf(),
            final(self)@ == old(self)@.with_visibility(label@, visibility),
    {
        match self.position(label) {
            Some(at) => self.set_visibility_at(at, visibility),
            None => {},
        }
    }

    /// Shows the window `label`. Where no such window is live, nothing happens.
    pub fn show(&mut self, label: &str)
        requires
            old(self).wf(),
        ensures
            final(self).wf(),
            final(self)@ == old(self)@.with_visibility(label@, Visibility::Visible),
    {
        self.set_visibility(label, Visibility::Visible)
    }

    /// Hides the window `label`. Where no such window is live, nothing happens.
    pub fn hide_window(&mut self, label: &str)
        requires
            old(self).wf(),
        ensures
            final(self).wf(),
            final(self)@ == old(self)@.with_visibility(label@, Visibility::Hidden),
    {
        self.set_visibility(label, Visibility::Hidden)
    }

    /// Takes the secondary window `label` out of the registry. Its label stays
    /// issued. The primary window is never taken out.
    fn remove_secondary(&mut self, label: &str)
        requires
            old(self).wf(),
            label@ != PRIMARY_LABEL@,
        ensures
            final(self).wf(),
            final(self)@ == old(self)@.without(label@),
    {
        match self.position(label) {
            Some(at) => {
                proof {
                    lemma_live_remove(self.windows@, at as int);
                }
                let ghost before = self.windows@;
                let _ = self.windows.remove(at);
                proof {
                    assert(at >= 1);
                    assert forall|i: int| 1 <= i < self.windows@.len() implies (
                    #[trigger] self.windows@[i]).role == Role::Secondary && issued_of(
                        self.issued@,
                    ).contains(self.windows@[i].name()) by {
                        if i < at {
                            assert(self.windows@[i] == before[i]);
                        } else {
                            assert(self.windows@[i] == before[i + 1]);
                        }
                    }
                }
            },
            None => {
                assert(self@.live.remove(label@) =~= self@.live);
            },
        }
    }

    /// Answers the host's request to close the window `label`. The primary
    /// window is kept and hidden; any other label may close, and a live window
    /// of that label leaves the registry.
    pub fn close_request(&mut self, label: &str) -> (decision: CloseDecision)
        requires
            old(self).wf(),
        ensures
            final(self).wf(),
            final(self)@ == old(self)@.after_close_request(label@),
            decision == if label@ == PRIMARY_LABEL@ {
                CloseDecision::HideInstead
            } else {
                CloseDecision::Proceed
            },
            label@ == PRIMARY_LABEL@ ==> final(self)@.live.dom() == old(self)@.live.dom()
                && final(self)@.count() == old(self)@.count(),
            label@ != PRIMARY_LABEL@ && old(self)@.is_live(label@) ==> !final(self)@.is_live(label@)
                && final(self)@.count() == old(self)@.count() - 1,
            final(self)@.issued == old(self)@.issued,
    {
        proof {
            self.lemma_valid();
            if label@ == PRIMARY_LABEL@ {
                law_primary_close_only_hides(self@);
            } else if self@.is_live(label@) {
                law_secondary_close_removes(self@, label@);
            }
        }
        if text_eq(label, PRIMARY_LABEL) {
            self.set_visibility(label, Visibility::Hidden);
            CloseDecision::HideInstead
        } else {
            self.remove_secondary(label);
            CloseDecision::Proceed
        }
    }

    /// Takes back a secondary window that the host could not make. The label
    /// stays issued. For the primary label nothing changes.
    pub fn discard(&mut self, label: &str)
        requires
            old(self).wf(),
        ensures
            final(self).wf(),
            final(self)@ == if label@ == PRIMARY_LABEL@ {
                old(self)@
            } else {
                old(self)@.without(label@)
            },
    {
        if !text_eq(label, PRIMARY_LABEL) {
            self.remove_secondary(label);
        }
    }
}


impl WindowManager {
    /// Makes a secondary window at `url` under a freshly drawn label and returns
    /// the label. Nothing is made where `url` does not parse as a URL, nor where
    /// the drawn label was given out before; the registry is then unchanged.
    pub fn create_secondary(&mut self, url: &str) -> (made: Result<String, WindowError>)
        requires
            old(self).wf(),
        ensures
            final(self).wf(),
            match made {
                Ok(label) => {
                    &&& is_url(url@)
                    &&& is_generated_label(label@)
                    &&& !old(self)@.issued.contains(label@)
                    &&& !old(self)@.is_live(label@)
                    &&& final(self)@ == old(self)@.with_secondary(label@, url@)
                    &&& final(self)@.secondary_count() == old(self)@.secondary_count() + 1
                },
                Err(WindowError::InvalidUrl { reason }) => {
                    &&& url_rejection(url@) == Some(reason@)
                    &&& final(self)@ == old(self)@
                },
                Err(WindowError::LabelTaken { label }) => {
                    &&& is_url(url@)
                    &&& is_generated_label(label@)
                    &&& old(self)@.issued.contains(label@)
                    &&& final(self)@ == old(self)@
                },
            },
    {
        let token = random_token();
        let rejection = parse_rejection(url);
        proof {
            lemma_token_gives_generated_label(token@);
        }
        self.register_secondary(url, rejection, token.as_str())
    }
}


impl WindowManager {
    /// Whether a window `label` is live.
    pub fn is_live(&self, label: &str) -> (live: bool)
        requires
            self.wf(),
        ensures
            live == self@.is_live(label@),
    {
        match self.position(label) {
            Some(at) => {
                proof {
                    lemma_index_of(self.windows@, at as int);
                }
                true
            },
            None => false,
        }
    }

    /// The number of live windows, the primary one included.
    pub fn live_count(&self) -> (count: usize)
        requires
            self.wf(),
        ensures
            count == self@.count(),
            count >= 1,
    {
        proof {
            lemma_live_count(self.windows@);
        }
        self.windows.len()
    }

    /// The number of live secondary windows.
    pub fn secondary_count(&self) -> (count: usize)
        requires
            self.wf(),
        ensures
            count == self@.secondary_count(),
    {
        proof {
            lemma_live_count(self.windows@);
            self.lemma_valid();
            law_exactly_one_primary(self@);
        }
        self.windows.len() - 1
    }

    /// Whether the window `label` is on screen, if it is live.
    pub fn visibility(&self, label: &str) -> (visibility: Option<Visibility>)
        requires
            self.wf(),
        ensures
            match visibility {
                Some(v) => self@.is_live(label@) && v == self@.live[label@].visibility,
                None => !self@.is_live(label@),
            },
    {
        match self.position(label) {
            Some(at) => {
                proof {
                    lemma_index_of(self.windows@, at as int);
                }
                Some(self.windows[at].visibility)
            },
            None => None,
        }
    }

    /// Whether the window `label` is the primary or a secondary one, if it is
    /// live.
    pub fn role(&self, label: &str) -> (role: Option<Role>)
        requires
            self.wf(),
        ensures
            match role {
                Some(r) => self@.is_live(label@) && r == self@.live[label@].role,
                None => !self@.is_live(label@),
            },
    {
        match self.position(label) {
            Some(at) => {
                proof {
                    lemma_index_of(self.windows@, at as int);
                }
                Some(self.windows[at].role)
            },
            None => None,
        }
    }

    /// The address that the window `label` was made for, if it is live.
    pub fn url(&self, label: &str) -> (url: Option<String>)
        requires
            self.wf(),
        ensures
            match url {
                Some(u) => self@.is_live(label@) && u@ == self@.live[label@].url,
                None => !self@.is_live(label@),
            },
    {
        match self.position(label) {
            Some(at) => {
                proof {
                    lemma_index_of(self.windows@, at as int);
                }
                Some(self.windows[at].url.clone())
            },
            None => None,
        }
    }

    /// The labels of the live windows, each once, the primary one first.
    pub fn labels(&self) -> (labels: Vec<String>)
        requires
            self.wf(),
        ensures
            labels@.len() == self@.count(),
            labels@[0]@ == PRIMARY_LABEL@,
            forall|i: int| 0 <= i < labels@.len() ==> self@.is_live(#[trigger] labels@[i]@),
            forall|i: int, j: int|
                0 <= i < j < labels@.len() ==> #[trigger] labels@[i]@ != #[trigger] labels@[j]@,
            forall|label: Seq<char>|
                self@.is_live(label) ==> exists|i: int|
                    0 <= i < labels@.len() && (#[trigger] labels@[i])@ == label,
    {
        let mut labels: Vec<String> = Vec::new();
        let mut i: usize = 0;
        proof {
            lemma_live_count(self.windows@);
        }
        while i < self.windows.len()
            invariant
                i <= self.windows.len(),
                labels@.len() == i,
                forall|k: int| 0 <= k < i ==> (#[trigger] labels@[k])@ == self.windows[k].name(),
            decreases self.windows.len() - i,
        {
            labels.push(self.windows[i].label.clone());
            i += 1;
        }
        proof {
            assert forall|k: int| 0 <= k < labels@.len() implies self@.is_live(
                #[trigger] labels@[k]@,
            ) by {
                lemma_index_of(self.windows@, k);
            }
            assert forall|k: int, j: int| 0 <= k < j < labels@.len() implies #[trigger] labels@[k]@
                != #[trigger] labels@[j]@ by {
                assert(labels_of(self.windows@)[k] == self.windows[k].name());
                assert(labels_of(self.windows@)[j] == self.windows[j].name());
            }
            assert forall|label: Seq<char>| self@.is_live(label) implies exists|i: int|
                0 <= i < labels@.len() && (#[trigger] labels@[i])@ == label by {
                let k = labels_of(self.windows@).index_of(label);
                lemma_index_of(self.windows@, k);
                assert(labels@[k]@ == label);
            }
        }
        labels
    }
}

} // verus!
