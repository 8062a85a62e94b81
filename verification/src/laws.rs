//! What holds of the window registry in every state and over any course of
//! events.

use crate::label::{is_secondary_label, lemma_primary_is_not_secondary, PRIMARY_LABEL};
use crate::window::{Registry, Role, Visibility};
use vstd::prelude::*;

verus! {

/// Something that happens to the registry.
pub enum Event {
    /// The window `label` is shown.
    Show { label: Seq<char> },
    /// The window `label` is hidden.
    Hide { label: Seq<char> },
    /// The host asks to close the window `label`.
    CloseRequest { label: Seq<char> },
    /// The host could not build the window `label`.
    Discard { label: Seq<char> },
    /// A secondary window is asked for at `url`, and `label` is drawn for it.
    Create { label: Seq<char>, url: Seq<char> },
}

/// Whether a drawn label is taken for a new window: it has the form of a
/// secondary label and was not given out before.
pub open spec fn accepts(registry: Registry, label: Seq<char>) -> bool {
    is_secondary_label(label) && !registry.issued.contains(label)
}

/// The registry after one event.
pub open spec fn step(registry: Registry, event: Event) -> Registry {
    match event {
        Event::Show { label } => registry.with_visibility(label, Visibility::Visible),
        Event::Hide { label } => registry.with_visibility(label, Visibility::Hidden),
        Event::CloseRequest { label } => registry.after_close_request(label),
        Event::Discard { label } => if label == PRIMARY_LABEL@ {
            registry
        } else {
            registry.without(label)
        },
        Event::Create { label, url } => if accepts(registry, label) {
            registry.with_secondary(label, url)
        } else {
            registry
        },
    }
}

/// The registry after a course of events, the first of `events` first.
pub open spec fn replay(registry: Registry, events: Seq<Event>) -> Registry
    decreases events.len(),
{
    if events.len() == 0 {
        registry
    } else {
        step(replay(registry, events.drop_last()), events.last())
    }
}

/// Where a label stands in the life of a window.
pub enum Lifecycle {
    /// No window of this label was ever made.
    Unmade,
    /// The window is live and on screen.
    Visible,
    /// The window is live and off screen.
    Hidden,
    /// The window was made and is gone.
    Destroyed,
}

/// Where `label` stands in `registry`.
pub open spec fn lifecycle(registry: Registry, label: Seq<char>) -> Lifecycle {
    if registry.is_live(label) {
        match registry.live[label].visibility {
            Visibility::Visible => Lifecycle::Visible,
            Visibility::Hidden => Lifecycle::Hidden,
        }
    } else if registry.issued.contains(label) {
        Lifecycle::Destroyed
    } else {
        Lifecycle::Unmade
    }
}

/// The registry right after startup is valid and holds one window, the primary
/// one, visible at the address it was started with.
pub proof fn law_startup_makes_one_primary(url: Seq<char>)
    ensures
        Registry::initial(url).valid(),
        Registry::initial(url).count() == 1,
        Registry::initial(url).secondary_count() == 0,
        Registry::initial(url).live[PRIMARY_LABEL@] == (crate::window::WindowState {
            url,
            visibility: Visibility::Visible,
            role: Role::Primary,
        }),
{
    let r = Registry::initial(url);
    assert(r.live.dom() =~= set![PRIMARY_LABEL@]);
    assert(r.live.dom().remove(PRIMARY_LABEL@) =~= Set::<Seq<char>>::empty());
}

/// In a valid registry exactly one live window is primary, the one labelled
/// `main`, so at least one window is live.
pub proof fn law_exactly_one_primary(registry: Registry)
    requires
        registry.valid(),
    ensures
        forall|label: Seq<char>|
            registry.is_live(label) && registry.live[label].role == Role::Primary <==> label
                == PRIMARY_LABEL@,
        registry.count() >= 1,
        registry.count() == registry.secondary_count() + 1,
{
    assert forall|label: Seq<char>|
        registry.is_live(label) && registry.live[label].role == Role::Primary <==> label
            == PRIMARY_LABEL@ by {
        if registry.is_live(label) && label != PRIMARY_LABEL@ {
            assert(registry.live.contains_key(label));
        }
    }
}

/// A request to close the primary window takes no window away: the same
/// windows are live afterwards, the primary one hidden and otherwise as it
/// was, and every other as it was.
pub proof fn law_primary_close_only_hides(registry: Registry)
    requires
        registry.valid(),
    ensures
        registry.after_close_request(PRIMARY_LABEL@).valid(),
        registry.after_close_request(PRIMARY_LABEL@).live.dom() == registry.live.dom(),
        registry.after_close_request(PRIMARY_LABEL@).count() == registry.count(),
        registry.after_close_request(PRIMARY_LABEL@).count() >= 1,
        registry.after_close_request(PRIMARY_LABEL@).issued == registry.issued,
        registry.after_close_request(PRIMARY_LABEL@).live[PRIMARY_LABEL@] == (
        crate::window::WindowState {
            visibility: Visibility::Hidden,
            ..registry.live[PRIMARY_LABEL@]
        }),
        forall|label: Seq<char>|
            label != PRIMARY_LABEL@ && registry.is_live(label) ==> registry.after_close_request(
                PRIMARY_LABEL@,
            ).live[label] == registry.live[label],
{
    let after = registry.after_close_request(PRIMARY_LABEL@);
    assert(after.live.dom() =~= registry.live.dom());
    assert forall|label: Seq<char>| #[trigger]
        after.live.contains_key(label) && label != PRIMARY_LABEL@ implies after.live[label].role
        == Role::Secondary && after.issued.contains(label) by {
        assert(registry.live.contains_key(label));
    }
    law_exactly_one_primary(after);
}

/// Showing or hiding a window changes nothing but that window's visibility.
pub proof fn law_visibility_keeps_windows(
    registry: Registry,
    label: Seq<char>,
    visibility: Visibility,
)
    requires
        registry.valid(),
    ensures
        registry.with_visibility(label, visibility).valid(),
        registry.with_visibility(label, visibility).live.dom() == registry.live.dom(),
        registry.with_visibility(label, visibility).issued == registry.issued,
        registry.with_visibility(label, visibility).count() == registry.count(),
        !registry.is_live(label) ==> registry.with_visibility(label, visibility) == registry,
        registry.is_live(label) ==> registry.with_visibility(label, visibility).live[label].visibility
            == visibility,
{
    let after = registry.with_visibility(label, visibility);
    assert(after.live.dom() =~= registry.live.dom());
    assert forall|l: Seq<char>| #[trigger]
        after.live.contains_key(l) && l != PRIMARY_LABEL@ implies after.live[l].role
        == Role::Secondary && after.issued.contains(l) by {
        assert(registry.live.contains_key(l));
    }
}

/// A new secondary window under a label that was not given out before is one
/// window more: the label was not live, it is live afterwards, and the live
/// secondary windows are one more than before.
pub proof fn law_create_adds_one(registry: Registry, label: Seq<char>, url: Seq<char>)
    requires
        registry.valid(),
        accepts(registry, label),
    ensures
        !registry.is_live(label),
        registry.with_secondary(label, url).valid(),
        registry.with_secondary(label, url).is_live(label),
        registry.with_secondary(label, url).issued.contains(label),
        registry.with_secondary(label, url).secondary_count() == registry.secondary_count() + 1,
        registry.with_secondary(label, url).count() == registry.count() + 1,
        forall|other: Seq<char>|
            registry.is_live(other) ==> registry.with_secondary(label, url).live[other]
                == registry.live[other],
{
    lemma_primary_is_not_secondary();
    let after = registry.with_secondary(label, url);
    if registry.is_live(label) {
        assert(registry.live.contains_key(label));
    }
    assert(after.live.dom() =~= registry.live.dom().insert(label));
    assert(after.live.dom().remove(PRIMARY_LABEL@) =~= registry.live.dom().remove(
        PRIMARY_LABEL@,
    ).insert(label));
    assert forall|l: Seq<char>| #[trigger]
        after.live.contains_key(l) && l != PRIMARY_LABEL@ implies after.live[l].role
        == Role::Secondary && after.issued.contains(l) by {
        if l != label {
            assert(registry.live.contains_key(l));
        }
    }
}

/// A request to close a live secondary window takes it away: it is no longer
/// live, the live windows are one fewer, and its label stays given out.
pub proof fn law_secondary_close_removes(registry: Registry, label: Seq<char>)
    requires
        registry.valid(),
        registry.is_live(label),
        label != PRIMARY_LABEL@,
    ensures
        registry.after_close_request(label).valid(),
        !registry.after_close_request(label).is_live(label),
        registry.after_close_request(label).issued.contains(label),
        registry.after_close_request(label).issued == registry.issued,
        registry.after_close_request(label).count() == registry.count() - 1,
        registry.after_close_request(label).secondary_count() == registry.secondary_count() - 1,
        forall|other: Seq<char>|
            other != label && registry.is_live(other) ==> registry.after_close_request(
                label,
            ).is_live(other) && registry.after_close_request(label).live[other]
                == registry.live[other],
{
    let after = registry.after_close_request(label);
    assert(registry.live.contains_key(label));
    assert(after.live.dom() =~= registry.live.dom().remove(label));
    assert(after.live.dom().remove(PRIMARY_LABEL@) =~= registry.live.dom().remove(
        PRIMARY_LABEL@,
    ).remove(label));
    assert forall|l: Seq<char>| #[trigger]
        after.live.contains_key(l) && l != PRIMARY_LABEL@ implies after.live[l].role
        == Role::Secondary && after.issued.contains(l) by {
        assert(registry.live.contains_key(l));
    }
}

/// Every event leaves a valid registry valid and takes no label back: what
/// was given out stays given out.
pub proof fn law_step_keeps_valid(registry: Registry, event: Event)
    requires
        registry.valid(),
    ensures
        step(registry, event).valid(),
        registry.issued.subset_of(step(registry, event).issued),
        forall|label: Seq<char>|
            step(registry, event).is_live(label) && !registry.is_live(label)
                ==> !registry.issued.contains(label),
{
    match event {
        Event::Show { label } => {
            law_visibility_keeps_windows(registry, label, Visibility::Visible);
        },
        Event::Hide { label } => {
            law_visibility_keeps_windows(registry, label, Visibility::Hidden);
        },
        Event::CloseRequest { label } => {
            if label == PRIMARY_LABEL@ {
                law_primary_close_only_hides(registry);
            } else if registry.is_live(label) {
                law_secondary_close_removes(registry, label);
            } else {
                assert(registry.live.remove(label) =~= registry.live);
            }
        },
        Event::Discard { label } => {
            if label != PRIMARY_LABEL@ {
                if registry.is_live(label) {
                    law_secondary_close_removes(registry, label);
                } else {
                    assert(registry.live.remove(label) =~= registry.live);
                }
            }
        },
        Event::Create { label, url } => {
            if accepts(registry, label) {
                law_create_adds_one(registry, label, url);
            }
        },
    }
}

/// Over any course of events a valid registry stays valid, so the primary
/// window stays live and stays the only primary one, and what was given out
/// stays given out.
pub proof fn law_replay_keeps_valid(registry: Registry, events: Seq<Event>)
    requires
        registry.valid(),
    ensures
        replay(registry, events).valid(),
        replay(registry, events).is_live(PRIMARY_LABEL@),
        replay(registry, events).count() >= 1,
        registry.issued.subset_of(replay(registry, events).issued),
    decreases events.len(),
{
    if events.len() > 0 {
        law_replay_keeps_valid(registry, events.drop_last());
        law_step_keeps_valid(replay(registry, events.drop_last()), events.last());
    }
    law_exactly_one_primary(replay(registry, events));
}

/// A label that was given out and whose window is gone is never live again,
/// whatever happens: no label is used twice.
pub proof fn law_label_is_never_reused(registry: Registry, label: Seq<char>, events: Seq<Event>)
    requires
        registry.valid(),
        registry.issued.contains(label),
        !registry.is_live(label),
    ensures
        !replay(registry, events).is_live(label),
        replay(registry, events).issued.contains(label),
    decreases events.len(),
{
    if events.len() > 0 {
        let before = replay(registry, events.drop_last());
        law_label_is_never_reused(registry, label, events.drop_last());
        law_replay_keeps_valid(registry, events.drop_last());
        law_step_keeps_valid(before, events.last());
    }
}

/// Once the window `label` was closed on request, no later course of events
/// brings a window of that label back.
pub proof fn law_closed_label_stays_closed(registry: Registry, label: Seq<char>, events: Seq<Event>)
    requires
        registry.valid(),
        registry.is_live(label),
        label != PRIMARY_LABEL@,
    ensures
        !replay(registry.after_close_request(label), events).is_live(label),
{
    law_secondary_close_removes(registry, label);
    law_label_is_never_reused(registry.after_close_request(label), label, events);
}

/// A label that was drawn and taken once is taken by no later draw: a second
/// `Create` with it changes nothing.
pub proof fn law_label_is_given_out_once(
    registry: Registry,
    label: Seq<char>,
    url: Seq<char>,
    events: Seq<Event>,
    again: Seq<char>,
)
    requires
        registry.valid(),
        accepts(registry, label),
    ensures
        !accepts(replay(registry.with_secondary(label, url), events), label),
        step(
            replay(registry.with_secondary(label, url), events),
            Event::Create { label, url: again },
        ) == replay(registry.with_secondary(label, url), events),
{
    law_create_adds_one(registry, label, url);
    law_replay_keeps_valid(registry.with_secondary(label, url), events);
}


/// The primary window is never destroyed: over any course of events it is
/// visible or hidden.
pub proof fn law_primary_is_never_destroyed(registry: Registry, events: Seq<Event>)
    requires
        registry.valid(),
    ensures
        lifecycle(replay(registry, events), PRIMARY_LABEL@) is Visible || lifecycle(
            replay(registry, events),
            PRIMARY_LABEL@,
        ) is Hidden,
{
    law_replay_keeps_valid(registry, events);
}

/// A destroyed window stays destroyed, whatever happens.
pub proof fn law_destroyed_is_terminal(registry: Registry, label: Seq<char>, events: Seq<Event>)
    requires
        registry.valid(),
        lifecycle(registry, label) is Destroyed,
    ensures
        lifecycle(replay(registry, events), label) is Destroyed,
{
    law_label_is_never_reused(registry, label, events);
}

/// A secondary window is made visible, and a request to close it destroys it,
/// whether it was visible or hidden.
pub proof fn law_secondary_life(registry: Registry, label: Seq<char>, url: Seq<char>)
    requires
        registry.valid(),
        accepts(registry, label),
    ensures
        lifecycle(registry, label) is Unmade,
        lifecycle(registry.with_secondary(label, url), label) is Visible,
        lifecycle(
            registry.with_secondary(label, url).with_visibility(label, Visibility::Hidden),
            label,
        ) is Hidden,
        lifecycle(registry.with_secondary(label, url).after_close_request(label), label)
            is Destroyed,
        lifecycle(
            registry.with_secondary(label, url).with_visibility(
                label,
                Visibility::Hidden,
            ).after_close_request(label),
            label,
        ) is Destroyed,
{
    lemma_primary_is_not_secondary();
    law_create_adds_one(registry, label, url);
}

} // verus!
