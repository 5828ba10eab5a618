//! What holds of every registry, whatever was done to it.
//!
//! Each law is stated over the model that the contracts of the manager use,
//! so it holds of every sequence of calls that those contracts describe.

use vstd::prelude::*;
use crate::engine::backend::EngineEvent;
use crate::engine::frida_handler::{script_releases, FridaSessionManager};
use crate::engine::registry::RegistryView;
use crate::engine::session::SessionView;
use crate::engine::session::SessionState;
use crate::engine::session_id::{lemma_session_id_injective, lemma_session_number_of_text};

verus! {

/// A session created for a process is listed with that process and as
/// active, under the identifier that creation returned.
pub proof fn law_created_session_is_listed(r: RegistryView, pid: u32, handle: u64, at: u64)
    requires
        r.wf(),
        r.next < u32::MAX,
    ensures
        r.registered(pid, handle, at).wf(),
        r.registered(pid, handle, at).listing().len() == r.listing().len() + 1,
        r.registered(pid, handle, at).listing().last() == (r.next_id(), pid, true),
        r.registered(pid, handle, at).state_of(r.next_id()) == Some(SessionState::Attached),
        r.registered(pid, handle, at).messages(r.next_id()) == Seq::<Seq<char>>::empty(),
        r.registered(pid, handle, at).pid_of(r.next_id()) == Some(pid),
{
    r.lemma_registered(pid, handle, at);
}

/// No two lines of a listing carry the same identifier.
pub proof fn law_listed_identifiers_are_distinct(r: RegistryView, i: int, j: int)
    requires
        r.wf(),
        0 <= i < r.listing().len(),
        0 <= j < r.listing().len(),
        i != j,
    ensures
        r.listing()[i].0 != r.listing()[j].0,
{
    if r.listing()[i].0 == r.listing()[j].0 {
        lemma_session_id_injective(r.sessions[i].number, r.sessions[j].number);
        if i < j {
            assert(r.sessions[i].number < r.sessions[j].number);
        } else {
            assert(r.sessions[j].number < r.sessions[i].number);
        }
    }
}

/// Creating sessions one after the other, however many, registers exactly
/// one session per creation, and each under an identifier of its own.
pub proof fn law_every_creation_adds_one_session(r: RegistryView, targets: Seq<(u32, u64, u64)>)
    requires
        r.wf(),
        r.next + targets.len() <= u32::MAX,
    ensures
        r.registered_all(targets).wf(),
        r.registered_all(targets).next == r.next + targets.len(),
        r.registered_all(targets).sessions.len() == r.sessions.len() + targets.len(),
        forall|i: int, j: int|
            0 <= i < j < r.registered_all(targets).listing().len() ==> (
            #[trigger] r.registered_all(targets).listing()[i]).0 != (#[trigger] r.registered_all(
                targets,
            ).listing()[j]).0,
    decreases targets.len(),
{
    let after = r.registered_all(targets);
    if targets.len() > 0 {
        let before = r.registered_all(targets.drop_last());
        law_every_creation_adds_one_session(r, targets.drop_last());
        before.lemma_registered(targets.last().0, targets.last().1, targets.last().2);
    }
    assert forall|i: int, j: int| 0 <= i < j < after.listing().len() implies (
    #[trigger] after.listing()[i]).0 != (#[trigger] after.listing()[j]).0 by {
        law_listed_identifiers_are_distinct(after, i, j);
    }
}

/// Destroying a session a second time changes nothing: the registry, and
/// with it its size, is what the first call left.
pub proof fn law_destroy_is_idempotent(r: RegistryView, id: Seq<char>)
    requires
        r.wf(),
    ensures
        r.destroyed(id).wf(),
        r.destroyed(id).destroyed(id) == r.destroyed(id),
        r.contains(id) ==> r.destroyed(id).sessions.len() == r.sessions.len() - 1,
        !r.contains(id) ==> r.destroyed(id) == r,
{
    if r.contains(id) {
        r.lemma_destroyed(id);
    }
}

/// A destroyed session stays destroyed, its inbox is gone, and it is no
/// longer listed.
pub proof fn law_destroyed_is_terminal(r: RegistryView, id: Seq<char>)
    requires
        r.wf(),
        r.contains(id),
    ensures
        r.destroyed(id).state_of(id) == Some(SessionState::Destroyed),
        r.destroyed(id).messages(id) == Seq::<Seq<char>>::empty(),
        r.destroyed(id).pid_of(id) is None,
        forall|pid: u32, handle: u64, at: u64|
            r.next < u32::MAX ==> (#[trigger] r.destroyed(id).registered(pid, handle, at)).state_of(
                id,
            ) == Some(SessionState::Destroyed),
        forall|other: Seq<char>| #[trigger]
            r.destroyed(id).destroyed(other).state_of(id) == Some(SessionState::Destroyed),
        forall|other: Seq<char>, message: Seq<char>| #[trigger]
            r.destroyed(id).delivered(other, message).state_of(id) == Some(
                SessionState::Destroyed,
            ),
{
    let gone = r.destroyed(id);
    r.lemma_destroyed(id);
    assert forall|pid: u32, handle: u64, at: u64| r.next < u32::MAX implies (
    #[trigger] gone.registered(pid, handle, at)).state_of(id) == Some(
        SessionState::Destroyed,
    ) by {
        gone.lemma_registered(pid, handle, at);
    }
    assert forall|other: Seq<char>| #[trigger]
        gone.destroyed(other).state_of(id) == Some(SessionState::Destroyed) by {
        if gone.contains(other) {
            gone.lemma_destroyed(other);
        }
    }
    assert forall|other: Seq<char>, message: Seq<char>| #[trigger]
        gone.delivered(other, message).state_of(id) == Some(SessionState::Destroyed) by {
        if gone.contains(other) {
            gone.lemma_with_session(other, gone.session(other).received(message));
        }
    }
}

/// Messages delivered to a live session are kept, in the order of their
/// delivery, behind what the inbox held before: after `n` deliveries the
/// inbox has at least `n` entries, and its last `n` are the messages
/// delivered.
pub proof fn law_deliveries_are_kept_in_order(
    r: RegistryView,
    id: Seq<char>,
    messages: Seq<Seq<char>>,
)
    requires
        r.wf(),
        r.contains(id),
    ensures
        r.delivered_all(id, messages).wf(),
        r.delivered_all(id, messages).contains(id),
        r.delivered_all(id, messages).messages(id) == r.messages(id) + messages,
        r.delivered_all(id, messages).messages(id).len() >= messages.len(),
        r.delivered_all(id, messages).state_of(id) == r.state_of(id),
    decreases messages.len(),
{
    if messages.len() == 0 {
        assert(r.messages(id) + messages =~= r.messages(id));
    } else {
        let before = r.delivered_all(id, messages.drop_last());
        law_deliveries_are_kept_in_order(r, id, messages.drop_last());
        let s = before.session(id).received(messages.last());
        before.lemma_position_valid(id);
        before.lemma_with_session(id, s);
        assert((r.messages(id) + messages.drop_last()).push(messages.last()) =~= r.messages(id)
            + messages);
    }
}

/// A delivery to one session leaves every other session, and the process of
/// every session, as it was.
pub proof fn law_delivery_touches_one_inbox(
    r: RegistryView,
    id: Seq<char>,
    message: Seq<char>,
    other: Seq<char>,
)
    requires
        r.wf(),
    ensures
        r.delivered(id, message).wf(),
        r.delivered(id, message).pid_of(other) == r.pid_of(other),
        r.delivered(id, message).state_of(other) == r.state_of(other),
        other != id ==> r.delivered(id, message).messages(other) == r.messages(other),
        !r.contains(id) ==> r.delivered(id, message) == r,
{
    if r.contains(id) {
        r.lemma_position_valid(id);
        r.lemma_with_session_at(id, r.session(id).received(message), other);
    }
}

/// The state machine of a live session: injection leads to `ScriptLoaded`
/// and resumption to `Resumed`, from whichever state the session is in, and
/// neither changes the process or the inbox.
pub proof fn law_transitions_of_a_live_session(r: RegistryView, id: Seq<char>, script: u64)
    requires
        r.wf(),
        r.contains(id),
    ensures
        r.script_loaded(id, script).wf(),
        r.script_loaded(id, script).state_of(id) == Some(SessionState::ScriptLoaded),
        r.script_loaded(id, script).messages(id) == r.messages(id),
        r.script_loaded(id, script).pid_of(id) == r.pid_of(id),
        r.resumed(id).wf(),
        r.resumed(id).state_of(id) == Some(SessionState::Resumed),
        r.resumed(id).messages(id) == r.messages(id),
        r.resumed(id).pid_of(id) == r.pid_of(id),
{
    r.lemma_position_valid(id);
    r.lemma_with_session(id, r.session(id).script_loaded(script));
    r.lemma_with_session(id, r.session(id).resumed());
}

/// Every listed session is active: a destroyed session is not listed.
pub proof fn law_listed_sessions_are_active(r: RegistryView, i: int)
    requires
        r.wf(),
        0 <= i < r.listing().len(),
    ensures
        r.listing()[i].2,
        r.contains(r.listing()[i].0),
        r.pid_of(r.listing()[i].0) == Some(r.listing()[i].1),
{
    r.lemma_position(r.listing()[i].0, i);
}

/// Identifiers are issued once: the identifier of the next session was never
/// issued before, and an identifier that was issued stays issued whatever
/// happens to the registry.
pub proof fn law_identifiers_are_issued_once(
    r: RegistryView,
    id: Seq<char>,
    pid: u32,
    handle: u64,
    at: u64,
    other: Seq<char>,
    message: Seq<char>,
)
    requires
        r.wf(),
        r.next < u32::MAX,
    ensures
        !r.was_issued(r.next_id()),
        r.state_of(r.next_id()) is None,
        r.registered(pid, handle, at).was_issued(r.next_id()),
        r.was_issued(id) ==> r.registered(pid, handle, at).was_issued(id),
        r.was_issued(id) ==> r.destroyed(other).was_issued(id),
        r.was_issued(id) ==> r.delivered(other, message).was_issued(id),
        r.was_issued(id) ==> r.registered(pid, handle, at).next_id() != id,
{
    r.lemma_registered(pid, handle, at);
    lemma_session_number_of_text(r.next);
    lemma_session_number_of_text(r.next + 1);
}

/// The messages of a batch that are meant for the session `id`, in the
/// order of the batch.
pub open spec fn addressed_to(batch: Seq<(Seq<char>, Seq<char>)>, id: Seq<char>) -> Seq<Seq<char>>
    decreases batch.len(),
{
    if batch.len() == 0 {
        Seq::empty()
    } else if batch.last().0 == id {
        addressed_to(batch.drop_last(), id).push(batch.last().1)
    } else {
        addressed_to(batch.drop_last(), id)
    }
}

/// A batch of deliveries, to whichever sessions, adds to the inbox of a
/// live session exactly the messages meant for it, in the order of the
/// batch, and leaves the state and the process of the session alone.
pub proof fn law_batch_is_sorted_into_inboxes(
    r: RegistryView,
    batch: Seq<(Seq<char>, Seq<char>)>,
    id: Seq<char>,
)
    requires
        r.wf(),
        r.contains(id),
    ensures
        r.delivered_batch(batch).wf(),
        r.delivered_batch(batch).contains(id),
        r.delivered_batch(batch).messages(id) == r.messages(id) + addressed_to(batch, id),
        r.delivered_batch(batch).state_of(id) == r.state_of(id),
        r.delivered_batch(batch).pid_of(id) == r.pid_of(id),
        r.delivered_batch(batch).sessions.len() == r.sessions.len(),
    decreases batch.len(),
{
    if batch.len() == 0 {
        assert(r.messages(id) + addressed_to(batch, id) =~= r.messages(id));
    } else {
        let before = r.delivered_batch(batch.drop_last());
        law_batch_is_sorted_into_inboxes(r, batch.drop_last(), id);
        let to = batch.last().0;
        let message = batch.last().1;
        if before.contains(to) {
            before.lemma_position_valid(to);
            before.lemma_position_valid(id);
            before.lemma_with_session_at(to, before.session(to).received(message), id);
        }
        if to == id {
            assert((r.messages(id) + addressed_to(batch.drop_last(), id)).push(message)
                =~= r.messages(id) + addressed_to(batch, id));
        }
    }
}

/// The scripts of a session are released one by one, the newest first.
pub proof fn law_scripts_are_released_newest_first(scripts: Seq<u64>, i: int)
    requires
        0 <= i < scripts.len(),
    ensures
        script_releases(scripts).len() == scripts.len(),
        script_releases(scripts)[i] == (EngineEvent::ReleaseScript {
            script: scripts[scripts.len() - 1 - i],
        }),
    decreases scripts.len(),
{
    lemma_script_releases_len(scripts);
    if i > 0 {
        law_scripts_are_released_newest_first(scripts.drop_last(), i - 1);
    }
}

/// There are as many releases as scripts.
proof fn lemma_script_releases_len(scripts: Seq<u64>)
    ensures
        script_releases(scripts).len() == scripts.len(),
    decreases scripts.len(),
{
    if scripts.len() > 0 {
        lemma_script_releases_len(scripts.drop_last());
    }
}

/// The destruction of a session hands every resource of the session back to
/// the engine once: one release for each script, and after them one release
/// of the connection.
pub proof fn law_every_resource_is_released_once(s: SessionView)
    ensures
        FridaSessionManager::release_events(s).len() == s.scripts.len() + 1,
        FridaSessionManager::release_events(s).last() == (EngineEvent::ReleaseSession {
            connection: s.handle,
        }),
        forall|i: int|
            0 <= i < s.scripts.len() ==> #[trigger] FridaSessionManager::release_events(s)[i] == (
            EngineEvent::ReleaseScript { script: s.scripts[s.scripts.len() - 1 - i] }),
{
    lemma_script_releases_len(s.scripts);
    assert forall|i: int| 0 <= i < s.scripts.len() implies #[trigger]
        FridaSessionManager::release_events(s)[i] == (EngineEvent::ReleaseScript {
        script: s.scripts[s.scripts.len() - 1 - i],
    }) by {
        law_scripts_are_released_newest_first(s.scripts, i);
    }
}

/// The process and the creation time of a live session never change:
/// whatever is registered, delivered, injected, resumed or destroyed, a
/// session that is still live is attached to the process it was created
/// for.
pub proof fn law_process_of_a_session_never_changes(
    r: RegistryView,
    id: Seq<char>,
    other: Seq<char>,
    pid: u32,
    handle: u64,
    at: u64,
    message: Seq<char>,
    script: u64,
)
    requires
        r.wf(),
        r.contains(id),
    ensures
        r.next < u32::MAX ==> r.registered(pid, handle, at).pid_of(id) == r.pid_of(id),
        r.delivered(other, message).pid_of(id) == r.pid_of(id),
        r.contains(other) ==> r.script_loaded(other, script).pid_of(id) == r.pid_of(id),
        r.contains(other) ==> r.resumed(other).pid_of(id) == r.pid_of(id),
        other != id ==> r.destroyed(other).pid_of(id) == r.pid_of(id),
        r.next < u32::MAX ==> r.registered(pid, handle, at).created_at_of(id) == r.created_at_of(
            id,
        ),
        r.delivered(other, message).created_at_of(id) == r.created_at_of(id),
        r.contains(other) ==> r.script_loaded(other, script).created_at_of(id)
            == r.created_at_of(id),
        r.contains(other) ==> r.resumed(other).created_at_of(id) == r.created_at_of(id),
        other != id ==> r.destroyed(other).created_at_of(id) == r.created_at_of(id),
{
    r.lemma_position_valid(id);
    if r.next < u32::MAX {
        r.lemma_registered(pid, handle, at);
        r.lemma_contained_was_issued(id);
        assert(r.registered(pid, handle, at).position(id) == r.position(id));
    }
    if r.contains(other) {
        r.lemma_position_valid(other);
        r.lemma_with_session_at(other, r.session(other).received(message), id);
        r.lemma_with_session_at(other, r.session(other).script_loaded(script), id);
        r.lemma_with_session_at(other, r.session(other).resumed(), id);
        if other != id {
            r.lemma_destroyed_at(other, id);
            assert(r.destroyed(other).session(id) == r.session(id)) by {
                let n = r.session(id).number;
                let before = r.position(id)->0;
                let gone = r.position(other)->0;
                let after = if before < gone {
                    before
                } else {
                    before - 1
                };
                assert(before != gone);
                assert(r.destroyed(other).has_number_at(n, after));
                r.destroyed(other).lemma_index_of(n, after);
            }
        }
    }
}

} // verus!
