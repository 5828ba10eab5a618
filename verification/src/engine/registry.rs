//! The mathematical model of the session registry.
//!
//! A registry is the sequence of its live sessions, in the order in which
//! they were registered, together with the sequence number that the next
//! session will get. Every contract of the manager is stated over this
//! model.

use vstd::prelude::*;
use crate::engine::session::{SessionState, SessionView};
use crate::engine::session_id::{
    lemma_session_number_of_text,
    lemma_text_of_session_number,
    session_id_text,
    session_number,
};

verus! {

/// One line of a registry listing: identifier, process id, and whether the
/// session is active.
pub type ListingEntry = (Seq<char>, u32, bool);

/// What a registry is, as a mathematical value.
pub struct RegistryView {
    /// The live sessions, oldest first.
    pub sessions: Seq<SessionView>,
    /// The sequence number of the next session to be registered.
    pub next: nat,
}

impl RegistryView {
    /// The registry before anything has been registered.
    pub open spec fn empty() -> RegistryView {
        RegistryView { sessions: Seq::empty(), next: 1 }
    }

    /// The invariant of a registry: sequence numbers start at one, every
    /// live session has a number that was already issued, the sessions stand
    /// in increasing order of their numbers, and none of them is destroyed.
    pub open spec fn wf(self) -> bool {
        &&& 1 <= self.next <= u32::MAX
        &&& forall|i: int|
            0 <= i < self.sessions.len() ==> 1 <= (#[trigger] self.sessions[i]).number < self.next
        &&& forall|i: int, j: int|
            0 <= i < j < self.sessions.len() ==> (#[trigger] self.sessions[i]).number < (
            #[trigger] self.sessions[j]).number
        &&& forall|i: int|
            0 <= i < self.sessions.len() ==> (#[trigger] self.sessions[i]).state.active()
    }

    /// Whether a session with sequence number `n` is live, and where.
    pub open spec fn has_number_at(self, n: nat, i: int) -> bool {
        0 <= i < self.sessions.len() && self.sessions[i].number == n
    }

    /// The position of the live session with sequence number `n`.
    pub open spec fn index_of(self, n: nat) -> Option<int> {
        if exists|i: int| self.has_number_at(n, i) {
            Some(choose|i: int| self.has_number_at(n, i))
        } else {
            None
        }
    }

    /// The position of the live session that `id` names.
    pub open spec fn position(self, id: Seq<char>) -> Option<int> {
        match session_number(id) {
            Some(n) => self.index_of(n),
            None => None,
        }
    }

    /// Whether `id` names a live session.
    pub open spec fn contains(self, id: Seq<char>) -> bool {
        self.position(id) is Some
    }

    /// The live session that `id` names.
    pub open spec fn session(self, id: Seq<char>) -> SessionView
        recommends
            self.contains(id),
    {
        self.sessions[self.position(id)->0]
    }

    /// Whether `id` was handed out by this registry at some point.
    pub open spec fn was_issued(self, id: Seq<char>) -> bool {
        match session_number(id) {
            Some(n) => 1 <= n < self.next,
            None => false,
        }
    }

    /// The lifecycle state behind an identifier: the state of the live
    /// session it names, `Destroyed` for an identifier that was issued and
    /// whose session is gone, and nothing for an identifier never issued.
    pub open spec fn state_of(self, id: Seq<char>) -> Option<SessionState> {
        if self.contains(id) {
            Some(self.session(id).state)
        } else if self.was_issued(id) {
            Some(SessionState::Destroyed)
        } else {
            None
        }
    }

    /// Everything the session `id` has received; empty where `id` names no
    /// live session.
    pub open spec fn messages(self, id: Seq<char>) -> Seq<Seq<char>> {
        if self.contains(id) {
            self.session(id).inbox
        } else {
            Seq::empty()
        }
    }

    /// When the session `id` was created.
    pub open spec fn created_at_of(self, id: Seq<char>) -> Option<u64> {
        if self.contains(id) {
            Some(self.session(id).created_at)
        } else {
            None
        }
    }

    /// The process of the session `id`.
    pub open spec fn pid_of(self, id: Seq<char>) -> Option<u32> {
        if self.contains(id) {
            Some(self.session(id).pid)
        } else {
            None
        }
    }

    /// The identifier that the next registered session will get.
    pub open spec fn next_id(self) -> Seq<char> {
        session_id_text(self.next)
    }

    /// The registry with the session `id` replaced by `s`.
    pub open spec fn with_session(self, id: Seq<char>, s: SessionView) -> RegistryView
        recommends
            self.contains(id),
    {
        RegistryView { sessions: self.sessions.update(self.position(id)->0, s), ..self }
    }

    /// The registry after a session for `pid` has been registered.
    pub open spec fn registered(self, pid: u32, handle: u64, created_at: u64) -> RegistryView {
        RegistryView {
            sessions: self.sessions.push(
                SessionView::fresh(self.next, pid, handle, created_at),
            ),
            next: self.next + 1,
        }
    }

    /// The registry after `message` has been delivered to the session `id`.
    /// A message for anything but a live session is dropped.
    pub open spec fn delivered(self, id: Seq<char>, message: Seq<char>) -> RegistryView {
        if self.contains(id) {
            self.with_session(id, self.session(id).received(message))
        } else {
            self
        }
    }

    /// The registry after `messages` have been delivered to the session
    /// `id`, one after the other.
    pub open spec fn delivered_all(self, id: Seq<char>, messages: Seq<Seq<char>>) -> RegistryView
        decreases messages.len(),
    {
        if messages.len() == 0 {
            self
        } else {
            self.delivered_all(id, messages.drop_last()).delivered(id, messages.last())
        }
    }

    /// The registry after a session has been registered that has the
    /// process, the connection and the creation time of `s`.
    pub open spec fn extended_by(self, s: SessionView) -> RegistryView {
        self.registered(s.pid, s.handle, s.created_at)
    }

    /// The registry after one session has been registered for each of
    /// `targets` in turn: a process id, the engine's connection to it, and
    /// the time of the registration.
    pub open spec fn registered_all(self, targets: Seq<(u32, u64, u64)>) -> RegistryView
        decreases targets.len(),
    {
        if targets.len() == 0 {
            self
        } else {
            self.registered_all(targets.drop_last()).registered(
                targets.last().0,
                targets.last().1,
                targets.last().2,
            )
        }
    }

    /// The registry after the messages of `batch` have been delivered, one
    /// after the other, each to the session that it names.
    pub open spec fn delivered_batch(self, batch: Seq<(Seq<char>, Seq<char>)>) -> RegistryView
        decreases batch.len(),
    {
        if batch.len() == 0 {
            self
        } else {
            self.delivered_batch(batch.drop_last()).delivered(batch.last().0, batch.last().1)
        }
    }

    /// The registry after `script` has been loaded for the session `id`.
    pub open spec fn script_loaded(self, id: Seq<char>, script: u64) -> RegistryView
        recommends
            self.contains(id),
    {
        self.with_session(id, self.session(id).script_loaded(script))
    }

    /// The registry after the target of the session `id` has been resumed.
    pub open spec fn resumed(self, id: Seq<char>) -> RegistryView
        recommends
            self.contains(id),
    {
        self.with_session(id, self.session(id).resumed())
    }

    /// The registry after the session `id` has been destroyed. Destroying
    /// what is not a live session changes nothing.
    pub open spec fn destroyed(self, id: Seq<char>) -> RegistryView {
        if self.contains(id) {
            RegistryView { sessions: self.sessions.remove(self.position(id)->0), ..self }
        } else {
            self
        }
    }

    /// The line that stands for `s` in a listing.
    pub open spec fn entry_of(s: SessionView) -> ListingEntry {
        (session_id_text(s.number), s.pid, s.state.active())
    }

    /// The listing of the registry: one line per live session, oldest first.
    pub open spec fn listing(self) -> Seq<ListingEntry> {
        self.sessions.map_values(|s: SessionView| Self::entry_of(s))
    }

    /// The position of the oldest active session attached to `pid`.
    pub open spec fn first_for_pid(self, pid: u32) -> Option<int> {
        if exists|i: int| self.is_first_for_pid(pid, i) {
            Some(choose|i: int| self.is_first_for_pid(pid, i))
        } else {
            None
        }
    }

    /// Whether position `i` holds the oldest active session attached to
    /// `pid`.
    pub open spec fn is_first_for_pid(self, pid: u32, i: int) -> bool {
        &&& 0 <= i < self.sessions.len()
        &&& self.sessions[i].pid == pid
        &&& self.sessions[i].state.active()
        &&& forall|j: int|
            0 <= j < i ==> !((#[trigger] self.sessions[j]).pid == pid
                && self.sessions[j].state.active())
    }

    /// In a well-formed registry a sequence number stands at one position at
    /// most.
    pub proof fn lemma_index_of(self, n: nat, i: int)
        requires
            self.wf(),
            self.has_number_at(n, i),
        ensures
            self.index_of(n) == Some(i),
    {
        let c = choose|c: int| self.has_number_at(n, c);
        if c < i {
            assert(self.sessions[c].number < self.sessions[i].number);
        } else if i < c {
            assert(self.sessions[i].number < self.sessions[c].number);
        }
    }

    /// The position of an identifier is the one place where its number
    /// stands.
    pub proof fn lemma_position(self, id: Seq<char>, i: int)
        requires
            self.wf(),
            0 <= i < self.sessions.len(),
            session_id_text(self.sessions[i].number) == id,
        ensures
            self.position(id) == Some(i),
    {
        lemma_session_number_of_text(self.sessions[i].number);
        self.lemma_index_of(self.sessions[i].number, i);
    }

    /// What a position says: the session there carries the number that the
    /// identifier names.
    pub proof fn lemma_position_valid(self, id: Seq<char>)
        requires
            self.contains(id),
        ensures
            0 <= self.position(id)->0 < self.sessions.len(),
            session_number(id) == Some(self.session(id).number),
            session_id_text(self.session(id).number) == id,
    {
        let n = session_number(id)->0;
        let i = choose|i: int| self.has_number_at(n, i);
        assert(self.has_number_at(n, i));
        lemma_text_of_session_number(id);
    }

    /// Every live session was issued.
    pub proof fn lemma_contained_was_issued(self, id: Seq<char>)
        requires
            self.wf(),
            self.contains(id),
        ensures
            self.was_issued(id),
            self.state_of(id) is Some,
            self.state_of(id)->0.active(),
    {
        self.lemma_position_valid(id);
    }

    /// Registering keeps the registry well formed, makes the new identifier
    /// name the new session, and leaves every other identifier as it was.
    pub proof fn lemma_registered(self, pid: u32, handle: u64, created_at: u64)
        requires
            self.wf(),
            self.next < u32::MAX,
        ensures
            self.registered(pid, handle, created_at).wf(),
            !self.contains(self.next_id()),
            !self.was_issued(self.next_id()),
            self.registered(pid, handle, created_at).position(self.next_id()) == Some(
                self.sessions.len() as int,
            ),
            self.registered(pid, handle, created_at).session(self.next_id())
                == SessionView::fresh(self.next, pid, handle, created_at),
            forall|id: Seq<char>|
                id != self.next_id() ==> #[trigger] self.registered(
                    pid,
                    handle,
                    created_at,
                ).position(id) == self.position(id),
            forall|id: Seq<char>|
                id != self.next_id() ==> #[trigger] self.registered(
                    pid,
                    handle,
                    created_at,
                ).state_of(id) == self.state_of(id),
    {
        let after = self.registered(pid, handle, created_at);
        let len = self.sessions.len() as int;
        lemma_session_number_of_text(self.next);
        assert(after.wf());
        assert(forall|i: int| !self.has_number_at(self.next, i));
        assert(after.has_number_at(self.next, len));
        after.lemma_index_of(self.next, len);
        assert forall|id: Seq<char>| id != self.next_id() implies #[trigger] after.position(id)
            == self.position(id) by {
            match session_number(id) {
                Some(n) => {
                    if n == self.next {
                        lemma_text_of_session_number(id);
                    }
                    if exists|i: int| self.has_number_at(n, i) {
                        let i = choose|i: int| self.has_number_at(n, i);
                        assert(after.has_number_at(n, i));
                        after.lemma_index_of(n, i);
                    } else {
                        assert forall|i: int| !after.has_number_at(n, i) by {
                            if after.has_number_at(n, i) {
                                assert(i < len);
                                assert(self.has_number_at(n, i));
                            }
                        }
                    }
                },
                None => {},
            }
        }
        assert forall|id: Seq<char>| id != self.next_id() implies #[trigger] after.state_of(id)
            == self.state_of(id) by {
            assert(after.position(id) == self.position(id));
            if self.contains(id) {
                self.lemma_position_valid(id);
            } else {
                match session_number(id) {
                    Some(n) => {
                        if n == self.next {
                            lemma_text_of_session_number(id);
                        }
                    },
                    None => {},
                }
            }
        }
    }

    /// Replacing a session by one with the same number keeps the registry
    /// well formed and moves no identifier; seen from one other identifier.
    pub proof fn lemma_with_session_at(self, id: Seq<char>, s: SessionView, other: Seq<char>)
        requires
            self.wf(),
            self.contains(id),
            s.number == self.session(id).number,
            s.state.active(),
        ensures
            self.with_session(id, s).wf(),
            self.with_session(id, s).position(other) == self.position(other),
            self.with_session(id, s).was_issued(other) == self.was_issued(other),
            self.with_session(id, s).session(id) == s,
            other != id ==> self.with_session(id, s).state_of(other) == self.state_of(other),
            other != id ==> self.with_session(id, s).messages(other) == self.messages(other),
            other != id ==> self.with_session(id, s).pid_of(other) == self.pid_of(other),
    {
        let after = self.with_session(id, s);
        self.lemma_position_valid(id);
        let at = self.position(id)->0;
        assert forall|i: int| 0 <= i < after.sessions.len() implies (
        #[trigger] after.sessions[i]).number == self.sessions[i].number by {}
        assert(after.wf());
        match session_number(other) {
            Some(n) => {
                if exists|i: int| self.has_number_at(n, i) {
                    let i = choose|i: int| self.has_number_at(n, i);
                    assert(after.has_number_at(n, i));
                    after.lemma_index_of(n, i);
                } else {
                    assert forall|i: int| !after.has_number_at(n, i) by {
                        if after.has_number_at(n, i) {
                            assert(self.has_number_at(n, i));
                        }
                    }
                }
            },
            None => {},
        }
        assert(after.has_number_at(s.number, at));
        after.lemma_index_of(s.number, at);
        if other != id && self.contains(other) {
            self.lemma_position_valid(other);
            assert(self.position(other)->0 != at);
        }
    }

    /// Replacing a session by one with the same number keeps the registry
    /// well formed and leaves every other identifier as it was.
    pub proof fn lemma_with_session(self, id: Seq<char>, s: SessionView)
        requires
            self.wf(),
            self.contains(id),
            s.number == self.session(id).number,
            s.state.active(),
        ensures
            self.with_session(id, s).wf(),
            self.with_session(id, s).contains(id),
            self.with_session(id, s).session(id) == s,
            forall|other: Seq<char>|
                other != id ==> #[trigger] self.with_session(id, s).state_of(other)
                    == self.state_of(other),
            forall|other: Seq<char>|
                other != id ==> #[trigger] self.with_session(id, s).messages(other)
                    == self.messages(other),
            forall|other: Seq<char>|
                other != id ==> #[trigger] self.with_session(id, s).pid_of(other) == self.pid_of(
                    other,
                ),
    {
        let after = self.with_session(id, s);
        self.lemma_with_session_at(id, s, id);
        assert forall|other: Seq<char>| other != id implies #[trigger] after.state_of(other)
            == self.state_of(other) by {
            self.lemma_with_session_at(id, s, other);
        }
        assert forall|other: Seq<char>| other != id implies #[trigger] after.messages(other)
            == self.messages(other) by {
            self.lemma_with_session_at(id, s, other);
        }
        assert forall|other: Seq<char>| other != id implies #[trigger] after.pid_of(other)
            == self.pid_of(other) by {
            self.lemma_with_session_at(id, s, other);
        }
    }

    /// Destroying a live session keeps the registry well formed and turns
    /// its identifier into that of a destroyed session; seen from one other
    /// identifier, nothing changes.
    pub proof fn lemma_destroyed_at(self, id: Seq<char>, other: Seq<char>)
        requires
            self.wf(),
            self.contains(id),
        ensures
            self.destroyed(id).wf(),
            self.destroyed(id).sessions.len() == self.sessions.len() - 1,
            !self.destroyed(id).contains(id),
            self.destroyed(id).state_of(id) == Some(SessionState::Destroyed),
            other != id ==> self.destroyed(id).contains(other) == self.contains(other),
            other != id ==> self.destroyed(id).state_of(other) == self.state_of(other),
            other != id ==> self.destroyed(id).messages(other) == self.messages(other),
            other != id ==> self.destroyed(id).pid_of(other) == self.pid_of(other),
    {
        let after = self.destroyed(id);
        self.lemma_position_valid(id);
        self.lemma_contained_was_issued(id);
        let at = self.position(id)->0;
        let gone = self.sessions[at].number;
        assert forall|i: int| 0 <= i < after.sessions.len() implies #[trigger] after.sessions[i]
            == (if i < at {
            self.sessions[i]
        } else {
            self.sessions[i + 1]
        }) by {}
        assert(after.wf()) by {
            assert forall|i: int, j: int| 0 <= i < j < after.sessions.len() implies (
            #[trigger] after.sessions[i]).number < (#[trigger] after.sessions[j]).number by {
                let si = if i < at { i } else { i + 1 };
                let sj = if j < at { j } else { j + 1 };
                assert(self.sessions[si].number < self.sessions[sj].number);
            }
        }
        assert forall|i: int| !after.has_number_at(gone, i) by {
            if after.has_number_at(gone, i) {
                let si = if i < at { i } else { i + 1 };
                assert(self.has_number_at(gone, si));
                self.lemma_index_of(gone, si);
            }
        }
        if other != id {
            match session_number(other) {
                Some(n) => {
                    if n == gone {
                        lemma_text_of_session_number(other);
                    }
                    if exists|i: int| self.has_number_at(n, i) {
                        let i = choose|i: int| self.has_number_at(n, i);
                        self.lemma_index_of(n, i);
                        assert(i != at);
                        let ai = if i < at { i } else { i - 1 };
                        assert(after.has_number_at(n, ai));
                        after.lemma_index_of(n, ai);
                    } else {
                        assert forall|i: int| !after.has_number_at(n, i) by {
                            if after.has_number_at(n, i) {
                                let si = if i < at { i } else { i + 1 };
                                assert(self.has_number_at(n, si));
                            }
                        }
                    }
                },
                None => {},
            }
        }
    }

    /// Destroying a live session keeps the registry well formed, turns its
    /// identifier into that of a destroyed session, and leaves every other
    /// identifier as it was.
    pub proof fn lemma_destroyed(self, id: Seq<char>)
        requires
            self.wf(),
            self.contains(id),
        ensures
            self.destroyed(id).wf(),
            self.destroyed(id).sessions.len() == self.sessions.len() - 1,
            !self.destroyed(id).contains(id),
            self.destroyed(id).state_of(id) == Some(SessionState::Destroyed),
            forall|other: Seq<char>|
                other != id ==> #[trigger] self.destroyed(id).state_of(other) == self.state_of(
                    other,
                ),
            forall|other: Seq<char>|
                other != id ==> #[trigger] self.destroyed(id).messages(other) == self.messages(
                    other,
                ),
            forall|other: Seq<char>|
                other != id ==> #[trigger] self.destroyed(id).pid_of(other) == self.pid_of(other),
    {
        let after = self.destroyed(id);
        self.lemma_destroyed_at(id, id);
        assert forall|other: Seq<char>| other != id implies #[trigger] after.state_of(other)
            == self.state_of(other) by {
            self.lemma_destroyed_at(id, other);
        }
        assert forall|other: Seq<char>| other != id implies #[trigger] after.messages(other)
            == self.messages(other) by {
            self.lemma_destroyed_at(id, other);
        }
        assert forall|other: Seq<char>| other != id implies #[trigger] after.pid_of(other)
            == self.pid_of(other) by {
            self.lemma_destroyed_at(id, other);
        }
    }
}

} // verus!
