//! The registry: sessions by identifier, and the default configuration.

use crate::pi::config::{builtin_config, ConfigView, PiConfig};
use crate::pi::session::{
    session_command, ErrorView, Invocation, InvocationView, Liveness, PiError, PiSession,
    SessionView,
};
use crate::text::opt_text;
use vstd::prelude::*;
use vstd::string::StringExecFns;

verus! {

/// The registry of sessions and the default configuration.
///
/// The sessions are kept in a vector in which no identifier occurs twice,
/// which is the type's invariant; its mathematical value is a map from
/// identifier to session.
pub struct PiManager {
    sessions: Vec<PiSession>,
    default_config: PiConfig,
}

/// The mathematical value of a [`PiManager`].
pub ghost struct ManagerView {
    pub sessions: Map<Seq<char>, SessionView>,
    pub default_config: ConfigView,
}

/// The view of an optional configuration.
pub open spec fn opt_config(config: Option<PiConfig>) -> Option<ConfigView> {
    match config {
        Some(c) => Some(c@),
        None => None,
    }
}

/// A result with its error taken by its view.
pub open spec fn outcome<T>(r: Result<T, PiError>) -> Result<T, ErrorView> {
    match r {
        Ok(v) => Ok(v),
        Err(e) => Err(e@),
    }
}

/// The outcome of starting a process, with the cause of a failure as text.
pub open spec fn start_view(started: Result<u64, String>) -> Result<u64, Seq<char>> {
    match started {
        Ok(key) => Ok(key),
        Err(cause) => Err(cause@),
    }
}

impl ManagerView {
    /// A registry without sessions, under the built-in configuration.
    pub open spec fn initial() -> ManagerView {
        ManagerView { sessions: Map::empty(), default_config: builtin_config() }
    }

    /// Every session stands under its own identifier.
    pub open spec fn keyed(self) -> bool {
        forall|id: Seq<char>|
            self.sessions.contains_key(id) ==> (#[trigger] self.sessions[id]).id == id
    }

    /// The registry with `session` stored under `id`.
    pub open spec fn with_session(self, id: Seq<char>, session: SessionView) -> ManagerView {
        ManagerView {
            sessions: self.sessions.insert(id, session),
            default_config: self.default_config,
        }
    }

    /// The registry after a session was registered under `id`, with `config`
    /// or, where none is given, with the default of that moment.
    pub open spec fn created(self, id: Seq<char>, config: Option<ConfigView>) -> ManagerView {
        self.with_session(
            id,
            SessionView::fresh(
                id,
                match config {
                    Some(c) => c,
                    None => self.default_config,
                },
            ),
        )
    }

    /// The registry with `config` as its default; no session changes.
    pub open spec fn with_default(self, config: ConfigView) -> ManagerView {
        ManagerView { sessions: self.sessions, default_config: config }
    }

    /// The registry after starting a process for `id` went as `started` says.
    pub open spec fn ran(self, id: Seq<char>, started: Result<u64, Seq<char>>) -> ManagerView {
        match started {
            Ok(key) => if self.sessions.contains_key(id) {
                self.with_session(id, self.sessions[id].spawned(key))
            } else {
                self
            },
            Err(_) => self,
        }
    }

    /// What recording the start of a process for `id` returns.
    pub open spec fn run_result(self, id: Seq<char>, started: Result<u64, Seq<char>>) -> Result<
        (),
        ErrorView,
    > {
        if !self.sessions.contains_key(id) {
            Err(ErrorView::NotFound)
        } else {
            match started {
                Ok(_) => Ok(()),
                Err(cause) => Err(ErrorView::SpawnFailed(cause)),
            }
        }
    }

    /// The process that a wait on `id` awaits, or `NotFound` where the
    /// identifier is unknown or no process was ever started for it.
    pub open spec fn wait_target(self, id: Seq<char>) -> Result<u64, ErrorView> {
        if self.sessions.contains_key(id) {
            match self.sessions[id].process {
                Some(h) => Ok(h.key),
                None => Err(ErrorView::NotFound),
            }
        } else {
            Err(ErrorView::NotFound)
        }
    }

    /// The registry after the process under `key` of session `id` was seen
    /// to exit.
    pub open spec fn reaped(self, id: Seq<char>, key: u64) -> ManagerView {
        if self.sessions.contains_key(id) {
            self.with_session(id, self.sessions[id].reaped(key))
        } else {
            self
        }
    }

    /// The registry after a liveness probe of the process under `key` of
    /// session `id`.
    pub open spec fn probed(self, id: Seq<char>, key: u64, probe: Liveness) -> ManagerView {
        match probe {
            Liveness::Exited => self.reaped(id, key),
            _ => self,
        }
    }

    /// The registry after the process under `key` of session `id` printed
    /// `line`.
    pub open spec fn logged(self, id: Seq<char>, key: u64, line: Seq<char>) -> ManagerView {
        if self.sessions.contains_key(id) {
            self.with_session(id, self.sessions[id].logged(key, line))
        } else {
            self
        }
    }

    /// Whether session `id` exists and its process has not been seen to exit.
    pub open spec fn running(self, id: Seq<char>) -> bool {
        self.sessions.contains_key(id) && self.sessions[id].running()
    }

    /// Whether session `id` exists and its current process is kept under `key`.
    pub open spec fn owns(self, id: Seq<char>, key: u64) -> bool {
        self.sessions.contains_key(id) && self.sessions[id].owns(key)
    }

    /// The process to terminate for `id`, if any.
    pub open spec fn kill_target(self, id: Seq<char>) -> Option<u64> {
        if self.running(id) {
            Some(self.sessions[id].process->Some_0.key)
        } else {
            None
        }
    }

    /// The log of session `id`; empty where the identifier is unknown.
    pub open spec fn output(self, id: Seq<char>) -> Seq<Seq<char>> {
        if self.sessions.contains_key(id) {
            self.sessions[id].output
        } else {
            Seq::empty()
        }
    }

    /// The configuration of session `id`, if it is registered.
    pub open spec fn session_config(self, id: Seq<char>) -> Option<ConfigView> {
        if self.sessions.contains_key(id) {
            Some(self.sessions[id].config)
        } else {
            None
        }
    }

    /// The invocation that runs `prompt` in session `id`.
    pub open spec fn command(
        self,
        id: Seq<char>,
        prompt: Seq<char>,
        workdir: Seq<char>,
        credential: Option<Seq<char>>,
    ) -> Result<InvocationView, ErrorView> {
        if self.sessions.contains_key(id) {
            Ok(session_command(self.sessions[id].config, prompt, workdir, credential))
        } else {
            Err(ErrorView::NotFound)
        }
    }
}

/// The identifier of the entry at position `i`.
spec fn id_at(entries: Seq<PiSession>, i: int) -> Seq<char> {
    entries[i].id@
}

/// No identifier occurs twice.
spec fn distinct(entries: Seq<PiSession>) -> bool {
    forall|i: int, j: int|
        0 <= i < j < entries.len() ==> #[trigger] id_at(entries, i) != #[trigger] id_at(
            entries,
            j,
        )
}

/// Whether some entry carries `id`.
spec fn registered(entries: Seq<PiSession>, id: Seq<char>) -> bool {
    exists|i: int| 0 <= i < entries.len() && #[trigger] id_at(entries, i) == id
}

/// A position at which `id` stands.
spec fn slot(entries: Seq<PiSession>, id: Seq<char>) -> int {
    choose|i: int| 0 <= i < entries.len() && #[trigger] id_at(entries, i) == id
}

/// The map from identifier to session that the entries stand for.
spec fn session_map(entries: Seq<PiSession>) -> Map<Seq<char>, SessionView> {
    Map::new(|id: Seq<char>| registered(entries, id), |id: Seq<char>| entries[slot(entries, id)]@)
}

proof fn lemma_slot(entries: Seq<PiSession>, i: int)
    requires
        distinct(entries),
        0 <= i < entries.len(),
    ensures
        session_map(entries).contains_key(id_at(entries, i)),
        session_map(entries)[id_at(entries, i)] == entries[i]@,
{
    let id = id_at(entries, i);
    assert(registered(entries, id));
    let j = slot(entries, id);
    assert(0 <= j < entries.len() && id_at(entries, j) == id);
    assert(j == i);
}

proof fn lemma_absent(entries: Seq<PiSession>, id: Seq<char>)
    requires
        forall|i: int| 0 <= i < entries.len() ==> #[trigger] id_at(entries, i) != id,
    ensures
        !session_map(entries).contains_key(id),
{
}

proof fn lemma_replace(entries: Seq<PiSession>, i: int, s: PiSession)
    requires
        distinct(entries),
        0 <= i < entries.len(),
        s.id@ == id_at(entries, i),
    ensures
        distinct(entries.update(i, s)),
        session_map(entries.update(i, s)) == session_map(entries).insert(s.id@, s@),
{
    let after = entries.update(i, s);
    assert forall|a: int| 0 <= a < entries.len() implies #[trigger] id_at(after, a) == id_at(
        entries,
        a,
    ) by {}
    assert(distinct(after)) by {
        assert forall|a: int, b: int| 0 <= a < b < after.len() implies #[trigger] id_at(after, a)
            != #[trigger] id_at(after, b) by {
            assert(id_at(entries, a) != id_at(entries, b));
        }
    }
    let want = session_map(entries).insert(s.id@, s@);
    assert forall|k: Seq<char>| session_map(after).contains_key(k) <==> want.contains_key(k) by {
        if registered(after, k) {
            let j = slot(after, k);
            assert(id_at(entries, j) == k);
        }
        if registered(entries, k) {
            let j = slot(entries, k);
            assert(id_at(after, j) == k);
        }
        if k == s.id@ {
            assert(id_at(after, i) == k);
        }
    }
    assert forall|k: Seq<char>| session_map(after).contains_key(k) implies session_map(after)[k]
        == want[k] by {
        let j = slot(after, k);
        assert(0 <= j < after.len() && id_at(after, j) == k);
        lemma_slot(after, j);
        if k == s.id@ {
            lemma_slot(after, i);
        } else {
            assert(id_at(entries, j) == k);
            lemma_slot(entries, j);
        }
    }
    assert(session_map(after) =~= want);
}

proof fn lemma_append(entries: Seq<PiSession>, s: PiSession)
    requires
        distinct(entries),
        forall|i: int| 0 <= i < entries.len() ==> #[trigger] id_at(entries, i) != s.id@,
    ensures
        distinct(entries.push(s)),
        session_map(entries.push(s)) == session_map(entries).insert(s.id@, s@),
{
    let after = entries.push(s);
    let n = entries.len() as int;
    assert forall|a: int| 0 <= a < n implies #[trigger] id_at(after, a) == id_at(entries, a) by {}
    assert(id_at(after, n) == s.id@);
    assert(distinct(after)) by {
        assert forall|a: int, b: int| 0 <= a < b < after.len() implies #[trigger] id_at(after, a)
            != #[trigger] id_at(after, b) by {
            if b < n {
                assert(id_at(entries, a) != id_at(entries, b));
            } else {
                assert(id_at(entries, a) != s.id@);
            }
        }
    }
    let want = session_map(entries).insert(s.id@, s@);
    assert forall|k: Seq<char>| session_map(after).contains_key(k) <==> want.contains_key(k) by {
        if registered(after, k) {
            let j = slot(after, k);
            if j < n {
                assert(id_at(entries, j) == k);
            }
        }
        if registered(entries, k) {
            let j = slot(entries, k);
            assert(id_at(after, j) == k);
        }
        if k == s.id@ {
            assert(id_at(after, n) == k);
        }
    }
    assert forall|k: Seq<char>| session_map(after).contains_key(k) implies session_map(after)[k]
        == want[k] by {
        let j = slot(after, k);
        assert(0 <= j < after.len() && id_at(after, j) == k);
        lemma_slot(after, j);
        if k == s.id@ {
            lemma_slot(after, n);
        } else {
            assert(id_at(entries, j) == k);
            lemma_slot(entries, j);
        }
    }
    assert(session_map(after) =~= want);
}

impl View for PiManager {
    type V = ManagerView;

    closed spec fn view(&self) -> ManagerView {
        ManagerView {
            sessions: session_map(self.sessions@),
            default_config: self.default_config@,
        }
    }
}

/// The position of the entry that carries `id`.
fn position(sessions: &Vec<PiSession>, id: &str) -> (r: Option<usize>)
    requires
        distinct(sessions@),
    ensures
        match r {
            Some(i) => {
                &&& i < sessions.len()
                &&& sessions[i as int].id@ == id@
                &&& session_map(sessions@).contains_key(id@)
                &&& session_map(sessions@)[id@] == sessions[i as int]@
            },
            None => !session_map(sessions@).contains_key(id@),
        },
{
    let wanted = String::from_str(id);
    let mut i: usize = 0;
    while i < sessions.len()
        invariant
            distinct(sessions@),
            i <= sessions.len(),
            wanted@ == id@,
            forall|j: int| 0 <= j < i ==> #[trigger] id_at(sessions@, j) != id@,
        decreases sessions.len() - i,
    {
        if sessions[i].id == wanted {
            proof {
                lemma_slot(sessions@, i as int);
            }
            return Some(i);
        }
        i += 1;
    }
    proof {
        lemma_absent(sessions@, id@);
    }
    None
}

impl PiManager {
    /// No identifier is registered twice.
    #[verifier::type_invariant]
    spec fn inv(&self) -> bool {
        distinct(self.sessions@)
    }

    /// Every session of a registry stands under its own identifier.
    pub proof fn sessions_are_keyed(&self)
        ensures
            self@.keyed(),
    {
        assert forall|id: Seq<char>| self@.sessions.contains_key(id) implies (
        #[trigger] self@.sessions[id]).id == id by {
            assert(registered(self.sessions@, id));
            let i = slot(self.sessions@, id);
            assert(id_at(self.sessions@, i) == id);
        }
    }

    /// A registry without sessions, under the built-in configuration.
    pub fn new() -> (r: Self)
        ensures
            r@ == ManagerView::initial(),
    {
        let r = PiManager { sessions: Vec::new(), default_config: PiConfig::default() };
        assert(r@.sessions =~= Map::empty());
        r
    }

    /// Takes the sessions out, which leaves the registry without any.
    fn take_sessions(&mut self) -> (r: Vec<PiSession>)
        ensures
            r@ == old(self).sessions@,
            distinct(r@),
            final(self).default_config == old(self).default_config,
    {
        proof {
            use_type_invariant(&*self);
        }
        let mut sessions: Vec<PiSession> = Vec::new();
        std::mem::swap(&mut sessions, &mut self.sessions);
        sessions
    }

    /// Registers a session under `id`, with `config` or, where none is
    /// given, with a copy of the current default. An earlier session under
    /// the same identifier is replaced.
    pub fn create_session(&mut self, id: &str, config: Option<PiConfig>)
        ensures
            final(self)@ == old(self)@.created(id@, opt_config(config)),
    {
        let config = match config {
            Some(c) => c,
            None => self.default_config.clone(),
        };
        let session = PiSession::new(id, Some(config));
        let mut sessions = self.take_sessions();
        match position(&sessions, id) {
            Some(i) => {
                proof {
                    lemma_replace(sessions@, i as int, session);
                }
                sessions.set(i, session);
            },
            None => {
                proof {
                    lemma_absent_ids(sessions@, id@);
                    lemma_append(sessions@, session);
                }
                sessions.push(session);
            },
        }
        self.sessions = sessions;
    }

    /// Replaces the default configuration; registered sessions keep theirs.
    pub fn update_config(&mut self, config: PiConfig)
        ensures
            final(self)@ == old(self)@.with_default(config@),
    {
        proof {
            use_type_invariant(&*self);
        }
        self.default_config = config;
    }

    /// A copy of the default configuration.
    pub fn get_config(&self) -> (r: PiConfig)
        ensures
            r@ == self@.default_config,
    {
        self.default_config.clone()
    }

    /// The invocation that runs `prompt` in session `session_id`, or
    /// `NotFound` where no such session is registered.
    pub fn command(
        &self,
        session_id: &str,
        prompt: &str,
        workdir: &str,
        credential: Option<&str>,
    ) -> (r: Result<Invocation, PiError>)
        ensures
            match self@.command(session_id@, prompt@, workdir@, opt_text(credential)) {
                Ok(inv) => r.is_ok() && r->Ok_0@ == inv,
                Err(e) => r.is_err() && r->Err_0@ == e,
            },
    {
        proof {
            use_type_invariant(self);
        }
        match position(&self.sessions, session_id) {
            Some(i) => Ok(self.sessions[i].command(prompt, workdir, credential)),
            None => Err(PiError::NotFound),
        }
    }

    /// Records how starting the process of session `session_id` went.
    /// `NotFound` where no such session is registered; `SpawnFailed` with
    /// the cause where the start failed; otherwise the session holds the
    /// new process, kept by the driver under the given key.
    pub fn run(&mut self, session_id: &str, started: Result<u64, String>) -> (r: Result<
        (),
        PiError,
    >)
        ensures
            outcome(r) == old(self)@.run_result(session_id@, start_view(started)),
            final(self)@ == old(self)@.ran(session_id@, start_view(started)),
    {
        let mut sessions = self.take_sessions();
        let r = match position(&sessions, session_id) {
            Some(i) => {
                let ghost before = sessions@;
                let session = &mut sessions[i];
                let r = session.spawn(started);
                proof {
                    lemma_replace(before, i as int, sessions[i as int]);
                    assert(session_map(sessions@) =~= old(self)@.ran(
                        session_id@,
                        start_view(started),
                    ).sessions);
                }
                r
            },
            None => Err(PiError::NotFound),
        };
        self.sessions = sessions;
        r
    }

    /// The process that a wait on `session_id` has to await. `NotFound`
    /// where the identifier is unknown or no process was ever started.
    pub fn wait_target(&self, session_id: &str) -> (r: Result<u64, PiError>)
        ensures
            outcome(r) == self@.wait_target(session_id@),
    {
        proof {
            use_type_invariant(self);
        }
        match position(&self.sessions, session_id) {
            Some(i) => self.sessions[i].wait_target(),
            None => Err(PiError::NotFound),
        }
    }

    /// Records that the process under `key` of session `session_id` has
    /// terminated. `NotFound` where the identifier is unknown or no process
    /// was ever started; a key other than that of the session's current
    /// process changes nothing.
    pub fn wait(&mut self, session_id: &str, key: u64) -> (r: Result<(), PiError>)
        ensures
            r.is_ok() == old(self)@.wait_target(session_id@).is_ok(),
            r.is_err() ==> r->Err_0@ == ErrorView::NotFound,
            final(self)@ == old(self)@.reaped(session_id@, key),
    {
        let mut sessions = self.take_sessions();
        let r = match position(&sessions, session_id) {
            Some(i) => {
                let ghost before = sessions@;
                let session = &mut sessions[i];
                let r = session.wait(key);
                proof {
                    lemma_replace(before, i as int, sessions[i as int]);
                    assert(session_map(sessions@) =~= old(self)@.reaped(session_id@, key).sessions);
                }
                r
            },
            None => Err(PiError::NotFound),
        };
        self.sessions = sessions;
        r
    }

    /// The process to terminate for `session_id`: that of the session while
    /// it has not been seen to exit. An unknown identifier, a session
    /// without a process and an exited process all give none.
    pub fn kill(&self, session_id: &str) -> (r: Option<u64>)
        ensures
            r == self@.kill_target(session_id@),
    {
        proof {
            use_type_invariant(self);
        }
        match position(&self.sessions, session_id) {
            Some(i) => self.sessions[i].kill(),
            None => None,
        }
    }

    /// Records a liveness probe of the process under `key` of session
    /// `session_id` and tells whether the session is running afterwards.
    pub fn poll(&mut self, session_id: &str, key: u64, probe: Liveness) -> (r: bool)
        ensures
            final(self)@ == old(self)@.probed(session_id@, key, probe),
            r == final(self)@.running(session_id@),
    {
        let mut sessions = self.take_sessions();
        let r = match position(&sessions, session_id) {
            Some(i) => {
                let ghost before = sessions@;
                let session = &mut sessions[i];
                let r = session.poll(key, probe);
                proof {
                    lemma_replace(before, i as int, sessions[i as int]);
                    assert(session_map(sessions@) =~= old(self)@.probed(
                        session_id@,
                        key,
                        probe,
                    ).sessions);
                }
                r
            },
            None => false,
        };
        self.sessions = sessions;
        r
    }

    /// Whether session `session_id` has a process that has not been seen to
    /// exit; false for an unknown identifier.
    pub fn is_running(&self, session_id: &str) -> (r: bool)
        ensures
            r == self@.running(session_id@),
    {
        proof {
            use_type_invariant(self);
        }
        match position(&self.sessions, session_id) {
            Some(i) => self.sessions[i].is_running(),
            None => false,
        }
    }

    /// A copy of the log of session `session_id` as it stands; empty for an
    /// unknown identifier.
    pub fn output(&self, session_id: &str) -> (r: Vec<String>)
        ensures
            r.deep_view() == self@.output(session_id@),
    {
        proof {
            use_type_invariant(self);
        }
        match position(&self.sessions, session_id) {
            Some(i) => self.sessions[i].get_output(),
            None => {
                let r: Vec<String> = Vec::new();
                assert(r.deep_view() =~= Seq::empty());
                r
            },
        }
    }

    /// Appends `line` to the log of session `session_id` if it comes from
    /// the session's current process, the one kept under `key`, and tells
    /// whether it did.
    pub fn push_output(&mut self, session_id: &str, key: u64, line: String) -> (r: bool)
        ensures
            r == old(self)@.owns(session_id@, key),
            final(self)@ == old(self)@.logged(session_id@, key, line@),
    {
        let mut sessions = self.take_sessions();
        let r = match position(&sessions, session_id) {
            Some(i) => {
                let ghost before = sessions@;
                let session = &mut sessions[i];
                let r = session.push_output(key, line);
                proof {
                    lemma_replace(before, i as int, sessions[i as int]);
                    assert(session_map(sessions@) =~= old(self)@.logged(
                        session_id@,
                        key,
                        line@,
                    ).sessions);
                }
                r
            },
            None => false,
        };
        self.sessions = sessions;
        r
    }

    /// A copy of the configuration of session `session_id`, if registered.
    pub fn session_config(&self, session_id: &str) -> (r: Option<PiConfig>)
        ensures
            opt_config(r) == self@.session_config(session_id@),
    {
        proof {
            use_type_invariant(self);
        }
        match position(&self.sessions, session_id) {
            Some(i) => Some(self.sessions[i].config.clone()),
            None => None,
        }
    }
}

proof fn lemma_absent_ids(entries: Seq<PiSession>, id: Seq<char>)
    requires
        !session_map(entries).contains_key(id),
    ensures
        forall|i: int| 0 <= i < entries.len() ==> #[trigger] id_at(entries, i) != id,
{
}

} // verus!
