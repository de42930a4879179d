//! Laws of the registry, stated over its mathematical value and the
//! transitions that the operations' contracts are written in.

use crate::pi::config::ConfigView;
use crate::pi::manager::ManagerView;
use crate::pi::session::{ErrorView, Liveness, SessionView};
use vstd::prelude::*;

verus! {

/// An identifier that is not registered has an empty log and is not
/// running; a wait on it, the command for it and the record of a start for
/// it all fail with `NotFound`, and there is nothing to terminate for it.
pub proof fn unregistered_is_inert(
    m: ManagerView,
    id: Seq<char>,
    prompt: Seq<char>,
    workdir: Seq<char>,
    credential: Option<Seq<char>>,
    started: Result<u64, Seq<char>>,
)
    requires
        !m.sessions.contains_key(id),
    ensures
        m.output(id) == Seq::<Seq<char>>::empty(),
        !m.running(id),
        m.wait_target(id) == Err::<u64, ErrorView>(ErrorView::NotFound),
        m.command(id, prompt, workdir, credential) is Err,
        m.command(id, prompt, workdir, credential)->Err_0 == ErrorView::NotFound,
        m.run_result(id, started) == Err::<(), ErrorView>(ErrorView::NotFound),
        m.ran(id, started) == m,
        m.kill_target(id) is None,
{
}

/// A session registered without a configuration holds the default of the
/// moment of its registration, and keeps it when the default is replaced
/// afterwards.
pub proof fn creation_copies_default(m: ManagerView, id: Seq<char>, later: ConfigView)
    ensures
        m.created(id, None).session_config(id) == Some(m.default_config),
        m.created(id, None).with_default(later).session_config(id) == Some(m.default_config),
{
}

/// A registered session runs once a process was started for it, and no
/// longer once that process was waited for.
pub proof fn running_from_spawn_to_wait(m: ManagerView, id: Seq<char>, key: u64)
    requires
        m.sessions.contains_key(id),
    ensures
        m.run_result(id, Ok(key)) == Ok::<(), ErrorView>(()),
        m.ran(id, Ok(key)).running(id),
        m.ran(id, Ok(key)).wait_target(id) == Ok::<u64, ErrorView>(key),
        !m.ran(id, Ok(key)).reaped(id, key).running(id),
{
}

/// Two lines printed one after the other by the session's process stand at
/// the end of its log in that order.
pub proof fn output_keeps_order(
    m: ManagerView,
    id: Seq<char>,
    key: u64,
    first: Seq<char>,
    second: Seq<char>,
)
    requires
        m.owns(id, key),
    ensures
        m.logged(id, key, first).logged(id, key, second).output(id) == m.output(id).push(
            first,
        ).push(second),
{
}

/// Recording output changes the log of no other session, and changes
/// nothing but the log of the session itself.
pub proof fn output_is_local(m: ManagerView, id: Seq<char>, key: u64, line: Seq<char>, other: Seq<char>)
    requires
        other != id,
    ensures
        m.logged(id, key, line).output(other) == m.output(other),
        m.logged(id, key, line).running(id) == m.running(id),
        m.logged(id, key, line).session_config(id) == m.session_config(id),
        m.logged(id, key, line).default_config == m.default_config,
{
}

/// A log only grows: recording a line keeps what the log held in front of
/// it, and no other event on a registered session touches its log.
pub proof fn log_only_grows(
    m: ManagerView,
    id: Seq<char>,
    key: u64,
    line: Seq<char>,
    started: Result<u64, Seq<char>>,
    probe: Liveness,
    config: ConfigView,
)
    ensures
        m.output(id).is_prefix_of(m.logged(id, key, line).output(id)),
        m.ran(id, started).output(id) == m.output(id),
        m.reaped(id, key).output(id) == m.output(id),
        m.probed(id, key, probe).output(id) == m.output(id),
        m.with_default(config).output(id) == m.output(id),
{
}

/// No event moves a session away from its identifier: where every session
/// stands under its own identifier, it still does after any event.
pub proof fn identifiers_are_kept(
    m: ManagerView,
    id: Seq<char>,
    key: u64,
    line: Seq<char>,
    started: Result<u64, Seq<char>>,
    probe: Liveness,
    config: Option<ConfigView>,
    default: ConfigView,
)
    requires
        m.keyed(),
    ensures
        ManagerView::initial().keyed(),
        m.created(id, config).keyed(),
        m.with_default(default).keyed(),
        m.ran(id, started).keyed(),
        m.reaped(id, key).keyed(),
        m.probed(id, key, probe).keyed(),
        m.logged(id, key, line).keyed(),
{
}

/// For a session that is not running, whether it never had a process or
/// its process has exited, there is nothing to terminate.
pub proof fn kill_without_process(m: ManagerView, id: Seq<char>)
    requires
        !m.running(id),
    ensures
        m.kill_target(id) is None,
{
}

/// Registering under an identifier that is in use replaces the session:
/// whatever the earlier session held, the identifier now gives the new
/// configuration, an empty log and no process.
pub proof fn registration_replaces(m: ManagerView, id: Seq<char>, config: Option<ConfigView>)
    ensures
        m.created(id, config).sessions.contains_key(id),
        m.created(id, config).sessions[id] == SessionView::fresh(
            id,
            match config {
                Some(c) => c,
                None => m.default_config,
            },
        ),
        m.created(id, config).output(id) == Seq::<Seq<char>>::empty(),
        !m.created(id, config).running(id),
{
}

/// Registering a session leaves every other session as it was.
pub proof fn registration_is_local(
    m: ManagerView,
    id: Seq<char>,
    config: Option<ConfigView>,
    other: Seq<char>,
)
    requires
        other != id,
    ensures
        m.created(id, config).sessions.contains_key(other) == m.sessions.contains_key(other),
        m.sessions.contains_key(other) ==> m.created(id, config).sessions[other]
            == m.sessions[other],
{
}

} // verus!
