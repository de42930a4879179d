//! The command surface over the registry: each command answers with a
//! value or with the text of the error.

use crate::pi::config::{merged_config, ConfigView};
use crate::pi::manager::{start_view, PiManager};
use crate::pi::models::{lossy_text, model_names};
use crate::pi::session::{error_text, ErrorView};
use crate::text::opt_text;
use vstd::prelude::*;

verus! {

/// A configuration as it is handed to the caller of a command.
#[derive(Clone, Debug)]
pub struct PiConfigDto {
    pub model: String,
    pub thinking: String,
    pub system_prompt: String,
    pub provider: String,
}

impl View for PiConfigDto {
    type V = ConfigView;

    open spec fn view(&self) -> ConfigView {
        ConfigView {
            model: self.model@,
            thinking: self.thinking@,
            system_prompt: self.system_prompt@,
            provider: self.provider@,
        }
    }
}

/// A unit result as a command reports it: `true`, or the text of the error.
pub open spec fn reported(r: Result<(), ErrorView>) -> Result<bool, Seq<char>> {
    match r {
        Ok(_) => Ok(true),
        Err(e) => Err(error_text(e)),
    }
}

/// A command's answer with its error text taken by its view.
pub open spec fn answer<T>(r: Result<T, String>) -> Result<T, Seq<char>> {
    match r {
        Ok(v) => Ok(v),
        Err(e) => Err(e@),
    }
}

/// The names in the output of a listing run, or the text of the failure.
pub fn pi_list_models(manager: &PiManager, ran: Result<Vec<u8>, String>) -> (r: Result<
    Vec<String>,
    String,
>)
    ensures
        match ran {
            Ok(stdout) => r.is_ok() && r->Ok_0.deep_view() == model_names(lossy_text(stdout@)),
            Err(cause) => r.is_err() && r->Err_0@ == cause@,
        },
{
    match manager.list_models(ran) {
        Ok(names) => Ok(names),
        Err(e) => Err(e.message()),
    }
}

/// The default configuration.
pub fn pi_get_config(manager: &PiManager) -> (r: Result<PiConfigDto, String>)
    ensures
        r.is_ok(),
        r->Ok_0@ == manager@.default_config,
{
    let config = manager.get_config();
    Ok(
        PiConfigDto {
            model: config.model,
            thinking: config.thinking,
            system_prompt: config.system_prompt,
            provider: config.provider,
        },
    )
}

/// Overwrites the supplied fields of the default configuration and leaves
/// the others, and every session, as they were.
pub fn pi_update_config(
    manager: &mut PiManager,
    model: Option<&str>,
    thinking: Option<&str>,
    system_prompt: Option<&str>,
    provider: Option<&str>,
) -> (r: Result<bool, String>)
    ensures
        r == Ok::<bool, String>(true),
        final(manager)@ == old(manager)@.with_default(
            merged_config(
                old(manager)@.default_config,
                opt_text(model),
                opt_text(thinking),
                opt_text(system_prompt),
                opt_text(provider),
            ),
        ),
{
    let config = manager.get_config().merged(model, thinking, system_prompt, provider);
    manager.update_config(config);
    Ok(true)
}

/// Records how starting the process of a session went.
pub fn pi_run_session(manager: &mut PiManager, session_id: &str, started: Result<u64, String>) -> (r:
    Result<bool, String>)
    ensures
        answer(r) == reported(old(manager)@.run_result(session_id@, start_view(started))),
        final(manager)@ == old(manager)@.ran(session_id@, start_view(started)),
{
    match manager.run(session_id, started) {
        Ok(_) => Ok(true),
        Err(e) => Err(e.message()),
    }
}

/// Records that the process under `key` of a session has terminated.
pub fn pi_wait_session(manager: &mut PiManager, session_id: &str, key: u64) -> (r: Result<
    bool,
    String,
>)
    ensures
        answer(r) == (match old(manager)@.wait_target(session_id@) {
            Ok(_) => Ok::<bool, Seq<char>>(true),
            Err(e) => Err(error_text(e)),
        }),
        final(manager)@ == old(manager)@.reaped(session_id@, key),
{
    match manager.wait(session_id, key) {
        Ok(_) => Ok(true),
        Err(e) => Err(e.message()),
    }
}

/// The process to terminate for a session, if there is one to terminate.
/// An unknown session and a session without a live process are no error.
pub fn pi_kill_session(manager: &PiManager, session_id: &str) -> (r: Result<Option<u64>, String>)
    ensures
        r == Ok::<Option<u64>, String>(manager@.kill_target(session_id@)),
{
    Ok(manager.kill(session_id))
}

/// The log of a session as it stands.
pub fn pi_get_output(manager: &PiManager, session_id: &str) -> (r: Result<Vec<String>, String>)
    ensures
        r.is_ok(),
        r->Ok_0.deep_view() == manager@.output(session_id@),
{
    Ok(manager.output(session_id))
}

} // verus!
