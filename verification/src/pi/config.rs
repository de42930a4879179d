//! The configuration of an agent invocation.

use crate::text::opt_text;
use vstd::prelude::*;
use vstd::string::StringExecFns;

verus! {

/// How the agent executable is to be invoked.
pub struct PiConfig {
    /// Execution profile (model) identifier.
    pub model: String,
    /// Reasoning-effort tier.
    pub thinking: String,
    /// System prompt text.
    pub system_prompt: String,
    /// Provider identifier.
    pub provider: String,
}

/// The mathematical value of a [`PiConfig`]: its four texts.
pub ghost struct ConfigView {
    pub model: Seq<char>,
    pub thinking: Seq<char>,
    pub system_prompt: Seq<char>,
    pub provider: Seq<char>,
}

impl View for PiConfig {
    type V = ConfigView;

    open spec fn view(&self) -> ConfigView {
        ConfigView {
            model: self.model@,
            thinking: self.thinking@,
            system_prompt: self.system_prompt@,
            provider: self.provider@,
        }
    }
}

/// The built-in system prompt.
pub open spec fn default_system_prompt_text() -> Seq<char> {
    r#"You are a coding agent based on GPT-5-Codex.

## Editing constraints
- Default to ASCII when editing or creating files. Only introduce non-ASCII or other Unicode characters when there is a clear justification and the file already uses them.
- Add succinct code comments that explain what is going on if code is not self-explanatory.
- You may be in a dirty git worktree.
  * NEVER revert existing changes you did not make unless explicitly requested.
  * If asked to make a commit or code edits and there are unrelated changes, don't revert them.
- Do not amend a commit unless explicitly requested to do so.
- **NEVER** use destructive commands like `git reset --hard` unless specifically requested.

## Exploration and reading files
- **Think first.** Before any tool call, decide ALL files/resources you will need.
- **Batch everything.** If you need multiple files, read them together.
- Use parallel tool calls when possible.
- Only make sequential calls if you truly cannot know the next file without seeing a result first.
- Always maximize parallelism.

## Tool use
- You have access to tools. If a tool exists to perform a specific task, you MUST use that tool instead of running a terminal command.
- Use the `bash` tool to run terminal commands.
- Use the `read` tool to read files.
- Use the `edit` tool to make edits to files.
- Use `grep` to search for strings in files.
- Use `find` or `ls` to list files and directories.

## Presenting your work
- Default: be very concise; friendly coding teammate tone.
- For substantial work, summarize clearly.
- For code changes: Lead with a quick explanation, then details on where and why.
- Use proper Markdown formatting.

## Final answer structure
- Markdown text. Use structure only when it helps scanability.
- Bullets: use - ; merge related points; keep to one line when possible.
- Code samples wrapped in fenced code blocks with language hints.
- Tone: collaborative, concise, factual; present tense, active voice.
"#@
}

/// The built-in configuration.
pub open spec fn builtin_config() -> ConfigView {
    ConfigView {
        model: "gpt-5.2-codex"@,
        thinking: "xhigh"@,
        system_prompt: default_system_prompt_text(),
        provider: "github-copilot"@,
    }
}

/// `base` with each supplied field written over it.
pub open spec fn merged_config(
    base: ConfigView,
    model: Option<Seq<char>>,
    thinking: Option<Seq<char>>,
    system_prompt: Option<Seq<char>>,
    provider: Option<Seq<char>>,
) -> ConfigView {
    ConfigView {
        model: match model {
            Some(m) => m,
            None => base.model,
        },
        thinking: match thinking {
            Some(t) => t,
            None => base.thinking,
        },
        system_prompt: match system_prompt {
            Some(s) => s,
            None => base.system_prompt,
        },
        provider: match provider {
            Some(p) => p,
            None => base.provider,
        },
    }
}

impl Default for PiConfig {
    fn default() -> (r: Self)
        ensures
            r@ == builtin_config(),
    {
        PiConfig {
            model: String::from_str("gpt-5.2-codex"),
            thinking: String::from_str("xhigh"),
            system_prompt: PiConfig::default_system_prompt(),
            provider: String::from_str("github-copilot"),
        }
    }
}

impl Clone for PiConfig {
    fn clone(&self) -> (r: Self)
        ensures
            r@ == self@,
    {
        PiConfig {
            model: self.model.clone(),
            thinking: self.thinking.clone(),
            system_prompt: self.system_prompt.clone(),
            provider: self.provider.clone(),
        }
    }
}

impl PiConfig {
    /// The built-in system prompt.
    pub fn default_system_prompt() -> (r: String)
        ensures
            r@ == default_system_prompt_text(),
    {
        String::from_str(r#"You are a coding agent based on GPT-5-Codex.

## Editing constraints
- Default to ASCII when editing or creating files. Only introduce non-ASCII or other Unicode characters when there is a clear justification and the file already uses them.
- Add succinct code comments that explain what is going on if code is not self-explanatory.
- You may be in a dirty git worktree.
  * NEVER revert existing changes you did not make unless explicitly requested.
  * If asked to make a commit or code edits and there are unrelated changes, don't revert them.
- Do not amend a commit unless explicitly requested to do so.
- **NEVER** use destructive commands like `git reset --hard` unless specifically requested.

## Exploration and reading files
- **Think first.** Before any tool call, decide ALL files/resources you will need.
- **Batch everything.** If you need multiple files, read them together.
- Use parallel tool calls when possible.
- Only make sequential calls if you truly cannot know the next file without seeing a result first.
- Always maximize parallelism.

## Tool use
- You have access to tools. If a tool exists to perform a specific task, you MUST use that tool instead of running a terminal command.
- Use the `bash` tool to run terminal commands.
- Use the `read` tool to read files.
- Use the `edit` tool to make edits to files.
- Use `grep` to search for strings in files.
- Use `find` or `ls` to list files and directories.

## Presenting your work
- Default: be very concise; friendly coding teammate tone.
- For substantial work, summarize clearly.
- For code changes: Lead with a quick explanation, then details on where and why.
- Use proper Markdown formatting.

## Final answer structure
- Markdown text. Use structure only when it helps scanability.
- Bullets: use - ; merge related points; keep to one line when possible.
- Code samples wrapped in fenced code blocks with language hints.
- Tone: collaborative, concise, factual; present tense, active voice.
"#)
    }

    /// A copy of `self` in which only the supplied fields are overwritten.
    pub fn merged(
        &self,
        model: Option<&str>,
        thinking: Option<&str>,
        system_prompt: Option<&str>,
        provider: Option<&str>,
    ) -> (r: PiConfig)
        ensures
            r@ == merged_config(
                self@,
                opt_text(model),
                opt_text(thinking),
                opt_text(system_prompt),
                opt_text(provider),
            ),
    {
        PiConfig {
            model: match model {
                Some(m) => String::from_str(m),
                None => self.model.clone(),
            },
            thinking: match thinking {
                Some(t) => String::from_str(t),
                None => self.thinking.clone(),
            },
            system_prompt: match system_prompt {
                Some(s) => String::from_str(s),
                None => self.system_prompt.clone(),
            },
            provider: match provider {
                Some(p) => String::from_str(p),
                None => self.provider.clone(),
            },
        }
    }
}

} // verus!
