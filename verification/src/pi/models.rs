//! Model discovery: the listing run and the names in its output.

use crate::pi::manager::PiManager;
use crate::pi::session::{ErrorView, Invocation, InvocationView, PiError};
use crate::text::{chars_of, find, find_char};
use vstd::prelude::*;
use vstd::string::{StrSliceExecFns, StringExecFns};

verus! {

/// Where the line that starts at `from` and runs up to `end` stops once its
/// line ending is taken off: a carriage return goes only together with the
/// line feed that follows it.
pub open spec fn line_stop(text: Seq<char>, from: int, end: int) -> int {
    if from < end < text.len() && text[end - 1] == '\r' {
        end - 1
    } else {
        end
    }
}

/// The lines of `text` from position `from` on that are not empty, in order.
pub open spec fn names_from(text: Seq<char>, from: int) -> Seq<Seq<char>>
    decreases text.len() - from,
{
    let end = find_char(text, '\n', from, text.len() as int);
    if 0 <= from < text.len() && from <= end <= text.len() {
        let stop = line_stop(text, from, end);
        let rest = if end < text.len() {
            names_from(text, end + 1)
        } else {
            Seq::empty()
        };
        if from < stop {
            seq![text.subrange(from, stop)] + rest
        } else {
            rest
        }
    } else {
        Seq::empty()
    }
}

/// The names that a listing holds: its lines, without the empty ones, in
/// their order and with repetitions kept.
pub open spec fn model_names(text: Seq<char>) -> Seq<Seq<char>> {
    names_from(text, 0)
}

/// No name that a listing holds is empty.
pub proof fn names_are_not_empty(text: Seq<char>, from: int)
    ensures
        forall|i: int|
            0 <= i < names_from(text, from).len() ==> (#[trigger] names_from(text, from)[i]).len()
                > 0,
    decreases text.len() - from,
{
    let end = find_char(text, '\n', from, text.len() as int);
    if 0 <= from < text.len() && from <= end <= text.len() {
        let stop = line_stop(text, from, end);
        let rest = if end < text.len() {
            names_from(text, end + 1)
        } else {
            Seq::empty()
        };
        if end < text.len() {
            names_are_not_empty(text, end + 1);
        }
        let all = names_from(text, from);
        assert forall|i: int| 0 <= i < all.len() implies (#[trigger] all[i]).len() > 0 by {
            if from < stop {
                if i > 0 {
                    assert(all[i] == rest[i - 1]);
                }
            } else {
                assert(all[i] == rest[i]);
            }
        }
    }
}

/// Splits a listing into the names it holds.
pub fn parse_model_list(text: &str) -> (r: Vec<String>)
    ensures
        r.deep_view() == model_names(text@),
{
    let chars = chars_of(text);
    let n = chars.len();
    let mut out: Vec<String> = Vec::new();
    let mut pos: usize = 0;
    assert(out.deep_view() =~= Seq::empty());
    while pos < n
        invariant
            chars@ == text@,
            n == chars.len(),
            pos <= n,
            out.deep_view() + names_from(text@, pos as int) == model_names(text@),
        decreases n - pos,
    {
        let end = find(&chars, '\n', pos, n);
        let mut stop: usize = end;
        if pos < end && end < n && chars[end - 1] == '\r' {
            stop = end - 1;
        }
        let ghost before = out.deep_view();
        let ghost line = text@.subrange(pos as int, stop as int);
        let ghost rest = if end < n {
            names_from(text@, end as int + 1)
        } else {
            Seq::empty()
        };
        if pos < stop {
            out.push(String::from_str(text.substring_char(pos, stop)));
            assert(out.deep_view() =~= before.push(line));
            assert(before.push(line) + rest =~= before + (seq![line] + rest));
        }
        if end < n {
            pos = end + 1;
        } else {
            pos = end;
        }
        assert(names_from(text@, pos as int) == rest);
    }
    assert(out.deep_view() + Seq::<Seq<char>>::empty() =~= out.deep_view());
    out
}

/// The text that a lossy decoding of `bytes` as UTF-8 yields.
pub uninterp spec fn lossy_text(bytes: Seq<u8>) -> Seq<char>;

/// Decodes `bytes` with std's `String::from_utf8_lossy`, which puts U+FFFD
/// in place of what is not valid UTF-8. The contract only gives the decoded
/// text its name; nothing of the decoding itself is proved here.
#[verifier::external_body]
fn decode_lossy(bytes: &[u8]) -> (r: String)
    ensures
        r@ == lossy_text(bytes@),
{
    String::from_utf8_lossy(bytes).into_owned()
}

/// The invocation that lists the available models.
pub open spec fn listing_command() -> InvocationView {
    InvocationView {
        program: "pi"@,
        args: seq!["--list-models"@],
        credential: None,
        workdir: None,
        piped: true,
    }
}

/// The invocation that lists the available models.
pub fn list_models_command() -> (r: Invocation)
    ensures
        r@ == listing_command(),
{
    let args: Vec<String> = vec![String::from_str("--list-models")];
    let r = Invocation {
        program: String::from_str("pi"),
        args,
        credential: None,
        workdir: None,
        piped: true,
    };
    assert(r@.args =~= listing_command().args);
    r
}

impl PiManager {
    /// What a listing run yields: the names in the decoded standard output,
    /// or the failure to start the executable with its cause.
    pub fn list_models(&self, ran: Result<Vec<u8>, String>) -> (r: Result<Vec<String>, PiError>)
        ensures
            match ran {
                Ok(stdout) => r.is_ok() && r->Ok_0.deep_view() == model_names(
                    lossy_text(stdout@),
                ),
                Err(cause) => r.is_err() && r->Err_0@ == ErrorView::SpawnFailed(cause@),
            },
    {
        match ran {
            Ok(stdout) => {
                let text = decode_lossy(stdout.as_slice());
                Ok(parse_model_list(text.as_str()))
            },
            Err(cause) => Err(PiError::SpawnFailed(cause)),
        }
    }
}

} // verus!
