//! Prompt files: the key-value preamble at their head, and where they live.

use crate::text::{
    chars_of, drop_spaces, find, find_char, has_name, is_name, opt_text, skip_spaces, trim_end,
    trim_start,
};
use vstd::prelude::*;
use vstd::string::{StrSliceExecFns, StringExecFns};

verus! {

/// A prompt file as it is listed.
#[derive(Clone, Debug)]
pub struct CustomPromptEntry {
    pub name: String,
    pub path: String,
    pub description: Option<String>,
    pub argument_hint: Option<String>,
    pub content: String,
}

/// What the head of a prompt file says, and the text that follows it.
pub ghost struct FrontMatter {
    pub description: Option<Seq<char>>,
    pub argument_hint: Option<Seq<char>>,
    pub body: Seq<char>,
}

/// The line that opens and closes the preamble.
pub open spec fn fence() -> Seq<char> {
    seq!['-', '-', '-']
}

/// The keys that the preamble knows.
pub enum Key {
    Description,
    ArgumentHint,
    Other,
}

/// Where the segment that starts at `from` ends: behind its line feed, or
/// at the end of the text.
pub open spec fn segment_end(text: Seq<char>, from: int) -> int {
    let feed = find_char(text, '\n', from, text.len() as int);
    if feed < text.len() {
        feed + 1
    } else {
        text.len() as int
    }
}

/// Whether `lo..hi` of `text`, without the white space around it, is the fence.
pub open spec fn is_fence(text: Seq<char>, lo: int, hi: int) -> bool {
    let a = trim_start(text, lo, hi);
    let b = trim_end(text, a, hi);
    text.subrange(a, b) == fence()
}

/// The key that `lo..hi` of `text` names, white space and the case of
/// ASCII letters aside.
pub open spec fn entry_key(text: Seq<char>, lo: int, hi: int) -> Key {
    let a = trim_start(text, lo, hi);
    let b = trim_end(text, a, hi);
    let key = text.subrange(a, b);
    if is_name(key, "description"@) {
        Key::Description
    } else if is_name(key, "argument-hint"@) || is_name(key, "argument_hint"@) {
        Key::ArgumentHint
    } else {
        Key::Other
    }
}

/// The value that `lo..hi` of `text` holds: the text without the white
/// space around it and without one pair of double or single quotes that
/// encloses it.
pub open spec fn entry_value(text: Seq<char>, lo: int, hi: int) -> Seq<char> {
    let a = trim_start(text, lo, hi);
    let b = trim_end(text, a, hi);
    if b - a >= 2 && ((text[a] == '"' && text[b - 1] == '"') || (text[a] == '\'' && text[b - 1]
        == '\'')) {
        text.subrange(a + 1, b - 1)
    } else {
        text.subrange(a, b)
    }
}

/// The text as a whole, where it has no preamble.
pub open spec fn without_preamble(text: Seq<char>) -> FrontMatter {
    FrontMatter { description: None, argument_hint: None, body: text }
}

/// The preamble read from position `from` on, a segment's start, with what
/// the lines before it gave. A line that is the fence closes the preamble;
/// an empty line, a line that starts with `#` and a line without a colon
/// are passed over; of a key that occurs twice the later value stands.
/// Without a closing fence the text has no preamble.
pub open spec fn scan(
    text: Seq<char>,
    from: int,
    description: Option<Seq<char>>,
    argument_hint: Option<Seq<char>>,
) -> FrontMatter
    decreases text.len() - from,
{
    let end = segment_end(text, from);
    if 0 <= from < end <= text.len() {
        let a = trim_start(text, from, end);
        let b = trim_end(text, a, end);
        let colon = find_char(text, ':', a, b);
        if is_fence(text, from, end) {
            FrontMatter { description, argument_hint, body: text.subrange(end, text.len() as int) }
        } else if a >= b || text[a] == '#' || colon >= b {
            scan(text, end, description, argument_hint)
        } else {
            match entry_key(text, a, colon) {
                Key::Description => scan(
                    text,
                    end,
                    Some(entry_value(text, colon + 1, b)),
                    argument_hint,
                ),
                Key::ArgumentHint => scan(
                    text,
                    end,
                    description,
                    Some(entry_value(text, colon + 1, b)),
                ),
                Key::Other => scan(text, end, description, argument_hint),
            }
        }
    } else {
        without_preamble(text)
    }
}

/// What a prompt file holds: a preamble between two fence lines, the first
/// of which is the file's first line, and the body behind it; or, where
/// the first line is no fence or the preamble is not closed, the whole text
/// as body.
pub open spec fn front_matter(text: Seq<char>) -> FrontMatter {
    if text.len() > 0 && is_fence(text, 0, segment_end(text, 0)) {
        scan(text, segment_end(text, 0), None, None)
    } else {
        without_preamble(text)
    }
}

/// Whatever the preamble holds, the body is an end of the text.
pub proof fn body_is_suffix(text: Seq<char>)
    ensures
        front_matter(text).body.is_suffix_of(text),
{
    assert(text =~= text.subrange(0, text.len() as int));
    if text.len() > 0 && is_fence(text, 0, segment_end(text, 0)) {
        lemma_scan_suffix(text, segment_end(text, 0), None, None);
    }
}

proof fn lemma_scan_suffix(
    text: Seq<char>,
    from: int,
    description: Option<Seq<char>>,
    argument_hint: Option<Seq<char>>,
)
    ensures
        scan(text, from, description, argument_hint).body.is_suffix_of(text),
    decreases text.len() - from,
{
    assert(text =~= text.subrange(0, text.len() as int));
    let end = segment_end(text, from);
    if 0 <= from < end <= text.len() {
        let a = trim_start(text, from, end);
        let b = trim_end(text, a, end);
        let colon = find_char(text, ':', a, b);
        if is_fence(text, from, end) {
        } else if a >= b || text[a] == '#' || colon >= b {
            lemma_scan_suffix(text, end, description, argument_hint);
        } else {
            match entry_key(text, a, colon) {
                Key::Description => lemma_scan_suffix(
                    text,
                    end,
                    Some(entry_value(text, colon + 1, b)),
                    argument_hint,
                ),
                Key::ArgumentHint => lemma_scan_suffix(
                    text,
                    end,
                    description,
                    Some(entry_value(text, colon + 1, b)),
                ),
                Key::Other => lemma_scan_suffix(text, end, description, argument_hint),
            }
        }
    }
}

/// Where the segment that starts at `from` ends.
fn end_of_segment(s: &Vec<char>, from: usize) -> (r: usize)
    requires
        from < s.len(),
    ensures
        r == segment_end(s@, from as int),
        from < r <= s.len(),
{
    let feed = find(s, '\n', from, s.len());
    if feed < s.len() {
        feed + 1
    } else {
        s.len()
    }
}

/// Whether `lo..hi`, without the white space around it, is the fence.
fn fence_at(s: &Vec<char>, lo: usize, hi: usize) -> (r: bool)
    requires
        lo <= hi <= s.len(),
    ensures
        r == is_fence(s@, lo as int, hi as int),
{
    let a = skip_spaces(s, lo, hi);
    let b = drop_spaces(s, a, hi);
    if b - a == 3 {
        let r = s[a] == '-' && s[a + 1] == '-' && s[a + 2] == '-';
        proof {
            let part = s@.subrange(a as int, b as int);
            assert(part[0] == s[a as int] && part[1] == s[a + 1] && part[2] == s[a + 2]);
            if r {
                assert(part =~= fence());
            }
        }
        r
    } else {
        assert(s@.subrange(a as int, b as int).len() != fence().len());
        false
    }
}

/// The key that `lo..hi` names.
fn key_at(s: &Vec<char>, lo: usize, hi: usize) -> (r: Key)
    requires
        lo <= hi <= s.len(),
    ensures
        r == entry_key(s@, lo as int, hi as int),
{
    let a = skip_spaces(s, lo, hi);
    let b = drop_spaces(s, a, hi);
    if has_name(s, a, b, "description") {
        Key::Description
    } else if has_name(s, a, b, "argument-hint") || has_name(s, a, b, "argument_hint") {
        Key::ArgumentHint
    } else {
        Key::Other
    }
}

/// The value that `lo..hi` holds.
fn value_at(content: &str, s: &Vec<char>, lo: usize, hi: usize) -> (r: String)
    requires
        s@ == content@,
        lo <= hi <= s.len(),
    ensures
        r@ == entry_value(s@, lo as int, hi as int),
{
    let a = skip_spaces(s, lo, hi);
    let b = drop_spaces(s, a, hi);
    if b - a >= 2 && ((s[a] == '"' && s[b - 1] == '"') || (s[a] == '\'' && s[b - 1] == '\'')) {
        String::from_str(content.substring_char(a + 1, b - 1))
    } else {
        String::from_str(content.substring_char(a, b))
    }
}

/// Splits a prompt file into the description and the argument hint that
/// its preamble gives, and its body.
pub fn parse_frontmatter(content: &str) -> (r: (Option<String>, Option<String>, String))
    ensures
        r.0.deep_view() == front_matter(content@).description,
        r.1.deep_view() == front_matter(content@).argument_hint,
        r.2@ == front_matter(content@).body,
{
    let chars = chars_of(content);
    let n = chars.len();
    if n == 0 {
        return (None, None, String::from_str(content));
    }
    let first_end = end_of_segment(&chars, 0);
    if !fence_at(&chars, 0, first_end) {
        return (None, None, String::from_str(content));
    }
    let mut description: Option<String> = None;
    let mut argument_hint: Option<String> = None;
    let mut pos: usize = first_end;
    while pos < n
        invariant
            chars@ == content@,
            n == chars.len(),
            pos <= n,
            scan(chars@, pos as int, description.deep_view(), argument_hint.deep_view())
                == front_matter(content@),
        decreases n - pos,
    {
        let end = end_of_segment(&chars, pos);
        if fence_at(&chars, pos, end) {
            let body = String::from_str(content.substring_char(end, n));
            return (description, argument_hint, body);
        }
        let a = skip_spaces(&chars, pos, end);
        let b = drop_spaces(&chars, a, end);
        if a < b && chars[a] != '#' {
            let colon = find(&chars, ':', a, b);
            if colon < b {
                match key_at(&chars, a, colon) {
                    Key::Description => {
                        description = Some(value_at(content, &chars, colon + 1, b));
                    },
                    Key::ArgumentHint => {
                        argument_hint = Some(value_at(content, &chars, colon + 1, b));
                    },
                    Key::Other => {},
                }
            }
        }
        pos = end;
    }
    (None, None, String::from_str(content))
}

impl CustomPromptEntry {
    /// The entry of the prompt file `name` at `path` that holds `content`.
    pub fn from_file(name: String, path: String, content: &str) -> (r: Self)
        ensures
            r.name == name,
            r.path == path,
            r.description.deep_view() == front_matter(content@).description,
            r.argument_hint.deep_view() == front_matter(content@).argument_hint,
            r.content@ == front_matter(content@).body,
    {
        let (description, argument_hint, body) = parse_frontmatter(content);
        CustomPromptEntry { name, path, description, argument_hint, content: body }
    }
}

/// A directory: a base path and the names to descend from it, in order.
#[derive(Clone, Debug)]
pub struct DirPath {
    pub base: String,
    pub below: Vec<String>,
}

/// The mathematical value of a [`DirPath`].
pub ghost struct DirPathView {
    pub base: Seq<char>,
    pub below: Seq<Seq<char>>,
}

impl View for DirPath {
    type V = DirPathView;

    open spec fn view(&self) -> DirPathView {
        DirPathView { base: self.base@, below: self.below.deep_view() }
    }
}

/// The view of an optional directory.
pub open spec fn opt_dir(dir: Option<DirPath>) -> Option<DirPathView> {
    match dir {
        Some(d) => Some(d@),
        None => None,
    }
}

/// What looking for a path on disk found.
#[derive(Clone, Debug)]
pub enum PathProbe {
    /// Nothing is there.
    Missing,
    /// Something is there; its canonical path, where one could be had.
    Present { canonical: Option<String> },
}

/// Whether `s` holds nothing but white space.
pub open spec fn is_blank(s: Seq<char>) -> bool {
    trim_start(s, 0, s.len() as int) >= s.len()
}

/// `s` without the white space around it.
pub open spec fn trimmed(s: Seq<char>) -> Seq<char> {
    let a = trim_start(s, 0, s.len() as int);
    s.subrange(a, trim_end(s, a, s.len() as int))
}

/// The value of a variable that is set to more than white space.
pub open spec fn meaningful(value: Option<Seq<char>>) -> Option<Seq<char>> {
    match value {
        Some(v) => if is_blank(v) {
            None
        } else {
            Some(v)
        },
        None => None,
    }
}

/// The home directory: the first of the two variables that is set to more
/// than white space, as it stands.
pub open spec fn home_dir(home: Option<Seq<char>>, userprofile: Option<Seq<char>>) -> Option<
    Seq<char>,
> {
    match meaningful(home) {
        Some(h) => Some(h),
        None => meaningful(userprofile),
    }
}

/// The path that the setting names: its value without the white space
/// around it, where it is set to more than white space.
pub open spec fn named_home(setting: Option<Seq<char>>) -> Option<Seq<char>> {
    match meaningful(setting) {
        Some(v) => Some(trimmed(v)),
        None => None,
    }
}

/// The directory of the tool's files. A setting that names a path decides
/// alone: the path must exist, and stands in its canonical form where that
/// could be had. Without such a setting it is `.codex` under the home
/// directory.
pub open spec fn codex_home(
    setting: Option<Seq<char>>,
    probe: PathProbe,
    home: Option<Seq<char>>,
    userprofile: Option<Seq<char>>,
) -> Option<DirPathView> {
    match named_home(setting) {
        Some(path) => match probe {
            PathProbe::Missing => None,
            PathProbe::Present { canonical: Some(c) } => Some(
                DirPathView { base: c@, below: Seq::empty() },
            ),
            PathProbe::Present { canonical: None } => Some(
                DirPathView { base: path, below: Seq::empty() },
            ),
        },
        None => match home_dir(home, userprofile) {
            Some(h) => Some(DirPathView { base: h, below: seq![".codex"@] }),
            None => None,
        },
    }
}

/// The directory of the prompt files: `prompts` under the tool's directory.
pub open spec fn prompts_dir(home: Option<DirPathView>) -> Option<DirPathView> {
    match home {
        Some(d) => Some(DirPathView { base: d.base, below: d.below.push("prompts"@) }),
        None => None,
    }
}

/// The value of a variable that is set to more than white space.
fn meaningful_value(value: Option<&str>) -> (r: Option<String>)
    ensures
        r.deep_view() == meaningful(opt_text(value)),
{
    match value {
        Some(v) => {
            let chars = chars_of(v);
            if skip_spaces(&chars, 0, chars.len()) < chars.len() {
                Some(String::from_str(v))
            } else {
                None
            }
        },
        None => None,
    }
}

/// The home directory, from the values of `HOME` and `USERPROFILE`.
pub fn resolve_home_dir(home: Option<&str>, userprofile: Option<&str>) -> (r: Option<String>)
    ensures
        r.deep_view() == home_dir(opt_text(home), opt_text(userprofile)),
{
    match meaningful_value(home) {
        Some(h) => Some(h),
        None => meaningful_value(userprofile),
    }
}

/// The path that the value of `CODEX_HOME` names, which is to be looked
/// for on disk.
pub fn codex_home_setting(setting: Option<&str>) -> (r: Option<String>)
    ensures
        r.deep_view() == named_home(opt_text(setting)),
{
    match setting {
        Some(v) => {
            let chars = chars_of(v);
            let a = skip_spaces(&chars, 0, chars.len());
            if a < chars.len() {
                let b = drop_spaces(&chars, a, chars.len());
                Some(String::from_str(v.substring_char(a, b)))
            } else {
                None
            }
        },
        None => None,
    }
}

/// The directory of the tool's files, from the value of `CODEX_HOME`, what
/// looking for the path it names found, and the values of `HOME` and
/// `USERPROFILE`.
pub fn resolve_codex_home(
    setting: Option<&str>,
    probe: PathProbe,
    home: Option<&str>,
    userprofile: Option<&str>,
) -> (r: Option<DirPath>)
    ensures
        opt_dir(r) == codex_home(opt_text(setting), probe, opt_text(home), opt_text(userprofile)),
{
    match codex_home_setting(setting) {
        Some(path) => match probe {
            PathProbe::Missing => None,
            PathProbe::Present { canonical: Some(c) } => {
                let r = DirPath { base: c, below: Vec::new() };
                assert(r@.below =~= Seq::empty());
                Some(r)
            },
            PathProbe::Present { canonical: None } => {
                let r = DirPath { base: path, below: Vec::new() };
                assert(r@.below =~= Seq::empty());
                Some(r)
            },
        },
        None => match resolve_home_dir(home, userprofile) {
            Some(h) => {
                let r = DirPath { base: h, below: vec![String::from_str(".codex")] };
                assert(r@.below =~= seq![".codex"@]);
                Some(r)
            },
            None => None,
        },
    }
}

/// The directory of the prompt files, from the directory of the tool's files.
pub fn default_prompts_dir(home: Option<DirPath>) -> (r: Option<DirPath>)
    ensures
        opt_dir(r) == prompts_dir(opt_dir(home)),
{
    match home {
        Some(d) => {
            let mut below = d.below;
            below.push(String::from_str("prompts"));
            let r = DirPath { base: d.base, below };
            assert(r@.below =~= d@.below.push("prompts"@));
            Some(r)
        },
        None => None,
    }
}

} // verus!
