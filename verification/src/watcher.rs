//! Change watcher: which file system notifications reach the orchestrator.
//!
//! The matcher of the `ignore` crate is asked through two wrappers whose
//! contracts hold on systems whose paths are rooted by a leading `/` and
//! by nothing else. On a system with other roots (a drive prefix, a
//! leading `\`) `matchable` admits rooted paths, and the crate would panic
//! on them: there the filter must not be handed such paths.

use ignore::gitignore::Gitignore;
use vstd::prelude::*;

use crate::paths::to_chars;

verus! {

/// A matcher for the rules of the ignore files of one directory.
#[verifier::external_type_specification]
#[verifier::external_body]
pub struct ExGitignore(Gitignore);

/// The directory that `matcher` matches relative to, where it is valid
/// Unicode.
pub uninterp spec fn matcher_root(matcher: Gitignore) -> Option<Seq<char>>;

/// Whether `matcher` holds no rule at all.
pub uninterp spec fn matcher_is_empty(matcher: Gitignore) -> bool;

/// Whether the rules of `matcher` ignore `path` or one of its parent
/// directories, `path` being a directory or not as `is_dir` says.
pub uninterp spec fn matcher_ignores(matcher: Gitignore, path: Seq<char>, is_dir: bool) -> bool;

/// `Gitignore::path`: the root of the matcher, as text.
#[verifier::external_body]
fn root_of(matcher: &Gitignore) -> (root: Option<String>)
    ensures
        match root {
            Some(text) => matcher_root(*matcher) == Some(text@),
            None => matcher_root(*matcher) is None,
        },
{
    matcher.path().to_str().map(str::to_owned)
}

/// `Gitignore::is_empty`: whether the matcher has no rule, in which case
/// it answers for every path and ignores none.
#[verifier::external_body]
fn has_no_rule(matcher: &Gitignore) -> (empty: bool)
    ensures
        empty == matcher_is_empty(*matcher),
{
    matcher.is_empty()
}

/// `Gitignore::matched_path_or_any_parents`, read with `Match::is_ignore`:
/// the verdict depends on the matcher, the path and the flag alone. A
/// matcher with rules panics on a path that still begins with a separator
/// once a leading `./` and the matcher's own root are taken off it; a path
/// that is `matchable` is none of those.
#[verifier::external_body]
fn ignored_by(matcher: &Gitignore, path: &str, is_dir: bool) -> (ignored: bool)
    requires
        answerable(*matcher, path@),
    ensures
        ignored == matcher_ignores(*matcher, path@, is_dir),
{
    matcher.matched_path_or_any_parents(path, is_dir).is_ignore()
}

/// `path` without a leading `./`.
pub open spec fn without_dot_slash(path: Seq<char>) -> Seq<char> {
    if path.len() >= 2 && path[0] == '.' && path[1] == '/' {
        path.skip(2)
    } else {
        path
    }
}

/// `text` names the current directory and nothing else: a dot, followed
/// by separators and single dots only.
pub open spec fn is_current_dir(text: Seq<char>) -> bool {
    &&& text.len() >= 1
    &&& text[0] == '.'
    &&& forall|i: int| 0 <= i < text.len() ==> #[trigger] text[i] == '.' || text[i] == '/'
    &&& forall|i: int| 0 <= i < text.len() - 1 ==> !(#[trigger] text[i] == '.' && text[i + 1] == '.')
}

/// `text` begins with a separator.
pub open spec fn rooted(text: Seq<char>) -> bool {
    text.len() >= 1 && text[0] == '/'
}

/// `text` begins with two separators.
pub open spec fn doubly_rooted(text: Seq<char>) -> bool {
    text.len() >= 2 && text[0] == '/' && text[1] == '/'
}

/// A matcher rooted at `root` can be asked about `path`: what is left of
/// the path does not begin with a separator once a leading `./`, then the
/// root, then one separator are taken off. The root is taken off where the
/// path begins with it, unless the root names the current directory.
pub open spec fn matchable(root: Option<Seq<char>>, path: Seq<char>) -> bool {
    let rest = without_dot_slash(path);
    match root {
        Some(text) => if text.is_prefix_of(rest) && !is_current_dir(text) {
            !doubly_rooted(rest.skip(text.len() as int))
        } else {
            !rooted(rest)
        },
        None => !rooted(rest),
    }
}

/// `matcher` answers for `path`: it has no rule, or the path is matchable
/// under its root.
pub open spec fn answerable(matcher: Gitignore, path: Seq<char>) -> bool {
    matcher_is_empty(matcher) || matchable(matcher_root(matcher), path)
}

/// The kind of a file system notification.
#[derive(Debug, Clone, Copy, PartialEq, Eq, Structural)]
pub enum ChangeKind {
    /// Something happened, it is not known what.
    Any,
    /// A file was opened, read or closed.
    Access,
    /// A file or directory was created.
    Create,
    /// A file or directory was changed or renamed.
    Modify,
    /// A file or directory was removed.
    Remove,
    /// Anything else.
    Other,
}

impl ChangeKind {
    /// Kinds that can change what a build produces.
    pub open spec fn is_relevant(self) -> bool {
        self is Create || self is Modify || self is Remove
    }

    /// Tells whether a notification of this kind can trigger a rebuild.
    pub fn relevant(&self) -> (relevant: bool)
        ensures
            relevant == self.is_relevant(),
    {
        match self {
            ChangeKind::Create | ChangeKind::Modify | ChangeKind::Remove => true,
            ChangeKind::Any | ChangeKind::Access | ChangeKind::Other => false,
        }
    }
}

/// One path that a notification is about.
#[derive(Debug, Clone, PartialEq, Eq)]
pub struct ChangedPath {
    /// The path as the notification gave it.
    pub path: String,
    /// Whether a directory is at that path.
    pub is_dir: bool,
}

/// A file system notification.
#[derive(Debug, Clone, PartialEq, Eq)]
pub struct ChangeEvent {
    /// What happened.
    pub kind: ChangeKind,
    /// Where it happened.
    pub paths: Vec<ChangedPath>,
}

/// What the matcher says of one path.
#[derive(Debug, Clone, Copy, PartialEq, Eq, Structural)]
pub enum Verdict {
    /// The path is not ignored.
    Clear,
    /// The path is ignored.
    Ignored,
    /// The matcher cannot be asked about the path.
    Unanswerable,
}

/// The verdict of `matcher` on `entry`.
pub open spec fn verdict_of(matcher: Gitignore, entry: ChangedPath) -> Verdict {
    if !answerable(matcher, entry.path@) {
        Verdict::Unanswerable
    } else if matcher_ignores(matcher, entry.path@, entry.is_dir) {
        Verdict::Ignored
    } else {
        Verdict::Clear
    }
}

/// The rule of the filter: a notification is forwarded if and only if its
/// kind is relevant and every one of its paths is clear.
pub open spec fn rule(kind: ChangeKind, verdicts: Seq<Verdict>) -> bool {
    &&& kind.is_relevant()
    &&& forall|i: int| 0 <= i < verdicts.len() ==> #[trigger] verdicts[i] is Clear
}

/// The event is forwarded: its kind is relevant, and the matcher ignores
/// none of its paths. An event with a path that the matcher cannot be
/// asked about is dropped.
pub open spec fn passes(matcher: Gitignore, event: ChangeEvent) -> bool {
    &&& event.kind.is_relevant()
    &&& forall|i: int|
        0 <= i < event.paths@.len() ==> verdict_of(matcher, #[trigger] event.paths@[i]) is Clear
}

/// Tells whether `text`, from its character number `from` on, starts with
/// `prefix`.
fn starts_with_from(text: &Vec<char>, from: usize, prefix: &Vec<char>) -> (yes: bool)
    requires
        from <= text@.len(),
    ensures
        yes == prefix@.is_prefix_of(text@.skip(from as int)),
{
    let n = prefix.len();
    if n > text.len() - from {
        return false;
    }
    let ghost rest = text@.skip(from as int);
    let mut i: usize = 0;
    while i < n
        invariant
            i <= n,
            n == prefix@.len(),
            from + n <= text.len(),
            rest == text@.skip(from as int),
            forall|j: int| 0 <= j < i ==> prefix@[j] == rest[j],
        decreases n - i,
    {
        if prefix[i] != text[from + i] {
            assert(prefix@[i as int] != rest.subrange(0, n as int)[i as int]);
            return false;
        }
        i += 1;
    }
    assert(prefix@ =~= rest.subrange(0, n as int));
    true
}

/// Tells whether `text` names the current directory and nothing else.
fn names_current_dir(text: &Vec<char>) -> (yes: bool)
    ensures
        yes == is_current_dir(text@),
{
    let n = text.len();
    if n == 0 || text[0] != '.' {
        return false;
    }
    let mut i: usize = 1;
    while i < n
        invariant
            1 <= i <= n,
            n == text@.len(),
            text@[0] == '.',
            forall|j: int| 0 <= j < i ==> #[trigger] text@[j] == '.' || text@[j] == '/',
            forall|j: int| 0 <= j < i - 1 ==> !(#[trigger] text@[j] == '.' && text@[j + 1] == '.'),
        decreases n - i,
    {
        if text[i] != '.' && text[i] != '/' {
            assert(!(text@[i as int] == '.' || text@[i as int] == '/'));
            return false;
        }
        if text[i] == '.' && text[i - 1] == '.' {
            assert(text@[i - 1] == '.' && text@[i - 1 + 1] == '.');
            return false;
        }
        i += 1;
    }
    true
}

/// Tells whether a matcher rooted at `root` can be asked about `path`.
pub fn is_matchable(root: Option<&str>, path: &str) -> (yes: bool)
    ensures
        yes == matchable(
            match root {
                Some(r) => Some(r@),
                None => None,
            },
            path@,
        ),
{
    let chars = to_chars(path);
    let n = chars.len();
    let from: usize = if n >= 2 && chars[0] == '.' && chars[1] == '/' {
        2
    } else {
        0
    };
    let ghost rest = without_dot_slash(path@);
    assert(rest == chars@.skip(from as int));
    let is_rooted = from < n && chars[from] == '/';
    assert(is_rooted == rooted(rest));
    match root {
        None => !is_rooted,
        Some(r) => {
            let root_chars = to_chars(r);
            if starts_with_from(&chars, from, &root_chars) && !names_current_dir(&root_chars) {
                let after = from + root_chars.len();
                assert(rest.skip(root_chars@.len() as int) == chars@.skip(after as int));
                let twice = n - after >= 2 && chars[after] == '/' && chars[after + 1] == '/';
                assert(twice == doubly_rooted(chars@.skip(after as int)));
                !twice
            } else {
                !is_rooted
            }
        },
    }
}

/// Asks the matcher about each path of a notification.
pub fn judge(matcher: &Gitignore, paths: &Vec<ChangedPath>) -> (verdicts: Vec<Verdict>)
    ensures
        verdicts@.len() == paths@.len(),
        forall|i: int|
            0 <= i < paths@.len() ==> #[trigger] verdicts@[i] == verdict_of(*matcher, paths@[i]),
{
    let empty = has_no_rule(matcher);
    let root = root_of(matcher);
    let n = paths.len();
    let mut verdicts: Vec<Verdict> = Vec::new();
    let mut i: usize = 0;
    while i < n
        invariant
            i <= n,
            n == paths@.len(),
            verdicts@.len() == i,
            empty == matcher_is_empty(*matcher),
            match root {
                Some(text) => matcher_root(*matcher) == Some(text@),
                None => matcher_root(*matcher) is None,
            },
            forall|j: int| 0 <= j < i ==> #[trigger] verdicts@[j] == verdict_of(*matcher, paths@[j]),
        decreases n - i,
    {
        let entry = &paths[i];
        let root_text: Option<&str> = match &root {
            Some(text) => Some(text.as_str()),
            None => None,
        };
        let verdict = if !empty && !is_matchable(root_text, entry.path.as_str()) {
            Verdict::Unanswerable
        } else if ignored_by(matcher, entry.path.as_str(), entry.is_dir) {
            Verdict::Ignored
        } else {
            Verdict::Clear
        };
        verdicts.push(verdict);
        i += 1;
    }
    verdicts
}

/// Applies the rule of the filter to the kind of a notification and the
/// verdicts on its paths.
pub fn forwards(kind: ChangeKind, verdicts: &Vec<Verdict>) -> (forward: bool)
    ensures
        forward == rule(kind, verdicts@),
{
    if !kind.relevant() {
        return false;
    }
    let n = verdicts.len();
    let mut i: usize = 0;
    while i < n
        invariant
            i <= n,
            n == verdicts@.len(),
            forall|j: int| 0 <= j < i ==> #[trigger] verdicts@[j] is Clear,
        decreases n - i,
    {
        match verdicts[i] {
            Verdict::Clear => {},
            _ => {
                assert(!(verdicts@[i as int] is Clear));
                return false;
            },
        }
        i += 1;
    }
    true
}

/// Name of the file that holds the ignore rules of a directory.
pub const IGNORE_FILE: &'static str = ".gitignore";

/// Picks the directory whose ignore file governs the watch: the nearest
/// one that holds such a file, going from the working directory, number 0,
/// up through its `depth - 1` ancestors. `holds_ignore_file` looks into one
/// of them. `None` means that no directory holds one, and nothing is
/// ignored.
pub fn nearest_ignore_file<F: Fn(usize) -> bool>(depth: usize, holds_ignore_file: F) -> (found:
    Option<usize>)
    requires
        forall|level: usize| level < depth ==> call_requires(holds_ignore_file, (level,)),
    ensures
        match found {
            Some(level) => {
                &&& level < depth
                &&& call_ensures(holds_ignore_file, (level,), true)
                &&& forall|above: usize|
                    above < level ==> call_ensures(holds_ignore_file, (above,), false)
            },
            None => forall|level: usize|
                level < depth ==> call_ensures(holds_ignore_file, (level,), false),
        },
{
    let mut level: usize = 0;
    while level < depth
        invariant
            level <= depth,
            forall|l: usize| l < depth ==> call_requires(holds_ignore_file, (l,)),
            forall|l: usize| l < level ==> call_ensures(holds_ignore_file, (l,), false),
        decreases depth - level,
    {
        if holds_ignore_file(level) {
            return Some(level);
        }
        level += 1;
    }
    None
}

/// Decides whether a notification is forwarded to the orchestrator.
pub fn should_forward(matcher: &Gitignore, event: &ChangeEvent) -> (forward: bool)
    ensures
        forward == passes(*matcher, *event),
{
    if !event.kind.relevant() {
        return false;
    }
    let verdicts = judge(matcher, &event.paths);
    let forward = forwards(event.kind, &verdicts);
    proof {
        if forward {
            assert forall|i: int| 0 <= i < event.paths@.len() implies verdict_of(
                *matcher,
                #[trigger] event.paths@[i],
            ) is Clear by {
                assert(verdicts@[i] is Clear);
            }
        } else {
            let i = choose|i: int| 0 <= i < verdicts@.len() && !(#[trigger] verdicts@[i] is Clear);
            assert(verdicts@[i] == verdict_of(*matcher, event.paths@[i]));
        }
    }
    forward
}

} // verus!
