//! The decisions of a rotation: which directory entries count as backups, in which order
//! they are listed, which of them go to the trash, and how a custom trash command is built.
use vstd::prelude::*;
use vstd::string::StrSliceExecFns;
use vstd::string::StringExecFns;

use crate::calendar::{instant_at_or_after, instant_ge, instant_of, Instant};
use crate::config::RetentionConfig;
use crate::reason::{has_any_reason, kept_positions, KeepReasons};
use crate::selection::{compute_cutoffs, retention_cutoffs, windows_in_range, retention_model, select_with_cutoffs, FileInfo};
use crate::calendar::LocalDateTime;

verus! {

broadcast use vstd::string::group_string_axioms;

/// Whether a file name marks a hidden file (it starts with a dot); such files are skipped.
pub fn is_hidden_name(name: &str) -> (r: bool)
    ensures
        r == (name@.len() > 0 && name@[0] == '.'),
{
    name.unicode_len() > 0 && name.get_char(0) == '.'
}

/// Whether `a` is strictly later than `b`.
pub open spec fn instant_gt(a: Instant, b: Instant) -> bool {
    !instant_ge(b, a)
}

/// Whether the file at position `a` of `files` comes before the one at position `b` when
/// sorting newest first, keeping the listing order of files with the same time.
pub open spec fn comes_before(files: Seq<FileInfo>, a: int, b: int) -> bool {
    let ta = instant_of(files[a].created);
    let tb = instant_of(files[b].created);
    instant_gt(ta, tb) || (ta == tb && a < b)
}

/// `order` lists every position of `files` once, newest file first; files with the same
/// time keep their listing order (the order of a stable sort).
pub open spec fn newest_first_order_of(files: Seq<FileInfo>, order: Seq<usize>) -> bool {
    &&& order.len() == files.len()
    &&& forall|m: int| 0 <= m < order.len() ==> #[trigger] order[m] < files.len()
    &&& forall|m1: int, m2: int|
        0 <= m1 < m2 < order.len() ==> comes_before(files, #[trigger] order[m1] as int, #[trigger] order[m2] as int)
}

/// The files of `files` at the positions `order`, in that order.
pub open spec fn reorder(files: Seq<FileInfo>, order: Seq<usize>) -> Seq<FileInfo> {
    Seq::new(order.len(), |m: int| files[order[m] as int])
}

/// The positions of `files` sorted by time, newest first, keeping the listing order of
/// files with the same time (a stable sort).
pub fn newest_first_order(files: &[FileInfo]) -> (r: Vec<usize>)
    ensures
        newest_first_order_of(files@, r@),
{
    let n: usize = files.len();
    let mut order: Vec<usize> = Vec::new();
    let mut k: usize = n;
    while k > 0
        invariant
            k <= n,
            n == files@.len(),
            order@.len() == n - k,
            forall|m: int| 0 <= m < order@.len() ==> k <= #[trigger] order@[m] < n,
            forall|m1: int, m2: int|
                0 <= m1 < m2 < order@.len() ==> comes_before(files@, #[trigger] order@[m1] as int, #[trigger] order@[m2] as int),
        decreases k,
    {
        k = k - 1;
        let fi = files[k].created.instant();
        let mut pos: usize = 0;
        while pos < order.len() && !instant_at_or_after(&fi, &files[order[pos]].created.instant())
            invariant
                pos <= order@.len(),
                n == files@.len(),
                forall|m: int| 0 <= m < order@.len() ==> k < #[trigger] order@[m] < n,
                fi == instant_of(files@[k as int].created),
                forall|m: int| 0 <= m < pos ==> instant_gt(instant_of(files@[#[trigger] order@[m] as int].created), fi),
            decreases order@.len() - pos,
        {
            pos = pos + 1;
        }
        proof {
            let new_order = order@.insert(pos as int, k);
            assert forall|m1: int, m2: int|
                0 <= m1 < m2 < new_order.len() implies comes_before(files@, #[trigger] new_order[m1] as int, #[trigger] new_order[m2] as int) by {
                if m1 == pos {
                    // every later entry is no newer than the one at `pos`, which is no newer than file `k`
                    if pos < order@.len() {
                        if m2 - 1 > pos {
                            assert(comes_before(files@, order@[pos as int] as int, order@[m2 - 1] as int));
                        }
                        assert(instant_ge(fi, instant_of(files@[order@[pos as int] as int].created)));
                    }
                } else if m2 == pos {
                    assert(instant_gt(instant_of(files@[order@[m1] as int].created), fi));
                } else {
                    let a: int = if m1 < pos { m1 } else { m1 - 1 };
                    let b: int = if m2 < pos { m2 } else { m2 - 1 };
                    assert(comes_before(files@, order@[a] as int, order@[b] as int));
                }
            }
        }
        order.insert(pos, k);
    }
    order
}

/// Whether the character needs no quoting in a POSIX shell word.
pub open spec fn shell_safe_char(c: char) -> bool {
    ||| 'a' <= c <= 'z'
    ||| 'A' <= c <= 'Z'
    ||| '0' <= c <= '9'
    ||| c == '-' || c == '_' || c == '=' || c == '/' || c == ',' || c == '.' || c == '+'
}

/// The characters of `s` inside single quotes, where `'` and `!` leave the quotes as `'\'` ... `'`.
pub open spec fn single_quoted_body(s: Seq<char>) -> Seq<char>
    decreases s.len(),
{
    if s.len() == 0 {
        Seq::empty()
    } else {
        let c = s[0];
        (if c == '\'' || c == '!' {
            seq!['\'', '\\', c, '\'']
        } else {
            seq![c]
        }) + single_quoted_body(s.skip(1))
    }
}

/// A shell word that stands for `s`: `s` itself where it is not empty and every character
/// is safe, else `s` in single quotes.
pub open spec fn shell_escaped(s: Seq<char>) -> Seq<char> {
    if s.len() > 0 && forall|i: int| 0 <= i < s.len() ==> shell_safe_char(#[trigger] s[i]) {
        s
    } else {
        seq!['\''] + single_quoted_body(s) + seq!['\'']
    }
}

/// `n` backslashes.
pub open spec fn backslashes(n: nat) -> Seq<char> {
    Seq::new(n, |i: int| '\\')
}

/// Whether the character needs quoting for Windows `cmd.exe`.
pub open spec fn windows_special_char(c: char) -> bool {
    c == '"' || c == '\t' || c == '\n' || c == ' '
}

/// The characters of `s` inside double quotes for Windows, `pending` backslashes having been
/// read: backslashes before a `"` or before the closing quote are doubled, and each `"` is
/// preceded by a backslash.
pub open spec fn windows_quoted_body(s: Seq<char>, pending: nat) -> Seq<char>
    decreases s.len(),
{
    if s.len() == 0 {
        backslashes(2 * pending)
    } else if s[0] == '\\' {
        windows_quoted_body(s.skip(1), pending + 1)
    } else if s[0] == '"' {
        backslashes(2 * pending + 1) + seq!['"'] + windows_quoted_body(s.skip(1), 0)
    } else {
        backslashes(pending) + seq![s[0]] + windows_quoted_body(s.skip(1), 0)
    }
}

/// A `cmd.exe` word that stands for `s`: `s` itself where it is not empty and has no space,
/// tab, newline or `"`, else `s` in double quotes.
pub open spec fn windows_escaped(s: Seq<char>) -> Seq<char> {
    if s.len() > 0 && forall|i: int| 0 <= i < s.len() ==> !windows_special_char(#[trigger] s[i]) {
        s
    } else {
        seq!['"'] + windows_quoted_body(s, 0) + seq!['"']
    }
}

/// The escapings of `path` that `shell_escape::escape` may give: the POSIX one, or the
/// `cmd.exe` one on Windows outside an MSYS shell.
pub open spec fn escape_outcome(path: Seq<char>, escaped: Seq<char>) -> bool {
    escaped == shell_escaped(path) || escaped == windows_escaped(path)
}

/// Calls `shell_escape::escape`. It picks the POSIX escaping on Unix and where the
/// environment variable `MSYSTEM` is set, and the `cmd.exe` escaping otherwise, so the result
/// depends on the environment and has no name. Trusted: the result is one of the two,
/// `shell_escaped` or `windows_escaped`, which restate `shell_escape::unix::escape` and
/// `shell_escape::windows::escape` from the crate's source.
#[verifier::external_body]
fn shell_escape_word(s: &str) -> (r: String)
    ensures
        escape_outcome(s@, r@),
{
    shell_escape::escape(std::borrow::Cow::Borrowed(s)).into_owned()
}

/// Escapes a path so that the shell reads it as one word.
pub fn escape_path(path: &str) -> (r: String)
    ensures
        escape_outcome(path@, r@),
{
    shell_escape_word(path)
}

/// Whether `s` holds the placeholder `{}`.
pub open spec fn has_placeholder(s: Seq<char>) -> bool {
    exists|i: int| 0 <= i && i + 1 < s.len() && #[trigger] s[i] == '{' && s[i + 1] == '}'
}

/// `s` with every `{}`, read from left to right, replaced by `rep`.
pub open spec fn replace_placeholders(s: Seq<char>, rep: Seq<char>) -> Seq<char>
    decreases s.len(),
{
    if s.len() == 0 {
        Seq::empty()
    } else if s.len() >= 2 && s[0] == '{' && s[1] == '}' {
        rep + replace_placeholders(s.skip(2), rep)
    } else {
        seq![s[0]] + replace_placeholders(s.skip(1), rep)
    }
}

/// The shell command made of the custom command `cmd` and an escaped path: the escaped path
/// takes the place of each `{}`, or is appended after a space where `cmd` has none.
pub open spec fn command_with_escaped(cmd: Seq<char>, escaped: Seq<char>) -> Seq<char> {
    if has_placeholder(cmd) {
        replace_placeholders(cmd, escaped)
    } else {
        cmd + seq![' '] + escaped
    }
}

/// Whether `line` is the shell command that trashes `path` with the custom command `cmd`,
/// for an escaping that `shell_escape::escape` may give.
pub open spec fn is_trash_command_line(cmd: Seq<char>, path: Seq<char>, line: Seq<char>) -> bool {
    exists|escaped: Seq<char>| escape_outcome(path, escaped) && line == #[trigger] command_with_escaped(cmd, escaped)
}

fn contains_placeholder(s: &str) -> (r: bool)
    ensures
        r == has_placeholder(s@),
{
    let n: usize = s.unicode_len();
    let mut i: usize = 0;
    while i < n && i + 1 < n
        invariant
            n == s@.len(),
            forall|j: int| 0 <= j < i && j + 1 < n ==> !(#[trigger] s@[j] == '{' && s@[j + 1] == '}'),
        decreases n - i,
    {
        if s.get_char(i) == '{' && s.get_char(i + 1) == '}' {
            return true;
        }
        i = i + 1;
    }
    assert forall|j: int| 0 <= j && j + 1 < s@.len() implies !(#[trigger] s@[j] == '{' && s@[j + 1] == '}') by {
        assert(j < i);
    }
    false
}

/// Builds the shell command that trashes `path` with the custom command `cmd`.
pub fn trash_command(cmd: &str, path: &str) -> (r: String)
    ensures
        is_trash_command_line(cmd@, path@, r@),
{
    let escaped = escape_path(path);
    let r = command_with_path(cmd, escaped.as_str());
    assert(escape_outcome(path@, escaped@) && r@ == command_with_escaped(cmd@, escaped@));
    r
}

/// Builds the shell command of the custom command `cmd` and an already escaped path.
pub fn command_with_path(cmd: &str, escaped: &str) -> (r: String)
    ensures
        r@ == command_with_escaped(cmd@, escaped@),
{
    if contains_placeholder(cmd) {
        let n: usize = cmd.unicode_len();
        let mut out: String = String::new();
        let mut i: usize = 0;
        assert(cmd@.skip(0) =~= cmd@);
        assert(out@ + replace_placeholders(cmd@, escaped@) =~= replace_placeholders(cmd@, escaped@));
        while i < n
            invariant
                i <= n,
                n == cmd@.len(),
                out@ + replace_placeholders(cmd@.skip(i as int), escaped@) == replace_placeholders(cmd@, escaped@),
            decreases n - i,
        {
            let ghost tail = cmd@.skip(i as int);
            if i + 1 < n && cmd.get_char(i) == '{' && cmd.get_char(i + 1) == '}' {
                assert(tail.skip(2) =~= cmd@.skip(i + 2));
                assert(replace_placeholders(tail, escaped@) == escaped@ + replace_placeholders(cmd@.skip(i + 2), escaped@));
                out.append(escaped);
                assert(out@ + replace_placeholders(cmd@.skip(i + 2), escaped@) == replace_placeholders(cmd@, escaped@));
                i = i + 2;
            } else {
                let one = cmd.substring_char(i, i + 1);
                assert(tail.skip(1) =~= cmd@.skip(i + 1));
                assert(one@ =~= seq![tail[0]]);
                assert(replace_placeholders(tail, escaped@) == one@ + replace_placeholders(cmd@.skip(i + 1), escaped@));
                out.append(one);
                assert(out@ + replace_placeholders(cmd@.skip(i + 1), escaped@) == replace_placeholders(cmd@, escaped@));
                i = i + 1;
            }
        }
        assert(cmd@.skip(n as int) =~= Seq::<char>::empty());
        assert(out@ =~= replace_placeholders(cmd@, escaped@));
        out
    } else {
        let mut out: String = cmd.to_string();
        out.append(" ");
        proof {
            reveal_strlit(" ");
        }
        out.append(escaped);
        assert(out@ =~= cmd@ + seq![' '] + escaped@);
        out
    }
}

/// What to do with a file that the retention policies do not keep.
#[derive(Debug, PartialEq, Eq)]
pub enum TrashAction {
    /// Dry run: only report that the file would be moved.
    Report,
    /// Run this shell command, which moves or deletes the file.
    RunCommand(String),
    /// Move the file to the system trash.
    SystemTrash,
}

/// Decides how a file leaves: reported only in a dry run, else handed to the custom trash
/// command where one is given, else moved to the system trash.
pub fn trash_action(path: &str, dry_run: bool, trash_cmd: Option<&str>) -> (r: TrashAction)
    ensures
        dry_run ==> r == TrashAction::Report,
        !dry_run && trash_cmd is None ==> r == TrashAction::SystemTrash,
        !dry_run && trash_cmd is Some ==> (r matches TrashAction::RunCommand(c) && is_trash_command_line(
            trash_cmd.unwrap()@,
            path@,
            c@,
        )),
{
    if dry_run {
        TrashAction::Report
    } else {
        match trash_cmd {
            Some(cmd) => TrashAction::RunCommand(trash_command(cmd, path)),
            None => TrashAction::SystemTrash,
        }
    }
}

/// Why a rotation does not go ahead.
#[derive(Debug, Clone, Copy, PartialEq, Eq, Structural)]
pub enum RotationError {
    /// keep-last is 0; it must be at least 1.
    KeepLastZero,
    /// A retention window reaches beyond the dates that chrono can represent.
    WindowOutOfRange,
}

impl RotationError {
    /// The message that reports the error.
    pub fn message(&self) -> (r: &'static str)
        ensures
            *self == RotationError::KeepLastZero ==> r@ == "keep-last must be at least 1"@,
            *self == RotationError::WindowOutOfRange ==> r@ == "retention window is out of the supported date range"@,
    {
        match self {
            RotationError::KeepLastZero => "keep-last must be at least 1",
            RotationError::WindowOutOfRange => "retention window is out of the supported date range",
        }
    }
}

/// Refuses a configuration that keeps fewer than one of the last files.
pub fn check_rotation_config(config: &RetentionConfig) -> (r: Result<(), RotationError>)
    ensures
        r is Err <==> config.keep_last == 0,
        r matches Err(e) ==> e == RotationError::KeepLastZero,
{
    if config.keep_last == 0 {
        Err(RotationError::KeepLastZero)
    } else {
        Ok(())
    }
}

/// The outcome of the decisions of a rotation: the reasons of every file, and the
/// positions of the files that leave, in listing order.
pub struct RotationPlan {
    pub reasons: KeepReasons,
    pub to_trash: Vec<usize>,
}

/// The positions not kept by `reasons`, in increasing order.
pub open spec fn trash_positions(reasons: Seq<Set<crate::reason::RetentionReason>>, to_trash: Seq<usize>) -> bool {
    &&& forall|m: int| 0 <= m < to_trash.len() ==> #[trigger] to_trash[m] < reasons.len() && !has_any_reason(reasons[to_trash[m] as int])
    &&& forall|m1: int, m2: int| 0 <= m1 < m2 < to_trash.len() ==> #[trigger] to_trash[m1] < #[trigger] to_trash[m2]
    &&& forall|i: usize| i < reasons.len() && !has_any_reason(reasons[i as int]) ==> to_trash.contains(i)
}

/// The positions of the files that are not kept, in increasing order.
pub fn unkept_positions(reasons: &KeepReasons) -> (r: Vec<usize>)
    ensures
        trash_positions(reasons@, r@),
        kept_positions(reasons@).len() + r@.len() == reasons@.len(),
{
    let n: usize = reasons.num_files();
    let mut r: Vec<usize> = Vec::new();
    let mut i: usize = 0;
    let ghost mut kept_below: Set<usize> = Set::empty();
    while i < n
        invariant
            i <= n,
            n == reasons@.len(),
            kept_below == Set::new(|j: usize| j < i && has_any_reason(reasons@[j as int])),
            kept_below.finite(),
            kept_below.len() + r@.len() == i,
            forall|m: int| 0 <= m < r@.len() ==> #[trigger] r@[m] < i && !has_any_reason(reasons@[r@[m] as int]),
            forall|m1: int, m2: int| 0 <= m1 < m2 < r@.len() ==> #[trigger] r@[m1] < #[trigger] r@[m2],
            forall|j: usize| j < i && !has_any_reason(reasons@[j as int]) ==> r@.contains(j),
        decreases n - i,
    {
        let kept = reasons.contains_key(&i);
        let ghost old_r = r@;
        if !kept {
            r.push(i);
            assert(r@ == old_r.push(i));
            assert(r@[r@.len() - 1] == i);
        } else {
            assert(r@ == old_r);
        }
        proof {
            let next = Set::new(|j: usize| j < i + 1 && has_any_reason(reasons@[j as int]));
            if kept {
                assert(next =~= kept_below.insert(i));
                assert(!kept_below.contains(i));
            } else {
                assert(next =~= kept_below);
            }
            kept_below = next;
            assert forall|j: usize| j < i + 1 && !has_any_reason(reasons@[j as int]) implies r@.contains(j) by {
                if j < i {
                    assert(old_r.contains(j));
                    let m: int = choose|m: int| 0 <= m < old_r.len() && old_r[m] == j;
                    assert(r@[m] == old_r[m]);
                }
            }
        }
        i = i + 1;
    }
    assert(kept_below =~= kept_positions(reasons@));
    r
}

/// Decides a rotation of `files` (listed newest first) at `now`: refuses keep-last 0,
/// keeps nothing of an empty listing, and otherwise keeps the files that the retention
/// policies select and sends the others to the trash.
pub fn plan_rotation(files: &[FileInfo], config: &RetentionConfig, now: LocalDateTime) -> (r: Result<RotationPlan, RotationError>)
    ensures
        config.keep_last == 0 ==> r == Err::<RotationPlan, RotationError>(RotationError::KeepLastZero),
        config.keep_last > 0 && files@.len() == 0 ==> (r matches Ok(plan) && plan.reasons@.len() == 0 && plan.to_trash@.len() == 0),
        config.keep_last > 0 && files@.len() > 0 ==> match retention_cutoffs(*config, now) {
            None => r == Err::<RotationPlan, RotationError>(RotationError::WindowOutOfRange) && !windows_in_range(*config, now),
            Some(c) => (r matches Ok(plan) && plan.reasons@ == retention_model(files@, config.keep_last as int, c)),
        },
        r matches Ok(plan) ==> trash_positions(plan.reasons@, plan.to_trash@) && kept_positions(plan.reasons@).len()
            + plan.to_trash@.len() == files@.len(),
{
    match check_rotation_config(config) {
        Err(e) => return Err(e),
        Ok(()) => {},
    }
    if files.len() == 0 {
        let reasons = KeepReasons::empty(0);
        let to_trash = unkept_positions(&reasons);
        return Ok(RotationPlan { reasons, to_trash });
    }
    match compute_cutoffs(config, &now) {
        None => Err(RotationError::WindowOutOfRange),
        Some(c) => {
            let reasons = select_with_cutoffs(files, config.keep_last, &c);
            let to_trash = unkept_positions(&reasons);
            Ok(RotationPlan { reasons, to_trash })
        },
    }
}

} // verus!
