//! Where each Work lives on disk: one dedicated workspace directory per
//! Work, one control directory per attempt, and the append-only records
//! kept in them.
use vstd::prelude::*;

use crate::control::ports::OperatorInput;
use crate::decimal::{decimal, decimal_spec};
use crate::domain::ids::{AttemptId, ExecutionId, WorkId};
use crate::domain::outcome::{outcome_kind_name, OutcomeKind};
use crate::domain::status::{status_name, WorkStatus};
use crate::external::{json_quote, json_quoted};
use crate::control::integrations::{signed_decimal, signed_decimal_text};
use crate::control::error::AppError;
use crate::text::{chars_of, join2, join_path, owned, path_join, starts_with_str, str_eq};
use vstd::string::StrSliceExecFns;
use vstd::string::StringExecFns;

verus! {

/// The file the goal is written to, as data, in every workspace.
pub const GOAL_FILE: &'static str = "workengine-goal.txt";

/// Workspaces and attempt control directories under one data directory.
pub struct DirWorkspaceFactory {
    root: String,
    control_root: String,
}

impl DirWorkspaceFactory {
    /// Workspaces go under `<data_dir>/workspaces`, control directories under
    /// `<data_dir>/control`.
    pub fn new(data_dir: &str) -> (r: DirWorkspaceFactory)
        ensures
            r.root()@ == path_join(data_dir@, "workspaces"@),
            r.control_root()@ == path_join(data_dir@, "control"@),
    {
        proof {
            reveal_strlit("workspaces");
            reveal_strlit("control");
        }
        DirWorkspaceFactory {
            root: join_path(data_dir, "workspaces"),
            control_root: join_path(data_dir, "control"),
        }
    }

    pub closed spec fn root(&self) -> String {
        self.root
    }

    pub closed spec fn control_root(&self) -> String {
        self.control_root
    }

    /// The directory that holds every workspace.
    pub fn workspaces_root(&self) -> (r: &str)
        ensures
            r@ == self.root()@,
    {
        self.root.as_str()
    }

    /// The workspace of one Work: its id under the workspaces root.
    pub fn dir(&self, work_id: &WorkId) -> (r: String)
        ensures
            r@ == path_join(self.root()@, work_id@),
    {
        proof {
            use_type_invariant(work_id);
            assert(crate::text::is_id_char(work_id@[0]));
        }
        join_path(self.root.as_str(), work_id.as_str())
    }

    /// The control directory of one attempt:
    /// `<control>/<work>/<execution>/<attempt>`.
    pub fn attempt_control_dir(
        &self,
        work_id: &WorkId,
        execution_id: &ExecutionId,
        attempt_id: &AttemptId,
    ) -> (r: String)
        ensures
            r@ == path_join(
                path_join(path_join(self.control_root()@, work_id@), execution_id@),
                attempt_id@,
            ),
    {
        proof {
            use_type_invariant(work_id);
            use_type_invariant(execution_id);
            use_type_invariant(attempt_id);
            assert(crate::text::is_id_char(work_id@[0]));
            assert(crate::text::is_id_char(execution_id@[0]));
            assert(crate::text::is_id_char(attempt_id@[0]));
        }
        let w = join_path(self.control_root.as_str(), work_id.as_str());
        let e = join_path(w.as_str(), execution_id.as_str());
        join_path(e.as_str(), attempt_id.as_str())
    }
}

/// Two different names joined under one base give two different paths.
pub proof fn lemma_path_join_injective(base: Seq<char>, a: Seq<char>, b: Seq<char>)
    requires
        path_join(base, a) == path_join(base, b),
    ensures
        a == b,
{
    reveal_strlit("/");
    let pa = path_join(base, a);
    let pb = path_join(base, b);
    let k: int = if base.len() == 0 {
        0
    } else if base.last() == '/' {
        base.len() as int
    } else {
        base.len() + 1int
    };
    assert(a =~= pa.subrange(k, pa.len() as int));
    assert(b =~= pb.subrange(k, pb.len() as int));
}

/// Two Works never share a workspace: different ids give different
/// directories, both under the workspaces root.
pub proof fn lemma_workspaces_are_disjoint(factory: DirWorkspaceFactory, a: WorkId, b: WorkId)
    requires
        a@ != b@,
    ensures
        path_join(factory.root()@, a@) != path_join(factory.root()@, b@),
        path_join(factory.root()@, a@).subrange(0, factory.root()@.len() as int) == factory.root()@,
{
    if path_join(factory.root()@, a@) == path_join(factory.root()@, b@) {
        lemma_path_join_injective(factory.root()@, a@, b@);
    }
    let base = factory.root()@;
    let p = path_join(base, a@);
    assert(p.subrange(0, base.len() as int) =~= base);
}

/// One line of a Work's memory log.
pub open spec fn memory_json(work_id: Seq<char>, status: WorkStatus, kind: OutcomeKind) -> Seq<char> {
    "{\"schemaVersion\":1,\"workId\":"@ + json_quoted(work_id) + ",\"status\":"@ + json_quoted(
        status_name(status),
    ) + ",\"outcomeKind\":"@ + json_quoted(outcome_kind_name(kind)) + "}"@
}

/// Writes one memory line.
pub fn memory_line(work_id: &WorkId, status: WorkStatus, kind: OutcomeKind) -> (r: String)
    ensures
        r@ == memory_json(work_id@, status, kind),
{
    let mut s = join2("{\"schemaVersion\":1,\"workId\":", json_quote(work_id.as_str()).as_str());
    s.append(",\"status\":");
    s.append(json_quote(status.as_str()).as_str());
    s.append(",\"outcomeKind\":");
    s.append(json_quote(kind.as_str()).as_str());
    s.append("}");
    s
}

/// One line of a Work's operator-input log.
pub open spec fn operator_input_json(work_id: Seq<char>, input: OperatorInput) -> Seq<char> {
    "{\"schemaVersion\":1,\"inputId\":"@ + signed_decimal(input.id as int) + ",\"workId\":"@
        + json_quoted(work_id) + ",\"kind\":"@ + json_quoted(
        if input.kind is Answer {
            "answer"@
        } else {
            "consent"@
        },
    ) + ",\"body\":"@ + json_quoted(input.body@) + ",\"createdAtUnixMs\":"@ + decimal_spec(
        input.created_at_unix_ms as nat,
    ) + "}"@
}

/// Writes one operator-input line.
pub fn operator_input_line(work_id: &WorkId, input: &OperatorInput) -> (r: String)
    ensures
        r@ == operator_input_json(work_id@, *input),
{
    let mut s = join2("{\"schemaVersion\":1,\"inputId\":", signed_decimal_text(input.id).as_str());
    s.append(",\"workId\":");
    s.append(json_quote(work_id.as_str()).as_str());
    s.append(",\"kind\":");
    s.append(json_quote(input.kind.as_str()).as_str());
    s.append(",\"body\":");
    s.append(json_quote(input.body.as_str()).as_str());
    s.append(",\"createdAtUnixMs\":");
    s.append(decimal(input.created_at_unix_ms).as_str());
    s.append("}");
    s
}

/// Whether a line goes into an append-only log: unless it repeats the last
/// line already there, so that a retried write leaves one record.
pub fn should_append(last_line: Option<&str>, line: &str) -> (r: bool)
    ensures
        r == match last_line {
            None => true,
            Some(l) => l@ != line@,
        },
{
    match last_line {
        None => true,
        Some(l) => !str_eq(l, line),
    }
}

/// The last line of a text as `str::lines` yields it: none for an empty
/// text; else the text after its last line break, once a final `\n` or
/// `\r\n` is dropped.
pub open spec fn last_line_spec(text: Seq<char>) -> Option<Seq<char>> {
    if text.len() == 0 {
        None
    } else {
        let body = if text.len() >= 2 && text[text.len() - 2] == '\r' && text.last() == '\n' {
            text.subrange(0, text.len() - 2)
        } else if text.last() == '\n' {
            text.drop_last()
        } else {
            text
        };
        Some(body.subrange(line_start(body), body.len() as int))
    }
}

/// Where the last line of `body` starts: after its last `\n`, or at 0.
pub open spec fn line_start(body: Seq<char>) -> int
    decreases body.len(),
{
    if body.len() == 0 {
        0
    } else if body.last() == '\n' {
        body.len() as int
    } else {
        line_start(body.drop_last())
    }
}

/// The last line of a log file's text, which decides whether a new line
/// repeats it.
pub fn last_line(text: &str) -> (r: Option<String>)
    ensures
        match last_line_spec(text@) {
            None => r is None,
            Some(l) => r matches Some(s) && s@ == l,
        },
{
    let v = chars_of(text);
    let n = v.len();
    if n == 0 {
        return None;
    }
    let end: usize = if n >= 2 && v[n - 2] == '\r' && v[n - 1] == '\n' {
        n - 2
    } else if v[n - 1] == '\n' {
        n - 1
    } else {
        n
    };
    let ghost body = text@.subrange(0, end as int);
    proof {
        if n >= 2 && v@[n - 2] == '\r' && v@[n - 1] == '\n' {
            assert(body =~= text@.subrange(0, text@.len() - 2));
        } else if v@[n - 1] == '\n' {
            assert(body =~= text@.drop_last());
        } else {
            assert(body =~= text@);
        }
    }
    let mut start: usize = end;
    assert(body.subrange(0, end as int) =~= body);
    while start > 0 && v[start - 1] != '\n'
        invariant
            v@ == text@,
            end <= v@.len(),
            body == text@.subrange(0, end as int),
            start <= end,
            line_start(body) == line_start(body.subrange(0, start as int)),
            forall|k: int| start <= k < end ==> body[k] != '\n',
        decreases start,
    {
        assert(body.subrange(0, start - 1) =~= body.subrange(0, start as int).drop_last());
        start = start - 1;
    }
    proof {
        let pre = body.subrange(0, start as int);
        if start > 0 {
            assert(pre.last() == '\n');
        } else {
            assert(pre.len() == 0);
        }
        assert(line_start(body) == start);
        assert(body.subrange(line_start(body), body.len() as int) =~= text@.subrange(
            start as int,
            end as int,
        ));
    }
    Some(owned(text.substring_char(start, end)))
}

/// Whether a bound workspace receives a copy of the checkout: only when it
/// did not exist before and a checkout was given, so a rebind never
/// overwrites the Worker's changes.
pub fn copies_checkout(existed: bool, checkout: Option<&str>) -> (r: bool)
    ensures
        r == (!existed && checkout is Some),
{
    !existed && checkout.is_some()
}

/// A checkout may be copied into a workspace only when it is a directory
/// and is not the workspace root itself (both paths canonical).
pub fn check_checkout_source(
    is_dir: bool,
    shown: &str,
    source: &str,
    destination: &str,
) -> (r: Result<(), AppError>)
    ensures
        !is_dir ==> (r matches Err(AppError::Workspace(m)) && m@ == "checkout is not a directory: "@
            + shown@),
        is_dir && source@ == destination@ ==> (r matches Err(AppError::Workspace(m)) && m@
            == "checkout is the workspace root"@),
        is_dir && source@ != destination@ ==> r is Ok,
{
    if !is_dir {
        return Err(AppError::Workspace(join2("checkout is not a directory: ", shown)));
    }
    if str_eq(source, destination) {
        return Err(AppError::workspace("checkout is the workspace root"));
    }
    Ok(())
}

/// Whether a canonical `path` lies at or below a canonical directory `dir`,
/// comparing whole components.
pub open spec fn lies_within_spec(path: Seq<char>, dir: Seq<char>) -> bool {
    ||| path == dir
    ||| (dir.len() > 0 && dir.last() == '/' && dir.len() <= path.len() && path.subrange(
        0,
        dir.len() as int,
    ) == dir)
    ||| (dir.len() + 1 <= path.len() && path.subrange(0, dir.len() as int) == dir && path[dir.len() as int]
        == '/')
}

/// Whether a canonical `path` lies at or below a canonical directory `dir`.
pub fn lies_within(path: &str, dir: &str) -> (r: bool)
    ensures
        r == lies_within_spec(path@, dir@),
{
    if str_eq(path, dir) {
        return true;
    }
    let p = chars_of(path);
    let d = chars_of(dir);
    if !starts_with_str(path, dir) {
        return false;
    }
    if d.len() > 0 && d[d.len() - 1] == '/' {
        return true;
    }
    d.len() < p.len() && p[d.len()] == '/'
}

/// What a directory entry is, as read without following links.
#[derive(Clone, Copy, Debug, PartialEq, Eq, Structural)]
pub enum EntryKind {
    Symlink,
    Directory,
    File,
    Other,
}

/// What copying a checkout does with one entry.
#[derive(Clone, Copy, Debug, PartialEq, Eq, Structural)]
pub enum CopyAction {
    /// Leave it out.
    Skip,
    /// Copy the directory's entries, recursively.
    Descend,
    /// Copy the file's bytes.
    CopyFile,
}

/// What a checkout copy does with the entry at `from`: the workspace
/// itself, and any directory that holds it, are left out, so a checkout
/// that contains the workspace does not copy into itself; links are never
/// followed or copied; directories are copied recursively and files byte
/// for byte; anything else is left out.
pub fn copy_action(from: &str, workspace: &str, kind: EntryKind) -> (r: CopyAction)
    ensures
        lies_within_spec(workspace@, from@) ==> r == CopyAction::Skip,
        !lies_within_spec(workspace@, from@) ==> r == match kind {
            EntryKind::Directory => CopyAction::Descend,
            EntryKind::File => CopyAction::CopyFile,
            _ => CopyAction::Skip,
        },
{
    if lies_within(workspace, from) {
        return CopyAction::Skip;
    }
    match kind {
        EntryKind::Directory => CopyAction::Descend,
        EntryKind::File => CopyAction::CopyFile,
        _ => CopyAction::Skip,
    }
}

} // verus!
