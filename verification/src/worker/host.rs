//! Reading the host's process table: which entries of `/proc` are
//! processes, whose user owns each, and how many tasks a user runs. The
//! count feeds the process ceiling of a sandboxed Worker.
use vstd::prelude::*;

use crate::text::{
    chars_of, first_word, first_word_of, is_ascii_digit_spec, lines_of, starts_with_str, text_lines,
    texts,
};
use vstd::string::StrSliceExecFns;

verus! {

/// Whether a `/proc` entry names a process: every character is an ASCII
/// digit (as `bytes().all(..)` holds of an empty name too).
pub open spec fn is_process_dir_spec(name: Seq<char>) -> bool {
    forall|i: int| 0 <= i < name.len() ==> is_ascii_digit_spec(#[trigger] name[i])
}

/// Whether a `/proc` entry names a process.
pub fn is_process_dir_name(name: &str) -> (r: bool)
    ensures
        r == is_process_dir_spec(name@),
{
    let v = chars_of(name);
    let mut i: usize = 0;
    while i < v.len()
        invariant
            v@ == name@,
            i <= v.len(),
            forall|j: int| 0 <= j < i ==> is_ascii_digit_spec(#[trigger] name@[j]),
        decreases v.len() - i,
    {
        if !('0' <= v[i] && v[i] <= '9') {
            return false;
        }
        i = i + 1;
    }
    true
}

/// The label of the line of `/proc/<pid>/status` that names the real
/// user id.
pub open spec fn uid_label() -> Seq<char> {
    "Uid:\t"@
}

/// What follows the label on the first line that starts with it.
pub open spec fn after_label(lines: Seq<Seq<char>>) -> Option<Seq<char>>
    decreases lines.len(),
{
    if lines.len() == 0 {
        None
    } else if lines[0].len() >= 5 && lines[0].subrange(0, 5) == uid_label() {
        Some(lines[0].subrange(5, lines[0].len() as int))
    } else {
        after_label(lines.drop_first())
    }
}

/// The real user id a process status reports: the first word after the
/// label on the first line that carries it.
pub open spec fn status_uid(status: Seq<char>) -> Option<Seq<char>> {
    match after_label(lines_of(status)) {
        Some(rest) => first_word(rest),
        None => None,
    }
}

/// The real user id in the text of a process status, if it names one.
pub fn proc_status_uid(status: &str) -> (r: Option<String>)
    ensures
        match status_uid(status@) {
            None => r is None,
            Some(u) => r matches Some(t) && t@ == u,
        },
{
    let label = "Uid:\t";
    proof {
        reveal_strlit("Uid:\t");
    }
    let lines = text_lines(status);
    let ghost all = texts(lines@);
    let mut i: usize = 0;
    assert(all.subrange(0, all.len() as int) =~= all);
    while i < lines.len()
        invariant
            all == texts(lines@),
            all == lines_of(status@),
            i <= lines@.len(),
            label@ == uid_label(),
            after_label(all) == after_label(all.subrange(i as int, all.len() as int)),
        decreases lines.len() - i,
    {
        proof {
            reveal_strlit("Uid:\t");
        }
        let line = lines[i].as_str();
        assert(all[i as int] == line@);
        let ghost tail = all.subrange(i as int, all.len() as int);
        assert(tail[0] == line@);
        assert(tail.drop_first() =~= all.subrange(i + 1, all.len() as int));
        if starts_with_str(line, label) {
            let n = chars_of(line).len();
            let rest = line.substring_char(5, n);
            assert(rest@ =~= line@.subrange(5, line@.len() as int));
            return first_word_of(rest);
        }
        i = i + 1;
    }
    assert(all.subrange(i as int, all.len() as int) =~= Seq::<Seq<char>>::empty());
    None
}

/// One process of the host table: the user id its status names, if any,
/// and how many tasks it runs, if that could be read.
pub struct HostProcess {
    pub uid: Option<String>,
    pub tasks: Option<u64>,
}

/// The tasks a process counts for: those it runs, or one when they could
/// not be read.
pub open spec fn task_weight(p: HostProcess) -> nat {
    match p.tasks {
        Some(t) => t as nat,
        None => 1,
    }
}

/// The tasks of the processes owned by `uid`.
pub open spec fn owned_tasks(ps: Seq<HostProcess>, uid: Seq<char>) -> nat
    decreases ps.len(),
{
    if ps.len() == 0 {
        0
    } else {
        owned_tasks(ps.drop_last(), uid) + if ps.last().uid matches Some(u) && u@ == uid {
            task_weight(ps.last())
        } else {
            0
        }
    }
}

/// How many tasks the processes of user `uid` run, capped at `u64::MAX`.
pub fn owned_task_count(processes: &[HostProcess], uid: &str) -> (r: u64)
    ensures
        r == if owned_tasks(processes@, uid@) > u64::MAX {
            u64::MAX as nat
        } else {
            owned_tasks(processes@, uid@)
        },
{
    let mut total: u64 = 0;
    let mut i: usize = 0;
    while i < processes.len()
        invariant
            i <= processes@.len(),
            total == if owned_tasks(processes@.take(i as int), uid@) > u64::MAX {
                u64::MAX as nat
            } else {
                owned_tasks(processes@.take(i as int), uid@)
            },
        decreases processes.len() - i,
    {
        assert(processes@.take(i + 1).drop_last() =~= processes@.take(i as int));
        let p = &processes[i];
        let owned = match &p.uid {
            Some(u) => crate::text::str_eq(u.as_str(), uid),
            None => false,
        };
        if owned {
            let weight = match p.tasks {
                Some(t) => t,
                None => 1,
            };
            total = total.saturating_add(weight);
        }
        i = i + 1;
    }
    assert(processes@.take(processes.len() as int) =~= processes@);
    total
}

} // verus!
