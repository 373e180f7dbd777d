//! The process/window snapshot: the records the enumeration collaborator
//! produces, the fold that groups enumerated windows under their owning
//! processes, and the single-writer cell that publishes a whole snapshot at
//! a time.

use vstd::prelude::*;

verus! {

/// One top-level window as enumerated: title, class name, handle,
/// visibility and bounding rectangle.
#[derive(Debug)]
pub struct Window {
    pub title: String,
    pub class_name: String,
    pub hwnd: isize,
    pub visible: bool,
    pub x: i32,
    pub y: i32,
    pub width: i32,
    pub height: i32,
}

impl Clone for Window {
    fn clone(&self) -> (r: Window)
        ensures
            r == *self,
    {
        Window {
            title: self.title.clone(),
            class_name: self.class_name.clone(),
            hwnd: self.hwnd,
            visible: self.visible,
            x: self.x,
            y: self.y,
            width: self.width,
            height: self.height,
        }
    }
}

/// One process: its executable name, its id, its "main" window (the first
/// visible one recorded), and all of its recorded windows.
#[derive(Clone, Debug)]
pub struct Process {
    pub name: String,
    pub pid: u32,
    pub main: Option<Window>,
    pub windows: Vec<Window>,
}

/// A process entry as freshly inserted: no main window and no windows yet.
pub open spec fn fresh_process(p: Process, pid: u32, name: String) -> bool {
    &&& p.pid == pid
    &&& p.name == name
    &&& p.main is None
    &&& p.windows@.len() == 0
}

/// The index of the first entry owned by `pid`, if any.
pub fn find_process(procs: &Vec<Process>, pid: u32) -> (r: Option<usize>)
    ensures
        match r {
            Some(j) => (j as int) < procs@.len() && procs@[j as int].pid == pid
                && forall|i: int| 0 <= i < j ==> procs@[i].pid != pid,
            None => forall|i: int| 0 <= i < procs@.len() ==> procs@[i].pid != pid,
        },
{
    let n = procs.len();
    let mut j: usize = 0;
    while j < n
        invariant
            n == procs@.len(),
            j <= n,
            forall|i: int| 0 <= i < j ==> procs@[i].pid != pid,
        decreases n - j,
    {
        if procs[j].pid == pid {
            return Some(j);
        }
        j = j + 1;
    }
    None
}

/// Enters a freshly enumerated process: the first entry with the same id is
/// replaced by an empty record, or a new record is appended when the id is
/// new.
pub fn upsert_process(procs: &mut Vec<Process>, pid: u32, name: String)
    ensures
        forall|j: int| 0 <= j < old(procs)@.len() && old(procs)@[j].pid == pid
            && (forall|i: int| 0 <= i < j ==> old(procs)@[i].pid != pid)
            ==> final(procs)@.len() == old(procs)@.len()
                && (forall|i: int| 0 <= i < old(procs)@.len() && i != j
                    ==> final(procs)@[i] == old(procs)@[i])
                && fresh_process(final(procs)@[j], pid, name),
        (forall|i: int| 0 <= i < old(procs)@.len() ==> old(procs)@[i].pid != pid)
            ==> final(procs)@.len() == old(procs)@.len() + 1
                && (forall|i: int| 0 <= i < old(procs)@.len()
                    ==> final(procs)@[i] == old(procs)@[i])
                && fresh_process(final(procs)@[old(procs)@.len() as int], pid, name),
{
    let fresh = Process { name, pid, main: None, windows: Vec::new() };
    match find_process(procs, pid) {
        Some(j) => {
            let entry = &mut procs[j];
            *entry = fresh;
        },
        None => {
            procs.push(fresh);
        },
    }
}

/// The process entry after one of its windows is recorded: the window is
/// appended, and it becomes the main window when it is visible and no main
/// window was set yet.
pub open spec fn with_window(p: Process, p2: Process, w: Window) -> bool {
    &&& p2.pid == p.pid
    &&& p2.name == p.name
    &&& p2.windows@ == p.windows@.push(w)
    &&& p2.main == if w.visible && p.main is None {
        Some(w)
    } else {
        p.main
    }
}

/// Records one enumerated window under its owning process.  Windows with an
/// empty title, and windows of processes that are not in the snapshot, are
/// skipped.
pub fn record_window(procs: &mut Vec<Process>, pid: u32, w: Window)
    ensures
        w.title@.len() == 0 ==> *final(procs) == *old(procs),
        w.title@.len() > 0
            && (forall|i: int| 0 <= i < old(procs)@.len() ==> old(procs)@[i].pid != pid)
            ==> *final(procs) == *old(procs),
        forall|j: int| w.title@.len() > 0 && 0 <= j < old(procs)@.len()
            && old(procs)@[j].pid == pid
            && (forall|i: int| 0 <= i < j ==> old(procs)@[i].pid != pid)
            ==> final(procs)@.len() == old(procs)@.len()
                && (forall|i: int| 0 <= i < old(procs)@.len() && i != j
                    ==> final(procs)@[i] == old(procs)@[i])
                && with_window(old(procs)@[j], final(procs)@[j], w),
{
    if w.title.as_str().is_empty() {
        return ;
    }
    match find_process(procs, pid) {
        Some(j) => {
            let entry = &mut procs[j];
            if w.visible && entry.main.is_none() {
                entry.main = Some(w.clone());
            }
            entry.windows.push(w);
        },
        None => {},
    }
}

/// The snapshot cell: the enumeration collaborator replaces the whole value
/// at once, so a reader never observes a partially built snapshot.
pub struct SnapshotCell {
    pub current: Vec<Process>,
}

impl SnapshotCell {
    pub fn new() -> (c: SnapshotCell)
        ensures
            c.current@.len() == 0,
    {
        SnapshotCell { current: Vec::new() }
    }

    /// Publishes a complete new snapshot by whole-value replacement.
    pub fn publish(&mut self, fresh: Vec<Process>)
        ensures
            final(self).current == fresh,
    {
        self.current = fresh;
    }

    /// The latest published snapshot.
    pub fn latest(&self) -> (r: &Vec<Process>)
        ensures
            *r == self.current,
    {
        &self.current
    }
}

} // verus!
