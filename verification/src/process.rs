//! The supervised child processes: their names, the registry that keeps them
//! in start order, and how their output events are reported.

use vstd::prelude::*;
use crate::paths::{BaseDir, FsPath, FsPathView, under2, under2_path};
use crate::text::{decode_lossy, i32_text, signed_decimal, utf8_lossy};

verus! {

/// The address the supervised processes are reached on.
pub open spec fn loopback_host() -> Seq<char> {
    "127.0.0.1"@
}

/// A process started by one of the packages.
#[derive(Clone, Copy, Debug, PartialEq, Eq, Structural)]
pub enum Process {
    /// The bundled MongoDB server.
    Mongod,
    /// The Music Server backend (a Node.js process).
    Backend,
    /// The admin UI server (a Node.js process).
    Ui,
}

/// The stable name of a process, used in console prefixes and log file names.
pub open spec fn process_label(p: Process) -> Seq<char> {
    match p {
        Process::Mongod => "mongod"@,
        Process::Backend => "backend"@,
        Process::Ui => "ui"@,
    }
}

impl Process {
    /// The stable name of the process.
    pub fn label(&self) -> (s: String)
        ensures
            s@ == process_label(*self),
    {
        match self {
            Process::Mongod => String::from_str("mongod"),
            Process::Backend => String::from_str("backend"),
            Process::Ui => String::from_str("ui"),
        }
    }
}

/// A supervised child process, tagged with the process it runs.
pub struct Managed<C> {
    pub process: Process,
    pub child: C,
}

/// The running children, in the order in which they were started.
pub struct ChildRegistry<C> {
    entries: Vec<Managed<C>>,
}

/// The model of a list of managed children: (process, child) in start order.
pub open spec fn entries_view<C>(v: Seq<Managed<C>>) -> Seq<(Process, C)> {
    v.map_values(|m: Managed<C>| (m.process, m.child))
}

/// The children in `s` that run process `p`, in start order.
pub open spec fn children_of<C>(s: Seq<(Process, C)>, p: Process) -> Seq<C>
    decreases s.len(),
{
    if s.len() == 0 {
        Seq::empty()
    } else if s.last().0 == p {
        children_of(s.drop_last(), p).push(s.last().1)
    } else {
        children_of(s.drop_last(), p)
    }
}

/// The entries of `s` that do not run process `p`, in start order.
pub open spec fn entries_without<C>(s: Seq<(Process, C)>, p: Process) -> Seq<(Process, C)>
    decreases s.len(),
{
    if s.len() == 0 {
        Seq::empty()
    } else if s.last().0 == p {
        entries_without(s.drop_last(), p)
    } else {
        entries_without(s.drop_last(), p).push(s.last())
    }
}

/// The children of `s`, the most recently started first.
pub open spec fn newest_first<C>(s: Seq<(Process, C)>) -> Seq<C>
    decreases s.len(),
{
    if s.len() == 0 {
        Seq::empty()
    } else {
        seq![s.last().1] + newest_first(s.drop_last())
    }
}

/// Taking the children of `p` splits the entries: none of those that stay
/// runs `p`, every entry either stays or is taken, and when no entry runs
/// `p` nothing is taken and everything stays.
pub proof fn lemma_take_named_splits<C>(s: Seq<(Process, C)>, p: Process)
    ensures
        forall|i: int| 0 <= i < entries_without(s, p).len() ==> #[trigger] entries_without(s, p)[i].0 != p,
        children_of(s, p).len() + entries_without(s, p).len() == s.len(),
        (forall|i: int| 0 <= i < s.len() ==> #[trigger] s[i].0 != p) ==> entries_without(s, p) == s
            && children_of(s, p).len() == 0,
    decreases s.len(),
{
    if s.len() > 0 {
        let r = s.drop_last();
        lemma_take_named_splits(r, p);
        if forall|i: int| 0 <= i < s.len() ==> #[trigger] s[i].0 != p {
            assert forall|i: int| 0 <= i < r.len() implies #[trigger] r[i].0 != p by {
                assert(r[i] == s[i]);
            }
            assert(s.last().0 != p);
            assert(r.push(s.last()) =~= s);
        }
    }
}

/// Taking the children of `p` takes exactly them: every child taken belongs
/// to an entry that runs `p`, and every entry that runs `p` has its child
/// taken.
pub proof fn lemma_take_named_takes_exactly<C>(s: Seq<(Process, C)>, p: Process)
    ensures
        forall|j: int| 0 <= j < children_of(s, p).len() ==>
            exists|i: int| 0 <= i < s.len() && s[i].0 == p && #[trigger] children_of(s, p)[j] == s[i].1,
        forall|i: int| 0 <= i < s.len() && #[trigger] s[i].0 == p ==>
            exists|j: int| 0 <= j < children_of(s, p).len() && children_of(s, p)[j] == s[i].1,
    decreases s.len(),
{
    if s.len() > 0 {
        let r = s.drop_last();
        let n = s.len() - 1;
        lemma_take_named_takes_exactly(r, p);
        let cr = children_of(r, p);
        let c = children_of(s, p);
        assert forall|j: int| 0 <= j < c.len() implies
            exists|i: int| 0 <= i < s.len() && s[i].0 == p && #[trigger] c[j] == s[i].1 by {
            if j < cr.len() {
                assert(c[j] == cr[j]);
                let i = choose|i: int| 0 <= i < r.len() && r[i].0 == p && cr[j] == r[i].1;
                assert(s[i] == r[i]);
            } else {
                assert(c[j] == s[n].1);
            }
        }
        assert forall|i: int| 0 <= i < s.len() && #[trigger] s[i].0 == p implies
            exists|j: int| 0 <= j < c.len() && c[j] == s[i].1 by {
            if i < n {
                assert(r[i] == s[i]);
                assert(r[i].0 == p);
                let j = choose|j: int| 0 <= j < cr.len() && cr[j] == r[i].1;
                assert(c[j] == cr[j]);
            } else {
                assert(c[c.len() - 1] == s[n].1);
            }
        }
    }
}

/// Taking the children of `p` keeps exactly the other entries: every entry
/// kept is one that does not run `p`, and every such entry is kept.
pub proof fn lemma_take_named_keeps_exactly<C>(s: Seq<(Process, C)>, p: Process)
    ensures
        forall|j: int| 0 <= j < entries_without(s, p).len() ==>
            exists|i: int| 0 <= i < s.len() && s[i].0 != p && #[trigger] entries_without(s, p)[j] == s[i],
        forall|i: int| 0 <= i < s.len() && #[trigger] s[i].0 != p ==>
            exists|j: int| 0 <= j < entries_without(s, p).len() && entries_without(s, p)[j] == s[i],
    decreases s.len(),
{
    if s.len() > 0 {
        let r = s.drop_last();
        let n = s.len() - 1;
        lemma_take_named_keeps_exactly(r, p);
        let kr = entries_without(r, p);
        let k = entries_without(s, p);
        assert forall|j: int| 0 <= j < k.len() implies
            exists|i: int| 0 <= i < s.len() && s[i].0 != p && #[trigger] k[j] == s[i] by {
            if j < kr.len() {
                assert(k[j] == kr[j]);
                let i = choose|i: int| 0 <= i < r.len() && r[i].0 != p && kr[j] == r[i];
                assert(s[i] == r[i]);
            } else {
                assert(k[j] == s[n]);
            }
        }
        assert forall|i: int| 0 <= i < s.len() && #[trigger] s[i].0 != p implies
            exists|j: int| 0 <= j < k.len() && k[j] == s[i] by {
            if i < n {
                assert(r[i] == s[i]);
                assert(r[i].0 != p);
                let j = choose|j: int| 0 <= j < kr.len() && kr[j] == r[i];
                assert(k[j] == kr[j]);
            } else {
                assert(k[k.len() - 1] == s[n]);
            }
        }
    }
}

/// Taking all children hands them out in exactly the reverse of the order in
/// which they were started.
pub proof fn lemma_newest_first_reverses<C>(s: Seq<(Process, C)>)
    ensures
        newest_first(s).len() == s.len(),
        forall|i: int| 0 <= i < s.len() ==> #[trigger] newest_first(s)[i] == s[s.len() - 1 - i].1,
    decreases s.len(),
{
    if s.len() > 0 {
        let r = s.drop_last();
        lemma_newest_first_reverses(r);
        assert forall|i: int| 0 <= i < s.len() implies #[trigger] newest_first(s)[i] == s[s.len() - 1 - i].1 by {
            if i > 0 {
                assert(newest_first(s)[i] == newest_first(r)[i - 1]);
                assert(r[r.len() - 1 - (i - 1)] == s[s.len() - 1 - i]);
            }
        }
    }
}

impl<C> View for ChildRegistry<C> {
    type V = Seq<(Process, C)>;

    closed spec fn view(&self) -> Seq<(Process, C)> {
        entries_view(self.entries@)
    }
}

impl<C> ChildRegistry<C> {
    /// A registry with no children.
    pub fn new() -> (r: Self)
        ensures
            r@ == Seq::<(Process, C)>::empty(),
    {
        let r = ChildRegistry { entries: Vec::new() };
        assert(r@ =~= Seq::<(Process, C)>::empty());
        r
    }

    /// Records a newly started child.
    pub fn push(&mut self, process: Process, child: C)
        ensures
            final(self)@ == old(self)@.push((process, child)),
    {
        self.entries.push(Managed { process, child });
        assert(self@ =~= old(self)@.push((process, child)));
    }

    /// Removes every child that runs `process` and hands them out, in start
    /// order, to be stopped; the others stay, in start order.
    pub fn take_named(&mut self, process: Process) -> (taken: Vec<C>)
        ensures
            taken@ == children_of(old(self)@, process),
            final(self)@ == entries_without(old(self)@, process),
    {
        let ghost orig = self@;
        let mut rest: Vec<Managed<C>> = Vec::new();
        std::mem::swap(&mut rest, &mut self.entries);
        let mut kept: Vec<Managed<C>> = Vec::new();
        let mut taken: Vec<C> = Vec::new();
        let ghost mut k: int = 0;
        assert(orig.take(0) =~= Seq::<(Process, C)>::empty());
        assert(entries_view(kept@) =~= Seq::<(Process, C)>::empty());
        while rest.len() > 0
            invariant
                0 <= k <= orig.len(),
                rest@.len() == orig.len() - k,
                entries_view(rest@) == orig.skip(k),
                taken@ == children_of(orig.take(k), process),
                entries_view(kept@) == entries_without(orig.take(k), process),
            decreases rest.len(),
        {
            let ghost old_rest = rest@;
            let m = rest.remove(0);
            proof {
                assert(entries_view(old_rest)[0] == orig.skip(k)[0]);
                assert(orig.skip(k)[0] == orig[k]);
                assert(rest@ =~= old_rest.drop_first());
                assert forall|i: int| 0 <= i < rest@.len() implies entries_view(rest@)[i] == orig.skip(k + 1)[i] by {
                    assert(rest@[i] == old_rest[i + 1]);
                    assert(entries_view(old_rest)[i + 1] == orig.skip(k)[i + 1]);
                }
                assert(entries_view(rest@) =~= orig.skip(k + 1));
                assert(orig.take(k + 1).drop_last() =~= orig.take(k));
                assert(orig.take(k + 1).last() == orig[k]);
            }
            if m.process == process {
                taken.push(m.child);
            } else {
                let ghost before = kept@;
                kept.push(m);
                assert(entries_view(kept@) =~= entries_view(before).push(orig[k]));
            }
            proof {
                k = k + 1;
            }
        }
        assert(orig.take(k) =~= orig);
        self.entries = kept;
        taken
    }

    /// Removes every child and hands them out, the most recently started
    /// first (so the backend stops before the database it uses).
    pub fn take_all(&mut self) -> (taken: Vec<C>)
        ensures
            taken@ == newest_first(old(self)@),
            final(self)@ == Seq::<(Process, C)>::empty(),
    {
        let ghost orig = self@;
        let mut rest: Vec<Managed<C>> = Vec::new();
        std::mem::swap(&mut rest, &mut self.entries);
        let mut taken: Vec<C> = Vec::new();
        while rest.len() > 0
            invariant
                taken@ + newest_first(entries_view(rest@)) == newest_first(orig),
            decreases rest.len(),
        {
            let ghost before = rest@;
            let m = rest.pop().unwrap();
            proof {
                assert(entries_view(before).drop_last() =~= entries_view(rest@));
                assert(entries_view(before).last() == (m.process, m.child));
                assert(taken@.push(m.child) + newest_first(entries_view(rest@))
                    =~= taken@ + newest_first(entries_view(before)));
            }
            taken.push(m.child);
        }
        assert(taken@ + newest_first(entries_view(rest@)) =~= taken@);
        assert(self@ =~= Seq::<(Process, C)>::empty());
        taken
    }
}

/// Something a child process reported.
pub enum ProcessEvent {
    /// A chunk of its standard output.
    Stdout(Vec<u8>),
    /// A chunk of its standard error.
    Stderr(Vec<u8>),
    /// An error while reading from it.
    Error(String),
    /// It terminated, with its exit code when it has one.
    Terminated(Option<i32>),
    /// Any other notification, which is not reported.
    Other,
}

/// How an exit code is shown: `Some(<code>)` or `None`.
pub open spec fn exit_code_text(code: Option<i32>) -> Seq<char> {
    match code {
        Some(c) => "Some("@ + signed_decimal(c as int) + ")"@,
        None => "None"@,
    }
}

/// The text reported for an event: the output as (lossily decoded) text, or
/// a line describing the error or the termination; nothing for any other
/// event.
pub open spec fn event_text(e: &ProcessEvent) -> Option<Seq<char>> {
    match e {
        ProcessEvent::Stdout(b) => Some(utf8_lossy(b@)),
        ProcessEvent::Stderr(b) => Some(utf8_lossy(b@)),
        ProcessEvent::Error(msg) => Some("error: "@ + msg@ + "\n"@),
        ProcessEvent::Terminated(code) => Some("terminated: code="@ + exit_code_text(*code) + "\n"@),
        ProcessEvent::Other => None,
    }
}

impl ProcessEvent {
    /// Whether the event says that the process has exited.
    pub fn is_exit(&self) -> (b: bool)
        ensures
            b == (*self is Terminated),
    {
        match self {
            ProcessEvent::Terminated(_) => true,
            _ => false,
        }
    }
}

/// The text reported for an event; see `event_text`.
pub fn event_line(event: &ProcessEvent) -> (line: Option<String>)
    ensures
        line matches Some(l) ==> event_text(event) == Some(l@),
        line is None ==> event_text(event) is None,
{
    match event {
        ProcessEvent::Stdout(b) => Some(decode_lossy(b.as_slice())),
        ProcessEvent::Stderr(b) => Some(decode_lossy(b.as_slice())),
        ProcessEvent::Error(msg) => {
            let mut s = String::from_str("error: ");
            s.append(msg.as_str());
            s.append("\n");
            Some(s)
        },
        ProcessEvent::Terminated(code) => {
            let mut s = String::from_str("terminated: code=");
            match code {
                Some(c) => {
                    s.append("Some(");
                    let n = i32_text(*c);
                    s.append(n.as_str());
                    s.append(")");
                },
                None => {
                    s.append("None");
                },
            }
            s.append("\n");
            proof {
                assert(s@ =~= "terminated: code="@ + exit_code_text(*code) + "\n"@);
            }
            Some(s)
        },
        ProcessEvent::Other => None,
    }
}

/// The text the backend supervisor logs for an event: the reported text,
/// unless there is none or it is empty.
pub fn logged_line(event: &ProcessEvent) -> (line: Option<String>)
    ensures
        line matches Some(l) ==> event_text(event) == Some(l@) && l@.len() > 0,
        line is None ==> (event_text(event) is None || event_text(event).unwrap().len() == 0),
{
    match event_line(event) {
        Some(l) => {
            if l.as_str().is_empty() {
                None
            } else {
                Some(l)
            }
        },
        None => None,
    }
}

/// A line written to the console for a process: its name in brackets, a
/// space, and the text.
pub fn console_line(process: Process, text: &str) -> (s: String)
    ensures
        s@ == "["@ + process_label(process) + "] "@ + text@,
{
    let mut s = String::from_str("[");
    let label = process.label();
    s.append(label.as_str());
    s.append("] ");
    s.append(text);
    s
}

/// Where the output of a process is logged: `logs/<name>.log` below the
/// data directory.
pub open spec fn log_location(process: Process) -> FsPathView {
    under2(BaseDir::AppData, "logs"@, process_label(process) + ".log"@)
}

/// The log file of a process; see `log_location`.
pub fn log_file(process: Process) -> (p: FsPath)
    ensures
        p@ == log_location(process),
{
    let mut name = process.label();
    name.append(".log");
    under2_path(BaseDir::AppData, "logs", name.as_str())
}

} // verus!
