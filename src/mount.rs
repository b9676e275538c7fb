//! The kernel filesystems bound into the staged root, and the discipline of
//! their handles: acquired in a fixed order, stopped at the first failure,
//! released in exactly the reverse order.
use crate::fs::{join_path, joined};
use vstd::prelude::*;
use vstd::string::StringExecFns;

verus! {

/// One kernel filesystem to mount.
pub struct KernelMount {
    pub source: String,
    pub target: String,
    pub fstype: String,
    pub data: Option<String>,
}

/// A kernel mount as plain values.
pub ghost struct KernelMountView {
    pub source: Seq<char>,
    pub target: Seq<char>,
    pub fstype: Seq<char>,
    pub data: Option<Seq<char>>,
}

impl View for KernelMount {
    type V = KernelMountView;

    open spec fn view(&self) -> KernelMountView {
        KernelMountView {
            source: self.source@,
            target: self.target@,
            fstype: self.fstype@,
            data: match self.data {
                Some(d) => Some(d@),
                None => None,
            },
        }
    }
}

/// The mounts of a staged root, in the order in which they are made.
pub open spec fn kernel_mounts(root: Seq<char>) -> Seq<KernelMountView> {
    seq![
        KernelMountView {
            source: "devtmpfs"@,
            target: joined(root, "dev"@),
            fstype: "devtmpfs"@,
            data: None,
        },
        KernelMountView {
            source: "devpts"@,
            target: joined(root, "dev/pts"@),
            fstype: "devpts"@,
            data: Some("gid=5"@),
        },
        KernelMountView { source: "proc"@, target: joined(root, "proc"@), fstype: "proc"@, data: None },
        KernelMountView {
            source: "sysfs"@,
            target: joined(root, "sys"@),
            fstype: "sysfs"@,
            data: None,
        },
    ]
}

/// One mount of the plan, its target placed under `root`.
fn kernel_mount(source: &str, root: &str, target: &str, fstype: &str, data: Option<&str>) -> (r:
    KernelMount)
    ensures
        r.source@ == source@,
        r.target@ == joined(root@, target@),
        r.fstype@ == fstype@,
        r.data is Some <==> data is Some,
        data is Some ==> r.data->Some_0@ == data->Some_0@,
{
    KernelMount {
        source: String::from_str(source),
        target: join_path(root, target),
        fstype: String::from_str(fstype),
        data: match data {
            Some(d) => Some(String::from_str(d)),
            None => None,
        },
    }
}

/// The handles that each outcome in turn left held: one per success.
pub open spec fn acquired<H>(outcomes: Seq<Option<H>>) -> Seq<H>
    decreases outcomes.len(),
{
    if outcomes.len() == 0 {
        Seq::empty()
    } else {
        match outcomes.last() {
            Some(h) => acquired(outcomes.drop_last()).push(h),
            None => acquired(outcomes.drop_last()),
        }
    }
}

/// The mounting of a staged root's kernel filesystems, one at a time, by a
/// caller that makes each mount and reports its handle, or its failure.
pub struct MountSession<H> {
    plan: Vec<KernelMount>,
    held: Vec<H>,
    failed: bool,
    outcomes: Ghost<Seq<Option<H>>>,
}

impl<H> MountSession<H> {
    /// The mounts to make, in order.
    pub closed spec fn plan(&self) -> Seq<KernelMountView> {
        self.plan@.map_values(|m: KernelMount| m@)
    }

    /// The handles held, in the order in which they were acquired.
    pub closed spec fn held(&self) -> Seq<H> {
        self.held@
    }

    /// Whether a mount has failed.
    pub closed spec fn failed(&self) -> bool {
        self.failed
    }

    /// The outcomes recorded so far, in order.
    pub closed spec fn outcomes(&self) -> Seq<Option<H>> {
        self.outcomes@
    }

    /// The held handles are those of the recorded successes, and nothing is
    /// recorded after a failure.
    pub closed spec fn wf(&self) -> bool {
        &&& self.held@ == acquired(self.outcomes@)
        &&& self.outcomes@.len() <= self.plan@.len()
        &&& self.failed <==> (self.outcomes@.len() > 0 && self.outcomes@.last() is None)
        &&& self.failed ==> self.outcomes@.len() == self.held@.len() + 1
        &&& !self.failed ==> self.outcomes@.len() == self.held@.len()
    }

    /// A session for the staged root at `root`, with nothing mounted yet.
    pub fn new(root: &str) -> (r: MountSession<H>)
        ensures
            r.wf(),
            r.plan() == kernel_mounts(root@),
            r.held().len() == 0,
            r.outcomes().len() == 0,
            !r.failed(),
    {
        let mut plan: Vec<KernelMount> = Vec::new();
        plan.push(kernel_mount("devtmpfs", root, "dev", "devtmpfs", None));
        plan.push(kernel_mount("devpts", root, "dev/pts", "devpts", Some("gid=5")));
        plan.push(kernel_mount("proc", root, "proc", "proc", None));
        plan.push(kernel_mount("sysfs", root, "sys", "sysfs", None));
        assert(plan@.map_values(|m: KernelMount| m@) =~= kernel_mounts(root@));
        MountSession { plan, held: Vec::new(), failed: false, outcomes: Ghost(Seq::empty()) }
    }

    /// The index in `plan` of the mount to make next: none once all are made
    /// or one has failed.
    pub fn next_mount(&self) -> (r: Option<usize>)
        requires
            self.wf(),
        ensures
            r is Some <==> !self.failed() && self.held().len() < self.plan().len(),
            r is Some ==> r->Some_0 == self.held().len(),
    {
        if !self.failed && self.held.len() < self.plan.len() {
            Some(self.held.len())
        } else {
            None
        }
    }

    /// The mount at index `i` of the plan.
    pub fn mount(&self, i: usize) -> (r: &KernelMount)
        requires
            i < self.plan().len(),
        ensures
            r@ == self.plan()[i as int],
    {
        &self.plan[i]
    }

    /// Whether a mount has failed.
    pub fn is_failed(&self) -> (r: bool)
        ensures
            r == self.failed(),
    {
        self.failed
    }

    /// How many handles are held.
    pub fn held_count(&self) -> (r: usize)
        ensures
            r == self.held().len(),
    {
        self.held.len()
    }

    /// Records the outcome of the mount that `next_mount` named: its handle,
    /// or `None` when it failed.
    pub fn record(&mut self, outcome: Option<H>)
        requires
            old(self).wf(),
            !old(self).failed(),
            old(self).held().len() < old(self).plan().len(),
        ensures
            final(self).wf(),
            final(self).plan() == old(self).plan(),
            final(self).outcomes() == old(self).outcomes().push(outcome),
            final(self).held() == acquired(final(self).outcomes()),
            outcome matches Some(h) ==> final(self).held() == old(self).held().push(h),
            outcome is Some ==> !final(self).failed(),
            outcome is None ==> final(self).held() == old(self).held() && final(self).failed(),
    {
        let ghost o = self.outcomes@.push(outcome);
        assert(o.drop_last() =~= self.outcomes@);
        match outcome {
            Some(h) => {
                self.held.push(h);
            },
            None => {
                self.failed = true;
            },
        }
        self.outcomes = Ghost(o);
    }

    /// Hands the held handles out in the order in which they must be
    /// released: the last one mounted first.
    pub fn release_order(self) -> (r: Vec<H>)
        ensures
            r@ == self.held().reverse(),
    {
        let mut held = self.held;
        let ghost all = held@;
        let n = held.len();
        let mut out: Vec<H> = Vec::new();
        while held.len() > 0
            invariant
                all.len() == n,
                held@ == all.subrange(0, n - out@.len()),
                out@.len() <= n,
                forall|i: int| 0 <= i < out@.len() ==> out@[i] == all[n - 1 - i],
            decreases held.len(),
        {
            let h = held.pop().unwrap();
            out.push(h);
        }
        assert(out@ =~= all.reverse());
        out
    }
}

/// When every mount succeeds, all handles are held and the release order is
/// the acquisition order reversed.
pub proof fn lemma_release_reverses_acquisition<H>(handles: Seq<H>)
    ensures
        acquired(handles.map_values(|h: H| Some(h))) == handles,
        handles.reverse().len() == handles.len(),
        forall|i: int|
            0 <= i < handles.len() ==> #[trigger] handles.reverse()[i] == handles[handles.len() - 1 - i],
    decreases handles.len(),
{
    let o = handles.map_values(|h: H| Some(h));
    if handles.len() > 0 {
        assert(o.drop_last() =~= handles.drop_last().map_values(|h: H| Some(h)));
        lemma_release_reverses_acquisition(handles.drop_last());
        assert(handles.drop_last().push(handles.last()) =~= handles);
    }
}

/// A failure at the third mount leaves the first two handles held, and
/// nothing more.
pub proof fn lemma_third_mount_failure<H>(a: H, b: H)
    ensures
        acquired(seq![Some(a), Some(b), None::<H>]) == seq![a, b],
{
    let o1 = seq![Some(a)];
    let o2 = seq![Some(a), Some(b)];
    let o3 = seq![Some(a), Some(b), None::<H>];
    assert(o1.drop_last() =~= Seq::<Option<H>>::empty());
    assert(o1.last() == Some(a));
    assert(acquired(Seq::<Option<H>>::empty()) == Seq::<H>::empty());
    assert(acquired(o1) == acquired(o1.drop_last()).push(a));
    assert(acquired(o1) =~= seq![a]);
    assert(o2.drop_last() =~= o1);
    assert(o2.last() == Some(b));
    assert(acquired(o2) =~= seq![a, b]);
    assert(o3.drop_last() =~= o2);
    assert(o3.last() == None::<H>);
}

} // verus!
