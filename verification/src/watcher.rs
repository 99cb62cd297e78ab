use vstd::prelude::*;
use crate::battery::{BatteryState, BatteryStateV};
use crate::brightness::{BrightnessState, BrightnessStateV};
use crate::hypr::WorkspaceState;
use crate::volume::{VolumeState, VolumeStateV};
use crate::wifi::{WifiState, WifiStateV};

verus! {

/// One domain snapshot, whichever domain it came from. Watchers compare
/// snapshots structurally to detect transitions.
pub enum Snapshot {
    Volume(VolumeState),
    Brightness(BrightnessState),
    Battery(BatteryState),
    Wifi(WifiState),
    Workspaces(Vec<WorkspaceState>),
}

#[verifier::ext_equal]
pub enum SnapV {
    Volume(VolumeStateV),
    Brightness(BrightnessStateV),
    Battery(BatteryStateV),
    Wifi(WifiStateV),
    Workspaces(Seq<WorkspaceState>),
}

impl View for Snapshot {
    type V = SnapV;

    open spec fn view(&self) -> SnapV {
        match self {
            Snapshot::Volume(s) => SnapV::Volume(s@),
            Snapshot::Brightness(s) => SnapV::Brightness(s@),
            Snapshot::Battery(s) => SnapV::Battery(s@),
            Snapshot::Wifi(s) => SnapV::Wifi(s@),
            Snapshot::Workspaces(s) => SnapV::Workspaces(s@),
        }
    }
}

impl DeepView for Snapshot {
    type V = SnapV;

    open spec fn deep_view(&self) -> SnapV {
        self.view()
    }
}

fn workspaces_same(a: &Vec<WorkspaceState>, b: &Vec<WorkspaceState>) -> (r: bool)
    ensures
        r == (a@ == b@),
{
    if a.len() != b.len() {
        return false;
    }
    let n: usize = a.len();
    let mut i: usize = 0;
    while i < n
        invariant
            0 <= i <= n,
            n == a@.len() == b@.len(),
            forall|j: int| 0 <= j < i ==> a@[j] == b@[j],
        decreases n - i,
    {
        if !(a[i].id == b[i].id && a[i].windows == b[i].windows && a[i].active == b[i].active) {
            return false;
        }
        i = i + 1;
    }
    proof {
        assert(a@ =~= b@);
    }
    true
}

impl Snapshot {
    /// Structural equality of two snapshots; snapshots of different
    /// domains never compare equal.
    pub fn same_as(&self, other: &Snapshot) -> (r: bool)
        ensures
            r == (self@ == other@),
    {
        match (self, other) {
            (Snapshot::Volume(a), Snapshot::Volume(b)) => a.same_as(b),
            (Snapshot::Brightness(a), Snapshot::Brightness(b)) => a.same_as(b),
            (Snapshot::Battery(a), Snapshot::Battery(b)) => a.same_as(b),
            (Snapshot::Wifi(a), Snapshot::Wifi(b)) => a.same_as(b),
            (Snapshot::Workspaces(a), Snapshot::Workspaces(b)) => workspaces_same(a, b),
            _ => false,
        }
    }
}

// ---------------------------------------------------------------------------
// Transition detection
// ---------------------------------------------------------------------------

/// How many of the snapshots in `xs`, observed in order after `prev`, fire
/// the transition cycle: the first observation ever fires, and after that
/// exactly the observations that differ from the one before them.
pub open spec fn fires(prev: Option<SnapV>, xs: Seq<SnapV>) -> int
    decreases xs.len(),
{
    if xs.len() == 0 {
        0
    } else {
        (if prev != Some(xs[0]) {
            1int
        } else {
            0int
        }) + fires(Some(xs[0]), xs.drop_first())
    }
}

/// The state a watcher remembers after a run of observations: the last
/// snapshot seen, or what it started with when it saw none.
pub open spec fn last_seen(prev: Option<SnapV>, xs: Seq<SnapV>) -> Option<SnapV> {
    if xs.len() == 0 {
        prev
    } else {
        Some(xs.last())
    }
}

/// One watcher: the last snapshot it has seen of its domain, against which
/// the next observation is compared. Each domain has exactly one.
pub struct Watcher {
    pub last: Option<Snapshot>,
}

impl View for Watcher {
    type V = Option<SnapV>;

    open spec fn view(&self) -> Option<SnapV> {
        match &self.last {
            Some(s) => Some(s@),
            None => None,
        }
    }
}

impl Watcher {
    /// A fresh watcher that has seen nothing: its first observation fires.
    pub fn new() -> (r: Watcher)
        ensures
            r@ is None,
    {
        Watcher { last: None }
    }

    /// Feeds the watcher one snapshot. It fires — asking for the
    /// notify-and-persist cycle — exactly when the snapshot differs from
    /// the last one seen, and remembers the snapshot either way.
    pub fn observe(&mut self, s: Snapshot) -> (fire: bool)
        ensures
            final(self)@ == Some(s@),
            fire == (old(self)@ != Some(s@)),
    {
        let fire = match &self.last {
            Some(p) => !p.same_as(&s),
            None => true,
        };
        self.last = Some(s);
        fire
    }

    /// Feeds the watcher a whole sequence and counts how often it fired.
    pub fn run(&mut self, xs: Vec<Snapshot>) -> (n: usize)
        ensures
            n == fires(old(self)@, xs.deep_view()),
            final(self)@ == last_seen(old(self)@, xs.deep_view()),
    {
        let ghost all = xs.deep_view();
        let mut rest = xs;
        let total: usize = rest.len();
        let mut n: usize = 0;
        proof {
            assert(rest.deep_view() =~~= all);
            assert(rest.deep_view().len() == rest@.len());
        }
        while rest.len() > 0
            invariant
                n + fires(self@, rest.deep_view()) == fires(old(self)@, all),
                last_seen(self@, rest.deep_view()) == last_seen(old(self)@, all),
                all.len() == total,
                n <= total - rest.deep_view().len(),
                rest.deep_view().len() == rest@.len(),
            decreases rest.len(),
        {
            let ghost pre = rest.deep_view();
            let ghost watcher_pre = self@;
            let s = rest.remove(0);
            proof {
                assert(rest.deep_view() =~~= pre.drop_first());
                assert(s@ == pre[0]);
            }
            let fired = self.observe(s);
            if fired {
                n = n + 1;
            }
            proof {
                assert(fires(watcher_pre, pre) == (if watcher_pre != Some(pre[0]) {
                    1int
                } else {
                    0int
                }) + fires(self@, rest.deep_view()));
                if pre.len() == 1 {
                    assert(last_seen(watcher_pre, pre) == Some(pre.last()));
                    assert(rest.deep_view().len() == 0);
                } else {
                    assert(pre.drop_first().last() == pre.last());
                }
            }
        }
        n
    }
}

/// Refresh idempotence: a watcher that has just seen a snapshot does not
/// fire on seeing the identical snapshot again — the repeated observation
/// adds no notification and no new persisted state.
pub proof fn lemma_refresh_idempotent(prev: Option<SnapV>, s: SnapV)
    ensures
        fires(Some(s), seq![s]) == 0,
        fires(prev, seq![s] + seq![s]) == fires(prev, seq![s]),
        last_seen(prev, seq![s] + seq![s]) == last_seen(prev, seq![s]),
{
    let one = seq![s];
    let two = seq![s] + seq![s];
    assert(one[0] == s);
    assert(one.drop_first() =~= Seq::<SnapV>::empty());
    assert(fires(Some(one[0]), one.drop_first()) == 0);
    assert(two[0] == s && two.drop_first() =~= one);
    assert(fires(Some(s), one) == 0);
    assert(two.last() == one.last());
}

/// How many adjacent pairs in `xs` differ: the transitions in the
/// observed sequence.
pub open spec fn changes(xs: Seq<SnapV>) -> int
    decreases xs.len(),
{
    if xs.len() <= 1 {
        0
    } else {
        (if xs[0] != xs[1] {
            1int
        } else {
            0int
        }) + changes(xs.drop_first())
    }
}

/// Transition dedup: over any nonempty observed sequence, a fresh watcher
/// runs the notify-and-persist cycle exactly once for the baseline and
/// once per transition — equal neighbours add nothing.
pub proof fn lemma_transition_dedup(xs: Seq<SnapV>)
    requires
        xs.len() > 0,
    ensures
        fires(None, xs) == 1 + changes(xs),
{
    lemma_fires_after(xs[0], xs.drop_first());
    assert(fires(None, xs) == 1 + fires(Some(xs[0]), xs.drop_first()));
    assert(seq![xs[0]] + xs.drop_first() =~= xs);
    if xs.len() > 1 {
        assert(xs.drop_first()[0] == xs[1]);
    }
}

/// After seeing `p`, a watcher fires once per transition in `p` followed
/// by `xs`.
proof fn lemma_fires_after(p: SnapV, xs: Seq<SnapV>)
    ensures
        fires(Some(p), xs) == changes(seq![p] + xs),
    decreases xs.len(),
{
    let whole = seq![p] + xs;
    if xs.len() == 0 {
        assert(whole.len() == 1);
    } else {
        lemma_fires_after(xs[0], xs.drop_first());
        assert(whole[0] == p && whole[1] == xs[0]);
        assert(whole.drop_first() =~= seq![xs[0]] + xs.drop_first());
    }
}

} // verus!
