//! Foreground animations that play over the simulation, such as the nuke
//! sweep that destroys every passive body one after another.

use vstd::prelude::*;

verus! {

/// Interval between two destructions of the nuke sweep, in microseconds.
pub const NUKE_DELAY_US: u64 = 100_000;

/// Largest time delta one animation update accepts, in microseconds.
pub const ANIMATE_MAX_DELTA: u64 = 1_000_000_000;

/// An animation's request to the game.
#[derive(Debug, Clone, Copy, PartialEq, Eq, Structural)]
pub enum AnimationEvent {
    DestroyAsset { id: u128 },
}

/// A running nuke sweep: the queue of bodies still to destroy, emptied
/// from the back at a fixed cadence.
#[derive(Debug, Clone)]
pub struct NukeAnimationState {
    pub delay: u64,
    pub duration: u64,
    pub queue: Vec<u128>,
}

/// The queue holds each identifier at most once, in ascending order.
pub open spec fn sorted_unique(s: Seq<u128>) -> bool {
    forall|i: int, j: int| 0 <= i < j < s.len() ==> s[i] < s[j]
}

impl NukeAnimationState {
    pub open spec fn wf(self) -> bool {
        &&& self.delay == NUKE_DELAY_US
        &&& self.duration <= crate::animation::TIME_CAP + ANIMATE_MAX_DELTA
        &&& sorted_unique(self.queue@)
    }

    /// A fresh sweep over the given queue; the first body is destroyed
    /// right away.
    pub fn new(queue: Vec<u128>) -> (r: NukeAnimationState)
        requires
            sorted_unique(queue@),
        ensures
            r.wf(),
            r.queue == queue,
            r.duration == NUKE_DELAY_US,
    {
        NukeAnimationState { delay: NUKE_DELAY_US, duration: NUKE_DELAY_US, queue }
    }

    /// Advance the sweep: one identifier leaves the back of the queue for
    /// every full delay that has accumulated. Every identifier handed out
    /// was queued, and what remains is a prefix of the old queue.
    pub fn update(&mut self, delta: u64) -> (r: Vec<u128>)
        requires
            old(self).wf(),
            delta <= ANIMATE_MAX_DELTA,
        ensures
            final(self).wf(),
            final(self).queue@ == old(self).queue@.take(final(self).queue@.len() as int),
            forall|k: int|
                0 <= k < r@.len() ==> old(self).queue@.contains(#[trigger] r@[k]),
    {
        let mut out: Vec<u128> = Vec::new();
        if self.queue.len() == 0 {
            proof {
                assert(self.queue@ =~= old(self).queue@.take(self.queue@.len() as int));
            }
            return out;
        }
        self.duration = if self.duration >= crate::animation::TIME_CAP {
            self.duration
        } else {
            self.duration + delta
        };
        while self.duration >= self.delay
            invariant
                self.delay == NUKE_DELAY_US,
                self.duration <= crate::animation::TIME_CAP + ANIMATE_MAX_DELTA,
                sorted_unique(self.queue@),
                self.queue@.len() <= old(self).queue@.len(),
                self.queue@ == old(self).queue@.take(self.queue@.len() as int),
                forall|k: int|
                    0 <= k < out@.len() ==> old(self).queue@.contains(#[trigger] out@[k]),
            decreases self.duration,
        {
            self.duration = self.duration - self.delay;
            let ghost qbefore = self.queue@;
            match self.queue.pop() {
                Some(id) => {
                    proof {
                        let ql = self.queue@.len() as int;
                        assert(ql + 1 <= old(self).queue@.len());
                        assert(qbefore =~= old(self).queue@.take(ql + 1));
                        assert(qbefore[ql] == id);
                        assert(old(self).queue@[ql] == id);
                        assert(old(self).queue@.contains(id));
                        assert(self.queue@ =~= old(self).queue@.take(ql));
                    }
                    out.push(id);
                },
                None => {
                    return out;
                },
            }
        }
        out
    }

    pub fn is_finished(&self) -> (r: bool)
        ensures
            r == (self.queue@.len() == 0),
    {
        self.queue.len() == 0
    }
}

/// The nuke animation: idle, or a running sweep.
#[derive(Debug, Clone)]
pub struct NukeAnimation {
    pub state: Option<NukeAnimationState>,
}

impl NukeAnimation {
    pub open spec fn wf(self) -> bool {
        match self.state {
            Some(s) => s.wf(),
            None => true,
        }
    }

    pub fn new() -> (r: NukeAnimation)
        ensures
            r.wf(),
            r.state is None,
    {
        NukeAnimation { state: None }
    }

    /// Queue bodies for destruction: start a sweep, or merge into the
    /// running one. Afterwards every given identifier is queued, each at
    /// most once.
    pub fn nuke(&mut self, ids: &Vec<u128>)
        requires
            old(self).wf(),
        ensures
            final(self).wf(),
            final(self).state is Some,
            forall|k: int|
                0 <= k < ids@.len() ==> final(self).state.unwrap().queue@.contains(
                    #[trigger] ids@[k],
                ),
    {
        let merged = match &mut self.state {
            Some(state) => {
                let mut i: usize = 0;
                let n = ids.len();
                while i < n
                    invariant
                        n == ids@.len(),
                        i <= n,
                        state.wf(),
                        forall|k: int|
                            0 <= k < i ==> state.queue@.contains(#[trigger] ids@[k]),
                    decreases n - i,
                {
                    insert_sorted(&mut state.queue, ids[i]);
                    i = i + 1;
                }
                true
            },
            None => false,
        };
        if !merged {
            let mut queue: Vec<u128> = Vec::new();
            let mut i: usize = 0;
            let n = ids.len();
            while i < n
                invariant
                    n == ids@.len(),
                    i <= n,
                    sorted_unique(queue@),
                    forall|k: int| 0 <= k < i ==> queue@.contains(#[trigger] ids@[k]),
                decreases n - i,
            {
                insert_sorted(&mut queue, ids[i]);
                i = i + 1;
            }
            self.state = Some(NukeAnimationState::new(queue));
        }
    }

    /// Advance the running sweep, dropping it once it has emptied.
    pub fn update(&mut self, delta: u64) -> (r: Vec<AnimationEvent>)
        requires
            old(self).wf(),
            delta <= ANIMATE_MAX_DELTA,
        ensures
            final(self).wf(),
    {
        let mut events: Vec<AnimationEvent> = Vec::new();
        let finished = match &mut self.state {
            Some(state) => {
                let ids = state.update(delta);
                let mut k: usize = 0;
                let n = ids.len();
                while k < n
                    invariant
                        n == ids@.len(),
                        k <= n,
                    decreases n - k,
                {
                    events.push(AnimationEvent::DestroyAsset { id: ids[k] });
                    k = k + 1;
                }
                state.is_finished()
            },
            None => false,
        };
        if finished {
            self.state = None;
        }
        events
    }
}

/// Insert an identifier into a sorted duplicate-free queue, keeping it
/// sorted and duplicate-free.
fn insert_sorted(queue: &mut Vec<u128>, id: u128)
    requires
        sorted_unique(old(queue)@),
    ensures
        sorted_unique(final(queue)@),
        final(queue)@.contains(id),
        forall|x: u128| old(queue)@.contains(x) ==> final(queue)@.contains(x),
{
    let mut i: usize = 0;
    let n = queue.len();
    while i < n
        invariant
            n == queue@.len(),
            i <= n,
            sorted_unique(queue@),
            forall|j: int| 0 <= j < i ==> queue@[j] < id,
            *queue == *old(queue),
        decreases n - i,
    {
        if queue[i] == id {
            proof {
                assert(queue@.contains(id));
            }
            return ;
        }
        if queue[i] > id {
            let ghost before = queue@;
            queue.insert(i, id);
            proof {
                assert(queue@[i as int] == id);
                assert(queue@.contains(id));
                assert forall|x: u128| before.contains(x) implies queue@.contains(x) by {
                    let j = choose|j: int| 0 <= j < before.len() && before[j] == x;
                    if j < i {
                        assert(queue@[j] == x);
                    } else {
                        assert(queue@[j + 1] == x);
                    }
                }
            }
            return ;
        }
        i = i + 1;
    }
    let ghost before = queue@;
    queue.push(id);
    proof {
        assert(queue@.last() == id);
        assert(queue@.contains(id));
        assert forall|x: u128| before.contains(x) implies queue@.contains(x) by {
            let j = choose|j: int| 0 <= j < before.len() && before[j] == x;
            assert(queue@[j] == x);
        }
    }
}

/// All foreground animations of the sandbox.
#[derive(Debug, Clone)]
pub struct Animations {
    pub nuke: NukeAnimation,
}

impl Animations {
    pub open spec fn wf(self) -> bool {
        self.nuke.wf()
    }

    pub fn new() -> (r: Animations)
        ensures
            r.wf(),
    {
        Animations { nuke: NukeAnimation::new() }
    }

    /// Advance every animation and collect their requests.
    pub fn update(&mut self, delta: u64) -> (r: Vec<AnimationEvent>)
        requires
            old(self).wf(),
            delta <= ANIMATE_MAX_DELTA,
        ensures
            final(self).wf(),
    {
        self.nuke.update(delta)
    }

    /// Queue bodies for the nuke sweep.
    pub fn nuke(&mut self, ids: &Vec<u128>)
        requires
            old(self).wf(),
        ensures
            final(self).wf(),
            final(self).nuke.state is Some,
    {
        self.nuke.nuke(ids);
    }
}

} // verus!
