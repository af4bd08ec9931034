use vstd::prelude::*;

verus! {

/// A time-indexed record of `width` values per step over a fixed number of
/// steps. All slots are allocated up front; steps are recorded in order,
/// each exactly once, and the buffer never grows.
pub struct History<T> {
    width: usize,
    recorded: usize,
    frames: Vec<Vec<T>>,
}

impl<T: Copy> View for History<T> {
    type V = Seq<Seq<T>>;

    /// One sequence of `width` values per step.
    closed spec fn view(&self) -> Seq<Seq<T>> {
        self.frames@.map_values(|f: Vec<T>| f@)
    }
}

impl<T: Copy> History<T> {
    pub closed spec fn spec_width(&self) -> nat {
        self.width as nat
    }

    /// How many steps have been recorded so far.
    pub closed spec fn spec_recorded(&self) -> nat {
        self.recorded as nat
    }

    pub closed spec fn wf(&self) -> bool {
        &&& self.recorded <= self.frames@.len()
        &&& forall|t: int| 0 <= t < self.frames@.len() ==> #[trigger] self.frames@[t]@.len() == self.width
    }

    /// A history of `steps` steps of `width` values, every slot holding `fill`
    /// and none recorded yet.
    pub fn new(width: usize, steps: usize, fill: T) -> (r: History<T>)
        ensures
            r.wf(),
            r.spec_width() == width,
            r.spec_recorded() == 0,
            r@.len() == steps,
            forall|t: int, k: int| 0 <= t < steps && 0 <= k < width ==> #[trigger] r@[t][k] == fill,
    {
        let mut frames: Vec<Vec<T>> = Vec::new();
        let mut t: usize = 0;
        while t < steps
            invariant
                t <= steps,
                frames@.len() == t,
                forall|s: int| 0 <= s < t ==> #[trigger] frames@[s]@.len() == width,
                forall|s: int, k: int| 0 <= s < t && 0 <= k < width ==> #[trigger] frames@[s]@[k] == fill,
            decreases steps - t,
        {
            let mut frame: Vec<T> = Vec::new();
            let mut k: usize = 0;
            while k < width
                invariant
                    k <= width,
                    frame@.len() == k,
                    forall|j: int| 0 <= j < k ==> #[trigger] frame@[j] == fill,
                decreases width - k,
            {
                frame.push(fill);
                k = k + 1;
            }
            frames.push(frame);
            t = t + 1;
        }
        let r = History { width, recorded: 0, frames };
        assert forall|t: int, k: int| 0 <= t < steps && 0 <= k < width implies #[trigger] r@[t][k] == fill by {
            assert(r@[t] == r.frames@[t]@);
        }
        r
    }

    pub fn width(&self) -> (r: usize)
        ensures
            r == self.spec_width(),
    {
        self.width
    }

    pub fn steps(&self) -> (r: usize)
        ensures
            r == self@.len(),
    {
        self.frames.len()
    }

    pub fn recorded(&self) -> (r: usize)
        ensures
            r == self.spec_recorded(),
    {
        self.recorded
    }

    /// Writes `frame` into the next unrecorded step; no other slot changes.
    pub fn record(&mut self, frame: &[T])
        requires
            old(self).wf(),
            old(self).spec_recorded() < old(self)@.len(),
            frame@.len() == old(self).spec_width(),
        ensures
            final(self).wf(),
            final(self).spec_width() == old(self).spec_width(),
            final(self).spec_recorded() == old(self).spec_recorded() + 1,
            final(self)@ == old(self)@.update(old(self).spec_recorded() as int, frame@),
    {
        let mut copy: Vec<T> = Vec::new();
        let mut k: usize = 0;
        while k < frame.len()
            invariant
                k <= frame@.len(),
                copy@ == frame@.subrange(0, k as int),
            decreases frame@.len() - k,
        {
            copy.push(frame[k]);
            k = k + 1;
        }
        assert(copy@ == frame@);
        let t = self.recorded;
        self.frames.set(t, copy);
        self.recorded = t + 1;
        assert(self@ == old(self)@.update(t as int, frame@));
    }

    /// The value at position `k` of step `t`.
    pub fn value(&self, k: usize, t: usize) -> (r: T)
        requires
            self.wf(),
            t < self@.len(),
            k < self.spec_width(),
        ensures
            r == self@[t as int][k as int],
    {
        self.frames[t][k]
    }
}

} // verus!
