use vstd::prelude::*;

verus! {

/// A fixed ring of reusable perception workers, handed out round-robin.
///
/// A slot holds `None` while its worker is checked out. Handing out a slot
/// that is still checked out never waits: the caller gets no worker and
/// starts a fresh one in its place.
pub struct Executors<W> {
    pub ocr: Vec<Option<W>>,
    pub idx: usize,
}

/// What `acquire` hands out: the slot to give the worker back to, and the
/// worker that was waiting there, if it was not still checked out.
pub struct Acquired<W> {
    pub slot: usize,
    pub worker: Option<W>,
}

impl<W> Executors<W> {
    pub open spec fn wf(&self) -> bool {
        0 < self.ocr@.len() && self.idx < self.ocr@.len()
    }

    /// A pool holding the given workers, starting at the first one.
    pub fn new(workers: Vec<W>) -> (r: Executors<W>)
        requires
            workers@.len() > 0,
        ensures
            r.wf(),
            r.idx == 0,
            r.ocr@.len() == workers@.len(),
            forall|i: int| 0 <= i < workers@.len() ==> r.ocr@[i] == Some(#[trigger] workers@[i]),
    {
        let mut workers = workers;
        let ghost all = workers@;
        let mut ocr: Vec<Option<W>> = Vec::new();
        // Move the workers into the slots, keeping their order.
        let mut rest: Vec<W> = Vec::new();
        while workers.len() > 0
            invariant
                workers@ + rest@.reverse() == all,
            decreases workers.len(),
        {
            let w = workers.pop().unwrap();
            let ghost before = rest@;
            rest.push(w);
            proof {
                assert(rest@.reverse() =~= seq![w] + before.reverse());
            }
        }
        assert(rest@.reverse() == all);
        while rest.len() > 0
            invariant
                ocr@.len() + rest@.len() == all.len(),
                rest@.reverse() == all.subrange(ocr@.len() as int, all.len() as int),
                forall|i: int| 0 <= i < ocr@.len() ==> ocr@[i] == Some(#[trigger] all[i]),
            decreases rest.len(),
        {
            let ghost n = ocr@.len() as int;
            let ghost before = rest@;
            let w = rest.pop().unwrap();
            proof {
                assert(before.reverse()[0] == w);
                assert(rest@.reverse() =~= before.reverse().subrange(1, before.len() as int));
                assert(all[n] == before.reverse()[0]);
            }
            ocr.push(Some(w));
        }
        Executors { ocr, idx: 0 }
    }

    /// Takes the worker of the current slot and moves on to the next slot.
    pub fn acquire(&mut self) -> (r: Acquired<W>)
        requires
            old(self).wf(),
        ensures
            final(self).wf(),
            r.slot == old(self).idx,
            r.worker == old(self).ocr@[old(self).idx as int],
            final(self).ocr@ == old(self).ocr@.update(old(self).idx as int, None),
            final(self).idx == (old(self).idx + 1) % (old(self).ocr@.len() as int),
    {
        let slot = self.idx;
        let worker = self.ocr.remove(slot);
        self.ocr.insert(slot, None);
        assert(self.ocr@ =~= old(self).ocr@.update(slot as int, None));
        let len = self.ocr.len();
        self.idx = if self.idx < len - 1 {
            self.idx + 1
        } else {
            0
        };
        proof {
            let (i, n) = (slot as int, len as int);
            if i + 1 < n {
                assert((i + 1) % n == i + 1) by (nonlinear_arith)
                    requires
                        0 <= i + 1 < n,
                ;
            } else {
                assert((i + 1) % n == 0) by (nonlinear_arith)
                    requires
                        i + 1 == n,
                        n > 0,
                ;
            }
        }
        Acquired { slot, worker }
    }

    /// Puts a worker (the one taken or its replacement) back into its slot.
    pub fn release(&mut self, slot: usize, worker: W)
        requires
            old(self).wf(),
            slot < old(self).ocr@.len(),
        ensures
            final(self).wf(),
            final(self).ocr@ == old(self).ocr@.update(slot as int, Some(worker)),
            final(self).idx == old(self).idx,
    {
        self.ocr.set(slot, Some(worker));
    }
}

} // verus!
