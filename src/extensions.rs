use vstd::prelude::*;

verus! {

/// A first-in first-out queue.
pub trait Queue<T>: Sized {
    /// The queued items, front first.
    spec fn items(&self) -> Seq<T>;

    /// Appends `x` at the back of the queue.
    fn enqueue(&mut self, x: T)
        ensures
            final(self).items() == old(self).items().push(x),
    ;

    /// Removes and returns the item at the front of the queue, if any.
    fn dequeue(&mut self) -> (r: Option<T>)
        ensures
            old(self).items().len() == 0 ==> r is None && final(self).items() == old(self).items(),
            old(self).items().len() > 0 ==> r == Some(old(self).items()[0]) && final(self).items()
                == old(self).items().drop_first(),
    ;
}

impl<T> Queue<T> for Vec<T> {
    open spec fn items(&self) -> Seq<T> {
        self@
    }

    fn enqueue(&mut self, x: T) {
        self.push(x);
    }

    fn dequeue(&mut self) -> (r: Option<T>) {
        if self.is_empty() {
            None
        } else {
            let x = self.remove(0);
            proof {
                assert(final(self)@ =~= old(self)@.drop_first());
            }
            Some(x)
        }
    }
}

} // verus!
