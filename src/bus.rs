//! A single-slot broadcast channel: it holds the latest published value, and
//! each subscriber keeps its own place in the order of publishes.

use vstd::prelude::*;

verus! {

/// A channel of values of type `T`. A retained channel shows its latest value
/// to readers that subscribe late; an ephemeral one only hands out values
/// published after a reader subscribed.
pub struct Channel<T> {
    latest: Option<T>,
    published: u64,
    retained: bool,
    history: Ghost<Seq<T>>,
}

impl<T> Channel<T> {
    #[verifier::type_invariant]
    spec fn inv(self) -> bool {
        &&& self.published as int == self.history@.len()
        &&& self.latest == if self.history@.len() == 0 {
            None
        } else {
            Some(self.history@.last())
        }
    }

    /// Every value published so far, oldest first.
    pub closed spec fn history(&self) -> Seq<T> {
        self.history@
    }

    /// Whether late subscribers see the latest value.
    pub closed spec fn is_retained(&self) -> bool {
        self.retained
    }
}

impl<T: Copy> Channel<T> {
    /// A channel on which nothing has been published yet.
    pub fn new(retained: bool) -> (r: Channel<T>)
        ensures
            r.history() == Seq::<T>::empty(),
            r.is_retained() == retained,
    {
        Channel { latest: None, published: 0, retained, history: Ghost(Seq::empty()) }
    }

    /// How many values have been published.
    pub fn published(&self) -> (r: u64)
        ensures
            r == self.history().len(),
    {
        proof {
            use_type_invariant(self);
        }
        self.published
    }

    /// Whether late subscribers see the latest value.
    pub fn retained(&self) -> (r: bool)
        ensures
            r == self.is_retained(),
    {
        self.retained
    }

    /// Publishes `v`: it replaces the latest value, and counts as a change
    /// for every subscriber, whatever it holds.
    pub fn publish(&mut self, v: T)
        requires
            old(self).history().len() < u64::MAX,
        ensures
            final(self).history() == old(self).history().push(v),
            final(self).is_retained() == old(self).is_retained(),
    {
        proof {
            use_type_invariant(&*self);
        }
        let ghost h = self.history@.push(v);
        *self = Channel {
            latest: Some(v),
            published: self.published + 1,
            retained: self.retained,
            history: Ghost(h),
        };
    }

    /// The latest value of a retained channel; `None` on an ephemeral channel
    /// or before the first publish.
    pub fn current(&self) -> (r: Option<T>)
        ensures
            r == if self.is_retained() && self.history().len() > 0 {
                Some(self.history().last())
            } else {
                None
            },
    {
        proof {
            use_type_invariant(self);
        }
        if self.retained {
            self.latest
        } else {
            None
        }
    }

    /// A new reader. On a retained channel the latest value, if any, is its
    /// first change; on an ephemeral one only later publishes are.
    pub fn subscribe(&self) -> (r: Subscriber)
        ensures
            r.seen() == if self.is_retained() {
                0
            } else {
                self.history().len()
            },
            r.observed() == Seq::<int>::empty(),
    {
        proof {
            use_type_invariant(self);
        }
        let seen = if self.retained {
            0
        } else {
            self.published
        };
        Subscriber { seen, observed: Ghost(Seq::empty()) }
    }

    /// Takes the next change for `sub` without waiting: the latest value if
    /// anything was published since `sub` last took one, else `None`. Values
    /// published in between are skipped, never handed out late.
    pub fn try_changed(&self, sub: &mut Subscriber) -> (r: Option<T>)
        requires
            old(sub).seen() <= self.history().len(),
        ensures
            old(sub).seen() < self.history().len() ==> {
                &&& r == Some(self.history().last())
                &&& final(sub).seen() == self.history().len()
                &&& final(sub).observed() == old(sub).observed().push(
                    self.history().len() - 1,
                )
            },
            old(sub).seen() == self.history().len() ==> r.is_none() && *final(sub) == *old(sub),
            final(sub).in_publish_order(),
    {
        proof {
            use_type_invariant(self);
            use_type_invariant(&*sub);
        }
        if sub.seen < self.published {
            let ghost obs = sub.observed@.push(self.published as int - 1);
            proof {
                assert(obs.last() == self.published - 1);
                assert forall|i: int, j: int| 0 <= i < j < obs.len() implies obs[i] < obs[j] by {
                    if j < obs.len() - 1 {
                        assert(obs[i] == sub.observed@[i]);
                        assert(obs[j] == sub.observed@[j]);
                    }
                }
            }
            *sub = Subscriber { seen: self.published, observed: Ghost(obs) };
            self.latest
        } else {
            None
        }
    }
}

/// One reader's place in a channel.
pub struct Subscriber {
    seen: u64,
    observed: Ghost<Seq<int>>,
}

impl Subscriber {
    #[verifier::type_invariant]
    spec fn inv(self) -> bool {
        &&& forall|i: int, j: int|
            0 <= i < j < self.observed@.len() ==> self.observed@[i] < self.observed@[j]
        &&& forall|i: int| 0 <= i < self.observed@.len() ==> 0 <= #[trigger] self.observed@[i] < self.seen
    }

    /// How many publishes this reader has accounted for.
    pub closed spec fn seen(&self) -> nat {
        self.seen as nat
    }

    /// The publish positions (0 for the first publish) of the changes this
    /// reader was handed, in the order it took them.
    pub closed spec fn observed(&self) -> Seq<int> {
        self.observed@
    }

    /// The changes this reader took sit at strictly increasing publish
    /// positions, each before the publishes it has accounted for: it never
    /// took a value out of publish order, nor one older than a value it had.
    pub open spec fn in_publish_order(&self) -> bool {
        &&& forall|i: int, j: int|
            0 <= i < j < self.observed().len() ==> self.observed()[i] < self.observed()[j]
        &&& forall|i: int|
            0 <= i < self.observed().len() ==> 0 <= #[trigger] self.observed()[i] < self.seen()
    }

    /// How many publishes this reader has accounted for.
    pub fn seen_count(&self) -> (r: u64)
        ensures
            r == self.seen(),
    {
        self.seen
    }
}

} // verus!
