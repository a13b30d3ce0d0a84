use vstd::prelude::*;
use crate::errors::Outcome;

verus! {

/// How many outcomes of `s` are successes.
pub open spec fn count_success(s: Seq<Outcome>) -> int
    decreases s.len(),
{
    if s.len() == 0 {
        0
    } else {
        count_success(s.drop_last()) + if s.last() is Success {
            1int
        } else {
            0int
        }
    }
}

/// Never more successes than outcomes.
pub proof fn lemma_count_success_bound(s: Seq<Outcome>)
    ensures
        0 <= count_success(s) <= s.len(),
    decreases s.len(),
{
    if s.len() > 0 {
        lemma_count_success_bound(s.drop_last());
    }
}

/// The outcome-collection sink: append-only, one entry per finished unit of
/// work, in whatever order the units completed.
pub struct Outcomes {
    items: Vec<Outcome>,
}

impl View for Outcomes {
    type V = Seq<Outcome>;

    closed spec fn view(&self) -> Seq<Outcome> {
        self.items@
    }
}

impl Outcomes {
    /// An empty collection.
    pub fn new() -> (r: Outcomes)
        ensures
            r@ == Seq::<Outcome>::empty(),
    {
        Outcomes { items: Vec::new() }
    }

    /// Append one unit's outcome; nothing already collected changes.
    pub fn record(&mut self, o: Outcome)
        ensures
            final(self)@ == old(self)@.push(o),
    {
        self.items.push(o);
    }

    /// How many outcomes were collected.
    pub fn len(&self) -> (r: usize)
        ensures
            r == self@.len(),
    {
        self.items.len()
    }

    /// The outcome at one position, in completion order.
    pub fn get(&self, i: usize) -> (r: Outcome)
        requires
            i < self@.len(),
        ensures
            r == self@[i as int],
    {
        self.items[i]
    }

    /// How many collected outcomes are successes.
    pub fn success_count(&self) -> (r: usize)
        ensures
            r == count_success(self@),
    {
        proof {
            lemma_count_success_bound(self@);
        }
        let mut count: usize = 0;
        let mut i: usize = 0;
        while i < self.items.len()
            invariant
                0 <= i <= self.items@.len(),
                count == count_success(self.items@.subrange(0, i as int)),
                count <= i,
            decreases self.items@.len() - i,
        {
            let keep: bool = match self.items[i] {
                Outcome::Success => true,
                Outcome::Failure(e) => false,
            };
            proof {
                let pre = self.items@.subrange(0, i as int);
                let post = self.items@.subrange(0, i + 1);
                assert(post.drop_last() =~= pre);
                assert(post.last() == self.items@[i as int]);
            }
            if keep {
                count = count + 1;
            }
            i += 1;
        }
        proof {
            assert(self.items@.subrange(0, self.items@.len() as int) =~= self.items@);
        }
        count
    }

    /// How many collected outcomes are failures.
    pub fn failure_count(&self) -> (r: usize)
        ensures
            r == self@.len() - count_success(self@),
    {
        proof {
            lemma_count_success_bound(self@);
        }
        self.items.len() - self.success_count()
    }
}

} // verus!
