//! The pool of relays that the client is connected to.

use vstd::prelude::*;

verus! {

/// The relays that are connected, by their URLs.
pub struct RelayPool {
    pub relays: Vec<String>,
}

impl View for RelayPool {
    type V = Seq<Seq<char>>;

    open spec fn view(&self) -> Seq<Seq<char>> {
        self.relays.deep_view()
    }
}

impl RelayPool {
    /// A pool without a relay.
    pub fn new() -> (pool: RelayPool)
        ensures
            pool@ == Seq::<Seq<char>>::empty(),
    {
        let pool = RelayPool { relays: Vec::new() };
        assert(pool.relays.deep_view() =~= Seq::<Seq<char>>::empty());
        pool
    }

    /// Adds the relay at `url` behind the others.
    pub fn add_url(&mut self, url: String)
        ensures
            final(self)@ == old(self)@.push(url@),
    {
        self.relays.push(url);
        assert(self.relays.deep_view() =~= old(self).relays.deep_view().push(url@));
    }

    /// The URLs of the connected relays, in the order of the pool.
    pub fn urls(&self) -> (urls: Vec<String>)
        ensures
            urls.deep_view() == self@,
    {
        let mut urls: Vec<String> = Vec::new();
        let mut i: usize = 0;
        while i < self.relays.len()
            invariant
                i <= self.relays.len(),
                urls.len() == i,
                forall|j: int| 0 <= j < i ==> urls@[j]@ == self.relays@[j]@,
            decreases self.relays.len() - i,
        {
            urls.push(self.relays[i].clone());
            i = i + 1;
        }
        assert(urls.deep_view() =~= self.relays.deep_view());
        urls
    }
}

} // verus!
