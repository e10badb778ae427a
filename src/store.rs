//! An in-memory token store: authorization tokens kept by identifier.
use vstd::prelude::*;

verus! {

/// Tokens by identifier, each identifier at most once.
pub struct TokenStore {
    entries: Vec<(String, String)>,
    model: Ghost<Map<Seq<char>, Seq<char>>>,
}

impl View for TokenStore {
    type V = Map<Seq<char>, Seq<char>>;

    closed spec fn view(&self) -> Map<Seq<char>, Seq<char>> {
        self.model@
    }
}

impl TokenStore {
    /// The entries hold each identifier once, and hold exactly the map that
    /// the store stands for.
    pub closed spec fn wf(&self) -> bool {
        &&& forall|i: int, j: int|
            0 <= i < j < self.entries@.len() ==> self.entries@[i].0@ != self.entries@[j].0@
        &&& forall|i: int|
            0 <= i < self.entries@.len() ==> {
                &&& #[trigger] self.model@.contains_key(self.entries@[i].0@)
                &&& self.model@[self.entries@[i].0@] == self.entries@[i].1@
            }
        &&& forall|k: Seq<char>|
            #[trigger] self.model@.contains_key(k) ==> exists|i: int|
                0 <= i < self.entries@.len() && self.entries@[i].0@ == k
    }

    /// An empty store.
    pub fn new() -> (r: TokenStore)
        ensures
            r.wf(),
            r@ == Map::<Seq<char>, Seq<char>>::empty(),
    {
        TokenStore { entries: Vec::new(), model: Ghost(Map::empty()) }
    }

    /// The position of `key` among the entries.
    fn find(&self, key: &String) -> (r: Option<usize>)
        requires
            self.wf(),
        ensures
            match r {
                Some(i) => i < self.entries@.len() && self.entries@[i as int].0@ == key@,
                None => !self@.contains_key(key@),
            },
    {
        let mut i: usize = 0;
        while i < self.entries.len()
            invariant
                i <= self.entries@.len(),
                forall|j: int| 0 <= j < i ==> self.entries@[j].0@ != key@,
            decreases self.entries@.len() - i,
        {
            if self.entries[i].0 == *key {
                return Some(i);
            }
            i = i + 1;
        }
        proof {
            if self@.contains_key(key@) {
                let j = choose|j: int| 0 <= j < self.entries@.len() && self.entries@[j].0@ == key@;
                assert(self.entries@[j].0@ != key@);
            }
        }
        None
    }

    /// The token stored for `key`, if any.
    pub fn get_token(&self, key: &String) -> (r: Option<String>)
        requires
            self.wf(),
        ensures
            match r {
                Some(t) => self@.contains_key(key@) && t@ == self@[key@],
                None => !self@.contains_key(key@),
            },
    {
        match self.find(key) {
            Some(i) => {
                assert(self@.contains_key(self.entries@[i as int].0@));
                Some(self.entries[i].1.clone())
            },
            None => None,
        }
    }

    /// Stores `token` for `key`, in place of any token stored for it before.
    pub fn store_key_and_token(&mut self, key: String, token: String)
        requires
            old(self).wf(),
        ensures
            final(self).wf(),
            final(self)@ == old(self)@.insert(key@, token@),
    {
        let ghost k = key@;
        let ghost t = token@;
        let ghost pre = self.entries@;
        let ghost m0 = self.model@;
        let ghost m = self.model@.insert(k, t);
        match self.find(&key) {
            Some(i) => {
                self.entries[i] = (key, token);
                self.model = Ghost(m);
                assert forall|x: Seq<char>| #[trigger] m.contains_key(x) implies exists|j: int|
                    0 <= j < self.entries@.len() && self.entries@[j].0@ == x by {
                    if x != k {
                        let j = choose|j: int| 0 <= j < pre.len() && pre[j].0@ == x;
                        assert(self.entries@[j].0@ == x);
                    } else {
                        assert(self.entries@[i as int].0@ == x);
                    }
                }
                assert forall|a: int| 0 <= a < self.entries@.len() implies {
                    &&& #[trigger] m.contains_key(self.entries@[a].0@)
                    &&& m[self.entries@[a].0@] == self.entries@[a].1@
                } by {
                    if a != i {
                        assert(pre[a].0@ != pre[i as int].0@);
                        assert(m0.contains_key(pre[a].0@));
                    }
                }
            },
            None => {
                self.entries.push((key, token));
                self.model = Ghost(m);
                assert forall|x: Seq<char>| #[trigger] m.contains_key(x) implies exists|j: int|
                    0 <= j < self.entries@.len() && self.entries@[j].0@ == x by {
                    if x != k {
                        let j = choose|j: int| 0 <= j < pre.len() && pre[j].0@ == x;
                        assert(self.entries@[j].0@ == x);
                    } else {
                        assert(self.entries@[pre.len() as int].0@ == x);
                    }
                }
                assert forall|a: int| 0 <= a < pre.len() implies pre[a].0@ != k by {
                    assert(m0.contains_key(pre[a].0@));
                }
                assert forall|a: int| 0 <= a < self.entries@.len() implies {
                    &&& #[trigger] m.contains_key(self.entries@[a].0@)
                    &&& m[self.entries@[a].0@] == self.entries@[a].1@
                } by {
                    if a < pre.len() {
                        assert(m0.contains_key(pre[a].0@));
                    }
                }
            },
        }
        assert(self@ =~= old(self)@.insert(key@, token@));
    }

    /// Removes the token stored for `key`; a key with no token is left as it is.
    pub fn delete_token(&mut self, key: &String)
        requires
            old(self).wf(),
        ensures
            final(self).wf(),
            final(self)@ == old(self)@.remove(key@),
    {
        let ghost pre = self.entries@;
        let ghost m0 = self.model@;
        let ghost m = self.model@.remove(key@);
        match self.find(key) {
            Some(i) => {
                self.entries.remove(i);
                self.model = Ghost(m);
                let ghost post = self.entries@;
                assert forall|j: int| 0 <= j < post.len() implies post[j] == if j < i {
                    pre[j]
                } else {
                    pre[j + 1]
                } by {}
                assert forall|x: Seq<char>| #[trigger] m.contains_key(x) implies exists|j: int|
                    0 <= j < post.len() && post[j].0@ == x by {
                    let j = choose|j: int| 0 <= j < pre.len() && pre[j].0@ == x;
                    if j < i {
                        assert(post[j].0@ == x);
                    } else {
                        assert(j != i);
                        assert(post[j - 1].0@ == x);
                    }
                }
                assert forall|a: int, b: int|
                    0 <= a < b < post.len() implies post[a].0@ != post[b].0@ by {
                    let a0 = if a < i { a } else { a + 1 };
                    let b0 = if b < i { b } else { b + 1 };
                    assert(pre[a0].0@ != pre[b0].0@);
                }
                assert forall|a: int| 0 <= a < post.len() implies {
                    &&& #[trigger] m.contains_key(post[a].0@)
                    &&& m[post[a].0@] == post[a].1@
                } by {
                    let a0 = if a < i { a } else { a + 1 };
                    assert(pre[a0].0@ != pre[i as int].0@);
                    assert(m0.contains_key(pre[a0].0@));
                }
            },
            None => {
                assert(m =~= self.model@);
            },
        }
        assert(self@ =~= old(self)@.remove(key@));
    }
}

} // verus!
