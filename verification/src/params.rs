use vstd::prelude::*;
use vstd::string::StringExecFns;

verus! {

/// An ordered mapping of request parameters. The exchange requires the
/// query text that was signed and the query text that is sent to match
/// byte for byte, so the library fixes insertion order explicitly instead
/// of leaning on any map's iteration order.
pub struct Params {
    pub pairs: Vec<(String, String)>,
}

impl View for Params {
    type V = Seq<(Seq<char>, Seq<char>)>;

    open spec fn view(&self) -> Seq<(Seq<char>, Seq<char>)> {
        self.pairs@.map(|i: int, p: (String, String)| (p.0@, p.1@))
    }
}

/// Inserting under a key that is already present replaces the first such
/// entry in place; a fresh key is appended at the end.
pub open spec fn spec_insert(
    ps: Seq<(Seq<char>, Seq<char>)>,
    k: Seq<char>,
    v: Seq<char>,
) -> Seq<(Seq<char>, Seq<char>)>
    decreases ps.len(),
{
    if ps.len() == 0 {
        seq![(k, v)]
    } else if ps.first().0 == k {
        seq![(k, v)] + ps.drop_first()
    } else {
        seq![ps.first()] + spec_insert(ps.drop_first(), k, v)
    }
}

/// Some entry carries the key.
pub open spec fn spec_has_key(ps: Seq<(Seq<char>, Seq<char>)>, k: Seq<char>) -> bool {
    exists|i: int| 0 <= i < ps.len() && ps[i].0 == k
}

/// Keys are pairwise distinct.
pub open spec fn spec_unique_keys(ps: Seq<(Seq<char>, Seq<char>)>) -> bool {
    forall|i: int, j: int| 0 <= i < j < ps.len() ==> ps[i].0 != ps[j].0
}

/// The canonical query text: `key=value` pairs joined by `&`, with no
/// trailing separator.
pub open spec fn spec_query(ps: Seq<(Seq<char>, Seq<char>)>) -> Seq<char>
    decreases ps.len(),
{
    if ps.len() == 0 {
        Seq::empty()
    } else if ps.len() == 1 {
        ps[0].0 + seq!['='] + ps[0].1
    } else {
        spec_query(ps.drop_last()) + seq!['&'] + ps.last().0 + seq!['='] + ps.last().1
    }
}

/// A first-match insert splits at any prefix free of the key.
proof fn lemma_insert_split(ps: Seq<(Seq<char>, Seq<char>)>, k: Seq<char>, v: Seq<char>, i: int)
    requires
        0 <= i <= ps.len(),
        forall|j: int| 0 <= j < i ==> ps[j].0 != k,
    ensures
        spec_insert(ps, k, v) == ps.take(i) + spec_insert(ps.skip(i), k, v),
    decreases i,
{
    if i == 0 {
        assert(ps.skip(0) =~= ps);
        assert(ps.take(0) + spec_insert(ps, k, v) =~= spec_insert(ps, k, v));
    } else {
        assert(ps.len() > 0 && ps.first().0 != k);
        let rest = ps.drop_first();
        assert(forall|j: int| 0 <= j < i - 1 ==> rest[j] == ps[j + 1]);
        lemma_insert_split(rest, k, v, i - 1);
        assert(rest.skip(i - 1) =~= ps.skip(i));
        assert(seq![ps.first()] + (rest.take(i - 1) + spec_insert(rest.skip(i - 1), k, v)) =~= ps.take(
            i,
        ) + spec_insert(ps.skip(i), k, v));
    }
}

impl Params {
    /// Keys are pairwise distinct.
    pub open spec fn wf(&self) -> bool {
        spec_unique_keys(self@)
    }

    pub fn new() -> (r: Params)
        ensures
            r@ == Seq::<(Seq<char>, Seq<char>)>::empty(),
            r.wf(),
    {
        let r = Params { pairs: Vec::new() };
        proof {
            assert(r@ =~= Seq::<(Seq<char>, Seq<char>)>::empty());
        }
        r
    }

    /// Appends a pair at the end without looking at the keys already
    /// present; under a fresh key this keeps the keys distinct, and the
    /// caller answers for uniqueness where it appends a key on purpose
    /// twice (the exchange's `signature` field is appended outside the
    /// signed set).
    pub fn append_pair(&mut self, key: String, value: String)
        ensures
            final(self)@ == old(self)@.push((key@, value@)),
            old(self).wf() && !spec_has_key(old(self)@, key@) ==> final(self).wf(),
    {
        let ghost prior: Seq<(Seq<char>, Seq<char>)> = self@;
        self.pairs.push((key, value));
        proof {
            assert(self@ =~= prior.push((key@, value@)));
            if spec_unique_keys(prior) && !spec_has_key(prior, key@) {
                assert forall|i: int, j: int| 0 <= i < j < self@.len() implies self@[i].0
                    != self@[j].0 by {
                    if j < prior.len() {
                        assert(self@[i] == prior[i] && self@[j] == prior[j]);
                    } else {
                        assert(self@[i] == prior[i]);
                        assert(self@[j].0 == key@);
                    }
                }
            }
        }
    }

    /// Inserts with the replacement behavior of a map: the first entry
    /// under the same key is overwritten in place, a fresh key is
    /// appended. Keys that were pairwise distinct stay so.
    pub fn insert(&mut self, key: String, value: String)
        ensures
            final(self)@ == spec_insert(old(self)@, key@, value@),
            old(self).wf() ==> final(self).wf(),
    {
        let ghost prior: Seq<(Seq<char>, Seq<char>)> = self@;
        let n = self.pairs.len();
        let mut i: usize = 0;
        while i < n
            invariant
                i <= n,
                n == self.pairs.len(),
                self@ == prior,
                prior == old(self)@,
                forall|j: int| 0 <= j < i ==> prior[j].0 != key@,
            decreases n - i,
        {
            if self.pairs[i].0 == key {
                proof {
                    lemma_insert_split(prior, key@, value@, i as int);
                }
                self.pairs.set(i, (key, value));
                proof {
                    let tail = prior.skip(i as int);
                    assert(tail.len() > 0 && tail.first() == prior[i as int]);
                    assert(spec_insert(tail, key@, value@) == seq![(key@, value@)]
                        + tail.drop_first());
                    assert(tail.drop_first() =~= prior.skip(i + 1));
                    assert(self@ =~= prior.take(i as int) + (seq![(key@, value@)] + prior.skip(
                        i + 1,
                    )));
                    assert(self@ == spec_insert(prior, key@, value@));
                    if spec_unique_keys(prior) {
                        assert(forall|m: int| 0 <= m < self@.len() ==> self@[m].0 == prior[m].0);
                        assert(spec_unique_keys(self@));
                    }
                }
                return ;
            }
            i += 1;
        }
        proof {
            lemma_insert_split(prior, key@, value@, prior.len() as int);
            assert(prior.skip(prior.len() as int) =~= Seq::<(Seq<char>, Seq<char>)>::empty());
            assert(prior.take(prior.len() as int) =~= prior);
        }
        self.pairs.push((key, value));
        proof {
            assert(self@ =~= prior + seq![(key@, value@)]);
            if spec_unique_keys(prior) {
                assert forall|a: int, b: int| 0 <= a < b < self@.len() implies self@[a].0
                    != self@[b].0 by {
                    if b < prior.len() {
                        assert(self@[a] == prior[a] && self@[b] == prior[b]);
                    } else {
                        assert(self@[a] == prior[a]);
                        assert(self@[b].0 == key@);
                    }
                }
            }
        }
    }

    /// Serializes the parameters as the canonical query text.
    pub fn to_query(&self) -> (r: String)
        ensures
            r@ == spec_query(self@),
    {
        let mut s = String::new();
        let n = self.pairs.len();
        let mut i: usize = 0;
        proof {
            assert(self@.take(0) =~= Seq::<(Seq<char>, Seq<char>)>::empty());
        }
        while i < n
            invariant
                i <= n,
                n == self.pairs.len(),
                s@ == spec_query(self@.take(i as int)),
            decreases n - i,
        {
            if i > 0 {
                s.append("&");
            }
            s.append(self.pairs[i].0.as_str());
            s.append("=");
            s.append(self.pairs[i].1.as_str());
            proof {
                reveal_strlit("&");
                reveal_strlit("=");
                assert("&"@ =~= seq!['&']);
                assert("="@ =~= seq!['=']);
                assert(self@.take(i + 1).drop_last() =~= self@.take(i as int));
                assert(self@.take(i + 1).last() == self@[i as int]);
                if i == 0 {
                    assert(s@ =~= spec_query(self@.take(i + 1)));
                } else {
                    assert(s@ =~= spec_query(self@.take(i + 1)));
                }
            }
            i += 1;
        }
        proof {
            assert(self@.take(n as int) =~= self@);
        }
        s
    }
}

} // verus!
