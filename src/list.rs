//! Walking an nginx list: elements stored in a chain of parts.
use vstd::prelude::*;

verus! {

/// The elements of the parts, in order.
pub open spec fn flatten<T>(parts: Seq<Seq<T>>) -> Seq<T>
    decreases parts.len(),
{
    if parts.len() == 0 {
        Seq::empty()
    } else {
        flatten(parts.drop_last()) + parts.last()
    }
}

proof fn lemma_flatten_take_succ<T>(parts: Seq<Seq<T>>, k: int)
    requires
        0 <= k < parts.len(),
    ensures
        flatten(parts.take(k + 1)) == flatten(parts.take(k)) + parts[k],
{
    assert(parts.take(k + 1).drop_last() =~= parts.take(k));
}

proof fn lemma_flatten_take_monotone<T>(parts: Seq<Seq<T>>, k: int)
    requires
        0 <= k <= parts.len(),
    ensures
        flatten(parts.take(k)).len() <= flatten(parts).len(),
        flatten(parts) == flatten(parts.take(k)) + flatten(parts.skip(k)),
    decreases parts.len() - k,
{
    if k == parts.len() {
        assert(parts.take(k) =~= parts);
        assert(parts.skip(k) =~= Seq::<Seq<T>>::empty());
        assert(flatten(parts) + Seq::<T>::empty() =~= flatten(parts));
    } else {
        lemma_flatten_take_monotone(parts, k + 1);
        lemma_flatten_take_succ(parts, k);
        let rest = parts.skip(k);
        assert(rest.drop_first() =~= parts.skip(k + 1));
        lemma_flatten_front(rest);
        assert(flatten(parts) =~= flatten(parts.take(k)) + flatten(parts.skip(k)));
    }
}

proof fn lemma_flatten_front<T>(parts: Seq<Seq<T>>)
    requires
        parts.len() > 0,
    ensures
        flatten(parts) == parts[0] + flatten(parts.drop_first()),
    decreases parts.len(),
{
    if parts.len() == 1 {
        assert(parts.drop_first() =~= Seq::<Seq<T>>::empty());
        assert(parts.drop_last() =~= Seq::<Seq<T>>::empty());
        assert(flatten(parts) =~= parts[0] + flatten(parts.drop_first()));
    } else {
        lemma_flatten_front(parts.drop_last());
        assert(parts.drop_last().drop_first() =~= parts.drop_first().drop_last());
        assert(flatten(parts) =~= parts[0] + flatten(parts.drop_first()));
    }
}

/// An iterator over the (key, value) headers of an nginx list.
pub struct NgxListIterator {
    parts: Vec<Vec<(String, String)>>,
    part: usize,
    i: usize,
    done: bool,
}

/// Every part after the first holds at least one element, as nginx only
/// chains a new part to add an element to it.
pub open spec fn list_parts_wf<T>(parts: Seq<Seq<T>>) -> bool {
    &&& parts.len() > 0
    &&& forall|k: int| 1 <= k < parts.len() ==> #[trigger] parts[k].len() > 0
}

/// The headers of the parts, as views.
pub open spec fn headers_view(parts: Seq<Vec<(String, String)>>) -> Seq<Seq<(Seq<char>, Seq<char>)>> {
    parts.map_values(|p: Vec<(String, String)>| p@.map_values(|h: (String, String)| (h.0@, h.1@)))
}

/// Creates an iterator over the list whose parts are `parts`, in order.
pub fn list_iterator(parts: Vec<Vec<(String, String)>>) -> (r: NgxListIterator)
    requires
        list_parts_wf(headers_view(parts@)),
    ensures
        r.wf(),
        r.elements() == flatten(headers_view(parts@)),
        r.remaining() == flatten(headers_view(parts@)),
{
    let r = NgxListIterator { parts, part: 0, i: 0, done: false };
    proof {
        assert(headers_view(r.parts@).take(0) =~= Seq::<Seq<(Seq<char>, Seq<char>)>>::empty());
        lemma_flatten_take_monotone(headers_view(r.parts@), 0);
    }
    r
}

impl NgxListIterator {
    /// All headers of the list.
    pub closed spec fn elements(&self) -> Seq<(Seq<char>, Seq<char>)> {
        flatten(headers_view(self.parts@))
    }

    /// The headers before the current position.
    closed spec fn position(&self) -> int {
        flatten(headers_view(self.parts@).take(self.part as int)).len() + self.i
    }

    /// The headers that `next` has yet to hand out.
    pub closed spec fn remaining(&self) -> Seq<(Seq<char>, Seq<char>)> {
        if self.done {
            Seq::empty()
        } else {
            self.elements().skip(self.position())
        }
    }

    pub closed spec fn wf(&self) -> bool {
        &&& list_parts_wf(headers_view(self.parts@))
        &&& self.part < self.parts@.len()
        &&& self.i <= self.parts@[self.part as int]@.len()
        &&& self.done ==> self.position() == self.elements().len()
    }

    /// The next header, copied: the headers come out in list order, each
    /// once, and then `None` for good.
    pub fn next(&mut self) -> (r: Option<(String, String)>)
        requires
            old(self).wf(),
        ensures
            final(self).wf(),
            final(self).elements() == old(self).elements(),
            old(self).remaining().len() == 0 ==> r.is_none() && final(self).remaining().len() == 0,
            old(self).remaining().len() > 0 ==> (r matches Some(h) && (h.0@, h.1@) == old(self).remaining()[0]
                && final(self).remaining() == old(self).remaining().drop_first()),
    {
        let ghost hv = headers_view(self.parts@);
        proof {
            lemma_flatten_take_monotone(hv, self.part as int);
            lemma_flatten_take_monotone(hv, self.part + 1);
            lemma_flatten_take_succ(hv, self.part as int);
            assert(hv[self.part as int].len() == self.parts@[self.part as int]@.len());
        }
        if self.done {
            return None;
        }
        if self.i >= self.parts[self.part].len() {
            if self.part >= self.parts.len() - 1 {
                self.done = true;
                proof {
                    assert(hv.take(self.part + 1) =~= hv);
                    assert(old(self).remaining() =~= Seq::<(Seq<char>, Seq<char>)>::empty());
                }
                return None;
            }
            self.part = self.part + 1;
            self.i = 0;
            proof {
                assert(hv[self.part as int].len() > 0);
                assert(self.position() == old(self).position());
            }
        }
        let k = self.part;
        let j = self.i;
        let h = (self.parts[k][j].0.clone(), self.parts[k][j].1.clone());
        self.i = self.i + 1;
        proof {
            lemma_flatten_take_monotone(hv, k as int);
            lemma_flatten_take_succ(hv, k as int);
            let p = flatten(hv.take(k as int)).len() + j;
            lemma_flatten_front(hv.skip(k as int));
            assert(hv.skip(k as int)[0] == hv[k as int]);
            assert(hv[k as int][j as int] == (self.parts@[k as int]@[j as int].0@, self.parts@[k as int]@[j as int].1@));
            assert(flatten(hv)[p] == hv[k as int][j as int]);
            assert(old(self).remaining() =~= flatten(hv).skip(p));
            assert(self.remaining() =~= flatten(hv).skip(p + 1));
            assert(self.remaining() =~= old(self).remaining().drop_first());
        }
        Some(h)
    }
}

} // verus!
