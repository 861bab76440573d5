//! The header chain: a singly-linked sequence of fixed-capacity blocks of
//! (name, value) entries, as the host stores request headers.
//!
//! The model keeps the blocks ("parts") in order; the specifications speak
//! of the flattened sequence of entries, so that lookup and enumeration
//! are stated independently of where the part boundaries fall.  Header
//! names compare case-insensitively, byte by byte, per the HTTP
//! convention.

use vstd::prelude::*;

verus! {

/// One (name, value) header entry.  `hash` is the host's presence
/// sentinel: a non-zero value marks the entry as valid.
pub struct HeaderEntry {
    pub hash: u64,
    pub name: Vec<u8>,
    pub value: Vec<u8>,
}

/// One fixed-capacity block of the chain.
pub struct HeaderPart {
    pub entries: Vec<HeaderEntry>,
}

/// The whole chain: its blocks in link order, and the entry capacity each
/// block was made with.
pub struct HeaderList {
    pub parts: Vec<HeaderPart>,
    pub cap: usize,
}

/// ASCII case folding of one byte.
pub open spec fn fold_byte(c: u8) -> u8 {
    if 65 <= c <= 90 {
        (c + 32) as u8
    } else {
        c
    }
}

/// ASCII case folding of a byte string.
pub open spec fn fold_seq(s: Seq<u8>) -> Seq<u8> {
    s.map_values(|c: u8| fold_byte(c))
}

/// The (name, value) bytes of one entry.
pub open spec fn entry_view(e: HeaderEntry) -> (Seq<u8>, Seq<u8>) {
    (e.name@, e.value@)
}

/// The entries of one block, in order.
pub open spec fn part_view(p: HeaderPart) -> Seq<(Seq<u8>, Seq<u8>)> {
    p.entries@.map_values(|e: HeaderEntry| entry_view(e))
}

/// The entries of a sequence of blocks, flattened in link order.
pub open spec fn flat_view(parts: Seq<HeaderPart>) -> Seq<(Seq<u8>, Seq<u8>)>
    decreases parts.len(),
{
    if parts.len() == 0 {
        Seq::empty()
    } else {
        flat_view(parts.drop_last()) + part_view(parts.last())
    }
}

/// The value of the first entry whose name folds to `folded`, if any.
pub open spec fn find_value(entries: Seq<(Seq<u8>, Seq<u8>)>, folded: Seq<u8>) -> Option<Seq<u8>>
    decreases entries.len(),
{
    if entries.len() == 0 {
        None
    } else if fold_seq(entries.first().0) == folded {
        Some(entries.first().1)
    } else {
        find_value(entries.drop_first(), folded)
    }
}

/// The non-empty names of the entries, in order.
pub open spec fn name_list(entries: Seq<(Seq<u8>, Seq<u8>)>) -> Seq<Seq<u8>>
    decreases entries.len(),
{
    if entries.len() == 0 {
        Seq::empty()
    } else {
        let rest = name_list(entries.drop_last());
        if entries.last().0.len() > 0 {
            rest.push(entries.last().0)
        } else {
            rest
        }
    }
}

/// The names joined by a single space.
pub open spec fn join_names(names: Seq<Seq<u8>>) -> Seq<u8>
    decreases names.len(),
{
    if names.len() == 0 {
        Seq::empty()
    } else if names.len() == 1 {
        names[0]
    } else {
        join_names(names.drop_last()) + seq![32u8] + names.last()
    }
}

/// The (name, value) bytes of a sequence of concrete entries.
pub open spec fn entry_views(es: Seq<HeaderEntry>) -> Seq<(Seq<u8>, Seq<u8>)> {
    es.map_values(|e: HeaderEntry| entry_view(e))
}

impl View for HeaderList {
    type V = Seq<(Seq<u8>, Seq<u8>)>;

    open spec fn view(&self) -> Seq<(Seq<u8>, Seq<u8>)> {
        flat_view(self.parts@)
    }
}

proof fn lemma_flat_take_succ(parts: Seq<HeaderPart>, p: int)
    requires
        0 <= p < parts.len(),
    ensures
        flat_view(parts.take(p + 1)) == flat_view(parts.take(p)) + part_view(parts[p]),
{
    assert(parts.take(p + 1).drop_last() =~= parts.take(p));
    assert(parts.take(p + 1).last() == parts[p]);
}

proof fn lemma_find_value_step(entries: Seq<(Seq<u8>, Seq<u8>)>, folded: Seq<u8>, i: int)
    requires
        0 <= i < entries.len(),
        fold_seq(entries[i].0) != folded,
    ensures
        find_value(entries.skip(i), folded) == find_value(entries.skip(i + 1), folded),
{
    assert(entries.skip(i).first() == entries[i]);
    assert(entries.skip(i).drop_first() =~= entries.skip(i + 1));
}

proof fn lemma_find_value_hit(entries: Seq<(Seq<u8>, Seq<u8>)>, folded: Seq<u8>, i: int)
    requires
        0 <= i < entries.len(),
        fold_seq(entries[i].0) == folded,
    ensures
        find_value(entries.skip(i), folded) == Some(entries[i].1),
{
    assert(entries.skip(i).first() == entries[i]);
}

proof fn lemma_name_list_take_succ(entries: Seq<(Seq<u8>, Seq<u8>)>, i: int)
    requires
        0 <= i < entries.len(),
    ensures
        name_list(entries.take(i + 1)) == if entries[i].0.len() > 0 {
            name_list(entries.take(i)).push(entries[i].0)
        } else {
            name_list(entries.take(i))
        },
{
    assert(entries.take(i + 1).drop_last() =~= entries.take(i));
    assert(entries.take(i + 1).last() == entries[i]);
}

proof fn lemma_join_names_push(names: Seq<Seq<u8>>, name: Seq<u8>)
    ensures
        names.len() == 0 ==> join_names(names.push(name)) == name,
        names.len() > 0 ==> join_names(names.push(name)) == join_names(names) + seq![32u8]
            + name,
{
    if names.len() == 0 {
        assert(names.push(name)[0] == name);
    } else {
        assert(names.push(name).drop_last() =~= names);
        assert(names.push(name).last() == name);
    }
}

/// True exactly when the two names are equal up to ASCII case.
pub fn names_match(a: &Vec<u8>, b: &Vec<u8>) -> (r: bool)
    ensures
        r == (fold_seq(a@) == fold_seq(b@)),
{
    if a.len() != b.len() {
        proof {
            assert(fold_seq(a@).len() != fold_seq(b@).len());
        }
        return false;
    }
    let mut i: usize = 0;
    while i < a.len()
        invariant
            a@.len() == b@.len(),
            i <= a@.len(),
            fold_seq(a@).take(i as int) == fold_seq(b@).take(i as int),
        decreases a@.len() - i,
    {
        let ca = fold_ascii(a[i]);
        let cb = fold_ascii(b[i]);
        if ca != cb {
            proof {
                assert(fold_seq(a@)[i as int] != fold_seq(b@)[i as int]);
            }
            return false;
        }
        proof {
            let ghost fa = fold_seq(a@);
            let ghost fb = fold_seq(b@);
            assert(fa.take(i + 1) =~= fa.take(i as int).push(fa[i as int]));
            assert(fb.take(i + 1) =~= fb.take(i as int).push(fb[i as int]));
        }
        i = i + 1;
    }
    proof {
        assert(fold_seq(a@) =~= fold_seq(a@).take(a@.len() as int));
        assert(fold_seq(b@) =~= fold_seq(b@).take(b@.len() as int));
    }
    true
}

/// ASCII case folding of one byte.
pub fn fold_ascii(c: u8) -> (r: u8)
    ensures
        r == fold_byte(c),
{
    if 65 <= c && c <= 90 {
        c + 32
    } else {
        c
    }
}

/// ASCII case folding of a byte string.
pub fn fold_bytes(v: &Vec<u8>) -> (r: Vec<u8>)
    ensures
        r@ == fold_seq(v@),
{
    let mut out: Vec<u8> = Vec::new();
    let mut i: usize = 0;
    while i < v.len()
        invariant
            i <= v@.len(),
            out@ == fold_seq(v@).take(i as int),
        decreases v@.len() - i,
    {
        out.push(fold_ascii(v[i]));
        proof {
            assert(out@ =~= fold_seq(v@).take(i + 1));
        }
        i = i + 1;
    }
    proof {
        assert(fold_seq(v@).take(v@.len() as int) =~= fold_seq(v@));
    }
    out
}

impl HeaderList {
    /// Every block respects the capacity the chain was made with.
    pub open spec fn wf(self) -> bool {
        &&& 1 <= self.cap
        &&& forall|i: int|
            0 <= i < self.parts@.len() ==> #[trigger] self.parts@[i].entries@.len() <= self.cap
    }

    /// An empty chain of block capacity `cap`.
    pub fn new(cap: usize) -> (r: HeaderList)
        requires
            1 <= cap,
        ensures
            r.wf(),
            r@ == Seq::<(Seq<u8>, Seq<u8>)>::empty(),
            r.cap == cap,
    {
        HeaderList { parts: Vec::new(), cap }
    }

    /// The shared traversal primitive: every entry of every block, in link
    /// order, as one flat vector of copies.
    pub fn all_entries(&self) -> (r: Vec<HeaderEntry>)
        ensures
            entry_views(r@) == self@,
    {
        let mut out: Vec<HeaderEntry> = Vec::new();
        let mut p: usize = 0;
        while p < self.parts.len()
            invariant
                p <= self.parts@.len(),
                entry_views(out@) == flat_view(self.parts@.take(p as int)),
            decreases self.parts@.len() - p,
        {
            let part = &self.parts[p];
            let mut j: usize = 0;
            while j < part.entries.len()
                invariant
                    p < self.parts@.len(),
                    *part == self.parts@[p as int],
                    j <= part.entries@.len(),
                    entry_views(out@) == flat_view(self.parts@.take(p as int)) + part_view(
                        *part,
                    ).take(j as int),
                decreases part.entries@.len() - j,
            {
                let e = &part.entries[j];
                let copy = HeaderEntry {
                    hash: e.hash,
                    name: crate::pool::copy_bytes(&e.name),
                    value: crate::pool::copy_bytes(&e.value),
                };
                let ghost before = out@;
                out.push(copy);
                proof {
                    assert(entry_views(out@) =~= entry_views(before).push(entry_view(
                        self.parts@[p as int].entries@[j as int],
                    )));
                    assert(part_view(*part).take(j + 1) =~= part_view(*part).take(
                        j as int,
                    ).push(entry_view(self.parts@[p as int].entries@[j as int])));
                }
                j = j + 1;
            }
            proof {
                assert(part_view(*part).take(part.entries@.len() as int) =~= part_view(*part));
                lemma_flat_take_succ(self.parts@, p as int);
            }
            p = p + 1;
        }
        proof {
            assert(self.parts@.take(self.parts@.len() as int) =~= self.parts@);
        }
        out
    }

    /// Scans the chain for the first entry whose name equals `name` up to
    /// ASCII case, and hands back a copy of its value.
    pub fn lookup(&self, name: &Vec<u8>) -> (r: Option<Vec<u8>>)
        ensures
            match r {
                Some(v) => find_value(self@, fold_seq(name@)) == Some(v@),
                None => find_value(self@, fold_seq(name@)) is None,
            },
    {
        let es = self.all_entries();
        let ghost folded = fold_seq(name@);
        proof {
            assert(entry_views(es@).skip(0) =~= entry_views(es@));
        }
        let mut i: usize = 0;
        while i < es.len()
            invariant
                i <= es@.len(),
                entry_views(es@) == self@,
                find_value(self@, folded) == find_value(entry_views(es@).skip(i as int), folded),
                folded == fold_seq(name@),
            decreases es@.len() - i,
        {
            proof {
                assert(entry_views(es@)[i as int] == entry_view(es@[i as int]));
            }
            if names_match(&es[i].name, name) {
                proof {
                    lemma_find_value_hit(entry_views(es@), folded, i as int);
                }
                return Some(crate::pool::copy_bytes(&es[i].value));
            }
            proof {
                lemma_find_value_step(entry_views(es@), folded, i as int);
            }
            i = i + 1;
        }
        proof {
            assert(entry_views(es@).skip(es@.len() as int) =~= Seq::<(Seq<u8>, Seq<u8>)>::empty());
        }
        None
    }

    /// Collects every non-empty header name into one space-joined byte
    /// string, or reports absence when the chain holds none.
    pub fn names_joined(&self) -> (r: Option<Vec<u8>>)
        ensures
            match r {
                Some(v) => name_list(self@).len() > 0 && v@ == join_names(name_list(self@)),
                None => name_list(self@).len() == 0,
            },
    {
        let es = self.all_entries();
        let mut acc: Vec<u8> = Vec::new();
        let mut found: usize = 0;
        let mut i: usize = 0;
        while i < es.len()
            invariant
                i <= es@.len(),
                found <= i,
                entry_views(es@) == self@,
                found == name_list(entry_views(es@).take(i as int)).len(),
                acc@ == join_names(name_list(entry_views(es@).take(i as int))),
            decreases es@.len() - i,
        {
            let ghost prefix = name_list(entry_views(es@).take(i as int));
            proof {
                assert(entry_views(es@)[i as int] == entry_view(es@[i as int]));
                lemma_name_list_take_succ(entry_views(es@), i as int);
            }
            if es[i].name.len() > 0 {
                proof {
                    lemma_join_names_push(prefix, es@[i as int].name@);
                }
                if found > 0 {
                    acc.push(32);
                }
                let mut k: usize = 0;
                let ghost base = acc@;
                let name = &es[i].name;
                while k < name.len()
                    invariant
                        k <= name@.len(),
                        acc@ == base + name@.take(k as int),
                    decreases name@.len() - k,
                {
                    acc.push(name[k]);
                    proof {
                        assert(base + name@.take(k + 1) =~= (base + name@.take(k as int)).push(
                            name@[k as int],
                        ));
                    }
                    k = k + 1;
                }
                proof {
                    assert(base + name@.take(name@.len() as int) =~= base + name@);
                    if prefix.len() == 0 {
                        assert(acc@ =~= join_names(prefix.push(es@[i as int].name@)));
                    } else {
                        assert(acc@ =~= join_names(prefix) + seq![32u8] + es@[i as int].name@);
                    }
                }
                found = found + 1;
            }
            i = i + 1;
        }
        proof {
            assert(entry_views(es@).take(es@.len() as int) =~= entry_views(es@));
        }
        if found == 0 {
            None
        } else {
            Some(acc)
        }
    }

    /// Appends one entry, opening a fresh block when the last one is full,
    /// as the host's list-push does.
    pub fn push_entry(&mut self, e: HeaderEntry)
        requires
            old(self).wf(),
        ensures
            final(self).wf(),
            final(self).cap == old(self).cap,
            final(self)@ == old(self)@.push(entry_view(e)),
            final(self).parts@.len() > 0,
            final(self).parts@.last().entries@.len() > 0,
            final(self).parts@.last().entries@.last() == e,
    {
        let ghost pre = self.parts@;
        let n = self.parts.len();
        if n == 0 || self.parts[n - 1].entries.len() >= self.cap {
            let mut entries: Vec<HeaderEntry> = Vec::new();
            entries.push(e);
            self.parts.push(HeaderPart { entries });
            proof {
                assert(self.parts@.drop_last() =~= pre);
                assert(part_view(self.parts@.last()) =~= Seq::<(Seq<u8>, Seq<u8>)>::empty().push(
                    entry_view(self.parts@.last().entries@.last()),
                ));
                assert(self@ =~= old(self)@.push(entry_view(self.parts@.last().entries@.last())));
            }
        } else {
            let ghost old_part = self.parts@[n - 1];
            let last = &mut self.parts[n - 1];
            last.entries.push(e);
            proof {
                assert(self.parts@ =~= pre.update(n - 1, self.parts@[n - 1]));
                assert(self.parts@.drop_last() =~= pre.drop_last());
                assert(part_view(self.parts@[n - 1]) =~= part_view(old_part).push(entry_view(
                    self.parts@[n - 1].entries@.last(),
                )));
                assert(pre =~= pre.drop_last().push(old_part));
                lemma_flat_last(pre);
                assert(self@ =~= old(self)@.push(entry_view(e)));
            }
        }
    }
}

proof fn lemma_flat_last(parts: Seq<HeaderPart>)
    requires
        parts.len() > 0,
    ensures
        flat_view(parts) == flat_view(parts.drop_last()) + part_view(parts.last()),
{
}

/// Law: appending an entry with a non-empty name adds exactly that name at
/// the end of the chain's name enumeration; no earlier name moves.
pub proof fn lemma_push_adds_name(entries: Seq<(Seq<u8>, Seq<u8>)>, name: Seq<u8>, value: Seq<u8>)
    requires
        name.len() > 0,
    ensures
        name_list(entries.push((name, value))) == name_list(entries).push(name),
{
    assert(entries.push((name, value)).drop_last() =~= entries);
}

} // verus!
