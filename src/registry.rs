use vstd::prelude::*;

verus! {

/// One registered item: a stable label, the binding slot it occupies and its value
/// (a buffer handle, or the renderable object that produces one).
pub struct LabeledSlot<B> {
    pub label: String,
    pub binding: u32,
    pub value: B,
}

/// A slot as the contracts see it: label, binding index, buffer.
pub type Slot<B> = (Seq<char>, u32, B);

/// Slots are ordered by binding index (ties keep the order in which they came).
pub open spec fn ordered_by_binding<B>(s: Seq<Slot<B>>) -> bool {
    forall|i: int, j: int| 0 <= i < j < s.len() ==> s[i].1 <= s[j].1
}

/// No label occurs twice.
pub open spec fn labels_distinct<B>(s: Seq<Slot<B>>) -> bool {
    forall|i: int, j: int| 0 <= i < j < s.len() ==> s[i].0 != s[j].0
}

/// The slots list exactly the entries of `m`.
pub open spec fn slots_agree<B>(s: Seq<Slot<B>>, m: Map<Seq<char>, (u32, B)>) -> bool {
    &&& labels_distinct(s)
    &&& forall|i: int|
        #![trigger s[i]]
        0 <= i < s.len() ==> m.contains_key(s[i].0) && m[s[i].0] == (s[i].1, s[i].2)
    &&& forall|l: Seq<char>| #[trigger]
        m.contains_key(l) ==> exists|i: int| 0 <= i < s.len() && s[i].0 == l
}

/// The mapping label -> (binding slot, buffer), kept in canonical binding order.
///
/// The registry does not check that binding indices are unique: that is the caller's duty.
pub struct Registry<B> {
    entries: Vec<LabeledSlot<B>>,
    contents: Ghost<Map<Seq<char>, (u32, B)>>,
}

impl<B> View for Registry<B> {
    type V = Map<Seq<char>, (u32, B)>;

    closed spec fn view(&self) -> Map<Seq<char>, (u32, B)> {
        self.contents@
    }
}

pub open spec fn slot_of<B>(e: LabeledSlot<B>) -> Slot<B> {
    (e.label@, e.binding, e.value)
}

impl<B> Registry<B> {
    /// The registered resources in the order in which bind groups and layouts list them.
    pub closed spec fn slots(&self) -> Seq<Slot<B>> {
        self.entries@.map_values(|e: LabeledSlot<B>| slot_of(e))
    }

    pub open spec fn wf(&self) -> bool {
        &&& ordered_by_binding(self.slots())
        &&& slots_agree(self.slots(), self@)
    }

    /// The set of registered labels.
    pub open spec fn labels(&self) -> Set<Seq<char>> {
        self@.dom()
    }

    /// An empty registry.
    pub fn new() -> (r: Self)
        ensures
            r.wf(),
            r@ == Map::<Seq<char>, (u32, B)>::empty(),
            r.slots().len() == 0,
    {
        let r = Registry { entries: Vec::new(), contents: Ghost(Map::empty()) };
        assert(r.slots() =~= Seq::<Slot<B>>::empty());
        r
    }

    /// Number of registered resources.
    pub fn len(&self) -> (r: usize)
        ensures
            r == self.slots().len(),
    {
        self.entries.len()
    }

    /// Position of `label` among the slots, if it is registered.
    fn find(&self, label: &str) -> (r: Option<usize>)
        requires
            self.wf(),
        ensures
            match r {
                Some(i) => i < self.slots().len() && self.slots()[i as int].0 == label@,
                None => !self@.contains_key(label@),
            },
    {
        let key = label.to_owned();
        let mut i: usize = 0;
        while i < self.entries.len()
            invariant
                self.wf(),
                key@ == label@,
                i <= self.entries.len(),
                forall|k: int| 0 <= k < i ==> self.slots()[k].0 != label@,
            decreases self.entries.len() - i,
        {
            if self.entries[i].label == key {
                return Some(i);
            }
            i += 1;
        }
        assert forall|l: Seq<char>| self@.contains_key(l) implies l != label@ by {
            let k = choose|k: int| 0 <= k < self.slots().len() && self.slots()[k].0 == l;
        }
        None
    }

    /// Whether `label` is registered.
    pub fn contains(&self, label: &str) -> (r: bool)
        requires
            self.wf(),
        ensures
            r == self@.contains_key(label@),
    {
        match self.find(label) {
            Some(_) => true,
            None => false,
        }
    }

    /// The binding slot registered for `label`.
    pub fn binding_of(&self, label: &str) -> (r: Option<u32>)
        requires
            self.wf(),
        ensures
            r == (if self@.contains_key(label@) {
                Some(self@[label@].0)
            } else {
                None::<u32>
            }),
    {
        match self.find(label) {
            Some(i) => Some(self.entries[i].binding),
            None => None,
        }
    }

    /// The buffer registered for `label`.
    pub fn get(&self, label: &str) -> (r: Option<&B>)
        requires
            self.wf(),
        ensures
            r.is_some() == self@.contains_key(label@),
            r.is_some() ==> *r.unwrap() == self@[label@].1,
    {
        match self.find(label) {
            Some(i) => Some(&self.entries[i].value),
            None => None,
        }
    }

    /// The `i`-th slot in binding order.
    pub fn entry(&self, i: usize) -> (r: &LabeledSlot<B>)
        requires
            i < self.slots().len(),
        ensures
            slot_of(*r) == self.slots()[i as int],
    {
        &self.entries[i]
    }

    /// Inserts `label` at `binding` with `buffer`, overwriting an earlier registration of it.
    pub fn register(&mut self, label: String, binding: u32, buffer: B)
        requires
            old(self).wf(),
        ensures
            final(self).wf(),
            final(self)@ == old(self)@.insert(label@, (binding, buffer)),
            // a new label whose binding is not below any registered one goes last
            !old(self)@.contains_key(label@) && (forall|k: int|
                0 <= k < old(self).slots().len() ==> #[trigger] old(self).slots()[k].1 <= binding)
                ==> final(self).slots() == old(self).slots().push((label@, binding, buffer)),
    {
        match self.find(label.as_str()) {
            Some(i) => {
                self.remove_at(i);
            },
            None => {},
        }
        let pos = self.insertion_point(binding);
        self.insert_at(pos, label, binding, buffer);
    }

    /// The first position whose binding is above `binding`.
    fn insertion_point(&self, binding: u32) -> (pos: usize)
        requires
            self.wf(),
        ensures
            pos <= self.slots().len(),
            forall|k: int| 0 <= k < pos ==> #[trigger] self.slots()[k].1 <= binding,
            pos < self.slots().len() ==> self.slots()[pos as int].1 > binding,
            (forall|k: int| 0 <= k < self.slots().len() ==> #[trigger] self.slots()[k].1 <= binding)
                ==> pos == self.slots().len(),
    {
        let mut pos: usize = 0;
        while pos < self.entries.len() && self.entries[pos].binding <= binding
            invariant
                pos <= self.entries.len(),
                forall|k: int| 0 <= k < pos ==> #[trigger] self.slots()[k].1 <= binding,
            decreases self.entries.len() - pos,
        {
            pos += 1;
        }
        pos
    }

    /// Puts a new label at `pos`, where its binding keeps the slots in order.
    fn insert_at(&mut self, pos: usize, label: String, binding: u32, buffer: B)
        requires
            old(self).wf(),
            !old(self)@.contains_key(label@),
            pos <= old(self).slots().len(),
            forall|k: int| 0 <= k < pos ==> #[trigger] old(self).slots()[k].1 <= binding,
            pos < old(self).slots().len() ==> old(self).slots()[pos as int].1 > binding,
        ensures
            final(self).wf(),
            final(self)@ == old(self)@.insert(label@, (binding, buffer)),
            final(self).slots() == old(self).slots().insert(pos as int, (label@, binding, buffer)),
    {
        let ghost before = self.slots();
        let ghost m = self@;
        let ghost l = label@;
        self.entries.insert(pos, LabeledSlot { label, binding, value: buffer });
        self.contents = Ghost(m.insert(l, (binding, buffer)));
        let ghost s = self.slots();
        assert(s =~= before.insert(pos as int, (l, binding, buffer)));
        assert forall|i: int|
            #![trigger s[i]]
            0 <= i < s.len() && i != pos implies before.contains(s[i]) by {
            if i < pos {
                assert(s[i] == before[i]);
            } else {
                assert(s[i] == before[i - 1]);
            }
        }
        assert(labels_distinct(s)) by {
            assert forall|i: int, j: int| 0 <= i < j < s.len() implies s[i].0 != s[j].0 by {
                if i != pos && j != pos {
                    let bi = if i < pos { i } else { i - 1 };
                    let bj = if j < pos { j } else { j - 1 };
                    assert(s[i] == before[bi] && s[j] == before[bj]);
                } else if i == pos {
                    assert(before.contains(s[j]));
                } else {
                    assert(before.contains(s[i]));
                }
            }
        }
        assert forall|k: Seq<char>| #[trigger] self@.contains_key(k) implies exists|i: int|
            0 <= i < s.len() && s[i].0 == k by {
            if k == l {
                assert(s[pos as int].0 == k);
            } else {
                let j = choose|j: int| 0 <= j < before.len() && before[j].0 == k;
                if j < pos {
                    assert(s[j] == before[j]);
                } else {
                    assert(s[j + 1] == before[j]);
                }
            }
        }
        assert(ordered_by_binding(s)) by {
            assert forall|i: int, j: int| 0 <= i < j < s.len() implies s[i].1 <= s[j].1 by {
                if j < pos {
                    assert(s[i] == before[i] && s[j] == before[j]);
                } else if j == pos {
                    assert(s[i] == before[i]);
                } else if i == pos {
                    assert(s[j] == before[j - 1]);
                    assert(before[pos as int].1 > binding);
                    assert(before[pos as int].1 <= before[j - 1].1);
                } else if i < pos {
                    assert(s[i] == before[i] && s[j] == before[j - 1]);
                } else {
                    assert(s[i] == before[i - 1] && s[j] == before[j - 1]);
                }
            }
        }
    }

    /// Drops the slot at position `i`.
    fn remove_at(&mut self, i: usize)
        requires
            old(self).wf(),
            i < old(self).slots().len(),
        ensures
            final(self).wf(),
            final(self)@ == old(self)@.remove(old(self).slots()[i as int].0),
    {
        let ghost before = self.slots();
        let ghost m = self@;
        let ghost l = before[i as int].0;
        let _gone = self.entries.remove(i);
        self.contents = Ghost(m.remove(l));
        let ghost s = self.slots();
        assert(s =~= before.remove(i as int));
        assert forall|k: int|
            #![trigger s[k]]
            0 <= k < s.len() implies self@.contains_key(s[k].0) && self@[s[k].0] == (
                s[k].1,
                s[k].2,
            ) by {
            if k < i {
                assert(s[k] == before[k]);
            } else {
                assert(s[k] == before[k + 1]);
            }
        }
        assert forall|k: Seq<char>| #[trigger] self@.contains_key(k) implies exists|j: int|
            0 <= j < s.len() && s[j].0 == k by {
            let j = choose|j: int| 0 <= j < before.len() && before[j].0 == k;
            if j < i {
                assert(s[j] == before[j]);
            } else {
                assert(j != i);
                assert(s[j - 1] == before[j]);
            }
        }
    }

    /// Swaps the buffer registered for `label`; its binding slot and position stay.
    pub fn replace(&mut self, label: &str, new_buffer: B)
        requires
            old(self).wf(),
            old(self)@.contains_key(label@),
        ensures
            final(self).wf(),
            final(self)@ == old(self)@.insert(label@, (old(self)@[label@].0, new_buffer)),
            final(self).slots().len() == old(self).slots().len(),
            forall|k: int|
                0 <= k < old(self).slots().len() ==> (#[trigger] final(self).slots()[k]).0
                    == old(self).slots()[k].0 && final(self).slots()[k].1 == old(
                    self,
                ).slots()[k].1,
    {
        let i = self.find(label).unwrap();
        let ghost before = self.slots();
        let ghost m = self@;
        let old_entry = self.entries.remove(i);
        let ghost l = old_entry.label@;
        let b = old_entry.binding;
        self.entries.insert(i, LabeledSlot { label: old_entry.label, binding: b, value: new_buffer });
        self.contents = Ghost(m.insert(l, (b, new_buffer)));
        let ghost s = self.slots();
        assert(s =~= before.update(i as int, (l, b, new_buffer)));
        assert forall|k: Seq<char>| #[trigger] self@.contains_key(k) implies exists|j: int|
            0 <= j < s.len() && s[j].0 == k by {
            let j = choose|j: int| 0 <= j < before.len() && before[j].0 == k;
            assert(s[j].0 == before[j].0);
        }
    }
}

/// An empty buffer map.
pub fn initiate_buffer_map<B>() -> (r: Registry<B>)
    ensures
        r.wf(),
        r@ == Map::<Seq<char>, (u32, B)>::empty(),
{
    Registry::new()
}

/// Registers `buffer` under `label` at `binding`, overwriting an earlier registration.
pub fn add_buffer<B>(map: &mut Registry<B>, buffer: B, binding: u32, label: &str)
    requires
        old(map).wf(),
    ensures
        final(map).wf(),
        final(map)@ == old(map)@.insert(label@, (binding, buffer)),
{
    map.register(label.to_owned(), binding, buffer);
}

/// Replaces the buffer of a registered label; its binding slot stays.
pub fn update_buffer<B>(map: &mut Registry<B>, label: &str, new_buffer: B)
    requires
        old(map).wf(),
        old(map)@.contains_key(label@),
    ensures
        final(map).wf(),
        final(map)@ == old(map)@.insert(label@, (old(map)@[label@].0, new_buffer)),
{
    map.replace(label, new_buffer);
}

/// Replacing a buffer keeps the label's binding slot and every other registration,
/// and changes only the buffer handle.
pub proof fn lemma_replace_keeps_binding<B>(
    before: Map<Seq<char>, (u32, B)>,
    after: Map<Seq<char>, (u32, B)>,
    label: Seq<char>,
    new_buffer: B,
)
    requires
        before.contains_key(label),
        after == before.insert(label, (before[label].0, new_buffer)),
    ensures
        after.dom() == before.dom(),
        after[label].0 == before[label].0,
        after[label].1 == new_buffer,
        forall|l: Seq<char>| #[trigger] before.contains_key(l) && l != label ==> after[l] == before[l],
{
    assert(after.dom() =~= before.dom());
}

} // verus!
