use vstd::prelude::*;

use crate::layout::{
    create_fragment_bind_group_layout_entry, BindGroupLayoutEntry, BindingType, ShaderStages,
};
use crate::registry::{slot_of, LabeledSlot, Registry, Slot};

verus! {

/// Vertices of the full-screen quad the single pipeline draws.
pub const QUAD_VERTICES: u32 = 6;

/// Instances of the full-screen quad.
pub const QUAD_INSTANCES: u32 = 1;

/// Label -> (binding slot, buffer handle).
pub type BufferMap<B> = Registry<B>;

/// Label -> (binding slot, renderable object).
pub type RenderedObjectMap<O> = Registry<O>;

/// What a scene entity offers the renderer. `D` is the device that creates buffers,
/// `B` a buffer handle.
pub trait RenderedObject<D, B> {
    /// Creates the object's backing buffer; called once, at init.
    fn to_buffer(&self, label: &str, device: &D) -> B;

    /// Declares how shaders read `buffer`; called once, at init.
    fn buffer_binding_type(&self, buffer: &B) -> BindingType;

    /// Called once per rendered frame: a new buffer when the content changed since
    /// `current` was made, `None` when it did not.
    fn update_buffer(&self, label: &str, device: &D, current: &B) -> Option<B>;
}

/// The one draw call of a frame.
#[derive(Clone, Copy, Debug, PartialEq, Eq, Structural)]
pub struct DrawCall {
    pub vertices: u32,
    pub instances: u32,
}

/// What a frame asks of the device: the draw call, and whether a buffer was replaced since
/// the previous frame.
#[derive(Clone, Copy, Debug, PartialEq, Eq, Structural)]
pub struct FramePlan {
    pub draw: DrawCall,
    pub buffers_changed: bool,
}

/// The draw call that covers the screen with one quad.
pub open spec fn full_screen_quad() -> DrawCall {
    DrawCall { vertices: QUAD_VERTICES, instances: QUAD_INSTANCES }
}

/// Layout entries that follow the slots one for one: same binding, seen by the fragment stage.
pub open spec fn layout_follows<B>(layout: Seq<BindGroupLayoutEntry>, slots: Seq<Slot<B>>) -> bool {
    &&& layout.len() == slots.len()
    &&& forall|i: int|
        #![trigger layout[i]]
        0 <= i < layout.len() ==> layout[i].binding == slots[i].1 && layout[i].visibility
            == ShaderStages::Fragment
}

/// Two slot lists with the same labels and bindings, position by position.
pub open spec fn same_bindings<B, C>(a: Seq<Slot<B>>, b: Seq<Slot<C>>) -> bool {
    &&& a.len() == b.len()
    &&& forall|i: int|
        #![trigger a[i]]
        0 <= i < a.len() ==> a[i].0 == b[i].0 && a[i].1 == b[i].1
}

/// Owns the registry of buffers and the layout the pipeline is built from.
/// Uninitialized until `init`; afterwards the layout never changes.
pub struct Renderer<B> {
    buffers: Registry<B>,
    layout_entries: Vec<BindGroupLayoutEntry>,
    initialized: bool,
}

impl<B> Renderer<B> {
    pub closed spec fn spec_buffers(&self) -> Registry<B> {
        self.buffers
    }

    pub closed spec fn spec_layout(&self) -> Seq<BindGroupLayoutEntry> {
        self.layout_entries@
    }

    pub closed spec fn spec_initialized(&self) -> bool {
        self.initialized
    }

    pub open spec fn wf(&self) -> bool {
        &&& self.spec_buffers().wf()
        &&& layout_follows(self.spec_layout(), self.spec_buffers().slots())
        &&& !self.spec_initialized() ==> self.spec_buffers().slots().len() == 0
    }

    /// A renderer with no pipeline yet.
    pub fn new() -> (r: Self)
        ensures
            r.wf(),
            !r.spec_initialized(),
            r.spec_buffers()@ == Map::<Seq<char>, (u32, B)>::empty(),
    {
        Renderer { buffers: Registry::new(), layout_entries: Vec::new(), initialized: false }
    }

    pub fn is_initialized(&self) -> (r: bool)
        ensures
            r == self.spec_initialized(),
    {
        self.initialized
    }

    /// The registered buffers, in binding order.
    pub fn buffers(&self) -> (r: &Registry<B>)
        ensures
            *r == self.spec_buffers(),
    {
        &self.buffers
    }

    /// The layout entries of the pipeline's one bind group, in binding order.
    pub fn layout_entries(&self) -> (r: &Vec<BindGroupLayoutEntry>)
        ensures
            r@ == self.spec_layout(),
    {
        &self.layout_entries
    }

    /// Materializes every object's buffer, registers it under the object's label and binding,
    /// and derives one fragment-visible layout entry per object, in binding order.
    pub fn init<D, O: RenderedObject<D, B>>(&mut self, device: &D, objects: &RenderedObjectMap<O>)
        requires
            old(self).wf(),
            !old(self).spec_initialized(),
            objects.wf(),
        ensures
            final(self).wf(),
            final(self).spec_initialized(),
            same_bindings(final(self).spec_buffers().slots(), objects.slots()),
            final(self).spec_buffers().labels() == objects.labels(),
            forall|l: Seq<char>|
                #[trigger] objects@.contains_key(l) ==> final(self).spec_buffers()@[l].0
                    == objects@[l].0,
    {
        let n = objects.len();
        let mut i: usize = 0;
        while i < n
            invariant
                objects.wf(),
                n == objects.slots().len(),
                i <= n,
                self.buffers.wf(),
                self.layout_entries@.len() == i,
                self.buffers.slots().len() == i,
                layout_follows(self.layout_entries@, self.buffers.slots()),
                forall|k: int|
                    #![trigger self.buffers.slots()[k]]
                    0 <= k < i ==> self.buffers.slots()[k].0 == objects.slots()[k].0
                        && self.buffers.slots()[k].1 == objects.slots()[k].1,
            decreases n - i,
        {
            let e: &LabeledSlot<O> = objects.entry(i);
            let buffer = e.value.to_buffer(e.label.as_str(), device);
            let binding_type = e.value.buffer_binding_type(&buffer);
            let ghost prev = self.buffers.slots();
            let ghost prev_layout = self.layout_entries@;
            proof {
                let s = objects.slots();
                assert(s[i as int] == slot_of(*e));
                assert(!self.buffers@.contains_key(e.label@)) by {
                    if self.buffers@.contains_key(e.label@) {
                        let j = choose|j: int| 0 <= j < prev.len() && prev[j].0 == e.label@;
                        assert(prev[j].0 == s[j].0);
                    }
                }
                assert forall|k: int| 0 <= k < prev.len() implies #[trigger] prev[k].1
                    <= e.binding by {
                    assert(prev[k].1 == s[k].1);
                }
            }
            self.layout_entries.push(create_fragment_bind_group_layout_entry(e.binding, binding_type));
            self.buffers.register(e.label.clone(), e.binding, buffer);
            proof {
                let s = self.buffers.slots();
                assert(s == prev.push((e.label@, e.binding, buffer)));
                assert forall|k: int| 0 <= k < self.layout_entries@.len() implies #[trigger]
                    self.layout_entries@[k].binding == s[k].1 && self.layout_entries@[k].visibility
                    == ShaderStages::Fragment by {
                    if k < i {
                        assert(self.layout_entries@[k] == prev_layout[k]);
                        assert(s[k] == prev[k]);
                    }
                }
                assert forall|k: int| 0 <= k <= i implies #[trigger] s[k].0 == objects.slots()[k].0
                    && s[k].1 == objects.slots()[k].1 by {
                    if k < i {
                        assert(s[k] == prev[k]);
                    }
                }
            }
            i += 1;
        }
        self.initialized = true;
        proof {
            let s = self.buffers.slots();
            let o = objects.slots();
            assert forall|l: Seq<char>| self.buffers@.contains_key(l) <==> objects@.contains_key(l) by {
                if self.buffers@.contains_key(l) {
                    let j = choose|j: int| 0 <= j < s.len() && s[j].0 == l;
                    assert(o[j].0 == l);
                }
                if objects@.contains_key(l) {
                    let j = choose|j: int| 0 <= j < o.len() && o[j].0 == l;
                    assert(s[j].0 == l);
                }
            }
            assert(self.buffers.labels() =~= objects.labels());
            assert forall|l: Seq<char>| #[trigger] objects@.contains_key(l) implies self.buffers@[l].0
                == objects@[l].0 by {
                let j = choose|j: int| 0 <= j < o.len() && o[j].0 == l;
                assert(s[j].0 == l && s[j].1 == o[j].1);
            }
        }
    }

    /// Takes the refresh result for `label`: a new buffer replaces the registered one, binding
    /// slot kept; `None`, or a label that was not registered at init, changes nothing.
    /// Returns whether a buffer was replaced.
    pub fn apply_update(&mut self, label: &str, update: Option<B>) -> (replaced: bool)
        requires
            old(self).wf(),
        ensures
            final(self).wf(),
            final(self).spec_initialized() == old(self).spec_initialized(),
            final(self).spec_layout() == old(self).spec_layout(),
            same_bindings(final(self).spec_buffers().slots(), old(self).spec_buffers().slots()),
            final(self).spec_buffers()@ == (match update {
                Some(b) => if old(self).spec_buffers()@.contains_key(label@) {
                    old(self).spec_buffers()@.insert(
                        label@,
                        (old(self).spec_buffers()@[label@].0, b),
                    )
                } else {
                    old(self).spec_buffers()@
                },
                None => old(self).spec_buffers()@,
            }),
            replaced == (update is Some && old(self).spec_buffers()@.contains_key(label@)),
            !replaced ==> final(self).spec_buffers() == old(self).spec_buffers(),
    {
        match update {
            Some(b) => {
                if self.buffers.contains(label) {
                    self.buffers.replace(label, b);
                    true
                } else {
                    false
                }
            },
            None => false,
        }
    }

    /// The per-frame refresh: asks every object registered at init whether its content changed,
    /// takes each new buffer into the registry, and returns the frame's draw call and whether
    /// any buffer was replaced. When none was, every label keeps its binding and its buffer
    /// handle. The bind group is then built from `buffers()`, whose labels and bindings never
    /// change here (rebuilding it every frame is allowed; only a replacement requires it).
    pub fn render<D, O: RenderedObject<D, B>>(
        &mut self,
        device: &D,
        objects: &RenderedObjectMap<O>,
    ) -> (r: FramePlan)
        requires
            old(self).wf(),
            old(self).spec_initialized(),
            objects.wf(),
        ensures
            final(self).wf(),
            final(self).spec_initialized(),
            final(self).spec_layout() == old(self).spec_layout(),
            same_bindings(final(self).spec_buffers().slots(), old(self).spec_buffers().slots()),
            final(self).spec_buffers().labels() == old(self).spec_buffers().labels(),
            r.draw == full_screen_quad(),
            !r.buffers_changed ==> final(self).spec_buffers() == old(self).spec_buffers(),
            forall|l: Seq<char>|
                #[trigger] old(self).spec_buffers()@.contains_key(l) && !objects@.contains_key(l)
                    ==> final(self).spec_buffers()@[l] == old(self).spec_buffers()@[l],
    {
        let changed = self.update_buffers(device, objects);
        FramePlan {
            draw: DrawCall { vertices: QUAD_VERTICES, instances: QUAD_INSTANCES },
            buffers_changed: changed,
        }
    }

    fn update_buffers<D, O: RenderedObject<D, B>>(
        &mut self,
        device: &D,
        objects: &RenderedObjectMap<O>,
    ) -> (changed: bool)
        requires
            old(self).wf(),
            objects.wf(),
        ensures
            final(self).wf(),
            final(self).spec_initialized() == old(self).spec_initialized(),
            final(self).spec_layout() == old(self).spec_layout(),
            same_bindings(final(self).spec_buffers().slots(), old(self).spec_buffers().slots()),
            final(self).spec_buffers().labels() == old(self).spec_buffers().labels(),
            !changed ==> final(self).spec_buffers() == old(self).spec_buffers(),
            forall|l: Seq<char>|
                #[trigger] old(self).spec_buffers()@.contains_key(l) && !objects@.contains_key(l)
                    ==> final(self).spec_buffers()@[l] == old(self).spec_buffers()@[l],
    {
        let n = objects.len();
        let mut i: usize = 0;
        let mut changed = false;
        while i < n
            invariant
                objects.wf(),
                n == objects.slots().len(),
                i <= n,
                self.wf(),
                self.spec_initialized() == old(self).spec_initialized(),
                self.spec_layout() == old(self).spec_layout(),
                same_bindings(self.spec_buffers().slots(), old(self).spec_buffers().slots()),
                self.spec_buffers().labels() == old(self).spec_buffers().labels(),
                !changed ==> self.spec_buffers() == old(self).spec_buffers(),
                forall|l: Seq<char>|
                    #[trigger] old(self).spec_buffers()@.contains_key(l) && !objects@.contains_key(l)
                        ==> self.spec_buffers()@[l] == old(self).spec_buffers()@[l],
            decreases n - i,
        {
            let e: &LabeledSlot<O> = objects.entry(i);
            proof {
                assert(objects.slots()[i as int] == slot_of(*e));
                assert(objects@.contains_key(e.label@));
            }
            let update = match self.buffers.get(e.label.as_str()) {
                Some(current) => e.value.update_buffer(e.label.as_str(), device, current),
                None => None,
            };
            let ghost prev = self.spec_buffers();
            let replaced = self.apply_update(e.label.as_str(), update);
            changed = changed || replaced;
            proof {
                let s = self.spec_buffers().slots();
                let o = old(self).spec_buffers().slots();
                assert forall|k: int| 0 <= k < s.len() implies #[trigger] s[k].0 == o[k].0 && s[k].1
                    == o[k].1 by {
                    assert(s[k].0 == prev.slots()[k].0);
                }
                assert(self.spec_buffers().labels() =~= prev.labels());
            }
            i += 1;
        }
        changed
    }
}

/// The layout and the bind group list their entries in one canonical order: ascending
/// binding index, position by position the same bindings, whatever order objects came in.
pub proof fn lemma_layout_and_bind_group_agree<B>(r: &Renderer<B>)
    requires
        r.wf(),
    ensures
        r.spec_layout().len() == r.spec_buffers().slots().len(),
        forall|i: int|
            0 <= i < r.spec_layout().len() ==> #[trigger] r.spec_layout()[i].binding
                == r.spec_buffers().slots()[i].1,
        forall|i: int, j: int|
            0 <= i < j < r.spec_layout().len() ==> #[trigger] r.spec_layout()[i].binding
                <= #[trigger] r.spec_layout()[j].binding,
{
    let l = r.spec_layout();
    let s = r.spec_buffers().slots();
    assert forall|i: int, j: int| 0 <= i < j < l.len() implies #[trigger] l[i].binding
        <= #[trigger] l[j].binding by {
        assert(l[i].binding == s[i].1 && l[j].binding == s[j].1);
    }
}

} // verus!
