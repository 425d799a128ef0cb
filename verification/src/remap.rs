//! The descriptor binding remapper: flattens the structured
//! (kind, set, binding) addressing scheme into OpenGL's single flat
//! per-kind slot space, and resolves shader-reflected names when
//! compiled shader binaries drop explicit binding decorations.
//!
//! Each binding kind owns an independent, monotonically increasing slot
//! counter; a slot value handed out for a kind is never reused while
//! the table is alive. A single abstract binding may map to several
//! concrete slots, in registration order.

use vstd::prelude::*;

verus! {

/// Index of a descriptor set within a pipeline layout.
pub type DescriptorSetIndex = usize;

/// An abstract binding index, and also a concrete native slot value.
pub type DescriptorBinding = u32;

/// The closed set of binding kinds tracked by this backend: image-like
/// bindings (texture/image units) and uniform-buffer-like bindings
/// (uniform-buffer binding points). Each kind has its own flat slot
/// namespace and its own counter.
#[derive(Clone, Copy, Debug, PartialEq, Eq, Hash, Structural)]
pub enum BindingTypes {
    Images,
    UniformBuffers,
}

/// One recorded slot assignment: an abstract (kind, set, binding) key
/// together with one concrete slot appended to its mapping.
#[derive(Clone, Copy, Debug, PartialEq, Eq, Structural)]
pub struct SlotAssignment {
    pub btype: BindingTypes,
    pub set: DescriptorSetIndex,
    pub binding: DescriptorBinding,
    pub slot: DescriptorBinding,
}

/// One recorded association from a shader-visible identifier to an
/// abstract (kind, set, binding) key.
#[derive(Clone, Debug)]
pub struct NameAssociation {
    pub name: String,
    pub btype: BindingTypes,
    pub set: DescriptorSetIndex,
    pub binding: DescriptorBinding,
}

/// The mathematical image of a [`NameAssociation`].
pub ghost struct NameView {
    pub name: Seq<char>,
    pub btype: BindingTypes,
    pub set: DescriptorSetIndex,
    pub binding: DescriptorBinding,
}

/// The mathematical image of a [`DescRemapData`]: the ordered record of
/// slot assignments, the name associations, and the two per-kind
/// counters.
#[verifier::ext_equal]
pub ghost struct RemapView {
    pub assignments: Seq<SlotAssignment>,
    pub names: Seq<NameView>,
    pub next_images: nat,
    pub next_uniforms: nat,
}

/// The ordered list of concrete slots recorded in `entries` for the
/// given key: registration order is the order of appearance.
pub open spec fn slots_for(
    entries: Seq<SlotAssignment>,
    btype: BindingTypes,
    set: DescriptorSetIndex,
    binding: DescriptorBinding,
) -> Seq<DescriptorBinding>
    decreases entries.len(),
{
    if entries.len() == 0 {
        Seq::empty()
    } else {
        let rest = slots_for(entries.drop_last(), btype, set, binding);
        let e = entries.last();
        if e.btype == btype && e.set == set && e.binding == binding {
            rest.push(e.slot)
        } else {
            rest
        }
    }
}

/// The key that the identifier `n` resolves to, if any; a later
/// association for the same identifier supersedes an earlier one.
pub open spec fn resolve_name(names: Seq<NameView>, n: Seq<char>) -> Option<
    (BindingTypes, DescriptorSetIndex, DescriptorBinding),
>
    decreases names.len(),
{
    if names.len() == 0 {
        None
    } else if names.last().name == n {
        Some((names.last().btype, names.last().set, names.last().binding))
    } else {
        resolve_name(names.drop_last(), n)
    }
}

impl RemapView {
    /// The table with nothing assigned and both counters at zero.
    pub open spec fn empty() -> RemapView {
        RemapView {
            assignments: Seq::empty(),
            names: Seq::empty(),
            next_images: 0,
            next_uniforms: 0,
        }
    }

    /// The slot counter of the given kind.
    pub open spec fn next_of(self, btype: BindingTypes) -> nat {
        match btype {
            BindingTypes::Images => self.next_images,
            BindingTypes::UniformBuffers => self.next_uniforms,
        }
    }

    /// The ordered mapping recorded for an abstract binding.
    pub open spec fn mapping(
        self,
        btype: BindingTypes,
        set: DescriptorSetIndex,
        binding: DescriptorBinding,
    ) -> Seq<DescriptorBinding> {
        slots_for(self.assignments, btype, set, binding)
    }

    /// Whether any slot has been recorded for an abstract binding.
    pub open spec fn registered(
        self,
        btype: BindingTypes,
        set: DescriptorSetIndex,
        binding: DescriptorBinding,
    ) -> bool {
        self.mapping(btype, set, binding).len() > 0
    }

    /// Every recorded slot of a kind lies below that kind's counter:
    /// the counter only grows, so a handed-out slot is never reissued.
    pub open spec fn wf(self) -> bool {
        forall|i: int|
            0 <= i < self.assignments.len() ==> (#[trigger] self.assignments[i]).slot
                < self.next_of(self.assignments[i].btype)
    }

    /// The table after reserving one slot of the given kind.
    pub open spec fn after_reserve(self, btype: BindingTypes) -> RemapView {
        match btype {
            BindingTypes::Images => RemapView { next_images: self.next_images + 1, ..self },
            BindingTypes::UniformBuffers => RemapView {
                next_uniforms: self.next_uniforms + 1,
                ..self
            },
        }
    }

    /// The table after appending an already-reserved slot to the
    /// mapping of an abstract binding.
    pub open spec fn after_explicit(
        self,
        nb: DescriptorBinding,
        btype: BindingTypes,
        set: DescriptorSetIndex,
        binding: DescriptorBinding,
    ) -> RemapView {
        RemapView {
            assignments: self.assignments.push(
                SlotAssignment { btype, set, binding, slot: nb },
            ),
            ..self
        }
    }

    /// The table after an overflow assignment: the next free slot of
    /// the kind is consumed and appended to the binding's mapping.
    pub open spec fn after_overflow(
        self,
        btype: BindingTypes,
        set: DescriptorSetIndex,
        binding: DescriptorBinding,
    ) -> RemapView {
        self.after_reserve(btype).after_explicit(
            self.next_of(btype) as DescriptorBinding,
            btype,
            set,
            binding,
        )
    }

    /// The table after associating an identifier with a key.
    pub open spec fn after_insert_name(
        self,
        n: Seq<char>,
        btype: BindingTypes,
        set: DescriptorSetIndex,
        binding: DescriptorBinding,
    ) -> RemapView {
        RemapView { names: self.names.push(NameView { name: n, btype, set, binding }), ..self }
    }

    /// The mapping that an identifier leads to: the name resolves to a
    /// key, and the key to its recorded slots, absent if either step
    /// finds nothing.
    pub open spec fn lookup_by_name(self, n: Seq<char>) -> Option<Seq<DescriptorBinding>> {
        match resolve_name(self.names, n) {
            Some(key) => if self.registered(key.0, key.1, key.2) {
                Some(self.mapping(key.0, key.1, key.2))
            } else {
                None
            },
            None => None,
        }
    }
}

/// The mathematical images of the recorded name associations.
pub open spec fn name_views(names: Seq<NameAssociation>) -> Seq<NameView> {
    names.map_values(
        |n: NameAssociation| NameView { name: n.name@, btype: n.btype, set: n.set, binding: n.binding },
    )
}

/// Stores where the descriptor bindings have been remapped to.
///
/// OpenGL doesn't support sets, so the bindings have to be flattened
/// out: every abstract binding is assigned its concrete slots once, at
/// pipeline-layout construction time.
#[derive(Clone, Debug)]
pub struct DescRemapData {
    assignments: Vec<SlotAssignment>,
    names: Vec<NameAssociation>,
    next_images: DescriptorBinding,
    next_uniforms: DescriptorBinding,
}

impl View for DescRemapData {
    type V = RemapView;

    closed spec fn view(&self) -> RemapView {
        RemapView {
            assignments: self.assignments@,
            names: name_views(self.names@),
            next_images: self.next_images as nat,
            next_uniforms: self.next_uniforms as nat,
        }
    }
}

impl DescRemapData {
    pub fn new() -> (r: DescRemapData)
        ensures
            r@ == RemapView::empty(),
            r@.wf(),
    {
        let r = DescRemapData {
            assignments: Vec::new(),
            names: Vec::new(),
            next_images: 0,
            next_uniforms: 0,
        };
        proof {
            assert(name_views(r.names@) =~= Seq::<NameView>::empty());
            assert(r@ =~= RemapView::empty());
        }
        r
    }

    /// Consumes and returns the next free slot of the given kind
    /// without recording any mapping. Used when a slot must be set
    /// aside before its logical binding key is known; the slot is later
    /// registered through [`Self::insert_missing_binding`].
    pub fn reserve_binding(&mut self, btype: BindingTypes) -> (nb: DescriptorBinding)
        requires
            old(self)@.next_of(btype) < u32::MAX,
        ensures
            final(self)@ == old(self)@.after_reserve(btype),
            nb == old(self)@.next_of(btype),
            old(self)@.wf() ==> final(self)@.wf(),
    {
        let nb: DescriptorBinding = match btype {
            BindingTypes::Images => {
                let nb = self.next_images;
                self.next_images = self.next_images + 1;
                nb
            },
            BindingTypes::UniformBuffers => {
                let nb = self.next_uniforms;
                self.next_uniforms = self.next_uniforms + 1;
                nb
            },
        };
        proof {
            assert(self@ =~= old(self)@.after_reserve(btype));
        }
        nb
    }

    /// Appends an externally-reserved slot to the mapping of
    /// `(btype, set, binding)` without consuming a new counter value,
    /// and returns the full updated mapping.
    pub fn insert_missing_binding(
        &mut self,
        nb: DescriptorBinding,
        btype: BindingTypes,
        set: DescriptorSetIndex,
        binding: DescriptorBinding,
    ) -> (r: Vec<DescriptorBinding>)
        requires
            nb < old(self)@.next_of(btype),
        ensures
            final(self)@ == old(self)@.after_explicit(nb, btype, set, binding),
            r@ == old(self)@.mapping(btype, set, binding).push(nb),
            r@ == final(self)@.mapping(btype, set, binding),
            old(self)@.wf() ==> final(self)@.wf(),
    {
        let entry = SlotAssignment { btype, set, binding, slot: nb };
        self.assignments.push(entry);
        proof {
            assert(self@ =~= old(self)@.after_explicit(nb, btype, set, binding));
            lemma_slots_for_push(old(self)@.assignments, entry, btype, set, binding);
        }
        self.collect_slots(btype, set, binding)
    }

    /// Allocates the next free slot for `btype`, appends it to the
    /// (possibly empty) mapping already recorded for
    /// `(btype, set, binding)`, and returns the full updated mapping.
    /// Used when one abstract binding must expand to more than one
    /// concrete slot.
    pub fn insert_missing_binding_into_spare(
        &mut self,
        btype: BindingTypes,
        set: DescriptorSetIndex,
        binding: DescriptorBinding,
    ) -> (r: Vec<DescriptorBinding>)
        requires
            old(self)@.next_of(btype) < u32::MAX,
        ensures
            final(self)@ == old(self)@.after_overflow(btype, set, binding),
            r@ == old(self)@.mapping(btype, set, binding).push(
                old(self)@.next_of(btype) as DescriptorBinding,
            ),
            r@ == final(self)@.mapping(btype, set, binding),
            old(self)@.wf() ==> final(self)@.wf(),
    {
        let nb = self.reserve_binding(btype);
        self.insert_missing_binding(nb, btype, set, binding)
    }

    /// Returns the ordered list of concrete slots for an abstract
    /// binding, or absence if it was never registered; absence means
    /// "binding unused by this shader stage", not a failure.
    pub fn get_binding(
        &self,
        btype: BindingTypes,
        set: DescriptorSetIndex,
        binding: DescriptorBinding,
    ) -> (r: Option<Vec<DescriptorBinding>>)
        ensures
            match r {
                Some(slots) => self@.registered(btype, set, binding) && slots@ == self@.mapping(
                    btype,
                    set,
                    binding,
                ),
                None => !self@.registered(btype, set, binding),
            },
    {
        let slots = self.collect_slots(btype, set, binding);
        if slots.len() == 0 {
            None
        } else {
            Some(slots)
        }
    }

    /// Associates a shader-visible identifier with an abstract key, for
    /// resolution when translated shader source has lost its explicit
    /// binding decorations. A later association for the same identifier
    /// supersedes an earlier one.
    pub fn insert_name(
        &mut self,
        name: String,
        btype: BindingTypes,
        set: DescriptorSetIndex,
        binding: DescriptorBinding,
    )
        ensures
            final(self)@ == old(self)@.after_insert_name(name@, btype, set, binding),
            old(self)@.wf() ==> final(self)@.wf(),
    {
        let ghost n = name@;
        self.names.push(NameAssociation { name, btype, set, binding });
        proof {
            assert(name_views(self.names@) =~= name_views(old(self).names@).push(
                (NameView { name: n, btype, set, binding }),
            ));
            assert(self@ =~= old(self)@.after_insert_name(n, btype, set, binding));
        }
    }

    /// Resolves an identifier to its abstract key and returns that
    /// key's mapping, or absence if the identifier is unknown or its
    /// key was never assigned a slot.
    pub fn get_binding_by_name(&self, name: &String) -> (r: Option<Vec<DescriptorBinding>>)
        ensures
            match r {
                Some(slots) => self@.lookup_by_name(name@) == Some(slots@),
                None => self@.lookup_by_name(name@) is None,
            },
    {
        let n = self.names.len();
        proof {
            assert(self.names@.take(n as int) =~= self.names@);
        }
        let mut j: usize = n;
        while j > 0
            invariant
                j <= n,
                n == self.names.len(),
                resolve_name(name_views(self.names@.take(j as int)), name@) == resolve_name(
                    self@.names,
                    name@,
                ),
            decreases j,
        {
            let e = &self.names[j - 1];
            proof {
                lemma_name_views_take(self.names@, j as int);
                lemma_name_views_take(self.names@, j as int - 1);
                assert(name_views(self.names@.take(j as int)).drop_last() =~= name_views(
                    self.names@.take(j as int - 1),
                ));
                assert(name_views(self.names@.take(j as int)).last() == (NameView {
                    name: self.names@[j as int - 1].name@,
                    btype: self.names@[j as int - 1].btype,
                    set: self.names@[j as int - 1].set,
                    binding: self.names@[j as int - 1].binding,
                }));
            }
            if e.name == *name {
                return self.get_binding(e.btype, e.set, e.binding);
            }
            j = j - 1;
        }
        proof {
            assert(self.names@.take(0) =~= Seq::<NameAssociation>::empty());
            assert(name_views(Seq::<NameAssociation>::empty()) =~= Seq::<NameView>::empty());
        }
        None
    }

    /// Collects the recorded slots of a key, in registration order.
    fn collect_slots(
        &self,
        btype: BindingTypes,
        set: DescriptorSetIndex,
        binding: DescriptorBinding,
    ) -> (r: Vec<DescriptorBinding>)
        ensures
            r@ == self@.mapping(btype, set, binding),
    {
        let mut r: Vec<DescriptorBinding> = Vec::new();
        let n = self.assignments.len();
        let mut i: usize = 0;
        while i < n
            invariant
                i <= n,
                n == self.assignments.len(),
                r@ == slots_for(self.assignments@.take(i as int), btype, set, binding),
            decreases n - i,
        {
            let e = self.assignments[i];
            proof {
                assert(self.assignments@.take(i as int + 1).drop_last() =~= self.assignments@.take(
                    i as int,
                ));
                assert(self.assignments@.take(i as int + 1).last() == self.assignments@[i as int]);
            }
            if e.btype == btype && e.set == set && e.binding == binding {
                r.push(e.slot);
            }
            i = i + 1;
        }
        proof {
            assert(self.assignments@.take(n as int) =~= self.assignments@);
        }
        r
    }
}

/// How one appended assignment changes a key's recorded slots: its own
/// key gains the new slot at the end, every other key is untouched.
pub proof fn lemma_slots_for_push(
    entries: Seq<SlotAssignment>,
    e: SlotAssignment,
    btype: BindingTypes,
    set: DescriptorSetIndex,
    binding: DescriptorBinding,
)
    ensures
        slots_for(entries.push(e), btype, set, binding) == if e.btype == btype && e.set == set
            && e.binding == binding {
            slots_for(entries, btype, set, binding).push(e.slot)
        } else {
            slots_for(entries, btype, set, binding)
        },
{
    assert(entries.push(e).drop_last() =~= entries);
    assert(entries.push(e).last() == e);
}

/// Every slot recorded for a key whose kind's entries all lie below
/// `bound` lies below `bound` itself.
proof fn lemma_slots_for_bounded(
    entries: Seq<SlotAssignment>,
    btype: BindingTypes,
    set: DescriptorSetIndex,
    binding: DescriptorBinding,
    bound: nat,
)
    requires
        forall|i: int|
            0 <= i < entries.len() && (#[trigger] entries[i]).btype == btype ==> entries[i].slot
                < bound,
    ensures
        forall|j: int|
            0 <= j < slots_for(entries, btype, set, binding).len() ==> (#[trigger] slots_for(
                entries,
                btype,
                set,
                binding,
            )[j]) < bound,
    decreases entries.len(),
{
    if entries.len() > 0 {
        lemma_slots_for_bounded(entries.drop_last(), btype, set, binding, bound);
        let rest = slots_for(entries.drop_last(), btype, set, binding);
        let e = entries.last();
        assert(e == entries[entries.len() - 1]);
        if e.btype == btype && e.set == set && e.binding == binding {
            assert(slots_for(entries, btype, set, binding) == rest.push(e.slot));
            assert forall|j: int| 0 <= j < rest.push(e.slot).len() implies (#[trigger] rest.push(
                e.slot,
            )[j]) < bound by {
                if j < rest.len() {
                    assert(rest[j] < bound);
                } else {
                    assert(rest.push(e.slot)[j] == e.slot);
                }
            }
        } else {
            assert(slots_for(entries, btype, set, binding) == rest);
        }
    }
}

/// Law: an overflow assignment grows the mapping of its key by exactly
/// one element, placed at the end, preserving the slots already
/// recorded; it leaves every other key's mapping unchanged; and in a
/// well-formed table the appended slot differs from every slot already
/// recorded for the same kind under any key whatsoever.
pub proof fn lemma_overflow_assignment(
    v: RemapView,
    btype: BindingTypes,
    set: DescriptorSetIndex,
    binding: DescriptorBinding,
    set2: DescriptorSetIndex,
    binding2: DescriptorBinding,
)
    requires
        v.wf(),
        v.next_of(btype) < u32::MAX,
    ensures
        ({
            let v2 = v.after_overflow(btype, set, binding);
            let slot = v.next_of(btype) as DescriptorBinding;
            &&& v2.mapping(btype, set, binding) == v.mapping(btype, set, binding).push(slot)
            &&& v2.mapping(btype, set, binding).len() == v.mapping(btype, set, binding).len() + 1
            &&& v2.wf()
            &&& !v.mapping(btype, set2, binding2).contains(slot)
            &&& ((set2, binding2) != (set, binding) ==> v2.mapping(btype, set2, binding2)
                == v.mapping(btype, set2, binding2))
        }),
{
    let slot = v.next_of(btype) as DescriptorBinding;
    let e = SlotAssignment { btype, set, binding, slot };
    lemma_slots_for_push(v.assignments, e, btype, set, binding);
    lemma_slots_for_push(v.assignments, e, btype, set2, binding2);
    lemma_slots_for_bounded(v.assignments, btype, set2, binding2, v.next_of(btype));
    let v2 = v.after_overflow(btype, set, binding);
    assert forall|i: int| 0 <= i < v2.assignments.len() implies (#[trigger] v2.assignments[i]).slot
        < v2.next_of(v2.assignments[i].btype) by {
        if i < v.assignments.len() {
            assert(v.assignments[i].slot < v.next_of(v.assignments[i].btype));
        }
    }
    if v.mapping(btype, set2, binding2).contains(slot) {
        let j = choose|j: int|
            0 <= j < v.mapping(btype, set2, binding2).len() && v.mapping(btype, set2, binding2)[j]
                == slot;
        assert(v.mapping(btype, set2, binding2)[j] < v.next_of(btype));
    }
}

/// Law: reserving a slot and then registering it explicitly yields a
/// mapping that holds exactly that slot at the position corresponding
/// to registration order, the end of the list.
pub proof fn lemma_reserve_then_explicit(
    v: RemapView,
    btype: BindingTypes,
    set: DescriptorSetIndex,
    binding: DescriptorBinding,
)
    ensures
        ({
            let nb = v.next_of(btype) as DescriptorBinding;
            let v2 = v.after_reserve(btype).after_explicit(nb, btype, set, binding);
            &&& v2.mapping(btype, set, binding) == v.mapping(btype, set, binding).push(nb)
            &&& v2.mapping(btype, set, binding)[v.mapping(btype, set, binding).len() as int] == nb
            &&& v2.registered(btype, set, binding)
        }),
{
    let nb = v.next_of(btype) as DescriptorBinding;
    lemma_slots_for_push(
        v.assignments,
        SlotAssignment { btype, set, binding, slot: nb },
        btype,
        set,
        binding,
    );
}

/// Law: nothing is registered in a fresh table: lookup of every
/// (kind, set, binding) combination yields absence until a slot is
/// assigned to it.
pub proof fn lemma_empty_unregistered(
    btype: BindingTypes,
    set: DescriptorSetIndex,
    binding: DescriptorBinding,
)
    ensures
        !RemapView::empty().registered(btype, set, binding),
        RemapView::empty().mapping(btype, set, binding) == Seq::<DescriptorBinding>::empty(),
{
}

/// Law: a slot assignment registers only its own key: the mapping of
/// every other key, of either kind, is exactly as before, so a key
/// that was never assigned stays absent through unrelated assignments.
pub proof fn lemma_assignment_frame(
    v: RemapView,
    nb: DescriptorBinding,
    btype: BindingTypes,
    set: DescriptorSetIndex,
    binding: DescriptorBinding,
    btype2: BindingTypes,
    set2: DescriptorSetIndex,
    binding2: DescriptorBinding,
)
    requires
        (btype2, set2, binding2) != (btype, set, binding),
    ensures
        v.after_explicit(nb, btype, set, binding).mapping(btype2, set2, binding2) == v.mapping(
            btype2,
            set2,
            binding2,
        ),
        v.after_reserve(btype).mapping(btype2, set2, binding2) == v.mapping(
            btype2,
            set2,
            binding2,
        ),
        v.after_overflow(btype, set, binding).mapping(btype2, set2, binding2) == v.mapping(
            btype2,
            set2,
            binding2,
        ),
{
    lemma_slots_for_push(
        v.assignments,
        SlotAssignment { btype, set, binding, slot: nb },
        btype2,
        set2,
        binding2,
    );
    lemma_slots_for_push(
        v.assignments,
        SlotAssignment { btype, set, binding, slot: v.next_of(btype) as DescriptorBinding },
        btype2,
        set2,
        binding2,
    );
}

/// Law: the two kinds' counters are independent: an assignment for one
/// kind leaves the other kind's counter and all its mappings
/// untouched, so the sequences of slots handed out for the two kinds
/// are produced by two counters that never consume from one another.
pub proof fn lemma_kinds_independent(
    v: RemapView,
    btype: BindingTypes,
    set: DescriptorSetIndex,
    binding: DescriptorBinding,
    other: BindingTypes,
    set2: DescriptorSetIndex,
    binding2: DescriptorBinding,
)
    requires
        other != btype,
    ensures
        v.after_overflow(btype, set, binding).next_of(other) == v.next_of(other),
        v.after_reserve(btype).next_of(other) == v.next_of(other),
        v.after_overflow(btype, set, binding).mapping(other, set2, binding2) == v.mapping(
            other,
            set2,
            binding2,
        ),
{
    lemma_assignment_frame(
        v,
        v.next_of(btype) as DescriptorBinding,
        btype,
        set,
        binding,
        other,
        set2,
        binding2,
    );
}

/// Law: reserving a slot consumes one counter value of its kind and
/// records no mapping: every key's mapping is exactly as before.
pub proof fn lemma_reserve_records_nothing(
    v: RemapView,
    btype: BindingTypes,
    btype2: BindingTypes,
    set2: DescriptorSetIndex,
    binding2: DescriptorBinding,
)
    ensures
        v.after_reserve(btype).next_of(btype) == v.next_of(btype) + 1,
        v.after_reserve(btype).mapping(btype2, set2, binding2) == v.mapping(
            btype2,
            set2,
            binding2,
        ),
{
}

/// Law: associating an identifier with a key makes that identifier
/// resolve to exactly that key, leaves every other identifier's
/// resolution as it was, and records no slot: every key's mapping is
/// exactly as before.
pub proof fn lemma_insert_name_resolves(
    v: RemapView,
    n: Seq<char>,
    btype: BindingTypes,
    set: DescriptorSetIndex,
    binding: DescriptorBinding,
    m: Seq<char>,
)
    ensures
        resolve_name(v.after_insert_name(n, btype, set, binding).names, n) == Some(
            (btype, set, binding),
        ),
        m != n ==> resolve_name(v.after_insert_name(n, btype, set, binding).names, m)
            == resolve_name(v.names, m),
        v.after_insert_name(n, btype, set, binding).mapping(btype, set, binding) == v.mapping(
            btype,
            set,
            binding,
        ),
{
    let entry = NameView { name: n, btype, set, binding };
    assert(v.names.push(entry).drop_last() =~= v.names);
    assert(v.names.push(entry).last() == entry);
}

/// Taking a prefix commutes with taking the name associations' images.
proof fn lemma_name_views_take(names: Seq<NameAssociation>, j: int)
    requires
        0 <= j <= names.len(),
    ensures
        name_views(names).take(j) =~= name_views(names.take(j)),
{
}

} // verus!
