//! Class descriptors and the registry that holds them.
//!
//! A class is a table of virtual-method slots with a link to its parent class.
//! The registry is the explicit form of the state that the foreign runtime
//! keeps for the whole process: it is written once per implementation type,
//! when that type is registered, and only read afterwards.

use vstd::prelude::*;

verus! {

/// The identifier of the foreign base class, which every registry holds from the start.
pub const TREE_MODEL_FILTER: usize = 0;

/// What a virtual-method slot holds once an implementation type has taken it
/// over: the entry point that forwards the call to the overrides of that type.
#[derive(Clone, Copy, Debug, PartialEq, Eq, Structural)]
pub struct Trampoline {
    /// The class of the implementation type whose override the entry point calls.
    pub implementation: usize,
}

/// A class descriptor.
#[derive(Clone, Copy, Debug, PartialEq, Eq, Structural)]
pub struct TreeModelFilterClass {
    /// The class that this one derives from; `None` for the foreign base class.
    pub parent: Option<usize>,
    /// How many implementation objects an instance of this class embeds: one
    /// for each registered class on the way up to the base class.
    pub instance_size: usize,
    /// The slot of the object-level virtual methods (properties, construction,
    /// disposal), which an implementation type takes over together.
    pub object: Option<Trampoline>,
    /// The slot of `visible`.
    pub visible: Option<Trampoline>,
    /// The slot of `modify`.
    pub modify: Option<Trampoline>,
}

/// What a [`ClassRegistry`] holds, as a mathematical value.
pub struct RegistryState {
    /// Whether the foreign runtime has been initialised.
    pub initialized: bool,
    /// The name of each class, by class identifier.
    pub names: Seq<Seq<char>>,
    /// The descriptor of each class, by class identifier.
    pub classes: Seq<TreeModelFilterClass>,
}

/// The descriptor of the foreign base class: no parent and no slot taken.
pub open spec fn base_class() -> TreeModelFilterClass {
    TreeModelFilterClass { parent: None, instance_size: 0, object: None, visible: None, modify: None }
}

/// The entry point of the implementation type registered as class `id`.
pub open spec fn trampoline_of(id: int) -> Option<Trampoline> {
    Some(Trampoline { implementation: id as usize })
}

/// The descriptor with which the class `id` comes out of its registration
/// under the parent class `parent`, whose descriptor is `parent_class`.
pub open spec fn derived_class(id: int, parent: int, parent_class: TreeModelFilterClass)
    -> TreeModelFilterClass {
    TreeModelFilterClass {
        parent: Some(parent as usize),
        instance_size: (parent_class.instance_size + 1) as usize,
        object: trampoline_of(id),
        visible: trampoline_of(id),
        modify: trampoline_of(id),
    }
}

/// Whether `name` is the name of a class of `s`.
pub open spec fn has_name(s: RegistryState, name: Seq<char>) -> bool {
    exists|i: int| 0 <= i < s.names.len() && s.names[i] == name
}

/// Whether the class `i` is what its registration made of it: linked to an
/// older class, one implementation object larger than its parent, and with
/// every slot taken over by its own entry point.
pub open spec fn is_wired(s: RegistryState, i: int) -> bool {
    &&& s.classes[i].parent matches Some(p)
    &&& p < i
    &&& s.classes[i] == derived_class(i, p as int, s.classes[p as int])
    &&& 1 <= s.classes[i].instance_size <= i
}

/// The invariant of every registry: the base class comes first and is
/// untouched, names are unique, no class was registered before the runtime
/// was initialised, and every other class is wired.
pub open spec fn well_formed(s: RegistryState) -> bool {
    &&& 1 <= s.classes.len() <= usize::MAX
    &&& s.names.len() == s.classes.len()
    &&& s.classes[0] == base_class()
    &&& s.classes.len() > 1 ==> s.initialized
    &&& forall|i: int, j: int| 0 <= i < j < s.names.len() ==> s.names[i] != s.names[j]
    &&& forall|i: int| 1 <= i < s.classes.len() ==> #[trigger] is_wired(s, i)
}

/// Whether the class `class` is `ancestor` or derives from it, however many
/// links up the chain.
pub open spec fn derives_from(s: RegistryState, class: int, ancestor: int) -> bool
    decreases class,
{
    if class == ancestor {
        true
    } else if 0 < class < s.classes.len() {
        match s.classes[class].parent {
            Some(p) => p < class && derives_from(s, p as int, ancestor),
            None => false,
        }
    } else {
        false
    }
}

/// The state after the implementation type `name` was registered under
/// `parent`: a type that is already there leaves the state as it is, a new one
/// is appended.
pub open spec fn registered(s: RegistryState, name: Seq<char>, parent: int) -> RegistryState {
    if has_name(s, name) {
        s
    } else {
        RegistryState {
            initialized: s.initialized,
            names: s.names.push(name),
            classes: s.classes.push(
                derived_class(s.classes.len() as int, parent, s.classes[parent]),
            ),
        }
    }
}

/// The identifier under which `name` is found after `registered`.
pub open spec fn class_of_name(s: RegistryState, name: Seq<char>) -> int {
    if has_name(s, name) {
        choose|i: int| 0 <= i < s.names.len() && s.names[i] == name
    } else {
        s.names.len() as int
    }
}

impl TreeModelFilterClass {
    /// The class struct that the runtime hands to the class initialiser of a
    /// new type: a copy of the parent's, linked to the parent, with room for
    /// one more implementation object.
    pub fn inherit(parent: usize, parent_class: &TreeModelFilterClass) -> (class:
        TreeModelFilterClass)
        requires
            parent_class.instance_size < usize::MAX,
        ensures
            class == (TreeModelFilterClass {
                parent: Some(parent),
                instance_size: (parent_class.instance_size + 1) as usize,
                ..*parent_class
            }),
    {
        TreeModelFilterClass {
            parent: Some(parent),
            instance_size: parent_class.instance_size + 1,
            object: parent_class.object,
            visible: parent_class.visible,
            modify: parent_class.modify,
        }
    }

    /// The class initialiser of the object level: takes over the object-level
    /// slot for `implementation` and leaves the rest of the class as it is.
    pub fn object_class_init(&mut self, implementation: usize)
        ensures
            *final(self) == (TreeModelFilterClass {
                object: Some(Trampoline { implementation }),
                ..*old(self)
            }),
    {
        self.object = Some(Trampoline { implementation });
    }

    /// The class initialiser of an implementation type: runs the initialiser of
    /// the object level first, then takes over the slots of `visible` and
    /// `modify`. The parent link and the instance size stay untouched.
    pub fn class_init(&mut self, implementation: usize)
        ensures
            *final(self) == (TreeModelFilterClass {
                object: Some(Trampoline { implementation }),
                visible: Some(Trampoline { implementation }),
                modify: Some(Trampoline { implementation }),
                ..*old(self)
            }),
    {
        self.object_class_init(implementation);
        self.visible = Some(Trampoline { implementation });
        self.modify = Some(Trampoline { implementation });
    }
}

/// The registry of classes.
pub struct ClassRegistry {
    initialized: bool,
    names: Vec<String>,
    classes: Vec<TreeModelFilterClass>,
}

impl View for ClassRegistry {
    type V = RegistryState;

    closed spec fn view(&self) -> RegistryState {
        RegistryState {
            initialized: self.initialized,
            names: self.names@.map_values(|n: String| n@),
            classes: self.classes@,
        }
    }
}

impl ClassRegistry {
    /// Whether this registry is in a state that registration can have produced.
    pub open spec fn wf(&self) -> bool {
        well_formed(self@)
    }

    /// A registry that holds the foreign base class and nothing else, in a
    /// runtime that is not initialised yet.
    pub fn new() -> (r: ClassRegistry)
        ensures
            r@.initialized == false,
            r@.names == seq!["GtkTreeModelFilter"@],
            r@.classes == seq![base_class()],
            r.wf(),
    {
        let mut names: Vec<String> = Vec::new();
        names.push("GtkTreeModelFilter".to_owned());
        let mut classes: Vec<TreeModelFilterClass> = Vec::new();
        classes.push(
            TreeModelFilterClass {
                parent: None,
                instance_size: 0,
                object: None,
                visible: None,
                modify: None,
            },
        );
        let r = ClassRegistry { initialized: false, names, classes };
        assert(r@.names =~= seq!["GtkTreeModelFilter"@]);
        r
    }

    /// Marks the foreign runtime as initialised. Classes stay as they are.
    pub fn init(&mut self)
        ensures
            final(self)@ == (RegistryState { initialized: true, ..old(self)@ }),
            old(self).wf() ==> final(self).wf(),
    {
        self.initialized = true;
    }

    /// Whether the foreign runtime has been initialised.
    pub fn is_initialized(&self) -> (b: bool)
        ensures
            b == self@.initialized,
    {
        self.initialized
    }

    /// The number of classes, the base class included.
    pub fn len(&self) -> (n: usize)
        ensures
            n == self@.classes.len(),
    {
        self.classes.len()
    }

    /// The descriptor of `class`, if there is such a class.
    pub fn class(&self, class: usize) -> (c: Option<TreeModelFilterClass>)
        requires
            self.wf(),
        ensures
            c == (if class < self@.classes.len() {
                Some(self@.classes[class as int])
            } else {
                None
            }),
    {
        if class < self.classes.len() {
            Some(self.classes[class])
        } else {
            None
        }
    }

    /// The class that is registered under `name`, if there is one.
    pub fn type_from_name(&self, name: &str) -> (found: Option<usize>)
        requires
            self.wf(),
        ensures
            found is Some <==> has_name(self@, name@),
            found matches Some(i) ==> i < self@.names.len() && self@.names[i as int] == name@,
    {
        let wanted: String = name.to_owned();
        let mut i: usize = 0;
        while i < self.names.len()
            invariant
                i <= self.names.len(),
                wanted@ == name@,
                forall|k: int| 0 <= k < i ==> self@.names[k] != name@,
            decreases self.names.len() - i,
        {
            assert(self@.names[i as int] == self.names@[i as int]@);
            if self.names[i] == wanted {
                return Some(i);
            }
            i += 1;
        }
        None
    }

    /// Registers the implementation type `name` as a class derived from
    /// `parent`, and gives the identifier of its class.
    ///
    /// A type is registered once: for a name that is already there the
    /// registry stays exactly as it is and the identifier of the first
    /// registration is given again. A new class starts as a copy of its
    /// parent's descriptor, and its class initialiser then takes over the
    /// slots; no other class changes.
    pub fn register(&mut self, name: &str, parent: usize) -> (id: usize)
        requires
            old(self).wf(),
            old(self)@.initialized,
            parent < old(self)@.classes.len(),
        ensures
            final(self).wf(),
            final(self)@ == registered(old(self)@, name@, parent as int),
            id < final(self)@.names.len(),
            final(self)@.names[id as int] == name@,
            has_name(old(self)@, name@) ==> id < old(self)@.names.len(),
            !has_name(old(self)@, name@) ==> id == old(self)@.names.len(),
    {
        match self.type_from_name(name) {
            Some(id) => id,
            None => {
                let id: usize = self.classes.len();
                let parent_class = self.classes[parent];
                proof {
                    if parent > 0 {
                        assert(is_wired(self@, parent as int));
                    }
                }
                let mut class = TreeModelFilterClass::inherit(parent, &parent_class);
                class.class_init(id);
                let ghost before = self@;
                self.names.push(name.to_owned());
                self.classes.push(class);
                proof {
                    assert(self@.names =~= before.names.push(name@));
                    assert(self@.classes =~= before.classes.push(class));
                    assert(self@.classes.len() == self.classes.len() <= usize::MAX);
                    assert(class == derived_class(id as int, parent as int, before.classes[parent as int]));
                    if parent > 0 {
                        assert(is_wired(before, parent as int));
                    }
                    assert forall|i: int| 1 <= i < self@.classes.len() implies #[trigger] is_wired(
                        self@,
                        i,
                    ) by {
                        if i < id {
                            assert(is_wired(before, i));
                        }
                    }
                }
                id
            },
        }
    }

    /// Whether `class` is `ancestor` or derives from it.
    pub fn is_a(&self, class: usize, ancestor: usize) -> (b: bool)
        requires
            self.wf(),
        ensures
            b == derives_from(self@, class as int, ancestor as int),
    {
        let mut current: usize = class;
        while current != ancestor && 0 < current && current < self.classes.len()
            invariant
                well_formed(self@),
                self@.classes == self.classes@,
                derives_from(self@, class as int, ancestor as int) == derives_from(
                    self@,
                    current as int,
                    ancestor as int,
                ),
            decreases current,
        {
            assert(is_wired(self@, current as int));
            match self.classes[current].parent {
                Some(p) => {
                    current = p;
                },
                None => {
                    return false;
                },
            }
        }
        current == ancestor
    }

    /// The descriptor of the parent of `class`: the table in which an override
    /// of `class` finds the inherited behaviour. `None` for the base class and
    /// for an identifier that names no class.
    pub fn parent_class(&self, class: usize) -> (c: Option<TreeModelFilterClass>)
        requires
            self.wf(),
        ensures
            c == (if 0 < class < self@.classes.len() {
                Some(self@.classes[self@.classes[class as int].parent->0 as int])
            } else {
                None
            }),
    {
        if 0 < class && class < self.classes.len() {
            assert(is_wired(self@, class as int));
            match self.classes[class].parent {
                Some(p) => Some(self.classes[p]),
                None => None,
            }
        } else {
            None
        }
    }
}

/// Registration keeps the registry well formed, and is append-only: every
/// class that was there keeps its name and its descriptor, slot for slot.
pub proof fn lemma_registration_is_append_only(
    s: RegistryState,
    name: Seq<char>,
    parent: int,
    class: int,
)
    requires
        well_formed(s),
        s.initialized,
        s.classes.len() < usize::MAX,
        0 <= parent < s.classes.len(),
        0 <= class < s.classes.len(),
    ensures
        well_formed(registered(s, name, parent)),
        registered(s, name, parent).classes.len() >= s.classes.len(),
        registered(s, name, parent).classes[class] == s.classes[class],
        registered(s, name, parent).names[class] == s.names[class],
{
    let t = registered(s, name, parent);
    if !has_name(s, name) {
        assert forall|i: int, j: int| 0 <= i < j < t.names.len() implies t.names[i]
            != t.names[j] by {
            if j == s.names.len() && t.names[i] == name {
                assert(s.names[i] == name);
            }
        }
        if parent > 0 {
            assert(is_wired(s, parent));
        }
        assert forall|i: int| 1 <= i < t.classes.len() implies #[trigger] is_wired(t, i) by {
            if i < s.classes.len() {
                assert(is_wired(s, i));
            }
        }
    }
}

/// A new implementation type comes out of its registration with the parent
/// link that was asked for and with all of its slots taken over by its own
/// entry points.
pub proof fn lemma_new_class_is_wired(s: RegistryState, name: Seq<char>, parent: int)
    requires
        well_formed(s),
        0 <= parent < s.classes.len(),
        !has_name(s, name),
    ensures
        registered(s, name, parent).classes.len() == s.classes.len() + 1,
        registered(s, name, parent).names.last() == name,
        registered(s, name, parent).classes.last() == derived_class(
            s.classes.len() as int,
            parent,
            s.classes[parent],
        ),
        registered(s, name, parent).classes.last().parent == Some(parent as usize),
        registered(s, name, parent).classes.last().visible == trampoline_of(s.classes.len() as int),
        registered(s, name, parent).classes.last().modify == trampoline_of(s.classes.len() as int),
{
}

/// Registering an implementation type a second time is a no-op, whatever
/// parent the second registration names: the registry, and with it the parent
/// table recorded at the first registration, stays as the first one left it.
pub proof fn lemma_registration_is_idempotent(
    s: RegistryState,
    name: Seq<char>,
    parent: int,
    other_parent: int,
)
    requires
        well_formed(s),
        0 <= parent < s.classes.len(),
    ensures
        has_name(registered(s, name, parent), name),
        registered(registered(s, name, parent), name, other_parent) == registered(s, name, parent),
        class_of_name(registered(s, name, parent), name) == class_of_name(s, name),
{
    let t = registered(s, name, parent);
    if has_name(s, name) {
        assert(t == s);
    } else {
        let n = s.names.len() as int;
        assert(t.names[n] == name);
        assert(has_name(t, name));
        let i = choose|i: int| 0 <= i < t.names.len() && t.names[i] == name;
        if i < n {
            assert(s.names[i] == name);
        }
    }
}

/// Deriving is transitive along the parent link: what derives from a class
/// derives from the parent of that class too.
pub proof fn lemma_derives_from_parent(s: RegistryState, class: int, ancestor: int)
    requires
        well_formed(s),
        0 <= class < s.classes.len(),
        0 < ancestor < s.classes.len(),
        derives_from(s, class, ancestor),
    ensures
        derives_from(s, class, s.classes[ancestor].parent->0 as int),
    decreases class,
{
    let p = s.classes[ancestor].parent->0 as int;
    assert(is_wired(s, ancestor));
    if class == ancestor {
        assert(derives_from(s, p, p));
    } else {
        assert(is_wired(s, class));
        let q = s.classes[class].parent->0 as int;
        lemma_derives_from_parent(s, q, ancestor);
    }
}

/// A class is never registered before its ancestors, and its instances embed
/// at least as many implementation objects as those of any ancestor.
pub proof fn lemma_ancestor_is_older(s: RegistryState, class: int, ancestor: int)
    requires
        well_formed(s),
        0 <= class < s.classes.len(),
        derives_from(s, class, ancestor),
    ensures
        0 <= ancestor <= class,
        s.classes[ancestor].instance_size <= s.classes[class].instance_size,
    decreases class,
{
    if class != ancestor {
        assert(is_wired(s, class));
        let q = s.classes[class].parent->0 as int;
        if q > 0 {
            assert(is_wired(s, q));
        }
        lemma_ancestor_is_older(s, q, ancestor);
    }
}

/// Every class derives from the base class.
pub proof fn lemma_derives_from_base(s: RegistryState, class: int)
    requires
        well_formed(s),
        0 <= class < s.classes.len(),
    ensures
        derives_from(s, class, TREE_MODEL_FILTER as int),
    decreases class,
{
    if class != 0 {
        assert(is_wired(s, class));
        let q = s.classes[class].parent->0 as int;
        lemma_derives_from_base(s, q);
    }
}

/// Only the base class has empty slots: every registered class holds its own
/// entry points, so an override finds an empty slot one link up exactly where
/// its class derives from the base class directly.
pub proof fn lemma_slots_are_empty_in_base_only(s: RegistryState, class: int)
    requires
        well_formed(s),
        0 <= class < s.classes.len(),
    ensures
        s.classes[class].visible is None <==> class == TREE_MODEL_FILTER,
        s.classes[class].modify is None <==> class == TREE_MODEL_FILTER,
        class > 0 ==> s.classes[class].visible == trampoline_of(class) && s.classes[class].modify
            == trampoline_of(class),
{
    if class > 0 {
        assert(is_wired(s, class));
    }
}

} // verus!
