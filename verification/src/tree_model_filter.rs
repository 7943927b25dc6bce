//! The filter whose two virtual methods host code overrides: the overrides
//! that an implementation type supplies, the entry points that forward a
//! virtual call to them, and the way from an override to the inherited
//! behaviour.

use vstd::prelude::*;
use crate::class::{
    derives_from, is_wired, lemma_derives_from_parent, lemma_ancestor_is_older, well_formed,
    ClassRegistry, RegistryState, Trampoline, TreeModelFilterClass,
};
use crate::tree_model::{TreeIter, TreeModel};
use crate::value::{bool_from_glib, bool_into_glib, encoding_of, truth_of, Value};

verus! {

/// An instance of a class: its dynamic class, and the implementation objects
/// that it embeds, one for each registered class from the oldest ancestor
/// down to the dynamic class itself.
pub struct Instance<T> {
    class: usize,
    imps: Vec<T>,
}

impl<T> Instance<T> {
    /// The dynamic class of this instance.
    pub closed spec fn dynamic_class(&self) -> usize {
        self.class
    }

    /// The implementation objects of this instance, oldest ancestor first.
    pub closed spec fn imps(&self) -> Seq<T> {
        self.imps@
    }

    /// Whether this instance is laid out as the registry `s` says of its
    /// class: the class is registered, and the instance embeds as many
    /// implementation objects as the class asks for.
    pub open spec fn fits(&self, s: RegistryState) -> bool {
        &&& self.dynamic_class() < s.classes.len()
        &&& self.imps().len() == s.classes[self.dynamic_class() as int].instance_size
    }

    /// An instance of `class` that embeds `imps`.
    pub fn new(class: usize, imps: Vec<T>) -> (instance: Instance<T>)
        ensures
            instance.dynamic_class() == class,
            instance.imps() == imps@,
    {
        Instance { class, imps }
    }

    /// The dynamic class of this instance.
    pub fn class(&self) -> (c: usize)
        ensures
            c == self.dynamic_class(),
    {
        self.class
    }
}

/// A borrowed reference to an instance, seen as an instance of one of the
/// classes that it derives from. It owns nothing: neither the instance nor
/// the registry.
pub struct TreeModelFilter<'a, T> {
    registry: &'a ClassRegistry,
    instance: &'a Instance<T>,
    class: usize,
}

impl<'a, T> TreeModelFilter<'a, T> {
    /// The state of the registry that this reference reads.
    pub closed spec fn registry(&self) -> RegistryState {
        self.registry@
    }

    /// The instance that this reference points to.
    pub closed spec fn instance(&self) -> Instance<T> {
        *self.instance
    }

    /// The class as which the instance is seen.
    pub closed spec fn class(&self) -> usize {
        self.class
    }

    /// Whether this reference is sound: the registry is well formed, the
    /// instance is laid out as the registry says, and its dynamic class is, or
    /// derives from, the class as which it is seen.
    pub open spec fn wf(&self) -> bool {
        &&& well_formed(self.registry())
        &&& self.instance().fits(self.registry())
        &&& derives_from(
            self.registry(),
            self.instance().dynamic_class() as int,
            self.class() as int,
        )
    }

    /// Whether the instance is seen as an instance of a registered
    /// implementation type, and not of the foreign base class.
    pub open spec fn is_implementation(&self) -> bool {
        self.class() > 0
    }

    /// The descriptor of the dynamic class: the table through which the
    /// foreign runtime dispatches a virtual call on the instance.
    pub open spec fn dynamic_table(&self) -> TreeModelFilterClass {
        self.registry().classes[self.instance().dynamic_class() as int]
    }

    /// The descriptor of the parent of the class as which the instance is
    /// seen: the table in which an override finds the inherited behaviour.
    pub open spec fn parent_table(&self) -> TreeModelFilterClass {
        self.registry().classes[self.registry().classes[self.class() as int].parent->0 as int]
    }

    /// The same instance, seen as an instance of `class`.
    pub closed spec fn seen_as(&self, class: usize) -> TreeModelFilter<'a, T> {
        TreeModelFilter { registry: self.registry, instance: self.instance, class }
    }

    /// The implementation object of the class as which the instance is seen.
    pub open spec fn implementation(&self) -> T {
        self.instance().imps()[self.registry().classes[self.class() as int].instance_size - 1]
    }

    /// Wraps `instance` in a borrowed reference that sees it as an instance of
    /// its dynamic class; `None` where the instance is not laid out as
    /// `registry` says of that class.
    pub fn from_glib_borrow(registry: &'a ClassRegistry, instance: &'a Instance<T>) -> (wrap:
        Option<TreeModelFilter<'a, T>>)
        requires
            registry.wf(),
        ensures
            wrap is Some <==> instance.fits(registry@),
            wrap matches Some(w) ==> {
                &&& w.wf()
                &&& w.registry() == registry@
                &&& w.instance() == *instance
                &&& w.class() == instance.dynamic_class()
            },
    {
        match registry.class(instance.class) {
            Some(class) => {
                if instance.imps.len() == class.instance_size {
                    Some(TreeModelFilter { registry, instance, class: instance.class })
                } else {
                    None
                }
            },
            None => None,
        }
    }

    /// The same instance, seen as an instance of `class`. The dynamic class of
    /// the instance must be `class` or derive from it; this is not tested.
    pub fn unsafe_cast_ref(&self, class: usize) -> (cast: TreeModelFilter<'a, T>)
        requires
            self.wf(),
            derives_from(self.registry(), self.instance().dynamic_class() as int, class as int),
        ensures
            cast == self.seen_as(class),
            cast.wf(),
            cast.registry() == self.registry(),
            cast.instance() == self.instance(),
            cast.class() == class,
    {
        TreeModelFilter { registry: self.registry, instance: self.instance, class }
    }

    /// The descriptor of the dynamic class of the instance.
    pub fn dynamic_class(&self) -> (class: TreeModelFilterClass)
        requires
            self.wf(),
        ensures
            class == self.dynamic_table(),
            class.visible matches Some(f) ==> f.implementation > 0 && derives_from(
                self.registry(),
                self.instance().dynamic_class() as int,
                f.implementation as int,
            ),
            class.modify matches Some(f) ==> f.implementation > 0 && derives_from(
                self.registry(),
                self.instance().dynamic_class() as int,
                f.implementation as int,
            ),
    {
        proof {
            if self.instance.class > 0 {
                assert(is_wired(self.registry(), self.instance.class as int));
            }
        }
        self.registry.class(self.instance.class).unwrap()
    }

    /// The descriptor of the parent of the class as which the instance is
    /// seen. An entry point in one of its slots belongs to a class that the
    /// instance derives from, so it may be called on the instance.
    pub fn parent_class(&self) -> (class: TreeModelFilterClass)
        requires
            self.wf(),
            self.is_implementation(),
        ensures
            class == self.parent_table(),
            class.visible matches Some(f) ==> f.implementation > 0 && derives_from(
                self.registry(),
                self.instance().dynamic_class() as int,
                f.implementation as int,
            ),
            class.modify matches Some(f) ==> f.implementation > 0 && derives_from(
                self.registry(),
                self.instance().dynamic_class() as int,
                f.implementation as int,
            ),
    {
        proof {
            let s = self.registry();
            lemma_ancestor_is_older(s, self.instance().dynamic_class() as int, self.class as int);
            assert(is_wired(s, self.class as int));
            let p = s.classes[self.class as int].parent->0 as int;
            lemma_derives_from_parent(s, self.instance().dynamic_class() as int, self.class as int);
            if p > 0 {
                assert(is_wired(s, p));
            }
        }
        self.registry.parent_class(self.class).unwrap()
    }

    /// The class as which the instance is seen.
    pub fn type_(&self) -> (c: usize)
        ensures
            c == self.class(),
    {
        self.class
    }

    /// The implementation object of the class as which the instance is seen.
    ///
    /// It is found by the layout alone, in one step and without a search.
    pub fn impl_(&self) -> (imp: &'a T)
        requires
            self.wf(),
            self.is_implementation(),
        ensures
            *imp == self.implementation(),
    {
        proof {
            lemma_ancestor_is_older(
                self.registry(),
                self.instance().dynamic_class() as int,
                self.class as int,
            );
            assert(is_wired(self.registry(), self.class as int));
        }
        let class = self.registry.class(self.class).unwrap();
        &self.instance.imps[class.instance_size - 1]
    }
}

/// What `visible` answers where the inherited behaviour is asked for: the
/// answer of the parent's entry point where the parent class has one, and
/// "always visible" where it has none.
pub open spec fn visible_or_default(inherited: Option<i32>) -> bool {
    match inherited {
        Some(raw) => truth_of(raw),
        None => true,
    }
}

/// Turns what the parent's entry point returned, if the parent class has
/// one, into the answer of the inherited `visible`.
pub fn inherited_visible(inherited: Option<i32>) -> (r: bool)
    ensures
        r == visible_or_default(inherited),
{
    match inherited {
        Some(raw) => bool_from_glib(raw),
        None => true,
    }
}

/// Whether `r` is what the `visible` of the implementation type registered
/// as `class` answers, when it is called on the implementation object that
/// the instance of `ptr` embeds for `class`, with the instance seen as an
/// instance of `class`, for the row at `iter` of `child_model`.
pub open spec fn override_answers<T: TreeModelFilterImpl>(
    ptr: &TreeModelFilter<'_, T>,
    class: usize,
    child_model: &TreeModel,
    iter: &TreeIter,
    r: bool,
) -> bool {
    call_ensures(
        T::visible,
        (&ptr.seen_as(class).implementation(), &ptr.seen_as(class), child_model, iter),
        r,
    )
}

/// Whether `rewritten` is what the `modify` of the implementation type
/// registered as `class` makes of `value`, when it is called on the
/// implementation object that the instance of `ptr` embeds for `class`, with
/// the instance seen as an instance of `class`, for the cell in column
/// `column` of the row at `iter` of `child_model`.
pub open spec fn override_rewrites<T: TreeModelFilterImpl>(
    ptr: &TreeModelFilter<'_, T>,
    class: usize,
    child_model: &TreeModel,
    iter: &TreeIter,
    value: Value,
    column: i32,
    rewritten: Value,
) -> bool {
    call_ensures(
        T::modify,
        (
            &ptr.seen_as(class).implementation(),
            &ptr.seen_as(class),
            child_model,
            iter,
            value,
            column,
        ),
        rewritten,
    )
}

/// Whether `r` is what `parent_visible` answers for these arguments.
pub open spec fn inherits_visible<T: TreeModelFilterImplExt>(
    imp: &T,
    tree_model_filter: &TreeModelFilter<'_, T>,
    child_model: &TreeModel,
    iter: &TreeIter,
    r: bool,
) -> bool {
    call_ensures(T::parent_visible, (imp, tree_model_filter, child_model, iter), r)
}

/// Whether `rewritten` is what `parent_modify` makes of `value` for these
/// arguments.
pub open spec fn inherits_modify<T: TreeModelFilterImplExt>(
    imp: &T,
    tree_model_filter: &TreeModelFilter<'_, T>,
    child_model: &TreeModel,
    iter: &TreeIter,
    value: Value,
    column: i32,
    rewritten: Value,
) -> bool {
    call_ensures(
        T::parent_modify,
        (imp, tree_model_filter, child_model, iter, value, column),
        rewritten,
    )
}

/// The virtual methods that an implementation type may override.
///
/// A method that is not overridden forwards to the inherited behaviour, so a
/// type that overrides one method keeps the inherited behaviour of the other.
pub trait TreeModelFilterImpl: TreeModelFilterImplExt + Sized {
    /// Whether the row at `iter` of `child_model` is shown.
    ///
    /// Not overridden, it is what `parent_visible` answers for the same
    /// arguments: where no parent class overrides it either, every row is
    /// visible.
    fn visible(
        &self,
        tree_model_filter: &TreeModelFilter<'_, Self>,
        child_model: &TreeModel,
        iter: &TreeIter,
    ) -> (r: bool)
        requires
            tree_model_filter.wf(),
            tree_model_filter.is_implementation(),
        default_ensures
            inherits_visible::<Self>(self, tree_model_filter, child_model, iter, r),
            tree_model_filter.parent_table().visible is None ==> r,
    {
        self.parent_visible(tree_model_filter, child_model, iter)
    }

    /// Rewrites `value`, the cell in column `column` of the row at `iter`,
    /// before the filter shows it: takes the value over and hands back what
    /// is to be shown.
    ///
    /// Not overridden, it is what `parent_modify` makes of the same
    /// arguments: where no parent class overrides it either, the value comes
    /// back as it was.
    fn modify(
        &self,
        tree_model_filter: &TreeModelFilter<'_, Self>,
        child_model: &TreeModel,
        iter: &TreeIter,
        value: Value,
        column: i32,
    ) -> (rewritten: Value)
        requires
            tree_model_filter.wf(),
            tree_model_filter.is_implementation(),
        default_ensures
            inherits_modify::<Self>(
                self,
                tree_model_filter,
                child_model,
                iter,
                value,
                column,
                rewritten,
            ),
            tree_model_filter.parent_table().modify is None ==> rewritten == value,
    {
        self.parent_modify(tree_model_filter, child_model, iter, value, column)
    }
}

/// The inherited behaviour of each virtual method, for an override to call.
pub trait TreeModelFilterImplExt: Sized {
    /// The `visible` of the parent class: the answer of the entry point in the
    /// parent's slot, or `true` where that slot is empty.
    fn parent_visible(
        &self,
        tree_model_filter: &TreeModelFilter<'_, Self>,
        child_model: &TreeModel,
        iter: &TreeIter,
    ) -> (r: bool)
        requires
            tree_model_filter.wf(),
            tree_model_filter.is_implementation(),
        ensures
            tree_model_filter.parent_table().visible is None ==> r,
    ;

    /// The `modify` of the parent class: the rewriting of the entry point in
    /// the parent's slot, or `value` as it is where that slot is empty.
    fn parent_modify(
        &self,
        tree_model_filter: &TreeModelFilter<'_, Self>,
        child_model: &TreeModel,
        iter: &TreeIter,
        value: Value,
        index: i32,
    ) -> (rewritten: Value)
        requires
            tree_model_filter.wf(),
            tree_model_filter.is_implementation(),
        ensures
            tree_model_filter.parent_table().modify is None ==> rewritten == value,
    ;
}

impl<T: TreeModelFilterImpl> TreeModelFilterImplExt for T {
    fn parent_visible(
        &self,
        tree_model_filter: &TreeModelFilter<'_, Self>,
        child_model: &TreeModel,
        iter: &TreeIter,
    ) -> (r: bool)
        ensures
            tree_model_filter.parent_table().visible matches Some(f) ==> override_answers::<T>(
                tree_model_filter,
                f.implementation,
                child_model,
                iter,
                r,
            ),
    {
        let parent_class = tree_model_filter.parent_class();
        let inherited = match parent_class.visible {
            Some(f) => Some(tree_model_filter_visible::<T>(f, tree_model_filter, child_model, iter)),
            None => None,
        };
        inherited_visible(inherited)
    }

    fn parent_modify(
        &self,
        tree_model_filter: &TreeModelFilter<'_, Self>,
        child_model: &TreeModel,
        iter: &TreeIter,
        value: Value,
        index: i32,
    ) -> (rewritten: Value)
        ensures
            tree_model_filter.parent_table().modify matches Some(f) ==> override_rewrites::<T>(
                tree_model_filter,
                f.implementation,
                child_model,
                iter,
                value,
                index,
                rewritten,
            ),
    {
        let parent_class = tree_model_filter.parent_class();
        match parent_class.modify {
            Some(f) => tree_model_filter_modify::<T>(
                f,
                tree_model_filter,
                child_model,
                iter,
                value,
                index,
            ),
            None => value,
        }
    }
}

impl<'a, T: TreeModelFilterImpl> TreeModelFilter<'a, T> {
    /// The virtual call of `visible` on the instance: goes through the slot
    /// of the dynamic class, and gives the answer of the override whose entry
    /// point stands there. Where that slot is empty, every row is visible.
    pub fn visible(&self, child_model: &TreeModel, iter: &TreeIter) -> (r: bool)
        requires
            self.wf(),
        ensures
            self.dynamic_table().visible is None ==> r,
            self.dynamic_table().visible matches Some(f) ==> override_answers::<T>(
                self,
                f.implementation,
                child_model,
                iter,
                r,
            ),
    {
        let class = self.dynamic_class();
        let answer = match class.visible {
            Some(f) => Some(tree_model_filter_visible::<T>(f, self, child_model, iter)),
            None => None,
        };
        inherited_visible(answer)
    }

    /// The virtual call of `modify` on the instance: goes through the slot of
    /// the dynamic class, and gives what the override whose entry point
    /// stands there makes of `value`. Where that slot is empty, `value` comes
    /// back as it was.
    pub fn modify(&self, child_model: &TreeModel, iter: &TreeIter, value: Value, column: i32) -> (rewritten:
        Value)
        requires
            self.wf(),
        ensures
            self.dynamic_table().modify is None ==> rewritten == value,
            self.dynamic_table().modify matches Some(f) ==> override_rewrites::<T>(
                self,
                f.implementation,
                child_model,
                iter,
                value,
                column,
                rewritten,
            ),
    {
        let class = self.dynamic_class();
        match class.modify {
            Some(f) => tree_model_filter_modify::<T>(f, self, child_model, iter, value, column),
            None => value,
        }
    }
}

/// The entry point of `visible` for the implementation type `T`: what stands
/// in a slot as `f`.
///
/// It sees the instance as an instance of the class that `f` belongs to,
/// finds the implementation object of that class, asks its `visible`, and
/// encodes the answer as the foreign side expects it: `1` or `0`.
pub fn tree_model_filter_visible<T: TreeModelFilterImpl>(
    f: Trampoline,
    ptr: &TreeModelFilter<'_, T>,
    child_model: &TreeModel,
    iter: &TreeIter,
) -> (raw: i32)
    requires
        ptr.wf(),
        f.implementation > 0,
        derives_from(
            ptr.registry(),
            ptr.instance().dynamic_class() as int,
            f.implementation as int,
        ),
    ensures
        raw == encoding_of(truth_of(raw)),
        override_answers::<T>(ptr, f.implementation, child_model, iter, truth_of(raw)),
{
    let wrap = ptr.unsafe_cast_ref(f.implementation);
    let imp = wrap.impl_();
    bool_into_glib(imp.visible(&wrap, child_model, iter))
}

/// The entry point of `modify` for the implementation type `T`: what stands
/// in a slot as `f`.
///
/// It sees the instance as an instance of the class that `f` belongs to,
/// finds the implementation object of that class, hands `value` over to its
/// `modify`, and gives back what that made of it.
pub fn tree_model_filter_modify<T: TreeModelFilterImpl>(
    f: Trampoline,
    ptr: &TreeModelFilter<'_, T>,
    child_model: &TreeModel,
    iter: &TreeIter,
    value: Value,
    column: i32,
) -> (rewritten: Value)
    requires
        ptr.wf(),
        f.implementation > 0,
        derives_from(
            ptr.registry(),
            ptr.instance().dynamic_class() as int,
            f.implementation as int,
        ),
    ensures
        override_rewrites::<T>(ptr, f.implementation, child_model, iter, value, column, rewritten),
{
    let wrap = ptr.unsafe_cast_ref(f.implementation);
    let imp = wrap.impl_();
    imp.modify(&wrap, child_model, iter, value, column)
}

} // verus!
