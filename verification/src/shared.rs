//! Shared ownership of style groups. A group lives behind a
//! reference-counted pointer; elements whose values in a category are the
//! same hold the same group. Writing through a handle first makes the group
//! the handle's own, so no other owner ever sees the write.

use vstd::prelude::*;
use vstd::pervasive::cloned;
use std::marker::PhantomData;
use servo_arc::Arc;
use crate::computed_values::ComputedValues;
use crate::style_group::{Document, StyleStructGroup};

verus! {

/// `servo_arc::Arc`, the reference-counted pointer. A pointer is carried
/// through as it is: proofs see nothing inside one but what the functions
/// below say of it.
#[verifier::external_type_specification]
#[verifier::external_body]
#[verifier::reject_recursive_types(T)]
pub struct ExArc<T: ?Sized>(Arc<T>);

/// The group that a shared pointer points to.
pub uninterp spec fn shared_group(pointer: Arc<StyleStructGroup>) -> StyleStructGroup;

/// `servo_arc::Arc::new`: allocates the value behind a new pointer with a
/// reference count of one. The contract claims that the pointer points to
/// the value given.
#[verifier::external_body]
fn arc_new(group: StyleStructGroup) -> (pointer: Arc<StyleStructGroup>)
    ensures
        shared_group(pointer) == group,
{
    Arc::new(group)
}

/// `servo_arc::Arc::new_leaked`: as `Arc::new`, but the allocation is marked
/// as living for the rest of the process, so that clones and drops of the
/// pointer leave the reference count alone. The contract claims that the
/// pointer points to the value given.
#[verifier::external_body]
fn arc_new_leaked(group: StyleStructGroup) -> (pointer: Arc<StyleStructGroup>)
    ensures
        shared_group(pointer) == group,
{
    Arc::new_leaked(group)
}

/// `Deref::deref` of `servo_arc::Arc`: a reference to the value pointed to.
#[verifier::external_body]
fn arc_get(pointer: &Arc<StyleStructGroup>) -> (group: &StyleStructGroup)
    ensures
        *group == shared_group(*pointer),
{
    &**pointer
}

/// Whether two shared pointers are to one allocation: what
/// `servo_arc::Arc::ptr_eq` answers for them.
pub uninterp spec fn same_allocation(a: Arc<StyleStructGroup>, b: Arc<StyleStructGroup>) -> bool;

/// `Clone::clone` of `servo_arc::Arc`: a second pointer to the same
/// allocation; the value is not copied. (The crate ends the process if the
/// reference count passes `isize::MAX`.) The contract claims that the two
/// point to one value, that they are to one allocation, and that either
/// stands for the other wherever two pointers are held against each other:
/// the clone is a copy of the pointer.
#[verifier::external_body]
fn arc_clone(pointer: &Arc<StyleStructGroup>) -> (second: Arc<StyleStructGroup>)
    ensures
        shared_group(second) == shared_group(*pointer),
        same_allocation(second, *pointer),
        forall|o: Arc<StyleStructGroup>| #[trigger]
            same_allocation(second, o) == same_allocation(*pointer, o),
        forall|o: Arc<StyleStructGroup>| #[trigger]
            same_allocation(o, second) == same_allocation(o, *pointer),
{
    pointer.clone()
}

/// `servo_arc::Arc::make_mut`: where the pointer is the only one to its
/// allocation, a mutable reference to the value in place; else the value is
/// cloned behind a new pointer, which replaces the given one, and the
/// reference is to the clone. The contract claims that the reference starts
/// at the old value or a clone of it, and that the pointer ends up pointing
/// to whatever is written through the reference.
#[verifier::external_body]
fn arc_make_mut(pointer: &mut Arc<StyleStructGroup>) -> (group: &mut StyleStructGroup)
    ensures
        cloned(shared_group(*old(pointer)), *group),
        shared_group(*final(pointer)) == *final(group),
{
    Arc::make_mut(pointer)
}

/// `servo_arc::Arc::ptr_eq`: whether two pointers are to the same
/// allocation, by comparing the two raw pointers. The contract claims that
/// the answer depends on the two pointers alone, and that pointers to one
/// allocation point to one value.
#[verifier::external_body]
fn arc_ptr_eq(a: &Arc<StyleStructGroup>, b: &Arc<StyleStructGroup>) -> (same: bool)
    ensures
        same == same_allocation(*a, *b),
        same ==> shared_group(*a) == shared_group(*b),
{
    Arc::ptr_eq(a, b)
}

/// The sealed style that a shared pointer points to.
pub uninterp spec fn sealed_values(pointer: Arc<ComputedValues>) -> ComputedValues;

/// `servo_arc::Arc::new`, for a sealed style: allocates the style behind a
/// new pointer. The contract claims that the pointer points to the style
/// given.
#[verifier::external_body]
pub(crate) fn arc_seal(values: ComputedValues) -> (pointer: Arc<ComputedValues>)
    ensures
        sealed_values(pointer) == values,
{
    Arc::new(values)
}

/// `Deref::deref` of `servo_arc::Arc`, for a sealed style: a reference to
/// the style pointed to.
#[verifier::external_body]
pub(crate) fn arc_values(pointer: &Arc<ComputedValues>) -> (values: &ComputedValues)
    ensures
        *values == sealed_values(*pointer),
{
    &**pointer
}

/// `Clone::clone` of `servo_arc::Arc`, for a sealed style: a second pointer
/// to the same allocation; the style is not copied.
#[verifier::external_body]
pub(crate) fn arc_share(pointer: &Arc<ComputedValues>) -> (second: Arc<ComputedValues>)
    ensures
        sealed_values(second) == sealed_values(*pointer),
{
    pointer.clone()
}

/// The groups of one category: a type that a group can hold and hand back.
pub trait StyleStruct: Sized + View {
    /// The group that holds `self`.
    spec fn into_group(self) -> StyleStructGroup;

    /// Whether `group` is of this category.
    spec fn held_by(group: StyleStructGroup) -> bool;

    /// What `group` holds, where it is of this category.
    spec fn from_group(group: StyleStructGroup) -> Self;

    /// The invariant of the category's values.
    spec fn valid(self) -> bool;

    /// The category's initial values, for a document or for none.
    spec fn initial_model(document: Option<Document>) -> Self::V;

    /// Whether the initial values depend on the document.
    spec fn document_dependent() -> bool;

    /// A group holds what was put into it.
    proof fn group_holds_its_value(self)
        ensures
            Self::held_by(self.into_group()),
            Self::from_group(self.into_group()) == self,
    ;

    /// A group with the same contents is of the same category and holds the
    /// same values.
    proof fn same_contents_same_values(a: StyleStructGroup, b: StyleStructGroup)
        requires
            Self::held_by(a),
            a.same_contents(b),
        ensures
            Self::held_by(b),
            Self::from_group(a)@ == Self::from_group(b)@,
            Self::from_group(a).valid() == Self::from_group(b).valid(),
    ;

    /// Where the initial values do not depend on the document, they are
    /// the same for every document and for none.
    proof fn initial_values_without_document(document: Option<Document>)
        ensures
            !Self::document_dependent() ==> Self::initial_model(document) == Self::initial_model(
                None,
            ),
    ;

    /// Puts the value into a group.
    fn wrap(self) -> (group: StyleStructGroup)
        ensures
            group == self.into_group(),
    ;

    /// Reads what a group of this category holds.
    fn peek(group: &StyleStructGroup) -> (value: &Self)
        requires
            Self::held_by(*group),
        ensures
            *value == Self::from_group(*group),
    ;

    /// Opens what a group of this category holds for writing. Whatever is
    /// written, the group stays of this category.
    fn peek_mut(group: &mut StyleStructGroup) -> (value: &mut Self)
        requires
            Self::held_by(*old(group)),
        ensures
            *value == Self::from_group(*old(group)),
            *final(group) == (*final(value)).into_group(),
    ;

    /// The category's initial values.
    fn initial(document: Option<&Document>) -> (value: Self)
        ensures
            value.valid(),
            value@ == Self::initial_model(
                match document {
                    Some(d) => Some(*d),
                    None => None,
                },
            ),
    ;

    /// Whether the initial values depend on the document.
    fn depends_on_document() -> (dependent: bool)
        ensures
            dependent == Self::document_dependent(),
    ;
}

/// A shared handle to the group of one category.
pub struct Handle<C: StyleStruct> {
    pointer: Arc<StyleStructGroup>,
    category: PhantomData<C>,
}

impl<C: StyleStruct> View for Handle<C> {
    type V = C::V;

    /// The values of the group that the handle points to.
    closed spec fn view(&self) -> C::V {
        C::from_group(shared_group(self.pointer))@
    }
}

impl<C: StyleStruct> Handle<C> {
    /// The handle's invariant: it points to a valid group of its category.
    pub closed spec fn wf(&self) -> bool {
        &&& C::held_by(shared_group(self.pointer))
        &&& C::from_group(shared_group(self.pointer)).valid()
    }

    /// Whether the two handles point to the same group in memory, not only
    /// to equal values.
    pub closed spec fn same_group_as(&self, other: &Self) -> bool {
        same_allocation(self.pointer, other.pointer)
    }

    /// Whether the handle shares its group with `other`: the two point to
    /// the same group in memory, and either stands for the other wherever
    /// two handles are held against each other.
    pub open spec fn shares_with(&self, other: &Self) -> bool {
        &&& self.same_group_as(other)
        &&& forall|o: Handle<C>| #[trigger] self.same_group_as(&o) == other.same_group_as(&o)
        &&& forall|o: Handle<C>| #[trigger] o.same_group_as(self) == o.same_group_as(other)
    }

    /// A handle to a new group that holds `value`, owned by this handle
    /// alone.
    pub fn new(value: C) -> (handle: Self)
        requires
            value.valid(),
        ensures
            handle.wf(),
            handle@ == value@,
    {
        proof {
            value.group_holds_its_value();
        }
        Handle { pointer: arc_new(value.wrap()), category: PhantomData }
    }

    /// A handle to a new group that holds `value` and is never released:
    /// for values that are shared for as long as the process lives.
    pub fn new_leaked(value: C) -> (handle: Self)
        requires
            value.valid(),
        ensures
            handle.wf(),
            handle@ == value@,
    {
        proof {
            value.group_holds_its_value();
        }
        Handle { pointer: arc_new_leaked(value.wrap()), category: PhantomData }
    }

    /// A handle to a new group with the category's initial values.
    pub fn default_for(document: Option<&Document>) -> (handle: Self)
        ensures
            handle.wf(),
            handle@ == C::initial_model(
                match document {
                    Some(d) => Some(*d),
                    None => None,
                },
            ),
    {
        Handle::new(C::initial(document))
    }

    /// Reads the group. Nothing is allocated. What is read depends on this
    /// handle alone: a write through any other handle does not change it.
    pub fn get(&self) -> (value: &C)
        requires
            self.wf(),
        ensures
            value@ == self@,
            value.valid(),
    {
        C::peek(arc_get(&self.pointer))
    }

    /// Opens the group for writing. A group that other handles share is
    /// copied first and the handle bound to the copy, so the write is seen
    /// through this handle alone.
    pub fn mutate(&mut self) -> (value: &mut C)
        requires
            old(self).wf(),
        ensures
            value@ == old(self)@,
            value.valid(),
            final(self)@ == final(value)@,
            final(value).valid() ==> final(self).wf(),
    {
        let ghost before = shared_group(self.pointer);
        let group = arc_make_mut(&mut self.pointer);
        proof {
            assert(before.same_contents(*group));
            C::same_contents_same_values(before, *group);
        }
        let value = C::peek_mut(group);
        proof {
            (*final(value)).group_holds_its_value();
        }
        value
    }

    /// Another handle to the same group. The group is not copied: it has
    /// one owner more.
    pub fn share(&self) -> (second: Self)
        ensures
            second@ == self@,
            self.wf() ==> second.wf(),
            second.same_group_as(self),
            forall|o: Handle<C>| #[trigger] second.same_group_as(&o) == self.same_group_as(&o),
            forall|o: Handle<C>| #[trigger] o.same_group_as(&second) == o.same_group_as(self),
    {
        Handle { pointer: arc_clone(&self.pointer), category: PhantomData }
    }

    /// Whether two handles point to the same group in memory. Handles that
    /// do hold the same values.
    pub fn same_instance(&self, other: &Self) -> (same: bool)
        ensures
            same == self.same_group_as(other),
            same ==> self@ == other@,
    {
        arc_ptr_eq(&self.pointer, &other.pointer)
    }
}

impl<C: StyleStruct> Clone for Handle<C> {
    /// Another handle to the same group: see [`Handle::share`].
    fn clone(&self) -> (second: Self)
        ensures
            second@ == self@,
            self.wf() ==> second.wf(),
            second.same_group_as(self),
            forall|o: Handle<C>| #[trigger] second.same_group_as(&o) == self.same_group_as(&o),
            forall|o: Handle<C>| #[trigger] o.same_group_as(&second) == o.same_group_as(self),
    {
        self.share()
    }
}

/// Handles that share their group with one and the same handle point to
/// one group in memory, and so does that handle with itself.
pub proof fn sharers_are_one_instance<C: StyleStruct>(
    first: Handle<C>,
    second: Handle<C>,
    kept: Handle<C>,
)
    requires
        first.shares_with(&kept),
        second.shares_with(&kept),
    ensures
        kept.same_group_as(&kept),
        first.same_group_as(&second),
        second.same_group_as(&first),
        first.shares_with(&second),
{
    assert(kept.same_group_as(&kept) == first.same_group_as(&kept));
    assert(kept.same_group_as(&second) == kept.same_group_as(&kept));
    assert(first.same_group_as(&second) == kept.same_group_as(&second));
    assert(kept.same_group_as(&first) == kept.same_group_as(&kept));
    assert(second.same_group_as(&first) == kept.same_group_as(&first));
    assert forall|o: Handle<C>| #[trigger]
        first.same_group_as(&o) == second.same_group_as(&o) by {
        assert(first.same_group_as(&o) == kept.same_group_as(&o));
        assert(second.same_group_as(&o) == kept.same_group_as(&o));
    }
    assert forall|o: Handle<C>| #[trigger]
        o.same_group_as(&first) == o.same_group_as(&second) by {
        assert(o.same_group_as(&first) == o.same_group_as(&kept));
        assert(o.same_group_as(&second) == o.same_group_as(&kept));
    }
}

} // verus!
