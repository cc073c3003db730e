//! Identities of gizmos and of their handles.
//!
//! An identity is an `egui::Id`: a hash that the host's widget memory is keyed
//! by. The library makes identities, hands them on and compares them. egui
//! hashes with seeds that are fixed in its source, so the identity of a handle
//! is a function of the identity of its gizmo and of its name, and a handle
//! has the same identity in every frame. Which value that is depends on the
//! hasher that the program was built with, and two names may share one.

use std::hash::Hash;
use vstd::prelude::*;

verus! {

/// `egui::Id`, a value that the verifier cannot look into: a struct of one
/// private field, the hash.
#[verifier::external_type_specification]
#[verifier::external_body]
pub struct ExId(egui::Id);

/// The identity that `egui::Id::with` gives the child called `name` of
/// `parent`: the hash of the parent's value followed by the name, under the
/// hasher that egui builds from four fixed seeds.
pub uninterp spec fn child_identity(parent: egui::Id, name: Seq<char>) -> egui::Id;

/// The identity of a gizmo, made from the source that its owner chose.
///
/// Calls `egui::Id::new`, which hashes the source. Nothing is claimed of the
/// result.
#[verifier::external_body]
pub(crate) fn root_id<T: Hash>(source: T) -> (id: egui::Id) {
    egui::Id::new(source)
}

/// The identity of the handle called `name` on the gizmo `parent`.
///
/// Calls `egui::Id::with`, which feeds the parent's value and then the name
/// to a hasher with fixed seeds and wraps what it finishes with. The result
/// is therefore the same whenever parent and name are the same, which is all
/// that the contract claims by giving it a name.
#[verifier::external_body]
pub(crate) fn child_id(parent: egui::Id, name: &str) -> (id: egui::Id)
    ensures
        id == child_identity(parent, name@),
{
    parent.with(name)
}

/// Whether two identities are the same.
///
/// Calls `==` of `egui::Id`, which is derived for a struct of one field, the
/// hash value: two identities are equal exactly when they are one value.
#[verifier::external_body]
pub(crate) fn same_id(a: egui::Id, b: egui::Id) -> (same: bool)
    ensures
        same == (a == b),
{
    a == b
}

} // verus!
