//! What holds of the store's operations together.

use vstd::prelude::*;
use crate::error::ErrorView;
use crate::mapping::{AxisMappingView, ButtonMappingView, ControllerMappingView};
use crate::store::file::{
    contents_of,
    delete_of,
    file_after_delete,
    get_of,
    has_mapping_of,
    lookup,
    mapping_of,
    saved_of,
    DeletionView,
    StoreFileView,
};

verus! {

/// A saved mapping is the one that a later lookup of its name finds:
/// name, buttons and axes as they were handed in, in their order.
pub proof fn lemma_save_then_get(
    file: StoreFileView,
    name: Seq<char>,
    buttons: Seq<ButtonMappingView>,
    axes: Seq<AxisMappingView>,
)
    ensures
        get_of(StoreFileView::Present(saved_of(file, name, buttons, axes)), name) == Ok::<
            Option<ControllerMappingView>,
            ErrorView,
        >(Some(mapping_of(name, buttons, axes))),
{
}

/// A save leaves the mappings of all other names as the file had them.
pub proof fn lemma_save_keeps_others(
    file: StoreFileView,
    name: Seq<char>,
    buttons: Seq<ButtonMappingView>,
    axes: Seq<AxisMappingView>,
    other: Seq<char>,
)
    requires
        other != name,
        !(file is Corrupt),
    ensures
        get_of(StoreFileView::Present(saved_of(file, name, buttons, axes)), other) == get_of(
            file,
            other,
        ),
{
}

/// Deleting a name that is not stored changes nothing and never fails: it
/// ends the same way however often it is repeated.
pub proof fn lemma_delete_absent_is_idempotent(file: StoreFileView, name: Seq<char>)
    requires
        !(file is Corrupt),
        !contents_of(file).dom().contains(name),
    ensures
        delete_of(file, name) == Ok::<DeletionView, ErrorView>(
            if file is Missing {
                DeletionView::NoFile
            } else {
                DeletionView::NotFound
            },
        ),
        file_after_delete(file, name) == file,
        delete_of(file_after_delete(file, name), name) == delete_of(file, name),
{
}

/// Once a name was deleted, deleting it again finds nothing and leaves the
/// file as the first deletion left it.
pub proof fn lemma_delete_twice(file: StoreFileView, name: Seq<char>)
    requires
        file is Present,
    ensures
        delete_of(file_after_delete(file, name), name) == Ok::<DeletionView, ErrorView>(
            DeletionView::NotFound,
        ),
        file_after_delete(file_after_delete(file, name), name) == file_after_delete(file, name),
{
}

/// A name has a mapping right after it was saved, and has none right after
/// a deletion that removed it.
pub proof fn lemma_has_mapping_follows_save_and_delete(
    file: StoreFileView,
    name: Seq<char>,
    buttons: Seq<ButtonMappingView>,
    axes: Seq<AxisMappingView>,
)
    ensures
        has_mapping_of(StoreFileView::Present(saved_of(file, name, buttons, axes)), name) == Ok::<
            bool,
            ErrorView,
        >(true),
        delete_of(file, name) matches Ok(DeletionView::Removed(rest)) ==> has_mapping_of(
            StoreFileView::Present(rest),
            name,
        ) == Ok::<bool, ErrorView>(false),
        delete_of(file, name) matches Ok(DeletionView::Removed(rest)) ==> has_mapping_of(
            file,
            name,
        ) == Ok::<bool, ErrorView>(true),
{
}

/// A deletion leaves the mappings of all other names as the file had them.
pub proof fn lemma_delete_keeps_others(file: StoreFileView, name: Seq<char>, other: Seq<char>)
    requires
        other != name,
    ensures
        get_of(file_after_delete(file, name), other) == get_of(file, other),
{
}

/// A save or a deletion, as a step in the life of the store's file.
pub enum StoreStep {
    Save { name: Seq<char>, buttons: Seq<ButtonMappingView>, axes: Seq<AxisMappingView> },
    Delete { name: Seq<char> },
}

/// The file as one step leaves it.
pub open spec fn file_after(file: StoreFileView, step: StoreStep) -> StoreFileView {
    match step {
        StoreStep::Save { name, buttons, axes } => StoreFileView::Present(
            saved_of(file, name, buttons, axes),
        ),
        StoreStep::Delete { name } => file_after_delete(file, name),
    }
}

/// The file as a run of steps leaves it.
pub open spec fn file_after_all(file: StoreFileView, steps: Seq<StoreStep>) -> StoreFileView
    decreases steps.len(),
{
    if steps.len() == 0 {
        file
    } else {
        file_after(file_after_all(file, steps.drop_last()), steps.last())
    }
}

/// The mapping found under a name after a run of steps: that of the last
/// save of the name, unless a deletion of the name came after it; where no
/// step names it, the one found before.
pub open spec fn found_after(
    before: Option<ControllerMappingView>,
    steps: Seq<StoreStep>,
    name: Seq<char>,
) -> Option<ControllerMappingView>
    decreases steps.len(),
{
    if steps.len() == 0 {
        before
    } else {
        let earlier = found_after(before, steps.drop_last(), name);
        match steps.last() {
            StoreStep::Save { name: saved, buttons, axes } => if saved == name {
                Some(mapping_of(name, buttons, axes))
            } else {
                earlier
            },
            StoreStep::Delete { name: deleted } => if deleted == name {
                None
            } else {
                earlier
            },
        }
    }
}

/// Through any run of saves and deletions the store answers as a keyed
/// collection does: a lookup finds what the last save of the name stored,
/// unless the name was deleted since, and a name has a mapping exactly
/// then. A file that does not decode stays as it is until the first save,
/// which replaces it.
pub proof fn lemma_lookup_follows_the_last_step(
    file: StoreFileView,
    steps: Seq<StoreStep>,
    name: Seq<char>,
)
    ensures
        file_after_all(file, steps) is Corrupt ==> file_after_all(file, steps) == file
            && found_after(lookup(contents_of(file), name), steps, name) is None,
        !(file_after_all(file, steps) is Corrupt) ==> get_of(file_after_all(file, steps), name)
            == Ok::<Option<ControllerMappingView>, ErrorView>(
            found_after(lookup(contents_of(file), name), steps, name),
        ),
        !(file_after_all(file, steps) is Corrupt) ==> has_mapping_of(
            file_after_all(file, steps),
            name,
        ) == Ok::<bool, ErrorView>(
            found_after(lookup(contents_of(file), name), steps, name) is Some,
        ),
    decreases steps.len(),
{
    if steps.len() > 0 {
        lemma_lookup_follows_the_last_step(file, steps.drop_last(), name);
    }
}

/// A file that does not decode fails a lookup, while a save replaces it by
/// a store that holds the saved mapping and nothing else.
pub proof fn lemma_corrupt_file_asymmetry(
    cause: Seq<char>,
    name: Seq<char>,
    buttons: Seq<ButtonMappingView>,
    axes: Seq<AxisMappingView>,
)
    ensures
        get_of(StoreFileView::Corrupt(cause), name) == Err::<
            Option<ControllerMappingView>,
            ErrorView,
        >(ErrorView::Decode(cause)),
        saved_of(StoreFileView::Corrupt(cause), name, buttons, axes) == Map::<
            Seq<char>,
            ControllerMappingView,
        >::empty().insert(name, mapping_of(name, buttons, axes)),
        saved_of(StoreFileView::Corrupt(cause), name, buttons, axes).dom() == set![name],
{
}

} // verus!
