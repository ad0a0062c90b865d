//! The store's operations.
//!
//! The caller reads and decodes the store's file and hands what it found in
//! as a [`StoreFile`]. An operation answers with its result and, where the
//! file is to be replaced, with the store to write.

use vstd::prelude::*;
use crate::error::{Error, ErrorView};
use crate::mapping::{
    axis_views,
    button_views,
    AxisMapping,
    AxisMappingView,
    ButtonMapping,
    ButtonMappingView,
    ControllerMapping,
    ControllerMappingView,
};
use crate::store::MappingStore;

verus! {

/// What reading and decoding the store's file gave.
pub enum StoreFile {
    /// There is no file.
    Missing,
    /// The file does not decode; holds the cause.
    Corrupt(String),
    /// The file decoded to this store.
    Present(MappingStore),
}

pub enum StoreFileView {
    Missing,
    Corrupt(Seq<char>),
    Present(Map<Seq<char>, ControllerMappingView>),
}

impl View for StoreFile {
    type V = StoreFileView;

    open spec fn view(&self) -> StoreFileView {
        match self {
            StoreFile::Missing => StoreFileView::Missing,
            StoreFile::Corrupt(cause) => StoreFileView::Corrupt(cause@),
            StoreFile::Present(store) => StoreFileView::Present(store@),
        }
    }
}

impl StoreFile {
    /// The stored names in listing order: those of a file that decodes,
    /// none where the file is missing or does not decode.
    pub open spec fn names(&self) -> Seq<Seq<char>> {
        match self {
            StoreFile::Present(store) => store.names(),
            _ => Seq::empty(),
        }
    }
}

/// How a deletion ended.
pub enum Deletion {
    /// There is no file, so nothing to delete. Nothing is written.
    NoFile,
    /// The file holds no mapping under the name. Nothing is written.
    NotFound,
    /// The mapping was removed; holds the store to write back.
    Removed(MappingStore),
}

pub enum DeletionView {
    NoFile,
    NotFound,
    Removed(Map<Seq<char>, ControllerMappingView>),
}

impl View for Deletion {
    type V = DeletionView;

    open spec fn view(&self) -> DeletionView {
        match self {
            Deletion::NoFile => DeletionView::NoFile,
            Deletion::NotFound => DeletionView::NotFound,
            Deletion::Removed(store) => DeletionView::Removed(store@),
        }
    }
}

/// What a save gives back.
pub struct Saved {
    /// The store to write in place of the file.
    pub store: MappingStore,
    /// Confirmation for the user.
    pub message: String,
}

/// The mappings a save starts from: those of a file that decodes, none
/// where the file is missing or does not decode.
pub open spec fn contents_of(file: StoreFileView) -> Map<Seq<char>, ControllerMappingView> {
    match file {
        StoreFileView::Present(mappings) => mappings,
        _ => Map::empty(),
    }
}

/// The mapping that a keyed collection holds under a name, if any.
pub open spec fn lookup(
    mappings: Map<Seq<char>, ControllerMappingView>,
    name: Seq<char>,
) -> Option<ControllerMappingView> {
    if mappings.dom().contains(name) {
        Some(mappings[name])
    } else {
        None
    }
}

/// The mapping stored under a name: none where there is no file or no
/// entry; a decode failure where the file does not decode.
pub open spec fn get_of(file: StoreFileView, name: Seq<char>) -> Result<
    Option<ControllerMappingView>,
    ErrorView,
> {
    match file {
        StoreFileView::Missing => Ok(None),
        StoreFileView::Corrupt(cause) => Err(ErrorView::Decode(cause)),
        StoreFileView::Present(mappings) => Ok(lookup(mappings, name)),
    }
}

/// Whether a mapping is stored under a name: whether `get_of` yields one.
pub open spec fn has_mapping_of(file: StoreFileView, name: Seq<char>) -> Result<bool, ErrorView> {
    match get_of(file, name) {
        Ok(found) => Ok(found is Some),
        Err(error) => Err(error),
    }
}

/// The mapping that a save stores.
pub open spec fn mapping_of(
    name: Seq<char>,
    buttons: Seq<ButtonMappingView>,
    axes: Seq<AxisMappingView>,
) -> ControllerMappingView {
    ControllerMappingView { name, buttons, axes }
}

/// The store that a save writes.
pub open spec fn saved_of(
    file: StoreFileView,
    name: Seq<char>,
    buttons: Seq<ButtonMappingView>,
    axes: Seq<AxisMappingView>,
) -> Map<Seq<char>, ControllerMappingView> {
    contents_of(file).insert(name, mapping_of(name, buttons, axes))
}

/// How deleting a name ends.
pub open spec fn delete_of(file: StoreFileView, name: Seq<char>) -> Result<
    DeletionView,
    ErrorView,
> {
    match file {
        StoreFileView::Missing => Ok(DeletionView::NoFile),
        StoreFileView::Corrupt(cause) => Err(ErrorView::Decode(cause)),
        StoreFileView::Present(mappings) => Ok(
            if mappings.dom().contains(name) {
                DeletionView::Removed(mappings.remove(name))
            } else {
                DeletionView::NotFound
            },
        ),
    }
}

/// The file as a deletion leaves it: replaced where a mapping was removed,
/// untouched otherwise.
pub open spec fn file_after_delete(file: StoreFileView, name: Seq<char>) -> StoreFileView {
    match delete_of(file, name) {
        Ok(DeletionView::Removed(mappings)) => StoreFileView::Present(mappings),
        _ => file,
    }
}

/// Confirmation of a save.
pub open spec fn saved_message_of(name: Seq<char>) -> Seq<char> {
    "Saved config for "@ + name
}

/// Report on a deletion.
pub open spec fn deletion_message_of(deletion: DeletionView, name: Seq<char>) -> Seq<char> {
    match deletion {
        DeletionView::NoFile => "No config file found, nothing to delete for "@ + name,
        DeletionView::NotFound => "Config for "@ + name + " not found, nothing to delete"@,
        DeletionView::Removed(_) => "Deleted config for "@ + name,
    }
}

/// The mapping stored under a name.
pub fn get(file: &StoreFile, name: &str) -> (found: Result<Option<ControllerMapping>, Error>)
    ensures
        match found {
            Ok(Some(mapping)) => get_of(file@, name@) == Ok::<
                Option<ControllerMappingView>,
                ErrorView,
            >(Some(mapping@)),
            Ok(None) => get_of(file@, name@) == Ok::<Option<ControllerMappingView>, ErrorView>(
                None,
            ),
            Err(error) => get_of(file@, name@) == Err::<Option<ControllerMappingView>, ErrorView>(
                error@,
            ),
        },
{
    match file {
        StoreFile::Missing => Ok(None),
        StoreFile::Corrupt(cause) => Err(Error::Decode(cause.clone())),
        StoreFile::Present(store) => Ok(store.get(name)),
    }
}

/// Whether a mapping is stored under a name.
pub fn has_mapping(file: &StoreFile, name: &str) -> (stored: Result<bool, Error>)
    ensures
        match stored {
            Ok(found) => has_mapping_of(file@, name@) == Ok::<bool, ErrorView>(found),
            Err(error) => has_mapping_of(file@, name@) == Err::<bool, ErrorView>(error@),
        },
{
    match get(file, name) {
        Ok(found) => Ok(found.is_some()),
        Err(error) => Err(error),
    }
}

/// Every stored mapping: none where there is no file, a decode failure
/// where the file does not decode. The order is the store's listing order.
pub fn list_all(file: &StoreFile) -> (listed: Result<Vec<ControllerMapping>, Error>)
    ensures
        match file {
            StoreFile::Missing => listed matches Ok(mappings) && mappings@.len() == 0,
            StoreFile::Corrupt(cause) => listed matches Err(error) && error@ == ErrorView::Decode(
                cause@,
            ),
            StoreFile::Present(store) => listed matches Ok(mappings) && mappings@.len()
                == store.names().len() && forall|i: int|
                0 <= i < mappings@.len() ==> (#[trigger] mappings@[i])@ == store@[store.names()[i]],
        },
{
    match file {
        StoreFile::Missing => Ok(Vec::new()),
        StoreFile::Corrupt(cause) => Err(Error::Decode(cause.clone())),
        StoreFile::Present(store) => Ok(store.list()),
    }
}

/// Stores a controller's mapping under its name, in place of the one
/// stored there, if any. A file that is missing or does not decode counts
/// as empty, so a save always succeeds.
pub fn save(
    file: StoreFile,
    name: &str,
    buttons: Vec<ButtonMapping>,
    axes: Vec<AxisMapping>,
) -> (saved: Saved)
    ensures
        saved.store@ == saved_of(file@, name@, button_views(buttons@), axis_views(axes@)),
        saved.store.names() == if contents_of(file@).dom().contains(name@) {
            file.names()
        } else {
            file.names().push(name@)
        },
        saved.message@ == saved_message_of(name@),
{
    let store = match file {
        StoreFile::Present(store) => store,
        _ => MappingStore::new(),
    };
    let mapping = ControllerMapping { name: String::from_str(name), buttons, axes };
    Saved {
        store: store.put(String::from_str(name), mapping),
        message: String::from_str("Saved config for ").concat(name),
    }
}

/// Deletes the mapping stored under a name. That there is no file, or no
/// such mapping, is no failure.
pub fn delete(file: StoreFile, name: &str) -> (deleted: Result<Deletion, Error>)
    ensures
        match deleted {
            Ok(deletion) => delete_of(file@, name@) == Ok::<DeletionView, ErrorView>(deletion@),
            Err(error) => delete_of(file@, name@) == Err::<DeletionView, ErrorView>(error@),
        },
        deleted matches Ok(Deletion::Removed(rest)) ==> rest.names() == file.names().remove(
            file.names().index_of(name@),
        ),
{
    match file {
        StoreFile::Missing => Ok(Deletion::NoFile),
        StoreFile::Corrupt(cause) => Err(Error::Decode(cause)),
        StoreFile::Present(store) => {
            let (rest, removed) = store.remove(name);
            if removed {
                Ok(Deletion::Removed(rest))
            } else {
                Ok(Deletion::NotFound)
            }
        },
    }
}

impl Deletion {
    /// Report on the deletion for the user.
    pub fn message(&self, name: &str) -> (message: String)
        ensures
            message@ == deletion_message_of(self@, name@),
    {
        match self {
            Deletion::NoFile => String::from_str(
                "No config file found, nothing to delete for ",
            ).concat(name),
            Deletion::NotFound => String::from_str("Config for ").concat(name).concat(
                " not found, nothing to delete",
            ),
            Deletion::Removed(_) => String::from_str("Deleted config for ").concat(name),
        }
    }
}

} // verus!
