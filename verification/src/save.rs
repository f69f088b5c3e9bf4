//! Scenes that come from storage.
//!
//! Reading the file and turning its text into objects is the caller's work.
//! What came of it decides which scene the editor goes on with.

use vstd::prelude::*;
use crate::object::GameObject;

verus! {

/// The scene to go on with after a load: the stored objects in their order,
/// or the empty scene where nothing could be read or understood. A load that
/// failed thus gives the same scene as a stored scene without objects.
pub fn load_scene(stored: Option<Vec<GameObject>>) -> (objects: Vec<GameObject>)
    ensures
        stored is Some ==> objects == stored->0,
        stored is None ==> objects@ == Seq::<GameObject>::empty(),
{
    match stored {
        Some(objects) => objects,
        None => Vec::new(),
    }
}

} // verus!
