//! The editor: the scene, the selection, the drag in progress, the viewport
//! and the textures, owned by one value and changed only through its methods.

use vstd::prelude::*;
use crate::number::{at_most, clamp, clamped};
use crate::object::{default_object, ObjectModel, Vec2, ONE, ZERO};
use crate::pointer::{
    last_hit, lemma_after_wf, lemma_last_hit_wins, lemma_motions_in_range, Bounds, Motion,
    PointerFrame, PointerState, Segment,
};
use crate::texture::{loads, TextureCache};

pub use crate::object::GameObject;

verus! {

/// The encoding of `0.1`, the smallest zoom factor.
pub const ZOOM_MIN: u32 = 0x3DCC_CCCD;

/// The encoding of `5.0`, the largest zoom factor.
pub const ZOOM_MAX: u32 = 0x40A0_0000;

/// The zoom factor nearest to the number encoded by `bits` that lies between
/// `0.1` and `5.0`. What is not a number gives `0.1`.
pub open spec fn clamp_zoom(bits: u32) -> u32 {
    clamped(bits, ZOOM_MIN, ZOOM_MAX)
}

/// Whether the number encoded by `bits` lies between `0.1` and `5.0`.
pub open spec fn zoom_in_range(bits: u32) -> bool {
    at_most(ZOOM_MIN, bits) && at_most(bits, ZOOM_MAX)
}

/// How many steps the held direction keys move the view along each axis.
/// One step is ten pixels.
#[derive(Clone, Copy, Debug, PartialEq, Eq, Structural)]
pub struct KeySteps {
    pub x: i8,
    pub y: i8,
}

/// The step along one axis when the key that moves forth and the key that
/// moves back are held or not.
pub open spec fn key_step(forth: bool, back: bool) -> int {
    (if forth {
        1int
    } else {
        0
    }) - (if back {
        1int
    } else {
        0
    })
}

/// The step along one axis.
fn step_of(forth: bool, back: bool) -> (step: i8)
    ensures
        step == key_step(forth, back),
{
    if forth == back {
        0
    } else if forth {
        1
    } else {
        -1
    }
}

/// The editor as a mathematical value.
#[verifier::ext_equal]
pub struct EditorModel {
    /// The objects in insertion order, which is the display order.
    pub scene: Seq<ObjectModel>,
    /// The selection and the drag in progress.
    pub pointer: PointerState,
    /// The zoom factor.
    pub zoom: u32,
    /// The place of the world's origin on the canvas, in pixels.
    pub view_offset: Vec2,
    /// Where the pointer was when the view last followed it.
    pub pan_anchor: Option<Vec2>,
    /// The cached textures by path.
    pub textures: Map<Seq<char>, egui::TextureHandle>,
}

impl EditorModel {
    /// The selected object exists, the dragged object is the selected one, a
    /// drag has its anchor, and the zoom factor is in its range.
    pub open spec fn wf(self) -> bool {
        &&& self.pointer.wf(self.scene.len())
        &&& zoom_in_range(self.zoom)
    }
}

/// The mathematical values of a list of objects.
pub open spec fn scene_model(objects: Seq<GameObject>) -> Seq<ObjectModel> {
    objects.map_values(|o: GameObject| o@)
}

/// The editor's state.
pub struct StarEditor {
    objects: Vec<GameObject>,
    pointer: PointerState,
    zoom: u32,
    view_offset: Vec2,
    pan_start: Option<Vec2>,
    image_cache: TextureCache,
}

impl View for StarEditor {
    type V = EditorModel;

    closed spec fn view(&self) -> EditorModel {
        EditorModel {
            scene: scene_model(self.objects@),
            pointer: self.pointer,
            zoom: self.zoom,
            view_offset: self.view_offset,
            pan_anchor: self.pan_start,
            textures: self.image_cache@,
        }
    }
}

impl StarEditor {
    /// The invariant of the editor, which every method keeps.
    pub open spec fn wf(&self) -> bool {
        self@.wf()
    }

    /// The editor at start: an empty scene seen at zoom `1.0` from the
    /// origin, nothing selected or dragged, no texture cached.
    pub fn new() -> (editor: StarEditor)
        ensures
            editor.wf(),
            editor@ == (EditorModel {
                scene: Seq::<ObjectModel>::empty(),
                pointer: PointerState::idle(),
                zoom: ONE,
                view_offset: Vec2 { x: ZERO, y: ZERO },
                pan_anchor: None,
                textures: Map::<Seq<char>, egui::TextureHandle>::empty(),
            }),
    {
        let editor = StarEditor {
            objects: Vec::new(),
            pointer: PointerState { selected: None, dragging: None, anchor: None },
            zoom: ONE,
            view_offset: Vec2 { x: ZERO, y: ZERO },
            pan_start: None,
            image_cache: TextureCache::new(),
        };
        assert(editor@.scene =~= Seq::<ObjectModel>::empty());
        editor
    }

    /// The number of objects in the scene.
    pub fn len(&self) -> (len: usize)
        ensures
            len == self@.scene.len(),
    {
        self.objects.len()
    }

    /// The object at `index`.
    pub fn object(&self, index: usize) -> (object: &GameObject)
        requires
            index < self@.scene.len(),
        ensures
            object@ == self@.scene[index as int],
    {
        &self.objects[index]
    }

    /// The objects of the scene in order.
    pub fn objects(&self) -> (objects: &Vec<GameObject>)
        ensures
            scene_model(objects@) == self@.scene,
    {
        &self.objects
    }

    /// The selected object.
    pub fn selected(&self) -> (selected: Option<usize>)
        ensures
            selected == self@.pointer.selected,
    {
        self.pointer.selected
    }

    /// The object that follows the pointer.
    pub fn dragging(&self) -> (dragging: Option<usize>)
        ensures
            dragging == self@.pointer.dragging,
    {
        self.pointer.dragging
    }

    /// Where the pointer was when the dragged object last followed it.
    pub fn drag_anchor(&self) -> (anchor: Option<Vec2>)
        ensures
            anchor == self@.pointer.anchor,
    {
        self.pointer.anchor
    }

    /// The zoom factor.
    pub fn zoom(&self) -> (zoom: u32)
        ensures
            zoom == self@.zoom,
    {
        self.zoom
    }

    /// The place of the world's origin on the canvas.
    pub fn view_offset(&self) -> (offset: Vec2)
        ensures
            offset == self@.view_offset,
    {
        self.view_offset
    }

    /// Where the pointer was when the view last followed it.
    pub fn pan_anchor(&self) -> (anchor: Option<Vec2>)
        ensures
            anchor == self@.pan_anchor,
    {
        self.pan_start
    }

    /// Appends a new object with the default name and transform and returns
    /// its index, which is the number of objects there were.
    pub fn add_object(&mut self) -> (index: usize)
        requires
            old(self).wf(),
        ensures
            final(self).wf(),
            index == old(self)@.scene.len(),
            final(self)@ == (EditorModel {
                scene: old(self)@.scene.push(default_object(index)),
                ..old(self)@
            }),
    {
        let index = self.objects.len();
        self.objects.push(GameObject::new(index));
        assert(self@.scene =~= old(self)@.scene.push(default_object(index)));
        index
    }

    /// Selects the object at `index`. An index that is out of range is
    /// ignored. Selecting another object than the dragged one ends the drag,
    /// so that the dragged object is always the selected one.
    pub fn select(&mut self, index: usize)
        requires
            old(self).wf(),
        ensures
            final(self).wf(),
            index < old(self)@.scene.len() ==> final(self)@ == (EditorModel {
                pointer: old(self)@.pointer.chosen(index),
                ..old(self)@
            }),
            index >= old(self)@.scene.len() ==> final(self)@ == old(self)@,
    {
        if index < self.objects.len() {
            if self.pointer.dragging != Some(index) {
                self.pointer.dragging = None;
                self.pointer.anchor = None;
            }
            self.pointer.selected = Some(index);
        }
    }

    /// The object at `index`, to be changed in place.
    pub fn object_mut(&mut self, index: usize) -> (object: &mut GameObject)
        requires
            old(self).wf(),
            index < old(self)@.scene.len(),
        ensures
            object@ == old(self)@.scene[index as int],
            final(self)@ == (EditorModel {
                scene: old(self)@.scene.update(index as int, final(object)@),
                ..old(self)@
            }),
            final(self).wf(),
    {
        &mut self.objects[index]
    }

    /// Replaces the whole scene, as loading one does. A selection or a drag
    /// of an object that the new scene does not have is dropped.
    pub fn replace_objects(&mut self, objects: Vec<GameObject>)
        requires
            old(self).wf(),
        ensures
            final(self).wf(),
            final(self)@ == (EditorModel {
                scene: scene_model(objects@),
                pointer: old(self)@.pointer.within(objects@.len()),
                ..old(self)@
            }),
    {
        let len = objects.len();
        self.objects = objects;
        if let Some(selected) = self.pointer.selected {
            if selected >= len {
                self.pointer.selected = None;
            }
        }
        if let Some(dragging) = self.pointer.dragging {
            if dragging >= len {
                self.pointer.dragging = None;
                self.pointer.anchor = None;
            }
        }
    }

    /// Sets the zoom factor to the number encoded by `bits`, brought into
    /// the range from `0.1` to `5.0`.
    pub fn set_zoom(&mut self, bits: u32)
        requires
            old(self).wf(),
        ensures
            final(self).wf(),
            final(self)@ == (EditorModel { zoom: clamp_zoom(bits), ..old(self)@ }),
            zoom_in_range(final(self)@.zoom),
    {
        self.zoom = clamp(bits, ZOOM_MIN, ZOOM_MAX);
    }

    /// Puts the world's origin at `offset` on the canvas.
    pub fn set_view_offset(&mut self, offset: Vec2)
        requires
            old(self).wf(),
        ensures
            final(self).wf(),
            final(self)@ == (EditorModel { view_offset: offset, ..old(self)@ }),
    {
        self.view_offset = offset;
    }

    /// One frame of panning with the secondary button. While the button is
    /// held, the view follows the pointer: the stretch from where the
    /// pointer was in the frame before to where it is now is handed back, to
    /// be added to the view offset, and the anchor moves on to the pointer.
    /// The first frame only sets the anchor. Releasing the button forgets it.
    pub fn pan(&mut self, held: bool, pointer: Option<Vec2>) -> (moved: Option<Segment>)
        requires
            old(self).wf(),
        ensures
            final(self).wf(),
            final(self)@ == (EditorModel {
                pan_anchor: pan_anchor_after(old(self)@.pan_anchor, held, pointer),
                ..old(self)@
            }),
            moved == pan_motion(old(self)@.pan_anchor, held, pointer),
    {
        if held {
            match pointer {
                Some(to) => {
                    let moved = match self.pan_start {
                        Some(from) => Some(Segment { from, to }),
                        None => None,
                    };
                    self.pan_start = Some(to);
                    moved
                },
                None => None,
            }
        } else {
            self.pan_start = None;
            None
        }
    }

    /// One frame of the primary button. `boxes` holds the bounding box of
    /// each object on the screen, in scene order. The objects are visited in
    /// that order; the motions handed back are those of the dragged object,
    /// each to be applied to the object it names.
    pub fn pointer_frame(&mut self, frame: PointerFrame, boxes: &Vec<Bounds>) -> (motions: Vec<Motion>)
        requires
            old(self).wf(),
        ensures
            final(self).wf(),
            final(self)@ == (EditorModel {
                pointer: old(self)@.pointer.after(frame, boxes@, old(self)@.scene.len()),
                ..old(self)@
            }),
            motions@ == old(self)@.pointer.motions(frame, boxes@, old(self)@.scene.len()),
            forall|m: int|
                0 <= m < motions@.len() ==> (#[trigger] motions@[m]).index < old(self)@.scene.len(),
            forall|j: int|
                last_hit(frame, boxes@, old(self)@.scene.len(), j)
                    ==> final(self)@.pointer.selected == Some(j as usize),
    {
        let count = self.objects.len();
        proof {
            lemma_after_wf(self@.pointer, frame, boxes@, count as nat, count as nat);
            lemma_motions_in_range(self@.pointer, frame, boxes@, count as nat);
            assert forall|j: int| last_hit(frame, boxes@, count as nat, j) implies self@.pointer.after(
                frame,
                boxes@,
                count as nat,
            ).selected == Some(j as usize) by {
                lemma_last_hit_wins(self@.pointer, frame, boxes@, count as nat, j);
            }
        }
        self.pointer.visit_all(count, frame, boxes)
    }

    /// The steps by which the held direction keys move the view in this
    /// frame: `w` and `s` along the second axis, `a` and `d` along the first,
    /// the keys of one axis against each other. The keys move the view only
    /// while the scene has an object.
    pub fn key_steps(&self, w: bool, s: bool, a: bool, d: bool) -> (steps: KeySteps)
        ensures
            self@.scene.len() == 0 ==> steps == (KeySteps { x: 0, y: 0 }),
            self@.scene.len() > 0 ==> steps.x == key_step(a, d) && steps.y == key_step(w, s),
    {
        if self.objects.len() == 0 {
            KeySteps { x: 0, y: 0 }
        } else {
            KeySteps { x: step_of(a, d), y: step_of(w, s) }
        }
    }

    /// The texture to draw the object at `index` with: the cached texture of
    /// its image, if it has an image and the image's texture is cached.
    /// Without one, the object is drawn as an outline with its name.
    pub fn texture_of(&self, index: usize) -> (handle: Option<&egui::TextureHandle>)
        requires
            index < self@.scene.len(),
        ensures
            handle is Some == textured(self@, index as int),
            handle is Some ==> *handle->0 == self@.textures[self@.scene[index as int].image_path->0],
    {
        match self.objects[index].image_path() {
            Some(path) => self.image_cache.get(path),
            None => None,
        }
    }

    /// Prepares the selected object for the inspector. The object's image
    /// path is set to what it was, or to the empty path if it had none, and
    /// the texture of that path is asked for: a cached one is kept, any other
    /// is made of the file's content, which `read` fetches, and cached if
    /// the content gives a picture. Nothing happens while no object is
    /// selected.
    pub fn load_selected_image<F>(&mut self, ctx: &egui::Context, read: F) where
        F: FnOnce(&str) -> Option<Vec<u8>>,

        requires
            old(self).wf(),
            forall|p: &str| needs_read(old(self)@, p@) ==> #[trigger] read.requires((p,)),
        ensures
            final(self).wf(),
            old(self)@.pointer.selected is None ==> final(self)@ == old(self)@,
            old(self)@.pointer.selected is Some ==> final(self)@ == (EditorModel {
                scene: inspected_scene(old(self)@),
                textures: final(self)@.textures,
                ..old(self)@
            }),
            old(self)@.pointer.selected is Some && !needs_read(
                old(self)@,
                inspected_path(old(self)@),
            ) ==> final(self)@.textures == old(self)@.textures,
            needs_read(old(self)@, inspected_path(old(self)@)) ==> exists|
                p: &str,
                bytes: Option<Vec<u8>>,
            |
                p@ == inspected_path(old(self)@) && read.ensures((p,), bytes) && #[trigger] loads(
                    old(self)@.textures,
                    p@,
                    bytes is Some,
                    final(self)@.textures,
                ),
    {
        if let Some(index) = self.pointer.selected {
            let path: String = match self.objects[index].image_path() {
                Some(p) => p.to_owned(),
                None => String::new(),
            };
            let _ = self.image_cache.get_or_load(path.as_str(), ctx, read);
            self.objects[index].set_image_path(Some(path));
        }
    }
}

/// A selection or a drag survives a change of the scene only if its object
/// is still there.
pub open spec fn kept(index: Option<usize>, len: nat) -> Option<usize> {
    if index is Some && index->0 < len {
        index
    } else {
        None
    }
}

impl PointerState {
    /// The state cut down to a scene of `len` objects.
    pub open spec fn within(self, len: nat) -> PointerState {
        PointerState {
            selected: kept(self.selected, len),
            dragging: kept(self.dragging, len),
            anchor: if kept(self.dragging, len) is Some {
                self.anchor
            } else {
                None
            },
        }
    }
}

/// The pan anchor after a frame in which the secondary button was `held`.
pub open spec fn pan_anchor_after(anchor: Option<Vec2>, held: bool, pointer: Option<Vec2>) -> Option<
    Vec2,
> {
    if !held {
        None
    } else if pointer is Some {
        pointer
    } else {
        anchor
    }
}

/// The stretch by which the view moves in a frame in which the secondary
/// button was `held`.
pub open spec fn pan_motion(anchor: Option<Vec2>, held: bool, pointer: Option<Vec2>) -> Option<
    Segment,
> {
    if held && pointer is Some && anchor is Some {
        Some(Segment { from: anchor->0, to: pointer->0 })
    } else {
        None
    }
}

/// Whether the object at `index` is drawn with a texture.
pub open spec fn textured(editor: EditorModel, index: int) -> bool {
    editor.scene[index].image_path is Some && editor.textures.contains_key(
        editor.scene[index].image_path->0,
    )
}

/// The path under which the inspector looks for the selected object's
/// image: the object's image path, or the empty path if it has none.
pub open spec fn inspected_path(editor: EditorModel) -> Seq<char> {
    match editor.scene[editor.pointer.selected->0 as int].image_path {
        Some(path) => path,
        None => Seq::empty(),
    }
}

/// Whether the inspector has the file at `path` read: an object is selected,
/// `path` is where its image is looked for, and no texture of it is cached.
pub open spec fn needs_read(editor: EditorModel, path: Seq<char>) -> bool {
    &&& editor.pointer.selected is Some
    &&& path == inspected_path(editor)
    &&& !editor.textures.contains_key(path)
}

/// The scene after the inspector recorded the path on the selected object.
pub open spec fn inspected_scene(editor: EditorModel) -> Seq<ObjectModel> {
    let index = editor.pointer.selected->0 as int;
    editor.scene.update(
        index,
        ObjectModel { image_path: Some(inspected_path(editor)), ..editor.scene[index] },
    )
}

impl Default for StarEditor {
    /// The editor at start.
    fn default() -> (editor: StarEditor)
        ensures
            editor.wf(),
            editor@ == (EditorModel {
                scene: Seq::<ObjectModel>::empty(),
                pointer: PointerState::idle(),
                zoom: ONE,
                view_offset: Vec2 { x: ZERO, y: ZERO },
                pan_anchor: None,
                textures: Map::<Seq<char>, egui::TextureHandle>::empty(),
            }),
    {
        StarEditor::new()
    }
}

} // verus!
