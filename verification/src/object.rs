//! Scene objects and the plain values they are made of.
//!
//! A coordinate, an angle or a scale factor is a single-precision number.
//! The library never calculates with such a number: it stores it, hands it
//! out and compares it with others. It therefore keeps each number as the 32
//! bits of its IEEE 754 encoding, which the caller makes with `to_bits` and
//! reads with `from_bits`.

use vstd::prelude::*;
use crate::names::{default_name, object_name};

verus! {

/// The encoding of `0.0`.
pub const ZERO: u32 = 0;

/// The encoding of `1.0`.
pub const ONE: u32 = 0x3F80_0000;

/// Two single-precision numbers, each held by its encoding: a position, a
/// scale along both axes, or a place on the screen.
#[derive(Clone, Copy, Debug, PartialEq, Eq, Structural)]
pub struct Vec2 {
    pub x: u32,
    pub y: u32,
}

/// What a scene object is, as a mathematical value.
#[verifier::ext_equal]
pub struct ObjectModel {
    pub id: usize,
    pub name: Seq<char>,
    pub position: Vec2,
    pub rotation: u32,
    pub scale: Vec2,
    pub image_path: Option<Seq<char>>,
}

/// The characters of an optional path.
pub open spec fn path_model(path: Option<String>) -> Option<Seq<char>> {
    match path {
        Some(p) => Some(p@),
        None => None,
    }
}

/// The object that stands at `index` right after its creation: named after
/// its index, at the origin, not rotated, of unit scale and without an image.
pub open spec fn default_object(index: usize) -> ObjectModel {
    ObjectModel {
        id: index,
        name: default_name(index as nat),
        position: Vec2 { x: ZERO, y: ZERO },
        rotation: ZERO,
        scale: Vec2 { x: ONE, y: ONE },
        image_path: None,
    }
}

/// A placed, named, transformable scene entity, optionally textured.
#[derive(Debug)]
pub struct GameObject {
    id: usize,
    name: String,
    position: Vec2,
    rotation: u32,
    scale: Vec2,
    pub image_path: Option<String>,
}

impl View for GameObject {
    type V = ObjectModel;

    closed spec fn view(&self) -> ObjectModel {
        ObjectModel {
            id: self.id,
            name: self.name@,
            position: self.position,
            rotation: self.rotation,
            scale: self.scale,
            image_path: path_model(self.image_path),
        }
    }
}

impl GameObject {
    /// The object created at `index`.
    pub fn new(index: usize) -> (object: GameObject)
        ensures
            object@ == default_object(index),
    {
        GameObject {
            id: index,
            name: object_name(index),
            position: Vec2 { x: ZERO, y: ZERO },
            rotation: ZERO,
            scale: Vec2 { x: ONE, y: ONE },
            image_path: None,
        }
    }

    /// The object with the given field values, as a stored scene gives them.
    pub fn from_parts(
        id: usize,
        name: String,
        position: Vec2,
        rotation: u32,
        scale: Vec2,
        image_path: Option<String>,
    ) -> (object: GameObject)
        ensures
            object@ == (ObjectModel {
                id,
                name: name@,
                position,
                rotation,
                scale,
                image_path: path_model(image_path),
            }),
    {
        GameObject { id, name, position, rotation, scale, image_path }
    }

    /// The identifier: the index at which the object was created.
    pub fn id(&self) -> (id: usize)
        ensures
            id == self@.id,
    {
        self.id
    }

    /// The name shown in the hierarchy and on the canvas.
    pub fn name(&self) -> (name: &str)
        ensures
            name@ == self@.name,
    {
        self.name.as_str()
    }

    /// The position in world units.
    pub fn position(&self) -> (position: Vec2)
        ensures
            position == self@.position,
    {
        self.position
    }

    /// The rotation in radians.
    pub fn rotation(&self) -> (rotation: u32)
        ensures
            rotation == self@.rotation,
    {
        self.rotation
    }

    /// The scale along both axes.
    pub fn scale(&self) -> (scale: Vec2)
        ensures
            scale == self@.scale,
    {
        self.scale
    }

    /// The path of the object's image, if it has one.
    pub fn image_path(&self) -> (path: Option<&str>)
        ensures
            path is Some == self@.image_path is Some,
            path is Some ==> path->0@ == self@.image_path->0,
    {
        match &self.image_path {
            Some(p) => Some(p.as_str()),
            None => None,
        }
    }
    /// Renames the object.
    pub fn set_name(&mut self, name: String)
        ensures
            final(self)@ == (ObjectModel { name: name@, ..old(self)@ }),
    {
        self.name = name;
    }

    /// Moves the object to `position`.
    pub fn set_position(&mut self, position: Vec2)
        ensures
            final(self)@ == (ObjectModel { position, ..old(self)@ }),
    {
        self.position = position;
    }

    /// Turns the object to `rotation`.
    pub fn set_rotation(&mut self, rotation: u32)
        ensures
            final(self)@ == (ObjectModel { rotation, ..old(self)@ }),
    {
        self.rotation = rotation;
    }

    /// Scales the object to `scale`.
    pub fn set_scale(&mut self, scale: Vec2)
        ensures
            final(self)@ == (ObjectModel { scale, ..old(self)@ }),
    {
        self.scale = scale;
    }

    /// Gives the object the image at `path`, or none.
    pub fn set_image_path(&mut self, path: Option<String>)
        ensures
            final(self)@ == (ObjectModel { image_path: path_model(path), ..old(self)@ }),
    {
        self.image_path = path;
    }
}

} // verus!
