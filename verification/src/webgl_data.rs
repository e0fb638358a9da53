//! Plain data carried to the rendering layer: index buffers, shader sources,
//! texture descriptions, and the texture-unit id pool.

use vstd::prelude::*;
use std::rc::Rc;

verus! {

broadcast use vstd::string::to_string_from_display_ensures_for_str;

/// Triangle indices destined for an element buffer.
pub struct IndexBuffer {
    pub buffer: Vec<u16>,
}

impl IndexBuffer {
    pub fn new(buffer: Vec<u16>) -> (r: IndexBuffer)
        ensures
            r.buffer@ == buffer@,
    {
        IndexBuffer { buffer }
    }
}

/// GLSL source text, not yet bound to a shader stage.
#[derive(Debug)]
pub struct ShaderSource(pub String);

impl ShaderSource {
    pub fn new(source: &str) -> (r: Self)
        ensures
            r.0@ == source@,
    {
        Self(source.to_string())
    }

    pub fn to_vertex(&self) -> (r: VertexShader)
        ensures
            r.source.0@ == self.0@,
    {
        VertexShader { source: self.clone() }
    }

    pub fn to_fragment(&self) -> (r: FragmentShader)
        ensures
            r.source.0@ == self.0@,
    {
        FragmentShader { source: self.clone() }
    }
}

impl Clone for ShaderSource {
    fn clone(&self) -> (r: Self)
        ensures
            r.0@ == self.0@,
    {
        Self(self.0.clone())
    }
}

/// Source for the vertex stage.
#[derive(Clone)]
pub struct VertexShader {
    pub source: ShaderSource,
}

/// Source for the fragment stage.
#[derive(Clone)]
pub struct FragmentShader {
    pub source: ShaderSource,
}

/// Produces a texture object of the rendering layer's choosing.
pub trait GenTexture<T> {
    fn gen_texture3d(&self) -> T;
}

/// A 3D RGBA16 texture: dimensions and packed 4-4-4-4 texel data.
pub struct Texture3DRGBA16 {
    width: i32,
    height: i32,
    depth: i32,
    data: Rc<Vec<u16>>,
}

impl Texture3DRGBA16 {
    pub closed spec fn spec_dims(&self) -> (int, int, int) {
        (self.width as int, self.height as int, self.depth as int)
    }

    pub fn new(width: i32, height: i32, depth: i32, data: Rc<Vec<u16>>) -> (r: Self)
        ensures
            r.spec_dims() == (width as int, height as int, depth as int),
    {
        Texture3DRGBA16 { width, height, depth, data }
    }
}

/// A 3D RGB8 texture: dimensions and one byte per channel.
pub struct Texture3DRGB8 {
    width: i32,
    height: i32,
    depth: i32,
    data: Rc<Vec<u8>>,
}

impl Texture3DRGB8 {
    pub closed spec fn spec_dims(&self) -> (int, int, int) {
        (self.width as int, self.height as int, self.depth as int)
    }

    pub fn new(width: i32, height: i32, depth: i32, data: Rc<Vec<u8>>) -> (r: Self)
        ensures
            r.spec_dims() == (width as int, height as int, depth as int),
    {
        Texture3DRGB8 { width, height, depth, data }
    }
}

/// The pool of free texture unit ids: a stack of every id below the limit,
/// handed out from the top.
pub struct TextureIdPool {
    free: Vec<u32>,
    max_id: u32,
}

impl TextureIdPool {
    pub closed spec fn spec_free(&self) -> Seq<u32> {
        self.free@
    }

    pub closed spec fn spec_max_id(&self) -> u32 {
        self.max_id
    }

    /// A fresh pool holding ids max_id - 1 down to 0, so the smallest ids are
    /// handed out first.
    pub fn new(max_id: u32) -> (r: TextureIdPool)
        ensures
            r.spec_max_id() == max_id,
            r.spec_free().len() == max_id,
            forall|i: int| 0 <= i < max_id ==> r.spec_free()[i] == max_id - 1 - i,
    {
        let mut free: Vec<u32> = Vec::new();
        let mut id: u32 = max_id;
        while id > 0
            invariant
                id <= max_id,
                free@.len() == max_id - id,
                forall|i: int| 0 <= i < free@.len() ==> free@[i] == max_id - 1 - i,
            decreases id,
        {
            id = id - 1;
            free.push(id);
        }
        TextureIdPool { free, max_id }
    }

    /// Hands out the most recently freed id; fails when the pool is empty.
    pub fn gen_texture_id(&mut self) -> (r: Result<u32, String>)
        ensures
            r is Ok <==> old(self).spec_free().len() > 0,
            r matches Ok(id) ==> id == old(self).spec_free().last() && final(self).spec_free()
                == old(self).spec_free().drop_last(),
            r is Err ==> final(self).spec_free() == old(self).spec_free(),
            final(self).spec_max_id() == old(self).spec_max_id(),
    {
        match self.free.pop() {
            Some(id) => Ok(id),
            None => Err("Texture id exhausted.".to_string()),
        }
    }

    /// Returns an id to the pool; an id at or above the limit is rejected.
    pub fn release_texture_id(&mut self, id: u32) -> (r: Result<(), String>)
        ensures
            r is Ok <==> id < old(self).spec_max_id(),
            r is Ok ==> final(self).spec_free() == old(self).spec_free().push(id),
            r is Err ==> final(self).spec_free() == old(self).spec_free(),
            final(self).spec_max_id() == old(self).spec_max_id(),
    {
        if id < self.max_id {
            self.free.push(id);
            Ok(())
        } else {
            Err("Texture id is out of range.".to_string())
        }
    }
}

} // verus!
