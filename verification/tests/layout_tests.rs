use std::rc::Rc;
use techtron::layout::{CanvasView, Layout, LayoutOneLargeThreeSmall};
use techtron::webgl_data::{IndexBuffer, ShaderSource, Texture3DRGB8, Texture3DRGBA16, TextureIdPool};

#[test]
fn test_layout_tiles() {
    let mut l = LayoutOneLargeThreeSmall::new(200, 92, CanvasView::Transverse);
    // maximized view takes the big left square
    assert_eq!(l.layout(&CanvasView::Transverse), (0, 0, 92, 92));
    // side length of the small squares: (92 - 2) / 3 = 30
    assert_eq!(l.layout(&CanvasView::Sagittal), (93, 62, 30, 30));
    assert_eq!(l.layout(&CanvasView::Coronal), (93, 31, 30, 30));
    assert_eq!(l.layout(&CanvasView::ThreeD), (93, 0, 30, 30));

    l.set_maximized(CanvasView::ThreeD);
    assert_eq!(l.layout(&CanvasView::ThreeD), (0, 0, 92, 92));
    assert_eq!(l.layout(&CanvasView::Transverse), (93, 62, 30, 30));
    assert_eq!(l.layout(&CanvasView::Coronal), (93, 0, 30, 30));

    l.set_height(152);
    // side length becomes 50
    assert_eq!(l.layout(&CanvasView::ThreeD), (0, 0, 152, 152));
    assert_eq!(l.layout(&CanvasView::Transverse), (153, 102, 50, 50));
    l.set_width(400);
    assert_eq!(l.layout(&CanvasView::Transverse), (153, 102, 50, 50));
}

#[test]
fn test_shader_source() {
    let src = ShaderSource::new("void main() {}");
    assert_eq!(src.0, "void main() {}");
    let v = src.to_vertex();
    assert_eq!(v.source.0, "void main() {}");
    let f = src.to_fragment();
    assert_eq!(f.source.0, "void main() {}");
}

#[test]
fn test_index_buffer() {
    let b = IndexBuffer::new(vec![0, 1, 2, 2, 1, 3]);
    assert_eq!(b.buffer, vec![0, 1, 2, 2, 1, 3]);
}

#[test]
fn test_textures_construct() {
    let t16 = Texture3DRGBA16::new(4, 4, 2, Rc::new(vec![0u16; 32]));
    let t8 = Texture3DRGB8::new(2, 2, 2, Rc::new(vec![0u8; 24]));
    let _ = (t16, t8);
}

#[test]
fn test_texture_id_pool() {
    let mut pool = TextureIdPool::new(3);
    assert_eq!(pool.gen_texture_id().unwrap(), 0);
    assert_eq!(pool.gen_texture_id().unwrap(), 1);
    assert_eq!(pool.gen_texture_id().unwrap(), 2);
    assert!(pool.gen_texture_id().is_err());
    // out-of-range ids are rejected, valid ids go back into the pool
    assert!(pool.release_texture_id(3).is_err());
    assert!(pool.release_texture_id(1).is_ok());
    assert_eq!(pool.gen_texture_id().unwrap(), 1);
}
