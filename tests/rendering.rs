use std::io::Cursor;

use tile_renderer::frame::{
    negotiate_surface, surface_recovery, PassTarget, Recovery, RenderState, SetupError, SurfaceFault,
};
use tile_renderer::grid::Grid;
use tile_renderer::instance::{Fraction, InstanceTileRaw};
use tile_renderer::layout::{StepMode, VertexAttribute, VertexFormat};
use tile_renderer::mesh::{cell_size, quad_indices, quad_vertices, DrawCall, Mesh, Vertex};
use tile_renderer::texture::{TextureError, TextureImage};
use tile_renderer::tile::Tile;

fn records(n: usize) -> Vec<InstanceTileRaw> {
    let g = Grid::new(n, 1, &vec![Tile::default(); n]).unwrap();
    g.instances()
}

fn state(cols: usize, rows: usize) -> RenderState<Vec<InstanceTileRaw>, u32> {
    let grid = Grid::new(cols, rows, &vec![]).unwrap();
    let mesh = Mesh::new(vec![], vec![], vec![]);
    let screen = Mesh::new(vec![], vec![], vec![]);
    RenderState::new(grid, mesh, screen)
}

#[test]
fn replacing_instances_twice_equals_once() {
    let list = records(5);
    let mut once: Mesh<Vec<InstanceTileRaw>> = Mesh::new(vec![], vec![], vec![]);
    once.replace_instance(list.clone(), list.len() as u32);
    let mut twice: Mesh<Vec<InstanceTileRaw>> = Mesh::new(vec![], vec![], vec![]);
    twice.replace_instance(list.clone(), list.len() as u32);
    twice.replace_instance(list.clone(), list.len() as u32);
    assert_eq!(once.draw_call(), twice.draw_call());
    assert_eq!(once.num_instances, twice.num_instances);
    assert_eq!(twice.instance_buffer, list);
    assert_eq!(twice.draw_call(), DrawCall { index_count: 6, instance_count: 5 });
}

#[test]
fn replacing_instances_reads_back_the_list() {
    let mut m: Mesh<Vec<InstanceTileRaw>> = Mesh::new(vec![], vec![], vec![]);
    assert_eq!((m.num_indices, m.num_instances), (6, 0));
    let list = records(3);
    m.replace_instance(list.clone(), 3);
    assert_eq!((m.num_instances, m.instance_buffer.clone()), (3, list));
    let shorter = records(1);
    m.replace_instance(shorter.clone(), 1);
    assert_eq!((m.num_instances, m.instance_buffer), (1, shorter));
}

#[test]
fn frame_without_texture_draws_no_tiles_but_clears_and_presents() {
    let s = state(4, 2);
    assert!(!s.is_ready());
    let p = s.plan_frame();
    assert_eq!(p.sprite.target, PassTarget::Offscreen);
    assert!(p.sprite.clear_to_black);
    assert_eq!(p.sprite.draw, None);
    assert_eq!(p.post.target, PassTarget::Surface);
    assert!(p.post.clear_to_black);
    assert_eq!(p.post.draw, Some(DrawCall { index_count: 6, instance_count: 1 }));
    assert!(p.present);
}

#[test]
fn frame_with_texture_draws_every_tile() {
    let mut s = state(4, 2);
    let data = s.instance_data();
    assert_eq!(data.len(), 8);
    s.install_instances(data.clone());
    assert_eq!(s.plan_frame().sprite.draw, None);
    s.bind_texture(7);
    assert!(s.is_ready());
    let p = s.plan_frame();
    assert_eq!(p.sprite.draw, Some(DrawCall { index_count: 6, instance_count: 8 }));
    assert_eq!(p.post.draw, Some(DrawCall { index_count: 6, instance_count: 1 }));
    assert_eq!(s.mesh.instance_buffer, data);
    s.bind_texture(8);
    assert_eq!(s.bind_group, Some(8));
}

#[test]
fn surface_faults_map_to_recoveries() {
    assert_eq!(surface_recovery(SurfaceFault::Lost), Recovery::Reconfigure);
    assert_eq!(surface_recovery(SurfaceFault::Outdated), Recovery::Reconfigure);
    assert_eq!(surface_recovery(SurfaceFault::Timeout), Recovery::SkipFrame);
    assert_eq!(surface_recovery(SurfaceFault::OutOfMemory), Recovery::Abort);
}

#[test]
fn surface_takes_first_choices_at_twice_the_size() {
    let s = negotiate_surface(&vec!['a', 'b'], &vec![3u8, 4], &vec![true], [640, 480]).unwrap();
    assert_eq!((s.format, s.present_mode, s.alpha_mode, s.width, s.height), ('a', 3, true, 1280, 960));
}

#[test]
fn surface_negotiation_errors() {
    let none: Vec<char> = vec![];
    assert_eq!(negotiate_surface(&none, &vec![1u8], &vec![1u8], [1, 1]).err(), Some(SetupError::NoFormat));
    assert_eq!(negotiate_surface(&vec!['a'], &Vec::<u8>::new(), &vec![1u8], [1, 1]).err(), Some(SetupError::NoPresentMode));
    assert_eq!(negotiate_surface(&vec!['a'], &vec![1u8], &Vec::<u8>::new(), [1, 1]).err(), Some(SetupError::NoAlphaMode));
    assert_eq!(negotiate_surface(&vec!['a'], &vec![1u8], &vec![1u8], [u32::MAX, 1]).err(), Some(SetupError::SizeOverflow));
    assert_eq!(negotiate_surface(&vec!['a'], &vec![1u8], &vec![1u8], [1, 1 << 31]).err(), Some(SetupError::SizeOverflow));
    assert!(negotiate_surface(&vec!['a'], &vec![1u8], &vec![1u8], [(1 << 31) - 1, 0]).is_ok());
}

#[test]
fn quad_geometry() {
    let (w, h) = cell_size(32, 24);
    assert_eq!(w, Fraction { num: 2, den: 32 });
    assert_eq!(h, Fraction { num: 2, den: 24 });
    let v = quad_vertices(w, h);
    let zero = Fraction { num: 0, den: 1 };
    let down = Fraction { num: -2, den: 24 };
    assert_eq!(
        v,
        vec![
            Vertex { x: zero, y: down, tex_u: 1, tex_v: 0 },
            Vertex { x: w, y: down, tex_u: 0, tex_v: 0 },
            Vertex { x: w, y: zero, tex_u: 0, tex_v: 1 },
            Vertex { x: zero, y: zero, tex_u: 1, tex_v: 1 },
        ]
    );
    assert_eq!(quad_indices(), vec![0, 1, 2, 2, 3, 0]);
}

#[test]
fn vertex_and_instance_layouts() {
    let v = Vertex::desc();
    assert_eq!((v.array_stride, v.step_mode), (20, StepMode::Vertex));
    assert_eq!(
        v.attributes,
        vec![
            VertexAttribute { offset: 0, shader_location: 0, format: VertexFormat::Float32x3 },
            VertexAttribute { offset: 12, shader_location: 1, format: VertexFormat::Float32x2 },
        ]
    );
    assert_eq!(v.attributes[1].offset + v.attributes[1].format.size(), 20);
    assert_eq!(std::mem::size_of::<[f32; 5]>(), 20);
    let i = InstanceTileRaw::desc();
    assert_eq!((i.array_stride, i.step_mode), (92, StepMode::Instance));
    let offsets: Vec<u64> = i.attributes.iter().map(|a| a.offset).collect();
    let locations: Vec<u32> = i.attributes.iter().map(|a| a.shader_location).collect();
    assert_eq!(offsets, vec![0, 16, 32, 48, 64, 80]);
    assert_eq!(locations, vec![3, 4, 5, 6, 7, 8]);
    assert_eq!(i.attributes[5].format, VertexFormat::Float32x3);
    assert_eq!(i.attributes[5].offset + i.attributes[5].format.size(), 92);
    assert_eq!(std::mem::size_of::<[f32; 23]>(), 92);
}

fn png(width: u32, height: u32) -> Vec<u8> {
    let mut img = image::RgbaImage::new(width, height);
    for (x, y, p) in img.enumerate_pixels_mut() {
        *p = image::Rgba([x as u8, y as u8, 200, 255]);
    }
    let mut out = Cursor::new(Vec::new());
    img.write_to(&mut out, image::ImageOutputFormat::Png).unwrap();
    out.into_inner()
}

#[test]
fn decoding_an_atlas_gives_its_pixels() {
    let bytes = png(3, 2);
    let t = TextureImage::decode(&bytes).unwrap();
    assert_eq!((t.width(), t.height()), (3, 2));
    assert_eq!(t.rgba().len(), 24);
    assert_eq!(&t.rgba()[..8], &[0, 0, 200, 255, 1, 0, 200, 255]);
    assert_eq!(&t.rgba()[12..16], &[0, 1, 200, 255]);
    let l = t.upload_layout();
    assert_eq!((l.width, l.height, l.bytes_per_row, l.rows_per_image), (3, 2, 12, 2));
}

#[test]
fn undecodable_bytes_are_an_error() {
    assert_eq!(TextureImage::decode(&[1, 2, 3, 4]).err(), Some(TextureError::Undecodable));
    assert_eq!(TextureImage::decode(&[]).err(), Some(TextureError::Undecodable));
    let mut truncated = png(4, 4);
    truncated.truncate(20);
    assert_eq!(TextureImage::decode(&truncated).err(), Some(TextureError::Undecodable));
}

#[test]
fn raw_rgba_is_checked() {
    assert_eq!(TextureImage::from_rgba(0, 2, vec![]).err(), Some(TextureError::Empty));
    assert_eq!(TextureImage::from_rgba(2, 0, vec![]).err(), Some(TextureError::Empty));
    assert_eq!(TextureImage::from_rgba(1 << 30, 1, vec![]).err(), Some(TextureError::RowTooWide));
    assert_eq!(TextureImage::from_rgba(2, 2, vec![0; 15]).err(), Some(TextureError::SizeMismatch));
    let t = TextureImage::from_rgba(2, 2, vec![9; 16]).unwrap();
    assert_eq!(t.upload_layout().bytes_per_row, 8);
    assert_eq!(t.rgba(), &vec![9; 16]);
}

