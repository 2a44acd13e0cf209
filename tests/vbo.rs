use glct::error::GlError;
use glct::live::LiveSet;
use glct::vbo::{Vao, Vbo};
use glct::AsRaw;

#[test]
fn six_floats_take_twenty_four_bytes() {
    assert_eq!(Vbo::data_size(6), Some(24));
    assert_eq!(Vbo::data_size(0), Some(0));
    assert_eq!(Vbo::data_size(1), Some(4));
}

#[test]
fn oversized_upload_has_no_size() {
    assert_eq!(Vbo::data_size(usize::MAX), None);
    let largest = (isize::MAX as usize) / 4;
    assert_eq!(Vbo::data_size(largest), Some((largest * 4) as isize));
    assert_eq!(Vbo::data_size(largest + 1), None);
}

#[test]
fn generated_pair_is_owned_together() {
    let mut arrays = LiveSet::new();
    let mut buffers = LiveSet::new();
    let vao = Vao::gen(&mut arrays, &mut buffers, 1, 2).unwrap();
    assert_eq!(vao.as_raw(), 1);
    assert_eq!(vao.vbo().as_raw(), 2);
    assert!(arrays.contains(1));
    assert!(buffers.contains(2));
}

#[test]
fn zero_ids_are_a_native_error() {
    let mut arrays = LiveSet::new();
    let mut buffers = LiveSet::new();
    assert_eq!(Vao::gen(&mut arrays, &mut buffers, 0, 2).unwrap_err(), GlError::NativeApi);
    assert_eq!(Vao::gen(&mut arrays, &mut buffers, 1, 0).unwrap_err(), GlError::NativeApi);
    assert_eq!(arrays.len(), 0);
    assert_eq!(buffers.len(), 0);
}

#[test]
fn live_ids_are_refused() {
    let mut arrays = LiveSet::new();
    let mut buffers = LiveSet::new();
    let _a = Vao::gen(&mut arrays, &mut buffers, 1, 1).unwrap();
    assert_eq!(Vao::gen(&mut arrays, &mut buffers, 1, 2).unwrap_err(), GlError::NativeApi);
    assert_eq!(Vao::gen(&mut arrays, &mut buffers, 2, 1).unwrap_err(), GlError::NativeApi);
    assert_eq!(arrays.len(), 1);
    assert_eq!(buffers.len(), 1);
    let b = Vao::gen(&mut arrays, &mut buffers, 2, 2).unwrap();
    assert_eq!(b.as_raw(), 2);
}

#[test]
fn releasing_a_vertex_array_frees_both_ids() {
    let mut arrays = LiveSet::new();
    let mut buffers = LiveSet::new();
    let vao = Vao::gen(&mut arrays, &mut buffers, 3, 4).unwrap();
    assert_eq!(vao.release(&mut arrays, &mut buffers), (3, 4));
    assert_eq!(arrays.len(), 0);
    assert_eq!(buffers.len(), 0);
}
