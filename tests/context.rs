use glct::context::{
    context_attribs, swap_interval, BootStep, PixelFormatRequest, CONTEXT_CORE_PROFILE_BIT,
    CONTEXT_MAJOR_VERSION, CONTEXT_MINOR_VERSION, CONTEXT_PROFILE_MASK, MAJOR_VERSION,
    MINOR_VERSION,
};
use glct::error::GlError;

#[test]
fn every_step_succeeding_reaches_ready() {
    let mut s = BootStep::start();
    assert_eq!(s, BootStep::GetDevice);
    let expected = [
        BootStep::SetPixelFormat,
        BootStep::CreateLegacy,
        BootStep::LoadCreateContext,
        BootStep::CreateCore,
        BootStep::LoadSwapInterval,
        BootStep::Ready,
    ];
    for e in expected {
        assert!(!s.is_done());
        s = s.advance(true);
        assert_eq!(s, e);
    }
    assert!(s.is_done());
    assert_eq!(s.advance(true), BootStep::Ready);
}

fn fail_at(n: usize) -> BootStep {
    let mut s = BootStep::start();
    for _ in 0..n {
        s = s.advance(true);
    }
    s.advance(false)
}

#[test]
fn failed_native_steps_are_native_errors() {
    assert_eq!(fail_at(0), BootStep::Failed(GlError::NativeApi));
    assert_eq!(fail_at(1), BootStep::Failed(GlError::NativeApi));
    assert_eq!(fail_at(2), BootStep::Failed(GlError::NativeApi));
    assert_eq!(fail_at(4), BootStep::Failed(GlError::NativeApi));
}

#[test]
fn missing_extensions_are_reported_as_such() {
    assert_eq!(fail_at(3), BootStep::Failed(GlError::ExtensionUnavailable));
    assert_eq!(fail_at(5), BootStep::Failed(GlError::ExtensionUnavailable));
}

#[test]
fn failure_is_final() {
    let s = fail_at(1);
    assert!(s.is_done());
    assert_eq!(s.advance(true), BootStep::Failed(GlError::NativeApi));
}

#[test]
fn core_profile_attributes() {
    assert_eq!(
        context_attribs(MAJOR_VERSION, MINOR_VERSION),
        vec![0x2091, 3, 0x2092, 2, 0x9126, 1, 0]
    );
    assert_eq!(
        context_attribs(4, 6),
        vec![CONTEXT_MAJOR_VERSION, 4, CONTEXT_MINOR_VERSION, 6, CONTEXT_PROFILE_MASK, CONTEXT_CORE_PROFILE_BIT, 0]
    );
}

#[test]
fn pixel_format_requirements() {
    let p = PixelFormatRequest::required();
    assert_eq!(p.flags, 0x25);
    assert_eq!(p.color_bits, 32);
    assert_eq!(p.depth_bits, 24);
    assert_eq!(p.stencil_bits, 8);
}

#[test]
fn swap_interval_values() {
    assert_eq!(swap_interval(true), 1);
    assert_eq!(swap_interval(false), 0);
}
