//! The shader/uniform dispatcher: default against custom programs,
//! uniform sets, the render-parameter state and blend modes.

use processing::constants::BlendMode;
use processing::rendering::{BlendingFunction, LinearBlendingFactor};
use processing::shaders::UniformValue;
use processing::shapes::draw::WhichBuffer;
use processing::shapes::mould::Mould;
use processing::shapes::rect::Rect;
use processing::Screen;

fn fresh() -> Screen {
    Screen::new(100, 100, false, false, false)
}

fn unit_rect(s: &Screen) -> Rect {
    Rect::new(s, &vec![0], &vec![0], &vec![0], &vec![65536], &vec![65536])
}

#[test]
fn untextured_shape_uses_program_zero() {
    let s = fresh();
    let r = unit_rect(&s);
    let cmds = s.draw(&r);
    assert_eq!(cmds.len(), 2);
    assert_eq!(cmds[0].program, 0);
    assert_eq!(cmds[0].buffer, WhichBuffer::Fill);
    assert!(!cmds[0].use_shape_texture);
    assert_eq!(cmds[1].program, 0);
    assert_eq!(cmds[1].buffer, WhichBuffer::Stroke);
}

#[test]
fn textured_shape_uses_program_one_and_binds_its_texture() {
    let s = fresh();
    let r = unit_rect(&s).attach_texture(11);
    let cmds = s.draw(&r);
    assert_eq!(cmds[0].program, 1);
    assert!(cmds[0].use_shape_texture);
    // the uniform set carries the texture then the matrix, under the fixed names
    assert_eq!(cmds[0].uniforms.len(), 2);
    assert_eq!(cmds[0].uniforms[0].0, "tex");
    assert_eq!(cmds[0].uniforms[0].1, UniformValue::Texture(11));
    assert_eq!(cmds[0].uniforms[1].0, "MVP");
}

#[test]
fn every_default_uniform_set_carries_the_current_matrix() {
    let mut s = fresh();
    s.translate(123456, 0, 0);
    let m = s.matrices.curr_matrix;
    let r = unit_rect(&s);
    let cmds = s.draw(&r);
    assert_eq!(cmds[0].uniforms.len(), 1);
    assert_eq!(cmds[0].uniforms[0].0, "MVP");
    assert_eq!(cmds[0].uniforms[0].1, UniformValue::Matrix(m));
}

#[test]
fn custom_shader_overrides_dispatch_until_reset() {
    let mut s = fresh();
    assert_eq!(s.shader_bank_len(), 4);
    let mut info = s.register_frag_shader();
    assert_eq!(s.shader_bank_len(), 5);
    assert_eq!(info.get_idx(), 4);
    info.set("strength", UniformValue::Scalar(32768));
    s.shader(&info);
    let r = unit_rect(&s);
    let cmds = s.draw(&r);
    assert_eq!(cmds[0].program, 4);
    // the snapshot travels: seeded matrix entry plus the set value
    assert_eq!(cmds[0].uniforms.len(), 2);
    assert_eq!(cmds[0].uniforms[0].0, "MVP");
    assert_eq!(cmds[0].uniforms[1].0, "strength");
    assert_eq!(cmds[0].uniforms[1].1, UniformValue::Scalar(32768));
    s.reset_shader();
    let cmds = s.draw(&r);
    assert_eq!(cmds[0].program, 0);
    assert_eq!(cmds[0].uniforms.len(), 1);
}

#[test]
fn texture_bindings_replace_by_name() {
    let mut s = fresh();
    let mut info = s.register_frag_shader();
    info.add_to_texture_list("noise", 3);
    info.add_to_texture_list("grain", 4);
    info.add_to_texture_list("noise", 8);
    let l = info.get_texture_list();
    assert_eq!(l.len(), 2);
    assert_eq!(l[0], ("noise".to_string(), 8));
    assert_eq!(l[1], ("grain".to_string(), 4));
    s.shader(&info);
    let r = unit_rect(&s);
    let cmds = s.draw(&r);
    assert_eq!(cmds[0].textures.len(), 2);
    assert_eq!(cmds[0].textures[0].1, 8);
}

#[test]
fn mould_draws_with_its_own_shader() {
    let mut s = fresh();
    let info = s.register_frag_shader();
    let r = unit_rect(&s);
    let m = Mould::new(&r, info);
    let cmds = s.draw_mould(&m);
    assert_eq!(cmds.len(), 2);
    assert_eq!(cmds[0].program, 4);
    assert!(!cmds[0].use_shape_texture);
    // the ambient dispatch state is untouched
    let plain = s.draw(&r);
    assert_eq!(plain[0].program, 0);
}

#[test]
fn fill_and_stroke_flags_gate_the_passes() {
    let mut s = fresh();
    let r = unit_rect(&s);
    s.fill_off();
    let cmds = s.draw(&r);
    assert_eq!(cmds.len(), 1);
    assert_eq!(cmds[0].buffer, WhichBuffer::Stroke);
    s.stroke_off();
    assert_eq!(s.draw(&r).len(), 0);
    s.fill_on();
    let cmds = s.draw(&r);
    assert_eq!(cmds.len(), 1);
    assert_eq!(cmds[0].buffer, WhichBuffer::Fill);
}

#[test]
fn stroke_weight_travels_in_the_draw_params() {
    let mut s = fresh();
    s.stroke_weight(262144);
    let r = unit_rect(&s);
    let cmds = s.draw(&r);
    assert_eq!(cmds[0].params.point_size, 262144);
    assert_eq!(cmds[0].params.line_width, 262144);
}

#[test]
fn blend_mode_add_uses_source_alpha_and_one() {
    let mut s = fresh();
    s.blend_mode(BlendMode::Add);
    let b = s.current_draw_params().blend;
    assert_eq!(
        b.color,
        BlendingFunction::Addition {
            source: LinearBlendingFactor::SourceAlpha,
            destination: LinearBlendingFactor::One,
        }
    );
    s.blend_mode(BlendMode::Replace);
    let b = s.current_draw_params().blend;
    assert_eq!(b.color, BlendingFunction::AlwaysReplace);
    assert_eq!(b.alpha, BlendingFunction::AlwaysReplace);
    s.blend_mode(BlendMode::Lightest);
    assert_eq!(s.current_draw_params().blend.color, BlendingFunction::Max);
}

#[test]
fn framebuffer_draws_ignore_the_custom_shader() {
    let mut s = fresh();
    let info = s.register_frag_shader();
    s.shader(&info);
    let r = unit_rect(&s);
    let cmds = s.draw_onto_framebuffer(&r);
    assert_eq!(cmds.len(), 2);
    assert_eq!(cmds[0].program, 0);
    assert!(!cmds[0].params.depth_write);
    assert!(!cmds[0].params.multisampling);
}

#[test]
fn mould_framebuffer_draws_use_default_params() {
    let mut s = fresh();
    let info = s.register_frag_shader();
    let r = unit_rect(&s);
    let m = Mould::new(&r, info);
    let cmds = s.draw_mould_onto_framebuffer(&m);
    assert_eq!(cmds.len(), 2);
    assert_eq!(cmds[0].program, 4);
    assert!(cmds[0].params.multisampling);
    assert!(!cmds[0].params.depth_write);
}

#[test]
fn smoothing_toggles_in_the_params() {
    let mut s = fresh();
    assert!(!s.current_draw_params().smooth);
    s.smooth();
    assert!(s.current_draw_params().smooth);
    s.no_smooth();
    assert!(!s.current_draw_params().smooth);
}
