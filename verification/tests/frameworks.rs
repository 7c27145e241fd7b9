use touchhle::frameworks::ns_autorelease_pool;
use touchhle::frameworks::opengles::{sync_context, GLESImplementation, State};
use touchhle::frameworks::ui_color;
use touchhle::frameworks::ui_graphics;

#[test]
fn implementations_by_short_name() {
    assert_eq!(
        GLESImplementation::from_short_name("gles1_on_gl2"),
        Ok(GLESImplementation::GLES1OnGL2)
    );
    assert_eq!(
        GLESImplementation::from_short_name("gles1_native"),
        Ok(GLESImplementation::GLES1Native)
    );
    assert_eq!(GLESImplementation::from_short_name("gles2"), Err(()));
    assert_eq!(GLESImplementation::from_short_name(""), Err(()));
    assert_eq!(GLESImplementation::from_short_name("GLES1_NATIVE"), Err(()));
    assert_eq!(GLESImplementation::from_short_name("gles1_native "), Err(()));
}

#[test]
fn implementations_in_order_of_preference() {
    assert_eq!(
        GLESImplementation::GLES1_IMPLEMENTATIONS,
        [GLESImplementation::GLES1Native, GLESImplementation::GLES1OnGL2]
    );
}

#[test]
fn implementations_describe_themselves() {
    assert_eq!(GLESImplementation::GLES1Native.description(), "Native OpenGL ES 1.1");
    assert_eq!(
        GLESImplementation::GLES1OnGL2.description(),
        "OpenGL ES 1.1 via touchHLE GLES1-on-GL2 layer"
    );
}

#[test]
fn a_thread_starts_without_context() {
    let mut state = State::default();
    assert_eq!(state.current_ctx_for_thread(3), None);
    state.set_current_ctx_for_thread(3, Some(0x100));
    assert_eq!(state.current_ctx_for_thread(3), Some(0x100));
    assert_eq!(state.current_ctx_for_thread(4), None);
    state.set_current_ctx_for_thread(3, None);
    assert_eq!(state.current_ctx_for_thread(3), None);
}

#[test]
fn the_context_is_made_current_when_it_is_not() {
    let mut state = State::default();
    state.set_current_ctx_for_thread(0, Some(0x100));
    state.set_current_ctx_for_thread(1, Some(0x200));
    // No thread's context is active yet.
    assert_eq!(sync_context(&mut state, false, 0), (0x100, true));
    state.set_current_ctx_thread(Some(0));
    assert_eq!(sync_context(&mut state, false, 0), (0x100, false));
    // Another thread's context is active.
    assert_eq!(sync_context(&mut state, false, 1), (0x200, true));
    // The window took the context away.
    assert_eq!(sync_context(&mut state, true, 0), (0x100, true));
    state.set_current_ctx_thread(None);
    assert_eq!(sync_context(&mut state, true, 1), (0x200, true));
}

#[test]
fn autorelease_pools_nest() {
    let mut state = ns_autorelease_pool::State::default();
    assert_eq!(state.current_pool(), None);
    state.push_pool(0x10);
    state.push_pool(0x20);
    assert_eq!(state.current_pool(), Some(0x20));
    assert!(state.pop_pool(0x20));
    assert_eq!(state.current_pool(), Some(0x10));
    // Draining a pool that is not the innermost one is noticed.
    state.push_pool(0x30);
    assert!(!state.pop_pool(0x10));
    assert_eq!(state.current_pool(), Some(0x10));
    assert!(state.pop_pool(0x10));
    assert_eq!(state.current_pool(), None);
    assert!(!state.pop_pool(0x10));
}

#[test]
fn graphics_contexts_nest() {
    let mut state = ui_graphics::State::default();
    assert!(state.is_empty());
    assert_eq!(state.current_context(), ui_graphics::nil);
    assert_eq!(ui_graphics::nil, 0);
    state.push_context(0x40);
    assert!(!state.is_empty());
    state.push_context(0x50);
    assert_eq!(state.current_context(), 0x50);
    assert_eq!(state.pop_context(), 0x50);
    assert_eq!(state.current_context(), 0x40);
    assert_eq!(state.pop_context(), 0x40);
    assert_eq!(state.current_context(), 0);
}

#[test]
fn standard_colors_are_remembered() {
    let mut state = ui_color::State::default();
    assert_eq!(state.standard_color(0x700), None);
    state.remember_standard_color(0x700, 0x9000);
    assert_eq!(state.standard_color(0x700), Some(0x9000));
    assert_eq!(state.standard_color(0x704), None);
    state.remember_standard_color(0x700, 0x9100);
    assert_eq!(state.standard_color(0x700), Some(0x9100));
}
