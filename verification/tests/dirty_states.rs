use kui::lazy_linear_layout::{self, plan_refresh, RefreshPlan};
use kui::text::{self, plan_build, BuildPlan};
use kui::window_state::{self, plan_render, plan_surface_render, restore_root_element, RenderPlan, SurfacePlan};

#[test]
fn window_dirt_only_grows() {
    let mut d = window_state::DirtyState::default();
    assert_eq!(d, window_state::DirtyState::Clean);
    d.add_dirt(window_state::DirtyState::Surface);
    d.add_dirt(window_state::DirtyState::Layout);
    assert_eq!(d, window_state::DirtyState::Surface);
    assert!(d.at_least(window_state::DirtyState::Layout));
    assert_eq!(window_state::DirtyState::Layout.level(), 1);
}

#[test]
fn window_render_plan() {
    let mut d = window_state::DirtyState::Surface;
    assert_eq!(
        plan_render(0, 10, &mut d),
        RenderPlan { skip: true, reconfigure_surface: false, relayout: false }
    );
    assert_eq!(d, window_state::DirtyState::Surface);
    assert_eq!(
        plan_render(10, 10, &mut d),
        RenderPlan { skip: false, reconfigure_surface: true, relayout: true }
    );
    assert_eq!(d, window_state::DirtyState::Clean);
    let mut d = window_state::DirtyState::Layout;
    assert_eq!(
        plan_render(3, 4, &mut d),
        RenderPlan { skip: false, reconfigure_surface: false, relayout: true }
    );
    assert_eq!(
        plan_render(3, 4, &mut d),
        RenderPlan { skip: false, reconfigure_surface: false, relayout: false }
    );
}

#[test]
fn surface_is_configured_once_when_dirty() {
    let mut dirty = true;
    assert_eq!(plan_surface_render(5, 0, &mut dirty), SurfacePlan { skip: true, configure: false });
    assert!(dirty);
    assert_eq!(plan_surface_render(5, 5, &mut dirty), SurfacePlan { skip: false, configure: true });
    assert!(!dirty);
    assert_eq!(plan_surface_render(5, 5, &mut dirty), SurfacePlan { skip: false, configure: false });
}

#[test]
fn root_element_replaced_during_a_callback_wins() {
    let mut slot: Option<&str> = None;
    restore_root_element(&mut slot, "old");
    assert_eq!(slot, Some("old"));
    let mut slot = Some("new");
    restore_root_element(&mut slot, "old");
    assert_eq!(slot, Some("new"));
}

#[test]
fn text_build_steps() {
    let mut d = text::DirtyState::Text;
    assert_eq!(plan_build(&mut d), BuildPlan { rebuild_text: true, break_lines: true, align: true });
    assert_eq!(d, text::DirtyState::Clean);
    assert_eq!(plan_build(&mut d), BuildPlan { rebuild_text: false, break_lines: false, align: false });
    d.set_alignment();
    assert_eq!(d, text::DirtyState::Alignment);
    assert_eq!(plan_build(&mut d), BuildPlan { rebuild_text: false, break_lines: false, align: true });
    d.set_size(false);
    assert_eq!(d, text::DirtyState::Clean);
    d.set_size(true);
    assert_eq!(d, text::DirtyState::Lines);
    d.set_alignment();
    assert_eq!(d, text::DirtyState::Lines);
    d.set_break_lines();
    assert_eq!(plan_build(&mut d), BuildPlan { rebuild_text: false, break_lines: true, align: true });
    d.notify_text_changed();
    d.add_dirt(text::DirtyState::Alignment);
    assert_eq!(d, text::DirtyState::Text);
}

#[test]
fn lazy_layout_refresh_plan() {
    let mut d = lazy_linear_layout::DirtyState::Clean;
    assert_eq!(plan_refresh(&mut d), RefreshPlan { refresh: false, reposition: false, resize: false });
    d.add_dirt(lazy_linear_layout::DirtyState::Position);
    assert_eq!(plan_refresh(&mut d), RefreshPlan { refresh: true, reposition: true, resize: false });
    assert_eq!(d, lazy_linear_layout::DirtyState::Clean);
    d.add_dirt(lazy_linear_layout::DirtyState::Size);
    d.add_dirt(lazy_linear_layout::DirtyState::Position);
    assert_eq!(d, lazy_linear_layout::DirtyState::Size);
    assert_eq!(plan_refresh(&mut d), RefreshPlan { refresh: true, reposition: true, resize: true });
}
