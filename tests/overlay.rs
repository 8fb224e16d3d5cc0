use drag_overlay::geometry::{anchored_origin, card_frame, follow_origin, Frame, Origin};
use drag_overlay::markup::{card_markup, escape_html, escape_template, injection_script, CARD_HEAD, CARD_TAIL};
use drag_overlay::overlay::{OverlayController, OverlayError};

fn shown(controller: &mut OverlayController, label: &str, x: i32, y: i32, w: u32, h: u32) {
    let plan = controller.begin_create(label, x, y, w, h);
    assert_eq!(controller.finish_create(plan, Ok(())), Ok(()));
}

#[test]
fn replacement_leaves_only_the_latest_overlay() {
    let mut c = OverlayController::new();
    shown(&mut c, "A", 0, 0, 100, 36);
    let plan = c.begin_create("B", 10, 10, 120, 40);
    assert!(plan.close_existing);
    assert!(!c.is_present());
    assert_eq!(c.finish_create(plan, Ok(())), Ok(()));
    assert!(c.is_present());
    assert_eq!(c.label(), Some("B".to_string()));
    assert_eq!(c.frame(), Some(Frame { left: -10, top: -10, width: 120, height: 40 }));
}

#[test]
fn first_create_closes_nothing() {
    let mut c = OverlayController::new();
    let plan = c.begin_create("A", 0, 0, 100, 36);
    assert!(!plan.close_existing);
    assert_eq!(plan.frame, Frame { left: -20, top: -18, width: 100, height: 36 });
}

#[test]
fn destroy_without_overlay_is_a_noop() {
    let mut c = OverlayController::new();
    assert!(!c.destroy());
    assert!(!c.is_present());
    assert!(!c.destroy());
    assert!(!c.is_present());
}

#[test]
fn destroy_twice_is_destroy_once() {
    let mut c = OverlayController::new();
    shown(&mut c, "task", 5, 5, 80, 30);
    assert!(c.destroy());
    assert!(!c.is_present());
    assert!(!c.destroy());
    assert_eq!(c.frame(), None);
    assert_eq!(c.label(), None);
}

#[test]
fn move_without_overlay_is_a_noop() {
    let mut c = OverlayController::new();
    assert_eq!(c.plan_move(100, 100, Some(40)), None);
    assert_eq!(c.finish_move(Origin { left: 1, top: 2 }, Ok(())), Ok(()));
    assert!(!c.is_present());
}

#[test]
fn create_then_move_follows_the_positioning_law() {
    let mut c = OverlayController::new();
    shown(&mut c, "row", 200, 300, 150, 36);
    assert_eq!(c.frame(), Some(Frame { left: 180, top: 282, width: 150, height: 36 }));
    let to = c.plan_move(50, 60, Some(44)).unwrap();
    assert_eq!(to, Origin { left: 30, top: 38 });
    assert_eq!(c.finish_move(to, Ok(())), Ok(()));
    assert_eq!(c.frame(), Some(Frame { left: 30, top: 38, width: 150, height: 36 }));
    assert_eq!(c.label(), Some("row".to_string()));
}

#[test]
fn move_with_unknown_height_uses_the_fallback() {
    assert_eq!(follow_origin(0, 0, None), Origin { left: -20, top: -18 });
    assert_eq!(follow_origin(-5, 100, Some(10)), Origin { left: -25, top: 95 });
}

#[test]
fn odd_height_leaves_the_extra_unit_below() {
    assert_eq!(anchored_origin(0, 10, 37), Origin { left: -20, top: -8 });
    assert_eq!(card_frame(i32::MIN, i32::MAX, u32::MAX, u32::MAX).left, i32::MIN as i64 - 20);
    assert_eq!(
        card_frame(i32::MIN, i32::MAX, u32::MAX, u32::MAX).top,
        i32::MAX as i64 - (u32::MAX / 2) as i64
    );
}

#[test]
fn failed_move_keeps_the_old_position() {
    let mut c = OverlayController::new();
    shown(&mut c, "row", 20, 20, 100, 40);
    let to = c.plan_move(70, 70, Some(40)).unwrap();
    let r = c.finish_move(to, Err("refused".to_string()));
    assert_eq!(r, Err(OverlayError::WindowMoveFailed("refused".to_string())));
    assert_eq!(r.unwrap_err().message(), "refused".to_string());
    assert_eq!(c.frame(), Some(Frame { left: 0, top: 0, width: 100, height: 40 }));
}

#[test]
fn failed_create_reports_and_leaves_no_overlay() {
    let mut c = OverlayController::new();
    shown(&mut c, "old", 0, 0, 100, 36);
    let plan = c.begin_create("new", 0, 0, 100, 36);
    let r = c.finish_create(plan, Err("out of resources".to_string()));
    assert_eq!(r, Err(OverlayError::WindowCreationFailed("out of resources".to_string())));
    assert_eq!(r.unwrap_err().message(), "out of resources".to_string());
    assert!(!c.is_present());
    assert_eq!(c.plan_move(0, 0, None), None);
}

#[test]
fn overlay_never_takes_pointer_or_focus() {
    let mut c = OverlayController::new();
    let plan = c.begin_create("x", 0, 0, 10, 10);
    assert!(plan.style.click_through);
    assert!(!plan.style.focused);
    assert!(plan.style.always_on_top);
    assert!(plan.style.transparent);
    assert!(!plan.style.decorations);
    assert!(!plan.style.shadow);
    assert!(plan.style.skip_taskbar);
    assert!(!plan.style.resizable);
    assert!(!plan.style.visible_at_build);
}

#[test]
fn long_label_is_cut_with_an_ellipsis_not_wrapped() {
    let long = "a very long task title that does not fit on the small card at all";
    let mut c = OverlayController::new();
    let plan = c.begin_create(long, 0, 0, 120, 36);
    assert_eq!(plan.frame.width, 120);
    assert_eq!(plan.frame.height, 36);
    let doc = card_markup(long);
    assert!(doc.contains(".content{flex:1;overflow:hidden;text-overflow:ellipsis;white-space:nowrap}"));
    assert!(doc.contains(&format!("<span class=\"content\">{}</span>", long)));
}

#[test]
fn html_special_characters_are_escaped() {
    assert_eq!(escape_html("<b>\"Tom\" & 'Jerry'</b>"), "&lt;b&gt;&quot;Tom&quot; &amp; &#39;Jerry&#39;&lt;/b&gt;");
    assert_eq!(escape_html(""), "");
    assert_eq!(escape_html("plain \u{22ee} text"), "plain \u{22ee} text");
}

#[test]
fn template_special_characters_are_escaped() {
    assert_eq!(escape_template("a`b${c}\\d"), "a\\`b\\${c}\\\\d");
    assert_eq!(escape_template(""), "");
}

#[test]
fn card_markup_wraps_the_escaped_label() {
    let doc = card_markup("<i>");
    assert_eq!(doc, format!("{}&lt;i&gt;{}", CARD_HEAD, CARD_TAIL));
    assert!(doc.starts_with("<!DOCTYPE html>"));
    assert!(doc.contains("<div class=\"grip\">\u{22ee}\u{22ee}</div>"));
    assert!(doc.contains("<div class=\"checkbox\"></div>"));
}

#[test]
fn injection_script_writes_the_document() {
    assert_eq!(injection_script("<p>`$x`</p>"), "document.write(`<p>\\`\\$x\\`</p>`); document.close();");
}

#[test]
fn plan_carries_label_and_script() {
    let mut c = OverlayController::new();
    let plan = c.begin_create("a&b", 0, 0, 10, 10);
    assert_eq!(plan.label, "a&b".to_string());
    assert_eq!(plan.script, injection_script(&card_markup("a&b")));
    assert!(plan.script.contains("<span class=\"content\">a&amp;b</span>"));
}
