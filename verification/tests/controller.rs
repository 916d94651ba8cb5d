use radiors::Orientation;
use radiors::Size;
use radiors::Type;
use radiors::group::Group;
use radiors::group::GroupProps;
use radiors::group::Radio;
use radiors::group::RadioProps;
use radiors::group::render;

fn option_with_value(value: &str) -> RadioProps {
    RadioProps {
        value: value.to_string(),
        ..Default::default()
    }
}

fn platform_group() -> GroupProps {
    GroupProps {
        selected: "mac".to_string(),
        children: vec![
            option_with_value("mac"),
            option_with_value("windows"),
            option_with_value("linux"),
        ],
        ..Default::default()
    }
}

#[test]
fn default_radio_props() {
    let p = RadioProps::default();
    assert_eq!(p.value, "");
    assert_eq!(p.label, "");
    assert_eq!(p.src, "");
    assert!(!p.disabled);
    assert_eq!(p.size, Size::XSmall);
    assert_eq!(p.kind, Type::Plain);
    assert_eq!(
        p.input_style,
        "position: absolute; opacity: 0; pointer-events: none;"
    );
}

#[test]
fn default_group_props() {
    let g = GroupProps::default();
    assert_eq!(g.selected, "");
    assert_eq!(g.orientation, Orientation::Vertical);
    assert_eq!(g.style, "");
    assert_eq!(g.class, "");
    assert!(g.children.is_empty());
}

#[test]
fn radio_carries_fields_through() {
    let p = RadioProps {
        value: "mac".to_string(),
        label: "Mac".to_string(),
        src: "mac.png".to_string(),
        label_style: "ls".to_string(),
        label_class: "lc".to_string(),
        image_style: "is".to_string(),
        image_class: "ic".to_string(),
        input_class: "nc".to_string(),
        ..Default::default()
    };
    let r = Radio(&p, true);
    assert_eq!(r.value, "mac");
    assert_eq!(r.label, "Mac");
    assert_eq!(r.src, "mac.png");
    assert!(r.checked);
    assert!(!r.disabled);
    assert_eq!(r.label_style, "ls");
    assert_eq!(r.label_class, "lc");
    assert_eq!(r.image_style, "is");
    assert_eq!(r.image_class, "ic");
    assert_eq!(r.input_class, "nc");
    assert_eq!(
        r.input_style,
        "position: absolute; opacity: 0; pointer-events: none;"
    );
    assert!(r.has_image());
    let bare = Radio(&RadioProps::default(), false);
    assert!(!bare.has_image());
}

#[test]
fn style_layering_active_enabled() {
    let p = RadioProps {
        style: "b".to_string(),
        selected_style: "a".to_string(),
        disabled_style: "x".to_string(),
        ..Default::default()
    };
    let style = p.resolved_style(true);
    let slots = style.strip_suffix("padding: 5px;").unwrap();
    assert!(slots.contains('b'));
    assert!(slots.contains('a'));
    assert!(!slots.contains('x'));
    assert_eq!(style, "a  b   padding: 5px;");
}

#[test]
fn style_layering_disabled() {
    let p = RadioProps {
        style: "b".to_string(),
        selected_style: "a".to_string(),
        disabled_style: "x".to_string(),
        disabled: true,
        ..Default::default()
    };
    let inactive = p.resolved_style(false);
    let slots = inactive.strip_suffix("padding: 5px;").unwrap();
    assert!(slots.contains('b'));
    assert!(slots.contains('x'));
    assert!(!slots.contains('a'));
    assert_eq!(inactive, " x b   padding: 5px;");
    let active = p.resolved_style(true);
    let slots = active.strip_suffix("padding: 5px;").unwrap();
    assert!(slots.contains('b'));
    assert!(slots.contains('x'));
    assert_eq!(active, "a x b   padding: 5px;");
}

#[test]
fn style_slot_order() {
    let p = RadioProps {
        style: "base;".to_string(),
        selected_style: "sel;".to_string(),
        animation_style: "anim;".to_string(),
        kind: Type::Custom("teal".to_string()),
        size: Size::Small,
        ..Default::default()
    };
    assert_eq!(
        p.resolved_style(true),
        "sel;  base; anim; background-color: teal; color: white; padding: 7px;"
    );
}

#[test]
fn class_layering() {
    let p = RadioProps {
        class: "c".to_string(),
        selected_class: "sc".to_string(),
        disabled_class: "dc".to_string(),
        ..Default::default()
    };
    assert_eq!(p.resolved_class(true), "sc  c");
    assert_eq!(p.resolved_class(false), "  c");
    let d = RadioProps { disabled: true, ..p };
    assert_eq!(d.resolved_class(false), " dc c");
}

#[test]
fn hover_swaps_size_and_kind_and_keeps_animation() {
    let p = RadioProps {
        style: "base;".to_string(),
        animation_style: "anim;".to_string(),
        animation_class: "spin".to_string(),
        class: "c".to_string(),
        kind: Type::Custom("teal".to_string()),
        size: Size::Small,
        ..Default::default()
    };
    assert_eq!(
        p.hover_style(false),
        "  base; anim; padding: 7px; background-color: teal; color: white;"
    );
    assert_eq!(p.hover_class(false), "  c spin");
}

#[test]
fn leave_drops_animation() {
    let p = RadioProps {
        style: "base;".to_string(),
        animation_style: "anim;".to_string(),
        kind: Type::Custom("teal".to_string()),
        size: Size::Small,
        ..Default::default()
    };
    assert_eq!(
        p.leave_style(false),
        "  base; padding: 7px; background-color: teal; color: white;"
    );
}

#[test]
fn render_marks_only_matching_option() {
    let g = platform_group();
    let rendered = render(&g.children, &g.selected);
    assert_eq!(rendered.len(), 3);
    let checked: Vec<bool> = rendered.iter().map(|r| r.checked).collect();
    assert_eq!(checked, vec![true, false, false]);
    let values: Vec<&str> = rendered.iter().map(|r| r.value.as_str()).collect();
    assert_eq!(values, vec!["mac", "windows", "linux"]);
}

#[test]
fn render_unmatched_value_marks_none() {
    let g = platform_group();
    let rendered = render(&g.children, &"amiga".to_string());
    assert!(rendered.iter().all(|r| !r.checked));
}

#[test]
fn render_duplicate_values_first_match_wins() {
    let children = vec![
        option_with_value("mac"),
        option_with_value("mac"),
        option_with_value("linux"),
    ];
    let rendered = render(&children, &"mac".to_string());
    let checked: Vec<bool> = rendered.iter().map(|r| r.checked).collect();
    assert_eq!(checked, vec![true, false, false]);
}

#[test]
fn group_renders_container_and_options() {
    let mut g = platform_group();
    g.orientation = Orientation::Horizontal;
    g.style = "margin: 20px;".to_string();
    g.class = "grp".to_string();
    let r = Group(&g);
    assert_eq!(
        r.style,
        "display: flex; flex-direction: row; gap: 16px; margin: 20px;"
    );
    assert_eq!(r.class, "grp");
    assert_eq!(r.options.len(), 3);
    assert!(r.options[0].checked);
}

#[test]
fn group_without_orientation_renders_vertical() {
    let g = GroupProps::default();
    let r = Group(&g);
    assert_eq!(r.style, "display: flex; flex-direction: column; gap: 16px; ");
    assert!(r.style.contains("flex-direction: column"));
}

#[test]
fn select_enabled_updates_and_notifies_each_call() {
    let mut g = platform_group();
    let linux = g.children[2].clone();
    let outcome = g.select("linux", &linux);
    assert_eq!(outcome.notification.as_deref(), Some("linux"));
    assert_eq!(outcome.click.as_deref(), Some("linux"));
    assert_eq!(g.selected, "linux");
    let rendered = render(&g.children, &g.selected);
    let checked: Vec<bool> = rendered.iter().map(|r| r.checked).collect();
    assert_eq!(checked, vec![false, false, true]);

    // A repeated click on the same value notifies again; nothing is deduplicated.
    let again = g.select("linux", &linux);
    assert_eq!(again.notification.as_deref(), Some("linux"));
    assert_eq!(again.click.as_deref(), Some("linux"));
    assert_eq!(g.selected, "linux");
}

#[test]
fn select_disabled_is_a_complete_no_op() {
    let mut g = platform_group();
    g.children[1].disabled = true;
    let windows = g.children[1].clone();
    let outcome = g.select("windows", &windows);
    assert!(outcome.notification.is_none());
    assert!(outcome.click.is_none());
    assert_eq!(g.selected, "mac");
    let rendered = render(&g.children, &g.selected);
    let checked: Vec<bool> = rendered.iter().map(|r| r.checked).collect();
    assert_eq!(checked, vec![true, false, false]);
}

#[test]
fn rendered_disabled_flag_mirrors_descriptor() {
    let mut g = platform_group();
    g.children[1].disabled = true;
    let rendered = render(&g.children, &g.selected);
    assert!(!rendered[0].disabled);
    assert!(rendered[1].disabled);
    assert!(!rendered[2].disabled);
}
