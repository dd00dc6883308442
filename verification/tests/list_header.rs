use client::list_header::{Container, DrawOp, ListHeader, Style, UiDensity};

type Op = DrawOp<&'static str, u32>;

fn plain_header() -> ListHeader<&'static str, u32> {
    ListHeader::new("Files".to_string())
}

fn depth_is_balanced(ops: &[Op]) -> bool {
    let mut depth = 0;
    for op in ops {
        match op {
            DrawOp::Open(_) => depth += 1,
            DrawOp::Close => depth -= 1,
            _ => {}
        }
        if depth < 0 {
            return false;
        }
    }
    depth == 0
}

fn index_of(ops: &[Op], op: &Op) -> Option<usize> {
    ops.iter().position(|other| other == op)
}

#[test]
fn new_header_has_a_label_only() {
    let header = plain_header();
    assert_eq!(header.label, "Files");
    assert_eq!(header.start_slot, None);
    assert_eq!(header.end_slot, None);
    assert_eq!(header.end_hover_slot, None);
    assert_eq!(header.toggle, None);
    assert_eq!(header.on_toggle, None);
    assert!(!header.inset);
    assert!(!header.selected);
}

#[test]
fn setters_set_their_field() {
    let header = plain_header()
        .toggle(Some(true))
        .on_toggle(7)
        .start_slot(Some("icon"))
        .end_slot(Some("button"))
        .end_hover_slot(Some("menu"))
        .inset(true)
        .toggle_state(true);
    assert_eq!(header.label, "Files");
    assert_eq!(header.toggle, Some(true));
    assert_eq!(header.on_toggle, Some(7));
    assert_eq!(header.start_slot, Some("icon"));
    assert_eq!(header.end_slot, Some("button"));
    assert_eq!(header.end_hover_slot, Some("menu"));
    assert!(header.inset);
    assert!(header.selected);
    assert_eq!(header.toggle(None).start_slot(None).toggle, None);
}

#[test]
fn plain_header_is_drawn() {
    let expected: Vec<Op> = vec![
        DrawOp::Open(Container::HFlex),
        DrawOp::Id("Files".to_string()),
        DrawOp::Style(Style::WidthFull),
        DrawOp::Style(Style::Relative),
        DrawOp::Group("list_header".to_string()),
        DrawOp::Open(Container::Div),
        DrawOp::Style(Style::Height(7)),
        DrawOp::Style(Style::Flex),
        DrawOp::Style(Style::Flex1),
        DrawOp::Style(Style::ItemsCenter),
        DrawOp::Style(Style::JustifyBetween),
        DrawOp::Style(Style::WidthFull),
        DrawOp::Style(Style::GapBase04),
        DrawOp::Open(Container::HFlex),
        DrawOp::Style(Style::GapBase04),
        DrawOp::Open(Container::Div),
        DrawOp::Id("label_container".to_string()),
        DrawOp::Style(Style::Flex),
        DrawOp::Style(Style::GapBase04),
        DrawOp::Style(Style::ItemsCenter),
        DrawOp::MutedLabel("Files".to_string()),
        DrawOp::Close,
        DrawOp::Close,
        DrawOp::Open(Container::HFlex),
        DrawOp::Close,
        DrawOp::Close,
        DrawOp::Close,
    ];
    assert_eq!(plain_header().render(UiDensity::Default), expected);
}

#[test]
fn full_header_is_drawn() {
    let header = plain_header()
        .toggle(Some(false))
        .on_toggle(7)
        .start_slot(Some("icon"))
        .end_slot(Some("button"))
        .end_hover_slot(Some("menu"))
        .inset(true)
        .toggle_state(true);
    let expected: Vec<Op> = vec![
        DrawOp::Open(Container::HFlex),
        DrawOp::Id("Files".to_string()),
        DrawOp::Style(Style::WidthFull),
        DrawOp::Style(Style::Relative),
        DrawOp::Group("list_header".to_string()),
        DrawOp::Open(Container::Div),
        DrawOp::Style(Style::Height(5)),
        DrawOp::Style(Style::PaddingX(2)),
        DrawOp::Style(Style::GhostElementSelected),
        DrawOp::Style(Style::Flex),
        DrawOp::Style(Style::Flex1),
        DrawOp::Style(Style::ItemsCenter),
        DrawOp::Style(Style::JustifyBetween),
        DrawOp::Style(Style::WidthFull),
        DrawOp::Style(Style::GapBase04),
        DrawOp::Open(Container::HFlex),
        DrawOp::Style(Style::GapBase04),
        DrawOp::Disclosure { id: "toggle".to_string(), is_open: false, on_toggle: Some(7) },
        DrawOp::Open(Container::Div),
        DrawOp::Id("label_container".to_string()),
        DrawOp::Style(Style::Flex),
        DrawOp::Style(Style::GapBase04),
        DrawOp::Style(Style::ItemsCenter),
        DrawOp::Child("icon"),
        DrawOp::MutedLabel("Files".to_string()),
        DrawOp::OnClick(7),
        DrawOp::Close,
        DrawOp::Close,
        DrawOp::Open(Container::HFlex),
        DrawOp::Child("button"),
        DrawOp::Close,
        DrawOp::Open(Container::Div),
        DrawOp::Style(Style::Absolute),
        DrawOp::Style(Style::Right0),
        DrawOp::VisibleOnHover("list_header".to_string()),
        DrawOp::Child("menu"),
        DrawOp::Close,
        DrawOp::Close,
        DrawOp::Close,
    ];
    assert_eq!(header.render(UiDensity::Comfortable), expected);
}

#[test]
fn height_follows_density() {
    for (density, height) in [
        (UiDensity::Compact, 7),
        (UiDensity::Default, 7),
        (UiDensity::Comfortable, 5),
    ] {
        let ops = plain_header().render(density);
        assert!(ops.contains(&DrawOp::Style(Style::Height(height))));
    }
}

#[test]
fn drawing_is_balanced() {
    for bits in 0..32u32 {
        let mut header = plain_header().inset(bits & 1 != 0).toggle_state(bits & 2 != 0);
        if bits & 4 != 0 {
            header = header.toggle(Some(true)).on_toggle(1);
        }
        if bits & 8 != 0 {
            header = header.start_slot(Some("icon")).end_slot(Some("button"));
        }
        if bits & 16 != 0 {
            header = header.end_hover_slot(Some("menu"));
        }
        assert!(depth_is_balanced(&header.render(UiDensity::Compact)));
    }
}

#[test]
fn hover_slot_is_drawn_over_end_slot() {
    let ops = plain_header()
        .end_slot(Some("button"))
        .end_hover_slot(Some("menu"))
        .render(UiDensity::Default);
    let end = index_of(&ops, &DrawOp::Child("button")).unwrap();
    let over = index_of(&ops, &DrawOp::Child("menu")).unwrap();
    assert!(end < over);
}
