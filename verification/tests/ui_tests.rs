use cfuvrand::layout::{split_columns, split_main_status, Region};
use cfuvrand::ui::{external_page_lines, intro_text, status_line, vertical_center, Page};

#[test]
fn example_panes_split_evenly() {
    let area = Region { x: 0, y: 0, width: 80, height: 24 };
    let (left, right) = split_columns(area);
    assert_eq!(left.width + right.width, 80);
    assert_eq!(left.width, right.width);
    assert_eq!(right.x, left.x + left.width);
    assert_eq!(left.height, 24);
    assert_eq!(right.height, 24);
}

#[test]
fn odd_width_split_differs_by_one() {
    let area = Region { x: 3, y: 1, width: 5, height: 2 };
    let (left, right) = split_columns(area);
    assert_eq!(left.width + right.width, 5);
    assert_eq!(left.width.abs_diff(right.width), 1);
    assert_eq!(left.x, 3);
    assert_eq!(right.x, left.x + left.width);
}

#[test]
fn main_area_keeps_all_but_status_row() {
    let area = Region { x: 0, y: 0, width: 80, height: 24 };
    let (main, status) = split_main_status(area);
    assert_eq!(main.height, 23);
    assert_eq!(status.height, 1);
    assert_eq!(status.y, 23);
    assert_eq!(main.width, 80);
    assert_eq!(status.width, 80);
}

#[test]
fn empty_area_splits_into_empty_rows() {
    let area = Region { x: 0, y: 0, width: 10, height: 0 };
    let (main, status) = split_main_status(area);
    assert_eq!(main.height, 0);
    assert_eq!(status.height, 0);
}

#[test]
fn vertical_padding_saturates() {
    let text = intro_text();
    assert_eq!(vertical_center(&text, 24), 10);
    assert_eq!(vertical_center(&text, 9), 2);
    assert_eq!(vertical_center(&text, 4), 0);
    assert_eq!(vertical_center(&text, 2), 0);
    assert_eq!(vertical_center(&text, 0), 0);
}

#[test]
fn missing_resource_falls_back_to_banner() {
    let (lines, diagnostic) = external_page_lines(None);
    assert!(diagnostic);
    assert_eq!(lines, intro_text());
}

#[test]
fn loaded_resource_is_shown_unchanged() {
    let content = vec!["one".to_string(), "two".to_string()];
    let (lines, diagnostic) = external_page_lines(Some(content.clone()));
    assert!(!diagnostic);
    assert_eq!(lines, content);
}

#[test]
fn banner_lines_are_fixed() {
    let expected = vec![
        "CFUVRand - CFU Vernandskogo Randomizer".to_string(),
        "".to_string(),
        "version 0.1.0".to_string(),
        "CFUVRand is open source and freely distributable".to_string(),
    ];
    assert_eq!(intro_text(), expected);
}

#[test]
fn default_page_is_banner_text() {
    match Page::default() {
        Page::Text(lines) => assert_eq!(lines, intro_text()),
        _ => panic!("the default page must show the banner"),
    }
}

#[test]
fn status_line_is_fixed() {
    assert_eq!(status_line(), "0,0-1     All");
}
