use pomorusto::layout::{split_layout, Region};
use pomorusto::render::{plan_frame, TextStyle, WidgetColor};
use pomorusto::timer::tick;

fn area(width: u16, height: u16) -> Region {
    Region { x: 0, y: 0, width, height }
}

#[test]
fn split_insets_by_one_cell_and_parts_thirty_seventy() {
    let (gauge, list) = split_layout(area(80, 24));
    assert_eq!(gauge, Region { x: 1, y: 1, width: 78, height: 6 });
    assert_eq!(list, Region { x: 1, y: 7, width: 78, height: 16 });
}

#[test]
fn split_regions_touch_without_overlapping() {
    for height in 0..50u16 {
        let (gauge, list) = split_layout(area(80, height));
        assert_eq!(gauge.y + gauge.height, list.y);
        assert_eq!(gauge.width, list.width);
        assert_eq!(gauge.x, list.x);
    }
}

#[test]
fn split_of_a_tiny_area_is_empty() {
    let (gauge, list) = split_layout(area(1, 1));
    assert_eq!(gauge.height, 0);
    assert_eq!(gauge.width, 0);
    assert_eq!(list.height, 0);
    assert_eq!(list.width, 0);
}

#[test]
fn split_respects_the_offset_corner() {
    let offset = Region { x: 4, y: 3, width: 10, height: 12 };
    let (gauge, list) = split_layout(offset);
    assert_eq!(gauge, Region { x: 5, y: 4, width: 8, height: 3 });
    assert_eq!(list, Region { x: 5, y: 7, width: 8, height: 7 });
}

#[test]
fn frame_plan_names_and_styles_the_widgets() {
    let tasks: Vec<String> = Vec::new();
    let plan = plan_frame(area(80, 24), 30, &tasks);
    assert_eq!(plan.gauge.title, "Time Remaining");
    assert_eq!(plan.gauge.percent, 30);
    assert_eq!(
        plan.gauge.style,
        TextStyle { fg: WidgetColor::Cyan, bg: WidgetColor::Black, italic: true }
    );
    assert_eq!(plan.list.title, "Tasks");
    assert_eq!(
        plan.list.style,
        TextStyle { fg: WidgetColor::White, bg: WidgetColor::Terminal, italic: false }
    );
    assert_eq!(
        plan.list.highlight_style,
        TextStyle { fg: WidgetColor::Terminal, bg: WidgetColor::Terminal, italic: true }
    );
    assert_eq!(plan.list.highlight_symbol, ">>");
    assert!(plan.list.items.is_empty());
}

#[test]
fn frame_plan_places_widgets_where_the_split_says() {
    let tasks: Vec<String> = Vec::new();
    let (gauge_region, list_region) = split_layout(area(80, 24));
    let plan = plan_frame(area(80, 24), 0, &tasks);
    assert_eq!(plan.gauge.region, gauge_region);
    assert_eq!(plan.list.region, list_region);
}

#[test]
fn every_frame_lists_the_two_tasks_in_order() {
    let tasks = vec!["write report".to_string(), "review PR".to_string()];
    let duration: u64 = 5;
    let mut elapsed: u64 = 0;
    let mut frames: u32 = 0;
    loop {
        let t = tick(elapsed, duration);
        match t.render {
            Some(percent) => {
                let plan = plan_frame(area(80, 24), percent, &tasks);
                assert_eq!(plan.list.items, tasks);
                frames += 1;
            }
            None => break,
        }
        elapsed += 1;
    }
    assert_eq!(frames, 5);
}
