use todo_tui::layout::{can_split, panes, part_inside, split, Area, Direction, Extent};
use todo_tui::todos::popup::{centered_rect, centering_extents, Popup};

fn area(x: u16, y: u16, width: u16, height: u16) -> Area {
    Area { x, y, width, height }
}

#[test]
fn a_horizontal_split_in_percentages() {
    let parts = split(
        Direction::Horizontal,
        0,
        &vec![Extent::Percentage(20), Extent::Percentage(80)],
        area(0, 0, 100, 10),
    )
    .expect("the area can be split");
    assert_eq!(parts, vec![area(0, 0, 20, 10), area(20, 0, 80, 10)]);
}

#[test]
fn a_vertical_split_in_percentages() {
    let parts = split(
        Direction::Vertical,
        0,
        &vec![Extent::Percentage(40), Extent::Percentage(20), Extent::Percentage(40)],
        area(3, 5, 70, 50),
    )
    .expect("the area can be split");
    assert_eq!(parts, vec![area(3, 5, 70, 20), area(3, 25, 70, 10), area(3, 35, 70, 20)]);
}

#[test]
fn a_split_in_lengths_that_fill_the_area() {
    let parts = split(
        Direction::Vertical,
        1,
        &vec![Extent::Length(3), Extent::Length(5)],
        area(0, 0, 12, 10),
    )
    .expect("the area can be split");
    assert_eq!(parts, vec![area(1, 1, 10, 3), area(1, 4, 10, 5)]);
}

#[test]
fn a_split_into_nothing() {
    let parts = split(Direction::Vertical, 0, &Vec::new(), area(0, 0, 10, 10));
    assert_eq!(parts, Some(Vec::new()));
}

#[test]
fn a_percentage_that_leaves_the_range_is_refused() {
    let sizes = vec![Extent::Percentage(20), Extent::Percentage(80)];
    assert!(can_split(Direction::Horizontal, 0, &sizes, area(0, 0, 819, 10)));
    assert!(!can_split(Direction::Horizontal, 0, &sizes, area(0, 0, 820, 10)));
    assert!(can_split(Direction::Vertical, 0, &sizes, area(0, 0, 820, 10)));
    assert!(split(Direction::Horizontal, 0, &sizes, area(0, 0, 820, 10)).is_none());
    let lengths = vec![Extent::Length(60000), Extent::Length(60000)];
    assert!(can_split(Direction::Horizontal, 0, &lengths, area(0, 0, 820, 10)));
}

#[test]
fn an_area_that_leaves_the_range_is_refused() {
    let sizes = vec![Extent::Length(1)];
    assert!(can_split(Direction::Horizontal, 0, &sizes, area(65525, 0, 10, 10)));
    assert!(!can_split(Direction::Horizontal, 0, &sizes, area(65526, 0, 10, 10)));
    assert!(can_split(Direction::Horizontal, 0, &sizes, area(0, 65525, 10, 10)));
    assert!(!can_split(Direction::Horizontal, 0, &sizes, area(0, 65526, 10, 10)));
    assert!(split(Direction::Vertical, 0, &sizes, area(0, 65526, 10, 10)).is_none());
}

#[test]
fn a_margin_that_leaves_the_range_is_refused() {
    let sizes = vec![Extent::Length(1)];
    assert!(can_split(Direction::Horizontal, 32767, &sizes, area(0, 0, 10, 10)));
    assert!(!can_split(Direction::Horizontal, 32768, &sizes, area(0, 0, 10, 10)));
    assert!(split(Direction::Horizontal, 32768, &sizes, area(0, 0, 10, 10)).is_none());
}

#[test]
fn the_sizes_that_centre_a_part() {
    assert_eq!(
        centering_extents(60),
        vec![Extent::Percentage(20), Extent::Percentage(60), Extent::Percentage(20)]
    );
    assert_eq!(
        centering_extents(20),
        vec![Extent::Percentage(40), Extent::Percentage(20), Extent::Percentage(40)]
    );
    assert_eq!(
        centering_extents(100),
        vec![Extent::Percentage(0), Extent::Percentage(100), Extent::Percentage(0)]
    );
    assert_eq!(
        centering_extents(0),
        vec![Extent::Percentage(50), Extent::Percentage(0), Extent::Percentage(50)]
    );
    assert_eq!(
        centering_extents(75),
        vec![Extent::Percentage(12), Extent::Percentage(75), Extent::Percentage(12)]
    );
}

#[test]
fn the_centered_rectangle_of_an_even_terminal() {
    assert_eq!(centered_rect(60, 20, area(0, 0, 100, 50)), Some(area(20, 20, 60, 10)));
    assert_eq!(centered_rect(50, 50, area(10, 10, 40, 20)), Some(area(20, 15, 20, 10)));
}

#[test]
fn the_centered_rectangle_of_a_terminal_out_of_range() {
    assert_eq!(centered_rect(60, 20, area(0, 0, 100, 2000)), None);
    assert_eq!(centered_rect(60, 20, area(0, 0, 2000, 50)), None);
    assert_eq!(centered_rect(60, 20, area(65535, 0, 1, 50)), None);
}

#[test]
fn a_hidden_popup_is_drawn_nowhere() {
    let popup = Popup::new();
    assert!(!popup.show_popup);
    assert_eq!(popup.render(area(0, 0, 100, 50)), None);
    assert_eq!(popup.add_popup(area(0, 0, 100, 50)), Some(area(20, 20, 60, 10)));
}

#[test]
fn a_shown_popup_is_drawn_in_the_middle() {
    let popup = Popup { show_popup: true };
    assert_eq!(popup.render(area(0, 0, 100, 50)), Some(area(20, 20, 60, 10)));
    assert_eq!(popup.add_popup(area(0, 0, 100, 50)), Some(area(20, 20, 60, 10)));
    assert_eq!(popup.render(area(0, 0, 100, 2000)), None);
}

#[test]
fn the_panes_stand_side_by_side_inside_the_margin() {
    let (left, right) = panes(area(0, 0, 100, 30)).expect("the terminal can be divided");
    assert_eq!(left.y, 2);
    assert_eq!(right.y, 2);
    assert_eq!(left.height, 26);
    assert_eq!(right.height, 26);
    assert_eq!(left.x + left.width, right.x);
    assert_eq!(right.x + right.width, 98);
}

#[test]
fn the_panes_of_a_terminal_out_of_range() {
    assert!(panes(area(65535, 0, 10, 10)).is_none());
}

#[test]
fn every_part_is_a_slice_of_what_the_margin_leaves() {
    let sizes = vec![Extent::Percentage(20), Extent::Percentage(55), Extent::Length(3), Extent::Percentage(25)];
    for margin in 0..4u16 {
        for width in (0..130u16).step_by(7) {
            for height in (0..60u16).step_by(5) {
                let whole = area(3, 9, width, height);
                let inner = if width < 2 * margin || height < 2 * margin {
                    area(0, 0, 0, 0)
                } else {
                    area(3 + margin, 9 + margin, width - 2 * margin, height - 2 * margin)
                };
                let columns = split(Direction::Horizontal, margin, &sizes, whole).expect("in range");
                assert_eq!(columns.len(), 4);
                for part in &columns {
                    assert_eq!((part.y, part.height), (inner.y, inner.height));
                    assert!(part.x + part.width <= inner.x + inner.width);
                }
                let rows = split(Direction::Vertical, margin, &sizes, whole).expect("in range");
                assert_eq!(rows.len(), 4);
                for part in &rows {
                    assert_eq!((part.x, part.width), (inner.x, inner.width));
                    assert!(part.y + part.height <= inner.y + inner.height);
                }
            }
        }
    }
}

#[test]
fn the_centered_rectangle_lies_inside_the_terminal() {
    for width in (1..200u16).step_by(3) {
        for height in (1..80u16).step_by(3) {
            let terminal = area(7, 11, width, height);
            let part = centered_rect(60, 20, terminal).expect("in range");
            assert!(part.x >= 7);
            assert!(part.y >= 11);
            assert!(part.x + part.width <= 7 + width);
            assert!(part.y + part.height <= 11 + height);
        }
    }
}

#[test]
fn the_centered_rectangle_of_sides_in_whole_fifths() {
    for width in (0..400u16).step_by(5) {
        for height in (0..150u16).step_by(5) {
            let part = centered_rect(60, 20, area(3, 4, width, height)).expect("in range");
            let expected = area(3 + 20 * width / 100, 4 + 40 * height / 100, 60 * width / 100, 20 * height / 100);
            assert_eq!(part, expected);
        }
    }
}

#[test]
fn the_centered_rectangle_of_other_even_shares() {
    assert_eq!(centered_rect(50, 50, area(0, 0, 80, 40)), Some(area(20, 10, 40, 20)));
    assert_eq!(centered_rect(100, 100, area(5, 6, 33, 17)), Some(area(5, 6, 33, 17)));
    assert_eq!(centered_rect(0, 0, area(5, 6, 30, 18)), Some(area(20, 15, 0, 0)));
    assert_eq!(centered_rect(10, 90, area(0, 0, 200, 100)), Some(area(90, 5, 20, 90)));
    assert_eq!(centered_rect(60, 20, area(0, 0, 0, 0)), Some(area(0, 0, 0, 0)));
}

#[test]
fn an_even_division_gives_each_part_what_it_asks_for() {
    let sizes = vec![Extent::Percentage(10), Extent::Length(7), Extent::Percentage(50), Extent::Percentage(5)];
    for hundreds in 0..6u16 {
        let side = 20 * hundreds;
        let total = 7 + 65 * side / 100;
        let whole = area(9, 2, total, 13);
        let parts = split(Direction::Horizontal, 0, &sizes, whole).expect("in range");
        let asked = [10 * total / 100, 7, 50 * total / 100, 5 * total / 100];
        if asked.iter().sum::<u16>() == total && (10 * total) % 100 == 0 && (50 * total) % 100 == 0 && (5 * total) % 100 == 0 {
            let mut begin = 9;
            for (part, cells) in parts.iter().zip(asked) {
                assert_eq!(*part, area(begin, 2, cells, 13));
                begin += cells;
            }
        }
    }
    let rows = split(
        Direction::Vertical,
        3,
        &vec![Extent::Percentage(25), Extent::Percentage(25), Extent::Percentage(50)],
        area(1, 1, 20, 46),
    )
    .expect("in range");
    assert_eq!(rows, vec![area(4, 4, 14, 10), area(4, 14, 14, 10), area(4, 24, 14, 20)]);
    let lengths = split(
        Direction::Vertical,
        0,
        &vec![Extent::Length(0), Extent::Length(4), Extent::Length(6)],
        area(2, 30, 5, 10),
    )
    .expect("in range");
    assert_eq!(lengths, vec![area(2, 30, 5, 0), area(2, 30, 5, 4), area(2, 34, 5, 6)]);
}

#[test]
fn the_first_part_begins_and_the_last_part_ends_at_the_edges() {
    let sizes = vec![Extent::Percentage(33), Extent::Length(4), Extent::Percentage(41)];
    for margin in 0..3u16 {
        for width in (0..150u16).step_by(7) {
            for height in (0..50u16).step_by(7) {
                let whole = area(5, 8, width, height);
                let inner = if width < 2 * margin || height < 2 * margin {
                    area(0, 0, 0, 0)
                } else {
                    area(5 + margin, 8 + margin, width - 2 * margin, height - 2 * margin)
                };
                let columns = split(Direction::Horizontal, margin, &sizes, whole).expect("in range");
                assert_eq!(columns[0].x, inner.x);
                assert_eq!(columns[2].x + columns[2].width, inner.x + inner.width);
                let rows = split(Direction::Vertical, margin, &sizes, whole).expect("in range");
                assert_eq!(rows[0].y, inner.y);
                assert_eq!(rows[2].y + rows[2].height, inner.y + inner.height);
            }
        }
    }
}

#[test]
fn a_part_is_picked_only_where_it_begins_inside() {
    let frame = area(10, 20, 30, 40);
    let parts = vec![area(10, 20, 5, 40), area(9, 20, 5, 40), area(15, 19, 5, 40)];
    assert_eq!(part_inside(frame, Direction::Horizontal, &parts, 0), Some(area(10, 20, 5, 40)));
    assert_eq!(part_inside(frame, Direction::Horizontal, &parts, 1), None);
    assert_eq!(part_inside(frame, Direction::Horizontal, &parts, 2), Some(area(15, 19, 5, 40)));
    assert_eq!(part_inside(frame, Direction::Horizontal, &parts, 3), None);
    assert_eq!(part_inside(frame, Direction::Vertical, &parts, 0), Some(area(10, 20, 5, 40)));
    assert_eq!(part_inside(frame, Direction::Vertical, &parts, 1), Some(area(9, 20, 5, 40)));
    assert_eq!(part_inside(frame, Direction::Vertical, &parts, 2), None);
    assert_eq!(part_inside(frame, Direction::Vertical, &Vec::new(), 0), None);
}

#[test]
fn the_panes_share_a_width_in_whole_fifths() {
    for width in (0..300u16).step_by(3) {
        let (left, right) = panes(area(0, 0, width, 30)).expect("in range");
        assert_eq!(right.x + right.width, if width < 4 { 0 } else { width - 2 });
        let both = right.x + right.width - left.x;
        if both % 5 == 0 {
            assert_eq!(left.width, both / 5);
            assert_eq!(right.x, left.x + left.width);
            assert_eq!(right.width, both - both / 5);
        }
    }
}

#[test]
fn the_centered_rectangle_at_the_edge_of_the_range() {
    assert!(centered_rect(60, 20, area(0, 0, 1092, 1638)).is_some());
    assert!(centered_rect(60, 20, area(0, 0, 1093, 1638)).is_none());
    assert!(centered_rect(60, 20, area(0, 0, 1092, 1639)).is_none());
    assert!(centered_rect(100, 100, area(0, 0, 655, 655)).is_some());
    assert!(centered_rect(100, 100, area(0, 0, 656, 655)).is_none());
}

#[test]
fn the_panes_of_small_and_large_terminals() {
    for width in (0..300u16).step_by(11) {
        for height in (0..90u16).step_by(9) {
            let (left, right) = panes(area(0, 0, width, height)).expect("in range");
            let inner = if width < 4 || height < 4 {
                area(0, 0, 0, 0)
            } else {
                area(2, 2, width - 4, height - 4)
            };
            for pane in [left, right] {
                assert_eq!((pane.y, pane.height), (inner.y, inner.height));
                assert!(pane.x + pane.width <= inner.x + inner.width);
            }
        }
    }
    assert!(panes(area(0, 0, 819, 40)).is_some());
}

#[test]
fn slices_near_the_end_of_the_range() {
    let lengths = vec![Extent::Length(7), Extent::Length(100), Extent::Length(3)];
    for (x, y, width, height) in [
        (65535u16, 65535u16, 0u16, 0u16),
        (60000, 60000, 5535, 5535),
        (0, 0, 65535, 65535),
        (65000, 1, 535, 2),
        (1, 65000, 2, 535),
    ] {
        let whole = area(x, y, width, height);
        for margin in [0u16, 1, 2, 300] {
            let inner = if width < 2 * margin || height < 2 * margin {
                area(0, 0, 0, 0)
            } else {
                area(x + margin, y + margin, width - 2 * margin, height - 2 * margin)
            };
            let columns = split(Direction::Horizontal, margin, &lengths, whole).expect("in range");
            assert_eq!(columns.len(), 3);
            for part in &columns {
                assert_eq!((part.y, part.height), (inner.y, inner.height));
                assert!(part.x as u32 + part.width as u32 <= inner.x as u32 + inner.width as u32);
            }
            let rows = split(Direction::Vertical, margin, &lengths, whole).expect("in range");
            assert_eq!(rows.len(), 3);
            for part in &rows {
                assert_eq!((part.x, part.width), (inner.x, inner.width));
                assert!(part.y as u32 + part.height as u32 <= inner.y as u32 + inner.height as u32);
            }
        }
    }
}

#[test]
fn percentages_of_the_widest_area_they_fit() {
    let sizes = vec![Extent::Percentage(33), Extent::Percentage(33), Extent::Percentage(34)];
    let whole = area(100, 200, 1927, 1927);
    let columns = split(Direction::Horizontal, 0, &sizes, whole).expect("in range");
    for part in &columns {
        assert_eq!((part.y, part.height), (200, 1927));
        assert!(part.x + part.width <= 2027);
    }
    let rows = split(Direction::Vertical, 0, &sizes, whole).expect("in range");
    for part in &rows {
        assert_eq!((part.x, part.width), (100, 1927));
        assert!(part.y + part.height <= 2127);
    }
    assert!(split(Direction::Horizontal, 0, &sizes, area(100, 200, 1928, 1927)).is_none());
    assert!(split(Direction::Vertical, 0, &sizes, area(100, 200, 1927, 1928)).is_none());
}

#[test]
fn a_split_into_one_part_takes_what_the_margin_leaves() {
    let parts = split(Direction::Horizontal, 1, &vec![Extent::Percentage(10)], area(4, 4, 20, 10))
        .expect("in range");
    assert_eq!(parts, vec![area(5, 5, 18, 8)]);
    let parts = split(Direction::Vertical, 0, &vec![Extent::Length(2)], area(4, 4, 20, 10))
        .expect("in range");
    assert_eq!(parts, vec![area(4, 4, 20, 10)]);
}
