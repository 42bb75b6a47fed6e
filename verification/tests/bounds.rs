use poloto::bounds::find_bounds;
use poloto::layout::{axis_range, map_point, map_series, ChartConfig};
use poloto::series::{Plot, PlotType, Point};

fn series(points: Vec<Point>) -> Plot {
    Plot { name: String::from("s"), plot_type: PlotType::Line, points }
}

fn from_floats(points: &[[f64; 2]]) -> Vec<Point> {
    points
        .iter()
        .map(|p| Point {
            x: if p[0].is_finite() { Some(p[0] as i32) } else { None },
            y: if p[1].is_finite() { Some(p[1] as i32) } else { None },
        })
        .collect()
}

#[test]
fn bounds_of_no_series_are_none() {
    assert_eq!(find_bounds(&Vec::new()), None);
}

#[test]
fn bounds_of_series_without_points_are_none() {
    assert_eq!(find_bounds(&vec![series(vec![]), series(vec![])]), None);
}

#[test]
fn bounds_of_only_unretained_points_are_none() {
    let points = vec![Point { x: None, y: Some(1) }, Point { x: Some(2), y: None }];
    assert_eq!(find_bounds(&vec![series(points)]), None);
}

#[test]
fn bounds_of_a_single_point() {
    assert_eq!(find_bounds(&vec![series(vec![Point::new(7, -3)])]), Some([7, 7, -3, -3]));
}

#[test]
fn bounds_span_all_series() {
    let a = series(vec![Point::new(5, 5), Point::new(-2, 9)]);
    let b = series(vec![]);
    let c = series(vec![Point::new(11, -4), Point::new(3, 3)]);
    assert_eq!(find_bounds(&vec![a, b, c]), Some([-2, 11, -4, 9]));
}

#[test]
fn bounds_hold_every_retained_point() {
    let points = vec![
        Point::new(1850, 100),
        Point::new(1940, 120),
        Point::new(1945, 122),
        Point::new(1989, 160),
        Point::new(2001, 200),
    ];
    let b = find_bounds(&vec![series(points.clone())]).unwrap();
    assert_eq!(b, [1850, 2001, 100, 200]);
    for p in points {
        assert!(b[0] <= p.x.unwrap() && p.x.unwrap() <= b[1]);
        assert!(b[2] <= p.y.unwrap() && p.y.unwrap() <= b[3]);
    }
}

#[test]
fn bounds_at_the_ends_of_the_number_range() {
    let points = vec![Point::new(i32::MIN, i32::MAX), Point::new(i32::MAX, i32::MIN)];
    assert_eq!(
        find_bounds(&vec![series(points)]),
        Some([i32::MIN, i32::MAX, i32::MIN, i32::MAX])
    );
}

#[test]
fn a_point_that_is_not_a_number_is_passed_over() {
    let points = from_floats(&[[f64::NAN, 500.0], [0.0, 0.0], [10.0, 10.0]]);
    assert!(!points[0].is_retained());
    assert!(points[1].is_retained());
    let plots = vec![series(points)];
    assert_eq!(find_bounds(&plots), Some([0, 10, 0, 10]));
    let config = ChartConfig::new();
    let x_axis = axis_range(0, 10);
    let y_axis = axis_range(0, 10);
    let places = map_series(&plots[0].points, &x_axis, &y_axis, &config);
    assert_eq!(places, vec![(150_000, 500_000), (650_000, 100_000)]);
}

#[test]
fn an_infinite_coordinate_is_passed_over() {
    let points = from_floats(&[[1.0, f64::INFINITY], [f64::NEG_INFINITY, 2.0], [3.0, 4.0]]);
    assert_eq!(find_bounds(&vec![series(points)]), Some([3, 3, 4, 4]));
}

#[test]
fn a_range_of_one_value_is_widened_to_two() {
    let a = axis_range(5, 5);
    assert_eq!((a.min, a.max), (4, 6));
    let a = axis_range(-3, -3);
    assert_eq!((a.min, a.max), (-4, -2));
}

#[test]
fn a_range_of_one_value_at_the_ends_of_the_number_range() {
    let a = axis_range(i32::MAX, i32::MAX);
    assert_eq!((a.min, a.max), (i32::MAX as i64 - 1, i32::MAX as i64 + 1));
    let a = axis_range(i32::MIN, i32::MIN);
    assert_eq!((a.min, a.max), (i32::MIN as i64 - 1, i32::MIN as i64 + 1));
}

#[test]
fn a_range_of_two_values_is_kept() {
    let a = axis_range(5, 6);
    assert_eq!((a.min, a.max), (5, 6));
}

#[test]
fn points_are_mapped_onto_the_canvas() {
    let config = ChartConfig::new();
    let x_axis = axis_range(1850, 2001);
    let y_axis = axis_range(100, 200);
    // 150 + 95 * 500 / 151 = 464.569..., 600 - 100 - 22 * 400 / 100 = 412
    assert_eq!(map_point(1945, 122, &x_axis, &y_axis, &config), (464_569, 412_000));
    assert_eq!(map_point(1850, 100, &x_axis, &y_axis, &config), (150_000, 500_000));
    assert_eq!(map_point(2001, 200, &x_axis, &y_axis, &config), (650_000, 100_000));
}

#[test]
fn points_outside_the_range_are_not_clamped() {
    let config = ChartConfig::new();
    let x_axis = axis_range(0, 10);
    let y_axis = axis_range(0, 10);
    assert_eq!(map_point(-10, 20, &x_axis, &y_axis, &config), (-350_000, -300_000));
}

#[test]
fn a_single_point_lies_in_the_middle_of_the_chart() {
    let config = ChartConfig::new();
    let x_axis = axis_range(7, 7);
    let y_axis = axis_range(-3, -3);
    assert_eq!(map_point(7, -3, &x_axis, &y_axis, &config), (400_000, 300_000));
}

#[test]
fn mapping_rounds_down() {
    let config = ChartConfig {
        width: 10,
        height: 10,
        padding: 0,
        paddingy: 0,
        x_ticks: 2,
        y_ticks: 2,
        x_exponent: 0,
        y_exponent: 0,
    };
    let x_axis = axis_range(0, 3);
    let y_axis = axis_range(0, 3);
    // x: 10 / 3 = 3.333..., y: 10 - 10 / 3 = 6.666...
    assert_eq!(map_point(1, 1, &x_axis, &y_axis, &config), (3_333, 6_666));
}

#[test]
fn the_standard_layout() {
    let c = ChartConfig::new();
    assert_eq!((c.width, c.height, c.padding, c.paddingy), (800, 600, 150, 100));
    assert_eq!((c.x_ticks, c.y_ticks, c.x_exponent, c.y_exponent), (9, 10, 0, 0));
}
