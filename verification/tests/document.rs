use poloto::layout::ChartConfig;
use poloto::render::render;
use poloto::series::{Plot, PlotType, Point};
use poloto::{plot, Plotter};

const ROOT: &str = "<svg  class=\"poloto\" width=\"800\" height=\"600\" viewBox=\"0 0 800 600\" xmlns=\"http://www.w3.org/2000/svg\" >";
const BACKGROUND: &str =
    "<rect  class=\"poloto_background\" fill=\"white\" x=\"0\" y=\"0\" width=\"800\" height=\"600\" />";
const AXIS_LINES: &str =
    "<path  stroke=\"black\" fill=\"none\" class=\"poloto_axis_lines\" d=\" M 150 100 L 150 500 L 650 500\" />";

fn count(text: &str, part: &str) -> usize {
    text.matches(part).count()
}

fn points(coordinates: &[(i32, i32)]) -> Vec<Point> {
    coordinates.iter().map(|c| Point::new(c.0, c.1)).collect()
}

fn years() -> Vec<Point> {
    // the y coordinates count tenths
    points(&[(1850, 100), (1940, 120), (1945, 122), (1989, 160), (2001, 200)])
}

fn tenths() -> ChartConfig {
    let mut config = ChartConfig::new();
    config.y_exponent = -1;
    config
}

fn label(baseline: &str, anchor: &str, x: &str, y: &str, content: &str) -> String {
    format!(
        "<text  class=\"poloto_text\" alignment-baseline=\"{}\" text-anchor=\"{}\" x=\"{}\" y=\"{}\" >{}</text>",
        baseline, anchor, x, y, content
    )
}

#[test]
fn no_series_draw_only_the_background() {
    let out = plot("", "", "").render();
    assert_eq!(out, format!("{}{}</svg>", ROOT, BACKGROUND));
    assert_eq!(count(&out, "<line"), 0);
    assert_eq!(count(&out, "<text"), 0);
    assert_eq!(count(&out, "<path"), 0);
}

#[test]
fn series_without_retained_points_draw_only_the_background() {
    let mut p = plot("title", "x", "y");
    p.line("a", vec![]);
    p.scatter("b", vec![Point { x: None, y: Some(1) }, Point { x: Some(1), y: None }]);
    assert_eq!(p.render(), format!("{}{}</svg>", ROOT, BACKGROUND));
}

#[test]
fn filled_line_over_the_years() {
    let plots = vec![Plot { name: String::new(), plot_type: PlotType::LineFill, points: years() }];
    let out = render("simple", "x", "y", &plots, &tenths(), "");
    assert!(out.starts_with(&format!("{}{}", ROOT, BACKGROUND)));
    assert!(out.ends_with("</svg>"));
    assert!(out.contains(
        "<path  class=\"poloto0fill\" d=\" M 150 500 L 150 500 L 448.013 420 L 464.569 412 L 610.264 260 L 650 100 L 650 500 Z\" />"
    ));
    assert!(out.contains(AXIS_LINES));
    // x ticks from 1840 in steps of 20, y ticks from 10 in steps of 2
    assert_eq!(count(&out, "y1=\"500\" y2=\"505\" />"), 9);
    assert_eq!(count(&out, "x1=\"150\" x2=\"144\""), 6);
    // 150 + (1840 - 1850) * 500 / 151 = 116.887...
    assert!(out.contains(&format!(
        "<line  class=\"poloto_axis_lines\" stroke=\"black\" x1=\"116.887\" x2=\"116.887\" y1=\"500\" y2=\"505\" />{}",
        label("start", "middle", "116.887", "530", "1840")
    )));
    assert!(out.contains(&label("start", "middle", "646.688", "530", "2000")));
    assert!(out.contains(&format!(
        "<line  class=\"poloto_axis_lines\" stroke=\"black\" x1=\"150\" x2=\"144\" y1=\"500\" y2=\"500\" />{}",
        label("middle", "end", "135", "500", "10")
    )));
    assert!(out.contains(&label("middle", "end", "135", "420", "12")));
    assert!(out.contains(&label("middle", "end", "135", "100", "20")));
    assert_eq!(count(&out, "Where"), 0);
}

#[test]
fn parts_of_the_document_come_in_order() {
    let plots = vec![Plot { name: String::from("n"), plot_type: PlotType::LineFill, points: years() }];
    let out = render("T", "X", "Y", &plots, &tenths(), "");
    let at = |part: &str| out.find(part).unwrap();
    assert!(at(BACKGROUND) < at(">1840<"));
    assert!(at(">2000<") < at(">10<"));
    assert!(at(">20<") < at(AXIS_LINES));
    assert!(at(AXIS_LINES) < at(">n</text>"));
    assert!(at(">n</text>") < at("<rect  class=\"poloto0fill\""));
    assert!(at("<rect  class=\"poloto0fill\"") < at("<path  class=\"poloto0fill\""));
    assert!(at("<path  class=\"poloto0fill\"") < at(">T</text>"));
    assert!(at(">T</text>") < at(">X</text>"));
    assert!(at(">X</text>") < at(">Y</text>"));
}

#[test]
fn headings() {
    let mut p = plot("cows per year", "year", "cow");
    p.line("", points(&[(0, 0), (1, 1)]));
    let out = p.render();
    let head = "<text  class=\"poloto_text\" alignment-baseline=\"start\" text-anchor=\"middle\" font-size=\"x-large\"";
    assert!(out.ends_with(&format!(
        "{h} x=\"400\" y=\"37.5\" >cows per year</text>{h} x=\"400\" y=\"581.25\" >year</text>{h} transform=\"rotate(-90,37.5,300)\" x=\"37.5\" y=\"300\" >cow</text></svg>",
        h = head
    )));
}

#[test]
fn rendering_twice_gives_the_same_document() {
    let plots = vec![
        Plot { name: String::from("a"), plot_type: PlotType::Scatter, points: years() },
        Plot { name: String::from("b"), plot_type: PlotType::Histo, points: years() },
    ];
    let config = ChartConfig::new();
    let first = render("t", "x", "y", &plots, &config, "");
    let second = render("t", "x", "y", &plots, &config, "");
    assert_eq!(first, second);
    let mut p = Plotter::new("t", "x", "y");
    p.scatter("a", years());
    p.histogram("b", years());
    assert_eq!(p.render(), first);
}

#[test]
fn a_single_point_is_drawn_in_the_middle() {
    let mut p = plot("", "", "");
    p.scatter("one", points(&[(7, -3)]));
    let out = p.render();
    assert!(out.contains("<g  class=\"poloto0fill\" ><circle  cx=\"400\" cy=\"300\" r=\"5\" /></g>"));
    // the ranges are 6 to 8 and -4 to -2, with steps of 0.5 and 0.5
    assert!(out.contains(">6.0</text>"));
    assert!(out.contains(">8.0</text>"));
    assert!(out.contains(">-4.0</text>"));
    assert!(out.contains(">-2.0</text>"));
    assert!(out.contains(&label("start", "middle", "150", "530", "6.0")));
    assert!(out.contains(&label("start", "middle", "650", "530", "8.0")));
}

#[test]
fn points_with_one_x_share_a_widened_x_range() {
    let mut p = plot("", "", "");
    p.line("", points(&[(5, 0), (5, 10)]));
    let out = p.render();
    // x range 4 to 6: the points stand in the middle
    assert!(out.contains("points=\"400,500 400,100 \""));
}

#[test]
fn unretained_points_are_not_drawn() {
    let mut p = plot("", "", "");
    p.line(
        "",
        vec![Point { x: None, y: Some(500) }, Point::new(0, 0), Point::new(10, 10)],
    );
    let out = p.render();
    assert!(out.contains(
        "<polyline  class=\"poloto0stroke\" fill=\"none\" stroke=\"black\" points=\"150,500 650,100 \" />"
    ));
}

#[test]
fn a_series_without_name_has_no_swatch() {
    let mut named = plot("", "", "");
    named.histogram("first", points(&[(0, 0), (10, 10)]));
    named.histogram("second", points(&[(0, 0), (10, 10)]));
    let named = named.render();
    let mut unnamed = plot("", "", "");
    unnamed.histogram("", points(&[(0, 0), (10, 10)]));
    unnamed.histogram("second", points(&[(0, 0), (10, 10)]));
    let unnamed = unnamed.render();
    assert_eq!(count(&named, " rx=\"5\" ry=\"5\" />"), 2);
    assert_eq!(count(&unnamed, " rx=\"5\" ry=\"5\" />"), 1);
    // the slot of the second series: 100 + 150 / 3 = 150 for the name,
    // 100 - 150 / 8 + 50 - 5 = 126.25 for the swatch
    let name = "<text  class=\"poloto_text\" alignment-baseline=\"middle\" text-anchor=\"start\" font-size=\"large\" x=\"675\" y=\"150\" >second</text>";
    let swatch = "<rect  class=\"poloto1fill\" x=\"680\" y=\"126.25\" width=\"50\" height=\"7.5\" rx=\"5\" ry=\"5\" />";
    assert!(named.contains(&format!("{}{}", name, swatch)));
    assert!(unnamed.contains(&format!("{}{}", name, swatch)));
    // the name of the first is written, though empty
    assert!(unnamed.contains(
        "<text  class=\"poloto_text\" alignment-baseline=\"middle\" text-anchor=\"start\" font-size=\"large\" x=\"675\" y=\"100\" ></text><g  class=\"poloto0fill\" >"
    ));
    // emptying the name takes out the name and the swatch and nothing else
    let first = "<rect  class=\"poloto0fill\" x=\"680\" y=\"76.25\" width=\"50\" height=\"7.5\" rx=\"5\" ry=\"5\" />";
    assert_eq!(named.replace(">first</text>", "></text>").replace(first, ""), unnamed);
}

#[test]
fn swatch_of_each_kind() {
    let mut p = plot("", "", "");
    p.line("a", points(&[(0, 0), (10, 10)]));
    p.scatter("b", points(&[(0, 0), (10, 10)]));
    p.histogram("c", points(&[(0, 0), (10, 10)]));
    p.line_fill("d", points(&[(0, 0), (10, 10)]));
    let out = p.render();
    // 100 - 150 / 8 = 81.25, and 50 more for each slot
    assert!(out.contains(
        "<line  class=\"poloto0stroke\" stroke=\"black\" x1=\"680\" x2=\"730\" y1=\"81.25\" y2=\"81.25\" />"
    ));
    assert!(out.contains("<circle  class=\"poloto1fill\" cx=\"685\" cy=\"131.25\" r=\"5\" />"));
    assert!(out.contains(
        "<rect  class=\"poloto2fill\" x=\"680\" y=\"176.25\" width=\"50\" height=\"7.5\" rx=\"5\" ry=\"5\" />"
    ));
    assert!(out.contains(
        "<rect  class=\"poloto3fill\" x=\"680\" y=\"226.25\" width=\"50\" height=\"7.5\" rx=\"5\" ry=\"5\" />"
    ));
}

#[test]
fn colours_of_the_series_repeat() {
    let mut p = plot("", "", "");
    for _ in 0..8 {
        p.line("", points(&[(0, 0), (10, 10)]));
    }
    let out = p.render();
    assert_eq!(count(&out, "<polyline  class=\"poloto0stroke\""), 2);
    assert_eq!(count(&out, "<polyline  class=\"poloto1stroke\""), 2);
    assert_eq!(count(&out, "<polyline  class=\"poloto2stroke\""), 1);
    assert_eq!(count(&out, "<polyline  class=\"poloto5stroke\""), 1);
    assert_eq!(count(&out, "poloto6"), 0);
}

#[test]
fn scatter_draws_a_circle_at_each_point() {
    let mut p = plot("", "", "");
    p.scatter("", points(&[(0, 0), (5, 10), (10, 5)]));
    let out = p.render();
    assert!(out.contains(
        "<g  class=\"poloto0fill\" ><circle  cx=\"150\" cy=\"500\" r=\"5\" /><circle  cx=\"400\" cy=\"100\" r=\"5\" /><circle  cx=\"650\" cy=\"300\" r=\"5\" /></g>"
    ));
}

#[test]
fn histogram_draws_a_bar_from_each_point_to_the_next() {
    let mut p = plot("", "", "");
    p.histogram("", points(&[(0, 10), (5, 5), (10, 0)]));
    let out = p.render();
    // bars of width 250 less the gap of 3, down to the axis at 500
    assert!(out.contains(
        "<g  class=\"poloto0fill\" ><rect  x=\"150\" y=\"100\" width=\"247\" height=\"400\" /><rect  x=\"400\" y=\"300\" width=\"247\" height=\"200\" /></g>"
    ));
}

#[test]
fn histogram_of_one_point_has_no_bar() {
    let mut p = plot("", "", "");
    p.histogram("", points(&[(3, 3)]));
    assert!(p.render().contains("<g  class=\"poloto0fill\" ></g>"));
}

#[test]
fn bars_are_as_wide_as_the_gap_at_least() {
    let mut p = plot("", "", "");
    p.histogram("", points(&[(0, 0), (1000, 1), (1001, 0), (1000, 1)]));
    let out = p.render();
    // 0.5 from 1000 to 1001, and backwards after that
    assert!(out.contains("<rect  x=\"649.5\" y=\"100\" width=\"3\" height=\"400\" />"));
    assert!(out.contains("<rect  x=\"650\" y=\"500\" width=\"3\" height=\"0\" />"));
}

#[test]
fn shapes_without_points_are_empty() {
    let mut p = plot("", "", "");
    p.line("", vec![]);
    p.scatter("", vec![]);
    p.histogram("", vec![]);
    p.line_fill("", vec![]);
    p.line("", points(&[(0, 0), (10, 10)]));
    let out = p.render();
    assert!(out.contains("<polyline  class=\"poloto0stroke\" fill=\"none\" stroke=\"black\" points=\"\" />"));
    assert!(out.contains("<g  class=\"poloto1fill\" ></g>"));
    assert!(out.contains("<g  class=\"poloto2fill\" ></g>"));
    assert!(out.contains("<path  class=\"poloto3fill\" d=\" M 150 500 L 650 500 Z\" />"));
    assert!(out.contains("y=\"300\" ></text><polyline  class=\"poloto4stroke\""));
}

#[test]
fn markup_characters_in_texts_are_replaced() {
    let mut p = plot("a < b", "\"x\"", "it's");
    p.line("cows & <bulls>", points(&[(0, 0), (10, 10)]));
    let out = p.render();
    assert!(out.contains(">a &lt; b</text>"));
    assert!(out.contains(">&quot;x&quot;</text>"));
    assert!(out.contains(">it&apos;s</text>"));
    assert!(out.contains(">cows &amp; &lt;bulls&gt;</text>"));
}

#[test]
fn given_elements_come_first_and_unchanged() {
    let style = "<style>.poloto{--poloto_color0:purple;}</style>";
    let mut p = plot("", "", "");
    p.line("cow", points(&[(0, 0), (10, 10)]));
    let out = p.render_with_elements(style);
    assert!(out.starts_with(&format!("{}{}{}", ROOT, style, BACKGROUND)));
    let mut q = plot("", "", "");
    q.line("cow", points(&[(0, 0), (10, 10)]));
    assert_eq!(out.replace(style, ""), q.render());
}

#[test]
fn labels_far_from_zero_are_relative() {
    let mut p = plot("", "", "");
    p.line("", points(&[(10_000, 0), (10_002, 3)]));
    let out = p.render();
    // x: step 0.5 from 10000, 5 ticks; y: step 0.5 from 0, 7 ticks
    assert!(out.contains(&label("middle", "start", "440", "70", "Where j = 10000.0")));
    assert!(out.contains(&label("start", "middle", "150", "530", "j+0.0")));
    assert!(out.contains(&label("start", "middle", "275", "530", "j+0.5")));
    assert!(out.contains(&label("start", "middle", "650", "530", "j+2.0")));
    assert_eq!(count(&out, "Where k"), 0);
    assert!(out.contains(&label("middle", "end", "135", "500", "0.0")));
    assert!(out.contains(&label("middle", "end", "135", "100", "3.0")));
}

#[test]
fn labels_of_the_y_axis_far_from_zero_are_relative() {
    let mut p = plot("", "", "");
    p.line("", points(&[(0, -20_000), (3, -19_998)]));
    let out = p.render();
    assert!(out.contains(&label("middle", "start", "150", "70", "Where k = -20000.0")));
    assert!(out.contains(&label("middle", "end", "135", "500", "k+0.0")));
    assert!(out.contains(&label("middle", "end", "135", "100", "k+2.0")));
    assert_eq!(count(&out, "Where j"), 0);
}

#[test]
fn labels_count_in_the_unit_of_the_axis() {
    let plots = vec![Plot {
        name: String::new(),
        plot_type: PlotType::Line,
        points: points(&[(0, 0), (100, 40)]),
    }];
    let mut config = ChartConfig::new();
    config.x_exponent = 3;
    config.y_exponent = -4;
    let out = render("", "", "", &plots, &config, "");
    // x: steps of 20 thousands, y: steps of 5 ten-thousandths
    assert!(out.contains(">0</text>"));
    assert!(out.contains(">20000</text>"));
    assert!(out.contains(">100000</text>"));
    assert!(out.contains(">0.0000</text>"));
    assert!(out.contains(">0.0005</text>"));
    assert!(out.contains(">0.0040</text>"));
}

#[test]
fn a_step_of_ten_is_labelled_as_a_power_of_ten() {
    let plots = vec![Plot {
        name: String::new(),
        plot_type: PlotType::Line,
        points: points(&[(0, 0), (50, 99)]),
    }];
    let mut config = ChartConfig::new();
    config.x_ticks = 11;
    config.y_ticks = 11;
    let out = render("", "", "", &plots, &config, "");
    // x: rough step 5, step 10; y: rough step 9.9, step 10
    assert!(out.contains(&label("start", "middle", "250", "530", "10")));
    assert!(out.contains(&label("start", "middle", "650", "530", "50")));
    assert!(out.contains(">100</text>"));
}

#[test]
fn another_canvas() {
    let plots = vec![Plot {
        name: String::from("s"),
        plot_type: PlotType::Scatter,
        points: points(&[(0, 0), (4, 4)]),
    }];
    let config = ChartConfig {
        width: 400,
        height: 300,
        padding: 60,
        paddingy: 30,
        x_ticks: 5,
        y_ticks: 3,
        x_exponent: 0,
        y_exponent: 0,
    };
    let out = render("", "", "", &plots, &config, "");
    assert!(out.starts_with(
        "<svg  class=\"poloto\" width=\"400\" height=\"300\" viewBox=\"0 0 400 300\" xmlns=\"http://www.w3.org/2000/svg\" ><rect  class=\"poloto_background\" fill=\"white\" x=\"0\" y=\"0\" width=\"400\" height=\"300\" />"
    ));
    assert!(out.contains("<path  stroke=\"black\" fill=\"none\" class=\"poloto_axis_lines\" d=\" M 60 30 L 60 270 L 340 270\" />"));
    assert!(out.contains("<circle  cx=\"60\" cy=\"270\" r=\"2\" /><circle  cx=\"340\" cy=\"30\" r=\"2\" />"));
    // x: step 2, ticks 0, 2, 4; y: rough step 2, step 5, ticks 0, 5
    assert!(out.contains(&label("start", "middle", "200", "279", "2")));
    assert!(out.contains(&label("middle", "end", "54", "-30", "5")));
}

#[test]
fn units_of_a_plotter() {
    let mut p = plot("", "", "");
    p.units(3, -4);
    p.line("", points(&[(0, 0), (100, 40)]));
    let out = p.render();
    assert!(out.contains(">20000</text>"));
    assert!(out.contains(">0.0005</text>"));
}

#[test]
fn a_chart_of_lines() {
    let mut s = poloto::Splot::new("t", "x", "y");
    s.lines("a", points(&[(0, 0), (10, 10)]));
    s.lines("", points(&[(0, 10), (10, 0)]));
    let mut p = plot("t", "x", "y");
    p.line("a", points(&[(0, 0), (10, 10)]));
    p.line("", points(&[(0, 10), (10, 0)]));
    let out = s.render();
    assert_eq!(out, p.render());
    assert_eq!(count(&out, "<polyline"), 2);
    assert!(out.contains("points=\"150,100 650,500 \""));
}

#[test]
fn units_of_a_chart_of_lines() {
    let mut s = poloto::Splot::new("", "", "");
    s.units(-6, 0);
    s.lines("", points(&[(0, 0), (1000, 1)]));
    // x: steps of 200 millionths, which are 2 ten-thousandths
    let out = s.render();
    assert!(out.contains(">0.0002</text>"));
    assert!(out.contains(">0.0010</text>"));
}

#[test]
fn a_narrow_range_far_from_zero() {
    // two samples a millionth of a millionth apart, counted in units of 1e-15
    let plots = vec![Plot {
        name: String::new(),
        plot_type: PlotType::Scatter,
        points: points(&[(1_000_000_000, 1_000_000_000), (1_000_000_001, 1_000_000_001)]),
    }];
    let mut config = ChartConfig::new();
    config.x_exponent = -15;
    config.y_exponent = -15;
    let out = render("cows per year", "year", "cow", &plots, &config, "");
    assert!(out.contains("<circle  cx=\"150\" cy=\"500\" r=\"5\" /><circle  cx=\"650\" cy=\"100\" r=\"5\" />"));
    // x: rough step 1 / 8, step 0.2; y: rough step 1 / 9, step 0.2
    assert!(out.contains(">Where j = 0.0000010000000000</text>"));
    assert!(out.contains(">Where k = 0.0000010000000000</text>"));
    assert!(out.contains(&label("start", "middle", "150", "530", "j+0.0000000000000000")));
    assert!(out.contains(&label("start", "middle", "250", "530", "j+0.0000000000000002")));
    assert!(out.contains(&label("start", "middle", "650", "530", "j+0.0000000000000010")));
    assert!(out.contains(&label("middle", "end", "135", "100", "k+0.0000000000000010")));
    assert_eq!(count(&out, ">j+"), 6);
    assert_eq!(count(&out, ">k+"), 6);
}

#[test]
fn the_widest_canvas_and_the_widest_data() {
    let plots = vec![Plot {
        name: String::from("wide"),
        plot_type: PlotType::Histo,
        points: points(&[(i32::MIN, i32::MAX), (0, 0), (i32::MAX, i32::MIN)]),
    }];
    let config = ChartConfig {
        width: u32::MAX,
        height: u32::MAX,
        padding: u32::MAX,
        paddingy: 0,
        x_ticks: 2,
        y_ticks: 3,
        x_exponent: i8::MAX,
        y_exponent: i8::MIN,
    };
    let out = render("", "", "", &plots, &config, "");
    assert!(out.starts_with("<svg  class=\"poloto\" width=\"4294967295\" height=\"4294967295\""));
    assert!(out.ends_with("</svg>"));
    // the chart is as wide as the canvas less twice the padding: mirrored,
    // from 4294967295 at the least x down to 0 at the greatest
    assert!(out.contains("<rect  x=\"4294967295\" y=\"0\""));
    assert!(out.contains("<rect  x=\"2147483647\" y=\"2147483647\""));
}

#[test]
fn many_series_keep_their_slots() {
    let mut p = plot("", "", "");
    for i in 0..20 {
        p.scatter(if i % 2 == 0 { "even" } else { "" }, points(&[(0, 0), (1, 1)]));
    }
    let out = p.render();
    assert_eq!(count(&out, ">even</text>"), 10);
    assert_eq!(count(&out, "<circle  class="), 10);
    // slot 19: 100 + 19 * 50 = 1050
    assert!(out.contains("font-size=\"large\" x=\"675\" y=\"1050\" ></text>"));
    // slot 18: 100 + 18 * 50 = 1000, swatch 18.75 above
    assert!(out.contains(
        "font-size=\"large\" x=\"675\" y=\"1000\" >even</text><circle  class=\"poloto0fill\" cx=\"685\" cy=\"981.25\" r=\"5\" />"
    ));
}
