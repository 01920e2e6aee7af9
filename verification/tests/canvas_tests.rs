use unity_web_server::canvas::{
    canvas_size_from_captures, canvas_size_in_page, page_canvas_size, CanvasSize, DEFAULT_HEIGHT,
    DEFAULT_WIDTH,
};

const UNITY_PAGE: &str = r#"<div id="unity-container">
  <canvas id="unity-canvas" width=960 height=600 tabindex="-1"></canvas>
</div>"#;

#[test]
fn detects_the_unity_canvas() {
    assert_eq!(canvas_size_in_page(UNITY_PAGE), Some(CanvasSize { width: 960, height: 600 }));
}

#[test]
fn attributes_may_stand_between() {
    let page = r#"<canvas class="x" id="unity-canvas" style="a" width=1280 data-x="y" height=720>"#;
    assert_eq!(canvas_size_in_page(page), Some(CanvasSize { width: 1280, height: 720 }));
}

#[test]
fn no_unity_canvas_no_size() {
    assert_eq!(canvas_size_in_page(""), None);
    assert_eq!(canvas_size_in_page(r#"<canvas id="other" width=10 height=20>"#), None);
    assert_eq!(canvas_size_in_page(r#"<canvas id="unity-canvas" width="960" height="600">"#), None);
    assert_eq!(canvas_size_in_page(r#"<canvas id="unity-canvas"> width=960 height=600"#), None);
}

#[test]
fn unreadable_dimensions_fall_back() {
    let page = r#"<canvas id="unity-canvas" width=99999999999 height=480>"#;
    assert_eq!(canvas_size_in_page(page), Some(CanvasSize { width: DEFAULT_WIDTH, height: 480 }));
    let page = r#"<canvas id="unity-canvas" width=640 height=٣>"#;
    assert_eq!(canvas_size_in_page(page), Some(CanvasSize { width: 640, height: DEFAULT_HEIGHT }));
}

#[test]
fn captures_to_size() {
    let groups = vec![Some("whole".to_string()), Some("800".to_string()), Some("450".to_string())];
    assert_eq!(canvas_size_from_captures(Some(groups)), Some(CanvasSize { width: 800, height: 450 }));
    assert_eq!(canvas_size_from_captures(None), None);
    let missing = vec![Some("whole".to_string()), None];
    assert_eq!(canvas_size_from_captures(Some(missing)), Some(CanvasSize { width: 1600, height: 900 }));
}

#[test]
fn page_size_defaults() {
    assert_eq!(page_canvas_size(None), CanvasSize { width: 1600, height: 900 });
    let s = CanvasSize { width: 3, height: 4 };
    assert_eq!(page_canvas_size(Some(s)), s);
}
