use unity_web_server::canvas::CanvasSize;
use unity_web_server::page::index_page_html;

#[test]
fn page_carries_the_game_size() {
    let page = index_page_html(CanvasSize { width: 960, height: 600 });
    assert!(page.starts_with("<!DOCTYPE html>\n<html lang=\"en\">"));
    assert!(page.ends_with("</html>"));
    assert_eq!(page.matches("max-width: 1000px;").count(), 2);
    assert!(page.contains(r#"id="widthInput" class="size-input" value="960""#));
    assert!(page.contains(r#"id="heightInput" class="size-input" value="600""#));
    assert!(page.contains("style=\"aspect-ratio: 960/600;\""));
    assert!(page.contains("<small>Detected game size: 960×600</small>"));
    assert!(page.contains("const originalSize = { width: 960, height: 600 };"));
    assert!(page.contains("let currentSize = { ...originalSize };"));
    assert!(page.contains("frame.style.aspectRatio = `${currentSize.width}/${currentSize.height}`;"));
    assert!(!page.contains("{}"));
    assert!(!page.contains("{{"));
}

#[test]
fn default_page() {
    let page = index_page_html(CanvasSize { width: 1600, height: 900 });
    assert_eq!(page.matches("max-width: 1640px;").count(), 2);
    assert!(page.contains("Detected game size: 1600×900"));
}

#[test]
fn widest_page_that_fits() {
    let page = index_page_html(CanvasSize { width: u32::MAX - 40, height: 0 });
    assert!(page.contains("max-width: 4294967295px;"));
    assert!(page.contains("aspect-ratio: 4294967255/0;"));
}
