//! The HTML page that frames a Unity WebGL game with size controls.

use vstd::prelude::*;
use crate::canvas::CanvasSize;
use crate::text::{contains_text, decimal_text, decimal_u32, lemma_occurs_at_end, lemma_occurs_extends, occurs_at};

verus! {

/// The page up to the maximum width of the game container.
pub const PAGE_HEAD: &'static str = r#"<!DOCTYPE html>
<html lang="en">
<head>
    <meta charset="UTF-8">
    <meta name="viewport" content="width=device-width, initial-scale=1.0">
    <title>Unity WebGL Game</title>
    <style>
        :root {
            --bg-color: #1e1e1e;
            --container-bg: #2d2d2d;
            --text-color: #e0e0e0;
            --border-color: #404040;
            --accent-color: #0098ff;
            --accent-hover: #00b4ff;
            --status-bg: #264f3e;
            --status-border: #2d7355;
            --status-text: #a8e6c6;
            --input-bg: #363636;
        }
        body {
            font-family: Arial, sans-serif;
            margin: 0;
            padding: 20px;
            background-color: var(--bg-color);
            color: var(--text-color);
            display: flex;
            flex-direction: column;
            align-items: center;
        }
        .game-container {
            background-color: var(--container-bg);
            padding-y: 20px;
            border-radius: 10px;
            box-shadow: 0 4px 12px rgba(0,0,0,0.3);
            margin-bottom: 20px;
            width: 90%;
            "#;

/// From the game container width to the maximum width of the status box.
pub const PAGE_BEFORE_STATUS_WIDTH: &'static str = r#"
        }
        .game-frame {
            width: 100%;
            border: none;
            border-radius: 5px;
            margin-bottom: 15px;
            background-color: var(--container-bg);
        }
        .controls {
            display: flex;
            justify-content: center;
            gap: 10px;
            flex-wrap: wrap;
            margin: 15px 0;
        }
        .button {
            display: inline-block;
            padding: 10px 20px;
            background-color: var(--accent-color);
            color: var(--text-color);
            text-decoration: none;
            border-radius: 5px;
            transition: all 0.2s ease;
            border: none;
            cursor: pointer;
            font-size: 14px;
        }
        .button:hover {
            background-color: var(--accent-hover);
            transform: translateY(-1px);
        }
        .status {
            background-color: var(--status-bg);
            border: 1px solid var(--status-border);
            color: var(--status-text);
            padding: 15px;
            border-radius: 5px;
            margin: 20px 0;
            width: 90%;
            "#;

/// From the status box width to the width input.
pub const PAGE_BEFORE_WIDTH_INPUT: &'static str = r#"
            text-align: center;
        }
        .host-select, .size-input {
            padding: 8px;
            border-radius: 5px;
            border: 1px solid var(--border-color);
            background-color: var(--input-bg);
            color: var(--text-color);
            margin-right: 10px;
            font-size: 14px;
        }
        .size-input {
            width: 80px;
        }
        .size-controls {
            display: flex;
            align-items: center;
            gap: 10px;
            margin-right: 20px;
        }
        select option {
            background-color: var(--container-bg);
            color: var(--text-color);
        }
        /* Improved visibility for × separator */
        .size-controls span {
            color: var(--text-color);
            font-size: 16px;
            padding: 0 5px;
        }
    </style>
</head>
<body>
    <div class="game-container">
        <div class="controls">
            <div class="size-controls">
                <select id="sizeSelect" class="host-select" onchange="updateSize()">
                    <option value="auto">Auto-Detect size</option>
                    <option value="manual">Manually set size</option>
                </select>
                <input type="number" "#;

/// From the width input to the height input.
pub const PAGE_BEFORE_HEIGHT_INPUT: &'static str = r#" style="display: none;" onchange="updateManualSize()">
                <span style="display: none;">×</span>
                <input type="number" "#;

/// From the height input to the style of the game frame.
pub const PAGE_BEFORE_FRAME_STYLE: &'static str = r#" style="display: none;" onchange="updateManualSize()">
            </div>
            <button onclick="toggleFullscreen()" class="button">Fullscreen</button>
            <a href="/Build/index.html" class="button" target="_blank">Open in new tab</a>
        </div>

        <iframe id="gameFrame" 
            src="/Build/index.html" 
            class="game-frame"
            allowtransparency="true"
            webkitallowfullscreen="true"
            mozallowfullscreen="true"
            msallowfullscreen="true"
            allowfullscreen="true"
            scrolling="no"
            frameborder="0"
            "#;

/// From the frame style to the size shown in the status box.
pub const PAGE_BEFORE_SHOWN_SIZE: &'static str = r#"
            allow="autoplay; fullscreen *; geolocation; microphone; camera; midi; monetization; xr-spatial-tracking; gamepad; gyroscope; accelerometer; xr; cross-origin-isolated; web-share">
        </iframe>
    </div>
    
    <div class="status">
        <strong>✅ Server Status:</strong> Running with Unity WebGL support
        <br>
        <small>"#;

/// From the shown size to the size in the script.
pub const PAGE_BEFORE_SCRIPT_SIZE: &'static str = r#"
    </div>

    <script>
        "#;

/// The rest of the page.
pub const PAGE_TAIL: &'static str = r#"
        let currentSize = { ...originalSize };

        function updateSize() {
            const sizeSelect = document.getElementById('sizeSelect');
            const widthInput = document.getElementById('widthInput');
            const heightInput = document.getElementById('heightInput');
            const spans = document.querySelectorAll('.size-controls span');
            
            if (sizeSelect.value === 'manual') {
                widthInput.style.display = 'inline-block';
                heightInput.style.display = 'inline-block';
                spans.forEach(span => span.style.display = 'inline');
            } else {
                widthInput.style.display = 'none';
                heightInput.style.display = 'none';
                spans.forEach(span => span.style.display = 'none');
                currentSize = { ...originalSize };
                updateAspectRatio();
            }
        }

        function updateManualSize() {
            const widthInput = document.getElementById('widthInput');
            const heightInput = document.getElementById('heightInput');
            
            currentSize.width = parseInt(widthInput.value) || originalSize.width;
            currentSize.height = parseInt(heightInput.value) || originalSize.height;
            
            updateAspectRatio();
        }

        function updateAspectRatio() {
            const frame = document.getElementById('gameFrame');
            frame.style.aspectRatio = `${currentSize.width}/${currentSize.height}`;
        }

        function toggleFullscreen() {
            const frame = document.getElementById('gameFrame');
            if (frame.requestFullscreen) {
                frame.requestFullscreen();
            } else if (frame.webkitRequestFullscreen) {
                frame.webkitRequestFullscreen();
            } else if (frame.msRequestFullscreen) {
                frame.msRequestFullscreen();
            }
        }
    </script>
</body>
</html>"#;

/// The page for a game of the given size: the game container and the status
/// box are 40 pixels wider than the game; the size inputs, the aspect ratio
/// of the game frame, the size shown and the script all carry the game size.
pub open spec fn index_page_text(size: CanvasSize) -> Seq<char> {
    let cw = decimal_text((size.width + 40) as nat);
    let w = decimal_text(size.width as nat);
    let h = decimal_text(size.height as nat);
    PAGE_HEAD@
        + ("max-width: "@ + cw + "px;"@)
        + PAGE_BEFORE_STATUS_WIDTH@
        + ("max-width: "@ + cw + "px;"@)
        + PAGE_BEFORE_WIDTH_INPUT@
        + ("id=\"widthInput\" class=\"size-input\" value=\""@ + w + "\""@)
        + PAGE_BEFORE_HEIGHT_INPUT@
        + ("id=\"heightInput\" class=\"size-input\" value=\""@ + h + "\""@)
        + PAGE_BEFORE_FRAME_STYLE@
        + ("style=\"aspect-ratio: "@ + w + "/"@ + h + ";\""@)
        + PAGE_BEFORE_SHOWN_SIZE@
        + ("Detected game size: "@ + w + "×"@ + h + "</small>"@)
        + PAGE_BEFORE_SCRIPT_SIZE@
        + ("const originalSize = { width: "@ + w + ", height: "@ + h + " };"@)
        + PAGE_TAIL@
}

/// The text `open + value + close`.
fn framed(open: &str, value: &str, close: &str) -> (t: String)
    ensures
        t@ == open@ + value@ + close@,
{
    let mut t = String::from_str(open);
    t.append(value);
    t.append(close);
    t
}

/// The text `open + first + middle + second + close`.
fn framed_pair(open: &str, first: &str, middle: &str, second: &str, close: &str) -> (t: String)
    ensures
        t@ == open@ + first@ + middle@ + second@ + close@,
{
    let mut t = String::from_str(open);
    t.append(first);
    t.append(middle);
    t.append(second);
    t.append(close);
    t
}

/// Renders the page for a game of the given size.
pub fn index_page_html(size: CanvasSize) -> (page: String)
    requires
        size.width + 40 <= u32::MAX,
    ensures
        page@ == index_page_text(size),
{
    let cw = decimal_u32(size.width + 40);
    let w = decimal_u32(size.width);
    let h = decimal_u32(size.height);
    let mut page = String::from_str(PAGE_HEAD);
    page.append(framed("max-width: ", cw.as_str(), "px;").as_str());
    page.append(PAGE_BEFORE_STATUS_WIDTH);
    page.append(framed("max-width: ", cw.as_str(), "px;").as_str());
    page.append(PAGE_BEFORE_WIDTH_INPUT);
    page.append(framed("id=\"widthInput\" class=\"size-input\" value=\"", w.as_str(), "\"").as_str());
    page.append(PAGE_BEFORE_HEIGHT_INPUT);
    page.append(framed("id=\"heightInput\" class=\"size-input\" value=\"", h.as_str(), "\"").as_str());
    page.append(PAGE_BEFORE_FRAME_STYLE);
    page.append(framed_pair("style=\"aspect-ratio: ", w.as_str(), "/", h.as_str(), ";\"").as_str());
    page.append(PAGE_BEFORE_SHOWN_SIZE);
    page.append(framed_pair("Detected game size: ", w.as_str(), "×", h.as_str(), "</small>").as_str());
    page.append(PAGE_BEFORE_SCRIPT_SIZE);
    page.append(framed_pair("const originalSize = { width: ", w.as_str(), ", height: ", h.as_str(), " };").as_str());
    page.append(PAGE_TAIL);
    page
}

/// Every spot of the page that carries the game size carries it as given,
/// the width before the height, whichever is larger: the game container and
/// the status box are both 40 pixels wider than the game, the width and
/// height inputs hold the width and the height, the game frame has the
/// aspect ratio `width/height`, and the status box and the script show the
/// width and the height.
pub proof fn lemma_page_carries_the_size(size: CanvasSize, page: Seq<char>)
    requires
        page == index_page_text(size),
    ensures
        ({
            let t = "max-width: "@ + decimal_text((size.width + 40) as nat) + "px;"@;
            exists|i: int, j: int| occurs_at(page, t, i) && occurs_at(page, t, j) && i + t.len() <= j
        }),
        contains_text(page, "id=\"widthInput\" class=\"size-input\" value=\""@ + decimal_text(size.width as nat) + "\""@),
        contains_text(page, "id=\"heightInput\" class=\"size-input\" value=\""@ + decimal_text(size.height as nat) + "\""@),
        contains_text(page, "style=\"aspect-ratio: "@ + decimal_text(size.width as nat) + "/"@ + decimal_text(size.height as nat) + ";\""@),
        contains_text(page, "Detected game size: "@ + decimal_text(size.width as nat) + "×"@ + decimal_text(size.height as nat) + "</small>"@),
        contains_text(page, "const originalSize = { width: "@ + decimal_text(size.width as nat) + ", height: "@ + decimal_text(size.height as nat) + " };"@),
{
    let cw = decimal_text((size.width + 40) as nat);
    let w = decimal_text(size.width as nat);
    let h = decimal_text(size.height as nat);
    let s0 = PAGE_HEAD@;
    let t0 = ("max-width: "@ + cw + "px;"@);
    let a0 = s0 + t0;
    let b0 = a0 + PAGE_BEFORE_STATUS_WIDTH@;
    let t1 = ("max-width: "@ + cw + "px;"@);
    let a1 = b0 + t1;
    let b1 = a1 + PAGE_BEFORE_WIDTH_INPUT@;
    let t2 = ("id=\"widthInput\" class=\"size-input\" value=\""@ + w + "\""@);
    let a2 = b1 + t2;
    let b2 = a2 + PAGE_BEFORE_HEIGHT_INPUT@;
    let t3 = ("id=\"heightInput\" class=\"size-input\" value=\""@ + h + "\""@);
    let a3 = b2 + t3;
    let b3 = a3 + PAGE_BEFORE_FRAME_STYLE@;
    let t4 = ("style=\"aspect-ratio: "@ + w + "/"@ + h + ";\""@);
    let a4 = b3 + t4;
    let b4 = a4 + PAGE_BEFORE_SHOWN_SIZE@;
    let t5 = ("Detected game size: "@ + w + "×"@ + h + "</small>"@);
    let a5 = b4 + t5;
    let b5 = a5 + PAGE_BEFORE_SCRIPT_SIZE@;
    let t6 = ("const originalSize = { width: "@ + w + ", height: "@ + h + " };"@);
    let a6 = b5 + t6;
    let b6 = a6 + PAGE_TAIL@;
    assert(page == b6);
    broadcast use lemma_occurs_extends;

    lemma_occurs_at_end(s0, t0);
    lemma_occurs_at_end(b0, t1);
    lemma_occurs_at_end(b1, t2);
    lemma_occurs_at_end(b2, t3);
    lemma_occurs_at_end(b3, t4);
    lemma_occurs_at_end(b4, t5);
    lemma_occurs_at_end(b5, t6);
    assert(t0 == t1);
    assert(occurs_at(page, t0, s0.len() as int) && occurs_at(page, t0, b0.len() as int));
    assert(occurs_at(page, t2, b1.len() as int));
    assert(occurs_at(page, t3, b2.len() as int));
    assert(occurs_at(page, t4, b3.len() as int));
    assert(occurs_at(page, t5, b4.len() as int));
    assert(occurs_at(page, t6, b5.len() as int));
}

} // verus!
