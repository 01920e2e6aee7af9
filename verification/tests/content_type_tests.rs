use unity_web_server::content_type::{content_encoding, get_content_type};

#[test]
fn unity_build_files() {
    assert_eq!(get_content_type("Build/game.wasm"), "application/wasm");
    assert_eq!(get_content_type("Build/game.framework.js"), "application/javascript");
    assert_eq!(get_content_type("Build/game.loader.js"), "application/javascript");
    assert_eq!(get_content_type("Build/game.data"), "application/octet-stream");
    assert_eq!(get_content_type("Build/game.symbols.json"), "application/json");
}

#[test]
fn compressed_unity_build_files_keep_their_type() {
    assert_eq!(get_content_type("game.wasm.br"), "application/wasm");
    assert_eq!(get_content_type("game.wasm.gz"), "application/wasm");
    assert_eq!(get_content_type("game.framework.js.br"), "application/javascript");
    assert_eq!(get_content_type("game.framework.js.gz"), "application/javascript");
    assert_eq!(get_content_type("game.data.br"), "application/octet-stream");
    assert_eq!(get_content_type("game.data.gz"), "application/octet-stream");
    assert_eq!(get_content_type("game.symbols.json.br"), "application/json");
    assert_eq!(get_content_type("game.symbols.json.gz"), "application/json");
}

#[test]
fn web_files() {
    assert_eq!(get_content_type("index.html"), "text/html");
    assert_eq!(get_content_type("TemplateData/style.css"), "text/css");
    assert_eq!(get_content_type("TemplateData/logo.png"), "image/png");
    assert_eq!(get_content_type("photo.jpg"), "image/jpeg");
    assert_eq!(get_content_type("photo.jpeg"), "image/jpeg");
    assert_eq!(get_content_type("favicon.ico"), "image/x-icon");
}

#[test]
fn other_files_are_octet_streams() {
    assert_eq!(get_content_type(""), "application/octet-stream");
    assert_eq!(get_content_type("readme.txt"), "application/octet-stream");
    assert_eq!(get_content_type("page.html.br"), "application/octet-stream");
    assert_eq!(get_content_type("data.json"), "application/octet-stream");
    assert_eq!(get_content_type("wasm"), "application/octet-stream");
}

#[test]
fn encodings_of_compressed_files() {
    assert_eq!(content_encoding("game.wasm.br"), Some("br"));
    assert_eq!(content_encoding("game.data.gz"), Some("gzip"));
    assert_eq!(content_encoding("anything.br"), Some("br"));
    assert_eq!(content_encoding("game.wasm"), None);
    assert_eq!(content_encoding("game.brx"), None);
    assert_eq!(content_encoding(""), None);
}

#[test]
fn directories_do_not_change_the_type() {
    for name in ["game.wasm.br", "a.js", "x.data.gz", "s.symbols.json", "i.html", "readme", "c.css.br"] {
        for dir in ["Build", "Build/sub", "", "weird.wasm"] {
            let path = format!("{}/{}", dir, name);
            assert_eq!(get_content_type(&path), get_content_type(name));
            assert_eq!(content_encoding(&path), content_encoding(name));
        }
    }
}
