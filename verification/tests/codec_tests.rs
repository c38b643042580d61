use backdrop::background::{BkgConfig, LayerConfig};
use backdrop::config_text::{load_config, save_config};

fn sample_config() -> BkgConfig {
    let mut l1 = LayerConfig::new();
    l1.bmp_width = 64;
    l1.bmp_height = 32;
    l1.draw_repeat_x = 3;
    l1.draw_repeat_gap_x = 16;
    l1.draw_corner_offset_x = -5;
    l1.animation_style.frame_count = 4;
    l1.animation_style.animation_speed = 8;
    l1.animation_style.scroll_speed_x = -2;
    l1.animation_style.scroll_flags.autoscroll_x = true;
    l1.animation_style.scroll_flags.random_scroll_speed_y = true;
    let mut l2 = LayerConfig::new();
    l2.layer_enabled = false;
    l2.bmp_y_offset = 128;
    BkgConfig {
        version: 1,
        bmp_filename: "bkMoon".to_string(),
        lighting_mode: 2,
        layers: vec![l1, l2],
    }
}

#[test]
fn canonical_text_starts_with_the_header() {
    let c = BkgConfig::default();
    let text = save_config(&c);
    assert!(text.starts_with("{\"version\":1,\"bmp_filename\":\"\",\"lighting_mode\":0,\"layers\":["));
    assert!(text.ends_with("]}"));
}

#[test]
fn saved_text_loads_back_to_the_same_config() {
    let c = sample_config();
    let text = save_config(&c);
    let loaded = load_config(&text).expect("canonical text must load");
    assert_eq!(loaded, c);
}

#[test]
fn loading_then_saving_reproduces_the_file() {
    let c = sample_config();
    let file = save_config(&c);
    let loaded = load_config(&file).unwrap();
    let saved = save_config(&loaded);
    assert_eq!(saved, file);
}

#[test]
fn transient_fields_come_back_zeroed() {
    let mut c = sample_config();
    c.layers[0].layer_x_value = 77;
    c.layers[0].layer_y_value = -3;
    c.layers[0].animation_style.ani_wait = 5;
    let text = save_config(&c);
    let loaded = load_config(&text).unwrap();
    assert_eq!(loaded.layers[0].layer_x_value, 0);
    assert_eq!(loaded.layers[0].layer_y_value, 0);
    assert_eq!(loaded.layers[0].animation_style.ani_wait, 0);
}

#[test]
fn non_canonical_text_is_rejected() {
    assert!(load_config("").is_none());
    assert!(load_config("{}").is_none());
    assert!(load_config("{\"version\": 1}").is_none()); // whitespace is not canonical
    let c = BkgConfig::default();
    let mut text = save_config(&c);
    text.push(' ');
    assert!(load_config(&text).is_none()); // trailing bytes are rejected
}

#[test]
fn empty_layer_list_round_trips() {
    let c = BkgConfig {
        version: 1,
        bmp_filename: String::new(),
        lighting_mode: 0,
        layers: Vec::new(),
    };
    let text = save_config(&c);
    let loaded = load_config(&text).unwrap();
    assert_eq!(loaded, c);
    assert_eq!(save_config(&loaded), text);
}

#[test]
fn names_beyond_ascii_round_trip() {
    let mut c = BkgConfig::default();
    c.bmp_filename = "bkMøön—æ".to_string();
    let text = save_config(&c);
    let loaded = load_config(&text).expect("quote-free names load");
    assert_eq!(loaded.bmp_filename, "bkMøön—æ");
    assert_eq!(save_config(&loaded), text);
}

#[test]
fn names_with_quotes_cannot_round_trip() {
    // a double quote in the name breaks the canonical framing, so the text
    // re-parses with a truncated name and is rejected at the next key
    let mut c = BkgConfig::default();
    c.bmp_filename = "bad\"name".to_string();
    let text = save_config(&c);
    assert!(load_config(&text).is_none());
}
