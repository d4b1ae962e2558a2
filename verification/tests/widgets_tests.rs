use orbit::desktop::UIComponent;
use orbit::widgets::{
    button_arguments, button_function, button_inputs, component_kind, frame_new, frame_step,
    frame_style, frame_z_index, initial_position, operand_after_input, play_button_label,
    play_button_style, playback_new, playback_tick, playback_toggle, ComponentKind, FrameEvent,
    FRAME_BYTES, FRAME_HEIGHT, FRAME_WIDTH,
};

#[test]
fn frames_cascade() {
    assert_eq!(initial_position(1), 90);
    assert_eq!(initial_position(7), 50 + (7 * 40) % 300);
    assert_eq!(initial_position(8), 70);
    // Numbers past i32::MAX wrap when converted, as `as i32` does.
    let id: usize = 4294967295;
    assert_eq!(initial_position(id), 50 + ((id as i32) * 40) % 300);
    assert_eq!(initial_position(id), 10);
    let f = frame_new(2);
    assert_eq!((f.x, f.y, f.dragging), (130, 130, false));
}

#[test]
fn frames_drag() {
    let f = frame_new(1);
    let moved = frame_step(f, FrameEvent::Move { dx: 5, dy: 5 });
    assert_eq!((moved.x, moved.y), (90, 90));
    let g = frame_step(moved, FrameEvent::Grab);
    assert!(g.dragging);
    let g = frame_step(g, FrameEvent::Move { dx: 10, dy: -20 });
    let g = frame_step(g, FrameEvent::Move { dx: 1, dy: 2 });
    assert_eq!((g.x, g.y), (101, 72));
    let r = frame_step(g, FrameEvent::Release);
    assert_eq!((r.x, r.y, r.dragging), (101, 72, false));
    assert_eq!(frame_z_index(true, 3), 10000);
    assert_eq!(frame_z_index(false, 3), 3);
}

#[test]
fn frame_style_matches_template() {
    let (x, y, z) = (-15, 90, 10000usize);
    assert_eq!(
        frame_style(x, y, z),
        format!("position: absolute; left: {}px; top: {}px; width: 260px; background: white; border-radius: 8px; box-shadow: 0 10px 30px rgba(0,0,0,0.3); overflow: hidden; display: flex; flex-direction: column; z-index: {};", x, y, z)
    );
}

#[test]
fn playback() {
    let p = playback_new();
    assert!(p.playing);
    let mut p = p;
    assert_eq!(playback_tick(&mut p), 0);
    assert_eq!(playback_tick(&mut p), 2);
    assert_eq!(p.time, 4);
    let q = playback_toggle(&p);
    assert!(!q.playing);
    assert_eq!(q.time, 4);
    assert_eq!(play_button_label(true), "Durdur");
    assert_eq!(play_button_label(false), "Başlat");
    assert_eq!(
        play_button_style(false),
        format!("margin-top: 10px; width: 100%; padding: 8px; color: white; border: none; border-radius: 5px; cursor: pointer; background: {};", "#2e7d32")
    );
    assert_eq!(FRAME_BYTES, FRAME_WIDTH * FRAME_HEIGHT * 4);
}

#[test]
fn operands() {
    assert_eq!(operand_after_input(5, "12"), 12);
    assert_eq!(operand_after_input(5, ""), 5);
    assert_eq!(operand_after_input(5, "1.5"), 5);
    assert_eq!(operand_after_input(5, "-8"), -8);
}

#[test]
fn schema_elements() {
    assert!(matches!(component_kind("sayi_girisi"), ComponentKind::NumberInput));
    assert!(matches!(component_kind("buton"), ComponentKind::Button));
    assert!(matches!(component_kind("Buton"), ComponentKind::Unknown));
    let b = UIComponent {
        tip: "buton".to_string(),
        id: "hesap_btn".to_string(),
        etiket: "Hesapla".to_string(),
        fonksiyon: Some("alan_bul".to_string()),
        girdiler: Some(vec!["genislik".to_string(), "yukseklik".to_string()]),
    };
    assert_eq!(button_function(&b), "alan_bul");
    assert_eq!(button_inputs(&b), vec!["genislik".to_string(), "yukseklik".to_string()]);
    let bare = UIComponent { fonksiyon: None, girdiler: None, ..b };
    assert_eq!(button_function(&bare), "");
    assert!(button_inputs(&bare).is_empty());
    let values = vec![Some("3".to_string()), None, Some("abc".to_string()), Some("-4".to_string())];
    assert_eq!(button_arguments(&values), vec![3, 0, 0, -4]);
}
