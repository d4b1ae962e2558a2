use orbit::desktop::{
    copy_mode, classify_exports, github_fetch_allowed, same_window, server_error_status, window_title,
    AppMode, Desktop, PluginExports, SchemaLoad, UIComponent, UISchema, WindowEntry,
};
use orbit::template::{alan_bul, default_plugin_code, get_schema_len, UI_SCHEMA};
use orbit::schema::schema_injection_needed;
use orbit::security::is_code_safe;

fn schema(name: &str) -> UISchema {
    UISchema {
        isim: name.to_string(),
        bilesenler: vec![UIComponent {
            tip: "buton".to_string(),
            id: "b".to_string(),
            etiket: "Hesapla".to_string(),
            fonksiyon: Some("alan_bul".to_string()),
            girdiler: Some(vec!["genislik".to_string()]),
        }],
    }
}

fn ids(d: &Desktop<&'static str>) -> Vec<usize> {
    d.windows().iter().map(|w| w.id).collect()
}

#[test]
fn windows_are_numbered_from_one() {
    let mut d: Desktop<&'static str> = Desktop::new();
    assert!(d.is_empty());
    assert_eq!(d.next_id(), 1);
    assert_eq!(d.open(AppMode::Graphics, "g"), 1);
    assert_eq!(d.open(AppMode::Calculator, "c"), 2);
    assert_eq!(ids(&d), vec![1, 2]);
    assert_eq!(d.next_id(), 3);
}

#[test]
fn close_undoes_open() {
    let mut d: Desktop<&'static str> = Desktop::new();
    d.open(AppMode::Graphics, "g");
    d.open(AppMode::UnknownTerminal, "t");
    let before = ids(&d);
    let id = d.open(AppMode::Calculator, "c");
    d.close(id);
    assert_eq!(ids(&d), before);
    d.close(1);
    assert_eq!(ids(&d), vec![2]);
    d.close(99);
    assert_eq!(ids(&d), vec![2]);
}

#[test]
fn loading_plugins() {
    let mut d: Desktop<&'static str> = Desktop::new();
    let s = d.load_plugin(PluginExports::Plain { has_graphics: true, has_math: true }, "p1");
    assert_eq!(s.as_deref(), Some("✅ Klasik eklenti eklendi (ID: 1)."));
    let s = d.load_plugin(PluginExports::WithSchema(SchemaLoad::Malformed), "p2");
    assert_eq!(s.as_deref(), Some("❌ Şema formatı hatalı!"));
    let s = d.load_plugin(PluginExports::WithSchema(SchemaLoad::NotText), "p3");
    assert_eq!(s, None);
    let s = d.load_plugin(PluginExports::WithSchema(SchemaLoad::Parsed(schema("Alan"))), "p4");
    assert_eq!(s.as_deref(), Some("✅ Dinamik Eklenti Çizildi! (ID: 4)"));
    assert_eq!(ids(&d), vec![1, 4]);
    assert_eq!(d.windows()[0].mode, AppMode::Graphics);
    assert_eq!(d.windows()[1].mode, AppMode::Dynamic(schema("Alan")));
    assert_eq!(d.next_id(), 5);
}

#[test]
fn plain_plugins_are_classified() {
    assert_eq!(classify_exports(true, false), AppMode::Graphics);
    assert_eq!(classify_exports(false, true), AppMode::Calculator);
    assert_eq!(classify_exports(false, false), AppMode::UnknownTerminal);
}

#[test]
fn titles_name_kind_and_number() {
    let w = |mode| WindowEntry { id: 12, mode, payload: () };
    assert_eq!(window_title(&w(AppMode::Graphics)), "🎨 Grafik Motoru (ID: 12)");
    assert_eq!(window_title(&w(AppMode::Calculator)), "🧮 Hesap Makinesi (ID: 12)");
    assert_eq!(window_title(&w(AppMode::UnknownTerminal)), "🖥️ Terminal (ID: 12)");
    assert_eq!(window_title(&w(AppMode::Dynamic(schema("Alan Hesaplayıcı")))), "✨ Alan Hesaplayıcı (ID: 12)");
    assert!(same_window(&w(AppMode::Graphics), &w(AppMode::Calculator)));
}

#[test]
fn status_lines() {
    assert_eq!(server_error_status("boom"), "❌ Hata: boom");
    assert!(!github_fetch_allowed("   \t"));
    assert!(github_fetch_allowed(" https://github.com/a/b "));
}

#[test]
fn default_plugin_carries_its_schema() {
    let code = default_plugin_code();
    assert!(code.starts_with("static UI_SCHEMA: &str = r#\"{"));
    assert!(code.contains(UI_SCHEMA));
    assert!(!schema_injection_needed(&code));
    assert_eq!(is_code_safe(&code), Ok(()));
    assert_eq!(get_schema_len(), UI_SCHEMA.len());
    let parsed: serde_json::Value = serde_json::from_str(UI_SCHEMA).unwrap();
    assert_eq!(parsed["isim"], "Alan Hesaplayıcı (Dinamik)");
    assert_eq!(alan_bul(6, 7), 42);
    assert_eq!(alan_bul(-3, 4), -12);
}

#[test]
fn duplicate_keeps_windows() {
    let mut d: Desktop<&'static str> = Desktop::new();
    d.open(AppMode::Graphics, "g");
    d.open(AppMode::Dynamic(schema("S")), "s");
    d.close(1);
    let mut e = d.duplicate();
    assert_eq!(ids(&e), ids(&d));
    assert_eq!(e.next_id(), d.next_id());
    assert_eq!(e.windows()[0].mode, AppMode::Dynamic(schema("S")));
    assert_eq!(e.open(AppMode::Calculator, "c"), 3);
    assert_eq!(ids(&d), vec![2]);
}

#[test]
fn copied_kinds_are_equal() {
    let m = AppMode::Dynamic(schema("Alan"));
    assert_eq!(copy_mode(&m), m);
    assert_eq!(copy_mode(&AppMode::Calculator), AppMode::Calculator);
}
