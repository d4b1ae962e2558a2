use orbit::json::json_quote;
use orbit::schema::{
    extract_json_region, gemini_request_body, gemini_request_url, inject_schema,
    normalize_schema_json, schema_injection_needed, schema_prompt, schema_request,
    wrap_user_code,
};

fn expected_prompt(raw_code: &str) -> String {
    format!(
        "Sen usta bir yazılım mimarısın. Aşağıdaki Rust kodunu incele ve SADECE GEÇERLİ BİR JSON nesnesi döndür.
        Markdown (```json), açıklama veya fazladan hiçbir kelime KULLANMA.
        JSON formatı KESİNLİKLE şu yapıda bir 'nesne' (object) olmalıdır. ASLA doğrudan dizi (array) ile başlama!
        {{
            \"isim\": \"AI Destekli Uygulama\",
            \"bilesenler\": [
                {{ \"tip\": \"sayi_girisi\", \"id\": \"degisken_adi\", \"etiket\": \"Kullanıcıya Gösterilecek Metin\" }},
                {{ \"tip\": \"buton\", \"id\": \"calistir_btn\", \"etiket\": \"Çalıştır\", \"fonksiyon\": \"asil_fonksiyon_ismi\", \"girdiler\": [\"degisken_adi\"] }}
            ]
        }}
        
        İşte Kod:\n{}", raw_code
    )
}

fn expected_wrap(final_json: &str, raw_code: &str) -> String {
    format!(
        "
static UI_SCHEMA: &str = r#\"{}\"#;

#[unsafe(no_mangle)]
pub extern \"C\" fn get_schema_ptr() -> *const u8 {{ UI_SCHEMA.as_ptr() }}

#[unsafe(no_mangle)]
pub extern \"C\" fn get_schema_len() -> usize {{ UI_SCHEMA.len() }}

// --- KULLANICININ ORİJİNAL KODU ---
{}
",
        final_json, raw_code
    )
}

#[test]
fn prompt_matches_template() {
    let code = "pub fn topla(a: i32, b: i32) -> i32 { a + b }";
    assert_eq!(schema_prompt(code), expected_prompt(code));
}

#[test]
fn url_carries_key() {
    assert_eq!(
        gemini_request_url("KEY123"),
        "https://generativelanguage.googleapis.com/v1beta/models/gemini-2.5-flash:generateContent?key=KEY123"
    );
}

#[test]
fn request_body_is_json_with_escaped_prompt() {
    let prompt = "line \"one\"\nback\\slash\ttab \u{1} é";
    let body = gemini_request_body(prompt);
    let parsed: serde_json::Value = serde_json::from_str(&body).unwrap();
    assert_eq!(parsed["contents"][0]["parts"][0]["text"].as_str(), Some(prompt));
    assert_eq!(body, serde_json::to_string(&parsed).unwrap());
    assert_eq!(
        body,
        format!("{{\"contents\":[{{\"parts\":[{{\"text\":{}}}]}}]}}", serde_json::to_string(prompt).unwrap())
    );
    assert_eq!(json_quote("a\"b\n\u{1f}"), "\"a\\\"b\\n\\u001f\"");
}

#[test]
fn code_with_schema_is_not_sent() {
    assert!(!schema_injection_needed("static UI_SCHEMA: &str = \"{}\";"));
    assert!(schema_injection_needed("fn f() {}"));
    assert!(schema_request("const UI_SCHEMA: u8 = 0;", "k").is_none());
    let req = schema_request("fn f() {}", "k").unwrap();
    assert_eq!(req.url, gemini_request_url("k"));
    assert_eq!(req.body, gemini_request_body(&expected_prompt("fn f() {}")));
}

#[test]
fn region_is_cut_from_first_opener_to_last_closer() {
    assert_eq!(
        extract_json_region("Here you go:\n```json\n{\"isim\": \"x\", \"bilesenler\": []}\n```"),
        "{\"isim\": \"x\", \"bilesenler\": []}"
    );
    assert_eq!(extract_json_region("  [1, 2]  tail"), "[1, 2]");
    assert_eq!(extract_json_region("  no json here \n"), "no json here");
    assert_eq!(extract_json_region("} backwards {"), "} backwards {");
    assert_eq!(extract_json_region(""), "");
}

#[test]
fn array_schema_becomes_object() {
    assert_eq!(
        normalize_schema_json("[{\"tip\": \"buton\"}]"),
        "{\"isim\": \"✨ AI Tarafından Üretildi\", \"bilesenler\": [{\"tip\": \"buton\"}]}"
    );
    assert_eq!(normalize_schema_json("{\"isim\": \"a\"}"), "{\"isim\": \"a\"}");
    assert_eq!(normalize_schema_json(""), "");
}

#[test]
fn wrapped_code_matches_template() {
    assert_eq!(wrap_user_code("{\"a\":1}", "fn f() {}"), expected_wrap("{\"a\":1}", "fn f() {}"));
}

#[test]
fn injection_paths() {
    let raw = "pub fn alan(a: i32) -> i32 { a }";
    assert_eq!(inject_schema(raw, None), raw);
    let reply = "```json\n[ {\"tip\": \"buton\"} ]\n```";
    let expected = expected_wrap(
        "{\"isim\": \"✨ AI Tarafından Üretildi\", \"bilesenler\": [ {\"tip\": \"buton\"} ]}",
        raw,
    );
    let once = inject_schema(raw, Some(reply));
    assert_eq!(once, expected);
    // A second injection leaves the wrapped code as it is.
    assert_eq!(inject_schema(&once, Some("{\"other\": 1}")), once);
    assert_eq!(inject_schema(&once, None), once);
    let with_schema = "static UI_SCHEMA: &str = \"{}\";";
    assert_eq!(inject_schema(with_schema, Some("{}")), with_schema);
}

#[test]
fn injected_code_keeps_user_code() {
    let raw = "pub fn topla(a: i32, b: i32) -> i32 { a + b }";
    let out = inject_schema(raw, Some("{\"isim\": \"T\", \"bilesenler\": []}"));
    assert!(out.contains(raw));
    assert!(out.ends_with(&format!("{}\n", raw)));
    let region = extract_json_region("\n\t {\"a\": 1} \n");
    assert_eq!(region.trim(), region);
}
