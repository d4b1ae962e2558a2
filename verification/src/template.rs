//! The plugin template: the area calculator that is offered as the default
//! plugin, with its embedded UI schema.
use vstd::prelude::*;
use crate::schema::{needs_schema, SCHEMA_MARKER};
use crate::text::occurs_at;

verus! {

/// The UI schema that the area-calculator plugin embeds.
pub const UI_SCHEMA: &'static str = "{\n  \"isim\": \"Alan Hesaplayıcı (Dinamik)\",\n  \"bilesenler\": [\n    { \"tip\": \"sayi_girisi\", \"id\": \"genislik\", \"etiket\": \"Genişlik (m):\" },\n    { \"tip\": \"sayi_girisi\", \"id\": \"yukseklik\", \"etiket\": \"Yükseklik (m):\" },\n    { \n      \"tip\": \"buton\", \n      \"id\": \"hesap_btn\", \n      \"etiket\": \"📐 Alanı Hesapla\", \n      \"fonksiyon\": \"alan_bul\", \n      \"girdiler\": [\"genislik\", \"yukseklik\"] \n    }\n  ]\n}";

/// The complete source of the area-calculator plugin, as offered for editing.
pub const DEFAULT_PLUGIN_CODE: &'static str = "static UI_SCHEMA: &str = r#\"{\n  \"isim\": \"Alan Hesaplayıcı (Dinamik)\",\n  \"bilesenler\": [\n    { \"tip\": \"sayi_girisi\", \"id\": \"genislik\", \"etiket\": \"Genişlik (m):\" },\n    { \"tip\": \"sayi_girisi\", \"id\": \"yukseklik\", \"etiket\": \"Yükseklik (m):\" },\n    { \n      \"tip\": \"buton\", \n      \"id\": \"hesap_btn\", \n      \"etiket\": \"📐 Alanı Hesapla\", \n      \"fonksiyon\": \"alan_bul\", \n      \"girdiler\": [\"genislik\", \"yukseklik\"] \n    }\n  ]\n}\"#;\n\n#[unsafe(no_mangle)]\npub extern \"C\" fn get_schema_ptr() -> *const u8 { UI_SCHEMA.as_ptr() }\n\n#[unsafe(no_mangle)]\npub extern \"C\" fn get_schema_len() -> usize { UI_SCHEMA.len() }\n\n#[unsafe(no_mangle)]\npub extern \"C\" fn alan_bul(a: i32, b: i32) -> i32 { a * b }\n";

/// The length in bytes of the embedded UI schema, as exported to the host.
pub fn get_schema_len() -> (n: usize)
    ensures
        n == vstd::utf8::encode_utf8(UI_SCHEMA@).len(),
{
    UI_SCHEMA.as_bytes().len()
}

/// The area of a rectangle: the product of its two sides.
pub fn alan_bul(a: i32, b: i32) -> (r: i32)
    requires
        i32::MIN <= a * b <= i32::MAX,
    ensures
        r == a * b,
{
    a * b
}

/// The source text offered as the default plugin.
pub fn default_plugin_code() -> (r: String)
    ensures
        r@ == DEFAULT_PLUGIN_CODE@,
{
    DEFAULT_PLUGIN_CODE.to_owned()
}

/// The default plugin names its schema, so the service builds it as it is,
/// without asking the model for one.
pub proof fn lemma_default_plugin_carries_schema()
    ensures
        !needs_schema(DEFAULT_PLUGIN_CODE@),
{
    reveal_strlit("static UI_SCHEMA: &str = r#\"{\n  \"isim\": \"Alan Hesaplayıcı (Dinamik)\",\n  \"bilesenler\": [\n    { \"tip\": \"sayi_girisi\", \"id\": \"genislik\", \"etiket\": \"Genişlik (m):\" },\n    { \"tip\": \"sayi_girisi\", \"id\": \"yukseklik\", \"etiket\": \"Yükseklik (m):\" },\n    { \n      \"tip\": \"buton\", \n      \"id\": \"hesap_btn\", \n      \"etiket\": \"📐 Alanı Hesapla\", \n      \"fonksiyon\": \"alan_bul\", \n      \"girdiler\": [\"genislik\", \"yukseklik\"] \n    }\n  ]\n}\"#;\n\n#[unsafe(no_mangle)]\npub extern \"C\" fn get_schema_ptr() -> *const u8 { UI_SCHEMA.as_ptr() }\n\n#[unsafe(no_mangle)]\npub extern \"C\" fn get_schema_len() -> usize { UI_SCHEMA.len() }\n\n#[unsafe(no_mangle)]\npub extern \"C\" fn alan_bul(a: i32, b: i32) -> i32 { a * b }\n");
    reveal_strlit("UI_SCHEMA");
    assert(DEFAULT_PLUGIN_CODE@.subrange(7, 16) =~= SCHEMA_MARKER@);
    assert(occurs_at(DEFAULT_PLUGIN_CODE@, SCHEMA_MARKER@, 7));
}

} // verus!
