//! Attaching a UI schema to submitted plugin code. Code that carries no
//! schema is sent to a language model, whose reply is cut down to the JSON
//! it holds and embedded, with two exported accessors, in front of the code.
use vstd::prelude::*;
use crate::json::{json_quote, json_string_literal};
use crate::text::{
    chars_of, contains_seq, is_white_space, lemma_trim_idempotent, trim_end, trim_start, occurs_at, push_str, str_contains,
    string_of_range, trim, trim_bounds,
};

verus! {

broadcast use vstd::string::group_string_axioms;

/// The name whose presence in the code shows that it carries a schema.
pub const SCHEMA_MARKER: &'static str = "UI_SCHEMA";

/// The endpoint of the model; the API key follows it.
pub const GEMINI_URL_PREFIX: &'static str = "https://generativelanguage.googleapis.com/v1beta/models/gemini-2.5-flash:generateContent?key=";

/// The instructions to the model; the submitted code follows them.
pub const PROMPT_HEAD: &'static str = "Sen usta bir yazılım mimarısın. Aşağıdaki Rust kodunu incele ve SADECE GEÇERLİ BİR JSON nesnesi döndür.\n        Markdown (```json), açıklama veya fazladan hiçbir kelime KULLANMA.\n        JSON formatı KESİNLİKLE şu yapıda bir 'nesne' (object) olmalıdır. ASLA doğrudan dizi (array) ile başlama!\n        {\n            \"isim\": \"AI Destekli Uygulama\",\n            \"bilesenler\": [\n                { \"tip\": \"sayi_girisi\", \"id\": \"degisken_adi\", \"etiket\": \"Kullanıcıya Gösterilecek Metin\" },\n                { \"tip\": \"buton\", \"id\": \"calistir_btn\", \"etiket\": \"Çalıştır\", \"fonksiyon\": \"asil_fonksiyon_ismi\", \"girdiler\": [\"degisken_adi\"] }\n            ]\n        }\n        \n        İşte Kod:\n";

/// The JSON request body up to the prompt's string literal.
pub const BODY_HEAD: &'static str = "{\"contents\":[{\"parts\":[{\"text\":";

/// The JSON request body after the prompt's string literal.
pub const BODY_TAIL: &'static str = "}]}]}";

/// What is put in front of a bare JSON array to make it a schema object.
pub const ARRAY_WRAP_HEAD: &'static str = "{\"isim\": \"✨ AI Tarafından Üretildi\", \"bilesenler\": ";

/// The code that is put before the schema JSON.
pub const CODE_WRAP_HEAD: &'static str = "\nstatic UI_SCHEMA: &str = r#\"";

/// The code between the schema JSON and the submitted code.
pub const CODE_WRAP_MID: &'static str = "\"#;\n\n#[unsafe(no_mangle)]\npub extern \"C\" fn get_schema_ptr() -> *const u8 { UI_SCHEMA.as_ptr() }\n\n#[unsafe(no_mangle)]\npub extern \"C\" fn get_schema_len() -> usize { UI_SCHEMA.len() }\n\n// --- KULLANICININ ORİJİNAL KODU ---\n";

/// The code after the submitted code.
pub const CODE_WRAP_TAIL: &'static str = "\n";

// ---------------------------------------------------------------------------
// The request
// ---------------------------------------------------------------------------

/// Whether the code must be sent to the model: it does not name the schema.
pub open spec fn needs_schema(raw: Seq<char>) -> bool {
    !contains_seq(raw, SCHEMA_MARKER@)
}

/// The prompt for `raw`.
pub open spec fn prompt_for(raw: Seq<char>) -> Seq<char> {
    PROMPT_HEAD@ + raw
}

/// The request URL for an API key.
pub open spec fn request_url_for(key: Seq<char>) -> Seq<char> {
    GEMINI_URL_PREFIX@ + key
}

/// The JSON request body that carries `prompt` as its only text part.
pub open spec fn request_body_for(prompt: Seq<char>) -> Seq<char> {
    BODY_HEAD@ + json_string_literal(prompt) + BODY_TAIL@
}

/// A request to the model: where it goes and the JSON it carries.
#[derive(Clone, Debug)]
pub struct GeminiRequest {
    pub url: String,
    pub body: String,
}

/// Whether `raw` must be sent to the model.
pub fn schema_injection_needed(raw: &str) -> (b: bool)
    ensures
        b == needs_schema(raw@),
        b == !contains_seq(raw@, SCHEMA_MARKER@),
{
    !str_contains(raw, SCHEMA_MARKER)
}

/// The prompt that asks the model for the schema of `raw`.
pub fn schema_prompt(raw: &str) -> (p: String)
    ensures
        p@ == prompt_for(raw@),
        p@ == PROMPT_HEAD@ + raw@,
{
    let mut p = String::new();
    push_str(&mut p, PROMPT_HEAD);
    push_str(&mut p, raw);
    p
}

/// The request URL for an API key.
pub fn gemini_request_url(key: &str) -> (u: String)
    ensures
        u@ == request_url_for(key@),
{
    let mut u = String::new();
    push_str(&mut u, GEMINI_URL_PREFIX);
    push_str(&mut u, key);
    u
}

/// The JSON request body that carries `prompt`.
pub fn gemini_request_body(prompt: &str) -> (b: String)
    ensures
        b@ == request_body_for(prompt@),
{
    let mut b = String::new();
    push_str(&mut b, BODY_HEAD);
    let lit = json_quote(prompt);
    push_str(&mut b, lit.as_str());
    push_str(&mut b, BODY_TAIL);
    b
}

/// The request for the schema of `raw`, or `None` when `raw` already
/// carries one and nothing is to be asked.
pub fn schema_request(raw: &str, key: &str) -> (r: Option<GeminiRequest>)
    ensures
        r is None <==> !needs_schema(raw@),
        r matches Some(q) ==> q.url@ == request_url_for(key@) && q.body@ == request_body_for(
            prompt_for(raw@),
        ),
{
    if !schema_injection_needed(raw) {
        return None;
    }
    let prompt = schema_prompt(raw);
    let url = gemini_request_url(key);
    let body = gemini_request_body(prompt.as_str());
    Some(GeminiRequest { url, body })
}

// ---------------------------------------------------------------------------
// The reply
// ---------------------------------------------------------------------------

/// A character that opens a JSON object or array.
pub open spec fn is_opener(c: char) -> bool {
    c == '{' || c == '['
}

/// A character that closes a JSON object or array.
pub open spec fn is_closer(c: char) -> bool {
    c == '}' || c == ']'
}

/// The index of the first opener at or after `i`.
pub open spec fn first_opener_from(s: Seq<char>, i: int) -> Option<int>
    decreases s.len() - i,
{
    if i < 0 || i >= s.len() {
        None
    } else if is_opener(s[i]) {
        Some(i)
    } else {
        first_opener_from(s, i + 1)
    }
}

/// The index of the last closer before `n`.
pub open spec fn last_closer_before(s: Seq<char>, n: int) -> Option<int>
    decreases n,
{
    if n <= 0 || n > s.len() {
        None
    } else if is_closer(s[n - 1]) {
        Some(n - 1)
    } else {
        last_closer_before(s, n - 1)
    }
}

/// Where the JSON in a reply starts: at its first opener, or at 0 if none.
pub open spec fn region_start(s: Seq<char>) -> int {
    match first_opener_from(s, 0) {
        Some(i) => i,
        None => 0,
    }
}

/// Where the JSON in a reply ends: just after its last closer, or at its end if none.
pub open spec fn region_end(s: Seq<char>) -> int {
    match last_closer_before(s, s.len() as int) {
        Some(j) => j + 1,
        None => s.len() as int,
    }
}

/// The JSON that a reply holds: the span from the first opener to the last
/// closer, trimmed; the whole reply, trimmed, where that span is empty.
pub open spec fn json_region(s: Seq<char>) -> Seq<char> {
    if region_start(s) < region_end(s) {
        trim(s.subrange(region_start(s), region_end(s)))
    } else {
        trim(s)
    }
}

/// A schema that is a bare array becomes the component list of a schema object.
pub open spec fn normalized_schema(clean: Seq<char>) -> Seq<char> {
    if clean.len() > 0 && clean[0] == '[' {
        ARRAY_WRAP_HEAD@ + clean + seq!['}']
    } else {
        clean
    }
}

/// `raw` with the schema `json` and its two accessors in front of it.
pub open spec fn wrapped_code(json: Seq<char>, raw: Seq<char>) -> Seq<char> {
    CODE_WRAP_HEAD@ + json + CODE_WRAP_MID@ + raw + CODE_WRAP_TAIL@
}

/// The code that is built: unchanged when it carries a schema or when no
/// usable reply came; otherwise wrapped with the JSON that the reply holds.
pub open spec fn injected_code(raw: Seq<char>, reply: Option<Seq<char>>) -> Seq<char> {
    if !needs_schema(raw) {
        raw
    } else {
        match reply {
            None => raw,
            Some(t) => wrapped_code(normalized_schema(json_region(t)), raw),
        }
    }
}

fn first_opener(v: &Vec<char>) -> (r: Option<usize>)
    ensures
        r matches Some(i) ==> first_opener_from(v@, 0) == Some(i as int),
        r is None ==> first_opener_from(v@, 0) is None,
{
    let mut i: usize = 0;
    while i < v.len()
        invariant
            i <= v@.len(),
            first_opener_from(v@, 0) == first_opener_from(v@, i as int),
        decreases v@.len() - i,
    {
        if v[i] == '{' || v[i] == '[' {
            return Some(i);
        }
        i += 1;
    }
    None
}

fn last_closer(v: &Vec<char>) -> (r: Option<usize>)
    ensures
        r matches Some(j) ==> j < v@.len() && last_closer_before(v@, v@.len() as int) == Some(
            j as int,
        ),
        r is None ==> last_closer_before(v@, v@.len() as int) is None,
{
    let mut n: usize = v.len();
    while n > 0
        invariant
            n <= v@.len(),
            last_closer_before(v@, v@.len() as int) == last_closer_before(v@, n as int),
        decreases n,
    {
        if v[n - 1] == '}' || v[n - 1] == ']' {
            return Some(n - 1);
        }
        n -= 1;
    }
    None
}

/// The JSON that a model reply holds.
pub fn extract_json_region(text: &str) -> (r: String)
    ensures
        r@ == json_region(text@),
{
    let v = chars_of(text);
    let start: usize = match first_opener(&v) {
        Some(i) => i,
        None => 0,
    };
    let len = v.len();
    let end: usize = match last_closer(&v) {
        Some(j) => {
            assert(j < len);
            j + 1
        },
        None => v.len(),
    };
    if start < end {
        let part = string_of_range(&v, start, end);
        let pv = chars_of(part.as_str());
        let (a, b) = trim_bounds(&pv);
        string_of_range(&pv, a, b)
    } else {
        let (a, b) = trim_bounds(&v);
        string_of_range(&v, a, b)
    }
}

/// Makes a bare JSON array into a schema object; leaves anything else as it is.
pub fn normalize_schema_json(clean: &str) -> (r: String)
    ensures
        r@ == normalized_schema(clean@),
{
    let v = chars_of(clean);
    let mut r = String::new();
    if v.len() > 0 && v[0] == '[' {
        push_str(&mut r, ARRAY_WRAP_HEAD);
        push_str(&mut r, clean);
        push_str(&mut r, "}");
        proof {
            reveal_strlit("}");
        }
        assert(r@ =~= ARRAY_WRAP_HEAD@ + clean@ + seq!['}']);
    } else {
        push_str(&mut r, clean);
    }
    r
}

/// `raw` with the schema `json` and its accessors in front of it.
pub fn wrap_user_code(json: &str, raw: &str) -> (r: String)
    ensures
        r@ == wrapped_code(json@, raw@),
{
    let mut r = String::new();
    push_str(&mut r, CODE_WRAP_HEAD);
    push_str(&mut r, json);
    push_str(&mut r, CODE_WRAP_MID);
    push_str(&mut r, raw);
    push_str(&mut r, CODE_WRAP_TAIL);
    r
}

/// The code to build from `raw`, given the text of the model's reply
/// (`None` when no usable reply came: no connection, or a body that is not
/// JSON).
pub fn inject_schema(raw: &str, reply: Option<&str>) -> (r: String)
    ensures
        r@ == injected_code(raw@, match reply {
            Some(t) => Some(t@),
            None => None,
        }),
{
    if !schema_injection_needed(raw) {
        return raw.to_owned();
    }
    match reply {
        None => raw.to_owned(),
        Some(text) => {
            let clean = extract_json_region(text);
            let schema = normalize_schema_json(clean.as_str());
            wrap_user_code(schema.as_str(), raw)
        },
    }
}

// ---------------------------------------------------------------------------
// Laws
// ---------------------------------------------------------------------------

/// Once a reply has been embedded, the code names the schema: a second
/// injection, whatever its reply, leaves the code as it is.
pub proof fn lemma_injection_idempotent(raw: Seq<char>, reply: Seq<char>, later: Option<Seq<char>>)
    ensures
        !needs_schema(injected_code(raw, Some(reply))),
        injected_code(injected_code(raw, Some(reply)), later) == injected_code(raw, Some(reply)),
{
    if needs_schema(raw) {
        let out = injected_code(raw, Some(reply));
        reveal_strlit("\nstatic UI_SCHEMA: &str = r#\"");
        reveal_strlit("UI_SCHEMA");
        let head = CODE_WRAP_HEAD@;
        assert(out.subrange(8, 17) =~= head.subrange(8, 17));
        assert(head.subrange(8, 17) =~= SCHEMA_MARKER@);
        assert(occurs_at(out, SCHEMA_MARKER@, 8));
    }
}

/// The submitted code is kept whole: it occurs, unchanged, in the code that is built.
pub proof fn lemma_injection_keeps_code(raw: Seq<char>, reply: Option<Seq<char>>)
    ensures
        contains_seq(injected_code(raw, reply), raw),
{
    let out = injected_code(raw, reply);
    if out == raw {
        assert(out.subrange(0, raw.len() as int) =~= raw);
        assert(occurs_at(out, raw, 0));
    } else {
        let t = reply->Some_0;
        let json = normalized_schema(json_region(t));
        let k = CODE_WRAP_HEAD@.len() + json.len() + CODE_WRAP_MID@.len();
        assert(out == CODE_WRAP_HEAD@ + json + CODE_WRAP_MID@ + raw + CODE_WRAP_TAIL@);
        assert(out.subrange(k as int, (k + raw.len()) as int) =~= raw);
        assert(occurs_at(out, raw, k as int));
    }
}

proof fn lemma_first_opener_at(s: Seq<char>, a: int, i: int)
    requires
        0 <= i <= a < s.len(),
        is_opener(s[a]),
        forall|j: int| i <= j < a ==> !is_opener(#[trigger] s[j]),
    ensures
        first_opener_from(s, i) == Some(a),
    decreases a - i,
{
    if i < a {
        lemma_first_opener_at(s, a, i + 1);
    }
}

proof fn lemma_last_closer_at(s: Seq<char>, c: int, n: int)
    requires
        0 <= c < n <= s.len(),
        is_closer(s[c]),
        forall|j: int| c < j < n ==> !is_closer(#[trigger] s[j]),
    ensures
        last_closer_before(s, n) == Some(c),
    decreases n - c,
{
    if n - 1 > c {
        lemma_last_closer_at(s, c, n - 1);
    }
}

/// The JSON that a reply holds runs from its first `{` or `[` (wherever it
/// stands, the first character included) to its last `}` or `]` (wherever
/// it stands, the last character included), trimmed.
pub proof fn lemma_region_bounds(s: Seq<char>, a: int, c: int)
    requires
        0 <= a < c < s.len(),
        s[a] == '{' || s[a] == '[',
        forall|j: int| 0 <= j < a ==> #[trigger] s[j] != '{' && s[j] != '[',
        s[c] == '}' || s[c] == ']',
        forall|j: int| c < j < s.len() ==> #[trigger] s[j] != '}' && s[j] != ']',
    ensures
        json_region(s) == trim(s.subrange(a, c + 1)),
{
    assert forall|j: int| 0 <= j < a implies !is_opener(#[trigger] s[j]) by {}
    assert forall|j: int| c < j < s.len() implies !is_closer(#[trigger] s[j]) by {}
    lemma_first_opener_at(s, a, 0);
    lemma_last_closer_at(s, c, s.len() as int);
}

/// A reply that already is JSON, opening with `{` or `[` and closing with
/// `}` or `]`, is kept whole.
pub proof fn lemma_json_reply_kept(s: Seq<char>)
    requires
        s.len() >= 2,
        s[0] == '{' || s[0] == '[',
        s[s.len() - 1] == '}' || s[s.len() - 1] == ']',
    ensures
        json_region(s) == s,
{
    lemma_region_bounds(s, 0, s.len() - 1);
    assert(s.subrange(0, s.len() as int) =~= s);
    assert(!is_white_space(s[0]));
    assert(!is_white_space(s.last()));
    assert(trim_start(s) == s);
    assert(trim_end(s) == s);
}

/// Whether code is sent to the model depends on the whole code: code that
/// names the schema anywhere, after any text, is built as it is.
pub proof fn lemma_marker_anywhere(a: Seq<char>, b: Seq<char>)
    ensures
        !needs_schema(a + SCHEMA_MARKER@ + b),
{
    let s = a + SCHEMA_MARKER@ + b;
    assert(s.subrange(a.len() as int, (a.len() + SCHEMA_MARKER@.len()) as int) =~= SCHEMA_MARKER@);
    assert(occurs_at(s, SCHEMA_MARKER@, a.len() as int));
}

/// The prompt carries the submitted code whole, after the instructions.
pub proof fn lemma_prompt_carries_code(raw: Seq<char>)
    ensures
        prompt_for(raw).len() == PROMPT_HEAD@.len() + raw.len(),
        prompt_for(raw).subrange(0, PROMPT_HEAD@.len() as int) == PROMPT_HEAD@,
        prompt_for(raw).subrange(PROMPT_HEAD@.len() as int, prompt_for(raw).len() as int) == raw,
{
    let p = prompt_for(raw);
    assert(p.subrange(0, PROMPT_HEAD@.len() as int) =~= PROMPT_HEAD@);
    assert(p.subrange(PROMPT_HEAD@.len() as int, p.len() as int) =~= raw);
}

/// The JSON cut from a reply carries no white space at either end.
pub proof fn lemma_region_is_trimmed(s: Seq<char>)
    ensures
        trim(json_region(s)) == json_region(s),
{
    if region_start(s) < region_end(s) {
        lemma_trim_idempotent(s.subrange(region_start(s), region_end(s)));
    } else {
        lemma_trim_idempotent(s);
    }
}

/// The schema handed on is never a bare JSON array.
pub proof fn lemma_normalized_not_array(clean: Seq<char>)
    ensures
        normalized_schema(clean).len() > 0 ==> normalized_schema(clean)[0] != '[',
{
    if clean.len() > 0 && clean[0] == '[' {
        reveal_strlit("{\"isim\": \"✨ AI Tarafından Üretildi\", \"bilesenler\": ");
        assert(normalized_schema(clean)[0] == ARRAY_WRAP_HEAD@[0]);
    }
}

} // verus!
