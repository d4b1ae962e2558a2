//! The desktop of the web client: the plugin windows it shows, the numbering
//! of windows, the kind of window a loaded plugin gets, window titles and
//! the status line.
use vstd::prelude::*;
use crate::text::{push_decimal_u64, push_str, decimal_nat, trim, trim_str};

verus! {

broadcast use vstd::string::group_string_axioms;

/// One element of a plugin's UI schema.
#[derive(Clone, Debug, PartialEq)]
pub struct UIComponent {
    /// The element's kind: `sayi_girisi` (a number input) or `buton` (a button).
    pub tip: String,
    pub id: String,
    /// The label shown with the element.
    pub etiket: String,
    /// For a button: the exported function that it calls.
    pub fonksiyon: Option<String>,
    /// For a button: the ids of the inputs whose values it passes.
    pub girdiler: Option<Vec<String>>,
}

/// A plugin's UI schema: its name and its elements.
#[derive(Clone, Debug, PartialEq)]
pub struct UISchema {
    pub isim: String,
    pub bilesenler: Vec<UIComponent>,
}

/// The kind of window that a plugin is shown in.
#[derive(Clone, Debug, PartialEq)]
pub enum AppMode {
    Graphics,
    Calculator,
    UnknownTerminal,
    Dynamic(UISchema),
}

/// A window on the desktop: its number, its kind, and what the client keeps
/// with it (the plugin's instance).
#[derive(Clone, Debug)]
pub struct WindowEntry<P> {
    pub id: usize,
    pub mode: AppMode,
    pub payload: P,
}

/// The windows on the desktop, in the order they were opened, and the number
/// that the next window gets.
#[derive(Debug)]
pub struct Desktop<P> {
    windows: Vec<WindowEntry<P>>,
    next_id: usize,
}

/// Two optional texts hold the same text, or are both absent.
pub open spec fn same_opt_text(a: Option<String>, b: Option<String>) -> bool {
    match (a, b) {
        (Some(x), Some(y)) => x@ == y@,
        (None, None) => true,
        _ => false,
    }
}

/// Two optional lists of texts hold the same texts in the same order, or are both absent.
pub open spec fn same_opt_texts(a: Option<Vec<String>>, b: Option<Vec<String>>) -> bool {
    match (a, b) {
        (Some(x), Some(y)) => x@.len() == y@.len() && forall|i: int|
            0 <= i < x@.len() ==> #[trigger] x@[i]@ == y@[i]@,
        (None, None) => true,
        _ => false,
    }
}

/// Two schema elements hold the same texts.
pub open spec fn same_component(a: UIComponent, b: UIComponent) -> bool {
    &&& a.tip@ == b.tip@
    &&& a.id@ == b.id@
    &&& a.etiket@ == b.etiket@
    &&& same_opt_text(a.fonksiyon, b.fonksiyon)
    &&& same_opt_texts(a.girdiler, b.girdiler)
}

/// Two schemas have the same name and the same elements, in the same order.
pub open spec fn same_schema(a: UISchema, b: UISchema) -> bool {
    &&& a.isim@ == b.isim@
    &&& a.bilesenler@.len() == b.bilesenler@.len()
    &&& forall|i: int|
        0 <= i < a.bilesenler@.len() ==> same_component(
            #[trigger] a.bilesenler@[i],
            b.bilesenler@[i],
        )
}

/// Two window kinds are the same kind, with the same schema where they have one.
pub open spec fn same_mode(a: AppMode, b: AppMode) -> bool {
    match (a, b) {
        (AppMode::Graphics, AppMode::Graphics) => true,
        (AppMode::Calculator, AppMode::Calculator) => true,
        (AppMode::UnknownTerminal, AppMode::UnknownTerminal) => true,
        (AppMode::Dynamic(x), AppMode::Dynamic(y)) => same_schema(x, y),
        _ => false,
    }
}

fn copy_texts(v: &Vec<String>) -> (r: Vec<String>)
    ensures
        r@.len() == v@.len(),
        forall|i: int| 0 <= i < v@.len() ==> #[trigger] r@[i]@ == v@[i]@,
{
    let mut r: Vec<String> = Vec::new();
    let mut i: usize = 0;
    while i < v.len()
        invariant
            i <= v@.len(),
            r@.len() == i,
            forall|j: int| 0 <= j < i ==> #[trigger] r@[j]@ == v@[j]@,
        decreases v@.len() - i,
    {
        r.push(v[i].clone());
        i += 1;
    }
    r
}

/// A copy of a schema element.
pub fn copy_component(c: &UIComponent) -> (r: UIComponent)
    ensures
        same_component(*c, r),
{
    let fonksiyon = match &c.fonksiyon {
        Some(f) => Some(f.clone()),
        None => None,
    };
    let girdiler = match &c.girdiler {
        Some(g) => Some(copy_texts(g)),
        None => None,
    };
    UIComponent { tip: c.tip.clone(), id: c.id.clone(), etiket: c.etiket.clone(), fonksiyon, girdiler }
}

/// A copy of a schema.
pub fn copy_schema(s: &UISchema) -> (r: UISchema)
    ensures
        same_schema(*s, r),
{
    let mut comps: Vec<UIComponent> = Vec::new();
    let mut i: usize = 0;
    while i < s.bilesenler.len()
        invariant
            i <= s.bilesenler@.len(),
            comps@.len() == i,
            forall|j: int| 0 <= j < i ==> same_component(#[trigger] s.bilesenler@[j], comps@[j]),
        decreases s.bilesenler@.len() - i,
    {
        comps.push(copy_component(&s.bilesenler[i]));
        i += 1;
    }
    UISchema { isim: s.isim.clone(), bilesenler: comps }
}

/// A copy of a window kind.
pub fn copy_mode(m: &AppMode) -> (r: AppMode)
    ensures
        same_mode(*m, r),
{
    match m {
        AppMode::Graphics => AppMode::Graphics,
        AppMode::Calculator => AppMode::Calculator,
        AppMode::UnknownTerminal => AppMode::UnknownTerminal,
        AppMode::Dynamic(s) => AppMode::Dynamic(copy_schema(s)),
    }
}

/// Whether two entries stand for the same window: they have the same number.
pub fn same_window<P>(a: &WindowEntry<P>, b: &WindowEntry<P>) -> (r: bool)
    ensures
        r == (a.id == b.id),
{
    a.id == b.id
}

/// A desktop's state is well formed: window numbers grow in opening order
/// and all lie below the next number, which is at least 1.
pub open spec fn desktop_wf<P>(ws: Seq<WindowEntry<P>>, next_id: nat) -> bool {
    &&& next_id >= 1
    &&& forall|i: int, j: int| 0 <= i < j < ws.len() ==> ws[i].id < ws[j].id
    &&& forall|i: int| 0 <= i < ws.len() ==> ws[i].id < next_id
}

/// `ws` without the windows numbered `id`, the others in their order.
pub open spec fn without_window<P>(ws: Seq<WindowEntry<P>>, id: usize) -> Seq<WindowEntry<P>>
    decreases ws.len(),
{
    if ws.len() == 0 {
        ws
    } else {
        let rest = without_window(ws.drop_first(), id);
        if ws[0].id == id {
            rest
        } else {
            seq![ws[0]] + rest
        }
    }
}

impl<P> Desktop<P> {
    /// The windows, in opening order.
    pub closed spec fn windows_spec(&self) -> Seq<WindowEntry<P>> {
        self.windows@
    }

    /// The number that the next window gets.
    pub closed spec fn next_id_spec(&self) -> nat {
        self.next_id as nat
    }

    /// The desktop is well formed.
    pub open spec fn wf(&self) -> bool {
        desktop_wf(self.windows_spec(), self.next_id_spec())
    }

    /// An empty desktop whose first window will be number 1.
    pub fn new() -> (d: Self)
        ensures
            d.wf(),
            d.windows_spec().len() == 0,
            d.next_id_spec() == 1,
    {
        Desktop { windows: Vec::new(), next_id: 1 }
    }

    /// The windows, in opening order.
    pub fn windows(&self) -> (w: &Vec<WindowEntry<P>>)
        ensures
            w@ == self.windows_spec(),
    {
        &self.windows
    }

    /// The number that the next window gets.
    pub fn next_id(&self) -> (n: usize)
        ensures
            n == self.next_id_spec(),
    {
        self.next_id
    }

    /// Whether no window is open.
    pub fn is_empty(&self) -> (b: bool)
        ensures
            b == (self.windows_spec().len() == 0),
    {
        self.windows.len() == 0
    }

    /// A copy of the desktop to change: the same windows, in the same order,
    /// with the same numbers and kinds and with cloned payloads, and the same
    /// next number.
    pub fn duplicate(&self) -> (d: Self) where P: Clone
        requires
            self.wf(),
        ensures
            d.wf(),
            d.windows_spec().len() == self.windows_spec().len(),
            forall|i: int|
                0 <= i < self.windows_spec().len() ==> #[trigger] d.windows_spec()[i].id
                    == self.windows_spec()[i].id,
            forall|i: int|
                0 <= i < self.windows_spec().len() ==> same_mode(
                    self.windows_spec()[i].mode,
                    #[trigger] d.windows_spec()[i].mode,
                ),
            forall|i: int|
                0 <= i < self.windows_spec().len() ==> cloned::<P>(
                    self.windows_spec()[i].payload,
                    #[trigger] d.windows_spec()[i].payload,
                ),
            d.next_id_spec() == self.next_id_spec(),
    {
        let mut ws: Vec<WindowEntry<P>> = Vec::new();
        let mut i: usize = 0;
        while i < self.windows.len()
            invariant
                i <= self.windows@.len(),
                ws@.len() == i,
                forall|j: int| 0 <= j < i ==> #[trigger] ws@[j].id == self.windows@[j].id,
                forall|j: int| 0 <= j < i ==> same_mode(self.windows@[j].mode, #[trigger] ws@[j].mode),
                forall|j: int|
                    0 <= j < i ==> cloned::<P>(self.windows@[j].payload, #[trigger] ws@[j].payload),
            decreases self.windows@.len() - i,
        {
            let w = &self.windows[i];
            ws.push(WindowEntry { id: w.id, mode: copy_mode(&w.mode), payload: w.payload.clone() });
            i += 1;
        }
        Desktop { windows: ws, next_id: self.next_id }
    }

    /// Closes the windows numbered `id`; the others stay, in their order.
    pub fn close(&mut self, id: usize)
        requires
            old(self).wf(),
        ensures
            final(self).wf(),
            final(self).windows_spec() == without_window(old(self).windows_spec(), id),
            final(self).next_id_spec() == old(self).next_id_spec(),
    {
        let ghost orig = self.windows@;
        let mut rest: Vec<WindowEntry<P>> = Vec::new();
        std::mem::swap(&mut rest, &mut self.windows);
        let mut kept: Vec<WindowEntry<P>> = Vec::new();
        assert(kept@ + without_window(rest@, id) =~= without_window(orig, id));
        while rest.len() > 0
            invariant
                kept@ + without_window(rest@, id) == without_window(orig, id),
            decreases rest@.len(),
        {
            let ghost before = rest@;
            let w = rest.remove(0);
            assert(rest@ =~= before.drop_first());
            if w.id != id {
                kept.push(w);
                assert(kept@ + without_window(rest@, id) =~= without_window(orig, id));
            }
        }
        assert(kept@ =~= without_window(orig, id));
        self.windows = kept;
        proof {
            lemma_without_window_sorted(orig, id, self.next_id as nat);
        }
    }

    /// Opens a window of kind `mode` with the next number, and returns that number.
    pub fn open(&mut self, mode: AppMode, payload: P) -> (id: usize)
        requires
            old(self).wf(),
            old(self).next_id_spec() < usize::MAX,
        ensures
            final(self).wf(),
            id == old(self).next_id_spec(),
            final(self).windows_spec() == old(self).windows_spec().push(
                WindowEntry { id, mode, payload },
            ),
            final(self).next_id_spec() == old(self).next_id_spec() + 1,
    {
        let id = self.next_id;
        self.windows.push(WindowEntry { id, mode, payload });
        self.next_id = id + 1;
        id
    }

    /// Passes over a number without opening a window (a plugin that was
    /// loaded but could not be shown), and returns that number.
    pub fn skip_id(&mut self) -> (id: usize)
        requires
            old(self).wf(),
            old(self).next_id_spec() < usize::MAX,
        ensures
            final(self).wf(),
            id == old(self).next_id_spec(),
            final(self).windows_spec() == old(self).windows_spec(),
            final(self).next_id_spec() == old(self).next_id_spec() + 1,
    {
        let id = self.next_id;
        self.next_id = id + 1;
        id
    }
}

proof fn lemma_without_window_subseq<P>(ws: Seq<WindowEntry<P>>, id: usize)
    ensures
        forall|k: int|
            0 <= k < without_window(ws, id).len() ==> exists|i: int|
                0 <= i < ws.len() && #[trigger] without_window(ws, id)[k] == ws[i]
                    && without_window(ws, id)[k].id != id,
        without_window(ws, id).len() <= ws.len(),
    decreases ws.len(),
{
    if ws.len() > 0 {
        let tail = ws.drop_first();
        lemma_without_window_subseq(tail, id);
        let r = without_window(ws, id);
        let rt = without_window(tail, id);
        assert forall|k: int| 0 <= k < r.len() implies exists|i: int|
            0 <= i < ws.len() && #[trigger] r[k] == ws[i] && r[k].id != id by {
            if ws[0].id == id {
                let i = choose|i: int| 0 <= i < tail.len() && rt[k] == tail[i] && rt[k].id != id;
                assert(r[k] == ws[i + 1]);
            } else if k == 0 {
                assert(r[0] == ws[0]);
            } else {
                assert(r[k] == rt[k - 1]);
                let i = choose|i: int|
                    0 <= i < tail.len() && rt[k - 1] == tail[i] && rt[k - 1].id != id;
                assert(r[k] == ws[i + 1]);
            }
        }
    }
}

proof fn lemma_without_window_sorted<P>(ws: Seq<WindowEntry<P>>, id: usize, bound: nat)
    requires
        desktop_wf(ws, bound),
    ensures
        desktop_wf(without_window(ws, id), bound),
    decreases ws.len(),
{
    if ws.len() > 0 {
        let tail = ws.drop_first();
        assert(desktop_wf(tail, bound)) by {
            assert forall|i: int, j: int| 0 <= i < j < tail.len() implies tail[i].id
                < tail[j].id by {
                assert(tail[i] == ws[i + 1] && tail[j] == ws[j + 1]);
            }
            assert forall|i: int| 0 <= i < tail.len() implies tail[i].id < bound by {
                assert(tail[i] == ws[i + 1]);
            }
        }
        lemma_without_window_sorted(tail, id, bound);
        lemma_without_window_subseq(tail, id);
        let rt = without_window(tail, id);
        if ws[0].id != id {
            let r = seq![ws[0]] + rt;
            assert forall|i: int, j: int| 0 <= i < j < r.len() implies r[i].id < r[j].id by {
                if i == 0 {
                    let k = choose|k: int|
                        0 <= k < tail.len() && #[trigger] rt[j - 1] == tail[k] && rt[j - 1].id != id;
                    assert(tail[k] == ws[k + 1]);
                } else {
                    assert(r[i] == rt[i - 1] && r[j] == rt[j - 1]);
                }
            }
            assert forall|i: int| 0 <= i < r.len() implies r[i].id < bound by {
                if i > 0 {
                    assert(r[i] == rt[i - 1]);
                }
            }
        }
    }
}

/// Removing a number that no window has leaves the windows as they are.
proof fn lemma_without_absent<P>(ws: Seq<WindowEntry<P>>, id: usize)
    requires
        forall|i: int| 0 <= i < ws.len() ==> ws[i].id != id,
    ensures
        without_window(ws, id) == ws,
    decreases ws.len(),
{
    if ws.len() > 0 {
        let tail = ws.drop_first();
        assert forall|i: int| 0 <= i < tail.len() implies tail[i].id != id by {
            assert(tail[i] == ws[i + 1]);
        }
        lemma_without_absent(tail, id);
        assert(seq![ws[0]] + tail =~= ws);
    }
}

/// Removal distributes over a window added at the end.
proof fn lemma_without_push<P>(ws: Seq<WindowEntry<P>>, w: WindowEntry<P>, id: usize)
    ensures
        without_window(ws.push(w), id) == without_window(ws, id) + (if w.id == id {
            Seq::<WindowEntry<P>>::empty()
        } else {
            seq![w]
        }),
    decreases ws.len(),
{
    if ws.len() == 0 {
        let s = ws.push(w);
        assert(s.drop_first() =~= Seq::<WindowEntry<P>>::empty());
        assert(without_window(s.drop_first(), id) == s.drop_first());
        if w.id != id {
            assert(seq![w] + Seq::<WindowEntry<P>>::empty() =~= seq![w]);
        }
        assert(without_window(ws, id) =~= Seq::<WindowEntry<P>>::empty());
    } else {
        let s = ws.push(w);
        assert(s.drop_first() =~= ws.drop_first().push(w));
        lemma_without_push(ws.drop_first(), w, id);
    }
}

/// Closing the window that was just opened gives back the windows that were
/// there before, and each newly opened window has a number that no open
/// window has.
pub proof fn lemma_close_undoes_open<P>(
    ws: Seq<WindowEntry<P>>,
    next_id: nat,
    mode: AppMode,
    payload: P,
)
    requires
        desktop_wf(ws, next_id),
        next_id < usize::MAX,
    ensures
        forall|i: int| 0 <= i < ws.len() ==> ws[i].id != next_id,
        without_window(
            ws.push(WindowEntry { id: next_id as usize, mode, payload }),
            next_id as usize,
        ) == ws,
{
    let w = WindowEntry { id: next_id as usize, mode, payload };
    lemma_without_push(ws, w, next_id as usize);
    lemma_without_absent(ws, next_id as usize);
    assert(ws + Seq::<WindowEntry<P>>::empty() =~= ws);
}

/// After a close, no window has the closed number.
pub proof fn lemma_close_removes<P>(ws: Seq<WindowEntry<P>>, id: usize)
    ensures
        forall|k: int|
            0 <= k < without_window(ws, id).len() ==> #[trigger] without_window(ws, id)[k].id
                != id,
{
    lemma_without_window_subseq(ws, id);
    assert forall|k: int| 0 <= k < without_window(ws, id).len() implies #[trigger] without_window(
        ws,
        id,
    )[k].id != id by {
        let i = choose|i: int|
            0 <= i < ws.len() && #[trigger] without_window(ws, id)[k] == ws[i] && without_window(
                ws,
                id,
            )[k].id != id;
    }
}

// ---------------------------------------------------------------------------
// Loading plugins
// ---------------------------------------------------------------------------

/// The status line when the client starts.
pub const INITIAL_STATUS: &'static str = "Orbit OS Başlatıldı.";

/// The status line while submitted code is being built.
pub const COMPILING_STATUS: &'static str = "☁️ Bulutta (Docker) derleniyor...";

/// The status line while a repository is being fetched and built.
pub const FETCHING_STATUS: &'static str = "🐙 GitHub'dan çekiliyor ve Docker'da derleniyor...";

/// The status line when the build service cannot be reached.
pub const UNREACHABLE_STATUS: &'static str = "❌ Sunucuya ulaşılamadı. Orbit Backend açık mı?";

/// The status line when a built module cannot be instantiated.
pub const INSTANTIATION_FAILED_STATUS: &'static str = "❌ WASM çalıştırılamadı!";

/// The status line when a plugin's schema is not a valid schema.
pub const SCHEMA_INVALID_STATUS: &'static str = "❌ Şema formatı hatalı!";

/// Where submitted code is built.
pub const COMPILE_ENDPOINT: &'static str = "http://127.0.0.1:3000/compile";

/// Where repositories are fetched and built.
pub const GITHUB_ENDPOINT: &'static str = "http://127.0.0.1:3000/github";

/// What a plugin's exported schema turned out to be.
pub enum SchemaLoad {
    /// The schema bytes are not UTF-8 text.
    NotText,
    /// The schema text is not a valid schema.
    Malformed,
    /// The schema, read.
    Parsed(UISchema),
}

/// What a loaded plugin exports.
pub enum PluginExports {
    /// It exports a schema (`get_schema_ptr`), read as given.
    WithSchema(SchemaLoad),
    /// It exports no schema; whether it exports `generate_frame` and `topla`.
    Plain { has_graphics: bool, has_math: bool },
}

/// The kind of window of a plugin without a schema: graphics when it draws
/// frames, a calculator when it adds, a terminal otherwise.
pub open spec fn plain_mode(has_graphics: bool, has_math: bool) -> AppMode {
    if has_graphics {
        AppMode::Graphics
    } else if has_math {
        AppMode::Calculator
    } else {
        AppMode::UnknownTerminal
    }
}

/// The kind of window of a plugin without a schema.
pub fn classify_exports(has_graphics: bool, has_math: bool) -> (m: AppMode)
    ensures
        m == plain_mode(has_graphics, has_math),
{
    if has_graphics {
        AppMode::Graphics
    } else if has_math {
        AppMode::Calculator
    } else {
        AppMode::UnknownTerminal
    }
}

/// The status line after a plugin with a schema was shown in window `id`.
pub open spec fn dynamic_loaded_status(id: usize) -> Seq<char> {
    "✅ Dinamik Eklenti Çizildi! (ID: "@ + decimal_nat(id as nat) + ")"@
}

/// The status line after a plugin without a schema was shown in window `id`.
pub open spec fn plain_loaded_status(id: usize) -> Seq<char> {
    "✅ Klasik eklenti eklendi (ID: "@ + decimal_nat(id as nat) + ")."@
}

fn text_with_number(head: &str, n: usize, tail: &str) -> (r: String)
    ensures
        r@ == head@ + decimal_nat(n as nat) + tail@,
{
    let mut r = String::new();
    push_str(&mut r, head);
    push_decimal_u64(&mut r, n as u64);
    push_str(&mut r, tail);
    r
}

impl<P> Desktop<P> {
    /// Records a plugin that was instantiated: it takes the next number;
    /// a plugin with a readable schema gets a schema-driven window, one
    /// without a schema gets the window its exports call for, and one whose
    /// schema cannot be read gets none. Returns the new status line, if any.
    pub fn load_plugin(&mut self, exports: PluginExports, payload: P) -> (status: Option<String>)
        requires
            old(self).wf(),
            old(self).next_id_spec() < usize::MAX,
        ensures
            final(self).wf(),
            final(self).next_id_spec() == old(self).next_id_spec() + 1,
            match exports {
                PluginExports::WithSchema(SchemaLoad::NotText) => {
                    &&& final(self).windows_spec() == old(self).windows_spec()
                    &&& status is None
                },
                PluginExports::WithSchema(SchemaLoad::Malformed) => {
                    &&& final(self).windows_spec() == old(self).windows_spec()
                    &&& status matches Some(t) && t@ == SCHEMA_INVALID_STATUS@
                },
                PluginExports::WithSchema(SchemaLoad::Parsed(schema)) => {
                    &&& final(self).windows_spec() == old(self).windows_spec().push(
                        WindowEntry {
                            id: old(self).next_id_spec() as usize,
                            mode: AppMode::Dynamic(schema),
                            payload,
                        },
                    )
                    &&& status matches Some(t) && t@ == dynamic_loaded_status(
                        old(self).next_id_spec() as usize,
                    )
                },
                PluginExports::Plain { has_graphics, has_math } => {
                    &&& final(self).windows_spec() == old(self).windows_spec().push(
                        WindowEntry {
                            id: old(self).next_id_spec() as usize,
                            mode: plain_mode(has_graphics, has_math),
                            payload,
                        },
                    )
                    &&& status matches Some(t) && t@ == plain_loaded_status(
                        old(self).next_id_spec() as usize,
                    )
                },
            },
    {
        match exports {
            PluginExports::WithSchema(SchemaLoad::NotText) => {
                self.skip_id();
                None
            },
            PluginExports::WithSchema(SchemaLoad::Malformed) => {
                self.skip_id();
                Some(SCHEMA_INVALID_STATUS.to_owned())
            },
            PluginExports::WithSchema(SchemaLoad::Parsed(schema)) => {
                let id = self.open(AppMode::Dynamic(schema), payload);
                Some(text_with_number("✅ Dinamik Eklenti Çizildi! (ID: ", id, ")"))
            },
            PluginExports::Plain { has_graphics, has_math } => {
                let id = self.open(classify_exports(has_graphics, has_math), payload);
                Some(text_with_number("✅ Klasik eklenti eklendi (ID: ", id, ")."))
            },
        }
    }
}

// ---------------------------------------------------------------------------
// Titles and status lines
// ---------------------------------------------------------------------------

/// The title of window `id` of kind `mode`.
pub open spec fn window_title_spec(mode: AppMode, id: usize) -> Seq<char> {
    match mode {
        AppMode::Graphics => "🎨 Grafik Motoru (ID: "@ + decimal_nat(id as nat) + ")"@,
        AppMode::Calculator => "🧮 Hesap Makinesi (ID: "@ + decimal_nat(id as nat) + ")"@,
        AppMode::UnknownTerminal => "🖥️ Terminal (ID: "@ + decimal_nat(id as nat) + ")"@,
        AppMode::Dynamic(s) => "✨ "@ + s.isim@ + " (ID: "@ + decimal_nat(id as nat) + ")"@,
    }
}

/// The title of a window.
pub fn window_title<P>(w: &WindowEntry<P>) -> (t: String)
    ensures
        t@ == window_title_spec(w.mode, w.id),
{
    match &w.mode {
        AppMode::Graphics => text_with_number("🎨 Grafik Motoru (ID: ", w.id, ")"),
        AppMode::Calculator => text_with_number("🧮 Hesap Makinesi (ID: ", w.id, ")"),
        AppMode::UnknownTerminal => text_with_number("🖥️ Terminal (ID: ", w.id, ")"),
        AppMode::Dynamic(s) => {
            let mut head = String::new();
            push_str(&mut head, "✨ ");
            push_str(&mut head, s.isim.as_str());
            push_str(&mut head, " (ID: ");
            let t = text_with_number(head.as_str(), w.id, ")");
            assert(t@ =~= "✨ "@ + s.isim@ + " (ID: "@ + decimal_nat(w.id as nat) + ")"@);
            t
        },
    }
}

/// The status line when the build service refused a request with `reply`.
pub fn server_error_status(reply: &str) -> (t: String)
    ensures
        t@ == "❌ Hata: "@ + reply@,
{
    let mut t = String::new();
    push_str(&mut t, "❌ Hata: ");
    push_str(&mut t, reply);
    t
}

/// Whether a repository address was given: it is not blank.
pub fn github_fetch_allowed(url: &str) -> (b: bool)
    ensures
        b == (trim(url@).len() > 0),
{
    let t = trim_str(url);
    t.as_str().unicode_len() > 0
}

} // verus!
