//! The behaviour of the client's windows: placing and dragging a window
//! frame, the graphics window's playback, the calculator's operands and the
//! elements of a schema-driven window.
use vstd::prelude::*;
use crate::desktop::UIComponent;
use crate::text::{
    decimal_int, decimal_nat, lemma_parse_reads_decimal, parse_i32, parse_i32_spec, push_decimal_i64, push_decimal_u64,
    push_str, str_equal,
};

verus! {

broadcast use vstd::string::group_string_axioms;

// ---------------------------------------------------------------------------
// Window frames
// ---------------------------------------------------------------------------

/// The remainder of `a` divided by `m`, with the sign of `a`, as Rust's `%` gives it.
pub open spec fn trunc_rem(a: int, m: int) -> int {
    if a >= 0 {
        a % m
    } else {
        -((-a) % m)
    }
}

/// The cascade offset of window `id`: its number, as an `i32`, times 40,
/// modulo 300.
pub open spec fn cascade_offset(id: usize) -> int {
    trunc_rem((id as i32) * 40, 300)
}

/// Where window `id` first appears, on both axes.
pub fn initial_position(id: usize) -> (p: i32)
    requires
        i32::MIN <= (id as i32) * 40 <= i32::MAX,
    ensures
        p == 50 + cascade_offset(id),
{
    let k = id as i32;
    let m: i32 = k * 40;
    50 + m % 300
}

/// A window frame: where it stands and whether it is being dragged.
#[derive(Clone, Copy, Debug)]
pub struct FrameState {
    pub x: i32,
    pub y: i32,
    pub dragging: bool,
}

/// What the user does to a frame.
#[derive(Clone, Copy, Debug)]
pub enum FrameEvent {
    /// The title bar is pressed.
    Grab,
    /// The mouse button is released.
    Release,
    /// The mouse moves by `dx`, `dy`.
    Move { dx: i32, dy: i32 },
}

/// The frame after an event: pressing starts a drag, releasing ends it, and
/// a move shifts the frame only while it is dragged.
pub open spec fn frame_after(s: FrameState, e: FrameEvent) -> FrameState {
    match e {
        FrameEvent::Grab => FrameState { dragging: true, ..s },
        FrameEvent::Release => FrameState { dragging: false, ..s },
        FrameEvent::Move { dx, dy } => if s.dragging {
            FrameState { x: (s.x + dx) as i32, y: (s.y + dy) as i32, dragging: true }
        } else {
            s
        },
    }
}

/// A move of a dragged frame keeps it within the range of `i32`.
pub open spec fn frame_event_fits(s: FrameState, e: FrameEvent) -> bool {
    match e {
        FrameEvent::Move { dx, dy } => s.dragging ==> (i32::MIN <= s.x + dx <= i32::MAX
            && i32::MIN <= s.y + dy <= i32::MAX),
        _ => true,
    }
}

/// The frame of window `id` when it opens.
pub fn frame_new(id: usize) -> (s: FrameState)
    requires
        i32::MIN <= (id as i32) * 40 <= i32::MAX,
    ensures
        s.x == 50 + cascade_offset(id),
        s.y == 50 + cascade_offset(id),
        !s.dragging,
{
    let p = initial_position(id);
    FrameState { x: p, y: p, dragging: false }
}

/// The frame after an event.
pub fn frame_step(s: FrameState, e: FrameEvent) -> (r: FrameState)
    requires
        frame_event_fits(s, e),
    ensures
        r == frame_after(s, e),
{
    match e {
        FrameEvent::Grab => FrameState { x: s.x, y: s.y, dragging: true },
        FrameEvent::Release => FrameState { x: s.x, y: s.y, dragging: false },
        FrameEvent::Move { dx, dy } => {
            if s.dragging {
                FrameState { x: s.x + dx, y: s.y + dy, dragging: true }
            } else {
                s
            }
        },
    }
}

/// The stacking order of window `id`: on top of everything while dragged.
pub open spec fn z_index_spec(dragging: bool, id: usize) -> usize {
    if dragging {
        10000
    } else {
        id
    }
}

/// The stacking order of window `id`.
pub fn frame_z_index(dragging: bool, id: usize) -> (z: usize)
    ensures
        z == z_index_spec(dragging, id),
{
    if dragging {
        10000
    } else {
        id
    }
}

/// The style of a frame at `x`, `y` with stacking order `z`.
pub open spec fn frame_style_spec(x: i32, y: i32, z: usize) -> Seq<char> {
    "position: absolute; left: "@ + decimal_int(x as int) + "px; top: "@ + decimal_int(y as int)
        + "px; width: 260px; background: white; border-radius: 8px; box-shadow: 0 10px 30px rgba(0,0,0,0.3); overflow: hidden; display: flex; flex-direction: column; z-index: "@
        + decimal_nat(z as nat) + ";"@
}

/// The style of a frame at `x`, `y` with stacking order `z`.
pub fn frame_style(x: i32, y: i32, z: usize) -> (r: String)
    ensures
        r@ == frame_style_spec(x, y, z),
{
    let mut r = String::new();
    push_str(&mut r, "position: absolute; left: ");
    push_decimal_i64(&mut r, x as i64);
    push_str(&mut r, "px; top: ");
    push_decimal_i64(&mut r, y as i64);
    push_str(
        &mut r,
        "px; width: 260px; background: white; border-radius: 8px; box-shadow: 0 10px 30px rgba(0,0,0,0.3); overflow: hidden; display: flex; flex-direction: column; z-index: ",
    );
    push_decimal_u64(&mut r, z as u64);
    push_str(&mut r, ";");
    r
}

/// Both coordinates of a frame are written as signed decimals: the text
/// after `left: ` and the text after `top: `, each up to `px`, read back as
/// the frame's `x` and `y`.
pub proof fn lemma_frame_style_reads_back(x: i32, y: i32, z: usize)
    ensures
        exists|xs: Seq<char>, ys: Seq<char>|
            #![trigger parse_i32_spec(xs), parse_i32_spec(ys)]
            parse_i32_spec(xs) == Some(x) && parse_i32_spec(ys) == Some(y) && frame_style_spec(
                x,
                y,
                z,
            ) == "position: absolute; left: "@ + xs + "px; top: "@ + ys
                + "px; width: 260px; background: white; border-radius: 8px; box-shadow: 0 10px 30px rgba(0,0,0,0.3); overflow: hidden; display: flex; flex-direction: column; z-index: "@
                + decimal_nat(z as nat) + ";"@,
{
    lemma_parse_reads_decimal(x);
    lemma_parse_reads_decimal(y);
    let xs = decimal_int(x as int);
    let ys = decimal_int(y as int);
    assert(parse_i32_spec(xs) == Some(x) && parse_i32_spec(ys) == Some(y));
}

/// Pressing and releasing the title bar leaves a frame where it was, not dragged.
pub proof fn lemma_grab_release(s: FrameState)
    ensures
        frame_after(frame_after(s, FrameEvent::Grab), FrameEvent::Release) == (FrameState {
            x: s.x,
            y: s.y,
            dragging: false,
        }),
{
}

/// A frame that is not dragged does not move.
pub proof fn lemma_idle_frame_stays(s: FrameState, dx: i32, dy: i32)
    requires
        !s.dragging,
    ensures
        frame_after(s, FrameEvent::Move { dx, dy }) == s,
{
}

/// Two moves of a dragged frame add up.
pub proof fn lemma_moves_add(s: FrameState, dx1: i32, dy1: i32, dx2: i32, dy2: i32)
    requires
        s.dragging,
        frame_event_fits(s, FrameEvent::Move { dx: dx1, dy: dy1 }),
        frame_event_fits(
            frame_after(s, FrameEvent::Move { dx: dx1, dy: dy1 }),
            FrameEvent::Move { dx: dx2, dy: dy2 },
        ),
    ensures
        frame_after(
            frame_after(s, FrameEvent::Move { dx: dx1, dy: dy1 }),
            FrameEvent::Move { dx: dx2, dy: dy2 },
        ).x == s.x + dx1 + dx2,
        frame_after(
            frame_after(s, FrameEvent::Move { dx: dx1, dy: dy1 }),
            FrameEvent::Move { dx: dx2, dy: dy2 },
        ).y == s.y + dy1 + dy2,
{
}

// ---------------------------------------------------------------------------
// The graphics window
// ---------------------------------------------------------------------------

/// The width, in pixels, of a frame that a graphics plugin draws.
pub const FRAME_WIDTH: u32 = 200;

/// The height, in pixels, of a frame that a graphics plugin draws.
pub const FRAME_HEIGHT: u32 = 200;

/// The size, in bytes, of a frame buffer: four bytes (RGBA) per pixel.
pub const FRAME_BYTES: u32 = 160000;

/// The time, in milliseconds, between two frames.
pub const FRAME_INTERVAL_MS: u32 = 16;

/// How far the plugin's clock advances per frame.
pub const TIME_STEP: u32 = 2;

/// A frame buffer holds four bytes for each pixel of a frame.
pub proof fn lemma_frame_buffer_size()
    ensures
        FRAME_BYTES == FRAME_WIDTH * FRAME_HEIGHT * 4,
{
}

/// The graphics window's playback: whether it runs and the plugin's clock.
#[derive(Clone, Copy, Debug)]
pub struct Playback {
    pub playing: bool,
    pub time: u32,
}

/// Playback when a graphics window opens: running, at time 0.
pub fn playback_new() -> (p: Playback)
    ensures
        p.playing,
        p.time == 0,
{
    Playback { playing: true, time: 0 }
}

/// Starts or stops the playback; the clock stays where it is.
pub fn playback_toggle(p: &Playback) -> (r: Playback)
    ensures
        r.playing == !p.playing,
        r.time == p.time,
{
    Playback { playing: !p.playing, time: p.time }
}

/// One frame: returns the time to draw and advances the clock.
pub fn playback_tick(p: &mut Playback) -> (t: u32)
    requires
        old(p).time + TIME_STEP <= u32::MAX,
    ensures
        t == old(p).time,
        final(p).time == old(p).time + TIME_STEP,
        final(p).playing == old(p).playing,
{
    let t = p.time;
    p.time = t + TIME_STEP;
    t
}

/// The label of the play button.
pub open spec fn play_label_spec(playing: bool) -> Seq<char> {
    if playing {
        "Durdur"@
    } else {
        "Başlat"@
    }
}

/// The colour of the play button: red while running, green while stopped.
pub open spec fn play_color_spec(playing: bool) -> Seq<char> {
    if playing {
        "#d32f2f"@
    } else {
        "#2e7d32"@
    }
}

/// The label of the play button: it offers to stop while running, to start otherwise.
pub fn play_button_label(playing: bool) -> (r: &'static str)
    ensures
        r@ == play_label_spec(playing),
{
    if playing {
        "Durdur"
    } else {
        "Başlat"
    }
}

/// The style of the play button.
pub fn play_button_style(playing: bool) -> (r: String)
    ensures
        r@ == "margin-top: 10px; width: 100%; padding: 8px; color: white; border: none; border-radius: 5px; cursor: pointer; background: "@
            + play_color_spec(playing) + ";"@,
{
    let mut r = String::new();
    push_str(
        &mut r,
        "margin-top: 10px; width: 100%; padding: 8px; color: white; border: none; border-radius: 5px; cursor: pointer; background: ",
    );
    if playing {
        push_str(&mut r, "#d32f2f");
    } else {
        push_str(&mut r, "#2e7d32");
    }
    push_str(&mut r, ";");
    r
}

// ---------------------------------------------------------------------------
// The calculator and schema-driven windows
// ---------------------------------------------------------------------------

/// The function that a calculator plugin exports.
pub const CALCULATOR_FUNCTION: &'static str = "topla";

/// The value of an operand after its input field holds `text`: the number
/// it denotes, or the previous value when it denotes none.
pub fn operand_after_input(current: i32, text: &str) -> (r: i32)
    ensures
        r == match parse_i32_spec(text@) {
            Some(v) => v,
            None => current,
        },
{
    match parse_i32(text) {
        Some(v) => v,
        None => current,
    }
}

/// What a schema element is shown as.
#[derive(Clone, Copy, Debug, PartialEq, Eq)]
pub enum ComponentKind {
    NumberInput,
    Button,
    Unknown,
}

/// What an element of kind `tip` is shown as.
pub open spec fn component_kind_spec(tip: Seq<char>) -> ComponentKind {
    if tip == "sayi_girisi"@ {
        ComponentKind::NumberInput
    } else if tip == "buton"@ {
        ComponentKind::Button
    } else {
        ComponentKind::Unknown
    }
}

/// What an element of kind `tip` is shown as.
pub fn component_kind(tip: &str) -> (k: ComponentKind)
    ensures
        k == component_kind_spec(tip@),
{
    if str_equal(tip, "sayi_girisi") {
        ComponentKind::NumberInput
    } else if str_equal(tip, "buton") {
        ComponentKind::Button
    } else {
        ComponentKind::Unknown
    }
}

/// The function that a button calls: the one it names, or the empty name.
pub fn button_function(c: &UIComponent) -> (f: String)
    ensures
        f@ == match c.fonksiyon {
            Some(name) => name@,
            None => Seq::<char>::empty(),
        },
{
    match &c.fonksiyon {
        Some(name) => name.clone(),
        None => String::new(),
    }
}

/// The inputs that a button passes: the ones it names, or none.
pub fn button_inputs(c: &UIComponent) -> (v: Vec<String>)
    ensures
        match c.girdiler {
            Some(ids) => v@.len() == ids@.len() && forall|i: int|
                0 <= i < ids@.len() ==> #[trigger] v@[i]@ == ids@[i]@,
            None => v@.len() == 0,
        },
{
    let mut v: Vec<String> = Vec::new();
    match &c.girdiler {
        Some(ids) => {
            let mut i: usize = 0;
            while i < ids.len()
                invariant
                    i <= ids@.len(),
                    v@.len() == i,
                    forall|j: int| 0 <= j < i ==> #[trigger] v@[j]@ == ids@[j]@,
                decreases ids@.len() - i,
            {
                v.push(ids[i].clone());
                i += 1;
            }
        },
        None => {},
    }
    v
}

/// The argument that an input passes: the number in its field, or 0 when
/// the field is missing or holds no number.
pub open spec fn input_argument_spec(value: Option<Seq<char>>) -> i32 {
    match value {
        Some(t) => match parse_i32_spec(t) {
            Some(v) => v,
            None => 0,
        },
        None => 0,
    }
}

/// The arguments that a button passes, one for each of its inputs, given
/// the text of each input's field (`None` where the page has no such field).
pub fn button_arguments(values: &Vec<Option<String>>) -> (args: Vec<i32>)
    ensures
        args@.len() == values@.len(),
        forall|i: int|
            0 <= i < values@.len() ==> #[trigger] args@[i] == input_argument_spec(
                match values@[i] {
                    Some(t) => Some(t@),
                    None => None,
                },
            ),
{
    let mut args: Vec<i32> = Vec::new();
    let mut i: usize = 0;
    while i < values.len()
        invariant
            i <= values@.len(),
            args@.len() == i,
            forall|j: int|
                0 <= j < i ==> #[trigger] args@[j] == input_argument_spec(
                    match values@[j] {
                        Some(t) => Some(t@),
                        None => None,
                    },
                ),
        decreases values@.len() - i,
    {
        let a: i32 = match &values[i] {
            Some(t) => match parse_i32(t.as_str()) {
                Some(v) => v,
                None => 0,
            },
            None => 0,
        };
        args.push(a);
        i += 1;
    }
    args
}

} // verus!
