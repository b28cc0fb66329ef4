use vstd::prelude::*;

verus! {

/// A bit set of buttons.
pub type Buttons = u64;

pub const NPAD_ID_PLAYER_1: u32 = 0;

pub const NPAD_ID_HANDHELD: u32 = 0x20;

pub const NPAD_CONNECTED: u32 = 1;

pub const KEY_X: Buttons = 1 << 2;

pub const KEY_PLUS: Buttons = 1 << 10;

pub const KEY_L: Buttons = 1 << 6;

pub const KEY_R: Buttons = 1 << 7;

pub const KEY_ZL: Buttons = 1 << 8;

pub const KEY_ZR: Buttons = 1 << 9;

pub const KEY_DLEFT: Buttons = 1 << 12;

pub const KEY_DUP: Buttons = 1 << 13;

pub const KEY_DRIGHT: Buttons = 1 << 14;

pub const KEY_DDOWN: Buttons = 1 << 15;

pub const STYLE_FULL_KEY: u32 = 1;

pub const STYLE_HANDHELD: u32 = 1 << 1;

pub const STYLE_JOY_DUAL: u32 = 1 << 2;

pub const STYLE_JOY_LEFT: u32 = 1 << 3;

pub const STYLE_JOY_RIGHT: u32 = 1 << 4;

pub const STYLE_GC: u32 = 1 << 5;

/// Player ids scanned when counting connected controllers.
pub const MAX_SCANNED_PLAYER_IDS: u32 = 8;

/// The kind of controller behind a player id.
#[derive(Copy, Clone, Debug, PartialEq, Eq, Structural)]
pub enum ControllerKind {
    NoController,
    Handheld,
    ProController,
    GcController,
    XInput,
}

/// A controller state in one shape, whatever style it was read in.
#[derive(Copy, Clone, Debug, Default, PartialEq, Eq, Structural)]
pub struct UnifiedNpadState {
    pub update_count: i64,
    pub buttons: Buttons,
    pub left_x: i32,
    pub left_y: i32,
    pub right_x: i32,
    pub right_y: i32,
    pub flags: u32,
}

/// The state that stands for "nothing read".
pub open spec fn empty_state() -> UnifiedNpadState {
    UnifiedNpadState {
        update_count: 0,
        buttons: 0,
        left_x: 0,
        left_y: 0,
        right_x: 0,
        right_y: 0,
        flags: 0,
    }
}

pub fn empty_npad_state() -> (s: UnifiedNpadState)
    ensures
        s == empty_state(),
{
    UnifiedNpadState {
        update_count: 0,
        buttons: 0,
        left_x: 0,
        left_y: 0,
        right_x: 0,
        right_y: 0,
        flags: 0,
    }
}

/// What probing a player id found.
#[derive(Copy, Clone, Debug, PartialEq, Eq, Structural)]
pub struct InputProbe {
    pub id: u32,
    pub kind: ControllerKind,
    pub style_flags: u32,
    pub state: UnifiedNpadState,
}

impl Default for InputProbe {
    fn default() -> (p: Self)
        ensures
            p.id == NPAD_ID_PLAYER_1,
            p.kind == ControllerKind::NoController,
            p.style_flags == 0,
            p.state == empty_state(),
    {
        InputProbe {
            id: NPAD_ID_PLAYER_1,
            kind: ControllerKind::NoController,
            style_flags: 0,
            state: empty_npad_state(),
        }
    }
}

/// A controller and what was last read from it.
#[derive(Copy, Clone, Debug, PartialEq, Eq, Structural)]
pub struct Controller {
    pub id: u32,
    pub kind: ControllerKind,
    pub style_flags: u32,
    pub buttons: Buttons,
    pub state: UnifiedNpadState,
}

impl Controller {
    pub fn new(id: u32) -> (c: Self)
        ensures
            c.id == id,
            c.kind == ControllerKind::NoController,
            c.style_flags == 0,
            c.buttons == 0,
            c.state == empty_state(),
    {
        Controller {
            id,
            kind: ControllerKind::NoController,
            style_flags: 0,
            buttons: 0,
            state: empty_npad_state(),
        }
    }

    /// Takes over what a probe of this controller found.
    pub fn update(&mut self, probe: InputProbe)
        ensures
            final(self).id == old(self).id,
            final(self).kind == probe.kind,
            final(self).style_flags == probe.style_flags,
            final(self).state == probe.state,
            final(self).buttons == probe.state.buttons,
    {
        self.kind = probe.kind;
        self.style_flags = probe.style_flags;
        self.state = probe.state;
        self.buttons = probe.state.buttons;
    }
}

/// Every button of `mask` is held.
pub fn buttons_all_held(buttons: Buttons, mask: Buttons) -> (b: bool)
    ensures
        b == (buttons & mask == mask),
{
    (buttons & mask) == mask
}

/// Some button of `mask` is held.
pub fn buttons_any_held(buttons: Buttons, mask: Buttons) -> (b: bool)
    ensures
        b == (buttons & mask != 0),
{
    (buttons & mask) != 0
}

/// Whether the input library still has to be initialized by this library.
pub struct HidInitState {
    pub initialized: bool,
    pub requested: bool,
}

impl HidInitState {
    /// Initialization is requested by default.
    pub fn new() -> (s: Self)
        ensures
            !s.initialized,
            s.requested,
    {
        HidInitState { initialized: false, requested: true }
    }
}

/// Returns whether the input library must be initialized now: only when
/// initialization is requested and has not happened before.
pub fn ensure_hid_initialized(st: &mut HidInitState) -> (must_init: bool)
    ensures
        must_init == (old(st).requested && !old(st).initialized),
        final(st).requested == old(st).requested,
        final(st).initialized == (old(st).initialized || old(st).requested),
{
    if !st.requested {
        return false;
    }
    if st.initialized {
        return false;
    }
    st.initialized = true;
    true
}

/// Only for standalone tools where the game has not initialized the input library.
pub fn request_hid_initialize(st: &mut HidInitState)
    ensures
        final(st).requested,
        final(st).initialized == old(st).initialized,
{
    st.requested = true;
}

pub fn disable_hid_initialize(st: &mut HidInitState)
    ensures
        !final(st).requested,
        final(st).initialized == old(st).initialized,
{
    st.requested = false;
}

/// A state counts when the controller is connected or some button is down.
pub open spec fn state_is_active(s: UnifiedNpadState) -> bool {
    s.flags & NPAD_CONNECTED != 0 || s.buttons != 0
}

pub fn is_active(state: UnifiedNpadState) -> (b: bool)
    ensures
        b == state_is_active(state),
{
    (state.flags & NPAD_CONNECTED) != 0 || state.buttons != 0
}

/// The styles a controller state can be read in.
#[derive(Copy, Clone, Debug, PartialEq, Eq, Structural)]
pub enum NpadStyle {
    Gc,
    FullKey,
    JoyDual,
    JoyLeft,
    JoyRight,
    Handheld,
}

/// One read of a controller state: a style and the player id to read it for.
#[derive(Copy, Clone, Debug, PartialEq, Eq, Structural)]
pub struct NpadRead {
    pub style: NpadStyle,
    pub id: u32,
}

/// `read` if `cond` holds, else nothing.
pub open spec fn read_if(cond: bool, style: NpadStyle, id: u32) -> Seq<NpadRead> {
    if cond {
        seq![NpadRead { style, id }]
    } else {
        Seq::empty()
    }
}

/// The reads tried, in order, to find a player's state: the styles the
/// controller reports (Gamecube first), then full-key and dual Joy-Con
/// regardless, then for player 1 the handheld console, then handheld if reported.
pub open spec fn primary_read_plan(id: u32, style_flags: u32) -> Seq<NpadRead> {
    read_if(style_flags & STYLE_GC != 0, NpadStyle::Gc, id)
        + read_if(style_flags & STYLE_FULL_KEY != 0, NpadStyle::FullKey, id)
        + read_if(style_flags & STYLE_JOY_DUAL != 0, NpadStyle::JoyDual, id)
        + read_if(style_flags & STYLE_JOY_LEFT != 0, NpadStyle::JoyLeft, id)
        + read_if(style_flags & STYLE_JOY_RIGHT != 0, NpadStyle::JoyRight, id)
        + read_if(true, NpadStyle::FullKey, id)
        + read_if(true, NpadStyle::JoyDual, id)
        + read_if(id == NPAD_ID_PLAYER_1, NpadStyle::Handheld, NPAD_ID_HANDHELD)
        + read_if(style_flags & STYLE_HANDHELD != 0, NpadStyle::Handheld, id)
}

fn push_read_if(plan: &mut Vec<NpadRead>, cond: bool, style: NpadStyle, id: u32)
    ensures
        final(plan)@ == old(plan)@ + read_if(cond, style, id),
{
    if cond {
        plan.push(NpadRead { style, id });
    }
    assert(final(plan)@ =~= old(plan)@ + read_if(cond, style, id));
}

/// The reads to try, in order, for a player whose controller reports
/// `style_flags`; the first one that finds an active state wins.
pub fn primary_state_reads(id: u32, style_flags: u32) -> (plan: Vec<NpadRead>)
    ensures
        plan@ == primary_read_plan(id, style_flags),
{
    let mut plan: Vec<NpadRead> = Vec::new();
    push_read_if(&mut plan, style_flags & STYLE_GC != 0, NpadStyle::Gc, id);
    push_read_if(&mut plan, style_flags & STYLE_FULL_KEY != 0, NpadStyle::FullKey, id);
    push_read_if(&mut plan, style_flags & STYLE_JOY_DUAL != 0, NpadStyle::JoyDual, id);
    push_read_if(&mut plan, style_flags & STYLE_JOY_LEFT != 0, NpadStyle::JoyLeft, id);
    push_read_if(&mut plan, style_flags & STYLE_JOY_RIGHT != 0, NpadStyle::JoyRight, id);
    push_read_if(&mut plan, true, NpadStyle::FullKey, id);
    push_read_if(&mut plan, true, NpadStyle::JoyDual, id);
    push_read_if(&mut plan, id == NPAD_ID_PLAYER_1, NpadStyle::Handheld, NPAD_ID_HANDHELD);
    push_read_if(&mut plan, style_flags & STYLE_HANDHELD != 0, NpadStyle::Handheld, id);
    plan
}

/// The first active state among `states`, or the empty state when none is active.
pub open spec fn first_active(states: Seq<UnifiedNpadState>) -> UnifiedNpadState
    decreases states.len(),
{
    if states.len() == 0 {
        empty_state()
    } else if state_is_active(states[0]) {
        states[0]
    } else {
        first_active(states.drop_first())
    }
}

/// Picks a player's state from the states read along its plan, in plan order.
pub fn read_primary_state(states: &[UnifiedNpadState]) -> (s: UnifiedNpadState)
    ensures
        s == first_active(states@),
{
    let mut i: usize = 0;
    assert(states@.skip(0) =~= states@);
    while i < states.len()
        invariant
            i <= states@.len(),
            first_active(states@) == first_active(states@.skip(i as int)),
        decreases states@.len() - i,
    {
        assert(states@.skip(i as int)[0] == states@[i as int]);
        assert(states@.skip(i as int).drop_first() =~= states@.skip(i + 1));
        if is_active(states[i]) {
            return states[i];
        }
        i += 1;
    }
    assert(states@.skip(i as int) =~= Seq::<UnifiedNpadState>::empty());
    empty_npad_state()
}

/// The kind of controller a probe found.
pub open spec fn kind_of(style_flags: u32, state: UnifiedNpadState) -> ControllerKind {
    if style_flags & STYLE_GC != 0 && state_is_active(state) {
        ControllerKind::GcController
    } else if style_flags & STYLE_HANDHELD != 0 {
        ControllerKind::Handheld
    } else if style_flags & (STYLE_FULL_KEY | STYLE_JOY_DUAL | STYLE_JOY_LEFT | STYLE_JOY_RIGHT)
        != 0 {
        ControllerKind::ProController
    } else if state_is_active(state) {
        ControllerKind::ProController
    } else {
        ControllerKind::NoController
    }
}

pub fn detect_kind(style_flags: u32, state: UnifiedNpadState) -> (k: ControllerKind)
    ensures
        k == kind_of(style_flags, state),
{
    if (style_flags & STYLE_GC) != 0 {
        if (state.flags & NPAD_CONNECTED) != 0 || state.buttons != 0 {
            return ControllerKind::GcController;
        }
    }
    if (style_flags & STYLE_HANDHELD) != 0 {
        return ControllerKind::Handheld;
    }
    if (style_flags & (STYLE_FULL_KEY | STYLE_JOY_DUAL | STYLE_JOY_LEFT | STYLE_JOY_RIGHT)) != 0 {
        return ControllerKind::ProController;
    }
    if (state.flags & NPAD_CONNECTED) != 0 || state.buttons != 0 {
        return ControllerKind::ProController;
    }
    ControllerKind::NoController
}

/// A probe of player `id` whose controller reports `style_flags` and whose
/// state was read as `state`.
pub fn probe_input(id: u32, style_flags: u32, state: UnifiedNpadState) -> (p: InputProbe)
    ensures
        p.id == id,
        p.style_flags == style_flags,
        p.state == state,
        p.kind == kind_of(style_flags, state),
{
    InputProbe { id, kind: detect_kind(style_flags, state), style_flags, state }
}

/// L, R and one of the Z triggers are held together.
pub open spec fn lrz_held(buttons: Buttons) -> bool {
    buttons & (KEY_L | KEY_R | KEY_ZL) == KEY_L | KEY_R | KEY_ZL || buttons & (KEY_L | KEY_R
        | KEY_ZR) == KEY_L | KEY_R | KEY_ZR
}

pub fn modifier_l_r_z_is_held(buttons: Buttons) -> (b: bool)
    ensures
        b == lrz_held(buttons),
{
    buttons_all_held(buttons, KEY_L | KEY_R | KEY_ZL) || buttons_all_held(
        buttons,
        KEY_L | KEY_R | KEY_ZR,
    )
}

/// The number of connected controllers: player ids are scanned from 0 and
/// the count stops at the first one that is not connected.
pub open spec fn connected_prefix(states: Seq<UnifiedNpadState>) -> nat
    decreases states.len(),
{
    if states.len() == 0 || states[0].flags & NPAD_CONNECTED == 0 {
        0
    } else {
        1 + connected_prefix(states.drop_first())
    }
}

/// Counts connected controllers from the states of player ids 0, 1, ... as
/// read, scanning at most `MAX_SCANNED_PLAYER_IDS` of them.
pub fn check_inputs(states: &[UnifiedNpadState]) -> (n: u32)
    ensures
        n == connected_prefix(states@.take(
            if states@.len() < MAX_SCANNED_PLAYER_IDS { states@.len() as int } else { MAX_SCANNED_PLAYER_IDS as int },
        )),
        n <= MAX_SCANNED_PLAYER_IDS,
{
    let limit: usize = if states.len() < MAX_SCANNED_PLAYER_IDS as usize {
        states.len()
    } else {
        MAX_SCANNED_PLAYER_IDS as usize
    };
    let ghost scanned = states@.take(limit as int);
    assert(limit as int == (if states@.len() < MAX_SCANNED_PLAYER_IDS {
        states@.len() as int
    } else {
        MAX_SCANNED_PLAYER_IDS as int
    }));
    let mut connected: u32 = 0;
    let mut i: usize = 0;
    assert(scanned.skip(0) =~= scanned);
    while i < limit
        invariant
            i <= limit,
            limit <= states@.len(),
            limit <= MAX_SCANNED_PLAYER_IDS,
            scanned == states@.take(limit as int),
            limit as int == (if states@.len() < MAX_SCANNED_PLAYER_IDS {
                states@.len() as int
            } else {
                MAX_SCANNED_PLAYER_IDS as int
            }),
            connected == i,
            connected_prefix(scanned) == i + connected_prefix(scanned.skip(i as int)),
        decreases limit - i,
    {
        assert(scanned.skip(i as int)[0] == states@[i as int]);
        assert(scanned.skip(i as int).drop_first() =~= scanned.skip(i + 1));
        if (states[i].flags & NPAD_CONNECTED) == 0 {
            assert(scanned.skip(i as int).len() > 0);
            assert(connected_prefix(scanned.skip(i as int)) == 0);
            return connected;
        }
        connected += 1;
        i += 1;
    }
    assert(scanned.skip(i as int) =~= Seq::<UnifiedNpadState>::empty());
    connected
}

/// The style bit a controller reports for the controller shape a read uses.
pub open spec fn style_bit(style: NpadStyle) -> u32 {
    match style {
        NpadStyle::Gc => STYLE_GC,
        NpadStyle::FullKey => STYLE_FULL_KEY,
        NpadStyle::JoyDual => STYLE_JOY_DUAL,
        NpadStyle::JoyLeft => STYLE_JOY_LEFT,
        NpadStyle::JoyRight => STYLE_JOY_RIGHT,
        NpadStyle::Handheld => STYLE_HANDHELD,
    }
}

/// The order in which reported styles are tried: Gamecube, full-key, dual
/// Joy-Con, left Joy-Con, right Joy-Con.
pub open spec fn style_rank(style: NpadStyle) -> int {
    match style {
        NpadStyle::Gc => 0,
        NpadStyle::FullKey => 1,
        NpadStyle::JoyDual => 2,
        NpadStyle::JoyLeft => 3,
        NpadStyle::JoyRight => 4,
        NpadStyle::Handheld => 5,
    }
}

/// How many of the Gamecube, full-key, dual, left and right Joy-Con style bits are set.
pub open spec fn reported_style_count(style_flags: u32) -> int {
    (if style_flags & STYLE_GC != 0 { 1int } else { 0int }) + (if style_flags & STYLE_FULL_KEY != 0 {
        1int
    } else {
        0int
    }) + (if style_flags & STYLE_JOY_DUAL != 0 { 1int } else { 0int }) + (if style_flags
        & STYLE_JOY_LEFT != 0 {
        1int
    } else {
        0int
    }) + (if style_flags & STYLE_JOY_RIGHT != 0 { 1int } else { 0int })
}

proof fn lemma_read_if_contains(cond: bool, style: NpadStyle, id: u32, x: NpadRead)
    ensures
        read_if(cond, style, id).contains(x) <==> (cond && x == NpadRead { style, id }),
{
    if cond && x == (NpadRead { style, id }) {
        assert(read_if(cond, style, id)[0] == x);
    }
}

/// Each controller shape a player's controller reports is read with its own
/// style for that player (Gamecube, left and right Joy-Con exactly when
/// reported), full-key and dual Joy-Con are always read, the handheld console
/// is read for player 1 and the handheld style when reported; every read is
/// for the player itself, except player 1's read of the handheld console.
pub proof fn lemma_read_plan_reads_reported_styles(id: u32, style_flags: u32)
    ensures
        ({
            let p = primary_read_plan(id, style_flags);
            &&& (style_flags & STYLE_GC != 0) == p.contains(NpadRead { style: NpadStyle::Gc, id })
            &&& (style_flags & STYLE_JOY_LEFT != 0) == p.contains(
                NpadRead { style: NpadStyle::JoyLeft, id },
            )
            &&& (style_flags & STYLE_JOY_RIGHT != 0) == p.contains(
                NpadRead { style: NpadStyle::JoyRight, id },
            )
            &&& p.contains(NpadRead { style: NpadStyle::FullKey, id })
            &&& p.contains(NpadRead { style: NpadStyle::JoyDual, id })
            &&& (style_flags & STYLE_HANDHELD != 0 ==> p.contains(
                NpadRead { style: NpadStyle::Handheld, id },
            ))
            &&& (id == NPAD_ID_PLAYER_1 ==> p.contains(
                NpadRead { style: NpadStyle::Handheld, id: NPAD_ID_HANDHELD },
            ))
            &&& forall|i: int|
                0 <= i < p.len() ==> #[trigger] p[i].id == id || (id == NPAD_ID_PLAYER_1 && p[i]
                    == NpadRead { style: NpadStyle::Handheld, id: NPAD_ID_HANDHELD })
        }),
{
    broadcast use vstd::seq_lib::lemma_seq_concat_contains_all_elements;

    let gc = NpadRead { style: NpadStyle::Gc, id };
    let fk = NpadRead { style: NpadStyle::FullKey, id };
    let jd = NpadRead { style: NpadStyle::JoyDual, id };
    let jl = NpadRead { style: NpadStyle::JoyLeft, id };
    let jr = NpadRead { style: NpadStyle::JoyRight, id };
    let hh = NpadRead { style: NpadStyle::Handheld, id };
    let hc = NpadRead { style: NpadStyle::Handheld, id: NPAD_ID_HANDHELD };
    let g = style_flags & STYLE_GC != 0;
    let f = style_flags & STYLE_FULL_KEY != 0;
    let d = style_flags & STYLE_JOY_DUAL != 0;
    let l = style_flags & STYLE_JOY_LEFT != 0;
    let r = style_flags & STYLE_JOY_RIGHT != 0;
    let h = style_flags & STYLE_HANDHELD != 0;
    let one = id == NPAD_ID_PLAYER_1;
    let xs = seq![gc, fk, jd, jl, jr, hh, hc];
    assert forall|k: int| 0 <= k < 7 implies {
        let x = #[trigger] xs[k];
        &&& read_if(g, NpadStyle::Gc, id).contains(x) == (g && x == gc)
        &&& read_if(f, NpadStyle::FullKey, id).contains(x) == (f && x == fk)
        &&& read_if(d, NpadStyle::JoyDual, id).contains(x) == (d && x == jd)
        &&& read_if(l, NpadStyle::JoyLeft, id).contains(x) == (l && x == jl)
        &&& read_if(r, NpadStyle::JoyRight, id).contains(x) == (r && x == jr)
        &&& read_if(true, NpadStyle::FullKey, id).contains(x) == (x == fk)
        &&& read_if(true, NpadStyle::JoyDual, id).contains(x) == (x == jd)
        &&& read_if(one, NpadStyle::Handheld, NPAD_ID_HANDHELD).contains(x) == (one && x == hc)
        &&& read_if(h, NpadStyle::Handheld, id).contains(x) == (h && x == hh)
    } by {
        let x = xs[k];
        lemma_read_if_contains(g, NpadStyle::Gc, id, x);
        lemma_read_if_contains(f, NpadStyle::FullKey, id, x);
        lemma_read_if_contains(d, NpadStyle::JoyDual, id, x);
        lemma_read_if_contains(l, NpadStyle::JoyLeft, id, x);
        lemma_read_if_contains(r, NpadStyle::JoyRight, id, x);
        lemma_read_if_contains(true, NpadStyle::FullKey, id, x);
        lemma_read_if_contains(true, NpadStyle::JoyDual, id, x);
        lemma_read_if_contains(one, NpadStyle::Handheld, NPAD_ID_HANDHELD, x);
        lemma_read_if_contains(h, NpadStyle::Handheld, id, x);
    }
    assert(xs[0] == gc && xs[1] == fk && xs[2] == jd && xs[3] == jl && xs[4] == jr && xs[5] == hh
        && xs[6] == hc);
    let p = primary_read_plan(id, style_flags);
    assert forall|i: int| 0 <= i < p.len() implies #[trigger] p[i].id == id || (id
        == NPAD_ID_PLAYER_1 && p[i] == hc) by {
        assert(p.contains(p[i]));
        lemma_read_if_contains(g, NpadStyle::Gc, id, p[i]);
        lemma_read_if_contains(f, NpadStyle::FullKey, id, p[i]);
        lemma_read_if_contains(d, NpadStyle::JoyDual, id, p[i]);
        lemma_read_if_contains(l, NpadStyle::JoyLeft, id, p[i]);
        lemma_read_if_contains(r, NpadStyle::JoyRight, id, p[i]);
        lemma_read_if_contains(true, NpadStyle::FullKey, id, p[i]);
        lemma_read_if_contains(true, NpadStyle::JoyDual, id, p[i]);
        lemma_read_if_contains(one, NpadStyle::Handheld, NPAD_ID_HANDHELD, p[i]);
        lemma_read_if_contains(h, NpadStyle::Handheld, id, p[i]);
    }
}

/// `q` reads only reported styles for player `id`, in strictly increasing
/// style order, all ranked below `bound`.
pub open spec fn reported_prefix(q: Seq<NpadRead>, id: u32, style_flags: u32, bound: int) -> bool {
    &&& forall|i: int|
        #![trigger q[i]]
        0 <= i < q.len() ==> q[i].id == id && style_flags & style_bit(q[i].style) != 0
            && style_rank(q[i].style) < bound
    &&& forall|i: int, j: int|
        #![trigger q[i], q[j]]
        0 <= i < j < q.len() ==> style_rank(q[i].style) < style_rank(q[j].style)
}

proof fn lemma_reported_prefix_extend(
    q: Seq<NpadRead>,
    cond: bool,
    style: NpadStyle,
    id: u32,
    style_flags: u32,
)
    requires
        reported_prefix(q, id, style_flags, style_rank(style)),
        cond ==> style_flags & style_bit(style) != 0,
    ensures
        reported_prefix(q + read_if(cond, style, id), id, style_flags, style_rank(style) + 1),
        (q + read_if(cond, style, id)).len() == q.len() + (if cond { 1int } else { 0int }),
{
    let e = q + read_if(cond, style, id);
    assert forall|i: int| #![trigger e[i]] 0 <= i < e.len() implies e[i].id == id && style_flags
        & style_bit(e[i].style) != 0 && style_rank(e[i].style) < style_rank(style) + 1 by {
        if i < q.len() {
            assert(e[i] == q[i]);
        } else {
            assert(e[i] == NpadRead { style, id });
        }
    }
    assert forall|i: int, j: int| #![trigger e[i], e[j]] 0 <= i < j < e.len() implies style_rank(
        e[i].style,
    ) < style_rank(e[j].style) by {
        assert(e[i] == q[i]);
        if j < q.len() {
            assert(e[j] == q[j]);
        } else {
            assert(e[j] == NpadRead { style, id });
        }
    }
}

/// The order of the reads: first the reported styles, each for the player and
/// in the order Gamecube, full-key, dual, left, right Joy-Con; then full-key and
/// dual Joy-Con regardless; then player 1's handheld console; last the handheld
/// style when reported.
#[verifier::rlimit(50)]
pub proof fn lemma_read_plan_order(id: u32, style_flags: u32)
    ensures
        ({
            let p = primary_read_plan(id, style_flags);
            let n = reported_style_count(style_flags);
            &&& p.len() == n + 2 + (if id == NPAD_ID_PLAYER_1 { 1int } else { 0int }) + (if style_flags
                & STYLE_HANDHELD != 0 {
                1int
            } else {
                0int
            })
            &&& reported_prefix(p.take(n), id, style_flags, 5)
            &&& p[n] == NpadRead { style: NpadStyle::FullKey, id }
            &&& p[n + 1] == NpadRead { style: NpadStyle::JoyDual, id }
            &&& (id == NPAD_ID_PLAYER_1 ==> p[n + 2] == NpadRead {
                style: NpadStyle::Handheld,
                id: NPAD_ID_HANDHELD,
            })
            &&& (style_flags & STYLE_HANDHELD != 0 ==> p[p.len() - 1] == NpadRead {
                style: NpadStyle::Handheld,
                id,
            })
        }),
{
    let g = style_flags & STYLE_GC != 0;
    let f = style_flags & STYLE_FULL_KEY != 0;
    let d = style_flags & STYLE_JOY_DUAL != 0;
    let l = style_flags & STYLE_JOY_LEFT != 0;
    let r = style_flags & STYLE_JOY_RIGHT != 0;
    let h0 = Seq::<NpadRead>::empty();
    lemma_reported_prefix_extend(h0, g, NpadStyle::Gc, id, style_flags);
    assert(h0 + read_if(g, NpadStyle::Gc, id) =~= read_if(g, NpadStyle::Gc, id));
    let h1 = read_if(g, NpadStyle::Gc, id);
    lemma_reported_prefix_extend(h1, f, NpadStyle::FullKey, id, style_flags);
    let h2 = h1 + read_if(f, NpadStyle::FullKey, id);
    lemma_reported_prefix_extend(h2, d, NpadStyle::JoyDual, id, style_flags);
    let h3 = h2 + read_if(d, NpadStyle::JoyDual, id);
    lemma_reported_prefix_extend(h3, l, NpadStyle::JoyLeft, id, style_flags);
    let h4 = h3 + read_if(l, NpadStyle::JoyLeft, id);
    lemma_reported_prefix_extend(h4, r, NpadStyle::JoyRight, id, style_flags);
    let head = h4 + read_if(r, NpadStyle::JoyRight, id);
    let one = id == NPAD_ID_PLAYER_1;
    let h = style_flags & STYLE_HANDHELD != 0;
    let t1 = head + read_if(true, NpadStyle::FullKey, id);
    let t2 = t1 + read_if(true, NpadStyle::JoyDual, id);
    let t3 = t2 + read_if(one, NpadStyle::Handheld, NPAD_ID_HANDHELD);
    let p = t3 + read_if(h, NpadStyle::Handheld, id);
    assert(p == primary_read_plan(id, style_flags));
    let n = reported_style_count(style_flags);
    assert(head.len() == n);
    assert(t1[n] == NpadRead { style: NpadStyle::FullKey, id });
    assert(t2[n] == t1[n]);
    assert(t2[n + 1] == NpadRead { style: NpadStyle::JoyDual, id });
    assert(t3[n] == t2[n] && t3[n + 1] == t2[n + 1]);
    assert(p[n] == t3[n] && p[n + 1] == t3[n + 1]);
    if one {
        assert(t3[n + 2] == NpadRead { style: NpadStyle::Handheld, id: NPAD_ID_HANDHELD });
        assert(p[n + 2] == t3[n + 2]);
    }
    if h {
        assert(p[p.len() - 1] == NpadRead { style: NpadStyle::Handheld, id });
    }
    assert(t1.take(n) =~= head);
    assert(p.take(n) =~= head);
}

/// The modifier chord is L and R held together with ZL or ZR.
pub proof fn lemma_modifier_chord(buttons: Buttons)
    ensures
        lrz_held(buttons) <==> (buttons & KEY_L != 0 && buttons & KEY_R != 0 && (buttons & KEY_ZL != 0
            || buttons & KEY_ZR != 0)),
{
    assert(KEY_L == 0x40u64 && KEY_R == 0x80u64 && KEY_ZL == 0x100u64 && KEY_ZR == 0x200u64)
        by (bit_vector);
    assert((buttons & (0x40u64 | 0x80u64 | 0x100u64) == 0x40u64 | 0x80u64 | 0x100u64 || buttons & (
    0x40u64 | 0x80u64 | 0x200u64) == 0x40u64 | 0x80u64 | 0x200u64) <==> (buttons & 0x40u64 != 0
        && buttons & 0x80u64 != 0 && (buttons & 0x100u64 != 0 || buttons & 0x200u64 != 0)))
        by (bit_vector);
}

/// The controller kind by the style bits reported and whether the state read
/// is active (connected or holding a button): an active Gamecube controller
/// first, then the handheld console only when its style bit is set, then a
/// Pro Controller for full-key, dual, left or right Joy-Con styles, or for an
/// active state of any other style; no controller otherwise.
pub proof fn lemma_kind_by_styles(style_flags: u32, state: UnifiedNpadState)
    ensures
        ({
            let k = kind_of(style_flags, state);
            let active = state.flags & NPAD_CONNECTED != 0 || state.buttons != 0;
            let gc_active = style_flags & STYLE_GC != 0 && active;
            &&& (k == ControllerKind::GcController) <==> gc_active
            &&& (k == ControllerKind::Handheld) <==> (!gc_active && style_flags & STYLE_HANDHELD != 0)
            &&& (!gc_active && style_flags & STYLE_HANDHELD == 0 && (style_flags & STYLE_FULL_KEY != 0
                || style_flags & STYLE_JOY_DUAL != 0 || style_flags & STYLE_JOY_LEFT != 0
                || style_flags & STYLE_JOY_RIGHT != 0)) ==> k == ControllerKind::ProController
            &&& (k == ControllerKind::NoController) <==> (!active && style_flags & (STYLE_HANDHELD
                | STYLE_FULL_KEY | STYLE_JOY_DUAL | STYLE_JOY_LEFT | STYLE_JOY_RIGHT) == 0)
            &&& k != ControllerKind::XInput
        }),
{
    assert(STYLE_FULL_KEY == 1u32 && STYLE_HANDHELD == 2u32 && STYLE_JOY_DUAL == 4u32
        && STYLE_JOY_LEFT == 8u32 && STYLE_JOY_RIGHT == 16u32 && STYLE_GC == 32u32) by (bit_vector);
    assert((style_flags & 1u32 != 0 || style_flags & 4u32 != 0 || style_flags & 8u32 != 0
        || style_flags & 16u32 != 0) <==> style_flags & (1u32 | 4u32 | 8u32 | 16u32) != 0)
        by (bit_vector);
    assert((style_flags & 2u32 == 0 && style_flags & (1u32 | 4u32 | 8u32 | 16u32) == 0)
        <==> style_flags & (2u32 | 1u32 | 4u32 | 8u32 | 16u32) == 0) by (bit_vector);
}

} // verus!
