use vstd::prelude::*;

verus! {

/// Window textures remembered from the game's window builder.
pub const MAX_WINDOW_TEXTURES: usize = 8;

/// Raw value of a tri-state setting that has not been probed yet.
pub const UNKNOWN: i32 = -1;

/// What the runtime cache holds: the GPU objects the game has shown us and
/// what was learned about the driver.
pub struct RuntimeView {
    pub bootstrap_active: bool,
    pub device_initializing: bool,
    pub device_ready: bool,
    pub device: usize,
    pub queue: usize,
    pub window: usize,
    pub present_queue: usize,
    pub device_get_proc_addr: usize,
    pub supports_draw_texture: i32,
    pub driver_api_major: i32,
    pub driver_api_minor: i32,
    pub texture_count: usize,
    pub active_texture_index: i32,
    pub textures: Seq<usize>,
}

/// An address as an option: zero stands for "not known".
pub open spec fn opt_addr(a: usize) -> Option<usize> {
    if a == 0 {
        None
    } else {
        Some(a)
    }
}

/// The cache as it starts out, and as `reset` leaves it.
pub open spec fn initial_view() -> RuntimeView {
    RuntimeView {
        bootstrap_active: false,
        device_initializing: false,
        device_ready: false,
        device: 0,
        queue: 0,
        window: 0,
        present_queue: 0,
        device_get_proc_addr: 0,
        supports_draw_texture: UNKNOWN,
        driver_api_major: UNKNOWN,
        driver_api_minor: UNKNOWN,
        texture_count: 0,
        active_texture_index: -1i32,
        textures: Seq::new(MAX_WINDOW_TEXTURES as nat, |i: int| 0usize),
    }
}

/// The cache after the game showed us device `a`: a new device forgets
/// everything learned about the previous one.
pub open spec fn cache_device_view(v: RuntimeView, a: usize) -> RuntimeView {
    if a == 0 || a == v.device {
        v
    } else {
        RuntimeView {
            device: a,
            device_ready: false,
            device_initializing: false,
            supports_draw_texture: UNKNOWN,
            driver_api_major: UNKNOWN,
            driver_api_minor: UNKNOWN,
            ..v
        }
    }
}

/// The cache once a device initialization has been claimed.
pub open spec fn begin_init_view(v: RuntimeView) -> RuntimeView {
    RuntimeView { device_initializing: true, ..v }
}

/// The cache once a device initialization has ended.
pub open spec fn end_init_view(v: RuntimeView, success: bool) -> RuntimeView {
    RuntimeView { device_ready: success, device_initializing: false, ..v }
}

/// Texture `i` of the cached window, if one is recorded there.
pub open spec fn texture_at(v: RuntimeView, i: int) -> Option<usize> {
    if 0 <= i < v.texture_count {
        opt_addr(v.textures[i])
    } else {
        None
    }
}

/// The texture list after the game configured `count` textures from `given`.
pub open spec fn cached_textures(given: Seq<usize>, count: int) -> Seq<usize> {
    let capped = if count < MAX_WINDOW_TEXTURES { count } else { MAX_WINDOW_TEXTURES as int };
    Seq::new(MAX_WINDOW_TEXTURES as nat, |i: int| if i < capped { given[i] } else { 0usize })
}

/// Cached state about the game's GPU objects.
pub struct RuntimeState {
    bootstrap_active: bool,
    device_initializing: bool,
    device_ready: bool,
    device: usize,
    queue: usize,
    window: usize,
    present_queue: usize,
    device_get_proc_addr: usize,
    supports_draw_texture: i32,
    driver_api_major: i32,
    driver_api_minor: i32,
    texture_count: usize,
    active_texture_index: i32,
    textures: [usize; MAX_WINDOW_TEXTURES],
}

impl View for RuntimeState {
    type V = RuntimeView;

    closed spec fn view(&self) -> RuntimeView {
        RuntimeView {
            bootstrap_active: self.bootstrap_active,
            device_initializing: self.device_initializing,
            device_ready: self.device_ready,
            device: self.device,
            queue: self.queue,
            window: self.window,
            present_queue: self.present_queue,
            device_get_proc_addr: self.device_get_proc_addr,
            supports_draw_texture: self.supports_draw_texture,
            driver_api_major: self.driver_api_major,
            driver_api_minor: self.driver_api_minor,
            texture_count: self.texture_count,
            active_texture_index: self.active_texture_index,
            textures: self.textures@,
        }
    }
}

impl RuntimeState {
    #[verifier::type_invariant]
    spec fn wf(self) -> bool {
        self.texture_count <= MAX_WINDOW_TEXTURES
    }

    pub fn new() -> (s: Self)
        ensures
            s@ == initial_view(),
            s@ == run_ops(Seq::<RuntimeOp>::empty()),
    {
        let s = RuntimeState {
            bootstrap_active: false,
            device_initializing: false,
            device_ready: false,
            device: 0,
            queue: 0,
            window: 0,
            present_queue: 0,
            device_get_proc_addr: 0,
            supports_draw_texture: UNKNOWN,
            driver_api_major: UNKNOWN,
            driver_api_minor: UNKNOWN,
            texture_count: 0,
            active_texture_index: -1,
            textures: [0usize; MAX_WINDOW_TEXTURES],
        };
        assert(s@.textures =~= initial_view().textures);
        s
    }
}

pub fn set_bootstrap_active(state: &mut RuntimeState, active: bool)
    ensures
        final(state)@ == apply_op(old(state)@, RuntimeOp::SetBootstrapActive(active)),
        final(state)@ == (RuntimeView { bootstrap_active: active, ..old(state)@ }),
{
    proof {
        use_type_invariant(&*state);
    }
    state.bootstrap_active = active;
}

pub fn bootstrap_active(state: &RuntimeState) -> (b: bool)
    ensures
        b == state@.bootstrap_active,
{
    state.bootstrap_active
}

/// Remembers the game's device; returns whether it differs from the one known.
pub fn cache_device_ptr(state: &mut RuntimeState, device: usize) -> (changed: bool)
    ensures
        final(state)@ == apply_op(old(state)@, RuntimeOp::CacheDevice(device)),
        changed == (device != 0 && device != old(state)@.device),
        final(state)@ == cache_device_view(old(state)@, device),
{
    proof {
        use_type_invariant(&*state);
    }
    if device == 0 {
        return false;
    }
    let previous = state.device;
    state.device = device;
    if previous == device {
        return false;
    }
    state.device_ready = false;
    state.device_initializing = false;
    state.supports_draw_texture = UNKNOWN;
    state.driver_api_major = UNKNOWN;
    state.driver_api_minor = UNKNOWN;
    true
}

pub fn device_ptr(state: &RuntimeState) -> (d: Option<usize>)
    ensures
        d == opt_addr(state@.device),
{
    if state.device == 0 {
        None
    } else {
        Some(state.device)
    }
}

/// Remembers the game's window; returns whether it differs from the one known.
pub fn cache_window_ptr(state: &mut RuntimeState, window: usize) -> (changed: bool)
    ensures
        final(state)@ == apply_op(old(state)@, RuntimeOp::CacheWindow(window)),
        changed == (window != 0 && window != old(state)@.window),
        final(state)@ == (if window == 0 {
            old(state)@
        } else {
            RuntimeView { window, ..old(state)@ }
        }),
{
    proof {
        use_type_invariant(&*state);
    }
    if window == 0 {
        return false;
    }
    let previous = state.window;
    state.window = window;
    previous != window
}

/// Remembers a queue the game submits to; returns whether it differs from the one known.
pub fn cache_queue_ptr(state: &mut RuntimeState, queue: usize) -> (changed: bool)
    ensures
        final(state)@ == apply_op(old(state)@, RuntimeOp::CacheQueue(queue)),
        changed == (queue != 0 && queue != old(state)@.queue),
        final(state)@ == (if queue == 0 {
            old(state)@
        } else {
            RuntimeView { queue, ..old(state)@ }
        }),
{
    proof {
        use_type_invariant(&*state);
    }
    if queue == 0 {
        return false;
    }
    let previous = state.queue;
    state.queue = queue;
    previous != queue
}

pub fn queue_ptr(state: &RuntimeState) -> (q: Option<usize>)
    ensures
        q == opt_addr(state@.queue),
{
    if state.queue == 0 {
        None
    } else {
        Some(state.queue)
    }
}

/// Remembers the queue the game presents with; returns whether it differs from the one known.
pub fn cache_present_queue_ptr(state: &mut RuntimeState, queue: usize) -> (changed: bool)
    ensures
        final(state)@ == apply_op(old(state)@, RuntimeOp::CachePresentQueue(queue)),
        changed == (queue != 0 && queue != old(state)@.present_queue),
        final(state)@ == (if queue == 0 {
            old(state)@
        } else {
            RuntimeView { present_queue: queue, ..old(state)@ }
        }),
{
    proof {
        use_type_invariant(&*state);
    }
    if queue == 0 {
        return false;
    }
    let previous = state.present_queue;
    state.present_queue = queue;
    previous != queue
}

pub fn present_queue_ptr(state: &RuntimeState) -> (q: Option<usize>)
    ensures
        q == opt_addr(state@.present_queue),
{
    if state.present_queue == 0 {
        None
    } else {
        Some(state.present_queue)
    }
}

pub fn window_ptr(state: &RuntimeState) -> (w: Option<usize>)
    ensures
        w == opt_addr(state@.window),
{
    if state.window == 0 {
        None
    } else {
        Some(state.window)
    }
}

/// Remembers the resolved `nvnDeviceGetProcAddress`; zero is ignored.
pub fn set_device_get_proc_addr(state: &mut RuntimeState, addr: usize)
    ensures
        final(state)@ == apply_op(old(state)@, RuntimeOp::SetDeviceGetProcAddr(addr)),
        final(state)@ == (if addr == 0 {
            old(state)@
        } else {
            RuntimeView { device_get_proc_addr: addr, ..old(state)@ }
        }),
{
    proof {
        use_type_invariant(&*state);
    }
    if addr != 0 {
        state.device_get_proc_addr = addr;
    }
}

pub fn device_get_proc_addr(state: &RuntimeState) -> (a: Option<usize>)
    ensures
        a == opt_addr(state@.device_get_proc_addr),
{
    if state.device_get_proc_addr == 0 {
        None
    } else {
        Some(state.device_get_proc_addr)
    }
}

/// Claims the device initialization; fails while another one is in progress.
pub fn begin_device_init(state: &mut RuntimeState) -> (claimed: bool)
    ensures
        final(state)@ == apply_op(old(state)@, RuntimeOp::BeginDeviceInit),
        claimed == !old(state)@.device_initializing,
        final(state)@ == begin_init_view(old(state)@),
{
    proof {
        use_type_invariant(&*state);
    }
    if state.device_initializing {
        false
    } else {
        state.device_initializing = true;
        true
    }
}

/// Ends the device initialization, recording whether it succeeded.
pub fn end_device_init(state: &mut RuntimeState, success: bool)
    ensures
        final(state)@ == apply_op(old(state)@, RuntimeOp::EndDeviceInit(success)),
        final(state)@ == end_init_view(old(state)@, success),
{
    proof {
        use_type_invariant(&*state);
    }
    state.device_ready = success;
    state.device_initializing = false;
}

pub fn device_ready(state: &RuntimeState) -> (b: bool)
    ensures
        b == state@.device_ready,
{
    state.device_ready
}

/// Records the raw draw-texture capability the driver reported.
pub fn cache_supports_draw_texture(state: &mut RuntimeState, raw: i32)
    ensures
        final(state)@ == apply_op(old(state)@, RuntimeOp::CacheSupportsDrawTexture(raw)),
        final(state)@ == (RuntimeView { supports_draw_texture: raw, ..old(state)@ }),
{
    proof {
        use_type_invariant(&*state);
    }
    state.supports_draw_texture = raw;
}

/// The draw-texture capability: unknown while the raw value is negative.
pub open spec fn tri_state(raw: i32) -> Option<bool> {
    if raw < 0 {
        None
    } else {
        Some(raw != 0)
    }
}

pub fn supports_draw_texture(state: &RuntimeState) -> (s: Option<bool>)
    ensures
        s == tri_state(state@.supports_draw_texture),
{
    let raw = state.supports_draw_texture;
    if raw < 0 {
        None
    } else {
        Some(raw != 0)
    }
}

pub fn cache_driver_api_versions(state: &mut RuntimeState, major: i32, minor: i32)
    ensures
        final(state)@ == apply_op(old(state)@, RuntimeOp::CacheDriverApiVersions(major, minor)),
        final(state)@ == (RuntimeView {
            driver_api_major: major,
            driver_api_minor: minor,
            ..old(state)@
        }),
{
    proof {
        use_type_invariant(&*state);
    }
    state.driver_api_major = major;
    state.driver_api_minor = minor;
}

/// The driver's API version, known only when both parts are non-negative.
pub open spec fn versions_of(v: RuntimeView) -> Option<(i32, i32)> {
    if v.driver_api_major < 0 || v.driver_api_minor < 0 {
        None
    } else {
        Some((v.driver_api_major, v.driver_api_minor))
    }
}

pub fn driver_api_versions(state: &RuntimeState) -> (r: Option<(i32, i32)>)
    ensures
        r == versions_of(state@),
{
    let major = state.driver_api_major;
    let minor = state.driver_api_minor;
    if major < 0 || minor < 0 {
        None
    } else {
        Some((major, minor))
    }
}

/// Forgets everything.
pub fn reset(state: &mut RuntimeState)
    ensures
        final(state)@ == apply_op(old(state)@, RuntimeOp::Reset),
        final(state)@ == initial_view(),
{
    proof {
        use_type_invariant(&*state);
    }
    *state = RuntimeState::new();
}

/// Remembers the textures the game gave its window builder; `textures` is
/// `None` for a null list. Nothing changes for a null list or a count that is
/// not positive; at most `MAX_WINDOW_TEXTURES` are kept and the rest of the list is cleared.
pub fn cache_window_textures(state: &mut RuntimeState, textures: Option<&[usize]>, count: i32)
    requires
        textures matches Some(t) ==> t@.len() >= (if count < MAX_WINDOW_TEXTURES {
            count as int
        } else {
            MAX_WINDOW_TEXTURES as int
        }),
    ensures
        final(state)@ == apply_op(old(state)@, RuntimeOp::CacheWindowTextures(texture_list_of(textures), count)),
        final(state)@ == (match textures {
            Some(t) if count > 0 => RuntimeView {
                texture_count: (if count < MAX_WINDOW_TEXTURES {
                    count as usize
                } else {
                    MAX_WINDOW_TEXTURES
                }),
                textures: cached_textures(t@, count as int),
                ..old(state)@
            },
            _ => old(state)@,
        }),
{
    proof {
        use_type_invariant(&*state);
    }
    let t = match textures {
        Some(t) => t,
        None => return,
    };
    if count <= 0 {
        return;
    }
    let capped: usize = if (count as usize) < MAX_WINDOW_TEXTURES {
        count as usize
    } else {
        MAX_WINDOW_TEXTURES
    };
    let ghost old_view = state@;
    let mut list: [usize; MAX_WINDOW_TEXTURES] = [0usize; MAX_WINDOW_TEXTURES];
    let mut i: usize = 0;
    while i < MAX_WINDOW_TEXTURES
        invariant
            i <= MAX_WINDOW_TEXTURES,
            capped <= MAX_WINDOW_TEXTURES,
            capped <= t@.len(),
            capped == (if count < MAX_WINDOW_TEXTURES {
                count as int
            } else {
                MAX_WINDOW_TEXTURES as int
            }),
            forall|j: int| 0 <= j < i ==> list@[j] == (if j < capped { t@[j] } else { 0usize }),
        decreases MAX_WINDOW_TEXTURES - i,
    {
        if i < capped {
            list[i] = t[i];
        } else {
            list[i] = 0;
        }
        i += 1;
    }
    state.texture_count = capped;
    state.textures = list;
    assert(state@.textures =~= cached_textures(t@, count as int));
    assert(state@ == (RuntimeView {
        texture_count: capped,
        textures: cached_textures(t@, count as int),
        ..old_view
    }));
}

pub fn set_active_window_texture_index(state: &mut RuntimeState, index: i32)
    ensures
        final(state)@ == apply_op(old(state)@, RuntimeOp::SetActiveWindowTextureIndex(index)),
        final(state)@ == (RuntimeView { active_texture_index: index, ..old(state)@ }),
{
    proof {
        use_type_invariant(&*state);
    }
    state.active_texture_index = index;
}

pub fn active_window_texture_index(state: &RuntimeState) -> (r: Option<i32>)
    ensures
        r == (if state@.active_texture_index >= 0 {
            Some(state@.active_texture_index)
        } else {
            None::<i32>
        }),
{
    if state.active_texture_index >= 0 {
        Some(state.active_texture_index)
    } else {
        None
    }
}

/// The texture the game acquired last, if it is among the cached ones.
pub fn active_window_texture_ptr(state: &RuntimeState) -> (r: Option<usize>)
    ensures
        r == texture_at(state@, state@.active_texture_index as int),
{
    proof {
        use_type_invariant(state);
    }
    if state.active_texture_index < 0 {
        return None;
    }
    let idx = state.active_texture_index as usize;
    if idx >= state.texture_count {
        return None;
    }
    let ptr = state.textures[idx];
    if ptr == 0 {
        None
    } else {
        Some(ptr)
    }
}

pub fn window_texture_ptr_at(state: &RuntimeState, index: i32) -> (r: Option<usize>)
    ensures
        r == texture_at(state@, index as int),
{
    proof {
        use_type_invariant(state);
    }
    if index < 0 {
        return None;
    }
    let idx = index as usize;
    if idx >= state.texture_count {
        return None;
    }
    let ptr = state.textures[idx];
    if ptr == 0 {
        None
    } else {
        Some(ptr)
    }
}

pub fn first_window_texture_ptr(state: &RuntimeState) -> (r: Option<usize>)
    ensures
        r == texture_at(state@, 0),
{
    proof {
        use_type_invariant(state);
    }
    if state.texture_count == 0 {
        return None;
    }
    let ptr = state.textures[0];
    if ptr == 0 {
        None
    } else {
        Some(ptr)
    }
}

/// Copies the cached textures into `out`, clearing the slots past them;
/// returns how many are cached.
pub fn window_texture_ptrs_snapshot(state: &RuntimeState, out: &mut [usize; MAX_WINDOW_TEXTURES]) -> (n:
    usize)
    ensures
        n == state@.texture_count,
        final(out)@ =~= Seq::new(
            MAX_WINDOW_TEXTURES as nat,
            |i: int|
                if i < state@.texture_count {
                    state@.textures[i]
                } else {
                    0usize
                },
        ),
{
    proof {
        use_type_invariant(state);
    }
    let mut i: usize = 0;
    while i < MAX_WINDOW_TEXTURES
        invariant
            i <= MAX_WINDOW_TEXTURES,
            state.texture_count <= MAX_WINDOW_TEXTURES,
            forall|j: int|
                0 <= j < i ==> out@[j] == (if j < state@.texture_count {
                    state@.textures[j]
                } else {
                    0usize
                }),
        decreases MAX_WINDOW_TEXTURES - i,
    {
        if i < state.texture_count {
            out[i] = state.textures[i];
        } else {
            out[i] = 0;
        }
        i += 1;
    }
    state.texture_count
}

/// A device the game shows us is what `device_ptr` reports afterwards.
pub proof fn lemma_cached_device_read_back(v: RuntimeView, a: usize)
    requires
        a != 0,
    ensures
        opt_addr(cache_device_view(v, a).device) == Some(a),
{
}

/// Switching to another device forgets readiness, the driver version and the
/// draw-texture capability; showing the same device again changes nothing.
pub proof fn lemma_device_change_forgets_driver_facts(v: RuntimeView, a: usize)
    ensures
        a != 0 && a != v.device ==> {
            let w = cache_device_view(v, a);
            &&& !w.device_ready
            &&& !w.device_initializing
            &&& versions_of(w) == None::<(i32, i32)>
            &&& tri_state(w.supports_draw_texture) == None::<bool>
        },
        a == v.device ==> cache_device_view(v, a) == v,
{
}

/// Only one device initialization runs at a time: once one is claimed no other
/// claim succeeds until it ends, and after it ends the next claim succeeds.
pub proof fn lemma_device_init_exclusive(v: RuntimeView, success: bool)
    ensures
        begin_init_view(v).device_initializing,
        begin_init_view(begin_init_view(v)) == begin_init_view(v),
        !end_init_view(begin_init_view(v), success).device_initializing,
        end_init_view(begin_init_view(v), success).device_ready == success,
{
}

/// After a reset nothing is known: no object, no texture, no driver fact.
pub proof fn lemma_reset_forgets_everything(i: int)
    ensures
        opt_addr(initial_view().device) == None::<usize>,
        opt_addr(initial_view().queue) == None::<usize>,
        opt_addr(initial_view().window) == None::<usize>,
        opt_addr(initial_view().present_queue) == None::<usize>,
        opt_addr(initial_view().device_get_proc_addr) == None::<usize>,
        versions_of(initial_view()) == None::<(i32, i32)>,
        tri_state(initial_view().supports_draw_texture) == None::<bool>,
        texture_at(initial_view(), i) == None::<usize>,
        !initial_view().device_ready,
        !initial_view().bootstrap_active,
{
}

/// Each texture the game configured, up to the cap, is what the cache reports
/// at its index; indices past the configured ones report none.
pub proof fn lemma_cached_texture_read_back(v: RuntimeView, given: Seq<usize>, count: i32, i: int)
    requires
        count > 0,
        given.len() >= (if count < MAX_WINDOW_TEXTURES { count as int } else { MAX_WINDOW_TEXTURES as int }),
    ensures
        ({
            let capped = if count < MAX_WINDOW_TEXTURES { count as usize } else { MAX_WINDOW_TEXTURES };
            let w = RuntimeView {
                texture_count: capped,
                textures: cached_textures(given, count as int),
                ..v
            };
            &&& (0 <= i < capped ==> texture_at(w, i) == opt_addr(given[i]))
            &&& (i >= capped ==> texture_at(w, i) == None::<usize>)
        }),
{
}

/// A change made to the runtime cache, one per function of this module that
/// changes it.
pub enum RuntimeOp {
    SetBootstrapActive(bool),
    CacheDevice(usize),
    CacheWindow(usize),
    CacheQueue(usize),
    CachePresentQueue(usize),
    SetDeviceGetProcAddr(usize),
    BeginDeviceInit,
    EndDeviceInit(bool),
    CacheSupportsDrawTexture(i32),
    CacheDriverApiVersions(i32, i32),
    CacheWindowTextures(Option<Seq<usize>>, i32),
    SetActiveWindowTextureIndex(i32),
    Reset,
}

/// A texture list as handed over: `None` for a null list.
pub open spec fn texture_list_of(textures: Option<&[usize]>) -> Option<Seq<usize>> {
    match textures {
        Some(t) => Some(t@),
        None => None,
    }
}

/// The cache after one change.
pub open spec fn apply_op(v: RuntimeView, op: RuntimeOp) -> RuntimeView {
    match op {
        RuntimeOp::SetBootstrapActive(active) => RuntimeView { bootstrap_active: active, ..v },
        RuntimeOp::CacheDevice(d) => cache_device_view(v, d),
        RuntimeOp::CacheWindow(w) => if w == 0 {
            v
        } else {
            RuntimeView { window: w, ..v }
        },
        RuntimeOp::CacheQueue(q) => if q == 0 {
            v
        } else {
            RuntimeView { queue: q, ..v }
        },
        RuntimeOp::CachePresentQueue(q) => if q == 0 {
            v
        } else {
            RuntimeView { present_queue: q, ..v }
        },
        RuntimeOp::SetDeviceGetProcAddr(a) => if a == 0 {
            v
        } else {
            RuntimeView { device_get_proc_addr: a, ..v }
        },
        RuntimeOp::BeginDeviceInit => begin_init_view(v),
        RuntimeOp::EndDeviceInit(success) => end_init_view(v, success),
        RuntimeOp::CacheSupportsDrawTexture(raw) => RuntimeView { supports_draw_texture: raw, ..v },
        RuntimeOp::CacheDriverApiVersions(major, minor) => RuntimeView {
            driver_api_major: major,
            driver_api_minor: minor,
            ..v
        },
        RuntimeOp::CacheWindowTextures(textures, count) => match textures {
            Some(t) if count > 0 => RuntimeView {
                texture_count: (if count < MAX_WINDOW_TEXTURES {
                    count as usize
                } else {
                    MAX_WINDOW_TEXTURES
                }),
                textures: cached_textures(t, count as int),
                ..v
            },
            _ => v,
        },
        RuntimeOp::SetActiveWindowTextureIndex(index) => RuntimeView {
            active_texture_index: index,
            ..v
        },
        RuntimeOp::Reset => initial_view(),
    }
}

/// The cache after the changes `ops`, in order, made to a fresh cache.
pub open spec fn run_ops(ops: Seq<RuntimeOp>) -> RuntimeView
    decreases ops.len(),
{
    if ops.len() == 0 {
        initial_view()
    } else {
        apply_op(run_ops(ops.drop_last()), ops.last())
    }
}

/// The last non-null device shown since the last reset.
pub open spec fn last_device(ops: Seq<RuntimeOp>) -> Option<usize>
    decreases ops.len(),
{
    if ops.len() == 0 {
        None
    } else {
        match ops.last() {
            RuntimeOp::CacheDevice(d) if d != 0 => Some(d),
            RuntimeOp::Reset => None,
            _ => last_device(ops.drop_last()),
        }
    }
}

/// The last non-null queue cached since the last reset.
pub open spec fn last_queue(ops: Seq<RuntimeOp>) -> Option<usize>
    decreases ops.len(),
{
    if ops.len() == 0 {
        None
    } else {
        match ops.last() {
            RuntimeOp::CacheQueue(q) if q != 0 => Some(q),
            RuntimeOp::Reset => None,
            _ => last_queue(ops.drop_last()),
        }
    }
}

/// The last non-zero `nvnDeviceGetProcAddress` recorded since the last reset.
pub open spec fn last_proc_addr(ops: Seq<RuntimeOp>) -> Option<usize>
    decreases ops.len(),
{
    if ops.len() == 0 {
        None
    } else {
        match ops.last() {
            RuntimeOp::SetDeviceGetProcAddr(a) if a != 0 => Some(a),
            RuntimeOp::Reset => None,
            _ => last_proc_addr(ops.drop_last()),
        }
    }
}

/// The last bootstrap flag set since the last reset; `false` when none was.
pub open spec fn last_bootstrap_active(ops: Seq<RuntimeOp>) -> bool
    decreases ops.len(),
{
    if ops.len() == 0 {
        false
    } else {
        match ops.last() {
            RuntimeOp::SetBootstrapActive(active) => active,
            RuntimeOp::Reset => false,
            _ => last_bootstrap_active(ops.drop_last()),
        }
    }
}

/// The outcome of the last device initialization that ended after both the
/// last reset and the last switch to another device; `false` when there is none.
pub open spec fn last_init_outcome(ops: Seq<RuntimeOp>) -> bool
    decreases ops.len(),
{
    if ops.len() == 0 {
        false
    } else {
        match ops.last() {
            RuntimeOp::EndDeviceInit(success) => success,
            RuntimeOp::Reset => false,
            RuntimeOp::CacheDevice(d) => if d != 0 && d != run_ops(ops.drop_last()).device {
                false
            } else {
                last_init_outcome(ops.drop_last())
            },
            _ => last_init_outcome(ops.drop_last()),
        }
    }
}

/// Over any history of changes, `device_ptr` reports the last non-null device
/// shown since the last reset (none when there is none), `queue_ptr` the last
/// non-null queue cached since then (caching a present queue, a window or a
/// device leaves it), and `device_get_proc_addr` the last non-zero address
/// recorded since then; none of them ever reports a null address.
pub proof fn lemma_cached_pointers_follow_history(ops: Seq<RuntimeOp>)
    ensures
        opt_addr(run_ops(ops).device) == last_device(ops),
        opt_addr(run_ops(ops).queue) == last_queue(ops),
        opt_addr(run_ops(ops).device_get_proc_addr) == last_proc_addr(ops),
        opt_addr(run_ops(ops).device) != Some(0usize),
        opt_addr(run_ops(ops).queue) != Some(0usize),
        opt_addr(run_ops(ops).device_get_proc_addr) != Some(0usize),
    decreases ops.len(),
{
    if ops.len() > 0 {
        lemma_cached_pointers_follow_history(ops.drop_last());
    }
}

/// Over any history of changes, `bootstrap_active` is the last flag set since
/// the last reset, `false` when none was; and `device_ready` is the outcome of
/// the last initialization that ended after both the last reset and the last
/// switch to another device, `false` when there is none.
pub proof fn lemma_flags_follow_history(ops: Seq<RuntimeOp>)
    ensures
        run_ops(ops).bootstrap_active == last_bootstrap_active(ops),
        run_ops(ops).device_ready == last_init_outcome(ops),
    decreases ops.len(),
{
    if ops.len() > 0 {
        lemma_flags_follow_history(ops.drop_last());
    }
}

} // verus!
