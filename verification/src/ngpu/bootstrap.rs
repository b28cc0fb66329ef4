use crate::nmem::alignment::{
    is_power_of_two, lemma_mask_rounds_up, lemma_round_up_is_rounded_up, lemma_rounded_up_unique,
    round_up,
};
use crate::nmem::memory_pool::{layout_accepts, layout_from_size_align_is_ok};
use crate::ngpu::resources::runtime;
use crate::ngpu::resources::runtime::{
    cache_device_view, opt_addr, texture_at, tri_state, versions_of, RuntimeState, RuntimeView,
    MAX_WINDOW_TEXTURES,
};
use vstd::prelude::*;

verus! {

/// Distinct queues, callers and queue/caller pairs remembered for diagnostics.
pub const MAX_TRACKED_QUEUES: usize = 64;

pub const MAX_TRACKED_SUBMIT_CALLERS: usize = 128;

pub const MAX_TRACKED_SUBMIT_QUEUE_CALLERS: usize = 256;

/// Granularity and alignment of queue memory handed to the driver.
pub const NVN_MEMORY_POOL_STORAGE_GRANULARITY: usize = 0x1000;

/// Queue builder flag that this library clears: the queue keeps fragment interlock.
pub const NVN_QUEUE_BUILDER_FLAGS_NO_FRAGMENT_INTERLOCK: i32 = 0x1;

pub const NVN_QUEUE_GET_ERROR_GPU_NO_ERROR: i32 = 0;

pub const NVN_QUEUE_GET_ERROR_GPU_ERROR_UNKNOWN: i32 = 1;

pub const NVN_QUEUE_GET_ERROR_GPU_ERROR_MMU_FAULT: i32 = 2;

pub const NVN_QUEUE_GET_ERROR_GPU_ERROR_PBDMA_EXCEPTION: i32 = 3;

pub const NVN_QUEUE_GET_ERROR_GPU_ERROR_ENGINE_EXCEPTION: i32 = 4;

pub const NVN_QUEUE_GET_ERROR_GPU_ERROR_TIMEOUT: i32 = 5;

pub const NVN_MEMORY_ACCESS_WRITE: i32 = 1;

/// A queue caller: the queue's address and the return address of the submitter.
pub type QueueCaller = (usize, usize);

/// The first `len` entries of a list hold it; appending `value` is refused for
/// zero, for a value already there and for a full list.
pub open spec fn push_unique_accepts<T>(items: Seq<T>, len: int, cap: int, value: T, is_zero: bool) -> bool {
    &&& !is_zero
    &&& !items.take(len).contains(value)
    &&& len < cap
}

/// Appends `value` to the first `*len` entries of `list` unless it is zero,
/// already among them, or the list is full; returns whether it was appended.
pub fn push_unique_usize<const N: usize>(list: &mut [usize; N], len: &mut usize, value: usize) -> (pushed: bool)
    requires
        *old(len) <= N,
    ensures
        pushed == push_unique_accepts(old(list)@, *old(len) as int, N as int, value, value == 0),
        pushed ==> *final(len) == *old(len) + 1 && final(list)@ == old(list)@.update(
            *old(len) as int,
            value,
        ),
        !pushed ==> *final(len) == *old(len) && final(list)@ == old(list)@,
{
    if value == 0 {
        return false;
    }
    let mut i: usize = 0;
    while i < *len
        invariant
            i <= *len,
            *len <= N,
            *len == *old(len),
            list@ == old(list)@,
            forall|j: int| 0 <= j < i ==> list@[j] != value,
        decreases *len - i,
    {
        if list[i] == value {
            assert(list@.take(*len as int)[i as int] == value);
            return false;
        }
        i += 1;
    }
    assert(!list@.take(*len as int).contains(value)) by {
        if list@.take(*len as int).contains(value) {
            let j = choose|j: int| 0 <= j < *len && list@.take(*len as int)[j] == value;
            assert(list@[j] == value);
        }
    }
    if *len < N {
        list[*len] = value;
        *len = *len + 1;
        true
    } else {
        false
    }
}

/// The pair version of [`push_unique_usize`]: pairs with a zero part are refused.
pub fn push_unique_pair<const N: usize>(list: &mut [QueueCaller; N], len: &mut usize, value: QueueCaller) -> (pushed: bool)
    requires
        *old(len) <= N,
    ensures
        pushed == push_unique_accepts(
            old(list)@,
            *old(len) as int,
            N as int,
            value,
            value.0 == 0 || value.1 == 0,
        ),
        pushed ==> *final(len) == *old(len) + 1 && final(list)@ == old(list)@.update(
            *old(len) as int,
            value,
        ),
        !pushed ==> *final(len) == *old(len) && final(list)@ == old(list)@,
{
    if value.0 == 0 || value.1 == 0 {
        return false;
    }
    let mut i: usize = 0;
    while i < *len
        invariant
            i <= *len,
            *len <= N,
            *len == *old(len),
            list@ == old(list)@,
            forall|j: int| 0 <= j < i ==> list@[j] != value,
        decreases *len - i,
    {
        let entry = list[i];
        if entry.0 == value.0 && entry.1 == value.1 {
            assert(list@.take(*len as int)[i as int] == value);
            return false;
        }
        i += 1;
    }
    assert(!list@.take(*len as int).contains(value)) by {
        if list@.take(*len as int).contains(value) {
            let j = choose|j: int| 0 <= j < *len && list@.take(*len as int)[j] == value;
            assert(list@[j] == value);
        }
    }
    if *len < N {
        list[*len] = value;
        *len = *len + 1;
        true
    } else {
        false
    }
}

/// Queues, submit callers and queue/caller pairs seen so far, each without repeats.
pub struct QueueTracking {
    init_queues: [usize; MAX_TRACKED_QUEUES],
    init_queues_len: usize,
    finalize_queues: [usize; MAX_TRACKED_QUEUES],
    finalize_queues_len: usize,
    submit_queues: [usize; MAX_TRACKED_QUEUES],
    submit_queues_len: usize,
    submit_callers: [usize; MAX_TRACKED_SUBMIT_CALLERS],
    submit_callers_len: usize,
    submit_queue_callers: [QueueCaller; MAX_TRACKED_SUBMIT_QUEUE_CALLERS],
    submit_queue_callers_len: usize,
}

impl QueueTracking {
    #[verifier::type_invariant]
    spec fn wf(self) -> bool {
        &&& self.init_queues_len <= MAX_TRACKED_QUEUES
        &&& self.finalize_queues_len <= MAX_TRACKED_QUEUES
        &&& self.submit_queues_len <= MAX_TRACKED_QUEUES
        &&& self.submit_callers_len <= MAX_TRACKED_SUBMIT_CALLERS
        &&& self.submit_queue_callers_len <= MAX_TRACKED_SUBMIT_QUEUE_CALLERS
    }

    /// Queues seen initializing, in order.
    pub closed spec fn init_queues(self) -> Seq<usize> {
        self.init_queues@.take(self.init_queues_len as int)
    }

    /// Queues seen finalizing, in order.
    pub closed spec fn finalize_queues(self) -> Seq<usize> {
        self.finalize_queues@.take(self.finalize_queues_len as int)
    }

    /// Queues seen submitting, in order.
    pub closed spec fn submit_queues(self) -> Seq<usize> {
        self.submit_queues@.take(self.submit_queues_len as int)
    }

    /// Submitting callers, in order.
    pub closed spec fn submit_callers(self) -> Seq<usize> {
        self.submit_callers@.take(self.submit_callers_len as int)
    }

    /// Queue/caller pairs seen submitting, in order.
    pub closed spec fn submit_queue_callers(self) -> Seq<QueueCaller> {
        self.submit_queue_callers@.take(self.submit_queue_callers_len as int)
    }

    pub fn new() -> (t: Self)
        ensures
            t.init_queues() == Seq::<usize>::empty(),
            t.finalize_queues() == Seq::<usize>::empty(),
            t.submit_queues() == Seq::<usize>::empty(),
            t.submit_callers() == Seq::<usize>::empty(),
            t.submit_queue_callers() == Seq::<QueueCaller>::empty(),
    {
        let t = QueueTracking {
            init_queues: [0usize; MAX_TRACKED_QUEUES],
            init_queues_len: 0,
            finalize_queues: [0usize; MAX_TRACKED_QUEUES],
            finalize_queues_len: 0,
            submit_queues: [0usize; MAX_TRACKED_QUEUES],
            submit_queues_len: 0,
            submit_callers: [0usize; MAX_TRACKED_SUBMIT_CALLERS],
            submit_callers_len: 0,
            submit_queue_callers: [(0usize, 0usize); MAX_TRACKED_SUBMIT_QUEUE_CALLERS],
            submit_queue_callers_len: 0,
        };
        assert(t.init_queues() =~= Seq::<usize>::empty());
        assert(t.finalize_queues() =~= Seq::<usize>::empty());
        assert(t.submit_queues() =~= Seq::<usize>::empty());
        assert(t.submit_callers() =~= Seq::<usize>::empty());
        assert(t.submit_queue_callers() =~= Seq::<QueueCaller>::empty());
        t
    }

    pub fn init_queue_count(&self) -> (n: usize)
        ensures
            n == self.init_queues().len(),
    {
        proof {
            use_type_invariant(self);
        }
        self.init_queues_len
    }

    pub fn finalize_queue_count(&self) -> (n: usize)
        ensures
            n == self.finalize_queues().len(),
    {
        proof {
            use_type_invariant(self);
        }
        self.finalize_queues_len
    }

    /// Remembers a queue that initialized; returns whether it is new.
    pub fn record_init_queue(&mut self, queue: usize) -> (is_new: bool)
        ensures
            is_new == (queue != 0 && !old(self).init_queues().contains(queue)
                && old(self).init_queues().len() < MAX_TRACKED_QUEUES),
            final(self).init_queues() == (if is_new {
                old(self).init_queues().push(queue)
            } else {
                old(self).init_queues()
            }),
            final(self).finalize_queues() == old(self).finalize_queues(),
            final(self).submit_queues() == old(self).submit_queues(),
            final(self).submit_callers() == old(self).submit_callers(),
            final(self).submit_queue_callers() == old(self).submit_queue_callers(),
    {
        proof {
            use_type_invariant(&*self);
        }
        let mut list = self.init_queues;
        let mut len = self.init_queues_len;
        let is_new = push_unique_usize(&mut list, &mut len, queue);
        self.init_queues = list;
        self.init_queues_len = len;
        proof {
            if is_new {
                assert(self.init_queues() =~= old(self).init_queues().push(queue));
            }
        }
        is_new
    }

    /// Remembers a queue that finalized; returns whether it is new.
    pub fn record_finalize_queue(&mut self, queue: usize) -> (is_new: bool)
        ensures
            is_new == (queue != 0 && !old(self).finalize_queues().contains(queue)
                && old(self).finalize_queues().len() < MAX_TRACKED_QUEUES),
            final(self).finalize_queues() == (if is_new {
                old(self).finalize_queues().push(queue)
            } else {
                old(self).finalize_queues()
            }),
            final(self).init_queues() == old(self).init_queues(),
            final(self).submit_queues() == old(self).submit_queues(),
            final(self).submit_callers() == old(self).submit_callers(),
            final(self).submit_queue_callers() == old(self).submit_queue_callers(),
    {
        proof {
            use_type_invariant(&*self);
        }
        let mut list = self.finalize_queues;
        let mut len = self.finalize_queues_len;
        let is_new = push_unique_usize(&mut list, &mut len, queue);
        self.finalize_queues = list;
        self.finalize_queues_len = len;
        proof {
            if is_new {
                assert(self.finalize_queues() =~= old(self).finalize_queues().push(queue));
            }
        }
        is_new
    }

    /// Remembers a submission by `caller` to `queue`; returns whether the queue,
    /// the caller and the pair were each new.
    pub fn record_submit(&mut self, queue: usize, caller: usize) -> (r: (bool, bool, bool))
        ensures
            r.0 == (queue != 0 && !old(self).submit_queues().contains(queue)
                && old(self).submit_queues().len() < MAX_TRACKED_QUEUES),
            r.1 == (caller != 0 && !old(self).submit_callers().contains(caller)
                && old(self).submit_callers().len() < MAX_TRACKED_SUBMIT_CALLERS),
            r.2 == (queue != 0 && caller != 0 && !old(self).submit_queue_callers().contains(
                (queue, caller),
            ) && old(self).submit_queue_callers().len() < MAX_TRACKED_SUBMIT_QUEUE_CALLERS),
            final(self).submit_queues() == (if r.0 {
                old(self).submit_queues().push(queue)
            } else {
                old(self).submit_queues()
            }),
            final(self).submit_callers() == (if r.1 {
                old(self).submit_callers().push(caller)
            } else {
                old(self).submit_callers()
            }),
            final(self).submit_queue_callers() == (if r.2 {
                old(self).submit_queue_callers().push((queue, caller))
            } else {
                old(self).submit_queue_callers()
            }),
            final(self).init_queues() == old(self).init_queues(),
            final(self).finalize_queues() == old(self).finalize_queues(),
    {
        proof {
            use_type_invariant(&*self);
        }
        let mut queues = self.submit_queues;
        let mut queues_len = self.submit_queues_len;
        let new_queue = push_unique_usize(&mut queues, &mut queues_len, queue);
        self.submit_queues = queues;
        self.submit_queues_len = queues_len;
        let mut callers = self.submit_callers;
        let mut callers_len = self.submit_callers_len;
        let new_caller = push_unique_usize(&mut callers, &mut callers_len, caller);
        self.submit_callers = callers;
        self.submit_callers_len = callers_len;
        let mut pairs = self.submit_queue_callers;
        let mut pairs_len = self.submit_queue_callers_len;
        let new_pair = push_unique_pair(&mut pairs, &mut pairs_len, (queue, caller));
        self.submit_queue_callers = pairs;
        self.submit_queue_callers_len = pairs_len;
        proof {
            if new_queue {
                assert(self.submit_queues() =~= old(self).submit_queues().push(queue));
            }
            if new_caller {
                assert(self.submit_callers() =~= old(self).submit_callers().push(caller));
            }
            if new_pair {
                assert(self.submit_queue_callers() =~= old(self).submit_queue_callers().push(
                    (queue, caller),
                ));
            }
        }
        (new_queue, new_caller, new_pair)
    }
}

/// Copies the queues seen submitting into `out`, clearing the slots past them;
/// returns how many there are.
pub fn tracked_submit_queues_snapshot(tracking: &QueueTracking, out: &mut [usize; MAX_TRACKED_QUEUES]) -> (n: usize)
    ensures
        n == tracking.submit_queues().len(),
        final(out)@ =~= tracking.submit_queues() + Seq::new(
            (MAX_TRACKED_QUEUES - n) as nat,
            |i: int| 0usize,
        ),
{
    proof {
        use_type_invariant(tracking);
    }
    let len = tracking.submit_queues_len;
    let mut i: usize = 0;
    while i < MAX_TRACKED_QUEUES
        invariant
            i <= MAX_TRACKED_QUEUES,
            len == tracking.submit_queues_len,
            len <= MAX_TRACKED_QUEUES,
            forall|j: int|
                0 <= j < i ==> out@[j] == (if j < len {
                    tracking.submit_queues@[j]
                } else {
                    0usize
                }),
        decreases MAX_TRACKED_QUEUES - i,
    {
        if i < len {
            out[i] = tracking.submit_queues[i];
        } else {
            out[i] = 0;
        }
        i += 1;
    }
    len
}

/// Whether the nul-terminated string `s` (`None` for a null pointer) spells the
/// nul-terminated name `bytes_nul`, which must hold its terminator.
pub open spec fn cstr_matches(s: Seq<u8>, bytes_nul: Seq<u8>) -> bool {
    exists|k: int|
        0 <= k < bytes_nul.len() && #[trigger] bytes_nul[k] == 0 && (forall|j: int|
            0 <= j <= k ==> bytes_nul[j] == #[trigger] s[j]) && (forall|j: int|
            0 <= j < k ==> bytes_nul[j] != 0)
}

/// `s` holds a terminating nul, so a comparison never reads past it.
pub open spec fn is_nul_terminated(s: Seq<u8>) -> bool {
    exists|k: int| 0 <= k < s.len() && s[k] == 0
}

/// Compares a C string with a nul-terminated name, byte by byte, stopping at
/// the name's terminator.
pub fn cstr_eq_ascii(s: Option<&[u8]>, bytes_nul: &[u8]) -> (eq: bool)
    requires
        s matches Some(t) ==> is_nul_terminated(t@),
    ensures
        eq == (s matches Some(t) && cstr_matches(t@, bytes_nul@)),
{
    let t = match s {
        Some(t) => t,
        None => return false,
    };
    let mut i: usize = 0;
    while i < bytes_nul.len()
        invariant
            i <= bytes_nul@.len(),
            s == Some(t),
            is_nul_terminated(t@),
            forall|j: int| 0 <= j < i ==> bytes_nul@[j] == t@[j] && bytes_nul@[j] != 0,
        decreases bytes_nul@.len() - i,
    {
        if i >= t.len() {
            // The string ended at its terminator, which the name had no match for.
            assert(false) by {
                let k = choose|k: int| 0 <= k < t@.len() && t@[k] == 0;
                assert(bytes_nul@[k] == t@[k]);
            }
            return false;
        }
        if t[i] != bytes_nul[i] {
            assert(!cstr_matches(t@, bytes_nul@)) by {
                if cstr_matches(t@, bytes_nul@) {
                    let k = choose|k: int|
                        0 <= k < bytes_nul@.len() && #[trigger] bytes_nul@[k] == 0 && (forall|j: int|
                            0 <= j <= k ==> bytes_nul@[j] == #[trigger] t@[j]) && (forall|j: int|
                            0 <= j < k ==> bytes_nul@[j] != 0);
                    if k < i {
                        assert(bytes_nul@[k] != 0);
                    } else {
                        assert(bytes_nul@[i as int] == t@[i as int]);
                    }
                }
            }
            return false;
        }
        if bytes_nul[i] == 0 {
            assert(forall|j: int| 0 <= j <= i ==> bytes_nul@[j] == #[trigger] t@[j]);
            assert(0 <= i < bytes_nul@.len() && bytes_nul@[i as int] == 0 && (forall|j: int|
                0 <= j <= i ==> bytes_nul@[j] == #[trigger] t@[j]) && (forall|j: int|
                0 <= j < i ==> bytes_nul@[j] != 0));
            return true;
        }
        i += 1;
    }
    assert(!cstr_matches(t@, bytes_nul@)) by {
        if cstr_matches(t@, bytes_nul@) {
            let k = choose|k: int|
                0 <= k < bytes_nul@.len() && #[trigger] bytes_nul@[k] == 0 && (forall|j: int|
                    0 <= j <= k ==> bytes_nul@[j] == #[trigger] t@[j]) && (forall|j: int|
                    0 <= j < k ==> bytes_nul@[j] != 0);
            assert(bytes_nul@[k] != 0);
        }
    }
    false
}

/// What the bootstrap loader hook does with a resolved entry point.
#[derive(Copy, Clone, Debug, PartialEq, Eq, Structural)]
pub enum LoaderAction {
    /// Nothing: the loader returned null or the symbol is of no interest.
    PassThrough,
    /// Remember the entry as the bootstrap `nvnDeviceGetProcAddress`.
    CacheGetProc,
    /// Hook `nvnDeviceInitialize`.
    HookDeviceInit,
}

/// Decides the loader hook's action from whether the loader resolved the
/// symbol, the symbol requested, and whether the device initialization is
/// already hooked.
pub fn nvn_bootstrap_loader_action(
    resolved: bool,
    symbol: Option<&[u8]>,
    get_proc_name: &[u8],
    device_init_name: &[u8],
    device_init_hooked: bool,
) -> (a: LoaderAction)
    requires
        symbol matches Some(t) ==> is_nul_terminated(t@),
    ensures
        a == (if !resolved {
            LoaderAction::PassThrough
        } else if symbol matches Some(t) && cstr_matches(t@, get_proc_name@) {
            LoaderAction::CacheGetProc
        } else if symbol matches Some(t) && cstr_matches(t@, device_init_name@)
            && !device_init_hooked {
            LoaderAction::HookDeviceInit
        } else {
            LoaderAction::PassThrough
        }),
{
    if !resolved {
        return LoaderAction::PassThrough;
    }
    if cstr_eq_ascii(symbol, get_proc_name) {
        LoaderAction::CacheGetProc
    } else if cstr_eq_ascii(symbol, device_init_name) && !device_init_hooked {
        LoaderAction::HookDeviceInit
    } else {
        LoaderAction::PassThrough
    }
}

/// Rounds `value` up to a multiple of the power of two `align`.
fn align_up(value: usize, align: usize) -> (r: usize)
    requires
        is_power_of_two(align),
        value + (align - 1) <= usize::MAX,
    ensures
        r == round_up(value as int, align as int),
{
    proof {
        lemma_mask_rounds_up(value, align);
    }
    (value + (align - 1)) & !(align - 1)
}

/// Queue memory this library allocated for a queue whose builder asked for too little.
#[derive(Copy, Clone, Debug, PartialEq, Eq, Structural)]
pub struct QueueOwnedMemory {
    pub queue_addr: usize,
    pub ptr: usize,
    pub size: usize,
}

/// Whether `ptr` is memory this library handed to some queue.
pub fn queue_memory_ptr_is_owned(owned: &Vec<QueueOwnedMemory>, ptr: usize) -> (b: bool)
    ensures
        b == (ptr != 0 && exists|i: int| 0 <= i < owned@.len() && #[trigger] owned@[i].ptr == ptr),
{
    if ptr == 0 {
        return false;
    }
    let mut i: usize = 0;
    while i < owned.len()
        invariant
            i <= owned@.len(),
            ptr != 0,
            forall|j: int| 0 <= j < i ==> #[trigger] owned@[j].ptr != ptr,
        decreases owned@.len() - i,
    {
        if owned[i].ptr == ptr {
            assert(owned@[i as int].ptr == ptr);
            return true;
        }
        i += 1;
    }
    false
}

pub open spec fn max3(a: usize, b: usize, c: usize) -> usize {
    let ab = if a >= b { a } else { b };
    if ab >= c {
        ab
    } else {
        c
    }
}

/// Whether a queue builder's memory must be replaced: it provides memory that
/// is smaller than required, or memory this library already gave another queue.
pub open spec fn queue_memory_needs_patch(required: usize, provided: usize, reusing_owned: bool) -> bool {
    provided != 0 && (required > provided || reusing_owned)
}

/// The size of the replacement queue memory: the larger of what is required
/// and provided, at least one granule, rounded up to whole granules.
pub open spec fn queue_memory_patch_size(required: usize, provided: usize) -> int {
    round_up(
        max3(required, provided, NVN_MEMORY_POOL_STORAGE_GRANULARITY) as int,
        NVN_MEMORY_POOL_STORAGE_GRANULARITY as int,
    )
}

/// The replacement queue memory planned for a builder, if any.
pub open spec fn planned_queue_memory_patch(
    builder_present: bool,
    required: usize,
    provided: usize,
    reusing_owned: bool,
) -> Option<usize> {
    if builder_present && queue_memory_needs_patch(required, provided, reusing_owned)
        && queue_memory_patch_size(required, provided) <= usize::MAX && layout_accepts(
        queue_memory_patch_size(required, provided) as usize,
        NVN_MEMORY_POOL_STORAGE_GRANULARITY,
    ) {
        Some(queue_memory_patch_size(required, provided) as usize)
    } else {
        None::<usize>
    }
}

/// Queue memory is replaced only where it must be: never for a null builder
/// or a builder that provides none, never when what the game provides is at
/// least what is required and is not memory this library already handed out.
/// A replacement holds what is required and what was provided, at least one
/// granule, in whole granules, and less than one granule more than the largest
/// of these; it is planned for any undersized or reused memory whose size has
/// a layout.
pub proof fn lemma_queue_memory_patched_only_when_needed(
    builder_present: bool,
    required: usize,
    provided: usize,
    reusing_owned: bool,
)
    ensures
        ({
            let r = planned_queue_memory_patch(builder_present, required, provided, reusing_owned);
            let g = NVN_MEMORY_POOL_STORAGE_GRANULARITY as int;
            &&& (!builder_present || provided == 0) ==> r is None
            &&& (provided >= required && !reusing_owned) ==> r is None
            &&& (r matches Some(n) ==> {
                &&& (required > provided || reusing_owned)
                &&& n >= required && n >= provided && n >= g
                &&& (n as int) % g == 0
                &&& n < required + g || n < provided + g || n < 2 * g
                &&& n <= isize::MAX
            })
            &&& (builder_present && provided != 0 && (required > provided || reusing_owned)
                && required + g <= isize::MAX && provided + g <= isize::MAX) ==> r is Some
        }),
{
    let g = NVN_MEMORY_POOL_STORAGE_GRANULARITY as int;
    let m = max3(required, provided, NVN_MEMORY_POOL_STORAGE_GRANULARITY) as int;
    lemma_round_up_is_rounded_up(m, g);
    let p = queue_memory_patch_size(required, provided);
    if p <= usize::MAX {
        vstd::arithmetic::power2::lemma2_to64();
        assert(is_power_of_two(NVN_MEMORY_POOL_STORAGE_GRANULARITY));
        lemma_round_up_is_rounded_up(p, g);
        lemma_rounded_up_unique(round_up(p, g), p, p, g);
    }
    assert(isize::MAX <= usize::MAX);
}

/// Decides whether a queue builder gets replacement memory and of what size;
/// `None` when the builder is null, needs no patch, or the size has no valid
/// layout (which includes a size past the end of the address space).
pub fn plan_queue_memory_patch(
    builder_present: bool,
    required: usize,
    provided: usize,
    reusing_owned: bool,
) -> (r: Option<usize>)
    ensures
        r == planned_queue_memory_patch(builder_present, required, provided, reusing_owned),
{
    if !builder_present {
        return None;
    }
    let needs_size_patch = provided != 0 && required > provided;
    let needs_ptr_patch = provided != 0 && reusing_owned;
    if !(needs_size_patch || needs_ptr_patch) {
        return None;
    }
    let rp = if required >= provided {
        required
    } else {
        provided
    };
    let requested = if rp >= NVN_MEMORY_POOL_STORAGE_GRANULARITY {
        rp
    } else {
        NVN_MEMORY_POOL_STORAGE_GRANULARITY
    };
    proof {
        vstd::arithmetic::power2::lemma2_to64();
        assert(is_power_of_two(NVN_MEMORY_POOL_STORAGE_GRANULARITY));
        lemma_round_up_is_rounded_up(requested as int, NVN_MEMORY_POOL_STORAGE_GRANULARITY as int);
    }
    if requested > usize::MAX - (NVN_MEMORY_POOL_STORAGE_GRANULARITY - 1) {
        // Rounded up, the size would leave the address space, so no layout exists for it.
        proof {
            let p = queue_memory_patch_size(required, provided);
            if p <= usize::MAX {
                assert(round_up(p, NVN_MEMORY_POOL_STORAGE_GRANULARITY as int) == p) by {
                    lemma_round_up_is_rounded_up(p, NVN_MEMORY_POOL_STORAGE_GRANULARITY as int);
                    lemma_rounded_up_unique(
                        round_up(p, NVN_MEMORY_POOL_STORAGE_GRANULARITY as int),
                        p,
                        p,
                        NVN_MEMORY_POOL_STORAGE_GRANULARITY as int,
                    );
                }
                assert(isize::MAX < usize::MAX - 0x1000);
            }
        }
        return None;
    }
    let alloc_size = align_up(requested, NVN_MEMORY_POOL_STORAGE_GRANULARITY);
    if !layout_from_size_align_is_ok(alloc_size, NVN_MEMORY_POOL_STORAGE_GRANULARITY) {
        return None;
    }
    Some(alloc_size)
}

/// The entries of `owned` that do not belong to `queue`, in order.
pub open spec fn not_of_queue(queue: usize) -> spec_fn(QueueOwnedMemory) -> bool {
    |e: QueueOwnedMemory| e.queue_addr != queue
}

/// The entries of `owned` that belong to `queue`, in order.
pub open spec fn of_queue(queue: usize) -> spec_fn(QueueOwnedMemory) -> bool {
    |e: QueueOwnedMemory| e.queue_addr == queue
}

/// Forgets the memory given to a finalized queue and returns it for release.
pub fn release_owned_queue_memory(owned: &mut Vec<QueueOwnedMemory>, queue: usize) -> (released:
    Vec<QueueOwnedMemory>)
    ensures
        final(owned)@ == old(owned)@.filter(not_of_queue(queue)),
        released@ == old(owned)@.filter(of_queue(queue)),
{
    let mut kept: Vec<QueueOwnedMemory> = Vec::new();
    let mut released: Vec<QueueOwnedMemory> = Vec::new();
    let mut i: usize = 0;
    while i < owned.len()
        invariant
            i <= owned@.len(),
            owned@ == old(owned)@,
            kept@ == owned@.take(i as int).filter(not_of_queue(queue)),
            released@ == owned@.take(i as int).filter(of_queue(queue)),
        decreases owned@.len() - i,
    {
        let e = owned[i];
        proof {
            reveal(Seq::filter);
            assert(owned@.take(i + 1).drop_last() =~= owned@.take(i as int));
            assert(owned@.take(i + 1).last() == e);
        }
        if e.queue_addr == queue {
            released.push(e);
        } else {
            kept.push(e);
        }
        i += 1;
    }
    assert(owned@.take(owned@.len() as int) =~= owned@);
    *owned = kept;
    released
}

/// Queue builder flags as forwarded to the driver: the no-fragment-interlock
/// bit is cleared. Returns the flags and whether the bit was set.
pub fn patch_queue_builder_flags(flags: i32) -> (r: (i32, bool))
    ensures
        r.0 == flags & !NVN_QUEUE_BUILDER_FLAGS_NO_FRAGMENT_INTERLOCK,
        r.1 == (flags & NVN_QUEUE_BUILDER_FLAGS_NO_FRAGMENT_INTERLOCK != 0),
{
    let removed = (flags & NVN_QUEUE_BUILDER_FLAGS_NO_FRAGMENT_INTERLOCK) != 0;
    let mut effective = flags;
    if removed {
        effective &= !NVN_QUEUE_BUILDER_FLAGS_NO_FRAGMENT_INTERLOCK;
    } else {
        assert(flags & !1i32 == flags) by (bit_vector)
            requires
                flags & 1i32 == 0,
        ;
    }
    (effective, removed)
}

/// Uses up one of `limit` log lines; returns whether one was left.
pub fn take_log_slot(count: &mut usize, limit: usize) -> (granted: bool)
    ensures
        granted == (*old(count) < limit),
        *final(count) == (if granted {
            *old(count) + 1
        } else {
            *old(count) as int
        }),
{
    if *count < limit {
        *count = *count + 1;
        true
    } else {
        false
    }
}

/// The caller's offset in the game's code, or 0 when it lies before the code.
pub fn caller_text_offset(caller: usize, text_base: usize) -> (off: usize)
    ensures
        off == (if caller >= text_base {
            (caller - text_base) as usize
        } else {
            0
        }),
{
    if caller >= text_base {
        caller - text_base
    } else {
        0
    }
}

/// Whether a submission is extended with the overlay's command handle: there
/// is one, and the game's handle list is well-formed.
pub open spec fn submit_gets_append(append: u64, count: i32, handles_present: bool) -> bool {
    append != 0 && count >= 0 && handles_present
}

/// Decides whether the overlay's handle is appended to a submission.
pub fn should_append_submit(append: u64, count: i32, handles_present: bool) -> (b: bool)
    ensures
        b == submit_gets_append(append, count, handles_present),
{
    append != 0 && count >= 0 && handles_present
}

/// The game's command handles followed by the overlay's.
pub fn append_submit_handle(handles: &[u64], append: u64) -> (out: Vec<u64>)
    ensures
        out@ == handles@.push(append),
{
    let mut out: Vec<u64> = Vec::new();
    let mut i: usize = 0;
    while i < handles.len()
        invariant
            i <= handles@.len(),
            out@ == handles@.take(i as int),
        decreases handles@.len() - i,
    {
        out.push(handles[i]);
        proof {
            assert(handles@.take(i + 1) =~= handles@.take(i as int).push(handles@[i as int]));
        }
        i += 1;
    }
    assert(handles@.take(handles@.len() as int) =~= handles@);
    out.push(append);
    out
}

/// Name of a queue error code.
pub fn queue_error_name(result: i32) -> (name: &'static str)
    ensures
        result == NVN_QUEUE_GET_ERROR_GPU_NO_ERROR ==> name@ == "NO_ERROR"@,
        result == NVN_QUEUE_GET_ERROR_GPU_ERROR_UNKNOWN ==> name@ == "GPU_ERROR_UNKNOWN"@,
        result == NVN_QUEUE_GET_ERROR_GPU_ERROR_MMU_FAULT ==> name@ == "GPU_ERROR_MMU_FAULT"@,
        result == NVN_QUEUE_GET_ERROR_GPU_ERROR_PBDMA_EXCEPTION ==> name@
            == "GPU_ERROR_PBDMA_EXCEPTION"@,
        result == NVN_QUEUE_GET_ERROR_GPU_ERROR_ENGINE_EXCEPTION ==> name@
            == "GPU_ERROR_ENGINE_EXCEPTION"@,
        result == NVN_QUEUE_GET_ERROR_GPU_ERROR_TIMEOUT ==> name@ == "GPU_ERROR_TIMEOUT"@,
        (result < 0 || result > 5) ==> name@ == "GPU_ERROR_UNRECOGNIZED"@,
{
    if result == NVN_QUEUE_GET_ERROR_GPU_NO_ERROR {
        "NO_ERROR"
    } else if result == NVN_QUEUE_GET_ERROR_GPU_ERROR_UNKNOWN {
        "GPU_ERROR_UNKNOWN"
    } else if result == NVN_QUEUE_GET_ERROR_GPU_ERROR_MMU_FAULT {
        "GPU_ERROR_MMU_FAULT"
    } else if result == NVN_QUEUE_GET_ERROR_GPU_ERROR_PBDMA_EXCEPTION {
        "GPU_ERROR_PBDMA_EXCEPTION"
    } else if result == NVN_QUEUE_GET_ERROR_GPU_ERROR_ENGINE_EXCEPTION {
        "GPU_ERROR_ENGINE_EXCEPTION"
    } else if result == NVN_QUEUE_GET_ERROR_GPU_ERROR_TIMEOUT {
        "GPU_ERROR_TIMEOUT"
    } else {
        "GPU_ERROR_UNRECOGNIZED"
    }
}

/// Name of the access that caused a memory fault.
pub fn memory_access_name(access_type: i32) -> (name: &'static str)
    ensures
        access_type == NVN_MEMORY_ACCESS_WRITE ==> name@ == "write"@,
        access_type != NVN_MEMORY_ACCESS_WRITE ==> name@ == "read"@,
{
    if access_type == NVN_MEMORY_ACCESS_WRITE {
        "write"
    } else {
        "read"
    }
}

/// How a queue error is reported.
#[derive(Copy, Clone, Debug, PartialEq, Eq, Structural)]
pub enum QueueErrorReport {
    /// No error, or the log budget is spent.
    Silent,
    /// An MMU fault: its address and access are logged.
    MmuFault,
    /// Any other error: the first words of the error info are logged.
    Words,
}

/// Decides how a queue error is reported, using up a log line if one is left.
pub fn log_queue_error(log_count: &mut usize, limit: usize, result: i32) -> (r: QueueErrorReport)
    ensures
        result == NVN_QUEUE_GET_ERROR_GPU_NO_ERROR ==> r == QueueErrorReport::Silent
            && *final(log_count) == *old(log_count),
        result != NVN_QUEUE_GET_ERROR_GPU_NO_ERROR ==> {
            &&& *final(log_count) == (if *old(log_count) < limit {
                *old(log_count) + 1
            } else {
                *old(log_count) as int
            })
            &&& r == (if *old(log_count) >= limit {
                QueueErrorReport::Silent
            } else if result == NVN_QUEUE_GET_ERROR_GPU_ERROR_MMU_FAULT {
                QueueErrorReport::MmuFault
            } else {
                QueueErrorReport::Words
            })
        },
{
    if result == NVN_QUEUE_GET_ERROR_GPU_NO_ERROR {
        return QueueErrorReport::Silent;
    }
    if !take_log_slot(log_count, limit) {
        return QueueErrorReport::Silent;
    }
    if result == NVN_QUEUE_GET_ERROR_GPU_ERROR_MMU_FAULT {
        QueueErrorReport::MmuFault
    } else {
        QueueErrorReport::Words
    }
}

/// Hook providers: the callback that may append to a queue submission and the
/// one that may submit before a present.
pub struct Providers<A, P> {
    pub submit_append: Option<A>,
    pub present_submit: Option<P>,
}

pub fn set_queue_submit_append_provider<A, P>(providers: &mut Providers<A, P>, provider: Option<A>)
    ensures
        final(providers).submit_append == provider,
        final(providers).present_submit == old(providers).present_submit,
{
    providers.submit_append = provider;
}

pub fn set_queue_present_submit_provider<A, P>(providers: &mut Providers<A, P>, provider: Option<P>)
    ensures
        final(providers).present_submit == provider,
        final(providers).submit_append == old(providers).submit_append,
{
    providers.present_submit = provider;
}

/// The bootstrap loader was called: the bootstrap is active.
pub fn on_loader_called(rt: &mut RuntimeState)
    ensures
        final(rt)@ == runtime::apply_op(old(rt)@, runtime::RuntimeOp::SetBootstrapActive(true)),
        final(rt)@ == (RuntimeView { bootstrap_active: true, ..old(rt)@ }),
{
    runtime::set_bootstrap_active(rt, true);
}

pub fn on_device_seen(rt: &mut RuntimeState, device: usize)
    ensures
        final(rt)@ == cache_device_view(old(rt)@, device),
{
    let _ = runtime::cache_device_ptr(rt, device);
}

pub fn on_window_seen(rt: &mut RuntimeState, window: usize)
    ensures
        final(rt)@ == (if window == 0 {
            old(rt)@
        } else {
            RuntimeView { window, ..old(rt)@ }
        }),
{
    let _ = runtime::cache_window_ptr(rt, window);
}

pub fn on_queue_seen(rt: &mut RuntimeState, queue: usize)
    ensures
        final(rt)@ == (if queue == 0 {
            old(rt)@
        } else {
            RuntimeView { queue, ..old(rt)@ }
        }),
{
    let _ = runtime::cache_queue_ptr(rt, queue);
}

pub fn on_present_queue_seen(rt: &mut RuntimeState, queue: usize)
    ensures
        final(rt)@ == (if queue == 0 {
            old(rt)@
        } else {
            RuntimeView { present_queue: queue, ..old(rt)@ }
        }),
{
    let _ = runtime::cache_present_queue_ptr(rt, queue);
}

pub fn set_device_ptr(rt: &mut RuntimeState, device: usize)
    ensures
        final(rt)@ == cache_device_view(old(rt)@, device),
{
    on_device_seen(rt, device);
}

pub fn set_window_ptr(rt: &mut RuntimeState, window: usize)
    ensures
        final(rt)@ == (if window == 0 {
            old(rt)@
        } else {
            RuntimeView { window, ..old(rt)@ }
        }),
{
    on_window_seen(rt, window);
}

/// A queue presented a window's texture: the queue, the window and the
/// presenting queue are all remembered.
pub fn on_present_texture(rt: &mut RuntimeState, queue: usize, window: usize)
    ensures
        final(rt)@.queue == (if queue == 0 { old(rt)@.queue } else { queue }),
        final(rt)@.present_queue == (if queue == 0 { old(rt)@.present_queue } else { queue }),
        final(rt)@.window == (if window == 0 { old(rt)@.window } else { window }),
        final(rt)@ == (RuntimeView {
            queue: final(rt)@.queue,
            present_queue: final(rt)@.present_queue,
            window: final(rt)@.window,
            ..old(rt)@
        }),
{
    on_queue_seen(rt, queue);
    on_window_seen(rt, window);
    on_present_queue_seen(rt, queue);
}

/// The game acquired a window texture: on success (`result == 0`) with an
/// index reported, that index becomes the active one.
pub fn on_texture_acquired(rt: &mut RuntimeState, result: i32, index: Option<i32>)
    ensures
        final(rt)@ == (match index {
            Some(i) if result == 0 => RuntimeView { active_texture_index: i, ..old(rt)@ },
            _ => old(rt)@,
        }),
{
    if result == 0 {
        if let Some(i) = index {
            runtime::set_active_window_texture_index(rt, i);
        }
    }
}

/// Records the driver's API version when both parts came back non-negative;
/// returns whether it was recorded.
pub fn probe_driver_api_versions_with(rt: &mut RuntimeState, major: i32, minor: i32) -> (ok: bool)
    ensures
        ok == (major >= 0 && minor >= 0),
        final(rt)@ == (if ok {
            RuntimeView { driver_api_major: major, driver_api_minor: minor, ..old(rt)@ }
        } else {
            old(rt)@
        }),
{
    if major >= 0 && minor >= 0 {
        runtime::cache_driver_api_versions(rt, major, minor);
        true
    } else {
        false
    }
}

/// Records the driver's draw-texture capability when it came back
/// non-negative; returns whether it was recorded.
pub fn probe_draw_texture_support_with(rt: &mut RuntimeState, raw: i32) -> (ok: bool)
    ensures
        ok == (raw >= 0),
        final(rt)@ == (if ok {
            RuntimeView { supports_draw_texture: raw, ..old(rt)@ }
        } else {
            old(rt)@
        }),
{
    if raw >= 0 {
        runtime::cache_supports_draw_texture(rt, raw);
        true
    } else {
        false
    }
}

/// Where a device initialization stands after its first, local part.
#[derive(Copy, Clone, Debug, PartialEq, Eq, Structural)]
pub enum DeviceInitStep {
    /// Decided without asking the driver: the result is final.
    Finished(bool),
    /// This caller claimed the initialization and must probe the driver, then
    /// call [`finish_device_initialization`].
    Probe,
}

/// What the driver reported, once `nvnDeviceGetInteger` was found.
#[derive(Copy, Clone, Debug, PartialEq, Eq, Structural)]
pub struct DriverProbe {
    pub api_major: i32,
    pub api_minor: i32,
    pub draw_texture: i32,
}

/// The cache after the local part of initializing `device`.
pub open spec fn ensure_init_view(v: RuntimeView, device: usize) -> RuntimeView {
    let w = cache_device_view(RuntimeView { bootstrap_active: true, ..v }, device);
    if w.device_ready || w.device_initializing {
        w
    } else {
        RuntimeView { device_initializing: true, ..w }
    }
}

/// First part of making sure `device` is initialized: a null device fails, a
/// ready device succeeds, and while another initialization is running the
/// readiness is reported as it stands. Otherwise this caller claims the
/// initialization and must probe the driver.
pub fn ensure_device_initialized(rt: &mut RuntimeState, device: usize) -> (step: DeviceInitStep)
    ensures
        device == 0 ==> step == DeviceInitStep::Finished(false) && final(rt)@ == old(rt)@,
        device != 0 ==> {
            let w = cache_device_view(RuntimeView { bootstrap_active: true, ..old(rt)@ }, device);
            &&& final(rt)@ == ensure_init_view(old(rt)@, device)
            &&& final(rt)@ == ({
                let seen = runtime::apply_op(
                    runtime::apply_op(old(rt)@, runtime::RuntimeOp::SetBootstrapActive(true)),
                    runtime::RuntimeOp::CacheDevice(device),
                );
                if seen.device_ready || seen.device_initializing {
                    seen
                } else {
                    runtime::apply_op(seen, runtime::RuntimeOp::BeginDeviceInit)
                }
            })
            &&& step == (if w.device_ready {
                DeviceInitStep::Finished(true)
            } else if w.device_initializing {
                DeviceInitStep::Finished(w.device_ready)
            } else {
                DeviceInitStep::Probe
            })
        },
{
    if device == 0 {
        return DeviceInitStep::Finished(false);
    }
    on_loader_called(rt);
    on_device_seen(rt, device);
    if runtime::device_ready(rt) {
        return DeviceInitStep::Finished(true);
    }
    if !runtime::begin_device_init(rt) {
        return DeviceInitStep::Finished(runtime::device_ready(rt));
    }
    DeviceInitStep::Probe
}

/// Second part: records what the driver reported (`None` when
/// `nvnDeviceGetInteger` could not be found) and ends the initialization.
/// Returns whether the device is ready.
pub fn finish_device_initialization(rt: &mut RuntimeState, probe: Option<DriverProbe>) -> (ready: bool)
    ensures
        ready == probe is Some,
        final(rt)@.device_ready == ready,
        !final(rt)@.device_initializing,
        final(rt)@.driver_api_major == (match probe {
            Some(p) if p.api_major >= 0 && p.api_minor >= 0 => p.api_major,
            _ => old(rt)@.driver_api_major,
        }),
        final(rt)@.driver_api_minor == (match probe {
            Some(p) if p.api_major >= 0 && p.api_minor >= 0 => p.api_minor,
            _ => old(rt)@.driver_api_minor,
        }),
        final(rt)@.supports_draw_texture == (match probe {
            Some(p) if p.draw_texture >= 0 => p.draw_texture,
            _ => old(rt)@.supports_draw_texture,
        }),
        final(rt)@ == (RuntimeView {
            device_ready: ready,
            device_initializing: false,
            driver_api_major: final(rt)@.driver_api_major,
            driver_api_minor: final(rt)@.driver_api_minor,
            supports_draw_texture: final(rt)@.supports_draw_texture,
            ..old(rt)@
        }),
{
    match probe {
        None => {
            runtime::end_device_init(rt, false);
            false
        },
        Some(p) => {
            let _ = probe_driver_api_versions_with(rt, p.api_major, p.api_minor);
            let _ = probe_draw_texture_support_with(rt, p.draw_texture);
            runtime::end_device_init(rt, true);
            true
        },
    }
}

/// First part of initializing the device the cache already knows; fails when
/// none is known.
pub fn try_initialize_from_cached_device(rt: &mut RuntimeState) -> (step: DeviceInitStep)
    ensures
        old(rt)@.device == 0 ==> step == DeviceInitStep::Finished(false) && final(rt)@ == old(rt)@,
        old(rt)@.device != 0 ==> final(rt)@ == ensure_init_view(old(rt)@, old(rt)@.device),
{
    match runtime::device_ptr(rt) {
        Some(device) => ensure_device_initialized(rt, device),
        None => DeviceInitStep::Finished(false),
    }
}

pub fn cached_device(rt: &RuntimeState) -> (d: Option<usize>)
    ensures
        d == opt_addr(rt@.device),
{
    runtime::device_ptr(rt)
}

pub fn cached_window(rt: &RuntimeState) -> (w: Option<usize>)
    ensures
        w == opt_addr(rt@.window),
{
    runtime::window_ptr(rt)
}

pub fn cached_queue(rt: &RuntimeState) -> (q: Option<usize>)
    ensures
        q == opt_addr(rt@.queue),
{
    runtime::queue_ptr(rt)
}

pub fn cached_present_queue(rt: &RuntimeState) -> (q: Option<usize>)
    ensures
        q == opt_addr(rt@.present_queue),
{
    runtime::present_queue_ptr(rt)
}

pub fn cached_active_window_texture(rt: &RuntimeState) -> (t: Option<usize>)
    ensures
        t == texture_at(rt@, rt@.active_texture_index as int),
{
    runtime::active_window_texture_ptr(rt)
}

pub fn cached_window_texture(rt: &RuntimeState, index: i32) -> (t: Option<usize>)
    ensures
        t == texture_at(rt@, index as int),
{
    runtime::window_texture_ptr_at(rt, index)
}

pub fn cached_active_window_texture_index(rt: &RuntimeState) -> (r: Option<i32>)
    ensures
        r == (if rt@.active_texture_index >= 0 {
            Some(rt@.active_texture_index)
        } else {
            None::<i32>
        }),
{
    runtime::active_window_texture_index(rt)
}

pub fn cached_first_window_texture(rt: &RuntimeState) -> (t: Option<usize>)
    ensures
        t == texture_at(rt@, 0),
{
    runtime::first_window_texture_ptr(rt)
}

pub fn cached_window_textures_snapshot(rt: &RuntimeState, out: &mut [usize; MAX_WINDOW_TEXTURES]) -> (n:
    usize)
    ensures
        n == rt@.texture_count,
        final(out)@ =~= Seq::new(
            MAX_WINDOW_TEXTURES as nat,
            |i: int|
                if i < rt@.texture_count {
                    rt@.textures[i]
                } else {
                    0usize
                },
        ),
{
    runtime::window_texture_ptrs_snapshot(rt, out)
}

pub fn cached_driver_api_versions(rt: &RuntimeState) -> (r: Option<(i32, i32)>)
    ensures
        r == versions_of(rt@),
{
    runtime::driver_api_versions(rt)
}

pub fn cached_supports_draw_texture(rt: &RuntimeState) -> (r: Option<bool>)
    ensures
        r == tri_state(rt@.supports_draw_texture),
{
    runtime::supports_draw_texture(rt)
}

pub fn bootstrap_active(rt: &RuntimeState) -> (b: bool)
    ensures
        b == rt@.bootstrap_active,
{
    runtime::bootstrap_active(rt)
}

pub fn reset_bootstrap_state(rt: &mut RuntimeState)
    ensures
        final(rt)@ == runtime::initial_view(),
{
    runtime::reset(rt);
}

/// Once a device is initialized it stays ready through any later request to
/// initialize it again, and no second probe is asked for.
pub proof fn lemma_ready_device_needs_no_probe(v: RuntimeView, device: usize)
    requires
        device != 0,
        device == v.device,
        v.device_ready,
    ensures
        ensure_init_view(v, device) == (RuntimeView { bootstrap_active: true, ..v }),
        ensure_init_view(v, device).device_ready,
{
}

/// While one initialization runs, a second request for the same device does
/// not claim it again.
pub proof fn lemma_initialization_claimed_once(v: RuntimeView, device: usize)
    requires
        device != 0,
        device == v.device,
        !v.device_ready,
        !v.device_initializing,
    ensures
        ensure_init_view(v, device).device_initializing,
        ensure_init_view(ensure_init_view(v, device), device) == ensure_init_view(v, device),
{
}

/// The first `len` entries of `items` are non-zero and pairwise distinct.
pub open spec fn distinct_nonzero(items: Seq<usize>, len: int) -> bool {
    &&& forall|i: int| 0 <= i < len ==> #[trigger] items[i] != 0
    &&& forall|i: int, j: int|
        0 <= i < len && 0 <= j < len && i != j ==> #[trigger] items[i] != #[trigger] items[j]
}

/// Appending through `push_unique_usize` keeps a list free of zeros and repeats.
pub proof fn lemma_push_unique_keeps_distinct(items: Seq<usize>, len: int, cap: int, value: usize)
    requires
        0 <= len <= cap,
        len <= items.len(),
        cap <= items.len(),
        distinct_nonzero(items, len),
    ensures
        push_unique_accepts(items, len, cap, value, value == 0) ==> distinct_nonzero(
            items.update(len, value),
            len + 1,
        ),
{
    if push_unique_accepts(items, len, cap, value, value == 0) {
        let s = items.update(len, value);
        assert forall|i: int| 0 <= i < len + 1 implies #[trigger] s[i] != 0 by {
            if i < len {
                assert(s[i] == items[i]);
            }
        }
        assert forall|i: int, j: int|
            0 <= i < len + 1 && 0 <= j < len + 1 && i != j implies #[trigger] s[i] != #[trigger] s[j] by {
            if i == len {
                assert(s[j] == items[j]);
                assert(items.take(len)[j] == items[j]);
                assert(items[j] != value);
            } else if j == len {
                assert(s[i] == items[i]);
                assert(items.take(len)[i] == items[i]);
                assert(items[i] != value);
            } else {
                assert(s[i] == items[i] && s[j] == items[j]);
                assert(items[i] != items[j]);
            }
        }
    }
}

/// A name matches itself as a C string when it holds its terminator.
pub proof fn lemma_cstr_matches_itself(name: Seq<u8>)
    requires
        is_nul_terminated(name),
    ensures
        cstr_matches(name, name),
{
    let k0 = choose|k: int| 0 <= k < name.len() && name[k] == 0;
    let k = first_nul(name, k0);
    assert(name[k] == 0 && forall|j: int| 0 <= j <= k ==> name[j] == #[trigger] name[j]);
}

/// The position of the first nul at or before `k0`.
proof fn first_nul(name: Seq<u8>, k0: int) -> (k: int)
    requires
        0 <= k0 < name.len(),
        name[k0] == 0,
    ensures
        0 <= k <= k0,
        name[k] == 0,
        forall|j: int| 0 <= j < k ==> name[j] != 0,
    decreases k0,
{
    if exists|j: int| 0 <= j < k0 && name[j] == 0 {
        let j = choose|j: int| 0 <= j < k0 && name[j] == 0;
        first_nul(name, j)
    } else {
        k0
    }
}

/// After a queue is finalized none of the memory recorded for it remains
/// recorded, every entry of other queues stays, and every released entry was its.
pub proof fn lemma_release_leaves_no_memory_of_queue(owned: Seq<QueueOwnedMemory>, queue: usize)
    ensures
        forall|i: int|
            0 <= i < owned.filter(not_of_queue(queue)).len() ==> (
            #[trigger] owned.filter(not_of_queue(queue))[i]).queue_addr != queue,
        forall|i: int|
            0 <= i < owned.filter(of_queue(queue)).len() ==> (#[trigger] owned.filter(
                of_queue(queue),
            )[i]).queue_addr == queue,
        forall|i: int|
            0 <= i < owned.len() && owned[i].queue_addr != queue ==> owned.filter(
                not_of_queue(queue),
            ).contains(#[trigger] owned[i]),
{
    broadcast use Seq::lemma_filter_pred, Seq::lemma_filter_contains;

    assert forall|i: int|
        0 <= i < owned.filter(not_of_queue(queue)).len() implies (#[trigger] owned.filter(
        not_of_queue(queue),
    )[i]).queue_addr != queue by {
        owned.lemma_filter_pred(not_of_queue(queue), i);
    }
    assert forall|i: int|
        0 <= i < owned.filter(of_queue(queue)).len() implies (#[trigger] owned.filter(
        of_queue(queue),
    )[i]).queue_addr == queue by {
        owned.lemma_filter_pred(of_queue(queue), i);
    }
    assert forall|i: int|
        0 <= i < owned.len() && owned[i].queue_addr != queue implies owned.filter(
        not_of_queue(queue),
    ).contains(#[trigger] owned[i]) by {
        owned.lemma_filter_contains(not_of_queue(queue), i);
    }
}

} // verus!
