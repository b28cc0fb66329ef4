use crate::ninput::gamepad::Buttons;
use ringbuf::traits::{Consumer, Observer, Producer};
use ringbuf::HeapRb;
use vstd::prelude::*;

verus! {

/// Frames remembered per controller pair.
pub const FRAMES_PER_PAIR: usize = 3;

pub const CONTROLLERS_PER_PAIR: usize = 2;

pub const MAX_PLAYERS: usize = 8;

pub const MAX_PAIRS: usize = 4;

/// One controller's buttons in one frame, and whether it was connected.
#[derive(Copy, Clone, Debug, Default, PartialEq, Eq, Structural)]
pub struct ControllerInput {
    pub buttons: Buttons,
    pub connected: bool,
}

/// The inputs of both controllers of a pair in one frame.
#[derive(Copy, Clone, Debug, PartialEq, Eq)]
pub struct InputFrame {
    pub controllers: [ControllerInput; CONTROLLERS_PER_PAIR],
}

/// A `ringbuf` heap ring of input frames, kept out of Verus's sight; what it
/// holds is described by `ring_frames` and `ring_capacity`.
#[verifier::external_body]
pub struct FrameRing {
    rb: HeapRb<InputFrame>,
}

/// The frames a ring holds, oldest first.
pub uninterp spec fn ring_frames(ring: FrameRing) -> Seq<InputFrame>;

/// The number of frames a ring was made to hold.
pub uninterp spec fn ring_capacity(ring: FrameRing) -> nat;

/// `HeapRb::new`: an empty ring of the given capacity; it panics for a zero capacity.
#[verifier::external_body]
fn ring_new(capacity: usize) -> (r: FrameRing)
    requires
        capacity > 0,
    ensures
        ring_frames(r) == Seq::<InputFrame>::empty(),
        ring_capacity(r) == capacity,
{
    FrameRing { rb: HeapRb::new(capacity) }
}

/// `Observer::occupied_len`: the number of frames held.
#[verifier::external_body]
fn ring_occupied_len(r: &FrameRing) -> (n: usize)
    ensures
        n == ring_frames(*r).len(),
    no_unwind
{
    r.rb.occupied_len()
}

/// `Observer::is_empty`.
#[verifier::external_body]
fn ring_is_empty(r: &FrameRing) -> (b: bool)
    ensures
        b == (ring_frames(*r).len() == 0),
{
    r.rb.is_empty()
}

/// `Observer::is_full`: no vacant place is left.
#[verifier::external_body]
fn ring_is_full(r: &FrameRing) -> (b: bool)
    ensures
        b == (ring_frames(*r).len() == ring_capacity(*r)),
    no_unwind
{
    r.rb.is_full()
}

/// `Consumer::try_pop`: removes and returns the oldest frame, if any.
#[verifier::external_body]
fn ring_try_pop(r: &mut FrameRing) -> (f: Option<InputFrame>)
    ensures
        ring_capacity(*final(r)) == ring_capacity(*old(r)),
        ring_frames(*old(r)).len() == 0 ==> f == None::<InputFrame> && ring_frames(*final(r))
            == ring_frames(*old(r)),
        ring_frames(*old(r)).len() > 0 ==> f == Some(ring_frames(*old(r))[0]) && ring_frames(*final(r)) == ring_frames(*old(r)).drop_first(),
    no_unwind
{
    r.rb.try_pop()
}

/// `Producer::try_push`: appends a frame unless the ring is full; returns whether it did.
#[verifier::external_body]
fn ring_try_push(r: &mut FrameRing, frame: InputFrame) -> (pushed: bool)
    ensures
        ring_capacity(*final(r)) == ring_capacity(*old(r)),
        pushed == (ring_frames(*old(r)).len() < ring_capacity(*old(r))),
        pushed ==> ring_frames(*final(r)) == ring_frames(*old(r)).push(frame),
        !pushed ==> ring_frames(*final(r)) == ring_frames(*old(r)),
    no_unwind
{
    r.rb.try_push(frame).is_ok()
}

/// `Consumer::last`: the most recent frame, if any.
#[verifier::external_body]
fn ring_last(r: &FrameRing) -> (f: Option<&InputFrame>)
    ensures
        ring_frames(*r).len() == 0 ==> f == None::<&InputFrame>,
        ring_frames(*r).len() > 0 ==> f == Some(&ring_frames(*r).last()),
{
    r.rb.last()
}

/// The frames after recording `frame`: the oldest is dropped once the ring is full.
pub open spec fn advance_frames(frames: Seq<InputFrame>, frame: InputFrame) -> Seq<InputFrame> {
    (if frames.len() == FRAMES_PER_PAIR {
        frames.drop_first()
    } else {
        frames
    }).push(frame)
}

/// Recording a frame makes it the latest one and keeps the ring within its
/// capacity; once full, the ring holds exactly the last `FRAMES_PER_PAIR` frames recorded.
pub proof fn lemma_advance_keeps_latest(frames: Seq<InputFrame>, frame: InputFrame)
    requires
        frames.len() <= FRAMES_PER_PAIR,
    ensures
        advance_frames(frames, frame).last() == frame,
        advance_frames(frames, frame).len() <= FRAMES_PER_PAIR,
        advance_frames(frames, frame).len() == (if frames.len() == FRAMES_PER_PAIR {
            FRAMES_PER_PAIR as int
        } else {
            frames.len() + 1int
        }),
        forall|i: int|
            0 <= i < advance_frames(frames, frame).len() - 1 ==> #[trigger] advance_frames(
                frames,
                frame,
            )[i] == frames[i + frames.len() + 1 - advance_frames(frames, frame).len()],
{
}

/// `Consumer::last_mut`: the most recent frame, to be changed in place.
#[verifier::external_body]
fn ring_last_mut(r: &mut FrameRing) -> (f: Option<&mut InputFrame>)
    ensures
        ring_capacity(*final(r)) == ring_capacity(*old(r)),
        ring_frames(*old(r)).len() == 0 ==> f is None && ring_frames(*final(r)) == ring_frames(*old(r)),
        ring_frames(*old(r)).len() > 0 ==> f is Some && *f->0 == ring_frames(*old(r)).last()
            && ring_frames(*final(r)) == ring_frames(*old(r)).update(
            ring_frames(*old(r)).len() - 1,
            *final(f->0),
        ),
    no_unwind
{
    r.rb.last_mut()
}

/// The controller id of controller `local_index` of pair `pair_index`, as a byte.
pub open spec fn controller_id_of(pair_index: u8, local_index: int) -> u8 {
    (pair_index * CONTROLLERS_PER_PAIR + local_index) as u8
}

/// The first connected controller of `frame` whose buttons satisfy `held`.
pub open spec fn first_matching(frame: InputFrame, pair_index: u8, mask: Buttons, all: bool) -> Option<u8> {
    if frame.controllers@[0].connected && held(frame.controllers@[0].buttons, mask, all) {
        Some(controller_id_of(pair_index, 0))
    } else if frame.controllers@[1].connected && held(frame.controllers@[1].buttons, mask, all) {
        Some(controller_id_of(pair_index, 1))
    } else {
        None
    }
}

/// Within a pair the lower-numbered controller wins: controller 0 of the
/// frame when it is connected and holds the buttons (all of `mask`, or any of
/// them), controller 1 only when controller 0 does not and it does, none
/// otherwise. Controller `i` of pair `p` is controller number `2 * p + i`.
pub proof fn lemma_first_matching_lowest_controller(
    frame: InputFrame,
    pair_index: u8,
    mask: Buttons,
    all: bool,
)
    ensures
        ({
            let c0 = frame.controllers@[0];
            let c1 = frame.controllers@[1];
            let m0 = c0.connected && (if all {
                c0.buttons & mask == mask
            } else {
                c0.buttons & mask != 0
            });
            let m1 = c1.connected && (if all {
                c1.buttons & mask == mask
            } else {
                c1.buttons & mask != 0
            });
            let r = first_matching(frame, pair_index, mask, all);
            &&& m0 ==> r == Some((2 * pair_index) as u8)
            &&& (!m0 && m1) ==> r == Some((2 * pair_index + 1) as u8)
            &&& (!m0 && !m1) ==> r == None::<u8>
        }),
{
}

/// All buttons of `mask` are held (`all`), or any of them is.
pub open spec fn held(buttons: Buttons, mask: Buttons, all: bool) -> bool {
    if all {
        buttons & mask == mask
    } else {
        buttons & mask != 0
    }
}

/// The last few input frames of one pair of controllers.
pub struct ControllerPairFrames {
    pub pair_index: u8,
    frames: FrameRing,
}

impl ControllerPairFrames {
    #[verifier::type_invariant]
    spec fn wf(self) -> bool {
        &&& ring_capacity(self.frames) == FRAMES_PER_PAIR
        &&& ring_frames(self.frames).len() <= FRAMES_PER_PAIR
    }

    /// The pair's index among all pairs.
    pub closed spec fn index(self) -> u8 {
        self.pair_index
    }

    /// The frames held, oldest first.
    pub closed spec fn frames(self) -> Seq<InputFrame> {
        ring_frames(self.frames)
    }

    pub fn new(pair_index: u8) -> (p: Self)
        ensures
            p.index() == pair_index,
            p.frames() == Seq::<InputFrame>::empty(),
    {
        ControllerPairFrames { pair_index, frames: ring_new(FRAMES_PER_PAIR) }
    }

    pub fn len(&self) -> (n: usize)
        ensures
            n == self.frames().len(),
            n <= FRAMES_PER_PAIR,
    {
        proof {
            use_type_invariant(self);
        }
        ring_occupied_len(&self.frames)
    }

    pub fn is_empty(&self) -> (b: bool)
        ensures
            b == (self.frames().len() == 0),
    {
        ring_is_empty(&self.frames)
    }

    /// Removes and returns the oldest frame.
    pub fn pop_oldest(&mut self) -> (f: Option<InputFrame>)
        ensures
            final(self).index() == old(self).index(),
            old(self).frames().len() == 0 ==> f == None::<InputFrame> && final(self).frames()
                == old(self).frames(),
            old(self).frames().len() > 0 ==> f == Some(old(self).frames()[0]) && final(self).frames() == old(self).frames().drop_first(),
    {
        proof {
            use_type_invariant(&*self);
        }
        ring_try_pop(&mut self.frames)
    }

    /// Drops every frame.
    pub fn clear(&mut self)
        ensures
            final(self).index() == old(self).index(),
            final(self).frames() == Seq::<InputFrame>::empty(),
    {
        proof {
            use_type_invariant(&*self);
        }
        loop
            invariant
                self.index() == old(self).index(),
            ensures
                self.index() == old(self).index(),
                self.frames() == Seq::<InputFrame>::empty(),
            decreases self.frames().len(),
        {
            proof {
                use_type_invariant(&*self);
            }
            match self.pop_oldest() {
                Some(_) => {},
                None => {
                    assert(self.frames() =~= Seq::<InputFrame>::empty());
                    break;
                },
            }
        }
    }

    /// Records a new frame, dropping the oldest one when the ring is full.
    pub fn advance_next_index(&mut self, frame: InputFrame)
        ensures
            final(self).index() == old(self).index(),
            final(self).frames() == advance_frames(old(self).frames(), frame),
        no_unwind
    {
        proof {
            use_type_invariant(&*self);
        }
        if ring_is_full(&self.frames) {
            let _ = ring_try_pop(&mut self.frames);
        }
        let _ = ring_try_push(&mut self.frames, frame);
    }

    /// The most recent frame.
    pub fn latest(&self) -> (f: Option<&InputFrame>)
        ensures
            self.frames().len() == 0 ==> f == None::<&InputFrame>,
            self.frames().len() > 0 ==> f == Some(&self.frames().last()),
    {
        ring_last(&self.frames)
    }

    /// The most recent frame, to be changed in place.
    pub fn latest_mut(&mut self) -> (f: Option<&mut InputFrame>)
        ensures
            final(self).index() == old(self).index(),
            old(self).frames().len() == 0 ==> f is None && final(self).frames() == old(self).frames(),
            old(self).frames().len() > 0 ==> f is Some && *f->0 == old(self).frames().last()
                && final(self).frames() == old(self).frames().update(
                old(self).frames().len() - 1,
                *final(f->0),
            ),
    no_unwind
    {
        proof {
            use_type_invariant(&*self);
        }
        ring_last_mut(&mut self.frames)
    }

    /// The id of controller `local_index` of this pair.
    pub fn controller_id(&self, local_index: usize) -> (id: u8)
        requires
            local_index < CONTROLLERS_PER_PAIR,
        ensures
            id == controller_id_of(self.index(), local_index as int),
    {
        ((self.pair_index as usize * CONTROLLERS_PER_PAIR) + local_index) as u8
    }

    /// The first connected controller in the latest frame holding every button of `mask`.
    pub fn first_controller_with_all(&self, mask: Buttons) -> (id: Option<u8>)
        ensures
            self.frames().len() == 0 ==> id == None::<u8>,
            self.frames().len() > 0 ==> id == first_matching(
                self.frames().last(),
                self.index(),
                mask,
                true,
            ),
    {
        let frame = match self.latest() {
            Some(f) => f,
            None => return None,
        };
        let mut i: usize = 0;
        while i < CONTROLLERS_PER_PAIR
            invariant
                i <= CONTROLLERS_PER_PAIR,
                self.frames().len() > 0,
                *frame == self.frames().last(),
                forall|j: int|
                    0 <= j < i ==> !(frame.controllers@[j].connected && held(
                        frame.controllers@[j].buttons,
                        mask,
                        true,
                    )),
            decreases CONTROLLERS_PER_PAIR - i,
        {
            let c = frame.controllers[i];
            if c.connected && (c.buttons & mask) == mask {
                return Some(self.controller_id(i));
            }
            i += 1;
        }
        None
    }

    /// The first connected controller in the latest frame holding any button of `mask`.
    pub fn first_controller_with_any(&self, mask: Buttons) -> (id: Option<u8>)
        ensures
            self.frames().len() == 0 ==> id == None::<u8>,
            self.frames().len() > 0 ==> id == first_matching(
                self.frames().last(),
                self.index(),
                mask,
                false,
            ),
    {
        let frame = match self.latest() {
            Some(f) => f,
            None => return None,
        };
        let mut i: usize = 0;
        while i < CONTROLLERS_PER_PAIR
            invariant
                i <= CONTROLLERS_PER_PAIR,
                self.frames().len() > 0,
                *frame == self.frames().last(),
                forall|j: int|
                    0 <= j < i ==> !(frame.controllers@[j].connected && held(
                        frame.controllers@[j].buttons,
                        mask,
                        false,
                    )),
            decreases CONTROLLERS_PER_PAIR - i,
        {
            let c = frame.controllers[i];
            if c.connected && (c.buttons & mask) != 0 {
                return Some(self.controller_id(i));
            }
            i += 1;
        }
        None
    }
}

/// What `first_controller_with_all`/`_any` finds in one pair's latest frame.
pub open spec fn pair_match(p: ControllerPairFrames, mask: Buttons, all: bool) -> Option<u8> {
    if p.frames().len() == 0 {
        None
    } else {
        first_matching(p.frames().last(), p.index(), mask, all)
    }
}

/// The first match over the pairs, in pair order.
pub open spec fn first_pair_match(pairs: Seq<ControllerPairFrames>, mask: Buttons, all: bool) -> Option<u8>
    decreases pairs.len(),
{
    if pairs.len() == 0 {
        None
    } else if pair_match(pairs[0], mask, all) is Some {
        pair_match(pairs[0], mask, all)
    } else {
        first_pair_match(pairs.drop_first(), mask, all)
    }
}

/// Over the pairs, in order, the first pair with a match wins: the result is
/// none exactly when no pair matches, and otherwise it is the match of some
/// pair before which no pair matches.
pub proof fn lemma_first_pair_match_is_first(pairs: Seq<ControllerPairFrames>, mask: Buttons, all: bool)
    ensures
        (first_pair_match(pairs, mask, all) is None) <==> (forall|k: int|
            0 <= k < pairs.len() ==> #[trigger] pair_match(pairs[k], mask, all) is None),
        first_pair_match(pairs, mask, all) is Some ==> exists|k: int|
            0 <= k < pairs.len() && first_pair_match(pairs, mask, all) == #[trigger] pair_match(
                pairs[k],
                mask,
                all,
            ) && forall|j: int| 0 <= j < k ==> #[trigger] pair_match(pairs[j], mask, all) is None,
    decreases pairs.len(),
{
    if pairs.len() > 0 {
        let rest = pairs.drop_first();
        lemma_first_pair_match_is_first(rest, mask, all);
        assert forall|k: int| 0 <= k < rest.len() implies rest[k] == pairs[k + 1] by {}
        if pair_match(pairs[0], mask, all) is Some {
            assert(first_pair_match(pairs, mask, all) == pair_match(pairs[0], mask, all));
        } else {
            if first_pair_match(rest, mask, all) is Some {
                let k = choose|k: int|
                    0 <= k < rest.len() && first_pair_match(rest, mask, all) == #[trigger] pair_match(
                        rest[k],
                        mask,
                        all,
                    ) && forall|j: int| 0 <= j < k ==> #[trigger] pair_match(rest[j], mask, all) is None;
                assert(first_pair_match(pairs, mask, all) == pair_match(pairs[k + 1], mask, all));
                assert forall|j: int| 0 <= j < k + 1 implies #[trigger] pair_match(pairs[j], mask, all) is None by {
                    if j > 0 {
                        assert(pairs[j] == rest[j - 1]);
                    }
                }
            } else {
                assert forall|k: int| 0 <= k < pairs.len() implies #[trigger] pair_match(pairs[k], mask, all) is None by {
                    if k > 0 {
                        assert(pairs[k] == rest[k - 1]);
                    }
                }
            }
        }
    }
}

/// `Vec::shrink_to_fit`: releases spare capacity; the elements stay as they are.
#[verifier::external_body]
fn vec_shrink_to_fit(v: &mut Vec<ControllerPairFrames>)
    ensures
        final(v)@ == old(v)@,
{
    v.shrink_to_fit()
}

/// `Vec::shrink_to`: releases capacity beyond `min`; the elements stay as they are.
#[verifier::external_body]
fn vec_shrink_to(v: &mut Vec<ControllerPairFrames>, min: usize)
    ensures
        final(v)@ == old(v)@,
{
    v.shrink_to(min)
}

/// Input frames for every pair of connected controllers.
pub struct InputFrameStore {
    pairs: Vec<ControllerPairFrames>,
    tracked_pair_count: u8,
}

impl InputFrameStore {
    /// The pairs allocated, in order.
    pub closed spec fn all_pairs(self) -> Seq<ControllerPairFrames> {
        self.pairs@
    }

    /// How many of them are in use.
    pub closed spec fn active_pairs(self) -> nat {
        self.tracked_pair_count as nat
    }

    /// At most `MAX_PAIRS` pairs, the tracked ones among them: what `new`,
    /// `capture_next` and `free_memory` leave.
    pub open spec fn wf(self) -> bool {
        &&& self.all_pairs().len() <= MAX_PAIRS
        &&& self.active_pairs() <= self.all_pairs().len()
    }

    /// The pairs in use: the tracked ones, as far as they exist.
    pub open spec fn active_prefix(self) -> Seq<ControllerPairFrames> {
        self.all_pairs().take(
            if self.active_pairs() <= self.all_pairs().len() {
                self.active_pairs() as int
            } else {
                self.all_pairs().len() as int
            },
        )
    }

    pub fn new() -> (s: Self)
        ensures
            s.wf(),
            s.all_pairs() == Seq::<ControllerPairFrames>::empty(),
            s.active_pairs() == 0,
    {
        InputFrameStore { pairs: Vec::new(), tracked_pair_count: 0 }
    }

    pub fn tracked_pair_count(&self) -> (n: u8)
        ensures
            n == self.active_pairs(),
    {
        self.tracked_pair_count
    }

    /// The number of pairs allocated, as a byte.
    pub fn allocated_pair_count(&self) -> (n: u8)
        ensures
            n == self.all_pairs().len() as u8,
            self.all_pairs().len() <= u8::MAX ==> n == self.all_pairs().len(),
    {
        self.pairs.len() as u8
    }

    pub fn pairs(&self) -> (ps: &[ControllerPairFrames])
        ensures
            ps@ == self.all_pairs(),
    {
        self.pairs.as_slice()
    }

    /// All pairs, to be changed in place.
    pub fn pairs_mut(&mut self) -> (ps: &mut [ControllerPairFrames])
        ensures
            ps@ == old(self).all_pairs(),
            final(self).all_pairs() == final(ps)@,
            final(self).active_pairs() == old(self).active_pairs(),
    {
        self.pairs.as_mut_slice()
    }

    /// The pairs in use, to be changed in place.
    pub fn active_pairs_mut(&mut self) -> (ps: &mut [ControllerPairFrames])
        ensures
            ps@ == old(self).active_prefix(),
            final(self).all_pairs() == final(ps)@ + old(self).all_pairs().skip(
                old(self).active_prefix().len() as int,
            ),
            final(self).active_pairs() == old(self).active_pairs(),
    {
        let in_use = self.tracked_pair_count as usize;
        let active = if in_use <= self.pairs.len() {
            in_use
        } else {
            self.pairs.len()
        };
        let (head, _tail) = self.pairs.as_mut_slice().split_at_mut(active);
        head
    }

    /// Drops every pair and its frames.
    pub fn free_memory(&mut self)
        ensures
            final(self).wf(),
            final(self).all_pairs() == Seq::<ControllerPairFrames>::empty(),
            final(self).active_pairs() == 0,
    {
        self.pairs.clear();
        vec_shrink_to_fit(&mut self.pairs);
        self.tracked_pair_count = 0;
    }

    /// Drops the store.
    pub fn free(self) {
    }

    /// Keeps exactly `min(required, MAX_PAIRS)` pairs: surplus pairs are
    /// dropped, missing ones are added empty with their position as index.
    fn resize_pairs_for_required(&mut self, required: usize)
        ensures
            final(self).all_pairs().len() == (if required < MAX_PAIRS { required } else { MAX_PAIRS }),
            forall|i: int|
                0 <= i < final(self).all_pairs().len() ==> #[trigger] final(self).all_pairs()[i].index() == (if i
                    < old(self).all_pairs().len() {
                    old(self).all_pairs()[i].index()
                } else {
                    i as u8
                }),
            forall|i: int|
                0 <= i < final(self).all_pairs().len() ==> #[trigger] final(self).all_pairs()[i].frames() == (if i
                    < old(self).all_pairs().len() {
                    old(self).all_pairs()[i].frames()
                } else {
                    Seq::<InputFrame>::empty()
                }),
    {
        let clamped = if required < MAX_PAIRS {
            required
        } else {
            MAX_PAIRS
        };
        if self.pairs.len() > clamped {
            self.pairs.truncate(clamped);
            vec_shrink_to(&mut self.pairs, clamped);
        } else {
            while self.pairs.len() < clamped
                invariant
                    clamped <= MAX_PAIRS,
                    self.pairs@.len() <= clamped,
                    old(self).pairs@.len() <= self.pairs@.len(),
                    forall|i: int|
                        0 <= i < self.pairs@.len() ==> #[trigger] self.pairs@[i].index() == (if i
                            < old(self).pairs@.len() {
                            old(self).pairs@[i].index()
                        } else {
                            i as u8
                        }),
                    forall|i: int|
                        0 <= i < self.pairs@.len() ==> #[trigger] self.pairs@[i].frames() == (if i
                            < old(self).pairs@.len() {
                            old(self).pairs@[i].frames()
                        } else {
                            Seq::<InputFrame>::empty()
                        }),
                decreases clamped - self.pairs@.len(),
            {
                let index = self.pairs.len() as u8;
                self.pairs.push(ControllerPairFrames::new(index));
            }
        }
    }

    /// Records one frame for each pair of connected controllers.
    ///
    /// `connected` is how many controllers are connected and `inputs[i]` is
    /// what controller `i` shows; returns the number of pairs tracked. Pairs
    /// kept from before keep their index; new pairs get their position.
    pub fn capture_next(&mut self, connected: u32, inputs: &[ControllerInput]) -> (n: u8)
        requires
            connected <= MAX_PLAYERS,
            inputs@.len() >= 2 * ((connected + 1) / 2),
        ensures
            final(self).wf(),
            n == (connected + 1) / 2,
            final(self).active_pairs() == n,
            final(self).all_pairs().len() == n,
            forall|p: int|
                0 <= p < n ==> #[trigger] final(self).all_pairs()[p].index() == (if p < old(
                    self,
                ).all_pairs().len() {
                    old(self).all_pairs()[p].index()
                } else {
                    p as u8
                }),
            forall|p: int|
                0 <= p < n ==> #[trigger] final(self).all_pairs()[p].frames() == advance_frames(
                    (if p < old(self).all_pairs().len() {
                        old(self).all_pairs()[p].frames()
                    } else {
                        Seq::<InputFrame>::empty()
                    }),
                    InputFrame { controllers: [inputs@[2 * p], inputs@[2 * p + 1]] },
                ),
    {
        let required: usize = (connected as usize + 1) / 2;
        self.resize_pairs_for_required(required);
        self.tracked_pair_count = required as u8;
        let ghost resized = self.pairs@;
        let mut pair: usize = 0;
        while pair < required
            invariant
                required == (connected + 1) / 2,
                required <= MAX_PAIRS,
                pair <= required,
                inputs@.len() >= 2 * required,
                self.pairs@.len() == required,
                resized.len() == required,
                self.tracked_pair_count == required,
                forall|i: int| 0 <= i < required ==> #[trigger] self.pairs@[i].index() == resized[i].index(),
                forall|i: int|
                    0 <= i < required ==> #[trigger] self.pairs@[i].frames() == (if i < pair {
                        advance_frames(
                            resized[i].frames(),
                            InputFrame { controllers: [inputs@[2 * i], inputs@[2 * i + 1]] },
                        )
                    } else {
                        resized[i].frames()
                    }),
            decreases required - pair,
        {
            let frame = InputFrame { controllers: [inputs[2 * pair], inputs[2 * pair + 1]] };
            self.pairs[pair].advance_next_index(frame);
            pair += 1;
        }
        self.tracked_pair_count
    }

    /// The first connected controller, among the tracked pairs, holding every
    /// button of `mask` in its latest frame.
    pub fn first_controller_with_all(&self, mask: Buttons) -> (id: Option<u8>)
        ensures
            id == first_pair_match(self.active_prefix(), mask, true),
    {
        self.first_match(mask, true)
    }

    /// The first connected controller, among the tracked pairs, holding any
    /// button of `mask` in its latest frame.
    pub fn first_controller_with_any(&self, mask: Buttons) -> (id: Option<u8>)
        ensures
            id == first_pair_match(self.active_prefix(), mask, false),
    {
        self.first_match(mask, false)
    }

    fn first_match(&self, mask: Buttons, all: bool) -> (id: Option<u8>)
        ensures
            id == first_pair_match(self.active_prefix(), mask, all),
    {
        let in_use = self.tracked_pair_count as usize;
        let count = if in_use <= self.pairs.len() {
            in_use
        } else {
            self.pairs.len()
        };
        let ghost active = self.pairs@.take(count as int);
        assert(active == self.active_prefix());
        let mut i: usize = 0;
        assert(active.skip(0) =~= active);
        while i < count
            invariant
                active == self.active_prefix(),
                count <= self.pairs@.len(),
                active == self.pairs@.take(count as int),
                i <= count,
                first_pair_match(active, mask, all) == first_pair_match(active.skip(i as int), mask, all),
            decreases count - i,
        {
            assert(active.skip(i as int)[0] == self.pairs@[i as int]);
            assert(active.skip(i as int).drop_first() =~= active.skip(i + 1));
            let found = if all {
                self.pairs[i].first_controller_with_all(mask)
            } else {
                self.pairs[i].first_controller_with_any(mask)
            };
            if found.is_some() {
                return found;
            }
            i += 1;
        }
        assert(active.skip(i as int) =~= Seq::<ControllerPairFrames>::empty());
        None
    }
}

/// Every connected controller, among `pairs`, holding all buttons of `mask`
/// in its pair's latest frame, with its buttons, in pair and controller order.
pub open spec fn matches_in(pairs: Seq<ControllerPairFrames>, mask: Buttons) -> Seq<(u8, Buttons)>
    decreases pairs.len(),
{
    if pairs.len() == 0 {
        Seq::empty()
    } else {
        let p = pairs[0];
        let here = if p.frames().len() == 0 {
            Seq::empty()
        } else {
            let f = p.frames().last();
            let c0 = f.controllers@[0];
            let c1 = f.controllers@[1];
            (if c0.connected && held(c0.buttons, mask, true) {
                seq![(controller_id_of(p.index(), 0), c0.buttons)]
            } else {
                Seq::empty()
            }) + (if c1.connected && held(c1.buttons, mask, true) {
                seq![(controller_id_of(p.index(), 1), c1.buttons)]
            } else {
                Seq::empty()
            })
        };
        here + matches_in(pairs.drop_first(), mask)
    }
}

/// The controllers a per-match callback is run for, in the order it is run.
pub fn for_each_matching_in(pairs: &[ControllerPairFrames], mask: Buttons) -> (out: Vec<(u8, Buttons)>)
    ensures
        out@ == matches_in(pairs@, mask),
{
    let mut out: Vec<(u8, Buttons)> = Vec::new();
    let mut i: usize = 0;
    assert(pairs@.skip(0) =~= pairs@);
    while i < pairs.len()
        invariant
            i <= pairs@.len(),
            matches_in(pairs@, mask) == out@ + matches_in(pairs@.skip(i as int), mask),
        decreases pairs@.len() - i,
    {
        let pair = &pairs[i];
        assert(pairs@.skip(i as int)[0] == pairs@[i as int]);
        assert(pairs@.skip(i as int).drop_first() =~= pairs@.skip(i + 1));
        let ghost before = out@;
        if let Some(frame) = pair.latest() {
            let c0 = frame.controllers[0];
            if c0.connected && (c0.buttons & mask) == mask {
                out.push((pair.controller_id(0), c0.buttons));
            }
            let c1 = frame.controllers[1];
            if c1.connected && (c1.buttons & mask) == mask {
                out.push((pair.controller_id(1), c1.buttons));
            }
        }
        assert(matches_in(pairs@.skip(i as int), mask) == (out@.subrange(before.len() as int, out@.len() as int))
            + matches_in(pairs@.skip(i + 1), mask)) by {
            assert(out@ =~= before + out@.subrange(before.len() as int, out@.len() as int));
        }
        assert(out@ =~= before + out@.subrange(before.len() as int, out@.len() as int));
        i += 1;
    }
    assert(pairs@.skip(i as int) =~= Seq::<ControllerPairFrames>::empty());
    assert(out@ + Seq::<(u8, Buttons)>::empty() =~= out@);
    out
}

} // verus!
