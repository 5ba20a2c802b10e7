//! The actuator resources that the board hands out: PWM slices for the
//! servos (each slice drives two servos, on its channels A and B), motor
//! pins and PIO state machines for the DShot motors.
//!
//! Resources are named by their hardware numbers; the board keeps the
//! peripheral handles and sets up what this allocator grants.

use vstd::prelude::*;

verus! {

/// Capacity of a slot queue.
pub const SLOT_QUEUE_CAPACITY: usize = 4;

/// A first-in first-out queue of resource numbers, held in a fixed-capacity
/// `heapless::Deque`.
#[verifier::external_body]
pub struct SlotQueue {
    inner: heapless::Deque<u8, 4>,
}

/// The resource numbers that a slot queue holds, front first.
pub uninterp spec fn slot_queue_items(q: SlotQueue) -> Seq<u8>;

/// `heapless::Deque::new`: the new deque is empty.
#[verifier::external_body]
fn slot_queue_new() -> (q: SlotQueue)
    ensures
        slot_queue_items(q) == Seq::<u8>::empty(),
{
    SlotQueue { inner: heapless::Deque::new() }
}

/// `heapless::Deque::push_back`: when the deque holds fewer than its
/// capacity of items, the item is appended at the back and `Ok` returned;
/// a full deque is left unchanged and the item handed back in `Err`.
#[verifier::external_body]
fn slot_queue_push_back(q: &mut SlotQueue, item: u8) -> (r: Result<(), u8>)
    ensures
        slot_queue_items(*old(q)).len() < SLOT_QUEUE_CAPACITY ==> r is Ok
            && slot_queue_items(*final(q)) == slot_queue_items(*old(q)).push(item),
        slot_queue_items(*old(q)).len() >= SLOT_QUEUE_CAPACITY ==> (r matches Err(x) && x == item),
        slot_queue_items(*old(q)).len() >= SLOT_QUEUE_CAPACITY ==> slot_queue_items(*final(q))
            == slot_queue_items(*old(q)),
{
    q.inner.push_back(item)
}

/// `heapless::Deque::pop_front`: removes and returns the front item, or
/// returns `None` and leaves the deque unchanged when it is empty.
#[verifier::external_body]
fn slot_queue_pop_front(q: &mut SlotQueue) -> (r: Option<u8>)
    ensures
        slot_queue_items(*old(q)).len() == 0 ==> r == None::<u8>
            && slot_queue_items(*final(q)) == slot_queue_items(*old(q)),
        slot_queue_items(*old(q)).len() > 0 ==> r == Some(slot_queue_items(*old(q))[0])
            && slot_queue_items(*final(q)) == slot_queue_items(*old(q)).drop_first(),
{
    q.inner.pop_front()
}

/// `heapless::Deque::len`: the number of items held.
#[verifier::external_body]
fn slot_queue_len(q: &SlotQueue) -> (n: usize)
    ensures
        n == slot_queue_items(*q).len(),
{
    q.inner.len()
}

/// What `take_servo` grants.
#[derive(Clone, Copy, Debug, PartialEq, Eq, Structural)]
pub enum ServoGrant {
    /// Channel B of this slice, parked when the slice was set up.
    Parked(u8),
    /// Set up this slice, use its channel A and park its channel B.
    Split(u8),
}

/// What `take_motor` grants: a motor pin, and the state machine that
/// drives it if one was free.
#[derive(Clone, Copy, Debug, PartialEq, Eq, Structural)]
pub struct MotorGrant {
    pub pin: u8,
    pub state_machine: Option<u8>,
}

/// The board's actuator resources that are still free.
pub struct ActuatorSlots {
    available_slices: SlotQueue,
    pending_servo: Option<u8>,
    available_motors: SlotQueue,
    available_sm: SlotQueue,
}

impl ActuatorSlots {
    /// Free PWM slices, in the order they are handed out.
    pub closed spec fn slices(&self) -> Seq<u8> {
        slot_queue_items(self.available_slices)
    }

    /// The slice whose channel B is parked, waiting to be handed out.
    pub closed spec fn pending(&self) -> Option<u8> {
        self.pending_servo
    }

    /// Free motor pins, in the order they are handed out.
    pub closed spec fn motors(&self) -> Seq<u8> {
        slot_queue_items(self.available_motors)
    }

    /// Free PIO state machines, in the order they are handed out.
    pub closed spec fn state_machines(&self) -> Seq<u8> {
        slot_queue_items(self.available_sm)
    }

    /// No resource is free twice, and a slice whose channel B is parked is
    /// no longer free.
    pub closed spec fn wf(&self) -> bool {
        &&& self.slices().no_duplicates()
        &&& self.motors().no_duplicates()
        &&& self.state_machines().no_duplicates()
        &&& (self.pending() matches Some(s) ==> !self.slices().contains(s))
    }

    /// The resources of the board: PWM slices 1 and 2, motor pins 6 to 9
    /// and PIO state machines 0 to 3.
    pub fn new() -> (s: ActuatorSlots)
        ensures
            s.wf(),
            s.slices() == seq![1u8, 2u8],
            s.pending() == None::<u8>,
            s.motors() == seq![6u8, 7u8, 8u8, 9u8],
            s.state_machines() == seq![0u8, 1u8, 2u8, 3u8],
    {
        let mut available_slices = slot_queue_new();
        let _ = slot_queue_push_back(&mut available_slices, 1);
        let _ = slot_queue_push_back(&mut available_slices, 2);

        let mut available_motors = slot_queue_new();
        let _ = slot_queue_push_back(&mut available_motors, 6);
        let _ = slot_queue_push_back(&mut available_motors, 7);
        let _ = slot_queue_push_back(&mut available_motors, 8);
        let _ = slot_queue_push_back(&mut available_motors, 9);

        let mut available_sm = slot_queue_new();
        let _ = slot_queue_push_back(&mut available_sm, 0);
        let _ = slot_queue_push_back(&mut available_sm, 1);
        let _ = slot_queue_push_back(&mut available_sm, 2);
        let _ = slot_queue_push_back(&mut available_sm, 3);

        proof {
            let sl = slot_queue_items(available_slices);
            let mo = slot_queue_items(available_motors);
            let sm = slot_queue_items(available_sm);
            assert(sl =~= seq![1u8, 2u8]);
            assert(mo =~= seq![6u8, 7u8, 8u8, 9u8]);
            assert(sm =~= seq![0u8, 1u8, 2u8, 3u8]);
            assert(sl.no_duplicates());
            assert(mo.no_duplicates());
            assert(sm.no_duplicates());
        }
        ActuatorSlots { available_slices, pending_servo: None, available_motors, available_sm }
    }

    /// Grants a servo: the parked channel B if there is one, else a free
    /// slice to set up (its channel A is handed out and its channel B parked),
    /// else nothing.
    pub fn take_servo(&mut self) -> (g: Option<ServoGrant>)
        requires
            old(self).wf(),
        ensures
            final(self).wf(),
            final(self).motors() == old(self).motors(),
            final(self).state_machines() == old(self).state_machines(),
            old(self).pending() matches Some(s) ==> {
                &&& g == Some(ServoGrant::Parked(s))
                &&& final(self).pending() == None::<u8>
                &&& final(self).slices() == old(self).slices()
            },
            old(self).pending() is None && old(self).slices().len() == 0 ==> {
                &&& g == None::<ServoGrant>
                &&& final(self).pending() == None::<u8>
                &&& final(self).slices() == old(self).slices()
            },
            g matches Some(ServoGrant::Split(s)) ==> !final(self).slices().contains(s),
            old(self).pending() is None && old(self).slices().len() > 0 ==> {
                &&& g == Some(ServoGrant::Split(old(self).slices()[0]))
                &&& final(self).pending() == Some(old(self).slices()[0])
                &&& final(self).slices() == old(self).slices().drop_first()
            },
    {
        if let Some(s) = self.pending_servo {
            self.pending_servo = None;
            return Some(ServoGrant::Parked(s));
        }
        let ghost before = self.slices();
        let next = slot_queue_pop_front(&mut self.available_slices);
        match next {
            None => None,
            Some(s) => {
                proof {
                    assert(before == seq![s] + before.drop_first());
                    assert(!before.drop_first().contains(s));
                }
                self.pending_servo = Some(s);
                Some(ServoGrant::Split(s))
            },
        }
    }

    /// The number of free motor pins.
    pub fn motors_available(&self) -> (n: usize)
        ensures
            n == self.motors().len(),
    {
        slot_queue_len(&self.available_motors)
    }

    /// Grants a motor: the next free motor pin, together with the next free
    /// state machine. The pin is used up even when no state machine is left.
    pub fn take_motor(&mut self) -> (g: MotorGrant)
        requires
            old(self).wf(),
            old(self).motors().len() > 0,
        ensures
            final(self).wf(),
            g.pin == old(self).motors()[0],
            final(self).motors() == old(self).motors().drop_first(),
            final(self).slices() == old(self).slices(),
            final(self).pending() == old(self).pending(),
            !final(self).motors().contains(g.pin),
            old(self).state_machines().len() > 0 ==> {
                &&& g.state_machine == Some(old(self).state_machines()[0])
                &&& final(self).state_machines() == old(self).state_machines().drop_first()
                &&& !final(self).state_machines().contains(old(self).state_machines()[0])
            },
            old(self).state_machines().len() == 0 ==> {
                &&& g.state_machine == None::<u8>
                &&& final(self).state_machines() == old(self).state_machines()
            },
    {
        let ghost motors_before = self.motors();
        let ghost sm_before = self.state_machines();
        let pin = match slot_queue_pop_front(&mut self.available_motors) {
            Some(p) => p,
            None => 0,
        };
        let state_machine = slot_queue_pop_front(&mut self.available_sm);
        proof {
            assert(motors_before =~= seq![motors_before[0]] + motors_before.drop_first());
            if sm_before.len() > 0 {
                assert(sm_before =~= seq![sm_before[0]] + sm_before.drop_first());
            }
        }
        MotorGrant { pin, state_machine }
    }
}

} // verus!
