//! Routing of CAN frames to the consumers registered for them.
//!
//! The identifier of a frame is the node ID that it is for, followed by a five-bit command ID.
use vstd::prelude::*;
use crate::can_frame::{CanFrame, Id};

verus! {

/// Consumer of the frames of some commands.
pub trait CanFrameConsumer: Sized {
    /// Whether the consumer can work under a node ID.
    open spec fn takes_node_id(&self, node_id: u32) -> bool {
        true
    }

    /// Tells the consumer the node ID that frames are received for.
    fn set_node_id(&mut self, node_id: u32)
        requires
            old(self).takes_node_id(node_id),
        default_ensures
            *final(self) == *old(self),
    {
    }

    /// Whether the consumer wants the frames of a command.
    fn accepts(&self, id: u8, is_remote: bool) -> bool;
}

/// Where a frame goes.
#[derive(Clone, Copy, Debug, PartialEq, Eq, Structural)]
pub enum Route {
    /// It is for another node.
    OtherNode,
    /// No consumer wants it.
    Unhandled,
    /// It goes to the consumer registered at this position.
    Consumer(usize),
}

/// The raw value of an identifier.
pub open spec fn raw_id(id: Id) -> int {
    match id {
        Id::Standard(raw) => raw as int,
        Id::Extended(raw) => raw as int,
    }
}

/// The node ID in an identifier.
pub open spec fn node_of(id: Id) -> int {
    raw_id(id) / 32
}

/// The command ID in an identifier.
pub open spec fn command_of(id: Id) -> int {
    raw_id(id) % 32
}

/// The raw identifier of a command of a node: what does not fit 32 bits is cut off.
pub open spec fn address(node_id: u32, command: int) -> int {
    node_id * 32 % 0x1_0000_0000 + command
}

/// The node ID and the command ID in an identifier.
pub fn split_id(id: Id) -> (r: (u32, u8))
    ensures
        r.0 == node_of(id),
        r.1 == command_of(id),
{
    match id {
        Id::Standard(raw) => ((raw / 32) as u32, (raw % 32) as u8),
        Id::Extended(raw) => (raw / 32, (raw % 32) as u8),
    }
}

/// The identifier that nodes use for a command is split into the same parts again, for every
/// node ID that the identifier can hold.
pub proof fn law_address_is_split_again(node_id: u32, command: int)
    requires
        0 <= command < 32,
        node_id < 0x800_0000,
    ensures
        address(node_id, command) < 0x1_0000_0000,
        node_of(Id::Extended(address(node_id, command) as u32)) == node_id,
        command_of(Id::Extended(address(node_id, command) as u32)) == command,
{
}

/// Whether `c` stands at position `i`.
pub open spec fn is_at<C>(consumers: Seq<C>, i: int, c: C) -> bool {
    0 <= i < consumers.len() && consumers[i] == c
}

/// Dispatcher for routing frames to up to `N` registered consumers.
///
/// The consumers are held in a `Vec` whose length is bounded: Verus cannot declare
/// `heapless::Vec`, whose storage parameter lives in a private module, and a description of its
/// contents could not be generic in the type of the consumers.
pub struct CanSimpleDispatcher<C: CanFrameConsumer, const N: usize> {
    pub node_id: u32,
    pub consumers: Vec<C>,
}

impl<C: CanFrameConsumer, const N: usize> CanSimpleDispatcher<C, N> {
    pub open spec fn wf(&self) -> bool {
        self.consumers@.len() <= N
    }

    pub fn new(node_id: u32) -> (d: CanSimpleDispatcher<C, N>)
        ensures
            d.wf(),
            d.node_id == node_id,
            d.consumers@.len() == 0,
    {
        CanSimpleDispatcher { node_id, consumers: Vec::new() }
    }

    fn tell(consumer: &mut C, node_id: u32)
        requires
            old(consumer).takes_node_id(node_id),
        ensures
            exists|c: &mut C|
                #![trigger call_ensures(C::set_node_id, (c, node_id), ())]
                *c == *old(consumer) && *final(c) == *final(consumer) && call_ensures(
                    C::set_node_id,
                    (c, node_id),
                    (),
                ),
    {
        consumer.set_node_id(node_id)
    }

    /// Changes the node ID, here and at all the consumers.
    pub fn set_node_id(&mut self, node_id: u32)
        requires
            old(self).wf(),
            forall|i: int|
                0 <= i < old(self).consumers@.len() ==> (#[trigger] old(
                    self).consumers@[i]).takes_node_id(node_id),
        ensures
            final(self).wf(),
            final(self).node_id == node_id,
            final(self).consumers@.len() == old(self).consumers@.len(),
            forall|i: int|
                #![trigger final(self).consumers@[i]]
                0 <= i < old(self).consumers@.len() ==> is_at(
                    final(self).consumers@,
                    i,
                    final(self).consumers@[i],
                ),
            forall|i: int, after: C|
                #[trigger] is_at(final(self).consumers@, i, after) ==> exists|c: &mut C|
                    #![trigger call_ensures(C::set_node_id, (c, node_id), ())]
                    *c == old(self).consumers@[i] && *final(c) == after && call_ensures(
                        C::set_node_id,
                        (c, node_id),
                        (),
                    ),
    {
        self.node_id = node_id;
        let n: usize = self.consumers.len();
        let mut i: usize = 0;
        while i < n
            invariant
                i <= n,
                n == old(self).consumers@.len(),
                self.node_id == node_id,
                self.consumers@.len() == n,
                forall|j: int|
                    0 <= j < n ==> (#[trigger] old(self).consumers@[j]).takes_node_id(node_id),
                forall|j: int|
                    i <= j < n ==> #[trigger] self.consumers@[j] == old(self).consumers@[j],
                forall|j: int, after: C|
                    j < i && #[trigger] is_at(self.consumers@, j, after) ==> exists|c: &mut C|
                        #![trigger call_ensures(C::set_node_id, (c, node_id), ())]
                        *c == old(self).consumers@[j] && *final(c) == after && call_ensures(
                            C::set_node_id,
                            (c, node_id),
                            (),
                        ),
            decreases n - i,
        {
            let ghost before = self.consumers@;
            proof {
                assert(old(self).consumers@[i as int].takes_node_id(node_id));
            }
            CanSimpleDispatcher::<C, N>::tell(&mut self.consumers[i], node_id);
            proof {
                assert forall|j: int, after: C|
                    j < i && #[trigger] is_at(self.consumers@, j, after) implies is_at(
                    before,
                    j,
                    after,
                ) by {}
            }
            i += 1;
        }
    }

    /// Registers one more consumer; fails where there are `N` already.
    pub fn register(&mut self, consumer: C) -> (r: Result<(), ()>)
        requires
            old(self).wf(),
        ensures
            final(self).wf(),
            final(self).node_id == old(self).node_id,
            r is Ok <==> old(self).consumers@.len() < N,
            final(self).consumers@ == if r is Ok {
                old(self).consumers@.push(consumer)
            } else {
                old(self).consumers@
            },
    {
        if self.consumers.len() >= N {
            return Err(());
        }
        self.consumers.push(consumer);
        Ok(())
    }

    /// Where a frame goes: to the first consumer that accepts its command, if it is for this
    /// node.
    pub fn dispatch(&self, frame: &CanFrame) -> (route: Route)
        ensures
            route == Route::OtherNode <==> node_of(frame.id) != self.node_id,
            route == Route::Unhandled ==> forall|j: int|
                0 <= j < self.consumers@.len() ==> call_ensures(
                    C::accepts,
                    (#[trigger] &self.consumers@[j], command_of(frame.id) as u8, frame.remote),
                    false,
                ),
            route matches Route::Consumer(i) ==> {
                &&& i < self.consumers@.len()
                &&& call_ensures(
                    C::accepts,
                    (&self.consumers@[i as int], command_of(frame.id) as u8, frame.remote),
                    true,
                )
                &&& forall|j: int|
                    0 <= j < i ==> call_ensures(
                        C::accepts,
                        (#[trigger] &self.consumers@[j], command_of(frame.id) as u8, frame.remote),
                        false,
                    )
            },
    {
        let (node_id, cmd_id): (u32, u8) = split_id(frame.id);
        if node_id != self.node_id {
            return Route::OtherNode;
        }
        let mut i: usize = 0;
        while i < self.consumers.len()
            invariant
                i <= self.consumers@.len(),
                node_id == self.node_id,
                node_id == node_of(frame.id),
                cmd_id == command_of(frame.id) as u8,
                forall|j: int|
                    0 <= j < i ==> call_ensures(
                        C::accepts,
                        (#[trigger] &self.consumers@[j], cmd_id, frame.remote),
                        false,
                    ),
            decreases self.consumers@.len() - i,
        {
            if self.consumers[i].accepts(cmd_id, frame.remote) {
                return Route::Consumer(i);
            }
            i += 1;
        }
        Route::Unhandled
    }
}

/// An identifier is 32 times its node ID plus its command ID, which is below 32.
pub proof fn law_identifier_is_node_and_command(id: Id)
    ensures
        0 <= command_of(id) < 32,
        match id {
            Id::Standard(raw) => raw == 32 * node_of(id) + command_of(id),
            Id::Extended(raw) => raw == 32 * node_of(id) + command_of(id),
        },
        match id {
            Id::Standard(raw) => raw_id(id) == raw,
            Id::Extended(raw) => raw_id(id) == raw,
        },
{
}

/// The address of a command is 32 times the node ID, cut off at 32 bits, plus the command.
pub proof fn law_address_is_node_times_32(node_id: u32, command: int)
    ensures
        address(node_id, command) == node_id * 32 % 4_294_967_296 + command,
        node_id < 0x800_0000 ==> address(node_id, command) == 32 * node_id + command,
{
}

/// Every consumer stands at its own position, from the first to the last, and none elsewhere.
pub proof fn law_consumers_stand_at_their_positions<C>(consumers: Seq<C>, i: int, c: C)
    ensures
        0 <= i < consumers.len() ==> is_at(consumers, i, consumers[i]),
        is_at(consumers, i, c) ==> 0 <= i < consumers.len() && consumers[i] == c,
{
}

} // verus!
