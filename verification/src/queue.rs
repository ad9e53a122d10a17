//! The single-slot mailbox of device commands: the latest command wins.

use crate::driver::DeviceCommand;
use crossbeam::queue::ArrayQueue;
use vstd::prelude::*;

verus! {

/// `crossbeam::queue::ArrayQueue`, a bounded queue. Nothing inside it is
/// visible here; what it holds is named by `queue_items`.
#[verifier::external_type_specification]
#[verifier::external_body]
#[verifier::reject_recursive_types(T)]
pub struct ExArrayQueue<T>(ArrayQueue<T>);

/// The commands waiting in a queue, the oldest first.
pub uninterp spec fn queue_items(queue: &ArrayQueue<DeviceCommand>) -> Seq<DeviceCommand>;

/// The capacity a queue was made with.
pub uninterp spec fn queue_capacity(queue: &ArrayQueue<DeviceCommand>) -> nat;

/// `ArrayQueue::new`: an empty queue of the given capacity. The outside
/// function panics on a capacity of zero and on one so large that the next
/// power of two above it overflows; the precondition excludes both.
#[verifier::external_body]
fn new_queue(capacity: usize) -> (queue: ArrayQueue<DeviceCommand>)
    requires
        0 < capacity < 0x8000_0000,
    ensures
        queue_items(&queue) == Seq::<DeviceCommand>::empty(),
        queue_capacity(&queue) == capacity,
{
    ArrayQueue::new(capacity)
}

/// `ArrayQueue::force_push`: puts the command at the back. Where the queue is
/// full, the oldest command leaves to make room and is returned; otherwise
/// nothing is returned.
#[verifier::external_body]
fn force_push(queue: &mut ArrayQueue<DeviceCommand>, command: DeviceCommand) -> (replaced: Option<
    DeviceCommand,
>)
    ensures
        queue_capacity(final(queue)) == queue_capacity(old(queue)),
        queue_items(old(queue)).len() < queue_capacity(old(queue)) ==> replaced is None
            && queue_items(final(queue)) == queue_items(old(queue)).push(command),
        queue_items(old(queue)).len() >= queue_capacity(old(queue)) ==> replaced == Some(
            queue_items(old(queue)).first(),
        ) && queue_items(final(queue)) == queue_items(old(queue)).drop_first().push(command),
    no_unwind
{
    queue.force_push(command)
}

/// `ArrayQueue::pop`: takes the oldest command out and returns it; `None`,
/// and no change, where the queue is empty.
#[verifier::external_body]
fn pop(queue: &mut ArrayQueue<DeviceCommand>) -> (front: Option<DeviceCommand>)
    ensures
        queue_capacity(final(queue)) == queue_capacity(old(queue)),
        queue_items(old(queue)).len() == 0 ==> front is None && queue_items(final(queue))
            == queue_items(old(queue)),
        queue_items(old(queue)).len() > 0 ==> front == Some(queue_items(old(queue)).first())
            && queue_items(final(queue)) == queue_items(old(queue)).drop_first(),
    no_unwind
{
    queue.pop()
}

/// The mailbox after a push: the new command, whatever was waiting.
pub open spec fn pushed(pending: Option<DeviceCommand>, command: DeviceCommand) -> Option<
    DeviceCommand,
> {
    Some(command)
}

/// The mailbox after a pop: empty.
pub open spec fn popped(pending: Option<DeviceCommand>) -> Option<DeviceCommand> {
    None
}

/// The mailbox between the render loop and the device loop. It holds at most
/// one command; a push replaces a command that was not taken yet.
pub struct CommandQueue {
    slot: ArrayQueue<DeviceCommand>,
}

impl View for CommandQueue {
    type V = Option<DeviceCommand>;

    /// The command waiting to be taken, if there is one.
    closed spec fn view(&self) -> Option<DeviceCommand> {
        if queue_items(&self.slot).len() == 0 {
            None
        } else {
            Some(queue_items(&self.slot).first())
        }
    }
}

impl CommandQueue {
    #[verifier::type_invariant]
    spec fn single_slot(self) -> bool {
        queue_capacity(&self.slot) == 1 && queue_items(&self.slot).len() <= 1
    }

    /// An empty mailbox.
    pub fn new() -> (queue: CommandQueue)
        ensures
            queue@ is None,
    {
        CommandQueue { slot: new_queue(1) }
    }

    /// Puts a command into the mailbox. This always succeeds; a command still
    /// waiting is discarded.
    pub fn push(&mut self, command: DeviceCommand)
        ensures
            final(self)@ == pushed(old(self)@, command),
    {
        proof {
            use_type_invariant(&*self);
        }
        let _ = force_push(&mut self.slot, command);
    }

    /// Takes the waiting command out of the mailbox, if there is one.
    pub fn pop(&mut self) -> (command: Option<DeviceCommand>)
        ensures
            command == old(self)@,
            final(self)@ == popped(old(self)@),
    {
        proof {
            use_type_invariant(&*self);
        }
        pop(&mut self.slot)
    }
}

/// A command pushed before the waiting one was taken replaces it: after two
/// pushes the mailbox holds the second command, and nothing once that is
/// taken.
pub proof fn lemma_latest_wins(
    pending: Option<DeviceCommand>,
    first: DeviceCommand,
    second: DeviceCommand,
)
    ensures
        pushed(pushed(pending, first), second) == Some(second),
        popped(pushed(pushed(pending, first), second)) is None,
{
}

} // verus!
