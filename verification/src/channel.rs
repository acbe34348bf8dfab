use vstd::prelude::*;

use crate::playback::PlaybackCommand;

verus! {

#[verifier::external_type_specification]
#[verifier::external_body]
#[verifier::reject_recursive_types(T)]
/// The sending half of a crossbeam channel, carried opaquely.
pub struct ExSender<T>(crossbeam_channel::Sender<T>);

#[verifier::external_type_specification]
#[verifier::external_body]
#[verifier::reject_recursive_types(T)]
/// The receiving half of a crossbeam channel, carried opaquely.
pub struct ExReceiver<T>(crossbeam_channel::Receiver<T>);

/// Relies on crossbeam_channel::unbounded: creates a channel of
/// unbounded capacity, returning its sending and receiving halves.
///
/// Nothing is assumed of the channel's contents: another thread may
/// hold a clone of either half.
#[verifier::external_body]
pub(crate) fn channel_unbounded<T>() -> (crossbeam_channel::Sender<T>, crossbeam_channel::Receiver<
    T,
>) {
    crossbeam_channel::unbounded()
}

/// The commands this sender has handed to the channel through
/// [`send_command`] since its creation, in order. A property of this
/// handle alone: only successful sends through it extend the sequence,
/// whatever the receiving side does.
pub uninterp spec fn commands_sent(sender: &crossbeam_channel::Sender<PlaybackCommand>) -> Seq<
    PlaybackCommand,
>;

/// Relies on crossbeam_channel::Sender::send: enqueues the command
/// unless all receivers have been dropped; never blocks or panics.
/// Returns whether the command was enqueued; on success the command is
/// appended to this sender's history. Whether the receivers still
/// exist is outside this code's control, so nothing is assumed about
/// which outcome occurs.
#[verifier::external_body]
pub(crate) fn send_command(
    sender: &mut crossbeam_channel::Sender<PlaybackCommand>,
    command: PlaybackCommand,
) -> (sent: bool)
    ensures
        sent ==> commands_sent(final(sender)) == commands_sent(old(sender)).push(command),
        !sent ==> commands_sent(final(sender)) == commands_sent(old(sender)),
{
    sender.send(command).is_ok()
}

/// Relies on crossbeam_channel::Receiver::try_recv: dequeues a pending
/// message without blocking, or returns nothing when the channel is
/// empty or disconnected. Nothing is assumed of which message arrives:
/// senders on other threads decide.
#[verifier::external_body]
pub(crate) fn channel_try_recv<T>(receiver: &crossbeam_channel::Receiver<T>) -> Option<T> {
    receiver.try_recv().ok()
}

/// Drains pending messages from a channel without blocking, in arrival
/// order, up to `max_messages` of them. The host polls event channels
/// with this; the bound keeps one poll from looping while another
/// thread keeps sending.
pub fn channel_drain<T>(receiver: &crossbeam_channel::Receiver<T>, max_messages: usize) -> (r: Vec<
    T,
>)
    ensures
        r@.len() <= max_messages,
{
    let mut out: Vec<T> = Vec::new();
    let mut i: usize = 0;
    while i < max_messages
        invariant
            i <= max_messages,
            out@.len() <= i,
        decreases max_messages - i,
    {
        match channel_try_recv(receiver) {
            Some(message) => out.push(message),
            None => {
                return out;
            },
        }
        i += 1;
    }
    out
}

} // verus!
