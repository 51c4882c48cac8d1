//! What holds of every step of the link state machine.

use crate::bt::device::{
    first_index_of, full_uuid, lemma_first_index_of, lemma_recognition_is_exact, recognised,
    shown_name, COMMAND_CHARACTERISTIC, UNKNOWN_NAME,
};
use crate::bt::frame::{byte_sum, encoded, fields, frame, header, lemma_checksum_closes, CmdData};
use crate::bt::link::{
    ended, next, notice_of, notice_rank, rank, state_of, Action, BtToGui, ConnectionState,
    Event, Fault, Link, Phase,
};
use vstd::prelude::*;

verus! {

/// A step keeps the machine well formed.
pub proof fn lemma_step_keeps_wf(link: Link, event: Event)
    requires
        link.wf(),
    ensures
        next(link, event).0.wf(),
{
    lemma_recognition_is_exact(UNKNOWN_NAME@);
}

/// The link only moves forward, and by one state at a time: no step takes it
/// back to an earlier state, and none skips one.
pub proof fn lemma_forward_only(link: Link, event: Event)
    ensures
        rank(state_of(link.phase)) <= rank(state_of(next(link, event).0.phase)) <= rank(
            state_of(link.phase),
        ) + 1,
{
}

/// A notification goes out exactly when the link enters one of the states
/// that the presentation side shows, and it names that state. `Init` is
/// never sent.
pub proof fn lemma_notice_marks_entry(link: Link, event: Event)
    ensures
        ({
            let before = state_of(link.phase);
            let after = state_of(next(link, event).0.phase);
            let action = next(link, event).1;
            &&& notice_of(action) is Some <==> rank(after) == rank(before) + 1 && rank(after) % 2
                == 1
            &&& notice_of(action) matches Some(notice) ==> rank(after) == 2 * notice_rank(notice)
                - 1
            &&& notice_of(action) != Some(BtToGui::Init)
        }),
{
}

/// A peripheral is taken as the headset only where its advertised name is
/// the target name, and a peripheral that advertises another name, or none,
/// never is.
pub proof fn lemma_only_target_is_adopted(link: Link, event: Event)
    ensures
        next(link, event).1 is Adopt <==> ({
            &&& link.phase is Reading
            &&& event matches Event::Advertised { local_name, .. }
            &&& recognised(shown_name(local_name)) is Some
        }),
        next(link, event).1 is Adopt ==> ({
            &&& event matches Event::Advertised { local_name: Some(name), .. }
            &&& recognised(name@) is Some
        }),
{
    lemma_recognition_is_exact(UNKNOWN_NAME@);
}

/// A write is asked for only with a command in hand and the headset
/// reported live, and while a write is out no other is asked for.
pub proof fn lemma_one_write_at_a_time(link: Link, event: Event)
    ensures
        next(link, event).1 is Write ==> link.phase is Probing && event == Event::LinkState(true)
            && next(link, event).0.phase is Writing,
        link.phase is Writing ==> !(next(link, event).1 is Write),
        link.phase is Writing && next(link, event).1 is NextCommand ==> event == Event::Written,
{
}

/// The frame that is written is the frame of the command in hand, and its
/// bytes sum to zero modulo 256.
pub proof fn lemma_written_frame(link: Link, event: Event)
    ensures
        next(link, event).1 matches Action::Write { characteristic, frame: bytes } ==> {
            &&& link.phase matches Phase::Probing { characteristic: resolved, data }
            &&& characteristic == resolved
            &&& bytes == encoded(data)
            &&& bytes@ == frame(data)
            &&& byte_sum(bytes@) % 256 == 0
        },
{
    if let Phase::Probing { data, .. } = link.phase {
        assert(encoded(data)@ =~= frame(data));
        lemma_checksum_closes(header() + fields(data));
    }
}

/// A command that finds the headset not live is dropped: nothing is
/// written, nothing fails, and the machine asks for the next command.
pub proof fn lemma_dropped_when_not_live(link: Link, characteristic: usize, data: CmdData)
    requires
        link.phase == (Phase::Probing { characteristic, data }),
    ensures
        next(link, Event::LinkState(false)).1 == Action::NextCommand,
        next(link, Event::LinkState(false)).0.phase == (Phase::Idle { characteristic }),
{
}

/// Without the command characteristic the machine gives up, and says why.
pub proof fn lemma_missing_characteristic_is_fatal(link: Link, uuids: Vec<u128>)
    requires
        link.phase is Resolving,
    ensures
        first_index_of(uuids@, full_uuid(COMMAND_CHARACTERISTIC)) is None ==> {
            &&& next(link, Event::Characteristics(uuids)).1 == Action::Abort(
                Fault::CharacteristicMissing,
            )
            &&& next(link, Event::Characteristics(uuids)).0.phase == (Phase::Stopped {
                fault: Fault::CharacteristicMissing,
                at: ConnectionState::DiscoveringServices,
            })
        },
        first_index_of(uuids@, full_uuid(COMMAND_CHARACTERISTIC)) matches Some(i) ==> {
            &&& next(link, Event::Characteristics(uuids)).1 == Action::Notify(BtToGui::Ready)
            &&& next(link, Event::Characteristics(uuids)).0.phase == (Phase::AnnouncingReady {
                characteristic: i as usize,
            })
            &&& 0 <= i < uuids@.len()
            &&& uuids@[i] == full_uuid(COMMAND_CHARACTERISTIC)
        },
{
    lemma_first_index_of(uuids@, full_uuid(COMMAND_CHARACTERISTIC));
}

/// Every position that an action names lies within the list that the
/// machine was told the length of: an adapter is below the number of
/// adapters, a peripheral below the number of peripherals listed.
pub proof fn lemma_positions_in_bounds(link: Link, event: Event)
    requires
        link.wf(),
    ensures
        match next(link, event).1 {
            Action::StartScan { adapter } => next(link, event).0.phase matches Phase::StartingScan {
                adapters,
                adapter: scanned,
            } && adapter == scanned && adapter < adapters,
            Action::ListPeripherals { adapter } => link.phase matches Phase::Dwelling {
                adapters,
                adapter: scanned,
            } && adapter == scanned && adapter < adapters,
            Action::ReadProperties { adapter, peripheral } => next(
                link,
                event,
            ).0.phase matches Phase::Reading { adapters, adapter: scanned, peripherals, peripheral: read }
                && adapter == scanned && peripheral == read && adapter < adapters && peripheral
                < peripherals,
            Action::Adopt { adapter, peripheral, .. } => link.phase matches Phase::Reading {
                adapters,
                adapter: scanned,
                peripherals,
                peripheral: read,
            } && adapter == scanned && peripheral == read && adapter < adapters && peripheral
                < peripherals,
            _ => true,
        },
{
    lemma_recognition_is_exact(UNKNOWN_NAME@);
}

/// A machine that has ended stays as it is, whatever is reported to it, and
/// keeps giving the same answer: nothing is tried again.
pub proof fn lemma_end_is_final(link: Link, event: Event)
    requires
        ended(link.phase),
    ensures
        next(link, event).0 == link,
        next(link, event).1 is Stop || next(link, event).1 is Abort,
        link.phase matches Phase::Stopped { fault, .. } ==> next(link, event).1 == Action::Abort(
            fault,
        ),
{
}

/// A connection attempt that fails is not fatal: the machine pauses and
/// looks again.
pub proof fn lemma_connect_failure_retries(link: Link)
    requires
        link.phase is Connecting,
    ensures
        next(link, Event::Failed).0.phase is ConnectBackoff,
        next(link, Event::Failed).1 is Wait,
        next(next(link, Event::Failed).0, Event::Elapsed).1 is CheckLink,
        next(next(link, Event::Failed).0, Event::Elapsed).0.phase is CheckingLink,
{
}

} // verus!
