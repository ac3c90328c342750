//! The persisted record: one text value, the canonical text of a state, that
//! makes up the whole of the stored file. Writing and reading the file is the
//! caller's part; what is written and how it is read back is decided here.

use vstd::prelude::*;
use crate::state::{lemma_decode_exact, AlarmState};

verus! {

/// What a stored record holds, if one could be read at all.
pub open spec fn record_view(record: Option<&[u8]>) -> Option<Seq<u8>> {
    match record {
        Some(bytes) => Some(bytes@),
        None => None,
    }
}

/// The state that a stored record stands for. A record that is missing or
/// unreadable, or that holds anything but the canonical bytes of a state,
/// stands for `Disarmed`: a doubtful record must never read as armed.
pub open spec fn loaded_state(record: Option<Seq<u8>>) -> AlarmState {
    match record {
        Some(bytes) => match AlarmState::decode(bytes) {
            Some(state) => state,
            None => AlarmState::Disarmed,
        },
        None => AlarmState::Disarmed,
    }
}

/// The record to store for `state`. It replaces the stored record wholesale.
pub fn persist_alarm_state(state: AlarmState) -> (record: Vec<u8>)
    ensures
        record@ == state.canonical_bytes(),
        loaded_state(Some(record@)) == state,
{
    proof {
        lemma_decode_exact(state.canonical_bytes(), state);
    }
    state.to_bytes()
}

/// The state to start from, given the stored record, or `None` where no
/// record could be read.
pub fn load_alarm_state(record: Option<&[u8]>) -> (state: AlarmState)
    ensures
        state == loaded_state(record_view(record)),
        record is None ==> state == AlarmState::Disarmed,
        forall|stored: AlarmState|
            record_view(record) == Some(stored.canonical_bytes()) ==> state == stored,
        (forall|stored: AlarmState| record_view(record) != Some(stored.canonical_bytes()))
            ==> state == AlarmState::Disarmed,
{
    proof {
        if let Some(bytes) = record {
            lemma_decode_exact(bytes@, AlarmState::Disarmed);
            lemma_decode_exact(bytes@, AlarmState::ArmedHome);
            lemma_decode_exact(bytes@, AlarmState::ArmedAway);
            lemma_decode_exact(bytes@, AlarmState::Alarm);
        }
    }
    match record {
        Some(bytes) => match AlarmState::from_bytes(bytes) {
            Some(state) => state,
            None => AlarmState::Disarmed,
        },
        None => AlarmState::Disarmed,
    }
}

/// Loading what was stored gives the stored state back, for every state.
pub proof fn lemma_load_inverts_persist(state: AlarmState)
    ensures
        loaded_state(Some(state.canonical_bytes())) == state,
{
    lemma_decode_exact(state.canonical_bytes(), state);
}

/// A record that is missing, or that is not the canonical bytes of any state,
/// loads as `Disarmed`.
pub proof fn lemma_load_defaults_to_disarmed(record: Option<Seq<u8>>)
    requires
        forall|state: AlarmState| record != Some(state.canonical_bytes()),
    ensures
        loaded_state(record) == AlarmState::Disarmed,
{
    if let Some(bytes) = record {
        assert(bytes != AlarmState::Disarmed.canonical_bytes());
        assert(bytes != AlarmState::ArmedHome.canonical_bytes());
        assert(bytes != AlarmState::ArmedAway.canonical_bytes());
        assert(bytes != AlarmState::Alarm.canonical_bytes());
    }
}

/// The only records that load as anything but `Disarmed` are the canonical
/// bytes of the three other states.
pub proof fn lemma_load_armed_only_from_canonical(record: Option<Seq<u8>>)
    ensures
        loaded_state(record) != AlarmState::Disarmed ==> record == Some(
            loaded_state(record).canonical_bytes(),
        ),
{
    if let Some(bytes) = record {
        lemma_decode_exact(bytes, loaded_state(record));
    }
}

} // verus!
