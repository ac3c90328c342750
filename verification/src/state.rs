//! The alarm's four states and their canonical text.

use vstd::prelude::*;
use vstd::string::*;

verus! {

/// The state of the alarm. Exactly one of these is current at any instant.
#[derive(Clone, Copy, PartialEq, Eq, Debug, Structural)]
pub enum AlarmState {
    /// No sensor raises the alarm.
    Disarmed,
    /// Armed while occupants are present.
    ArmedHome,
    /// Armed while nobody is expected inside.
    ArmedAway,
    /// The alarm has been raised.
    Alarm,
}

impl AlarmState {
    /// The canonical text of a state: lowercase, with underscores. It is the
    /// storage format and the body of a status reply, so it never changes.
    pub open spec fn canonical_text(self) -> Seq<char> {
        match self {
            AlarmState::Disarmed => "disarmed"@,
            AlarmState::ArmedHome => "armed_home"@,
            AlarmState::ArmedAway => "armed_away"@,
            AlarmState::Alarm => "alarm"@,
        }
    }

    /// The canonical text as bytes: one byte per character, since the text is
    /// ASCII.
    pub open spec fn canonical_bytes(self) -> Seq<u8> {
        self.canonical_text().map_values(|c: char| c as u8)
    }

    /// The state whose canonical bytes are exactly `bytes`, if there is one.
    pub open spec fn decode(bytes: Seq<u8>) -> Option<AlarmState> {
        if bytes == AlarmState::Disarmed.canonical_bytes() {
            Some(AlarmState::Disarmed)
        } else if bytes == AlarmState::ArmedHome.canonical_bytes() {
            Some(AlarmState::ArmedHome)
        } else if bytes == AlarmState::ArmedAway.canonical_bytes() {
            Some(AlarmState::ArmedAway)
        } else if bytes == AlarmState::Alarm.canonical_bytes() {
            Some(AlarmState::Alarm)
        } else {
            None
        }
    }

    /// The state whose canonical text is exactly `text`, if there is one.
    pub open spec fn parse(text: Seq<char>) -> Option<AlarmState> {
        if text == AlarmState::Disarmed.canonical_text() {
            Some(AlarmState::Disarmed)
        } else if text == AlarmState::ArmedHome.canonical_text() {
            Some(AlarmState::ArmedHome)
        } else if text == AlarmState::ArmedAway.canonical_text() {
            Some(AlarmState::ArmedAway)
        } else if text == AlarmState::Alarm.canonical_text() {
            Some(AlarmState::Alarm)
        } else {
            None
        }
    }

    /// Whether the alarm is armed, in either mode.
    pub open spec fn is_armed(self) -> bool {
        self == AlarmState::ArmedHome || self == AlarmState::ArmedAway
    }

    /// The canonical text of the state.
    pub fn as_str(&self) -> (text: &'static str)
        ensures
            text@ == self.canonical_text(),
            text.is_ascii(),
            text.spec_bytes() == self.canonical_bytes(),
    {
        let text = match self {
            AlarmState::Disarmed => "disarmed",
            AlarmState::ArmedHome => "armed_home",
            AlarmState::ArmedAway => "armed_away",
            AlarmState::Alarm => "alarm",
        };
        proof {
            lemma_canonical_text_is_ascii(*self);
            is_ascii_spec_bytes(text);
            assert(text.spec_bytes() =~= self.canonical_bytes());
        }
        text
    }

    /// The canonical text of the state, owned.
    pub fn to_string(&self) -> (text: String)
        ensures
            text@ == self.canonical_text(),
    {
        self.as_str().to_owned()
    }

    /// The canonical text of the state as bytes.
    pub fn to_bytes(&self) -> (bytes: Vec<u8>)
        ensures
            bytes@ == self.canonical_bytes(),
    {
        self.as_str().as_bytes_vec()
    }

    /// Reads a state back from its canonical bytes. Nothing is trimmed and
    /// nothing is matched loosely: any other input gives `None`.
    pub fn from_bytes(bytes: &[u8]) -> (parsed: Option<AlarmState>)
        ensures
            parsed == AlarmState::decode(bytes@),
            parsed matches Some(state) ==> bytes@ == state.canonical_bytes(),
            parsed is None ==> forall|state: AlarmState| bytes@ != state.canonical_bytes(),
    {
        if same_bytes(bytes, AlarmState::Disarmed.as_str().as_bytes()) {
            Some(AlarmState::Disarmed)
        } else if same_bytes(bytes, AlarmState::ArmedHome.as_str().as_bytes()) {
            Some(AlarmState::ArmedHome)
        } else if same_bytes(bytes, AlarmState::ArmedAway.as_str().as_bytes()) {
            Some(AlarmState::ArmedAway)
        } else if same_bytes(bytes, AlarmState::Alarm.as_str().as_bytes()) {
            Some(AlarmState::Alarm)
        } else {
            None
        }
    }

    /// Reads a state back from its canonical text. Nothing is trimmed and
    /// nothing is matched loosely: any other input gives `None`.
    pub fn from_text(text: &str) -> (parsed: Option<AlarmState>)
        ensures
            parsed == AlarmState::parse(text@),
            parsed matches Some(state) ==> text@ == state.canonical_text(),
            parsed is None ==> forall|state: AlarmState| text@ != state.canonical_text(),
    {
        proof {
            lemma_text_matches_as_bytes_do(text@, AlarmState::Disarmed);
            lemma_text_matches_as_bytes_do(text@, AlarmState::ArmedHome);
            lemma_text_matches_as_bytes_do(text@, AlarmState::ArmedAway);
            lemma_text_matches_as_bytes_do(text@, AlarmState::Alarm);
        }
        AlarmState::from_bytes(text.as_bytes())
    }
}

/// Whether two byte strings are equal, byte for byte.
fn same_bytes(left: &[u8], right: &[u8]) -> (equal: bool)
    ensures
        equal == (left@ == right@),
{
    if left.len() != right.len() {
        return false;
    }
    let mut index: usize = 0;
    while index < left.len()
        invariant
            left@.len() == right@.len(),
            index <= left@.len(),
            forall|k: int| 0 <= k < index ==> left@[k] == right@[k],
        decreases left@.len() - index,
    {
        if left[index] != right[index] {
            return false;
        }
        index += 1;
    }
    assert(left@ =~= right@);
    true
}

/// Every canonical text is ASCII, so its bytes are its characters.
pub proof fn lemma_canonical_text_is_ascii(state: AlarmState)
    ensures
        vstd::utf8::is_ascii_chars(state.canonical_text()),
        state.canonical_bytes().len() == state.canonical_text().len(),
{
    reveal_strlit("disarmed");
    reveal_strlit("armed_home");
    reveal_strlit("armed_away");
    reveal_strlit("alarm");
}

/// Distinct states have distinct canonical bytes, and distinct canonical text.
pub proof fn lemma_canonical_forms_distinct(first: AlarmState, second: AlarmState)
    ensures
        first.canonical_bytes() == second.canonical_bytes() ==> first == second,
        first.canonical_text() == second.canonical_text() ==> first == second,
{
    reveal_strlit("disarmed");
    reveal_strlit("armed_home");
    reveal_strlit("armed_away");
    reveal_strlit("alarm");
    if first != second {
        let a = first.canonical_bytes();
        let b = second.canonical_bytes();
        let s = first.canonical_text();
        let t = second.canonical_text();
        if a.len() == b.len() {
            assert(a[6] == s[6] as u8);
            assert(b[6] == t[6] as u8);
            assert(a[6] != b[6]);
            assert(s[6] != t[6]);
        } else {
            assert(s.len() != t.len());
        }
    }
}

/// Decoding is the exact inverse of the canonical bytes: a byte string decodes
/// to a state if and only if it is that state's canonical bytes.
pub proof fn lemma_decode_exact(bytes: Seq<u8>, state: AlarmState)
    ensures
        AlarmState::decode(bytes) == Some(state) <==> bytes == state.canonical_bytes(),
        AlarmState::decode(state.canonical_bytes()) == Some(state),
{
    lemma_canonical_forms_distinct(state, AlarmState::Disarmed);
    lemma_canonical_forms_distinct(state, AlarmState::ArmedHome);
    lemma_canonical_forms_distinct(state, AlarmState::ArmedAway);
    lemma_canonical_forms_distinct(state, AlarmState::Alarm);
}

/// A text is the canonical text of a state exactly when its UTF-8 encoding
/// is the canonical bytes of that state.
pub proof fn lemma_text_matches_as_bytes_do(text: Seq<char>, state: AlarmState)
    ensures
        vstd::utf8::encode_utf8(state.canonical_text()) == state.canonical_bytes(),
        vstd::utf8::encode_utf8(text) == state.canonical_bytes() <==> text
            == state.canonical_text(),
{
    let canonical = state.canonical_text();
    lemma_canonical_text_is_ascii(state);
    vstd::utf8::is_ascii_chars_encode_utf8(canonical);
    assert(vstd::utf8::encode_utf8(canonical) =~= state.canonical_bytes());
    vstd::utf8::encode_utf8_decode_utf8(canonical);
    vstd::utf8::encode_utf8_decode_utf8(text);
}

/// Parsing is the exact inverse of the canonical text: a text parses to a
/// state if and only if it is that state's canonical text.
pub proof fn lemma_parse_exact(text: Seq<char>, state: AlarmState)
    ensures
        AlarmState::parse(text) == Some(state) <==> text == state.canonical_text(),
        AlarmState::parse(state.canonical_text()) == Some(state),
{
    lemma_canonical_forms_distinct(state, AlarmState::Disarmed);
    lemma_canonical_forms_distinct(state, AlarmState::ArmedHome);
    lemma_canonical_forms_distinct(state, AlarmState::ArmedAway);
    lemma_canonical_forms_distinct(state, AlarmState::Alarm);
}

} // verus!
