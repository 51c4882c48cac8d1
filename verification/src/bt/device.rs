//! Which peripheral is the headset, and where on it commands are written.

use vstd::prelude::*;

verus! {

/// The advertised name that marks a peripheral as the headset.
pub const TARGET_NAME: &'static str = "YOWU-SELKIRK-4";

/// Stands in for the name of a peripheral that advertises none.
pub const UNKNOWN_NAME: &'static str = "name unknown";

/// Short form of the UUID of the characteristic that takes command frames.
pub const COMMAND_CHARACTERISTIC: u16 = 0x2A06;

/// The Bluetooth base UUID, into which short UUIDs are placed.
pub const BASE_UUID: u128 = 0x0000_0000_0000_1000_8000_0080_5F9B_34FB;

/// Weight of a short UUID within the full one: two to the power 96.
pub const SHORT_UUID_WEIGHT: u128 = 0x1_0000_0000_0000_0000_0000_0000;

/// The kinds of headset this crate knows how to drive.
#[derive(Clone, Copy, Debug, PartialEq, Eq)]
pub enum HeadsetType {
    YowuSelkirk4,
}

/// What is known of one peripheral seen in a scan. The hardware address is
/// its identity.
#[derive(Debug, PartialEq, Eq)]
pub struct BtInfo {
    pub name: String,
    pub is_connected: bool,
    pub address: [u8; 6],
}

impl HeadsetType {
    /// The name shown to the user, as a sequence of characters.
    pub open spec fn spec_name(self) -> Seq<char> {
        match self {
            HeadsetType::YowuSelkirk4 => "Yowu Selkirk 4"@,
        }
    }

    /// The advertised name of headsets of this kind.
    pub open spec fn spec_advertised(self) -> Seq<char> {
        match self {
            HeadsetType::YowuSelkirk4 => TARGET_NAME@,
        }
    }

    /// The name shown to the user.
    pub fn name(&self) -> (s: String)
        ensures
            s@ == self.spec_name(),
    {
        match self {
            HeadsetType::YowuSelkirk4 => "Yowu Selkirk 4".to_string(),
        }
    }
}

/// The name under which a peripheral is compared and listed: its advertised
/// name, or the placeholder when it advertises none.
pub open spec fn shown_name(local_name: Option<String>) -> Seq<char> {
    match local_name {
        Some(s) => s@,
        None => UNKNOWN_NAME@,
    }
}

/// The kind of headset that advertises `name`, if any. The comparison is
/// exact: every character counts, and so does its case.
pub open spec fn recognised(name: Seq<char>) -> Option<HeadsetType> {
    if name == TARGET_NAME@ {
        Some(HeadsetType::YowuSelkirk4)
    } else {
        None
    }
}

/// The full UUID that a 16-bit short UUID stands for.
pub open spec fn full_uuid(short: u16) -> u128 {
    (BASE_UUID + short * SHORT_UUID_WEIGHT) as u128
}

/// Position of the first entry of `uuids` equal to `wanted`, if there is one.
pub open spec fn first_index_of(uuids: Seq<u128>, wanted: u128) -> Option<int>
    decreases uuids.len(),
{
    if uuids.len() == 0 {
        None
    } else if uuids[0] == wanted {
        Some(0)
    } else {
        match first_index_of(uuids.drop_first(), wanted) {
            Some(i) => Some(i + 1),
            None => None,
        }
    }
}

/// The target name, character by character.
pub proof fn lemma_target_name()
    ensures
        TARGET_NAME@ == seq![
            'Y', 'O', 'W', 'U', '-', 'S', 'E', 'L', 'K', 'I', 'R', 'K', '-', '4',
        ],
{
    reveal_strlit("YOWU-SELKIRK-4");
    assert(TARGET_NAME@ =~= seq![
        'Y', 'O', 'W', 'U', '-', 'S', 'E', 'L', 'K', 'I', 'R', 'K', '-', '4',
    ]);
}

/// A name is recognised only if it is the target name itself: a name of
/// another length, or one that differs in any character, is not.
pub proof fn lemma_recognition_is_exact(name: Seq<char>)
    ensures
        recognised(name) is Some <==> name == TARGET_NAME@,
        recognised(name) is Some ==> name.len() == 14,
        forall|i: int|
            0 <= i < 14 && recognised(name) is Some ==> name[i] == #[trigger] TARGET_NAME@[i],
        recognised(UNKNOWN_NAME@) is None,
{
    lemma_target_name();
    reveal_strlit("name unknown");
}

/// What `first_index_of` finds is the first match, and it finds nothing only
/// where nothing matches.
pub proof fn lemma_first_index_of(uuids: Seq<u128>, wanted: u128)
    ensures
        match first_index_of(uuids, wanted) {
            Some(i) => 0 <= i < uuids.len() && uuids[i] == wanted && forall|j: int|
                0 <= j < i ==> uuids[j] != wanted,
            None => forall|j: int| 0 <= j < uuids.len() ==> uuids[j] != wanted,
        },
    decreases uuids.len(),
{
    if uuids.len() > 0 && uuids[0] != wanted {
        let rest = uuids.drop_first();
        lemma_first_index_of(rest, wanted);
        match first_index_of(rest, wanted) {
            Some(i) => {
                assert forall|j: int| 0 <= j < i + 1 implies uuids[j] != wanted by {
                    if j > 0 {
                        assert(uuids[j] == rest[j - 1]);
                    }
                }
            },
            None => {
                assert forall|j: int| 0 <= j < uuids.len() implies uuids[j] != wanted by {
                    if j > 0 {
                        assert(uuids[j] == rest[j - 1]);
                    }
                }
            },
        }
    }
}

/// The name under which a peripheral is compared and listed.
pub fn display_name(local_name: Option<String>) -> (name: String)
    ensures
        name@ == shown_name(local_name),
        local_name matches Some(s) ==> name == s,
{
    match local_name {
        Some(s) => s,
        None => UNKNOWN_NAME.to_string(),
    }
}

/// Tells which kind of headset advertises `name`, if any.
pub fn identify(name: &str) -> (kind: Option<HeadsetType>)
    ensures
        kind == recognised(name@),
{
    let given = name.to_owned();
    let target = TARGET_NAME.to_owned();
    if given == target {
        Some(HeadsetType::YowuSelkirk4)
    } else {
        None
    }
}

/// Expands a 16-bit short UUID to the full 128-bit UUID by placing it in the
/// Bluetooth base UUID.
pub fn uuid_from_u16(short: u16) -> (uuid: u128)
    ensures
        uuid == full_uuid(short),
        uuid == BASE_UUID + short * SHORT_UUID_WEIGHT,
{
    BASE_UUID + (short as u128) * SHORT_UUID_WEIGHT
}

/// Finds the first characteristic whose UUID is `wanted`.
pub fn find_characteristic(uuids: &Vec<u128>, wanted: u128) -> (found: Option<usize>)
    ensures
        match found {
            Some(i) => first_index_of(uuids@, wanted) == Some(i as int),
            None => first_index_of(uuids@, wanted) is None,
        },
{
    let mut i: usize = 0;
    while i < uuids.len()
        invariant
            i <= uuids.len(),
            forall|j: int| 0 <= j < i ==> uuids@[j] != wanted,
        decreases uuids.len() - i,
    {
        if uuids[i] == wanted {
            proof {
                lemma_first_index_of(uuids@, wanted);
            }
            return Some(i);
        }
        i += 1;
    }
    proof {
        lemma_first_index_of(uuids@, wanted);
    }
    None
}

} // verus!
