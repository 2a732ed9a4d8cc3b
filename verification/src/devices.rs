//! The device directory's pure half: assembling the enumerated endpoints
//! into the directory entries the caller sees, and resolving a requested
//! device id against them. Reading the OS device collection happens outside
//! the library; it hands in one raw entry per endpoint.

use vstd::prelude::*;

use crate::text::{decimal_digits, str_eq, usize_to_string};

verus! {

/// The direction of an audio endpoint: `Capture` endpoints record,
/// `Render` endpoints play. Speaker capture locates its device among the
/// render endpoints but initializes the client in loopback capture mode.
#[derive(Clone, Copy)]
pub enum Direction {
    Capture,
    Render,
}

/// One entry of the device directory. Identity is the opaque `id`; the
/// display name is advisory only.
pub struct AudioDevice {
    pub id: String,
    pub name: String,
    pub is_default: bool,
}

/// What enumeration could read of one endpoint: either field is absent when
/// the OS refused it, and a placeholder is synthesized instead.
pub struct RawDeviceEntry {
    pub id: Option<String>,
    pub name: Option<String>,
}

/// The device collection could not be opened at all. Partial enumeration is
/// preferred over total failure, so an unreadable single endpoint never
/// raises this.
pub enum EnumerationError {
    CollectionUnavailable,
}

/// The placeholder display name for the endpoint at `i` when the OS gives
/// no readable friendly name.
pub open spec fn placeholder_name(direction: Direction, i: int) -> Seq<char> {
    match direction {
        Direction::Capture => "Microphone "@ + decimal_digits(i),
        Direction::Render => "Speaker "@ + decimal_digits(i),
    }
}

/// The synthesized id for the endpoint at `i` when the OS gives none.
pub open spec fn synthesized_id(direction: Direction, i: int) -> Seq<char> {
    match direction {
        Direction::Capture => "windows_input_"@ + decimal_digits(i),
        Direction::Render => "windows_output_"@ + decimal_digits(i),
    }
}

/// The display name the directory shows for `entry` at position `i`.
pub open spec fn entry_name(entry: RawDeviceEntry, direction: Direction, i: int) -> Seq<char> {
    match entry.name {
        Some(name) => name@,
        None => placeholder_name(direction, i),
    }
}

/// The id the directory shows for `entry` at position `i`.
pub open spec fn entry_id(entry: RawDeviceEntry, direction: Direction, i: int) -> Seq<char> {
    match entry.id {
        Some(id) => id@,
        None => synthesized_id(direction, i),
    }
}

/// Whether the directory marks `entry` at position `i` as the default:
/// its shown id equals the default endpoint's id, when one is known.
pub open spec fn entry_is_default(
    entry: RawDeviceEntry,
    direction: Direction,
    i: int,
    default_id: Option<String>,
) -> bool {
    match default_id {
        Some(default) => default@ == entry_id(entry, direction, i),
        None => false,
    }
}

fn prefixed_index_string(prefix: &str, i: usize) -> (r: String)
    ensures
        r@ == prefix@ + decimal_digits(i as int),
{
    let mut r = String::from_str(prefix);
    let digits = usize_to_string(i);
    r.append(digits.as_str());
    r
}

/// Builds the device directory from the raw enumeration: every entry
/// lacking a readable name or id gets a synthesized placeholder rather than
/// failing the whole enumeration, and the entry whose id equals
/// `default_id` is marked as the default.
pub fn assemble_devices(
    entries: &Vec<RawDeviceEntry>,
    default_id: &Option<String>,
    direction: Direction,
) -> (devices: Vec<AudioDevice>)
    ensures
        devices@.len() == entries@.len(),
        forall|i: int|
            0 <= i < entries@.len() ==> {
                &&& devices@[i].name@ == entry_name(entries@[i], direction, i)
                &&& devices@[i].id@ == entry_id(entries@[i], direction, i)
                &&& devices@[i].is_default == entry_is_default(
                    entries@[i],
                    direction,
                    i,
                    *default_id,
                )
            },
{
    let n = entries.len();
    let mut devices: Vec<AudioDevice> = Vec::new();
    let mut i: usize = 0;
    while i < n
        invariant
            n == entries@.len(),
            i <= n,
            devices@.len() == i,
            forall|j: int|
                0 <= j < i ==> {
                    &&& devices@[j].name@ == entry_name(entries@[j], direction, j)
                    &&& devices@[j].id@ == entry_id(entries@[j], direction, j)
                    &&& devices@[j].is_default == entry_is_default(
                        entries@[j],
                        direction,
                        j,
                        *default_id,
                    )
                },
        decreases n - i,
    {
        let name = match &entries[i].name {
            Some(given) => given.clone(),
            None => match direction {
                Direction::Capture => prefixed_index_string("Microphone ", i),
                Direction::Render => prefixed_index_string("Speaker ", i),
            },
        };
        let id = match &entries[i].id {
            Some(given) => given.clone(),
            None => match direction {
                Direction::Capture => prefixed_index_string("windows_input_", i),
                Direction::Render => prefixed_index_string("windows_output_", i),
            },
        };
        let is_default = match default_id {
            Some(default) => str_eq(default.as_str(), id.as_str()),
            None => false,
        };
        devices.push(AudioDevice { id, name, is_default });
        i = i + 1;
    }
    devices
}

/// Whether `entry` carries exactly the id `target`.
pub open spec fn id_matches(entry: RawDeviceEntry, target: Seq<char>) -> bool {
    entry.id matches Some(id) && id@ == target
}

/// Whether any enumerated entry carries the id `target`.
pub open spec fn some_id_matches(entries: Seq<RawDeviceEntry>, target: Seq<char>) -> bool {
    exists|i: int| 0 <= i < entries.len() && id_matches(entries[i], target)
}

/// The position of the first enumerated entry whose id is exactly `target`.
pub fn find_device_index_by_id(entries: &Vec<RawDeviceEntry>, target: &str) -> (r: Option<usize>)
    ensures
        r matches Some(i) ==> i < entries@.len() && id_matches(entries@[i as int], target@) && (
        forall|j: int| 0 <= j < i ==> !id_matches(entries@[j], target@)),
        r is None ==> !some_id_matches(entries@, target@),
{
    let n = entries.len();
    let mut i: usize = 0;
    while i < n
        invariant
            n == entries@.len(),
            i <= n,
            forall|j: int| 0 <= j < i ==> !id_matches(entries@[j], target@),
        decreases n - i,
    {
        match &entries[i].id {
            Some(id) => {
                if str_eq(id.as_str(), target) {
                    return Some(i);
                }
            },
            None => {},
        }
        i = i + 1;
    }
    None
}

/// How a requested device resolves against the enumerated endpoints.
pub enum DeviceChoice {
    /// Open the enumerated entry at this position.
    ByIndex(usize),
    /// Open the system default endpoint.
    SystemDefault,
}

/// Resolves the requested device: no request means the system default; a
/// requested id is matched exactly against the enumerated entries, and a
/// disappeared or stale id degrades gracefully to the system default
/// instead of erroring.
pub fn resolve_device(entries: &Vec<RawDeviceEntry>, requested: &Option<String>) -> (choice:
    DeviceChoice)
    ensures
        requested is None ==> choice == DeviceChoice::SystemDefault,
        requested matches Some(id) ==> {
            &&& some_id_matches(entries@, id@) ==> (choice matches DeviceChoice::ByIndex(i) && i
                < entries@.len() && id_matches(entries@[i as int], id@) && (forall|j: int|
                0 <= j < i ==> !id_matches(entries@[j], id@)))
            &&& !some_id_matches(entries@, id@) ==> choice == DeviceChoice::SystemDefault
        },
{
    match requested {
        None => DeviceChoice::SystemDefault,
        Some(id) => match find_device_index_by_id(entries, id.as_str()) {
            Some(i) => DeviceChoice::ByIndex(i),
            None => DeviceChoice::SystemDefault,
        },
    }
}

} // verus!
