//! Finding the CAN interfaces of a machine.
use vstd::prelude::*;

use crate::device::{fresh_device, SocketCanDevice};
use crate::error::{HardwareError, HardwareResult};
use crate::hardware::{socket_can_info, HardwareInfo, InfoModel};

verus! {

/// Socket CAN device scanner
#[derive(Debug)]
pub struct SocketCanScanner {
    devices: Vec<HardwareInfo>,
}

/// What is known of each interface that was found.
impl View for SocketCanScanner {
    type V = Seq<InfoModel>;

    closed spec fn view(&self) -> Seq<InfoModel> {
        infos(self.devices@)
    }
}

/// A listing of the network interfaces: the path of each, where it could be read.
pub type Listing = Result<Vec<Result<String, std::io::Error>>, std::io::Error>;

/// The contents of `devices`.
pub open spec fn infos(devices: Seq<HardwareInfo>) -> Seq<InfoModel> {
    devices.map_values(|info: HardwareInfo| info@)
}

/// The last component of a path: what follows its last slash, or all of it if it has none.
pub open spec fn base_name(path: Seq<char>) -> Seq<char>
    decreases path.len(),
{
    if path.len() == 0 || path.last() == '/' {
        seq![]
    } else {
        base_name(path.drop_last()).push(path.last())
    }
}

/// `name` is that of a CAN interface: it has "can" in it.
pub open spec fn names_can(name: Seq<char>) -> bool {
    exists|i: int| #[trigger] can_at(name, i)
}

/// `name` has "can" at `i`.
pub open spec fn can_at(name: Seq<char>, i: int) -> bool {
    0 <= i && i + 3 <= name.len() && name[i] == 'c' && name[i + 1] == 'a' && name[i + 2] == 'n'
}

/// What is found in a listing: each CAN interface in it, in order. Entries that could not be read
/// are passed over.
pub open spec fn found(entries: Seq<Result<String, std::io::Error>>) -> Seq<InfoModel>
    decreases entries.len(),
{
    if entries.len() == 0 {
        seq![]
    } else {
        let before = found(entries.drop_last());
        match entries.last() {
            Ok(path) => if names_can(base_name(path@)) {
                before.push(socket_can_info(base_name(path@)))
            } else {
                before
            },
            Err(_) => before,
        }
    }
}

/// One of `devices` is called `name`.
pub open spec fn lists(devices: Seq<InfoModel>, name: Seq<char>) -> bool {
    exists|i: int| 0 <= i < devices.len() && (#[trigger] devices[i]).name == name
}

/// `result` is what opening number `idx` of `devices` gives: the device for it, with no channel
/// open, or an error if there is none.
pub open spec fn opens_by_index(
    devices: Seq<InfoModel>,
    idx: int,
    result: HardwareResult<SocketCanDevice>,
) -> bool {
    match result {
        Ok(device) => 0 <= idx < devices.len() && device@ == fresh_device(devices[idx].name),
        Err(e) => !(0 <= idx < devices.len()) && e == HardwareError::DeviceNotFound,
    }
}

/// `result` is what opening the one of `devices` that is called `name` gives: the device for it,
/// with no channel open, or an error if there is none.
pub open spec fn opens_by_name(
    devices: Seq<InfoModel>,
    name: Seq<char>,
    result: HardwareResult<SocketCanDevice>,
) -> bool {
    match result {
        Ok(device) => lists(devices, name) && device@ == fresh_device(name),
        Err(e) => !lists(devices, name) && e == HardwareError::DeviceNotFound,
    }
}

/// What follows `start` in `path` is its last component, if there is no slash in it and one, or
/// nothing, right before it.
pub proof fn base_name_is(path: Seq<char>, start: int)
    requires
        0 <= start <= path.len(),
        forall|i: int| start <= i < path.len() ==> path[i] != '/',
        start == 0 || path[start - 1] == '/',
    ensures
        base_name(path) == path.skip(start),
    decreases path.len(),
{
    if start < path.len() {
        base_name_is(path.drop_last(), start);
        assert(path.drop_last().skip(start).push(path.last()) =~= path.skip(start));
    } else {
        assert(path.skip(start) =~= seq![]);
    }
}

/// The last component of `path`.
fn take_base_name(path: &str) -> (name: String)
    ensures
        name@ == base_name(path@),
{
    let len: usize = path.unicode_len();
    let mut start: usize = len;
    while start > 0 && path.get_char(start - 1) != '/'
        invariant
            start <= len == path@.len(),
            forall|i: int| start <= i < len ==> path@[i] != '/',
        decreases start,
    {
        start = start - 1;
    }
    proof {
        base_name_is(path@, start as int);
    }
    let name = path.substring_char(start, len);
    assert(name@ =~= path@.skip(start as int));
    name.to_owned()
}

/// Whether `name` is that of a CAN interface.
fn is_can_name(name: &str) -> (is_can: bool)
    ensures
        is_can == names_can(name@),
{
    let len: usize = name.unicode_len();
    let mut i: usize = 0;
    while i < len && len - i >= 3
        invariant
            i <= len == name@.len(),
            forall|j: int| 0 <= j < i ==> !can_at(name@, j),
        decreases len - i,
    {
        if name.get_char(i) == 'c' && name.get_char(i + 1) == 'a' && name.get_char(i + 2) == 'n' {
            assert(can_at(name@, i as int));
            return true;
        }
        i = i + 1;
    }
    false
}

impl SocketCanScanner {
    /// A scanner that has found what `listing` shows: the entries whose name has "can" in it. A
    /// listing that could not be made shows nothing.
    pub fn new(listing: Listing) -> (scanner: Self)
        ensures
            scanner@ == match listing {
                Ok(entries) => found(entries@),
                Err(_) => seq![],
            },
    {
        let mut devices: Vec<HardwareInfo> = Vec::new();
        match listing {
            Ok(entries) => {
                let mut i: usize = 0;
                assert(entries@.take(0) =~= seq![]);
                assert(infos(devices@) =~= seq![]);
                while i < entries.len()
                    invariant
                        i <= entries@.len(),
                        infos(devices@) == found(entries@.take(i as int)),
                    decreases entries.len() - i,
                {
                    let ghost before = devices@;
                    assert(entries@.take(i + 1).drop_last() =~= entries@.take(i as int));
                    if let Ok(path) = &entries[i] {
                        let name = take_base_name(path.as_str());
                        if is_can_name(name.as_str()) {
                            let info = HardwareInfo::socket_can(name);
                            devices.push(info);
                            assert(infos(devices@) =~= infos(before).push(info@));
                        }
                    }
                    i = i + 1;
                }
                assert(entries@.take(i as int) =~= entries@);
            },
            Err(_) => {
                assert(infos(devices@) =~= seq![]);
            },
        }
        SocketCanScanner { devices }
    }

    /// The interfaces that were found.
    pub fn list_devices(&self) -> (list: Vec<HardwareInfo>)
        ensures
            infos(list@) == self@,
    {
        let mut list: Vec<HardwareInfo> = Vec::new();
        let mut i: usize = 0;
        while i < self.devices.len()
            invariant
                i <= self.devices@.len(),
                list@.len() == i,
                forall|j: int| 0 <= j < i ==> (#[trigger] list@[j])@ == self.devices@[j]@,
            decreases self.devices.len() - i,
        {
            list.push(self.devices[i].clone());
            i = i + 1;
        }
        assert(infos(list@) =~= infos(self.devices@));
        list
    }

    /// The device for the interface that was found as number `idx`.
    pub fn open_device_by_index(&self, idx: usize) -> (result: HardwareResult<SocketCanDevice>)
        ensures
            opens_by_index(self@, idx as int, result),
    {
        if idx < self.devices.len() {
            Ok(SocketCanDevice::new(self.devices[idx].name.clone()))
        } else {
            Err(HardwareError::DeviceNotFound)
        }
    }

    /// The device for the interface called `name`, if it was found.
    pub fn open_device_by_name(&self, name: &str) -> (result: HardwareResult<SocketCanDevice>)
        ensures
            opens_by_name(self@, name@, result),
    {
        let wanted: String = name.to_owned();
        let mut i: usize = 0;
        while i < self.devices.len()
            invariant
                i <= self.devices@.len(),
                wanted@ == name@,
                forall|j: int| 0 <= j < i ==> (#[trigger] self@[j]).name != name@,
            decreases self.devices.len() - i,
        {
            assert(self@[i as int] == self.devices@[i as int]@);
            if self.devices[i].name == wanted {
                return Ok(SocketCanDevice::new(self.devices[i].name.clone()));
            }
            i = i + 1;
        }
        Err(HardwareError::DeviceNotFound)
    }
}

/// Everything that is found is a CAN interface of the listing, described as SocketCAN describes
/// one, and every readable CAN interface of the listing is found.
pub proof fn found_exactly_can(entries: Seq<Result<String, std::io::Error>>)
    ensures
        found(entries).len() <= entries.len(),
        forall|i: int|
            0 <= i < found(entries).len() ==> {
                let info = #[trigger] found(entries)[i];
                info == socket_can_info(info.name) && names_can(info.name)
            },
        forall|name: Seq<char>| #[trigger]
            lists(found(entries), name) <==> shown(entries, name) && names_can(name),
    decreases entries.len(),
{
    if entries.len() > 0 {
        let shorter = entries.drop_last();
        found_exactly_can(shorter);
        let before = found(shorter);
        let all = found(entries);
        assert forall|name: Seq<char>| #[trigger] lists(all, name) <==> shown(entries, name)
            && names_can(name) by {
            if lists(all, name) {
                let i = choose|i: int| 0 <= i < all.len() && (#[trigger] all[i]).name == name;
                if i < before.len() {
                    assert(before[i].name == name);
                    assert(lists(before, name));
                    let k = choose|k: int| shows_at(shorter, k, name);
                    assert(shows_at(entries, k, name));
                } else {
                    assert(shows_at(entries, entries.len() - 1, name));
                }
            }
            if shown(entries, name) && names_can(name) {
                let k = choose|k: int| shows_at(entries, k, name);
                if k < shorter.len() {
                    assert(shows_at(shorter, k, name));
                    assert(lists(before, name));
                    let i = choose|i: int| 0 <= i < before.len() && (#[trigger] before[i]).name == name;
                    assert(all[i].name == name);
                } else {
                    assert(all[all.len() - 1].name == name);
                }
            }
        }
    }
}

/// Entry `k` could be read and is a path whose last component is `name`.
pub open spec fn shows_at(
    entries: Seq<Result<String, std::io::Error>>,
    k: int,
    name: Seq<char>,
) -> bool {
    0 <= k < entries.len() && (entries[k] matches Ok(path) && base_name(path@) == name)
}

/// Some entry could be read and is a path whose last component is `name`.
pub open spec fn shown(entries: Seq<Result<String, std::io::Error>>, name: Seq<char>) -> bool {
    exists|k: int| shows_at(entries, k, name)
}

/// Each interface that was found can be opened by its name as well as by its number, with the same
/// device either way.
pub proof fn index_and_name_agree(
    devices: Seq<InfoModel>,
    i: int,
    by_index: HardwareResult<SocketCanDevice>,
    by_name: HardwareResult<SocketCanDevice>,
)
    requires
        0 <= i < devices.len(),
        opens_by_index(devices, i, by_index),
        opens_by_name(devices, devices[i].name, by_name),
    ensures
        by_index matches Ok(device) && device@ == fresh_device(devices[i].name),
        by_name matches Ok(device) && device@ == fresh_device(devices[i].name),
{
    assert(lists(devices, devices[i].name));
}

/// The order of the listing is kept: what a longer listing shows first is what its beginning
/// shows.
pub proof fn found_keeps_order(entries: Seq<Result<String, std::io::Error>>, n: int)
    requires
        0 <= n <= entries.len(),
    ensures
        found(entries.take(n)).is_prefix_of(found(entries)),
    decreases entries.len(),
{
    if n == entries.len() {
        assert(entries.take(n) =~= entries);
    } else {
        found_keeps_order(entries.drop_last(), n);
        assert(entries.drop_last().take(n) =~= entries.take(n));
    }
}

} // verus!
