//! The interface scan: which entries of a listing become devices, and how they are opened.
use vstd::prelude::*;

use crate::device::SocketCanDevice;
use crate::error::{HardwareError, HardwareResult};
use crate::hardware::HardwareInfo;
use crate::scanner::{
    base_name_is, can_at, found, found_exactly_can, infos, names_can, Listing, SocketCanScanner,
};

verus! {

/// A listing that could not be made, and one without entries, show no device.
pub proof fn nothing_listed_nothing_found(
    listing: Listing,
    scanner: SocketCanScanner,
    list: Vec<HardwareInfo>,
)
    requires
        call_ensures(SocketCanScanner::new, (listing,), scanner),
        call_ensures(SocketCanScanner::list_devices, (&scanner,), list),
        listing matches Ok(entries) ==> entries@.len() == 0,
    ensures
        list@.len() == 0,
{
    assert(infos(list@).len() == list@.len());
}

/// What one more entry at the end of a listing adds to the devices. What was found before is found
/// again, in the same order. An entry that could not be read adds nothing. A path adds one device
/// exactly if what follows its last slash has "can" in it somewhere, and that is the device's name.
pub proof fn one_more_entry(
    entries: Vec<Result<String, std::io::Error>>,
    longer: Vec<Result<String, std::io::Error>>,
    scanner: SocketCanScanner,
    longer_scanner: SocketCanScanner,
    list: Vec<HardwareInfo>,
    longer_list: Vec<HardwareInfo>,
    slash: int,
)
    requires
        call_ensures(SocketCanScanner::new, (Ok(entries),), scanner),
        call_ensures(SocketCanScanner::new, (Ok(longer),), longer_scanner),
        call_ensures(SocketCanScanner::list_devices, (&scanner,), list),
        call_ensures(SocketCanScanner::list_devices, (&longer_scanner,), longer_list),
        longer@.len() == entries@.len() + 1,
        forall|i: int| 0 <= i < entries@.len() ==> longer@[i] == entries@[i],
        longer@.last() matches Ok(path) ==> {
            &&& -1 <= slash < path@.len()
            &&& slash >= 0 ==> path@[slash] == '/'
            &&& forall|i: int| slash < i < path@.len() ==> path@[i] != '/'
        },
    ensures
        longer@.last() is Err ==> longer_list@.len() == list@.len(),
        longer@.last() matches Ok(path) ==> {
            let can = exists|i: int|
                #![trigger path@[i]]
                slash < i && i + 2 < path@.len() && path@[i] == 'c' && path@[i + 1] == 'a' && path@[i
                    + 2] == 'n';
            &&& !can ==> longer_list@.len() == list@.len()
            &&& can ==> longer_list@.len() == list@.len() + 1 && longer_list@.last().name@
                == path@.skip(slash + 1)
        },
        forall|j: int|
            0 <= j < list@.len() ==> (#[trigger] longer_list@[j]).name@ == list@[j].name@,
{
    assert(longer@.drop_last() =~= entries@);
    assert(infos(list@) == found(entries@));
    assert(infos(longer_list@) == found(longer@));
    assert(infos(list@).len() == list@.len());
    assert(infos(longer_list@).len() == longer_list@.len());
    assert forall|j: int| 0 <= j < list@.len() implies (#[trigger] longer_list@[j]).name@
        == list@[j].name@ by {
        assert(infos(longer_list@)[j] == longer_list@[j]@);
        assert(infos(list@)[j] == list@[j]@);
        assert(found(longer@)[j] == found(entries@)[j]);
    }
    if let Ok(path) = longer@.last() {
        let name = path@.skip(slash + 1);
        base_name_is(path@, slash + 1);
        if names_can(name) {
            let i = choose|i: int| #[trigger] can_at(name, i);
            assert(name[i] == path@[slash + 1 + i]);
            assert(name[i + 1] == path@[slash + 1 + i + 1]);
            assert(name[i + 2] == path@[slash + 1 + i + 2]);
            assert(infos(longer_list@).last() == longer_list@.last()@);
        }
        assert forall|i: int|
            #![trigger path@[i]]
            slash < i && i + 2 < path@.len() && path@[i] == 'c' && path@[i + 1] == 'a' && path@[i + 2]
                == 'n' implies names_can(name) by {
            assert(can_at(name, i - slash - 1));
        }
    }
}

/// Every device of the list is described as one that carries ISO-TP and raw CAN and nothing else,
/// with nothing more said of it.
pub proof fn listed_devices_are_described(
    listing: Listing,
    scanner: SocketCanScanner,
    list: Vec<HardwareInfo>,
    j: int,
)
    requires
        call_ensures(SocketCanScanner::new, (listing,), scanner),
        call_ensures(SocketCanScanner::list_devices, (&scanner,), list),
        0 <= j < list@.len(),
    ensures
        list@[j].vendor is None,
        list@[j].capabilities.iso_tp && list@[j].capabilities.can,
        !list@[j].capabilities.ip && !list@[j].capabilities.sae_j1850,
        !list@[j].capabilities.kline && !list@[j].capabilities.kline_kwp,
        !list@[j].capabilities.sci,
        list@[j].device_fw_version is None,
        list@[j].api_version is None,
        list@[j].library_version is None,
        list@[j].library_location is None,
{
    assert(infos(list@).len() == list@.len());
    assert(infos(list@)[j] == list@[j]@);
    if let Ok(entries) = listing {
        found_exactly_can(entries@);
        assert(found(entries@)[j] == infos(list@)[j]);
    }
}

/// A device is opened by its number in the list: it has the name that stands there and no channel
/// open. A number beyond the list gives no device.
pub proof fn numbers_are_places_in_the_list(
    scanner: SocketCanScanner,
    list: Vec<HardwareInfo>,
    idx: usize,
    result: HardwareResult<SocketCanDevice>,
    info: &HardwareInfo,
    isotp_open: bool,
    can_open: bool,
)
    requires
        call_ensures(SocketCanScanner::list_devices, (&scanner,), list),
        call_ensures(SocketCanScanner::open_device_by_index, (&scanner, idx), result),
        result matches Ok(device) ==> {
            &&& call_ensures(SocketCanDevice::get_info, (&device,), info)
            &&& call_ensures(SocketCanDevice::is_iso_tp_channel_open, (&device,), isotp_open)
            &&& call_ensures(SocketCanDevice::is_can_channel_open, (&device,), can_open)
        },
    ensures
        idx < list@.len() ==> result is Ok && info.name@ == list@[idx as int].name@ && !isotp_open
            && !can_open,
        idx >= list@.len() ==> result == HardwareResult::<SocketCanDevice>::Err(
            HardwareError::DeviceNotFound,
        ),
{
    assert(infos(list@).len() == list@.len());
    if idx < list@.len() {
        assert(infos(list@)[idx as int] == list@[idx as int]@);
        assert(info@.name == list@[idx as int].name@);
    }
}

/// A device is opened by its name exactly if the list has that name: it is called so and has no
/// channel open. A name that is not in the list gives no device.
pub proof fn names_are_those_in_the_list(
    scanner: SocketCanScanner,
    list: Vec<HardwareInfo>,
    name: &str,
    result: HardwareResult<SocketCanDevice>,
    info: &HardwareInfo,
    isotp_open: bool,
    can_open: bool,
)
    requires
        call_ensures(SocketCanScanner::list_devices, (&scanner,), list),
        call_ensures(SocketCanScanner::open_device_by_name, (&scanner, name), result),
        result matches Ok(device) ==> {
            &&& call_ensures(SocketCanDevice::get_info, (&device,), info)
            &&& call_ensures(SocketCanDevice::is_iso_tp_channel_open, (&device,), isotp_open)
            &&& call_ensures(SocketCanDevice::is_can_channel_open, (&device,), can_open)
        },
    ensures
        (exists|j: int| 0 <= j < list@.len() && (#[trigger] list@[j]).name@ == name@) ==> result
            is Ok && info.name@ == name@ && !isotp_open && !can_open,
        (forall|j: int| 0 <= j < list@.len() ==> (#[trigger] list@[j]).name@ != name@) ==> result
            == HardwareResult::<SocketCanDevice>::Err(HardwareError::DeviceNotFound),
{
    assert(infos(list@).len() == list@.len());
    assert forall|j: int| 0 <= j < list@.len() implies (#[trigger] list@[j]).name@ == infos(
        list@,
    )[j].name by {}
    if result is Ok {
        let j = choose|j: int|
            0 <= j < infos(list@).len() && (#[trigger] infos(list@)[j]).name == name@;
        assert(list@[j].name@ == name@);
        assert(info@.name == name@);
    } else {
        assert forall|j: int| 0 <= j < list@.len() implies (#[trigger] list@[j]).name@ != name@ by {
            assert(scanner@[j] == infos(list@)[j]);
        }
    }
}

} // verus!
