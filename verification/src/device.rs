//! Devices as the USB multiplexer lists them, and the choice of the one to
//! work on.
use vstd::prelude::*;
use crate::text::{optional_str, same, texts};

verus! {

/// How a device is connected.
#[derive(Clone, Copy, Debug, PartialEq, Eq, Structural)]
pub enum Link {
    Usb,
    Network,
    Unknown,
}

/// A device of the multiplexer's list.
#[derive(Debug, PartialEq, Eq)]
pub struct Device {
    pub udid: String,
    pub device_id: u32,
    pub link: Link,
}

/// The model of a device.
#[verifier::ext_equal]
pub struct DeviceView {
    pub udid: Seq<char>,
    pub device_id: u32,
    pub link: Link,
}

impl View for Device {
    type V = DeviceView;

    open spec fn view(&self) -> DeviceView {
        DeviceView { udid: self.udid@, device_id: self.device_id, link: self.link }
    }
}

/// The models of a list of devices.
pub open spec fn devices_view(v: Seq<Device>) -> Seq<DeviceView> {
    v.map_values(|d: Device| d@)
}

/// The devices connected by USB, in the order of the list.
pub open spec fn usb_only(devices: Seq<DeviceView>) -> Seq<DeviceView> {
    devices.filter(|d: DeviceView| d.link == Link::Usb)
}

/// The devices with the given UDID, in the order of the list.
pub open spec fn having_udid(devices: Seq<DeviceView>, udid: Seq<char>) -> Seq<DeviceView> {
    devices.filter(|d: DeviceView| d.udid == udid)
}

/// The devices that a request admits: those with the requested UDID, or all of
/// them where none is requested.
pub open spec fn admitted(devices: Seq<DeviceView>, requested: Option<Seq<char>>) -> Seq<DeviceView> {
    match requested {
        Some(udid) => having_udid(devices, udid),
        None => devices,
    }
}

impl Device {
    /// A copy of the device.
    pub fn copy(&self) -> (r: Device)
        ensures
            r@ == self@,
    {
        Device { udid: self.udid.clone(), device_id: self.device_id, link: self.link }
    }
}

proof fn lemma_take_push(devices: Seq<Device>, i: int)
    requires
        0 <= i < devices.len(),
    ensures
        devices_view(devices.take(i + 1)).drop_last() == devices_view(devices.take(i)),
        devices_view(devices.take(i + 1)).last() == devices[i]@,
{
    assert(devices_view(devices.take(i + 1)).drop_last() =~= devices_view(devices.take(i)));
}

/// The devices connected by USB, in the order of the list.
pub fn usb_devices(devices: &Vec<Device>) -> (r: Vec<Device>)
    ensures
        devices_view(r@) == usb_only(devices_view(devices@)),
{
    let mut out: Vec<Device> = Vec::new();
    proof {
        reveal(Seq::filter);
        assert(devices_view(out@) =~= usb_only(devices_view(devices@.take(0))));
    }
    for i in 0..devices.len()
        invariant
            devices_view(out@) == usb_only(devices_view(devices@.take(i as int))),
    {
        let ghost before = out@;
        if devices[i].link == Link::Usb {
            out.push(devices[i].copy());
            assert(devices_view(out@) =~= devices_view(before).push(devices@[i as int]@));
        }
        proof {
            reveal(Seq::filter);
            lemma_take_push(devices@, i as int);
        }
    }
    assert(devices@.take(devices@.len() as int) =~= devices@);
    out
}

/// The devices that the request admits, in the order of the list.
pub fn admitted_devices(devices: &Vec<Device>, requested: Option<&str>) -> (r: Vec<Device>)
    ensures
        devices_view(r@) == admitted(devices_view(devices@), optional_str(requested)),
{
    let mut out: Vec<Device> = Vec::new();
    proof {
        reveal(Seq::filter);
        assert(devices_view(out@) =~= admitted(
            devices_view(devices@.take(0)),
            optional_str(requested),
        ));
    }
    for i in 0..devices.len()
        invariant
            devices_view(out@) == admitted(
                devices_view(devices@.take(i as int)),
                optional_str(requested),
            ),
    {
        let ghost before = out@;
        let keep = match requested {
            Some(udid) => same(devices[i].udid.as_str(), udid),
            None => true,
        };
        if keep {
            out.push(devices[i].copy());
            assert(devices_view(out@) =~= devices_view(before).push(devices@[i as int]@));
        }
        proof {
            reveal(Seq::filter);
            lemma_take_push(devices@, i as int);
            let shown = devices_view(devices@.take(i + 1));
            assert(shown =~= shown.drop_last().push(shown.last()));
        }
    }
    assert(devices@.take(devices@.len() as int) =~= devices@);
    out
}

/// The outcome of choosing a device from one list.
#[derive(Debug, PartialEq, Eq)]
pub enum Choice {
    /// This device.
    Chosen(Device),
    /// No USB device, or none with the requested UDID.
    NotFound,
    /// Several USB devices, with these UDIDs, and none requested.
    Ambiguous(Vec<String>),
}

/// The model of a choice.
#[verifier::ext_equal]
pub enum ChoiceView {
    Chosen(DeviceView),
    NotFound,
    Ambiguous(Seq<Seq<char>>),
}

impl View for Choice {
    type V = ChoiceView;

    open spec fn view(&self) -> ChoiceView {
        match self {
            Choice::Chosen(d) => ChoiceView::Chosen(d@),
            Choice::NotFound => ChoiceView::NotFound,
            Choice::Ambiguous(udids) => ChoiceView::Ambiguous(texts(udids@)),
        }
    }
}

/// The choice among the devices of a list: the first USB device with the
/// requested UDID, or the only USB device where none is requested.
pub open spec fn choice(requested: Option<Seq<char>>, devices: Seq<DeviceView>) -> ChoiceView {
    let usb = usb_only(devices);
    let found = admitted(usb, requested);
    if found.len() == 0 {
        ChoiceView::NotFound
    } else if found.len() == 1 || requested is Some {
        ChoiceView::Chosen(found[0])
    } else {
        ChoiceView::Ambiguous(usb.map_values(|d: DeviceView| d.udid))
    }
}

/// Chooses the device to pair with from one list.
pub fn choose_usb_device(requested: Option<&str>, devices: &Vec<Device>) -> (r: Choice)
    ensures
        r@ == choice(optional_str(requested), devices_view(devices@)),
{
    let usb = usb_devices(devices);
    let found = admitted_devices(&usb, requested);
    assert(devices_view(found@).len() == found@.len());
    if found.len() == 0 {
        return Choice::NotFound;
    }
    if found.len() == 1 || requested.is_some() {
        return Choice::Chosen(found[0].copy());
    }
    let mut udids: Vec<String> = Vec::new();
    for i in 0..usb.len()
        invariant
            udids@.len() == i,
            forall|k: int| 0 <= k < i ==> #[trigger] udids@[k]@ == usb@[k].udid@,
    {
        udids.push(usb[i].udid.clone());
    }
    assert(texts(udids@) =~= devices_view(usb@).map_values(|d: DeviceView| d.udid));
    Choice::Ambiguous(udids)
}

/// A chosen device is connected by USB and stands in the list. It has the requested
/// UDID, and is the first USB device that has it; or it is the only USB device, where
/// none is requested.
pub proof fn law_chosen_device_is_admitted(
    requested: Option<Seq<char>>,
    devices: Seq<DeviceView>,
    d: DeviceView,
)
    requires
        choice(requested, devices) == ChoiceView::Chosen(d),
    ensures
        d.link == Link::Usb,
        devices.contains(d),
        requested matches Some(udid) ==> d.udid == udid && d == having_udid(
            usb_only(devices),
            udid,
        ).first(),
        requested is None ==> usb_only(devices) == seq![d],
{
    assert(admitted(usb_only(devices), requested)[0] == d);
    lemma_admitted_usb(requested, devices, d);
}

/// A USB device that the request admits.
pub proof fn lemma_admitted_usb(
    requested: Option<Seq<char>>,
    devices: Seq<DeviceView>,
    d: DeviceView,
)
    requires
        admitted(usb_only(devices), requested).contains(d),
    ensures
        d.link == Link::Usb,
        devices.contains(d),
        requested matches Some(udid) ==> d.udid == udid,
{
    let usb = usb_only(devices);
    let is_usb = |d: DeviceView| d.link == Link::Usb;
    if requested is Some {
        let has_udid = |d: DeviceView| d.udid == requested->0;
        let i = choose|i: int| 0 <= i < usb.filter(has_udid).len() && usb.filter(has_udid)[i] == d;
        usb.lemma_filter_pred(has_udid, i);
        usb.lemma_filter_contains_rev(has_udid, d);
    }
    let i = choose|i: int| 0 <= i < usb.len() && usb[i] == d;
    devices.lemma_filter_pred(is_usb, i);
    devices.lemma_filter_contains_rev(is_usb, d);
}

/// A device that the request admits: it is connected by USB, and has the requested UDID
/// where one is requested.
pub open spec fn admits(requested: Option<Seq<char>>, d: DeviceView) -> bool {
    &&& d.link == Link::Usb
    &&& requested matches Some(udid) ==> d.udid == udid
}

proof fn lemma_admitted_one_by_one(requested: Option<Seq<char>>, devices: Seq<DeviceView>)
    requires
        devices.len() > 0,
    ensures
        ({
            let before = admitted(usb_only(devices.drop_last()), requested);
            admitted(usb_only(devices), requested) == (if admits(requested, devices.last()) {
                before.push(devices.last())
            } else {
                before
            })
        }),
{
    let d = devices.last();
    let before = usb_only(devices.drop_last());
    reveal(Seq::filter);
    if d.link == Link::Usb {
        assert(usb_only(devices) == before.push(d));
        assert(before.push(d).drop_last() =~= before);
    }
}

/// The USB devices of a list keep its order: one more device in the list is one more
/// among them, at the end, exactly if it is connected by USB.
pub proof fn law_usb_devices_are_kept_in_order(devices: Seq<DeviceView>, d: DeviceView)
    ensures
        usb_only(Seq::empty()) == Seq::<DeviceView>::empty(),
        usb_only(devices.push(d)) == (if d.link == Link::Usb {
            usb_only(devices).push(d)
        } else {
            usb_only(devices)
        }),
{
    reveal(Seq::filter);
    assert(devices.push(d).drop_last() =~= devices);
}

/// The devices that a request admits keep the order of the list: one more device in the
/// list is one more among them, at the end, exactly if none is requested or it has the
/// requested UDID.
pub proof fn law_admitted_devices_are_kept_in_order(
    requested: Option<Seq<char>>,
    devices: Seq<DeviceView>,
    d: DeviceView,
)
    ensures
        admitted(Seq::empty(), requested) == Seq::<DeviceView>::empty(),
        admitted(devices.push(d), requested) == (if requested is None || requested == Some(d.udid) {
            admitted(devices, requested).push(d)
        } else {
            admitted(devices, requested)
        }),
{
    reveal(Seq::filter);
    assert(devices.push(d).drop_last() =~= devices);
}

/// Where no device of the list is admitted, the admitted ones are none; where the one at
/// place `i` is the first, it is the first of them.
pub proof fn lemma_first_admitted(
    requested: Option<Seq<char>>,
    devices: Seq<DeviceView>,
    i: int,
)
    requires
        0 <= i <= devices.len(),
        forall|j: int| 0 <= j < i ==> !admits(requested, #[trigger] devices[j]),
        i < devices.len() ==> admits(requested, devices[i]),
    ensures
        ({
            let found = admitted(usb_only(devices), requested);
            &&& i == devices.len() ==> found.len() == 0
            &&& i < devices.len() ==> found.len() > 0 && found[0] == devices[i]
        }),
    decreases devices.len(),
{
    if devices.len() == 0 {
        reveal(Seq::filter);
    } else {
        lemma_admitted_one_by_one(requested, devices);
        let front = devices.drop_last();
        if i == devices.len() {
            assert(!admits(requested, devices[i - 1]));
            lemma_first_admitted(requested, front, i - 1);
        } else {
            lemma_first_admitted(requested, front, i);
        }
    }
}

/// Where only the device at place `i` is admitted, it is all that is.
pub proof fn lemma_only_admitted(requested: Option<Seq<char>>, devices: Seq<DeviceView>, i: int)
    requires
        0 <= i < devices.len(),
        admits(requested, devices[i]),
        forall|j: int|
            0 <= j < devices.len() && j != i ==> !admits(requested, #[trigger] devices[j]),
    ensures
        admitted(usb_only(devices), requested) == seq![devices[i]],
    decreases devices.len(),
{
    lemma_admitted_one_by_one(requested, devices);
    let front = devices.drop_last();
    if i == devices.len() - 1 {
        lemma_first_admitted(requested, front, front.len() as int);
        assert(admitted(usb_only(devices), requested) =~= seq![devices[i]]);
    } else {
        assert(!admits(requested, devices[devices.len() - 1]));
        lemma_only_admitted(requested, front, i);
    }
}

/// Where two devices are admitted, the admitted ones are several.
pub proof fn lemma_several_admitted(
    requested: Option<Seq<char>>,
    devices: Seq<DeviceView>,
    i: int,
    j: int,
)
    requires
        0 <= i < j < devices.len(),
        admits(requested, devices[i]),
        admits(requested, devices[j]),
    ensures
        admitted(usb_only(devices), requested).len() >= 2,
    decreases devices.len(),
{
    lemma_admitted_one_by_one(requested, devices);
    let front = devices.drop_last();
    if j < devices.len() - 1 {
        lemma_several_admitted(requested, front, i, j);
    } else {
        lemma_some_admitted(requested, front, i);
    }
}

proof fn lemma_some_admitted(requested: Option<Seq<char>>, devices: Seq<DeviceView>, i: int)
    requires
        0 <= i < devices.len(),
        admits(requested, devices[i]),
    ensures
        admitted(usb_only(devices), requested).len() >= 1,
    decreases devices.len(),
{
    lemma_admitted_one_by_one(requested, devices);
    if i < devices.len() - 1 {
        lemma_some_admitted(requested, devices.drop_last(), i);
    }
}

/// A requested device that is connected by USB is chosen, however many others there are:
/// the first with the requested UDID.
pub proof fn law_requested_device_is_chosen(udid: Seq<char>, devices: Seq<DeviceView>, i: int)
    requires
        0 <= i < devices.len(),
        devices[i].link == Link::Usb,
        devices[i].udid == udid,
        forall|j: int|
            0 <= j < i ==> !((#[trigger] devices[j]).link == Link::Usb && devices[j].udid == udid),
    ensures
        choice(Some(udid), devices) == ChoiceView::Chosen(devices[i]),
{
    lemma_first_admitted(Some(udid), devices, i);
}

/// The only device that is connected by USB is chosen where none is requested.
pub proof fn law_only_usb_device_is_chosen(devices: Seq<DeviceView>, i: int)
    requires
        0 <= i < devices.len(),
        devices[i].link == Link::Usb,
        forall|j: int|
            0 <= j < devices.len() && j != i ==> (#[trigger] devices[j]).link != Link::Usb,
    ensures
        choice(None, devices) == ChoiceView::Chosen(devices[i]),
{
    lemma_only_admitted(None, devices, i);
}

/// No device is found exactly where none of the list is connected by USB and has the
/// requested UDID, if one is requested.
pub proof fn law_nothing_is_found_where_nothing_is(
    requested: Option<Seq<char>>,
    devices: Seq<DeviceView>,
)
    ensures
        choice(requested, devices) is NotFound <==> forall|i: int|
            0 <= i < devices.len() ==> (#[trigger] devices[i]).link != Link::Usb || (
            requested is Some && requested != Some(devices[i].udid)),
{
    if forall|i: int| 0 <= i < devices.len() ==> !admits(requested, #[trigger] devices[i]) {
        lemma_first_admitted(requested, devices, devices.len() as int);
    } else {
        let i = choose|i: int|
            0 <= i < devices.len() && admits(requested, #[trigger] devices[i]);
        lemma_some_admitted(requested, devices, i);
    }
}

/// The choice is left to the user exactly where no device is requested and several are
/// connected by USB; then their UDIDs are listed, in the order of the list.
pub proof fn law_choice_is_left_where_several_are_connected(
    requested: Option<Seq<char>>,
    devices: Seq<DeviceView>,
)
    ensures
        choice(requested, devices) is Ambiguous <==> requested is None && exists|i: int, j: int|
            0 <= i < j < devices.len() && (#[trigger] devices[i]).link == Link::Usb
                && (#[trigger] devices[j]).link == Link::Usb,
        choice(requested, devices) matches ChoiceView::Ambiguous(udids) ==> {
            &&& udids.len() == usb_only(devices).len()
            &&& forall|k: int|
                0 <= k < udids.len() ==> #[trigger] udids[k] == usb_only(devices)[k].udid
        },
{
    if requested is None {
        if exists|i: int, j: int|
            0 <= i < j < devices.len() && (#[trigger] devices[i]).link == Link::Usb && (
            #[trigger] devices[j]).link == Link::Usb {
            let (i, j) = choose|i: int, j: int|
                0 <= i < j < devices.len() && (#[trigger] devices[i]).link == Link::Usb && (
                #[trigger] devices[j]).link == Link::Usb;
            lemma_several_admitted(requested, devices, i, j);
        } else if exists|i: int|
            0 <= i < devices.len() && (#[trigger] devices[i]).link == Link::Usb {
            let i = choose|i: int|
                0 <= i < devices.len() && (#[trigger] devices[i]).link == Link::Usb;
            assert forall|j: int| 0 <= j < devices.len() && j != i implies !admits(
                requested,
                #[trigger] devices[j],
            ) by {
                if devices[j].link == Link::Usb {
                    if i < j {
                        assert(devices[i].link == Link::Usb && devices[j].link == Link::Usb);
                    } else {
                        assert(devices[j].link == Link::Usb && devices[i].link == Link::Usb);
                    }
                }
            }
            lemma_only_admitted(requested, devices, i);
        } else {
            lemma_first_admitted(requested, devices, devices.len() as int);
        }
    }
}

/// The model of a device tells all of it, and a list of devices is modelled one by one.
pub proof fn law_device_model_tells_all(d: Device, devices: Seq<Device>)
    ensures
        d@.udid == d.udid@,
        d@.device_id == d.device_id,
        d@.link == d.link,
        devices_view(devices).len() == devices.len(),
        forall|i: int| 0 <= i < devices.len() ==> #[trigger] devices_view(devices)[i] == devices[i]@,
{
}

} // verus!
