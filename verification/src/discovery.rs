//! Finding radios on the bus, and bringing up the ones that wait for firmware.
//!
//! A device that has just been plugged in runs a boot loader. Discovery uploads
//! the firmware to every such device, waits until one has come back under its
//! new identity, and then picks the radio asked for.
use vstd::prelude::*;

use crate::error::SdrError;
use crate::interface::UsbIds;
use crate::sdr::Radio;
use crate::usb::{DeviceInfo, Speed};

verus! {

/// How long a device may take to come back after a firmware upload.
pub const REENUMERATE_TIMEOUT_MS: u64 = 10_000;

/// Pause between two looks for a device that should come back.
pub const POLL_INTERVAL_MS: u64 = 100;

/// Pause before a device that has come back is used: it enumerates a little
/// before it will actually stream.
pub const SETTLE_MS: u64 = 500;

/// What a device on the bus is looked at for.
pub enum Role {
    /// Waits for firmware.
    Bootloader,
    /// Runs the firmware.
    Firmware,
    /// Runs the firmware at SuperSpeed.
    Radio,
}

/// Whether a device has a role.
pub open spec fn plays(device: DeviceInfo, ids: UsbIds, role: Role) -> bool {
    &&& device.vendor_id == ids.vendor
    &&& match role {
        Role::Bootloader => device.product_id == ids.bootloader,
        Role::Firmware => device.product_id == ids.firmware,
        Role::Radio => device.product_id == ids.firmware && device.at_super_speed(),
    }
}

/// How many of `devices` have a role.
pub open spec fn count(devices: Seq<DeviceInfo>, ids: UsbIds, role: Role) -> nat
    decreases devices.len(),
{
    if devices.len() == 0 {
        0
    } else {
        count(devices.drop_last(), ids, role) + if plays(devices.last(), ids, role) {
            1nat
        } else {
            0nat
        }
    }
}

/// Whether the device at `i` has the role and exactly `n` devices before it
/// have it too.
pub open spec fn is_nth(
    devices: Seq<DeviceInfo>,
    ids: UsbIds,
    role: Role,
    n: nat,
    i: int,
) -> bool {
    &&& 0 <= i < devices.len()
    &&& plays(devices[i], ids, role)
    &&& count(devices.take(i), ids, role) == n
}

/// Where the device with `n` others of its role before it is, if there is one.
pub open spec fn nth(devices: Seq<DeviceInfo>, ids: UsbIds, role: Role, n: nat) -> Option<int> {
    if exists|i: int| is_nth(devices, ids, role, n, i) {
        Some(choose|i: int| is_nth(devices, ids, role, n, i))
    } else {
        None
    }
}

/// Longer prefixes hold no fewer devices of a role.
proof fn count_is_monotonic(devices: Seq<DeviceInfo>, ids: UsbIds, role: Role, i: int, j: int)
    requires
        0 <= i <= j <= devices.len(),
    ensures
        count(devices.take(i), ids, role) <= count(devices.take(j), ids, role),
    decreases j - i,
{
    if i < j {
        count_is_monotonic(devices, ids, role, i, j - 1);
        assert(devices.take(j).drop_last() =~= devices.take(j - 1));
    }
}

/// The device at a given place among those of its role is unique, and it exists
/// exactly when there are more of them than that.
pub proof fn nth_is_unique(devices: Seq<DeviceInfo>, ids: UsbIds, role: Role, n: nat, i: int)
    requires
        is_nth(devices, ids, role, n, i),
    ensures
        nth(devices, ids, role, n) == Some(i),
        n < count(devices, ids, role),
{
    let j = choose|j: int| is_nth(devices, ids, role, n, j);
    assert(devices.take(i + 1).drop_last() =~= devices.take(i));
    assert(devices.take(j + 1).drop_last() =~= devices.take(j));
    if i < j {
        count_is_monotonic(devices, ids, role, i + 1, j);
    }
    if j < i {
        count_is_monotonic(devices, ids, role, j + 1, i);
    }
    assert(devices.take(devices.len() as int) =~= devices);
    count_is_monotonic(devices, ids, role, i + 1, devices.len() as int);
}

/// There is a device at each place below the number of devices of a role, and
/// none at that number or above.
pub proof fn nth_exists(devices: Seq<DeviceInfo>, ids: UsbIds, role: Role, n: nat)
    ensures
        nth(devices, ids, role, n) is Some <==> n < count(devices, ids, role),
        nth(devices, ids, role, n) matches Some(i) ==> is_nth(devices, ids, role, n, i),
    decreases devices.len(),
{
    if exists|i: int| is_nth(devices, ids, role, n, i) {
        let i = choose|i: int| is_nth(devices, ids, role, n, i);
        nth_is_unique(devices, ids, role, n, i);
    } else if n < count(devices, ids, role) {
        let before = devices.drop_last();
        if n < count(before, ids, role) {
            nth_exists(before, ids, role, n);
            let i = nth(before, ids, role, n).unwrap();
            assert(devices.take(i) =~= before.take(i));
            assert(is_nth(devices, ids, role, n, i));
        } else {
            assert(devices.take(devices.len() - 1) =~= before);
            assert(is_nth(devices, ids, role, n, devices.len() - 1));
        }
    }
}

/// No device is counted for a role exactly where none has it.
pub proof fn none_counted(devices: Seq<DeviceInfo>, ids: UsbIds, role: Role)
    ensures
        count(devices, ids, role) == 0 <==> forall|i: int|
            0 <= i < devices.len() ==> !plays(#[trigger] devices[i], ids, role),
    decreases devices.len(),
{
    if devices.len() > 0 {
        let before = devices.drop_last();
        none_counted(before, ids, role);
        assert(devices.last() == devices[devices.len() - 1]);
        if count(devices, ids, role) == 0 {
            assert forall|i: int| 0 <= i < devices.len() implies !plays(
                #[trigger] devices[i],
                ids,
                role,
            ) by {
                if i < before.len() {
                    assert(before[i] == devices[i]);
                }
            }
        } else if !plays(devices.last(), ids, role) {
            let i = choose|i: int| 0 <= i < before.len() && plays(#[trigger] before[i], ids, role);
            assert(devices[i] == before[i]);
        }
    }
}

/// No more devices run the firmware at SuperSpeed than run it at all.
pub proof fn radios_run_firmware(devices: Seq<DeviceInfo>, ids: UsbIds)
    ensures
        count(devices, ids, Role::Radio) <= count(devices, ids, Role::Firmware),
    decreases devices.len(),
{
    if devices.len() > 0 {
        radios_run_firmware(devices.drop_last(), ids);
    }
}

fn has_role(device: &DeviceInfo, ids: &UsbIds, role: &Role) -> (yes: bool)
    ensures
        yes == plays(*device, *ids, *role),
{
    device.vendor_id == ids.vendor && match role {
        Role::Bootloader => device.product_id == ids.bootloader,
        Role::Firmware => device.product_id == ids.firmware,
        Role::Radio => device.product_id == ids.firmware && device.is_super_speed(),
    }
}

fn nth_device(devices: &[DeviceInfo], ids: &UsbIds, role: Role, n: u32) -> (found: Option<usize>)
    ensures
        match found {
            Some(i) => nth(devices@, *ids, role, n as nat) == Some(i as int),
            None => nth(devices@, *ids, role, n as nat) is None,
        },
{
    let mut seen: u32 = 0;
    let mut i: usize = 0;
    while i < devices.len()
        invariant
            i <= devices@.len(),
            seen <= n,
            seen == count(devices@.take(i as int), *ids, role),
        decreases devices@.len() - i,
    {
        assert(devices@.take(i + 1).drop_last() =~= devices@.take(i as int));
        if has_role(&devices[i], ids, &role) {
            if seen == n {
                proof {
                    nth_is_unique(devices@, *ids, role, n as nat, i as int);
                }
                return Some(i);
            }
            seen += 1;
        }
        i += 1;
    }
    proof {
        assert(devices@.take(i as int) =~= devices@);
        nth_exists(devices@, *ids, role, n as nat);
    }
    None
}

/// What asking for a radio comes to.
#[derive(Debug, Clone, Copy, PartialEq, Eq, Structural)]
pub enum Selection {
    /// The device at this place of the listing.
    Found(usize),
    /// A device is there, but not at SuperSpeed.
    NotSuperSpeed,
    NotFound,
}

/// Which radio of a listing an index stands for. The index counts the devices
/// that run the firmware at SuperSpeed; where there are too few of those, but
/// enough that run it at any speed, the speed is what is wrong.
pub open spec fn selected(devices: Seq<DeviceInfo>, ids: UsbIds, index: u32) -> Selection {
    match nth(devices, ids, Role::Radio, index as nat) {
        Some(i) => Selection::Found(i as usize),
        None => if index < count(devices, ids, Role::Firmware) {
            Selection::NotSuperSpeed
        } else {
            Selection::NotFound
        },
    }
}

/// Picks a radio from a listing.
pub fn select(devices: &[DeviceInfo], ids: &UsbIds, index: u32) -> (selection: Selection)
    ensures
        selection == selected(devices@, *ids, index),
{
    match nth_device(devices, ids, Role::Radio, index) {
        Some(i) => Selection::Found(i),
        None => {
            proof {
                nth_exists(devices@, *ids, Role::Firmware, index as nat);
            }
            match nth_device(devices, ids, Role::Firmware, index) {
                Some(_) => Selection::NotSuperSpeed,
                None => Selection::NotFound,
            }
        },
    }
}

impl Radio {
    /// Find an RX888-family device by zero-based `index`.
    ///
    /// Filters enumerated USB devices by expected VID/PID and SuperSpeed,
    /// returning the place of the Nth match. Useful when multiple radios are
    /// connected.
    pub fn find_device(devices: &[DeviceInfo], ids: &UsbIds, index: u32) -> (found: Option<usize>)
        ensures
            match found {
                Some(i) => nth(devices@, *ids, Role::Radio, index as nat) == Some(i as int),
                None => nth(devices@, *ids, Role::Radio, index as nat) is None,
            },
    {
        nth_device(devices, ids, Role::Radio, index)
    }

    /// Picks the device to open, or says why there is none.
    pub fn open(selection: Selection) -> (place: Result<usize, SdrError>)
        ensures
            place == match selection {
                Selection::Found(i) => Ok(i),
                Selection::NotSuperSpeed => Err(SdrError::NotSuperSpeed),
                Selection::NotFound => Err(SdrError::DeviceNotFound),
            },
    {
        match selection {
            Selection::Found(i) => Ok(i),
            Selection::NotSuperSpeed => Err(SdrError::NotSuperSpeed),
            Selection::NotFound => Err(SdrError::DeviceNotFound),
        }
    }
}

/// The places of the devices in a listing that wait for firmware, in order.
pub open spec fn bootloaders(devices: Seq<DeviceInfo>, ids: UsbIds) -> Seq<usize>
    decreases devices.len(),
{
    if devices.len() == 0 {
        Seq::empty()
    } else {
        let before = bootloaders(devices.drop_last(), ids);
        if plays(devices.last(), ids, Role::Bootloader) {
            before.push((devices.len() - 1) as usize)
        } else {
            before
        }
    }
}

fn find_bootloaders(devices: &[DeviceInfo], ids: &UsbIds) -> (places: Vec<usize>)
    ensures
        places@ == bootloaders(devices@, *ids),
{
    let mut places: Vec<usize> = Vec::new();
    let mut i: usize = 0;
    while i < devices.len()
        invariant
            i <= devices@.len(),
            places@ == bootloaders(devices@.take(i as int), *ids),
        decreases devices@.len() - i,
    {
        assert(devices@.take(i + 1).drop_last() =~= devices@.take(i as int));
        if has_role(&devices[i], ids, &Role::Bootloader) {
            places.push(i);
        }
        i += 1;
    }
    assert(devices@.take(i as int) =~= devices@);
    places
}

fn is_back(devices: Option<&[DeviceInfo]>, ids: &UsbIds) -> (back: bool)
    ensures
        back == came_back(devices, *ids),
{
    match devices {
        Some(devices) => {
            proof {
                nth_exists(devices@, *ids, Role::Firmware, 0);
            }
            nth_device(devices, ids, Role::Firmware, 0).is_some()
        },
        None => false,
    }
}

/// Whether a listing could be had and shows a device that runs the firmware.
pub open spec fn came_back(devices: Option<&[DeviceInfo]>, ids: UsbIds) -> bool {
    devices matches Some(devices) && count(devices@, ids, Role::Firmware) > 0
}

/// What discovery is told.
pub enum DiscoveryEvent<'a> {
    /// A listing of the bus, if one could be had.
    Listed(Option<&'a [DeviceInfo]>),
    /// Whether the firmware upload asked for went through.
    Flashed(bool),
    /// A listing of the bus, if one could be had, and whether the time for
    /// devices to come back had run out by then.
    Polled { devices: Option<&'a [DeviceInfo]>, expired: bool },
}

/// What discovery asks for.
#[derive(Debug, Clone, Copy, PartialEq, Eq, Structural)]
pub enum DiscoveryAction {
    /// Pause, then list the bus.
    List { pause_ms: u64 },
    /// Upload the firmware to the device at this place of the first listing.
    Flash(usize),
    /// Pause, then list the bus to see whether a device has come back.
    Poll { pause_ms: u64 },
    /// Nothing: this is what came of it.
    Finish(Selection),
}

/// How far discovery has come.
pub enum Stage {
    /// The bus has yet to be listed.
    Listing,
    /// Firmware goes to the devices at these places.
    Flashing { targets: Seq<usize>, next: nat, flashed: bool },
    /// A device should come back.
    Polling { again: bool },
    /// The bus has yet to be listed with every device up.
    Relisting { settle: bool },
    Over(Selection),
}

/// Discovery at work: which radio is asked for, and how far it has come.
pub struct DiscoveryState {
    pub ids: UsbIds,
    pub index: u32,
    pub stage: Stage,
}

/// Discovery with the firmware uploads that are left: once there is none, it
/// waits where one went through.
pub open spec fn flashing(targets: Seq<usize>, next: nat, flashed: bool) -> Stage {
    if next < targets.len() {
        Stage::Flashing { targets, next, flashed }
    } else if flashed {
        Stage::Polling { again: false }
    } else {
        Stage::Relisting { settle: false }
    }
}

impl DiscoveryState {
    /// How far discovery has come after `event`. An event that it has not asked
    /// for changes nothing.
    pub open spec fn after(self, event: DiscoveryEvent) -> Stage {
        match (self.stage, event) {
            (Stage::Listing, DiscoveryEvent::Listed(None)) => Stage::Over(Selection::NotFound),
            (Stage::Listing, DiscoveryEvent::Listed(Some(devices))) => flashing(
                bootloaders(devices@, self.ids),
                0,
                false,
            ),
            (Stage::Flashing { targets, next, flashed }, DiscoveryEvent::Flashed(ok)) => flashing(
                targets,
                next + 1,
                flashed || ok,
            ),
            (Stage::Polling { .. }, DiscoveryEvent::Polled { devices, expired }) => if came_back(
                devices,
                self.ids,
            ) || expired {
                Stage::Relisting { settle: true }
            } else {
                Stage::Polling { again: true }
            },
            (Stage::Relisting { .. }, DiscoveryEvent::Listed(None)) => Stage::Over(
                Selection::NotFound,
            ),
            (Stage::Relisting { .. }, DiscoveryEvent::Listed(Some(devices))) => Stage::Over(
                selected(devices@, self.ids, self.index),
            ),
            _ => self.stage,
        }
    }

    /// What discovery asks for.
    pub open spec fn wants(self) -> DiscoveryAction {
        match self.stage {
            Stage::Listing => DiscoveryAction::List { pause_ms: 0 },
            Stage::Flashing { targets, next, .. } => DiscoveryAction::Flash(targets[next as int]),
            Stage::Polling { again } => DiscoveryAction::Poll {
                pause_ms: if again {
                    POLL_INTERVAL_MS
                } else {
                    0
                },
            },
            Stage::Relisting { settle } => DiscoveryAction::List {
                pause_ms: if settle {
                    SETTLE_MS
                } else {
                    0
                },
            },
            Stage::Over(selection) => DiscoveryAction::Finish(selection),
        }
    }
}

enum Phase {
    Listing,
    Flashing { targets: Vec<usize>, next: usize, flashed: bool },
    Polling { again: bool },
    Relisting { settle: bool },
    Over(Selection),
}

impl Phase {
    spec fn stage(self) -> Stage {
        match self {
            Phase::Listing => Stage::Listing,
            Phase::Flashing { targets, next, flashed } => Stage::Flashing {
                targets: targets@,
                next: next as nat,
                flashed,
            },
            Phase::Polling { again } => Stage::Polling { again },
            Phase::Relisting { settle } => Stage::Relisting { settle },
            Phase::Over(selection) => Stage::Over(selection),
        }
    }

    spec fn wf(self) -> bool {
        self matches Phase::Flashing { targets, next, .. } ==> next < targets@.len()
    }

    fn flashing(targets: Vec<usize>, next: usize, flashed: bool) -> (phase: Phase)
        ensures
            phase.stage() == flashing(targets@, next as nat, flashed),
            phase.wf(),
    {
        if next < targets.len() {
            Phase::Flashing { targets, next, flashed }
        } else if flashed {
            Phase::Polling { again: false }
        } else {
            Phase::Relisting { settle: false }
        }
    }
}

/// Discovery of the radio with a given index.
pub struct Discovery {
    ids: UsbIds,
    index: u32,
    phase: Phase,
}

impl View for Discovery {
    type V = DiscoveryState;

    closed spec fn view(&self) -> DiscoveryState {
        DiscoveryState { ids: self.ids, index: self.index, stage: self.phase.stage() }
    }
}

impl Discovery {
    #[verifier::type_invariant]
    spec fn inv(self) -> bool {
        self.phase.wf()
    }

    /// Discovery that has yet to look at the bus.
    pub fn new(ids: UsbIds, index: u32) -> (discovery: Discovery)
        ensures
            discovery@ == (DiscoveryState { ids, index, stage: Stage::Listing }),
    {
        Discovery { ids, index, phase: Phase::Listing }
    }

    /// What discovery asks for.
    pub fn action(&self) -> (action: DiscoveryAction)
        ensures
            action == self@.wants(),
    {
        proof {
            use_type_invariant(self);
        }
        match &self.phase {
            Phase::Listing => DiscoveryAction::List { pause_ms: 0 },
            Phase::Flashing { targets, next, .. } => DiscoveryAction::Flash(targets[*next]),
            Phase::Polling { again } => DiscoveryAction::Poll {
                pause_ms: if *again {
                    POLL_INTERVAL_MS
                } else {
                    0
                },
            },
            Phase::Relisting { settle } => DiscoveryAction::List {
                pause_ms: if *settle {
                    SETTLE_MS
                } else {
                    0
                },
            },
            Phase::Over(selection) => DiscoveryAction::Finish(*selection),
        }
    }

    /// Takes note of an event, and says how discovery goes on.
    pub fn on_event(self, event: DiscoveryEvent) -> (next: Discovery)
        ensures
            next@ == (DiscoveryState { stage: self@.after(event), ..self@ }),
    {
        proof {
            use_type_invariant(&self);
        }
        let Discovery { ids, index, phase } = self;
        let phase = match (phase, event) {
            (Phase::Listing, DiscoveryEvent::Listed(None)) => Phase::Over(Selection::NotFound),
            (Phase::Listing, DiscoveryEvent::Listed(Some(devices))) => Phase::flashing(
                find_bootloaders(devices, &ids),
                0,
                false,
            ),
            (Phase::Flashing { targets, next, flashed }, DiscoveryEvent::Flashed(ok)) => {
                assert(next < targets.len());
                Phase::flashing(targets, next + 1, flashed || ok)
            },
            (Phase::Polling { .. }, DiscoveryEvent::Polled { devices, expired }) => {
                if is_back(devices, &ids) || expired {
                    Phase::Relisting { settle: true }
                } else {
                    Phase::Polling { again: true }
                }
            },
            (Phase::Relisting { .. }, DiscoveryEvent::Listed(None)) => Phase::Over(
                Selection::NotFound,
            ),
            (Phase::Relisting { .. }, DiscoveryEvent::Listed(Some(devices))) => Phase::Over(
                select(devices, &ids, index),
            ),
            (phase, _) => phase,
        };
        Discovery { ids, index, phase }
    }
}

/// Discovery after a whole history of events.
pub open spec fn discovered(s: DiscoveryState, events: Seq<DiscoveryEvent>) -> DiscoveryState
    decreases events.len(),
{
    if events.len() == 0 {
        s
    } else {
        let before = discovered(s, events.drop_last());
        DiscoveryState { stage: before.after(events.last()), ..before }
    }
}

/// A radio that was picked from a listing is on it, and runs the firmware at
/// SuperSpeed; one picked at another index is another one.
pub proof fn selected_radio_is_at_super_speed(
    devices: Seq<DeviceInfo>,
    ids: UsbIds,
    index: u32,
    other: u32,
)
    requires
        devices.len() <= usize::MAX,
    ensures
        selected(devices, ids, index) matches Selection::Found(i) ==> {
            &&& i < devices.len()
            &&& plays(devices[i as int], ids, Role::Radio)
            &&& selected(devices, ids, other) == Selection::Found(i) ==> other == index
        },
{
    nth_exists(devices, ids, Role::Radio, index as nat);
    nth_exists(devices, ids, Role::Radio, other as nat);
}

/// However discovery goes, any answer but that there is no radio was picked from
/// a listing that it was given once the firmware uploads and the wait for them
/// were over.
pub proof fn discovery_answers_from_a_listing(
    ids: UsbIds,
    index: u32,
    events: Seq<DiscoveryEvent>,
) -> (k: int)
    ensures
        discovered(
            DiscoveryState { ids, index, stage: Stage::Listing },
            events,
        ).stage matches Stage::Over(answer) ==> answer != Selection::NotFound ==> {
            &&& 0 <= k < events.len()
            &&& events[k] matches DiscoveryEvent::Listed(Some(devices))
            &&& answer == selected(devices@, ids, index)
            &&& discovered(
                DiscoveryState { ids, index, stage: Stage::Listing },
                events.take(k),
            ).stage is Relisting
        },
        ({
            let now = discovered(DiscoveryState { ids, index, stage: Stage::Listing }, events);
            now.ids == ids && now.index == index
        }),
    decreases events.len(),
{
    if events.len() == 0 {
        0
    } else {
        let k = discovery_answers_from_a_listing(ids, index, events.drop_last());
        let before = discovered(
            DiscoveryState { ids, index, stage: Stage::Listing },
            events.drop_last(),
        );
        if before.stage is Over {
            if 0 <= k < events.len() - 1 {
                assert(events.drop_last().take(k) =~= events.take(k));
            }
            k
        } else {
            assert(events.take(events.len() - 1) =~= events.drop_last());
            events.len() - 1
        }
    }
}

/// Discovery after uploads that went as `ok` says.
pub open spec fn after_uploads(s: DiscoveryState, ok: Seq<bool>) -> DiscoveryState {
    discovered(s, Seq::new(ok.len(), |i: int| DiscoveryEvent::Flashed(ok[i])))
}

/// Every device that waits for firmware gets it once, in the order of the
/// listing, and discovery waits for devices to come back exactly when an upload
/// has gone through.
pub proof fn every_bootloader_is_flashed_once(
    ids: UsbIds,
    index: u32,
    targets: Seq<usize>,
    ok: Seq<bool>,
)
    requires
        ok.len() <= targets.len(),
    ensures
        ({
            let start = DiscoveryState { ids, index, stage: flashing(targets, 0, false) };
            let now = after_uploads(start, ok);
            &&& now == (DiscoveryState {
                stage: flashing(targets, ok.len(), ok.contains(true)),
                ..start
            })
            &&& ok.len() < targets.len() ==> now.wants() == DiscoveryAction::Flash(
                targets[ok.len() as int],
            )
            &&& ok.len() == targets.len() && ok.contains(true) ==> now.stage == (Stage::Polling {
                again: false,
            })
            &&& ok.len() == targets.len() && !ok.contains(true) ==> now.stage == (
            Stage::Relisting { settle: false })
        }),
    decreases ok.len(),
{
    let start = DiscoveryState { ids, index, stage: flashing(targets, 0, false) };
    if ok.len() > 0 {
        let before = ok.drop_last();
        every_bootloader_is_flashed_once(ids, index, targets, before);
        let events = Seq::new(ok.len(), |i: int| DiscoveryEvent::Flashed(ok[i]));
        assert(events.drop_last() =~= Seq::new(
            before.len(),
            |i: int| DiscoveryEvent::Flashed(before[i]),
        ));
        assert(ok.contains(true) == (before.contains(true) || ok.last())) by {
            if before.contains(true) {
                let i = choose|i: int| 0 <= i < before.len() && before[i] == true;
                assert(ok[i] == true);
            }
            if ok.contains(true) && !ok.last() {
                let i = choose|i: int| 0 <= i < ok.len() && ok[i] == true;
                assert(before[i] == true);
            }
        }
    }
}

/// Waiting for devices to come back ends when one has, or when the time is up,
/// and not before.
pub proof fn polling_ends_when_back_or_expired(
    s: DiscoveryState,
    devices: Option<&[DeviceInfo]>,
    expired: bool,
)
    requires
        s.stage is Polling,
    ensures
        s.after(DiscoveryEvent::Polled { devices, expired }) is Relisting <==> (came_back(
            devices,
            s.ids,
        ) || expired),
{
}

/// Where no device waits for firmware, discovery comes to what the second
/// listing holds.
pub proof fn discovery_without_bootloaders(
    ids: UsbIds,
    index: u32,
    first: &[DeviceInfo],
    second: &[DeviceInfo],
)
    requires
        count(first@, ids, Role::Bootloader) == 0,
    ensures
        discovered(
            DiscoveryState { ids, index, stage: Stage::Listing },
            seq![DiscoveryEvent::Listed(Some(first)), DiscoveryEvent::Listed(Some(second))],
        ).wants() == DiscoveryAction::Finish(selected(second@, ids, index)),
{
    no_bootloaders(first@, ids);
    let events = seq![
        DiscoveryEvent::Listed(Some(first)),
        DiscoveryEvent::Listed(Some(second)),
    ];
    assert(events.drop_last() =~= seq![DiscoveryEvent::Listed(Some(first))]);
    assert(events.drop_last().drop_last() =~= Seq::empty());
    reveal_with_fuel(discovered, 3);
}

proof fn no_bootloaders(devices: Seq<DeviceInfo>, ids: UsbIds)
    requires
        count(devices, ids, Role::Bootloader) == 0,
    ensures
        bootloaders(devices, ids).len() == 0,
    decreases devices.len(),
{
    if devices.len() > 0 {
        no_bootloaders(devices.drop_last(), ids);
    }
}

/// A device waits for firmware, runs it, or runs it at SuperSpeed by its vendor,
/// its product and its speed alone.
pub proof fn roles_are_told_by_identity(device: DeviceInfo, ids: UsbIds)
    ensures
        plays(device, ids, Role::Bootloader) <==> device.vendor_id == ids.vendor
            && device.product_id == ids.bootloader,
        plays(device, ids, Role::Firmware) <==> device.vendor_id == ids.vendor && device.product_id
            == ids.firmware,
        plays(device, ids, Role::Radio) <==> device.vendor_id == ids.vendor && device.product_id
            == ids.firmware && device.speed == Some(Speed::Super),
{
}

/// Counting starts at none, takes one more device for what it is, and adds up
/// over the parts of a listing.
pub proof fn counts_add_up(
    a: Seq<DeviceInfo>,
    b: Seq<DeviceInfo>,
    device: DeviceInfo,
    ids: UsbIds,
    role: Role,
)
    ensures
        count(Seq::empty(), ids, role) == 0,
        count(a.push(device), ids, role) == count(a, ids, role) + if plays(device, ids, role) {
            1int
        } else {
            0int
        },
        count(a + b, ids, role) == count(a, ids, role) + count(b, ids, role),
    decreases b.len(),
{
    assert(a.push(device).drop_last() =~= a);
    if b.len() == 0 {
        assert(a + b =~= a);
    } else {
        counts_add_up(a, b.drop_last(), device, ids, role);
        assert((a + b).drop_last() =~= a + b.drop_last());
        assert((a + b).last() == b.last());
    }
}

proof fn none_between(devices: Seq<DeviceInfo>, ids: UsbIds, role: Role, a: int, b: int)
    requires
        0 <= a <= b <= devices.len(),
        count(devices.take(a), ids, role) == count(devices.take(b), ids, role),
    ensures
        forall|j: int| a <= j < b ==> !plays(#[trigger] devices[j], ids, role),
{
    assert forall|j: int| a <= j < b implies !plays(#[trigger] devices[j], ids, role) by {
        count_is_monotonic(devices, ids, role, a, j);
        count_is_monotonic(devices, ids, role, j + 1, b);
        assert(devices.take(j + 1).drop_last() =~= devices.take(j));
        assert(devices.take(j + 1).last() == devices[j]);
    }
}

/// Whether a device is a radio, by its identity and speed.
pub open spec fn is_radio(device: DeviceInfo, ids: UsbIds) -> bool {
    device.vendor_id == ids.vendor && device.product_id == ids.firmware && device.speed == Some(
        Speed::Super,
    )
}

/// Radios are numbered from 0 in the order of the listing: number 0 is the first
/// radio, each further number is the next radio after the one before it, and a
/// number is not given where no radio is left.
pub proof fn radios_are_numbered_in_listing_order(devices: Seq<DeviceInfo>, ids: UsbIds, n: nat)
    ensures
        nth(devices, ids, Role::Radio, n) matches Some(i) ==> {
            &&& 0 <= i < devices.len()
            &&& is_radio(devices[i], ids)
            &&& n == 0 ==> forall|j: int| 0 <= j < i ==> !is_radio(#[trigger] devices[j], ids)
            &&& n > 0 ==> {
                &&& nth(devices, ids, Role::Radio, (n - 1) as nat) matches Some(h)
                &&& h < i
                &&& forall|j: int| h < j < i ==> !is_radio(#[trigger] devices[j], ids)
            }
        },
        nth(devices, ids, Role::Radio, n) is None ==> {
            &&& n == 0 ==> forall|j: int|
                0 <= j < devices.len() ==> !is_radio(#[trigger] devices[j], ids)
            &&& n > 0 ==> (nth(devices, ids, Role::Radio, (n - 1) as nat) matches Some(h) ==> forall|
                j: int,
            |
                h < j < devices.len() ==> !is_radio(#[trigger] devices[j], ids))
        },
{
    let role = Role::Radio;
    let len = devices.len() as int;
    nth_exists(devices, ids, role, n);
    assert(devices.take(0) =~= Seq::empty());
    assert(devices.take(len) =~= devices);
    let end = match nth(devices, ids, role, n) {
        Some(i) => i,
        None => len,
    };
    if n == 0 {
        none_between(devices, ids, role, 0, end);
    } else {
        nth_exists(devices, ids, role, (n - 1) as nat);
        if nth(devices, ids, role, (n - 1) as nat) is Some {
            let h = nth(devices, ids, role, (n - 1) as nat).unwrap();
            assert(devices.take(h + 1).drop_last() =~= devices.take(h));
            assert(devices.take(h + 1).last() == devices[h]);
            if end <= h {
                count_is_monotonic(devices, ids, role, end, h);
            }
            none_between(devices, ids, role, h + 1, end);
        }
    }
}

/// What asking for a radio comes to is told by the listing alone: a radio with
/// as many radios before it as the index says; where there are too few radios,
/// the speed is wrong if enough devices run the firmware at all, and otherwise
/// there is no such device.
pub proof fn selection_is_told_by_the_listing(devices: Seq<DeviceInfo>, ids: UsbIds, index: u32)
    requires
        devices.len() <= usize::MAX,
    ensures
        match selected(devices, ids, index) {
            Selection::Found(i) => {
                &&& i < devices.len()
                &&& is_radio(devices[i as int], ids)
                &&& count(devices.take(i as int), ids, Role::Radio) == index
            },
            Selection::NotSuperSpeed => count(devices, ids, Role::Radio) <= index < count(
                devices,
                ids,
                Role::Firmware,
            ),
            Selection::NotFound => count(devices, ids, Role::Firmware) <= index,
        },
        index == 0 ==> (selected(devices, ids, index) == Selection::NotFound <==> forall|j: int|
            0 <= j < devices.len() ==> !((#[trigger] devices[j]).vendor_id == ids.vendor
                && devices[j].product_id == ids.firmware)),
        index == 0 ==> (selected(devices, ids, index) is Found <==> exists|j: int|
            0 <= j < devices.len() && is_radio(#[trigger] devices[j], ids)),
{
    nth_exists(devices, ids, Role::Radio, index as nat);
    radios_run_firmware(devices, ids);
    none_counted(devices, ids, Role::Firmware);
    none_counted(devices, ids, Role::Radio);
    if index == 0 {
        if forall|j: int|
            0 <= j < devices.len() ==> !((#[trigger] devices[j]).vendor_id == ids.vendor
                && devices[j].product_id == ids.firmware) {
            assert forall|j: int| 0 <= j < devices.len() implies !plays(
                #[trigger] devices[j],
                ids,
                Role::Firmware,
            ) by {}
        }
        if exists|j: int| 0 <= j < devices.len() && is_radio(#[trigger] devices[j], ids) {
            let j = choose|j: int| 0 <= j < devices.len() && is_radio(#[trigger] devices[j], ids);
            assert(plays(devices[j], ids, Role::Radio));
        }
    }
}

/// The devices that get firmware are exactly those that the listing shows in
/// their boot loader, in the order of the listing.
pub proof fn bootloaders_are_those_listed(devices: Seq<DeviceInfo>, ids: UsbIds)
    requires
        devices.len() <= usize::MAX,
    ensures
        forall|k: int|
            #![trigger bootloaders(devices, ids)[k]]
            0 <= k < bootloaders(devices, ids).len() ==> {
                let place = bootloaders(devices, ids)[k] as int;
                &&& 0 <= place < devices.len()
                &&& devices[place].vendor_id == ids.vendor
                &&& devices[place].product_id == ids.bootloader
            },
        forall|k: int, l: int|
            0 <= k < l < bootloaders(devices, ids).len() ==> #[trigger] bootloaders(devices, ids)[k]
                < #[trigger] bootloaders(devices, ids)[l],
        forall|j: int|
            0 <= j < devices.len() && (#[trigger] devices[j]).vendor_id == ids.vendor
                && devices[j].product_id == ids.bootloader ==> bootloaders(
                devices,
                ids,
            ).contains(j as usize),
    decreases devices.len(),
{
    if devices.len() > 0 {
        let before = devices.drop_last();
        let places = bootloaders(before, ids);
        bootloaders_are_those_listed(before, ids);
        assert forall|k: int| 0 <= k < places.len() implies 0 <= #[trigger] places[k]
            < devices.len() - 1 && devices[places[k] as int] == before[places[k] as int] by {}
        assert forall|j: int|
            0 <= j < devices.len() && (#[trigger] devices[j]).vendor_id == ids.vendor
                && devices[j].product_id == ids.bootloader implies bootloaders(
            devices,
            ids,
        ).contains(j as usize) by {
            if j < devices.len() - 1 {
                assert(before[j] == devices[j]);
                assert(places.contains(j as usize));
                let k = choose|k: int| 0 <= k < places.len() && places[k] == j as usize;
                assert(bootloaders(devices, ids)[k] == j as usize);
            } else {
                assert(bootloaders(devices, ids).last() == j as usize);
            }
        }
    }
}

/// The first listing decides on uploads: one without a device in its boot loader
/// leads straight to the second listing, and otherwise every such device is to
/// get the firmware, the first one first. Where the bus cannot be listed, there
/// is no radio.
pub proof fn first_listing_decides_on_uploads(s: DiscoveryState, devices: &[DeviceInfo])
    requires
        s.stage is Listing,
        devices@.len() <= usize::MAX,
    ensures
        s.wants() == (DiscoveryAction::List { pause_ms: 0 }),
        (DiscoveryState { stage: s.after(DiscoveryEvent::Listed(None)), ..s }).wants()
            == DiscoveryAction::Finish(Selection::NotFound),
        ({
            let next = DiscoveryState {
                stage: s.after(DiscoveryEvent::Listed(Some(devices))),
                ..s
            };
            if exists|j: int|
                0 <= j < devices@.len() && (#[trigger] devices@[j]).vendor_id == s.ids.vendor
                    && devices@[j].product_id == s.ids.bootloader {
                &&& next.stage matches Stage::Flashing { targets, next: upcoming, flashed }
                &&& upcoming == 0 && !flashed
                &&& forall|j: int|
                    0 <= j < devices@.len() && (#[trigger] devices@[j]).vendor_id == s.ids.vendor
                        && devices@[j].product_id == s.ids.bootloader ==> targets.contains(
                        j as usize,
                    )
                &&& forall|k: int, l: int|
                    0 <= k < l < targets.len() ==> #[trigger] targets[k] < #[trigger] targets[l]
                &&& forall|k: int|
                    0 <= k < targets.len() ==> (#[trigger] targets[k]) < devices@.len()
                        && devices@[targets[k] as int].vendor_id == s.ids.vendor
                        && devices@[targets[k] as int].product_id == s.ids.bootloader
                &&& next.wants() matches DiscoveryAction::Flash(place)
                &&& place < devices@.len()
                &&& devices@[place as int].vendor_id == s.ids.vendor
                &&& devices@[place as int].product_id == s.ids.bootloader
                &&& forall|j: int|
                    0 <= j < place ==> !((#[trigger] devices@[j]).vendor_id == s.ids.vendor
                        && devices@[j].product_id == s.ids.bootloader)
            } else {
                &&& next.stage is Relisting
                &&& next.wants() == (DiscoveryAction::List { pause_ms: 0 })
            }
        }),
{
    bootloaders_are_those_listed(devices@, s.ids);
    let places = bootloaders(devices@, s.ids);
    if places.len() == 0 {
        assert forall|j: int| 0 <= j < devices@.len() implies !((#[trigger] devices@[j]).vendor_id
            == s.ids.vendor && devices@[j].product_id == s.ids.bootloader) by {
            if devices@[j].vendor_id == s.ids.vendor && devices@[j].product_id
                == s.ids.bootloader {
                assert(places.contains(j as usize));
            }
        }
    } else {
        let place = places[0];
        assert(devices@[place as int].vendor_id == s.ids.vendor);
        assert forall|j: int| 0 <= j < place implies !((#[trigger] devices@[j]).vendor_id
            == s.ids.vendor && devices@[j].product_id == s.ids.bootloader) by {
            if devices@[j].vendor_id == s.ids.vendor && devices@[j].product_id
                == s.ids.bootloader {
                assert(places.contains(j as usize));
                let k = choose|k: int| 0 <= k < places.len() && places[k] == j as usize;
                assert(places[0] <= places[k]);
            }
        }
    }
}

/// Uploads follow one another whether or not they go through. After the last one
/// discovery waits for a device to come back exactly when any of them has gone
/// through, and looks for it at once.
pub proof fn uploads_follow_one_another(
    s: DiscoveryState,
    targets: Seq<usize>,
    next: nat,
    flashed: bool,
    ok: bool,
)
    requires
        s.stage == (Stage::Flashing { targets, next, flashed }),
        next < targets.len(),
    ensures
        s.wants() == DiscoveryAction::Flash(targets[next as int]),
        ({
            let after = DiscoveryState { stage: s.after(DiscoveryEvent::Flashed(ok)), ..s };
            if next + 1 < targets.len() {
                &&& after.wants() == DiscoveryAction::Flash(targets[(next + 1) as int])
                &&& after.stage == (Stage::Flashing {
                    targets,
                    next: next + 1,
                    flashed: flashed || ok,
                })
            } else if flashed || ok {
                &&& after.stage is Polling
                &&& after.wants() == (DiscoveryAction::Poll { pause_ms: 0 })
            } else {
                &&& after.stage is Relisting
                &&& after.wants() == (DiscoveryAction::List { pause_ms: 0 })
            }
        }),
{
}

/// A poll whose listing shows a device with the vendor and the product of the
/// running firmware ends the wait, at any speed and however many there are; so
/// does one that comes after the time is up. The bus is then listed after a
/// pause of half a second. Any other poll is repeated after a tenth of one.
pub proof fn one_device_back_ends_the_wait(
    s: DiscoveryState,
    devices: Option<&[DeviceInfo]>,
    expired: bool,
)
    requires
        s.stage is Polling,
    ensures
        ({
            let next = DiscoveryState {
                stage: s.after(DiscoveryEvent::Polled { devices, expired }),
                ..s
            };
            let back = devices is Some && exists|j: int|
                0 <= j < devices.unwrap()@.len() && (#[trigger] devices.unwrap()@[j]).vendor_id
                    == s.ids.vendor && devices.unwrap()@[j].product_id == s.ids.firmware;
            if back || expired {
                &&& next.stage is Relisting
                &&& next.wants() == (DiscoveryAction::List { pause_ms: 500 })
            } else {
                &&& next.stage is Polling
                &&& next.wants() == (DiscoveryAction::Poll { pause_ms: 100 })
            }
        }),
{
    if devices is Some {
        let listed = devices.unwrap()@;
        none_counted(listed, s.ids, Role::Firmware);
        if exists|j: int|
            0 <= j < listed.len() && (#[trigger] listed[j]).vendor_id == s.ids.vendor
                && listed[j].product_id == s.ids.firmware {
            let j = choose|j: int|
                0 <= j < listed.len() && (#[trigger] listed[j]).vendor_id == s.ids.vendor
                    && listed[j].product_id == s.ids.firmware;
            assert(plays(listed[j], s.ids, Role::Firmware));
        }
    }
}

/// The last listing gives the answer, and where it cannot be had there is no
/// radio. An answer stands whatever comes after it.
pub proof fn last_listing_gives_the_answer(
    s: DiscoveryState,
    devices: &[DeviceInfo],
    answer: Selection,
    event: DiscoveryEvent,
)
    ensures
        s.stage is Relisting ==> (DiscoveryState {
            stage: s.after(DiscoveryEvent::Listed(Some(devices))),
            ..s
        }).wants() == DiscoveryAction::Finish(selected(devices@, s.ids, s.index)),
        s.stage is Relisting ==> (DiscoveryState {
            stage: s.after(DiscoveryEvent::Listed(None)),
            ..s
        }).wants() == DiscoveryAction::Finish(Selection::NotFound),
        s.stage == Stage::Over(answer) ==> s.wants() == DiscoveryAction::Finish(answer)
            && s.after(event) == s.stage,
{
}

/// What discovery has not asked for changes nothing.
pub proof fn discovery_ignores_what_it_has_not_asked_for(s: DiscoveryState, event: DiscoveryEvent)
    requires
        s.stage is Flashing ==> s.stage->targets.len() > s.stage->next,
        match s.wants() {
            DiscoveryAction::List { .. } => !(event is Listed),
            DiscoveryAction::Flash(_) => !(event is Flashed),
            DiscoveryAction::Poll { .. } => !(event is Polled),
            DiscoveryAction::Finish(_) => true,
        },
    ensures
        s.after(event) == s.stage,
{
}

/// A device has ten seconds to come back, is looked for ten times in each, and
/// gets half a second to settle.
pub proof fn devices_have_ten_seconds_to_come_back()
    ensures
        REENUMERATE_TIMEOUT_MS == 10 * 1000,
        POLL_INTERVAL_MS * 10 == 1000,
        SETTLE_MS * 2 == 1000,
{
}

} // verus!
