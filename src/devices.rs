use vstd::prelude::*;

verus! {

/// Role of a device seen by the tracking system.
#[derive(Clone, Copy, Debug, PartialEq, Eq, Structural)]
pub enum VrDeviceClass {
    Controller,
    LeftController,
    RightController,
    Tracker,
    HMD,
    Sensor,
    Other,
}

/// Device kind as reported by the tracking system.
#[derive(Clone, Copy, Debug, PartialEq, Eq, Structural)]
pub enum TrackedKind {
    Hmd,
    Controller,
    GenericTracker,
    TrackingReference,
    Other,
}

/// Hand that a controller is bound to, where the tracking system knows it.
#[derive(Clone, Copy, Debug, PartialEq, Eq, Structural)]
pub enum ControllerRole {
    LeftHand,
    RightHand,
}

/// What the controller keeps of one device besides its pose.
#[derive(Clone, Copy, Debug, PartialEq, Eq, Structural)]
pub struct DeviceStatus {
    pub connected: bool,
    pub class: VrDeviceClass,
}

pub open spec fn classify_spec(kind: TrackedKind, role: Option<ControllerRole>) -> VrDeviceClass {
    match kind {
        TrackedKind::Hmd => VrDeviceClass::HMD,
        TrackedKind::Controller => match role {
            Some(ControllerRole::LeftHand) => VrDeviceClass::LeftController,
            Some(ControllerRole::RightHand) => VrDeviceClass::RightController,
            None => VrDeviceClass::Controller,
        },
        TrackedKind::GenericTracker => VrDeviceClass::Tracker,
        TrackedKind::TrackingReference => VrDeviceClass::Sensor,
        TrackedKind::Other => VrDeviceClass::Other,
    }
}

/// Class of a device from its kind and, for a controller, its hand.
pub fn classify(kind: TrackedKind, role: Option<ControllerRole>) -> (r: VrDeviceClass)
    ensures
        r == classify_spec(kind, role),
{
    match kind {
        TrackedKind::Hmd => VrDeviceClass::HMD,
        TrackedKind::Controller => match role {
            Some(ControllerRole::LeftHand) => VrDeviceClass::LeftController,
            Some(ControllerRole::RightHand) => VrDeviceClass::RightController,
            None => VrDeviceClass::Controller,
        },
        TrackedKind::GenericTracker => VrDeviceClass::Tracker,
        TrackedKind::TrackingReference => VrDeviceClass::Sensor,
        TrackedKind::Other => VrDeviceClass::Other,
    }
}

/// Name of each class.
pub open spec fn class_name(c: VrDeviceClass) -> Seq<char> {
    match c {
        VrDeviceClass::Controller => "Controller"@,
        VrDeviceClass::LeftController => "LeftController"@,
        VrDeviceClass::RightController => "RightController"@,
        VrDeviceClass::Tracker => "Tracker"@,
        VrDeviceClass::HMD => "HMD"@,
        VrDeviceClass::Sensor => "Sensor"@,
        VrDeviceClass::Other => "Other"@,
    }
}

/// Display colour of each class.
pub open spec fn color_name(c: VrDeviceClass) -> Seq<char> {
    match c {
        VrDeviceClass::LeftController => "green"@,
        VrDeviceClass::RightController => "blue"@,
        VrDeviceClass::Controller => "yellow"@,
        VrDeviceClass::Tracker => "aqua"@,
        VrDeviceClass::HMD => "purple"@,
        _ => "red"@,
    }
}

/// The decimal digit for `d`, for `d < 10`.
pub open spec fn digit_char(d: nat) -> char {
    seq!['0', '1', '2', '3', '4', '5', '6', '7', '8', '9'][d as int]
}

/// Decimal notation of `n`, without leading zeros.
pub open spec fn decimal(n: nat) -> Seq<char>
    decreases n,
{
    if n < 10 {
        seq![digit_char(n)]
    } else {
        decimal(n / 10).push(digit_char(n % 10))
    }
}

/// One line of the device listing: `<index> -> <class> -> <colour>`.
pub open spec fn device_line(i: nat, d: DeviceStatus) -> Seq<char> {
    decimal(i) + " -> "@ + class_name(d.class) + " -> "@ + color_name(d.class) + "\n"@
}

/// The listing of the connected devices, in index order.
pub open spec fn display_text(devs: Seq<Option<DeviceStatus>>) -> Seq<char>
    decreases devs.len(),
{
    if devs.len() == 0 {
        Seq::empty()
    } else {
        let rest = display_text(devs.drop_last());
        match devs.last() {
            Some(d) => if d.connected {
                rest + device_line((devs.len() - 1) as nat, d)
            } else {
                rest
            },
            None => rest,
        }
    }
}

/// Relies on `String::push_str`: appends the characters of `t`.
#[verifier::external_body]
fn push_text(s: &mut String, t: &str)
    ensures
        final(s)@ == old(s)@ + t@,
{
    s.push_str(t)
}

/// Relies on `String::push`: appends one character.
#[verifier::external_body]
fn push_char(s: &mut String, c: char)
    ensures
        final(s)@ == old(s)@.push(c),
{
    s.push(c)
}

fn class_label(c: VrDeviceClass) -> (r: &'static str)
    ensures
        r@ == class_name(c),
{
    match c {
        VrDeviceClass::Controller => "Controller",
        VrDeviceClass::LeftController => "LeftController",
        VrDeviceClass::RightController => "RightController",
        VrDeviceClass::Tracker => "Tracker",
        VrDeviceClass::HMD => "HMD",
        VrDeviceClass::Sensor => "Sensor",
        VrDeviceClass::Other => "Other",
    }
}

fn color_label(c: VrDeviceClass) -> (r: &'static str)
    ensures
        r@ == color_name(c),
{
    match c {
        VrDeviceClass::LeftController => "green",
        VrDeviceClass::RightController => "blue",
        VrDeviceClass::Controller => "yellow",
        VrDeviceClass::Tracker => "aqua",
        VrDeviceClass::HMD => "purple",
        _ => "red",
    }
}

fn digit(d: usize) -> (r: char)
    requires
        d < 10,
    ensures
        r == digit_char(d as nat),
{
    let digits = ['0', '1', '2', '3', '4', '5', '6', '7', '8', '9'];
    proof {
        assert(digits@ =~= seq!['0', '1', '2', '3', '4', '5', '6', '7', '8', '9']);
    }
    digits[d]
}

fn push_decimal(out: &mut String, n: usize)
    ensures
        final(out)@ == old(out)@ + decimal(n as nat),
    decreases n,
{
    let ghost start = out@;
    if n >= 10 {
        push_decimal(out, n / 10);
    }
    push_char(out, digit(n % 10));
    proof {
        if n >= 10 {
            assert(start + decimal(n as nat) =~= (start + decimal((n / 10) as nat)).push(
                digit_char((n % 10) as nat),
            ));
        } else {
            assert(start + decimal(n as nat) =~= start.push(digit_char(n as nat)));
        }
    }
}

/// The devices seen so far, by index; `None` where no device was reported.
pub struct DeviceTable {
    devices: Vec<Option<DeviceStatus>>,
}

impl View for DeviceTable {
    type V = Seq<Option<DeviceStatus>>;

    closed spec fn view(&self) -> Seq<Option<DeviceStatus>> {
        self.devices@
    }
}

pub open spec fn has_class(e: Option<DeviceStatus>, c: VrDeviceClass) -> bool {
    e matches Some(d) && d.class == c
}

/// `i` is the index of the first device of class `c`.
pub open spec fn first_of_class(devs: Seq<Option<DeviceStatus>>, c: VrDeviceClass, i: int) -> bool {
    &&& 0 <= i < devs.len()
    &&& has_class(devs[i], c)
    &&& forall|j: int| 0 <= j < i ==> !has_class(devs[j], c)
}

impl DeviceTable {
    pub fn new() -> (r: DeviceTable)
        ensures
            r@ == Seq::<Option<DeviceStatus>>::empty(),
    {
        DeviceTable { devices: Vec::new() }
    }

    /// The status recorded for device `index`, if any.
    pub fn get(&self, index: u32) -> (r: Option<DeviceStatus>)
        ensures
            r == (if index < self@.len() {
                self@[index as int]
            } else {
                None
            }),
    {
        if (index as usize) < self.devices.len() {
            self.devices[index as usize]
        } else {
            None
        }
    }

    /// Records the status of device `index`, adding it if it was not seen
    /// before; every other device keeps its status.
    pub fn update(&mut self, index: u32, status: DeviceStatus)
        ensures
            final(self)@.len() == if index < old(self)@.len() {
                old(self)@.len() as int
            } else {
                index + 1
            },
            final(self)@[index as int] == Some(status),
            forall|j: int|
                0 <= j < final(self)@.len() && j != index ==> final(self)@[j] == (if j < old(
                    self,
                )@.len() {
                    old(self)@[j]
                } else {
                    None
                }),
    {
        let ghost before = self.devices@;
        while self.devices.len() <= index as usize
            invariant
                self.devices@.len() >= before.len(),
                forall|j: int|
                    0 <= j < self.devices@.len() ==> self.devices@[j] == (if j < before.len() {
                        before[j]
                    } else {
                        None
                    }),
                before.len() <= index + 1 ==> self.devices@.len() <= index + 1,
                before.len() > index + 1 ==> self.devices@.len() == before.len(),
            decreases index + 1 - self.devices@.len(),
        {
            self.devices.push(None);
        }
        self.devices.set(index as usize, Some(status));
    }

    /// The first device of class `class`, by index.
    pub fn get_device_by_class(&self, class: VrDeviceClass) -> (r: Option<u32>)
        requires
            self@.len() <= u32::MAX + 1,
        ensures
            match r {
                Some(i) => first_of_class(self@, class, i as int),
                None => forall|j: int|
                    0 <= j < self@.len() ==> !has_class(self@[j], class),
            },
    {
        let mut i: usize = 0;
        while i < self.devices.len()
            invariant
                i <= self@.len(),
                self@.len() <= u32::MAX + 1,
                forall|j: int| 0 <= j < i ==> !has_class(self@[j], class),
            decreases self@.len() - i,
        {
            if let Some(d) = self.devices[i] {
                if d.class == class {
                    return Some(i as u32);
                }
            }
            i = i + 1;
        }
        None
    }

    /// One line `<index> -> <class> -> <colour>` for each connected device,
    /// in index order.
    pub fn display_data(&self) -> (r: String)
        ensures
            r@ == display_text(self@),
    {
        let mut out = String::new();
        let mut i: usize = 0;
        while i < self.devices.len()
            invariant
                i <= self@.len(),
                out@ == display_text(self@.subrange(0, i as int)),
            decreases self@.len() - i,
        {
            let ghost before = out@;
            assert(self@.subrange(0, i + 1).drop_last() =~= self@.subrange(0, i as int));
            if let Some(d) = self.devices[i] {
                if d.connected {
                    push_decimal(&mut out, i);
                    push_text(&mut out, " -> ");
                    push_text(&mut out, class_label(d.class));
                    push_text(&mut out, " -> ");
                    push_text(&mut out, color_label(d.class));
                    push_text(&mut out, "\n");
                    assert(out@ =~= before + device_line(i as nat, d));
                }
            }
            i = i + 1;
        }
        assert(self@.subrange(0, self@.len() as int) =~= self@);
        out
    }
}

} // verus!
