//! Serial port autodetection: classify every available port by its OS
//! device name and USB vendor string, and decide which driver kinds to
//! construct. Ports whose names lack the USB-serial patterns are ignored,
//! whatever their vendor says; only two vendor strings map to drivers.
//!
//! The caller enumerates the ports (and later opens them); this module
//! makes every decision.

use vstd::prelude::*;
use crate::drivers::IdentifiedDeviceDriver;

verus! {

/// The closed set of driver kinds the autodetector can construct.
#[derive(Clone, Copy, Debug, PartialEq, Eq, Structural)]
pub enum DeviceDriverType {
    HeadsetGyroscope,
    SteeringWheel,
    Car,
}

impl DeviceDriverType {
    /// The stable name a kind is registered and reported under.
    pub open spec fn name_spec(&self) -> Seq<char> {
        match self {
            DeviceDriverType::HeadsetGyroscope => "HeadsetGyroscope"@,
            DeviceDriverType::SteeringWheel => "SteeringWheel"@,
            DeviceDriverType::Car => "Car"@,
        }
    }

    pub fn to_string(&self) -> (s: String)
        ensures
            s@ == self.name_spec(),
    {
        match self {
            DeviceDriverType::HeadsetGyroscope => String::from_str("HeadsetGyroscope"),
            DeviceDriverType::SteeringWheel => String::from_str("SteeringWheel"),
            DeviceDriverType::Car => String::from_str("Car"),
        }
    }
}

/// What it takes to construct one identified driver: the telemetry driver
/// needs its own port; the rig drivers share the one hub link behind the
/// named port.
#[derive(Clone, Debug)]
pub enum DriverBuild {
    HeadsetGyroscope { port_name: String },
    SteeringWheel { port_name: String },
    Car { port_name: String },
}

/// One enumerated serial port, as the caller found it: the OS device name
/// and the USB manufacturer string, if the port is a USB port at all.
#[derive(Clone, Debug)]
pub struct SerialPortInfo {
    pub port_name: String,
    pub vendor: Option<String>,
}

/// `needle` occurs somewhere in `hay`.
pub open spec fn contains_seq(hay: Seq<char>, needle: Seq<char>) -> bool {
    exists|i: int|
        0 <= i <= hay.len() - needle.len() && #[trigger] hay.subrange(i, i + needle.len())
            == needle
}

/// A port name the autodetector considers at all: it holds one of the two
/// USB-serial device name patterns.
pub open spec fn is_usb_serial_name(name: Seq<char>) -> bool {
    contains_seq(name, "ttyUSB"@) || contains_seq(name, "ttyACM"@)
}

/// Whether one enumerated port makes the case for constructing `kind`: a
/// USB-serial device name, and the vendor string of the direct-attached
/// sensor or of the hub the rig drivers hang off.
pub open spec fn port_yields(p: SerialPortInfo, kind: DeviceDriverType) -> bool {
    &&& is_usb_serial_name(p.port_name@)
    &&& match p.vendor {
        Option::Some(v) => match kind {
            DeviceDriverType::HeadsetGyroscope => v@ == "Espressif"@,
            DeviceDriverType::SteeringWheel => v@ == "1a86"@,
            DeviceDriverType::Car => v@ == "1a86"@,
        },
        Option::None => false,
    }
}

/// The three kind names differ pairwise (their lengths already do).
pub proof fn lemma_kind_names_distinct()
    ensures
        DeviceDriverType::HeadsetGyroscope.name_spec() != DeviceDriverType::SteeringWheel.name_spec(),
        DeviceDriverType::HeadsetGyroscope.name_spec() != DeviceDriverType::Car.name_spec(),
        DeviceDriverType::SteeringWheel.name_spec() != DeviceDriverType::Car.name_spec(),
{
    reveal_strlit("HeadsetGyroscope");
    reveal_strlit("SteeringWheel");
    reveal_strlit("Car");
    assert("HeadsetGyroscope"@.len() == 16);
    assert("SteeringWheel"@.len() == 13);
    assert("Car"@.len() == 3);
}

/// A port without a USB-serial name never yields a driver, whatever its
/// vendor string says.
pub proof fn lemma_non_usb_port_never_yields(p: SerialPortInfo, kind: DeviceDriverType)
    requires
        !is_usb_serial_name(p.port_name@),
    ensures
        !port_yields(p, kind),
{
}

/// Substring search over the characters of two strings.
pub fn contains_sub(hay: &str, needle: &str) -> (r: bool)
    ensures
        r == contains_seq(hay@, needle@),
{
    let hl = hay.unicode_len();
    let nl = needle.unicode_len();
    if nl > hl {
        return false;
    }
    if nl == 0 {
        proof {
            assert(hay@.subrange(0, 0 + needle@.len() as int) =~= needle@);
        }
        return true;
    }
    let mut i: usize = 0;
    while i <= hl - nl
        invariant
            1 <= nl <= hl,
            hl == hay@.len(),
            nl == needle@.len(),
            i <= hl - nl + 1,
            forall|p: int|
                0 <= p < i ==> #[trigger] hay@.subrange(p, p + needle@.len()) != needle@,
        decreases hl - nl - i + 1,
    {
        let mut j: usize = 0;
        let mut matched = true;
        while j < nl
            invariant_except_break
                matched,
                forall|q: int| 0 <= q < j ==> hay@[i + q] == needle@[q],
            invariant
                nl <= hl,
                hl == hay@.len(),
                nl == needle@.len(),
                i + nl <= hl,
                j <= nl,
            ensures
                matched ==> hay@.subrange(i as int, i + needle@.len()) =~= needle@,
                !matched ==> hay@.subrange(i as int, i + needle@.len()) != needle@,
            decreases nl - j,
        {
            if hay.get_char(i + j) != needle.get_char(j) {
                matched = false;
                proof {
                    assert(hay@.subrange(i as int, i + needle@.len())[j as int] != needle@[j as int]);
                }
                break ;
            }
            j += 1;
        }
        if matched {
            return true;
        }
        i += 1;
    }
    proof {
        assert forall|p: int| 0 <= p <= hay@.len() - needle@.len() implies #[trigger] hay@.subrange(
            p,
            p + needle@.len(),
        ) != needle@ by {
        }
    }
    false
}

/// An entry with this name is somewhere in the list.
pub open spec fn has_name(s: Seq<IdentifiedDeviceDriver>, n: Seq<char>) -> bool {
    exists|i: int| 0 <= i < s.len() && #[trigger] s[i].name@ == n
}

/// Every listed entry carries a constructible driver, registered under one
/// of the known kind names, and no name repeats.
pub open spec fn detect_list_wf(s: Seq<IdentifiedDeviceDriver>) -> bool {
    &&& forall|i: int| 0 <= i < s.len() ==> (#[trigger] s[i].driver) is Some
    &&& forall|i: int, j: int| 0 <= i < j < s.len() ==> s[i].name@ != s[j].name@
}

/// The drivers identified so far during one autodetection scan.
pub struct AutodetectDeviceDriverList {
    drivers: Vec<IdentifiedDeviceDriver>,
}

impl AutodetectDeviceDriverList {
    pub closed spec fn view(&self) -> Seq<IdentifiedDeviceDriver> {
        self.drivers@
    }

    pub fn new() -> (r: AutodetectDeviceDriverList)
        ensures
            r.view() == Seq::<IdentifiedDeviceDriver>::empty(),
            detect_list_wf(r.view()),
    {
        AutodetectDeviceDriverList { drivers: Vec::new() }
    }

    /// Register one identified kind. The first registration of a kind
    /// wins; a later one for the same kind leaves the list unchanged.
    pub fn push(&mut self, kind: DeviceDriverType, driver: DriverBuild)
        requires
            detect_list_wf(old(self).view()),
        ensures
            detect_list_wf(final(self).view()),
            has_name(old(self).view(), kind.name_spec()) ==> final(self).view() == old(
                self,
            ).view(),
            !has_name(old(self).view(), kind.name_spec()) ==> {
                &&& final(self).view().len() == old(self).view().len() + 1
                &&& final(self).view().take(old(self).view().len() as int) == old(self).view()
                &&& final(self).view().last().name@ == kind.name_spec()
                &&& final(self).view().last().driver == Some(driver)
            },
            forall|n: Seq<char>|
                #[trigger] has_name(final(self).view(), n) == (has_name(old(self).view(), n) || n
                    == kind.name_spec()),
    {
        let name = kind.to_string();
        let mut i: usize = 0;
        while i < self.drivers.len()
            invariant
                name@ == kind.name_spec(),
                forall|p: int| 0 <= p < i ==> self.drivers@[p].name@ != name@,
                i <= self.drivers@.len(),
                self.view() == old(self).view(),
                detect_list_wf(self.view()),
            decreases self.drivers@.len() - i,
        {
            if self.drivers[i].name == name {
                proof {
                    assert(self.drivers@[i as int].name@ == kind.name_spec());
                    assert(has_name(self.view(), kind.name_spec()));
                }
                return ;
            }
            i += 1;
        }
        let entry = IdentifiedDeviceDriver { driver: Some(driver), name };
        self.drivers.push(entry);
        proof {
            let v = self.view();
            let o = old(self).view();
            assert(v.take(o.len() as int) =~= o);
            assert(v.last().name@ == kind.name_spec());
            assert forall|n: Seq<char>|
                #[trigger] has_name(v, n) == (has_name(o, n) || n == kind.name_spec()) by {
                if has_name(o, n) {
                    let w = choose|i: int| 0 <= i < o.len() && #[trigger] o[i].name@ == n;
                    assert(v[w].name@ == n);
                }
                if n == kind.name_spec() {
                    assert(v[o.len() as int].name@ == n);
                }
                if has_name(v, n) {
                    let w = choose|i: int| 0 <= i < v.len() && #[trigger] v[i].name@ == n;
                    if w < o.len() {
                        assert(o[w].name@ == n);
                    }
                }
            }
        }
    }

    /// Close the scan: one entry per known kind, sorted by name; a kind
    /// never registered is recorded as not detected.
    pub fn finish(self) -> (r: Vec<IdentifiedDeviceDriver>)
        requires
            detect_list_wf(self.view()),
        ensures
            r@.len() == 3,
            r@[0].name@ == DeviceDriverType::Car.name_spec(),
            r@[1].name@ == DeviceDriverType::HeadsetGyroscope.name_spec(),
            r@[2].name@ == DeviceDriverType::SteeringWheel.name_spec(),
            (r@[0].driver is Some) == has_name(self.view(), DeviceDriverType::Car.name_spec()),
            (r@[1].driver is Some) == has_name(
                self.view(),
                DeviceDriverType::HeadsetGyroscope.name_spec(),
            ),
            (r@[2].driver is Some) == has_name(
                self.view(),
                DeviceDriverType::SteeringWheel.name_spec(),
            ),
            forall|k: int|
                0 <= k < 3 && (#[trigger] r@[k]).driver is Some ==> self.view().contains(r@[k]),
    {
        proof {
            lemma_kind_names_distinct();
        }
        let ghost s0 = self.view();
        let mut source = self;
        let car = source.take_by_name(DeviceDriverType::Car);
        let ghost s1 = source.view();
        let headset = source.take_by_name(DeviceDriverType::HeadsetGyroscope);
        let ghost s2 = source.view();
        let wheel = source.take_by_name(DeviceDriverType::SteeringWheel);
        proof {
            if headset is Some {
                let e = headset->Some_0;
                let w = choose|i: int| 0 <= i < s1.len() && s1[i] == e;
                assert(s0.contains(s1[w]));
            }
            if wheel is Some {
                let e = wheel->Some_0;
                let w2 = choose|i: int| 0 <= i < s2.len() && s2[i] == e;
                assert(s1.contains(s2[w2]));
                let w1 = choose|i: int| 0 <= i < s1.len() && s1[i] == e;
                assert(s0.contains(s1[w1]));
            }
        }
        let mut r: Vec<IdentifiedDeviceDriver> = Vec::new();
        r.push(Self::entry_or_absent(DeviceDriverType::Car, car));
        r.push(Self::entry_or_absent(DeviceDriverType::HeadsetGyroscope, headset));
        r.push(Self::entry_or_absent(DeviceDriverType::SteeringWheel, wheel));
        r
    }

    /// Remove and return the entry registered under `kind`, if any: the
    /// very record `push` stored, payload included.
    fn take_by_name(&mut self, kind: DeviceDriverType) -> (r: Option<IdentifiedDeviceDriver>)
        requires
            detect_list_wf(old(self).view()),
        ensures
            detect_list_wf(final(self).view()),
            (r is Some) == has_name(old(self).view(), kind.name_spec()),
            r matches Some(e) ==> e.name@ == kind.name_spec() && e.driver is Some && old(
                self,
            ).view().contains(e),
            forall|n: Seq<char>|
                n != kind.name_spec() ==> #[trigger] has_name(final(self).view(), n) == has_name(
                    old(self).view(),
                    n,
                ),
            forall|j: int|
                0 <= j < final(self).view().len() ==> old(self).view().contains(
                    #[trigger] final(self).view()[j],
                ),
    {
        let name = kind.to_string();
        let mut i: usize = 0;
        while i < self.drivers.len()
            invariant
                name@ == kind.name_spec(),
                forall|p: int| 0 <= p < i ==> self.drivers@[p].name@ != name@,
                i <= self.drivers@.len(),
                detect_list_wf(self.view()),
                self.view() == old(self).view(),
            decreases self.drivers@.len() - i,
        {
            if self.drivers[i].name == name {
                let e = self.drivers.remove(i);
                proof {
                    let o = old(self).view();
                    let v = self.view();
                    assert(has_name(o, kind.name_spec())) by {
                        assert(o[i as int].name@ == kind.name_spec());
                    }
                    assert(o.contains(e)) by {
                        assert(o[i as int] == e);
                    }
                    assert forall|j: int| 0 <= j < v.len() implies o.contains(
                        #[trigger] v[j],
                    ) by {
                        if j < i {
                            assert(v[j] == o[j]);
                        } else {
                            assert(v[j] == o[j + 1]);
                        }
                    }
                    assert forall|p: int| 0 <= p < v.len() implies (#[trigger] v[p].driver)
                        is Some by {
                        if p < i {
                            assert(v[p] == o[p]);
                        } else {
                            assert(v[p] == o[p + 1]);
                        }
                    }
                    assert forall|p: int, q: int| 0 <= p < q < v.len() implies v[p].name@
                        != v[q].name@ by {
                        let po: int = if p < i {
                            p
                        } else {
                            p + 1
                        };
                        let qo: int = if q < i {
                            q
                        } else {
                            q + 1
                        };
                        assert(v[p] == o[po]);
                        assert(v[q] == o[qo]);
                    }
                    assert forall|n: Seq<char>|
                        n != kind.name_spec() implies #[trigger] has_name(v, n) == has_name(o, n) by {
                        if has_name(v, n) {
                            let w = choose|p: int| 0 <= p < v.len() && #[trigger] v[p].name@ == n;
                            if w < i {
                                assert(o[w].name@ == n);
                            } else {
                                assert(o[w + 1].name@ == n);
                            }
                        }
                        if has_name(o, n) {
                            let w = choose|p: int| 0 <= p < o.len() && #[trigger] o[p].name@ == n;
                            if w < i {
                                assert(v[w].name@ == n);
                            } else {
                                assert(w != i);
                                assert(v[w - 1].name@ == n);
                            }
                        }
                    }
                }
                return Some(e);
            }
            i += 1;
        }
        proof {
            assert(!has_name(self.view(), kind.name_spec()));
            assert forall|j: int| 0 <= j < self.view().len() implies old(self).view().contains(
                #[trigger] self.view()[j],
            ) by {
                assert(old(self).view()[j] == self.view()[j]);
            }
        }
        None
    }

    /// The finished entry for one kind: what the scan registered, or a
    /// record that the kind is absent.
    fn entry_or_absent(kind: DeviceDriverType, found: Option<IdentifiedDeviceDriver>) -> (r:
        IdentifiedDeviceDriver)
        requires
            found matches Some(e) ==> e.name@ == kind.name_spec() && e.driver is Some,
        ensures
            r.name@ == kind.name_spec(),
            (r.driver is Some) == (found is Some),
            found matches Some(e) ==> r == e,
    {
        match found {
            Some(e) => e,
            None => IdentifiedDeviceDriver { driver: None, name: kind.to_string() },
        }
    }
}

} // verus!
