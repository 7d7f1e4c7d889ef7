//! Device discovery and format negotiation.
//!
//! The host audio subsystem enumerates input devices; the caller hands the
//! result in as a plain catalog of `DeviceInfo` entries. The logic here is
//! what the bridge decides on top of that answer: which devices are capable
//! of a minimum sample rate, and which concrete format a named device
//! resolves to.

use vstd::prelude::*;
use crate::format::AudioFormat;
use crate::CaptureError;

verus! {

/// One input device as the host audio subsystem reports it.
pub struct DeviceInfo {
    /// The device's human-readable name.
    pub name: String,
    /// One entry per supported format: that format's sample rate, in Hz.
    pub supported_rates: Vec<u32>,
    /// The device's default input format.
    pub default_format: AudioFormat,
}

/// The capability entries one device contributes: its name once for each
/// supported format whose sample rate is at least `min_rate`.
pub open spec fn entries_for(name: Seq<char>, rates: Seq<u32>, min_rate: u32) -> Seq<Seq<char>>
    decreases rates.len(),
{
    if rates.len() == 0 {
        Seq::empty()
    } else {
        entries_for(name, rates.drop_last(), min_rate) + (if rates.last() >= min_rate {
            seq![name]
        } else {
            Seq::empty()
        })
    }
}

/// The names `list_capable_devices` returns for a catalog: the devices'
/// capability entries, in catalog order.
pub open spec fn capable_names(devices: Seq<DeviceInfo>, min_rate: u32) -> Seq<Seq<char>>
    decreases devices.len(),
{
    if devices.len() == 0 {
        Seq::empty()
    } else {
        capable_names(devices.drop_last(), min_rate) + entries_for(
            devices.last().name@,
            devices.last().supported_rates@,
            min_rate,
        )
    }
}

/// List the devices capable of capturing at `min_sample_rate` or above.
///
/// Each device's name appears once for each of its supported formats whose
/// sample rate is at least `min_sample_rate`; duplicate names are kept, so a
/// device with several qualifying formats is listed several times. Fails with
/// `Enumeration` exactly when the host reported no input devices at all. A
/// query only: the catalog is not changed.
pub fn list_capable_devices(devices: &Vec<DeviceInfo>, min_sample_rate: u32) -> (r: Result<
    Vec<String>,
    CaptureError,
>)
    ensures
        r is Err <==> devices@.len() == 0,
        r is Err ==> r == Err::<Vec<String>, CaptureError>(CaptureError::Enumeration),
        r matches Ok(names) ==> names.deep_view() == capable_names(devices@, min_sample_rate),
{
    if devices.len() == 0 {
        return Err(CaptureError::Enumeration);
    }
    let mut names: Vec<String> = Vec::new();
    let mut i: usize = 0;
    while i < devices.len()
        invariant
            i <= devices@.len(),
            names.deep_view() == capable_names(devices@.subrange(0, i as int), min_sample_rate),
        decreases devices@.len() - i,
    {
        let rates = &devices[i].supported_rates;
        let mut j: usize = 0;
        while j < rates.len()
            invariant
                i < devices@.len(),
                j <= rates@.len(),
                rates == devices@[i as int].supported_rates,
                names.deep_view() == capable_names(devices@.subrange(0, i as int), min_sample_rate)
                    + entries_for(
                    devices@[i as int].name@,
                    rates@.subrange(0, j as int),
                    min_sample_rate,
                ),
            decreases rates@.len() - j,
        {
            let ghost prev = names.deep_view();
            if rates[j] >= min_sample_rate {
                names.push(devices[i].name.clone());
                proof {
                    assert(names.deep_view() =~= prev.push(devices@[i as int].name@));
                }
            }
            proof {
                let sub = rates@.subrange(0, j + 1);
                assert(sub.drop_last() =~= rates@.subrange(0, j as int));
                assert(sub.last() == rates@[j as int]);
            }
            j += 1;
        }
        proof {
            assert(rates@.subrange(0, j as int) =~= rates@);
            let sub = devices@.subrange(0, i + 1);
            assert(sub.drop_last() =~= devices@.subrange(0, i as int));
            assert(sub.last() == devices@[i as int]);
        }
        i += 1;
    }
    proof {
        assert(devices@.subrange(0, i as int) =~= devices@);
    }
    Ok(names)
}

proof fn lemma_entry_is_capable(name: Seq<char>, rates: Seq<u32>, min_rate: u32, listed: Seq<char>)
    requires
        entries_for(name, rates, min_rate).contains(listed),
    ensures
        listed == name,
        exists|j: int| 0 <= j < rates.len() && rates[j] >= min_rate,
    decreases rates.len(),
{
    let entries = entries_for(name, rates, min_rate);
    if rates.len() == 0 {
        assert(false);
    } else {
        let prefix = entries_for(name, rates.drop_last(), min_rate);
        let k = choose|k: int| 0 <= k < entries.len() && entries[k] == listed;
        if k < prefix.len() {
            assert(prefix.contains(listed)) by {
                assert(prefix[k] == listed);
            }
            lemma_entry_is_capable(name, rates.drop_last(), min_rate, listed);
            let j0 = choose|j: int|
                0 <= j < rates.drop_last().len() && rates.drop_last()[j] >= min_rate;
            assert(0 <= j0 < rates.len() && rates[j0] >= min_rate);
        } else {
            assert(rates.last() >= min_rate);
            assert(entries[k] == name);
            assert(rates[rates.len() - 1] >= min_rate);
        }
    }
}

proof fn lemma_qualifying_rate_is_entered(name: Seq<char>, rates: Seq<u32>, min_rate: u32, j: int)
    requires
        0 <= j < rates.len(),
        rates[j] >= min_rate,
    ensures
        entries_for(name, rates, min_rate).contains(name),
    decreases rates.len(),
{
    let entries = entries_for(name, rates, min_rate);
    let prefix = entries_for(name, rates.drop_last(), min_rate);
    if j == rates.len() - 1 {
        assert(rates.last() >= min_rate);
        assert(entries[prefix.len() as int] == name);
    } else {
        assert(rates.drop_last()[j] == rates[j]);
        lemma_qualifying_rate_is_entered(name, rates.drop_last(), min_rate, j);
        let k = choose|k: int| 0 <= k < prefix.len() && prefix[k] == name;
        assert(entries[k] == name);
    }
}

/// Soundness of device filtering: a name in the capability listing always
/// belongs to a device at least one of whose supported formats reaches the
/// floor. In particular, a device none of whose formats qualify is never
/// listed under its own name.
pub proof fn lemma_listed_name_has_capable_device(
    devices: Seq<DeviceInfo>,
    min_rate: u32,
    listed: Seq<char>,
)
    requires
        capable_names(devices, min_rate).contains(listed),
    ensures
        exists|i: int, j: int|
            #![auto]
            0 <= i < devices.len() && devices[i].name@ == listed && 0 <= j
                < devices[i].supported_rates@.len() && devices[i].supported_rates@[j] >= min_rate,
    decreases devices.len(),
{
    let all = capable_names(devices, min_rate);
    if devices.len() == 0 {
        assert(false);
    } else {
        let prefix = capable_names(devices.drop_last(), min_rate);
        let entries = entries_for(
            devices.last().name@,
            devices.last().supported_rates@,
            min_rate,
        );
        let k = choose|k: int| 0 <= k < all.len() && all[k] == listed;
        if k < prefix.len() {
            assert(prefix.contains(listed)) by {
                assert(prefix[k] == listed);
            }
            lemma_listed_name_has_capable_device(devices.drop_last(), min_rate, listed);
            let (i0, j0) = choose|i: int, j: int|
                #![auto]
                0 <= i < devices.drop_last().len() && devices.drop_last()[i].name@ == listed && 0
                    <= j < devices.drop_last()[i].supported_rates@.len()
                    && devices.drop_last()[i].supported_rates@[j] >= min_rate;
            assert(devices.drop_last()[i0] == devices[i0]);
            assert(0 <= i0 < devices.len() && devices[i0].name@ == listed && 0 <= j0
                < devices[i0].supported_rates@.len() && devices[i0].supported_rates@[j0]
                >= min_rate);
        } else {
            assert(entries.contains(listed)) by {
                assert(entries[k - prefix.len()] == listed);
            }
            lemma_entry_is_capable(
                devices.last().name@,
                devices.last().supported_rates@,
                min_rate,
                listed,
            );
            let j0 = choose|j: int|
                0 <= j < devices.last().supported_rates@.len()
                    && devices.last().supported_rates@[j] >= min_rate;
            let i0 = devices.len() - 1;
            assert(devices[i0] == devices.last());
            assert(0 <= i0 < devices.len() && devices[i0].name@ == listed && 0 <= j0
                < devices[i0].supported_rates@.len() && devices[i0].supported_rates@[j0]
                >= min_rate);
        }
    }
}

/// Completeness of device filtering: a device one of whose supported formats
/// reaches the floor is listed under its name — at least once, and once per
/// qualifying format in all.
pub proof fn lemma_capable_device_is_listed(
    devices: Seq<DeviceInfo>,
    min_rate: u32,
    i: int,
    j: int,
)
    requires
        0 <= i < devices.len(),
        0 <= j < devices[i].supported_rates@.len(),
        devices[i].supported_rates@[j] >= min_rate,
    ensures
        capable_names(devices, min_rate).contains(devices[i].name@),
    decreases devices.len(),
{
    let all = capable_names(devices, min_rate);
    let prefix = capable_names(devices.drop_last(), min_rate);
    let entries = entries_for(devices.last().name@, devices.last().supported_rates@, min_rate);
    if i == devices.len() - 1 {
        assert(devices[i] == devices.last());
        lemma_qualifying_rate_is_entered(
            devices.last().name@,
            devices.last().supported_rates@,
            min_rate,
            j,
        );
        let k = choose|k: int| 0 <= k < entries.len() && entries[k] == devices[i].name@;
        assert(all[prefix.len() + k] == devices[i].name@);
    } else {
        assert(devices.drop_last()[i] == devices[i]);
        lemma_capable_device_is_listed(devices.drop_last(), min_rate, i, j);
        let k = choose|k: int| 0 <= k < prefix.len() && prefix[k] == devices[i].name@;
        assert(all[k] == devices[i].name@);
    }
}

/// A device name resolved against the catalog: which entry matched, and the
/// concrete format the session will capture in.
#[derive(Clone, Copy, Debug, PartialEq, Eq, Structural)]
pub struct NegotiatedDevice {
    /// The index of the resolved device in the catalog it was resolved from.
    pub index: usize,
    /// The resolved device's default input format.
    pub format: AudioFormat,
}

/// Resolve a device name to the first catalog entry with exactly that name
/// and to that device's default input format.
///
/// Fails with `DeviceNotFound` exactly when no catalog entry's name matches
/// `device_name`.
pub fn negotiate(devices: &Vec<DeviceInfo>, device_name: &String) -> (r: Result<
    NegotiatedDevice,
    CaptureError,
>)
    ensures
        r matches Ok(nd) ==> {
            &&& nd.index < devices@.len()
            &&& devices@[nd.index as int].name@ == device_name@
            &&& nd.format == devices@[nd.index as int].default_format
            &&& forall|j: int| 0 <= j < nd.index ==> devices@[j].name@ != device_name@
        },
        r is Err <==> (forall|j: int|
            0 <= j < devices@.len() ==> devices@[j].name@ != device_name@),
        r is Err ==> r == Err::<NegotiatedDevice, CaptureError>(CaptureError::DeviceNotFound),
{
    let mut i: usize = 0;
    while i < devices.len()
        invariant
            i <= devices@.len(),
            forall|j: int| 0 <= j < i ==> devices@[j].name@ != device_name@,
        decreases devices@.len() - i,
    {
        if devices[i].name == *device_name {
            return Ok(NegotiatedDevice { index: i, format: devices[i].default_format });
        }
        i += 1;
    }
    Err(CaptureError::DeviceNotFound)
}

} // verus!
