//! The decisions of input-device discovery: the order in which audio hosts
//! are tried, the order in which a host's devices are offered, and the result
//! once a host offered usable devices. Probing hosts and devices is left to the
//! caller.
use vstd::prelude::*;

use crate::audio::{
    host_priority, spec_backend_from_host_name, spec_host_priority, AudioBackend, AudioFailure,
    AudioFailureKind, InputDeviceInfo, InputDiscovery,
};
use crate::sorting::{first_before, insert_sorted, insertion_sort, lemma_first_before_step, lemma_insert_sorted_at};
use crate::text::chars_of;
use crate::text_rules::{lowercase, str_lowercase};

verus! {

/// The preference rank of a host name.
pub open spec fn name_priority(name: Seq<char>) -> u8 {
    spec_host_priority(spec_backend_from_host_name(name))
}

/// Host `x` is tried before host `e` when it has a better rank.
pub open spec fn host_before() -> spec_fn(Seq<char>, Seq<char>) -> bool {
    |x: Seq<char>, e: Seq<char>| name_priority(x) < name_priority(e)
}

pub open spec fn string_views(strings: Seq<String>) -> Seq<Seq<char>> {
    strings.map_values(|s: String| s@)
}

/// The host names in the order they are tried: by rank, ties in the order the
/// platform listed them.
pub fn order_hosts(hosts: Vec<String>) -> (ordered: Vec<String>)
    ensures
        string_views(ordered@) == insertion_sort(string_views(hosts@), host_before()),
{
    let ghost initial = string_views(hosts@);
    let total = hosts.len();
    let mut rest = hosts;
    let mut ordered: Vec<String> = Vec::new();
    let mut i: usize = 0;
    proof {
        assert(initial.subrange(0, 0) =~= Seq::<Seq<char>>::empty());
        assert(string_views(ordered@) =~= Seq::<Seq<char>>::empty());
        assert(string_views(rest@) =~= initial.subrange(0, initial.len() as int));
    }
    while rest.len() > 0
        invariant
            i + string_views(rest@).len() == initial.len(),
            total == initial.len(),
            string_views(rest@) == initial.subrange(i as int, initial.len() as int),
            string_views(ordered@) == insertion_sort(initial.subrange(0, i as int), host_before()),
        decreases rest@.len(),
    {
        let ghost before_rest = rest@;
        let x = rest.remove(0);
        proof {
            assert(string_views(before_rest)[0] == before_rest[0]@);
            assert(initial.subrange(i as int, initial.len() as int)[0] == initial[i as int]);
            assert(x@ == initial[i as int]);
            assert(string_views(rest@) =~= string_views(before_rest).drop_first());
            assert(initial.subrange(i as int, initial.len() as int).drop_first() =~= initial.subrange(
                i + 1,
                initial.len() as int,
            ));
        }
        let x_priority = host_priority(x.as_str());
        let ghost sorted = string_views(ordered@);
        let mut k: usize = 0;
        while k < ordered.len() && !(x_priority < host_priority(ordered[k].as_str()))
            invariant
                k <= ordered@.len(),
                sorted == string_views(ordered@),
                x_priority == name_priority(x@),
                first_before(x@, sorted, host_before(), 0) == first_before(x@, sorted, host_before(), k as int),
            decreases ordered@.len() - k,
        {
            proof {
                lemma_first_before_step(x@, sorted, host_before(), k as int);
            }
            k = k + 1;
        }
        proof {
            lemma_insert_sorted_at(x@, sorted, host_before());
            assert(initial.subrange(0, i + 1).drop_last() =~= initial.subrange(0, i as int));
            assert(initial.subrange(0, i + 1).last() == x@);
        }
        let ghost x_view = x@;
        ordered.insert(k, x);
        proof {
            assert(string_views(ordered@) =~= sorted.subrange(0, k as int) + seq![x_view]
                + sorted.subrange(k as int, sorted.len() as int));
        }
        i = i + 1;
    }
    proof {
        assert(initial.subrange(0, initial.len() as int) =~= initial);
    }
    ordered
}

/// Lexicographic order of character sequences by code point, which is the
/// byte order of their UTF-8 encodings.
pub open spec fn lex_less(a: Seq<char>, b: Seq<char>) -> bool
    decreases a.len(),
{
    if a.len() == 0 {
        b.len() > 0
    } else if b.len() == 0 {
        false
    } else if a[0] < b[0] {
        true
    } else if a[0] > b[0] {
        false
    } else {
        lex_less(a.drop_first(), b.drop_first())
    }
}

fn chars_less(a: &Vec<char>, b: &Vec<char>) -> (less: bool)
    ensures
        less == lex_less(a@, b@),
{
    let mut i: usize = 0;
    let an = a.len();
    let bn = b.len();
    proof {
        assert(a@.subrange(0, an as int) =~= a@);
        assert(b@.subrange(0, bn as int) =~= b@);
    }
    while i < an && i < bn
        invariant
            an == a@.len(),
            bn == b@.len(),
            i <= an,
            i <= bn,
            lex_less(a@, b@) == lex_less(a@.subrange(i as int, an as int), b@.subrange(i as int, bn as int)),
        decreases an - i,
    {
        let x = a[i];
        let y = b[i];
        proof {
            assert(a@.subrange(i as int, an as int)[0] == a@[i as int]);
            assert(b@.subrange(i as int, bn as int)[0] == b@[i as int]);
            assert(a@.subrange(i as int, an as int).drop_first() =~= a@.subrange(i + 1, an as int));
            assert(b@.subrange(i as int, bn as int).drop_first() =~= b@.subrange(i + 1, bn as int));
        }
        if x < y {
            return true;
        }
        if x > y {
            return false;
        }
        i = i + 1;
    }
    i == an && i < bn
}

/// Device `x` is offered before device `e`: default devices first, then by
/// lowercase name, then by identifier.
pub open spec fn device_before() -> spec_fn(InputDeviceInfo, InputDeviceInfo) -> bool {
    |x: InputDeviceInfo, e: InputDeviceInfo|
        {
            let lx = str_lowercase(x.name@);
            let le = str_lowercase(e.name@);
            ||| (x.is_default && !e.is_default)
            ||| (x.is_default == e.is_default && lex_less(lx, le))
            ||| (x.is_default == e.is_default && lx == le && lex_less(x.id@, e.id@))
        }
}

fn goes_before(x: &InputDeviceInfo, x_lower: &Vec<char>, e: &InputDeviceInfo) -> (before: bool)
    requires
        x_lower@ == str_lowercase(x.name@),
    ensures
        before == device_before()(*x, *e),
{
    if x.is_default && !e.is_default {
        return true;
    }
    if x.is_default != e.is_default {
        return false;
    }
    let e_lower = chars_of(lowercase(e.name.as_str()).as_str());
    if chars_less(x_lower, &e_lower) {
        return true;
    }
    if chars_less(&e_lower, x_lower) {
        proof {
            lemma_lex_less_asymmetric(e_lower@, x_lower@);
        }
        return false;
    }
    proof {
        lemma_lex_less_total(x_lower@, e_lower@);
    }
    let x_id = chars_of(x.id.as_str());
    let e_id = chars_of(e.id.as_str());
    chars_less(&x_id, &e_id)
}

proof fn lemma_lex_less_asymmetric(a: Seq<char>, b: Seq<char>)
    requires
        lex_less(a, b),
    ensures
        !lex_less(b, a),
        a != b,
    decreases a.len(),
{
    if a.len() > 0 && b.len() > 0 && a[0] == b[0] {
        lemma_lex_less_asymmetric(a.drop_first(), b.drop_first());
    }
}

proof fn lemma_lex_less_total(a: Seq<char>, b: Seq<char>)
    requires
        !lex_less(a, b),
        !lex_less(b, a),
    ensures
        a == b,
    decreases a.len(),
{
    if a.len() > 0 && b.len() > 0 {
        lemma_lex_less_total(a.drop_first(), b.drop_first());
        assert(a[0] == b[0]);
        assert(a =~= seq![a[0]] + a.drop_first());
        assert(b =~= seq![b[0]] + b.drop_first());
    } else {
        assert(a.len() == 0 && b.len() == 0);
        assert(a =~= b);
    }
}

/// A host's devices in the order they are offered.
pub fn order_devices(devices: Vec<InputDeviceInfo>) -> (ordered: Vec<InputDeviceInfo>)
    ensures
        ordered@ == insertion_sort(devices@, device_before()),
{
    let ghost initial = devices@;
    let total = devices.len();
    let mut rest = devices;
    let mut ordered: Vec<InputDeviceInfo> = Vec::new();
    let mut i: usize = 0;
    proof {
        assert(initial.subrange(0, 0) =~= Seq::<InputDeviceInfo>::empty());
        assert(ordered@ =~= Seq::<InputDeviceInfo>::empty());
        assert(rest@ =~= initial.subrange(0, initial.len() as int));
    }
    while rest.len() > 0
        invariant
            i + rest@.len() == initial.len(),
            total == initial.len(),
            rest@ == initial.subrange(i as int, initial.len() as int),
            ordered@ == insertion_sort(initial.subrange(0, i as int), device_before()),
        decreases rest@.len(),
    {
        let ghost before_rest = rest@;
        let x = rest.remove(0);
        proof {
            assert(initial.subrange(i as int, initial.len() as int)[0] == initial[i as int]);
            assert(x == initial[i as int]);
            assert(rest@ =~= initial.subrange(i + 1, initial.len() as int));
        }
        let x_lower = chars_of(lowercase(x.name.as_str()).as_str());
        let ghost sorted = ordered@;
        let mut k: usize = 0;
        while k < ordered.len() && !goes_before(&x, &x_lower, &ordered[k])
            invariant
                k <= ordered@.len(),
                sorted == ordered@,
                x_lower@ == str_lowercase(x.name@),
                first_before(x, sorted, device_before(), 0) == first_before(x, sorted, device_before(), k as int),
            decreases ordered@.len() - k,
        {
            proof {
                lemma_first_before_step(x, sorted, device_before(), k as int);
            }
            k = k + 1;
        }
        proof {
            lemma_insert_sorted_at(x, sorted, device_before());
            assert(initial.subrange(0, i + 1).drop_last() =~= initial.subrange(0, i as int));
            assert(initial.subrange(0, i + 1).last() == x);
        }
        let ghost x_value = x;
        ordered.insert(k, x);
        proof {
            assert(ordered@ =~= sorted.subrange(0, k as int) + seq![x_value] + sorted.subrange(
                k as int,
                sorted.len() as int,
            ));
        }
        i = i + 1;
    }
    proof {
        assert(initial.subrange(0, initial.len() as int) =~= initial);
    }
    ordered
}

/// What probing one host gave: the discovery, when it offered usable devices,
/// or the failures so far with one more recording that it offered none.
pub fn finish_host(
    backend: AudioBackend,
    discovered: Vec<InputDeviceInfo>,
    failures: Vec<AudioFailure>,
) -> (result: Result<InputDiscovery, Vec<AudioFailure>>)
    ensures
        match result {
            Ok(discovery) => discovered@.len() > 0 && discovery.selected_backend == Some(backend)
                && discovery.devices@ == insertion_sort(discovered@, device_before())
                && discovery.failures@ == failures@,
            Err(all) => discovered@.len() == 0 && all@.len() == failures@.len() + 1
                && all@.subrange(0, failures@.len() as int) == failures@ && all@.last().backend == Some(
                backend,
            ) && all@.last().device_id is None && all@.last().kind == AudioFailureKind::NoInputDevices
                && all@.last().message@ == "audio backend exposed no usable input devices"@,
        },
{
    if discovered.len() > 0 {
        return Ok(
            InputDiscovery {
                selected_backend: Some(backend),
                devices: order_devices(discovered),
                failures,
            },
        );
    }
    let mut all = failures;
    let ghost before = all@;
    all.push(
        AudioFailure {
            backend: Some(backend),
            device_id: None,
            kind: AudioFailureKind::NoInputDevices,
            message: String::from_str("audio backend exposed no usable input devices"),
        },
    );
    proof {
        assert(all@.subrange(0, before.len() as int) =~= before);
    }
    Err(all)
}

/// The discovery when no host offered a usable device.
pub fn no_usable_host(failures: Vec<AudioFailure>) -> (discovery: InputDiscovery)
    ensures
        discovery.selected_backend is None,
        discovery.devices@.len() == 0,
        discovery.failures@ == failures@,
{
    InputDiscovery { selected_backend: None, devices: Vec::new(), failures }
}

/// Default devices are offered first.
pub proof fn law_default_devices_come_first(devices: Seq<InputDeviceInfo>, i: int, j: int)
    requires
        0 <= i < j < devices.len(),
        devices[j].is_default,
        !devices[i].is_default,
    ensures
        device_before()(devices[j], devices[i]),
{
}

} // verus!
