//! Audio devices as the clients list them, and the collector that cuts a
//! stream of samples into frames of a fixed size for the voice encoder.

use vstd::prelude::*;
use crate::text::{
    lemma_lex_le_antisymmetric, lemma_lex_le_reflexive, lemma_lex_le_total, lemma_lex_le_transitive,
    lex_le, opt_text, str_equals, text_le, texts, trim_spec, trim_str,
};
use vstd::relations::{sorted_by, total_ordering};
use vstd::seq_lib::{lemma_sorted_unique, to_multiset_insert};

verus! {

/// Audio sample rate in Hz (standard for the Opus codec).
pub const SAMPLE_RATE: u32 = 48000;

/// Frame size in samples (20 ms at 48 kHz).
pub const FRAME_SIZE: usize = 960;

/// Number of audio channels (mono for voice).
pub const CHANNELS: u16 = 1;

/// Ring buffer size in samples (about 1.7 seconds of mono audio at 48 kHz).
pub const BUFFER_SIZE: usize = 81920;

/// Information about an audio device.
#[derive(Debug)]
pub struct AudioDeviceInfo {
    pub name: String,
    pub is_input: bool,
    pub is_default: bool,
}

impl Clone for AudioDeviceInfo {
    fn clone(&self) -> (r: Self)
        ensures
            r == *self,
    {
        AudioDeviceInfo { name: self.name.clone(), is_input: self.is_input, is_default: self.is_default }
    }
}

/// Whether `name` is one of the names that audio backends give their
/// virtual devices rather than a piece of hardware.
pub open spec fn is_backend_name(name: Seq<char>) -> bool {
    name == "default"@ || name == "pipewire"@ || name == "pulse"@ || name == "jack"@ || name == "null"@
}

/// The name under which a device is shown: backend names get a description,
/// `null` and blank names give the empty text (the device is left out), any
/// other name is shown without surrounding white space.
pub open spec fn friendly_name_spec(name: Seq<char>) -> Seq<char> {
    if name == "default"@ {
        "System Default"@
    } else if name == "pipewire"@ {
        "PipeWire (System Audio)"@
    } else if name == "pulse"@ {
        "PulseAudio"@
    } else if name == "jack"@ {
        "JACK Audio"@
    } else if name == "null"@ {
        Seq::empty()
    } else {
        trim_spec(name)
    }
}

/// The name under which a device is shown (see `friendly_name_spec`).
pub fn friendly_device_name(name: &str) -> (r: String)
    ensures
        r@ == friendly_name_spec(name@),
{
    if str_equals(name, "default") {
        "System Default".to_string()
    } else if str_equals(name, "pipewire") {
        "PipeWire (System Audio)".to_string()
    } else if str_equals(name, "pulse") {
        "PulseAudio".to_string()
    } else if str_equals(name, "jack") {
        "JACK Audio".to_string()
    } else if str_equals(name, "null") {
        String::new()
    } else {
        trim_str(name).to_string()
    }
}

/// Whether a device name names hardware rather than an audio backend.
pub fn is_hardware_device(name: &str) -> (r: bool)
    ensures
        r == !is_backend_name(name@),
{
    !(str_equals(name, "default") || str_equals(name, "pipewire") || str_equals(name, "pulse")
        || str_equals(name, "jack") || str_equals(name, "null"))
}

/// A device as the contracts see it: the name shown, whether it records,
/// whether it is the system's default.
pub type DeviceView = (Seq<char>, bool, bool);

impl View for AudioDeviceInfo {
    type V = DeviceView;

    open spec fn view(&self) -> DeviceView {
        (self.name@, self.is_input, self.is_default)
    }
}

/// The views of a list of devices.
pub open spec fn device_views(v: Seq<AudioDeviceInfo>) -> Seq<DeviceView> {
    v.map_values(|d: AudioDeviceInfo| d@)
}

/// A device found by the sound system, as the listing sorts it: the name
/// shown, whether it records, whether it is the system's default, and whether
/// it is hardware, judged by its raw name before it is made friendly.
pub type CandidateView = (Seq<char>, bool, bool, bool);

/// What the user is shown of a candidate.
pub open spec fn shown_device(c: CandidateView) -> DeviceView {
    (c.0, c.1, c.2)
}

/// What the user is shown of a list of candidates.
pub open spec fn shown_devices(s: Seq<CandidateView>) -> Seq<DeviceView> {
    s.map_values(|c: CandidateView| shown_device(c))
}

/// The order in which devices are listed: hardware before audio backends
/// (judged by the raw names); within each, the system default first, then by
/// shown name (as `str::cmp` orders names); a recording device after a playing
/// one of the same name.
pub open spec fn device_order(a: CandidateView, b: CandidateView) -> bool {
    if a.3 != b.3 {
        a.3
    } else if a.2 != b.2 {
        a.2
    } else if a.0 != b.0 {
        lex_le(a.0, b.0)
    } else {
        !a.1 || b.1
    }
}

/// `device_order` as a relation.
pub open spec fn device_leq() -> spec_fn(CandidateView, CandidateView) -> bool {
    |a: CandidateView, b: CandidateView| device_order(a, b)
}

/// The order of devices is a total order.
pub proof fn lemma_device_order_total()
    ensures
        total_ordering(device_leq()),
{
    let r = device_leq();
    assert forall|x: CandidateView| #[trigger] r(x, x) by {
        lemma_lex_le_reflexive(x.0);
    }
    assert forall|x: CandidateView, y: CandidateView| #[trigger] r(x, y) && #[trigger] r(y, x) implies x == y by {
        lemma_lex_le_antisymmetric(x.0, y.0);
    }
    assert forall|x: CandidateView, y: CandidateView, z: CandidateView|
        #[trigger] r(x, y) && #[trigger] r(y, z) implies r(x, z) by {
        lemma_lex_le_transitive(x.0, y.0, z.0);
        lemma_lex_le_antisymmetric(x.0, y.0);
        lemma_lex_le_antisymmetric(y.0, z.0);
        lemma_lex_le_antisymmetric(x.0, z.0);
    }
    assert forall|x: CandidateView, y: CandidateView| #[trigger] r(x, y) || #[trigger] r(y, x) by {
        lemma_lex_le_total(x.0, y.0);
    }
}

/// The devices that the raw names give, in the order of the names: each
/// shown under its friendly name, those whose friendly name is empty left
/// out, the one whose raw name is the system default's marked as default,
/// each counted as hardware when its raw name is not an audio backend's.
pub open spec fn device_candidates(
    raw: Seq<Seq<char>>,
    default_name: Option<Seq<char>>,
    is_input: bool,
) -> Seq<CandidateView>
    decreases raw.len(),
{
    if raw.len() == 0 {
        Seq::empty()
    } else {
        let rest = device_candidates(raw.drop_last(), default_name, is_input);
        let shown = friendly_name_spec(raw.last());
        if shown.len() == 0 {
            rest
        } else {
            rest.push((shown, is_input, default_name == Some(raw.last()), !is_backend_name(raw.last())))
        }
    }
}

/// The list without each device whose name equals that of the device just
/// before it.
pub open spec fn dedup_names(s: Seq<CandidateView>) -> Seq<CandidateView>
    decreases s.len(),
{
    if s.len() == 0 {
        s
    } else {
        let rest = dedup_names(s.drop_last());
        if s.len() >= 2 && s[s.len() - 2].0 == s.last().0 {
            rest
        } else {
            rest.push(s.last())
        }
    }
}

/// The devices listed, before a placeholder stands in for an empty list: the
/// candidates sorted by `device_order`, repeated names dropped.
pub open spec fn listed_devices(
    raw: Seq<Seq<char>>,
    default_name: Option<Seq<char>>,
    is_input: bool,
) -> Seq<CandidateView> {
    dedup_names(device_candidates(raw, default_name, is_input).sort_by(device_leq()))
}

/// The devices as the user sees them: those of `listed_devices`, or a
/// "System Default" placeholder when there are none.
pub open spec fn arranged_devices(
    raw: Seq<Seq<char>>,
    default_name: Option<Seq<char>>,
    is_input: bool,
) -> Seq<DeviceView> {
    let kept = listed_devices(raw, default_name, is_input);
    if kept.len() == 0 {
        seq![("System Default"@, is_input, true)]
    } else {
        shown_devices(kept)
    }
}

/// Each device that `dedup_names` keeps is in the list it was given.
proof fn lemma_dedup_names_from(s: Seq<CandidateView>)
    ensures
        forall|i: int| 0 <= i < dedup_names(s).len() ==> s.contains(#[trigger] dedup_names(s)[i]),
        s.len() > 0 ==> dedup_names(s).len() > 0 && dedup_names(s).last().0 == s.last().0,
    decreases s.len(),
{
    if s.len() > 0 {
        let t = s.drop_last();
        lemma_dedup_names_from(t);
        let d = dedup_names(s);
        assert forall|i: int| 0 <= i < d.len() implies s.contains(#[trigger] d[i]) by {
            if i < dedup_names(t).len() {
                assert(t.contains(dedup_names(t)[i]));
                let k = choose|k: int| 0 <= k < t.len() && t[k] == dedup_names(t)[i];
                assert(s[k] == t[k]);
            } else {
                assert(s[s.len() - 1] == s.last());
            }
        }
        if s.len() >= 2 && s[s.len() - 2].0 == s.last().0 {
            assert(t.last() == s[s.len() - 2]);
        }
    }
}

/// Dropping repeated names keeps a list in `device_order`, and leaves no
/// two neighbours with the same name.
pub proof fn lemma_dedup_names_sorted(s: Seq<CandidateView>)
    requires
        sorted_by(s, device_leq()),
    ensures
        sorted_by(dedup_names(s), device_leq()),
        forall|i: int| 0 <= i < dedup_names(s).len() - 1 ==> (#[trigger] dedup_names(s)[i]).0 != dedup_names(s)[i + 1].0,
    decreases s.len(),
{
    if s.len() > 0 {
        let t = s.drop_last();
        assert(sorted_by(t, device_leq()));
        lemma_dedup_names_sorted(t);
        lemma_dedup_names_from(t);
        let dt = dedup_names(t);
        let d = dedup_names(s);
        if !(s.len() >= 2 && s[s.len() - 2].0 == s.last().0) {
            assert(d == dt.push(s.last()));
            assert forall|a: int, b: int| 0 <= a < b < d.len() implies #[trigger] device_leq()(d[a], d[b]) by {
                if b == d.len() - 1 {
                    assert(t.contains(dt[a]));
                    let k = choose|k: int| 0 <= k < t.len() && t[k] == dt[a];
                    assert(s[k] == t[k]);
                    assert(device_leq()(s[k], s[s.len() - 1]));
                } else {
                    assert(d[a] == dt[a] && d[b] == dt[b]);
                }
            }
            assert forall|i: int| 0 <= i < d.len() - 1 implies (#[trigger] d[i]).0 != d[i + 1].0 by {
                if i == d.len() - 2 {
                    assert(dt.last().0 == t.last().0);
                    assert(t.last() == s[s.len() - 2]);
                } else {
                    assert(d[i] == dt[i] && d[i + 1] == dt[i + 1]);
                }
            }
        }
    }
}

/// Every candidate device has the direction asked for.
proof fn lemma_candidates_direction(raw: Seq<Seq<char>>, default_name: Option<Seq<char>>, is_input: bool)
    ensures
        forall|i: int|
            0 <= i < device_candidates(raw, default_name, is_input).len()
                ==> (#[trigger] device_candidates(raw, default_name, is_input)[i]).1 == is_input,
    decreases raw.len(),
{
    if raw.len() > 0 {
        lemma_candidates_direction(raw.drop_last(), default_name, is_input);
        let rest = device_candidates(raw.drop_last(), default_name, is_input);
        let c = device_candidates(raw, default_name, is_input);
        assert forall|i: int| 0 <= i < c.len() implies (#[trigger] c[i]).1 == is_input by {
            if i < rest.len() {
                assert(c[i] == rest[i]);
            }
        }
    }
}

/// The device list is never empty; the devices listed are in `device_order`,
/// so every hardware device (by raw name) comes before every audio backend;
/// the list never shows one name twice in a row, and holds devices of the
/// direction asked for only.
pub proof fn law_device_listing(raw: Seq<Seq<char>>, default_name: Option<Seq<char>>, is_input: bool)
    ensures
        arranged_devices(raw, default_name, is_input).len() > 0,
        sorted_by(listed_devices(raw, default_name, is_input), device_leq()),
        forall|i: int, j: int|
            0 <= i < j < listed_devices(raw, default_name, is_input).len()
                && (#[trigger] listed_devices(raw, default_name, is_input)[j]).3
                ==> (#[trigger] listed_devices(raw, default_name, is_input)[i]).3,
        forall|i: int|
            0 <= i < arranged_devices(raw, default_name, is_input).len() - 1
                ==> (#[trigger] arranged_devices(raw, default_name, is_input)[i]).0
                    != arranged_devices(raw, default_name, is_input)[i + 1].0,
        forall|i: int|
            0 <= i < arranged_devices(raw, default_name, is_input).len()
                ==> (#[trigger] arranged_devices(raw, default_name, is_input)[i]).1 == is_input,
{
    lemma_device_order_total();
    let c = device_candidates(raw, default_name, is_input);
    c.lemma_sort_by_ensures(device_leq());
    let sorted = c.sort_by(device_leq());
    lemma_dedup_names_sorted(sorted);
    lemma_dedup_names_from(sorted);
    lemma_candidates_direction(raw, default_name, is_input);
    let kept = dedup_names(sorted);
    let r = arranged_devices(raw, default_name, is_input);
    assert forall|i: int, j: int| 0 <= i < j < kept.len() && (#[trigger] kept[j]).3 implies (#[trigger] kept[i]).3 by {
        assert(device_leq()(kept[i], kept[j]));
    }
    assert forall|i: int| 0 <= i < r.len() - 1 implies (#[trigger] r[i]).0 != r[i + 1].0 by {
        assert(r[i] == shown_device(kept[i]) && r[i + 1] == shown_device(kept[i + 1]));
    }
    assert forall|i: int| 0 <= i < r.len() implies (#[trigger] r[i]).1 == is_input by {
        if kept.len() > 0 {
            assert(r[i] == shown_device(kept[i]));
            assert(sorted.contains(kept[i]));
            assert(c.contains(kept[i]));
            let k = choose|k: int| 0 <= k < c.len() && c[k] == kept[i];
            assert(c[k].1 == is_input);
        }
    }
}

/// A device as the listing sorts it (see `CandidateView`).
struct Candidate {
    info: AudioDeviceInfo,
    hardware: bool,
}

impl View for Candidate {
    type V = CandidateView;

    closed spec fn view(&self) -> CandidateView {
        (self.info.name@, self.info.is_input, self.info.is_default, self.hardware)
    }
}

impl Clone for Candidate {
    fn clone(&self) -> (r: Self)
        ensures
            r == *self,
    {
        Candidate { info: self.info.clone(), hardware: self.hardware }
    }
}

/// The views of a list of candidates.
spec fn candidate_views(v: Seq<Candidate>) -> Seq<CandidateView> {
    v.map_values(|d: Candidate| d@)
}

/// Whether device `a` is listed no later than device `b` (`device_order`).
fn device_le(a: &Candidate, b: &Candidate) -> (r: bool)
    ensures
        r == device_order(a@, b@),
{
    if a.hardware != b.hardware {
        a.hardware
    } else if a.info.is_default != b.info.is_default {
        a.info.is_default
    } else if !str_equals(a.info.name.as_str(), b.info.name.as_str()) {
        text_le(a.info.name.as_str(), b.info.name.as_str())
    } else {
        !a.info.is_input || b.info.is_input
    }
}

/// The devices of a list in `device_order`.
fn sort_devices(items: &Vec<Candidate>) -> (r: Vec<Candidate>)
    ensures
        candidate_views(r@) == candidate_views(items@).sort_by(device_leq()),
{
    let ghost leq = device_leq();
    proof {
        lemma_device_order_total();
    }
    let mut sorted: Vec<Candidate> = Vec::new();
    let mut j: usize = 0;
    proof {
        assert(candidate_views(sorted@) =~= candidate_views(items@.take(0)));
    }
    while j < items.len()
        invariant
            j <= items@.len(),
            total_ordering(leq),
            leq == device_leq(),
            sorted_by(candidate_views(sorted@), leq),
            candidate_views(sorted@).to_multiset() == candidate_views(items@.take(j as int)).to_multiset(),
        decreases items@.len() - j,
    {
        let d = items[j].clone();
        let ghost s = candidate_views(sorted@);
        let mut k: usize = 0;
        while k < sorted.len() && device_le(&sorted[k], &d)
            invariant
                k <= sorted@.len(),
                s == candidate_views(sorted@),
                leq == device_leq(),
                forall|t: int| 0 <= t < k ==> device_order(#[trigger] s[t], d@),
            decreases sorted@.len() - k,
        {
            k = k + 1;
        }
        proof {
            if k < s.len() {
                assert(!device_order(s[k as int], d@));
                assert(leq(s[k as int], d@) || leq(d@, s[k as int]));
                assert forall|t: int| k <= t < s.len() implies device_order(d@, #[trigger] s[t]) by {
                    assert(leq(s[k as int], s[t]) || k == t);
                    assert(leq(d@, s[k as int]));
                    assert(leq(d@, s[k as int]) && leq(s[k as int], s[t]) ==> leq(d@, s[t]));
                }
            }
        }
        sorted.insert(k, d);
        proof {
            let n = candidate_views(sorted@);
            assert(n =~= s.insert(k as int, d@));
            assert forall|a: int, b: int| 0 <= a < b < n.len() implies #[trigger] leq(n[a], n[b]) by {
                if b < k {
                    assert(n[a] == s[a] && n[b] == s[b]);
                } else if b == k {
                    assert(n[a] == s[a]);
                } else if a < k {
                    assert(n[a] == s[a] && n[b] == s[b - 1]);
                    assert(leq(s[a], d@));
                    assert(leq(d@, s[b - 1]));
                    assert(leq(s[a], d@) && leq(d@, s[b - 1]) ==> leq(s[a], s[b - 1]));
                } else if a == k {
                    assert(n[b] == s[b - 1]);
                } else {
                    assert(n[a] == s[a - 1] && n[b] == s[b - 1]);
                }
            }
            to_multiset_insert(s, k as int, d@);
            let p = items@.take(j as int);
            assert(items@.take(j + 1) =~= p.push(items@[j as int]));
            assert(candidate_views(items@.take(j + 1)) =~= candidate_views(p).push(d@));
            candidate_views(p).to_multiset_ensures();
        }
        j = j + 1;
    }
    proof {
        assert(items@.take(items@.len() as int) =~= items@);
        let v = candidate_views(items@);
        v.lemma_sort_by_ensures(leq);
        lemma_sorted_unique(candidate_views(sorted@), v.sort_by(leq), leq);
    }
    sorted
}

/// The devices that the sound system reports, as they are listed: the raw
/// names in `raw_names`, `default_name` the raw name of the system's default
/// device (see `arranged_devices`).
pub fn arrange_devices(raw_names: Vec<String>, default_name: Option<String>, is_input: bool) -> (r: Vec<
    AudioDeviceInfo,
>)
    ensures
        device_views(r@) == arranged_devices(texts(raw_names@), opt_text(default_name), is_input),
{
    let ghost raw = texts(raw_names@);
    let ghost dflt = opt_text(default_name);
    let mut cands: Vec<Candidate> = Vec::new();
    let mut i: usize = 0;
    while i < raw_names.len()
        invariant
            i <= raw_names@.len(),
            raw == texts(raw_names@),
            dflt == opt_text(default_name),
            candidate_views(cands@) == device_candidates(raw.take(i as int), dflt, is_input),
        decreases raw_names@.len() - i,
    {
        let shown = friendly_device_name(raw_names[i].as_str());
        proof {
            assert(raw.take(i + 1).drop_last() =~= raw.take(i as int));
            assert(raw.take(i + 1).last() == raw_names@[i as int]@);
        }
        if !shown.as_str().is_empty() {
            let is_default = match &default_name {
                Some(d) => str_equals(raw_names[i].as_str(), d.as_str()),
                None => false,
            };
            let hardware = is_hardware_device(raw_names[i].as_str());
            let ghost before = candidate_views(cands@);
            cands.push(Candidate { info: AudioDeviceInfo { name: shown, is_input, is_default }, hardware });
            proof {
                assert(candidate_views(cands@) =~= before.push(cands@.last()@));
            }
        }
        i = i + 1;
    }
    proof {
        assert(raw.take(raw.len() as int) =~= raw);
    }
    let sorted = sort_devices(&cands);
    let ghost s = candidate_views(sorted@);
    let mut out: Vec<AudioDeviceInfo> = Vec::new();
    let mut j: usize = 0;
    proof {
        assert(device_views(out@) =~= shown_devices(dedup_names(s.take(0))));
    }
    while j < sorted.len()
        invariant
            j <= sorted@.len(),
            s == candidate_views(sorted@),
            device_views(out@) == shown_devices(dedup_names(s.take(j as int))),
        decreases sorted@.len() - j,
    {
        proof {
            assert(s.take(j + 1).drop_last() =~= s.take(j as int));
            assert(s.take(j + 1).last() == s[j as int]);
            if j >= 1 {
                assert(s.take(j + 1)[j - 1] == s[j - 1]);
            }
        }
        if j == 0 || !str_equals(sorted[j - 1].info.name.as_str(), sorted[j].info.name.as_str()) {
            let ghost before = dedup_names(s.take(j as int));
            let ghost old_out = out@;
            let item = sorted[j].info.clone();
            out.push(item);
            proof {
                assert(dedup_names(s.take(j + 1)) == before.push(s[j as int]));
                assert(s[j as int] == sorted@[j as int]@);
                assert(item@ == shown_device(s[j as int]));
                assert(out@ == old_out.push(item));
                assert(device_views(out@) =~= device_views(old_out).push(item@));
                assert(device_views(out@) =~= shown_devices(before.push(s[j as int])));
            }
        }
        j = j + 1;
    }
    proof {
        assert(s.take(s.len() as int) =~= s);
    }
    if out.len() == 0 {
        out.push(AudioDeviceInfo { name: "System Default".to_string(), is_input, is_default: true });
        proof {
            assert(device_views(out@) =~= seq![("System Default"@, is_input, true)]);
        }
    } else {
        proof {
            assert(s.len() > 0);
        }
    }
    out
}

/// Collects samples into frames of `frame_size` samples.
pub struct FrameCollector<T> {
    buffer: Vec<T>,
    frame_size: usize,
}

impl<T: Copy> FrameCollector<T> {
    /// The samples waiting, oldest first.
    pub closed spec fn pending_samples(&self) -> Seq<T> {
        self.buffer@
    }

    /// The size of the frames handed out.
    pub closed spec fn frame_len(&self) -> nat {
        self.frame_size as nat
    }

    /// An empty collector for frames of `frame_size` samples.
    pub fn new(frame_size: usize) -> (r: Self)
        ensures
            r.pending_samples() == Seq::<T>::empty(),
            r.frame_len() == frame_size,
    {
        FrameCollector { buffer: Vec::new(), frame_size }
    }

    /// Append samples after those waiting.
    pub fn push_samples(&mut self, samples: &[T])
        requires
            old(self).pending_samples().len() + samples@.len() <= usize::MAX,
        ensures
            final(self).pending_samples() == old(self).pending_samples() + samples@,
            final(self).frame_len() == old(self).frame_len(),
    {
        let mut i: usize = 0;
        while i < samples.len()
            invariant
                i <= samples@.len(),
                self.buffer@ == old(self).buffer@ + samples@.subrange(0, i as int),
                self.frame_size == old(self).frame_size,
            decreases samples@.len() - i,
        {
            self.buffer.push(samples[i]);
            i = i + 1;
            assert(self.buffer@ =~= old(self).buffer@ + samples@.subrange(0, i as int));
        }
        assert(samples@.subrange(0, samples@.len() as int) =~= samples@);
    }

    /// Take the oldest `frame_size` samples as a frame, when that many wait.
    pub fn pop_frame(&mut self) -> (r: Option<Vec<T>>)
        ensures
            final(self).frame_len() == old(self).frame_len(),
            old(self).pending_samples().len() >= old(self).frame_len() ==> (r matches Some(f)
                && f@ == old(self).pending_samples().take(old(self).frame_len() as int)
                && final(self).pending_samples() == old(self).pending_samples().skip(old(self).frame_len() as int)),
            old(self).pending_samples().len() < old(self).frame_len() ==> r is None
                && final(self).pending_samples() == old(self).pending_samples(),
    {
        if self.buffer.len() >= self.frame_size {
            let mut frame = self.buffer.split_off(self.frame_size);
            std::mem::swap(&mut frame, &mut self.buffer);
            Some(frame)
        } else {
            None
        }
    }

    /// How many samples wait.
    pub fn pending(&self) -> (r: usize)
        ensures
            r == self.pending_samples().len(),
    {
        self.buffer.len()
    }

    /// Drop the waiting samples.
    pub fn clear(&mut self)
        ensures
            final(self).pending_samples() == Seq::<T>::empty(),
            final(self).frame_len() == old(self).frame_len(),
    {
        self.buffer.clear();
    }
}

} // verus!
