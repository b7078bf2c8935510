//! Microphone discovery: reading the device list that ffmpeg's AVFoundation
//! input prints, and choosing the device to capture from.
use vstd::prelude::*;
use crate::config::{first_file, first_flagged, opt_path, join_path, path_join, AppConfig};
use crate::error::{is_invalid_state, Result, WisprError};
use crate::models::{copy_device, device_view, opt_view, DeviceChoice};
use crate::text::{
    chars_of, contains, find, first_at, first_index, has_substr, lemma_first_index, lines,
    lines_of, lossy_text, owned, slice_to_vec, str_eq, string_of, trim, trim_chars, utf8_lossy,
    str_views, views,
};

verus! {

// ---------------------------------------------------------------------------
// One line of the listing
// ---------------------------------------------------------------------------

/// The index and the name on one listing line
/// `"[AVFoundation indev @ 0x..] [0] MacBook Pro Microphone"`: after the first
/// `']'` and optional blanks comes `'['`, the index up to the next `']'`, and
/// the name; index and name are trimmed. `None` when that shape is missing.
pub open spec fn device_line(line: Seq<char>) -> Option<(Seq<char>, Seq<char>)> {
    if !has_substr(line, seq![']']) {
        None
    } else {
        let suffix = trim(line.skip(first_index(line, seq![']']) + 1));
        if suffix.len() == 0 || suffix[0] != '[' {
            None
        } else {
            let rest = suffix.skip(1);
            if !has_substr(rest, seq![']']) {
                None
            } else {
                let q = first_index(rest, seq![']']);
                Some((trim(rest.take(q)), trim(rest.skip(q + 1))))
            }
        }
    }
}

/// The first `']'` of `s`, if any.
fn find_close(s: &[char]) -> (r: Option<usize>)
    ensures
        match r {
            Some(i) => has_substr(s@, seq![']']) && i == first_index(s@, seq![']']) && i < s@.len(),
            None => !has_substr(s@, seq![']']),
        },
{
    let pat = [']'];
    assert(pat@ =~= seq![']']);
    match find(s, &pat) {
        Some(i) => {
            proof {
                assert(first_at(s@, seq![']'], i as int));
                lemma_first_index(s@, seq![']'], i as int);
            }
            Some(i)
        },
        None => None,
    }
}

/// Splits one listing line into its device index and name.
pub fn parse_device_line(line: &[char]) -> (r: Option<(Vec<char>, Vec<char>)>)
    ensures
        match device_line(line@) {
            Some((i, n)) => r matches Some((a, b)) && a@ == i && b@ == n,
            None => r is None,
        },
{
    let len = line.len();
    let found = find_close(line);
    if found.is_none() {
        return None;
    }
    let prefix_end = found.unwrap();
    assert(prefix_end < line@.len());
    let after = slice_to_vec(line, prefix_end + 1, len);
    assert(after@ =~= line@.skip(prefix_end + 1));
    let suffix = trim_chars(&after);
    if suffix.len() == 0 || suffix[0] != '[' {
        return None;
    }
    let rest = slice_to_vec(&suffix, 1, suffix.len());
    assert(rest@ =~= suffix@.skip(1));
    let found_index = find_close(&rest);
    if found_index.is_none() {
        return None;
    }
    let index_end = found_index.unwrap();
    let rest_len = rest.len();
    let idx = slice_to_vec(&rest, 0, index_end);
    assert(idx@ =~= rest@.take(index_end as int));
    let name = slice_to_vec(&rest, index_end + 1, rest_len);
    assert(name@ =~= rest@.skip(index_end + 1));
    Some((trim_chars(&idx), trim_chars(&name)))
}

// ---------------------------------------------------------------------------
// The whole listing
// ---------------------------------------------------------------------------

/// The (index, name) pairs listed in the audio section of the listing, read
/// line by line: a trimmed line holding `"AVFoundation audio devices"` opens
/// the audio section, one holding `"AVFoundation video devices"` closes it,
/// and inside it each line with a nonempty index and name is a device.
pub open spec fn scan_devices(ls: Seq<Seq<char>>, in_audio: bool) -> Seq<(Seq<char>, Seq<char>)>
    decreases ls.len(),
{
    if ls.len() == 0 {
        Seq::empty()
    } else {
        let line = trim(ls[0]);
        let rest = ls.skip(1);
        if has_substr(line, "AVFoundation audio devices"@) {
            scan_devices(rest, true)
        } else if has_substr(line, "AVFoundation video devices"@) {
            scan_devices(rest, false)
        } else if !in_audio {
            scan_devices(rest, false)
        } else {
            match device_line(line) {
                Some((i, n)) => if i.len() > 0 && n.len() > 0 {
                    seq![(i, n)] + scan_devices(rest, true)
                } else {
                    scan_devices(rest, true)
                },
                None => scan_devices(rest, true),
            }
        }
    }
}

/// The devices listed in ffmpeg's AVFoundation listing `text`.
pub open spec fn listed_devices(text: Seq<char>) -> Seq<(Seq<char>, Seq<char>)> {
    scan_devices(lines(text), false)
}

/// The devices of a list as their texts.
pub open spec fn device_views(v: Seq<DeviceChoice>) -> Seq<(Seq<char>, Seq<char>, Seq<char>)> {
    v.map_values(|d: DeviceChoice| device_view(d))
}

/// The device that a listed (index, name) pair stands for: the index is the
/// node name, the name both the display name and the fallback description.
pub open spec fn listed_view(p: (Seq<char>, Seq<char>)) -> (Seq<char>, Seq<char>, Seq<char>) {
    (p.0, p.1, p.1)
}

/// The devices that listed pairs stand for.
pub open spec fn listed_views(ps: Seq<(Seq<char>, Seq<char>)>) -> Seq<(Seq<char>, Seq<char>, Seq<char>)> {
    ps.map_values(|p: (Seq<char>, Seq<char>)| listed_view(p))
}

/// The (node name, display name) pairs of a device list.
spec fn name_pairs(v: Seq<DeviceChoice>) -> Seq<(Seq<char>, Seq<char>)> {
    v.map_values(|d: DeviceChoice| (d.node_name@, d.display_name@))
}

/// Reads the audio devices out of ffmpeg's AVFoundation device listing.
pub fn parse_avfoundation_devices(stderr: &str) -> (r: Vec<DeviceChoice>)
    ensures
        device_views(r@) == listed_views(listed_devices(stderr@)),
{
    let audio_marker = chars_of("AVFoundation audio devices");
    let video_marker = chars_of("AVFoundation video devices");
    let text = chars_of(stderr);
    let ls = lines_of(&text);
    let ghost all = views(ls@);
    let ghost target = scan_devices(all, false);
    let mut in_audio = false;
    let mut devices: Vec<DeviceChoice> = Vec::new();
    let n = ls.len();
    assert(all.skip(0) =~= all);
    for k in 0..n
        invariant
            n == ls@.len(),
            all == views(ls@),
            target == scan_devices(all, false),
            audio_marker@ == "AVFoundation audio devices"@,
            video_marker@ == "AVFoundation video devices"@,
            name_pairs(devices@) + scan_devices(all.skip(k as int), in_audio) == target,
            forall|j: int| 0 <= j < devices@.len() ==> devices@[j].display_name@
                == devices@[j].fallback_description@,
    {
        let line = trim_chars(ls[k].as_slice());
        let ghost tail = all.skip(k as int);
        proof {
            assert(tail[0] == ls@[k as int]@);
            assert(tail.skip(1) =~= all.skip(k + 1));
        }
        let ghost before = name_pairs(devices@);
        if contains(&line, &audio_marker) {
            in_audio = true;
        } else if contains(&line, &video_marker) {
            in_audio = false;
        } else if in_audio {
            match parse_device_line(&line) {
                Some((idx, name)) => {
                    if idx.len() > 0 && name.len() > 0 {
                        let d = DeviceChoice {
                            node_name: string_of(&idx),
                            display_name: string_of(&name),
                            fallback_description: string_of(&name),
                        };
                        devices.push(d);
                        proof {
                            let after = name_pairs(devices@);
                            assert(after =~= before.push((idx@, name@)));
                            assert(seq![(idx@, name@)] + scan_devices(all.skip(k + 1), true)
                                == scan_devices(tail, true));
                            assert(before.push((idx@, name@)) + scan_devices(all.skip(k + 1), true)
                                =~= before + (seq![(idx@, name@)] + scan_devices(all.skip(k + 1), true)));
                        }
                    }
                },
                None => {},
            }
        }
    }
    proof {
        assert(all.skip(n as int) =~= Seq::<Seq<char>>::empty());
        let got = name_pairs(devices@);
        assert(got + Seq::<(Seq<char>, Seq<char>)>::empty() =~= got);
        assert(got == target);
        assert(device_views(devices@) =~= listed_views(target)) by {
            assert forall|j: int| 0 <= j < devices@.len() implies device_views(devices@)[j]
                == listed_views(target)[j] by {
                assert(got[j] == target[j]);
            }
        }
    }
    devices
}

/// The audio devices in the listing that
/// `ffmpeg -f avfoundation -list_devices true -i ""` writes to its error
/// output.
pub fn enumerate_devices(ffmpeg_stderr: &[u8]) -> (r: Vec<DeviceChoice>)
    ensures
        device_views(r@) == listed_views(listed_devices(utf8_lossy(ffmpeg_stderr@))),
{
    let text = lossy_text(ffmpeg_stderr);
    parse_avfoundation_devices(text.as_str())
}

// ---------------------------------------------------------------------------
// Choosing the device
// ---------------------------------------------------------------------------

/// `i` is the first device of `avail` with the node name of `s`.
pub open spec fn first_node_match(avail: Seq<DeviceChoice>, s: DeviceChoice, i: int) -> bool {
    0 <= i < avail.len() && avail[i].node_name@ == s.node_name@ && forall|j: int|
        0 <= j < i ==> avail[j].node_name@ != s.node_name@
}

/// A device carries the display name or the fallback description of `s`.
pub open spec fn label_match(d: DeviceChoice, s: DeviceChoice) -> bool {
    d.display_name@ == s.display_name@ || d.fallback_description@ == s.fallback_description@
}

/// `i` is the first device of `avail` that carries a label of `s`.
pub open spec fn first_label_match(avail: Seq<DeviceChoice>, s: DeviceChoice, i: int) -> bool {
    0 <= i < avail.len() && label_match(avail[i], s) && forall|j: int|
        0 <= j < i ==> !label_match(avail[j], s)
}

/// The position in `avail` of the device to capture from: the saved device
/// found by node name, else by display name or description, else the first
/// device; with no saved device, the first device. `None` on an empty list.
pub open spec fn chosen_device(selected: Option<DeviceChoice>, avail: Seq<DeviceChoice>) -> Option<int> {
    match selected {
        Some(s) => if exists|i: int| first_node_match(avail, s, i) {
            Some(choose|i: int| first_node_match(avail, s, i))
        } else if exists|i: int| first_label_match(avail, s, i) {
            Some(choose|i: int| first_label_match(avail, s, i))
        } else if avail.len() > 0 {
            Some(0)
        } else {
            None
        },
        None => if avail.len() > 0 {
            Some(0)
        } else {
            None
        },
    }
}

/// The first device with the node name of `s`.
fn find_by_node(avail: &Vec<DeviceChoice>, s: &DeviceChoice) -> (r: Option<usize>)
    ensures
        match r {
            Some(i) => first_node_match(avail@, *s, i as int),
            None => !exists|i: int| first_node_match(avail@, *s, i),
        },
{
    let n = avail.len();
    for i in 0..n
        invariant
            n == avail@.len(),
            forall|j: int| 0 <= j < i ==> avail@[j].node_name@ != s.node_name@,
    {
        if str_eq(avail[i].node_name.as_str(), s.node_name.as_str()) {
            return Some(i);
        }
    }
    proof {
        if exists|i: int| first_node_match(avail@, *s, i) {
            let i = choose|i: int| first_node_match(avail@, *s, i);
            assert(avail@[i].node_name@ != s.node_name@);
        }
    }
    None
}

/// The first device that carries a label of `s`.
fn find_by_label(avail: &Vec<DeviceChoice>, s: &DeviceChoice) -> (r: Option<usize>)
    ensures
        match r {
            Some(i) => first_label_match(avail@, *s, i as int),
            None => !exists|i: int| first_label_match(avail@, *s, i),
        },
{
    let n = avail.len();
    for i in 0..n
        invariant
            n == avail@.len(),
            forall|j: int| 0 <= j < i ==> !label_match(#[trigger] avail@[j], *s),
    {
        if str_eq(avail[i].display_name.as_str(), s.display_name.as_str()) || str_eq(
            avail[i].fallback_description.as_str(),
            s.fallback_description.as_str(),
        ) {
            return Some(i);
        }
    }
    proof {
        if exists|i: int| first_label_match(avail@, *s, i) {
            let i = choose|i: int| first_label_match(avail@, *s, i);
            assert(!label_match(avail@[i], *s));
        }
    }
    None
}

/// The device to capture from, among the devices currently available: the
/// one saved in the configuration, found by node name, else by display name
/// or description; else the first available device.
pub fn resolve_selected_device(config: &AppConfig, available: &Vec<DeviceChoice>) -> (r: Option<DeviceChoice>)
    ensures
        match chosen_device(config.selected_device, available@) {
            Some(i) => r matches Some(d) && 0 <= i < available@.len() && device_view(d)
                == device_view(available@[i]),
            None => r is None,
        },
{
    match &config.selected_device {
        None => {
            if available.len() > 0 {
                Some(copy_device(&available[0]))
            } else {
                None
            }
        },
        Some(s) => {
            if let Some(i) = find_by_node(available, s) {
                proof {
                    let k = choose|k: int| first_node_match(available@, *s, k);
                    if k < i {
                        assert(available@[k].node_name@ != s.node_name@);
                    } else if i < k {
                        assert(available@[i as int].node_name@ != s.node_name@);
                    }
                }
                return Some(copy_device(&available[i]));
            }
            if let Some(i) = find_by_label(available, s) {
                proof {
                    let k = choose|k: int| first_label_match(available@, *s, k);
                    if k < i {
                        assert(!label_match(available@[k], *s));
                    } else if i < k {
                        assert(!label_match(available@[i as int], *s));
                    }
                }
                return Some(copy_device(&available[i]));
            }
            if available.len() > 0 {
                Some(copy_device(&available[0]))
            } else {
                None
            }
        },
    }
}


// ---------------------------------------------------------------------------
// Finding ffmpeg
// ---------------------------------------------------------------------------

/// Whether `path` names a regular file (`std::path::Path::is_file`). It
/// depends on what is on disk: nothing is stated of it.
#[verifier::external_body]
fn path_is_file(path: &str) -> (r: bool) {
    std::path::Path::new(path).is_file()
}

/// `ffmpeg` in each of the directories.
pub open spec fn ffmpeg_in_each(dirs: Seq<Seq<char>>) -> Seq<Seq<char>>
    decreases dirs.len(),
{
    if dirs.len() == 0 {
        Seq::empty()
    } else {
        ffmpeg_in_each(dirs.drop_last()).push(join_path(dirs.last(), "ffmpeg"@))
    }
}

/// Where ffmpeg is looked for, in order: the explicitly configured path,
/// `ffmpeg` in each entry of the search path, then the usual install
/// locations.
pub open spec fn ffmpeg_candidates_spec(explicit: Option<Seq<char>>, path_entries: Seq<Seq<char>>) -> Seq<
    Seq<char>,
> {
    (match explicit {
        Some(e) => seq![e],
        None => Seq::empty(),
    }) + ffmpeg_in_each(path_entries) + seq![
        "/opt/homebrew/bin/ffmpeg"@,
        "/usr/local/bin/ffmpeg"@,
        "/usr/bin/ffmpeg"@,
    ]
}

/// The places where ffmpeg is looked for; `path_entries` are the entries of
/// the search path.
pub fn ffmpeg_candidates(explicit: Option<&str>, path_entries: &Vec<String>) -> (r: Vec<String>)
    ensures
        str_views(r@) == ffmpeg_candidates_spec(
            match explicit {
                Some(e) => Some(e@),
                None => None,
            },
            str_views(path_entries@),
        ),
{
    let mut r: Vec<String> = Vec::new();
    if let Some(e) = explicit {
        r.push(owned(e));
    }
    let ghost head = str_views(r@);
    let n = path_entries.len();
    for i in 0..n
        invariant
            n == path_entries@.len(),
            str_views(r@) == head + ffmpeg_in_each(str_views(path_entries@).take(i as int)),
    {
        let ghost before = str_views(r@);
        r.push(path_join(path_entries[i].as_str(), "ffmpeg"));
        assert(str_views(r@) =~= before.push(join_path(path_entries@[i as int]@, "ffmpeg"@)));
        assert(str_views(path_entries@).take(i + 1).drop_last() =~= str_views(path_entries@).take(i as int));
    }
    assert(str_views(path_entries@).take(n as int) =~= str_views(path_entries@));
    let ghost mid = str_views(r@);
    r.push(owned("/opt/homebrew/bin/ffmpeg"));
    r.push(owned("/usr/local/bin/ffmpeg"));
    r.push(owned("/usr/bin/ffmpeg"));
    assert(str_views(r@) =~= mid + seq![
        "/opt/homebrew/bin/ffmpeg"@,
        "/usr/local/bin/ffmpeg"@,
        "/usr/bin/ffmpeg"@,
    ]);
    r
}

/// The ffmpeg to run: the first of the candidates that is a file, if any.
/// Every candidate is probed; which of them are files depends on the disk.
pub fn resolve_ffmpeg_path(explicit: Option<&str>, path_entries: &Vec<String>) -> (r: Option<String>)
    ensures
        exists|is_file: Seq<bool>|
            is_file.len() == ffmpeg_candidates_spec(opt_path(explicit), str_views(path_entries@)).len()
                && opt_view(r) == #[trigger] first_flagged(
                ffmpeg_candidates_spec(opt_path(explicit), str_views(path_entries@)),
                is_file,
            ),
{
    let candidates = ffmpeg_candidates(explicit, path_entries);
    let mut is_file: Vec<bool> = Vec::new();
    let n = candidates.len();
    for i in 0..n
        invariant
            n == candidates@.len(),
            is_file@.len() == i,
    {
        let found = path_is_file(candidates[i].as_str());
        is_file.push(found);
    }
    first_file(&candidates, &is_file)
}


// ---------------------------------------------------------------------------
// Capturing with ffmpeg
// ---------------------------------------------------------------------------

/// The arguments that make ffmpeg list the AVFoundation devices.
pub fn ffmpeg_list_args() -> (r: Vec<String>)
    ensures
        str_views(r@) == seq!["-f"@, "avfoundation"@, "-list_devices"@, "true"@, "-i"@, ""@],
{
    let mut r: Vec<String> = Vec::new();
    r.push(owned("-f"));
    r.push(owned("avfoundation"));
    r.push(owned("-list_devices"));
    r.push(owned("true"));
    r.push(owned("-i"));
    r.push(owned(""));
    assert(str_views(r@) =~= seq!["-f"@, "avfoundation"@, "-list_devices"@, "true"@, "-i"@, ""@]);
    r
}

/// The ffmpeg arguments that capture the AVFoundation audio device
/// `node_name` as 16 kHz mono signed 16-bit little-endian samples on
/// standard output.
pub open spec fn capture_args_spec(node_name: Seq<char>) -> Seq<Seq<char>> {
    seq![
        "-f"@,
        "avfoundation"@,
        "-i"@,
        ":"@ + node_name,
        "-ac"@,
        "1"@,
        "-ar"@,
        "16000"@,
        "-f"@,
        "s16le"@,
        "-"@,
    ]
}

/// The capture arguments for the selected device, when it is among the
/// available devices (by node name); else the error that says it is not.
pub fn ffmpeg_capture_args(selected: &DeviceChoice, available: &Vec<DeviceChoice>) -> (r: Result<Vec<String>>)
    ensures
        (exists|i: int| 0 <= i < available@.len() && available@[i].node_name@ == selected.node_name@) ==> (
        r matches Ok(v) && str_views(v@) == capture_args_spec(selected.node_name@)),
        !(exists|i: int| 0 <= i < available@.len() && available@[i].node_name@ == selected.node_name@) ==> (
        r matches Err(e) && is_invalid_state(
            e,
            "selected microphone "@ + selected.display_name@ + " is not currently available"@,
        )),
{
    let n = available.len();
    let mut found = false;
    for i in 0..n
        invariant
            n == available@.len(),
            found <==> exists|j: int| 0 <= j < i && available@[j].node_name@ == selected.node_name@,
    {
        if !found && str_eq(available[i].node_name.as_str(), selected.node_name.as_str()) {
            found = true;
        }
    }
    if !found {
        return Err(WisprError::InvalidState(crate::text::concat3(
            "selected microphone ",
            selected.display_name.as_str(),
            " is not currently available",
        )));
    }
    let mut r: Vec<String> = Vec::new();
    r.push(owned("-f"));
    r.push(owned("avfoundation"));
    r.push(owned("-i"));
    r.push(crate::text::concat2(":", selected.node_name.as_str()));
    r.push(owned("-ac"));
    r.push(owned("1"));
    r.push(owned("-ar"));
    r.push(owned("16000"));
    r.push(owned("-f"));
    r.push(owned("s16le"));
    r.push(owned("-"));
    assert(str_views(r@) =~= capture_args_spec(selected.node_name@));
    Ok(r)
}

/// The error when no ffmpeg can be found.
pub fn ffmpeg_missing_error() -> (e: WisprError)
    ensures
        is_invalid_state(
            e,
            "ffmpeg is not available. Install ffmpeg or expose it on PATH to use macOS microphone capture."@,
        ),
{
    crate::error::invalid_state(
        "ffmpeg is not available. Install ffmpeg or expose it on PATH to use macOS microphone capture.",
    )
}

/// The error when ffmpeg could not be started to list the devices.
pub fn list_devices_error(detail: &str) -> (e: WisprError)
    ensures
        is_invalid_state(e, "failed to list audio devices: "@ + detail@),
{
    WisprError::InvalidState(crate::text::concat2("failed to list audio devices: ", detail))
}

/// The error when ffmpeg could not be started to capture.
pub fn capture_start_error(detail: &str) -> (e: WisprError)
    ensures
        is_invalid_state(e, "failed to start ffmpeg avfoundation capture: "@ + detail@),
{
    WisprError::InvalidState(crate::text::concat2("failed to start ffmpeg avfoundation capture: ", detail))
}

} // verus!
