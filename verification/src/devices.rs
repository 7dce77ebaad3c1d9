//! Catalogue of known Logitech mice: how a connected device is recognised
//! by product id or by name, the DPI range it accepts, and the description
//! the rest of the program uses for it.

use vstd::prelude::*;
use crate::hid_gesture::{default_gesture_cids, spec_default_gesture_cids};
use crate::text::{
    chars_of, hex4, join_chars, join_with, push_hex4, replace_char, replace_chars, str_eq,
    str_lower, string_of, to_lowercase, trim, trim_chars, words, words_of,
};

verus! {

pub const DEFAULT_DPI_MIN: u16 = 200;

pub const DEFAULT_DPI_MAX: u16 = 8000;

pub open spec fn spec_default_button_layout() -> Seq<&'static str> {
    seq![
        "middle",
        "gesture",
        "gesture_left",
        "gesture_right",
        "gesture_up",
        "gesture_down",
        "xbutton1",
        "xbutton2",
        "hscroll_left",
        "hscroll_right",
        "mode_shift",
    ]
}

/// The buttons a mouse offers unless its catalogue entry says otherwise.
pub fn default_button_layout() -> (r: Vec<&'static str>)
    ensures
        r@ == spec_default_button_layout(),
{
    vec![
        "middle",
        "gesture",
        "gesture_left",
        "gesture_right",
        "gesture_up",
        "gesture_down",
        "xbutton1",
        "xbutton2",
        "hscroll_left",
        "hscroll_right",
        "mode_shift",
    ]
}

/// One entry of the device catalogue.
pub struct LogiDeviceSpec {
    pub key: &'static str,
    pub display_name: &'static str,
    pub product_ids: Vec<u16>,
    pub aliases: Vec<&'static str>,
    pub gesture_cids: Vec<u16>,
    pub ui_layout: &'static str,
    pub image_asset: &'static str,
    pub supported_buttons: Vec<&'static str>,
    pub dpi_min: u16,
    pub dpi_max: u16,
}

/// What a catalogue entry holds, as mathematical values.
pub struct DeviceModel {
    pub key: &'static str,
    pub display_name: &'static str,
    pub product_ids: Seq<u16>,
    pub aliases: Seq<&'static str>,
    pub gesture_cids: Seq<u16>,
    pub ui_layout: &'static str,
    pub image_asset: &'static str,
    pub supported_buttons: Seq<&'static str>,
    pub dpi_min: u16,
    pub dpi_max: u16,
}

impl View for LogiDeviceSpec {
    type V = DeviceModel;

    open spec fn view(&self) -> DeviceModel {
        DeviceModel {
            key: self.key,
            display_name: self.display_name,
            product_ids: self.product_ids@,
            aliases: self.aliases@,
            gesture_cids: self.gesture_cids@,
            ui_layout: self.ui_layout,
            image_asset: self.image_asset,
            supported_buttons: self.supported_buttons@,
            dpi_min: self.dpi_min,
            dpi_max: self.dpi_max,
        }
    }
}

/// A catalogue entry with the default gesture controls, image and button
/// layout.
pub open spec fn model(
    key: &'static str,
    display_name: &'static str,
    product_id: u16,
    aliases: Seq<&'static str>,
    ui_layout: &'static str,
    dpi_max: u16,
) -> DeviceModel {
    DeviceModel {
        key,
        display_name,
        product_ids: seq![product_id],
        aliases,
        gesture_cids: spec_default_gesture_cids(),
        ui_layout,
        image_asset: "mouse.png",
        supported_buttons: spec_default_button_layout(),
        dpi_min: DEFAULT_DPI_MIN,
        dpi_max,
    }
}

fn entry(
    key: &'static str,
    display_name: &'static str,
    product_id: u16,
    aliases: Vec<&'static str>,
    ui_layout: &'static str,
    dpi_max: u16,
) -> (r: LogiDeviceSpec)
    ensures
        r@ == model(key, display_name, product_id, aliases@, ui_layout, dpi_max),
{
    let product_ids = vec![product_id];
    assert(product_ids@ =~= seq![product_id]);
    LogiDeviceSpec {
        key,
        display_name,
        product_ids,
        aliases,
        gesture_cids: default_gesture_cids(),
        ui_layout,
        image_asset: "mouse.png",
        supported_buttons: default_button_layout(),
        dpi_min: DEFAULT_DPI_MIN,
        dpi_max,
    }
}

/// The known devices, in the order they are tried.
pub open spec fn spec_known_devices() -> Seq<DeviceModel> {
    seq![
        model(
            "mx_master_4",
            "MX Master 4",
            0xB042,
            seq![
                "Logitech MX Master 4",
                "MX Master 4 for Mac",
                "MX_Master_4",
                "MX Master 4 for Business",
            ],
            "mx_master",
            DEFAULT_DPI_MAX,
        ),
        model(
            "mx_master_3s",
            "MX Master 3S",
            0xB034,
            seq!["Logitech MX Master 3S", "MX Master 3S for Mac"],
            "mx_master",
            DEFAULT_DPI_MAX,
        ),
        model(
            "mx_master_3",
            "MX Master 3",
            0xB023,
            seq!["Wireless Mouse MX Master 3", "MX Master 3 for Mac", "MX Master 3 Mac"],
            "mx_master",
            DEFAULT_DPI_MAX,
        ),
        model(
            "mx_master_2s",
            "MX Master 2S",
            0xB019,
            seq!["Wireless Mouse MX Master 2S"],
            "mx_master",
            4000,
        ),
        model("mx_master", "MX Master", 0xB012, seq!["Wireless Mouse MX Master"], "mx_master", 4000),
        model(
            "mx_vertical",
            "MX Vertical",
            0xB020,
            seq!["MX Vertical Wireless Mouse", "MX Vertical Advanced Ergonomic Mouse"],
            "mx_vertical",
            4000,
        ),
        model(
            "mx_anywhere_3s",
            "MX Anywhere 3S",
            0xB037,
            seq!["MX Anywhere 3S for Mac"],
            "mx_anywhere",
            8000,
        ),
        model(
            "mx_anywhere_3",
            "MX Anywhere 3",
            0xB025,
            seq!["MX Anywhere 3 for Mac"],
            "mx_anywhere",
            4000,
        ),
        model(
            "mx_anywhere_2s",
            "MX Anywhere 2S",
            0xB01A,
            seq!["Wireless Mobile Mouse MX Anywhere 2S"],
            "mx_anywhere",
            4000,
        ),
    ]
}

pub open spec fn device_views(v: Seq<LogiDeviceSpec>) -> Seq<DeviceModel> {
    v.map_values(|d: LogiDeviceSpec| d@)
}

fn single(a: &'static str) -> (r: Vec<&'static str>)
    ensures
        r@ == seq![a],
{
    let r = vec![a];
    assert(r@ =~= seq![a]);
    r
}

/// All known devices, in catalogue order.
pub fn iter_known_devices() -> (r: Vec<LogiDeviceSpec>)
    ensures
        device_views(r@) == spec_known_devices(),
{
    let v = vec![
        entry(
            "mx_master_4",
            "MX Master 4",
            0xB042,
            vec![
                "Logitech MX Master 4",
                "MX Master 4 for Mac",
                "MX_Master_4",
                "MX Master 4 for Business",
            ],
            "mx_master",
            DEFAULT_DPI_MAX,
        ),
        entry(
            "mx_master_3s",
            "MX Master 3S",
            0xB034,
            vec!["Logitech MX Master 3S", "MX Master 3S for Mac"],
            "mx_master",
            DEFAULT_DPI_MAX,
        ),
        entry(
            "mx_master_3",
            "MX Master 3",
            0xB023,
            vec!["Wireless Mouse MX Master 3", "MX Master 3 for Mac", "MX Master 3 Mac"],
            "mx_master",
            DEFAULT_DPI_MAX,
        ),
        entry(
            "mx_master_2s",
            "MX Master 2S",
            0xB019,
            single("Wireless Mouse MX Master 2S"),
            "mx_master",
            4000,
        ),
        entry("mx_master", "MX Master", 0xB012, single("Wireless Mouse MX Master"), "mx_master", 4000),
        entry(
            "mx_vertical",
            "MX Vertical",
            0xB020,
            vec!["MX Vertical Wireless Mouse", "MX Vertical Advanced Ergonomic Mouse"],
            "mx_vertical",
            4000,
        ),
        entry(
            "mx_anywhere_3s",
            "MX Anywhere 3S",
            0xB037,
            single("MX Anywhere 3S for Mac"),
            "mx_anywhere",
            8000,
        ),
        entry(
            "mx_anywhere_3",
            "MX Anywhere 3",
            0xB025,
            single("MX Anywhere 3 for Mac"),
            "mx_anywhere",
            4000,
        ),
        entry(
            "mx_anywhere_2s",
            "MX Anywhere 2S",
            0xB01A,
            single("Wireless Mobile Mouse MX Anywhere 2S"),
            "mx_anywhere",
            4000,
        ),
    ];
    assert(device_views(v@) =~= spec_known_devices());
    v
}

// ---------------------------------------------------------------------------
// Names
// ---------------------------------------------------------------------------

/// A device name with surrounding space removed, lower-cased, underscores
/// read as spaces and runs of white space collapsed to one space.
pub open spec fn normalized(s: Seq<char>) -> Seq<char> {
    join_with(words(replace_char(str_lower(trim(s)), '_', ' ')), seq![' '])
}

/// Normalises a device name for comparisons that ignore case, white space
/// and underscores.
pub fn normalize_name(value: &str) -> (r: String)
    ensures
        r@ == normalized(value@),
{
    let chars = chars_of(value);
    let trimmed = trim_chars(&chars);
    let trimmed_s = string_of(&trimmed);
    let lower = to_lowercase(trimmed_s.as_str());
    let lower_c = chars_of(lower.as_str());
    let spaced = replace_chars(&lower_c, '_', ' ');
    let parts = words_of(&spaced);
    let sep = vec![' '];
    assert(sep@ =~= seq![' ']);
    let joined = join_chars(&parts, &sep);
    assert(parts@.map_values(|p: Vec<char>| p@) =~= words(spaced@));
    string_of(&joined)
}

/// The names a device answers to: its display name, its key and its
/// aliases.
pub open spec fn name_candidates(d: DeviceModel) -> Seq<Seq<char>> {
    seq![d.display_name@, d.key@] + d.aliases.map_values(|a: &'static str| a@)
}

pub open spec fn name_matches(d: DeviceModel, name: Seq<char>) -> bool {
    &&& normalized(name).len() > 0
    &&& exists|i: int|
        0 <= i < name_candidates(d).len() && normalized(#[trigger] name_candidates(d)[i])
            == normalized(name)
}

/// Whether a device with the given product id and product name is this
/// catalogue entry: the product id is one of the entry's, or the name
/// equals one of the entry's names once both are normalised (an empty
/// name matches nothing).
pub open spec fn spec_matches(d: DeviceModel, product_id: Option<u16>, product_name: Option<
    Seq<char>,
>) -> bool {
    ||| (product_id matches Some(p) && d.product_ids.contains(p))
    ||| (product_name matches Some(n) && name_matches(d, n))
}

pub open spec fn opt_str(o: Option<&str>) -> Option<Seq<char>> {
    match o {
        Some(s) => Some(s@),
        None => None,
    }
}

fn contains_u16(v: &Vec<u16>, x: u16) -> (r: bool)
    ensures
        r == v@.contains(x),
{
    let mut i: usize = 0;
    while i < v.len()
        invariant
            i <= v.len(),
            forall|j: int| 0 <= j < i ==> v@[j] != x,
        decreases v.len() - i,
    {
        if v[i] == x {
            assert(v@[i as int] == x);
            return true;
        }
        i += 1;
    }
    false
}

impl LogiDeviceSpec {
    /// Checks whether this entry describes the device with the given
    /// product id or product name; the product id is tried first.
    pub fn matches(&self, product_id: Option<u16>, product_name: Option<&str>) -> (r: bool)
        ensures
            r == spec_matches(self@, product_id, opt_str(product_name)),
    {
        if let Some(pid) = product_id {
            if contains_u16(&self.product_ids, pid) {
                return true;
            }
        }
        let name = match product_name {
            Some(n) => n,
            None => return false,
        };
        let normalized_name = normalize_name(name);
        if normalized_name.as_str().unicode_len() == 0 {
            return false;
        }
        let ghost cands = name_candidates(self@);
        let mut candidates: Vec<&'static str> = Vec::new();
        candidates.push(self.display_name);
        candidates.push(self.key);
        let mut k: usize = 0;
        while k < self.aliases.len()
            invariant
                cands == name_candidates(self@),
                k <= self.aliases.len(),
                candidates@.len() == k + 2,
                forall|j: int| 0 <= j < k + 2 ==> (#[trigger] candidates@[j])@ == cands[j],
            decreases self.aliases.len() - k,
        {
            assert(cands[k + 2] == self.aliases@[k as int]@);
            candidates.push(self.aliases[k]);
            k += 1;
        }
        let mut i: usize = 0;
        while i < candidates.len()
            invariant
                cands == name_candidates(self@),
                product_name == Some(name),
                normalized(name@).len() > 0,
                candidates@.len() == cands.len(),
                forall|j: int| 0 <= j < cands.len() ==> (#[trigger] candidates@[j])@ == cands[j],
                normalized_name@ == normalized(name@),
                i <= candidates.len(),
                forall|j: int| 0 <= j < i ==> normalized(#[trigger] cands[j]) != normalized(name@),
            decreases candidates.len() - i,
        {
            let c = normalize_name(candidates[i]);
            if str_eq(c.as_str(), normalized_name.as_str()) {
                assert(name_candidates(self@)[i as int] == cands[i as int]);
                assert(normalized(name_candidates(self@)[i as int]) == normalized(name@));
                return true;
            }
            i += 1;
        }
        false
    }
}

// ---------------------------------------------------------------------------
// Lookup
// ---------------------------------------------------------------------------

/// The first entry of `devs` that matches.
pub open spec fn first_match(devs: Seq<DeviceModel>, product_id: Option<u16>, product_name: Option<
    Seq<char>,
>) -> Option<DeviceModel>
    decreases devs.len(),
{
    if devs.len() == 0 {
        None
    } else if spec_matches(devs[0], product_id, product_name) {
        Some(devs[0])
    } else {
        first_match(devs.drop_first(), product_id, product_name)
    }
}

pub open spec fn spec_resolve(product_id: Option<u16>, product_name: Option<Seq<char>>) -> Option<
    DeviceModel,
> {
    first_match(spec_known_devices(), product_id, product_name)
}

pub open spec fn opt_device(o: Option<LogiDeviceSpec>) -> Option<DeviceModel> {
    match o {
        Some(d) => Some(d@),
        None => None,
    }
}

/// Finds the first catalogue entry that matches the product id or name.
pub fn resolve_device(product_id: Option<u16>, product_name: Option<&str>) -> (r: Option<
    LogiDeviceSpec,
>)
    ensures
        opt_device(r) == spec_resolve(product_id, opt_str(product_name)),
{
    let mut devs = iter_known_devices();
    let ghost all = device_views(devs@);
    let mut i: usize = 0;
    assert(all.subrange(0, all.len() as int) =~= all);
    while i < devs.len()
        invariant
            all == spec_known_devices(),
            device_views(devs@) == all,
            i <= devs.len(),
            first_match(all, product_id, opt_str(product_name)) == first_match(
                all.subrange(i as int, all.len() as int),
                product_id,
                opt_str(product_name),
            ),
        decreases devs.len() - i,
    {
        assert(all.subrange(i as int, all.len() as int)[0] == all[i as int]);
        assert(all.subrange(i as int, all.len() as int).drop_first() =~= all.subrange(
            i + 1,
            all.len() as int,
        ));
        if devs[i].matches(product_id, product_name) {
            let d = devs.remove(i);
            return Some(d);
        }
        i += 1;
    }
    None
}

/// `value` limited to the device's DPI range (to the default range when
/// no device is given).
pub open spec fn spec_clamp_dpi(value: int, lo: int, hi: int) -> int {
    let raised = if value < lo { lo } else { value };
    if raised > hi { hi } else { raised }
}

pub fn clamp_dpi(value: i32, device: Option<&LogiDeviceSpec>) -> (r: u16)
    ensures
        r == spec_clamp_dpi(
            value as int,
            (match device { Some(d) => d.dpi_min, None => DEFAULT_DPI_MIN }) as int,
            (match device { Some(d) => d.dpi_max, None => DEFAULT_DPI_MAX }) as int,
        ),
{
    let dpi_min: u16 = match device {
        Some(d) => d.dpi_min,
        None => DEFAULT_DPI_MIN,
    };
    let dpi_max: u16 = match device {
        Some(d) => d.dpi_max,
        None => DEFAULT_DPI_MAX,
    };
    let lo = dpi_min as i32;
    let hi = dpi_max as i32;
    let raised = if value < lo { lo } else { value };
    let clamped = if raised > hi { hi } else { raised };
    clamped as u16
}

// ---------------------------------------------------------------------------
// Connected devices
// ---------------------------------------------------------------------------

/// What the program knows about the device it is talking to.
pub struct ConnectedDeviceInfo {
    pub key: String,
    pub display_name: String,
    pub product_id: Option<u16>,
    pub product_name: Option<String>,
    pub transport: Option<String>,
    pub source: Option<String>,
    pub ui_layout: String,
    pub image_asset: String,
    pub supported_buttons: Vec<String>,
    pub gesture_cids: Vec<u16>,
    pub dpi_min: u16,
    pub dpi_max: u16,
}

pub open spec fn opt_string(o: Option<String>) -> Option<Seq<char>> {
    match o {
        Some(s) => Some(s@),
        None => None,
    }
}

pub open spec fn strings_view(v: Seq<String>) -> Seq<Seq<char>> {
    v.map_values(|s: String| s@)
}

pub open spec fn strs_view(v: Seq<&'static str>) -> Seq<Seq<char>> {
    v.map_values(|s: &'static str| s@)
}

/// The display name of an unknown device: its product name, else its
/// product id in hexadecimal, else a generic name.
pub open spec fn fallback_display_name(product_id: Option<u16>, product_name: Option<Seq<char>>) -> Seq<
    char,
> {
    match product_name {
        Some(n) => n,
        None => match product_id {
            Some(p) => "Logitech PID 0x"@ + hex4(p),
            None => "Logitech mouse"@,
        },
    }
}

/// The key of an unknown device: its normalised display name with
/// underscores for spaces, or a generic key when that is empty.
pub open spec fn fallback_key(display_name: Seq<char>) -> Seq<char> {
    let n = normalized(display_name);
    if n.len() == 0 {
        "logitech_mouse"@
    } else {
        replace_char(n, ' ', '_')
    }
}

/// What `build_connected_device_info` returns for the given identifiers.
pub open spec fn connected_info_ok(
    r: ConnectedDeviceInfo,
    product_id: Option<u16>,
    product_name: Option<Seq<char>>,
    transport: Option<Seq<char>>,
    source: Option<Seq<char>>,
    gesture_cids: Option<Seq<u16>>,
) -> bool {
    &&& r.product_id == product_id
    &&& opt_string(r.transport) == transport
    &&& opt_string(r.source) == source
    &&& match spec_resolve(product_id, product_name) {
        Some(d) => {
            &&& r.key@ == d.key@
            &&& r.display_name@ == d.display_name@
            &&& opt_string(r.product_name) == Some(
                match product_name {
                    Some(n) => n,
                    None => d.display_name@,
                },
            )
            &&& r.ui_layout@ == d.ui_layout@
            &&& r.image_asset@ == d.image_asset@
            &&& strings_view(r.supported_buttons@) == strs_view(d.supported_buttons)
            &&& r.gesture_cids@ == (match gesture_cids {
                Some(c) => c,
                None => d.gesture_cids,
            })
            &&& r.dpi_min == d.dpi_min
            &&& r.dpi_max == d.dpi_max
        },
        None => {
            let display = fallback_display_name(product_id, product_name);
            &&& r.key@ == fallback_key(display)
            &&& r.display_name@ == display
            &&& opt_string(r.product_name) == Some(display)
            &&& r.ui_layout@ == "generic_mouse"@
            &&& r.image_asset@ == "icons/mouse-simple.svg"@
            &&& strings_view(r.supported_buttons@) == strs_view(spec_default_button_layout())
            &&& r.gesture_cids@ == (match gesture_cids {
                Some(c) => c,
                None => spec_default_gesture_cids(),
            })
            &&& r.dpi_min == DEFAULT_DPI_MIN
            &&& r.dpi_max == DEFAULT_DPI_MAX
        },
    }
}

fn owned_opt(o: Option<&str>) -> (r: Option<String>)
    ensures
        opt_string(r) == opt_str(o),
{
    match o {
        Some(s) => Some(s.to_owned()),
        None => None,
    }
}

fn owned_strings(v: &Vec<&'static str>) -> (r: Vec<String>)
    ensures
        strings_view(r@) == strs_view(v@),
{
    let mut out: Vec<String> = Vec::new();
    let mut i: usize = 0;
    while i < v.len()
        invariant
            i <= v.len(),
            out@.len() == i,
            forall|j: int| 0 <= j < i ==> (#[trigger] out@[j])@ == v@[j]@,
        decreases v.len() - i,
    {
        out.push(v[i].to_owned());
        i += 1;
    }
    assert(strings_view(out@) =~= strs_view(v@));
    out
}

fn cids_or(gesture_cids: Option<&[u16]>, fallback: &Vec<u16>) -> (r: Vec<u16>)
    ensures
        r@ == (match gesture_cids {
            Some(c) => c@,
            None => fallback@,
        }),
{
    let src: &[u16] = match gesture_cids {
        Some(c) => c,
        None => fallback.as_slice(),
    };
    let mut out: Vec<u16> = Vec::new();
    let mut i: usize = 0;
    while i < src.len()
        invariant
            i <= src.len(),
            out@ == src@.take(i as int),
        decreases src.len() - i,
    {
        out.push(src[i]);
        i += 1;
        assert(out@ =~= src@.take(i as int));
    }
    assert(src@.take(src.len() as int) =~= src@);
    out
}

/// Describes a connected device from whatever identifiers are known:
/// a catalogue entry supplies the model's data; an unknown device gets a
/// generic description named after its product name or id.
pub fn build_connected_device_info(
    product_id: Option<u16>,
    product_name: Option<&str>,
    transport: Option<&str>,
    source: Option<&str>,
    gesture_cids: Option<&[u16]>,
) -> (r: ConnectedDeviceInfo)
    ensures
        connected_info_ok(
            r,
            product_id,
            opt_str(product_name),
            opt_str(transport),
            opt_str(source),
            match gesture_cids {
                Some(c) => Some(c@),
                None => None,
            },
        ),
{
    let spec = resolve_device(product_id, product_name);
    if let Some(d) = spec {
        let pname = match product_name {
            Some(n) => n.to_owned(),
            None => d.display_name.to_owned(),
        };
        return ConnectedDeviceInfo {
            key: d.key.to_owned(),
            display_name: d.display_name.to_owned(),
            product_id,
            product_name: Some(pname),
            transport: owned_opt(transport),
            source: owned_opt(source),
            ui_layout: d.ui_layout.to_owned(),
            image_asset: d.image_asset.to_owned(),
            supported_buttons: owned_strings(&d.supported_buttons),
            gesture_cids: cids_or(gesture_cids, &d.gesture_cids),
            dpi_min: d.dpi_min,
            dpi_max: d.dpi_max,
        };
    }
    let display_name: String = match product_name {
        Some(n) => n.to_owned(),
        None => match product_id {
            Some(pid) => {
                let mut c = chars_of("Logitech PID 0x");
                push_hex4(&mut c, pid);
                string_of(&c)
            },
            None => "Logitech mouse".to_owned(),
        },
    };
    let norm = normalize_name(display_name.as_str());
    let key = if norm.as_str().unicode_len() == 0 {
        "logitech_mouse".to_owned()
    } else {
        let nc = chars_of(norm.as_str());
        let kc = replace_chars(&nc, ' ', '_');
        string_of(&kc)
    };
    let defaults = default_gesture_cids();
    let layout = default_button_layout();
    let pname = display_name.clone();
    ConnectedDeviceInfo {
        key,
        display_name,
        product_id,
        product_name: Some(pname),
        transport: owned_opt(transport),
        source: owned_opt(source),
        ui_layout: "generic_mouse".to_owned(),
        image_asset: "icons/mouse-simple.svg".to_owned(),
        supported_buttons: owned_strings(&layout),
        gesture_cids: cids_or(gesture_cids, &defaults),
        dpi_min: DEFAULT_DPI_MIN,
        dpi_max: DEFAULT_DPI_MAX,
    }
}

} // verus!
