//! The visual layouts of the mouse families shown by the settings window:
//! image, size, and the hotspots that map regions of the image to
//! buttons.  Hotspot positions are thousandths of the image's width and
//! height.

use vstd::prelude::*;
use crate::text::str_eq;

verus! {

/// A clickable region of a device image and the button it stands for.
#[derive(Clone, Copy, Debug)]
pub struct Hotspot {
    pub button_key: &'static str,
    pub label: &'static str,
    pub summary_type: &'static str,
    pub is_hscroll: bool,
    pub norm_x_milli: u32,
    pub norm_y_milli: u32,
    pub label_side: &'static str,
    pub label_off_x: i32,
    pub label_off_y: i32,
}

/// The visual layout of one device family.
pub struct DeviceLayout {
    pub key: &'static str,
    pub label: &'static str,
    pub image_asset: &'static str,
    pub image_width: u32,
    pub image_height: u32,
    pub interactive: bool,
    pub manual_selectable: bool,
    pub note: &'static str,
    pub hotspots: Vec<Hotspot>,
}

pub struct LayoutModel {
    pub key: &'static str,
    pub label: &'static str,
    pub image_asset: &'static str,
    pub image_width: u32,
    pub image_height: u32,
    pub interactive: bool,
    pub manual_selectable: bool,
    pub note: &'static str,
    pub hotspots: Seq<Hotspot>,
}

impl View for DeviceLayout {
    type V = LayoutModel;

    open spec fn view(&self) -> LayoutModel {
        LayoutModel {
            key: self.key,
            label: self.label,
            image_asset: self.image_asset,
            image_width: self.image_width,
            image_height: self.image_height,
            interactive: self.interactive,
            manual_selectable: self.manual_selectable,
            note: self.note,
            hotspots: self.hotspots@,
        }
    }
}

/// A layout the user can choose by hand.
#[derive(Clone, Copy, Debug)]
pub struct LayoutChoice {
    pub key: &'static str,
    pub label: &'static str,
}

pub open spec fn hotspot(
    button_key: &'static str,
    label: &'static str,
    summary_type: &'static str,
    is_hscroll: bool,
    norm_x_milli: u32,
    norm_y_milli: u32,
    label_side: &'static str,
    label_off_x: i32,
    label_off_y: i32,
) -> Hotspot {
    Hotspot {
        button_key,
        label,
        summary_type,
        is_hscroll,
        norm_x_milli,
        norm_y_milli,
        label_side,
        label_off_x,
        label_off_y,
    }
}

pub open spec fn spec_mx_master_hotspots() -> Seq<Hotspot> {
    seq![
        hotspot("middle", "Middle button", "mapping", false, 330, 450, "left", -80i32, -100i32),
        hotspot("gesture", "Gesture button", "gesture", false, 700, 630, "left", -200i32, 60i32),
        hotspot("xbutton2", "Forward button", "mapping", false, 600, 480, "left", -300i32, 0i32),
        hotspot("xbutton1", "Back button", "mapping", false, 650, 400, "right", 200i32, 50i32),
        hotspot("hscroll_left", "Horizontal scroll", "hscroll", true, 600, 375, "right", 200i32, -50i32),
        hotspot("mode_shift", "Mode shift button", "mapping", false, 430, 250, "right", 150i32, -80i32),
    ]
}

fn mx_master_hotspots() -> (r: Vec<Hotspot>)
    ensures
        r@ == spec_mx_master_hotspots(),
{
    let v = vec![
        Hotspot {
            button_key: "middle",
            label: "Middle button",
            summary_type: "mapping",
            is_hscroll: false,
            norm_x_milli: 330,
            norm_y_milli: 450,
            label_side: "left",
            label_off_x: -80,
            label_off_y: -100,
        },
        Hotspot {
            button_key: "gesture",
            label: "Gesture button",
            summary_type: "gesture",
            is_hscroll: false,
            norm_x_milli: 700,
            norm_y_milli: 630,
            label_side: "left",
            label_off_x: -200,
            label_off_y: 60,
        },
        Hotspot {
            button_key: "xbutton2",
            label: "Forward button",
            summary_type: "mapping",
            is_hscroll: false,
            norm_x_milli: 600,
            norm_y_milli: 480,
            label_side: "left",
            label_off_x: -300,
            label_off_y: 0,
        },
        Hotspot {
            button_key: "xbutton1",
            label: "Back button",
            summary_type: "mapping",
            is_hscroll: false,
            norm_x_milli: 650,
            norm_y_milli: 400,
            label_side: "right",
            label_off_x: 200,
            label_off_y: 50,
        },
        Hotspot {
            button_key: "hscroll_left",
            label: "Horizontal scroll",
            summary_type: "hscroll",
            is_hscroll: true,
            norm_x_milli: 600,
            norm_y_milli: 375,
            label_side: "right",
            label_off_x: 200,
            label_off_y: -50,
        },
        Hotspot {
            button_key: "mode_shift",
            label: "Mode shift button",
            summary_type: "mapping",
            is_hscroll: false,
            norm_x_milli: 430,
            norm_y_milli: 250,
            label_side: "right",
            label_off_x: 150,
            label_off_y: -80,
        },
    ];
    assert(v@ =~= spec_mx_master_hotspots());
    v
}

pub open spec fn spec_mx_master_layout() -> LayoutModel {
    LayoutModel {
        key: "mx_master",
        label: "MX Master family",
        image_asset: "mouse.png",
        image_width: 460,
        image_height: 360,
        interactive: true,
        manual_selectable: true,
        note: "",
        hotspots: spec_mx_master_hotspots(),
    }
}

pub open spec fn spec_generic_mouse_layout() -> LayoutModel {
    LayoutModel {
        key: "generic_mouse",
        label: "Generic mouse",
        image_asset: "icons/mouse-simple.svg",
        image_width: 220,
        image_height: 220,
        interactive: false,
        manual_selectable: false,
        note: "This device is detected and the backend can still probe HID++ features, but Mouser does not have a dedicated visual overlay for it yet.",
        hotspots: Seq::empty(),
    }
}

/// A family drawn with the generic image until it has an overlay of its
/// own.
pub open spec fn generic_family(key: &'static str, label: &'static str, note: &'static str) -> LayoutModel {
    let g = spec_generic_mouse_layout();
    LayoutModel {
        key,
        label,
        image_asset: g.image_asset,
        image_width: g.image_width,
        image_height: g.image_height,
        interactive: g.interactive,
        manual_selectable: g.manual_selectable,
        note,
        hotspots: g.hotspots,
    }
}

pub open spec fn spec_mx_anywhere_layout() -> LayoutModel {
    generic_family(
        "mx_anywhere",
        "MX Anywhere family",
        "MX Anywhere support is wired for device detection and HID++ probing. A dedicated overlay image and hotspot map still need to be added.",
    )
}

pub open spec fn spec_mx_vertical_layout() -> LayoutModel {
    generic_family(
        "mx_vertical",
        "MX Vertical family",
        "MX Vertical uses a different physical shape, so Mouser falls back to a generic device card until a dedicated overlay is added.",
    )
}

/// The MX Master family: an interactive overlay with six hotspots.
pub fn mx_master_layout() -> (r: DeviceLayout)
    ensures
        r@ == spec_mx_master_layout(),
{
    DeviceLayout {
        key: "mx_master",
        label: "MX Master family",
        image_asset: "mouse.png",
        image_width: 460,
        image_height: 360,
        interactive: true,
        manual_selectable: true,
        note: "",
        hotspots: mx_master_hotspots(),
    }
}

/// The generic card used for devices without an overlay.
pub fn generic_mouse_layout() -> (r: DeviceLayout)
    ensures
        r@ == spec_generic_mouse_layout(),
{
    let r = DeviceLayout {
        key: "generic_mouse",
        label: "Generic mouse",
        image_asset: "icons/mouse-simple.svg",
        image_width: 220,
        image_height: 220,
        interactive: false,
        manual_selectable: false,
        note: "This device is detected and the backend can still probe HID++ features, but Mouser does not have a dedicated visual overlay for it yet.",
        hotspots: Vec::new(),
    };
    assert(r.hotspots@ =~= Seq::<Hotspot>::empty());
    r
}

fn generic_family_layout(key: &'static str, label: &'static str, note: &'static str) -> (r: DeviceLayout)
    ensures
        r@ == generic_family(key, label, note),
{
    let g = generic_mouse_layout();
    DeviceLayout {
        key,
        label,
        image_asset: g.image_asset,
        image_width: g.image_width,
        image_height: g.image_height,
        interactive: g.interactive,
        manual_selectable: g.manual_selectable,
        note,
        hotspots: g.hotspots,
    }
}

/// The MX Anywhere family, drawn with the generic card.
pub fn mx_anywhere_layout() -> (r: DeviceLayout)
    ensures
        r@ == spec_mx_anywhere_layout(),
{
    generic_family_layout(
        "mx_anywhere",
        "MX Anywhere family",
        "MX Anywhere support is wired for device detection and HID++ probing. A dedicated overlay image and hotspot map still need to be added.",
    )
}

/// The MX Vertical family, drawn with the generic card.
pub fn mx_vertical_layout() -> (r: DeviceLayout)
    ensures
        r@ == spec_mx_vertical_layout(),
{
    generic_family_layout(
        "mx_vertical",
        "MX Vertical family",
        "MX Vertical uses a different physical shape, so Mouser falls back to a generic device card until a dedicated overlay is added.",
    )
}

/// The registry of layouts, in lookup order.
pub open spec fn spec_device_layouts() -> Seq<LayoutModel> {
    seq![
        spec_mx_master_layout(),
        spec_mx_anywhere_layout(),
        spec_mx_vertical_layout(),
        spec_generic_mouse_layout(),
    ]
}

pub open spec fn layout_views(v: Seq<DeviceLayout>) -> Seq<LayoutModel> {
    v.map_values(|l: DeviceLayout| l@)
}

/// All layouts.
pub fn device_layouts() -> (r: Vec<DeviceLayout>)
    ensures
        layout_views(r@) == spec_device_layouts(),
{
    let v = vec![mx_master_layout(), mx_anywhere_layout(), mx_vertical_layout(), generic_mouse_layout()];
    assert(layout_views(v@) =~= spec_device_layouts());
    v
}

/// The first layout with key `key`.
pub open spec fn layout_with_key(s: Seq<LayoutModel>, key: Seq<char>) -> Option<LayoutModel>
    decreases s.len(),
{
    if s.len() == 0 {
        None
    } else if s[0].key@ == key {
        Some(s[0])
    } else {
        layout_with_key(s.drop_first(), key)
    }
}

/// The layout for a key: the registry's layout with that key, else the
/// generic one (also for no key).
pub open spec fn spec_get_device_layout(layout_key: Option<Seq<char>>) -> LayoutModel {
    let key = match layout_key {
        Some(k) => k,
        None => Seq::empty(),
    };
    match layout_with_key(spec_device_layouts(), key) {
        Some(l) => l,
        None => spec_generic_mouse_layout(),
    }
}

/// The layout for `layout_key`, falling back to the generic layout.
pub fn get_device_layout(layout_key: Option<&str>) -> (r: DeviceLayout)
    ensures
        r@ == spec_get_device_layout(
            match layout_key {
                Some(k) => Some(k@),
                None => None,
            },
        ),
{
    let key: &str = match layout_key {
        Some(k) => k,
        None => "",
    };
    proof {
        reveal_strlit("");
        assert(""@ =~= Seq::<char>::empty());
    }
    let ghost want: Seq<char> = match layout_key {
        Some(k) => k@,
        None => Seq::empty(),
    };
    assert(key@ == want);
    let mut all = device_layouts();
    let ghost s = layout_views(all@);
    let mut i: usize = 0;
    assert(s.subrange(0, s.len() as int) =~= s);
    while i < all.len()
        invariant
            s == layout_views(all@),
            s == spec_device_layouts(),
            key@ == want,
            want == (match layout_key {
                Some(k) => k@,
                None => Seq::empty(),
            }),
            i <= all.len(),
            layout_with_key(s, key@) == layout_with_key(s.subrange(i as int, s.len() as int), key@),
        decreases all.len() - i,
    {
        assert(s.subrange(i as int, s.len() as int).drop_first() =~= s.subrange(i + 1, s.len() as int));
        assert(s[i as int] == all@[i as int]@);
        if str_eq(all[i].key, key) {
            return all.remove(i);
        }
        i += 1;
    }
    generic_mouse_layout()
}

/// The layouts offered for manual choice: "Auto-detect" (empty key)
/// first, then every manually selectable layout in registry order.
pub open spec fn selectable_choices(s: Seq<LayoutModel>) -> Seq<LayoutChoice>
    decreases s.len(),
{
    if s.len() == 0 {
        Seq::empty()
    } else {
        let init = selectable_choices(s.drop_last());
        if s.last().manual_selectable {
            init.push(LayoutChoice { key: s.last().key, label: s.last().label })
        } else {
            init
        }
    }
}

pub open spec fn spec_manual_layout_choices() -> Seq<LayoutChoice> {
    seq![LayoutChoice { key: "", label: "Auto-detect" }] + selectable_choices(spec_device_layouts())
}

pub fn get_manual_layout_choices() -> (r: Vec<LayoutChoice>)
    ensures
        r@ == spec_manual_layout_choices(),
{
    let mut choices = vec![LayoutChoice { key: "", label: "Auto-detect" }];
    let all = device_layouts();
    let ghost s = layout_views(all@);
    let mut i: usize = 0;
    assert(choices@ =~= seq![LayoutChoice { key: "", label: "Auto-detect" }] + selectable_choices(s.take(0)));
    while i < all.len()
        invariant
            s == layout_views(all@),
            i <= all.len(),
            choices@ == seq![LayoutChoice { key: "", label: "Auto-detect" }] + selectable_choices(s.take(i as int)),
        decreases all.len() - i,
    {
        assert(s.take(i + 1).drop_last() =~= s.take(i as int));
        assert(s.take(i + 1).last() == all@[i as int]@);
        if all[i].manual_selectable {
            choices.push(LayoutChoice { key: all[i].key, label: all[i].label });
        }
        i += 1;
        assert(choices@ =~= seq![LayoutChoice { key: "", label: "Auto-detect" }] + selectable_choices(s.take(i as int)));
    }
    assert(s.take(all.len() as int) =~= s);
    choices
}

/// Every hotspot of every layout lies inside its image.
pub proof fn lemma_hotspots_inside_image()
    ensures
        forall|i: int, j: int|
            0 <= i < spec_device_layouts().len() && 0 <= j < spec_device_layouts()[i].hotspots.len()
                ==> (#[trigger] spec_device_layouts()[i].hotspots[j]).norm_x_milli <= 1000
                && spec_device_layouts()[i].hotspots[j].norm_y_milli <= 1000,
{
    assert forall|i: int, j: int|
        0 <= i < spec_device_layouts().len() && 0 <= j < spec_device_layouts()[i].hotspots.len()
            implies (#[trigger] spec_device_layouts()[i].hotspots[j]).norm_x_milli <= 1000
            && spec_device_layouts()[i].hotspots[j].norm_y_milli <= 1000 by {
        if i == 0 {
            assert(spec_device_layouts()[0].hotspots == spec_mx_master_hotspots());
        }
    }
}

} // verus!
