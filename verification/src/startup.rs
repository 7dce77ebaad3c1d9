//! Start-at-login entries: the Windows Run-key value (a UTF-16 string
//! with a terminating zero), the macOS launch agent and its launchctl
//! domain, and the Linux XDG autostart file.  Writing them happens outside
//! the library.

use vstd::prelude::*;
use crate::text::{chars_of, decimal, extend_str, push_decimal_padded, string_of};

verus! {

pub const LAUNCH_AGENT_LABEL: &'static str = "io.github.tombadash.mouser";

pub const DESKTOP_FILE_NAME: &'static str = "mouser.desktop";

pub const RUN_SUBKEY: &'static str = "Software\\Microsoft\\Windows\\CurrentVersion\\Run";

pub const VALUE_NAME: &'static str = "Mouser";

/// The UTF-16 code units of one character: itself below 0x10000, else a
/// surrogate pair.
pub open spec fn utf16_units(c: char) -> Seq<u16> {
    let v = c as u32;
    if v < 0x10000 {
        seq![v as u16]
    } else {
        let u = (v - 0x10000) as u32;
        seq![(0xD800 + u / 1024) as u16, (0xDC00 + u % 1024) as u16]
    }
}

pub open spec fn utf16_of(s: Seq<char>) -> Seq<u16>
    decreases s.len(),
{
    if s.len() == 0 {
        Seq::empty()
    } else {
        utf16_of(s.drop_last()) + utf16_units(s.last())
    }
}

/// The UTF-16 encoding of `s` followed by a zero unit, as the registry
/// functions take their strings.
pub fn to_wide_null(s: &str) -> (r: Vec<u16>)
    ensures
        r@ == utf16_of(s@).push(0),
{
    let chars = chars_of(s);
    let mut out: Vec<u16> = Vec::new();
    let mut i: usize = 0;
    while i < chars.len()
        invariant
            i <= chars.len(),
            out@ == utf16_of(chars@.take(i as int)),
        decreases chars.len() - i,
    {
        assert(chars@.take(i + 1).drop_last() =~= chars@.take(i as int));
        let c = chars[i];
        let v = c as u32;
        if v < 0x10000 {
            out.push(v as u16);
        } else {
            let u = v - 0x10000;
            out.push((0xD800 + u / 1024) as u16);
            out.push((0xDC00 + u % 1024) as u16);
        }
        i += 1;
        assert(out@ =~= utf16_of(chars@.take(i as int)));
    }
    assert(chars@.take(chars.len() as int) =~= chars@);
    out.push(0);
    out
}

/// The launchctl domain of a user's GUI session: "gui/UID".
pub fn domain(uid: u32) -> (r: String)
    ensures
        r@ == "gui/"@ + decimal(uid as nat),
{
    let mut out = chars_of("gui/");
    push_decimal_padded(&mut out, uid as u64, 0);
    assert(out@ =~= "gui/"@ + decimal(uid as nat));
    string_of(&out)
}

/// The XDG autostart entry that runs `exe` at login.
pub open spec fn spec_desktop_entry(exe: Seq<char>) -> Seq<char> {
    "[Desktop Entry]\nType=Application\nName=Mouser\nExec="@ + exe
        + "\nHidden=false\nNoDisplay=false\nX-GNOME-Autostart-enabled=true\n"@
}

pub fn desktop_entry(exe: &str) -> (r: String)
    ensures
        r@ == spec_desktop_entry(exe@),
{
    let mut out = chars_of("[Desktop Entry]\nType=Application\nName=Mouser\nExec=");
    extend_str(&mut out, exe);
    extend_str(&mut out, "\nHidden=false\nNoDisplay=false\nX-GNOME-Autostart-enabled=true\n");
    string_of(&out)
}

/// The launch agent that runs `exe` at login.
pub open spec fn spec_launch_agent_plist(exe: Seq<char>) -> Seq<char> {
    "<?xml version=\"1.0\" encoding=\"UTF-8\"?>\n<!DOCTYPE plist PUBLIC \"-//Apple//DTD PLIST 1.0//EN\" \"http://www.apple.com/DTDs/PropertyList-1.0.dtd\">\n<plist version=\"1.0\">\n<dict>\n    <key>Label</key>\n    <string>"@
        + LAUNCH_AGENT_LABEL@
        + "</string>\n    <key>ProgramArguments</key>\n    <array>\n        <string>"@ + exe
        + "</string>\n    </array>\n    <key>RunAtLoad</key>\n    <true/>\n</dict>\n</plist>\n"@
}

pub fn launch_agent_plist(exe: &str) -> (r: String)
    ensures
        r@ == spec_launch_agent_plist(exe@),
{
    let mut out = chars_of(
        "<?xml version=\"1.0\" encoding=\"UTF-8\"?>\n<!DOCTYPE plist PUBLIC \"-//Apple//DTD PLIST 1.0//EN\" \"http://www.apple.com/DTDs/PropertyList-1.0.dtd\">\n<plist version=\"1.0\">\n<dict>\n    <key>Label</key>\n    <string>",
    );
    extend_str(&mut out, LAUNCH_AGENT_LABEL);
    extend_str(&mut out, "</string>\n    <key>ProgramArguments</key>\n    <array>\n        <string>");
    extend_str(&mut out, exe);
    extend_str(
        &mut out,
        "</string>\n    </array>\n    <key>RunAtLoad</key>\n    <true/>\n</dict>\n</plist>\n",
    );
    string_of(&out)
}

} // verus!
