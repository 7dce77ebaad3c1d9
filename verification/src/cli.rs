//! The command line of the program: the HID back-end to use, whether to
//! start hidden, debug output, and settings-only mode.

use vstd::prelude::*;
use crate::hid_gesture::HidBackend;
use crate::text::{chars_of, chars_start_with, has_prefix, str_eq};

verus! {

/// The options given on the command line.
#[derive(Clone, Copy, PartialEq, Eq, Structural, Debug)]
pub struct CliOptions {
    pub hid_backend: HidBackend,
    pub start_hidden: bool,
    pub debug: bool,
    pub settings_only: bool,
}

pub open spec fn backend_prefix() -> Seq<char> {
    "--hid-backend="@
}

/// The back-end named after "--hid-backend=": "hidapi", "iokit", or
/// automatic for anything else.
pub open spec fn spec_backend_named(name: Seq<char>) -> HidBackend {
    if name == "hidapi"@ {
        HidBackend::Hidapi
    } else if name == "iokit"@ {
        HidBackend::IOKit
    } else {
        HidBackend::Auto
    }
}

/// The options after one more argument; unknown arguments change nothing.
pub open spec fn apply_arg(o: CliOptions, arg: Seq<char>) -> CliOptions {
    if arg == "--start-hidden"@ {
        CliOptions { start_hidden: true, ..o }
    } else if arg == "--debug"@ {
        CliOptions { debug: true, ..o }
    } else if arg == "--settings"@ {
        CliOptions { settings_only: true, ..o }
    } else if has_prefix(arg, backend_prefix()) {
        CliOptions {
            hid_backend: spec_backend_named(arg.subrange(14, arg.len() as int)),
            ..o
        }
    } else {
        o
    }
}

pub open spec fn default_options() -> CliOptions {
    CliOptions {
        hid_backend: HidBackend::Auto,
        start_hidden: false,
        debug: false,
        settings_only: false,
    }
}

/// The options given by the arguments, read from first to last (a later
/// back-end choice replaces an earlier one).
pub open spec fn spec_parse_args(args: Seq<Seq<char>>) -> CliOptions
    decreases args.len(),
{
    if args.len() == 0 {
        default_options()
    } else {
        apply_arg(spec_parse_args(args.drop_last()), args.last())
    }
}

fn backend_named(name: &[char]) -> (r: HidBackend)
    ensures
        r == spec_backend_named(name@),
{
    let s = crate::text::string_of(name);
    if str_eq(s.as_str(), "hidapi") {
        HidBackend::Hidapi
    } else if str_eq(s.as_str(), "iokit") {
        HidBackend::IOKit
    } else {
        HidBackend::Auto
    }
}

/// Reads the program's arguments (without the program name).
pub fn parse_args(args: &Vec<String>) -> (r: CliOptions)
    ensures
        r == spec_parse_args(args@.map_values(|a: String| a@)),
{
    let ghost av = args@.map_values(|a: String| a@);
    let prefix = chars_of("--hid-backend=");
    proof {
        reveal_strlit("--hid-backend=");
    }
    let mut o = CliOptions {
        hid_backend: HidBackend::Auto,
        start_hidden: false,
        debug: false,
        settings_only: false,
    };
    let mut i: usize = 0;
    while i < args.len()
        invariant
            av == args@.map_values(|a: String| a@),
            prefix@ == backend_prefix(),
            prefix@.len() == 14,
            i <= args.len(),
            o == spec_parse_args(av.take(i as int)),
        decreases args.len() - i,
    {
        assert(av.take(i + 1).drop_last() =~= av.take(i as int));
        assert(av.take(i + 1).last() == args@[i as int]@);
        let arg = args[i].as_str();
        if str_eq(arg, "--start-hidden") {
            o = CliOptions { start_hidden: true, ..o };
        } else if str_eq(arg, "--debug") {
            o = CliOptions { debug: true, ..o };
        } else if str_eq(arg, "--settings") {
            o = CliOptions { settings_only: true, ..o };
        } else {
            let c = chars_of(arg);
            if chars_start_with(&c, &prefix) {
                let mut rest: Vec<char> = Vec::new();
                let mut k: usize = 14;
                while k < c.len()
                    invariant
                        14 <= k <= c.len(),
                        rest@ == c@.subrange(14, k as int),
                    decreases c.len() - k,
                {
                    rest.push(c[k]);
                    k += 1;
                    assert(rest@ =~= c@.subrange(14, k as int));
                }
                o = CliOptions { hid_backend: backend_named(&rest), ..o };
            }
        }
        i += 1;
    }
    assert(av.take(args.len() as int) =~= av);
    o
}

} // verus!
