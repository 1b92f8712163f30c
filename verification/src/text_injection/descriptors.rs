//! The helper programs that a delivery goes by: the clipboard programs and
//! the ways to simulate the paste shortcut.

use vstd::prelude::*;
use crate::text::{opt_view, str_eq, string_views};
use crate::text_injection::{
    backend_views, paste_views, BackendSpec, ClipboardBackend, CommandSpec, InjectionMethod,
    PasteMethod, PasteSpec,
};

verus! {

/// The clipboard programs that are tried, in order.
pub open spec fn default_backends_spec() -> Seq<BackendSpec> {
    seq![
        BackendSpec {
            name: "wl-copy"@,
            copy_cmd: "wl-copy"@,
            copy_args: Seq::empty(),
            read_cmd: "wl-paste"@,
            read_args: seq!["--no-newline"@],
            use_stdin: true,
        },
        BackendSpec {
            name: "xclip"@,
            copy_cmd: "xclip"@,
            copy_args: seq!["-selection"@, "clipboard"@],
            read_cmd: "xclip"@,
            read_args: seq!["-selection"@, "clipboard"@, "-out"@],
            use_stdin: true,
        },
        BackendSpec {
            name: "xsel"@,
            copy_cmd: "xsel"@,
            copy_args: seq!["--clipboard"@, "--input"@],
            read_cmd: "xsel"@,
            read_args: seq!["--clipboard"@, "--output"@],
            use_stdin: true,
        },
    ]
}

/// The ways to simulate the paste shortcut that are tried, in order: key
/// codes through `ydotool`, the modifier syntax of `wtype`, `xdotool`, and on
/// KDE the clipboard service.
pub open spec fn default_paste_methods_spec() -> Seq<PasteSpec> {
    seq![
        PasteSpec {
            tool: "ydotool"@,
            args: seq!["key"@, "29:1"@, "47:1"@, "47:0"@, "29:0"@],
            probe: true,
            desktop: None,
        },
        PasteSpec {
            tool: "wtype"@,
            args: seq!["-M"@, "ctrl"@, "-P"@, "v"@, "-m"@, "ctrl"@, "-p"@, "v"@],
            probe: true,
            desktop: None,
        },
        PasteSpec {
            tool: "xdotool"@,
            args: seq!["key"@, "ctrl+v"@],
            probe: true,
            desktop: None,
        },
        PasteSpec {
            tool: "qdbus"@,
            args: seq![
                "org.kde.klipper"@,
                "/klipper"@,
                "org.kde.klipper.klipper.invokeAction"@,
                "paste"@,
            ],
            probe: false,
            desktop: Some("KDE"@),
        },
    ]
}

/// The command that simulates the paste shortcut with the program of
/// `method`; the clipboard method has none.
pub open spec fn paste_shortcut_spec(method: InjectionMethod) -> Option<CommandSpec> {
    match method {
        InjectionMethod::Wtype => Some(
            CommandSpec {
                program: "wtype"@,
                args: seq!["-M"@, "ctrl"@, "-P"@, "v"@, "-m"@, "ctrl"@, "-p"@, "v"@],
                stdin: None,
            },
        ),
        InjectionMethod::Ydotool => Some(
            CommandSpec { program: "ydotool"@, args: seq!["key"@, "ctrl+v"@], stdin: None },
        ),
        InjectionMethod::Clipboard => None,
    }
}

/// A copy of `v`.
pub fn clone_strings(v: &Vec<String>) -> (r: Vec<String>)
    ensures
        string_views(r@) == string_views(v@),
{
    let mut r: Vec<String> = Vec::new();
    let mut i: usize = 0;
    while i < v.len()
        invariant
            i <= v.len(),
            string_views(r@) == string_views(v@).take(i as int),
        decreases v.len() - i,
    {
        let item = v[i].clone();
        proof {
            let all = string_views(v@);
            assert(all.take(i + 1) == all.take(i as int).push(all[i as int]));
            assert(string_views(r@.push(item)) == string_views(r@).push(item@));
        }
        r.push(item);
        i += 1;
    }
    assert(string_views(v@).take(v.len() as int) == string_views(v@));
    r
}

/// Whether two optional strings hold the same.
pub fn opt_str_eq(a: &Option<String>, b: &Option<String>) -> (r: bool)
    ensures
        r == (opt_view(*a) == opt_view(*b)),
{
    match (a, b) {
        (Some(x), Some(y)) => str_eq(x.as_str(), y.as_str()),
        (None, None) => true,
        _ => false,
    }
}

pub(crate) fn push_owned(v: &mut Vec<String>, a: &str)
    ensures
        string_views(final(v)@) == string_views(old(v)@).push(a@),
{
    let item = a.to_owned();
    assert(string_views(v@.push(item)) =~= string_views(v@).push(item@));
    v.push(item);
}

pub(crate) fn strings1(a: &str) -> (r: Vec<String>)
    ensures
        string_views(r@) == seq![a@],
{
    let mut r: Vec<String> = Vec::new();
    r.push(a.to_owned());
    assert(string_views(r@) =~= seq![a@]);
    r
}

pub(crate) fn strings2(a: &str, b: &str) -> (r: Vec<String>)
    ensures
        string_views(r@) == seq![a@, b@],
{
    let mut r: Vec<String> = Vec::new();
    r.push(a.to_owned());
    r.push(b.to_owned());
    assert(string_views(r@) =~= seq![a@, b@]);
    r
}

pub(crate) fn strings3(a: &str, b: &str, c: &str) -> (r: Vec<String>)
    ensures
        string_views(r@) == seq![a@, b@, c@],
{
    let mut r: Vec<String> = Vec::new();
    r.push(a.to_owned());
    r.push(b.to_owned());
    r.push(c.to_owned());
    assert(string_views(r@) =~= seq![a@, b@, c@]);
    r
}

pub(crate) fn strings4(a: &str, b: &str, c: &str, d: &str) -> (r: Vec<String>)
    ensures
        string_views(r@) == seq![a@, b@, c@, d@],
{
    let mut r: Vec<String> = strings3(a, b, c);
    push_owned(&mut r, d);
    assert(string_views(r@) =~= seq![a@, b@, c@, d@]);
    r
}

pub(crate) fn chord_args() -> (r: Vec<String>)
    ensures
        string_views(r@) == seq!["-M"@, "ctrl"@, "-P"@, "v"@, "-m"@, "ctrl"@, "-p"@, "v"@],
{
    let mut r: Vec<String> = strings4("-M", "ctrl", "-P", "v");
    push_owned(&mut r, "-m");
    push_owned(&mut r, "ctrl");
    push_owned(&mut r, "-p");
    push_owned(&mut r, "v");
    assert(string_views(r@) =~= seq!["-M"@, "ctrl"@, "-P"@, "v"@, "-m"@, "ctrl"@, "-p"@, "v"@]);
    r
}

pub(crate) fn backend(
    name: &str,
    copy_args: Vec<String>,
    read_cmd: &str,
    read_args: Vec<String>,
) -> (r: ClipboardBackend)
    ensures
        r@ == (BackendSpec {
            name: name@,
            copy_cmd: name@,
            copy_args: string_views(copy_args@),
            read_cmd: read_cmd@,
            read_args: string_views(read_args@),
            use_stdin: true,
        }),
{
    ClipboardBackend {
        name: name.to_owned(),
        copy_cmd: name.to_owned(),
        copy_args,
        read_cmd: read_cmd.to_owned(),
        read_args,
        use_stdin: true,
    }
}

/// The clipboard programs that are tried, in order.
pub fn default_backends() -> (r: Vec<ClipboardBackend>)
    ensures
        backend_views(r@) == default_backends_spec(),
{
    let mut r: Vec<ClipboardBackend> = Vec::new();
    let none: Vec<String> = Vec::new();
    assert(string_views(none@) =~= Seq::<Seq<char>>::empty());
    r.push(backend("wl-copy", none, "wl-paste", strings1("--no-newline")));
    r.push(
        backend(
            "xclip",
            strings2("-selection", "clipboard"),
            "xclip",
            strings3("-selection", "clipboard", "-out"),
        ),
    );
    r.push(
        backend(
            "xsel",
            strings2("--clipboard", "--input"),
            "xsel",
            strings2("--clipboard", "--output"),
        ),
    );
    assert(backend_views(r@) =~= default_backends_spec());
    r
}

/// The ways to simulate the paste shortcut that are tried, in order.
pub fn default_paste_methods() -> (r: Vec<PasteMethod>)
    ensures
        paste_views(r@) == default_paste_methods_spec(),
{
    let mut r: Vec<PasteMethod> = Vec::new();
    let mut keys: Vec<String> = strings4("key", "29:1", "47:1", "47:0");
    push_owned(&mut keys, "29:0");
    assert(string_views(keys@) =~= seq!["key"@, "29:1"@, "47:1"@, "47:0"@, "29:0"@]);
    r.push(PasteMethod { tool: "ydotool".to_owned(), args: keys, probe: true, desktop: None });
    r.push(PasteMethod { tool: "wtype".to_owned(), args: chord_args(), probe: true, desktop: None });
    r.push(
        PasteMethod {
            tool: "xdotool".to_owned(),
            args: strings2("key", "ctrl+v"),
            probe: true,
            desktop: None,
        },
    );
    r.push(
        PasteMethod {
            tool: "qdbus".to_owned(),
            args: strings4(
                "org.kde.klipper",
                "/klipper",
                "org.kde.klipper.klipper.invokeAction",
                "paste",
            ),
            probe: false,
            desktop: Some("KDE".to_owned()),
        },
    );
    assert(paste_views(r@) =~= default_paste_methods_spec());
    r
}

} // verus!
