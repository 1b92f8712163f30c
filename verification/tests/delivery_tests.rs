use chezwizper::probe::tool_present;
use chezwizper::text_injection::{
    default_backends, default_paste_methods, select_method, Action, ClipboardBackend, Delivery,
    DeliveryError, DeliveryOutcome, DesktopSession, InjectionMethod, Input, PasteMethod, Phase,
    TextInjector, ToolCommand, ToolProbe, INITIAL_DELAY_MS, MAX_DELAY_MS, SETTLE_MS,
    VERIFY_BUDGET_MS,
};

struct Desk {
    present: Vec<&'static str>,
    clipboard: Vec<&'static str>,
    typing_works: bool,
    paste_works: Vec<&'static str>,
    reads: usize,
    ran: Vec<ToolCommand>,
    probed: Vec<String>,
    slept: Vec<u64>,
}

fn desk(present: &[&'static str], clipboard: &[&'static str]) -> Desk {
    Desk {
        present: present.to_vec(),
        clipboard: clipboard.to_vec(),
        typing_works: false,
        paste_works: Vec::new(),
        reads: 0,
        ran: Vec::new(),
        probed: Vec::new(),
        slept: Vec::new(),
    }
}

fn is_read(c: &ToolCommand) -> bool {
    c.program == "wl-paste" || c.args.iter().any(|a| a == "-out" || a == "--output")
}

fn is_copy(c: &ToolCommand) -> bool {
    c.stdin.is_some()
}

fn run(desk: &mut Desk, c: &ToolCommand) -> (bool, String) {
    desk.ran.push(ToolCommand {
        program: c.program.clone(),
        args: c.args.clone(),
        stdin: c.stdin.clone(),
    });
    if is_copy(c) {
        return (true, String::new());
    }
    if is_read(c) {
        let at = desk.reads.min(desk.clipboard.len() - 1);
        desk.reads += 1;
        return (true, desk.clipboard[at].to_string());
    }
    if c.args.first().map(|a| a == "type").unwrap_or(false) || c.args.len() == 1 {
        return (desk.typing_works, String::new());
    }
    (desk.paste_works.contains(&c.program.as_str()), String::new())
}

fn drive(injector: &TextInjector, text: &str, desk: &mut Desk) -> Result<DeliveryOutcome, DeliveryError> {
    let mut delivery: Delivery = injector.inject_text(text);
    let mut action = delivery.step(injector, Input::Begin);
    let mut steps = 0;
    loop {
        steps += 1;
        assert!(steps < 500);
        action = match action {
            Action::Probe(tool) => {
                desk.probed.push(tool.clone());
                let present = desk.present.contains(&tool.as_str());
                delivery.step(injector, Input::Probed(present))
            }
            Action::Run(command) => {
                let (success, stdout) = run(desk, &command);
                delivery.step(injector, Input::Finished { success, stdout })
            }
            Action::Sleep(ms) => {
                desk.slept.push(ms);
                delivery.step(injector, Input::Slept)
            }
            Action::Done(result) => {
                assert!(delivery.is_done());
                assert_eq!(delivery.phase(), Phase::Done);
                return result;
            }
        };
    }
}

fn strings(items: &[&str]) -> Vec<String> {
    items.iter().map(|s| s.to_string()).collect()
}

#[test]
fn select_method_honours_a_present_preference() {
    let all = ToolProbe { ydotool: true, wtype: true, wl_copy: true };
    assert_eq!(select_method(Some("wtype"), all, true), InjectionMethod::Wtype);
    assert_eq!(select_method(Some("ydotool"), all, true), InjectionMethod::Ydotool);
    assert_eq!(select_method(Some("other"), all, true), InjectionMethod::Ydotool);
    assert_eq!(select_method(None, all, false), InjectionMethod::Ydotool);
}

#[test]
fn select_method_falls_back_in_order() {
    let no_ydotool = ToolProbe { ydotool: false, wtype: true, wl_copy: true };
    assert_eq!(select_method(Some("ydotool"), no_ydotool, true), InjectionMethod::Clipboard);
    assert_eq!(select_method(Some("ydotool"), no_ydotool, false), InjectionMethod::Wtype);
    assert_eq!(select_method(None, no_ydotool, true), InjectionMethod::Clipboard);
    let wtype_only = ToolProbe { ydotool: false, wtype: true, wl_copy: false };
    assert_eq!(select_method(None, wtype_only, true), InjectionMethod::Wtype);
    let nothing = ToolProbe { ydotool: false, wtype: false, wl_copy: false };
    assert_eq!(select_method(Some("wtype"), nothing, true), InjectionMethod::Clipboard);
    assert_eq!(select_method(None, nothing, false), InjectionMethod::Clipboard);
    let wl_only = ToolProbe { ydotool: false, wtype: false, wl_copy: true };
    assert_eq!(select_method(None, wl_only, false), InjectionMethod::Clipboard);
}

#[test]
fn new_selects_from_what_is_on_the_search_path() {
    let tools = ToolProbe {
        ydotool: tool_present("ydotool"),
        wtype: tool_present("wtype"),
        wl_copy: tool_present("wl-copy"),
    };
    for preferred in [None, Some("wtype"), Some("ydotool"), Some("nonsense")] {
        for wayland in [false, true] {
            let session = DesktopSession { wayland_display: wayland, current_desktop: None };
            let injector = TextInjector::new(preferred, session).unwrap();
            assert_eq!(injector.method(), select_method(preferred, tools, wayland));
        }
    }
}

#[test]
fn tool_present_tells_programs_apart() {
    assert!(tool_present("sh"));
    assert!(!tool_present("no-such-program-chezwizper-0451"));
}

#[test]
fn default_descriptors_are_in_order() {
    let backends = default_backends();
    let names: Vec<&str> = backends.iter().map(|b| b.name.as_str()).collect();
    assert_eq!(names, ["wl-copy", "xclip", "xsel"]);
    assert_eq!(backends[0].read_cmd, "wl-paste");
    assert_eq!(backends[0].read_args, strings(&["--no-newline"]));
    assert!(backends[0].copy_args.is_empty());
    assert_eq!(backends[1].copy_args, strings(&["-selection", "clipboard"]));
    assert_eq!(backends[1].read_args, strings(&["-selection", "clipboard", "-out"]));
    assert_eq!(backends[2].copy_args, strings(&["--clipboard", "--input"]));
    assert_eq!(backends[2].read_args, strings(&["--clipboard", "--output"]));
    assert!(backends.iter().all(|b| b.use_stdin && b.copy_cmd == b.name));
    let pastes = default_paste_methods();
    let tools: Vec<&str> = pastes.iter().map(|p| p.tool.as_str()).collect();
    assert_eq!(tools, ["ydotool", "wtype", "xdotool", "qdbus"]);
    assert_eq!(pastes[0].args, strings(&["key", "29:1", "47:1", "47:0", "29:0"]));
    assert_eq!(pastes[1].args, strings(&["-M", "ctrl", "-P", "v", "-m", "ctrl", "-p", "v"]));
    assert_eq!(pastes[2].args, strings(&["key", "ctrl+v"]));
    assert_eq!(
        pastes[3].args,
        strings(&["org.kde.klipper", "/klipper", "org.kde.klipper.klipper.invokeAction", "paste"])
    );
    assert_eq!(pastes[3].desktop.as_deref(), Some("KDE"));
    assert!(!pastes[3].probe);
    assert!(pastes[..3].iter().all(|p| p.probe && p.desktop.is_none()));
}

#[test]
fn empty_text_is_skipped() {
    let injector = TextInjector::with_method(InjectionMethod::Wtype, None);
    let mut d = desk(&[], &[""]);
    assert_eq!(drive(&injector, "", &mut d), Ok(DeliveryOutcome::Skipped));
    assert!(d.ran.is_empty() && d.probed.is_empty() && d.slept.is_empty());
}

#[test]
fn direct_typing_that_works_ends_the_delivery() {
    let injector = TextInjector::with_method(InjectionMethod::Ydotool, None);
    let mut d = desk(&[], &[""]);
    d.typing_works = true;
    assert_eq!(drive(&injector, "hello", &mut d), Ok(DeliveryOutcome::Typed));
    assert_eq!(d.ran.len(), 1);
    assert_eq!(d.ran[0].program, "ydotool");
    assert_eq!(d.ran[0].args, strings(&["type", "hello"]));
    assert_eq!(d.ran[0].stdin, None);
    let injector = TextInjector::with_method(InjectionMethod::Wtype, None);
    let mut d = desk(&[], &[""]);
    d.typing_works = true;
    assert_eq!(drive(&injector, "hello", &mut d), Ok(DeliveryOutcome::Typed));
    assert_eq!(d.ran[0].program, "wtype");
    assert_eq!(d.ran[0].args, strings(&["hello"]));
}

#[test]
fn failed_typing_falls_through_to_the_clipboard_and_succeeds_without_paste() {
    let injector = TextInjector::with_method(InjectionMethod::Wtype, Some("KDE".to_string()));
    let mut d = desk(&["wl-copy", "wl-paste", "ydotool", "wtype", "xdotool"], &["hello"]);
    assert_eq!(drive(&injector, "hello", &mut d), Ok(DeliveryOutcome::LeftInClipboard));
    let programs: Vec<&str> = d.ran.iter().map(|c| c.program.as_str()).collect();
    assert_eq!(programs, ["wtype", "wl-copy", "wl-paste", "ydotool", "wtype", "xdotool", "qdbus"]);
    assert_eq!(d.ran[1].stdin.as_deref(), Some("hello"));
    assert_eq!(d.slept, [SETTLE_MS]);
}

#[test]
fn paste_stops_at_the_first_method_that_works() {
    let injector = TextInjector::with_method(InjectionMethod::Clipboard, None);
    let mut d = desk(&["xclip", "wtype", "xdotool"], &["  hello\n"]);
    d.paste_works = vec!["xdotool"];
    assert_eq!(drive(&injector, "hello ", &mut d), Ok(DeliveryOutcome::Pasted));
    let programs: Vec<&str> = d.ran.iter().map(|c| c.program.as_str()).collect();
    assert_eq!(programs, ["xclip", "xclip", "wtype", "xdotool"]);
    assert_eq!(d.ran[0].args, strings(&["-selection", "clipboard"]));
    assert_eq!(d.ran[1].args, strings(&["-selection", "clipboard", "-out"]));
    assert_eq!(d.probed, ["wl-copy", "xclip", "wl-paste", "xclip", "ydotool", "wtype", "xdotool"]);
}

#[test]
fn kde_method_is_tried_only_on_kde() {
    let injector = TextInjector::with_method(InjectionMethod::Clipboard, Some("GNOME".to_string()));
    let mut d = desk(&["wl-copy", "wl-paste"], &["x"]);
    assert_eq!(drive(&injector, "x", &mut d), Ok(DeliveryOutcome::LeftInClipboard));
    assert!(d.ran.iter().all(|c| c.program != "qdbus"));
    let injector = TextInjector::with_method(InjectionMethod::Clipboard, Some("KDE".to_string()));
    let mut d = desk(&["wl-copy", "wl-paste"], &["x"]);
    d.paste_works = vec!["qdbus"];
    assert_eq!(drive(&injector, "x", &mut d), Ok(DeliveryOutcome::Pasted));
    assert_eq!(d.ran.last().unwrap().program, "qdbus");
}

#[test]
fn clipboard_check_retries_after_a_wrong_read() {
    let injector = TextInjector::with_method(InjectionMethod::Clipboard, None);
    let mut d = desk(&["wl-copy", "wl-paste"], &["stale", "hello"]);
    assert_eq!(drive(&injector, "hello", &mut d), Ok(DeliveryOutcome::LeftInClipboard));
    let programs: Vec<&str> = d.ran.iter().map(|c| c.program.as_str()).collect();
    assert_eq!(programs, ["wl-copy", "wl-paste", "wl-copy", "wl-paste"]);
    assert_eq!(d.slept, [SETTLE_MS, INITIAL_DELAY_MS, SETTLE_MS]);
}

#[test]
fn clipboard_check_gives_up_when_the_budget_is_spent() {
    let injector = TextInjector::with_method(InjectionMethod::Clipboard, None);
    let mut d = desk(&["wl-copy", "wl-paste", "ydotool"], &["never right"]);
    d.paste_works = vec!["ydotool"];
    assert_eq!(drive(&injector, "hello", &mut d), Ok(DeliveryOutcome::Pasted));
    assert_eq!(d.slept, [10, 50, 10, 100, 10, 200, 10, 200, 10, 200, 10, 200, 10, 200, 10]);
    let pauses: u64 = d.slept.iter().filter(|ms| **ms != SETTLE_MS).sum();
    assert!(pauses >= VERIFY_BUDGET_MS);
    assert!(d.slept.iter().all(|ms| *ms <= MAX_DELAY_MS));
    assert_eq!(d.ran.iter().filter(|c| c.program == "wl-copy").count(), 8);
}

#[test]
fn unreadable_clipboard_counts_as_unconfirmed() {
    let injector = TextInjector::with_method(InjectionMethod::Clipboard, None);
    let mut d = desk(&["xsel"], &["hello"]);
    d.present = vec!["xsel"];
    let mut delivery = injector.inject_text("hello");
    let mut action = delivery.step(&injector, Input::Begin);
    let mut copies = 0;
    let mut sleeps = Vec::new();
    loop {
        action = match action {
            Action::Probe(tool) => delivery.step(&injector, Input::Probed(tool == "xsel")),
            Action::Run(c) => {
                if c.stdin.is_some() {
                    copies += 1;
                    delivery.step(&injector, Input::Finished { success: true, stdout: String::new() })
                } else {
                    delivery.step(&injector, Input::Finished { success: false, stdout: "hello".to_string() })
                }
            }
            Action::Sleep(ms) => {
                sleeps.push(ms);
                delivery.step(&injector, Input::Slept)
            }
            Action::Done(r) => {
                assert_eq!(r, Ok(DeliveryOutcome::LeftInClipboard));
                break;
            }
        };
    }
    assert_eq!(copies, 8);
    assert_eq!(sleeps.len(), 15);
    let _ = d;
}

#[test]
fn no_clipboard_tool_is_an_error() {
    let injector = TextInjector::with_method(InjectionMethod::Clipboard, None);
    let mut d = desk(&["ydotool"], &["hello"]);
    assert_eq!(drive(&injector, "hello", &mut d), Err(DeliveryError::NoClipboardTool));
    assert_eq!(d.probed, ["wl-copy", "xclip", "xsel"]);
    assert!(d.ran.is_empty());
}

#[test]
fn failing_copy_programs_are_passed_over() {
    let injector = TextInjector::with_method(InjectionMethod::Clipboard, None);
    let mut delivery = injector.inject_text("t");
    let mut action = delivery.step(&injector, Input::Begin);
    let mut ran = Vec::new();
    loop {
        action = match action {
            Action::Probe(_) => delivery.step(&injector, Input::Probed(true)),
            Action::Run(c) => {
                ran.push(c.program.clone());
                delivery.step(&injector, Input::Finished { success: false, stdout: String::new() })
            }
            Action::Sleep(_) => delivery.step(&injector, Input::Slept),
            Action::Done(r) => {
                assert_eq!(r, Err(DeliveryError::NoClipboardTool));
                break;
            }
        };
    }
    assert_eq!(ran, ["wl-copy", "xclip", "xsel"]);
}

#[test]
fn fake_descriptors_drive_the_same_cascade() {
    let backends = vec![ClipboardBackend {
        name: "put".to_string(),
        copy_cmd: "put".to_string(),
        copy_args: strings(&["--in"]),
        read_cmd: "get".to_string(),
        read_args: Vec::new(),
        use_stdin: false,
    }];
    let pastes = vec![
        PasteMethod { tool: "a".to_string(), args: Vec::new(), probe: true, desktop: Some("X".to_string()) },
        PasteMethod { tool: "b".to_string(), args: strings(&["go"]), probe: false, desktop: None },
    ];
    let injector = TextInjector::with_descriptors(InjectionMethod::Clipboard, None, backends, pastes);
    let mut delivery = injector.inject_text("t");
    assert_eq!(delivery.step(&injector, Input::Begin), Action::Probe("put".to_string()));
    assert_eq!(delivery.phase(), Phase::CopyProbe { backend: 0 });
    assert_eq!(
        delivery.step(&injector, Input::Probed(true)),
        Action::Run(ToolCommand { program: "put".to_string(), args: strings(&["--in"]), stdin: None })
    );
    assert_eq!(
        delivery.step(&injector, Input::Finished { success: true, stdout: String::new() }),
        Action::Sleep(10)
    );
    assert_eq!(delivery.step(&injector, Input::Slept), Action::Probe("get".to_string()));
    assert_eq!(
        delivery.step(&injector, Input::Probed(true)),
        Action::Run(ToolCommand { program: "get".to_string(), args: Vec::new(), stdin: None })
    );
    assert_eq!(
        delivery.step(&injector, Input::Finished { success: true, stdout: " t ".to_string() }),
        Action::Run(ToolCommand { program: "b".to_string(), args: strings(&["go"]), stdin: None })
    );
    assert_eq!(delivery.phase(), Phase::Pasting { method: 1 });
    assert_eq!(
        delivery.step(&injector, Input::Finished { success: true, stdout: String::new() }),
        Action::Done(Ok(DeliveryOutcome::Pasted))
    );
}

#[test]
fn input_out_of_turn_ends_the_delivery_with_an_error() {
    let injector = TextInjector::with_method(InjectionMethod::Clipboard, None);
    let mut delivery = injector.inject_text("t");
    assert_eq!(delivery.step(&injector, Input::Slept), Action::Done(Err(DeliveryError::OutOfTurn)));
    assert!(delivery.is_done());
    assert_eq!(delivery.step(&injector, Input::Begin), Action::Done(Err(DeliveryError::OutOfTurn)));
}

#[test]
fn advance_answers_probes_itself() {
    let injector = TextInjector::with_method(InjectionMethod::Clipboard, None);
    let mut delivery = injector.inject_text("t");
    let action = delivery.advance(&injector, Input::Begin);
    assert!(!matches!(action, Action::Probe(_)));
    if !tool_present("wl-copy") && !tool_present("xclip") && !tool_present("xsel") {
        assert_eq!(action, Action::Done(Err(DeliveryError::NoClipboardTool)));
    } else {
        assert!(matches!(action, Action::Run(_)));
    }
}

#[test]
fn paste_from_clipboard_uses_the_program_of_the_method() {
    let wtype = TextInjector::with_method(InjectionMethod::Wtype, None).paste_from_clipboard().unwrap();
    assert_eq!(wtype.program, "wtype");
    assert_eq!(wtype.args, strings(&["-M", "ctrl", "-P", "v", "-m", "ctrl", "-p", "v"]));
    let ydotool = TextInjector::with_method(InjectionMethod::Ydotool, None).paste_from_clipboard().unwrap();
    assert_eq!(ydotool.program, "ydotool");
    assert_eq!(ydotool.args, strings(&["key", "ctrl+v"]));
    assert!(TextInjector::with_method(InjectionMethod::Clipboard, None).paste_from_clipboard().is_none());
    assert_eq!(TextInjector::paste_outcome(true), Ok(()));
    assert_eq!(TextInjector::paste_outcome(false), Err(DeliveryError::PasteNotStarted));
}
