use amethyst_console::{
    parse_command, reset_all_result, reset_result, set_result, usage_parts, CmdType, Color,
    ColoredConsole, ConsoleError, ConsoleResult, ConsoleWindow, Done, NodeEntry, NodeKind,
    PathFilter, Step, TextSpan, VisitMutExt,
};

fn prop(path: &str, desc: &str, value: &str, default: &str) -> NodeEntry {
    NodeEntry {
        path: path.to_string(),
        description: desc.to_string(),
        kind: NodeKind::Prop { value: value.to_string(), default: default.to_string() },
    }
}

fn action(path: &str, desc: &str) -> NodeEntry {
    NodeEntry { path: path.to_string(), description: desc.to_string(), kind: NodeKind::Action }
}

fn list(path: &str) -> NodeEntry {
    NodeEntry { path: path.to_string(), description: String::new(), kind: NodeKind::List }
}

fn args(v: &[&str]) -> Vec<String> {
    v.iter().map(|s| s.to_string()).collect()
}

fn tree(width: &str) -> VisitMutExt {
    let mut t = VisitMutExt::new();
    t.add(action("color_test", "Test console colors"));
    t.add(prop("width", "Arena width", width, "100"));
    t.add(prop("height", "Arena height", "100", "100"));
    t.add(list("paddle"));
    t.add(prop("paddle.velocity", "paddle velocity", "3", "3"));
    t.add(prop("paddle.color", "paddle color", "white", "white"));
    t
}

fn ok_text(r: &ConsoleResult) -> &str {
    match &r.0 {
        Ok(t) => t.as_str(),
        Err(e) => panic!("unexpected error {:?}", e),
    }
}

fn reply(s: Step) -> ConsoleResult {
    match s {
        Step::Reply(r) => r,
        other => panic!("unexpected step {:?}", other),
    }
}

fn span_texts(c: &ColoredConsole) -> Vec<(Color, String)> {
    c.spans().iter().map(|s| (s.color, s.text.clone())).collect()
}

#[test]
fn width_get_set_reset_scenario() {
    let default_text = 100.0f32.to_string();
    assert_eq!(default_text, "100");
    let mut t = tree(&default_text);
    let r = reply(t.exec("width", &args(&[])));
    assert_eq!(ok_text(&r), "100");

    match t.exec("width", &args(&["150"])) {
        Step::SetValue { path, value } => {
            assert_eq!(path, "width");
            assert_eq!(value, "150");
        }
        other => panic!("unexpected step {:?}", other),
    }
    let r = t.complete(Done::SetValue(Ok(true)));
    assert_eq!(ok_text(&r), "");

    let mut t = tree("150");
    assert_eq!(ok_text(&reply(t.exec("width", &args(&[])))), "150");

    match t.exec("reset", &args(&["width"])) {
        Step::Reset { path } => assert_eq!(path, "width"),
        other => panic!("unexpected step {:?}", other),
    }
    let r = t.complete(Done::Reset(true));
    assert_eq!(ok_text(&r), "");
    assert!(t.console.spans().is_empty());

    let mut t = tree("100");
    assert_eq!(ok_text(&reply(t.exec("width", &args(&[])))), "100");
}

#[test]
fn reset_all_reports_ok() {
    let mut t = tree("150");
    match t.exec("reset", &args(&[])) {
        Step::ResetAll => {}
        other => panic!("unexpected step {:?}", other),
    }
    let r = t.complete(Done::ResetAll);
    assert_eq!(ok_text(&r), "");
    assert_eq!(span_texts(&t.console), vec![(Color::white(), "OK\n".to_string())]);
    assert_eq!(ok_text(&reset_all_result()), "OK");
}

#[test]
fn reset_unknown_property() {
    assert!(matches!(reset_result(false).0, Err(ConsoleError::UnknownProperty)));
    assert_eq!(ok_text(&reset_result(true)), "");
    let mut t = tree("100");
    let _ = t.complete(Done::Reset(false));
    assert_eq!(span_texts(&t.console), vec![(Color::red(), "Unknown property\n".to_string())]);
}

#[test]
fn set_unparseable_is_invalid_value() {
    let detail = "x".parse::<f32>().unwrap_err().to_string();
    let r = set_result(Err(detail.clone()));
    match &r.0 {
        Err(ConsoleError::InvalidValue(d)) => assert_eq!(d, &detail),
        other => panic!("unexpected {:?}", other),
    }
    assert_eq!(r.0.unwrap_err().message(), format!("Invalid value: {}", detail));
    assert!(matches!(set_result(Ok(false)).0, Err(ConsoleError::UnknownProperty)));
    let mut t = tree("100");
    let r = t.complete(Done::SetValue(Err("bad".to_string())));
    assert!(matches!(r.0, Err(ConsoleError::InvalidValue(_))));
    assert!(t.console.spans().is_empty());
}

#[test]
fn find_empty_lists_everything() {
    let mut t = tree("100");
    let r = reply(t.exec("find", &args(&[""])));
    assert_eq!(ok_text(&r), "");
    let spans = span_texts(&t.console);
    assert_eq!(spans.len(), 1);
    assert_eq!(spans[0].0, Color::white());
    let text = &spans[0].1;
    for path in ["help", "reset", "color_test", "width", "height", "paddle.velocity", "paddle.color"] {
        assert!(text.contains(&format!("{}", path)), "missing {}", path);
    }
    assert!(!text.contains("find <text>") && !text.contains("\nfind"));
}

#[test]
fn help_nonexistent_name() {
    let t = tree("100");
    assert!(matches!(t.help("nonexistent_name").0, Err(ConsoleError::UnknownProperty)));
    let mut t = tree("100");
    let r = reply(t.exec("help", &args(&["nonexistent_name"])));
    assert_eq!(ok_text(&r), "");
    assert_eq!(span_texts(&t.console), vec![(Color::red(), "Unknown property\n".to_string())]);
}

#[test]
fn help_without_name_lists_all() {
    let mut t = tree("100");
    let _ = t.exec("help", &args(&[]));
    let spans = span_texts(&t.console);
    assert_eq!(spans.len(), 1);
    assert!(spans[0].1.starts_with("help:\n\tList all commands and properties\nfind <text>:\n\tSearch for matching commands\n"));
}

#[test]
fn help_for_a_property() {
    let t = tree("120");
    assert_eq!(ok_text(&t.help("width")), "width: 120 (Default: 100)\n\tArena width\n");
    assert!(matches!(t.help("paddle").0, Err(ConsoleError::UnknownProperty)));
}

#[test]
fn classification_each_kind() {
    let mut t = tree("100");
    assert_eq!(t.cmdtype("width"), CmdType::Prop);
    assert_eq!(t.cmdtype("paddle"), CmdType::List);
    assert_eq!(t.cmdtype("color_test"), CmdType::Action);
    assert_eq!(t.cmdtype("nothing"), CmdType::NotFound);
    assert!(matches!(t.exec("width", &args(&[])), Step::Reply(_)));
    assert!(matches!(t.exec("width", &args(&["1"])), Step::SetValue { .. }));
    match t.exec("color_test", &args(&["a", "b"])) {
        Step::Invoke { path, args } => {
            assert_eq!(path, "color_test");
            assert_eq!(args, vec!["a".to_string(), "b".to_string()]);
        }
        other => panic!("unexpected step {:?}", other),
    }
    let r = reply(t.exec("paddle", &args(&[])));
    assert_eq!(
        ok_text(&r),
        "paddle.velocity: 3 (Default: 3)\n\tpaddle velocity\npaddle.color: white (Default: white)\n\tpaddle color\n"
    );
    assert!(matches!(reply(t.exec("nothing", &args(&[]))).0, Err(ConsoleError::UnknownCommand)));
}

#[test]
fn greet_writes_one_white_span() {
    let mut t = VisitMutExt::new();
    t.add(action("greet", "Say hello"));
    match t.exec("greet", &args(&[])) {
        Step::Invoke { path, .. } => assert_eq!(path, "greet"),
        other => panic!("unexpected step {:?}", other),
    }
    t.console.write_str("Hello, World!");
    let r = t.complete(Done::Invoked(String::new()));
    let mut w = ConsoleWindow::new();
    w.finish_cmd(r, &mut t.console);
    let spans: Vec<(Color, String)> = w.spans().iter().map(|s| (s.color, s.text.clone())).collect();
    assert_eq!(spans, vec![(Color::white(), "Hello, World!".to_string())]);
    assert!(t.console.spans().is_empty());
}

#[test]
fn bogus_command_is_one_red_line() {
    let mut t = tree("100");
    let r = reply(t.exec("bogus_command", &args(&[])));
    assert!(matches!(r.0, Err(ConsoleError::UnknownCommand)));
    let mut w = ConsoleWindow::new();
    let mut side = ColoredConsole::new();
    w.finish_cmd(r, &mut side);
    let spans: Vec<(Color, String)> = w.spans().iter().map(|s| (s.color, s.text.clone())).collect();
    assert_eq!(spans, vec![(Color::red(), "Unknown command\n".to_string())]);
}

#[test]
fn find_vel_shows_velocity() {
    let mut t = tree("100");
    let r = t.find(&PathFilter::Search("vel".to_string()));
    assert_eq!(ok_text(&r), "paddle.velocity: 3 (Default: 3)\n\tpaddle velocity\n");
    let _ = t.exec("find", &args(&["vel"]));
    assert_eq!(
        span_texts(&t.console),
        vec![(Color::white(), "paddle.velocity: 3 (Default: 3)\n\tpaddle velocity\n".to_string())]
    );
}

#[test]
fn find_without_text_is_usage() {
    let mut t = tree("100");
    let _ = t.exec("find", &args(&[]));
    assert_eq!(span_texts(&t.console), vec![(Color::red(), "Usage: find <name>\n".to_string())]);
}

#[test]
fn find_nothing_is_no_results() {
    let t = tree("100");
    assert!(matches!(t.find(&PathFilter::Search("zzz".to_string())).0, Err(ConsoleError::NoResults)));
    assert!(matches!(t.find(&PathFilter::Prefix("zzz".to_string())).0, Err(ConsoleError::NoResults)));
}

#[test]
fn prefix_filter_requires_start() {
    let t = tree("100");
    assert!(matches!(t.find(&PathFilter::Prefix("velocity".to_string())).0, Err(ConsoleError::NoResults)));
    assert_eq!(
        ok_text(&t.find(&PathFilter::Prefix("wid".to_string()))),
        "width: 100 (Default: 100)\n\tArena width\n"
    );
}

#[test]
fn builtins_win_over_same_named_nodes() {
    let mut t = VisitMutExt::new();
    t.add(prop("help", "user help", "1", "1"));
    assert_eq!(t.nodes.len(), 4);
    assert_eq!(t.cmdtype("help"), CmdType::Action);
    let _ = t.exec("find", &args(&[""]));
    let spans = span_texts(&t.console);
    assert!(spans[0].1.contains("help: 1 (Default: 1)\n\tuser help\n"));
}

#[test]
fn builtin_descriptions() {
    let t = VisitMutExt::new();
    let descs: Vec<&str> = t.nodes.iter().map(|n| n.description.as_str()).collect();
    assert_eq!(
        descs,
        vec![
            "List all commands and properties",
            "<text>\nSearch for matching commands",
            "<var>\nSet a property to its default"
        ]
    );
}

#[test]
fn first_match_wins() {
    let mut t = VisitMutExt::new();
    t.add(prop("x", "first", "1", "0"));
    t.add(action("x", "second"));
    t.add(prop("x", "third", "2", "0"));
    assert_eq!(t.cmdtype("x"), CmdType::Prop);
    assert_eq!(ok_text(&t.get("x")), "1");
    let mut u = VisitMutExt::new();
    u.add(action("y", "first"));
    u.add(prop("y", "second", "5", "5"));
    assert_eq!(u.cmdtype("y"), CmdType::Action);
    assert!(matches!(u.get("y").0, Err(ConsoleError::UnknownProperty)));
}

#[test]
fn known_namespace_without_list_node() {
    let mut t = VisitMutExt::new();
    t.add(prop("arena.width", "Arena width", "100", "100"));
    t.add(prop("arenas", "Other", "1", "1"));
    let r = reply(t.exec("arena", &args(&[])));
    assert_eq!(ok_text(&r), "arena.width: 100 (Default: 100)\n\tArena width\n");
    assert!(matches!(reply(t.exec("aren", &args(&[]))).0, Err(ConsoleError::UnknownCommand)));
}

#[test]
fn whitespace_matches_std() {
    for v in 0u32..=0x10ffff {
        if let Some(c) = char::from_u32(v) {
            assert_eq!(amethyst_console::text::is_whitespace_char(c), c.is_whitespace(), "{:#x}", v);
        }
    }
}

#[test]
fn error_messages() {
    assert_eq!(ConsoleError::UnknownProperty.message(), "Unknown property");
    assert_eq!(ConsoleError::UnknownCommand.message(), "Unknown command");
    assert_eq!(ConsoleError::InvalidValue("x".to_string()).message(), "Invalid value: x");
    assert_eq!(ConsoleError::InvalidUsage("find <name>".to_string()).message(), "Usage: find <name>");
    assert_eq!(ConsoleError::NoResults.message(), "No results");
    assert_eq!(ConsoleError::Unimplemented.message(), "Unimplemented");
    let custom = ConsoleError::Custom(TextSpan::from_text("boom".to_string()));
    assert_eq!(custom.message(), "boom");
    let span = TextSpan::from_error(&ConsoleError::NoResults);
    assert_eq!(span.color, Color::red());
    assert_eq!(span.text, "No results");
}

#[test]
fn colors_are_float_bits() {
    let w = Color::white();
    assert_eq!([w.r, w.g, w.b, w.a], [1.0f32.to_bits(); 4]);
    let r = Color::red();
    assert_eq!([r.r, r.g, r.b, r.a], [1.0f32.to_bits(), 0.0f32.to_bits(), 0.0f32.to_bits(), 1.0f32.to_bits()]);
    let c = Color::cyan();
    assert_eq!([c.r, c.g, c.b, c.a], [0.0f32.to_bits(), 1.0f32.to_bits(), 1.0f32.to_bits(), 1.0f32.to_bits()]);
}

#[test]
fn writeln_trims_and_skips_empty() {
    let mut c = ColoredConsole::new();
    c.writeln(TextSpan::from_text("abc \t\n".to_string()));
    c.writeln(TextSpan::from_text(" \n\u{3000}".to_string()));
    c.writeln(TextSpan::from_text(String::new()));
    c.writeln(TextSpan::from_text("  lead".to_string()));
    assert_eq!(
        span_texts(&c),
        vec![(Color::white(), "abc\n".to_string()), (Color::white(), "  lead\n".to_string())]
    );
}

#[test]
fn write_result_and_error() {
    let mut c = ColoredConsole::new();
    c.write_result(ConsoleResult::from("done".to_string()));
    c.write_result(ConsoleResult::from(String::new()));
    c.write_result(ConsoleResult::from(ConsoleError::NoResults));
    c.write_error("deep failure  ");
    c.write_colored(Color::cyan(), "x");
    assert_eq!(
        span_texts(&c),
        vec![
            (Color::white(), "done\n".to_string()),
            (Color::red(), "No results\n".to_string()),
            (Color::red(), "deep failure\n".to_string()),
            (Color::cyan(), "x".to_string()),
        ]
    );
    let mut d = ColoredConsole::new();
    d.write_str("y");
    c.append(&mut d);
    assert_eq!(c.spans().len(), 5);
    assert!(d.spans().is_empty());
    c.clear();
    assert!(c.spans().is_empty());
}

#[test]
fn window_echo_and_prompt() {
    let mut w = amethyst_console::create_console();
    w.echo_command("width 150");
    w.write_colored(Color::red(), "HELP");
    w.writeln(TextSpan::from_text("tail  ".to_string()));
    w.write(TextSpan::from_text("raw".to_string()));
    let spans: Vec<(Color, String)> = w.spans().iter().map(|s| (s.color, s.text.clone())).collect();
    assert_eq!(
        spans,
        vec![
            (Color::cyan(), " > ".to_string()),
            (Color::white(), "width 150\n".to_string()),
            (Color::red(), "HELP".to_string()),
            (Color::white(), "tail\n".to_string()),
            (Color::white(), "raw".to_string()),
        ]
    );
    w.clear();
    assert!(w.spans().is_empty());
}

#[test]
fn finish_cmd_result_before_side_output() {
    let mut w = ConsoleWindow::new();
    let mut side = ColoredConsole::new();
    side.write_str("side");
    w.finish_cmd(ConsoleResult::from("main".to_string()), &mut side);
    let spans: Vec<String> = w.spans().iter().map(|s| s.text.clone()).collect();
    assert_eq!(spans, vec!["main\n".to_string(), "side".to_string()]);
}

#[test]
fn parse_command_splits_on_spaces() {
    assert_eq!(parse_command("width 150"), ("width".to_string(), args(&["150"])));
    assert_eq!(parse_command(""), (String::new(), args(&[])));
    assert_eq!(parse_command("a  b"), ("a".to_string(), args(&["", "b"])));
    assert_eq!(parse_command("greet"), ("greet".to_string(), args(&[])));
}

#[test]
fn usage_parts_of_descriptions() {
    assert_eq!(usage_parts("<text>\nSearch for matching commands"), ("<text>".to_string(), "Search for matching commands".to_string()));
    assert_eq!(usage_parts("Test console colors"), (String::new(), "Test console colors".to_string()));
    assert_eq!(usage_parts("abc\n"), (String::new(), "abc".to_string()));
    assert_eq!(usage_parts("a\nb\nc"), ("a".to_string(), "b\nc".to_string()));
}

#[test]
fn details_of_each_kind() {
    let mut out = String::new();
    action("reset", "<var>\nSet a property to its default").details("reset", &mut out);
    action("color_test", "Test console colors").details("color_test", &mut out);
    list("paddle").details("paddle", &mut out);
    prop("w", "d", "1", "2").details("w", &mut out);
    assert_eq!(
        out,
        "reset <var>:\n\tSet a property to its default\ncolor_test:\n\tTest console colors\nw: 1 (Default: 2)\n\td\n"
    );
}

#[test]
fn result_conversions() {
    let r = ConsoleResult::from(Ok::<String, ConsoleError>("v".to_string()));
    assert_eq!(r.as_result().as_ref().unwrap(), "v");
    assert_eq!(ok_text(&ConsoleResult::ok_text("t")), "t");
    assert_eq!(ok_text(&amethyst_console::call_result(true)), "");
    assert!(matches!(amethyst_console::call_result(false).0, Err(ConsoleError::UnknownCommand)));
}

fn cvar_get(root: &mut dyn cvar::IVisit, var: &str) -> ConsoleResult {
    match cvar::console::get(root, var) {
        Some(v) => ConsoleResult::from(v),
        None => ConsoleResult::from(ConsoleError::UnknownProperty),
    }
}

#[test]
fn cvar_set_then_reset_restores_default() {
    let mut width = 100.0f32;
    {
        let mut root = cvar::VisitMut(|f: &mut dyn FnMut(&mut dyn cvar::INode)| {
            f(&mut cvar::Property("width", "Arena width", &mut width, 100.0));
        });
        let r = set_result(cvar::console::set(&mut root, "width", "150").map_err(|e| e.to_string()));
        assert_eq!(ok_text(&r), "");
        assert_eq!(ok_text(&cvar_get(&mut root, "width")), "150");
        let r = reset_result(cvar::console::reset(&mut root, "width"));
        assert_eq!(ok_text(&r), "");
        assert_eq!(ok_text(&cvar_get(&mut root, "width")), "100");
    }
    assert_eq!(width, 100.0);
}

#[test]
fn cvar_set_unparseable_keeps_value() {
    let mut width = 120.0f32;
    {
        let mut root = cvar::VisitMut(|f: &mut dyn FnMut(&mut dyn cvar::INode)| {
            f(&mut cvar::Property("width", "Arena width", &mut width, 100.0));
        });
        let r = set_result(cvar::console::set(&mut root, "width", "wide").map_err(|e| e.to_string()));
        assert!(matches!(r.0, Err(ConsoleError::InvalidValue(_))));
        assert_eq!(ok_text(&cvar_get(&mut root, "width")), "120");
        let r = set_result(cvar::console::set(&mut root, "height", "1").map_err(|e| e.to_string()));
        assert!(matches!(r.0, Err(ConsoleError::UnknownProperty)));
    }
    assert_eq!(width, 120.0);
}
