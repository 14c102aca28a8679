use p2a::chat::{
    chat_stream_url, classify_input, default_true, empty_script_message, format_args_brief,
    image_bytes, image_file_name, parse_script_prompts, prompts_loaded_message, server_base,
    session_label, sessions_url, show_value, split_complete_lines, sse_data, transcript_banner,
    transcript_error, transcript_image_saved, transcript_prompt, transcript_tool_end,
    transcript_tool_start, ArgShown, Base64Error, ChatHistory, ScriptRun, decode_error_message, ImageData, InputAction, Message, StreamCollector,
    StreamEvent,
};
use p2a::viz::{
    chart_failed_message, chart_saved_message, decode_base64_image, parse_linkage,
    residual_companion_names, residuals_saved_message, ChartKind, Linkage,
};

fn lines(v: &[&str]) -> Vec<String> {
    v.iter().map(|s| s.to_string()).collect()
}

fn reply(text: &str) -> Message {
    Message { role: "assistant".into(), content: text.into(), tool_calls: None, tool_results: None }
}

#[test]
fn script_prompts_skip_comments_and_join_blocks() {
    let script = lines(&[
        "# analysis script",
        "load sales.csv",
        "",
        "  run a regression  ",
        "of y on x",
        "#  ignored",
        "   ",
        "",
        "summarize",
    ]);
    assert_eq!(
        parse_script_prompts(&script),
        lines(&["load sales.csv", "run a regression of y on x", "summarize"])
    );
}

#[test]
fn script_prompts_are_never_empty() {
    let script = lines(&["", "#only comments", "   ", "", "\t"]);
    assert!(parse_script_prompts(&script).is_empty());
    let script = lines(&["a", "", "", "b"]);
    for p in parse_script_prompts(&script) {
        assert!(!p.is_empty());
    }
}

#[test]
fn sse_lines() {
    assert_eq!(sse_data("data: {\"type\":\"done\"}"), Some("{\"type\":\"done\"}".to_string()));
    assert_eq!(sse_data("   data: x  "), Some("x".to_string()));
    assert_eq!(sse_data(": keep-alive"), None);
    assert_eq!(sse_data(""), None);
    assert_eq!(sse_data("event: message"), None);
    assert_eq!(sse_data("data:x"), None);
}

#[test]
fn buffer_split_keeps_partial_line() {
    let (complete, rest) = split_complete_lines("a\nb\npartial");
    assert_eq!(complete, lines(&["a", "b"]));
    assert_eq!(rest, "partial");
    let (complete, rest) = split_complete_lines("x\n");
    assert_eq!(complete, lines(&["x"]));
    assert_eq!(rest, "");
    let (complete, rest) = split_complete_lines("none");
    assert!(complete.is_empty());
    assert_eq!(rest, "none");
}

#[test]
fn buffer_split_rejoins() {
    let buf = "l1\n\nl3\ntail";
    let (complete, rest) = split_complete_lines(buf);
    let mut joined = complete.join("\n");
    if !complete.is_empty() {
        joined.push('\n');
    }
    joined.push_str(&rest);
    assert_eq!(joined, buf);
}

#[test]
fn argument_values_are_cut_at_thirty_bytes() {
    assert_eq!(show_value(&ArgShown::Text("short".into())), "\"short\"");
    let long = "abcdefghijklmnopqrstuvwxyz0123456789".to_string();
    assert_eq!(show_value(&ArgShown::Text(long.clone())), "\"abcdefghijklmnopqrstuvwxyz0...\"");
    assert_eq!(show_value(&ArgShown::Json("42".into())), "42");
    assert_eq!(show_value(&ArgShown::Json(format!("[{}]", "1,".repeat(20)))), "[1,1,1,1,1,1,1,1,1,1,1,1,1,...");
}

#[test]
fn brief_arguments() {
    let args = vec![
        ("dataset".to_string(), ArgShown::Text("sales".into())),
        ("k".to_string(), ArgShown::Json("3".into())),
    ];
    assert_eq!(format_args_brief(&Some(args)), "(dataset=\"sales\", k=3)");
    let many: Vec<(String, ArgShown)> =
        (0..5).map(|i| (format!("a{}", i), ArgShown::Json(i.to_string()))).collect();
    assert_eq!(format_args_brief(&Some(many)), "(a0=0, a1=1, a2=2, a3=3, ...)");
    assert_eq!(format_args_brief(&None), "");
    assert_eq!(format_args_brief(&Some(vec![])), "()");
}

#[test]
fn transcript_lines() {
    assert_eq!(
        transcript_banner("http://localhost:8080", "ollama", "llama3.2"),
        "$ p2a chat --provider ollama --model llama3.2\np2a chat\nConnected to http://localhost:8080 | Provider: ollama (llama3.2)\n\n"
    );
    assert_eq!(transcript_prompt("hello"), "p2a> hello\n");
    assert_eq!(transcript_tool_start("ols", "(y=\"a\")"), "  [tool] ols (y=\"a\")");
    assert_eq!(transcript_tool_end(1250), "  done 1250ms\n");
    assert_eq!(transcript_image_saved("./chart_0.png"), "  [saved] ./chart_0.png\n");
    assert_eq!(transcript_error("boom"), "Error: boom\n");
}

#[test]
fn transcript_has_no_escape_codes() {
    let all = [
        transcript_banner("u", "p", "m"),
        transcript_prompt("q"),
        transcript_tool_start("t", "()"),
        transcript_tool_end(0),
        transcript_image_saved("x"),
        transcript_error("e"),
    ];
    for line in all.iter() {
        assert!(!line.contains('\u{1b}'));
    }
}

#[test]
fn image_names_and_bytes() {
    assert_eq!(image_file_name(0, "image/png"), "chart_0.png");
    assert_eq!(image_file_name(12, "image/svg+xml"), "chart_12.svg");
    assert_eq!(image_file_name(3, "application/pdf"), "chart_3.bin");
    let img = ImageData { data: "aGVsbG8=".into(), mime_type: "image/png".into() };
    assert_eq!(image_bytes(&img).unwrap(), b"hello".to_vec());
    let bad = ImageData { data: "***".into(), mime_type: "image/png".into() };
    assert!(image_bytes(&bad).is_err());
}

#[test]
fn input_classification() {
    assert!(matches!(classify_input("   "), InputAction::Skip));
    assert!(matches!(classify_input("/quit"), InputAction::Quit));
    assert!(matches!(classify_input(" /exit "), InputAction::Quit));
    assert!(matches!(classify_input("/clear"), InputAction::Clear));
    assert!(matches!(classify_input("/help"), InputAction::Help));
    assert!(matches!(classify_input("  show data  "), InputAction::Send(s) if s == "show data"));
    assert!(matches!(classify_input("/unknown"), InputAction::Send(s) if s == "/unknown"));
}

#[test]
fn history_records_exchanges() {
    let mut h = ChatHistory::new();
    assert!(h.messages.is_empty());
    h.record_exchange("hi", reply("hello"));
    h.record_exchange("more", reply("sure"));
    assert_eq!(h.messages.len(), 4);
    assert_eq!(h.messages[0].role, "user");
    assert_eq!(h.messages[0].content, "hi");
    assert_eq!(h.messages[1].content, "hello");
    assert_eq!(h.messages[2].content, "more");
    h.clear();
    assert!(h.messages.is_empty());
}

#[test]
fn collector_keeps_last_done() {
    let mut c = StreamCollector::new();
    c.absorb(StreamEvent::Content { text: "partial".into() });
    c.absorb(StreamEvent::Done { message: reply("first") });
    c.absorb(StreamEvent::Status { message: "x".into() });
    c.absorb(StreamEvent::Done { message: reply("second") });
    assert_eq!(c.finish().ok().unwrap().content, "second");
    let empty = StreamCollector::new();
    assert_eq!(empty.finish().err().unwrap(), "Stream ended without a Done event");
}

#[test]
fn urls_and_messages() {
    assert_eq!(server_base("http://h:1///"), "http://h:1");
    assert_eq!(server_base("http://h:1"), "http://h:1");
    assert_eq!(sessions_url("http://h"), "http://h/api/sessions");
    assert_eq!(chat_stream_url("http://h"), "http://h/api/llm/chat/stream");
    assert_eq!(prompts_loaded_message(3, "p.txt"), "Loaded 3 prompts from p.txt");
    assert_eq!(empty_script_message("p.txt"), "Script file is empty: p.txt");
    assert!(default_true());
    assert_eq!(session_label("0123456789abcdef"), "01234567");
    assert_eq!(session_label("abc"), "abc");
}

#[test]
fn viz_helpers() {
    assert!(parse_linkage("SINGLE") == Linkage::Single);
    assert!(parse_linkage("average") == Linkage::Average);
    assert!(parse_linkage("complete") == Linkage::Complete);
    assert!(parse_linkage("x") == Linkage::Ward);
    assert_eq!(decode_base64_image("aGk=").unwrap(), b"hi".to_vec());
    let e = decode_base64_image("!!").unwrap_err();
    assert!(e.starts_with("Failed to decode image: Invalid "));
    assert_eq!(decode_base64_image("aGk").unwrap_err(), "Failed to decode image: Invalid padding");
    assert_eq!(chart_saved_message(ChartKind::Histogram, "h.png"), "Histogram saved to: h.png");
    assert_eq!(chart_failed_message(ChartKind::Scatter, "e"), "Scatter plot creation failed: e");
    assert_eq!(chart_failed_message(ChartKind::Irf, "e"), "IRF plot failed: e");
    let (a, b, c) = residual_companion_names(&None);
    assert_eq!((a.as_str(), b.as_str(), c.as_str()), ("residuals_qq.png", "residuals_scale_location.png", "residuals_leverage.png"));
    let (a, _, _) = residual_companion_names(&Some("fit".into()));
    assert_eq!(a, "fit_qq.png");
    assert_eq!(
        residuals_saved_message("r.png"),
        "Residual diagnostics saved to: r.png (+ _qq, _scale_location, _leverage)"
    );
}

fn all_lines(chunks: &[&str]) -> Vec<String> {
    let mut buf = p2a::chat::StreamBuffer::new();
    let mut out = Vec::new();
    for c in chunks {
        out.extend(buf.feed(c));
    }
    if let Some(rest) = buf.finish() {
        out.push(rest);
    }
    out
}

#[test]
fn chunking_does_not_change_lines() {
    let whole = all_lines(&["data: {\"a\":1}\n\ndata: x\n: ping\ntail"]);
    assert_eq!(whole, lines(&["data: {\"a\":1}", "", "data: x", ": ping", "tail"]));
    assert_eq!(all_lines(&["da", "ta: {\"a\"", ":1}\n", "\nda", "ta: x\n: p", "ing\nta", "il"]), whole);
    assert_eq!(all_lines(&["x\n", "", "y\n"]), lines(&["x", "y"]));
    assert!(all_lines(&[]).is_empty());
}

#[test]
fn history_keeps_only_answered_requests() {
    let mut h = ChatHistory::new();
    h.settle("first", Some(reply("one")));
    h.settle("failed", None);
    h.settle("third", Some(reply("three")));
    let texts: Vec<(&str, &str)> = h.messages.iter().map(|m| (m.role.as_str(), m.content.as_str())).collect();
    assert_eq!(texts, vec![("user", "first"), ("assistant", "one"), ("user", "third"), ("assistant", "three")]);
}

#[test]
fn chat_request_flags() {
    let r = p2a::chat::chat_request("sid", "hello");
    assert_eq!(r.session_id, "sid");
    assert_eq!(r.message, "hello");
    assert!(r.interpret);
    assert!(r.conversation_id.is_none());
    assert!(!r.retrieve_history);
}

#[test]
fn argument_summary_is_plain() {
    let args = vec![
        ("path".to_string(), ArgShown::Text("a very long path name that goes on and on.csv".into())),
        ("n".to_string(), ArgShown::Json("[1,2,3]".into())),
    ];
    let brief = format_args_brief(&Some(args));
    assert!(!brief.contains('\u{1b}'));
    assert_eq!(brief, "(path=\"a very long path name that ...\", n=[1,2,3])");
}

#[test]
fn script_run_sends_each_prompt_once_in_order() {
    let mut run = ScriptRun::new(vec!["first".to_string(), "second".to_string(), "third".to_string()]);
    let mut sent = Vec::new();
    let mut outcomes = vec![Some(reply("one")), None, Some(reply("three"))].into_iter();
    while let Some(req) = run.next_request("s1") {
        assert_eq!(req.session_id, "s1");
        assert!(req.interpret && !req.retrieve_history && req.conversation_id.is_none());
        if req.message == "third" {
            let contents: Vec<&str> = run.history.messages.iter().map(|m| m.content.as_str()).collect();
            assert_eq!(contents, vec!["first", "one"]);
        }
        sent.push(req.message);
        run.settle(outcomes.next().unwrap());
    }
    assert_eq!(sent, vec!["first", "second", "third"]);
    assert_eq!(run.sent, 3);
    let contents: Vec<&str> = run.history.messages.iter().map(|m| m.content.as_str()).collect();
    assert_eq!(contents, vec!["first", "one", "third", "three"]);
    assert_eq!(run.history.messages[0].role, "user");
}

#[test]
fn decode_error_messages_follow_the_decoder() {
    assert_eq!(decode_error_message(Base64Error::InvalidByte(3, 33)), "Invalid symbol 33, offset 3.");
    assert_eq!(decode_error_message(Base64Error::InvalidLength(5)), "Invalid input length: 5");
    assert_eq!(decode_error_message(Base64Error::InvalidLastSymbol(2, 66)), "Invalid last symbol 66, offset 2.");
    assert_eq!(decode_error_message(Base64Error::InvalidPadding), "Invalid padding");
    let bad = ImageData { data: "a!==".into(), mime_type: "image/png".into() };
    assert_eq!(image_bytes(&bad).unwrap_err(), "Invalid symbol 33, offset 1.");
}
