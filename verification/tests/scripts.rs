use tenwa::script::{
    escape_message, js_platform, os_agent, prepare_send_media, prepare_send_message,
    send_media_script, send_message_script, spoof_script, user_agent, HostPlatform,
    WINDOW_MISSING,
};

fn escaped(message: &str) -> String {
    message
        .replace('\\', "\\\\")
        .replace('"', "\\\"")
        .replace('\n', "\\n")
        .replace('\r', "\\r")
}

fn expected_text_script(phone: &str, message: &str) -> String {
    format!(
        r#"
            (async () => {{
                if (window.WWebJS) {{
                    const chat = await window.WWebJS.getChat("{}@c.us", {{ getAsModel: false }});
                    if (chat) {{
                        await window.WWebJS.sendMessage(chat, "{}", {{}});
                    }} else {{
                        console.error("Chat not found");
                    }}
                }} else {{
                    console.error("WWebJS not loaded");
                }}
            }})();
            "#,
        phone,
        escaped(message)
    )
}

fn expected_media_script(
    phone: &str,
    message: &str,
    media_base64: &str,
    mime_type: &str,
    file_name: &str,
) -> String {
    format!(
        r#"
            (async () => {{
                if (window.WWebJS) {{
                    const chat = await window.WWebJS.getChat("{}@c.us", {{ getAsModel: false }});
                    if (chat) {{
                        const options = {{
                            caption: "{}",
                            media: {{
                                mimetype: "{}",
                                data: "{}",
                                filename: "{}"
                            }}
                        }};
                        await window.WWebJS.sendMessage(chat, "", options);
                    }} else {{
                        console.error("Chat not found");
                    }}
                }} else {{
                    console.error("WWebJS not loaded");
                }}
            }})();
            "#,
        phone,
        escaped(message),
        mime_type,
        media_base64,
        file_name
    )
}

#[test]
fn escape_quotes_and_line_feeds() {
    assert_eq!(escape_message("say \"hi\"\nbye"), "say \\\"hi\\\"\\nbye");
}

#[test]
fn escape_plain_text_is_unchanged() {
    assert_eq!(escape_message("hello, world"), "hello, world");
    assert_eq!(escape_message(""), "");
}

#[test]
fn escape_keeps_other_characters() {
    assert_eq!(escape_message("naïve \t ünïcödé"), "naïve \t ünïcödé");
}

#[test]
fn escape_backslashes_and_carriage_returns() {
    assert_eq!(escape_message("a\\b\"c"), "a\\\\b\\\"c");
    assert_eq!(escape_message("\\"), "\\\\");
    assert_eq!(escape_message("x\r\ny"), "x\\r\\ny");
}

#[test]
fn escape_of_concatenation() {
    let a = "one \"two\"";
    let b = "\nthree";
    let whole = format!("{}{}", a, b);
    assert_eq!(escape_message(&whole), format!("{}{}", escape_message(a), escape_message(b)));
}

#[test]
fn escape_round_trip() {
    let message = "line \"one\"\r\nline \\two";
    let escaped = escape_message(message);
    assert!(!escaped.contains('\n'));
    assert!(!escaped.contains('\r'));
    assert_eq!(read_literal(&escaped), message);
    let tricky = "ends with a backslash \\";
    assert_eq!(read_literal(&escape_message(tricky)), tricky);
    let mixed = "a\\\"b\r\nc\\n";
    assert_eq!(read_literal(&escape_message(mixed)), mixed);
}

#[test]
fn text_script_matches_template() {
    let phone = "1234567890";
    let message = "Hello \"friend\"\nsee you";
    assert_eq!(send_message_script(phone, message), expected_text_script(phone, message));
}

#[test]
fn text_script_with_empty_message() {
    assert_eq!(send_message_script("1", ""), expected_text_script("1", ""));
}

#[test]
fn media_script_matches_template() {
    let s = send_media_script("5511", "a \"caption\"\n", "QUJD", "image/png", "pic.png");
    assert_eq!(s, expected_media_script("5511", "a \"caption\"\n", "QUJD", "image/png", "pic.png"));
    assert!(s.contains("data: \"QUJD\""));
    assert!(s.contains("caption: \"a \\\"caption\\\"\\n\""));
}

#[test]
fn send_message_needs_window() {
    assert_eq!(
        prepare_send_message(false, "1", "hi"),
        Err("WhatsApp window not found. Please open it first.".to_string())
    );
    assert_eq!(WINDOW_MISSING, "WhatsApp window not found. Please open it first.");
    assert_eq!(prepare_send_message(true, "1", "hi"), Ok(expected_text_script("1", "hi")));
}

#[test]
fn send_media_needs_window() {
    assert_eq!(
        prepare_send_media(false, "1", "c", "d", "m", "f"),
        Err("WhatsApp window not found. Please open it first.".to_string())
    );
    assert_eq!(
        prepare_send_media(true, "1", "c", "d", "m", "f"),
        Ok(expected_media_script("1", "c", "d", "m", "f"))
    );
}

#[test]
fn platform_strings() {
    assert_eq!(os_agent(HostPlatform::Windows), "Windows NT 10.0; Win64; x64");
    assert_eq!(js_platform(HostPlatform::Windows), "Win32");
    assert_eq!(os_agent(HostPlatform::MacOs), "Macintosh; Intel Mac OS X 10_15_7");
    assert_eq!(js_platform(HostPlatform::MacOs), "MacIntel");
    assert_eq!(os_agent(HostPlatform::Linux), "X11; Linux x86_64");
    assert_eq!(js_platform(HostPlatform::Linux), "Linux x86_64");
}

#[test]
fn user_agent_per_platform() {
    for p in [HostPlatform::Windows, HostPlatform::MacOs, HostPlatform::Linux] {
        assert_eq!(
            user_agent(p),
            format!(
                "Mozilla/5.0 ({}) AppleWebKit/537.36 (KHTML, like Gecko) Chrome/129.0.0.0 Safari/537.36",
                os_agent(p)
            )
        );
    }
    assert_eq!(
        user_agent(HostPlatform::Linux),
        "Mozilla/5.0 (X11; Linux x86_64) AppleWebKit/537.36 (KHTML, like Gecko) Chrome/129.0.0.0 Safari/537.36"
    );
}

#[test]
fn spoof_script_matches_template() {
    let ua = user_agent(HostPlatform::MacOs);
    let platform = js_platform(HostPlatform::MacOs);
    let expected = format!(
        r#"
            (() => {{
                try {{
                    Object.defineProperty(navigator, 'userAgent', {{
                        get: () => "{}"
                    }});
                    Object.defineProperty(navigator, 'platform', {{
                        get: () => "{}"
                    }});
                    Object.defineProperty(navigator, 'vendor', {{
                        get: () => "Google Inc."
                    }});
                }} catch(e) {{
                    console.error("Failed to spoof navigator properties", e);
                }}
            }})();
            "#,
        ua, platform
    );
    assert_eq!(spoof_script(&ua, platform), expected);
}

/// Reads a double-quoted literal body written with the escapes \\, \", \n, \r.
fn read_literal(body: &str) -> String {
    let mut out = String::new();
    let mut chars = body.chars();
    while let Some(c) = chars.next() {
        if c == '\\' {
            match chars.next() {
                Some('n') => out.push('\n'),
                Some('r') => out.push('\r'),
                Some(other) => out.push(other),
                None => panic!("dangling backslash"),
            }
        } else {
            assert!(c != '"' && c != '\n' && c != '\r');
            out.push(c);
        }
    }
    out
}

#[test]
fn media_script_caption_with_backslash_and_carriage_return() {
    let s = send_media_script("1", "a\\\r", "d", "m", "f");
    assert_eq!(s, expected_media_script("1", "a\\\r", "d", "m", "f"));
    assert!(s.contains("caption: \"a\\\\\\r\""));
}
