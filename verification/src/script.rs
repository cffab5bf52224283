//! Scripts handed to the WhatsApp Web view: the navigator spoofing script,
//! the user agent, and the scripts that send a text or a media message.

use vstd::prelude::*;

verus! {

broadcast use vstd::string::group_string_axioms;

/// Opening of the navigator spoofing script, up to the user agent.
pub const SPOOF_HEAD: &'static str = r#"
            (() => {
                try {
                    Object.defineProperty(navigator, 'userAgent', {
                        get: () => ""#;

/// Between the user agent and the platform in the navigator spoofing script.
pub const SPOOF_MIDDLE: &'static str = r#""
                    });
                    Object.defineProperty(navigator, 'platform', {
                        get: () => ""#;

/// Closing of the navigator spoofing script, after the platform.
pub const SPOOF_TAIL: &'static str = r#""
                    });
                    Object.defineProperty(navigator, 'vendor', {
                        get: () => "Google Inc."
                    });
                } catch(e) {
                    console.error("Failed to spoof navigator properties", e);
                }
            })();
            "#;

/// Opening of a send script, up to the phone number.
pub const CHAT_HEAD: &'static str = r#"
            (async () => {
                if (window.WWebJS) {
                    const chat = await window.WWebJS.getChat(""#;

/// Between the phone number and the message in a text send script.
pub const TEXT_MIDDLE: &'static str = r#"@c.us", { getAsModel: false });
                    if (chat) {
                        await window.WWebJS.sendMessage(chat, ""#;

/// Closing of a text send script, after the message.
pub const TEXT_TAIL: &'static str = r#"", {});
                    } else {
                        console.error("Chat not found");
                    }
                } else {
                    console.error("WWebJS not loaded");
                }
            })();
            "#;

/// Between the phone number and the caption in a media send script.
pub const MEDIA_CAPTION: &'static str = r#"@c.us", { getAsModel: false });
                    if (chat) {
                        const options = {
                            caption: ""#;

/// Between the caption and the MIME type in a media send script.
pub const MEDIA_MIME: &'static str = r#"",
                            media: {
                                mimetype: ""#;

/// Between the MIME type and the base64 data in a media send script.
pub const MEDIA_DATA: &'static str = r#"",
                                data: ""#;

/// Between the base64 data and the file name in a media send script.
pub const MEDIA_FILE_NAME: &'static str = r#"",
                                filename: ""#;

/// Closing of a media send script, after the file name.
pub const MEDIA_TAIL: &'static str = r#""
                            }
                        };
                        await window.WWebJS.sendMessage(chat, "", options);
                    } else {
                        console.error("Chat not found");
                    }
                } else {
                    console.error("WWebJS not loaded");
                }
            })();
            "#;


/// Message shown when a message is sent before the engine window exists.
pub const WINDOW_MISSING: &'static str = "WhatsApp window not found. Please open it first.";

/// Whether a character cannot stand as it is inside a double-quoted script
/// literal: the backslash, the quote, the line feed and the carriage return.
pub open spec fn needs_escape(c: char) -> bool {
    c == '\\' || c == '"' || c == '\n' || c == '\r'
}

/// The character written after the backslash in the escape of `c`.
pub open spec fn escape_letter(c: char) -> char {
    if c == '\n' {
        'n'
    } else if c == '\r' {
        'r'
    } else {
        c
    }
}

/// The characters that one character of a message becomes inside a
/// double-quoted script literal: `\` becomes `\\`, `"` becomes `\"`, a line
/// feed becomes `\n`, a carriage return becomes `\r`, every other character
/// stays as it is.
pub open spec fn escape_char(c: char) -> Seq<char> {
    if needs_escape(c) {
        seq!['\\', escape_letter(c)]
    } else {
        seq![c]
    }
}

/// A message escaped character by character.
pub open spec fn escape_text(s: Seq<char>) -> Seq<char>
    decreases s.len(),
{
    if s.len() == 0 {
        Seq::empty()
    } else {
        escape_char(s[0]) + escape_text(s.skip(1))
    }
}

/// The characters that may follow a backslash in the escapes written here:
/// `\\`, `\"`, `\n` and `\r`.
pub open spec fn is_escape_letter(c: char) -> bool {
    c == '\\' || c == '"' || c == 'n' || c == 'r'
}

/// Whether `s` can stand between the quotes of a double-quoted script
/// literal, written with the escapes `\\`, `\"`, `\n` and `\r` only: every
/// backslash starts one of them, and no quote, line feed or carriage return
/// stands outside an escape.
pub open spec fn is_literal_body(s: Seq<char>) -> bool
    decreases s.len(),
{
    if s.len() == 0 {
        true
    } else if s[0] == '\\' {
        s.len() >= 2 && is_escape_letter(s[1]) && is_literal_body(s.skip(2))
    } else {
        !needs_escape(s[0]) && is_literal_body(s.skip(1))
    }
}

/// The character that the escape `\c` stands for in a script literal, for
/// the escape letters `\`, `"`, `n` and `r`.
pub open spec fn unescape_char(c: char) -> char {
    if c == 'n' {
        '\n'
    } else if c == 'r' {
        '\r'
    } else {
        c
    }
}

/// The text that a script literal body denotes once its escapes are read.
pub open spec fn literal_value(s: Seq<char>) -> Seq<char>
    decreases s.len(),
{
    if s.len() == 0 {
        Seq::empty()
    } else if s[0] == '\\' && s.len() >= 2 {
        seq![unescape_char(s[1])] + literal_value(s.skip(2))
    } else {
        seq![s[0]] + literal_value(s.skip(1))
    }
}

/// Escaping a message part by part gives the escaped message:
/// the escape of `a + b` is the escape of `a` followed by that of `b`.
pub proof fn escape_text_concat(a: Seq<char>, b: Seq<char>)
    ensures
        escape_text(a + b) == escape_text(a) + escape_text(b),
    decreases a.len(),
{
    if a.len() == 0 {
        assert(a + b == b);
    } else {
        assert((a + b).skip(1) == a.skip(1) + b);
        escape_text_concat(a.skip(1), b);
    }
}

/// A message with no backslash, quote, line feed or carriage return is
/// embedded unchanged.
pub proof fn escape_text_plain(s: Seq<char>)
    requires
        forall|i: int| 0 <= i < s.len() ==> !needs_escape(#[trigger] s[i]),
    ensures
        escape_text(s) == s,
    decreases s.len(),
{
    if s.len() > 0 {
        assert(forall|i: int| 0 <= i < s.skip(1).len() ==> s.skip(1)[i] == s[i + 1]);
        escape_text_plain(s.skip(1));
        assert(seq![s[0]] + s.skip(1) == s);
    }
}

/// Every message, escaped, stays inside its script literal, and the page
/// reads back exactly the message.
pub proof fn escape_text_round_trip(s: Seq<char>)
    ensures
        is_literal_body(escape_text(s)),
        literal_value(escape_text(s)) == s,
    decreases s.len(),
{
    if s.len() > 0 {
        escape_text_round_trip(s.skip(1));
        let e = escape_text(s);
        let rest = escape_text(s.skip(1));
        if needs_escape(s[0]) {
            assert(e.skip(2) == rest);
            assert(e[0] == '\\');
            assert(e[1] == escape_letter(s[0]));
        } else {
            assert(e.skip(1) == rest);
            assert(e[0] == s[0]);
        }
        assert(seq![s[0]] + s.skip(1) == s);
    }
}

/// Escaping one more character appends the escape of that character.
proof fn escape_text_push(s: Seq<char>, c: char)
    ensures
        escape_text(s.push(c)) == escape_text(s) + escape_char(c),
{
    escape_text_concat(s, seq![c]);
    assert(seq![c].skip(1) == Seq::<char>::empty());
    assert(escape_text(Seq::<char>::empty()) == Seq::<char>::empty());
    assert(escape_text(seq![c]) == escape_char(c) + Seq::<char>::empty());
    assert(escape_char(c) + Seq::<char>::empty() == escape_char(c));
    assert(s + seq![c] == s.push(c));
}

/// Appends one character to a string (std's `String::push`).
#[verifier::external_body]
fn push_char(s: &mut String, c: char)
    ensures
        final(s)@ == old(s)@.push(c),
{
    s.push(c);
}

/// Escapes a message for a double-quoted script literal: `\` and `"` are
/// preceded by a backslash, a line feed is written as `\n` and a carriage
/// return as `\r`.
pub fn escape_message(message: &str) -> (r: String)
    ensures
        r@ == escape_text(message@),
{
    let mut r = String::new();
    for c in it: message.chars()
        invariant
            it.seq() == message@,
            r@ == escape_text(it.seq().take(it.index())),
            it.index() == message@.len() ==> r@ == escape_text(message@),
    {
        proof {
            assert(it.seq().take(it.index() + 1) == it.seq().take(it.index()).push(c));
            escape_text_push(it.seq().take(it.index()), c);
        }
        if c == '\\' || c == '"' {
            push_char(&mut r, '\\');
            push_char(&mut r, c);
        } else if c == '\n' {
            push_char(&mut r, '\\');
            push_char(&mut r, 'n');
        } else if c == '\r' {
            push_char(&mut r, '\\');
            push_char(&mut r, 'r');
        } else {
            push_char(&mut r, c);
        }
        proof {
            if it.index() + 1 == message@.len() {
                assert(it.seq().take(it.index() + 1) == message@);
            }
        }
    }
    r
}

/// The script that sends a text message to a phone number.
pub open spec fn text_script(phone: Seq<char>, message: Seq<char>) -> Seq<char> {
    CHAT_HEAD@ + phone + TEXT_MIDDLE@ + escape_text(message) + TEXT_TAIL@
}

/// The script that sends a media message to a phone number.
pub open spec fn media_script(
    phone: Seq<char>,
    caption: Seq<char>,
    media_base64: Seq<char>,
    mime_type: Seq<char>,
    file_name: Seq<char>,
) -> Seq<char> {
    CHAT_HEAD@ + phone + MEDIA_CAPTION@ + escape_text(caption) + MEDIA_MIME@ + mime_type
        + MEDIA_DATA@ + media_base64 + MEDIA_FILE_NAME@ + file_name + MEDIA_TAIL@
}

/// The text script starts with the chat opening, then holds the phone
/// number whole and the text `@c.us"` opening; between that and the closing
/// stands a literal body that the page reads back as the message, whatever
/// the lengths of the phone number and the message.
pub proof fn text_script_carries_phone_and_message(phone: Seq<char>, message: Seq<char>)
    ensures
        ({
            let s = text_script(phone, message);
            let h = CHAT_HEAD@.len() as int;
            let p = phone.len() as int;
            let m = TEXT_MIDDLE@.len() as int;
            let t = TEXT_TAIL@.len() as int;
            &&& h + p + m + t <= s.len()
            &&& s.subrange(0, h) == CHAT_HEAD@
            &&& s.subrange(h, h + p) == phone
            &&& s.subrange(h + p, h + p + m) == TEXT_MIDDLE@
            &&& s.subrange(s.len() - t, s.len() as int) == TEXT_TAIL@
            &&& is_literal_body(s.subrange(h + p + m, s.len() - t))
            &&& literal_value(s.subrange(h + p + m, s.len() - t)) == message
        }),
{
    let s = text_script(phone, message);
    let e = escape_text(message);
    let h = CHAT_HEAD@.len() as int;
    let p = phone.len() as int;
    let m = TEXT_MIDDLE@.len() as int;
    let t = TEXT_TAIL@.len() as int;
    assert(s == CHAT_HEAD@ + phone + TEXT_MIDDLE@ + e + TEXT_TAIL@);
    assert(s.len() == h + p + m + e.len() + t);
    assert(s.subrange(0, h) =~= CHAT_HEAD@);
    assert(s.subrange(h, h + p) =~= phone);
    assert(s.subrange(h + p, h + p + m) =~= TEXT_MIDDLE@);
    assert(s.subrange(s.len() - t, s.len() as int) =~= TEXT_TAIL@);
    assert(s.subrange(h + p + m, s.len() - t) =~= e);
    escape_text_round_trip(message);
}

/// The media script holds, in order and each whole: the phone number, a
/// literal body that the page reads back as the caption, the MIME type, the
/// base64 data and the file name, each after its own opening text, whatever
/// their lengths.
pub proof fn media_script_carries_each_value(
    phone: Seq<char>,
    caption: Seq<char>,
    media_base64: Seq<char>,
    mime_type: Seq<char>,
    file_name: Seq<char>,
)
    ensures
        ({
            let s = media_script(phone, caption, media_base64, mime_type, file_name);
            let h = CHAT_HEAD@.len() as int;
            let p = phone.len() as int;
            let c = MEDIA_CAPTION@.len() as int;
            // positions counted back from the end of the script
            let tail_at = s.len() - MEDIA_TAIL@.len();
            let file_at = tail_at - file_name.len();
            let file_open_at = file_at - MEDIA_FILE_NAME@.len();
            let data_at = file_open_at - media_base64.len();
            let data_open_at = data_at - MEDIA_DATA@.len();
            let mime_at = data_open_at - mime_type.len();
            let mime_open_at = mime_at - MEDIA_MIME@.len();
            &&& h + p + c <= mime_open_at
            &&& s.subrange(0, h) == CHAT_HEAD@
            &&& s.subrange(h, h + p) == phone
            &&& s.subrange(h + p, h + p + c) == MEDIA_CAPTION@
            &&& is_literal_body(s.subrange(h + p + c, mime_open_at))
            &&& literal_value(s.subrange(h + p + c, mime_open_at)) == caption
            &&& s.subrange(mime_open_at, mime_at) == MEDIA_MIME@
            &&& s.subrange(mime_at, data_open_at) == mime_type
            &&& s.subrange(data_open_at, data_at) == MEDIA_DATA@
            &&& s.subrange(data_at, file_open_at) == media_base64
            &&& s.subrange(file_open_at, file_at) == MEDIA_FILE_NAME@
            &&& s.subrange(file_at, tail_at) == file_name
            &&& s.subrange(tail_at, s.len() as int) == MEDIA_TAIL@
        }),
{
    let s = media_script(phone, caption, media_base64, mime_type, file_name);
    let e = escape_text(caption);
    let h = CHAT_HEAD@.len() as int;
    let p = phone.len() as int;
    let c = MEDIA_CAPTION@.len() as int;
    let tail_at = s.len() - MEDIA_TAIL@.len();
    let file_at = tail_at - file_name.len();
    let file_open_at = file_at - MEDIA_FILE_NAME@.len();
    let data_at = file_open_at - media_base64.len();
    let data_open_at = data_at - MEDIA_DATA@.len();
    let mime_at = data_open_at - mime_type.len();
    let mime_open_at = mime_at - MEDIA_MIME@.len();
    assert(s.len() == h + p + c + e.len() + MEDIA_MIME@.len() + mime_type.len()
        + MEDIA_DATA@.len() + media_base64.len() + MEDIA_FILE_NAME@.len() + file_name.len()
        + MEDIA_TAIL@.len());
    assert(mime_open_at == h + p + c + e.len());
    assert(s.subrange(0, h) =~= CHAT_HEAD@);
    assert(s.subrange(h, h + p) =~= phone);
    assert(s.subrange(h + p, h + p + c) =~= MEDIA_CAPTION@);
    assert(s.subrange(h + p + c, mime_open_at) =~= e);
    assert(s.subrange(mime_open_at, mime_at) =~= MEDIA_MIME@);
    assert(s.subrange(mime_at, data_open_at) =~= mime_type);
    assert(s.subrange(data_open_at, data_at) =~= MEDIA_DATA@);
    assert(s.subrange(data_at, file_open_at) =~= media_base64);
    assert(s.subrange(file_open_at, file_at) =~= MEDIA_FILE_NAME@);
    assert(s.subrange(file_at, tail_at) =~= file_name);
    assert(s.subrange(tail_at, s.len() as int) =~= MEDIA_TAIL@);
    escape_text_round_trip(caption);
}

/// Builds the script that sends `message` to the chat `phone@c.us`.
/// The phone number is embedded as given; the message is escaped so that the page reads it exactly.
pub fn send_message_script(phone: &str, message: &str) -> (r: String)
    ensures
        r@ == text_script(phone@, message@),
{
    let escaped = escape_message(message);
    let mut r = String::new();
    r.append(CHAT_HEAD);
    r.append(phone);
    r.append(TEXT_MIDDLE);
    r.append(escaped.as_str());
    r.append(TEXT_TAIL);
    r
}

/// Builds the script that sends a media message with a caption to the chat
/// `phone@c.us`. Only the caption is escaped; the other values are embedded
/// as given.
pub fn send_media_script(
    phone: &str,
    message: &str,
    media_base64: &str,
    mime_type: &str,
    file_name: &str,
) -> (r: String)
    ensures
        r@ == media_script(phone@, message@, media_base64@, mime_type@, file_name@),
{
    let escaped = escape_message(message);
    let mut r = String::new();
    r.append(CHAT_HEAD);
    r.append(phone);
    r.append(MEDIA_CAPTION);
    r.append(escaped.as_str());
    r.append(MEDIA_MIME);
    r.append(mime_type);
    r.append(MEDIA_DATA);
    r.append(media_base64);
    r.append(MEDIA_FILE_NAME);
    r.append(file_name);
    r.append(MEDIA_TAIL);
    r
}

/// The script to run for a text message: refused with `WINDOW_MISSING`
/// when the engine window does not exist, else the send script.
pub fn prepare_send_message(window_exists: bool, phone: &str, message: &str) -> (r: Result<
    String,
    String,
>)
    ensures
        match r {
            Ok(s) => window_exists && s@ == text_script(phone@, message@),
            Err(e) => !window_exists && e@ == WINDOW_MISSING@,
        },
{
    if !window_exists {
        return Err(WINDOW_MISSING.to_string());
    }
    Ok(send_message_script(phone, message))
}

/// The script to run for a media message: refused with `WINDOW_MISSING`
/// when the engine window does not exist, else the send script.
pub fn prepare_send_media(
    window_exists: bool,
    phone: &str,
    message: &str,
    media_base64: &str,
    mime_type: &str,
    file_name: &str,
) -> (r: Result<String, String>)
    ensures
        match r {
            Ok(s) => window_exists && s@ == media_script(
                phone@,
                message@,
                media_base64@,
                mime_type@,
                file_name@,
            ),
            Err(e) => !window_exists && e@ == WINDOW_MISSING@,
        },
{
    if !window_exists {
        return Err(WINDOW_MISSING.to_string());
    }
    Ok(send_media_script(phone, message, media_base64, mime_type, file_name))
}

/// The operating system the engine runs on, as the spoofed navigator
/// presents it.
#[derive(Clone, Copy, Debug, PartialEq, Eq)]
pub enum HostPlatform {
    Windows,
    MacOs,
    Linux,
}

/// The operating-system part of the user agent for a platform.
pub open spec fn os_agent_text(platform: HostPlatform) -> Seq<char> {
    match platform {
        HostPlatform::Windows => "Windows NT 10.0; Win64; x64"@,
        HostPlatform::MacOs => "Macintosh; Intel Mac OS X 10_15_7"@,
        HostPlatform::Linux => "X11; Linux x86_64"@,
    }
}

/// The value of `navigator.platform` for a platform.
pub open spec fn js_platform_text(platform: HostPlatform) -> Seq<char> {
    match platform {
        HostPlatform::Windows => "Win32"@,
        HostPlatform::MacOs => "MacIntel"@,
        HostPlatform::Linux => "Linux x86_64"@,
    }
}

/// The desktop Chrome user agent that the engine window presents.
pub open spec fn user_agent_text(platform: HostPlatform) -> Seq<char> {
    "Mozilla/5.0 ("@ + os_agent_text(platform)
        + ") AppleWebKit/537.36 (KHTML, like Gecko) Chrome/129.0.0.0 Safari/537.36"@
}

/// The script that overrides the navigator's user agent, platform and vendor.
pub open spec fn spoof_script_text(user_agent: Seq<char>, js_platform: Seq<char>) -> Seq<char> {
    SPOOF_HEAD@ + user_agent + SPOOF_MIDDLE@ + js_platform + SPOOF_TAIL@
}

/// The operating-system part of the user agent for `platform`.
pub fn os_agent(platform: HostPlatform) -> (r: &'static str)
    ensures
        r@ == os_agent_text(platform),
{
    match platform {
        HostPlatform::Windows => "Windows NT 10.0; Win64; x64",
        HostPlatform::MacOs => "Macintosh; Intel Mac OS X 10_15_7",
        HostPlatform::Linux => "X11; Linux x86_64",
    }
}

/// The value the spoofed `navigator.platform` reports on `platform`.
pub fn js_platform(platform: HostPlatform) -> (r: &'static str)
    ensures
        r@ == js_platform_text(platform),
{
    match platform {
        HostPlatform::Windows => "Win32",
        HostPlatform::MacOs => "MacIntel",
        HostPlatform::Linux => "Linux x86_64",
    }
}

/// The user agent of the engine window on `platform`.
pub fn user_agent(platform: HostPlatform) -> (r: String)
    ensures
        r@ == user_agent_text(platform),
{
    let mut r = String::new();
    r.append("Mozilla/5.0 (");
    r.append(os_agent(platform));
    r.append(") AppleWebKit/537.36 (KHTML, like Gecko) Chrome/129.0.0.0 Safari/537.36");
    r
}

/// The initialization script that makes the page see `user_agent`,
/// `js_platform` and the vendor "Google Inc." in its navigator.
pub fn spoof_script(user_agent: &str, js_platform: &str) -> (r: String)
    ensures
        r@ == spoof_script_text(user_agent@, js_platform@),
{
    let mut r = String::new();
    r.append(SPOOF_HEAD);
    r.append(user_agent);
    r.append(SPOOF_MIDDLE);
    r.append(js_platform);
    r.append(SPOOF_TAIL);
    r
}

/// The spoofing script holds the user agent whole right after its opening,
/// then the platform whole between the middle text and the closing, so the
/// page's getters return exactly the values given, whatever their lengths.
pub proof fn spoof_script_carries_values(user_agent: Seq<char>, js_platform: Seq<char>)
    ensures
        ({
            let s = spoof_script_text(user_agent, js_platform);
            let h = SPOOF_HEAD@.len() as int;
            let u = user_agent.len() as int;
            let m = SPOOF_MIDDLE@.len() as int;
            let p = js_platform.len() as int;
            &&& s.len() == h + u + m + p + SPOOF_TAIL@.len()
            &&& s.subrange(0, h) == SPOOF_HEAD@
            &&& s.subrange(h, h + u) == user_agent
            &&& s.subrange(h + u, h + u + m) == SPOOF_MIDDLE@
            &&& s.subrange(h + u + m, h + u + m + p) == js_platform
            &&& s.subrange(h + u + m + p, s.len() as int) == SPOOF_TAIL@
        }),
{
    let s = spoof_script_text(user_agent, js_platform);
    let h = SPOOF_HEAD@.len() as int;
    let u = user_agent.len() as int;
    let m = SPOOF_MIDDLE@.len() as int;
    let p = js_platform.len() as int;
    assert(s.subrange(0, h) =~= SPOOF_HEAD@);
    assert(s.subrange(h, h + u) =~= user_agent);
    assert(s.subrange(h + u, h + u + m) =~= SPOOF_MIDDLE@);
    assert(s.subrange(h + u + m, h + u + m + p) =~= js_platform);
    assert(s.subrange(h + u + m + p, s.len() as int) =~= SPOOF_TAIL@);
}

/// The user agent holds the platform's operating-system part whole between
/// "Mozilla/5.0 (" and ") AppleWebKit...", for every platform.
pub proof fn user_agent_carries_os_agent(platform: HostPlatform)
    ensures
        ({
            let s = user_agent_text(platform);
            let o = os_agent_text(platform);
            let h = "Mozilla/5.0 ("@.len() as int;
            &&& s.subrange(0, h) == "Mozilla/5.0 ("@
            &&& s.subrange(h, h + o.len()) == o
            &&& s.subrange(h + o.len(), s.len() as int)
                == ") AppleWebKit/537.36 (KHTML, like Gecko) Chrome/129.0.0.0 Safari/537.36"@
        }),
{
    let s = user_agent_text(platform);
    let o = os_agent_text(platform);
    let h = "Mozilla/5.0 ("@.len() as int;
    assert(s.subrange(0, h) =~= "Mozilla/5.0 ("@);
    assert(s.subrange(h, h + o.len()) =~= o);
    assert(s.subrange(h + o.len(), s.len() as int)
        =~= ") AppleWebKit/537.36 (KHTML, like Gecko) Chrome/129.0.0.0 Safari/537.36"@);
}

} // verus!
