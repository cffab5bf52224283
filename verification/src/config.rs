//! The engine's configuration file: a JSON object of string settings,
//! read and updated one key at a time.
//!
//! The JSON text is parsed and printed by `serde_json`; what this module
//! decides is which document is written and which setting is read back.

use vstd::prelude::*;

verus! {

broadcast use vstd::string::group_string_axioms;

#[verifier::external_type_specification]
#[verifier::external_body]
pub struct ExJsonValue(serde_json::Value);

#[verifier::external_type_specification]
#[verifier::external_body]
#[verifier::reject_recursive_types(K)]
#[verifier::reject_recursive_types(V)]
pub struct ExJsonMap<K, V>(serde_json::Map<K, V>);

#[verifier::external_type_specification]
#[verifier::external_body]
pub struct ExJsonError(serde_json::Error);

/// What `serde_json::from_str::<Value>` gives for a text: the parsed
/// document, or `None` where it reports an error.
pub uninterp spec fn json_parse(text: Seq<char>) -> Option<serde_json::Value>;

/// The fields of a JSON object by key: `Some(s)` where the field holds the
/// JSON string `s`, `None` where it holds any other JSON value.
pub uninterp spec fn object_fields(object: serde_json::Map<String, serde_json::Value>) -> Map<
    Seq<char>,
    Option<Seq<char>>,
>;

/// The JSON value `Value::Object(object)`.
pub uninterp spec fn object_value(object: serde_json::Map<String, serde_json::Value>) -> serde_json::Value;

/// The object that `Map::insert` leaves after setting `key` to the JSON
/// string `text`.
pub uninterp spec fn object_with_text(
    object: serde_json::Map<String, serde_json::Value>,
    key: Seq<char>,
    text: Seq<char>,
) -> serde_json::Map<String, serde_json::Value>;

/// What `serde_json::to_string_pretty` gives for a value: the text, or
/// the error it reports.
pub uninterp spec fn pretty_json(value: serde_json::Value) -> Result<Seq<char>, serde_json::Error>;

/// Parses a text as a JSON value (`serde_json::from_str`).
#[verifier::external_body]
fn parse_json(text: &str) -> (r: Option<serde_json::Value>)
    ensures
        r == json_parse(text@),
{
    serde_json::from_str::<serde_json::Value>(text).ok()
}

/// Takes the object out of a JSON value, or gives the value back where it
/// is not an object (a match on `Value::Object`).
#[verifier::external_body]
fn json_into_object(value: serde_json::Value) -> (r: Result<
    serde_json::Map<String, serde_json::Value>,
    serde_json::Value,
>)
    ensures
        match r {
            Ok(object) => {
                &&& object_value(object) == value
                &&& forall|other| #[trigger] object_value(other) == value ==> other == object
            },
            Err(back) => {
                &&& back == value
                &&& forall|other| #[trigger] object_value(other) != value
            },
        },
{
    match value {
        serde_json::Value::Object(object) => Ok(object),
        other => Err(other),
    }
}

/// Wraps an object as a JSON value (`Value::Object`).
#[verifier::external_body]
fn json_from_object(object: serde_json::Map<String, serde_json::Value>) -> (r: serde_json::Value)
    ensures
        r == object_value(object),
        forall|other| #[trigger] object_value(other) == r ==> other == object,
{
    serde_json::Value::Object(object)
}

/// An empty JSON object (`serde_json::Map::new`).
#[verifier::external_body]
fn new_object() -> (r: serde_json::Map<String, serde_json::Value>)
    ensures
        object_fields(r).dom().is_empty(),
{
    serde_json::Map::new()
}

/// The string held by the field `key` of an object (`Map::get`, keeping
/// only a `Value::String`).
#[verifier::external_body]
fn object_get_text(object: &serde_json::Map<String, serde_json::Value>, key: &str) -> (r: Option<
    String,
>)
    ensures
        match r {
            Some(s) => object_fields(*object).contains_key(key@) && object_fields(*object)[key@]
                == Some(s@),
            None => !object_fields(*object).contains_key(key@) || object_fields(*object)[key@]
                is None,
        },
{
    match object.get(key) {
        Some(serde_json::Value::String(s)) => Some(s.clone()),
        _ => None,
    }
}

/// Sets the field `key` of an object to the JSON string `text`
/// (`Map::insert`), replacing any value it held.
#[verifier::external_body]
fn object_insert_text(
    object: &mut serde_json::Map<String, serde_json::Value>,
    key: String,
    text: String,
)
    ensures
        *final(object) == object_with_text(*old(object), key@, text@),
        object_fields(*final(object)) == object_fields(*old(object)).insert(key@, Some(text@)),
{
    object.insert(key, serde_json::Value::String(text));
}

/// The documents this module prints: an object that parsing some text gave,
/// or an empty object, with one field set to a string. Parsing their printed
/// text never meets a nesting deeper than parsing has already accepted.
pub open spec fn printed_document(value: serde_json::Value) -> bool {
    exists|object, key: Seq<char>, text: Seq<char>|
        value == object_value(#[trigger] object_with_text(object, key, text)) && (object_fields(
            object,
        ) == Map::<Seq<char>, Option<Seq<char>>>::empty() || exists|source: Seq<char>|
            #[trigger] json_parse(source) == Some(object_value(object)))
}

/// Prints a JSON value with indentation (`serde_json::to_string_pretty`).
/// Printing a `Value` into a string never fails: every map key is a string
/// and writing to memory reports no error. Where the value is a document
/// this module prints, the printed text parses back to an object with the
/// same keys and the same string fields: the printer writes each key and
/// string with JSON escapes that the parser reads back, and any other value
/// as JSON that parses to a non-string. Other values (floats among them)
/// are not claimed to come back equal.
#[verifier::external_body]
fn json_to_pretty(value: &serde_json::Value) -> (r: Result<String, serde_json::Error>)
    ensures
        r is Ok,
        match r {
            Ok(s) => pretty_json(*value) == Ok::<Seq<char>, serde_json::Error>(s@),
            Err(e) => pretty_json(*value) == Err::<Seq<char>, serde_json::Error>(e),
        },
        r is Ok && printed_document(*value) ==> (json_parse(r->Ok_0@) matches Some(back) && is_object(
            back,
        ) && value_fields(back) == value_fields(*value)),
{
    serde_json::to_string_pretty(value)
}

/// The text of a configuration file, where there is one.
pub open spec fn text_of(contents: Option<&str>) -> Option<Seq<char>> {
    match contents {
        Some(text) => Some(text@),
        None => None,
    }
}

/// Whether a JSON value is an object.
pub open spec fn is_object(value: serde_json::Value) -> bool {
    exists|object| #[trigger] object_value(object) == value
}

/// The fields of a JSON value that is an object.
pub open spec fn value_fields(value: serde_json::Value) -> Map<Seq<char>, Option<Seq<char>>>
    recommends
        is_object(value),
{
    object_fields(choose|object| #[trigger] object_value(object) == value)
}

/// The document a configuration file holds: its parsed JSON value, or
/// `None` where there is no file or its text is not JSON.
pub open spec fn config_document(contents: Option<Seq<char>>) -> Option<serde_json::Value> {
    match contents {
        Some(text) => json_parse(text),
        None => None,
    }
}

/// The setting `key` of a parsed document: the string held by the field
/// `key` of the document's top-level object. `None` where there is no
/// document, it is not an object, the field is missing or does not hold a
/// string.
pub open spec fn document_setting(document: Option<serde_json::Value>, key: Seq<char>) -> Option<
    Seq<char>,
> {
    match document {
        Some(d) => if is_object(d) && value_fields(d).contains_key(key) {
            value_fields(d)[key]
        } else {
            None
        },
        None => None,
    }
}

/// The setting `key` of a configuration file: the setting of its parsed
/// document. `None` where there is no file or the text is not JSON.
pub open spec fn config_value(contents: Option<Seq<char>>, key: Seq<char>) -> Option<Seq<char>> {
    document_setting(config_document(contents), key)
}

/// Whether a parsed document is a JSON object.
pub open spec fn is_object_document(document: Option<serde_json::Value>) -> bool {
    document matches Some(d) && is_object(d)
}

/// Whether a configuration file holds a JSON object.
pub open spec fn holds_object(contents: Option<Seq<char>>) -> bool {
    is_object_document(config_document(contents))
}

/// Whether a document, where there is one, is what parsing some text gave.
pub open spec fn came_from_text(document: Option<serde_json::Value>) -> bool {
    document matches Some(d) ==> exists|source: Seq<char>| #[trigger] json_parse(source) == Some(d)
}

/// `written` is the document that saving `key = value` over the parsed
/// `document` produces: the document's object with the field set, or, where
/// there is no document or it is not a JSON object, a fresh object holding
/// only that field.
pub open spec fn saved_from(
    document: Option<serde_json::Value>,
    key: Seq<char>,
    value: Seq<char>,
    written: serde_json::Value,
) -> bool {
    if is_object_document(document) {
        let d = document->Some_0;
        &&& is_object(written)
        &&& value_fields(written) == value_fields(d).insert(key, Some(value))
        &&& exists|object| #[trigger]
            object_value(object) == d && written == object_value(
                object_with_text(object, key, value),
            )
    } else {
        &&& is_object(written)
        &&& value_fields(written) == Map::<Seq<char>, Option<Seq<char>>>::empty().insert(
            key,
            Some(value),
        )
        &&& exists|object| #[trigger]
            object_fields(object) == Map::<Seq<char>, Option<Seq<char>>>::empty() && written
                == object_value(object_with_text(object, key, value))
    }
}

/// `written` is the document that saving `key = value` over a file with
/// `contents` produces.
pub open spec fn saved_document(
    contents: Option<Seq<char>>,
    key: Seq<char>,
    value: Seq<char>,
    written: serde_json::Value,
) -> bool {
    saved_from(config_document(contents), key, value, written)
}

/// What reading `other` gives after saving `key = value` over a file with
/// `contents`: the value just saved for `key`, what it gave before for any
/// other key.
pub open spec fn value_after_save(
    contents: Option<Seq<char>>,
    key: Seq<char>,
    value: Seq<char>,
    other: Seq<char>,
) -> Option<Seq<char>> {
    if other == key {
        Some(value)
    } else {
        config_value(contents, other)
    }
}

/// Reading the file text `text` gives, for every key, what it should give
/// after saving `key = value` over a file with `contents`.
pub open spec fn reads_after_save(
    contents: Option<Seq<char>>,
    key: Seq<char>,
    value: Seq<char>,
    text: Seq<char>,
) -> bool {
    forall|other: Seq<char>|
        #[trigger] config_value(Some(text), other) == value_after_save(contents, key, value, other)
}

/// The setting `key` of a parsed document (`None` when there is none).
pub fn document_setting_of(document: Option<serde_json::Value>, key: &str) -> (r: Option<String>)
    ensures
        match r {
            Some(s) => document_setting(document, key@) == Some(s@),
            None => document_setting(document, key@) is None,
        },
{
    match document {
        Some(d) => match json_into_object(d) {
            Ok(object) => object_get_text(&object, key),
            Err(_) => None,
        },
        None => None,
    }
}

/// Reads the setting `key` from the text of the configuration file
/// (`None` when there is no file).
pub fn read_config_val(contents: Option<&str>, key: &str) -> (r: Option<String>)
    ensures
        match r {
            Some(s) => config_value(text_of(contents), key@) == Some(s@),
            None => config_value(text_of(contents), key@) is None,
        },
{
    let document = match contents {
        Some(text) => parse_json(text),
        None => None,
    };
    document_setting_of(document, key)
}

/// The document that saving `key = value` over the parsed `document` gives:
/// its object with the field set, or a fresh object holding only that field
/// where there is no document or it is not a JSON object.
pub fn updated_document(document: Option<serde_json::Value>, key: String, value: String) -> (r:
    serde_json::Value)
    ensures
        saved_from(document, key@, value@, r),
        came_from_text(document) ==> printed_document(r),
{
    let ghost k = key@;
    let ghost v = value@;
    let base = match document {
        Some(d) => match json_into_object(d) {
            Ok(object) => {
                proof {
                    assert(is_object(d));
                    assert(value_fields(d) == object_fields(object));
                }
                Some(object)
            },
            Err(_) => {
                proof {
                    assert(!is_object(d));
                }
                None
            },
        },
        None => None,
    };
    assert(base is Some <==> is_object_document(document));
    assert(base matches Some(object) ==> object_value(object) == document->Some_0);
    let mut object = match base {
        Some(object) => object,
        None => new_object(),
    };
    let ghost before = object;
    proof {
        if !is_object_document(document) {
            assert(object_fields(before) == Map::<Seq<char>, Option<Seq<char>>>::empty());
        } else {
            assert(value_fields(document->Some_0) == object_fields(before));
        }
    }
    object_insert_text(&mut object, key, value);
    let written = json_from_object(object);
    proof {
        assert(is_object(written));
        assert(value_fields(written) == object_fields(object));
        assert(saved_from(document, k, v, written));
        if came_from_text(document) {
            assert(printed_document(written)) by {
                if is_object_document(document) {
                    let source = choose|source: Seq<char>| #[trigger]
                        json_parse(source) == Some(document->Some_0);
                    assert(json_parse(source) == Some(object_value(before)));
                }
                assert(written == object_value(object_with_text(before, k, v)));
            }
        }
    }
    written
}

/// The text of the configuration file after saving `key = value` over a
/// file with `contents` (`None` when there is no file): the file's object
/// with the field set, or a fresh object holding only that field where the
/// file is missing or is not a JSON object, printed with indentation.
/// Reading the new text gives `value` for `key` and what the old file gave
/// for every other key.
pub fn save_config_val(contents: Option<&str>, key: String, value: String) -> (r: String)
    ensures
        reads_after_save(text_of(contents), key@, value@, r@),
        exists|written|
            saved_document(text_of(contents), key@, value@, written) && #[trigger] pretty_json(
                written,
            ) == Ok::<Seq<char>, serde_json::Error>(r@),
{
    let ghost c = text_of(contents);
    let ghost k = key@;
    let ghost v = value@;
    let parsed = match contents {
        Some(text) => parse_json(text),
        None => None,
    };
    assert(parsed == config_document(c));
    proof {
        if parsed is Some {
            assert(json_parse(c->Some_0) == parsed);
        }
        assert(came_from_text(parsed));
    }
    let written = updated_document(parsed, key, value);
    let printed = json_to_pretty(&written);
    let text = match printed {
        Ok(text) => text,
        Err(_) => {
            proof {
                assert(false);
            }
            String::new()
        },
    };
    proof {
        let back = json_parse(text@)->Some_0;
        assert forall|other: Seq<char>|
            #[trigger] config_value(Some(text@), other) == value_after_save(c, k, v, other) by {
            assert(config_document(Some(text@)) == Some(back));
            if holds_object(c) {
                let document = config_document(c)->Some_0;
                assert(value_fields(written) == value_fields(document).insert(k, Some(v)));
            }
        }
    }
    text
}

/// Key of the setting that starts the engine when the plugin loads.
pub const AUTO_START_KEY: &'static str = "tenwa";

/// Second spelling of the auto-start key, read when the first is not set.
pub const AUTO_START_KEY_ALT: &'static str = "tenWA";

/// Key of the setting that shows the engine window when it starts.
pub const SHOW_WINDOW_KEY: &'static str = "show_whatsapp_window";

/// What the plugin does when it loads.
#[derive(Clone, Copy, Debug, PartialEq, Eq)]
pub struct StartupOptions {
    /// Whether the engine is opened in the background.
    pub auto_start: bool,
    /// Whether its window is shown.
    pub show_window: bool,
}

/// Whether a setting reads exactly "true".
pub open spec fn setting_is_true(setting: Option<Seq<char>>) -> bool {
    setting == Some("true"@)
}

/// Whether the configuration asks the engine to start on load: the first
/// auto-start key decides where it holds a string, else the second.
pub open spec fn auto_start_setting(contents: Option<Seq<char>>) -> bool {
    match config_value(contents, AUTO_START_KEY@) {
        Some(s) => s == "true"@,
        None => setting_is_true(config_value(contents, AUTO_START_KEY_ALT@)),
    }
}

/// Whether a string read from the configuration is "true".
fn is_true_text(setting: Option<String>) -> (r: bool)
    ensures
        r == (match setting {
            Some(s) => s@ == "true"@,
            None => false,
        }),
{
    match setting {
        Some(s) => {
            let expected = "true".to_string();
            s.eq(&expected)
        },
        None => false,
    }
}

/// The startup options a configuration file gives (`None` when there is
/// no file).
pub fn startup_options(contents: Option<&str>) -> (r: StartupOptions)
    ensures
        r.auto_start == auto_start_setting(text_of(contents)),
        r.show_window == setting_is_true(config_value(text_of(contents), SHOW_WINDOW_KEY@)),
{
    let first = read_config_val(contents, AUTO_START_KEY);
    let auto_start = match first {
        Some(s) => is_true_text(Some(s)),
        None => is_true_text(read_config_val(contents, AUTO_START_KEY_ALT)),
    };
    let show_window = is_true_text(read_config_val(contents, SHOW_WINDOW_KEY));
    StartupOptions { auto_start, show_window }
}

/// A save leaves a document whose field `key` holds `value`. Its other
/// fields are those of the file's object, or none where the file is missing
/// or is not a JSON object.
pub proof fn saved_document_holds_setting(
    contents: Option<Seq<char>>,
    key: Seq<char>,
    value: Seq<char>,
    written: serde_json::Value,
)
    requires
        saved_document(contents, key, value, written),
    ensures
        is_object(written),
        value_fields(written).contains_key(key),
        value_fields(written)[key] == Some(value),
        forall|other: Seq<char>|
            other != key ==> if holds_object(contents) {
                let document = config_document(contents)->Some_0;
                (#[trigger] value_fields(written).contains_key(other) == value_fields(
                    document,
                ).contains_key(other)) && (value_fields(document).contains_key(other)
                    ==> value_fields(written)[other] == value_fields(document)[other])
            } else {
                !value_fields(written).contains_key(other)
            },
{
}

/// Saving the same setting twice reads the same as saving it once: every
/// key reads alike after the second save as after the first.
pub proof fn save_twice_reads_same(
    contents: Option<Seq<char>>,
    key: Seq<char>,
    value: Seq<char>,
    first: Seq<char>,
    second: Seq<char>,
)
    requires
        reads_after_save(contents, key, value, first),
        reads_after_save(Some(first), key, value, second),
    ensures
        forall|other: Seq<char>|
            #[trigger] config_value(Some(second), other) == config_value(Some(first), other),
{
    assert forall|other: Seq<char>|
        #[trigger] config_value(Some(second), other) == config_value(Some(first), other) by {
        assert(config_value(Some(second), other) == value_after_save(Some(first), key, value, other));
        assert(config_value(Some(first), other) == value_after_save(contents, key, value, other));
    }
}

/// Saving one setting never changes what another key reads.
pub proof fn save_keeps_other_settings(
    contents: Option<Seq<char>>,
    key: Seq<char>,
    value: Seq<char>,
    text: Seq<char>,
    other: Seq<char>,
)
    requires
        reads_after_save(contents, key, value, text),
        other != key,
    ensures
        config_value(Some(text), other) == config_value(contents, other),
        config_value(Some(text), key) == Some(value),
{
    assert(config_value(Some(text), other) == value_after_save(contents, key, value, other));
    assert(config_value(Some(text), key) == value_after_save(contents, key, value, key));
}

/// Auto-start is decided by the first key alone where it holds a string:
/// the engine starts exactly when that string is "true", whatever the other
/// keys hold; where it holds no string, the second key decides the same
/// way. The show-window key never enters the decision.
pub proof fn auto_start_follows_keys(contents: Option<Seq<char>>)
    ensures
        config_value(contents, AUTO_START_KEY@) matches Some(s) ==> (auto_start_setting(contents)
            <==> s == "true"@),
        config_value(contents, AUTO_START_KEY@) is None ==> (auto_start_setting(contents) <==> config_value(
            contents,
            AUTO_START_KEY_ALT@,
        ) == Some("true"@)),
{
}

/// Saving "true" under the first auto-start key makes the engine start on
/// the next load; saving anything else there keeps it from starting,
/// whatever the second key holds; saving the show-window setting leaves
/// the auto-start decision as it was.
pub proof fn saved_settings_decide_startup(
    contents: Option<Seq<char>>,
    value: Seq<char>,
    text: Seq<char>,
)
    ensures
        reads_after_save(contents, AUTO_START_KEY@, value, text) ==> (auto_start_setting(Some(text))
            <==> value == "true"@),
        reads_after_save(contents, SHOW_WINDOW_KEY@, value, text) ==> (auto_start_setting(Some(text))
            == auto_start_setting(contents) && (setting_is_true(config_value(Some(text), SHOW_WINDOW_KEY@))
            <==> value == "true"@)),
{
    assert(AUTO_START_KEY@ != SHOW_WINDOW_KEY@ && AUTO_START_KEY_ALT@ != SHOW_WINDOW_KEY@) by {
        reveal_strlit("tenwa");
        reveal_strlit("tenWA");
        reveal_strlit("show_whatsapp_window");
        assert(AUTO_START_KEY@.len() != SHOW_WINDOW_KEY@.len());
        assert(AUTO_START_KEY_ALT@.len() != SHOW_WINDOW_KEY@.len());
    }
    if reads_after_save(contents, AUTO_START_KEY@, value, text) {
        assert(config_value(Some(text), AUTO_START_KEY@) == value_after_save(
            contents,
            AUTO_START_KEY@,
            value,
            AUTO_START_KEY@,
        ));
    }
    if reads_after_save(contents, SHOW_WINDOW_KEY@, value, text) {
        assert(config_value(Some(text), AUTO_START_KEY@) == value_after_save(
            contents,
            SHOW_WINDOW_KEY@,
            value,
            AUTO_START_KEY@,
        ));
        assert(config_value(Some(text), AUTO_START_KEY_ALT@) == value_after_save(
            contents,
            SHOW_WINDOW_KEY@,
            value,
            AUTO_START_KEY_ALT@,
        ));
        assert(config_value(Some(text), SHOW_WINDOW_KEY@) == value_after_save(
            contents,
            SHOW_WINDOW_KEY@,
            value,
            SHOW_WINDOW_KEY@,
        ));
    }
}

} // verus!
