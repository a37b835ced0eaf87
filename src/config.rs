//! The persisted preferences of the shell: a JSON document read from a fixed
//! path and written back, whole, after every change. The host reads the file
//! (handing over its text, or nothing when it is missing) and writes the text
//! that a change returns.
use vstd::prelude::*;
use crate::json::{
    bool_json, bool_value, empty_object, json_bool, json_is_null, json_is_object, json_members, member,
    parse, parse_json, pretty_json, set_member, to_pretty,
};

verus! {

/// Why a change could not be persisted.
#[derive(Clone, Copy, PartialEq, Eq, Structural, Debug)]
pub enum ConfigError {
    /// There is no document to save.
    NoDocument,
    /// The document is neither an object nor `null`, so it has no keys to set.
    NotAnObject,
}

/// The store as a mathematical value: the file's path and the document, if
/// one was loaded.
pub struct ConfigView {
    pub path: Seq<char>,
    pub doc: Option<serde_json::Value>,
}

/// A JSON document loaded from `path`, absent when the file was missing or
/// did not parse.
pub struct ConfigStore {
    path: String,
    doc: Option<serde_json::Value>,
}

impl View for ConfigStore {
    type V = ConfigView;

    closed spec fn view(&self) -> ConfigView {
        ConfigView { path: self.path@, doc: self.doc }
    }
}

/// The key that holds the fullscreen preference.
pub open spec fn fullscreen_key() -> Seq<char> {
    "fullscreen"@
}

/// The document a file's text gives: none for a missing file or a text that
/// does not parse.
pub open spec fn loaded_doc(text: Option<Seq<char>>) -> Option<serde_json::Value> {
    match text {
        Some(t) => parse_json(t),
        None => None,
    }
}

/// The value under `key`; none when there is no document or no such key.
pub open spec fn lookup(doc: Option<serde_json::Value>, key: Seq<char>) -> Option<serde_json::Value> {
    match doc {
        Some(d) => if json_members(d).contains_key(key) {
            Some(json_members(d)[key])
        } else {
            None
        },
        None => None,
    }
}

/// The fullscreen preference: the boolean under `fullscreen`, false when it
/// is missing or not a boolean.
pub open spec fn fullscreen_of(doc: Option<serde_json::Value>) -> bool {
    match lookup(doc, fullscreen_key()) {
        Some(v) => match json_bool(v) {
            Some(b) => b,
            None => false,
        },
        None => false,
    }
}

/// A key can be set on no document (a new object is started), an object, or
/// `null` (which becomes an object).
pub open spec fn settable(doc: Option<serde_json::Value>) -> bool {
    match doc {
        Some(d) => json_is_object(d) || json_is_null(d),
        None => true,
    }
}

/// `new_doc` is `doc` with `value` under `key` and every other member kept.
pub open spec fn set_in(
    doc: Option<serde_json::Value>,
    key: Seq<char>,
    value: serde_json::Value,
    new_doc: Option<serde_json::Value>,
) -> bool {
    match new_doc {
        Some(n) => {
            &&& json_is_object(n)
            &&& json_members(n) == match doc {
                Some(d) => json_members(d),
                None => Map::empty(),
            }.insert(key, value)
        },
        None => false,
    }
}

/// What saving `doc` gives: its pretty-printed text, or `NoDocument` when
/// there is none.
pub open spec fn save_result(doc: Option<serde_json::Value>, r: Result<String, ConfigError>) -> bool {
    match doc {
        None => r == Err::<String, ConfigError>(ConfigError::NoDocument),
        Some(d) => r matches Ok(t) && t@ == pretty_json(d),
    }
}

/// `doc` is an object that already holds `value` under `key`.
pub open spec fn holds_already(doc: Option<serde_json::Value>, key: Seq<char>, value: serde_json::Value) -> bool {
    match doc {
        Some(d) => {
            &&& json_is_object(d)
            &&& json_members(d).contains_key(key)
            &&& json_members(d)[key] == value
        },
        None => false,
    }
}

fn parse_text(text: &Option<String>) -> (r: Option<serde_json::Value>)
    ensures
        r == loaded_doc(match text {
            Some(t) => Some(t@),
            None => None,
        }),
{
    match text {
        Some(t) => parse(t.as_str()),
        None => None,
    }
}

impl ConfigStore {
    /// A store for `path`, loaded from the file's text (`None` when the file
    /// does not exist). A text that does not parse leaves the document absent.
    pub fn new(path: String, text: Option<String>) -> (r: ConfigStore)
        ensures
            r@.path == path@,
            r@.doc == loaded_doc(match text {
                Some(t) => Some(t@),
                None => None,
            }),
    {
        let doc = parse_text(&text);
        ConfigStore { path, doc }
    }

    /// Replaces the document with what the file's text gives.
    pub fn load(&mut self, text: Option<String>)
        ensures
            final(self)@.path == old(self)@.path,
            final(self)@.doc == loaded_doc(match text {
                Some(t) => Some(t@),
                None => None,
            }),
    {
        self.doc = parse_text(&text);
    }

    pub fn path(&self) -> (r: &String)
        ensures
            r@ == self@.path,
    {
        &self.path
    }

    pub fn is_loaded(&self) -> (r: bool)
        ensures
            r == self@.doc is Some,
    {
        self.doc.is_some()
    }

    /// The value under `key`; none when no document is loaded or the key is
    /// missing.
    pub fn get_value(&self, key: &str) -> (r: Option<serde_json::Value>)
        ensures
            r == lookup(self@.doc, key@),
    {
        match &self.doc {
            Some(d) => member(d, key),
            None => None,
        }
    }

    /// The text to write to the file: the whole document, pretty-printed.
    pub fn save(&self) -> (r: Result<String, ConfigError>)
        ensures
            save_result(self@.doc, r),
    {
        match &self.doc {
            Some(d) => Ok(to_pretty(d).unwrap()),
            None => Err(ConfigError::NoDocument),
        }
    }

    /// Puts `value` under `key`, starting a new object when no document is
    /// loaded, and returns the whole document's text for the host to write
    /// over the file. A document that is neither an object nor `null` is left
    /// as it is, with `NotAnObject`. Setting a value that is already there
    /// changes nothing.
    pub fn set(&mut self, key: &str, value: serde_json::Value) -> (r: Result<String, ConfigError>)
        ensures
            final(self)@.path == old(self)@.path,
            settable(old(self)@.doc) ==> set_in(old(self)@.doc, key@, value, final(self)@.doc)
                && save_result(final(self)@.doc, r),
            holds_already(old(self)@.doc, key@, value) ==> final(self)@ == old(self)@,
            !settable(old(self)@.doc) ==> final(self)@ == old(self)@ && r == Err::<
                String,
                ConfigError,
            >(ConfigError::NotAnObject),
    {
        let doc = self.doc.take();
        match doc {
            Some(mut d) => {
                if d.is_object() || d.is_null() {
                    set_member(&mut d, key, value);
                    self.doc = Some(d);
                } else {
                    self.doc = Some(d);
                    return Err(ConfigError::NotAnObject);
                }
            },
            None => {
                let mut d = empty_object();
                assert(json_members(d) =~= Map::empty());
                set_member(&mut d, key, value);
                self.doc = Some(d);
            },
        }
        self.save()
    }

    /// The fullscreen preference: the boolean under `fullscreen`, false when
    /// it is missing or not a boolean.
    pub fn fullscreen(&self) -> (r: bool)
        ensures
            r == fullscreen_of(self@.doc),
    {
        match self.get_value("fullscreen") {
            Some(v) => match v.as_bool() {
                Some(b) => b,
                None => false,
            },
            None => false,
        }
    }

    /// Stores the fullscreen preference and returns the text to persist.
    pub fn set_fullscreen(&mut self, fullscreen: bool) -> (r: Result<String, ConfigError>)
        ensures
            final(self)@.path == old(self)@.path,
            settable(old(self)@.doc) ==> set_in(
                old(self)@.doc,
                fullscreen_key(),
                bool_json(fullscreen),
                final(self)@.doc,
            ),
            settable(old(self)@.doc) ==> fullscreen_of(final(self)@.doc) == fullscreen,
            settable(old(self)@.doc) ==> save_result(final(self)@.doc, r),
            holds_already(old(self)@.doc, fullscreen_key(), bool_json(fullscreen))
                ==> final(self)@ == old(self)@,
            !settable(old(self)@.doc) ==> final(self)@ == old(self)@ && r == Err::<
                String,
                ConfigError,
            >(ConfigError::NotAnObject),
    {
        let v = bool_value(fullscreen);
        proof {
            reveal_strlit("fullscreen");
        }
        self.set("fullscreen", v)
    }

    /// Sets fullscreen to `requested`, or to the opposite of the stored
    /// preference when nothing is requested. Returns the new state, which the
    /// window takes whether or not the change could be persisted, and the
    /// outcome of `set_fullscreen`.
    pub fn toggle_fullscreen(&mut self, requested: Option<bool>) -> (r: (bool, Result<String, ConfigError>))
        ensures
            r.0 == match requested {
                Some(b) => b,
                None => !fullscreen_of(old(self)@.doc),
            },
            final(self)@.path == old(self)@.path,
            settable(old(self)@.doc) ==> set_in(
                old(self)@.doc,
                fullscreen_key(),
                bool_json(r.0),
                final(self)@.doc,
            ),
            settable(old(self)@.doc) ==> fullscreen_of(final(self)@.doc) == r.0,
            settable(old(self)@.doc) ==> save_result(final(self)@.doc, r.1),
            holds_already(old(self)@.doc, fullscreen_key(), bool_json(r.0))
                ==> final(self)@ == old(self)@,
            !settable(old(self)@.doc) ==> final(self)@ == old(self)@ && r.1 == Err::<
                String,
                ConfigError,
            >(ConfigError::NotAnObject),
    {
        let target = match requested {
            Some(b) => b,
            None => !self.fullscreen(),
        };
        let r = self.set_fullscreen(target);
        (target, r)
    }
}

/// Setting a key and loading the written text afresh gives back the value
/// set, wherever serde_json reads its own pretty-printed output back as the
/// same document.
pub proof fn lemma_set_then_reload(
    doc: Option<serde_json::Value>,
    key: Seq<char>,
    value: serde_json::Value,
    new_doc: serde_json::Value,
)
    requires
        set_in(doc, key, value, Some(new_doc)),
        parse_json(pretty_json(new_doc)) == Some(new_doc),
    ensures
        lookup(loaded_doc(Some(pretty_json(new_doc))), key) == Some(value),
{
}

/// A fullscreen preference that was set reads back the same after the
/// written text is loaded afresh, under the same condition on serde_json.
pub proof fn lemma_fullscreen_survives_reload(
    doc: Option<serde_json::Value>,
    b: bool,
    value: serde_json::Value,
    new_doc: serde_json::Value,
)
    requires
        json_bool(value) == Some(b),
        set_in(doc, fullscreen_key(), value, Some(new_doc)),
        parse_json(pretty_json(new_doc)) == Some(new_doc),
    ensures
        fullscreen_of(loaded_doc(Some(pretty_json(new_doc)))) == b,
{
}

/// A missing file, or one whose text does not parse, gives no document, and
/// every key then reads as absent.
pub proof fn lemma_absent_document(text: Option<Seq<char>>, key: Seq<char>)
    requires
        text matches Some(t) ==> parse_json(t) is None,
    ensures
        loaded_doc(text) is None,
        lookup(loaded_doc(text), key) is None,
        !fullscreen_of(loaded_doc(text)),
{
}

} // verus!
