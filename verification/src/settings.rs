//! The settings: what they hold, and how they are read from and written to
//! their file.

use serde_json::Value;
use vstd::prelude::*;

use crate::quick_launch::types::copy_strings;
use crate::text::{text_opt, texts};

verus! {

/// A JSON value.
#[verifier::external_type_specification]
#[verifier::external_body]
pub struct ExValue(serde_json::Value);

/// The shell that terminals run where none is set.
pub const DEFAULT_SHELL: &'static str = "/bin/sh";

/// The editor where none is set.
pub const DEFAULT_EDITOR: &'static str = "vi";

/// What was found where the settings are stored.
#[derive(Debug)]
pub enum SettingsLoadStatus {
    /// There are no settings yet.
    Missing,
    /// The settings are no JSON, for the given reason.
    Invalid(String),
    /// The settings were read.
    Loaded,
}

/// Why the settings could not be read or written.
#[derive(Debug)]
pub enum SettingsError {
    Io(String),
    Json(String),
}

/// Why a file could not be read.
#[derive(Debug)]
pub enum ReadFailure {
    NotFound,
    Other(String),
}

/// The settings.
#[derive(Debug, PartialEq, Eq)]
pub struct SettingsData {
    terminal_shell: String,
    terminal_editor: String,
    theme_palette: Vec<String>,
}

/// The mathematical value of the settings: the shell, the editor, and the
/// colours that take the place of those of the theme. An empty colour takes the
/// place of none.
#[verifier::ext_equal]
pub struct SettingsDataModel {
    pub terminal_shell: Seq<char>,
    pub terminal_editor: Seq<char>,
    pub theme_palette: Seq<Seq<char>>,
}

impl View for SettingsData {
    type V = SettingsDataModel;

    closed spec fn view(&self) -> SettingsDataModel {
        SettingsDataModel {
            terminal_shell: self.terminal_shell@,
            terminal_editor: self.terminal_editor@,
            theme_palette: texts(self.theme_palette@),
        }
    }
}

/// The settings where nothing is set.
pub open spec fn default_settings() -> SettingsDataModel {
    SettingsDataModel {
        terminal_shell: DEFAULT_SHELL@,
        terminal_editor: DEFAULT_EDITOR@,
        theme_palette: Seq::empty(),
    }
}

/// A palette with another colour at `index`; it grows by empty colours where it
/// is too short.
pub open spec fn palette_with(palette: Seq<Seq<char>>, index: nat, color: Seq<char>) -> Seq<
    Seq<char>,
> {
    Seq::new(
        if index < palette.len() {
            palette.len()
        } else {
            index + 1
        },
        |i: int|
            if i == index {
                color
            } else if i < palette.len() {
                palette[i]
            } else {
                Seq::empty()
            },
    )
}

impl Default for SettingsData {
    fn default() -> (r: Self)
        ensures
            r@ == default_settings(),
    {
        let r = SettingsData {
            terminal_shell: DEFAULT_SHELL.to_string(),
            terminal_editor: DEFAULT_EDITOR.to_string(),
            theme_palette: Vec::new(),
        };
        assert(r@.theme_palette =~= Seq::empty());
        r
    }
}

impl Clone for SettingsData {
    fn clone(&self) -> (r: Self)
        ensures
            r@ == self@,
    {
        SettingsData {
            terminal_shell: self.terminal_shell.clone(),
            terminal_editor: self.terminal_editor.clone(),
            theme_palette: copy_strings(&self.theme_palette),
        }
    }
}

impl SettingsData {
    pub fn terminal_shell(&self) -> (shell: &str)
        ensures
            shell@ == self@.terminal_shell,
    {
        self.terminal_shell.as_str()
    }

    pub fn terminal_editor(&self) -> (editor: &str)
        ensures
            editor@ == self@.terminal_editor,
    {
        self.terminal_editor.as_str()
    }

    pub fn theme_palette(&self) -> (palette: &Vec<String>)
        ensures
            texts(palette@) == self@.theme_palette,
    {
        &self.theme_palette
    }

    pub fn set_terminal_shell(&mut self, shell: String)
        ensures
            final(self)@ == (SettingsDataModel { terminal_shell: shell@, ..old(self)@ }),
    {
        self.terminal_shell = shell;
    }

    pub fn set_terminal_editor(&mut self, editor: String)
        ensures
            final(self)@ == (SettingsDataModel { terminal_editor: editor@, ..old(self)@ }),
    {
        self.terminal_editor = editor;
    }

    /// Set the colour at `index`. There must be room for that many.
    pub fn set_theme_palette_entry(&mut self, index: usize, color: String)
        requires
            index < usize::MAX,
        ensures
            final(self)@ == (SettingsDataModel {
                theme_palette: palette_with(old(self)@.theme_palette, index as nat, color@),
                ..old(self)@
            }),
    {
        let ghost before = self@;
        while self.theme_palette.len() <= index
            invariant
                index < usize::MAX,
                before == old(self)@,
                self.terminal_shell == old(self).terminal_shell,
                self.terminal_editor == old(self).terminal_editor,
                before.theme_palette.len() <= self.theme_palette@.len(),
                self.theme_palette@.len() <= index + 1 || self.theme_palette@.len()
                    == before.theme_palette.len(),
                forall|i: int|
                    0 <= i < self.theme_palette@.len() ==> (#[trigger] self.theme_palette@[i])@ == (
                    if i < before.theme_palette.len() {
                        before.theme_palette[i]
                    } else {
                        Seq::empty()
                    }),
            decreases index + 1 - self.theme_palette@.len(),
        {
            let empty = String::new();
            assert(empty@ =~= Seq::empty());
            self.theme_palette.push(empty);
        }
        self.theme_palette.set(index, color);
        assert(self@.theme_palette =~= palette_with(before.theme_palette, index as nat, color@));
    }

    /// The settings in a JSON value. What is not there, or of another kind, has
    /// its default.
    pub fn from_json(value: &Value) -> (r: SettingsData)
        ensures
            r@ == settings_of(*value),
    {
        let mut data = SettingsData::default();
        if let Some(shell) = read_text(value, "terminal_shell") {
            data.terminal_shell = shell;
        }
        if let Some(editor) = read_text(value, "terminal_editor") {
            data.terminal_editor = editor;
        }
        if let Some(palette) = read_list(value, "theme_palette") {
            data.theme_palette = palette;
        }
        data
    }
}

/// What `serde_json` makes of a text: a value, or what is wrong with the text.
pub uninterp spec fn json_of(text: Seq<char>) -> Result<Value, Seq<char>>;

/// The field of a JSON object, if there is one.
pub uninterp spec fn json_field(value: Value, key: Seq<char>) -> Option<Value>;

/// The text that a JSON value is, if it is one.
pub uninterp spec fn json_text(value: Value) -> Option<Seq<char>>;

/// The list of texts that a JSON value is, if it is one.
pub uninterp spec fn json_list(value: Value) -> Option<Seq<Seq<char>>>;

/// The text in the field of a JSON object, if there is one.
pub open spec fn json_text_at(value: Value, key: Seq<char>) -> Option<Seq<char>> {
    match json_field(value, key) {
        Some(field) => json_text(field),
        None => None,
    }
}

/// The list of texts in the field of a JSON object, if there is one.
pub open spec fn json_list_at(value: Value, key: Seq<char>) -> Option<Seq<Seq<char>>> {
    match json_field(value, key) {
        Some(field) => json_list(field),
        None => None,
    }
}

/// `serde_json::from_str` parses a text into a JSON value or says what is wrong
/// with it, in words. The contract names what it makes of the text.
#[verifier::external_body]
fn parse_value(text: &str) -> (r: Result<Value, String>)
    ensures
        match r {
            Ok(value) => json_of(text@) == Ok::<_, Seq<char>>(value),
            Err(problem) => json_of(text@) == Err::<Value, _>(problem@),
        },
        r matches Err(problem) ==> problem@.len() > 0,
{
    serde_json::from_str::<Value>(text).map_err(|err| err.to_string())
}

/// `Value::get` finds the field of an object, if there is one.
#[verifier::external_body]
fn field_of<'a>(value: &'a Value, key: &str) -> (field: Option<&'a Value>)
    ensures
        match field {
            Some(field) => json_field(*value, key@) == Some(*field),
            None => json_field(*value, key@) is None,
        },
{
    value.get(key)
}

/// `Value::as_str` gives the text that a value is, if it is one.
#[verifier::external_body]
fn text_of(value: &Value) -> (text: Option<String>)
    ensures
        text_opt(text) == json_text(*value),
{
    value.as_str().map(String::from)
}

/// `serde_json::from_value` gives the list of texts that a value is, if it is
/// one.
#[verifier::external_body]
fn list_of(value: &Value) -> (list: Option<Vec<String>>)
    ensures
        match list {
            Some(list) => json_list(*value) == Some(texts(list@)),
            None => json_list(*value) is None,
        },
{
    serde_json::from_value::<Vec<String>>(value.clone()).ok()
}

fn read_text(value: &Value, key: &str) -> (text: Option<String>)
    ensures
        text_opt(text) == json_text_at(*value, key@),
{
    match field_of(value, key) {
        Some(field) => text_of(field),
        None => None,
    }
}

fn read_list(value: &Value, key: &str) -> (list: Option<Vec<String>>)
    ensures
        match list {
            Some(list) => json_list_at(*value, key@) == Some(texts(list@)),
            None => json_list_at(*value, key@) is None,
        },
{
    match field_of(value, key) {
        Some(field) => list_of(field),
        None => None,
    }
}

/// The names of fields, first those with a text, then those with a list.
pub open spec fn field_names(
    text_fields: Seq<(String, String)>,
    list_fields: Seq<(String, Vec<String>)>,
) -> Seq<Seq<char>> {
    text_fields.map_values(|field: (String, String)| field.0@) + list_fields.map_values(
        |field: (String, Vec<String>)| field.0@,
    )
}

/// `serde_json::to_string_pretty` writes a JSON object with the given fields. It
/// does not fail on one that holds only texts and lists of texts. Read again,
/// what it writes gives an object with the same fields.
#[verifier::external_body]
fn object_text(
    text_fields: &Vec<(String, String)>,
    list_fields: &Vec<(String, Vec<String>)>,
) -> (r: Result<String, String>)
    requires
        field_names(text_fields@, list_fields@).no_duplicates(),
    ensures
        r is Ok,
        r matches Ok(text) ==> json_of(text@) is Ok,
        r matches Ok(text) ==> forall|i: int|
            0 <= i < text_fields@.len() ==> json_text_at(
                json_of(text@)->Ok_0,
                (#[trigger] text_fields@[i]).0@,
            ) == Some(text_fields@[i].1@),
        r matches Ok(text) ==> forall|i: int|
            0 <= i < list_fields@.len() ==> json_list_at(
                json_of(text@)->Ok_0,
                (#[trigger] list_fields@[i]).0@,
            ) == Some(texts(list_fields@[i].1@)),
{
    let mut map: serde_json::Map<String, Value> = serde_json::Map::new();
    map.extend(text_fields.iter().map(|(key, text)| (key.clone(), Value::from(text.as_str()))));
    map.extend(list_fields.iter().map(|(key, list)| (key.clone(), Value::from(list.clone()))));
    serde_json::to_string_pretty(&Value::Object(map)).map_err(|err| err.to_string())
}

/// The settings in a JSON value. What is not there, or of another kind, has its
/// default.
pub open spec fn settings_of(value: Value) -> SettingsDataModel {
    SettingsDataModel {
        terminal_shell: match json_text_at(value, "terminal_shell"@) {
            Some(shell) => shell,
            None => DEFAULT_SHELL@,
        },
        terminal_editor: match json_text_at(value, "terminal_editor"@) {
            Some(editor) => editor,
            None => DEFAULT_EDITOR@,
        },
        theme_palette: match json_list_at(value, "theme_palette"@) {
            Some(palette) => palette,
            None => Seq::empty(),
        },
    }
}

/// What was found, and the settings that follow from it.
#[derive(Debug)]
pub struct SettingsLoad {
    pub data: SettingsData,
    pub status: SettingsLoadStatus,
}

impl SettingsLoad {
    pub fn into_parts(self) -> (r: (SettingsData, SettingsLoadStatus))
        ensures
            r == (self.data, self.status),
    {
        (self.data, self.status)
    }
}

/// Whether the settings are the defaults, of which nothing was found.
pub open spec fn is_missing(load: SettingsLoad) -> bool {
    load.status is Missing && load.data@ == default_settings()
}

/// Whether the settings are the defaults, since what was found is no JSON for
/// the given reason.
pub open spec fn is_invalid(load: SettingsLoad, problem: Seq<char>) -> bool {
    load.data@ == default_settings() && (load.status matches SettingsLoadStatus::Invalid(message)
        && message@ == problem)
}

/// Whether the settings are the given ones, as they were found.
pub open spec fn is_loaded(load: SettingsLoad, data: SettingsDataModel) -> bool {
    load.status is Loaded && load.data@ == data
}

/// Whether a load is what a text in the file of the settings gives.
pub open spec fn is_load_of(load: SettingsLoad, text: Seq<char>) -> bool {
    match json_of(text) {
        Ok(value) => is_loaded(load, settings_of(value)),
        Err(problem) => is_invalid(load, problem),
    }
}

/// Judge what the parser made of the text in the file of the settings.
pub fn judge_settings(parsed: Result<Value, String>) -> (load: SettingsLoad)
    ensures
        match parsed {
            Ok(value) => is_loaded(load, settings_of(value)),
            Err(problem) => is_invalid(load, problem@),
        },
{
    match parsed {
        Ok(value) => SettingsLoad {
            data: SettingsData::from_json(&value),
            status: SettingsLoadStatus::Loaded,
        },
        Err(problem) => SettingsLoad {
            data: SettingsData::default(),
            status: SettingsLoadStatus::Invalid(problem),
        },
    }
}

/// The settings, given what was read from their file: a file that is not there
/// and one that is no JSON leave the defaults in place.
pub fn load_settings(read: Result<String, ReadFailure>) -> (r: Result<SettingsLoad, SettingsError>)
    ensures
        match read {
            Err(ReadFailure::NotFound) => r matches Ok(load) && is_missing(load),
            Err(ReadFailure::Other(message)) => r == Err::<SettingsLoad, _>(
                SettingsError::Io(message),
            ),
            Ok(text) => r matches Ok(load) && is_load_of(load, text@) && (
            load.status matches SettingsLoadStatus::Invalid(message) ==> message@.len() > 0),
        },
{
    match read {
        Err(ReadFailure::NotFound) => Ok(
            SettingsLoad { data: SettingsData::default(), status: SettingsLoadStatus::Missing },
        ),
        Err(ReadFailure::Other(message)) => Err(SettingsError::Io(message)),
        Ok(text) => Ok(judge_settings(parse_value(text.as_str()))),
    }
}

/// Whether a text says what the settings are.
pub open spec fn is_text_of(text: Seq<char>, data: SettingsDataModel) -> bool {
    json_of(text) matches Ok(value) && settings_of(value) == data
}

/// Whether fields are those under which the settings are stored.
pub open spec fn are_fields_of(
    text_fields: Seq<(String, String)>,
    list_fields: Seq<(String, Vec<String>)>,
    data: SettingsDataModel,
) -> bool {
    &&& text_fields.len() == 2
    &&& text_fields[0].0@ == "terminal_shell"@
    &&& text_fields[0].1@ == data.terminal_shell
    &&& text_fields[1].0@ == "terminal_editor"@
    &&& text_fields[1].1@ == data.terminal_editor
    &&& list_fields.len() == 1
    &&& list_fields[0].0@ == "theme_palette"@
    &&& texts(list_fields[0].1@) == data.theme_palette
}

/// The fields under which the settings are stored: those with a text, and those
/// with a list.
pub fn settings_fields(settings: &SettingsData) -> (r: (
    Vec<(String, String)>,
    Vec<(String, Vec<String>)>,
))
    ensures
        are_fields_of(r.0@, r.1@, settings@),
        field_names(r.0@, r.1@).no_duplicates(),
{
    let mut text_fields: Vec<(String, String)> = Vec::new();
    text_fields.push(("terminal_shell".to_string(), settings.terminal_shell.clone()));
    text_fields.push(("terminal_editor".to_string(), settings.terminal_editor.clone()));
    let mut list_fields: Vec<(String, Vec<String>)> = Vec::new();
    list_fields.push(("theme_palette".to_string(), copy_strings(&settings.theme_palette)));
    proof {
        reveal_strlit("terminal_shell");
        reveal_strlit("terminal_editor");
        reveal_strlit("theme_palette");
        let names = field_names(text_fields@, list_fields@);
        assert(names.len() == 3);
        assert(names[0].len() == 14 && names[1].len() == 15 && names[2].len() == 13);
    }
    (text_fields, list_fields)
}

/// What comes of the text that the JSON writer gave, or of its words.
pub fn judge_written(written: Result<String, String>) -> (r: Result<String, SettingsError>)
    ensures
        r == (match written {
            Ok(text) => Ok::<_, SettingsError>(text),
            Err(problem) => Err(SettingsError::Json(problem)),
        }),
{
    match written {
        Ok(text) => Ok(text),
        Err(problem) => Err(SettingsError::Json(problem)),
    }
}

/// The text that is to stand in the file of the settings.
pub fn save_settings(settings: &SettingsData) -> (r: Result<String, SettingsError>)
    ensures
        r matches Ok(text) && is_text_of(text@, settings@),
{
    let (text_fields, list_fields) = settings_fields(settings);
    let written = object_text(&text_fields, &list_fields);
    proof {
        if written is Ok {
            let value = json_of(written->Ok_0@)->Ok_0;
            assert(json_text_at(value, text_fields@[0].0@) == Some(text_fields@[0].1@));
            assert(json_text_at(value, text_fields@[1].0@) == Some(text_fields@[1].1@));
            assert(json_list_at(value, list_fields@[0].0@) == Some(texts(list_fields@[0].1@)));
        }
    }
    judge_written(written)
}

/// Whether the file of the settings is dealt with as it should on a launch: one
/// that is there stays as it is, and otherwise the defaults are written.
pub open spec fn is_ensured(exists: bool, r: Result<Option<String>, SettingsError>) -> bool {
    match r {
        Ok(None) => exists,
        Ok(Some(text)) => !exists && is_text_of(text@, default_settings()),
        Err(_) => false,
    }
}

/// The text that is to be written to the file of the settings on a launch, if
/// any: an existing file stays as it is.
pub fn ensure_settings_file(exists: bool) -> (r: Result<Option<String>, SettingsError>)
    ensures
        is_ensured(exists, r),
{
    if exists {
        return Ok(None);
    }
    match save_settings(&SettingsData::default()) {
        Ok(text) => Ok(Some(text)),
        Err(error) => Err(error),
    }
}

/// What stands in a file after a text, if any, was written to it.
pub open spec fn file_after(contents: Option<Seq<char>>, written: Option<Seq<char>>) -> Option<
    Seq<char>,
> {
    match written {
        Some(text) => Some(text),
        None => contents,
    }
}

/// Settings that were saved are loaded as they were.
pub proof fn saved_settings_are_loaded(data: SettingsDataModel, text: Seq<char>, load: SettingsLoad)
    requires
        is_text_of(text, data),
        is_load_of(load, text),
    ensures
        is_loaded(load, data),
{
}

/// A file of the settings that is there stays as it is, valid or not. Where there
/// was none, loading gives the defaults afterwards. Either way, a second launch
/// changes nothing.
pub proof fn ensured_settings_stay(
    contents: Option<Seq<char>>,
    first: Result<Option<String>, SettingsError>,
    second: Result<Option<String>, SettingsError>,
    load: SettingsLoad,
)
    requires
        is_ensured(contents is Some, first),
        is_ensured(file_after(contents, text_opt(first->Ok_0)) is Some, second),
        is_load_of(load, file_after(contents, text_opt(first->Ok_0))->0),
    ensures
        file_after(contents, text_opt(first->Ok_0)) is Some,
        contents is Some ==> file_after(contents, text_opt(first->Ok_0)) == contents,
        contents is None ==> is_loaded(load, default_settings()),
        second == Ok::<Option<String>, SettingsError>(None),
{
}

} // verus!
