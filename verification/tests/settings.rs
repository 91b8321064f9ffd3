use otty::settings::{
    ensure_settings_file, judge_settings, judge_written, load_settings, save_settings,
    settings_fields, ReadFailure, SettingsData, SettingsError, SettingsLoadStatus,
};

/// A file that holds a text or is not there.
#[derive(Default)]
struct File {
    contents: Option<String>,
}

impl File {
    fn read(&self) -> Result<String, ReadFailure> {
        self.contents.clone().ok_or(ReadFailure::NotFound)
    }

    fn save(&mut self, settings: &SettingsData) {
        self.contents = Some(save_settings(settings).expect("settings should save successfully"));
    }

    fn ensure(&mut self) {
        let payload = ensure_settings_file(self.contents.is_some());
        if let Some(text) = payload.expect("ensure should succeed") {
            self.contents = Some(text);
        }
    }

    fn load(&self) -> (SettingsData, SettingsLoadStatus) {
        load_settings(self.read()).expect("settings should load successfully").into_parts()
    }
}

#[test]
fn given_valid_settings_when_save_and_load_then_round_trip_matches() {
    let mut file = File::default();
    let mut settings = SettingsData::default();
    settings.set_terminal_shell(String::from("/bin/zsh"));
    settings.set_terminal_editor(String::from("vim"));
    settings.set_theme_palette_entry(0, String::from("#112233"));

    file.save(&settings);
    let (loaded_settings, loaded_status) = file.load();

    assert!(matches!(loaded_status, SettingsLoadStatus::Loaded));
    assert_eq!(loaded_settings, settings);
}

#[test]
fn given_invalid_json_when_load_then_returns_default_with_invalid_status() {
    let file = File { contents: Some(String::from("{ this is not valid json")) };

    let (loaded_settings, loaded_status) = file.load();

    assert_eq!(loaded_settings, SettingsData::default());
    match loaded_status {
        SettingsLoadStatus::Invalid(message) => {
            assert!(!message.is_empty());
        },
        other => panic!("expected invalid status, got {other:?}"),
    }
}

#[test]
fn given_missing_file_when_load_then_returns_default_with_missing_status() {
    let (loaded_settings, loaded_status) = File::default().load();

    assert_eq!(loaded_settings, SettingsData::default());
    assert!(matches!(loaded_status, SettingsLoadStatus::Missing));
}

#[test]
fn given_missing_file_when_ensure_then_default_settings_created() {
    let mut file = File::default();

    file.ensure();

    let (loaded_settings, loaded_status) = file.load();
    assert!(matches!(loaded_status, SettingsLoadStatus::Loaded));
    assert_eq!(loaded_settings, SettingsData::default());
}

#[test]
fn given_existing_file_when_ensure_then_content_untouched() {
    let mut file = File::default();
    let mut settings = SettingsData::default();
    settings.set_terminal_shell(String::from("/bin/zsh"));
    file.save(&settings);
    let before = file.contents.clone();

    file.ensure();

    assert_eq!(file.contents, before);
    let (loaded_settings, _) = file.load();
    assert_eq!(loaded_settings, settings);
    // Not even a file that is no JSON is touched.
    let mut broken = File { contents: Some(String::from("{")) };
    broken.ensure();
    assert_eq!(broken.contents.as_deref(), Some("{"));
}

#[test]
fn settings_that_are_not_there_have_their_defaults() {
    let text = "{ \"terminal_shell\": \"/bin/zsh\", \"theme_palette\": [\"#1\", 2] }";
    let file = File { contents: Some(String::from(text)) };
    let (data, status) = file.load();
    assert!(matches!(status, SettingsLoadStatus::Loaded));
    assert_eq!(data.terminal_shell(), "/bin/zsh");
    assert_eq!(data.terminal_editor(), SettingsData::default().terminal_editor());
    assert!(data.theme_palette().is_empty());
    let file = File { contents: Some(String::from("[1]")) };
    assert_eq!(file.load().0, SettingsData::default());
    assert!(matches!(
        load_settings(Err(ReadFailure::Other(String::from("denied")))),
        Err(SettingsError::Io(m)) if m == "denied"
    ));
}

#[test]
fn any_text_survives_in_the_settings() {
    let mut file = File::default();
    let mut settings = SettingsData::default();
    settings.set_terminal_shell(String::from("a \"quoted\" \\ path\n\u{1}\u{e9}\u{1f600}"));
    settings.set_terminal_editor(String::new());
    settings.set_theme_palette_entry(2, String::from("#abc"));
    assert_eq!(settings.theme_palette().len(), 3);
    settings.set_theme_palette_entry(1, String::from("#def"));
    file.save(&settings);
    assert_eq!(file.load().0, settings);
    assert_eq!(settings.clone(), settings);
    let words: Vec<&str> = settings.theme_palette().iter().map(String::as_str).collect();
    assert_eq!(words, ["", "#def", "#abc"]);
}

#[test]
fn the_words_of_the_parser_are_kept() {
    let parser = serde_json::from_str::<serde_json::Value>("[1,").expect_err("no json");
    let loaded = load_settings(Ok(String::from("[1,"))).expect("should load");
    assert!(matches!(
        loaded.status,
        SettingsLoadStatus::Invalid(m) if m == parser.to_string()
    ));
    let judged = judge_settings(Err(String::from("bad")));
    assert!(matches!(judged.status, SettingsLoadStatus::Invalid(m) if m == "bad"));
    let value = serde_json::from_str("{\"terminal_editor\":\"ed\"}").expect("json");
    let judged = judge_settings(Ok(value));
    assert_eq!(judged.data.terminal_editor(), "ed");
}

#[test]
fn settings_are_written_field_by_field() {
    let mut settings = SettingsData::default();
    settings.set_theme_palette_entry(0, String::from("#fff"));
    let (texts, lists) = settings_fields(&settings);
    let names: Vec<&str> = texts.iter().map(|field| field.0.as_str()).collect();
    assert_eq!(names, ["terminal_shell", "terminal_editor"]);
    assert_eq!(lists, vec![(String::from("theme_palette"), vec![String::from("#fff")])]);
    assert!(matches!(judge_written(Ok(String::from("{}"))), Ok(text) if text == "{}"));
    assert!(matches!(
        judge_written(Err(String::from("full"))),
        Err(SettingsError::Json(m)) if m == "full"
    ));
}
