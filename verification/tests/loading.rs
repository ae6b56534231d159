use typy_config::ConfigToml;

#[test]
fn example_theme_and_modes() {
    let c = ConfigToml::from_text("[theme]\nfg = \"green\"\n[modes]\ndefault_mode = \"normal\"");
    let theme = c.get_theme().unwrap();
    assert_eq!(theme.fg.as_deref(), Some("green"));
    assert!(theme.missing.is_none());
    assert!(theme.error.is_none());
    assert!(theme.accent.is_none());
    assert!(c.get_graph().is_none());
    assert!(c.get_cursor().is_none());
    assert!(c.get_language().is_none());
    let modes = c.get_modes().unwrap();
    assert_eq!(modes.default_mode.as_deref(), Some("normal"));
    assert!(modes.uppercase_chance.is_none());
    assert!(modes.punctuation_chance.is_none());
}

#[test]
fn all_tables_all_fields() {
    let text = "[theme]\nfg = \"white\"\nmissing = \"gray\"\nerror = \"red\"\naccent = \"cyan\"\n\
                [graph]\ndata = \"blue\"\ntitle = \"bold\"\naxis = \"dim\"\n\
                [cursor]\nstyle = \"block\"\n\
                [modes]\ndefault_mode = \"words\"\nuppercase_chance = \"0.1\"\npunctuation_chance = \"0.2\"\n\
                [language]\nlang = \"en\"\n";
    let c = ConfigToml::from_text(text);
    let theme = c.get_theme().unwrap();
    assert_eq!(theme.fg.as_deref(), Some("white"));
    assert_eq!(theme.missing.as_deref(), Some("gray"));
    assert_eq!(theme.error.as_deref(), Some("red"));
    assert_eq!(theme.accent.as_deref(), Some("cyan"));
    let graph = c.get_graph().unwrap();
    assert_eq!(graph.data.as_deref(), Some("blue"));
    assert_eq!(graph.title.as_deref(), Some("bold"));
    assert_eq!(graph.axis.as_deref(), Some("dim"));
    let cursor = c.get_cursor().unwrap();
    assert_eq!(cursor.style.as_deref(), Some("block"));
    let modes = c.get_modes().unwrap();
    assert_eq!(modes.default_mode.as_deref(), Some("words"));
    assert_eq!(modes.uppercase_chance.as_deref(), Some("0.1"));
    assert_eq!(modes.punctuation_chance.as_deref(), Some("0.2"));
    let language = c.get_language().unwrap();
    assert_eq!(language.lang.as_deref(), Some("en"));
}

fn assert_all_unset(c: &ConfigToml) {
    assert!(c.get_theme().is_none());
    assert!(c.get_graph().is_none());
    assert!(c.get_cursor().is_none());
    assert!(c.get_modes().is_none());
    assert!(c.get_language().is_none());
}

#[test]
fn invalid_syntax_falls_back_to_unset() {
    let c = ConfigToml::from_text("this is = = not TOML [");
    assert_all_unset(&c);
}

#[test]
fn empty_text_is_all_unset() {
    let c = ConfigToml::from_text("");
    assert_all_unset(&c);
}

#[test]
fn wrongly_typed_entry_fails_whole_file() {
    let c = ConfigToml::from_text("[theme]\nfg = 5\n[modes]\ndefault_mode = \"normal\"");
    assert_all_unset(&c);
}

#[test]
fn wrongly_typed_table_fails_whole_file() {
    let c = ConfigToml::from_text("theme = \"green\"\n[modes]\ndefault_mode = \"normal\"");
    assert_all_unset(&c);
}

#[test]
fn array_of_tables_fails_whole_file() {
    let c = ConfigToml::from_text("[[theme]]\nfg = \"green\"");
    assert_all_unset(&c);
}

#[test]
fn unknown_tables_and_keys_are_ignored() {
    let c = ConfigToml::from_text(
        "[theme]\nfg = \"green\"\nglow = 3\n[sound]\nvolume = 11\n",
    );
    let theme = c.get_theme().unwrap();
    assert_eq!(theme.fg.as_deref(), Some("green"));
    assert!(theme.missing.is_none());
    assert!(c.get_graph().is_none());
    assert!(c.get_cursor().is_none());
    assert!(c.get_modes().is_none());
    assert!(c.get_language().is_none());
}

#[test]
fn unknown_nested_table_is_ignored() {
    let c = ConfigToml::from_text("[theme.extra]\nx = \"y\"\n");
    let theme = c.get_theme().unwrap();
    assert!(theme.fg.is_none());
    assert!(theme.missing.is_none());
    assert!(theme.error.is_none());
    assert!(theme.accent.is_none());
}

#[test]
fn empty_recognized_table_is_present_but_unset() {
    let c = ConfigToml::from_text("[cursor]\n");
    let cursor = c.get_cursor().unwrap();
    assert!(cursor.style.is_none());
    assert!(c.get_theme().is_none());
}

#[test]
fn dotted_key_sets_a_table_entry() {
    let c = ConfigToml::from_text("theme.fg = \"green\"\n");
    let theme = c.get_theme().unwrap();
    assert_eq!(theme.fg.as_deref(), Some("green"));
}

#[test]
fn local_content_wins_over_home() {
    let local = String::from("[theme]\nfg = \"green\"");
    let home = String::from("[theme]\nfg = \"red\"");
    let c = ConfigToml::from_candidate_contents(Some(local), Some(home));
    assert_eq!(c.get_theme().unwrap().fg.as_deref(), Some("green"));
}

#[test]
fn home_content_used_when_local_absent() {
    let home = String::from("[theme]\nfg = \"red\"");
    let c = ConfigToml::from_candidate_contents(None, Some(home));
    assert_eq!(c.get_theme().unwrap().fg.as_deref(), Some("red"));
}

#[test]
fn no_candidate_content_is_all_unset() {
    let c = ConfigToml::from_candidate_contents(None, None);
    assert_all_unset(&c);
}

#[test]
fn default_is_all_unset() {
    let c = ConfigToml::default();
    assert_all_unset(&c);
}

#[test]
fn round_trip_keeps_every_field() {
    let text = "[theme]\nfg = \"white\"\nmissing = \"gray\"\nerror = \"red\"\naccent = \"cyan\"\n\
                [graph]\ndata = \"blue\"\ntitle = \"bold\"\naxis = \"dim\"\n\
                [cursor]\nstyle = \"block\"\n\
                [modes]\ndefault_mode = \"words\"\nuppercase_chance = \"0.1\"\npunctuation_chance = \"0.2\"\n\
                [language]\nlang = \"en\"\n";
    let c = ConfigToml::from_text(text);
    let emitted = c.to_toml_text().unwrap();
    let back = ConfigToml::from_text(&emitted);
    let theme = back.get_theme().unwrap();
    assert_eq!(theme.fg.as_deref(), Some("white"));
    assert_eq!(theme.missing.as_deref(), Some("gray"));
    assert_eq!(theme.error.as_deref(), Some("red"));
    assert_eq!(theme.accent.as_deref(), Some("cyan"));
    let graph = back.get_graph().unwrap();
    assert_eq!(graph.data.as_deref(), Some("blue"));
    assert_eq!(graph.title.as_deref(), Some("bold"));
    assert_eq!(graph.axis.as_deref(), Some("dim"));
    assert_eq!(back.get_cursor().unwrap().style.as_deref(), Some("block"));
    let modes = back.get_modes().unwrap();
    assert_eq!(modes.default_mode.as_deref(), Some("words"));
    assert_eq!(modes.uppercase_chance.as_deref(), Some("0.1"));
    assert_eq!(modes.punctuation_chance.as_deref(), Some("0.2"));
    assert_eq!(back.get_language().unwrap().lang.as_deref(), Some("en"));
}

#[test]
fn round_trip_keeps_unset_fields_unset() {
    let c = ConfigToml::from_text("[theme]\nfg = \"green\"");
    let emitted = c.to_toml_text().unwrap();
    let back = ConfigToml::from_text(&emitted);
    let theme = back.get_theme().unwrap();
    assert_eq!(theme.fg.as_deref(), Some("green"));
    assert!(theme.missing.is_none());
    assert!(theme.error.is_none());
    assert!(theme.accent.is_none());
    assert!(back.get_graph().is_none());
    assert!(back.get_cursor().is_none());
    assert!(back.get_modes().is_none());
    assert!(back.get_language().is_none());
}

#[test]
fn round_trip_escapes_awkward_characters() {
    let c = ConfigToml::from_text("[theme]\nfg = \"a\\\"b\\\\c\"\n");
    assert_eq!(c.get_theme().unwrap().fg.as_deref(), Some("a\"b\\c"));
    let emitted = c.to_toml_text().unwrap();
    let back = ConfigToml::from_text(&emitted);
    assert_eq!(back.get_theme().unwrap().fg.as_deref(), Some("a\"b\\c"));
}

#[test]
fn round_trip_of_default_is_all_unset() {
    let c = ConfigToml::default();
    let emitted = c.to_toml_text().unwrap();
    let back = ConfigToml::from_text(&emitted);
    assert_all_unset(&back);
}
