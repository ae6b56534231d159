//! The configuration value, its accessors, and the verified loader.
//!
//! [`ConfigToml::from_text`] turns file content into a configuration,
//! swallowing every parse and shape failure into the all-unset fallback;
//! [`ConfigToml::from_candidate_contents`] applies the candidate-path
//! precedence; [`ConfigToml::to_toml_text`] writes a configuration back out
//! as TOML.

use vstd::prelude::*;

use crate::model::{
    config_of_doc, cursor_of_inner, cursor_slot, doc_of_config, field_of, graph_of_inner,
    graph_slot, inner_of_cursor, inner_of_graph, inner_of_language, inner_of_modes,
    inner_of_theme, language_of_inner, language_slot, lemma_doc_of_config_string_only,
    lemma_doc_round_trip, modes_of_inner, modes_slot, theme_of_inner, theme_slot, unset_config,
    ConfigView, CursorView, GraphView, LanguageView, ModesView, ThemeView,
};
use crate::toml_bridge::{
    parse_toml_text, table_doc, table_get, table_insert_str, table_insert_table, table_new,
    table_strings, table_to_text, toml_doc, value_as_string, value_as_table,
};

verus! {

/// A string-valued entry as the file set it, or `None` where it did not.
pub open spec fn opt_str_view(o: Option<String>) -> Option<Seq<char>> {
    match o {
        Some(s) => Some(s@),
        None => None,
    }
}

/// Colors for typed, missing and mistyped text and for accents.
pub struct ThemeTable {
    pub fg: Option<String>,
    pub missing: Option<String>,
    pub error: Option<String>,
    pub accent: Option<String>,
}

impl View for ThemeTable {
    type V = ThemeView;

    open spec fn view(&self) -> ThemeView {
        ThemeView {
            fg: opt_str_view(self.fg),
            missing: opt_str_view(self.missing),
            error: opt_str_view(self.error),
            accent: opt_str_view(self.accent),
        }
    }
}

/// Colors for a performance graph's series, title and axes.
pub struct GraphTable {
    pub data: Option<String>,
    pub title: Option<String>,
    pub axis: Option<String>,
}

impl View for GraphTable {
    type V = GraphView;

    open spec fn view(&self) -> GraphView {
        GraphView {
            data: opt_str_view(self.data),
            title: opt_str_view(self.title),
            axis: opt_str_view(self.axis),
        }
    }
}

/// The cursor rendering style.
pub struct CursorTable {
    pub style: Option<String>,
}

impl View for CursorTable {
    type V = CursorView;

    open spec fn view(&self) -> CursorView {
        CursorView { style: opt_str_view(self.style) }
    }
}

/// The default typing mode and its probability knobs, kept as raw text.
pub struct ModesTable {
    pub default_mode: Option<String>,
    pub uppercase_chance: Option<String>,
    pub punctuation_chance: Option<String>,
}

impl View for ModesTable {
    type V = ModesView;

    open spec fn view(&self) -> ModesView {
        ModesView {
            default_mode: opt_str_view(self.default_mode),
            uppercase_chance: opt_str_view(self.uppercase_chance),
            punctuation_chance: opt_str_view(self.punctuation_chance),
        }
    }
}

/// The selected language.
pub struct LanguageTable {
    pub lang: Option<String>,
}

impl View for LanguageTable {
    type V = LanguageView;

    open spec fn view(&self) -> LanguageView {
        LanguageView { lang: opt_str_view(self.lang) }
    }
}

fn clone_opt_string(o: &Option<String>) -> (r: Option<String>)
    ensures
        r == *o,
{
    match o {
        Some(s) => Some(s.clone()),
        None => None,
    }
}

impl Clone for ThemeTable {
    fn clone(&self) -> (r: Self)
        ensures
            r == *self,
    {
        ThemeTable {
            fg: clone_opt_string(&self.fg),
            missing: clone_opt_string(&self.missing),
            error: clone_opt_string(&self.error),
            accent: clone_opt_string(&self.accent),
        }
    }
}

impl Clone for GraphTable {
    fn clone(&self) -> (r: Self)
        ensures
            r == *self,
    {
        GraphTable {
            data: clone_opt_string(&self.data),
            title: clone_opt_string(&self.title),
            axis: clone_opt_string(&self.axis),
        }
    }
}

impl Clone for CursorTable {
    fn clone(&self) -> (r: Self)
        ensures
            r == *self,
    {
        CursorTable { style: clone_opt_string(&self.style) }
    }
}

impl Clone for ModesTable {
    fn clone(&self) -> (r: Self)
        ensures
            r == *self,
    {
        ModesTable {
            default_mode: clone_opt_string(&self.default_mode),
            uppercase_chance: clone_opt_string(&self.uppercase_chance),
            punctuation_chance: clone_opt_string(&self.punctuation_chance),
        }
    }
}

impl Clone for LanguageTable {
    fn clone(&self) -> (r: Self)
        ensures
            r == *self,
    {
        LanguageTable { lang: clone_opt_string(&self.lang) }
    }
}

/// The theme slot as the file set it.
pub open spec fn opt_theme_view(o: Option<ThemeTable>) -> Option<ThemeView> {
    match o {
        Some(t) => Some(t@),
        None => None,
    }
}

/// The graph slot as the file set it.
pub open spec fn opt_graph_view(o: Option<GraphTable>) -> Option<GraphView> {
    match o {
        Some(t) => Some(t@),
        None => None,
    }
}

/// The cursor slot as the file set it.
pub open spec fn opt_cursor_view(o: Option<CursorTable>) -> Option<CursorView> {
    match o {
        Some(t) => Some(t@),
        None => None,
    }
}

/// The modes slot as the file set it.
pub open spec fn opt_modes_view(o: Option<ModesTable>) -> Option<ModesView> {
    match o {
        Some(t) => Some(t@),
        None => None,
    }
}

/// The language slot as the file set it.
pub open spec fn opt_language_view(o: Option<LanguageTable>) -> Option<LanguageView> {
    match o {
        Some(t) => Some(t@),
        None => None,
    }
}

/// The root configuration: five independent, optional tables.  Absence of a
/// table or of an entry means "not configured"; it is never replaced by a
/// default string.
pub struct ConfigToml {
    theme: Option<ThemeTable>,
    graph: Option<GraphTable>,
    cursor: Option<CursorTable>,
    modes: Option<ModesTable>,
    language: Option<LanguageTable>,
}

impl View for ConfigToml {
    type V = ConfigView;

    closed spec fn view(&self) -> ConfigView {
        ConfigView {
            theme: opt_theme_view(self.theme),
            graph: opt_graph_view(self.graph),
            cursor: opt_cursor_view(self.cursor),
            modes: opt_modes_view(self.modes),
            language: opt_language_view(self.language),
        }
    }
}

impl Default for ConfigToml {
    /// The fallback configuration: every table unset.
    fn default() -> (c: Self)
        ensures
            c@ == unset_config(),
    {
        ConfigToml { theme: None, graph: None, cursor: None, modes: None, language: None }
    }
}

impl ConfigToml {
    /// A copy of the theme table, or `None` where the file did not set one.
    pub fn get_theme(&self) -> (r: Option<ThemeTable>)
        ensures
            opt_theme_view(r) == self@.theme,
    {
        match &self.theme {
            Some(t) => Some(t.clone()),
            None => None,
        }
    }

    /// A copy of the graph table, or `None` where the file did not set one.
    pub fn get_graph(&self) -> (r: Option<GraphTable>)
        ensures
            opt_graph_view(r) == self@.graph,
    {
        match &self.graph {
            Some(t) => Some(t.clone()),
            None => None,
        }
    }

    /// A copy of the cursor table, or `None` where the file did not set one.
    pub fn get_cursor(&self) -> (r: Option<CursorTable>)
        ensures
            opt_cursor_view(r) == self@.cursor,
    {
        match &self.cursor {
            Some(t) => Some(t.clone()),
            None => None,
        }
    }

    /// A copy of the modes table, or `None` where the file did not set one.
    pub fn get_modes(&self) -> (r: Option<ModesTable>)
        ensures
            opt_modes_view(r) == self@.modes,
    {
        match &self.modes {
            Some(t) => Some(t.clone()),
            None => None,
        }
    }

    /// A copy of the language table, or `None` where the file did not set
    /// one.
    pub fn get_language(&self) -> (r: Option<LanguageTable>)
        ensures
            opt_language_view(r) == self@.language,
    {
        match &self.language {
            Some(t) => Some(t.clone()),
            None => None,
        }
    }
}

/// What loading given file content yields: the configuration its document
/// carries, or the all-unset fallback where the text is not valid TOML or a
/// recognized table or entry holds the wrong kind of value.
pub open spec fn load_of_text(s: Seq<char>) -> ConfigView {
    match toml_doc(s) {
        None => unset_config(),
        Some(d) => match config_of_doc(d) {
            None => unset_config(),
            Some(c) => c,
        },
    }
}

fn read_string_entry(sub: &toml::Table, key: &str) -> (r: Option<Option<String>>)
    ensures
        (match r {
            Some(f) => field_of(table_strings(*sub), key@) == Some(opt_str_view(f)),
            None => field_of(table_strings(*sub), key@) is None,
        }),
{
    match table_get(sub, key) {
        None => Some(None),
        Some(v) => match value_as_string(v) {
            Some(s) => Some(Some(s)),
            None => None,
        },
    }
}

fn extract_theme(sub: &toml::Table) -> (r: Option<ThemeTable>)
    ensures
        (match r {
            Some(t) => theme_of_inner(table_strings(*sub)) == Some(t@),
            None => theme_of_inner(table_strings(*sub)) is None,
        }),
{
    let fg = match read_string_entry(sub, "fg") {
        Some(f) => f,
        None => {
            return None;
        },
    };
    let missing = match read_string_entry(sub, "missing") {
        Some(f) => f,
        None => {
            return None;
        },
    };
    let error = match read_string_entry(sub, "error") {
        Some(f) => f,
        None => {
            return None;
        },
    };
    let accent = match read_string_entry(sub, "accent") {
        Some(f) => f,
        None => {
            return None;
        },
    };
    Some(ThemeTable { fg, missing, error, accent })
}

fn extract_graph(sub: &toml::Table) -> (r: Option<GraphTable>)
    ensures
        (match r {
            Some(t) => graph_of_inner(table_strings(*sub)) == Some(t@),
            None => graph_of_inner(table_strings(*sub)) is None,
        }),
{
    let data = match read_string_entry(sub, "data") {
        Some(f) => f,
        None => {
            return None;
        },
    };
    let title = match read_string_entry(sub, "title") {
        Some(f) => f,
        None => {
            return None;
        },
    };
    let axis = match read_string_entry(sub, "axis") {
        Some(f) => f,
        None => {
            return None;
        },
    };
    Some(GraphTable { data, title, axis })
}

fn extract_cursor(sub: &toml::Table) -> (r: Option<CursorTable>)
    ensures
        (match r {
            Some(t) => cursor_of_inner(table_strings(*sub)) == Some(t@),
            None => cursor_of_inner(table_strings(*sub)) is None,
        }),
{
    let style = match read_string_entry(sub, "style") {
        Some(f) => f,
        None => {
            return None;
        },
    };
    Some(CursorTable { style })
}

fn extract_modes(sub: &toml::Table) -> (r: Option<ModesTable>)
    ensures
        (match r {
            Some(t) => modes_of_inner(table_strings(*sub)) == Some(t@),
            None => modes_of_inner(table_strings(*sub)) is None,
        }),
{
    let default_mode = match read_string_entry(sub, "default_mode") {
        Some(f) => f,
        None => {
            return None;
        },
    };
    let uppercase_chance = match read_string_entry(sub, "uppercase_chance") {
        Some(f) => f,
        None => {
            return None;
        },
    };
    let punctuation_chance = match read_string_entry(sub, "punctuation_chance") {
        Some(f) => f,
        None => {
            return None;
        },
    };
    Some(ModesTable { default_mode, uppercase_chance, punctuation_chance })
}

fn extract_language(sub: &toml::Table) -> (r: Option<LanguageTable>)
    ensures
        (match r {
            Some(t) => language_of_inner(table_strings(*sub)) == Some(t@),
            None => language_of_inner(table_strings(*sub)) is None,
        }),
{
    let lang = match read_string_entry(sub, "lang") {
        Some(f) => f,
        None => {
            return None;
        },
    };
    Some(LanguageTable { lang })
}

fn extract_config(doc: &toml::Table) -> (r: Option<ConfigToml>)
    ensures
        (match r {
            Some(c) => config_of_doc(table_doc(*doc)) == Some(c@),
            None => config_of_doc(table_doc(*doc)) is None,
        }),
{
    let theme: Option<ThemeTable> = match table_get(doc, "theme") {
        None => None,
        Some(v) => match value_as_table(v) {
            None => {
                return None;
            },
            Some(sub) => match extract_theme(sub) {
                None => {
                    return None;
                },
                Some(t) => Some(t),
            },
        },
    };
    assert(theme_slot(table_doc(*doc)) == Some(opt_theme_view(theme)));
    let graph: Option<GraphTable> = match table_get(doc, "graph") {
        None => None,
        Some(v) => match value_as_table(v) {
            None => {
                return None;
            },
            Some(sub) => match extract_graph(sub) {
                None => {
                    return None;
                },
                Some(t) => Some(t),
            },
        },
    };
    assert(graph_slot(table_doc(*doc)) == Some(opt_graph_view(graph)));
    let cursor: Option<CursorTable> = match table_get(doc, "cursor") {
        None => None,
        Some(v) => match value_as_table(v) {
            None => {
                return None;
            },
            Some(sub) => match extract_cursor(sub) {
                None => {
                    return None;
                },
                Some(t) => Some(t),
            },
        },
    };
    assert(cursor_slot(table_doc(*doc)) == Some(opt_cursor_view(cursor)));
    let modes: Option<ModesTable> = match table_get(doc, "modes") {
        None => None,
        Some(v) => match value_as_table(v) {
            None => {
                return None;
            },
            Some(sub) => match extract_modes(sub) {
                None => {
                    return None;
                },
                Some(t) => Some(t),
            },
        },
    };
    assert(modes_slot(table_doc(*doc)) == Some(opt_modes_view(modes)));
    let language: Option<LanguageTable> = match table_get(doc, "language") {
        None => None,
        Some(v) => match value_as_table(v) {
            None => {
                return None;
            },
            Some(sub) => match extract_language(sub) {
                None => {
                    return None;
                },
                Some(t) => Some(t),
            },
        },
    };
    assert(language_slot(table_doc(*doc)) == Some(opt_language_view(language)));
    Some(ConfigToml { theme, graph, cursor, modes, language })
}

impl ConfigToml {
    /// Parses file content into a configuration.  Every failure — text that
    /// is not valid TOML, a recognized table that is not a table, a
    /// recognized entry that is not a string — is absorbed into the all-unset
    /// fallback; the call never returns an error.
    pub fn from_text(content: &str) -> (c: ConfigToml)
        ensures
            c@ == load_of_text(content@),
            toml_doc(content@) is None ==> c@ == unset_config(),
    {
        match parse_toml_text(content) {
            None => ConfigToml::default(),
            Some(t) => match extract_config(&t) {
                None => ConfigToml::default(),
                Some(c) => c,
            },
        }
    }

    /// Applies the candidate-path precedence to what the paths held: the
    /// working-directory file's content wins; the home-directory file counts
    /// only where the first could not be read; with neither, every table is
    /// unset.
    pub fn from_candidate_contents(local: Option<String>, home: Option<String>) -> (c: ConfigToml)
        ensures
            local is Some ==> c@ == load_of_text(local->0@),
            local is None && home is Some ==> c@ == load_of_text(home->0@),
            local is None && home is None ==> c@ == unset_config(),
    {
        match local {
            Some(s) => ConfigToml::from_text(s.as_str()),
            None => match home {
                Some(s) => ConfigToml::from_text(s.as_str()),
                None => ConfigToml::default(),
            },
        }
    }
}

fn insert_opt_entry(sub: &mut toml::Table, key: &str, val: &Option<String>)
    ensures
        table_strings(*final(sub)) == (match *val {
            Some(s) => table_strings(*old(sub)).insert(key@, Some(s@)),
            None => table_strings(*old(sub)),
        }),
{
    match val {
        Some(s) => table_insert_str(sub, key, s.as_str()),
        None => (),
    }
}

fn theme_to_table(t: &ThemeTable) -> (r: toml::Table)
    ensures
        table_strings(r) == inner_of_theme(t@),
{
    let mut sub = table_new();
    insert_opt_entry(&mut sub, "fg", &t.fg);
    insert_opt_entry(&mut sub, "missing", &t.missing);
    insert_opt_entry(&mut sub, "error", &t.error);
    insert_opt_entry(&mut sub, "accent", &t.accent);
    sub
}

fn graph_to_table(t: &GraphTable) -> (r: toml::Table)
    ensures
        table_strings(r) == inner_of_graph(t@),
{
    let mut sub = table_new();
    insert_opt_entry(&mut sub, "data", &t.data);
    insert_opt_entry(&mut sub, "title", &t.title);
    insert_opt_entry(&mut sub, "axis", &t.axis);
    sub
}

fn cursor_to_table(t: &CursorTable) -> (r: toml::Table)
    ensures
        table_strings(r) == inner_of_cursor(t@),
{
    let mut sub = table_new();
    insert_opt_entry(&mut sub, "style", &t.style);
    sub
}

fn modes_to_table(t: &ModesTable) -> (r: toml::Table)
    ensures
        table_strings(r) == inner_of_modes(t@),
{
    let mut sub = table_new();
    insert_opt_entry(&mut sub, "default_mode", &t.default_mode);
    insert_opt_entry(&mut sub, "uppercase_chance", &t.uppercase_chance);
    insert_opt_entry(&mut sub, "punctuation_chance", &t.punctuation_chance);
    sub
}

fn language_to_table(t: &LanguageTable) -> (r: toml::Table)
    ensures
        table_strings(r) == inner_of_language(t@),
{
    let mut sub = table_new();
    insert_opt_entry(&mut sub, "lang", &t.lang);
    sub
}

impl ConfigToml {
    /// Writes the configuration out as TOML text: one table per set slot,
    /// one entry per set field, and nothing else.  Serialization succeeds on
    /// every configuration — the document written consists of string-valued
    /// tables alone, which the serializer never refuses — so the result is
    /// always `Some`.
    pub fn to_toml_text(&self) -> (r: Option<String>)
        ensures
            r is Some,
            toml_doc(r->0@) == Some(doc_of_config(self@)),
    {
        let mut doc = table_new();
        match &self.theme {
            Some(t) => {
                let sub = theme_to_table(t);
                table_insert_table(&mut doc, "theme", sub);
            },
            None => (),
        }
        match &self.graph {
            Some(t) => {
                let sub = graph_to_table(t);
                table_insert_table(&mut doc, "graph", sub);
            },
            None => (),
        }
        match &self.cursor {
            Some(t) => {
                let sub = cursor_to_table(t);
                table_insert_table(&mut doc, "cursor", sub);
            },
            None => (),
        }
        match &self.modes {
            Some(t) => {
                let sub = modes_to_table(t);
                table_insert_table(&mut doc, "modes", sub);
            },
            None => (),
        }
        match &self.language {
            Some(t) => {
                let sub = language_to_table(t);
                table_insert_table(&mut doc, "language", sub);
            },
            None => (),
        }
        proof {
            lemma_doc_of_config_string_only(self@);
        }
        table_to_text(&doc)
    }
}

/// Law: loading returns exactly the configuration that the text's document
/// carries — every entry the file sets, unset wherever the file is silent —
/// and the all-unset configuration where the text does not parse or a
/// recognized table or entry holds the wrong kind of value.
pub proof fn lemma_load_cases(s: Seq<char>)
    ensures
        (toml_doc(s) is Some && config_of_doc(toml_doc(s)->0) is Some) ==> load_of_text(s)
            == config_of_doc(toml_doc(s)->0)->0,
        (toml_doc(s) is Some && config_of_doc(toml_doc(s)->0) is None) ==> load_of_text(s)
            == unset_config(),
        toml_doc(s) is None ==> load_of_text(s) == unset_config(),
{
}

/// Law: reloading text whose document is the one that serializing a
/// configuration writes yields that configuration back, set and unset
/// fields alike — in particular, reloading what [`ConfigToml::to_toml_text`]
/// produced reproduces every present and every absent field.
pub proof fn lemma_text_round_trip(s: Seq<char>, c: ConfigView)
    ensures
        toml_doc(s) == Some(doc_of_config(c)) ==> load_of_text(s) == c,
{
    if toml_doc(s) == Some(doc_of_config(c)) {
        lemma_doc_round_trip(c);
    }
}

} // verus!

