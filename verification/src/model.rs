//! The mathematical model of a configuration and of a parsed document.
//!
//! A parsed TOML document is modeled by the part of it that the loader reads:
//! each top-level key maps to the string projection of its value when that
//! value is a table, and to `None` otherwise; within a table, each key maps
//! to the characters of its value when that value is a string, and to `None`
//! otherwise.

use vstd::prelude::*;

verus! {

/// The string projection of one table of a parsed document.
pub type InnerDoc = Map<Seq<char>, Option<Seq<char>>>;

/// The table projection of a whole parsed document.
pub type Doc = Map<Seq<char>, Option<InnerDoc>>;

/// Ghost image of a theme table: colors for typed, missing and mistyped
/// text and for accents.
pub struct ThemeView {
    pub fg: Option<Seq<char>>,
    pub missing: Option<Seq<char>>,
    pub error: Option<Seq<char>>,
    pub accent: Option<Seq<char>>,
}

/// Ghost image of a graph table: colors for a performance graph.
pub struct GraphView {
    pub data: Option<Seq<char>>,
    pub title: Option<Seq<char>>,
    pub axis: Option<Seq<char>>,
}

/// Ghost image of a cursor table.
pub struct CursorView {
    pub style: Option<Seq<char>>,
}

/// Ghost image of a modes table: the default typing mode and its
/// probability knobs, kept as raw text for consumers to interpret.
pub struct ModesView {
    pub default_mode: Option<Seq<char>>,
    pub uppercase_chance: Option<Seq<char>>,
    pub punctuation_chance: Option<Seq<char>>,
}

/// Ghost image of a language table.
pub struct LanguageView {
    pub lang: Option<Seq<char>>,
}

/// Ghost image of a whole configuration: five independent optional tables.
pub struct ConfigView {
    pub theme: Option<ThemeView>,
    pub graph: Option<GraphView>,
    pub cursor: Option<CursorView>,
    pub modes: Option<ModesView>,
    pub language: Option<LanguageView>,
}

/// The projection of a table that holds no entries.
pub open spec fn empty_inner() -> InnerDoc {
    Map::empty()
}

/// The projection of a document that holds no tables.
pub open spec fn empty_doc() -> Doc {
    Map::empty()
}

/// The configuration with every table unset: what loading falls back to.
pub open spec fn unset_config() -> ConfigView {
    ConfigView { theme: None, graph: None, cursor: None, modes: None, language: None }
}

/// A table projection whose every entry is a string.
pub open spec fn string_only_inner(m: InnerDoc) -> bool {
    forall|k: Seq<char>| #[trigger] m.dom().contains(k) ==> m[k] is Some
}

/// A document projection whose every entry is a table of strings alone.
/// The TOML serializer never refuses such a document.
pub open spec fn string_only_doc(d: Doc) -> bool {
    forall|k: Seq<char>| #[trigger] d.dom().contains(k) ==> d[k] is Some && string_only_inner(
        d[k]->0,
    )
}

/// One recognized entry of a table: `Some(field)` gives the entry's value
/// (`None` where the key is absent), while `None` means the key is present
/// but does not hold a string, which fails the whole document.
pub open spec fn field_of(m: InnerDoc, k: Seq<char>) -> Option<Option<Seq<char>>> {
    if m.dom().contains(k) {
        match m[k] {
            Some(s) => Some(Some(s)),
            None => None,
        }
    } else {
        Some(None)
    }
}

/// One recognized table of a document: `Some(slot)` gives the table's string
/// projection (`None` where the key is absent), while `None` means the key is
/// present but does not hold a table, which fails the whole document.
pub open spec fn table_slot(d: Doc, name: Seq<char>) -> Option<Option<InnerDoc>> {
    if d.dom().contains(name) {
        match d[name] {
            Some(m) => Some(Some(m)),
            None => None,
        }
    } else {
        Some(None)
    }
}

/// The theme read from one table, or `None` on a wrongly-typed entry.
/// Unrecognized keys are ignored.
pub open spec fn theme_of_inner(m: InnerDoc) -> Option<ThemeView> {
    if field_of(m, "fg"@) is Some && field_of(m, "missing"@) is Some && field_of(m, "error"@)
        is Some && field_of(m, "accent"@) is Some {
        Some(
            ThemeView {
                fg: field_of(m, "fg"@)->0,
                missing: field_of(m, "missing"@)->0,
                error: field_of(m, "error"@)->0,
                accent: field_of(m, "accent"@)->0,
            },
        )
    } else {
        None
    }
}

/// The graph colors read from one table, or `None` on a wrongly-typed entry.
pub open spec fn graph_of_inner(m: InnerDoc) -> Option<GraphView> {
    if field_of(m, "data"@) is Some && field_of(m, "title"@) is Some && field_of(m, "axis"@)
        is Some {
        Some(
            GraphView {
                data: field_of(m, "data"@)->0,
                title: field_of(m, "title"@)->0,
                axis: field_of(m, "axis"@)->0,
            },
        )
    } else {
        None
    }
}

/// The cursor style read from one table, or `None` on a wrongly-typed entry.
pub open spec fn cursor_of_inner(m: InnerDoc) -> Option<CursorView> {
    if field_of(m, "style"@) is Some {
        Some(CursorView { style: field_of(m, "style"@)->0 })
    } else {
        None
    }
}

/// The typing modes read from one table, or `None` on a wrongly-typed entry.
pub open spec fn modes_of_inner(m: InnerDoc) -> Option<ModesView> {
    if field_of(m, "default_mode"@) is Some && field_of(m, "uppercase_chance"@) is Some
        && field_of(m, "punctuation_chance"@) is Some {
        Some(
            ModesView {
                default_mode: field_of(m, "default_mode"@)->0,
                uppercase_chance: field_of(m, "uppercase_chance"@)->0,
                punctuation_chance: field_of(m, "punctuation_chance"@)->0,
            },
        )
    } else {
        None
    }
}

/// The language read from one table, or `None` on a wrongly-typed entry.
pub open spec fn language_of_inner(m: InnerDoc) -> Option<LanguageView> {
    if field_of(m, "lang"@) is Some {
        Some(LanguageView { lang: field_of(m, "lang"@)->0 })
    } else {
        None
    }
}

/// The theme slot of a document: absent, present, or a shape failure.
pub open spec fn theme_slot(d: Doc) -> Option<Option<ThemeView>> {
    match table_slot(d, "theme"@) {
        None => None,
        Some(None) => Some(None),
        Some(Some(m)) => match theme_of_inner(m) {
            None => None,
            Some(t) => Some(Some(t)),
        },
    }
}

/// The graph slot of a document: absent, present, or a shape failure.
pub open spec fn graph_slot(d: Doc) -> Option<Option<GraphView>> {
    match table_slot(d, "graph"@) {
        None => None,
        Some(None) => Some(None),
        Some(Some(m)) => match graph_of_inner(m) {
            None => None,
            Some(g) => Some(Some(g)),
        },
    }
}

/// The cursor slot of a document: absent, present, or a shape failure.
pub open spec fn cursor_slot(d: Doc) -> Option<Option<CursorView>> {
    match table_slot(d, "cursor"@) {
        None => None,
        Some(None) => Some(None),
        Some(Some(m)) => match cursor_of_inner(m) {
            None => None,
            Some(c) => Some(Some(c)),
        },
    }
}

/// The modes slot of a document: absent, present, or a shape failure.
pub open spec fn modes_slot(d: Doc) -> Option<Option<ModesView>> {
    match table_slot(d, "modes"@) {
        None => None,
        Some(None) => Some(None),
        Some(Some(m)) => match modes_of_inner(m) {
            None => None,
            Some(v) => Some(Some(v)),
        },
    }
}

/// The language slot of a document: absent, present, or a shape failure.
pub open spec fn language_slot(d: Doc) -> Option<Option<LanguageView>> {
    match table_slot(d, "language"@) {
        None => None,
        Some(None) => Some(None),
        Some(Some(m)) => match language_of_inner(m) {
            None => None,
            Some(l) => Some(Some(l)),
        },
    }
}

/// The configuration carried by a parsed document, or `None` where a
/// recognized table or entry holds the wrong kind of value.  Keys and tables
/// that the loader does not recognize are ignored.
pub open spec fn config_of_doc(d: Doc) -> Option<ConfigView> {
    if theme_slot(d) is Some && graph_slot(d) is Some && cursor_slot(d) is Some && modes_slot(d)
        is Some && language_slot(d) is Some {
        Some(
            ConfigView {
                theme: theme_slot(d)->0,
                graph: graph_slot(d)->0,
                cursor: cursor_slot(d)->0,
                modes: modes_slot(d)->0,
                language: language_slot(d)->0,
            },
        )
    } else {
        None
    }
}

/// The string projection of the table that serializing a theme writes:
/// one entry per set field, under the recognized keys.
pub open spec fn inner_of_theme(t: ThemeView) -> InnerDoc {
    let m0 = Map::<Seq<char>, Option<Seq<char>>>::empty();
    let m1 = if t.fg is Some { m0.insert("fg"@, Some(t.fg->0)) } else { m0 };
    let m2 = if t.missing is Some { m1.insert("missing"@, Some(t.missing->0)) } else { m1 };
    let m3 = if t.error is Some { m2.insert("error"@, Some(t.error->0)) } else { m2 };
    if t.accent is Some { m3.insert("accent"@, Some(t.accent->0)) } else { m3 }
}

/// The string projection of the table that serializing graph colors writes.
pub open spec fn inner_of_graph(g: GraphView) -> InnerDoc {
    let m0 = Map::<Seq<char>, Option<Seq<char>>>::empty();
    let m1 = if g.data is Some { m0.insert("data"@, Some(g.data->0)) } else { m0 };
    let m2 = if g.title is Some { m1.insert("title"@, Some(g.title->0)) } else { m1 };
    if g.axis is Some { m2.insert("axis"@, Some(g.axis->0)) } else { m2 }
}

/// The string projection of the table that serializing a cursor style writes.
pub open spec fn inner_of_cursor(c: CursorView) -> InnerDoc {
    let m0 = Map::<Seq<char>, Option<Seq<char>>>::empty();
    if c.style is Some { m0.insert("style"@, Some(c.style->0)) } else { m0 }
}

/// The string projection of the table that serializing typing modes writes.
pub open spec fn inner_of_modes(v: ModesView) -> InnerDoc {
    let m0 = Map::<Seq<char>, Option<Seq<char>>>::empty();
    let m1 = if v.default_mode is Some {
        m0.insert("default_mode"@, Some(v.default_mode->0))
    } else {
        m0
    };
    let m2 = if v.uppercase_chance is Some {
        m1.insert("uppercase_chance"@, Some(v.uppercase_chance->0))
    } else {
        m1
    };
    if v.punctuation_chance is Some {
        m2.insert("punctuation_chance"@, Some(v.punctuation_chance->0))
    } else {
        m2
    }
}

/// The string projection of the table that serializing a language writes.
pub open spec fn inner_of_language(l: LanguageView) -> InnerDoc {
    let m0 = Map::<Seq<char>, Option<Seq<char>>>::empty();
    if l.lang is Some { m0.insert("lang"@, Some(l.lang->0)) } else { m0 }
}

/// The table projection of the document that serializing a configuration
/// writes: one table per set slot, under the recognized names.
pub open spec fn doc_of_config(c: ConfigView) -> Doc {
    let d0 = Map::<Seq<char>, Option<InnerDoc>>::empty();
    let d1 = if c.theme is Some { d0.insert("theme"@, Some(inner_of_theme(c.theme->0))) } else {
        d0
    };
    let d2 = if c.graph is Some { d1.insert("graph"@, Some(inner_of_graph(c.graph->0))) } else {
        d1
    };
    let d3 = if c.cursor is Some {
        d2.insert("cursor"@, Some(inner_of_cursor(c.cursor->0)))
    } else {
        d2
    };
    let d4 = if c.modes is Some { d3.insert("modes"@, Some(inner_of_modes(c.modes->0))) } else {
        d3
    };
    if c.language is Some {
        d4.insert("language"@, Some(inner_of_language(c.language->0)))
    } else {
        d4
    }
}

proof fn lemma_theme_keys_distinct()
    ensures
        "fg"@ != "missing"@,
        "fg"@ != "error"@,
        "fg"@ != "accent"@,
        "missing"@ != "error"@,
        "missing"@ != "accent"@,
        "error"@ != "accent"@,
{
    reveal_strlit("fg");
    reveal_strlit("missing");
    reveal_strlit("error");
    reveal_strlit("accent");
    assert("fg"@.len() == 2);
    assert("missing"@.len() == 7);
    assert("error"@.len() == 5);
    assert("accent"@.len() == 6);
}

proof fn lemma_graph_keys_distinct()
    ensures
        "data"@ != "title"@,
        "data"@ != "axis"@,
        "title"@ != "axis"@,
{
    reveal_strlit("data");
    reveal_strlit("title");
    reveal_strlit("axis");
    assert("data"@[0] != "axis"@[0]);
}

proof fn lemma_modes_keys_distinct()
    ensures
        "default_mode"@ != "uppercase_chance"@,
        "default_mode"@ != "punctuation_chance"@,
        "uppercase_chance"@ != "punctuation_chance"@,
{
    reveal_strlit("default_mode");
    reveal_strlit("uppercase_chance");
    reveal_strlit("punctuation_chance");
    assert("default_mode"@.len() == 12);
    assert("uppercase_chance"@.len() == 16);
    assert("punctuation_chance"@.len() == 18);
}

proof fn lemma_table_names_distinct()
    ensures
        "theme"@ != "graph"@,
        "theme"@ != "cursor"@,
        "theme"@ != "modes"@,
        "theme"@ != "language"@,
        "graph"@ != "cursor"@,
        "graph"@ != "modes"@,
        "graph"@ != "language"@,
        "cursor"@ != "modes"@,
        "cursor"@ != "language"@,
        "modes"@ != "language"@,
{
    reveal_strlit("theme");
    reveal_strlit("graph");
    reveal_strlit("cursor");
    reveal_strlit("modes");
    reveal_strlit("language");
    assert("theme"@.len() == 5);
    assert("graph"@.len() == 5);
    assert("cursor"@.len() == 6);
    assert("modes"@.len() == 5);
    assert("language"@.len() == 8);
    assert("theme"@[0] != "graph"@[0]);
    assert("theme"@[0] != "modes"@[0]);
    assert("graph"@[0] != "modes"@[0]);
}

proof fn lemma_theme_inner_round_trip(t: ThemeView)
    ensures
        theme_of_inner(inner_of_theme(t)) == Some(t),
{
    lemma_theme_keys_distinct();
}

proof fn lemma_graph_inner_round_trip(g: GraphView)
    ensures
        graph_of_inner(inner_of_graph(g)) == Some(g),
{
    lemma_graph_keys_distinct();
}

proof fn lemma_cursor_inner_round_trip(c: CursorView)
    ensures
        cursor_of_inner(inner_of_cursor(c)) == Some(c),
{
}

proof fn lemma_modes_inner_round_trip(v: ModesView)
    ensures
        modes_of_inner(inner_of_modes(v)) == Some(v),
{
    lemma_modes_keys_distinct();
}

proof fn lemma_language_inner_round_trip(l: LanguageView)
    ensures
        language_of_inner(inner_of_language(l)) == Some(l),
{
}

proof fn lemma_inner_of_theme_string_only(t: ThemeView)
    ensures
        string_only_inner(inner_of_theme(t)),
{
    let m = inner_of_theme(t);
    assert forall|k: Seq<char>| #[trigger] m.dom().contains(k) implies m[k] is Some by {}
}

proof fn lemma_inner_of_graph_string_only(g: GraphView)
    ensures
        string_only_inner(inner_of_graph(g)),
{
    let m = inner_of_graph(g);
    assert forall|k: Seq<char>| #[trigger] m.dom().contains(k) implies m[k] is Some by {}
}

proof fn lemma_inner_of_cursor_string_only(c: CursorView)
    ensures
        string_only_inner(inner_of_cursor(c)),
{
    let m = inner_of_cursor(c);
    assert forall|k: Seq<char>| #[trigger] m.dom().contains(k) implies m[k] is Some by {}
}

proof fn lemma_inner_of_modes_string_only(v: ModesView)
    ensures
        string_only_inner(inner_of_modes(v)),
{
    let m = inner_of_modes(v);
    assert forall|k: Seq<char>| #[trigger] m.dom().contains(k) implies m[k] is Some by {}
}

proof fn lemma_inner_of_language_string_only(l: LanguageView)
    ensures
        string_only_inner(inner_of_language(l)),
{
    let m = inner_of_language(l);
    assert forall|k: Seq<char>| #[trigger] m.dom().contains(k) implies m[k] is Some by {}
}

/// Law: serializing a configuration writes a document made of string-valued
/// tables alone — the shape the TOML serializer never refuses.
pub proof fn lemma_doc_of_config_string_only(c: ConfigView)
    ensures
        string_only_doc(doc_of_config(c)),
{
    let d = doc_of_config(c);
    if c.theme is Some {
        lemma_inner_of_theme_string_only(c.theme->0);
    }
    if c.graph is Some {
        lemma_inner_of_graph_string_only(c.graph->0);
    }
    if c.cursor is Some {
        lemma_inner_of_cursor_string_only(c.cursor->0);
    }
    if c.modes is Some {
        lemma_inner_of_modes_string_only(c.modes->0);
    }
    if c.language is Some {
        lemma_inner_of_language_string_only(c.language->0);
    }
    assert forall|k: Seq<char>| #[trigger] d.dom().contains(k) implies d[k] is Some
        && string_only_inner(d[k]->0) by {}
}

/// Law: writing a configuration out as a document and reading that document
/// back yields the same configuration, set and unset fields alike — reading
/// never fails on a document that writing produced.
pub proof fn lemma_doc_round_trip(c: ConfigView)
    ensures
        config_of_doc(doc_of_config(c)) == Some(c),
{
    lemma_table_names_distinct();
    let d = doc_of_config(c);
    if c.theme is Some {
        lemma_theme_inner_round_trip(c.theme->0);
    }
    if c.graph is Some {
        lemma_graph_inner_round_trip(c.graph->0);
    }
    if c.cursor is Some {
        lemma_cursor_inner_round_trip(c.cursor->0);
    }
    if c.modes is Some {
        lemma_modes_inner_round_trip(c.modes->0);
    }
    if c.language is Some {
        lemma_language_inner_round_trip(c.language->0);
    }
    assert(theme_slot(d) == Some(c.theme));
    assert(graph_slot(d) == Some(c.graph));
    assert(cursor_slot(d) == Some(c.cursor));
    assert(modes_slot(d) == Some(c.modes));
    assert(language_slot(d) == Some(c.language));
}

} // verus!
