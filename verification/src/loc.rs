//! Centralized localization.
//!
//! Every user-facing string lives in a [`Translations`] table organised by
//! language code (`en`, `pt`, `ar`) and key. A [`Loc`] pairs that table with
//! the active [`Lang`]; a key that the active language does not translate is
//! shown as the key itself.

use vstd::prelude::*;
use crate::text::{push_char, push_decimal, push_str, str_eq, decimal};

verus! {

/// The languages the game ships.
#[derive(Clone, Copy, Debug, PartialEq, Eq, Structural)]
pub enum Lang {
    English,
    Portuguese,
    Arabic,
}

/// The translation-table code of a language.
pub open spec fn lang_code(l: Lang) -> Seq<char> {
    match l {
        Lang::English => seq!['e', 'n'],
        Lang::Portuguese => seq!['p', 't'],
        Lang::Arabic => seq!['a', 'r'],
    }
}

/// The language that follows `l` in the selection cycle.
pub open spec fn next_lang(l: Lang) -> Lang {
    match l {
        Lang::English => Lang::Portuguese,
        Lang::Portuguese => Lang::Arabic,
        Lang::Arabic => Lang::English,
    }
}

impl Default for Lang {
    fn default() -> (l: Self)
        ensures
            l == Lang::English,
    {
        Lang::English
    }
}

impl Lang {
    /// The language's code in the translation table: `en`, `pt` or `ar`.
    pub fn code(self) -> (c: &'static str)
        ensures
            c@ == lang_code(self),
    {
        match self {
            Lang::English => {
                proof {
                    reveal_strlit("en");
                }
                "en"
            },
            Lang::Portuguese => {
                proof {
                    reveal_strlit("pt");
                }
                "pt"
            },
            Lang::Arabic => {
                proof {
                    reveal_strlit("ar");
                }
                "ar"
            },
        }
    }

    /// The next language in the cycle English → Portuguese → Arabic → English.
    pub fn next(self) -> (n: Self)
        ensures
            n == next_lang(self),
    {
        match self {
            Lang::English => Lang::Portuguese,
            Lang::Portuguese => Lang::Arabic,
            Lang::Arabic => Lang::English,
        }
    }
}

/// Three applications of [`Lang::next`] come back to the starting language,
/// and no fewer do: the cycle visits every language exactly once.
pub proof fn lemma_next_cycles(l: Lang)
    ensures
        next_lang(next_lang(next_lang(l))) == l,
        next_lang(l) != l,
        next_lang(next_lang(l)) != l,
{
}

/// Distinct languages have distinct codes, so each language reads its own
/// column of the translation table.
pub proof fn lemma_codes_distinct(a: Lang, b: Lang)
    ensures
        a != b ==> lang_code(a) != lang_code(b),
{
    if a != b {
        assert(lang_code(a)[0] != lang_code(b)[0] || lang_code(a)[1] != lang_code(b)[1]);
    }
}

/// One translated string: `(language code, key, text)`.
pub type Entry = (Seq<char>, Seq<char>, Seq<char>);

/// Index of the first entry of `s` for `(lang, key)`, if any.
pub open spec fn entry_index(s: Seq<Entry>, lang: Seq<char>, key: Seq<char>) -> Option<int> {
    if exists|i: int|
        0 <= i < s.len() && #[trigger] s[i].0 == lang && s[i].1 == key && (forall|j: int|
            0 <= j < i ==> !(s[j].0 == lang && s[j].1 == key)) {
        Some(
            choose|i: int|
                0 <= i < s.len() && #[trigger] s[i].0 == lang && s[i].1 == key && (forall|j: int|
                    0 <= j < i ==> !(s[j].0 == lang && s[j].1 == key)),
        )
    } else {
        None
    }
}

/// The text that `s` gives `key` in language `lang`, if it has one.
pub open spec fn translation(s: Seq<Entry>, lang: Seq<char>, key: Seq<char>) -> Option<Seq<char>> {
    match entry_index(s, lang, key) {
        Some(i) => Some(s[i].2),
        None => None,
    }
}

/// What is shown for `key` in language `lang`: its translation, or the key itself.
pub open spec fn shown_text(s: Seq<Entry>, lang: Seq<char>, key: Seq<char>) -> Seq<char> {
    match translation(s, lang, key) {
        Some(t) => t,
        None => key,
    }
}

/// No entry of `s` is for `(lang, key)`.
pub open spec fn absent(s: Seq<Entry>, lang: Seq<char>, key: Seq<char>) -> bool {
    forall|j: int| 0 <= j < s.len() ==> !(#[trigger] s[j].0 == lang && s[j].1 == key)
}

proof fn lemma_entry_index_found(s: Seq<Entry>, lang: Seq<char>, key: Seq<char>, i: int)
    requires
        0 <= i < s.len(),
        s[i].0 == lang,
        s[i].1 == key,
        forall|j: int| 0 <= j < i ==> !(#[trigger] s[j].0 == lang && s[j].1 == key),
    ensures
        entry_index(s, lang, key) == Some(i),
{
    let k = choose|k: int|
        0 <= k < s.len() && #[trigger] s[k].0 == lang && s[k].1 == key && (forall|j: int|
            0 <= j < k ==> !(s[j].0 == lang && s[j].1 == key));
    assert(s[i].0 == lang);
    if k < i {
        assert(!(s[k].0 == lang && s[k].1 == key));
    }
    if i < k {
        assert(!(s[i].0 == lang && s[i].1 == key));
    }
}

proof fn lemma_entry_index_absent(s: Seq<Entry>, lang: Seq<char>, key: Seq<char>)
    requires
        absent(s, lang, key),
    ensures
        entry_index(s, lang, key) == None::<int>,
{
    if exists|i: int|
        0 <= i < s.len() && #[trigger] s[i].0 == lang && s[i].1 == key && (forall|j: int|
            0 <= j < i ==> !(s[j].0 == lang && s[j].1 == key)) {
        let i = choose|i: int|
            0 <= i < s.len() && #[trigger] s[i].0 == lang && s[i].1 == key && (forall|j: int|
                0 <= j < i ==> !(s[j].0 == lang && s[j].1 == key));
        assert(!(s[i].0 == lang && s[i].1 == key));
    }
}

/// A table of translated strings, keyed by language code and string key.
///
/// Each `(language, key)` pair has at most one text that lookups see: the
/// first entry for it.
#[derive(Clone, Debug)]
pub struct Translations {
    entries: Vec<(String, String, String)>,
}

impl View for Translations {
    type V = Seq<Entry>;

    closed spec fn view(&self) -> Seq<Entry> {
        self.entries@.map_values(|e: (String, String, String)| (e.0@, e.1@, e.2@))
    }
}

impl Translations {
    /// An empty table: every key falls back to itself.
    pub fn new() -> (t: Self)
        ensures
            t@ == Seq::<Entry>::empty(),
    {
        let t = Translations { entries: Vec::new() };
        assert(t@ =~= Seq::<Entry>::empty());
        t
    }

    /// Number of stored entries.
    pub fn len(&self) -> (n: usize)
        ensures
            n == self@.len(),
    {
        self.entries.len()
    }

    fn find(&self, lang: &str, key: &str) -> (r: Option<usize>)
        ensures
            match r {
                Some(i) => entry_index(self@, lang@, key@) == Some(i as int),
                None => entry_index(self@, lang@, key@) == None::<int>,
            },
    {
        let mut i: usize = 0;
        while i < self.entries.len()
            invariant
                0 <= i <= self.entries.len(),
                forall|j: int| 0 <= j < i ==> !(#[trigger] self@[j].0 == lang@ && self@[j].1 == key@),
            decreases self.entries.len() - i,
        {
            let e = &self.entries[i];
            if str_eq(e.0.as_str(), lang) && str_eq(e.1.as_str(), key) {
                proof {
                    assert(self@[i as int] == (e.0@, e.1@, e.2@));
                    lemma_entry_index_found(self@, lang@, key@, i as int);
                }
                return Some(i);
            }
            proof {
                assert(self@[i as int] == (e.0@, e.1@, e.2@));
            }
            i = i + 1;
        }
        proof {
            lemma_entry_index_absent(self@, lang@, key@);
        }
        None
    }

    /// The text stored for `key` in language `lang`, if any.
    pub fn lookup<'a>(&'a self, lang: &str, key: &str) -> (r: Option<&'a str>)
        ensures
            match r {
                Some(t) => translation(self@, lang@, key@) == Some(t@),
                None => translation(self@, lang@, key@) == None::<Seq<char>>,
            },
    {
        match self.find(lang, key) {
            Some(i) => {
                let t = self.entries[i].2.as_str();
                proof {
                    assert(self@[i as int] == (self.entries@[i as int].0@, self.entries@[i as int].1@, self.entries@[i as int].2@));
                }
                Some(t)
            },
            None => None,
        }
    }

    /// Sets the text of `key` in language `lang`, replacing any earlier text.
    pub fn insert(&mut self, lang: &str, key: &str, text: &str)
        ensures
            translation(final(self)@, lang@, key@) == Some(text@),
            forall|l: Seq<char>, k: Seq<char>|
                !(l == lang@ && k == key@) ==> #[trigger] translation(final(self)@, l, k)
                    == translation(old(self)@, l, k),
    {
        let ghost before = self@;
        match self.find(lang, key) {
            Some(i) => {
                let new_entry = (lang.to_owned(), key.to_owned(), text.to_owned());
                self.entries.set(i, new_entry);
                proof {
                    assert(self@ =~= before.update(i as int, (lang@, key@, text@)));
                    lemma_update_keeps_lookups(before, i as int, lang@, key@, text@);
                }
            },
            None => {
                self.entries.push((lang.to_owned(), key.to_owned(), text.to_owned()));
                proof {
                    assert(self@ =~= before.push((lang@, key@, text@)));
                    lemma_push_keeps_lookups(before, lang@, key@, text@);
                }
            },
        }
    }
}

proof fn lemma_update_keeps_lookups(
    s: Seq<Entry>,
    i: int,
    lang: Seq<char>,
    key: Seq<char>,
    text: Seq<char>,
)
    requires
        entry_index(s, lang, key) == Some(i),
    ensures
        translation(s.update(i, (lang, key, text)), lang, key) == Some(text),
        forall|l: Seq<char>, k: Seq<char>|
            !(l == lang && k == key) ==> #[trigger] translation(s.update(i, (lang, key, text)), l, k)
                == translation(s, l, k),
{
    let t = s.update(i, (lang, key, text));
    let w = choose|w: int|
        0 <= w < s.len() && #[trigger] s[w].0 == lang && s[w].1 == key && (forall|j: int|
            0 <= j < w ==> !(s[j].0 == lang && s[j].1 == key));
    assert(w == i);
    assert forall|j: int| 0 <= j < i implies !(#[trigger] t[j].0 == lang && t[j].1 == key) by {
        assert(t[j] == s[j]);
        assert(!(s[j].0 == lang && s[j].1 == key));
    }
    lemma_entry_index_found(t, lang, key, i);
    assert forall|l: Seq<char>, k: Seq<char>| !(l == lang && k == key) implies #[trigger] translation(
        t,
        l,
        k,
    ) == translation(s, l, k) by {
        lemma_same_lookup_off_key(s, t, i, l, k);
    }
}

proof fn lemma_same_lookup_off_key(s: Seq<Entry>, t: Seq<Entry>, i: int, l: Seq<char>, k: Seq<char>)
    requires
        s.len() == t.len(),
        0 <= i < s.len(),
        forall|j: int| 0 <= j < s.len() && j != i ==> s[j] == t[j],
        !(s[i].0 == l && s[i].1 == k),
        !(t[i].0 == l && t[i].1 == k),
    ensures
        translation(t, l, k) == translation(s, l, k),
{
    match entry_index(s, l, k) {
        Some(w) => {
            let w = choose|w: int|
                0 <= w < s.len() && #[trigger] s[w].0 == l && s[w].1 == k && (forall|j: int|
                    0 <= j < w ==> !(s[j].0 == l && s[j].1 == k));
            assert(w != i);
            assert(t[w] == s[w]);
            assert forall|j: int| 0 <= j < w implies !(#[trigger] t[j].0 == l && t[j].1 == k) by {
                if j != i {
                    assert(t[j] == s[j]);
                    assert(!(s[j].0 == l && s[j].1 == k));
                }
            }
            lemma_entry_index_found(t, l, k, w);
        },
        None => {
            assert forall|j: int| 0 <= j < t.len() implies !(#[trigger] t[j].0 == l && t[j].1 == k) by {
                if j != i {
                    assert(t[j] == s[j]);
                    if s[j].0 == l && s[j].1 == k {
                        lemma_some_index_exists(s, l, k, j);
                    }
                }
            }
            lemma_entry_index_absent(t, l, k);
        },
    }
}

/// If any entry matches, `entry_index` finds one.
proof fn lemma_some_index_exists(s: Seq<Entry>, l: Seq<char>, k: Seq<char>, j: int)
    requires
        0 <= j < s.len(),
        s[j].0 == l,
        s[j].1 == k,
    ensures
        entry_index(s, l, k) is Some,
    decreases j,
{
    if exists|m: int| 0 <= m < j && #[trigger] s[m].0 == l && s[m].1 == k {
        let m = choose|m: int| 0 <= m < j && #[trigger] s[m].0 == l && s[m].1 == k;
        lemma_some_index_exists(s, l, k, m);
    } else {
        assert forall|m: int| 0 <= m < j implies !(#[trigger] s[m].0 == l && s[m].1 == k) by {
        }
        lemma_entry_index_found(s, l, k, j);
    }
}

proof fn lemma_push_keeps_lookups(s: Seq<Entry>, lang: Seq<char>, key: Seq<char>, text: Seq<char>)
    requires
        entry_index(s, lang, key) == None::<int>,
    ensures
        translation(s.push((lang, key, text)), lang, key) == Some(text),
        forall|l: Seq<char>, k: Seq<char>|
            !(l == lang && k == key) ==> #[trigger] translation(s.push((lang, key, text)), l, k)
                == translation(s, l, k),
{
    let t = s.push((lang, key, text));
    assert forall|j: int| 0 <= j < s.len() implies !(#[trigger] t[j].0 == lang && t[j].1 == key) by {
        assert(t[j] == s[j]);
        if s[j].0 == lang && s[j].1 == key {
            lemma_some_index_exists(s, lang, key, j);
        }
    }
    lemma_entry_index_found(t, lang, key, s.len() as int);
    assert forall|l: Seq<char>, k: Seq<char>| !(l == lang && k == key) implies #[trigger] translation(
        t,
        l,
        k,
    ) == translation(s, l, k) by {
        match entry_index(s, l, k) {
            Some(w) => {
                let w = choose|w: int|
                    0 <= w < s.len() && #[trigger] s[w].0 == l && s[w].1 == k && (forall|j: int|
                        0 <= j < w ==> !(s[j].0 == l && s[j].1 == k));
                assert(t[w] == s[w]);
                assert forall|j: int| 0 <= j < w implies !(#[trigger] t[j].0 == l && t[j].1 == k) by {
                    assert(t[j] == s[j]);
                    assert(!(s[j].0 == l && s[j].1 == k));
                }
                lemma_entry_index_found(t, l, k, w);
            },
            None => {
                assert forall|j: int| 0 <= j < t.len() implies !(#[trigger] t[j].0 == l && t[j].1 == k) by {
                    if j < s.len() {
                        assert(t[j] == s[j]);
                        if s[j].0 == l && s[j].1 == k {
                            lemma_some_index_exists(s, l, k, j);
                        }
                    }
                }
                lemma_entry_index_absent(t, l, k);
            },
        }
    }
}

/// Reading a key back right after [`Translations::insert`] gives the text just
/// stored; every other `(language, key)` reads as before.
pub proof fn lemma_insert_then_lookup(
    before: Seq<Entry>,
    after: Seq<Entry>,
    lang: Seq<char>,
    key: Seq<char>,
    text: Seq<char>,
    l: Seq<char>,
    k: Seq<char>,
)
    requires
        translation(after, lang, key) == Some(text),
        forall|l2: Seq<char>, k2: Seq<char>|
            !(l2 == lang && k2 == key) ==> #[trigger] translation(after, l2, k2) == translation(
                before,
                l2,
                k2,
            ),
    ensures
        shown_text(after, lang, key) == text,
        !(l == lang && k == key) ==> shown_text(after, l, k) == shown_text(before, l, k),
{
}

/// The active language together with the translation table it reads from.
#[derive(Clone, Debug)]
pub struct Loc {
    lang: Lang,
    strings: Translations,
}

impl Loc {
    /// A localizer for `lang` reading from `strings`.
    pub fn new(lang: Lang, strings: Translations) -> (loc: Self)
        ensures
            loc.lang_spec() == lang,
            loc.strings_spec() == strings@,
    {
        Loc { lang, strings }
    }

    /// The active language.
    pub closed spec fn lang_spec(&self) -> Lang {
        self.lang
    }

    /// The translation table.
    pub closed spec fn strings_spec(&self) -> Seq<Entry> {
        self.strings@
    }

    /// What this localizer shows for `key`.
    pub open spec fn text(&self, key: Seq<char>) -> Seq<char> {
        shown_text(self.strings_spec(), lang_code(self.lang_spec()), key)
    }

    /// Switches the active language; the table is kept.
    pub fn set(&mut self, lang: Lang)
        ensures
            final(self).lang_spec() == lang,
            final(self).strings_spec() == old(self).strings_spec(),
    {
        self.lang = lang;
    }

    /// The active language.
    pub fn lang(&self) -> (l: Lang)
        ensures
            l == self.lang_spec(),
    {
        self.lang
    }

    /// The text for `key` in the active language, or `key` itself when the
    /// language has no text for it.
    pub fn get<'a>(&'a self, key: &'a str) -> (r: &'a str)
        ensures
            r@ == self.text(key@),
    {
        match self.strings.lookup(self.lang.code(), key) {
            Some(t) => t,
            None => key,
        }
    }

    /// `"<label>: <value>"`, the label being the text for `label_key`.
    fn labelled(&self, label_key: &str, value: u32) -> (s: String)
        ensures
            s@ == self.text(label_key@) + seq![':', ' '] + decimal(value as nat),
    {
        let mut s = String::new();
        push_str(&mut s, self.get(label_key));
        push_char(&mut s, ':');
        push_char(&mut s, ' ');
        push_decimal(&mut s, value);
        assert(s@ =~= self.text(label_key@) + seq![':', ' '] + decimal(value as nat));
        s
    }

    /// The HUD frame-rate line: `"<fps_label>: <value>"`.
    pub fn fps(&self, value: u32) -> (s: String)
        ensures
            s@ == self.text("fps_label"@) + seq![':', ' '] + decimal(value as nat),
    {
        self.labelled("fps_label", value)
    }

    /// The HUD squeeze counter: `"<squeezed_label>: <value>"`.
    pub fn squeezed(&self, value: u32) -> (s: String)
        ensures
            s@ == self.text("squeezed_label"@) + seq![':', ' '] + decimal(value as nat),
    {
        self.labelled("squeezed_label", value)
    }

    /// Title screen: the game's title.
    pub fn game_title(&self) -> (r: &str)
        ensures r@ == self.text("game_title"@),
    { self.get("game_title") }

    /// Title screen: the prompt under the title.
    pub fn title_prompt(&self) -> (r: &str)
        ensures r@ == self.text("title_prompt"@),
    { self.get("title_prompt") }

    /// Main menu: the play button.
    pub fn play(&self) -> (r: &str)
        ensures r@ == self.text("play"@),
    { self.get("play") }

    /// Main menu: the configuration button.
    pub fn config(&self) -> (r: &str)
        ensures r@ == self.text("config"@),
    { self.get("config") }

    /// Main menu: the instructions button.
    pub fn instructions(&self) -> (r: &str)
        ensures r@ == self.text("instructions"@),
    { self.get("instructions") }

    /// Main menu: the credits button.
    pub fn credits(&self) -> (r: &str)
        ensures r@ == self.text("credits"@),
    { self.get("credits") }

    /// Main menu: the quit button.
    pub fn quit(&self) -> (r: &str)
        ensures r@ == self.text("quit"@),
    { self.get("quit") }

    /// Main menu: the footer hint.
    pub fn menu_hint(&self) -> (r: &str)
        ensures r@ == self.text("menu_hint"@),
    { self.get("menu_hint") }

    /// Sub-screens: the "back" hint.
    pub fn back_hint(&self) -> (r: &str)
        ensures r@ == self.text("back_hint"@),
    { self.get("back_hint") }

    /// Configuration screen title.
    pub fn config_title(&self) -> (r: &str)
        ensures r@ == self.text("config_title"@),
    { self.get("config_title") }

    /// Instructions screen title.
    pub fn instructions_title(&self) -> (r: &str)
        ensures r@ == self.text("instructions_title"@),
    { self.get("instructions_title") }

    /// Credits screen title.
    pub fn credits_title(&self) -> (r: &str)
        ensures r@ == self.text("credits_title"@),
    { self.get("credits_title") }

    /// Configuration screen: the fullscreen key line.
    pub fn fullscreen_key(&self) -> (r: &str)
        ensures r@ == self.text("fullscreen_key"@),
    { self.get("fullscreen_key") }

    /// Configuration screen: the zoom key line.
    pub fn zoom_key(&self) -> (r: &str)
        ensures r@ == self.text("zoom_key"@),
    { self.get("zoom_key") }

    /// Configuration screen: the placeholder line.
    pub fn config_placeholder(&self) -> (r: &str)
        ensures r@ == self.text("config_placeholder"@),
    { self.get("config_placeholder") }

    /// Instructions: movement.
    pub fn inst_move(&self) -> (r: &str)
        ensures r@ == self.text("inst_move"@),
    { self.get("inst_move") }

    /// Instructions: portals.
    pub fn inst_portals(&self) -> (r: &str)
        ensures r@ == self.text("inst_portals"@),
    { self.get("inst_portals") }

    /// Instructions: zoom.
    pub fn inst_zoom(&self) -> (r: &str)
        ensures r@ == self.text("inst_zoom"@),
    { self.get("inst_zoom") }

    /// Instructions: pause.
    pub fn inst_pause(&self) -> (r: &str)
        ensures r@ == self.text("inst_pause"@),
    { self.get("inst_pause") }

    /// Instructions: the objective.
    pub fn inst_objective(&self) -> (r: &str)
        ensures r@ == self.text("inst_objective"@),
    { self.get("inst_objective") }

    /// Instructions: the movable box.
    pub fn inst_box(&self) -> (r: &str)
        ensures r@ == self.text("inst_box"@),
    { self.get("inst_box") }

    /// Pause screen title.
    pub fn paused(&self) -> (r: &str)
        ensures r@ == self.text("paused"@),
    { self.get("paused") }

    /// Defeat screen title.
    pub fn defeat(&self) -> (r: &str)
        ensures r@ == self.text("defeat"@),
    { self.get("defeat") }

    /// Win screen title.
    pub fn win(&self) -> (r: &str)
        ensures r@ == self.text("win"@),
    { self.get("win") }

    /// Pause screen prompt.
    pub fn pause_prompt(&self) -> (r: &str)
        ensures r@ == self.text("pause_prompt"@),
    { self.get("pause_prompt") }

    /// Defeat screen prompt.
    pub fn retry_prompt(&self) -> (r: &str)
        ensures r@ == self.text("retry_prompt"@),
    { self.get("retry_prompt") }

    /// Win screen prompt.
    pub fn play_again_prompt(&self) -> (r: &str)
        ensures r@ == self.text("play_again_prompt"@),
    { self.get("play_again_prompt") }

    /// HUD: the controls line.
    pub fn hud_controls(&self) -> (r: &str)
        ensures r@ == self.text("hud_controls"@),
    { self.get("hud_controls") }
}

/// Two localizers on the same language and table show the same text for
/// every key: the table's text for that language, or the key itself. So a
/// localizer switched to `lang` with `set` shows, through every accessor,
/// what a new localizer for `lang` on its table shows.
pub proof fn lemma_same_language_same_text(a: Loc, b: Loc, key: Seq<char>)
    requires
        a.lang_spec() == b.lang_spec(),
        a.strings_spec() == b.strings_spec(),
    ensures
        a.text(key) == b.text(key),
        a.text(key) == match translation(a.strings_spec(), lang_code(a.lang_spec()), key) {
            Some(t) => t,
            None => key,
        },
{
}

} // verus!
