use juni::loc::{Lang, Loc, Translations};

fn sample_table() -> Translations {
    let mut t = Translations::new();
    t.insert("en", "play", "Play");
    t.insert("pt", "play", "Jogar");
    t.insert("en", "fps_label", "FPS");
    t.insert("pt", "fps_label", "QPS");
    t.insert("en", "squeezed_label", "Squeezed");
    t
}

#[test]
fn lang_codes_are_two_letters() {
    assert_eq!(Lang::English.code(), "en");
    assert_eq!(Lang::Portuguese.code(), "pt");
    assert_eq!(Lang::Arabic.code(), "ar");
}

#[test]
fn lang_next_cycles_through_all_three() {
    assert_eq!(Lang::English.next(), Lang::Portuguese);
    assert_eq!(Lang::Portuguese.next(), Lang::Arabic);
    assert_eq!(Lang::Arabic.next(), Lang::English);
    for l in [Lang::English, Lang::Portuguese, Lang::Arabic] {
        assert_eq!(l.next().next().next(), l);
        assert_ne!(l.next(), l);
    }
}

#[test]
fn default_lang_is_english() {
    assert_eq!(Lang::default(), Lang::English);
}

#[test]
fn translated_key_reads_active_language() {
    let mut loc = Loc::new(Lang::English, sample_table());
    assert_eq!(loc.play(), "Play");
    loc.set(Lang::Portuguese);
    assert_eq!(loc.lang(), Lang::Portuguese);
    assert_eq!(loc.play(), "Jogar");
}

#[test]
fn missing_key_falls_back_to_key() {
    let loc = Loc::new(Lang::Arabic, sample_table());
    assert_eq!(loc.play(), "play");
    assert_eq!(loc.quit(), "quit");
    assert_eq!(loc.get("anything"), "anything");
    let empty = Loc::new(Lang::English, Translations::new());
    assert_eq!(empty.game_title(), "game_title");
    assert_eq!(empty.hud_controls(), "hud_controls");
}

#[test]
fn insert_overwrites_and_reads_back() {
    let mut t = sample_table();
    let n = t.len();
    t.insert("en", "play", "Start");
    assert_eq!(t.len(), n);
    assert_eq!(t.lookup("en", "play"), Some("Start"));
    assert_eq!(t.lookup("pt", "play"), Some("Jogar"));
    assert_eq!(t.lookup("ar", "play"), None);
    t.insert("ar", "play", "العب");
    assert_eq!(t.lookup("ar", "play"), Some("العب"));
    assert_eq!(t.len(), n + 1);
}

#[test]
fn hud_lines_format_label_and_number() {
    let mut loc = Loc::new(Lang::English, sample_table());
    assert_eq!(loc.fps(60), "FPS: 60");
    assert_eq!(loc.fps(0), "FPS: 0");
    assert_eq!(loc.squeezed(1234567), "Squeezed: 1234567");
    assert_eq!(loc.fps(u32::MAX), "FPS: 4294967295");
    loc.set(Lang::Portuguese);
    assert_eq!(loc.fps(7), "QPS: 7");
    assert_eq!(loc.squeezed(10), "squeezed_label: 10");
}

#[test]
fn every_getter_uses_its_own_key() {
    let loc = Loc::new(Lang::English, Translations::new());
    let pairs: Vec<(&str, &str)> = vec![
        (loc.game_title(), "game_title"),
        (loc.title_prompt(), "title_prompt"),
        (loc.play(), "play"),
        (loc.config(), "config"),
        (loc.instructions(), "instructions"),
        (loc.credits(), "credits"),
        (loc.quit(), "quit"),
        (loc.menu_hint(), "menu_hint"),
        (loc.back_hint(), "back_hint"),
        (loc.config_title(), "config_title"),
        (loc.instructions_title(), "instructions_title"),
        (loc.credits_title(), "credits_title"),
        (loc.fullscreen_key(), "fullscreen_key"),
        (loc.zoom_key(), "zoom_key"),
        (loc.config_placeholder(), "config_placeholder"),
        (loc.inst_move(), "inst_move"),
        (loc.inst_portals(), "inst_portals"),
        (loc.inst_zoom(), "inst_zoom"),
        (loc.inst_pause(), "inst_pause"),
        (loc.inst_objective(), "inst_objective"),
        (loc.inst_box(), "inst_box"),
        (loc.paused(), "paused"),
        (loc.defeat(), "defeat"),
        (loc.win(), "win"),
        (loc.pause_prompt(), "pause_prompt"),
        (loc.retry_prompt(), "retry_prompt"),
        (loc.play_again_prompt(), "play_again_prompt"),
        (loc.hud_controls(), "hud_controls"),
    ];
    for (got, key) in pairs {
        assert_eq!(got, key);
    }
}

#[test]
fn switched_localizer_reads_like_a_new_one() {
    let mut t = sample_table();
    t.insert("pt", "credits", "Créditos");
    let mut switched = Loc::new(Lang::English, t.clone());
    switched.set(Lang::Portuguese);
    let fresh = Loc::new(Lang::Portuguese, t.clone());
    assert_eq!(switched.lang(), Lang::Portuguese);
    assert_eq!(switched.play(), fresh.play());
    assert_eq!(switched.credits(), "Créditos");
    assert_eq!(fresh.credits(), "Créditos");
    let english = Loc::new(Lang::English, t);
    assert_eq!(english.credits(), "credits");
}
