use sw_galaxy_map::color::Colors;
use sw_galaxy_map::explain::fp3_text;
use sw_galaxy_map::help::HelpTopic;
use sw_galaxy_map::normalize::normalize_text;
use sw_galaxy_map::router::RouteOptions;
use sw_galaxy_map::store::{count_text, i64_text, options_json_text};
use sw_galaxy_map::textutil::{
    cell, col_width, col_width_from_strs, fandom_planet_url, opt_str, truncate_ellipsis,
};
use sw_galaxy_map::ui::{styled_line, Level, Style};
use sw_galaxy_map::validate::{
    validate_limit, validate_route_compute, validate_route_id, validate_search,
};

#[test]
fn normalize_text_folds_case_diacritics_and_punctuation() {
    assert_eq!(normalize_text("  Héllo,  World!! 42 "), "hello world 42");
    assert_eq!(normalize_text("Kessel"), "kessel");
    assert_eq!(normalize_text("___"), "");
    assert_eq!(normalize_text(""), "");
    assert_eq!(normalize_text("D'Qar"), "d qar");
}

#[test]
fn normalize_text_is_idempotent() {
    for input in ["  Héllo,  World!! 42 ", "Kessel", "D'Qar", "", "a  -  b"] {
        let once = normalize_text(input);
        assert_eq!(normalize_text(&once), once);
    }
}

#[test]
fn integer_and_fixed_point_rendering() {
    assert_eq!(i64_text(0), "0");
    assert_eq!(i64_text(-45), "-45");
    assert_eq!(count_text(120), "120");
    // fixed point: 12344 units is 1.2344 parsec, printed with three decimals
    // rounded half away from zero
    assert_eq!(fp3_text(12_344), "1.234");
    assert_eq!(fp3_text(12_345), "1.235");
    assert_eq!(fp3_text(12_346), "1.235");
    assert_eq!(fp3_text(-500), "-0.050");
    assert_eq!(fp3_text(0), "0.000");
    assert_eq!(fp3_text(100_000), "10.000");
}

#[test]
fn options_render_canonically() {
    let o = RouteOptions::default();
    assert_eq!(
        options_json_text(&o),
        "{\"clearance\":2000,\"max_iters\":32,\"max_offset_tries\":6,\"offset_growth\":14000,\"turn_weight\":8000,\"back_weight\":30000,\"proximity_weight\":15000,\"proximity_margin\":5000}"
    );
}

#[test]
fn truncation_keeps_width() {
    assert_eq!(truncate_ellipsis("Alderaan", 20), "Alderaan");
    assert_eq!(truncate_ellipsis("Alderaan", 4), "Ald…");
    assert_eq!(truncate_ellipsis("Alderaan", 1), "…");
    assert_eq!(truncate_ellipsis("Alderaan", 0), "");
}

#[test]
fn column_widths_fit_content() {
    let items = vec!["id".to_string(), "Coruscant".to_string()];
    assert_eq!(col_width(&items, 4), 9);
    assert_eq!(col_width(&items, 12), 12);
    assert_eq!(col_width_from_strs(&["a", "bb"], 1), 2);
    assert_eq!(col_width_from_strs(&[], 3), 3);
}

#[test]
fn cells_fall_back_to_dash() {
    assert_eq!(cell(&Some("Hosnian Prime".to_string())), "Hosnian Prime");
    assert_eq!(cell(&Some("   ".to_string())), "-");
    assert_eq!(cell(&None), "-");
    assert_eq!(opt_str(Some("x")), "x");
    assert_eq!(opt_str(None), "-");
}

#[test]
fn wiki_urls_capitalize_words() {
    assert_eq!(
        fandom_planet_url("kessel"),
        "https://starwars.fandom.com/wiki/Kessel"
    );
    assert_eq!(
        fandom_planet_url("hosnian  prime"),
        "https://starwars.fandom.com/wiki/Hosnian_Prime"
    );
    assert_eq!(fandom_planet_url(""), "https://starwars.fandom.com/wiki/");
    // first letters uppercase per Unicode, not only ASCII
    assert_eq!(
        fandom_planet_url("ésperon"),
        "https://starwars.fandom.com/wiki/Ésperon"
    );
    // Unicode whitespace separates words too
    assert_eq!(
        fandom_planet_url("mon\u{a0}cala"),
        "https://starwars.fandom.com/wiki/Mon_Cala"
    );
}

#[test]
fn colors_wrap_only_when_enabled() {
    let on = Colors { enabled: true };
    let off = Colors { enabled: false };
    assert_eq!(on.ok("ok"), "\u{1b}[32mok\u{1b}[39m");
    assert_eq!(off.ok("ok"), "ok");
    assert_eq!(on.err("bad"), "\u{1b}[31mbad\u{1b}[39m");
    assert_eq!(on.warn("w"), "\u{1b}[33mw\u{1b}[39m");
    assert_eq!(on.info("i"), "\u{1b}[36mi\u{1b}[39m");
    assert_eq!(on.dim("d"), "\u{1b}[90md\u{1b}[39m");
    assert_eq!(on.from_name("a"), on.err("a"));
    assert_eq!(on.to_name("b"), on.ok("b"));
    assert_eq!(on.label_start("s"), on.err("s"));
    assert_eq!(on.label_end("e"), on.ok("e"));
    assert_eq!(on.label_detour("d"), on.warn("d"));
    assert_eq!(on.obstacle("o"), on.err("o"));
    assert_eq!(on.waypoint("w"), on.warn("w"));
    assert_eq!(on.violated("v"), on.err("v"));
    assert_eq!(on.tries(true, "t"), on.err("t"));
    assert_eq!(on.tries(false, "t"), on.ok("t"));
    assert_eq!(on.driver_line("constraint: x"), on.err("constraint: x"));
    assert_eq!(on.driver_line("limit: x"), on.err("limit: x"));
    assert_eq!(on.driver_line("cost: x"), on.warn("cost: x"));
    assert_eq!(on.driver_line("note"), "note");
    assert_eq!(on.score_total_by_ratio(50, "t"), on.ok("t"));
    assert_eq!(on.score_total_by_ratio(300, "t"), on.warn("t"));
    assert_eq!(on.score_total_by_ratio(700, "t"), on.err("t"));
    assert_eq!(on.magnitude(100, "m"), on.ok("m"));
    assert_eq!(on.magnitude(5_000, "m"), on.warn("m"));
    assert_eq!(on.magnitude(50_000, "m"), on.err("m"));
    assert_eq!(on.by_thresholds(5, Some(10), Some(20), "v"), on.ok("v"));
    assert_eq!(on.by_thresholds(15, Some(10), Some(20), "v"), on.warn("v"));
    assert_eq!(on.by_thresholds(25, Some(10), Some(20), "v"), on.err("v"));
    assert_eq!(on.by_thresholds(25, None, Some(20), "v"), "v");
}

#[test]
fn styled_lines_carry_prefix_and_color() {
    let plain = Style {
        emoji: false,
        color: false,
    };
    assert_eq!(styled_line(Level::Info, "hello", plain), "hello");
    let emoji = Style {
        emoji: true,
        color: false,
    };
    assert_eq!(styled_line(Level::Success, "done", emoji), "\u{2705} done");
    let colored = Style {
        emoji: false,
        color: true,
    };
    assert_eq!(
        styled_line(Level::Error, "boom", colored),
        "\u{1b}[31mboom\u{1b}[0m"
    );
    assert_eq!(styled_line(Level::Info, "fyi", colored), "fyi");
}

#[test]
fn validators_accept_and_reject() {
    assert!(validate_search("sw", 5).is_ok());
    assert_eq!(
        validate_search("   ", 5).unwrap_err(),
        "Search query cannot be empty."
    );
    assert_eq!(validate_search("sw", 0).unwrap_err(), "--limit must be > 0.");
    assert!(validate_route_id(3, "show").is_ok());
    assert_eq!(
        validate_route_id(0, "show").unwrap_err(),
        "Invalid route id for show: 0 (must be > 0)"
    );
    assert!(validate_route_compute("Coruscant", "Kessel").is_ok());
    assert_eq!(
        validate_route_compute("", "Kessel").unwrap_err(),
        "FROM and TO must be non-empty"
    );
    assert_eq!(
        validate_route_compute(" kessel ", "KESSEL").unwrap_err(),
        "FROM and TO must be different"
    );
    assert!(validate_limit(10, "near").is_ok());
    assert_eq!(
        validate_limit(-2, "near").unwrap_err(),
        "Invalid limit for near: -2 (must be > 0)"
    );
}

#[test]
fn help_topics_know_their_argv() {
    assert_eq!(HelpTopic::General.label(), "General");
    assert_eq!(HelpTopic::Route.label(), "route");
    assert_eq!(HelpTopic::General.argv(), vec!["--help".to_string()]);
    assert_eq!(
        HelpTopic::Waypoint.argv(),
        vec!["waypoint".to_string(), "--help".to_string()]
    );
}
