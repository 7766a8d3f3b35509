use felix_config::colors::{fg_code, resolve_color, TermColor};
use felix_config::config::{
    color_value_of, parse_colorname, parse_config, Colorname, ConfigParseError, Field, FxError,
};
use felix_config::paths::resolve_paths;

fn doc_with_colors(dir: &str, file: &str, symlink: &str) -> String {
    format!(
        "default = \"nvim\"\n[color]\ndir_fg = {}\nfile_fg = {}\nsymlink_fg = {}\n",
        dir, file, symlink
    )
}

fn parse_dir_color(dir: &str) -> Colorname {
    let doc = doc_with_colors(dir, "\"LightWhite\"", "\"LightYellow\"");
    parse_config(&doc).expect("document should parse").color.dir_fg
}

#[test]
fn minimal_document_parses_exactly() {
    let doc = "default = \"nvim\"\n[color]\ndir_fg = \"LightCyan\"\nfile_fg = \"LightWhite\"\nsymlink_fg = \"LightYellow\"\n";
    let c = parse_config(doc).expect("document should parse");
    assert_eq!(c.default, "nvim");
    assert!(c.exec_map.is_none());
    assert_eq!(c.color.dir_fg, Colorname::LightCyan);
    assert_eq!(c.color.file_fg, Colorname::LightWhite);
    assert_eq!(c.color.symlink_fg, Colorname::LightYellow);
    assert!(c.use_full_width.is_none());
    assert!(c.item_name_length.is_none());
    assert!(c.command_mode_bottom.is_none());
}

#[test]
fn every_named_color_round_trips() {
    let names = [
        ("\"Black\"", Colorname::Black),
        ("\"Blue\"", Colorname::Blue),
        ("\"Cyan\"", Colorname::Cyan),
        ("\"Green\"", Colorname::Green),
        ("\"LightBlack\"", Colorname::LightBlack),
        ("\"LightBlue\"", Colorname::LightBlue),
        ("\"LightCyan\"", Colorname::LightCyan),
        ("\"LightGreen\"", Colorname::LightGreen),
        ("\"LightMagenta\"", Colorname::LightMagenta),
        ("\"LightRed\"", Colorname::LightRed),
        ("\"LightWhite\"", Colorname::LightWhite),
        ("\"LightYellow\"", Colorname::LightYellow),
        ("\"Magenta\"", Colorname::Magenta),
        ("\"Red\"", Colorname::Red),
        ("\"White\"", Colorname::White),
        ("\"Yellow\"", Colorname::Yellow),
    ];
    for (text, expected) in names {
        assert_eq!(parse_dir_color(text), expected, "for document form {}", text);
    }
}

#[test]
fn ansi_value_round_trips_with_boundaries() {
    assert_eq!(parse_dir_color("{ AnsiValue = 8 }"), Colorname::AnsiValue(8));
    assert_eq!(parse_dir_color("{ AnsiValue = 0 }"), Colorname::AnsiValue(0));
    assert_eq!(parse_dir_color("{ AnsiValue = 255 }"), Colorname::AnsiValue(255));
}

#[test]
fn rgb_round_trips_with_boundaries() {
    assert_eq!(parse_dir_color("{ Rgb = [10, 20, 30] }"), Colorname::Rgb(10, 20, 30));
    assert_eq!(parse_dir_color("{ Rgb = [0, 0, 0] }"), Colorname::Rgb(0, 0, 0));
    assert_eq!(parse_dir_color("{ Rgb = [255, 255, 255] }"), Colorname::Rgb(255, 255, 255));
}

#[test]
fn parse_then_resolve_keeps_the_payload() {
    let c = parse_dir_color("{ Rgb = [10, 20, 30] }");
    assert_eq!(resolve_color(&c), TermColor::Rgb(10, 20, 30));
    let c = parse_dir_color("{ AnsiValue = 5 }");
    assert_eq!(resolve_color(&c), TermColor::Palette(5));
    let c = parse_dir_color("\"LightCyan\"");
    assert_eq!(resolve_color(&c), TermColor::Base(96));
}

#[test]
fn document_form_of_every_color_parses_back() {
    let all = [
        Colorname::AnsiValue(0),
        Colorname::AnsiValue(255),
        Colorname::Black,
        Colorname::Blue,
        Colorname::Cyan,
        Colorname::Green,
        Colorname::LightBlack,
        Colorname::LightBlue,
        Colorname::LightCyan,
        Colorname::LightGreen,
        Colorname::LightMagenta,
        Colorname::LightRed,
        Colorname::LightWhite,
        Colorname::LightYellow,
        Colorname::Magenta,
        Colorname::Red,
        Colorname::Rgb(0, 128, 255),
        Colorname::White,
        Colorname::Yellow,
    ];
    for c in all {
        let v = color_value_of(&c);
        assert_eq!(parse_colorname(&v).expect("round trip should parse"), c);
    }
}

#[test]
fn missing_symlink_fg_identifies_the_field() {
    let doc = "default = \"nvim\"\n[color]\ndir_fg = \"LightCyan\"\nfile_fg = \"LightWhite\"\n";
    let e = parse_config(doc).expect_err("a required key is missing");
    assert_eq!(e, ConfigParseError::Missing(Field::SymlinkFg));
    assert_eq!(e.message(), "missing required key: color.symlink_fg");
}

#[test]
fn missing_default_identifies_the_field() {
    let doc = "[color]\ndir_fg = \"LightCyan\"\nfile_fg = \"LightWhite\"\nsymlink_fg = \"LightYellow\"\n";
    let e = parse_config(doc).expect_err("a required key is missing");
    assert_eq!(e, ConfigParseError::Missing(Field::DefaultCmd));
}

#[test]
fn missing_color_table_identifies_the_field() {
    let e = parse_config("default = \"nvim\"\n").expect_err("the color table is required");
    assert_eq!(e, ConfigParseError::Missing(Field::ColorTable));
}

#[test]
fn wrong_type_for_default_is_reported() {
    let doc = "default = 3\n[color]\ndir_fg = \"LightCyan\"\nfile_fg = \"LightWhite\"\nsymlink_fg = \"LightYellow\"\n";
    let e = parse_config(doc).expect_err("default must be a string");
    assert_eq!(e, ConfigParseError::WrongType(Field::DefaultCmd));
}

#[test]
fn unknown_color_name_is_reported_with_its_spelling() {
    let doc = doc_with_colors("\"Gray\"", "\"LightWhite\"", "\"LightYellow\"");
    let e = parse_config(&doc).expect_err("Gray names no color");
    assert_eq!(e, ConfigParseError::UnknownColorName(Field::DirFg, "Gray".to_string()));
    assert_eq!(e.message(), "unknown color name for key color.dir_fg: Gray");
}

#[test]
fn rgb_with_wrong_arity_is_reported() {
    let doc = doc_with_colors("{ Rgb = [1, 2] }", "\"LightWhite\"", "\"LightYellow\"");
    let e = parse_config(&doc).expect_err("an RGB payload needs three components");
    assert_eq!(e, ConfigParseError::BadColorPayload(Field::DirFg));
}

#[test]
fn out_of_range_components_are_reported() {
    let doc = doc_with_colors("{ AnsiValue = 256 }", "\"LightWhite\"", "\"LightYellow\"");
    let e = parse_config(&doc).expect_err("256 does not fit a byte");
    assert_eq!(e, ConfigParseError::NumberOutOfRange(Field::DirFg));
    let doc = doc_with_colors("{ Rgb = [0, 0, 300] }", "\"LightWhite\"", "\"LightYellow\"");
    let e = parse_config(&doc).expect_err("300 does not fit a byte");
    assert_eq!(e, ConfigParseError::NumberOutOfRange(Field::DirFg));
}

#[test]
fn malformed_text_is_a_syntax_error() {
    let e = parse_config("this is = not [ toml").expect_err("not a TOML document");
    assert!(matches!(e, ConfigParseError::Syntax(_)));
}

#[test]
fn optional_fields_are_read_when_present() {
    let doc = "default = \"nvim\"\nuse_full_width = false\nitem_name_length = 30\ncommand_mode_bottom = true\n[color]\ndir_fg = \"LightCyan\"\nfile_fg = \"LightWhite\"\nsymlink_fg = \"LightYellow\"\n";
    let c = parse_config(doc).expect("document should parse");
    assert_eq!(c.use_full_width, Some(false));
    assert_eq!(c.item_name_length, Some(30));
    assert_eq!(c.command_mode_bottom, Some(true));
}

#[test]
fn exec_table_is_read_as_pairs() {
    let doc = "default = \"nvim\"\n[exec]\nfeh = [\"jpg\", \"png\"]\nzathura = [\"pdf\"]\n[color]\ndir_fg = \"LightCyan\"\nfile_fg = \"LightWhite\"\nsymlink_fg = \"LightYellow\"\n";
    let c = parse_config(doc).expect("document should parse");
    let exec = c.exec_map.expect("the exec table is present");
    assert_eq!(exec.len(), 2);
    assert_eq!(exec[0].0, "feh");
    assert_eq!(exec[0].1, vec!["jpg".to_string(), "png".to_string()]);
    assert_eq!(exec[1].0, "zathura");
    assert_eq!(exec[1].1, vec!["pdf".to_string()]);
}

#[test]
fn exec_values_must_be_string_arrays() {
    let doc = "default = \"nvim\"\n[exec]\nfeh = \"jpg\"\n[color]\ndir_fg = \"LightCyan\"\nfile_fg = \"LightWhite\"\nsymlink_fg = \"LightYellow\"\n";
    let e = parse_config(doc).expect_err("exec values must be arrays of strings");
    assert_eq!(e, ConfigParseError::WrongType(Field::Exec));
}

#[test]
fn negative_item_name_length_is_out_of_range() {
    let doc = "default = \"nvim\"\nitem_name_length = -1\n[color]\ndir_fg = \"LightCyan\"\nfile_fg = \"LightWhite\"\nsymlink_fg = \"LightYellow\"\n";
    let e = parse_config(doc).expect_err("a length cannot be negative");
    assert_eq!(e, ConfigParseError::NumberOutOfRange(Field::ItemNameLength));
}

#[test]
fn fractional_item_name_length_is_wrong_type() {
    let doc = "default = \"nvim\"\nitem_name_length = 3.5\n[color]\ndir_fg = \"LightCyan\"\nfile_fg = \"LightWhite\"\nsymlink_fg = \"LightYellow\"\n";
    let e = parse_config(doc).expect_err("a length must be an integer");
    assert_eq!(e, ConfigParseError::WrongType(Field::ItemNameLength));
}

#[test]
fn escape_sequences_are_rendered_exactly() {
    assert_eq!(fg_code(&resolve_color(&Colorname::Cyan)), "\u{1b}[36m");
    assert_eq!(fg_code(&resolve_color(&Colorname::Black)), "\u{1b}[30m");
    assert_eq!(fg_code(&resolve_color(&Colorname::LightWhite)), "\u{1b}[97m");
    assert_eq!(fg_code(&resolve_color(&Colorname::AnsiValue(0))), "\u{1b}[38;5;0m");
    assert_eq!(fg_code(&resolve_color(&Colorname::AnsiValue(255))), "\u{1b}[38;5;255m");
    assert_eq!(fg_code(&resolve_color(&Colorname::Rgb(10, 20, 30))), "\u{1b}[38;2;10;20;30m");
}

#[test]
fn paths_are_resolved_under_the_root() {
    let p = resolve_paths(Some("/home/u/.config".to_string())).expect("a root was given");
    assert_eq!(p.config_file, "/home/u/.config/felix/config.toml");
    assert_eq!(p.trash_dir, "/home/u/.config/felix/trash");
}

#[test]
fn missing_root_is_an_environment_error() {
    let e = resolve_paths(None).expect_err("no root exists");
    assert_eq!(e, FxError::Environment);
    assert_eq!(e.message(), "Cannot determine the platform's configuration directory.");
}
