use felix_config::bootstrap::{
    confirmation_message, plan_bootstrap, prompt_message, render_config_document,
};
use felix_config::config::{parse_config, Colorname};

#[test]
fn rendered_document_carries_the_chosen_command() {
    let doc = render_config_document("vim");
    let c = parse_config(&doc).expect("the rendered document must parse");
    assert_eq!(c.default, "vim");
}

#[test]
fn rendered_color_section_matches_the_template() {
    let chosen = parse_config(&render_config_document("vim")).expect("parses");
    let template = parse_config(&render_config_document("nvim")).expect("parses");
    assert_eq!(chosen.color, template.color);
    assert_eq!(chosen.color.dir_fg, Colorname::LightCyan);
    assert_eq!(chosen.color.file_fg, Colorname::LightWhite);
    assert_eq!(chosen.color.symlink_fg, Colorname::LightYellow);
    assert!(chosen.exec_map.is_none());
    assert!(chosen.use_full_width.is_none());
    assert!(chosen.item_name_length.is_none());
    assert!(chosen.command_mode_bottom.is_none());
}

#[test]
fn substitution_only_touches_the_default_slot() {
    let a = render_config_document("vim");
    let b = render_config_document("emacs");
    assert_eq!(a.replace("vim", "emacs"), b);
}

#[test]
fn existing_file_means_no_prompt_and_no_write() {
    let p = plan_bootstrap(true, true);
    assert!(!p.create_trash_dir);
    assert!(!p.create_config_file);
    let p = plan_bootstrap(false, true);
    assert!(p.create_trash_dir);
    assert!(!p.create_config_file);
}

#[test]
fn absent_pieces_are_created_and_a_second_pass_is_a_no_op() {
    let first = plan_bootstrap(false, false);
    assert!(first.create_trash_dir);
    assert!(first.create_config_file);
    let second = plan_bootstrap(true, true);
    assert!(!second.create_trash_dir);
    assert!(!second.create_config_file);
}

#[test]
fn prompt_line_is_fixed() {
    assert_eq!(
        prompt_message(),
        "Config file not found: To set up, Please enter the default command to open a file. (e.g. nvim)"
    );
}

#[test]
fn confirmation_names_the_command_and_the_platform_path() {
    assert_eq!(
        confirmation_message("vim", false),
        "Default command set as [vim].\nSee ~/.config/felix/config.toml"
    );
    assert_eq!(
        confirmation_message("vim", true),
        "Default command set as [vim].\nSee ~/Library/Application Support/felix/config.toml"
    );
}
