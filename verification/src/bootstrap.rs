//! First-run bootstrap: the decision of what to create, the template
//! document that is written, and the fixed messages around the one
//! interactive read. The file system and the input stream themselves
//! stay with the caller; everything decided or rendered here is pure.

use vstd::prelude::*;
use vstd::string::*;

verus! {

/// What one startup pass has to create. Both choices depend only on
/// what already exists: nothing is created twice, and an existing
/// configuration file is never prompted for or rewritten.
#[derive(Debug, Clone, Copy, PartialEq, Eq, Structural)]
pub struct BootstrapPlan {
    pub create_trash_dir: bool,
    pub create_config_file: bool,
}

/// Decides the bootstrap work from what exists: create exactly what is
/// absent, touch nothing that is present.
pub fn plan_bootstrap(trash_dir_exists: bool, config_file_exists: bool) -> (p: BootstrapPlan)
    ensures
        p.create_trash_dir == !trash_dir_exists,
        p.create_config_file == !config_file_exists,
{
    BootstrapPlan {
        create_trash_dir: !trash_dir_exists,
        create_config_file: !config_file_exists,
    }
}

/// The template text before the chosen default command.
pub open spec fn spec_template_head() -> Seq<char> {
    "\n# Default exec command when open files.\ndefault = \""@
}

/// The template text after the chosen default command: the optional
/// keys as comments, and the three color defaults.
pub open spec fn spec_template_tail() -> Seq<char> {
    "\"\n\n# (Optional) Whether to use the full width of terminal.\n# If not set, this will be true.\n# use_full_width = true\n\n# (Optional) Set the max length of item name to be displayed.\n# This works only when use_full_width is set to false.\n# If the terminal size is not enough, the length will be changed to fit it.\n# If not set, this will be 30.\n# item_name_length = 30\n\n# (Optional)\n# key (the command you want to use) = [values] (extensions)\n# [exec]\n# feh = [\"jpg\", \"jpeg\", \"png\", \"gif\", \"svg\"]\n# zathura = [\"pdf\"]\n\n# The foreground color of directory, file and symlink.\n# Pick one of the following:\n#   AnsiValue(u8)\n#   Black\n#   Blue\n#   Cyan\n#   Green\n#   LightBlack\n#   LightBlue\n#   LightCyan\n#   LightGreen\n#   LightMagenta\n#   LightRed\n#   LightWhite\n#   LightYellow\n#   Magenta\n#   Red\n#   Rgb(u8, u8, u8)\n#   White\n#   Yellow\n# For more details, see https://docs.rs/termion/1.5.6/termion/color/index.html\n[color]\ndir_fg = \"LightCyan\"\nfile_fg = \"LightWhite\"\nsymlink_fg = \"LightYellow\"\n"@
}

/// The whole document bootstrap writes: the template with the chosen
/// command in the `default` slot and everything else untouched.
pub open spec fn spec_rendered_document(cmd: Seq<char>) -> Seq<char> {
    spec_template_head() + cmd + spec_template_tail()
}

fn template_head() -> (r: &'static str)
    ensures
        r@ == spec_template_head(),
{
    "\n# Default exec command when open files.\ndefault = \""
}

fn template_tail() -> (r: &'static str)
    ensures
        r@ == spec_template_tail(),
{
    "\"\n\n# (Optional) Whether to use the full width of terminal.\n# If not set, this will be true.\n# use_full_width = true\n\n# (Optional) Set the max length of item name to be displayed.\n# This works only when use_full_width is set to false.\n# If the terminal size is not enough, the length will be changed to fit it.\n# If not set, this will be 30.\n# item_name_length = 30\n\n# (Optional)\n# key (the command you want to use) = [values] (extensions)\n# [exec]\n# feh = [\"jpg\", \"jpeg\", \"png\", \"gif\", \"svg\"]\n# zathura = [\"pdf\"]\n\n# The foreground color of directory, file and symlink.\n# Pick one of the following:\n#   AnsiValue(u8)\n#   Black\n#   Blue\n#   Cyan\n#   Green\n#   LightBlack\n#   LightBlue\n#   LightCyan\n#   LightGreen\n#   LightMagenta\n#   LightRed\n#   LightWhite\n#   LightYellow\n#   Magenta\n#   Red\n#   Rgb(u8, u8, u8)\n#   White\n#   Yellow\n# For more details, see https://docs.rs/termion/1.5.6/termion/color/index.html\n[color]\ndir_fg = \"LightCyan\"\nfile_fg = \"LightWhite\"\nsymlink_fg = \"LightYellow\"\n"
}

/// Renders the document for a freshly chosen default command: the
/// trimmed command is substituted verbatim, the rest of the template —
/// comments and color defaults — is left untouched.
pub fn render_config_document(cmd: &str) -> (r: String)
    ensures
        r@ == spec_rendered_document(cmd@),
{
    let mut s = String::new();
    s.append(template_head());
    s.append(cmd);
    s.append(template_tail());
    proof {
        assert(s@ =~= spec_rendered_document(cmd@));
    }
    s
}

/// The fixed instructional line printed before the one interactive
/// read of a first run.
pub open spec fn spec_prompt_message() -> Seq<char> {
    "Config file not found: To set up, Please enter the default command to open a file. (e.g. nvim)"@
}

pub fn prompt_message() -> (r: &'static str)
    ensures
        r@ == spec_prompt_message(),
{
    "Config file not found: To set up, Please enter the default command to open a file. (e.g. nvim)"
}

/// The confirmation printed after the file is written: the chosen
/// command, then a path hint that differs between macOS and every
/// other platform.
pub open spec fn spec_confirmation_message(cmd: Seq<char>, macos: bool) -> Seq<char> {
    "Default command set as ["@ + cmd + "].\nSee "@ + (if macos {
        "~/Library/Application Support/felix/config.toml"@
    } else {
        "~/.config/felix/config.toml"@
    })
}

pub fn confirmation_message(cmd: &str, macos: bool) -> (r: String)
    ensures
        r@ == spec_confirmation_message(cmd@, macos),
{
    let mut s = String::new();
    s.append("Default command set as [");
    s.append(cmd);
    s.append("].\nSee ");
    if macos {
        s.append("~/Library/Application Support/felix/config.toml");
    } else {
        s.append("~/.config/felix/config.toml");
    }
    proof {
        assert(s@ =~= spec_confirmation_message(cmd@, macos));
    }
    s
}

} // verus!
