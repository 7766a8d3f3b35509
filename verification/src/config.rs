//! The configuration entities and the parser that reads them out of a
//! TOML document: `default` and the three colors are required, every
//! other key is optional and left unset rather than defaulted.

use vstd::prelude::*;
use vstd::string::*;
use crate::value::{TomlValue, spec_lookup, lookup, toml_doc_of, parse_toml_text};

verus! {

/// A display color: one of fifteen named terminal colors, an 8-bit
/// palette index, or an RGB triple. Every representable value is valid;
/// the payload bytes carry the whole 0-255 domain.
#[derive(Debug, Clone, Copy, PartialEq, Eq, Structural)]
pub enum Colorname {
    AnsiValue(u8),
    Black,
    Blue,
    Cyan,
    Green,
    LightBlack,
    LightBlue,
    LightCyan,
    LightGreen,
    LightMagenta,
    LightRed,
    LightWhite,
    LightYellow,
    Magenta,
    Red,
    Rgb(u8, u8, u8),
    White,
    Yellow,
}

/// The three required foreground colors.
#[derive(Debug, Clone, Copy, PartialEq, Eq, Structural)]
pub struct Color {
    pub dir_fg: Colorname,
    pub file_fg: Colorname,
    pub symlink_fg: Colorname,
}

/// The resolved configuration snapshot. `exec_map` holds the
/// document's `exec` table — command name to the extensions it opens —
/// as a list of pairs, in the order the document's table hands them
/// over, with the table's pairwise distinct keys.
#[derive(Debug, Clone, PartialEq)]
pub struct Config {
    pub default: String,
    pub exec_map: Option<Vec<(String, Vec<String>)>>,
    pub color: Color,
    pub use_full_width: Option<bool>,
    pub item_name_length: Option<usize>,
    pub command_mode_bottom: Option<bool>,
}

/// A key of the configuration schema, used to say which field an error
/// is about. `Root` stands for the document itself.
#[derive(Debug, Clone, Copy, PartialEq, Eq, Structural)]
pub enum Field {
    Root,
    DefaultCmd,
    Exec,
    ColorTable,
    DirFg,
    FileFg,
    SymlinkFg,
    UseFullWidth,
    ItemNameLength,
    CommandModeBottom,
}

/// The recoverable failure of reading a configuration document: the
/// text is not TOML at all, or a required key is missing, or a key
/// holds the wrong kind of value, or a color is malformed.
#[derive(Debug, Clone, PartialEq)]
pub enum ConfigParseError {
    /// The text is not well-formed TOML; carries the reader's message.
    Syntax(String),
    Missing(Field),
    WrongType(Field),
    UnknownColorName(Field, String),
    BadColorPayload(Field),
    NumberOutOfRange(Field),
}

/// The errors of the whole subsystem. `Environment` and `BootstrapIo`
/// are fatal to the process; `Parse` is returned to the caller.
#[derive(Debug, Clone, PartialEq)]
pub enum FxError {
    Environment,
    BootstrapIo,
    Parse(ConfigParseError),
}

/// The mathematical shape of a `Config`: strings as character
/// sequences, lists as sequences.
#[verifier::ext_equal]
pub struct ConfigV {
    pub default: Seq<char>,
    pub exec_map: Option<Seq<(Seq<char>, Seq<Seq<char>>)>>,
    pub color: Color,
    pub use_full_width: Option<bool>,
    pub item_name_length: Option<usize>,
    pub command_mode_bottom: Option<bool>,
}

pub open spec fn spec_exec_pair_view(p: (String, Vec<String>)) -> (Seq<char>, Seq<Seq<char>>) {
    (p.0@, p.1.deep_view())
}

pub open spec fn spec_exec_view(v: Vec<(String, Vec<String>)>) -> Seq<(Seq<char>, Seq<Seq<char>>)> {
    v@.map_values(|p: (String, Vec<String>)| spec_exec_pair_view(p))
}

impl View for Config {
    type V = ConfigV;

    open spec fn view(&self) -> ConfigV {
        ConfigV {
            default: self.default@,
            exec_map: match self.exec_map {
                Some(v) => Some(spec_exec_view(v)),
                None => None,
            },
            color: self.color,
            use_full_width: self.use_full_width,
            item_name_length: self.item_name_length,
            command_mode_bottom: self.command_mode_bottom,
        }
    }
}

/// Why a value could not be read as a `Colorname`: it is not a string
/// or a table, its spelling names no variant, its payload has the wrong
/// shape, or a numeric component falls outside 0-255.
#[derive(Debug, Clone, PartialEq)]
pub enum ColorIssue {
    WrongKind,
    Unknown(String),
    Payload,
    Range,
}

/// The variant a bare color name denotes, if any. The two carrying
/// variants are not reachable this way: they need a payload.
pub open spec fn spec_named_color(s: Seq<char>) -> Option<Colorname> {
    if s == "Black"@ {
        Some(Colorname::Black)
    } else if s == "Blue"@ {
        Some(Colorname::Blue)
    } else if s == "Cyan"@ {
        Some(Colorname::Cyan)
    } else if s == "Green"@ {
        Some(Colorname::Green)
    } else if s == "LightBlack"@ {
        Some(Colorname::LightBlack)
    } else if s == "LightBlue"@ {
        Some(Colorname::LightBlue)
    } else if s == "LightCyan"@ {
        Some(Colorname::LightCyan)
    } else if s == "LightGreen"@ {
        Some(Colorname::LightGreen)
    } else if s == "LightMagenta"@ {
        Some(Colorname::LightMagenta)
    } else if s == "LightRed"@ {
        Some(Colorname::LightRed)
    } else if s == "LightWhite"@ {
        Some(Colorname::LightWhite)
    } else if s == "LightYellow"@ {
        Some(Colorname::LightYellow)
    } else if s == "Magenta"@ {
        Some(Colorname::Magenta)
    } else if s == "Red"@ {
        Some(Colorname::Red)
    } else if s == "White"@ {
        Some(Colorname::White)
    } else if s == "Yellow"@ {
        Some(Colorname::Yellow)
    } else {
        None
    }
}

/// An RGB payload: exactly three integers, each within 0-255.
pub open spec fn spec_rgb_color(items: Seq<TomlValue>) -> Result<Colorname, ColorIssue> {
    if items.len() != 3 {
        Err(ColorIssue::Payload)
    } else {
        match (items[0], items[1], items[2]) {
            (TomlValue::Int(a), TomlValue::Int(b), TomlValue::Int(c)) => {
                if 0 <= a <= 255 && 0 <= b <= 255 && 0 <= c <= 255 {
                    Ok(Colorname::Rgb(a as u8, b as u8, c as u8))
                } else {
                    Err(ColorIssue::Range)
                }
            },
            _ => Err(ColorIssue::Payload),
        }
    }
}

/// How a TOML value reads as a `Colorname`: a bare string for the named
/// colors, or a one-entry table `AnsiValue = n` / `Rgb = [r, g, b]` for
/// the carrying variants.
pub open spec fn spec_colorname(v: TomlValue) -> Result<Colorname, ColorIssue> {
    match v {
        TomlValue::Str(s) => match spec_named_color(s@) {
            Some(c) => Ok(c),
            None => {
                if s@ == "AnsiValue"@ || s@ == "Rgb"@ {
                    Err(ColorIssue::Payload)
                } else {
                    Err(ColorIssue::Unknown(s))
                }
            },
        },
        TomlValue::Table(entries) => {
            if entries@.len() != 1 {
                Err(ColorIssue::Payload)
            } else {
                let k = entries@[0].0;
                let val = entries@[0].1;
                if k@ == "AnsiValue"@ {
                    match val {
                        TomlValue::Int(i) => {
                            if 0 <= i <= 255 {
                                Ok(Colorname::AnsiValue(i as u8))
                            } else {
                                Err(ColorIssue::Range)
                            }
                        },
                        _ => Err(ColorIssue::Payload),
                    }
                } else if k@ == "Rgb"@ {
                    match val {
                        TomlValue::Arr(items) => spec_rgb_color(items@),
                        _ => Err(ColorIssue::Payload),
                    }
                } else if spec_named_color(k@) is Some {
                    Err(ColorIssue::Payload)
                } else {
                    Err(ColorIssue::Unknown(k))
                }
            }
        },
        _ => Err(ColorIssue::WrongKind),
    }
}

/// Whether `s` reads as `lit`.
fn str_eq_lit(s: &String, lit: &str) -> (r: bool)
    ensures
        r == (s@ == lit@),
{
    *s == lit.to_owned()
}

/// The named color `s` denotes, as `spec_named_color` reads it.
fn named_color(s: &String) -> (r: Option<Colorname>)
    ensures
        r == spec_named_color(s@),
{
    if str_eq_lit(s, "Black") {
        Some(Colorname::Black)
    } else if str_eq_lit(s, "Blue") {
        Some(Colorname::Blue)
    } else if str_eq_lit(s, "Cyan") {
        Some(Colorname::Cyan)
    } else if str_eq_lit(s, "Green") {
        Some(Colorname::Green)
    } else if str_eq_lit(s, "LightBlack") {
        Some(Colorname::LightBlack)
    } else if str_eq_lit(s, "LightBlue") {
        Some(Colorname::LightBlue)
    } else if str_eq_lit(s, "LightCyan") {
        Some(Colorname::LightCyan)
    } else if str_eq_lit(s, "LightGreen") {
        Some(Colorname::LightGreen)
    } else if str_eq_lit(s, "LightMagenta") {
        Some(Colorname::LightMagenta)
    } else if str_eq_lit(s, "LightRed") {
        Some(Colorname::LightRed)
    } else if str_eq_lit(s, "LightWhite") {
        Some(Colorname::LightWhite)
    } else if str_eq_lit(s, "LightYellow") {
        Some(Colorname::LightYellow)
    } else if str_eq_lit(s, "Magenta") {
        Some(Colorname::Magenta)
    } else if str_eq_lit(s, "Red") {
        Some(Colorname::Red)
    } else if str_eq_lit(s, "White") {
        Some(Colorname::White)
    } else if str_eq_lit(s, "Yellow") {
        Some(Colorname::Yellow)
    } else {
        None
    }
}

/// Reads an RGB payload, as `spec_rgb_color` does.
fn rgb_color(items: &Vec<TomlValue>) -> (r: Result<Colorname, ColorIssue>)
    ensures
        r == spec_rgb_color(items@),
{
    if items.len() != 3 {
        Err(ColorIssue::Payload)
    } else {
        match (&items[0], &items[1], &items[2]) {
            (TomlValue::Int(a), TomlValue::Int(b), TomlValue::Int(c)) => {
                if 0 <= *a && *a <= 255 && 0 <= *b && *b <= 255 && 0 <= *c && *c <= 255 {
                    Ok(Colorname::Rgb(*a as u8, *b as u8, *c as u8))
                } else {
                    Err(ColorIssue::Range)
                }
            },
            _ => Err(ColorIssue::Payload),
        }
    }
}

/// Reads one TOML value as a `Colorname`, as `spec_colorname` does.
pub fn parse_colorname(v: &TomlValue) -> (r: Result<Colorname, ColorIssue>)
    ensures
        r == spec_colorname(*v),
{
    match v {
        TomlValue::Str(s) => match named_color(s) {
            Some(c) => Ok(c),
            None => {
                if str_eq_lit(s, "AnsiValue") || str_eq_lit(s, "Rgb") {
                    Err(ColorIssue::Payload)
                } else {
                    Err(ColorIssue::Unknown(s.clone()))
                }
            },
        },
        TomlValue::Table(entries) => {
            if entries.len() != 1 {
                Err(ColorIssue::Payload)
            } else {
                let k = &entries[0].0;
                let val = &entries[0].1;
                if str_eq_lit(k, "AnsiValue") {
                    match val {
                        TomlValue::Int(i) => {
                            if 0 <= *i && *i <= 255 {
                                Ok(Colorname::AnsiValue(*i as u8))
                            } else {
                                Err(ColorIssue::Range)
                            }
                        },
                        _ => Err(ColorIssue::Payload),
                    }
                } else if str_eq_lit(k, "Rgb") {
                    match val {
                        TomlValue::Arr(items) => rgb_color(items),
                        _ => Err(ColorIssue::Payload),
                    }
                } else if named_color(k).is_some() {
                    Err(ColorIssue::Payload)
                } else {
                    Err(ColorIssue::Unknown(k.clone()))
                }
            }
        },
        _ => Err(ColorIssue::WrongKind),
    }
}

/// The required `default` key: must be present and hold a string.
pub open spec fn spec_default_field(es: Seq<(String, TomlValue)>) -> Result<
    Seq<char>,
    ConfigParseError,
> {
    match spec_lookup(es, "default"@) {
        Option::None => Err(ConfigParseError::Missing(Field::DefaultCmd)),
        Option::Some(TomlValue::Str(s)) => Ok(s@),
        Option::Some(_) => Err(ConfigParseError::WrongType(Field::DefaultCmd)),
    }
}

fn default_field(es: &Vec<(String, TomlValue)>) -> (r: Result<String, ConfigParseError>)
    ensures
        match r {
            Ok(s) => spec_default_field(es@) == Ok::<Seq<char>, ConfigParseError>(s@),
            Err(e) => spec_default_field(es@) == Err::<Seq<char>, ConfigParseError>(e),
        },
{
    match lookup(es, &"default".to_owned()) {
        Option::None => Err(ConfigParseError::Missing(Field::DefaultCmd)),
        Option::Some(TomlValue::Str(s)) => Ok(s.clone()),
        Option::Some(_) => Err(ConfigParseError::WrongType(Field::DefaultCmd)),
    }
}

/// An optional boolean key: absent is fine and reads as unset.
pub open spec fn spec_opt_bool_field(
    es: Seq<(String, TomlValue)>,
    key: Seq<char>,
    f: Field,
) -> Result<Option<bool>, ConfigParseError> {
    match spec_lookup(es, key) {
        Option::None => Ok(Option::None),
        Option::Some(TomlValue::Bool(b)) => Ok(Option::Some(b)),
        Option::Some(_) => Err(ConfigParseError::WrongType(f)),
    }
}

fn opt_bool_field(es: &Vec<(String, TomlValue)>, key: &str, f: Field) -> (r: Result<
    Option<bool>,
    ConfigParseError,
>)
    ensures
        match r {
            Ok(b) => spec_opt_bool_field(es@, key@, f) == Ok::<Option<bool>, ConfigParseError>(b),
            Err(e) => spec_opt_bool_field(es@, key@, f) == Err::<Option<bool>, ConfigParseError>(
                e,
            ),
        },
{
    match lookup(es, &key.to_owned()) {
        Option::None => Ok(Option::None),
        Option::Some(TomlValue::Bool(b)) => Ok(Option::Some(*b)),
        Option::Some(_) => Err(ConfigParseError::WrongType(f)),
    }
}

/// The optional `item_name_length` key: a non-negative integer that
/// fits the machine's size type.
pub open spec fn spec_item_name_length_field(es: Seq<(String, TomlValue)>) -> Result<
    Option<usize>,
    ConfigParseError,
> {
    match spec_lookup(es, "item_name_length"@) {
        Option::None => Ok(Option::None),
        Option::Some(TomlValue::Int(i)) => {
            if 0 <= i && i as int <= usize::MAX as int {
                Ok(Option::Some(i as usize))
            } else {
                Err(ConfigParseError::NumberOutOfRange(Field::ItemNameLength))
            }
        },
        Option::Some(_) => Err(ConfigParseError::WrongType(Field::ItemNameLength)),
    }
}

fn item_name_length_field(es: &Vec<(String, TomlValue)>) -> (r: Result<
    Option<usize>,
    ConfigParseError,
>)
    ensures
        match r {
            Ok(n) => spec_item_name_length_field(es@) == Ok::<Option<usize>, ConfigParseError>(n),
            Err(e) => spec_item_name_length_field(es@) == Err::<Option<usize>, ConfigParseError>(
                e,
            ),
        },
{
    match lookup(es, &"item_name_length".to_owned()) {
        Option::None => Ok(Option::None),
        Option::Some(TomlValue::Int(i)) => match usize::try_from(*i) {
            Ok(n) => Ok(Option::Some(n)),
            Err(_) => Err(ConfigParseError::NumberOutOfRange(Field::ItemNameLength)),
        },
        Option::Some(_) => Err(ConfigParseError::WrongType(Field::ItemNameLength)),
    }
}

/// One required color slot of the `[color]` table.
pub open spec fn spec_color_slot(
    cs: Seq<(String, TomlValue)>,
    key: Seq<char>,
    f: Field,
) -> Result<Colorname, ConfigParseError> {
    match spec_lookup(cs, key) {
        Option::None => Err(ConfigParseError::Missing(f)),
        Option::Some(v) => match spec_colorname(v) {
            Ok(c) => Ok(c),
            Err(ColorIssue::WrongKind) => Err(ConfigParseError::WrongType(f)),
            Err(ColorIssue::Unknown(s)) => Err(ConfigParseError::UnknownColorName(f, s)),
            Err(ColorIssue::Payload) => Err(ConfigParseError::BadColorPayload(f)),
            Err(ColorIssue::Range) => Err(ConfigParseError::NumberOutOfRange(f)),
        },
    }
}

fn color_slot(cs: &Vec<(String, TomlValue)>, key: &str, f: Field) -> (r: Result<
    Colorname,
    ConfigParseError,
>)
    ensures
        match r {
            Ok(c) => spec_color_slot(cs@, key@, f) == Ok::<Colorname, ConfigParseError>(c),
            Err(e) => spec_color_slot(cs@, key@, f) == Err::<Colorname, ConfigParseError>(e),
        },
{
    match lookup(cs, &key.to_owned()) {
        Option::None => Err(ConfigParseError::Missing(f)),
        Option::Some(v) => match parse_colorname(v) {
            Ok(c) => Ok(c),
            Err(ColorIssue::WrongKind) => Err(ConfigParseError::WrongType(f)),
            Err(ColorIssue::Unknown(s)) => Err(ConfigParseError::UnknownColorName(f, s)),
            Err(ColorIssue::Payload) => Err(ConfigParseError::BadColorPayload(f)),
            Err(ColorIssue::Range) => Err(ConfigParseError::NumberOutOfRange(f)),
        },
    }
}

/// The required `[color]` table with its three required slots.
pub open spec fn spec_color_field(es: Seq<(String, TomlValue)>) -> Result<
    Color,
    ConfigParseError,
> {
    match spec_lookup(es, "color"@) {
        Option::None => Err(ConfigParseError::Missing(Field::ColorTable)),
        Option::Some(TomlValue::Table(ct)) => {
            match spec_color_slot(ct@, "dir_fg"@, Field::DirFg) {
                Err(e) => Err(e),
                Ok(d) => match spec_color_slot(ct@, "file_fg"@, Field::FileFg) {
                    Err(e) => Err(e),
                    Ok(fl) => match spec_color_slot(ct@, "symlink_fg"@, Field::SymlinkFg) {
                        Err(e) => Err(e),
                        Ok(s) => Ok(Color { dir_fg: d, file_fg: fl, symlink_fg: s }),
                    },
                },
            }
        },
        Option::Some(_) => Err(ConfigParseError::WrongType(Field::ColorTable)),
    }
}

fn color_field(es: &Vec<(String, TomlValue)>) -> (r: Result<Color, ConfigParseError>)
    ensures
        match r {
            Ok(c) => spec_color_field(es@) == Ok::<Color, ConfigParseError>(c),
            Err(e) => spec_color_field(es@) == Err::<Color, ConfigParseError>(e),
        },
{
    match lookup(es, &"color".to_owned()) {
        Option::None => Err(ConfigParseError::Missing(Field::ColorTable)),
        Option::Some(TomlValue::Table(ct)) => {
            match color_slot(ct, "dir_fg", Field::DirFg) {
                Err(e) => Err(e),
                Ok(d) => match color_slot(ct, "file_fg", Field::FileFg) {
                    Err(e) => Err(e),
                    Ok(fl) => match color_slot(ct, "symlink_fg", Field::SymlinkFg) {
                        Err(e) => Err(e),
                        Ok(s) => Ok(Color { dir_fg: d, file_fg: fl, symlink_fg: s }),
                    },
                },
            }
        },
        Option::Some(_) => Err(ConfigParseError::WrongType(Field::ColorTable)),
    }
}

/// The string payload of a TOML value, empty where it is none.
pub open spec fn spec_str_of(v: TomlValue) -> Seq<char> {
    match v {
        TomlValue::Str(s) => s@,
        _ => Seq::empty(),
    }
}

/// The array payload of a TOML value, empty where it is none.
pub open spec fn spec_arr_of(v: TomlValue) -> Seq<TomlValue> {
    match v {
        TomlValue::Arr(items) => items@,
        _ => Seq::empty(),
    }
}

pub open spec fn spec_all_strings(items: Seq<TomlValue>) -> bool {
    forall|j: int| 0 <= j < items.len() ==> (#[trigger] items[j]) is Str
}

pub open spec fn spec_str_views(items: Seq<TomlValue>) -> Seq<Seq<char>> {
    items.map_values(|v: TomlValue| spec_str_of(v))
}

/// Whether every entry of the `[exec]` table holds an array of strings.
pub open spec fn spec_exec_table_ok(t: Seq<(String, TomlValue)>) -> bool {
    forall|j: int|
        0 <= j < t.len() ==> (#[trigger] t[j]).1 is Arr && spec_all_strings(spec_arr_of(t[j].1))
}

/// The `[exec]` table read as pairs of command name and extensions.
pub open spec fn spec_exec_table_view(t: Seq<(String, TomlValue)>) -> Seq<
    (Seq<char>, Seq<Seq<char>>),
> {
    t.map_values(|p: (String, TomlValue)| (p.0@, spec_str_views(spec_arr_of(p.1))))
}

/// The optional `[exec]` table: each entry maps a command name to the
/// list of extensions it opens.
pub open spec fn spec_exec_field(es: Seq<(String, TomlValue)>) -> Result<
    Option<Seq<(Seq<char>, Seq<Seq<char>>)>>,
    ConfigParseError,
> {
    match spec_lookup(es, "exec"@) {
        Option::None => Ok(Option::None),
        Option::Some(TomlValue::Table(t)) => {
            if spec_exec_table_ok(t@) {
                Ok(Option::Some(spec_exec_table_view(t@)))
            } else {
                Err(ConfigParseError::WrongType(Field::Exec))
            }
        },
        Option::Some(_) => Err(ConfigParseError::WrongType(Field::Exec)),
    }
}

/// Copies an array of strings out of TOML values; fails on any other
/// element kind.
fn parse_string_array(items: &Vec<TomlValue>) -> (r: Result<Vec<String>, ()>)
    ensures
        match r {
            Ok(v) => spec_all_strings(items@) && v.deep_view() == spec_str_views(items@),
            Err(_) => !spec_all_strings(items@),
        },
{
    let mut out: Vec<String> = Vec::new();
    let mut j: usize = 0;
    while j < items.len()
        invariant
            j <= items@.len(),
            out@.len() == j,
            forall|k: int| 0 <= k < j ==> (#[trigger] items@[k]) is Str,
            forall|k: int| 0 <= k < j ==> (#[trigger] out@[k])@ == spec_str_of(items@[k]),
        decreases items@.len() - j,
    {
        match &items[j] {
            TomlValue::Str(s) => {
                out.push(s.clone());
            },
            _ => {
                return Err(());
            },
        }
        j = j + 1;
    }
    proof {
        assert(out.deep_view() =~= spec_str_views(items@));
    }
    Ok(out)
}

/// Copies the `[exec]` table into command/extension pairs; fails where
/// a value is not an array of strings.
fn parse_exec_table(t: &Vec<(String, TomlValue)>) -> (r: Result<
    Vec<(String, Vec<String>)>,
    ConfigParseError,
>)
    ensures
        match r {
            Ok(v) => spec_exec_table_ok(t@) && spec_exec_view(v) == spec_exec_table_view(t@),
            Err(e) => !spec_exec_table_ok(t@) && e == ConfigParseError::WrongType(Field::Exec),
        },
{
    let mut out: Vec<(String, Vec<String>)> = Vec::new();
    let mut j: usize = 0;
    while j < t.len()
        invariant
            j <= t@.len(),
            out@.len() == j,
            forall|k: int|
                0 <= k < j ==> (#[trigger] t@[k]).1 is Arr && spec_all_strings(
                    spec_arr_of(t@[k].1),
                ),
            forall|k: int|
                0 <= k < j ==> (#[trigger] out@[k]).0@ == t@[k].0@ && out@[k].1.deep_view()
                    == spec_str_views(spec_arr_of(t@[k].1)),
        decreases t@.len() - j,
    {
        match &t[j].1 {
            TomlValue::Arr(items) => {
                match parse_string_array(items) {
                    Ok(exts) => {
                        out.push((t[j].0.clone(), exts));
                    },
                    Err(_) => {
                        return Err(ConfigParseError::WrongType(Field::Exec));
                    },
                }
            },
            _ => {
                return Err(ConfigParseError::WrongType(Field::Exec));
            },
        }
        j = j + 1;
    }
    proof {
        assert(spec_exec_view(out) =~= spec_exec_table_view(t@));
    }
    Ok(out)
}

fn exec_field(es: &Vec<(String, TomlValue)>) -> (r: Result<
    Option<Vec<(String, Vec<String>)>>,
    ConfigParseError,
>)
    ensures
        match r {
            Ok(Option::None) => spec_exec_field(es@) == Ok::<
                Option<Seq<(Seq<char>, Seq<Seq<char>>)>>,
                ConfigParseError,
            >(Option::None),
            Ok(Option::Some(v)) => spec_exec_field(es@) == Ok::<
                Option<Seq<(Seq<char>, Seq<Seq<char>>)>>,
                ConfigParseError,
            >(Option::Some(spec_exec_view(v))),
            Err(e) => spec_exec_field(es@) == Err::<
                Option<Seq<(Seq<char>, Seq<Seq<char>>)>>,
                ConfigParseError,
            >(e),
        },
{
    match lookup(es, &"exec".to_owned()) {
        Option::None => Ok(Option::None),
        Option::Some(TomlValue::Table(t)) => match parse_exec_table(t) {
            Ok(v) => Ok(Option::Some(v)),
            Err(e) => Err(e),
        },
        Option::Some(_) => Err(ConfigParseError::WrongType(Field::Exec)),
    }
}

/// The configuration a TOML document denotes: `default` and the three
/// color slots are required; `exec`, `use_full_width`,
/// `item_name_length` and `command_mode_bottom` are optional and stay
/// unset when absent; any unknown key is ignored.
pub open spec fn spec_config_of_doc(doc: TomlValue) -> Result<ConfigV, ConfigParseError> {
    match doc {
        TomlValue::Table(top) => {
            match spec_default_field(top@) {
                Err(e) => Err(e),
                Ok(default) => match spec_exec_field(top@) {
                    Err(e) => Err(e),
                    Ok(exec_map) => match spec_color_field(top@) {
                        Err(e) => Err(e),
                        Ok(color) => match spec_opt_bool_field(
                            top@,
                            "use_full_width"@,
                            Field::UseFullWidth,
                        ) {
                            Err(e) => Err(e),
                            Ok(ufw) => match spec_item_name_length_field(top@) {
                                Err(e) => Err(e),
                                Ok(inl) => match spec_opt_bool_field(
                                    top@,
                                    "command_mode_bottom"@,
                                    Field::CommandModeBottom,
                                ) {
                                    Err(e) => Err(e),
                                    Ok(cmb) => Ok(
                                        ConfigV {
                                            default,
                                            exec_map,
                                            color,
                                            use_full_width: ufw,
                                            item_name_length: inl,
                                            command_mode_bottom: cmb,
                                        },
                                    ),
                                },
                            },
                        },
                    },
                },
            }
        },
        _ => Err(ConfigParseError::WrongType(Field::Root)),
    }
}

/// Reads a parsed document as a `Config`, exactly as
/// `spec_config_of_doc` reads it.
pub fn config_of_doc(doc: &TomlValue) -> (r: Result<Config, ConfigParseError>)
    ensures
        match r {
            Ok(c) => spec_config_of_doc(*doc) == Ok::<ConfigV, ConfigParseError>(c@),
            Err(e) => spec_config_of_doc(*doc) == Err::<ConfigV, ConfigParseError>(e),
        },
{
    match doc {
        TomlValue::Table(top) => {
            match default_field(top) {
                Err(e) => Err(e),
                Ok(default) => match exec_field(top) {
                    Err(e) => Err(e),
                    Ok(exec_map) => match color_field(top) {
                        Err(e) => Err(e),
                        Ok(color) => match opt_bool_field(
                            top,
                            "use_full_width",
                            Field::UseFullWidth,
                        ) {
                            Err(e) => Err(e),
                            Ok(ufw) => match item_name_length_field(top) {
                                Err(e) => Err(e),
                                Ok(inl) => match opt_bool_field(
                                    top,
                                    "command_mode_bottom",
                                    Field::CommandModeBottom,
                                ) {
                                    Err(e) => Err(e),
                                    Ok(cmb) => {
                                        let c = Config {
                                            default,
                                            exec_map,
                                            color,
                                            use_full_width: ufw,
                                            item_name_length: inl,
                                            command_mode_bottom: cmb,
                                        };
                                        proof {
                                            assert(spec_config_of_doc(*doc) matches Ok(m) && c@
                                                =~~= m);
                                        }
                                        Ok(c)
                                    },
                                },
                            },
                        },
                    },
                },
            }
        },
        _ => Err(ConfigParseError::WrongType(Field::Root)),
    }
}

/// Reads configuration text: parses it as TOML, then reads the
/// document as a `Config`. Fails with `Syntax` where the text is not
/// TOML, and as `spec_config_of_doc` says otherwise.
pub fn parse_config(text: &str) -> (r: Result<Config, ConfigParseError>)
    ensures
        match toml_doc_of(text@) {
            Option::Some(doc) => match r {
                Ok(c) => spec_config_of_doc(doc) == Ok::<ConfigV, ConfigParseError>(c@),
                Err(e) => spec_config_of_doc(doc) == Err::<ConfigV, ConfigParseError>(e),
            },
            Option::None => r matches Err(ConfigParseError::Syntax(_)),
        },
{
    match parse_toml_text(text) {
        Ok(doc) => config_of_doc(&doc),
        Err(msg) => Err(ConfigParseError::Syntax(msg)),
    }
}

/// The document form of a color, chosen so that reading it back yields
/// exactly the variant and payload that went in: a bare string for the
/// named colors, a one-entry table for the carrying ones. The `ensures`
/// is the round-trip law for every one of the variants, boundary
/// payloads included.
pub fn color_value_of(c: &Colorname) -> (v: TomlValue)
    ensures
        spec_colorname(v) == Ok::<Colorname, ColorIssue>(*c),
{
    proof {
        reveal_strlit("AnsiValue");
        reveal_strlit("Rgb");
        reveal_strlit("Black");
        reveal_strlit("Blue");
        reveal_strlit("Cyan");
        reveal_strlit("Green");
        reveal_strlit("LightBlack");
        reveal_strlit("LightBlue");
        reveal_strlit("LightCyan");
        reveal_strlit("LightGreen");
        reveal_strlit("LightMagenta");
        reveal_strlit("LightRed");
        reveal_strlit("LightWhite");
        reveal_strlit("LightYellow");
        reveal_strlit("Magenta");
        reveal_strlit("Red");
        reveal_strlit("White");
        reveal_strlit("Yellow");
        assert("AnsiValue"@.len() == 9);
        assert("Rgb"@.len() == 3);
        assert("Black"@.len() == 5);
        assert("Blue"@.len() == 4);
        assert("Cyan"@.len() == 4);
        assert("Green"@.len() == 5);
        assert("LightBlack"@.len() == 10);
        assert("LightBlue"@.len() == 9);
        assert("LightCyan"@.len() == 9);
        assert("LightGreen"@.len() == 10);
        assert("LightMagenta"@.len() == 12);
        assert("LightRed"@.len() == 8);
        assert("LightWhite"@.len() == 10);
        assert("LightYellow"@.len() == 11);
        assert("Magenta"@.len() == 7);
        assert("Red"@.len() == 3);
        assert("White"@.len() == 5);
        assert("Yellow"@.len() == 6);
        assert("Black"@[0] != "Green"@[0] && "Black"@ != "Green"@);
        assert("Black"@[0] != "White"@[0] && "Black"@ != "White"@);
        assert("Green"@[0] != "White"@[0] && "Green"@ != "White"@);
        assert("Blue"@[0] != "Cyan"@[0] && "Blue"@ != "Cyan"@);
        assert("LightBlue"@[5] != "LightCyan"@[5] && "LightBlue"@ != "LightCyan"@);
        assert("LightBlack"@[5] != "LightGreen"@[5] && "LightBlack"@ != "LightGreen"@);
        assert("LightBlack"@[5] != "LightWhite"@[5] && "LightBlack"@ != "LightWhite"@);
        assert("LightGreen"@[5] != "LightWhite"@[5] && "LightGreen"@ != "LightWhite"@);
        assert("AnsiValue"@[0] != "LightBlue"@[0] && "AnsiValue"@ != "LightBlue"@);
        assert("AnsiValue"@[0] != "LightCyan"@[0] && "AnsiValue"@ != "LightCyan"@);
        assert("Red"@[1] != "Rgb"@[1] && "Red"@ != "Rgb"@);
    }
    match c {
        Colorname::AnsiValue(n) => {
            let mut entries: Vec<(String, TomlValue)> = Vec::new();
            entries.push(("AnsiValue".to_owned(), TomlValue::Int(*n as i64)));
            let v = TomlValue::Table(entries);
            proof {
                assert((*n as i64) as u8 == *n);
                assert(spec_colorname(v) == Ok::<Colorname, ColorIssue>(*c));
            }
            v
        },
        Colorname::Rgb(r, g, b) => {
            let mut items: Vec<TomlValue> = Vec::new();
            items.push(TomlValue::Int(*r as i64));
            items.push(TomlValue::Int(*g as i64));
            items.push(TomlValue::Int(*b as i64));
            let mut entries: Vec<(String, TomlValue)> = Vec::new();
            entries.push(("Rgb".to_owned(), TomlValue::Arr(items)));
            let v = TomlValue::Table(entries);
            proof {
                assert((*r as i64) as u8 == *r);
                assert((*g as i64) as u8 == *g);
                assert((*b as i64) as u8 == *b);
                assert(spec_rgb_color(spec_arr_of(entries@[0].1)) == Ok::<Colorname, ColorIssue>(
                    *c,
                ));
                assert(spec_colorname(v) == Ok::<Colorname, ColorIssue>(*c));
            }
            v
        },
        Colorname::Black => TomlValue::Str("Black".to_owned()),
        Colorname::Blue => TomlValue::Str("Blue".to_owned()),
        Colorname::Cyan => TomlValue::Str("Cyan".to_owned()),
        Colorname::Green => TomlValue::Str("Green".to_owned()),
        Colorname::LightBlack => TomlValue::Str("LightBlack".to_owned()),
        Colorname::LightBlue => TomlValue::Str("LightBlue".to_owned()),
        Colorname::LightCyan => TomlValue::Str("LightCyan".to_owned()),
        Colorname::LightGreen => TomlValue::Str("LightGreen".to_owned()),
        Colorname::LightMagenta => TomlValue::Str("LightMagenta".to_owned()),
        Colorname::LightRed => TomlValue::Str("LightRed".to_owned()),
        Colorname::LightWhite => TomlValue::Str("LightWhite".to_owned()),
        Colorname::LightYellow => TomlValue::Str("LightYellow".to_owned()),
        Colorname::Magenta => TomlValue::Str("Magenta".to_owned()),
        Colorname::Red => TomlValue::Str("Red".to_owned()),
        Colorname::White => TomlValue::Str("White".to_owned()),
        Colorname::Yellow => TomlValue::Str("Yellow".to_owned()),
    }
}

impl Field {
    /// The key path the field has in the document.
    pub open spec fn spec_key_path(self) -> Seq<char> {
        match self {
            Field::Root => "(document root)"@,
            Field::DefaultCmd => "default"@,
            Field::Exec => "exec"@,
            Field::ColorTable => "color"@,
            Field::DirFg => "color.dir_fg"@,
            Field::FileFg => "color.file_fg"@,
            Field::SymlinkFg => "color.symlink_fg"@,
            Field::UseFullWidth => "use_full_width"@,
            Field::ItemNameLength => "item_name_length"@,
            Field::CommandModeBottom => "command_mode_bottom"@,
        }
    }

    pub fn key_path(&self) -> (r: &'static str)
        ensures
            r@ == self.spec_key_path(),
    {
        match self {
            Field::Root => "(document root)",
            Field::DefaultCmd => "default",
            Field::Exec => "exec",
            Field::ColorTable => "color",
            Field::DirFg => "color.dir_fg",
            Field::FileFg => "color.file_fg",
            Field::SymlinkFg => "color.symlink_fg",
            Field::UseFullWidth => "use_full_width",
            Field::ItemNameLength => "item_name_length",
            Field::CommandModeBottom => "command_mode_bottom",
        }
    }
}

impl ConfigParseError {
    /// The actionable line for the caller: what went wrong, and on
    /// which key.
    pub open spec fn spec_message(self) -> Seq<char> {
        match self {
            ConfigParseError::Syntax(m) => "invalid TOML: "@ + m@,
            ConfigParseError::Missing(f) => "missing required key: "@ + f.spec_key_path(),
            ConfigParseError::WrongType(f) => "wrong kind of value for key: "@
                + f.spec_key_path(),
            ConfigParseError::UnknownColorName(f, s) => "unknown color name for key "@
                + f.spec_key_path() + ": "@ + s@,
            ConfigParseError::BadColorPayload(f) => "malformed color payload for key: "@
                + f.spec_key_path(),
            ConfigParseError::NumberOutOfRange(f) => "number out of range for key: "@
                + f.spec_key_path(),
        }
    }

    pub fn message(&self) -> (r: String)
        ensures
            r@ == self.spec_message(),
    {
        let mut s = String::new();
        match self {
            ConfigParseError::Syntax(m) => {
                s.append("invalid TOML: ");
                s.append(m.as_str());
            },
            ConfigParseError::Missing(f) => {
                s.append("missing required key: ");
                s.append(f.key_path());
            },
            ConfigParseError::WrongType(f) => {
                s.append("wrong kind of value for key: ");
                s.append(f.key_path());
            },
            ConfigParseError::UnknownColorName(f, n) => {
                s.append("unknown color name for key ");
                s.append(f.key_path());
                s.append(": ");
                s.append(n.as_str());
            },
            ConfigParseError::BadColorPayload(f) => {
                s.append("malformed color payload for key: ");
                s.append(f.key_path());
            },
            ConfigParseError::NumberOutOfRange(f) => {
                s.append("number out of range for key: ");
                s.append(f.key_path());
            },
        }
        proof {
            assert(s@ =~= self.spec_message());
        }
        s
    }
}

impl FxError {
    /// The diagnostic line for the user. The first two kinds are fatal
    /// by design; the third carries the parse error's own line.
    pub open spec fn spec_message(self) -> Seq<char> {
        match self {
            FxError::Environment => "Cannot determine the platform's configuration directory."@,
            FxError::BootstrapIo => "Cannot create the trash directory or the config file."@,
            FxError::Parse(e) => e.spec_message(),
        }
    }

    pub fn message(&self) -> (r: String)
        ensures
            r@ == self.spec_message(),
    {
        match self {
            FxError::Environment => String::from_str(
                "Cannot determine the platform's configuration directory.",
            ),
            FxError::BootstrapIo => String::from_str(
                "Cannot create the trash directory or the config file.",
            ),
            FxError::Parse(e) => e.message(),
        }
    }
}

} // verus!


