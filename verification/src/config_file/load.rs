//! Loading helpers: the byte-order mark, the forward-compatibility scan for
//! unknown keys, and the attribution of a failed typed parse to a section
//! and key.

use vstd::prelude::*;
use crate::config_file::fields::{field_label, field_section, ConfigField};
use crate::config_file::schema::RawConfigFile;
use crate::text::{
    append_nat, first_index, i32_text, int_text, lemma_first_index, index_of_char, nat_digits, str_equal,
    str_views, string_views,
};
use crate::ui::css::OPACITY_PERCENT_MAX;

verus! {

#[verifier::external_type_specification]
#[verifier::external_body]
pub struct ExTomlError(toml::de::Error);

#[verifier::external_type_specification]
#[verifier::external_body]
pub struct ExIoError(std::io::Error);

/// Failure modes of loading the config file.
#[derive(Debug)]
pub enum ConfigError {
    /// Bad TOML syntax.
    ParseError(toml::de::Error),
    /// A known key has the wrong type or an invalid value. An empty `key`
    /// means the section itself had the wrong type.
    InvalidValue {
        section: &'static str,
        key: String,
        error_debug: String,
        error_message: String,
    },
    /// The file could not be read.
    IoError(std::io::Error),
}

/// Text of an invalid-value error: the dot and key are left out when the
/// key is empty.
pub open spec fn invalid_value_text(
    section: Seq<char>,
    key: Seq<char>,
    error_debug: Seq<char>,
    error_message: Seq<char>,
) -> Seq<char> {
    "invalid value for "@ + section + (if key.len() == 0 {
        Seq::<char>::empty()
    } else {
        "."@ + key
    }) + ": '"@ + error_debug + "' \u{2014} expected "@ + error_message
}

/// The display text of a TOML parse error, as `toml::de::Error`'s
/// `Display` renders it.
#[verifier::external_body]
fn toml_error_text(e: &toml::de::Error) -> String {
    format!("{e}")
}

/// The display text of an I/O error, as `std::io::Error`'s `Display`
/// renders it.
#[verifier::external_body]
fn io_error_text(e: &std::io::Error) -> String {
    format!("{e}")
}

impl ConfigError {
    /// User-facing text of the error (notification body).
    pub fn message(&self) -> (r: String)
        ensures
            self matches ConfigError::InvalidValue { section, key, error_debug, error_message }
                ==> r@ == invalid_value_text(section@, key@, error_debug@, error_message@),
            self is ParseError ==> r@.len() >= 13 && r@.take(13) == "parse error: "@,
    {
        match self {
            ConfigError::ParseError(e) => {
                let mut s = String::from_str("parse error: ");
                let t = toml_error_text(e);
                s.append(t.as_str());
                proof {
                    reveal_strlit("parse error: ");
                }
                assert(s@.take(13) =~= "parse error: "@);
                s
            },
            ConfigError::InvalidValue { section, key, error_debug, error_message } => {
                let mut s = String::from_str("invalid value for ");
                s.append(section);
                if key.unicode_len() > 0 {
                    s.append(".");
                    s.append(key.as_str());
                }
                s.append(": '");
                s.append(error_debug.as_str());
                s.append("' \u{2014} expected ");
                s.append(error_message.as_str());
                s
            },
            ConfigError::IoError(e) => io_error_text(e),
        }
    }
}

/// `text` without a leading U+FEFF byte-order mark.
pub open spec fn without_bom(text: Seq<char>) -> Seq<char> {
    if text.len() > 0 && text[0] == '\u{feff}' {
        text.skip(1)
    } else {
        text
    }
}

/// Strips an optional UTF-8 byte-order mark so the TOML parser accepts the
/// text.
pub fn strip_bom(text: &str) -> (r: String)
    ensures
        r@ == without_bom(text@),
{
    let n = text.unicode_len();
    if n > 0 && text.get_char(0) == '\u{feff}' {
        let rest = text.substring_char(1, n);
        assert(rest@ =~= text@.skip(1));
        String::from_str(rest)
    } else {
        String::from_str(text)
    }
}

/// Label of a known section name; anything else is `(unknown)`.
pub open spec fn section_label_of(name: Seq<char>) -> Seq<char> {
    if name == "behavior"@ {
        "behavior"@
    } else if name == "layout"@ {
        "layout"@
    } else if name == "appearance"@ {
        "appearance"@
    } else if name == "launcher"@ {
        "launcher"@
    } else if name == "filters"@ {
        "filters"@
    } else {
        "(unknown)"@
    }
}

/// Maps a section name to its static label, `(unknown)` for anything
/// that is not a section of the file.
pub fn section_label(name: &str) -> (r: &'static str)
    ensures
        r@ == section_label_of(name@),
{
    if str_equal(name, "behavior") {
        "behavior"
    } else if str_equal(name, "layout") {
        "layout"
    } else if str_equal(name, "appearance") {
        "appearance"
    } else if str_equal(name, "launcher") {
        "launcher"
    } else if str_equal(name, "filters") {
        "filters"
    } else {
        "(unknown)"
    }
}

/// Section and key a failed typed parse is attributed to, from the error
/// path: `section.key` splits at the first dot; a bare known section name
/// gives that section and an empty key; anything else is `(root)` with the
/// whole path as key.
pub open spec fn error_location(path: Seq<char>) -> (Seq<char>, Seq<char>) {
    let i = first_index(path, '.');
    if i < path.len() {
        (section_label_of(path.take(i)), path.skip(i + 1))
    } else if section_label_of(path) == "(unknown)"@ {
        ("(root)"@, path)
    } else {
        (section_label_of(path), Seq::<char>::empty())
    }
}

/// Splits a typed-parse error path into the section and key it names.
pub fn error_location_of(path: &str) -> (r: (&'static str, String))
    ensures
        (r.0@, r.1@) == error_location(path@),
{
    proof {
        lemma_first_index(path@, '.');
    }
    let n = path.unicode_len();
    let i = index_of_char(path, '.');
    if i < n {
        let section = path.substring_char(0, i);
        let key = path.substring_char(i + 1, n);
        assert(section@ =~= path@.take(i as int));
        assert(key@ =~= path@.skip(i + 1));
        (section_label(section), String::from_str(key))
    } else {
        let label = section_label(path);
        if str_equal(label, "(unknown)") {
            ("(root)", String::from_str(path))
        } else {
            (label, String::new())
        }
    }
}

/// The invalid-value error for a typed parse that failed at `path`, with
/// the two renderings of the underlying error.
pub fn invalid_value(path: &str, error_debug: String, error_message: String) -> (r: ConfigError)
    ensures
        r matches ConfigError::InvalidValue { section, key, error_debug: d, error_message: m } && (
        section@, key@) == error_location(path@) && d == error_debug && m == error_message,
{
    let (section, key) = error_location_of(path);
    ConfigError::InvalidValue { section, key, error_debug, error_message }
}

/// `r` is the invalid-value error for `section`.`key` with the offending
/// value's text and what was expected.
pub open spec fn is_invalid_value(
    r: ConfigError,
    section: Seq<char>,
    key: Seq<char>,
    value_text: Seq<char>,
    expected: Seq<char>,
) -> bool {
    r matches ConfigError::InvalidValue { section: s, key: k, error_debug: d, error_message: m }
        && s@ == section && k@ == key && d@ == value_text && m@ == expected
}

/// `r` is the outcome of the range check of `file`: `icon-size` must be
/// positive and `opacity` at most 100; the first out-of-range value (in
/// that order) is reported as an invalid value naming its key.
pub open spec fn is_range_check_of(file: RawConfigFile, r: Result<(), ConfigError>) -> bool {
    if file.appearance.icon_size matches Some(v) && v <= 0 {
        r matches Err(e) && is_invalid_value(
            e,
            "appearance"@,
            "icon-size"@,
            int_text(file.appearance.icon_size->0 as int),
            "a positive number of pixels"@,
        )
    } else if file.appearance.opacity matches Some(o) && o > OPACITY_PERCENT_MAX {
        r matches Err(e) && is_invalid_value(
            e,
            "appearance"@,
            "opacity"@,
            nat_digits(file.appearance.opacity->0 as nat),
            "a percentage from 0 to 100"@,
        )
    } else {
        r is Ok
    }
}

/// Checks the numeric settings whose type admits values the dock cannot
/// use: a non-positive `icon-size` and an `opacity` above 100 are rejected
/// as invalid values naming the key.
pub fn check_value_ranges(file: &RawConfigFile) -> (r: Result<(), ConfigError>)
    ensures
        is_range_check_of(*file, r),
{
    if let Some(v) = file.appearance.icon_size {
        if v <= 0 {
            return Err(ConfigError::InvalidValue {
                section: "appearance",
                key: String::from_str("icon-size"),
                error_debug: i32_text(v),
                error_message: String::from_str("a positive number of pixels"),
            });
        }
    }
    if let Some(o) = file.appearance.opacity {
        if o > OPACITY_PERCENT_MAX {
            let mut text = String::new();
            append_nat(&mut text, o as u64);
            assert(text@ =~= nat_digits(o as nat));
            return Err(ConfigError::InvalidValue {
                section: "appearance",
                key: String::from_str("opacity"),
                error_debug: text,
                error_message: String::from_str("a percentage from 0 to 100"),
            });
        }
    }
    Ok(())
}

/// One top-level entry of a parsed TOML document: its name and, when its
/// value is a table, the keys of that table.
#[derive(Debug)]
pub struct TomlEntry {
    pub name: String,
    pub keys: Option<Vec<String>>,
}

/// The top-level entries of a parsed TOML document, in the order the
/// parser's table yields them.
#[derive(Debug)]
pub struct TomlDocument {
    pub entries: Vec<TomlEntry>,
}

/// Name and table keys of an entry.
pub open spec fn entry_view(e: TomlEntry) -> (Seq<char>, Option<Seq<Seq<char>>>) {
    (
        e.name@,
        match e.keys {
            Some(k) => Some(string_views(k@)),
            None => None,
        },
    )
}

impl View for TomlDocument {
    type V = Seq<(Seq<char>, Option<Seq<Seq<char>>>)>;

    open spec fn view(&self) -> Self::V {
        self.entries@.map_values(|e: TomlEntry| entry_view(e))
    }
}

/// The top-level entries (name, keys of a table value) of `text` parsed as
/// a TOML document; `None` when it is not valid TOML.
pub uninterp spec fn toml_top_level(text: Seq<char>) -> Option<Seq<(Seq<char>, Option<Seq<Seq<char>>>)>>;

/// Parses `text` with `toml::from_str` into a `toml::Table` and keeps, for
/// each top-level entry, its name and the keys of a table value. Claimed:
/// success exactly when the name gives entries, and then the entries are
/// the named ones.
#[verifier::external_body]
fn parse_toml_document(text: &str) -> (r: Result<TomlDocument, toml::de::Error>)
    ensures
        r is Ok <==> toml_top_level(text@) is Some,
        r matches Ok(d) ==> toml_top_level(text@) == Some(d@),
{
    let table: toml::Table = toml::from_str(text)?;
    let entries = table.into_iter().map(|(name, value)| TomlEntry {
        name,
        keys: match value {
            toml::Value::Table(t) => Some(t.into_iter().map(|(k, _)| k).collect()),
            _ => None,
        },
    }).collect();
    Ok(TomlDocument { entries })
}

/// Keys each section of the file knows; `None` for a name that is not a
/// section.
pub open spec fn known_keys(section: Seq<char>) -> Option<Seq<Seq<char>>> {
    if section == "behavior"@ {
        Some(
            seq![
                "autohide"@,
                "resident"@,
                "multi"@,
                "debug"@,
                "wm"@,
                "hide-timeout"@,
                "hotspot-delay"@,
                "hotspot-layer"@,
            ],
        )
    } else if section == "layout"@ {
        Some(
            seq![
                "position"@,
                "alignment"@,
                "full"@,
                "mt"@,
                "mb"@,
                "ml"@,
                "mr"@,
                "output"@,
                "layer"@,
                "exclusive"@,
            ],
        )
    } else if section == "appearance"@ {
        Some(seq!["icon-size"@, "opacity"@, "css-file"@, "launch-animation"@])
    } else if section == "launcher"@ {
        Some(seq!["launcher-cmd"@, "launcher-pos"@, "nolauncher"@, "ico"@])
    } else if section == "filters"@ {
        Some(seq!["ignore-classes"@, "ignore-workspaces"@, "num-ws"@, "ws"@, "no-fullscreen-suppress"@])
    } else {
        None
    }
}

fn known_keys_for(section: &str) -> (r: Option<Vec<&'static str>>)
    ensures
        r is Some <==> known_keys(section@) is Some,
        r matches Some(v) ==> str_views(v@) == known_keys(section@)->0,
{
    if str_equal(section, "behavior") {
        let v = vec![
            "autohide",
            "resident",
            "multi",
            "debug",
            "wm",
            "hide-timeout",
            "hotspot-delay",
            "hotspot-layer",
        ];
        assert(str_views(v@) =~= known_keys(section@)->0);
        Some(v)
    } else if str_equal(section, "layout") {
        let v = vec![
            "position",
            "alignment",
            "full",
            "mt",
            "mb",
            "ml",
            "mr",
            "output",
            "layer",
            "exclusive",
        ];
        assert(str_views(v@) =~= known_keys(section@)->0);
        Some(v)
    } else if str_equal(section, "appearance") {
        let v = vec!["icon-size", "opacity", "css-file", "launch-animation"];
        assert(str_views(v@) =~= known_keys(section@)->0);
        Some(v)
    } else if str_equal(section, "launcher") {
        let v = vec!["launcher-cmd", "launcher-pos", "nolauncher", "ico"];
        assert(str_views(v@) =~= known_keys(section@)->0);
        Some(v)
    } else if str_equal(section, "filters") {
        let v = vec!["ignore-classes", "ignore-workspaces", "num-ws", "ws", "no-fullscreen-suppress"];
        assert(str_views(v@) =~= known_keys(section@)->0);
        Some(v)
    } else {
        None
    }
}

fn listed(list: &Vec<&'static str>, s: &str) -> (r: bool)
    ensures
        r == str_views(list@).contains(s@),
{
    let mut i: usize = 0;
    while i < list.len()
        invariant
            i <= list.len(),
            forall|j: int| 0 <= j < i ==> str_views(list@)[j] != s@,
        decreases list.len() - i,
    {
        if str_equal(list[i], s) {
            assert(str_views(list@)[i as int] == s@);
            return true;
        }
        i += 1;
    }
    false
}

/// `section.key` for each key of a known section's table that the section
/// does not know, in table order.
pub open spec fn unknown_in_section(
    section: Seq<char>,
    known: Seq<Seq<char>>,
    keys: Seq<Seq<char>>,
) -> Seq<Seq<char>>
    decreases keys.len(),
{
    if keys.len() == 0 {
        Seq::empty()
    } else {
        let rest = unknown_in_section(section, known, keys.drop_last());
        if known.contains(keys.last()) {
            rest
        } else {
            rest.push(section + "."@ + keys.last())
        }
    }
}

/// Unknown keys one top-level entry contributes: an unknown section is
/// reported whole; a known section that is not a table reports nothing
/// (the typed parse reports it); a known section's table reports its
/// unknown keys.
pub open spec fn entry_unknown_keys(entry: (Seq<char>, Option<Seq<Seq<char>>>)) -> Seq<Seq<char>> {
    match known_keys(entry.0) {
        None => seq![entry.0],
        Some(known) => match entry.1 {
            None => Seq::empty(),
            Some(keys) => unknown_in_section(entry.0, known, keys),
        },
    }
}

/// Unknown keys of a whole document, entry by entry.
pub open spec fn unknown_keys(doc: Seq<(Seq<char>, Option<Seq<Seq<char>>>)>) -> Seq<Seq<char>>
    decreases doc.len(),
{
    if doc.len() == 0 {
        Seq::empty()
    } else {
        unknown_keys(doc.drop_last()) + entry_unknown_keys(doc.last())
    }
}

fn section_unknown_keys(
    section: &str,
    known: &Vec<&'static str>,
    keys: &Vec<String>,
    out: &mut Vec<String>,
)
    ensures
        string_views(final(out)@) == string_views(old(out)@) + unknown_in_section(
            section@,
            str_views(known@),
            string_views(keys@),
        ),
{
    let ghost start = string_views(out@);
    let ghost ks = string_views(keys@);
    let mut i: usize = 0;
    assert(ks.take(0) =~= Seq::<Seq<char>>::empty());
    assert(start + Seq::<Seq<char>>::empty() =~= start);
    while i < keys.len()
        invariant
            i <= keys.len(),
            ks == string_views(keys@),
            string_views(out@) == start + unknown_in_section(section@, str_views(known@), ks.take(i as int)),
        decreases keys.len() - i,
    {
        let key = &keys[i];
        assert(ks.take(i + 1).drop_last() =~= ks.take(i as int));
        assert(ks.take(i + 1).last() == key@);
        if !listed(known, key.as_str()) {
            let mut q = String::from_str(section);
            q.append(".");
            q.append(key.as_str());
            let ghost before = string_views(out@);
            out.push(q);
            assert(string_views(out@) =~= before.push(q@));
            assert(start + unknown_in_section(section@, str_views(known@), ks.take(i + 1)) =~= (start
                + unknown_in_section(section@, str_views(known@), ks.take(i as int))).push(q@));
        }
        i += 1;
    }
    assert(ks.take(keys.len() as int) =~= ks);
}

/// Paths of the keys in `doc` that the config schema does not know:
/// whole unknown sections, and `section.key` for unknown keys of known
/// sections. These are reported as warnings and never fail a load.
pub fn collect_unknown_keys(doc: &TomlDocument) -> (r: Vec<String>)
    ensures
        string_views(r@) == unknown_keys(doc@),
{
    let mut out: Vec<String> = Vec::new();
    let mut i: usize = 0;
    assert(doc@.take(0) =~= Seq::<(Seq<char>, Option<Seq<Seq<char>>>)>::empty());
    assert(string_views(out@) =~= Seq::<Seq<char>>::empty());
    while i < doc.entries.len()
        invariant
            i <= doc.entries.len(),
            doc@.len() == doc.entries.len(),
            string_views(out@) == unknown_keys(doc@.take(i as int)),
        decreases doc.entries.len() - i,
    {
        let entry = &doc.entries[i];
        let ghost before = string_views(out@);
        assert(doc@.take(i + 1).drop_last() =~= doc@.take(i as int));
        assert(doc@.take(i + 1).last() == entry_view(*entry));
        match known_keys_for(entry.name.as_str()) {
            None => {
                out.push(entry.name.clone());
                assert(string_views(out@) =~= before + seq![entry.name@]);
            },
            Some(known) => {
                match &entry.keys {
                    None => {
                        assert(before + Seq::<Seq<char>>::empty() =~= before);
                    },
                    Some(keys) => {
                        section_unknown_keys(entry.name.as_str(), &known, keys, &mut out);
                    },
                }
            },
        }
        i += 1;
    }
    assert(doc@.take(doc.entries.len() as int) =~= doc@);
    out
}

/// Parses `text` (already stripped of a byte-order mark) as TOML and lists
/// the keys the config schema does not know, or the parse error.
pub fn unknown_config_keys(text: &str) -> (r: Result<Vec<String>, ConfigError>)
    ensures
        r is Ok <==> toml_top_level(text@) is Some,
        r matches Ok(v) ==> string_views(v@) == unknown_keys(toml_top_level(text@)->0),
        r matches Err(e) ==> e is ParseError,
{
    match parse_toml_document(text) {
        Ok(doc) => Ok(collect_unknown_keys(&doc)),
        Err(e) => Err(ConfigError::ParseError(e)),
    }
}

/// Law: the unknown-key scan knows every setting under its own section:
/// the key of each setting is in the list of known keys of the section it
/// belongs to, so no setting the dock reads or prints is ever reported as
/// unknown.
pub proof fn lemma_known_keys_cover_settings(f: ConfigField)
    ensures
        known_keys(field_section(f)) is Some,
        known_keys(field_section(f))->0.contains(field_label(f)),
{
    reveal_strlit("behavior");
    reveal_strlit("layout");
    reveal_strlit("appearance");
    reveal_strlit("launcher");
    reveal_strlit("filters");
    assert("layout"@[0] != "behavior"@[0]);
    assert("appearance"@[0] != "behavior"@[0] && "appearance"@[0] != "layout"@[0]);
    assert("launcher"@[0] != "behavior"@[0] && "launcher"@[2] != "layout"@[2]
        && "launcher"@[0] != "appearance"@[0]);
    assert("filters"@[0] != "behavior"@[0] && "filters"@[0] != "layout"@[0] && "filters"@[0]
        != "appearance"@[0] && "filters"@[0] != "launcher"@[0]);
    let keys = known_keys(field_section(f))->0;
    match f {
        ConfigField::Autohide => assert(keys[0] == field_label(f)),
        ConfigField::Resident => assert(keys[1] == field_label(f)),
        ConfigField::Multi => assert(keys[2] == field_label(f)),
        ConfigField::Debug => assert(keys[3] == field_label(f)),
        ConfigField::Wm => assert(keys[4] == field_label(f)),
        ConfigField::HideTimeout => assert(keys[5] == field_label(f)),
        ConfigField::HotspotDelay => assert(keys[6] == field_label(f)),
        ConfigField::HotspotLayer => assert(keys[7] == field_label(f)),
        ConfigField::Position => assert(keys[0] == field_label(f)),
        ConfigField::Alignment => assert(keys[1] == field_label(f)),
        ConfigField::Full => assert(keys[2] == field_label(f)),
        ConfigField::Mt => assert(keys[3] == field_label(f)),
        ConfigField::Mb => assert(keys[4] == field_label(f)),
        ConfigField::Ml => assert(keys[5] == field_label(f)),
        ConfigField::Mr => assert(keys[6] == field_label(f)),
        ConfigField::Output => assert(keys[7] == field_label(f)),
        ConfigField::Layer => assert(keys[8] == field_label(f)),
        ConfigField::Exclusive => assert(keys[9] == field_label(f)),
        ConfigField::IconSize => assert(keys[0] == field_label(f)),
        ConfigField::Opacity => assert(keys[1] == field_label(f)),
        ConfigField::CssFile => assert(keys[2] == field_label(f)),
        ConfigField::LaunchAnimation => assert(keys[3] == field_label(f)),
        ConfigField::LauncherCmd => assert(keys[0] == field_label(f)),
        ConfigField::LauncherPos => assert(keys[1] == field_label(f)),
        ConfigField::Nolauncher => assert(keys[2] == field_label(f)),
        ConfigField::Ico => assert(keys[3] == field_label(f)),
        ConfigField::IgnoreClasses => assert(keys[0] == field_label(f)),
        ConfigField::IgnoreWorkspaces => assert(keys[1] == field_label(f)),
        ConfigField::NumWs => assert(keys[2] == field_label(f)),
        ConfigField::Ws => assert(keys[3] == field_label(f)),
        ConfigField::NoFullscreenSuppress => assert(keys[4] == field_label(f)),
    }
}

} // verus!
