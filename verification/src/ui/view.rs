use vstd::prelude::*;
use crate::fs::walker::EntryType;
use crate::paths::{extension, extension_chars, file_name, file_name_chars};
use crate::text::{chars_of, lowercase, same_chars, string_of, to_lowercase};

verus! {

/// The first row shown when `total` rows scroll in a window of `height`
/// rows: the window follows the cursor, keeping it in the middle when it can.
pub open spec fn window_start_spec(total: nat, height: nat, cursor: nat) -> nat {
    if total <= height {
        0
    } else if cursor < height / 2 {
        0
    } else if cursor >= total - height / 2 {
        (total - height) as nat
    } else {
        (cursor - height / 2) as nat
    }
}

/// The first visible row of a scrolled list.
pub fn list_window_start(total: usize, height: usize, cursor: usize) -> (r: usize)
    ensures
        r == window_start_spec(total as nat, height as nat, cursor as nat),
        total > height ==> r + height <= total,
        cursor < total && height > 0 ==> r <= cursor < r + height,
{
    if total <= height {
        return 0;
    }
    let half = height / 2;
    if cursor < half {
        0
    } else if cursor >= total - half {
        total - height
    } else {
        cursor - half
    }
}

fn text_eq(e: &Vec<char>, lit: &str) -> (r: bool)
    ensures
        r == (e@ == lit@),
{
    same_chars(e, &chars_of(lit))
}

/// The icon of a file by its (lower-cased) extension.
pub open spec fn ext_icon(e: Seq<char>) -> Seq<char> {
    if e == "rs"@ {
        "󱘗"@
    } else if e == "js"@ || e == "mjs"@ || e == "cjs"@ {
        ""@
    } else if e == "jsx"@ {
        ""@
    } else if e == "ts"@ || e == "mts"@ || e == "cts"@ {
        ""@
    } else if e == "tsx"@ {
        ""@
    } else if e == "py"@ || e == "pyc"@ || e == "pyd"@ || e == "pyo"@ {
        ""@
    } else if e == "go"@ {
        ""@
    } else if e == "c"@ {
        ""@
    } else if e == "cpp"@ || e == "cc"@ || e == "cxx"@ {
        ""@
    } else if e == "h"@ || e == "hpp"@ {
        ""@
    } else if e == "swift"@ {
        ""@
    } else if e == "kt"@ || e == "kts"@ {
        ""@
    } else if e == "java"@ || e == "class"@ || e == "jar"@ {
        ""@
    } else if e == "scala"@ {
        ""@
    } else if e == "hs"@ || e == "lhs"@ {
        ""@
    } else if e == "zig"@ {
        ""@
    } else if e == "nim"@ {
        ""@
    } else if e == "ml"@ || e == "mli"@ {
        ""@
    } else if e == "d"@ {
        ""@
    } else if e == "rb"@ {
        ""@
    } else if e == "php"@ {
        ""@
    } else if e == "pl"@ || e == "pm"@ {
        ""@
    } else if e == "lua"@ {
        ""@
    } else if e == "wasm"@ || e == "wat"@ {
        ""@
    } else if e == "html"@ || e == "htm"@ {
        ""@
    } else if e == "css"@ {
        ""@
    } else if e == "scss"@ || e == "sass"@ {
        ""@
    } else if e == "less"@ {
        ""@
    } else if e == "elm"@ {
        ""@
    } else if e == "sh"@ || e == "bash"@ || e == "zsh"@ || e == "fish"@ || e == "ksh"@ {
        ""@
    } else if e == "ps1"@ || e == "psm1"@ {
        ""@
    } else if e == "toml"@ {
        ""@
    } else if e == "yml"@ || e == "yaml"@ {
        ""@
    } else if e == "json"@ {
        ""@
    } else if e == "xml"@ {
        "󰗀"@
    } else if e == "csv"@ || e == "tsv"@ {
        "󰈛"@
    } else if e == "sql"@ || e == "db"@ || e == "sqlite"@ {
        ""@
    } else if e == "graphql"@ || e == "gql"@ {
        ""@
    } else if e == "tf"@ || e == "tfvars"@ {
        ""@
    } else if e == "nix"@ {
        ""@
    } else if e == "md"@ || e == "markdown"@ {
        ""@
    } else if e == "pdf"@ {
        ""@
    } else if e == "txt"@ || e == "log"@ || e == "ini"@ || e == "conf"@ {
        "󰈙"@
    } else if e == "jpg"@ || e == "jpeg"@ || e == "png"@ || e == "gif"@ || e == "svg"@ || e == "webp"@ || e == "ico"@ || e == "bmp"@ || e == "tiff"@ {
        "󰸭"@
    } else if e == "zip"@ || e == "tar"@ || e == "gz"@ || e == "xz"@ || e == "bz2"@ || e == "7z"@ || e == "rar"@ {
        "󰿺"@
    } else {
        "󰈔"@
    }
}

/// The icon of a file without extension by its (lower-cased) name.
pub open spec fn name_icon(n: Seq<char>) -> Seq<char> {
    if n == "makefile"@ || n == "gemfile"@ || n == "rakefile"@ {
        ""@
    } else if n == "dockerfile"@ {
        ""@
    } else if n == "license"@ {
        "󰈙"@
    } else {
        "󰈔"@
    }
}

/// The icon drawn before an entry of kind `t` at `path`.
pub open spec fn icon_for(path: Seq<char>, t: EntryType) -> Seq<char> {
    match t {
        EntryType::Directory => "󰉋"@,
        EntryType::Symlink => ""@,
        EntryType::File => match extension(path) {
            Some(e) => ext_icon(lowercase(e)),
            None => match file_name(path) {
                Some(n) => name_icon(lowercase(n)),
                None => "󰈔"@,
            },
        },
    }
}

fn ext_icon_of(e: &Vec<char>) -> (r: &'static str)
    ensures
        r@ == ext_icon(e@),
{
    if text_eq(e, "rs") {
        "󱘗"
    } else if text_eq(e, "js") || text_eq(e, "mjs") || text_eq(e, "cjs") {
        ""
    } else if text_eq(e, "jsx") {
        ""
    } else if text_eq(e, "ts") || text_eq(e, "mts") || text_eq(e, "cts") {
        ""
    } else if text_eq(e, "tsx") {
        ""
    } else if text_eq(e, "py") || text_eq(e, "pyc") || text_eq(e, "pyd") || text_eq(e, "pyo") {
        ""
    } else if text_eq(e, "go") {
        ""
    } else if text_eq(e, "c") {
        ""
    } else if text_eq(e, "cpp") || text_eq(e, "cc") || text_eq(e, "cxx") {
        ""
    } else if text_eq(e, "h") || text_eq(e, "hpp") {
        ""
    } else if text_eq(e, "swift") {
        ""
    } else if text_eq(e, "kt") || text_eq(e, "kts") {
        ""
    } else if text_eq(e, "java") || text_eq(e, "class") || text_eq(e, "jar") {
        ""
    } else if text_eq(e, "scala") {
        ""
    } else if text_eq(e, "hs") || text_eq(e, "lhs") {
        ""
    } else if text_eq(e, "zig") {
        ""
    } else if text_eq(e, "nim") {
        ""
    } else if text_eq(e, "ml") || text_eq(e, "mli") {
        ""
    } else if text_eq(e, "d") {
        ""
    } else if text_eq(e, "rb") {
        ""
    } else if text_eq(e, "php") {
        ""
    } else if text_eq(e, "pl") || text_eq(e, "pm") {
        ""
    } else if text_eq(e, "lua") {
        ""
    } else if text_eq(e, "wasm") || text_eq(e, "wat") {
        ""
    } else if text_eq(e, "html") || text_eq(e, "htm") {
        ""
    } else if text_eq(e, "css") {
        ""
    } else if text_eq(e, "scss") || text_eq(e, "sass") {
        ""
    } else if text_eq(e, "less") {
        ""
    } else if text_eq(e, "elm") {
        ""
    } else if text_eq(e, "sh") || text_eq(e, "bash") || text_eq(e, "zsh") || text_eq(e, "fish") || text_eq(e, "ksh") {
        ""
    } else if text_eq(e, "ps1") || text_eq(e, "psm1") {
        ""
    } else if text_eq(e, "toml") {
        ""
    } else if text_eq(e, "yml") || text_eq(e, "yaml") {
        ""
    } else if text_eq(e, "json") {
        ""
    } else if text_eq(e, "xml") {
        "󰗀"
    } else if text_eq(e, "csv") || text_eq(e, "tsv") {
        "󰈛"
    } else if text_eq(e, "sql") || text_eq(e, "db") || text_eq(e, "sqlite") {
        ""
    } else if text_eq(e, "graphql") || text_eq(e, "gql") {
        ""
    } else if text_eq(e, "tf") || text_eq(e, "tfvars") {
        ""
    } else if text_eq(e, "nix") {
        ""
    } else if text_eq(e, "md") || text_eq(e, "markdown") {
        ""
    } else if text_eq(e, "pdf") {
        ""
    } else if text_eq(e, "txt") || text_eq(e, "log") || text_eq(e, "ini") || text_eq(e, "conf") {
        "󰈙"
    } else if text_eq(e, "jpg") || text_eq(e, "jpeg") || text_eq(e, "png") || text_eq(e, "gif") || text_eq(e, "svg") || text_eq(e, "webp") || text_eq(e, "ico") || text_eq(e, "bmp") || text_eq(e, "tiff") {
        "󰸭"
    } else if text_eq(e, "zip") || text_eq(e, "tar") || text_eq(e, "gz") || text_eq(e, "xz") || text_eq(e, "bz2") || text_eq(e, "7z") || text_eq(e, "rar") {
        "󰿺"
    } else {
        "󰈔"
    }
}

fn name_icon_of(n: &Vec<char>) -> (r: &'static str)
    ensures
        r@ == name_icon(n@),
{
    if text_eq(n, "makefile") || text_eq(n, "gemfile") || text_eq(n, "rakefile") {
        ""
    } else if text_eq(n, "dockerfile") {
        ""
    } else if text_eq(n, "license") {
        "󰈙"
    } else {
        "󰈔"
    }
}

fn lower_chars(v: &Vec<char>) -> (r: Vec<char>)
    ensures
        r@ == lowercase(v@),
{
    chars_of(to_lowercase(string_of(v).as_str()).as_str())
}

/// The Nerd Font icon drawn before an entry: by kind, then by extension or
/// well-known file name.
pub fn get_icon(path: &str, entry_type: EntryType) -> (r: &'static str)
    ensures
        r@ == icon_for(path@, entry_type),
{
    match entry_type {
        EntryType::Directory => "󰉋",
        EntryType::Symlink => "",
        EntryType::File => {
            let p = chars_of(path);
            match extension_chars(&p) {
                Some(e) => ext_icon_of(&lower_chars(&e)),
                None => match file_name_chars(&p) {
                    Some(n) => name_icon_of(&lower_chars(&n)),
                    None => "󰈔",
                },
            }
        },
    }
}

/// A colour of the terminal palette, or a truecolor one.
#[derive(Debug, Clone, Copy, PartialEq, Eq, Structural)]
pub enum Tint {
    Rgb(u8, u8, u8),
    Yellow,
    LightYellow,
    Cyan,
    Blue,
    Magenta,
    Red,
    LightRed,
    LightCyan,
    LightGreen,
    Green,
    LightBlue,
    LightMagenta,
    Gray,
    White,
}

/// The colour of a file's icon by its (lower-cased) extension.
pub open spec fn ext_tint(e: Seq<char>) -> Tint {
    if e == "rs"@ {
        Tint::Rgb(244, 91, 50)
    } else if e == "js"@ || e == "mjs"@ || e == "cjs"@ || e == "py"@ || e == "rb"@ {
        Tint::Yellow
    } else if e == "jsx"@ || e == "tsx"@ {
        Tint::LightYellow
    } else if e == "ts"@ || e == "mts"@ || e == "cts"@ || e == "go"@ || e == "lua"@ {
        Tint::Cyan
    } else if e == "c"@ || e == "cpp"@ || e == "cc"@ || e == "cxx"@ || e == "h"@ || e == "hpp"@ || e == "php"@ || e == "pl"@ || e == "pm"@ {
        Tint::Blue
    } else if e == "swift"@ {
        Tint::Rgb(250, 115, 50)
    } else if e == "kt"@ || e == "kts"@ || e == "hs"@ || e == "lhs"@ || e == "tf"@ || e == "tfvars"@ {
        Tint::Magenta
    } else if e == "java"@ || e == "class"@ || e == "jar"@ {
        Tint::Rgb(220, 50, 50)
    } else if e == "scala"@ {
        Tint::Red
    } else if e == "zig"@ || e == "nim"@ {
        Tint::Rgb(230, 160, 20)
    } else if e == "ml"@ || e == "mli"@ {
        Tint::Rgb(238, 90, 36)
    } else if e == "d"@ {
        Tint::Rgb(180, 50, 50)
    } else if e == "html"@ || e == "htm"@ || e == "css"@ || e == "scss"@ || e == "sass"@ || e == "less"@ {
        Tint::LightRed
    } else if e == "elm"@ {
        Tint::LightCyan
    } else if e == "sh"@ || e == "bash"@ || e == "zsh"@ || e == "fish"@ || e == "ksh"@ || e == "ps1"@ || e == "psm1"@ {
        Tint::LightGreen
    } else if e == "json"@ || e == "toml"@ || e == "yml"@ || e == "yaml"@ || e == "xml"@ {
        Tint::Green
    } else if e == "csv"@ || e == "tsv"@ || e == "sql"@ || e == "db"@ || e == "sqlite"@ || e == "graphql"@ || e == "gql"@ {
        Tint::LightGreen
    } else if e == "nix"@ {
        Tint::LightBlue
    } else if e == "md"@ || e == "markdown"@ || e == "txt"@ || e == "log"@ || e == "ini"@ || e == "conf"@ {
        Tint::Gray
    } else if e == "pdf"@ {
        Tint::Red
    } else if e == "jpg"@ || e == "jpeg"@ || e == "png"@ || e == "gif"@ || e == "svg"@ || e == "webp"@ || e == "ico"@ || e == "bmp"@ || e == "tiff"@ {
        Tint::LightMagenta
    } else if e == "zip"@ || e == "tar"@ || e == "gz"@ || e == "xz"@ || e == "bz2"@ || e == "7z"@ || e == "rar"@ {
        Tint::Rgb(190, 150, 90)
    } else {
        Tint::White
    }
}

/// The colour of the icon of a file without extension by its (lower-cased) name.
pub open spec fn name_tint(n: Seq<char>) -> Tint {
    if n == "makefile"@ || n == "gemfile"@ || n == "rakefile"@ {
        Tint::Yellow
    } else if n == "dockerfile"@ {
        Tint::Cyan
    } else if n == "license"@ {
        Tint::Gray
    } else {
        Tint::White
    }
}

/// The colour of the icon drawn before an entry of kind `t` at `path`.
pub open spec fn tint_for(path: Seq<char>, t: EntryType) -> Tint {
    match t {
        EntryType::Directory => Tint::LightBlue,
        EntryType::Symlink => Tint::LightMagenta,
        EntryType::File => match extension(path) {
            Some(e) => ext_tint(lowercase(e)),
            None => match file_name(path) {
                Some(n) => name_tint(lowercase(n)),
                None => Tint::White,
            },
        },
    }
}

fn ext_tint_of(e: &Vec<char>) -> (r: Tint)
    ensures
        r == ext_tint(e@),
{
    if text_eq(e, "rs") {
        Tint::Rgb(244, 91, 50)
    } else if text_eq(e, "js") || text_eq(e, "mjs") || text_eq(e, "cjs") || text_eq(e, "py") || text_eq(e, "rb") {
        Tint::Yellow
    } else if text_eq(e, "jsx") || text_eq(e, "tsx") {
        Tint::LightYellow
    } else if text_eq(e, "ts") || text_eq(e, "mts") || text_eq(e, "cts") || text_eq(e, "go") || text_eq(e, "lua") {
        Tint::Cyan
    } else if text_eq(e, "c") || text_eq(e, "cpp") || text_eq(e, "cc") || text_eq(e, "cxx") || text_eq(e, "h") || text_eq(e, "hpp") || text_eq(e, "php") || text_eq(e, "pl") || text_eq(e, "pm") {
        Tint::Blue
    } else if text_eq(e, "swift") {
        Tint::Rgb(250, 115, 50)
    } else if text_eq(e, "kt") || text_eq(e, "kts") || text_eq(e, "hs") || text_eq(e, "lhs") || text_eq(e, "tf") || text_eq(e, "tfvars") {
        Tint::Magenta
    } else if text_eq(e, "java") || text_eq(e, "class") || text_eq(e, "jar") {
        Tint::Rgb(220, 50, 50)
    } else if text_eq(e, "scala") {
        Tint::Red
    } else if text_eq(e, "zig") || text_eq(e, "nim") {
        Tint::Rgb(230, 160, 20)
    } else if text_eq(e, "ml") || text_eq(e, "mli") {
        Tint::Rgb(238, 90, 36)
    } else if text_eq(e, "d") {
        Tint::Rgb(180, 50, 50)
    } else if text_eq(e, "html") || text_eq(e, "htm") || text_eq(e, "css") || text_eq(e, "scss") || text_eq(e, "sass") || text_eq(e, "less") {
        Tint::LightRed
    } else if text_eq(e, "elm") {
        Tint::LightCyan
    } else if text_eq(e, "sh") || text_eq(e, "bash") || text_eq(e, "zsh") || text_eq(e, "fish") || text_eq(e, "ksh") || text_eq(e, "ps1") || text_eq(e, "psm1") {
        Tint::LightGreen
    } else if text_eq(e, "json") || text_eq(e, "toml") || text_eq(e, "yml") || text_eq(e, "yaml") || text_eq(e, "xml") {
        Tint::Green
    } else if text_eq(e, "csv") || text_eq(e, "tsv") || text_eq(e, "sql") || text_eq(e, "db") || text_eq(e, "sqlite") || text_eq(e, "graphql") || text_eq(e, "gql") {
        Tint::LightGreen
    } else if text_eq(e, "nix") {
        Tint::LightBlue
    } else if text_eq(e, "md") || text_eq(e, "markdown") || text_eq(e, "txt") || text_eq(e, "log") || text_eq(e, "ini") || text_eq(e, "conf") {
        Tint::Gray
    } else if text_eq(e, "pdf") {
        Tint::Red
    } else if text_eq(e, "jpg") || text_eq(e, "jpeg") || text_eq(e, "png") || text_eq(e, "gif") || text_eq(e, "svg") || text_eq(e, "webp") || text_eq(e, "ico") || text_eq(e, "bmp") || text_eq(e, "tiff") {
        Tint::LightMagenta
    } else if text_eq(e, "zip") || text_eq(e, "tar") || text_eq(e, "gz") || text_eq(e, "xz") || text_eq(e, "bz2") || text_eq(e, "7z") || text_eq(e, "rar") {
        Tint::Rgb(190, 150, 90)
    } else {
        Tint::White
    }
}

fn name_tint_of(n: &Vec<char>) -> (r: Tint)
    ensures
        r == name_tint(n@),
{
    if text_eq(n, "makefile") || text_eq(n, "gemfile") || text_eq(n, "rakefile") {
        Tint::Yellow
    } else if text_eq(n, "dockerfile") {
        Tint::Cyan
    } else if text_eq(n, "license") {
        Tint::Gray
    } else {
        Tint::White
    }
}

/// The colour of the icon drawn before an entry: by kind, then by extension
/// or well-known file name.
pub fn get_icon_style(path: &str, entry_type: EntryType) -> (r: Tint)
    ensures
        r == tint_for(path@, entry_type),
{
    match entry_type {
        EntryType::Directory => Tint::LightBlue,
        EntryType::Symlink => Tint::LightMagenta,
        EntryType::File => {
            let p = chars_of(path);
            match extension_chars(&p) {
                Some(e) => ext_tint_of(&lower_chars(&e)),
                None => match file_name_chars(&p) {
                    Some(n) => name_tint_of(&lower_chars(&n)),
                    None => Tint::White,
                },
            }
        },
    }
}

/// Whether file previews are highlighted by bat (they always are).
pub fn is_using_bat_previewer() -> (r: bool)
    ensures
        r,
{
    true
}

/// One row of the help screen: the key, what it does, and its section.
#[derive(Debug, Clone, PartialEq, Eq)]
pub struct HelpItem {
    pub key: String,
    pub desc: String,
    pub context: String,
}

/// The texts of a help row.
pub open spec fn help_view(h: HelpItem) -> (Seq<char>, Seq<char>, Seq<char>) {
    (h.key@, h.desc@, h.context@)
}

/// The rows of the help screen.
pub open spec fn help_table() -> Seq<(Seq<char>, Seq<char>, Seq<char>)> {
    seq![
        ("q / Esc"@, "Quit application"@, "General"@),
        ("?"@, "Toggle help screen"@, "General"@),
        ("j / Down"@, "Move cursor down"@, "Navigation"@),
        ("k / Up"@, "Move cursor up"@, "Navigation"@),
        ("h / Left"@, "Navigate out to parent folder"@, "Navigation"@),
        ("Enter"@, "Enter directory / Open file in EDITOR"@, "Navigation"@),
        ("e"@, "Toggle inline directory expansion"@, "Navigation"@),
        ("s"@, "Cycle sort mode (size/name/mtime)"@, "Navigation"@),
        ("t"@, "Open new tab at current path"@, "Tabs"@),
        ("T"@, "Open new tab at home folder"@, "Tabs"@),
        ("Tab"@, "Switch to next tab"@, "Tabs"@),
        ("Shift+Tab"@, "Switch to previous tab"@, "Tabs"@),
        ("x"@, "Close active tab (keeps at least one)"@, "Tabs"@),
        ("m"@, "Bookmark current folder"@, "Bookmarks"@),
        ("b"@, "Open bookmarks modal"@, "Bookmarks"@),
        ("R"@, "Open recently visited history modal"@, "Bookmarks"@),
        ("Space"@, "Toggle selection of current item"@, "File Actions"@),
        ("y"@, "Yank full path(s) to clipboard"@, "File Actions"@),
        ("Y"@, "Yank filename(s) to clipboard"@, "File Actions"@),
        ("X"@, "Cut file(s) for moving"@, "File Actions"@),
        ("v"@, "Paste yanked/cut files here"@, "File Actions"@),
        ("o"@, "Open selected in system default application"@, "File Actions"@),
        ("d"@, "Delete selected file(s)/folder(s)"@, "File Actions"@),
        ("r"@, "Inline rename selected file/folder"@, "File Actions"@),
        ("/"@, "Fuzzy search files and directories"@, "Search"@),
        ("Esc"@, "Close current overlay / modal"@, "Modals"@),
        ("1-9"@, "Direct jump by index inside modals"@, "Modals"@),
        ("D"@, "Remove entry from bookmarks/recent"@, "Modals"@),
    ]
}

fn help_row(key: &str, desc: &str, context: &str) -> (h: HelpItem)
    ensures
        help_view(h) == (key@, desc@, context@),
{
    HelpItem {
        key: String::from_str(key),
        desc: String::from_str(desc),
        context: String::from_str(context),
    }
}

/// The rows of the help screen: every key binding with its description.
pub fn help_items() -> (r: Vec<HelpItem>)
    ensures
        r@.map_values(|h: HelpItem| help_view(h)) == help_table(),
{
    let mut r: Vec<HelpItem> = Vec::new();
    r.push(help_row("q / Esc", "Quit application", "General"));
    r.push(help_row("?", "Toggle help screen", "General"));
    r.push(help_row("j / Down", "Move cursor down", "Navigation"));
    r.push(help_row("k / Up", "Move cursor up", "Navigation"));
    r.push(help_row("h / Left", "Navigate out to parent folder", "Navigation"));
    r.push(help_row("Enter", "Enter directory / Open file in EDITOR", "Navigation"));
    r.push(help_row("e", "Toggle inline directory expansion", "Navigation"));
    r.push(help_row("s", "Cycle sort mode (size/name/mtime)", "Navigation"));
    r.push(help_row("t", "Open new tab at current path", "Tabs"));
    r.push(help_row("T", "Open new tab at home folder", "Tabs"));
    r.push(help_row("Tab", "Switch to next tab", "Tabs"));
    r.push(help_row("Shift+Tab", "Switch to previous tab", "Tabs"));
    r.push(help_row("x", "Close active tab (keeps at least one)", "Tabs"));
    r.push(help_row("m", "Bookmark current folder", "Bookmarks"));
    r.push(help_row("b", "Open bookmarks modal", "Bookmarks"));
    r.push(help_row("R", "Open recently visited history modal", "Bookmarks"));
    r.push(help_row("Space", "Toggle selection of current item", "File Actions"));
    r.push(help_row("y", "Yank full path(s) to clipboard", "File Actions"));
    r.push(help_row("Y", "Yank filename(s) to clipboard", "File Actions"));
    r.push(help_row("X", "Cut file(s) for moving", "File Actions"));
    r.push(help_row("v", "Paste yanked/cut files here", "File Actions"));
    r.push(help_row("o", "Open selected in system default application", "File Actions"));
    r.push(help_row("d", "Delete selected file(s)/folder(s)", "File Actions"));
    r.push(help_row("r", "Inline rename selected file/folder", "File Actions"));
    r.push(help_row("/", "Fuzzy search files and directories", "Search"));
    r.push(help_row("Esc", "Close current overlay / modal", "Modals"));
    r.push(help_row("1-9", "Direct jump by index inside modals", "Modals"));
    r.push(help_row("D", "Remove entry from bookmarks/recent", "Modals"));
    assert(r@.map_values(|h: HelpItem| help_view(h)) =~= help_table());
    r
}

} // verus!
