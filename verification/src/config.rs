use vstd::prelude::*;

verus! {

/// Application operating mode
#[derive(Clone, Copy, Debug, PartialEq, Eq, Structural)]
pub enum AppMode {
    /// Display receipts in GUI without saving
    PrintAndView,
    /// Save each receipt as PDF, organized by device IP
    SaveAsPdf,
}

impl Default for AppMode {
    fn default() -> (m: Self)
        ensures
            m == AppMode::PrintAndView,
    {
        AppMode::PrintAndView
    }
}

/// Persistent application configuration
#[derive(Clone, Debug)]
pub struct AppConfig {
    pub mode: AppMode,
    pub server_port: u16,
    pub bind_address: String,
    pub paper_width_mm: u32,
    pub pdf_save_path: String,
    pub max_history_size: usize,
}

/// A path component made of ASCII letters, digits and underscores only.
pub open spec fn plain_name(s: Seq<char>) -> bool {
    &&& s.len() > 0
    &&& forall|i: int|
        0 <= i < s.len() ==> {
            let u = #[trigger] s[i] as u32;
            ||| 0x30 <= u <= 0x39
            ||| 0x41 <= u <= 0x5a
            ||| 0x61 <= u <= 0x7a
            ||| u == 0x5f
        }
}

pub open spec fn is_separator(c: char) -> bool {
    c == '/' || c == '\\'
}

/// A path that may carry a Windows verbatim prefix (`\\?\`), to which
/// `PathBuf::push` normalizes what it joins.
pub open spec fn may_be_verbatim(base: Seq<char>) -> bool {
    &&& base.len() >= 4
    &&& is_separator(base[0])
    &&& is_separator(base[1])
    &&& base[2] == '?'
    &&& is_separator(base[3])
}

/// A path that may be a bare Windows drive such as `C:`, to which `push`
/// adds no separator.
pub open spec fn may_be_bare_drive(base: Seq<char>) -> bool {
    base.len() == 2 && base[1] == ':'
}

/// `s` ends with `t`.
pub open spec fn ends_with(s: Seq<char>, t: Seq<char>) -> bool {
    s.len() >= t.len() && s.subrange(s.len() - t.len(), s.len() as int) == t
}

/// What joining the plain name `part` to `base` gives, as `PathBuf::push`
/// documents it: the name alone for an empty base; the name right after a base
/// that ends in `/`; the name after the platform's separator, `/` or `\`, for a
/// base that does not end in a separator (a bare drive such as `C:` and a
/// verbatim base left aside). In every case the result ends with the name.
pub open spec fn join_spec(base: Seq<char>, part: Seq<char>, joined: Seq<char>) -> bool {
    &&& ends_with(joined, part)
    &&& !may_be_verbatim(base) ==> {
        &&& base.len() == 0 ==> joined == part
        &&& base.len() > 0 && base.last() == '/' ==> joined == base + part
        &&& base.len() > 0 && !is_separator(base.last()) && !may_be_bare_drive(base) ==> {
            ||| joined == base + seq!['/'] + part
            ||| joined == base + seq!['\\'] + part
        }
    }
}

/// Calls `std::path::Path::join`, which extends the base with the part as
/// `PathBuf::push` does. For a plain relative name, `join_spec` states the
/// documented result; a base ending in `\` (a separator on Windows only), a
/// bare drive and a verbatim base are left with the name at the end only.
#[verifier::external_body]
pub(crate) fn join_path(base: &str, part: &str) -> (joined: String)
    ensures
        plain_name(part@) ==> join_spec(base@, part@, joined@),
{
    std::path::Path::new(base).join(part).to_string_lossy().into_owned()
}

/// An optional text as a sequence of characters.
pub open spec fn text_view(t: Option<String>) -> Option<Seq<char>> {
    match t {
        Some(s) => Some(s@),
        None => None,
    }
}

/// The folder that receipts are saved to when none was chosen: the folder
/// `ESC_POS_Receipts` in the documents folder, or in the working folder `.`
/// when there is no documents folder.
pub open spec fn save_path_for(documents: Option<Seq<char>>, path: Seq<char>) -> bool {
    let base = match documents {
        Some(d) => d,
        None => "."@,
    };
    join_spec(base, "ESC_POS_Receipts"@, path)
}

/// The default save folder for a documents folder (`None` when there is none).
pub fn pdf_save_path_in(documents: Option<String>) -> (path: String)
    ensures
        save_path_for(text_view(documents), path@),
{
    let name = "ESC_POS_Receipts";
    proof {
        reveal_strlit("ESC_POS_Receipts");
        assert(plain_name(name@));
    }
    match documents {
        Some(dir) => join_path(dir.as_str(), name),
        None => join_path(".", name),
    }
}

impl AppConfig {
    /// The default configuration, for the user's documents folder (`None` when
    /// there is none): print-and-view mode, port 9100 on every interface, 80 mm
    /// paper, a history of 1000 commands, and receipts saved to
    /// `ESC_POS_Receipts` in the documents folder.
    pub fn default_for(documents: Option<String>) -> (c: Self)
        ensures
            c.mode == AppMode::PrintAndView,
            c.server_port == 9100,
            c.bind_address@ == "0.0.0.0"@,
            c.paper_width_mm == 80,
            c.max_history_size == 1000,
            save_path_for(text_view(documents), c.pdf_save_path@),
    {
        Self {
            mode: AppMode::PrintAndView,
            server_port: 9100,
            bind_address: "0.0.0.0".to_owned(),
            paper_width_mm: 80,
            pdf_save_path: pdf_save_path_in(documents),
            max_history_size: 1000,
        }
    }
}

} // verus!
