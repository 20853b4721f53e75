//! The adapter to the external download tool: which binary to run, the
//! arguments it is run with, and how its raw output is framed. Starting the
//! process and reading its pipes is left to the caller; everything decided
//! about them is decided here.

use crate::decimal::{decimal_string, decimal_text};
use crate::io_error::io_error_text;
use crate::state::{opt_text, AppConfig, ConfigView, CoverFormat, DownloadMode};
use crate::text::{
    chars_of, concat, concat5, contains, debug_quoted, ends_with, has_prefix, has_substring,
    has_suffix, is_blank, push_string, push_text, quote, same_text, starts_with, str_is_blank,
    string_of, texts, trim, trimmed,
};
use vstd::prelude::*;

verus! {

/// What can go wrong around the download tool.
#[derive(Debug)]
pub enum GytmdlError {
    BinaryNotFound(String),
    ProcessSpawnError(std::io::Error),
    InvalidUrl(String),
    ConfigError(String),
    ProcessError(String),
    ValidationError(String),
    IntegrityError(String),
    ManifestError(String),
}

/// The record that is shipped beside a bundled binary.
#[derive(Debug, Clone)]
pub struct BinaryManifest {
    pub binary_name: String,
    pub platform: PlatformInfo,
    pub size_bytes: u64,
    pub sha256: String,
    pub build_timestamp: String,
}

/// The platform that a bundled binary was built for.
#[derive(Debug, Clone)]
pub struct PlatformInfo {
    pub os: String,
    pub arch: String,
    pub target: String,
    pub extension: String,
}

/// A file found where bundled binaries are kept: its path, and its file name
/// where the name is valid text.
#[derive(Debug, Clone)]
pub struct BinaryCandidate {
    pub path: String,
    pub file_name: Option<String>,
}

/// What was found when looking for the tool's binary, in the order in which
/// the places are tried.
#[derive(Debug)]
pub struct BinaryProbe {
    /// The platform's binary under the directory of bundled binaries.
    pub sidecar_path: String,
    pub sidecar_exists: bool,
    /// The platform's binary under the current directory, or why the current
    /// directory could not be had.
    pub current_dir_path: Result<String, std::io::Error>,
    pub current_dir_exists: bool,
    /// Where a `gytmdl` was found on the search path.
    pub on_search_path: Option<String>,
}

/// How the process of one download is to be started: the program, its
/// arguments, the directories that must be there before it starts, in the
/// order in which they are to be made, and the directory it runs in. The
/// process gets no standard input, and both its output streams are piped.
#[derive(Debug, Clone)]
pub struct SpawnPlan {
    pub program: String,
    pub args: Vec<String>,
    pub directories: Vec<String>,
    pub working_dir: String,
}

/// The download tool as it is installed: the path of its binary.
#[derive(Debug)]
pub struct GytmdlWrapper {
    binary_path: String,
}

/// The message of an error, apart from the wording of an operating-system
/// error.
pub open spec fn error_prefix(e: GytmdlError) -> Seq<char> {
    match e {
        GytmdlError::BinaryNotFound(path) => "gytmdl binary not found at: "@ + path@,
        GytmdlError::ProcessSpawnError(_) => "Failed to spawn gytmdl process: "@,
        GytmdlError::InvalidUrl(url) => "Invalid URL: "@ + url@,
        GytmdlError::ConfigError(msg) => "Configuration error: "@ + msg@,
        GytmdlError::ProcessError(msg) => "Process error: "@ + msg@,
        GytmdlError::ValidationError(msg) => "Binary validation error: "@ + msg@,
        GytmdlError::IntegrityError(msg) => "Binary integrity error: "@ + msg@,
        GytmdlError::ManifestError(msg) => "Manifest error: "@ + msg@,
    }
}

impl GytmdlError {
    /// The message of the error. For a failure to spawn, the operating
    /// system's wording follows the prefix; every other message is exactly
    /// its prefix.
    pub fn to_string(&self) -> (r: String)
        ensures
            has_prefix(r@, error_prefix(*self)),
            !(self is ProcessSpawnError) ==> r@ == error_prefix(*self),
    {
        let r = match self {
            GytmdlError::BinaryNotFound(path) => concat(
                "gytmdl binary not found at: ",
                path.as_str(),
            ),
            GytmdlError::ProcessSpawnError(e) => {
                let text = io_error_text(e);
                concat("Failed to spawn gytmdl process: ", text.as_str())
            },
            GytmdlError::InvalidUrl(url) => concat("Invalid URL: ", url.as_str()),
            GytmdlError::ConfigError(msg) => concat("Configuration error: ", msg.as_str()),
            GytmdlError::ProcessError(msg) => concat("Process error: ", msg.as_str()),
            GytmdlError::ValidationError(msg) => concat("Binary validation error: ", msg.as_str()),
            GytmdlError::IntegrityError(msg) => concat("Binary integrity error: ", msg.as_str()),
            GytmdlError::ManifestError(msg) => concat("Manifest error: ", msg.as_str()),
        };
        proof {
            let p = error_prefix(*self);
            assert(r@.subrange(0, p.len() as int) =~= p);
        }
        r
    }
}

/// The name under which the tool's binary is bundled for a platform.
pub open spec fn platform_binary_name(os: Seq<char>, arch: Seq<char>) -> Seq<char> {
    if os == "windows"@ {
        if arch == "x86_64"@ {
            "gytmdl-x86_64-pc-windows-msvc.exe"@
        } else {
            "gytmdl.exe"@
        }
    } else if os == "macos"@ {
        if arch == "aarch64"@ {
            "gytmdl-aarch64-apple-darwin"@
        } else {
            "gytmdl-x86_64-apple-darwin"@
        }
    } else if os == "linux"@ {
        if arch == "x86_64"@ {
            "gytmdl-x86_64-unknown-linux-gnu"@
        } else {
            "gytmdl"@
        }
    } else {
        "gytmdl"@
    }
}

/// The word by which binary names tell an operating system.
pub open spec fn platform_word(os: Seq<char>) -> Seq<char> {
    if os == "windows"@ {
        "windows"@
    } else if os == "macos"@ {
        "darwin"@
    } else if os == "linux"@ {
        "linux"@
    } else {
        "unknown"@
    }
}

/// A file name of a bundled binary: it begins with `gytmdl` and is not a
/// manifest.
pub open spec fn is_binary_name(name: Seq<char>) -> bool {
    has_prefix(name, "gytmdl"@) && !has_suffix(name, ".json"@)
}

/// A source reference that the tool can take: an HTTP or HTTPS address of
/// YouTube or YouTube Music.
pub open spec fn is_valid_url(url: Seq<char>) -> bool {
    (has_prefix(url, "http://"@) || has_prefix(url, "https://"@)) && (has_substring(
        url,
        "music.youtube.com"@,
    ) || has_substring(url, "youtube.com/watch"@) || has_substring(url, "youtube.com/playlist"@)
        || has_substring(url, "youtu.be/"@))
}

/// The candidate's file name is exactly `name`.
pub open spec fn is_named(c: BinaryCandidate, name: Seq<char>) -> bool {
    c.file_name is Some && c.file_name->0@ == name
}

/// The candidate's file name holds `word`.
pub open spec fn name_holds(c: BinaryCandidate, word: Seq<char>) -> bool {
    c.file_name is Some && has_substring(c.file_name->0@, word)
}

/// The index of the first candidate named `name`, or the number of
/// candidates.
pub open spec fn first_named(cs: Seq<BinaryCandidate>, name: Seq<char>) -> int
    decreases cs.len(),
{
    if cs.len() == 0 || is_named(cs[0], name) {
        0
    } else {
        1 + first_named(cs.drop_first(), name)
    }
}

/// The index of the first candidate whose name holds `word`, or the number of
/// candidates.
pub open spec fn first_holding(cs: Seq<BinaryCandidate>, word: Seq<char>) -> int
    decreases cs.len(),
{
    if cs.len() == 0 || name_holds(cs[0], word) {
        0
    } else {
        1 + first_holding(cs.drop_first(), word)
    }
}

/// The candidate to run on a platform: the first one with the platform's
/// binary name; failing that the first whose name holds the platform's word;
/// failing that the first of all.
pub open spec fn best_candidate(cs: Seq<BinaryCandidate>, os: Seq<char>, arch: Seq<char>) -> int {
    if first_named(cs, platform_binary_name(os, arch)) < cs.len() {
        first_named(cs, platform_binary_name(os, arch))
    } else if first_holding(cs, platform_word(os)) < cs.len() {
        first_holding(cs, platform_word(os))
    } else {
        0
    }
}

/// `first_named` is within the candidates, names a candidate of that name
/// where it is an index at all, and has no such candidate before it.
pub proof fn first_named_bounds(cs: Seq<BinaryCandidate>, name: Seq<char>)
    ensures
        0 <= first_named(cs, name) <= cs.len(),
        first_named(cs, name) < cs.len() ==> is_named(cs[first_named(cs, name)], name),
        forall|j: int| 0 <= j < first_named(cs, name) ==> !is_named(#[trigger] cs[j], name),
    decreases cs.len(),
{
    if cs.len() == 0 || is_named(cs[0], name) {
    } else {
        first_named_bounds(cs.drop_first(), name);
        let k = first_named(cs.drop_first(), name);
        assert forall|j: int| 0 <= j < 1 + k implies !is_named(#[trigger] cs[j], name) by {
            if j > 0 {
                assert(cs.drop_first()[j - 1] == cs[j]);
            }
        }
    }
}

/// `first_holding` is within the candidates, names a candidate whose name
/// holds the word where it is an index at all, and has no such candidate
/// before it.
pub proof fn first_holding_bounds(cs: Seq<BinaryCandidate>, word: Seq<char>)
    ensures
        0 <= first_holding(cs, word) <= cs.len(),
        first_holding(cs, word) < cs.len() ==> name_holds(cs[first_holding(cs, word)], word),
        forall|j: int| 0 <= j < first_holding(cs, word) ==> !name_holds(#[trigger] cs[j], word),
    decreases cs.len(),
{
    if cs.len() == 0 || name_holds(cs[0], word) {
    } else {
        first_holding_bounds(cs.drop_first(), word);
        let k = first_holding(cs.drop_first(), word);
        assert forall|j: int| 0 <= j < 1 + k implies !name_holds(#[trigger] cs[j], word) by {
            if j > 0 {
                assert(cs.drop_first()[j - 1] == cs[j]);
            }
        }
    }
}

/// The arguments that name the cookies file.
pub open spec fn cookie_args(cfg: ConfigView, cookies_file_exists: bool) -> Seq<Seq<char>> {
    match cfg.cookies_path {
        Some(path) => if cookies_file_exists {
            seq!["--cookies-path"@, path]
        } else {
            Seq::empty()
        },
        None => Seq::empty(),
    }
}

/// The argument that selects what is downloaded.
pub open spec fn mode_args(mode: DownloadMode) -> Seq<Seq<char>> {
    match mode {
        DownloadMode::Audio => Seq::empty(),
        DownloadMode::Video => seq!["--video"@],
        DownloadMode::AudioVideo => seq!["--audio-video"@],
    }
}

/// The name of a cover format.
pub open spec fn cover_format_name(format: CoverFormat) -> Seq<char> {
    match format {
        CoverFormat::Jpg => "jpg"@,
        CoverFormat::Png => "png"@,
        CoverFormat::Webp => "webp"@,
    }
}

/// The arguments that deal with the cover.
pub open spec fn cover_args(cfg: ConfigView) -> Seq<Seq<char>> {
    if cfg.save_cover {
        seq![
            "--cover-size"@,
            decimal_text(cfg.cover_size as nat),
            "--cover-format"@,
            cover_format_name(cfg.cover_format),
            "--cover-quality"@,
            decimal_text(cfg.cover_quality as nat),
        ]
    } else {
        seq!["--no-cover"@]
    }
}

/// The three templates.
pub open spec fn template_args(cfg: ConfigView) -> Seq<Seq<char>> {
    seq![
        "--template-folder"@,
        cfg.template_folder,
        "--template-file"@,
        cfg.template_file,
        "--template-date"@,
        cfg.template_date,
    ]
}

/// An option and its value, where the value is there and not blank.
pub open spec fn text_option_args(flag: Seq<char>, value: Option<Seq<char>>) -> Seq<Seq<char>> {
    match value {
        Some(v) => if is_blank(v) {
            Seq::empty()
        } else {
            seq![flag, v]
        },
        None => Seq::empty(),
    }
}

/// The length to which names are cut.
pub open spec fn truncate_args(truncate: Option<u32>) -> Seq<Seq<char>> {
    match truncate {
        Some(n) => seq!["--truncate"@, decimal_text(n as nat)],
        None => Seq::empty(),
    }
}

/// A switch, where it is on.
pub open spec fn switch_args(flag: Seq<char>, on: bool) -> Seq<Seq<char>> {
    if on {
        seq![flag]
    } else {
        Seq::empty()
    }
}

/// The argument vector for one download: the settings in a fixed order, the
/// source reference last. The cookies file is named only where it exists.
pub open spec fn command_args(cfg: ConfigView, url: Seq<char>, cookies_file_exists: bool) -> Seq<
    Seq<char>,
> {
    seq!["--output-path"@, cfg.output_path, "-i"@, cfg.itag] + cookie_args(
        cfg,
        cookies_file_exists,
    ) + mode_args(cfg.download_mode) + cover_args(cfg) + template_args(cfg) + text_option_args(
        "--po-token"@,
        cfg.po_token,
    ) + text_option_args("--exclude-tags"@, cfg.exclude_tags) + truncate_args(cfg.truncate)
        + switch_args("--overwrite"@, cfg.overwrite) + switch_args(
        "--no-synced-lyrics"@,
        cfg.no_synced_lyrics,
    ) + seq![url]
}

/// Whatever the settings, the source reference is the last argument, and
/// the output directory is named first.
pub proof fn source_reference_is_last(cfg: ConfigView, url: Seq<char>, cookies_file_exists: bool)
    ensures
        command_args(cfg, url, cookies_file_exists).len() >= 5,
        command_args(cfg, url, cookies_file_exists).last() == url,
        command_args(cfg, url, cookies_file_exists)[0] == "--output-path"@,
        command_args(cfg, url, cookies_file_exists)[1] == cfg.output_path,
{
}

/// The path at which the tool is found: the first of the places of the
/// probe that has it. Nothing is found where the current directory could
/// not be had and the bundled binaries do not hold the tool.
pub open spec fn detected_path(probe: BinaryProbe) -> Option<Seq<char>> {
    if probe.sidecar_exists {
        Some(probe.sidecar_path@)
    } else {
        match probe.current_dir_path {
            Ok(path) => if probe.current_dir_exists {
                Some(path@)
            } else {
                opt_text(probe.on_search_path)
            },
            Err(_) => None,
        }
    }
}

/// The error of a search that found nothing: the error that kept the current
/// directory from being had, or else that the binary was found nowhere.
pub open spec fn is_detection_error(e: GytmdlError, binary_name: Seq<char>, probe: BinaryProbe) -> bool {
    match probe.current_dir_path {
        Err(io) => e == GytmdlError::ProcessSpawnError(io),
        Ok(_) => e is BinaryNotFound && e->BinaryNotFound_0@ == not_found_message(
            binary_name,
            probe.sidecar_path@,
        ),
    }
}

/// The message for a binary that was found nowhere.
pub open spec fn not_found_message(binary_name: Seq<char>, sidecar_path: Seq<char>) -> Seq<char> {
    "Could not find gytmdl binary. Searched for: "@ + binary_name + " in sidecar directory: "@
        + debug_quoted(sidecar_path) + ", current directory, and PATH"@
}

/// A line as a pipe delivers it, without its line ending: one `\n` is taken
/// off the end, and one `\r` before it.
pub open spec fn without_line_ending(line: Seq<char>) -> Seq<char> {
    if line.len() > 0 && line.last() == '\n' {
        if line.len() > 1 && line[line.len() - 2] == '\r' {
            line.take(line.len() - 2)
        } else {
            line.take(line.len() - 1)
        }
    } else {
        line
    }
}

/// Appends an option and its value where the value is there and not blank.
fn push_text_option(args: &mut Vec<String>, flag: &str, value: &Option<String>)
    ensures
        texts(final(args)@) == texts(old(args)@) + text_option_args(flag@, opt_text(*value)),
{
    match value {
        Some(v) => {
            if !str_is_blank(v.as_str()) {
                push_text(args, flag);
                push_string(args, v.clone());
                assert(texts(args@) =~= texts(old(args)@) + seq![flag@, v@]);
            } else {
                assert(texts(args@) =~= texts(old(args)@) + Seq::<Seq<char>>::empty());
            }
        },
        None => {
            assert(texts(args@) =~= texts(old(args)@) + Seq::<Seq<char>>::empty());
        },
    }
}

/// Appends a switch where it is on.
fn push_switch(args: &mut Vec<String>, flag: &str, on: bool)
    ensures
        texts(final(args)@) == texts(old(args)@) + switch_args(flag@, on),
{
    if on {
        push_text(args, flag);
        assert(texts(args@) =~= texts(old(args)@) + seq![flag@]);
    } else {
        assert(texts(args@) =~= texts(old(args)@) + Seq::<Seq<char>>::empty());
    }
}

fn push_cover_args(args: &mut Vec<String>, config: &AppConfig)
    ensures
        texts(final(args)@) == texts(old(args)@) + cover_args(config@),
{
    if config.save_cover {
        push_text(args, "--cover-size");
        push_string(args, decimal_string(config.cover_size as u64));
        push_text(args, "--cover-format");
        match config.cover_format {
            CoverFormat::Jpg => push_text(args, "jpg"),
            CoverFormat::Png => push_text(args, "png"),
            CoverFormat::Webp => push_text(args, "webp"),
        }
        push_text(args, "--cover-quality");
        push_string(args, decimal_string(config.cover_quality as u64));
        assert(texts(args@) =~= texts(old(args)@) + cover_args(config@));
    } else {
        push_text(args, "--no-cover");
        assert(texts(args@) =~= texts(old(args)@) + cover_args(config@));
    }
}

fn push_leading_args(args: &mut Vec<String>, config: &AppConfig, cookies_file_exists: bool)
    requires
        old(args)@.len() == 0,
    ensures
        texts(final(args)@) == seq!["--output-path"@, config@.output_path, "-i"@, config@.itag]
            + cookie_args(config@, cookies_file_exists) + mode_args(config@.download_mode),
{
    push_text(args, "--output-path");
    push_string(args, config.output_path.clone());
    push_text(args, "-i");
    push_string(args, config.itag.clone());
    let ghost head = texts(args@);
    assert(head =~= seq!["--output-path"@, config@.output_path, "-i"@, config@.itag]);
    match &config.cookies_path {
        Some(path) => {
            if cookies_file_exists {
                push_text(args, "--cookies-path");
                push_string(args, path.clone());
            }
        },
        None => {},
    }
    let ghost mid = texts(args@);
    assert(mid =~= head + cookie_args(config@, cookies_file_exists));
    match config.download_mode {
        DownloadMode::Audio => {},
        DownloadMode::Video => {
            push_text(args, "--video");
        },
        DownloadMode::AudioVideo => {
            push_text(args, "--audio-video");
        },
    }
    assert(texts(args@) =~= mid + mode_args(config@.download_mode));
}

fn push_template_args(args: &mut Vec<String>, config: &AppConfig)
    ensures
        texts(final(args)@) == texts(old(args)@) + template_args(config@),
{
    push_text(args, "--template-folder");
    push_string(args, config.template_folder.clone());
    push_text(args, "--template-file");
    push_string(args, config.template_file.clone());
    push_text(args, "--template-date");
    push_string(args, config.template_date.clone());
    assert(texts(args@) =~= texts(old(args)@) + template_args(config@));
}

fn push_truncate_args(args: &mut Vec<String>, truncate: Option<u32>)
    ensures
        texts(final(args)@) == texts(old(args)@) + truncate_args(truncate),
{
    match truncate {
        Some(n) => {
            push_text(args, "--truncate");
            push_string(args, decimal_string(n as u64));
            assert(texts(args@) =~= texts(old(args)@) + truncate_args(truncate));
        },
        None => {
            assert(texts(args@) =~= texts(old(args)@) + truncate_args(truncate));
        },
    }
}

impl GytmdlWrapper {
    /// The tool at the first place where its binary was found: among the
    /// bundled binaries, then in the current directory, then on the search
    /// path. Fails where the current directory could not be had, and where
    /// the binary was found nowhere.
    pub fn new(binary_name: &str, probe: BinaryProbe) -> (r: Result<Self, GytmdlError>)
        ensures
            match r {
                Ok(w) => detected_path(probe) == Some(w.path()),
                Err(e) => detected_path(probe) is None && is_detection_error(e, binary_name@, probe),
            },
    {
        if probe.sidecar_exists {
            return Ok(GytmdlWrapper { binary_path: probe.sidecar_path });
        }
        let in_current_dir = match probe.current_dir_path {
            Ok(path) => path,
            Err(e) => {
                return Err(GytmdlError::ProcessSpawnError(e));
            },
        };
        if probe.current_dir_exists {
            return Ok(GytmdlWrapper { binary_path: in_current_dir });
        }
        match probe.on_search_path {
            Some(path) => Ok(GytmdlWrapper { binary_path: path }),
            None => {
                let quoted = quote(probe.sidecar_path.as_str());
                Err(
                    GytmdlError::BinaryNotFound(
                        concat5(
                            "Could not find gytmdl binary. Searched for: ",
                            binary_name,
                            " in sidecar directory: ",
                            quoted.as_str(),
                            ", current directory, and PATH",
                        ),
                    ),
                )
            },
        }
    }

    /// The tool at the given path, where `exists` says that a file is there.
    pub fn with_binary_path(binary_path: String, exists: bool) -> (r: Result<Self, GytmdlError>)
        ensures
            match r {
                Ok(w) => exists && w.path() == binary_path@,
                Err(e) => !exists && e == GytmdlError::BinaryNotFound(binary_path),
            },
    {
        if !exists {
            return Err(GytmdlError::BinaryNotFound(binary_path));
        }
        Ok(GytmdlWrapper { binary_path })
    }

    /// The path of the binary.
    pub closed spec fn path(&self) -> Seq<char> {
        self.binary_path@
    }

    /// The name under which the tool's binary is bundled for the platform
    /// with the given operating system and processor architecture.
    pub fn get_platform_binary_name(os: &str, arch: &str) -> (r: String)
        ensures
            r@ == platform_binary_name(os@, arch@),
    {
        if same_text(os, "windows") {
            if same_text(arch, "x86_64") {
                "gytmdl-x86_64-pc-windows-msvc.exe".to_owned()
            } else {
                "gytmdl.exe".to_owned()
            }
        } else if same_text(os, "macos") {
            if same_text(arch, "aarch64") {
                "gytmdl-aarch64-apple-darwin".to_owned()
            } else {
                "gytmdl-x86_64-apple-darwin".to_owned()
            }
        } else if same_text(os, "linux") {
            if same_text(arch, "x86_64") {
                "gytmdl-x86_64-unknown-linux-gnu".to_owned()
            } else {
                "gytmdl".to_owned()
            }
        } else {
            "gytmdl".to_owned()
        }
    }

    /// Whether a file of this name, found among the bundled binaries, is one
    /// of them.
    pub fn is_binary_file_name(name: &str) -> (r: bool)
        ensures
            r == is_binary_name(name@),
    {
        let n = chars_of(name);
        let prefix = chars_of("gytmdl");
        let suffix = chars_of(".json");
        starts_with(n.as_slice(), prefix.as_slice()) && !ends_with(n.as_slice(), suffix.as_slice())
    }

    /// The path of the bundled binary to run on the given platform. Fails
    /// only where there is no candidate.
    pub fn select_best_binary(available: &Vec<BinaryCandidate>, os: &str, arch: &str) -> (r: Result<
        String,
        GytmdlError,
    >)
        ensures
            match r {
                Ok(path) => available@.len() > 0 && path == available@[best_candidate(
                    available@,
                    os@,
                    arch@,
                )].path,
                Err(e) => available@.len() == 0 && e is BinaryNotFound && e->BinaryNotFound_0@
                    == "No gytmdl binaries found in sidecar directory"@,
            },
    {
        if available.len() == 0 {
            return Err(
                GytmdlError::BinaryNotFound(
                    "No gytmdl binaries found in sidecar directory".to_owned(),
                ),
            );
        }
        let name = Self::get_platform_binary_name(os, arch);
        let mut i: usize = 0;
        while i < available.len()
            invariant
                i <= available.len(),
                name@ == platform_binary_name(os@, arch@),
                forall|j: int| 0 <= j < i ==> !is_named(#[trigger] available@[j], name@),
            decreases available.len() - i,
        {
            let hit = match &available[i].file_name {
                Some(f) => same_text(f.as_str(), name.as_str()),
                None => false,
            };
            if hit {
                proof {
                    first_named_bounds(available@, name@);
                }
                return Ok(available[i].path.clone());
            }
            i += 1;
        }
        proof {
            first_named_bounds(available@, name@);
        }
        let word = if same_text(os, "windows") {
            "windows"
        } else if same_text(os, "macos") {
            "darwin"
        } else if same_text(os, "linux") {
            "linux"
        } else {
            "unknown"
        };
        let w = chars_of(word);
        let mut k: usize = 0;
        while k < available.len()
            invariant
                k <= available.len(),
                available.len() > 0,
                w@ == platform_word(os@),
                first_named(available@, platform_binary_name(os@, arch@)) == available@.len(),
                forall|j: int| 0 <= j < k ==> !name_holds(#[trigger] available@[j], w@),
            decreases available.len() - k,
        {
            let hit = match &available[k].file_name {
                Some(f) => {
                    let fc = chars_of(f.as_str());
                    contains(fc.as_slice(), w.as_slice())
                },
                None => false,
            };
            if hit {
                proof {
                    first_holding_bounds(available@, w@);
                }
                return Ok(available[k].path.clone());
            }
            k += 1;
        }
        proof {
            first_holding_bounds(available@, w@);
        }
        Ok(available[0].path.clone())
    }

    /// The argument vector for downloading `url` with the given settings.
    /// `cookies_file_exists` says whether the cookies file that the settings
    /// name is there. A source reference that the tool cannot take is
    /// refused.
    pub fn build_command_args(
        &self,
        config: &AppConfig,
        url: &str,
        job_id: &str,
        cookies_file_exists: bool,
    ) -> (r: Result<Vec<String>, GytmdlError>)
        ensures
            match r {
                Ok(args) => is_valid_url(url@) && texts(args@) == command_args(
                    config@,
                    url@,
                    cookies_file_exists,
                ),
                Err(e) => !is_valid_url(url@) && e is InvalidUrl && e->InvalidUrl_0@ == url@,
            },
    {
        if !Self::is_valid_youtube_music_url(url) {
            return Err(GytmdlError::InvalidUrl(url.to_owned()));
        }
        let mut args: Vec<String> = Vec::new();
        push_leading_args(&mut args, config, cookies_file_exists);
        push_cover_args(&mut args, config);
        push_template_args(&mut args, config);
        push_text_option(&mut args, "--po-token", &config.po_token);
        push_text_option(&mut args, "--exclude-tags", &config.exclude_tags);
        push_truncate_args(&mut args, config.truncate);
        push_switch(&mut args, "--overwrite", config.overwrite);
        push_switch(&mut args, "--no-synced-lyrics", config.no_synced_lyrics);
        let ghost body = texts(args@);
        push_text(&mut args, url);
        assert(texts(args@) =~= body + seq![url@]);
        Ok(args)
    }

    /// How the download of `url` is to be started with the given settings:
    /// this binary with the arguments of the download, in the output
    /// directory, after the output directory and the directory for
    /// temporary files were made. A source reference that the tool cannot
    /// take is refused.
    pub fn spawn_plan(&self, config: &AppConfig, url: &str, job_id: &str, cookies_file_exists: bool) -> (r:
        Result<SpawnPlan, GytmdlError>)
        ensures
            match r {
                Ok(plan) => is_valid_url(url@) && plan.program@ == self.path() && texts(plan.args@)
                    == command_args(config@, url@, cookies_file_exists) && texts(plan.directories@)
                    == seq![config@.output_path, config@.temp_path] && plan.working_dir@
                    == config@.output_path,
                Err(e) => !is_valid_url(url@) && e is InvalidUrl && e->InvalidUrl_0@ == url@,
            },
    {
        let args = match self.build_command_args(config, url, job_id, cookies_file_exists) {
            Ok(args) => args,
            Err(e) => {
                return Err(e);
            },
        };
        let mut directories: Vec<String> = Vec::new();
        push_string(&mut directories, config.output_path.clone());
        push_string(&mut directories, config.temp_path.clone());
        assert(texts(directories@) =~= seq![config@.output_path, config@.temp_path]);
        Ok(
            SpawnPlan {
                program: self.binary_path.clone(),
                args,
                directories,
                working_dir: config.output_path.clone(),
            },
        )
    }

    /// The error for a directory of a spawn plan that could not be made:
    /// the output directory where `index` is 0, the directory for temporary
    /// files else.
    pub fn directory_error(index: usize, reason: &str) -> (e: GytmdlError)
        ensures
            e is ConfigError,
            e->ConfigError_0@ == (if index == 0 {
                "Failed to create output directory: "@
            } else {
                "Failed to create temp directory: "@
            }) + reason@,
    {
        if index == 0 {
            GytmdlError::ConfigError(concat("Failed to create output directory: ", reason))
        } else {
            GytmdlError::ConfigError(concat("Failed to create temp directory: ", reason))
        }
    }

    /// Whether the tool can take `url` as a source reference.
    pub fn is_valid_youtube_music_url(url: &str) -> (r: bool)
        ensures
            r == is_valid_url(url@),
    {
        let u = chars_of(url);
        let http = chars_of("http://");
        let https = chars_of("https://");
        if !starts_with(u.as_slice(), http.as_slice()) && !starts_with(
            u.as_slice(),
            https.as_slice(),
        ) {
            return false;
        }
        let a = chars_of("music.youtube.com");
        let b = chars_of("youtube.com/watch");
        let c = chars_of("youtube.com/playlist");
        let d = chars_of("youtu.be/");
        contains(u.as_slice(), a.as_slice()) || contains(u.as_slice(), b.as_slice()) || contains(
            u.as_slice(),
            c.as_slice(),
        ) || contains(u.as_slice(), d.as_slice())
    }

    /// What a run of the binary with `--version` says of it: on success the
    /// trimmed standard output, else a process error that quotes the
    /// standard error.
    pub fn version_from_output(success: bool, stdout: &str, stderr: &str) -> (r: Result<
        String,
        GytmdlError,
    >)
        ensures
            match r {
                Ok(version) => success && version@ == trimmed(stdout@),
                Err(e) => !success && e is ProcessError && e->ProcessError_0@
                    == "Binary test failed: "@ + stderr@,
            },
    {
        if success {
            let out = chars_of(stdout);
            let t = trim(out.as_slice());
            Ok(string_of(t.as_slice()))
        } else {
            Err(GytmdlError::ProcessError(concat("Binary test failed: ", stderr)))
        }
    }

    /// Holds a binary against its manifest: the size must be the one that
    /// the manifest gives, and so must the hash.
    pub fn validate_integrity(manifest: &BinaryManifest, actual_size: u64, actual_hash: &str) -> (r:
        Result<bool, GytmdlError>)
        ensures
            match r {
                Ok(sound) => sound && actual_size == manifest.size_bytes && actual_hash@
                    == manifest.sha256@,
                Err(e) => e is IntegrityError && (if actual_size != manifest.size_bytes {
                    e->IntegrityError_0@ == "Binary size mismatch. Expected: "@ + decimal_text(
                        manifest.size_bytes as nat,
                    ) + ", Actual: "@ + decimal_text(actual_size as nat)
                } else {
                    actual_hash@ != manifest.sha256@ && e->IntegrityError_0@
                        == "Binary hash mismatch. Expected: "@ + manifest.sha256@
                        + ", Actual: "@ + actual_hash@
                }),
            },
    {
        if actual_size != manifest.size_bytes {
            let expected = decimal_string(manifest.size_bytes);
            let actual = decimal_string(actual_size);
            return Err(
                GytmdlError::IntegrityError(
                    crate::text::concat4(
                        "Binary size mismatch. Expected: ",
                        expected.as_str(),
                        ", Actual: ",
                        actual.as_str(),
                    ),
                ),
            );
        }
        if !same_text(actual_hash, manifest.sha256.as_str()) {
            return Err(
                GytmdlError::IntegrityError(
                    crate::text::concat4(
                        "Binary hash mismatch. Expected: ",
                        manifest.sha256.as_str(),
                        ", Actual: ",
                        actual_hash,
                    ),
                ),
            );
        }
        Ok(true)
    }

    /// Takes the line ending off a line read from a pipe.
    pub fn strip_line_ending(line: &str) -> (r: String)
        ensures
            r@ == without_line_ending(line@),
    {
        let v = chars_of(line);
        let n = v.len();
        let end: usize = if n > 0 && v[n - 1] == '\n' {
            if n > 1 && v[n - 2] == '\r' {
                n - 2
            } else {
                n - 1
            }
        } else {
            n
        };
        let mut out: Vec<char> = Vec::new();
        let mut i: usize = 0;
        while i < end
            invariant
                i <= end <= v.len(),
                out@ == v@.take(i as int),
            decreases end - i,
        {
            out.push(v[i]);
            assert(v@.take(i as int).push(v@[i as int]) =~= v@.take(i + 1));
            i += 1;
        }
        proof {
            if end == n {
                assert(v@.take(n as int) =~= v@);
            }
        }
        string_of(out.as_slice())
    }

    /// The path of the binary.
    pub fn get_binary_path(&self) -> (r: &str)
        ensures
            r@ == self.path(),
    {
        self.binary_path.as_str()
    }
}

} // verus!
