//! Cookie files in the Netscape format: whether a file is one, and what its
//! cookies say of the YouTube session.
//!
//! A cookie file is read line by line. A line is trimmed; blank lines and
//! lines that begin with `#` are passed over; every other line is a cookie,
//! its fields separated by tabs: domain, flag, path, secure, expiration,
//! name, value.

use crate::clock::now;
use crate::decimal::{decimal_string, decimal_text, parse_i64, parsed_i64};
use crate::io_error::io_error_text;
use crate::state::opt_text;
use crate::text::{
    chars_of, concat, concat3, concat5, contains, has_prefix, has_substring, join, joined, rows,
    same_chars, split, split_on, string_of, texts, trim, trimmed,
};
use vstd::prelude::*;

verus! {

/// What is known of the cookies.
#[derive(Debug, Clone)]
pub struct CookieInfo {
    pub is_valid: bool,
    pub expiration_warning: Option<String>,
    pub po_token_present: bool,
    pub file_path: Option<String>,
}

/// What can go wrong with a cookie file.
#[derive(Debug)]
pub enum CookieError {
    FileNotFound(String),
    InvalidFormat(String),
    ReadError(std::io::Error),
    ValidationError(String),
}

/// Keeps the directory of the managed cookie file.
pub struct CookieManager {
    cookies_dir: String,
}

/// The message of an error, apart from the wording of an operating-system
/// error.
pub open spec fn cookie_error_prefix(e: CookieError) -> Seq<char> {
    match e {
        CookieError::FileNotFound(path) => "Cookie file not found: "@ + path@,
        CookieError::InvalidFormat(msg) => "Invalid cookie format: "@ + msg@,
        CookieError::ReadError(_) => "Failed to read cookie file: "@,
        CookieError::ValidationError(msg) => "Cookie validation failed: "@ + msg@,
    }
}

impl CookieError {
    /// The message of the error. For a read error the operating system's
    /// wording follows the prefix; every other message is exactly its prefix.
    pub fn to_string(&self) -> (r: String)
        ensures
            has_prefix(r@, cookie_error_prefix(*self)),
            !(self is ReadError) ==> r@ == cookie_error_prefix(*self),
    {
        let r = match self {
            CookieError::FileNotFound(path) => concat("Cookie file not found: ", path.as_str()),
            CookieError::InvalidFormat(msg) => concat("Invalid cookie format: ", msg.as_str()),
            CookieError::ReadError(e) => {
                let text = io_error_text(e);
                concat("Failed to read cookie file: ", text.as_str())
            },
            CookieError::ValidationError(msg) => concat(
                "Cookie validation failed: ",
                msg.as_str(),
            ),
        };
        proof {
            let p = cookie_error_prefix(*self);
            assert(r@.subrange(0, p.len() as int) =~= p);
        }
        r
    }
}

/// What is wrong with the content of a cookie file.
pub enum CookieFault {
    /// The file holds nothing at all.
    Empty,
    /// A cookie line has this many fields, fewer than six.
    TooFewFields(nat),
    /// No line is a cookie.
    NoCookieLines,
    /// No cookie is of a YouTube domain.
    NoYoutubeCookies,
}

/// A trimmed line that is passed over: blank, or a comment.
pub open spec fn is_passed_over(line: Seq<char>) -> bool {
    line.len() == 0 || line[0] == '#'
}

/// A domain of YouTube.
pub open spec fn is_youtube_domain(domain: Seq<char>) -> bool {
    has_substring(domain, "youtube.com"@) || has_substring(domain, ".youtube.com"@)
}

/// What is wrong with the lines from index `from` on, given whether a cookie
/// line and a YouTube cookie were seen before. The first cookie line with
/// too few fields settles it; else the file must hold a cookie, and a
/// cookie of YouTube.
pub open spec fn lines_fault(
    lines: Seq<Seq<char>>,
    from: int,
    any_cookie: bool,
    any_youtube: bool,
) -> Option<CookieFault>
    decreases lines.len() - from,
{
    if from < 0 || from >= lines.len() {
        if !any_cookie {
            Some(CookieFault::NoCookieLines)
        } else if !any_youtube {
            Some(CookieFault::NoYoutubeCookies)
        } else {
            None
        }
    } else if is_passed_over(trimmed(lines[from])) {
        lines_fault(lines, from + 1, any_cookie, any_youtube)
    } else {
        let fields = split_on(trimmed(lines[from]), '\t');
        if fields.len() < 6 {
            Some(CookieFault::TooFewFields(fields.len()))
        } else {
            lines_fault(lines, from + 1, true, any_youtube || is_youtube_domain(fields[0]))
        }
    }
}

/// What is wrong with the content of a cookie file; `None` where it is a
/// cookie file with cookies of YouTube.
pub open spec fn content_fault(content: Seq<char>) -> Option<CookieFault> {
    if content.len() == 0 {
        Some(CookieFault::Empty)
    } else {
        lines_fault(split_on(content, '\n'), 0, false, false)
    }
}

/// The error that reports a fault.
pub open spec fn reports(e: CookieError, fault: CookieFault) -> bool {
    match fault {
        CookieFault::Empty => e is InvalidFormat && e->InvalidFormat_0@
            == "Cookie file is empty"@,
        CookieFault::TooFewFields(n) => e is InvalidFormat && e->InvalidFormat_0@
            == "Invalid cookie line format: expected at least 6 tab-separated fields, got "@
            + decimal_text(n),
        CookieFault::NoCookieLines => e is InvalidFormat && e->InvalidFormat_0@
            == "No valid cookie lines found"@,
        CookieFault::NoYoutubeCookies => e is ValidationError && e->ValidationError_0@
            == "No YouTube cookies found. Make sure to export cookies from youtube.com or music.youtube.com"@,
    }
}

/// What the cookies read so far say: whether one is of YouTube, whether one
/// is a PO token, and the warnings gathered.
pub struct CookieFindings {
    pub youtube: bool,
    pub po_token: bool,
    pub warnings: Seq<Seq<char>>,
}

/// A cookie name that stands for a PO token.
pub open spec fn is_po_token_name(name: Seq<char>) -> bool {
    name == "__Secure-YT-Core-PO-Token"@ || has_substring(name, "PO"@)
}

/// A cookie without which the session does not work.
pub open spec fn is_important_name(name: Seq<char>) -> bool {
    name == "SAPISID"@ || name == "HSID"@ || name == "SSID"@
}

/// The warning about the expiration of a cookie, at time `now` in seconds.
/// A cookie that ran out a day ago or more has expired; one with less than
/// seven days left gets the whole days that are left. An expiration that is
/// not a number gets no warning.
pub open spec fn expiry_warning(name: Seq<char>, expiration: Seq<char>, now: i64) -> Option<
    Seq<char>,
> {
    match parsed_i64(expiration) {
        Some(at) => {
            let left = at as int - now as int;
            if left <= -86400 {
                Some("Cookie '"@ + name + "' has expired"@)
            } else if left < 604800 {
                Some(
                    "Cookie '"@ + name + "' expires in "@ + decimal_text(
                        (if left < 0 {
                            0
                        } else {
                            left / 86400
                        }) as nat,
                    ) + " days"@,
                )
            } else {
                None
            }
        },
        None => None,
    }
}

/// The warning about an important cookie without a value.
pub open spec fn empty_warning(name: Seq<char>, value: Seq<char>) -> Option<Seq<char>> {
    if is_important_name(name) && value.len() == 0 {
        Some("Important cookie '"@ + name + "' is empty"@)
    } else {
        None
    }
}

/// The warnings with one more, where there is one.
pub open spec fn with_warning(warnings: Seq<Seq<char>>, w: Option<Seq<char>>) -> Seq<Seq<char>> {
    match w {
        Some(text) => warnings.push(text),
        None => warnings,
    }
}

/// The findings after a cookie with the given fields. Only a cookie of a
/// YouTube domain counts.
pub open spec fn with_cookie(found: CookieFindings, fields: Seq<Seq<char>>, now: i64) -> CookieFindings
    recommends
        fields.len() >= 7,
{
    if has_substring(fields[0], "youtube.com"@) {
        CookieFindings {
            youtube: true,
            po_token: found.po_token || is_po_token_name(fields[5]),
            warnings: with_warning(
                with_warning(found.warnings, expiry_warning(fields[5], fields[4], now)),
                empty_warning(fields[5], fields[6]),
            ),
        }
    } else {
        found
    }
}

/// The findings after the lines from index `from` on. Lines with fewer than
/// seven fields are passed over.
pub open spec fn lines_findings(
    lines: Seq<Seq<char>>,
    from: int,
    found: CookieFindings,
    now: i64,
) -> CookieFindings
    decreases lines.len() - from,
{
    if from < 0 || from >= lines.len() {
        found
    } else if is_passed_over(trimmed(lines[from])) || split_on(trimmed(lines[from]), '\t').len()
        < 7 {
        lines_findings(lines, from + 1, found, now)
    } else {
        lines_findings(
            lines,
            from + 1,
            with_cookie(found, split_on(trimmed(lines[from]), '\t'), now),
            now,
        )
    }
}

/// What the cookies of a file say, at time `now` in seconds.
pub open spec fn content_findings(content: Seq<char>, now: i64) -> CookieFindings {
    lines_findings(
        split_on(content, '\n'),
        0,
        CookieFindings { youtube: false, po_token: false, warnings: Seq::empty() },
        now,
    )
}

/// The warnings as one text, where there are any.
pub open spec fn warning_text(warnings: Seq<Seq<char>>) -> Option<Seq<char>> {
    if warnings.len() == 0 {
        None
    } else {
        Some(joined(warnings, "; "@))
    }
}

/// Whether `v` holds exactly the text of `word`.
fn is_word(v: &[char], word: &str) -> (r: bool)
    ensures
        r == (v@ == word@),
{
    let w = chars_of(word);
    same_chars(v, w.as_slice())
}

/// Whether `word` occurs in `v`.
fn holds_word(v: &[char], word: &str) -> (r: bool)
    ensures
        r == has_substring(v@, word@),
{
    let w = chars_of(word);
    contains(v, w.as_slice())
}

fn expiry_warning_of(name: &[char], expiration: &[char], now: i64) -> (r: Option<String>)
    ensures
        opt_text(r) == expiry_warning(name@, expiration@, now),
{
    match parse_i64(expiration) {
        Some(at) => {
            let left: i128 = at as i128 - now as i128;
            let name_text = string_of(name);
            if left <= -86400 {
                Some(concat3("Cookie '", name_text.as_str(), "' has expired"))
            } else if left < 604800 {
                let days: u64 = if left < 0 {
                    0
                } else {
                    (left / 86400) as u64
                };
                let number = decimal_string(days);
                Some(
                    concat5(
                        "Cookie '",
                        name_text.as_str(),
                        "' expires in ",
                        number.as_str(),
                        " days",
                    ),
                )
            } else {
                None
            }
        },
        None => None,
    }
}

impl CookieManager {
    /// The directory of the managed cookie file.
    pub closed spec fn dir(&self) -> Seq<char> {
        self.cookies_dir@
    }

    /// A manager that keeps its cookie file in the given directory.
    pub fn with_cookies_dir(cookies_dir: String) -> (r: Self)
        ensures
            r.dir() == cookies_dir@,
    {
        Self { cookies_dir }
    }

    /// The directory of the managed cookie file.
    pub fn cookies_dir(&self) -> (r: &str)
        ensures
            r@ == self.dir(),
    {
        self.cookies_dir.as_str()
    }

    /// Whether the content is that of a cookie file with cookies of YouTube.
    pub fn validate_cookie_content(&self, content: &str) -> (r: Result<(), CookieError>)
        ensures
            match r {
                Ok(_) => content_fault(content@) is None,
                Err(e) => content_fault(content@) is Some && reports(e, content_fault(content@)->0),
            },
    {
        let text = chars_of(content);
        if text.len() == 0 {
            return Err(CookieError::InvalidFormat("Cookie file is empty".to_owned()));
        }
        let lines = split(text.as_slice(), '\n');
        let mut any_cookie = false;
        let mut any_youtube = false;
        let mut i: usize = 0;
        while i < lines.len()
            invariant
                i <= lines.len(),
                content@.len() > 0,
                rows(lines@) == split_on(content@, '\n'),
                content_fault(content@) == lines_fault(
                    rows(lines@),
                    i as int,
                    any_cookie,
                    any_youtube,
                ),
            decreases lines.len() - i,
        {
            assert(rows(lines@)[i as int] == lines@[i as int]@);
            let line = trim(lines[i].as_slice());
            if line.len() == 0 || line[0] == '#' {
                i += 1;
                continue ;
            }
            let fields = split(line.as_slice(), '\t');
            if fields.len() < 6 {
                let number = decimal_string(fields.len() as u64);
                return Err(
                    CookieError::InvalidFormat(
                        concat(
                            "Invalid cookie line format: expected at least 6 tab-separated fields, got ",
                            number.as_str(),
                        ),
                    ),
                );
            }
            assert(rows(fields@)[0] == fields@[0]@);
            if holds_word(fields[0].as_slice(), "youtube.com") || holds_word(
                fields[0].as_slice(),
                ".youtube.com",
            ) {
                any_youtube = true;
            }
            any_cookie = true;
            i += 1;
        }
        if !any_cookie {
            return Err(CookieError::InvalidFormat("No valid cookie lines found".to_owned()));
        }
        if !any_youtube {
            return Err(
                CookieError::ValidationError(
                    "No YouTube cookies found. Make sure to export cookies from youtube.com or music.youtube.com".to_owned(),
                ),
            );
        }
        Ok(())
    }

    /// What the cookies of a file say now.
    pub fn analyze_cookies(&self, content: &str) -> (r: Result<CookieInfo, CookieError>)
        ensures
            r is Ok,
            exists|now: i64| #[trigger] Self::is_analysis(r->Ok_0, content@, now),
    {
        let at = now();
        let r = self.analyze_cookies_at(content, at.secs);
        assert(Self::is_analysis(r->Ok_0, content@, at.secs));
        r
    }

    /// `info` is what the cookies of `content` say at time `now`.
    pub open spec fn is_analysis(info: CookieInfo, content: Seq<char>, now: i64) -> bool {
        &&& info.is_valid == content_findings(content, now).youtube
        &&& info.po_token_present == content_findings(content, now).po_token
        &&& opt_text(info.expiration_warning) == warning_text(
            content_findings(content, now).warnings,
        )
        &&& info.file_path is None
    }

    /// What the cookies of a file say at time `now`, in seconds since 1970.
    pub fn analyze_cookies_at(&self, content: &str, now: i64) -> (r: Result<CookieInfo, CookieError>)
        ensures
            r is Ok,
            Self::is_analysis(r->Ok_0, content@, now),
    {
        let text = chars_of(content);
        let lines = split(text.as_slice(), '\n');
        let mut youtube = false;
        let mut po_token = false;
        let mut warnings: Vec<String> = Vec::new();
        let mut i: usize = 0;
        assert(texts(warnings@) =~= Seq::<Seq<char>>::empty());
        while i < lines.len()
            invariant
                i <= lines.len(),
                rows(lines@) == split_on(content@, '\n'),
                content_findings(content@, now) == lines_findings(
                    rows(lines@),
                    i as int,
                    (CookieFindings { youtube, po_token, warnings: texts(warnings@) }),
                    now,
                ),
            decreases lines.len() - i,
        {
            assert(rows(lines@)[i as int] == lines@[i as int]@);
            let line = trim(lines[i].as_slice());
            if line.len() == 0 || line[0] == '#' {
                i += 1;
                continue ;
            }
            let fields = split(line.as_slice(), '\t');
            if fields.len() < 7 {
                i += 1;
                continue ;
            }
            proof {
                assert(rows(fields@)[0] == fields@[0]@);
                assert(rows(fields@)[4] == fields@[4]@);
                assert(rows(fields@)[5] == fields@[5]@);
                assert(rows(fields@)[6] == fields@[6]@);
            }
            let name = fields[5].as_slice();
            if holds_word(fields[0].as_slice(), "youtube.com") {
                youtube = true;
                if is_word(name, "__Secure-YT-Core-PO-Token") || holds_word(name, "PO") {
                    po_token = true;
                }
                let ghost w0 = texts(warnings@);
                match expiry_warning_of(name, fields[4].as_slice(), now) {
                    Some(w) => {
                        crate::text::push_string(&mut warnings, w);
                    },
                    None => {},
                }
                let ghost w1 = texts(warnings@);
                assert(w1 == with_warning(w0, expiry_warning(name@, fields@[4]@, now)));
                if (is_word(name, "SAPISID") || is_word(name, "HSID") || is_word(name, "SSID"))
                    && fields[6].len() == 0 {
                    let name_text = string_of(name);
                    crate::text::push_string(
                        &mut warnings,
                        concat3("Important cookie '", name_text.as_str(), "' is empty"),
                    );
                }
                assert(texts(warnings@) == with_warning(w1, empty_warning(name@, fields@[6]@)));
            }
            i += 1;
        }
        let expiration_warning = if warnings.len() == 0 {
            None
        } else {
            Some(join(&warnings, "; "))
        };
        Ok(
            CookieInfo {
                is_valid: youtube,
                expiration_warning,
                po_token_present: po_token,
                file_path: None,
            },
        )
    }

    /// The report on a managed cookie file that is not there.
    pub fn missing_file_info() -> (r: CookieInfo)
        ensures
            !r.is_valid,
            opt_text(r.expiration_warning) == Some("No cookies file found"@),
            !r.po_token_present,
            r.file_path is None,
    {
        CookieInfo {
            is_valid: false,
            expiration_warning: Some("No cookies file found".to_owned()),
            po_token_present: false,
            file_path: None,
        }
    }
}

} // verus!
