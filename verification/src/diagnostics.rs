//! The export of diagnostics: which files go into the archive and under
//! which names, how much of a log is taken, which keys of a configuration
//! are blanked out, and how the name of the archive is checked.
//!
//! Reading the files and writing the archive are done by the caller.

use crate::json::{json_view, Json, JsonView};
use crate::text::{
    chars_of, ends_with, is_lowered, lemma_strip_start, lowered, strip_start, trim, trimmed,
};
use vstd::prelude::*;
use vstd::string::{StrSliceExecFns, StringExecFns};

verus! {

/// Why the name of an archive is refused.
#[derive(Clone, Copy, Debug, PartialEq, Eq, Structural)]
pub enum ExportError {
    /// The name is empty.
    PathRequired,
    /// The name does not end with `.zip`.
    NotZip,
}

/// The text of a refusal.
pub open spec fn export_error_text(error: ExportError) -> Seq<char> {
    match error {
        ExportError::PathRequired => "Output path is required"@,
        ExportError::NotZip => "Output file must end with .zip"@,
    }
}

impl ExportError {
    /// The text of this refusal.
    pub fn message(&self) -> (text: &'static str)
        ensures
            text@ == export_error_text(*self),
    {
        match self {
            ExportError::PathRequired => "Output path is required",
            ExportError::NotZip => "Output file must end with .zip",
        }
    }
}

/// The name under which the archive is written: `out_path` without the
/// white space around it. An empty name is refused, and so is one that does
/// not end with `.zip`, in capital or small letters.
pub open spec fn export_path(out_path: Seq<char>) -> Result<Seq<char>, ExportError> {
    let name = trimmed(out_path);
    if name.len() == 0 {
        Err(ExportError::PathRequired)
    } else if !ends_with(lowered(name), ".zip"@) {
        Err(ExportError::NotZip)
    } else {
        Ok(name)
    }
}

/// A checked name as a plain value.
pub open spec fn checked_view(checked: Result<String, ExportError>) -> Result<
    Seq<char>,
    ExportError,
> {
    match checked {
        Ok(name) => Ok(name@),
        Err(error) => Err(error),
    }
}

/// Checks the name under which the archive is to be written.
pub fn check_export_path(out_path: &str) -> (r: Result<String, ExportError>)
    ensures
        checked_view(r) == export_path(out_path@),
{
    let name = trim(out_path);
    let chars = chars_of(name.as_str());
    let n = chars.len();
    if n == 0 {
        return Err(ExportError::PathRequired);
    }
    if n < 4 {
        proof {
            reveal_strlit(".zip");
        }
        return Err(ExportError::NotZip);
    }
    let mut ending: Vec<char> = Vec::new();
    ending.push(chars[n - 4]);
    ending.push(chars[n - 3]);
    ending.push(chars[n - 2]);
    ending.push(chars[n - 1]);
    proof {
        reveal_strlit(".zip");
        assert(ending@ =~= chars@.subrange(n - 4, n as int));
        assert(lowered(ending@) =~= lowered(chars@).subrange(n - 4, n as int));
    }
    if is_lowered(&ending, ".zip") {
        Ok(name)
    } else {
        Err(ExportError::NotZip)
    }
}

/// The least number of bytes taken from the end of a log.
pub const MIN_TAIL_BYTES: u64 = 1024;

/// The number of bytes taken from the end of each log.
pub const LOG_TAIL_BYTES: u64 = 524288;

/// Where the part to export of a file of `len` bytes starts, if at most
/// `max_bytes` of its end are wanted, and never less than `MIN_TAIL_BYTES`
/// where the file has them.
pub open spec fn tail_offset(len: u64, max_bytes: u64) -> u64 {
    let wanted = if max_bytes < MIN_TAIL_BYTES {
        MIN_TAIL_BYTES
    } else {
        max_bytes
    };
    if len > wanted {
        (len - wanted) as u64
    } else {
        0
    }
}

/// Where the part to export of a file of `len` bytes starts.
pub fn tail_start(len: u64, max_bytes: u64) -> (start: u64)
    ensures
        start == tail_offset(len, max_bytes),
        start <= len,
{
    let wanted = if max_bytes < MIN_TAIL_BYTES {
        MIN_TAIL_BYTES
    } else {
        max_bytes
    };
    if len > wanted {
        len - wanted
    } else {
        0
    }
}

/// Whether the value under `key` is to be blanked out: the key, in small
/// letters, is one of the names under which secrets are kept.
pub open spec fn is_sensitive(key: Seq<char>) -> bool {
    let name = lowered(key);
    name == "password"@ || name == "pass"@ || name == "passwd"@ || name == "token"@ || name
        == "secret"@ || name == "access_key"@ || name == "accesskey"@ || name == "refresh_token"@
        || name == "client_secret"@ || name == "private_key"@ || name == "apikey"@ || name
        == "api_key"@
}

/// What stands in place of a value that was blanked out.
pub open spec fn redaction_mark() -> Seq<char> {
    "***REDACTED***"@
}

/// What stands in place of a value that was blanked out.
pub fn redaction_text() -> (mark: &'static str)
    ensures
        mark@ == redaction_mark(),
{
    "***REDACTED***"
}

/// Whether the value under `key` is to be blanked out.
pub fn is_sensitive_key(key: &str) -> (r: bool)
    ensures
        r == is_sensitive(key@),
{
    let name = chars_of(key);
    is_lowered(&name, "password") || is_lowered(&name, "pass") || is_lowered(&name, "passwd")
        || is_lowered(&name, "token") || is_lowered(&name, "secret") || is_lowered(
        &name,
        "access_key",
    ) || is_lowered(&name, "accesskey") || is_lowered(&name, "refresh_token") || is_lowered(
        &name,
        "client_secret",
    ) || is_lowered(&name, "private_key") || is_lowered(&name, "apikey") || is_lowered(
        &name,
        "api_key",
    )
}

/// `value` with its secrets blanked out: in every object, at any depth, the
/// value under a sensitive key is replaced by the redaction mark, and every
/// other value is looked through in turn. Nothing else is changed.
pub open spec fn redacted(value: JsonView) -> JsonView
    decreases value,
{
    match value {
        JsonView::Array(items) => JsonView::Array(
            Seq::new(
                items.len(),
                |i: int|
                    if 0 <= i < items.len() {
                        redacted(items[i])
                    } else {
                        JsonView::Null
                    },
            ),
        ),
        JsonView::Object(members) => JsonView::Object(
            Seq::new(
                members.len(),
                |i: int|
                    if 0 <= i < members.len() {
                        (
                            members[i].0,
                            if is_sensitive(members[i].0) {
                                JsonView::Text(redaction_mark())
                            } else {
                                redacted(members[i].1)
                            },
                        )
                    } else {
                        (Seq::empty(), JsonView::Null)
                    },
            ),
        ),
        _ => value,
    }
}

/// `value` with its secrets blanked out.
pub fn redact_json(value: &Json) -> (r: Json)
    ensures
        r@ == redacted(value@),
    decreases *value,
{
    match value {
        Json::Null => Json::Null,
        Json::Bool(b) => Json::Bool(*b),
        Json::Number(numeral) => Json::Number(numeral.clone()),
        Json::Text(text) => Json::Text(text.clone()),
        Json::Array(items) => {
            let mut out: Vec<Json> = Vec::new();
            let mut i: usize = 0;
            while i < items.len()
                invariant
                    *value == Json::Array(*items),
                    i <= items@.len(),
                    out@.len() == i,
                    forall|k: int| 0 <= k < i ==> (#[trigger] out@[k])@ == redacted(items@[k]@),
                decreases items@.len() - i,
            {
                proof {
                    assert(decreases_to!(*value => value->Array_0));
                    assert(decreases_to!(value->Array_0 => value->Array_0@));
                    assert(decreases_to!(items@ => items@[i as int]));
                }
                out.push(redact_json(&items[i]));
                i += 1;
            }
            let r = Json::Array(out);
            assert(r@ =~= redacted(value@)) by {
                assert(r@->Array_0 =~= redacted(value@)->Array_0);
            }
            r
        },
        Json::Object(members) => {
            let mut out: Vec<(String, Json)> = Vec::new();
            let mut i: usize = 0;
            while i < members.len()
                invariant
                    *value == Json::Object(*members),
                    i <= members@.len(),
                    out@.len() == i,
                    forall|k: int|
                        0 <= k < i ==> (#[trigger] out@[k]).0@ == members@[k].0@ && out@[k].1@
                            == if is_sensitive(members@[k].0@) {
                            JsonView::Text(redaction_mark())
                        } else {
                            redacted(members@[k].1@)
                        },
                decreases members@.len() - i,
            {
                proof {
                    assert(decreases_to!(*value => value->Object_0));
                    assert(decreases_to!(value->Object_0 => value->Object_0@));
                    assert(decreases_to!(members@ => members@[i as int]));
                    assert(decreases_to!(members@[i as int] => members@[i as int].1));
                }
                let key = members[i].0.clone();
                let kept = if is_sensitive_key(key.as_str()) {
                    Json::Text(redaction_text().to_owned())
                } else {
                    redact_json(&members[i].1)
                };
                out.push((key, kept));
                i += 1;
            }
            let r = Json::Object(out);
            assert(r@ =~= redacted(value@)) by {
                assert(r@->Object_0 =~= redacted(value@)->Object_0);
            }
            r
        },
    }
}

/// Blanking out twice is blanking out once.
pub proof fn lemma_redacted_twice(value: JsonView)
    ensures
        redacted(redacted(value)) == redacted(value),
    decreases value,
{
    match value {
        JsonView::Array(items) => {
            let once = redacted(value)->Array_0;
            assert forall|i: int| 0 <= i < items.len() implies redacted(#[trigger] once[i])
                == once[i] by {
                lemma_redacted_twice(items[i]);
            }
            assert(redacted(redacted(value))->Array_0 =~= once);
        },
        JsonView::Object(members) => {
            let once = redacted(value)->Object_0;
            assert forall|i: int| 0 <= i < members.len() implies (if is_sensitive(
                (#[trigger] once[i]).0,
            ) {
                JsonView::Text(redaction_mark())
            } else {
                redacted(once[i].1)
            }) == once[i].1 by {
                lemma_redacted_twice(members[i].1);
            }
            assert(redacted(redacted(value))->Object_0 =~= once);
        },
        _ => {},
    }
}

/// How a file gets into the archive.
#[derive(Clone, Copy, Debug, PartialEq, Eq, Structural)]
pub enum ExportKind {
    /// A JSON document, with its secrets blanked out.
    RedactedJson,
    /// The end of a log, at most so many bytes of it.
    LogTail { max_bytes: u64 },
}

/// One file of the archive.
#[derive(Debug, PartialEq, Eq)]
pub struct ExportEntry {
    /// The name of the entry in the archive.
    pub entry_name: &'static str,
    /// The file, as the names that lead to it from the data directory.
    pub source: Vec<&'static str>,
    /// How the file gets into the archive.
    pub kind: ExportKind,
    /// The name of the file in a warning.
    pub label: &'static str,
}

/// An entry of the archive as a plain value.
pub struct EntryView {
    pub entry_name: Seq<char>,
    pub source: Seq<Seq<char>>,
    pub kind: ExportKind,
    pub label: Seq<char>,
}

impl View for ExportEntry {
    type V = EntryView;

    open spec fn view(&self) -> EntryView {
        EntryView {
            entry_name: self.entry_name@,
            source: self.source@.map_values(|name: &'static str| name@),
            kind: self.kind,
            label: self.label@,
        }
    }
}

/// The entries of a list as plain values.
pub open spec fn entry_list(entries: Seq<ExportEntry>) -> Seq<EntryView> {
    entries.map_values(|e: ExportEntry| e@)
}

/// The files that the archive holds besides its description, in the order
/// in which they are added: the two configurations, redacted, and the ends
/// of the three logs.
pub open spec fn export_entries() -> Seq<EntryView> {
    seq![
        EntryView {
            entry_name: "netmount/config.redacted.json"@,
            source: seq!["config.json"@],
            kind: ExportKind::RedactedJson,
            label: "netmount config"@,
        },
        EntryView {
            entry_name: "openlist/config.redacted.json"@,
            source: seq!["openlist"@, "config.json"@],
            kind: ExportKind::RedactedJson,
            label: "openlist config"@,
        },
        EntryView {
            entry_name: "logs/rclone.log.tail"@,
            source: seq!["log"@, "rclone.log"@],
            kind: ExportKind::LogTail { max_bytes: LOG_TAIL_BYTES },
            label: "rclone log"@,
        },
        EntryView {
            entry_name: "logs/netmount.log.tail"@,
            source: seq!["log"@, "netmount.log"@],
            kind: ExportKind::LogTail { max_bytes: LOG_TAIL_BYTES },
            label: "netmount log"@,
        },
        EntryView {
            entry_name: "logs/openlist.log.tail"@,
            source: seq!["openlist"@, "log"@, "log.log"@],
            kind: ExportKind::LogTail { max_bytes: LOG_TAIL_BYTES },
            label: "openlist log"@,
        },
    ]
}

/// One entry of the archive.
fn export_entry(
    entry_name: &'static str,
    source: Vec<&'static str>,
    kind: ExportKind,
    label: &'static str,
) -> (entry: ExportEntry)
    ensures
        entry@ == (EntryView {
            entry_name: entry_name@,
            source: source@.map_values(|name: &'static str| name@),
            kind,
            label: label@,
        }),
{
    ExportEntry { entry_name, source, kind, label }
}

/// The files that the archive holds besides its description.
pub fn export_plan() -> (plan: Vec<ExportEntry>)
    ensures
        entry_list(plan@) == export_entries(),
{
    let tail = ExportKind::LogTail { max_bytes: LOG_TAIL_BYTES };
    let mut plan: Vec<ExportEntry> = Vec::new();
    let first: Vec<&'static str> = vec!["config.json"];
    assert(first@.map_values(|name: &'static str| name@) =~= seq!["config.json"@]);
    plan.push(
        export_entry(
            "netmount/config.redacted.json",
            first,
            ExportKind::RedactedJson,
            "netmount config",
        ),
    );
    let second: Vec<&'static str> = vec!["openlist", "config.json"];
    assert(second@.map_values(|name: &'static str| name@) =~= seq![
        "openlist"@,
        "config.json"@,
    ]);
    plan.push(
        export_entry(
            "openlist/config.redacted.json",
            second,
            ExportKind::RedactedJson,
            "openlist config",
        ),
    );
    let third: Vec<&'static str> = vec!["log", "rclone.log"];
    assert(third@.map_values(|name: &'static str| name@) =~= seq!["log"@, "rclone.log"@]);
    plan.push(export_entry("logs/rclone.log.tail", third, tail, "rclone log"));
    let fourth: Vec<&'static str> = vec!["log", "netmount.log"];
    assert(fourth@.map_values(|name: &'static str| name@) =~= seq!["log"@, "netmount.log"@]);
    plan.push(export_entry("logs/netmount.log.tail", fourth, tail, "netmount log"));
    let fifth: Vec<&'static str> = vec!["openlist", "log", "log.log"];
    assert(fifth@.map_values(|name: &'static str| name@) =~= seq![
        "openlist"@,
        "log"@,
        "log.log"@,
    ]);
    plan.push(export_entry("logs/openlist.log.tail", fifth, tail, "openlist log"));
    assert(entry_list(plan@) =~= export_entries());
    plan
}

/// The name of the entry that describes the export.
pub const META_ENTRY: &'static str = "meta.json";

/// The name of the entry that lists what could not be exported.
pub const WARNINGS_ENTRY: &'static str = "warnings.txt";

/// The warning for a file that could not be exported.
pub open spec fn warning_text(label: Seq<char>, error: Seq<char>) -> Seq<char> {
    label + ": "@ + error
}

/// The warning for a file that could not be exported.
pub fn warning_line(label: &str, error: &str) -> (line: String)
    ensures
        line@ == warning_text(label@, error@),
{
    let mut line = label.to_owned();
    line.append(": ");
    line.append(error);
    line
}

/// `lines`, each after the first on a line of its own.
pub open spec fn joined_lines(lines: Seq<Seq<char>>) -> Seq<char>
    decreases lines.len(),
{
    if lines.len() == 0 {
        Seq::empty()
    } else if lines.len() == 1 {
        lines[0]
    } else {
        joined_lines(lines.drop_last()) + "\n"@ + lines.last()
    }
}

/// What the entry of warnings holds: the warnings, one on each line. There
/// is no such entry where nothing went wrong.
pub fn join_warnings(warnings: &Vec<String>) -> (text: Option<String>)
    ensures
        warnings@.len() == 0 ==> text is None,
        warnings@.len() > 0 ==> text is Some && text->0@ == joined_lines(
            warnings@.map_values(|w: String| w@),
        ),
{
    if warnings.len() == 0 {
        return None;
    }
    let ghost all = warnings@.map_values(|w: String| w@);
    let mut text = warnings[0].clone();
    assert(all.take(1) =~= seq![all[0]]);
    let mut i: usize = 1;
    while i < warnings.len()
        invariant
            all == warnings@.map_values(|w: String| w@),
            1 <= i <= warnings@.len(),
            text@ == joined_lines(all.take(i as int)),
        decreases warnings@.len() - i,
    {
        text.append("\n");
        text.append(warnings[i].as_str());
        proof {
            assert(all.take(i + 1).drop_last() =~= all.take(i as int));
            assert(all.take(i + 1).last() == warnings@[i as int]@);
        }
        i += 1;
    }
    assert(all.take(i as int) =~= all);
    Some(text)
}

/// Whether `c` separates the parts of a path.
pub open spec fn is_separator(c: char) -> bool {
    c == '/' || c == '\\'
}

/// What a path of the user stands for.
#[derive(Debug, PartialEq, Eq)]
pub enum TildePath {
    /// The home directory itself.
    Home,
    /// The file that this relative path leads to from the home directory.
    UnderHome(String),
    /// The path as it was given.
    AsGiven,
}

/// What a path of the user stands for, as a plain value.
pub enum TildeView {
    Home,
    UnderHome(Seq<char>),
    AsGiven,
}

impl View for TildePath {
    type V = TildeView;

    open spec fn view(&self) -> TildeView {
        match self {
            TildePath::Home => TildeView::Home,
            TildePath::UnderHome(rest) => TildeView::UnderHome(rest@),
            TildePath::AsGiven => TildeView::AsGiven,
        }
    }
}

/// What `path` stands for: a path that begins with a tilde leads from the
/// home directory to what follows its tildes and the separators after them;
/// every other path is taken as it is.
pub open spec fn tilde_target(path: Seq<char>) -> TildeView {
    if path.len() > 0 && path[0] == '~' {
        let rest = strip_start(
            strip_start(path, |c: char| c == '~'),
            |c: char| is_separator(c),
        );
        if rest.len() == 0 {
            TildeView::Home
        } else {
            TildeView::UnderHome(rest)
        }
    } else {
        TildeView::AsGiven
    }
}

/// What `path` stands for.
pub fn resolve_tilde(path: &str) -> (r: TildePath)
    ensures
        r@ == tilde_target(path@),
{
    let chars = chars_of(path);
    let n = chars.len();
    if n == 0 || chars[0] != '~' {
        return TildePath::AsGiven;
    }
    let mut from: usize = 0;
    while from < n && chars[from] == '~'
        invariant
            n == chars@.len(),
            from <= n,
            forall|k: int| 0 <= k < from ==> #[trigger] chars@[k] == '~',
        decreases n - from,
    {
        from += 1;
    }
    let mut rest: usize = from;
    while rest < n && (chars[rest] == '/' || chars[rest] == '\\')
        invariant
            n == chars@.len(),
            from <= rest <= n,
            forall|k: int| from <= k < rest ==> is_separator(#[trigger] chars@[k]),
        decreases n - rest,
    {
        rest += 1;
    }
    proof {
        let tilde = |c: char| c == '~';
        let separator = |c: char| is_separator(c);
        lemma_strip_start(path@, tilde, from as int);
        let after = path@.subrange(from as int, n as int);
        assert forall|k: int| 0 <= k < rest - from implies separator(#[trigger] after[k]) by {
            assert(after[k] == chars@[k + from]);
        }
        if rest < n {
            assert(after[rest - from] == chars@[rest as int]);
        }
        lemma_strip_start(after, separator, rest - from);
        assert(after.subrange(rest - from, after.len() as int) =~= path@.subrange(
            rest as int,
            n as int,
        ));
    }
    if rest == n {
        TildePath::Home
    } else {
        TildePath::UnderHome(path.substring_char(rest, n).to_owned())
    }
}

} // verus!
