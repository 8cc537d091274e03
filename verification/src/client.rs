//! What the command line does with the daemon's answers: judging them and showing them.
use crate::failure::{self, Failure};
use crate::file_path::{self, leading_text, FilePath};
use crate::ipc::{
    self, program_version, AppStatusRow, AppStatusView, DaemonResponse, DaemonResponseView,
    DAEMON_PROTOCOL_VERSION,
};
use crate::memory::{self, format_memory};
use crate::paths::{AynurPaths, AynurPathsView};
use crate::text::{
    self, decimal, is_blank, join_texts, pad, same_text, text_between, to_chars, Text,
};
use vstd::prelude::*;
use vstd::slice::slice_subrange;
use vstd::utf8::*;

verus! {

/// How `format!("{:?}")` shows a text.
pub uninterp spec fn quoted_text(text: Text) -> Text;

/// `format!` with `{:?}` on a `str`: the text in quotes, with what needs it escaped. Which characters
/// need it is named and not stated.
#[verifier::external_body]
fn quoted(text: &str) -> (r: String)
    ensures
        r@ == quoted_text(text@),
{
    format!("{:?}", text)
}

/// How `format!("{:?}")` shows the path that a text writes.
pub uninterp spec fn quoted_path_text(text: Text) -> Text;

/// `format!` with `{:?}` on a `std::path::Path`: the path in quotes, with what needs it escaped.
/// Which characters need it is named and not stated.
#[verifier::external_body]
fn quoted_path(text: &str) -> (r: String)
    ensures
        r@ == quoted_path_text(text@),
{
    format!("{:?}", std::path::Path::new(text))
}

/// How a process is shown.
pub open spec fn pid_text(pid: Option<u32>) -> Text {
    match pid {
        Some(pid) => text::decimal_text(pid as nat),
        None => "-"@,
    }
}

/// How a number that may be missing is shown in full.
pub open spec fn optional_number(n: Option<nat>) -> Text {
    match n {
        Some(n) => "Some("@ + text::decimal_text(n) + ")"@,
        None => "None"@,
    }
}

/// A process as a number that may be missing.
pub open spec fn pid_number(pid: Option<u32>) -> Option<nat> {
    match pid {
        Some(pid) => Some(pid as nat),
        None => None,
    }
}

/// An uptime as a number that may be missing.
pub open spec fn uptime_number(uptime: Option<u64>) -> Option<nat> {
    match uptime {
        Some(seconds) => Some(seconds as nat),
        None => None,
    }
}

/// A text without the quotes around it.
pub open spec fn unquoted(text: Text) -> Text {
    if text.len() < 2 {
        Seq::empty()
    } else {
        text.subrange(1, text.len() - 1)
    }
}

/// The upper-case hexadecimal digit for `n`.
pub open spec fn hex_digit(n: nat) -> char {
    "0123456789ABCDEF"@[n as int]
}

/// How a byte that belongs to no character is shown: by its number.
pub open spec fn byte_escape(byte: u8) -> Text {
    "\\x"@ + seq![hex_digit((byte / 16) as nat), hex_digit((byte % 16) as nat)]
}

/// How bytes are shown of which some belong to no character: the longest text with which they begin,
/// the byte that ends it, then the rest in the same way.
pub open spec fn broken_dump(bytes: Seq<u8>) -> Text
    decreases bytes.len(),
{
    let n = file_path::longest_text(bytes, bytes.len());
    let shown = unquoted(quoted_path_text(decode_utf8(bytes.take(n as int))));
    if n >= bytes.len() {
        shown
    } else {
        shown + byte_escape(bytes[n as int]) + broken_dump(bytes.skip(n as int + 1))
    }
}

/// How a path is shown in full: in quotes, with what needs it escaped. A byte that belongs to no
/// character is shown by its number.
pub open spec fn path_dump(path: Seq<u8>) -> Text {
    if valid_utf8(path) {
        quoted_path_text(decode_utf8(path))
    } else {
        "\""@ + broken_dump(path) + "\""@
    }
}

/// How a row is shown in full.
pub open spec fn row_dump(row: AppStatusRow) -> Text {
    "AppStatusView { name: "@ + quoted_text(row.name) + ", pid: "@ + optional_number(
        pid_number(row.pid),
    ) + ", status: "@ + quoted_text(row.status) + ", restarts: "@ + text::decimal_text(
        row.restarts as nat,
    ) + ", uptime_seconds: "@ + optional_number(uptime_number(row.uptime_seconds))
        + ", binary_path: "@ + path_dump(row.binary_path) + " }"@
}

/// How a response is shown in full.
pub open spec fn response_dump(response: DaemonResponseView) -> Text {
    match response {
        DaemonResponseView::Pong(protocol_version, daemon_version) => "Pong { protocol_version: "@
            + text::decimal_text(protocol_version as nat) + ", daemon_version: "@ + quoted_text(
            daemon_version,
        ) + " }"@,
        DaemonResponseView::Done(message) => "Ok { message: "@ + quoted_text(message) + " }"@,
        DaemonResponseView::Error(message) => "Error { message: "@ + quoted_text(message) + " }"@,
        DaemonResponseView::List(rows) => "List { apps: ["@ + text::separated(
            rows.map_values(|row: AppStatusRow| row_dump(row)),
            ", "@,
        ) + "] }"@,
    }
}

fn dump_optional(n: Option<u64>) -> (r: String)
    ensures
        r@ == optional_number(uptime_number(n)),
{
    match n {
        Some(n) => "Some(".to_owned().concat(decimal(n).as_str()).concat(")"),
        None => "None".to_owned(),
    }
}

fn unquote(text: &str) -> (r: String)
    ensures
        r@ == unquoted(text@),
{
    let chars = to_chars(text);
    if chars.len() < 2 {
        return String::new();
    }
    text_between(&chars, 1, chars.len() - 1)
}

fn escape_byte(byte: u8) -> (r: String)
    ensures
        r@ == byte_escape(byte),
{
    let digits = to_chars("0123456789ABCDEF");
    proof {
        reveal_strlit("0123456789ABCDEF");
    }
    let mut shown = "\\x".to_owned();
    shown.push(digits[(byte / 16) as usize]);
    shown.push(digits[(byte % 16) as usize]);
    assert(shown@ =~= byte_escape(byte));
    shown
}

fn dump_broken(bytes: &Vec<u8>) -> (r: String)
    ensures
        r@ == broken_dump(bytes@),
{
    let mut shown = String::new();
    let mut from: usize = 0;
    assert(bytes@.skip(0) =~= bytes@);
    assert(shown@ + broken_dump(bytes@) =~= broken_dump(bytes@));
    loop
        invariant
            from <= bytes@.len(),
            shown@ + broken_dump(bytes@.skip(from as int)) == broken_dump(bytes@),
        decreases bytes@.len() - from,
    {
        let rest = slice_subrange(bytes.as_slice(), from, bytes.len());
        assert(rest@ =~= bytes@.skip(from as int));
        let (n, text) = leading_text(rest);
        let part = unquote(quoted_path(text.as_str()).as_str());
        if n >= rest.len() {
            return shown.concat(part.as_str());
        }
        let escape = escape_byte(rest[n]);
        proof {
            let later = bytes@.skip(from + n + 1);
            assert(rest@.skip(n + 1) =~= later);
            assert(shown@ + (part@ + escape@ + broken_dump(later)) =~= shown@ + part@ + escape@
                + broken_dump(later));
        }
        shown = shown.concat(part.as_str()).concat(escape.as_str());
        from = from + n + 1;
    }
}

fn dump_path(path: &FilePath) -> (r: String)
    ensures
        r@ == path_dump(path@),
{
    match path.to_text() {
        Some(text) => quoted_path(text.as_str()),
        None => "\"".to_owned().concat(dump_broken(path.as_bytes()).as_str()).concat("\""),
    }
}

fn dump_row(app: &AppStatusView) -> (r: String)
    ensures
        r@ == row_dump(app@),
{
    let pid = match app.pid {
        Some(pid) => Some(pid as u64),
        None => None,
    };
    "AppStatusView { name: ".to_owned().concat(quoted(app.name.as_str()).as_str()).concat(
        ", pid: ",
    ).concat(dump_optional(pid).as_str()).concat(", status: ").concat(
        quoted(app.status.as_str()).as_str(),
    ).concat(", restarts: ").concat(decimal(app.restarts as u64).as_str()).concat(
        ", uptime_seconds: ",
    ).concat(dump_optional(app.uptime_seconds).as_str()).concat(", binary_path: ").concat(
        dump_path(&app.binary_path).as_str(),
    ).concat(" }")
}

fn dump_response(response: &DaemonResponse) -> (r: String)
    ensures
        r@ == response_dump(response@),
{
    match response {
        DaemonResponse::Pong { protocol_version, daemon_version } => "Pong { protocol_version: ".to_owned().concat(
            decimal(*protocol_version as u64).as_str(),
        ).concat(", daemon_version: ").concat(quoted(daemon_version.as_str()).as_str()).concat(
            " }",
        ),
        DaemonResponse::Done { message } => "Ok { message: ".to_owned().concat(
            quoted(message.as_str()).as_str(),
        ).concat(" }"),
        DaemonResponse::Error { message } => "Error { message: ".to_owned().concat(
            quoted(message.as_str()).as_str(),
        ).concat(" }"),
        DaemonResponse::List { apps } => {
            let ghost rows = ipc::status_rows(apps@);
            let ghost dumps = rows.map_values(|row: AppStatusRow| row_dump(row));
            let mut parts: Vec<String> = Vec::new();
            let mut i: usize = 0;
            assert(text::texts(parts@) =~= dumps.take(0));
            while i < apps.len()
                invariant
                    i <= apps@.len(),
                    rows == ipc::status_rows(apps@),
                    dumps == rows.map_values(|row: AppStatusRow| row_dump(row)),
                    text::texts(parts@) == dumps.take(i as int),
                decreases apps@.len() - i,
            {
                let one = dump_row(&apps[i]);
                proof {
                    text::lemma_texts_push(parts@, one);
                    assert(dumps.take(i + 1) == dumps.take(i as int).push(one@));
                }
                parts.push(one);
                i = i + 1;
            }
            assert(dumps.take(dumps.len() as int) == dumps);
            "List { apps: [".to_owned().concat(join_texts(&parts, ", ").as_str()).concat("] }")
        },
    }
}

/// The daemon speaks the protocol of this program.
pub open spec fn compatible(response: DaemonResponseView) -> bool {
    response matches DaemonResponseView::Pong(protocol_version, daemon_version)
        && protocol_version == DAEMON_PROTOCOL_VERSION && !text::blank(daemon_version)
}

/// What is said of this program where a daemon speaks another protocol.
pub open spec fn requires_protocol() -> Text {
    "aynur daemon protocol is incompatible: CLI "@ + "0.3.0"@ + " requires protocol "@
        + text::decimal_text(DAEMON_PROTOCOL_VERSION as nat)
}

/// Whether the answer to a ping comes from a daemon that speaks the protocol of this program, and
/// what is wrong where it does not.
pub open spec fn ping_verdict(response: DaemonResponseView) -> Result<(), Seq<Text>> {
    match response {
        DaemonResponseView::Pong(protocol_version, daemon_version) => if protocol_version
            == DAEMON_PROTOCOL_VERSION && !text::blank(daemon_version) {
            Ok(())
        } else if protocol_version == DAEMON_PROTOCOL_VERSION {
            Err(
                seq![
                    "aynur daemon returned an invalid ping response: daemonVersion is empty for protocol "@
                        + text::decimal_text(protocol_version as nat)
                        + "; received daemonVersion '"@ + daemon_version + "'"@,
                ],
            )
        } else {
            Err(
                seq![
                    requires_protocol() + ", but daemon "@ + daemon_version + " uses protocol "@
                        + text::decimal_text(protocol_version as nat)
                        + "; restart the daemon after upgrading aynur"@,
                ],
            )
        },
        DaemonResponseView::Done(message) => if message == "pong"@ {
            Err(
                seq![
                    requires_protocol()
                        + ", but the running daemon uses the legacy protocol; restart the daemon after upgrading aynur"@,
                ],
            )
        } else {
            Err(
                seq![
                    "aynur daemon returned an invalid ping response: "@ + response_dump(response),
                ],
            )
        },
        _ => Err(
            seq!["aynur daemon returned an invalid ping response: "@ + response_dump(response)],
        ),
    }
}

fn tell_required_protocol() -> (r: String)
    ensures
        r@ == requires_protocol(),
{
    "aynur daemon protocol is incompatible: CLI ".to_owned().concat(program_version()).concat(
        " requires protocol ",
    ).concat(decimal(DAEMON_PROTOCOL_VERSION as u64).as_str())
}

fn refuse_ping(response: &DaemonResponse) -> (r: Failure)
    ensures
        r@ == seq!["aynur daemon returned an invalid ping response: "@ + response_dump(response@)],
{
    Failure::new(
        "aynur daemon returned an invalid ping response: ".to_owned().concat(
            dump_response(response).as_str(),
        ),
    )
}

/// Whether the answer to a ping comes from a daemon that speaks the protocol of this program.
pub fn validate_daemon_ping(response: &DaemonResponse) -> (r: Result<(), Failure>)
    ensures
        failure::outcome(r) == ping_verdict(response@),
        r is Ok == compatible(response@),
{
    match response {
        DaemonResponse::Pong { protocol_version, daemon_version } => {
            if *protocol_version == DAEMON_PROTOCOL_VERSION {
                if !is_blank(daemon_version.as_str()) {
                    return Ok(());
                }
                return Err(
                    Failure::new(
                        "aynur daemon returned an invalid ping response: daemonVersion is empty for protocol ".to_owned().concat(
                        decimal(*protocol_version as u64).as_str()).concat(
                            "; received daemonVersion '",
                        ).concat(daemon_version.as_str()).concat("'"),
                    ),
                );
            }
            Err(
                Failure::new(
                    tell_required_protocol().concat(", but daemon ").concat(
                        daemon_version.as_str(),
                    ).concat(" uses protocol ").concat(
                        decimal(*protocol_version as u64).as_str(),
                    ).concat("; restart the daemon after upgrading aynur"),
                ),
            )
        },
        DaemonResponse::Done { message } => {
            if same_text(message.as_str(), "pong") {
                return Err(
                    Failure::new(
                        tell_required_protocol().concat(
                            ", but the running daemon uses the legacy protocol; restart the daemon after upgrading aynur",
                        ),
                    ),
                );
            }
            Err(refuse_ping(response))
        },
        _ => Err(refuse_ping(response)),
    }
}

/// Why the daemon could not be asked.
#[derive(Clone, Debug, PartialEq, Eq)]
pub struct ContactError {
    /// What kind of error it is.
    pub kind: ContactErrorKind,
    /// The reason, in words.
    pub cause: String,
}

/// What kind of error keeps the daemon from being asked.
#[derive(Clone, Copy, Debug, PartialEq, Eq, Structural)]
pub enum ContactErrorKind {
    /// There is no socket.
    NotFound,
    /// Nobody listens on the socket.
    ConnectionRefused,
    /// Anything else.
    Other,
}

impl ContactErrorKind {
    /// No daemon is there.
    pub open spec fn inactive(self) -> bool {
        self is NotFound || self is ConnectionRefused
    }

    /// Whether no daemon is there.
    pub fn is_inactive(&self) -> (r: bool)
        ensures
            r == self.inactive(),
    {
        matches!(self, ContactErrorKind::NotFound | ContactErrorKind::ConnectionRefused)
    }
}

/// The failure to ask the daemon.
pub open spec fn contact_failure(paths: AynurPathsView, cause: Text) -> Seq<Text> {
    seq![
        "failed to contact aynur daemon at "@ + file_path::lossy_text(paths.socket_path)
            + "; run `aynur start <binary> --name <name>` first"@,
        cause,
    ]
}

/// The failure to ask the daemon.
pub fn daemon_contact_error(paths: &AynurPaths, error: ContactError) -> (r: Failure)
    ensures
        r@ == contact_failure(paths@, error.cause@),
{
    Failure::because(
        "failed to contact aynur daemon at ".to_owned().concat(
            paths.socket_path.display().as_str(),
        ).concat("; run `aynur start <binary> --name <name>` first"),
        error.cause,
    )
}

/// The lines that show a response, or the failure that it is. `readings` are the bytes that the
/// processes of the apps in a list hold in memory, app by app, where they could be read.
pub open spec fn shown(response: DaemonResponseView, readings: Seq<Option<u64>>) -> Result<
    Seq<Text>,
    Seq<Text>,
> {
    match response {
        DaemonResponseView::Pong(protocol_version, daemon_version) => Err(
            seq![
                "received an unexpected ping response from daemon "@ + daemon_version
                    + " using protocol "@ + text::decimal_text(protocol_version as nat),
            ],
        ),
        DaemonResponseView::Done(message) => Ok(seq![message]),
        DaemonResponseView::Error(message) => Err(seq![message]),
        DaemonResponseView::List(rows) => Ok(table_text(rows, readings)),
    }
}

/// Columns beside each other, each filled up to its width.
pub open spec fn columns(
    name: Text,
    pid: Text,
    status: Text,
    restarts: Text,
    uptime: Text,
    memory: Text,
    binary: Text,
) -> Text {
    text::padded(name, 20) + " "@ + text::padded(pid, 8) + " "@ + text::padded(status, 10) + " "@
        + text::padded(restarts, 8) + " "@ + text::padded(uptime, 10) + " "@ + text::padded(
        memory,
        12,
    ) + " "@ + binary
}

/// The first line of a table.
pub open spec fn table_head() -> Text {
    columns("name"@, "pid"@, "status"@, "restarts"@, "uptime"@, "memory"@, "binary"@)
}

/// How the memory of an app is shown: `reading` is what reading it gave.
pub open spec fn memory_column(pid: Option<u32>, reading: Option<u64>) -> Text {
    match (pid, reading) {
        (None, _) => "-"@,
        (Some(_), Some(bytes)) => memory::memory_text(bytes as nat),
        (Some(_), None) => "unavailable"@,
    }
}

/// How an uptime is shown.
pub open spec fn uptime_text(uptime: Option<u64>) -> Text {
    match uptime {
        Some(seconds) => text::decimal_text(seconds as nat) + "s"@,
        None => "-"@,
    }
}

/// The line of a table for one app.
pub open spec fn table_line(row: AppStatusRow, reading: Option<u64>) -> Text {
    columns(
        row.name,
        pid_text(row.pid),
        row.status,
        text::decimal_text(row.restarts as nat),
        uptime_text(row.uptime_seconds),
        memory_column(row.pid, reading),
        file_path::lossy_text(row.binary_path),
    )
}

/// The lines of a table: the first line, then one line for each app.
pub open spec fn table_text(rows: Seq<AppStatusRow>, readings: Seq<Option<u64>>) -> Seq<Text> {
    seq![table_head()] + Seq::new(rows.len(), |i: int| table_line(rows[i], readings[i]))
}

fn lay_out(
    name: &str,
    pid: &str,
    status: &str,
    restarts: &str,
    uptime: &str,
    memory: &str,
    binary: &str,
) -> (r: String)
    ensures
        r@ == columns(name@, pid@, status@, restarts@, uptime@, memory@, binary@),
{
    pad(name, 20).concat(" ").concat(pad(pid, 8).as_str()).concat(" ").concat(
        pad(status, 10).as_str(),
    ).concat(" ").concat(pad(restarts, 8).as_str()).concat(" ").concat(
        pad(uptime, 10).as_str(),
    ).concat(" ").concat(pad(memory, 12).as_str()).concat(" ").concat(binary)
}

/// The first line of a table.
pub fn table_header() -> (r: String)
    ensures
        r@ == table_head(),
{
    lay_out("name", "pid", "status", "restarts", "uptime", "memory", "binary")
}

/// The line of a table for one app. `reading` are the bytes that its process holds in memory, where
/// they could be read.
pub fn table_row(app: &AppStatusView, reading: Option<u64>) -> (r: String)
    ensures
        r@ == table_line(app@, reading),
{
    let pid = match app.pid {
        Some(pid) => decimal(pid as u64),
        None => "-".to_owned(),
    };
    let memory = match app.pid {
        None => "-".to_owned(),
        Some(_) => match reading {
            Some(bytes) => format_memory(bytes),
            None => "unavailable".to_owned(),
        },
    };
    let uptime = match app.uptime_seconds {
        Some(seconds) => decimal(seconds).concat("s"),
        None => "-".to_owned(),
    };
    lay_out(
        app.name.as_str(),
        pid.as_str(),
        app.status.as_str(),
        decimal(app.restarts as u64).as_str(),
        uptime.as_str(),
        memory.as_str(),
        app.binary_path.display().as_str(),
    )
}

/// The lines of a table. `readings` are the bytes that the processes of the apps hold in memory, app
/// by app, where they could be read.
pub fn table_lines(apps: &Vec<AppStatusView>, readings: &Vec<Option<u64>>) -> (r: Vec<String>)
    requires
        apps@.len() == readings@.len(),
    ensures
        text::texts(r@) == table_text(ipc::status_rows(apps@), readings@),
{
    let ghost whole = table_text(ipc::status_rows(apps@), readings@);
    let mut lines: Vec<String> = Vec::new();
    lines.push(table_header());
    assert(text::texts(lines@) =~= whole.take(1));
    let mut i: usize = 0;
    while i < apps.len()
        invariant
            i <= apps@.len(),
            apps@.len() == readings@.len(),
            whole == table_text(ipc::status_rows(apps@), readings@),
            text::texts(lines@) == whole.take(i + 1),
        decreases apps@.len() - i,
    {
        let line = table_row(&apps[i], readings[i]);
        assert(line@ == whole[i + 1]);
        assert(text::texts(lines@.push(line)) =~= text::texts(lines@).push(line@));
        assert(whole.take(i + 2) =~= whole.take(i + 1).push(whole[i + 1]));
        lines.push(line);
        i = i + 1;
    }
    assert(whole.take(whole.len() as int) =~= whole);
    lines
}

/// The lines that show a response, or the failure that it is. `readings` are the bytes that the
/// processes of the apps in a list hold in memory, app by app, where they could be read.
pub fn print_response(response: &DaemonResponse, readings: &Vec<Option<u64>>) -> (r: Result<
    Vec<String>,
    Failure,
>)
    requires
        response matches DaemonResponse::List { apps } ==> apps@.len() == readings@.len(),
    ensures
        match shown(response@, readings@) {
            Ok(lines) => r is Ok && text::texts(r->Ok_0@) == lines,
            Err(lines) => r is Err && r->Err_0@ == lines,
        },
{
    match response {
        DaemonResponse::Pong { protocol_version, daemon_version } => Err(
            Failure::new(
                "received an unexpected ping response from daemon ".to_owned().concat(
                    daemon_version.as_str(),
                ).concat(" using protocol ").concat(decimal(*protocol_version as u64).as_str()),
            ),
        ),
        DaemonResponse::Done { message } => {
            let lines: Vec<String> = vec![message.clone()];
            assert(text::texts(lines@) =~= seq![message@]);
            Ok(lines)
        },
        DaemonResponse::Error { message } => Err(Failure::new(message.clone())),
        DaemonResponse::List { apps } => Ok(table_lines(apps, readings)),
    }
}

/// A ping is accepted from a daemon of the same protocol alone.
pub proof fn law_only_compatible_daemons_are_accepted(response: DaemonResponseView)
    ensures
        ping_verdict(response) is Ok <==> compatible(response),
{
}

/// What fails at the daemon fails on the command line, with the same message.
pub proof fn law_daemon_errors_are_errors(message: Text, readings: Seq<Option<u64>>)
    ensures
        shown(DaemonResponseView::Error(message), readings) == Err::<Seq<Text>, Seq<Text>>(
            seq![message],
        ),
{
}

/// A list is shown as a head and then every app of it, each in a line of its own and in the order of
/// the list.
pub proof fn law_every_listed_app_is_shown(rows: Seq<AppStatusRow>, readings: Seq<Option<u64>>)
    requires
        rows.len() == readings.len(),
    ensures
        ({
            let lines = shown(DaemonResponseView::List(rows), readings)->Ok_0;
            &&& shown(DaemonResponseView::List(rows), readings) is Ok
            &&& lines.len() == rows.len() + 1
            &&& lines[0] == table_head()
            &&& forall|i: int|
                0 <= i < rows.len() ==> #[trigger] lines[i + 1] == table_line(rows[i], readings[i])
        }),
{
}

/// A daemon is accepted exactly where it answers a ping with protocol 1 and a version that says
/// something.
pub proof fn law_protocol_is_checked(response: DaemonResponseView)
    ensures
        ping_verdict(response) is Ok <==> {
            &&& response is Pong
            &&& response->Pong_0 == 1
            &&& exists|i: int|
                0 <= i < response->Pong_1.len() && !text::white_space(
                    #[trigger] response->Pong_1[i],
                )
        },
        compatible(response) <==> ping_verdict(response) is Ok,
{
}

/// The line of an app shows its name, its process, its status, its restarts, its uptime, its memory
/// and its executable, in this order, each in its column. Without a process there is no number and
/// no memory to show; memory that could not be read is said to be unavailable.
pub proof fn law_line_shows_the_app(row: AppStatusRow, reading: Option<u64>)
    ensures
        ({
            let pid = if row.pid is Some {
                text::decimal_text(row.pid->0 as nat)
            } else {
                "-"@
            };
            let uptime = if row.uptime_seconds is Some {
                text::decimal_text(row.uptime_seconds->0 as nat) + "s"@
            } else {
                "-"@
            };
            let memory = if row.pid is None {
                "-"@
            } else if reading is None {
                "unavailable"@
            } else {
                memory::memory_text(reading->0 as nat)
            };
            table_line(row, reading) == text::padded(row.name, 20) + " "@ + text::padded(pid, 8)
                + " "@ + text::padded(row.status, 10) + " "@ + text::padded(
                text::decimal_text(row.restarts as nat),
                8,
            ) + " "@ + text::padded(uptime, 10) + " "@ + text::padded(memory, 12) + " "@
                + file_path::lossy_text(row.binary_path)
        }),
{
}

/// A daemon that cannot be asked is told with where it was looked for, what to do, and why.
pub proof fn law_unreachable_daemon_is_told(paths: AynurPathsView, cause: Text)
    ensures
        contact_failure(paths, cause) == seq![
            "failed to contact aynur daemon at "@ + file_path::lossy_text(paths.socket_path)
                + "; run `aynur start <binary> --name <name>` first"@,
            cause,
        ],
{
}

/// What the daemon says it has done is shown as it says it, and a ping is nothing to show.
pub proof fn law_messages_are_shown(
    message: Text,
    protocol_version: u32,
    version: Text,
    readings: Seq<Option<u64>>,
)
    ensures
        shown(DaemonResponseView::Done(message), readings) == Ok::<Seq<Text>, Seq<Text>>(
            seq![message],
        ),
        shown(DaemonResponseView::Pong(protocol_version, version), readings) is Err,
{
}

/// A daemon that is refused is told with what is wrong: that it speaks another protocol, that it is
/// one from before there were protocols, or that it does not say its version.
pub proof fn law_refused_daemon_is_told(protocol_version: u32, version: Text)
    ensures
        protocol_version != 1 ==> ping_verdict(DaemonResponseView::Pong(protocol_version, version))
            == Err::<(), Seq<Text>>(
            seq![
                "aynur daemon protocol is incompatible: CLI "@ + "0.3.0"@ + " requires protocol "@
                    + text::decimal_text(1) + ", but daemon "@ + version + " uses protocol "@
                    + text::decimal_text(protocol_version as nat)
                    + "; restart the daemon after upgrading aynur"@,
            ],
        ),
        text::blank(version) ==> ping_verdict(DaemonResponseView::Pong(1, version)) is Err,
        ping_verdict(DaemonResponseView::Done("pong"@)) == Err::<(), Seq<Text>>(
            seq![
                "aynur daemon protocol is incompatible: CLI "@ + "0.3.0"@ + " requires protocol "@
                    + text::decimal_text(1)
                    + ", but the running daemon uses the legacy protocol; restart the daemon after upgrading aynur"@,
            ],
        ),
{
}

/// The head of a table names its columns, each in the width of the lines below it.
pub proof fn law_head_names_the_columns()
    ensures
        table_head() == text::padded("name"@, 20) + " "@ + text::padded("pid"@, 8) + " "@
            + text::padded("status"@, 10) + " "@ + text::padded("restarts"@, 8) + " "@
            + text::padded("uptime"@, 10) + " "@ + text::padded("memory"@, 12) + " "@ + "binary"@,
{
}

/// What the two digits of an escaped byte are worth.
pub open spec fn hex_worth(c: char) -> int {
    if '0' as u32 <= c as u32 <= '9' as u32 {
        c as u32 - '0' as u32
    } else {
        c as u32 - 'A' as u32 + 10
    }
}

/// A byte that belongs to no character is shown by a backslash, an `x` and its two hexadecimal digits.
pub proof fn law_escaped_byte_is_its_number(byte: u8)
    ensures
        byte_escape(byte).len() == 4,
        byte_escape(byte)[0] == '\\',
        byte_escape(byte)[1] == 'x',
        16 * hex_worth(byte_escape(byte)[2]) + hex_worth(byte_escape(byte)[3]) == byte,
{
    reveal_strlit("\\x");
    reveal_strlit("0123456789ABCDEF");
    lemma_hex_digit((byte / 16) as nat);
    lemma_hex_digit((byte % 16) as nat);
}

proof fn lemma_hex_digit(n: nat)
    requires
        n < 16,
    ensures
        hex_worth(hex_digit(n)) == n,
{
    reveal_strlit("0123456789ABCDEF");
}

} // verus!
