//! The script through which the embedded page learns the port, where it is
//! written, and the instruction that sends the page to the map.

use vstd::prelude::*;
use vstd::string::*;
use crate::clock::{
    format_local, is_plain_moment, is_timestamp, local_time_text, SECONDS_PER_DAY,
};
use crate::decimal::{
    append_decimal, decimal, digits_value, is_digit, lemma_decimal_is_numeral, parse_u16_spec,
};
use crate::path::{ancestor, ancestor_spec, join_to, path_join, text_of_string};

verus! {

/// How many times to go to the parent from the executable's path to reach
/// the project's directory: once for the executable's own directory, then
/// three levels up.
pub const LEVELS_TO_PROJECT: u8 = 4;

/// The directory below the project's directory that holds the page's files.
pub const PAGE_DIR: &'static str = "src";

/// The name of the file that holds the script.
pub const WS_CONFIG_FILE_NAME: &'static str = "ws-config.js";

/// The script up to the port.
pub open spec fn script_head() -> Seq<char> {
    "// Auto-generated WebSocket configuration\nwindow.WS_CONFIG = {\n\tport: "@
}

/// The script between the port and the timestamp.
pub open spec fn script_before_timestamp() -> Seq<char> {
    ",\n\ttimestamp: '"@
}

/// The script between the timestamp and the port's second occurrence.
pub open spec fn script_after_timestamp() -> Seq<char> {
    "'\n};\nconsole.log('[ws-config.js] WebSocket port configured:', "@
}

/// The script's end.
pub open spec fn script_tail() -> Seq<char> {
    ");"@
}

/// The script for `port`, stamped with `timestamp`: it assigns a global
/// object with the fields `port` and `timestamp`, then logs the port.
pub open spec fn ws_config_text(port: u16, timestamp: Seq<char>) -> Seq<char> {
    script_head() + decimal(port as nat) + script_before_timestamp() + timestamp
        + script_after_timestamp() + decimal(port as nat) + script_tail()
}

/// The page that the window is sent to, with the port as its one query
/// parameter.
pub open spec fn navigation_target_text(port: u16) -> Seq<char> {
    "mapbox.html?port="@ + decimal(port as nat)
}

/// The instruction that sends the window to the map page.
pub open spec fn navigation_script_text(port: u16) -> Seq<char> {
    "window.location.href = '"@ + navigation_target_text(port) + "'"@
}

/// Where the script is written for an executable at `exe_path`: the file
/// `WS_CONFIG_FILE_NAME` in the directory `PAGE_DIR` of the project's directory, or
/// `None` where the executable lies too close to the root for that directory
/// to exist.
pub open spec fn ws_config_path_spec(exe_path: Seq<char>) -> Option<Seq<char>> {
    match ancestor_spec(exe_path, LEVELS_TO_PROJECT as nat) {
        Some(project) => Some(path_join(path_join(project, PAGE_DIR@), WS_CONFIG_FILE_NAME@)),
        None => None,
    }
}

/// A file to write: where, and what.
#[derive(Debug, Clone, PartialEq, Eq)]
pub struct WsConfigFile {
    pub path: String,
    pub content: String,
}

/// Renders the script for `port`, stamped with `timestamp`.
pub fn ws_config_content(port: u16, timestamp: &str) -> (content: String)
    ensures
        content@ == ws_config_text(port, timestamp@),
{
    let mut out: String = String::from_str(
        "// Auto-generated WebSocket configuration\nwindow.WS_CONFIG = {\n\tport: ",
    );
    append_decimal(&mut out, port);
    out.append(",\n\ttimestamp: '");
    out.append(timestamp);
    out.append("'\n};\nconsole.log('[ws-config.js] WebSocket port configured:', ");
    append_decimal(&mut out, port);
    out.append(");");
    out
}

/// Renders the page that the window is sent to.
pub fn navigation_target(port: u16) -> (target: String)
    ensures
        target@ == navigation_target_text(port),
{
    let mut out: String = String::from_str("mapbox.html?port=");
    append_decimal(&mut out, port);
    out
}

/// Renders the instruction that sends the window to the map page.
pub fn navigation_script(port: u16) -> (script: String)
    ensures
        script@ == navigation_script_text(port),
{
    let mut out: String = String::from_str("window.location.href = '");
    out.append(navigation_target(port).as_str());
    out.append("'");
    out
}

/// Computes where the script is written for an executable at `exe_path`.
pub fn ws_config_path(exe_path: &str) -> (r: Option<String>)
    ensures
        text_of_string(r) == ws_config_path_spec(exe_path@),
{
    match ancestor(exe_path, LEVELS_TO_PROJECT) {
        Some(project) => {
            let dir: String = join_to(project.as_str(), PAGE_DIR);
            Some(join_to(dir.as_str(), WS_CONFIG_FILE_NAME))
        },
        None => None,
    }
}

/// The file to write for `port` when the clock reads `timestamp`, or `None`
/// where there is no place to write it.
pub fn ws_config_file_at(exe_path: &str, port: u16, timestamp: &str) -> (r: Option<WsConfigFile>)
    ensures
        r is Some <==> ws_config_path_spec(exe_path@) is Some,
        r matches Some(file) ==> Some(file.path@) == ws_config_path_spec(exe_path@)
            && file.content@ == ws_config_text(port, timestamp@),
{
    match ws_config_path(exe_path) {
        Some(path) => Some(WsConfigFile { path, content: ws_config_content(port, timestamp) }),
        None => None,
    }
}

/// The script for `port`, stamped with the moment `secs` as local time
/// `offset_secs` east of UTC, or `None` where that moment cannot be written.
pub open spec fn stamped_text(port: u16, secs: i64, offset_secs: i32) -> Option<Seq<char>> {
    match local_time_text(secs, offset_secs) {
        Some(timestamp) => Some(ws_config_text(port, timestamp)),
        None => None,
    }
}

/// Renders the script for `port`, stamped with the moment `secs` (seconds
/// since 1970-01-01 00:00:00 UTC) as local time `offset_secs` east of UTC.
/// There is a script for every moment from 1970 to the end of the year 9999
/// with an offset of less than a day, and its stamp has the shape
/// `YYYY-MM-DD HH:MM:SS`.
pub fn stamped_ws_config_content(port: u16, secs: i64, offset_secs: i32) -> (r: Option<String>)
    ensures
        text_of_string(r) == stamped_text(port, secs, offset_secs),
        r is Some ==> is_timestamp(local_time_text(secs, offset_secs)->0),
        r is Some ==> -SECONDS_PER_DAY < offset_secs < SECONDS_PER_DAY,
        is_plain_moment(secs, offset_secs) ==> r is Some,
{
    match format_local(secs, offset_secs) {
        Some(timestamp) => Some(ws_config_content(port, timestamp.as_str())),
        None => None,
    }
}

/// The file to write for `port` at the moment `secs` (seconds since
/// 1970-01-01 00:00:00 UTC), stamped with the local time `offset_secs` east
/// of UTC. There is none where there is no place to write it, or where the
/// moment cannot be written; the place is asked for first.
pub fn ws_config_file(exe_path: &str, port: u16, secs: i64, offset_secs: i32) -> (r: Option<
    WsConfigFile,
>)
    ensures
        r is Some <==> ws_config_path_spec(exe_path@) is Some && stamped_text(
            port,
            secs,
            offset_secs,
        ) is Some,
        r matches Some(file) ==> Some(file.path@) == ws_config_path_spec(exe_path@) && Some(
            file.content@,
        ) == stamped_text(port, secs, offset_secs) && is_timestamp(
            local_time_text(secs, offset_secs)->0,
        ),
        r is Some ==> -SECONDS_PER_DAY < offset_secs < SECONDS_PER_DAY,
        is_plain_moment(secs, offset_secs) && ws_config_path_spec(exe_path@) is Some ==> r is Some,
{
    match ws_config_path(exe_path) {
        Some(path) => match stamped_ws_config_content(port, secs, offset_secs) {
            Some(content) => Some(WsConfigFile { path, content }),
            None => None,
        },
        None => None,
    }
}

/// The script names the port: behind its fixed opening stands the numeral of
/// `port`, which reads back as `port`, and the comma behind the numeral ends
/// it.
pub proof fn lemma_script_names_port(port: u16, timestamp: Seq<char>)
    ensures
        ({
            let text = ws_config_text(port, timestamp);
            let from = script_head().len() as int;
            let to = from + decimal(port as nat).len();
            &&& to < text.len()
            &&& text.subrange(0, from) == script_head()
            &&& text.subrange(from, to) == decimal(port as nat)
            &&& parse_u16_spec(text.subrange(from, to)) == Some(port)
            &&& text[to] == ','
        }),
{
    reveal_strlit(",\n\ttimestamp: '");
    lemma_decimal_is_numeral(port as nat);
    let text = ws_config_text(port, timestamp);
    let from = script_head().len() as int;
    let to = from + decimal(port as nat).len();
    assert(text.subrange(0, from) =~= script_head());
    assert(text.subrange(from, to) =~= decimal(port as nat));
    assert(text[to] == script_before_timestamp()[0]);
}

/// Two scripts that are the same text were rendered for the same port: the
/// port can be told from the script alone.
pub proof fn lemma_script_determines_port(
    port_a: u16,
    timestamp_a: Seq<char>,
    port_b: u16,
    timestamp_b: Seq<char>,
)
    requires
        ws_config_text(port_a, timestamp_a) == ws_config_text(port_b, timestamp_b),
    ensures
        port_a == port_b,
{
    let text = ws_config_text(port_a, timestamp_a);
    let from = script_head().len() as int;
    let a = decimal(port_a as nat);
    let b = decimal(port_b as nat);
    lemma_script_names_port(port_a, timestamp_a);
    lemma_script_names_port(port_b, timestamp_b);
    lemma_decimal_is_numeral(port_a as nat);
    lemma_decimal_is_numeral(port_b as nat);
    if a.len() < b.len() {
        assert(text.subrange(from, from + b.len())[a.len() as int] == text[from + a.len()]);
        assert(is_digit(b[a.len() as int]));
    } else if b.len() < a.len() {
        assert(text.subrange(from, from + a.len())[b.len() as int] == text[from + b.len()]);
        assert(is_digit(a[b.len() as int]));
    }
    assert(a == b);
    assert(digits_value(a) == digits_value(b));
}

} // verus!
