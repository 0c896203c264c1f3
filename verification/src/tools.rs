use vstd::prelude::*;
use vstd::string::StringExecFns;
use pretty_hex::PrettyHex;
use crate::journal::LogLevel;
use crate::text::{push_repeated, repeated};

verus! {

/// Width of the rules that stand above and below a dump.
pub const DUMP_RULE_WIDTH: usize = 76;

/// The hex dump that `pretty_hex` writes of `bytes` in its default layout:
/// a title line with the length, then rows of sixteen bytes with their
/// address, their hex digits and their ASCII reading.
pub uninterp spec fn hex_dump_text(bytes: Seq<u8>) -> Seq<char>;

/// `pretty_hex::PrettyHex::hex_dump`, written out with `{:?}`: the
/// multi-line dump of `data` in the crate's default layout. The text depends
/// on the bytes alone.
#[verifier::external_body]
fn hex_dump(data: &[u8]) -> (text: String)
    ensures
        text@ == hex_dump_text(data@),
{
    format!("{:?}", data.hex_dump())
}

/// A dump between two rules of dashes, each on a line of its own.
pub open spec fn framed_dump(dump: Seq<char>) -> Seq<char> {
    repeated("-"@, DUMP_RULE_WIDTH as nat) + "\n"@ + dump + "\n"@ + repeated(
        "-"@,
        DUMP_RULE_WIDTH as nat,
    )
}

/// Sets `dump` between two rules of 76 dashes.
pub fn frame_dump(dump: &str) -> (text: String)
    ensures
        text@ == framed_dump(dump@),
{
    let mut text = String::new();
    push_repeated(&mut text, "-", DUMP_RULE_WIDTH);
    text.append("\n");
    text.append(dump);
    text.append("\n");
    push_repeated(&mut text, "-", DUMP_RULE_WIDTH);
    assert(text@ =~= framed_dump(dump@));
    text
}

/// The text that traces the raw bytes of a read: their hex dump between two
/// rules of dashes.
pub fn print_packet(data: &[u8]) -> (text: String)
    ensures
        text@ == framed_dump(hex_dump_text(data@)),
{
    let dump = hex_dump(data);
    frame_dump(dump.as_str())
}

/// `log::max_level`: the level that the process-wide logger is set to at the
/// moment of the call. Nothing is known of it beforehand.
#[verifier::external_body]
fn max_log_level() -> (level: LogLevel) {
    match log::max_level() {
        log::LevelFilter::Off => LogLevel::Off,
        log::LevelFilter::Error => LogLevel::Error,
        log::LevelFilter::Warn => LogLevel::Warn,
        log::LevelFilter::Info => LogLevel::Info,
        log::LevelFilter::Debug => LogLevel::Debug,
        log::LevelFilter::Trace => LogLevel::Trace,
    }
}

/// Whether trace output is wanted at the moment: whether the process-wide
/// logger is set to its highest level.
pub fn trace() -> (enabled: bool) {
    max_log_level().allows_trace()
}

} // verus!
