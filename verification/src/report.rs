//! The output stream: a header line, then one comma-separated line per
//! record.

use crate::config::Config;
use crate::monitor::Record;
use vstd::prelude::*;
use vstd::string::StringExecFns;

verus! {

/// The ten decimal digits in order.
pub open spec fn digit_chars() -> Seq<char> {
    seq!['0', '1', '2', '3', '4', '5', '6', '7', '8', '9']
}

/// A number in decimal notation, without leading zeros.
pub open spec fn decimal(value: nat) -> Seq<char>
    decreases value,
{
    if value < 10 {
        seq![digit_chars()[value as int]]
    } else {
        decimal(value / 10).push(digit_chars()[(value % 10) as int])
    }
}

/// A number of hundredths in fixed-point notation with two decimals.
pub open spec fn fixed_point(hundredths: nat) -> Seq<char> {
    decimal(hundredths / 100) + seq![
        '.',
        digit_chars()[(hundredths / 10 % 10) as int],
        digit_chars()[(hundredths % 10) as int],
    ]
}

/// The header line, which names the fields of a record line.
pub open spec fn header_text() -> Seq<char> {
    "dev,seq,hint,threads,time,workGB,tlb,readGB,CPUwork"@
}

/// The line of a record: the four invocation parameters, the elapsed
/// seconds, the volume touched, the shootdowns, the volume read and the
/// batches completed, separated by commas.
pub open spec fn record_text(config: Config, record: Record) -> Seq<char> {
    config.path@ + seq![','] + decimal(config.seq as nat) + seq![','] + decimal(
        config.hint as nat,
    ) + seq![','] + decimal(config.threads as nat) + seq![','] + fixed_point(record.elapsed as nat)
        + seq![','] + fixed_point(record.work as nat) + seq![','] + decimal(
        record.shootdowns as nat,
    ) + seq![','] + fixed_point(record.read as nat) + seq![','] + decimal(record.batches as nat)
}

/// The text of one decimal digit.
fn digit_text(digit: u8) -> (text: &'static str)
    requires
        digit < 10,
    ensures
        text@ == seq![digit_chars()[digit as int]],
{
    proof {
        reveal_strlit("0");
        reveal_strlit("1");
        reveal_strlit("2");
        reveal_strlit("3");
        reveal_strlit("4");
        reveal_strlit("5");
        reveal_strlit("6");
        reveal_strlit("7");
        reveal_strlit("8");
        reveal_strlit("9");
    }
    let text = match digit {
        0 => "0",
        1 => "1",
        2 => "2",
        3 => "3",
        4 => "4",
        5 => "5",
        6 => "6",
        7 => "7",
        8 => "8",
        _ => "9",
    };
    text
}

/// Appends a number in decimal notation.
pub fn push_decimal(out: &mut String, value: u128)
    ensures
        final(out)@ == old(out)@ + decimal(value as nat),
    decreases value,
{
    if value >= 10 {
        push_decimal(out, value / 10);
    }
    out.append(digit_text((value % 10) as u8));
}

/// Appends a number of hundredths in fixed-point notation.
pub fn push_fixed_point(out: &mut String, hundredths: u128)
    ensures
        final(out)@ == old(out)@ + fixed_point(hundredths as nat),
{
    push_decimal(out, hundredths / 100);
    proof {
        reveal_strlit(".");
    }
    out.append(".");
    out.append(digit_text((hundredths / 10 % 10) as u8));
    out.append(digit_text((hundredths % 10) as u8));
}

/// The header line.
pub fn header() -> (line: String)
    ensures
        line@ == header_text(),
{
    String::from_str("dev,seq,hint,threads,time,workGB,tlb,readGB,CPUwork")
}

/// The line of one record.
pub fn format_record(config: &Config, record: &Record) -> (line: String)
    ensures
        line@ == record_text(*config, *record),
{
    proof {
        reveal_strlit(",");
    }
    let mut line = String::new();
    line.append(config.path.as_str());
    line.append(",");
    push_decimal(&mut line, config.seq as u128);
    line.append(",");
    push_decimal(&mut line, config.hint as u128);
    line.append(",");
    push_decimal(&mut line, config.threads as u128);
    line.append(",");
    push_fixed_point(&mut line, record.elapsed);
    line.append(",");
    push_fixed_point(&mut line, record.work);
    line.append(",");
    push_decimal(&mut line, record.shootdowns as u128);
    line.append(",");
    push_fixed_point(&mut line, record.read);
    line.append(",");
    push_decimal(&mut line, record.batches as u128);
    line
}

} // verus!
