//! The command generator: the exact command text sent to a controller.

use crate::config::TargetIlo;
use crate::threshold::{speed_for, speed_of};
use vstd::prelude::*;

verus! {

/// The character of a decimal digit.
pub open spec fn digit_char(d: int) -> char {
    if d == 0 {
        '0'
    } else if d == 1 {
        '1'
    } else if d == 2 {
        '2'
    } else if d == 3 {
        '3'
    } else if d == 4 {
        '4'
    } else if d == 5 {
        '5'
    } else if d == 6 {
        '6'
    } else if d == 7 {
        '7'
    } else if d == 8 {
        '8'
    } else {
        '9'
    }
}

/// A natural number in decimal, without sign or leading zeros.
pub open spec fn decimal(n: nat) -> Seq<char>
    decreases n,
{
    if n < 10 {
        seq![digit_char(n as int)]
    } else {
        decimal(n / 10).push(digit_char((n % 10) as int))
    }
}

/// The command that caps fan `index` at control value `speed`. The controller
/// parses this text; not one character of it may change.
pub open spec fn command_text(index: u8, speed: u8) -> Seq<char> {
    "fan p "@ + decimal(index as nat) + " max "@ + decimal(speed as nat)
}

/// The views of a sequence of strings.
pub open spec fn texts(lines: Seq<String>) -> Seq<Seq<char>> {
    Seq::new(lines.len(), |i: int| lines[i]@)
}

/// The commands for one controller at one temperature: nothing where the
/// temperature falls outside every interval, else one command per resolved fan,
/// in the order of resolution, all with the same control value.
pub open spec fn commands_of(target: TargetIlo, temp: u8) -> Seq<Seq<char>> {
    match speed_of(target.ranges(), temp) {
        None => Seq::empty(),
        Some(speed) => Seq::new(
            target.target_fans.indices().len(),
            |i: int| command_text(target.target_fans.indices()[i], speed),
        ),
    }
}

/// One decimal digit as a string.
fn digit_str(d: u8) -> (s: &'static str)
    requires
        d < 10,
    ensures
        s@ == seq![digit_char(d as int)],
{
    proof {
        reveal_strlit("0");
        reveal_strlit("1");
        reveal_strlit("2");
        reveal_strlit("3");
        reveal_strlit("4");
        reveal_strlit("5");
        reveal_strlit("6");
        reveal_strlit("7");
        reveal_strlit("8");
        reveal_strlit("9");
    }
    let s = match d {
        0 => "0",
        1 => "1",
        2 => "2",
        3 => "3",
        4 => "4",
        5 => "5",
        6 => "6",
        7 => "7",
        8 => "8",
        _ => "9",
    };
    assert(s@ =~= seq![digit_char(d as int)]);
    s
}

/// Writes a number in decimal.
pub fn decimal_string(n: usize) -> (s: String)
    ensures
        s@ == decimal(n as nat),
    decreases n,
{
    if n < 10 {
        String::from_str(digit_str(n as u8))
    } else {
        let mut s = decimal_string(n / 10);
        s.append(digit_str((n % 10) as u8));
        s
    }
}

/// Builds the command that caps fan `index` at control value `speed`.
pub fn fan_command(index: u8, speed: u8) -> (command: String)
    ensures
        command@ == command_text(index, speed),
{
    let mut command = String::from_str("fan p ");
    let index_text = decimal_string(index as usize);
    command.append(index_text.as_str());
    command.append(" max ");
    let speed_text = decimal_string(speed as usize);
    command.append(speed_text.as_str());
    command
}

/// Generates the fan commands for `target` at `current_temp`.
pub fn generate_fan_commands(target: &TargetIlo, current_temp: u8) -> (commands: Vec<String>)
    requires
        target.target_fans.wf(),
    ensures
        texts(commands@) == commands_of(*target, current_temp),
        speed_of(target.ranges(), current_temp) is None ==> commands@.len() == 0,
        speed_of(target.ranges(), current_temp) is Some ==> commands@.len()
            == target.target_fans.indices().len(),
{
    let mut commands: Vec<String> = Vec::new();
    let speed = match speed_for(&target.temperature_fan_config, current_temp) {
        Some(speed) => speed,
        None => {
            assert(texts(commands@) =~= commands_of(*target, current_temp));
            return commands;
        },
    };
    let fans = target.target_fans.resolve();
    let mut at: usize = 0;
    while at < fans.len()
        invariant
            at <= fans@.len(),
            commands@.len() == at,
            forall|i: int| 0 <= i < at ==> (#[trigger] commands@[i])@ == command_text(fans@[i], speed),
        decreases fans@.len() - at,
    {
        commands.push(fan_command(fans[at], speed));
        at += 1;
    }
    assert(texts(commands@) =~= commands_of(*target, current_temp));
    commands
}

/// A temperature that no interval contains gives no command at all, so
/// nothing needs to be sent.
pub proof fn lemma_gap_gives_no_command(target: TargetIlo, temp: u8)
    requires
        crate::threshold::no_match(target.ranges(), temp),
    ensures
        commands_of(target, temp).len() == 0,
{
    crate::threshold::lemma_no_match_decides(target.ranges(), temp);
}

} // verus!
