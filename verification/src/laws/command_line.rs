//! What holds of the command line.
use crate::cli::mapping::{
    config_mapped, direction_named, display_mapped, display_named, easing_named, is_config,
    lowered_word, parsed_value, switch_named, window_named,
};
use crate::cli::request::{execute_mapped, execute_prepared, is_prepared};
use crate::cli::{ConfigCommand, ConfigCommands, DisplayCommands, ExecuteCommands, Prepared, RiftCommand, RiftRequest};
use crate::command::{Command, ReactorCommand};
use crate::event::Handler;
use crate::ids::WindowServerId;
use crate::text::{
    ascii_lower, ascii_lowercase, digit_value, digits_value, has_hex_mark, is_white, number,
    trimmed, without_hex_marks, without_leading_white,
};
use vstd::prelude::*;

verus! {

/// A display is named only where exactly one way to name it is used; an index
/// and an identifier are then taken as they are.
pub proof fn law_displays_are_named_once(direction: Option<String>, index: Option<usize>, uuid: Option<String>)
    ensures
        display_named(direction, index, uuid) is Ok ==> {
            ||| direction is Some && index is None && uuid is None
            ||| direction is None && index is Some && uuid is None
            ||| direction is None && index is None && uuid is Some
        },
        direction is None && index is Some && uuid is None ==> display_named(direction, index, uuid) is Ok,
        direction is None && index is None && uuid is Some ==> display_named(direction, index, uuid) is Ok,
{
}

/// The window that is to be moved to a display comes through to what deals with
/// the command, for every display that can be named; otherwise the error is the
/// one of the display's name.
pub proof fn law_moved_window_comes_through(
    direction: Option<String>,
    index: Option<usize>,
    uuid: Option<String>,
    window_id: Option<u32>,
)
    ensures
        ({
            let mapped = display_mapped(DisplayCommands::MoveWindow { direction, index, uuid, window_id });
            match display_named(direction, index, uuid) {
                Ok(selector) => {
                    &&& mapped matches Ok(RiftCommand::Reactor(command))
                    &&& command == Command::Reactor(ReactorCommand::MoveWindowToDisplay { selector, window_id })
                    &&& command.handler() == (Handler::MoveWindowToDisplay { selector, window_id })
                },
                Err(message) => mapped == Err::<RiftCommand, Seq<char>>(message),
            }
        }),
{
}

/// To ask for the settings is the one command that is a request of its own.
pub proof fn law_get_config_is_a_request(execute: ExecuteCommands, r: Result<Prepared, String>)
    requires
        execute_prepared(execute, r),
    ensures
        r matches Ok(Prepared::Request(request)) ==> request == RiftRequest::GetConfig,
        execute == (ExecuteCommands::Config { config_cmd: ConfigCommands::Get }) <==> r is Ok && r->Ok_0 is Request,
{
    let mapped = choose|mapped: Result<RiftCommand, String>|
        #[trigger] execute_mapped(execute, mapped) && is_prepared(r, mapped);
    assert(execute_mapped(execute, mapped) && is_prepared(r, mapped));
    if let ExecuteCommands::Config { config_cmd } = execute {
        let config = choose|config: Result<ConfigCommand, String>|
            #[trigger] config_mapped(config_cmd, lowered_word(config_cmd), parsed_value(config_cmd), config)
                && is_config(mapped, config);
        assert(config_mapped(config_cmd, lowered_word(config_cmd), parsed_value(config_cmd), config));
    }
}

/// A configuration command fails only over a word for true or false, or over
/// the name of an easing.
pub proof fn law_config_commands_succeed(
    cmd: ConfigCommands,
    lowered: Seq<char>,
    parsed: Option<serde_json::Value>,
    r: Result<ConfigCommand, String>,
)
    requires
        config_mapped(cmd, lowered, parsed, r),
    ensures
        r is Err <==> match cmd {
            ConfigCommands::SetAnimate { .. } => switch_named(lowered) is None,
            ConfigCommands::SetAnimationEasing { value } => easing_named(value@) is None,
            _ => false,
        },
{
}

/// White characters at the ends of a text do not matter.
pub proof fn law_white_ends_do_not_matter(before: Seq<char>, text: Seq<char>, after: Seq<char>)
    requires
        forall|i: int| 0 <= i < before.len() ==> is_white(#[trigger] before[i]),
        forall|i: int| 0 <= i < after.len() ==> is_white(#[trigger] after[i]),
    ensures
        trimmed(before + text + after) == trimmed(text),
{
    lemma_white_before(before, text + after);
    assert(before + text + after =~= before + (text + after));
    lemma_white_after(text, after);
}

proof fn lemma_white_before(before: Seq<char>, text: Seq<char>)
    requires
        forall|i: int| 0 <= i < before.len() ==> is_white(#[trigger] before[i]),
    ensures
        without_leading_white(before + text) == without_leading_white(text),
    decreases before.len(),
{
    if before.len() > 0 {
        assert(is_white(before[0]));
        assert((before + text)[0] == before[0]);
        assert((before + text).drop_first() =~= before.drop_first() + text);
        assert forall|i: int| 0 <= i < before.drop_first().len() implies is_white(
            #[trigger] before.drop_first()[i],
        ) by {
            assert(before.drop_first()[i] == before[i + 1]);
        }
        lemma_white_before(before.drop_first(), text);
    } else {
        assert(before + text =~= text);
    }
}

proof fn lemma_white_after(text: Seq<char>, after: Seq<char>)
    requires
        forall|i: int| 0 <= i < after.len() ==> is_white(#[trigger] after[i]),
    ensures
        trimmed(text + after) == trimmed(text),
    decreases after.len(),
{
    if after.len() > 0 {
        let t = after.drop_last();
        assert forall|i: int| 0 <= i < t.len() implies is_white(#[trigger] t[i]) by {
            assert(t[i] == after[i]);
        }
        lemma_white_after(text, t);
        assert(is_white(after[after.len() - 1]));
        assert(text + after =~= (text + t).push(after.last()));
        lemma_trimmed_push(text + t, after.last());
    } else {
        assert(text + after =~= text);
    }
}

proof fn lemma_trimmed_push(text: Seq<char>, c: char)
    requires
        is_white(c),
    ensures
        trimmed(text.push(c)) == trimmed(text),
    decreases text.len(),
{
    if text.len() > 0 && is_white(text[0]) {
        assert(text.push(c)[0] == text[0]);
        assert(text.push(c).drop_first() =~= text.drop_first().push(c));
        lemma_trimmed_push(text.drop_first(), c);
    } else if text.len() > 0 {
        assert(text.push(c)[0] == text[0]);
        assert(text.push(c).drop_last() =~= text);
    } else {
        assert(text.push(c)[0] == c);
        assert(text.push(c).drop_first() =~= text);
        assert(without_leading_white(text.push(c)) == without_leading_white(text));
    }
}

/// Words that differ only in the case of their letters name the same direction,
/// or are refused with the same message.
pub proof fn law_case_of_directions_does_not_matter(a: Seq<char>, b: Seq<char>)
    requires
        a.len() == b.len(),
        forall|i: int| 0 <= i < a.len() ==> ascii_lower(#[trigger] a[i]) == ascii_lower(b[i]),
    ensures
        direction_named(ascii_lowercase(a)) == direction_named(ascii_lowercase(b)),
{
    assert(ascii_lowercase(a) =~= ascii_lowercase(b));
}

/// The digit that stands for a value.
pub open spec fn digit_for(value: int) -> char {
    if value < 10 {
        (value + '0' as int) as char
    } else {
        (value - 10 + 'a' as int) as char
    }
}

/// A number written down.
pub open spec fn written(n: int, radix: int) -> Seq<char>
    decreases n,
{
    if n < radix || radix < 2 {
        seq![digit_for(n)]
    } else {
        proof {
            assert(0 <= n / radix < n) by (nonlinear_arith)
                requires
                    n >= radix,
                    radix >= 2,
            ;
        }
        written(n / radix, radix).push(digit_for(n % radix))
    }
}

proof fn lemma_written(n: int, radix: int)
    requires
        0 <= n,
        2 <= radix <= 16,
    ensures
        written(n, radix).len() > 0,
        digits_value(written(n, radix), radix) == Some(n),
        forall|i: int|
            0 <= i < written(n, radix).len() ==> digit_value(#[trigger] written(n, radix)[i], radix) is Some,
    decreases n,
{
    if n < radix {
        let s = seq![digit_for(n)];
        assert(s.drop_last() =~= Seq::empty());
        assert(digits_value(Seq::<char>::empty(), radix) == Some(0int));
        assert(0 * radix == 0) by (nonlinear_arith);
        assert(digit_value(digit_for(n), radix) == Some(n));
    } else {
        assert(0 <= n / radix < n) by (nonlinear_arith)
            requires
                n >= radix,
                radix >= 2,
        ;
        assert(0 <= n % radix < radix) by (nonlinear_arith)
            requires
                radix >= 2,
        ;
        assert((n / radix) * radix + n % radix == n) by (nonlinear_arith)
            requires
                radix >= 2,
        ;
        lemma_written(n / radix, radix);
        let s = written(n / radix, radix);
        let d = digit_for(n % radix);
        assert(s.push(d).drop_last() =~= s);
        assert(digit_value(d, radix) == Some(n % radix));
        assert forall|i: int| 0 <= i < s.push(d).len() implies digit_value(#[trigger] s.push(d)[i], radix) is Some by {
            if i < s.len() {
                assert(s.push(d)[i] == s[i]);
            }
        }
    }
}

proof fn lemma_written_number(n: u32, radix: int)
    requires
        2 <= radix <= 16,
    ensures
        number(written(n as int, radix), radix) == Some(n),
        !has_hex_mark(written(n as int, radix)),
{
    let s = written(n as int, radix);
    lemma_written(n as int, radix);
    assert(digit_value(s[0], radix) is Some);
    assert(s[0] != '+');
    if s.len() >= 2 {
        assert(digit_value(s[1], radix) is Some);
    }
}

/// A window is found again by its number, in decimal digits or in hexadecimal
/// digits after their mark.
pub proof fn law_window_numbers_are_read_back(n: u32)
    ensures
        window_named(written(n as int, 10)) == Ok::<WindowServerId, Seq<char>>(WindowServerId(n)),
        window_named(seq!['0', 'x'] + written(n as int, 16)) == Ok::<WindowServerId, Seq<char>>(WindowServerId(n)),
{
    lemma_written_number(n, 10);
    lemma_written(n as int, 10);
    lemma_written_number(n, 16);
    let s = written(n as int, 16);
    let marked = seq!['0', 'x'] + s;
    assert(has_hex_mark(marked));
    assert(marked.skip(2) =~= s);
    assert(without_hex_marks(s) == s);
    assert(without_hex_marks(marked) == s);
}

} // verus!
