//! Settings of the UDP receiver, read from text.
use crate::text::{
    ascii_lower, decimal_text, lower_text, numerals_are_read_back, parse_number, parsed_number,
    same_text, trim_text, trimmed,
};
use vstd::prelude::*;

verus! {

/// The number that a text gives, if it gives one that a `usize` holds.
pub open spec fn size_in(text: Option<Seq<char>>) -> Option<usize> {
    match text {
        Some(text) => match parsed_number(text) {
            Some(n) => if n <= usize::MAX && n <= u64::MAX {
                Some(n as usize)
            } else {
                None
            },
            None => None,
        },
        None => None,
    }
}

/// The positive number that a text gives, or a default.
pub open spec fn positive_size_in(text: Option<Seq<char>>, default: usize) -> usize {
    match size_in(text) {
        Some(n) => if n > 0 {
            n
        } else {
            default
        },
        None => default,
    }
}

/// The positive number that a text gives, or a default.
pub open spec fn positive_count_in(text: Option<Seq<char>>, default: u64) -> u64 {
    match text {
        Some(text) => match parsed_number(text) {
            Some(n) => if 0 < n <= u64::MAX {
                n as u64
            } else {
                default
            },
            None => default,
        },
        None => default,
    }
}

/// What a word says of a switch: one of four words turns it on, whatever its case.
pub open spec fn turns_on(word: Seq<char>) -> bool {
    let word = word.map_values(|c: char| ascii_lower(c));
    word == "1"@ || word == "true"@ || word == "yes"@ || word == "on"@
}

/// What a text says of a switch, whatever the blanks around it.
pub open spec fn is_on(text: Seq<char>) -> bool {
    turns_on(trimmed(text))
}

/// The view of an optional text.
pub open spec fn text_view(text: Option<&str>) -> Option<Seq<char>> {
    match text {
        Some(text) => Some(text@),
        None => None,
    }
}

fn read_size(value: Option<&str>) -> (r: Option<usize>)
    ensures
        r == size_in(text_view(value)),
{
    match value {
        Some(text) => match parse_number(text, usize::MAX as u64) {
            Some(n) => Some(n as usize),
            None => None,
        },
        None => None,
    }
}

/// Reads a positive number.
pub fn read_positive_size(value: Option<&str>, default: usize) -> (r: usize)
    ensures
        r == positive_size_in(text_view(value), default),
{
    match read_size(value) {
        Some(n) => if n > 0 {
            n
        } else {
            default
        },
        None => default,
    }
}

/// Reads a positive number.
pub fn read_positive_count(value: Option<&str>, default: u64) -> (r: u64)
    ensures
        r == positive_count_in(text_view(value), default),
{
    match value {
        Some(text) => match parse_number(text, u64::MAX) {
            Some(n) => if n > 0 {
                n
            } else {
                default
            },
            None => default,
        },
        None => default,
    }
}

/// Reads a switch from a word without blanks around it.
pub fn is_on_word(word: &str) -> (r: bool)
    ensures
        r == turns_on(word@),
{
    let word = lower_text(word);
    let word = word.as_str();
    same_text(word, "1") || same_text(word, "true") || same_text(word, "yes") || same_text(word, "on")
}

/// Reads a switch.
pub fn read_bool_env(value: Option<&str>, default: bool) -> (r: bool)
    ensures
        r == match value {
            Some(text) => is_on(text@),
            None => default,
        },
{
    match value {
        Some(text) => is_on_word(trim_text(text)),
        None => default,
    }
}

/// The core that a receiver is bound to: the one that is asked for, or else the number of its port
/// where that is switched on.
pub fn read_udp_receiver_core(core: Option<&str>, pin_by_port: Option<&str>, local_port: u16) -> (r: Option<
    usize,
>)
    ensures
        r == match size_in(text_view(core)) {
            Some(index) => Some(index),
            None => match pin_by_port {
                Some(text) => if is_on(text@) {
                    Some(local_port as usize)
                } else {
                    None
                },
                None => None,
            },
        },
{
    match read_size(core) {
        Some(core_index) => Some(core_index),
        None => if read_bool_env(pin_by_port, false) {
            Some(local_port as usize)
        } else {
            None
        },
    }
}

/// Which of the available cores a core number means, if there is any.
pub fn receiver_core_slot(core_index: usize, core_count: usize) -> (r: Option<usize>)
    ensures
        match r {
            Some(slot) => core_count > 0 && slot == core_index % core_count,
            None => core_count == 0,
        },
{
    if core_count == 0 {
        None
    } else {
        Some(core_index % core_count)
    }
}

/// The size of the receive buffer that is asked for.
pub fn read_udp_rcvbuf_bytes(value: Option<&str>) -> (r: Option<usize>)
    ensures
        r == Some(positive_size_in(text_view(value), 67_108_864)),
{
    Some(read_positive_size(value, 67_108_864))
}

/// How many packets a batch holds.
pub fn read_udp_batch_size(value: Option<&str>) -> (r: usize)
    ensures
        r == positive_size_in(text_view(value), 64),
        r > 0,
{
    read_positive_size(value, 64)
}

/// How long a batch is held open, in milliseconds.
pub fn read_udp_batch_max_wait_ms(value: Option<&str>) -> (r: u64)
    ensures
        r == positive_count_in(text_view(value), 1),
        r > 0,
{
    read_positive_count(value, 1)
}

/// How long an idle receiver waits, in milliseconds.
pub fn read_udp_idle_wait_ms(value: Option<&str>) -> (r: u64)
    ensures
        r == positive_count_in(text_view(value), 100),
        r > 0,
{
    read_positive_count(value, 100)
}

/// Whether packets that the kernel dropped are counted.
pub fn read_udp_track_rxq_ovfl(value: Option<&str>) -> (r: bool)
    ensures
        r == match value {
            Some(text) => is_on(text@),
            None => false,
        },
{
    read_bool_env(value, false)
}

/// The socket options that busy polling asks for, in the order in which they are set: the time to
/// poll, the preference for polling, and the number of packets to poll.
pub open spec fn busy_poll_settings(micros: Option<u32>, prefer: bool, budget: Option<u32>) -> Seq<(i32, i32)> {
    (match micros {
        Some(micros) => seq![(46i32, micros as i32)],
        None => Seq::empty(),
    }) + (if prefer {
        seq![(69i32, 1i32)]
    } else {
        Seq::empty()
    }) + (match budget {
        Some(budget) => seq![(70i32, budget as i32)],
        None => Seq::empty(),
    })
}

/// The socket options that busy polling asks for, in the order in which they are set.
pub fn busy_poll_options(busy_poll_us: Option<u32>, prefer_busy_poll: bool, busy_poll_budget: Option<u32>) -> (r:
    Vec<(i32, i32)>)
    ensures
        r@ == busy_poll_settings(busy_poll_us, prefer_busy_poll, busy_poll_budget),
{
    let mut options: Vec<(i32, i32)> = Vec::new();
    if let Some(timeout_us) = busy_poll_us {
        options.push((46, #[verifier::truncate] (timeout_us as i32)));
    }
    if prefer_busy_poll {
        options.push((69, 1));
    }
    if let Some(packet_budget) = busy_poll_budget {
        options.push((70, #[verifier::truncate] (packet_budget as i32)));
    }
    assert(options@ =~= busy_poll_settings(busy_poll_us, prefer_busy_poll, busy_poll_budget));
    options
}

/// A number that was written out is read back, as far as it can be held. Where a positive number is
/// asked for, zero, no number and no text at all give the default.
pub proof fn numbers_in_texts_are_read_back(n: nat, size_default: usize, count_default: u64, text: Seq<char>)
    ensures
        n <= usize::MAX && n <= u64::MAX ==> size_in(Some(decimal_text(n))) == Some(n as usize),
        n > usize::MAX ==> size_in(Some(decimal_text(n))) is None,
        size_in(None) is None,
        parsed_number(text) is None ==> size_in(Some(text)) is None,
        0 < n <= usize::MAX && n <= u64::MAX ==> positive_size_in(Some(decimal_text(n)), size_default) == n,
        positive_size_in(Some(decimal_text(0)), size_default) == size_default,
        positive_size_in(None, size_default) == size_default,
        parsed_number(text) is None ==> positive_size_in(Some(text), size_default) == size_default,
        0 < n <= u64::MAX ==> positive_count_in(Some(decimal_text(n)), count_default) == n,
        n > u64::MAX ==> positive_count_in(Some(decimal_text(n)), count_default) == count_default,
        positive_count_in(Some(decimal_text(0)), count_default) == count_default,
        positive_count_in(None, count_default) == count_default,
        parsed_number(text) is None ==> positive_count_in(Some(text), count_default) == count_default,
{
    numerals_are_read_back(n);
    numerals_are_read_back(0);
}

/// A switch is on for the words `1`, `true`, `yes` and `on`, however their letters are cased, and for no
/// other.
pub proof fn four_words_turn_a_switch_on(word: Seq<char>)
    ensures
        turns_on(word) ==> 1 <= word.len() <= 4,
        word.len() == 1 ==> (turns_on(word) <==> word[0] == '1'),
        word.len() == 2 ==> (turns_on(word) <==> ascii_lower(word[0]) == 'o' && ascii_lower(word[1]) == 'n'),
        word.len() == 3 ==> (turns_on(word) <==> ascii_lower(word[0]) == 'y' && ascii_lower(word[1]) == 'e'
            && ascii_lower(word[2]) == 's'),
        word.len() == 4 ==> (turns_on(word) <==> ascii_lower(word[0]) == 't' && ascii_lower(word[1]) == 'r'
            && ascii_lower(word[2]) == 'u' && ascii_lower(word[3]) == 'e'),
        is_on(word) <==> turns_on(trimmed(word)),
{
    reveal_strlit("1");
    reveal_strlit("true");
    reveal_strlit("yes");
    reveal_strlit("on");
    let lower = word.map_values(|c: char| ascii_lower(c));
    assert(lower.len() == word.len());
    assert("1"@.len() == 1);
    assert("true"@.len() == 4);
    assert("yes"@.len() == 3);
    assert("on"@.len() == 2);
    assert("yes"@[0] == 'y' && "yes"@[1] == 'e' && "yes"@[2] == 's');
    if turns_on(word) && word.len() > 0 {
        assert(lower[0] == ascii_lower(word[0]));
    }
    if word.len() == 1 {
        assert(lower == "1"@ <==> lower[0] == '1') by {
            if lower[0] == '1' {
                assert(lower =~= "1"@);
            }
        }
    }
    if word.len() == 2 && lower[0] == 'o' && lower[1] == 'n' {
        assert(lower =~= "on"@);
    }
    if word.len() == 3 && lower[0] == 'y' && lower[1] == 'e' && lower[2] == 's' {
        assert(lower =~= "yes"@);
    }
    if word.len() == 4 && lower[0] == 't' && lower[1] == 'r' && lower[2] == 'u' && lower[3] == 'e' {
        assert(lower =~= "true"@);
    }
}

/// Busy polling sets up to three options of a socket, by their numbers in ascending order: the time to
/// poll (46) and the number of packets to poll (70) where they are given, and the preference for
/// polling (69), which is one, where it is asked for.
pub proof fn busy_poll_sets_what_is_asked(micros: Option<u32>, prefer: bool, budget: Option<u32>, value: i32)
    ensures
        ({
            let options = busy_poll_settings(micros, prefer, budget);
            &&& options.contains((46i32, value)) <==> micros is Some && value == micros->0 as i32
            &&& options.contains((69i32, value)) <==> prefer && value == 1
            &&& options.contains((70i32, value)) <==> budget is Some && value == budget->0 as i32
            &&& forall|i: int, j: int|
                0 <= i < j < options.len() ==> (#[trigger] options[i]).0 < (#[trigger] options[j]).0
            &&& forall|i: int|
                0 <= i < options.len() ==> (#[trigger] options[i]).0 == 46 || options[i].0 == 69 || options[i].0
                    == 70
        }),
{
    let options = busy_poll_settings(micros, prefer, budget);
    let a: int = if micros is Some {
        1
    } else {
        0
    };
    let b: int = if prefer {
        1
    } else {
        0
    };
    if micros is Some {
        assert(options[0] == (46i32, micros->0 as i32));
    }
    if prefer {
        assert(options[a] == (69i32, 1i32));
    }
    if budget is Some {
        assert(options[a + b] == (70i32, budget->0 as i32));
    }
}

} // verus!
