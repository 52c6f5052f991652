//! Hexadecimal rendering of words and bytes for the machine's text output.

use vstd::prelude::*;

verus! {

/// The character that stands for the hexadecimal digit `d`, in upper or lower
/// case. Meaningful for `0 <= d < 16`.
pub open spec fn hex_digit(d: int, upper: bool) -> char {
    if d == 0 {
        '0'
    } else if d == 1 {
        '1'
    } else if d == 2 {
        '2'
    } else if d == 3 {
        '3'
    } else if d == 4 {
        '4'
    } else if d == 5 {
        '5'
    } else if d == 6 {
        '6'
    } else if d == 7 {
        '7'
    } else if d == 8 {
        '8'
    } else if d == 9 {
        '9'
    } else if d == 10 {
        if upper { 'A' } else { 'a' }
    } else if d == 11 {
        if upper { 'B' } else { 'b' }
    } else if d == 12 {
        if upper { 'C' } else { 'c' }
    } else if d == 13 {
        if upper { 'D' } else { 'd' }
    } else if d == 14 {
        if upper { 'E' } else { 'e' }
    } else {
        if upper { 'F' } else { 'f' }
    }
}

/// The hexadecimal numeral of `n` without leading zeros (a single `0` for
/// zero), most significant digit first.
pub open spec fn hex(n: nat, upper: bool) -> Seq<char>
    decreases n,
{
    if n < 16 {
        seq![hex_digit(n as int, upper)]
    } else {
        hex(n / 16, upper).push(hex_digit((n % 16) as int, upper))
    }
}

/// The hexadecimal numeral of a 16-bit word, padded with zeros to exactly four
/// digits.
pub open spec fn hex4(w: u16, upper: bool) -> Seq<char> {
    seq![
        hex_digit(w as int / 4096, upper),
        hex_digit(w as int / 256 % 16, upper),
        hex_digit(w as int / 16 % 16, upper),
        hex_digit(w as int % 16, upper),
    ]
}

/// What `print-regs` and `print-mem` emit for a run of bytes: each byte as an
/// upper-case numeral followed by one space.
pub open spec fn hex_bytes(bytes: Seq<u8>) -> Seq<char>
    decreases bytes.len(),
{
    if bytes.len() == 0 {
        Seq::empty()
    } else {
        hex_bytes(bytes.drop_last()) + hex(bytes.last() as nat, true).push(' ')
    }
}

/// The trace line of an instruction word: its upper-case numeral and a line
/// feed.
pub open spec fn trace_text(word: u16) -> Seq<char> {
    hex(word as nat, true).push('\n')
}

/// The diagnostic line for a word that names no operation.
pub open spec fn unknown_text(word: u16) -> Seq<char> {
    "Unknown instruction: "@ + hex(word as nat, true).push('\n')
}

/// The notice that the halt operation emits.
pub open spec fn halt_text() -> Seq<char> {
    "Exiting...\n"@
}

/// The one-character string for a hexadecimal digit.
pub fn digit_str(d: u8, upper: bool) -> (r: &'static str)
    requires
        d < 16,
    ensures
        r@ == seq![hex_digit(d as int, upper)],
{
    proof {
        reveal_strlit("0");
        reveal_strlit("1");
        reveal_strlit("2");
        reveal_strlit("3");
        reveal_strlit("4");
        reveal_strlit("5");
        reveal_strlit("6");
        reveal_strlit("7");
        reveal_strlit("8");
        reveal_strlit("9");
        reveal_strlit("A");
        reveal_strlit("B");
        reveal_strlit("C");
        reveal_strlit("D");
        reveal_strlit("E");
        reveal_strlit("F");
        reveal_strlit("a");
        reveal_strlit("b");
        reveal_strlit("c");
        reveal_strlit("d");
        reveal_strlit("e");
        reveal_strlit("f");
    }
    let r = match d {
        0 => "0",
        1 => "1",
        2 => "2",
        3 => "3",
        4 => "4",
        5 => "5",
        6 => "6",
        7 => "7",
        8 => "8",
        9 => "9",
        10 => if upper { "A" } else { "a" },
        11 => if upper { "B" } else { "b" },
        12 => if upper { "C" } else { "c" },
        13 => if upper { "D" } else { "d" },
        14 => if upper { "E" } else { "e" },
        _ => if upper { "F" } else { "f" },
    };
    r
}

/// Appends the numeral of `n`, without leading zeros, to `sink`.
pub fn push_hex(sink: &mut String, n: u16, upper: bool)
    ensures
        final(sink)@ == old(sink)@ + hex(n as nat, upper),
    decreases n,
{
    if n >= 16 {
        push_hex(sink, n / 16, upper);
    }
    sink.append(digit_str((n % 16) as u8, upper));
}

/// Appends the four-digit, zero-padded numeral of `w` to `sink`.
pub fn push_hex4(sink: &mut String, w: u16, upper: bool)
    ensures
        final(sink)@ == old(sink)@ + hex4(w, upper),
{
    sink.append(digit_str((w / 4096) as u8, upper));
    sink.append(digit_str((w / 256 % 16) as u8, upper));
    sink.append(digit_str((w / 16 % 16) as u8, upper));
    sink.append(digit_str((w % 16) as u8, upper));
}

/// Appends each of `bytes[from..to]` as an upper-case numeral followed by a
/// space.
pub fn push_hex_bytes(sink: &mut String, bytes: &[u8], from: usize, to: usize)
    requires
        from <= to <= bytes@.len(),
    ensures
        final(sink)@ == old(sink)@ + hex_bytes(bytes@.subrange(from as int, to as int)),
{
    let mut k: usize = from;
    while k < to
        invariant
            from <= k <= to <= bytes@.len(),
            sink@ == old(sink)@ + hex_bytes(bytes@.subrange(from as int, k as int)),
        decreases to - k,
    {
        push_hex(sink, bytes[k] as u16, true);
        sink.append(" ");
        proof {
            reveal_strlit(" ");
            assert(bytes@.subrange(from as int, k + 1).drop_last() =~= bytes@.subrange(
                from as int,
                k as int,
            ));
        }
        k += 1;
    }
}

/// Appends the trace line of an instruction word.
pub fn push_trace(sink: &mut String, word: u16)
    ensures
        final(sink)@ == old(sink)@ + trace_text(word),
{
    push_hex(sink, word, true);
    sink.append("\n");
    proof {
        reveal_strlit("\n");
    }
}

/// Appends the diagnostic line for a word that names no operation.
pub fn push_unknown(sink: &mut String, word: u16)
    ensures
        final(sink)@ == old(sink)@ + unknown_text(word),
{
    sink.append("Unknown instruction: ");
    push_hex(sink, word, true);
    sink.append("\n");
    proof {
        reveal_strlit("\n");
    }
}

/// Appends the halt notice.
pub fn push_halt(sink: &mut String)
    ensures
        final(sink)@ == old(sink)@ + halt_text(),
{
    sink.append("Exiting...\n");
}

} // verus!
