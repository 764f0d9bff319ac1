//! Morse Code effect: translate a user-supplied message into on/off pulses.
//! Dot = 1 time unit on, dash = 3 units on, intra-char gap = 1, inter-char
//! gap = 3, inter-word gap = 7. The time unit scales with the speed slider.

use vstd::prelude::*;

use super::{
    capped, capped_interval, interval_from_speed, level_range, range_hi, range_lo,
    speed_interval, tick_safe, EffectParams, Tick,
};
use crate::text::{
    all_ascii, ascii_lower, ascii_upper, chars_of, lemma_case_keeps_kind, lemma_trimmed_ascii,
    lemma_trimmed_map, lemma_words_of_map, lemma_words_of_trimmed, lower_fn, map_words,
    split_words, to_upper, trim_bounds, trimmed, upper_fn, uppercased, white_space, words_of,
    words_view,
};

verus! {

/// The Morse code of a letter or digit (upper case only).
pub open spec fn morse_code(c: char) -> Option<Seq<char>> {
    match c {
        'A' => Some(".-"@),
        'B' => Some("-..."@),
        'C' => Some("-.-."@),
        'D' => Some("-.."@),
        'E' => Some("."@),
        'F' => Some("..-."@),
        'G' => Some("--."@),
        'H' => Some("...."@),
        'I' => Some(".."@),
        'J' => Some(".---"@),
        'K' => Some("-.-"@),
        'L' => Some(".-.."@),
        'M' => Some("--"@),
        'N' => Some("-."@),
        'O' => Some("---"@),
        'P' => Some(".--."@),
        'Q' => Some("--.-"@),
        'R' => Some(".-."@),
        'S' => Some("..."@),
        'T' => Some("-"@),
        'U' => Some("..-"@),
        'V' => Some("...-"@),
        'W' => Some(".--"@),
        'X' => Some("-..-"@),
        'Y' => Some("-.--"@),
        'Z' => Some("--.."@),
        '0' => Some("-----"@),
        '1' => Some(".----"@),
        '2' => Some("..---"@),
        '3' => Some("...--"@),
        '4' => Some("....-"@),
        '5' => Some("....."@),
        '6' => Some("-...."@),
        '7' => Some("--..."@),
        '8' => Some("---.."@),
        '9' => Some("----."@),
        _ => None,
    }
}

/// The Morse code of `c`, if it has one.
pub fn code_for(c: char) -> (r: Option<&'static str>)
    ensures
        r is Some <==> morse_code(c) is Some,
        r matches Some(code) ==> morse_code(c) == Some(code@),
{
    match c {
        'A' => Some(".-"),
        'B' => Some("-..."),
        'C' => Some("-.-."),
        'D' => Some("-.."),
        'E' => Some("."),
        'F' => Some("..-."),
        'G' => Some("--."),
        'H' => Some("...."),
        'I' => Some(".."),
        'J' => Some(".---"),
        'K' => Some("-.-"),
        'L' => Some(".-.."),
        'M' => Some("--"),
        'N' => Some("-."),
        'O' => Some("---"),
        'P' => Some(".--."),
        'Q' => Some("--.-"),
        'R' => Some(".-."),
        'S' => Some("..."),
        'T' => Some("-"),
        'U' => Some("..-"),
        'V' => Some("...-"),
        'W' => Some(".--"),
        'X' => Some("-..-"),
        'Y' => Some("-.--"),
        'Z' => Some("--.."),
        '0' => Some("-----"),
        '1' => Some(".----"),
        '2' => Some("..---"),
        '3' => Some("...--"),
        '4' => Some("....-"),
        '5' => Some("....."),
        '6' => Some("-...."),
        '7' => Some("--..."),
        '8' => Some("---.."),
        '9' => Some("----."),
        _ => None,
    }
}

/// The on/off units of one sign: a dot is one unit on, a dash three.
pub open spec fn sign_units(c: char) -> Seq<bool> {
    if c == '.' {
        seq![true]
    } else if c == '-' {
        seq![true, true, true]
    } else {
        Seq::empty()
    }
}

/// The units of the first `k` signs of `code`, each but the last followed by
/// a one-unit gap.
pub open spec fn code_units_upto(code: Seq<char>, k: nat) -> Seq<bool>
    decreases k,
{
    if k == 0 || k > code.len() {
        Seq::empty()
    } else {
        code_units_upto(code, (k - 1) as nat) + sign_units(code[k - 1]) + if k < code.len() {
            seq![false]
        } else {
            Seq::empty()
        }
    }
}

/// The units of a whole code.
pub open spec fn code_units(code: Seq<char>) -> Seq<bool> {
    code_units_upto(code, code.len())
}

/// `piece` added after `prev` with `gap` between them: the gap only
/// separates two nonempty parts, so an empty part adds nothing.
pub open spec fn joined_units(prev: Seq<bool>, piece: Seq<bool>, gap: Seq<bool>) -> Seq<bool> {
    if piece.len() == 0 {
        prev
    } else if prev.len() == 0 {
        piece
    } else {
        prev + gap + piece
    }
}

/// The units of one character: its code, or nothing for a character without
/// one.
pub open spec fn char_units(c: char) -> Seq<bool> {
    match morse_code(c) {
        None => Seq::empty(),
        Some(code) => code_units(code),
    }
}

/// The units of the first `k` characters of a word: the transmitted
/// characters, separated by three-unit gaps.
pub open spec fn word_units_upto(word: Seq<char>, k: nat) -> Seq<bool>
    decreases k,
{
    if k == 0 || k > word.len() {
        Seq::empty()
    } else {
        joined_units(
            word_units_upto(word, (k - 1) as nat),
            char_units(word[k - 1]),
            seq![false, false, false],
        )
    }
}

/// The units of a whole word.
pub open spec fn word_units(word: Seq<char>) -> Seq<bool> {
    word_units_upto(word, word.len())
}

/// The units of the first `k` words: the transmitted words, separated by
/// seven-unit gaps.
pub open spec fn text_units_upto(words: Seq<Seq<char>>, k: nat) -> Seq<bool>
    decreases k,
{
    if k == 0 || k > words.len() {
        Seq::empty()
    } else {
        joined_units(
            text_units_upto(words, (k - 1) as nat),
            word_units(words[k - 1]),
            seq![false, false, false, false, false, false, false],
        )
    }
}

/// The unit sequence of already upper-cased text, split into words.
pub open spec fn upper_units(upper: Seq<char>) -> Seq<bool> {
    let words = words_of(upper);
    text_units_upto(words, words.len())
}

/// The unit sequence of a message: trimmed, upper-cased, split into words.
pub open spec fn message_units(text: Seq<char>) -> Seq<bool> {
    upper_units(uppercased(trimmed(text)))
}

/// `n` copies of `b`.
pub open spec fn repeat(b: bool, n: nat) -> Seq<bool> {
    Seq::new(n, |_i: int| b)
}

/// The unit sequence a run-length pattern spells out.
pub open spec fn expand(p: Seq<(bool, usize)>) -> Seq<bool>
    decreases p.len(),
{
    if p.len() == 0 {
        Seq::empty()
    } else {
        expand(p.drop_last()) + repeat(p.last().0, p.last().1 as nat)
    }
}

/// A run-length pattern: nonempty runs, and neighbouring runs differ.
pub open spec fn is_runs(p: Seq<(bool, usize)>) -> bool {
    &&& forall|i: int| 0 <= i < p.len() ==> #[trigger] p[i].1 >= 1
    &&& forall|i: int| 0 <= i < p.len() - 1 ==> #[trigger] p[i].0 != p[i + 1].0
}

/// The pattern sent for a message with no encodable character: one unit on,
/// three off.
pub open spec fn fallback_pattern() -> Seq<(bool, usize)> {
    seq![(true, 1usize), (false, 3usize)]
}

/// Append the units of one code.
fn push_code_units(code: &str, units: &mut Vec<bool>)
    ensures
        final(units)@ == old(units)@ + code_units(code@),
{
    let signs = chars_of(code);
    let n = signs.len();
    let mut si: usize = 0;
    while si < n
        invariant
            n == signs@.len(),
            signs@ == code@,
            si <= n,
            units@ == old(units)@ + code_units_upto(code@, si as nat),
        decreases n - si,
    {
        let ghost before = units@;
        let s = signs[si];
        if s == '.' {
            units.push(true);
        } else if s == '-' {
            units.push(true);
            units.push(true);
            units.push(true);
        }
        assert(units@ == before + sign_units(s));
        let ghost mid = units@;
        if si + 1 < n {
            units.push(false);
        }
        proof {
            let gap = if si + 1 < n {
                seq![false]
            } else {
                Seq::<bool>::empty()
            };
            assert(units@ =~= mid + gap);
            assert(code_units_upto(code@, (si + 1) as nat) == code_units_upto(code@, si as nat)
                + sign_units(code@[si as int]) + gap);
            assert(units@ =~= old(units)@ + code_units_upto(code@, (si + 1) as nat));
        }
        si = si + 1;
    }
}

/// Add `piece` after `acc`, with `gap` units off between them when both
/// are nonempty.
fn join_into(acc: &mut Vec<bool>, piece: &Vec<bool>, gap: usize)
    ensures
        final(acc)@ == joined_units(old(acc)@, piece@, repeat(false, gap as nat)),
{
    if piece.len() == 0 {
        return;
    }
    if acc.len() > 0 {
        let mut g: usize = 0;
        while g < gap
            invariant
                g <= gap,
                acc@ == old(acc)@ + repeat(false, g as nat),
            decreases gap - g,
        {
            acc.push(false);
            g = g + 1;
            assert(acc@ =~= old(acc)@ + repeat(false, g as nat));
        }
    }
    let ghost base = acc@;
    let mut i: usize = 0;
    while i < piece.len()
        invariant
            i <= piece@.len(),
            acc@ == base + piece@.subrange(0, i as int),
        decreases piece@.len() - i,
    {
        acc.push(piece[i]);
        i = i + 1;
        assert(acc@ =~= base + piece@.subrange(0, i as int));
    }
    assert(piece@.subrange(0, piece@.len() as int) =~= piece@);
    assert(acc@ =~= base + piece@);
    proof {
        if old(acc)@.len() == 0 {
            assert(acc@ =~= piece@);
        }
    }
}

/// The units of one word.
fn word_units_of(word: &Vec<char>) -> (units: Vec<bool>)
    ensures
        units@ == word_units(word@),
{
    let mut units: Vec<bool> = Vec::new();
    let n = word.len();
    let mut ci: usize = 0;
    assert(units@ =~= word_units_upto(word@, 0));
    while ci < n
        invariant
            n == word@.len(),
            ci <= n,
            units@ == word_units_upto(word@, ci as nat),
        decreases n - ci,
    {
        let mut piece: Vec<bool> = Vec::new();
        match code_for(word[ci]) {
            Some(code) => {
                push_code_units(code, &mut piece);
                assert(piece@ =~= char_units(word@[ci as int]));
            },
            None => {
                assert(piece@ =~= char_units(word@[ci as int]));
            },
        }
        join_into(&mut units, &piece, 3);
        proof {
            assert(repeat(false, 3) =~= seq![false, false, false]);
        }
        ci = ci + 1;
    }
    units
}

/// The units of already upper-cased text.
fn units_of_upper(upper: &str) -> (units: Vec<bool>)
    ensures
        units@ == upper_units(upper@),
{
    let upper_chars = chars_of(upper);
    let words = split_words(&upper_chars);
    let ghost wv = words_view(words@);
    let mut units: Vec<bool> = Vec::new();
    let nw = words.len();
    let mut wi: usize = 0;
    assert(units@ =~= text_units_upto(wv, 0));
    while wi < nw
        invariant
            nw == words@.len() == wv.len(),
            wv == words_view(words@),
            wv == words_of(upper@),
            wi <= nw,
            units@ == text_units_upto(wv, wi as nat),
        decreases nw - wi,
    {
        let piece = word_units_of(&words[wi]);
        assert(wv[wi as int] == words@[wi as int]@);
        join_into(&mut units, &piece, 7);
        proof {
            assert(repeat(false, 7) =~= seq![false, false, false, false, false, false, false]);
        }
        wi = wi + 1;
    }
    units
}

/// Run-length encode a unit sequence: each run of equal units becomes
/// (unit, length); no units at all gives the fallback pattern.
fn runs_of(units: &Vec<bool>) -> (r: Vec<(bool, usize)>)
    ensures
        units@.len() == 0 ==> r@ == fallback_pattern(),
        units@.len() > 0 ==> expand(r@) == units@,
        is_runs(r@),
        r@.len() > 0,
{
    if units.len() == 0 {
        return vec![(true, 1), (false, 3)];
    }
    let mut out: Vec<(bool, usize)> = Vec::new();
    let mut cur: bool = units[0];
    let mut n: usize = 1;
    let mut i: usize = 1;
    assert(units@.subrange(0, 1) =~= repeat(cur, 1));
    assert(expand(out@) =~= Seq::<bool>::empty());
    while i < units.len()
        invariant
            1 <= n <= i <= units@.len(),
            expand(out@) + repeat(cur, n as nat) == units@.subrange(0, i as int),
            is_runs(out@),
            out@.len() > 0 ==> out@.last().0 != cur,
        decreases units@.len() - i,
    {
        let u = units[i];
        if u == cur {
            proof {
                assert(repeat(cur, (n + 1) as nat) =~= repeat(cur, n as nat).push(cur));
                assert(units@.subrange(0, i + 1) =~= units@.subrange(0, i as int).push(u));
            }
            n = n + 1;
        } else {
            let ghost before = out@;
            out.push((cur, n));
            proof {
                assert(out@.drop_last() =~= before);
                assert(expand(out@) == expand(before) + repeat(cur, n as nat));
                assert(units@.subrange(0, i + 1) =~= units@.subrange(0, i as int).push(u));
                assert(repeat(u, 1) =~= seq![u]);
                assert(expand(out@) + repeat(u, 1) =~= units@.subrange(0, i + 1));
                assert forall|k: int| 0 <= k < out@.len() - 1 implies #[trigger] out@[k].0 != out@[k + 1].0 by {
                    if k < before.len() - 1 {
                        assert(out@[k] == before[k] && out@[k + 1] == before[k + 1]);
                    }
                }
            }
            cur = u;
            n = 1;
        }
        i = i + 1;
    }
    let ghost before = out@;
    out.push((cur, n));
    proof {
        assert(out@.drop_last() =~= before);
        assert(units@.subrange(0, units@.len() as int) =~= units@);
        assert forall|k: int| 0 <= k < out@.len() - 1 implies #[trigger] out@[k].0 != out@[k + 1].0 by {
            if k < before.len() - 1 {
                assert(out@[k] == before[k] && out@[k + 1] == before[k + 1]);
            }
        }
    }
    out
}

/// The pattern of already upper-cased text: its words' transmitted
/// characters, run-length encoded.
pub fn pattern_from_upper(upper: &str) -> (r: Vec<(bool, usize)>)
    ensures
        upper_units(upper@).len() == 0 ==> r@ == fallback_pattern(),
        upper_units(upper@).len() > 0 ==> expand(r@) == upper_units(upper@),
        is_runs(r@),
        r@.len() > 0,
{
    let units = units_of_upper(upper);
    runs_of(&units)
}

/// Render the message as a run-length-encoded pattern of (on?, units).
pub fn build_pattern(text: &str) -> (r: Vec<(bool, usize)>)
    ensures
        message_units(text@).len() == 0 ==> r@ == fallback_pattern(),
        message_units(text@).len() > 0 ==> expand(r@) == message_units(text@),
        is_runs(r@),
        r@.len() > 0,
{
    let chars = chars_of(text);
    let (a, b) = trim_bounds(&chars);
    let trimmed_text = text.substring_char(a, b);
    let upper = to_upper(trimmed_text);
    pattern_from_upper(upper.as_str())
}

/// The message being sent and the position in its pattern.
pub struct MorseState {
    pub pattern: Vec<(bool, usize)>,
    pub i: usize,
}

impl MorseState {
    /// The pattern is a run-length pattern and the position lies in it.
    pub open spec fn wf(self) -> bool {
        &&& self.pattern@.len() > 0
        &&& is_runs(self.pattern@)
        &&& self.i < self.pattern@.len()
    }

    /// Start sending `text` from the beginning.
    pub fn new(text: &str) -> (s: Self)
        ensures
            s.wf(),
            s.i == 0,
            message_units(text@).len() == 0 ==> s.pattern@ == fallback_pattern(),
            message_units(text@).len() > 0 ==> expand(s.pattern@) == message_units(text@),
    {
        MorseState { pattern: build_pattern(text), i: 0 }
    }
}

/// One Morse step: the current run is written (the ceiling for on, the floor
/// for off) through the auto-dim override and held for as many speed-scaled
/// units as it is long; then the next run, cycling through the pattern.
pub fn run(state: &mut MorseState, params: &EffectParams) -> (t: Tick)
    requires
        old(state).wf(),
    ensures
        final(state).wf(),
        final(state).pattern == old(state).pattern,
        final(state).i == (old(state).i + 1) % old(state).pattern@.len() as int,
        ({
            let (on, units) = old(state).pattern@[old(state).i as int];
            t == Tick {
                level: Some(
                    if on {
                        range_hi(*params)
                    } else {
                        range_lo(*params)
                    } as u8,
                ),
                dimmable: true,
                sleep_ms: capped(speed_interval(params.speed as int)) as u64,
                sleeps: units,
            }
        }),
        tick_safe(t),
{
    let (min, max) = level_range(params);
    let (on, units) = state.pattern[state.i];
    let level = if on {
        max
    } else {
        min
    };
    let unit_ms = interval_from_speed(params.speed);
    let len = state.pattern.len();
    proof {
        let k = state.i as int + 1;
        let m = len as int;
        if k < m {
            assert(k % m == k) by (nonlinear_arith)
                requires
                    0 <= k < m,
            ;
        } else {
            assert(k % m == 0) by (nonlinear_arith)
                requires
                    k == m,
                    m > 0,
            ;
        }
    }
    state.i = if state.i < len - 1 {
        state.i + 1
    } else {
        0
    };
    Tick { level: Some(level), dimmable: true, sleep_ms: capped_interval(unit_ms), sleeps: units }
}


/// Lower-casing the letters of an ASCII message does not change its units.
proof fn lemma_message_lower(text: Seq<char>)
    requires
        all_ascii(text),
    ensures
        message_units(ascii_lower(text)) == message_units(text),
{
    assert forall|c: char| #[trigger] white_space(lower_fn()(c)) == white_space(c) by {
        lemma_case_keeps_kind(c);
    }
    lemma_trimmed_map(text, lower_fn());
    lemma_trimmed_ascii(text);
    let t = trimmed(text);
    let lt = t.map_values(lower_fn());
    assert(all_ascii(lt)) by {
        assert forall|i: int| 0 <= i < lt.len() implies crate::text::is_ascii_char(
            #[trigger] lt[i],
        ) by {
            lemma_case_keeps_kind(t[i]);
        }
    }
    assert(ascii_upper(lt) =~= ascii_upper(t)) by {
        assert forall|i: int| 0 <= i < t.len() implies #[trigger] ascii_upper(lt)[i] == ascii_upper(
            t,
        )[i] by {
            lemma_case_keeps_kind(t[i]);
        }
    }
}

/// Two ASCII messages that differ only in the case of their letters are
/// sent as the same units.
pub proof fn lemma_message_ignores_case(a: Seq<char>, b: Seq<char>)
    requires
        all_ascii(a),
        all_ascii(b),
        ascii_lower(a) == ascii_lower(b),
    ensures
        message_units(a) == message_units(b),
{
    lemma_message_lower(a);
    lemma_message_lower(b);
}

/// The words an ASCII message is sent as: its own words, upper-cased.
proof fn lemma_message_words(text: Seq<char>)
    requires
        all_ascii(text),
    ensures
        words_of(uppercased(trimmed(text))) == map_words(words_of(text), upper_fn()),
{
    assert forall|c: char| #[trigger] white_space(upper_fn()(c)) == white_space(c) by {
        lemma_case_keeps_kind(c);
    }
    lemma_trimmed_ascii(text);
    lemma_words_of_map(trimmed(text), upper_fn());
    lemma_words_of_trimmed(text);
}

/// An ASCII message's units depend only on its words: messages with the
/// same words, whatever whitespace stands before, between or after them,
/// are sent alike.
pub proof fn lemma_message_depends_on_words(a: Seq<char>, b: Seq<char>)
    requires
        all_ascii(a),
        all_ascii(b),
        words_of(a) == words_of(b),
    ensures
        message_units(a) == message_units(b),
{
    lemma_message_words(a);
    lemma_message_words(b);
}


/// The code table is International Morse code: each letter and digit has
/// its standard code, and no other character has one.
pub proof fn lemma_international_morse()
    ensures
        morse_code('A') == Some(".-"@),
        morse_code('B') == Some("-..."@),
        morse_code('C') == Some("-.-."@),
        morse_code('D') == Some("-.."@),
        morse_code('E') == Some("."@),
        morse_code('F') == Some("..-."@),
        morse_code('G') == Some("--."@),
        morse_code('H') == Some("...."@),
        morse_code('I') == Some(".."@),
        morse_code('J') == Some(".---"@),
        morse_code('K') == Some("-.-"@),
        morse_code('L') == Some(".-.."@),
        morse_code('M') == Some("--"@),
        morse_code('N') == Some("-."@),
        morse_code('O') == Some("---"@),
        morse_code('P') == Some(".--."@),
        morse_code('Q') == Some("--.-"@),
        morse_code('R') == Some(".-."@),
        morse_code('S') == Some("..."@),
        morse_code('T') == Some("-"@),
        morse_code('U') == Some("..-"@),
        morse_code('V') == Some("...-"@),
        morse_code('W') == Some(".--"@),
        morse_code('X') == Some("-..-"@),
        morse_code('Y') == Some("-.--"@),
        morse_code('Z') == Some("--.."@),
        morse_code('0') == Some("-----"@),
        morse_code('1') == Some(".----"@),
        morse_code('2') == Some("..---"@),
        morse_code('3') == Some("...--"@),
        morse_code('4') == Some("....-"@),
        morse_code('5') == Some("....."@),
        morse_code('6') == Some("-...."@),
        morse_code('7') == Some("--..."@),
        morse_code('8') == Some("---.."@),
        morse_code('9') == Some("----."@),
        forall|c: char|
            #[trigger] morse_code(c) is Some <==> ('A' <= c <= 'Z' || '0' <= c <= '9'),
{
}

} // verus!
