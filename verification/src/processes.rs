//! Browser audio processes, found in the output of `ps`.
use vstd::prelude::*;

use crate::text::chars_of;

verus! {

/// The switch that Chromium-based browsers start their audio process with.
pub const AUDIO_SERVICE_SWITCH: &'static str = "--utility-sub-type=audio.mojom.AudioService";

/// The text of some bytes, what is no UTF-8 replaced by U+FFFD.
pub uninterp spec fn lossy_text(bytes: Seq<u8>) -> Seq<char>;

/// Whether a character is white space: whether it has Unicode's `White_Space` property.
pub open spec fn white_space(c: char) -> bool {
    ||| '\u{9}' <= c <= '\u{d}'
    ||| c == ' ' || c == '\u{85}' || c == '\u{a0}' || c == '\u{1680}'
    ||| '\u{2000}' <= c <= '\u{200a}'
    ||| c == '\u{2028}' || c == '\u{2029}' || c == '\u{202f}' || c == '\u{205f}'
    ||| c == '\u{3000}'
}

/// Calls `String::from_utf8_lossy`. Claimed: the text is a function of the bytes, and of valid
/// UTF-8 it is the text that the bytes encode.
#[verifier::external_body]
fn decode_lossy(bytes: &[u8]) -> (r: String)
    ensures
        r@ == lossy_text(bytes@),
        vstd::utf8::valid_utf8(bytes@) ==> r@ == vstd::utf8::decode_utf8(bytes@),
{
    String::from_utf8_lossy(bytes).into_owned()
}

/// Tells whether a character is white space.
pub fn is_white_space(c: char) -> (r: bool)
    ensures
        r == white_space(c),
{
    ('\u{9}' <= c && c <= '\u{d}') || c == ' ' || c == '\u{85}' || c == '\u{a0}' || c
        == '\u{1680}' || ('\u{2000}' <= c && c <= '\u{200a}') || c == '\u{2028}' || c
        == '\u{2029}' || c == '\u{202f}' || c == '\u{205f}' || c == '\u{3000}'
}

/// Whether a text holds another.
pub open spec fn holds(text: Seq<char>, part: Seq<char>) -> bool {
    exists|i: int|
        0 <= i && i + part.len() <= text.len() && #[trigger] text.subrange(i, i + part.len())
            == part
}

/// The value of a run of digits.
pub open spec fn digits_value(digits: Seq<char>) -> nat
    decreases digits.len(),
{
    if digits.len() == 0 {
        0
    } else {
        10 * digits_value(digits.drop_last()) + (digits.last() as u32 - '0' as u32) as nat
    }
}

/// Whether a text is a run of at least one digit.
pub open spec fn all_digits(text: Seq<char>) -> bool {
    text.len() > 0 && forall|i: int| 0 <= i < text.len() ==> '0' <= #[trigger] text[i] <= '9'
}

/// The digits of a number, behind an optional plus sign.
pub open spec fn unsigned_part(text: Seq<char>) -> Seq<char> {
    if text.len() > 0 && text[0] == '+' {
        text.skip(1)
    } else {
        text
    }
}

/// The number that a text stands for: digits behind an optional plus sign, within 32 bits.
pub open spec fn number_in(text: Seq<char>) -> Option<u32> {
    if all_digits(unsigned_part(text)) && digits_value(unsigned_part(text)) <= u32::MAX {
        Some(digits_value(unsigned_part(text)) as u32)
    } else {
        None
    }
}

/// The length of the run at the start of a text in which white space is, or is not, all there
/// is.
pub open spec fn run_length(text: Seq<char>, space: bool) -> nat
    decreases text.len(),
{
    if text.len() > 0 && white_space(text[0]) == space {
        1 + run_length(text.skip(1), space)
    } else {
        0
    }
}

/// The first word of a text: what stands between white space, empty where there is none.
pub open spec fn first_word(text: Seq<char>) -> Seq<char> {
    let rest = text.skip(run_length(text, true) as int);
    rest.take(run_length(rest, false) as int)
}

/// The process that a line of `ps` tells of, where it is a browser's audio process.
pub open spec fn audio_pid(line: Seq<char>) -> Option<u32> {
    if holds(line, AUDIO_SERVICE_SWITCH@) {
        number_in(first_word(line))
    } else {
        None
    }
}

/// The length of the first line of a text.
pub open spec fn line_length(text: Seq<char>) -> nat
    decreases text.len(),
{
    if text.len() == 0 || text[0] == '\n' {
        0
    } else {
        1 + line_length(text.skip(1))
    }
}

/// A line is no longer than the text.
proof fn lemma_line_length(text: Seq<char>)
    ensures
        line_length(text) <= text.len(),
        forall|k: int| 0 <= k < line_length(text) ==> text[k] != '\n',
        line_length(text) < text.len() ==> text[line_length(text) as int] == '\n',
    decreases text.len(),
{
    if text.len() > 0 && text[0] != '\n' {
        let rest = text.skip(1);
        lemma_line_length(rest);
        assert forall|k: int| 0 <= k < line_length(text) implies text[k] != '\n' by {
            if k > 0 {
                assert(rest[k - 1] != '\n');
            }
        }
        assert(line_length(text) < text.len() ==> rest[line_length(rest) as int] == '\n');
    }
}

/// The browser audio processes that the lines of a text tell of, in order.
pub open spec fn audio_pids(text: Seq<char>) -> Seq<u32>
    decreases text.len(),
    via audio_pids_decreases
{
    if text.len() == 0 {
        Seq::empty()
    } else {
        let end = line_length(text) as int;
        let rest = if end < text.len() {
            audio_pids(text.skip(end + 1))
        } else {
            Seq::empty()
        };
        match audio_pid(text.take(end)) {
            Some(pid) => seq![pid] + rest,
            None => rest,
        }
    }
}

#[via_fn]
proof fn audio_pids_decreases(text: Seq<char>) {
    lemma_line_length(text);
}

/// Whether `part` stands in `text` at `at`.
fn stands_at(text: &[char], at: usize, part: &[char]) -> (r: bool)
    requires
        at + part@.len() <= text@.len(),
    ensures
        r == (text@.subrange(at as int, at + part@.len()) == part@),
{
    let len: usize = text.len();
    let mut k: usize = 0;
    while k < part.len()
        invariant
            k <= part@.len(),
            len == text@.len(),
            at + part@.len() <= text@.len(),
            forall|j: int| 0 <= j < k ==> text@[at + j] == part@[j],
        decreases part@.len() - k,
    {
        if text[at + k] != part[k] {
            assert(text@.subrange(at as int, at + part@.len())[k as int] != part@[k as int]);
            return false;
        }
        k = k + 1;
    }
    assert(text@.subrange(at as int, at + part@.len()) =~= part@);
    true
}

/// Whether a text holds another.
fn contains(text: &[char], part: &[char]) -> (r: bool)
    ensures
        r == holds(text@, part@),
{
    if part.len() > text.len() {
        return false;
    }
    let last: usize = text.len() - part.len();
    let mut i: usize = 0;
    while i < last
        invariant
            i <= last,
            last + part@.len() == text@.len(),
            forall|k: int| 0 <= k < i ==> #[trigger] text@.subrange(k, k + part@.len()) != part@,
        decreases last - i,
    {
        if stands_at(text, i, part) {
            return true;
        }
        i = i + 1;
    }
    stands_at(text, last, part)
}

/// Reads a number: digits behind an optional plus sign, within 32 bits.
pub fn parse_number(text: &[char]) -> (r: Option<u32>)
    ensures
        r == number_in(text@),
{
    let start: usize = if text.len() > 0 && text[0] == '+' {
        1
    } else {
        0
    };
    let ghost digits = unsigned_part(text@);
    assert(text@.skip(0) =~= text@);
    assert(digits == text@.skip(start as int));
    if start == text.len() {
        return None;
    }
    let mut value: u32 = 0;
    let mut i: usize = start;
    while i < text.len()
        invariant
            start <= i <= text@.len(),
            start < text@.len(),
            digits == text@.skip(start as int),
            digits == unsigned_part(text@),
            forall|k: int| 0 <= k < i - start ==> '0' <= #[trigger] digits[k] <= '9',
            value == digits_value(digits.take(i - start)),
        decreases text@.len() - i,
    {
        let c: char = text[i];
        assert(digits[i - start] == c);
        if c < '0' || c > '9' {
            return None;
        }
        let ghost before = digits.take(i - start);
        let ghost after = digits.take(i - start + 1);
        assert(after.drop_last() =~= before);
        let d: u32 = c as u32 - '0' as u32;
        if value > 429_496_729 || (value == 429_496_729 && d > 5) {
            proof {
                assert(digits_value(after) > u32::MAX);
                lemma_digits_grow(digits, i - start + 1);
            }
            return None;
        }
        value = 10 * value + d;
        i = i + 1;
    }
    assert(digits.take(i - start) =~= digits);
    Some(value)
}

/// More digits make no smaller number.
proof fn lemma_digits_grow(digits: Seq<char>, n: int)
    requires
        0 <= n <= digits.len(),
    ensures
        digits_value(digits.take(n)) <= digits_value(digits),
    decreases digits.len(),
{
    if n == digits.len() {
        assert(digits.take(n) =~= digits);
    } else {
        lemma_digits_grow(digits.drop_last(), n);
        assert(digits.drop_last().take(n) =~= digits.take(n));
    }
}

/// The end of the run that starts at `from` in which white space is, or is not, all there is.
fn run_end(text: &[char], from: usize, space: bool) -> (r: usize)
    requires
        from <= text@.len(),
    ensures
        from <= r <= text@.len(),
        r == from + run_length(text@.skip(from as int), space),
{
    let mut i: usize = from;
    while i < text.len() && is_white_space(text[i]) == space
        invariant
            from <= i <= text@.len(),
            run_length(text@.skip(from as int), space) == i - from + run_length(
                text@.skip(i as int),
                space,
            ),
        decreases text@.len() - i,
    {
        assert(text@.skip(i as int).skip(1) =~= text@.skip(i + 1));
        i = i + 1;
    }
    i
}

/// The characters of a text between two places.
fn slice_of(text: &[char], from: usize, to: usize) -> (r: Vec<char>)
    requires
        from <= to <= text@.len(),
    ensures
        r@ == text@.subrange(from as int, to as int),
{
    let mut part: Vec<char> = Vec::new();
    let mut i: usize = from;
    while i < to
        invariant
            from <= i <= to <= text@.len(),
            part@ == text@.subrange(from as int, i as int),
        decreases to - i,
    {
        part.push(text[i]);
        i = i + 1;
        assert(part@ =~= text@.subrange(from as int, i as int));
    }
    part
}

/// The process that a line of `ps` tells of, where it is a browser's audio process.
fn pid_in_line(line: &[char], mark: &[char]) -> (r: Option<u32>)
    requires
        mark@ == AUDIO_SERVICE_SWITCH@,
    ensures
        r == audio_pid(line@),
{
    if !contains(line, mark) {
        return None;
    }
    assert(line@.skip(0) =~= line@);
    let from: usize = run_end(line, 0, true);
    let to: usize = run_end(line, from, false);
    assert(line@.subrange(from as int, to as int) =~= first_word(line@));
    let word: Vec<char> = slice_of(line, from, to);
    parse_number(word.as_slice())
}

/// What is said where no browser plays audio.
pub open spec fn no_browser_message() -> Seq<char> {
    "No browser audio process found. Is Chrome, Comet, or another Chromium-based browser running with audio playing?"@
}

/// Finds the browser audio processes in the text that `ps -ax -o pid=,command=` prints.
pub fn pids_in_text(text: &str) -> (r: Result<Vec<u32>, String>)
    ensures
        match r {
            Ok(pids) => audio_pids(text@).len() > 0 && pids@ == audio_pids(text@),
            Err(message) => audio_pids(text@).len() == 0 && message@ == no_browser_message(),
        },
{
    let chars: Vec<char> = chars_of(text);
    let mark: Vec<char> = chars_of(AUDIO_SERVICE_SWITCH);
    let mut pids: Vec<u32> = Vec::new();
    let mut start: usize = 0;
    assert(text@.skip(0) =~= text@);
    while start < chars.len()
        invariant
            start <= chars@.len(),
            chars@ == text@,
            mark@ == AUDIO_SERVICE_SWITCH@,
            audio_pids(text@) == pids@ + audio_pids(text@.skip(start as int)),
        decreases chars@.len() - start,
    {
        let ghost rest = text@.skip(start as int);
        let mut end: usize = start;
        while end < chars.len() && chars[end] != '\n'
            invariant
                start <= end <= chars@.len(),
                chars@ == text@,
                rest == text@.skip(start as int),
                forall|k: int| start <= k < end ==> chars@[k] != '\n',
            decreases chars@.len() - end,
        {
            end = end + 1;
        }
        proof {
            lemma_line_length(rest);
            let n = line_length(rest) as int;
            if n < end - start {
                assert(rest[n] == chars@[start + n]);
            }
            if n > end - start {
                assert(rest[end - start] == chars@[end as int]);
            }
            assert(n == end - start);
        }
        let line: Vec<char> = slice_of(chars.as_slice(), start, end);
        assert(line@ =~= rest.take(end - start));
        let ghost before = pids@;
        if let Some(pid) = pid_in_line(line.as_slice(), mark.as_slice()) {
            pids.push(pid);
        }
        if end < chars.len() {
            start = end + 1;
            assert(rest.skip(line_length(rest) as int + 1) =~= text@.skip(start as int));
        } else {
            start = end;
            assert(text@.skip(start as int) =~= Seq::empty());
        }
        assert(audio_pids(text@) =~= pids@ + audio_pids(text@.skip(start as int)));
    }
    assert(text@.skip(start as int) =~= Seq::empty());
    assert(audio_pids(text@) =~= pids@);
    if pids.len() == 0 {
        Err(
            "No browser audio process found. Is Chrome, Comet, or another Chromium-based browser running with audio playing?".to_owned(),
        )
    } else {
        Ok(pids)
    }
}

/// Finds the browser audio processes in the bytes that `ps -ax -o pid=,command=` prints.
pub fn find_browser_audio_pids(stdout: &[u8]) -> (r: Result<Vec<u32>, String>)
    ensures
        match r {
            Ok(pids) => audio_pids(lossy_text(stdout@)).len() > 0 && pids@ == audio_pids(
                lossy_text(stdout@),
            ),
            Err(message) => audio_pids(lossy_text(stdout@)).len() == 0 && message@
                == no_browser_message(),
        },
        vstd::utf8::valid_utf8(stdout@) ==> lossy_text(stdout@) == vstd::utf8::decode_utf8(stdout@),
{
    let text: String = decode_lossy(stdout);
    pids_in_text(text.as_str())
}

/// The first line of a text ends where the first line of its start does, if that ends at all.
proof fn lemma_first_line(text: Seq<char>, n: int)
    requires
        0 <= n <= text.len(),
        forall|k: int| 0 <= k < n ==> text[k] != '\n',
        n < text.len() ==> text[n] == '\n',
    ensures
        line_length(text) == n,
{
    lemma_line_length(text);
}

/// The processes of two texts, one put below the other, are those of the first and then those
/// of the second: each line is read for itself.
pub proof fn law_lines_are_read_one_by_one(above: Seq<char>, below: Seq<char>)
    ensures
        audio_pids(above + seq!['\n'] + below) == audio_pids(above) + audio_pids(below),
    decreases above.len(),
{
    let text = above + seq!['\n'] + below;
    let end = line_length(above) as int;
    lemma_line_length(above);
    assert(text[above.len() as int] == '\n');
    assert forall|k: int| 0 <= k < end implies text[k] != '\n' by {
        assert(text[k] == above[k]);
    }
    lemma_first_line(text, end);
    assert(text.take(end) =~= above.take(end));
    if end < above.len() {
        let rest = above.skip(end + 1);
        assert(text.skip(end + 1) =~= rest + seq!['\n'] + below);
        law_lines_are_read_one_by_one(rest, below);
        assert(audio_pids(text) =~= audio_pids(above) + audio_pids(below));
    } else {
        assert(text.skip(end + 1) =~= below);
        assert(above.take(end) =~= above);
        if above.len() == 0 {
            reveal_strlit("--utility-sub-type=audio.mojom.AudioService");
            assert(!holds(above, AUDIO_SERVICE_SWITCH@));
        }
        assert(audio_pids(text) =~= audio_pids(above) + audio_pids(below));
    }
}

/// A number written in decimal is read as that number.
pub proof fn law_numbers_survive_writing(n: u32)
    ensures
        number_in(crate::text::decimal(n as nat)) == Some(n),
{
    lemma_decimal_digits(n as nat);
    let text = crate::text::decimal(n as nat);
    assert(text[0] != '+');
}

/// The decimal digits of a number are digits and stand for it.
proof fn lemma_decimal_digits(n: nat)
    ensures
        all_digits(crate::text::decimal(n)),
        digits_value(crate::text::decimal(n)) == n,
    decreases n,
{
    let text = crate::text::decimal(n);
    if n < 10 {
        reveal_with_fuel(digits_value, 2);
    } else {
        lemma_decimal_digits(n / 10);
        assert(text.drop_last() =~= crate::text::decimal(n / 10));
    }
}

/// The length of a run whose end is known.
proof fn lemma_run_length(text: Seq<char>, n: int, space: bool)
    requires
        0 <= n <= text.len(),
        forall|k: int| 0 <= k < n ==> white_space(#[trigger] text[k]) == space,
        n < text.len() ==> white_space(text[n]) != space,
    ensures
        run_length(text, space) == n,
    decreases n,
{
    if n > 0 {
        let rest = text.skip(1);
        assert forall|k: int| 0 <= k < n - 1 implies white_space(#[trigger] rest[k]) == space by {
            assert(rest[k] == text[k + 1]);
        }
        lemma_run_length(rest, n - 1, space);
        assert(white_space(text[0]) == space);
    }
}

/// A line tells of the process whose number is its first word, white space in front of it left
/// aside, exactly where the browsers' switch stands somewhere in it and that word is a number; a
/// blank line tells of none.
pub proof fn law_a_line_tells_its_process(pad: Seq<char>, word: Seq<char>, rest: Seq<char>)
    requires
        forall|k: int| 0 <= k < pad.len() ==> white_space(#[trigger] pad[k]),
        forall|k: int| 0 <= k < word.len() ==> !white_space(#[trigger] word[k]),
        rest.len() > 0 ==> word.len() > 0 && white_space(rest[0]),
        !(pad + word + rest).contains('\n'),
    ensures
        ({
            let line = pad + word + rest;
            let switch = "--utility-sub-type=audio.mojom.AudioService"@;
            let marked = exists|i: int|
                0 <= i && i + switch.len() <= line.len() && #[trigger] line.subrange(
                    i,
                    i + switch.len(),
                ) == switch;
            &&& marked && number_in(word) is Some ==> audio_pids(line) == seq![number_in(word)->0]
            &&& !marked || number_in(word) is None ==> audio_pids(line) == Seq::<u32>::empty()
        }),
{
    let line = pad + word + rest;
    assert forall|k: int| 0 <= k < line.len() implies line[k] != '\n' by {
        assert(line.contains(line[k]));
    }
    lemma_first_line(line, line.len() as int);
    assert(line.take(line.len() as int) =~= line);
    assert forall|k: int| 0 <= k < pad.len() implies white_space(#[trigger] line[k]) by {
        assert(line[k] == pad[k]);
    }
    assert(word.len() > 0 ==> line[pad.len() as int] == word[0]);
    lemma_run_length(line, pad.len() as int, true);
    let behind = line.skip(pad.len() as int);
    assert forall|k: int| 0 <= k < word.len() implies !white_space(#[trigger] behind[k]) by {
        assert(behind[k] == word[k]);
    }
    assert(word.len() < behind.len() ==> behind[word.len() as int] == rest[0]);
    lemma_run_length(behind, word.len() as int, false);
    assert(first_word(line) =~= word);
    if let Some(pid) = audio_pid(line) {
        assert(seq![pid] + Seq::<u32>::empty() =~= seq![pid]);
    }
}

/// A number is read digit by digit, each behind ten times what was read before, as long as it
/// fits in 32 bits. A plus sign may stand in front; no sign, no other character and no empty text
/// is a number, nor becomes one by a further character.
pub proof fn law_numbers_are_read_digit_by_digit(text: Seq<char>, c: char)
    ensures
        number_in(Seq::empty()) is None,
        number_in(seq!['+']) is None,
        '0' <= c <= '9' ==> number_in(seq![c]) == Some((c as u32 - 48) as u32),
        '0' <= c <= '9' ==> number_in(seq!['+', c]) == Some((c as u32 - 48) as u32),
        !('0' <= c <= '9') ==> number_in(text.push(c)) is None,
        number_in(text) is Some && '0' <= c <= '9' ==> {
            let value = 10 * number_in(text)->0 + (c as u32 - 48);
            &&& value <= 4294967295 ==> number_in(text.push(c)) == Some(value as u32)
            &&& value > 4294967295 ==> number_in(text.push(c)) is None
        },
        text.len() > 0 && text != seq!['+'] && number_in(text) is None ==> number_in(text.push(c))
            is None,
{
    reveal_with_fuel(digits_value, 2);
    assert(seq!['+'].skip(1) =~= Seq::empty());
    assert(seq!['+', c].skip(1) =~= seq![c]);
    assert(seq![c].drop_last() =~= Seq::empty());
    let longer = unsigned_part(text.push(c));
    if text.len() > 0 {
        let part = unsigned_part(text);
        assert(text.push(c)[0] == text[0]);
        assert(longer =~= part.push(c));
        assert(longer.drop_last() =~= part);
        assert(longer.last() == c);
        if all_digits(longer) {
            assert forall|i: int| 0 <= i < part.len() implies '0' <= #[trigger] part[i] <= '9' by {
                assert(longer[i] == part[i]);
            }
            assert('0' <= longer[longer.len() - 1] <= '9');
            if part.len() == 0 {
                assert(text =~= seq!['+']);
            }
        }
        if all_digits(part) && '0' <= c <= '9' {
            assert forall|i: int| 0 <= i < longer.len() implies '0' <= #[trigger] longer[i]
                <= '9' by {
                assert(i < part.len() ==> longer[i] == part[i]);
            }
        }
    } else {
        assert(text.push(c) =~= seq![c]);
        if all_digits(longer) {
            assert(seq![c][0] == c);
            assert(c == '+' ==> longer.len() == 0);
            assert('0' <= longer[0] <= '9');
        }
    }
}

} // verus!
