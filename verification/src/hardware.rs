//! Reading the model and revision of a controller out of the hardware
//! description the device tree gives: a line such as `Moduline IV 4.6.2`,
//! whose last word holds the revision and whose text names the model.

use vstd::prelude::*;
use crate::mainboard::{ControllerType, HwVersion};

verus! {

/// The space that separates the words of a description.
pub const SPACE: u8 = 32;

/// The plus sign a number may start with.
pub const PLUS: u8 = 43;

/// The dot that separates the parts of a revision.
pub const DOT: u8 = 46;

/// The digit zero.
pub const DIGIT_ZERO: u8 = 48;

/// The digit nine.
pub const DIGIT_NINE: u8 = 57;

/// `Moduline IV`
pub open spec fn moduline_iv() -> Seq<u8> {
    seq![77u8, 111u8, 100u8, 117u8, 108u8, 105u8, 110u8, 101u8, 32u8, 73u8, 86u8]
}

/// `Moduline Mini`
pub open spec fn moduline_mini() -> Seq<u8> {
    seq![77u8, 111u8, 100u8, 117u8, 108u8, 105u8, 110u8, 101u8, 32u8, 77u8, 105u8, 110u8, 105u8]
}

/// `Moduline Display`
pub open spec fn moduline_display() -> Seq<u8> {
    seq![
        77u8,
        111u8,
        100u8,
        117u8,
        108u8,
        105u8,
        110u8,
        101u8,
        32u8,
        68u8,
        105u8,
        115u8,
        112u8,
        108u8,
        97u8,
        121u8,
    ]
}

/// `Moduline III`
pub open spec fn moduline_iii() -> Seq<u8> {
    seq![77u8, 111u8, 100u8, 117u8, 108u8, 105u8, 110u8, 101u8, 32u8, 73u8, 73u8, 73u8]
}

/// `pattern` stands in `text` at index `at`.
pub open spec fn occurs_at(text: Seq<u8>, pattern: Seq<u8>, at: int) -> bool {
    &&& 0 <= at
    &&& at + pattern.len() <= text.len()
    &&& forall|k: int| 0 <= k < pattern.len() ==> text[at + k] == pattern[k]
}

/// `pattern` stands somewhere in `text`.
pub open spec fn contains(text: Seq<u8>, pattern: Seq<u8>) -> bool {
    exists|at: int| occurs_at(text, pattern, at)
}

/// Index just behind the last `separator` of `text`, zero if there is none:
/// where the last field of `text` starts.
pub open spec fn last_field_start(text: Seq<u8>, separator: u8) -> int
    decreases text.len(),
{
    if text.len() == 0 {
        0
    } else if text.last() == separator {
        text.len() as int
    } else {
        last_field_start(text.drop_last(), separator)
    }
}

/// Index of the first `separator` of `text` at or behind `from`, the length
/// of `text` if there is none.
pub open spec fn next_separator(text: Seq<u8>, separator: u8, from: int) -> int
    decreases text.len() - from,
{
    if from >= text.len() {
        text.len() as int
    } else if text[from] == separator {
        from
    } else {
        next_separator(text, separator, from + 1)
    }
}

/// `byte` is a decimal digit.
pub open spec fn is_digit(byte: u8) -> bool {
    DIGIT_ZERO <= byte <= DIGIT_NINE
}

/// The number that the decimal digits `digits` spell, if every byte is a
/// digit. The empty sequence spells zero.
pub open spec fn digits_value(digits: Seq<u8>) -> Option<int>
    decreases digits.len(),
{
    if digits.len() == 0 {
        Some(0)
    } else {
        match digits_value(digits.drop_last()) {
            Some(value) => if is_digit(digits.last()) {
                Some(10 * value + (digits.last() - DIGIT_ZERO))
            } else {
                None
            },
            None => None,
        }
    }
}

/// The byte that `word` spells in decimal: an optional plus sign, then at
/// least one digit, no more than 255 in all.
pub open spec fn decimal_u8(word: Seq<u8>) -> Option<u8> {
    let digits = if word.len() > 0 && word[0] == PLUS {
        word.skip(1)
    } else {
        word
    };
    if digits.len() == 0 {
        None
    } else {
        match digits_value(digits) {
            Some(value) => if value <= 255 {
                Some(value as u8)
            } else {
                None
            },
            None => None,
        }
    }
}

/// The revision that the last word of `hardware` spells: the word is cut at
/// its dots, the first part is the major number, the third the minor.
pub open spec fn hardware_version(hardware: Seq<u8>) -> Option<HwVersion> {
    let start = last_field_start(hardware, SPACE);
    let first_dot = next_separator(hardware, DOT, start);
    let second_dot = next_separator(hardware, DOT, first_dot + 1);
    let third_dot = next_separator(hardware, DOT, second_dot + 1);
    if first_dot >= hardware.len() || second_dot >= hardware.len() {
        None
    } else {
        match (
            decimal_u8(hardware.subrange(start, first_dot)),
            decimal_u8(hardware.subrange(second_dot + 1, third_dot)),
        ) {
            (Some(version_major), Some(version_minor)) => Some(
                HwVersion { version_major, version_minor },
            ),
            _ => None,
        }
    }
}

/// The controller that `hardware` describes: its revision must be readable,
/// and the first model name found in the text, tried in the order Moduline
/// IV, Mini, Display, III, decides the model.
pub open spec fn controller_type_of(hardware: Seq<u8>) -> Result<ControllerType, ()> {
    match hardware_version(hardware) {
        None => Err(()),
        Some(version) => if contains(hardware, moduline_iv()) {
            Ok(ControllerType::ModulineIV(version))
        } else if contains(hardware, moduline_mini()) {
            Ok(ControllerType::ModulineMini(version))
        } else if contains(hardware, moduline_display()) {
            Ok(ControllerType::ModulineDisplay(version))
        } else if contains(hardware, moduline_iii()) {
            Ok(ControllerType::ModulineIII(version))
        } else {
            Err(())
        },
    }
}

/// A sequence with a byte that is no digit spells no number.
proof fn lemma_non_digit_spells_nothing(digits: Seq<u8>, at: int)
    requires
        0 <= at < digits.len(),
        !is_digit(digits[at]),
    ensures
        digits_value(digits) is None,
    decreases digits.len(),
{
    if at < digits.len() - 1 {
        lemma_non_digit_spells_nothing(digits.drop_last(), at);
    }
}

/// More digits never spell a smaller number.
proof fn lemma_more_digits_spell_more(digits: Seq<u8>, taken: int)
    requires
        0 <= taken <= digits.len(),
        digits_value(digits.take(taken)) matches Some(value) && value > 255,
    ensures
        digits_value(digits) matches Some(value) ==> value > 255,
    decreases digits.len() - taken,
{
    if taken == digits.len() {
        assert(digits.take(taken) =~= digits);
    } else {
        assert(digits.drop_last().take(taken) =~= digits.take(taken));
        lemma_more_digits_spell_more(digits.drop_last(), taken);
    }
}

/// Tells whether `pattern` stands somewhere in `text`.
pub fn find(text: &[u8], pattern: &[u8]) -> (found: bool)
    ensures
        found == contains(text@, pattern@),
{
    if pattern.len() > text.len() {
        assert forall|at: int| !occurs_at(text@, pattern@, at) by {}
        return false;
    }
    let last = text.len() - pattern.len();
    let mut at: usize = 0;
    while at <= last
        invariant
            pattern@.len() <= text@.len() <= usize::MAX,
            last == text@.len() - pattern@.len(),
            at <= last + 1,
            forall|before: int| 0 <= before < at ==> !occurs_at(text@, pattern@, before),
        decreases last + 1 - at,
    {
        let mut k: usize = 0;
        while k < pattern.len() && text[at + k] == pattern[k]
            invariant
                pattern@.len() <= text@.len() <= usize::MAX,
                last == text@.len() - pattern@.len(),
                at <= last,
                k <= pattern@.len(),
                forall|j: int| 0 <= j < k ==> text@[at + j] == pattern@[j],
            decreases pattern@.len() - k,
        {
            k += 1;
        }
        if k == pattern.len() {
            assert(occurs_at(text@, pattern@, at as int));
            return true;
        }
        at += 1;
    }
    assert forall|other: int| !occurs_at(text@, pattern@, other) by {}
    false
}

/// Finds where the last field of `text` starts: just behind its last
/// `separator`, or at zero.
pub fn find_last_field(text: &[u8], separator: u8) -> (start: usize)
    ensures
        start == last_field_start(text@, separator),
        start <= text@.len(),
{
    let mut end: usize = text.len();
    assert(text@.take(end as int) =~= text@);
    while end > 0 && text[end - 1] != separator
        invariant
            end <= text@.len(),
            last_field_start(text@.take(end as int), separator) == last_field_start(
                text@,
                separator,
            ),
        decreases end,
    {
        assert(text@.take(end as int).drop_last() =~= text@.take(end - 1));
        end -= 1;
    }
    end
}

/// Finds the first `separator` of `text` at or behind `from`; the length of
/// `text` if there is none.
pub fn find_separator(text: &[u8], separator: u8, from: usize) -> (at: usize)
    requires
        from <= text@.len(),
    ensures
        at == next_separator(text@, separator, from as int),
        from <= at <= text@.len(),
{
    let mut at: usize = from;
    while at < text.len() && text[at] != separator
        invariant
            from <= at <= text@.len(),
            next_separator(text@, separator, at as int) == next_separator(
                text@,
                separator,
                from as int,
            ),
        decreases text@.len() - at,
    {
        at += 1;
    }
    at
}

/// Reads the byte that `text[from..to]` spells in decimal.
pub fn parse_decimal_u8(text: &[u8], from: usize, to: usize) -> (value: Option<u8>)
    requires
        from <= to <= text@.len(),
    ensures
        value == decimal_u8(text@.subrange(from as int, to as int)),
{
    let ghost word = text@.subrange(from as int, to as int);
    let start: usize = if from < to && text[from] == PLUS {
        from + 1
    } else {
        from
    };
    let ghost digits = text@.subrange(start as int, to as int);
    assert(digits =~= if word.len() > 0 && word[0] == PLUS {
        word.skip(1)
    } else {
        word
    });
    if start == to {
        return None;
    }
    let mut value: u16 = 0;
    let mut at: usize = start;
    assert(digits.take(0) =~= Seq::<u8>::empty());
    while at < to
        invariant
            start <= at <= to <= text@.len(),
            digits == text@.subrange(start as int, to as int),
            word == text@.subrange(from as int, to as int),
            digits == if word.len() > 0 && word[0] == PLUS {
                word.skip(1)
            } else {
                word
            },
            digits.len() > 0,
            digits_value(digits.take(at - start)) == Some(value as int),
            value <= 255,
        decreases to - at,
    {
        let byte = text[at];
        if byte < DIGIT_ZERO || byte > DIGIT_NINE {
            proof {
                lemma_non_digit_spells_nothing(digits, at - start);
            }
            return None;
        }
        assert(digits.take(at - start + 1).drop_last() =~= digits.take(at - start));
        value = value * 10 + (byte - DIGIT_ZERO) as u16;
        at += 1;
        if value > 255 {
            proof {
                lemma_more_digits_spell_more(digits, at - start);
            }
            return None;
        }
    }
    assert(digits.take(at - start) =~= digits);
    Some(value as u8)
}

/// Reads the revision out of the last word of `hardware`.
pub fn parse_hardware_version(hardware: &[u8]) -> (version: Option<HwVersion>)
    ensures
        version == hardware_version(hardware@),
{
    let start = find_last_field(hardware, SPACE);
    let first_dot = find_separator(hardware, DOT, start);
    if first_dot >= hardware.len() {
        return None;
    }
    let second_dot = find_separator(hardware, DOT, first_dot + 1);
    if second_dot >= hardware.len() {
        return None;
    }
    let third_dot = find_separator(hardware, DOT, second_dot + 1);
    let major = parse_decimal_u8(hardware, start, first_dot);
    let minor = parse_decimal_u8(hardware, second_dot + 1, third_dot);
    match (major, minor) {
        (Some(version_major), Some(version_minor)) => Some(
            HwVersion { version_major, version_minor },
        ),
        _ => None,
    }
}

/// Reads model and revision of the controller out of its hardware
/// description.
pub fn controller_type_from_hardware(hardware: &[u8]) -> (r: Result<ControllerType, ()>)
    ensures
        r == controller_type_of(hardware@),
{
    let version = match parse_hardware_version(hardware) {
        Some(version) => version,
        None => {
            return Err(());
        },
    };
    let iv: [u8; 11] = [77, 111, 100, 117, 108, 105, 110, 101, 32, 73, 86];
    let mini: [u8; 13] = [77, 111, 100, 117, 108, 105, 110, 101, 32, 77, 105, 110, 105];
    let display: [u8; 16] = [
        77,
        111,
        100,
        117,
        108,
        105,
        110,
        101,
        32,
        68,
        105,
        115,
        112,
        108,
        97,
        121,
    ];
    let iii: [u8; 12] = [77, 111, 100, 117, 108, 105, 110, 101, 32, 73, 73, 73];
    assert(iv@ =~= moduline_iv());
    assert(mini@ =~= moduline_mini());
    assert(display@ =~= moduline_display());
    assert(iii@ =~= moduline_iii());
    if find(hardware, &iv) {
        Ok(ControllerType::ModulineIV(version))
    } else if find(hardware, &mini) {
        Ok(ControllerType::ModulineMini(version))
    } else if find(hardware, &display) {
        Ok(ControllerType::ModulineDisplay(version))
    } else if find(hardware, &iii) {
        Ok(ControllerType::ModulineIII(version))
    } else {
        Err(())
    }
}

/// The controller assumed where no hardware description can be read: a
/// Moduline II of revision 1.04.
pub fn default_controller_type() -> (controller_type: ControllerType)
    ensures
        controller_type == ControllerType::ModulineII(
            HwVersion { version_major: 1, version_minor: 4 },
        ),
{
    ControllerType::ModulineII(HwVersion { version_major: 1, version_minor: 4 })
}

} // verus!
