use crate::text::{
    all_digits, chars_of, decimal_in_range, decimal_string, decimal_text, decimal_value,
    find_char, lemma_decimal_text_value, parse_decimal, position_of,
};
use crate::FailureKind;
use vstd::prelude::*;

verus! {

/// A user's identifier on the platform: a whole number other than zero.
#[derive(Clone, Copy, Debug, PartialEq, Eq, Structural)]
pub struct UserId {
    value: u64,
}

impl View for UserId {
    type V = u64;

    closed spec fn view(&self) -> u64 {
        self.value
    }
}

impl UserId {
    #[verifier::type_invariant]
    spec fn is_nonzero(self) -> bool {
        self.value != 0
    }

    /// The identifier with the given number, unless the number is zero.
    pub fn new(value: u64) -> (id: Option<UserId>)
        ensures
            id is None <==> value == 0,
            id matches Some(u) ==> u@ == value,
    {
        if value == 0 {
            None
        } else {
            Some(UserId { value })
        }
    }

    /// The identifier's number, which is never zero.
    pub fn get(&self) -> (value: u64)
        ensures
            value == self@,
            value != 0,
    {
        proof {
            use_type_invariant(self);
        }
        self.value
    }
}

/// Whether `raw` opens with the two characters that mark a mention.
pub open spec fn has_marker(raw: Seq<char>) -> bool {
    raw.len() >= 2 && raw[0] == '<' && raw[1] == '@'
}

/// What a mention encloses: the characters after the marker, up to the next
/// `>` or, where none follows, to the end.
pub open spec fn mention_body(raw: Seq<char>) -> Seq<char> {
    raw.subrange(2, position_of(raw, '>', 2))
}

/// A numeral without the plus sign that may lead it.
pub open spec fn unsigned_part(numeral: Seq<char>) -> Seq<char> {
    if numeral.len() > 0 && numeral[0] == '+' {
        numeral.skip(1)
    } else {
        numeral
    }
}

/// The identifier that `raw` mentions, if it mentions one: `raw` opens with
/// the marker, and what the mention encloses is one or more decimal digits,
/// after at most one plus sign, that denote a number from one up to the
/// largest of 64 bits. Whatever follows the closing `>` plays no part.
pub open spec fn mention_target(raw: Seq<char>) -> Option<u64> {
    if !has_marker(raw) {
        None
    } else {
        match decimal_in_range(unsigned_part(mention_body(raw))) {
            Some(n) => if n != 0 {
                Some(n)
            } else {
                None
            },
            None => None,
        }
    }
}

/// Reads the user that a command argument mentions.
///
/// Fails with `MalformedMention` exactly when `raw` mentions no identifier:
/// the marker is missing, or what it encloses is no numeral of an identifier.
/// Nothing is accepted in part: one character that is no digit inside the
/// mention, or a number too large for an identifier, fails the whole.
pub fn parse_mention(raw: &str) -> (r: Result<UserId, FailureKind>)
    ensures
        match r {
            Ok(id) => mention_target(raw@) == Some(id@),
            Err(kind) => kind == FailureKind::MalformedMention && mention_target(raw@) is None,
        },
{
    let chars = chars_of(raw);
    if chars.len() < 2 || chars[0] != '<' || chars[1] != '@' {
        return Err(FailureKind::MalformedMention);
    }
    let end = find_char(&chars, '>', 2);
    let start: usize = if end > 2 && chars[2] == '+' {
        3
    } else {
        2
    };
    assert(chars@.subrange(start as int, end as int) =~= unsigned_part(mention_body(chars@)));
    match parse_decimal(&chars, start, end) {
        Some(n) => {
            if n != 0 {
                Ok(UserId { value: n })
            } else {
                Err(FailureKind::MalformedMention)
            }
        },
        None => Err(FailureKind::MalformedMention),
    }
}

/// A text that does not open with the marker mentions nobody, and neither does
/// one whose mention encloses no numeral: nothing at all, a plus sign alone, or
/// anything with a character other than a digit in it.
pub proof fn lemma_malformed_mention_is_refused(raw: Seq<char>)
    requires
        !has_marker(raw) || unsigned_part(mention_body(raw)).len() == 0 || !all_digits(
            unsigned_part(mention_body(raw)),
        ),
    ensures
        mention_target(raw) is None,
{
}

/// How the platform writes a mention of the user numbered `id`.
pub open spec fn mention_text(id: nat) -> Seq<char> {
    seq!['<', '@'] + decimal_text(id) + seq!['>']
}

/// Writes the mention of `user`.
pub fn mention_string(user: UserId) -> (s: String)
    ensures
        s@ == mention_text(user@ as nat),
{
    proof {
        reveal_strlit("<@");
        reveal_strlit(">");
    }
    let mut s = "<@".to_owned();
    s.append(decimal_string(user.get()).as_str());
    s.append(">");
    s
}

/// A digit-only numeral holds no `>`, so the mention that encloses it ends
/// where the numeral ends.
proof fn lemma_closing_after_digits(raw: Seq<char>, from: int, end: int)
    requires
        0 <= from <= end < raw.len(),
        all_digits(raw.subrange(from, end)),
        raw[end] == '>',
    ensures
        position_of(raw, '>', from) == end,
    decreases end - from,
{
    if from < end {
        assert(raw.subrange(from, end)[0] == raw[from]);
        assert(raw.subrange(from + 1, end) =~= raw.subrange(from, end).skip(1));
        lemma_closing_after_digits(raw, from + 1, end);
    }
}

/// A mention in its plain form is read as the number between its brackets:
/// for every run of digits that denotes a number from one up to the largest of
/// 64 bits, the marker, the digits and a closing `>` mention that number,
/// whatever text follows.
pub proof fn lemma_plain_mention_is_read(digits: Seq<char>, rest: Seq<char>)
    requires
        digits.len() > 0,
        all_digits(digits),
        0 < decimal_value(digits) <= u64::MAX,
    ensures
        mention_target(seq!['<', '@'] + digits + seq!['>'] + rest) == Some(
            decimal_value(digits) as u64,
        ),
{
    let raw = seq!['<', '@'] + digits + seq!['>'] + rest;
    let end = (digits.len() + 2) as int;
    lemma_closing_after_digits(raw, 2, end);
    assert(mention_body(raw) =~= digits);
}

/// Every mention that the platform writes is read back as the user it was
/// written for, whatever text follows it.
pub proof fn lemma_written_mention_is_read(id: u64, rest: Seq<char>)
    requires
        id != 0,
    ensures
        mention_target(mention_text(id as nat) + rest) == Some(id),
{
    lemma_decimal_text_value(id as nat);
    lemma_plain_mention_is_read(decimal_text(id as nat), rest);
}

} // verus!
